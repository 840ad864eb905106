# livegas

A gRPC service that follows new blocks of a chain, stores their gas fees in
SQLite and answers subscriptions to new blocks and queries for ranges of past
blocks.

- `src/` is the verified library (Verus): network names and codes
  (`network`), the hexadecimal form of block hashes (`hex`), blocks as they
  come from the chain, are sent and are stored (`block`), the state machine of
  the block event loop (`event_loop`) with its multi-step properties
  (`laws`), error statuses (`status`) and the checks of the `Gas` service
  (`gas`).
- `app/` is the server around it: the chain subscription (ethers), the
  database (sqlx), channels (tokio), the gRPC service (tonic), and the loop
  that performs the actions the state machine asks for.
- `tests/` runs the library on concrete values.
