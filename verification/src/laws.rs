//! Properties of the event loop that span several steps.

use vstd::prelude::*;
use crate::block::{
    BlockUpdateView, ChainBlockView, row_is_readable, row_of, update_from_chain, update_of_row,
    lemma_row_round_trip,
};
use crate::event_loop::{
    accepts, fetched_update, next_step, on_network, read_action, ActionView, ChainReadView,
    Command, EventLoopView, EventView, FetchStageView, PhaseView, StorageReadView,
};
use crate::hex::prefixed_hex;
use crate::network::{Network, network_name};

verus! {

/// The blocks that a range fetch collects for block `n`, given what storage,
/// the chain and the store answer for it.
pub open spec fn block_outcome(
    network: Network,
    n: u64,
    stored: spec_fn(u64) -> StorageReadView,
    chain: spec_fn(u64) -> ChainReadView,
    store_ok: spec_fn(u64) -> bool,
) -> Seq<BlockUpdateView> {
    match stored(n) {
        StorageReadView::Found(b) => seq![on_network(b, network)],
        _ => match chain(n) {
            ChainReadView::Found(cb) => if store_ok(n) {
                seq![fetched_update(network, cb)]
            } else {
                Seq::empty()
            },
            _ => Seq::empty(),
        },
    }
}

/// The blocks that a range fetch collects for `lo..=hi`, in ascending order
/// of block number.
pub open spec fn range_reply(
    network: Network,
    lo: u64,
    hi: u64,
    stored: spec_fn(u64) -> StorageReadView,
    chain: spec_fn(u64) -> ChainReadView,
    store_ok: spec_fn(u64) -> bool,
) -> Seq<BlockUpdateView>
    decreases hi - lo,
{
    if lo > hi {
        Seq::empty()
    } else if lo == hi {
        block_outcome(network, lo, stored, chain, store_ok)
    } else {
        block_outcome(network, lo, stored, chain, store_ok) + range_reply(
            network,
            (lo + 1) as u64,
            hi,
            stored,
            chain,
            store_ok,
        )
    }
}

/// The outcome that storage, the chain or the store hands back for the
/// outside work that a fetching loop waits on.
pub open spec fn world_event(
    s: EventLoopView,
    stored: spec_fn(u64) -> StorageReadView,
    chain: spec_fn(u64) -> ChainReadView,
    store_ok: spec_fn(u64) -> bool,
) -> EventView {
    match s.phase {
        PhaseView::Fetching { current, stage, .. } => match stage {
            FetchStageView::ReadingStorage => EventView::StorageRead(stored(current)),
            FetchStageView::FetchingChain => EventView::ChainRead(chain(current)),
            FetchStageView::StoringFetched(_) => EventView::Stored(store_ok(current)),
        },
        _ => EventView::Subscribed,
    }
}

/// Runs a fetching loop for at most `fuel` steps, answering its outside work
/// from `stored`, `chain` and `store_ok`; the blocks of its reply, if it
/// replies within that many steps on events it waits for.
pub open spec fn run_fetch(
    s: EventLoopView,
    a: ActionView,
    fuel: nat,
    stored: spec_fn(u64) -> StorageReadView,
    chain: spec_fn(u64) -> ChainReadView,
    store_ok: spec_fn(u64) -> bool,
) -> Option<Seq<BlockUpdateView>>
    decreases fuel,
{
    match a {
        ActionView::Reply(blocks) => Some(blocks),
        _ => {
            let e = world_event(s, stored, chain, store_ok);
            if fuel == 0 || !(s.phase is Fetching) || !accepts(s.phase, e) {
                None
            } else {
                let (s2, a2) = next_step(s, e);
                run_fetch(s2, a2, (fuel - 1) as nat, stored, chain, store_ok)
            }
        },
    }
}

/// Three steps per block of a range suffice.
pub open spec fn fetch_fuel(start: u64, end: u64) -> nat {
    if start <= end {
        (3 * (end - start + 1)) as nat
    } else {
        0
    }
}

proof fn lemma_finish(
    network: Network,
    start: u64,
    end: u64,
    current: u64,
    blocks: Seq<BlockUpdateView>,
    found: Seq<BlockUpdateView>,
    fuel: nat,
    stored: spec_fn(u64) -> StorageReadView,
    chain: spec_fn(u64) -> ChainReadView,
    store_ok: spec_fn(u64) -> bool,
)
    requires
        start <= current <= end,
        fuel >= 3 * (end - current),
        found == block_outcome(network, current, stored, chain, store_ok),
    ensures
        ({
            let (s, a) = crate::event_loop::advance(network, start, end, current, blocks + found);
            run_fetch(s, a, fuel, stored, chain, store_ok) == Some(
                blocks + range_reply(network, current, end, stored, chain, store_ok),
            )
        }),
    decreases end - current, 0int,
{
    let (s, a) = crate::event_loop::advance(network, start, end, current, blocks + found);
    if current >= end {
        assert(range_reply(network, current, end, stored, chain, store_ok) == found);
    } else {
        let next = (current + 1) as u64;
        lemma_fetch_from(network, start, end, next, blocks + found, fuel, stored, chain, store_ok);
        assert(range_reply(network, current, end, stored, chain, store_ok) == found + range_reply(
            network,
            next,
            end,
            stored,
            chain,
            store_ok,
        ));
        assert(blocks + found + range_reply(network, next, end, stored, chain, store_ok) =~= blocks
            + (found + range_reply(network, next, end, stored, chain, store_ok)));
    }
}

proof fn lemma_fetch_from(
    network: Network,
    start: u64,
    end: u64,
    current: u64,
    blocks: Seq<BlockUpdateView>,
    fuel: nat,
    stored: spec_fn(u64) -> StorageReadView,
    chain: spec_fn(u64) -> ChainReadView,
    store_ok: spec_fn(u64) -> bool,
)
    requires
        start <= current <= end,
        fuel >= 3 * (end - current + 1),
    ensures
        run_fetch(
            EventLoopView {
                network,
                phase: PhaseView::Fetching {
                    start,
                    end,
                    current,
                    blocks,
                    stage: FetchStageView::ReadingStorage,
                },
            },
            read_action(network, current),
            fuel,
            stored,
            chain,
            store_ok,
        ) == Some(blocks + range_reply(network, current, end, stored, chain, store_ok)),
    decreases end - current, 1int,
{
    let found = block_outcome(network, current, stored, chain, store_ok);
    let s0 = EventLoopView {
        network,
        phase: PhaseView::Fetching {
            start,
            end,
            current,
            blocks,
            stage: FetchStageView::ReadingStorage,
        },
    };
    let a0 = read_action(network, current);
    let e0 = EventView::StorageRead(stored(current));
    assert(world_event(s0, stored, chain, store_ok) == e0);
    assert(accepts(s0.phase, e0));
    let (s1x, a1x) = next_step(s0, e0);
    assert(run_fetch(s0, a0, fuel, stored, chain, store_ok) == run_fetch(
        s1x,
        a1x,
        (fuel - 1) as nat,
        stored,
        chain,
        store_ok,
    ));
    match stored(current) {
        StorageReadView::Found(b) => {
            assert(blocks.push(on_network(b, network)) =~= blocks + found);
            assert((s1x, a1x) == crate::event_loop::advance(
                network,
                start,
                end,
                current,
                blocks + found,
            ));
            lemma_finish(
                network,
                start,
                end,
                current,
                blocks,
                found,
                (fuel - 1) as nat,
                stored,
                chain,
                store_ok,
            );
        },
        _ => {
            let s1 = EventLoopView {
                network,
                phase: PhaseView::Fetching {
                    start,
                    end,
                    current,
                    blocks,
                    stage: FetchStageView::FetchingChain,
                },
            };
            assert(next_step(s0, e0) == (s1, ActionView::FetchFromChain(current)));
            let e1 = EventView::ChainRead(chain(current));
            assert(world_event(s1, stored, chain, store_ok) == e1);
            assert(accepts(s1.phase, e1));
            let (s2x, a2x) = next_step(s1, e1);
            assert(run_fetch(
                s1,
                ActionView::FetchFromChain(current),
                (fuel - 1) as nat,
                stored,
                chain,
                store_ok,
            ) == run_fetch(s2x, a2x, (fuel - 2) as nat, stored, chain, store_ok));
            match chain(current) {
                ChainReadView::Found(cb) => {
                    let u = fetched_update(network, cb);
                    let s2 = EventLoopView {
                        network,
                        phase: PhaseView::Fetching {
                            start,
                            end,
                            current,
                            blocks,
                            stage: FetchStageView::StoringFetched(u),
                        },
                    };
                    assert(next_step(s1, e1) == (s2, ActionView::Store(row_of(u))));
                    let e2 = EventView::Stored(store_ok(current));
                    assert(world_event(s2, stored, chain, store_ok) == e2);
                    assert(accepts(s2.phase, e2));
                    let (s3x, a3x) = next_step(s2, e2);
                    assert(run_fetch(s2, ActionView::Store(row_of(u)), (fuel - 2) as nat, stored, chain, store_ok)
                        == run_fetch(s3x, a3x, (fuel - 3) as nat, stored, chain, store_ok));
                    if store_ok(current) {
                        assert(blocks.push(u) =~= blocks + found);
                    } else {
                        assert(blocks =~= blocks + found);
                    }
                    assert((s3x, a3x) == crate::event_loop::advance(
                        network,
                        start,
                        end,
                        current,
                        blocks + found,
                    ));
                    lemma_finish(
                        network,
                        start,
                        end,
                        current,
                        blocks,
                        found,
                        (fuel - 3) as nat,
                        stored,
                        chain,
                        store_ok,
                    );
                },
                _ => {
                    assert(blocks =~= blocks + found);
                    assert((s2x, a2x) == crate::event_loop::advance(
                        network,
                        start,
                        end,
                        current,
                        blocks + found,
                    ));
                    lemma_finish(
                        network,
                        start,
                        end,
                        current,
                        blocks,
                        found,
                        (fuel - 2) as nat,
                        stored,
                        chain,
                        store_ok,
                    );
                },
            }
        },
    }
}

/// A `FetchBlocks` command for `start..=end` is answered, within three steps
/// per block, with the blocks of the range in ascending order of number:
/// for each number, the block read from storage (given this loop's network),
/// or else the block fetched from the chain once storing it succeeded; a
/// number for which neither holds is left out.  Each step on the way handles
/// an event that the loop waits for.
pub proof fn lemma_fetch_answers_range(
    network: Network,
    start: u64,
    end: u64,
    stored: spec_fn(u64) -> StorageReadView,
    chain: spec_fn(u64) -> ChainReadView,
    store_ok: spec_fn(u64) -> bool,
)
    ensures
        ({
            let s = EventLoopView { network, phase: PhaseView::Listening };
            let e = EventView::Command(Command::FetchBlocks { start_block: start, end_block: end });
            let (s1, a1) = next_step(s, e);
            run_fetch(s1, a1, fetch_fuel(start, end), stored, chain, store_ok) == Some(
                range_reply(network, start, end, stored, chain, store_ok),
            )
        }),
{
    if start <= end {
        lemma_fetch_from(
            network,
            start,
            end,
            start,
            Seq::empty(),
            fetch_fuel(start, end),
            stored,
            chain,
            store_ok,
        );
        assert(Seq::<BlockUpdateView>::empty() + range_reply(
            network,
            start,
            end,
            stored,
            chain,
            store_ok,
        ) =~= range_reply(network, start, end, stored, chain, store_ok));
    }
}

/// A new block is first stored; it is published only once storing it
/// succeeded, and what is published is what its stored row reads back as.
/// When storing fails the loop publishes nothing and goes back to waiting.
pub proof fn lemma_live_block_stored_then_published(
    network: Network,
    block: ChainBlockView,
    ok: bool,
)
    requires
        block.gas_fee_bits is Some,
    ensures
        ({
            let s = EventLoopView { network, phase: PhaseView::Listening };
            let update = update_from_chain(network, block, block.gas_fee_bits.unwrap());
            let (s1, a1) = next_step(s, EventView::NewBlock(block));
            let (s2, a2) = next_step(s1, EventView::Stored(ok));
            &&& a1 == ActionView::Store(row_of(update))
            &&& accepts(s1.phase, EventView::Stored(ok))
            &&& row_is_readable(row_of(update))
            &&& if ok {
                &&& a2 == ActionView::Publish(update_of_row(row_of(update)))
                &&& s2.phase is PublishingLive
            } else {
                &&& a2 is Wait
                &&& s2.phase is Listening
            }
        }),
{
    let update = update_from_chain(network, block, block.gas_fee_bits.unwrap());
    lemma_row_round_trip(update);
}

/// The loop stops exactly when setting up the subscription fails (it then
/// reports the failure) or when publishing a block fails (it then halts);
/// a stopped loop waits for no event.
pub proof fn lemma_stops_only_on_failure(s: EventLoopView, e: EventView)
    requires
        accepts(s.phase, e),
    ensures
        (next_step(s, e).0.phase is Stopped) <==> (e is SubscribeFailed || e == EventView::Published(
            false,
        )),
        e is SubscribeFailed ==> next_step(s, e).1 is ReportFailure,
        e == EventView::Published(false) ==> next_step(s, e).1 is Halt,
        forall|later: EventView| !accepts(PhaseView::Stopped, later),
{
}

/// During a range fetch, storage is read for the numbers of the range one
/// after the other in ascending order, and a block found in storage is
/// neither fetched from the chain nor stored again: the next work is reading
/// the following number, or answering after the last one.
pub proof fn lemma_storage_hit_moves_on(
    network: Network,
    start: u64,
    end: u64,
    current: u64,
    blocks: Seq<BlockUpdateView>,
    found: BlockUpdateView,
)
    requires
        start <= current <= end,
    ensures
        ({
            let s = EventLoopView {
                network,
                phase: PhaseView::Fetching {
                    start,
                    end,
                    current,
                    blocks,
                    stage: FetchStageView::ReadingStorage,
                },
            };
            let (s1, a1) = next_step(s, EventView::StorageRead(StorageReadView::Found(found)));
            if current < end {
                &&& a1 == read_action(network, (current + 1) as u64)
                &&& s1.phase matches PhaseView::Fetching { current: next, blocks: kept, .. } && next
                    == current + 1 && kept == blocks.push(on_network(found, network))
            } else {
                &&& a1 == ActionView::Reply(blocks.push(on_network(found, network)))
                &&& s1.phase is Listening
            }
        }),
{
}

/// The blocks a range fetch has collected so far: those of its reply, once
/// it has answered, else those it holds.
pub open spec fn collected(s: EventLoopView, a: ActionView) -> Seq<BlockUpdateView> {
    match a {
        ActionView::Reply(blocks) => blocks,
        _ => match s.phase {
            PhaseView::Fetching { blocks, .. } => blocks,
            _ => Seq::empty(),
        },
    }
}

/// A block found in storage during a range fetch is added to the collected
/// blocks, after those collected before, with its stored number, hash,
/// timestamp and gas fee unchanged; only its network is the loop's.
pub proof fn lemma_stored_block_kept_as_stored(
    network: Network,
    start: u64,
    end: u64,
    current: u64,
    blocks: Seq<BlockUpdateView>,
    found: BlockUpdateView,
)
    requires
        start <= current <= end,
    ensures
        ({
            let s = EventLoopView {
                network,
                phase: PhaseView::Fetching {
                    start,
                    end,
                    current,
                    blocks,
                    stage: FetchStageView::ReadingStorage,
                },
            };
            let (s1, a1) = next_step(s, EventView::StorageRead(StorageReadView::Found(found)));
            let got = collected(s1, a1);
            &&& got.len() == blocks.len() + 1
            &&& got.take(blocks.len() as int) == blocks
            &&& got.last().network == network
            &&& got.last().block_number == found.block_number
            &&& got.last().block_hash == found.block_hash
            &&& got.last().timestamp == found.timestamp
            &&& got.last().gas_fee_bits == found.gas_fee_bits
        }),
{
    let s = EventLoopView {
        network,
        phase: PhaseView::Fetching {
            start,
            end,
            current,
            blocks,
            stage: FetchStageView::ReadingStorage,
        },
    };
    let (s1, a1) = next_step(s, EventView::StorageRead(StorageReadView::Found(found)));
    assert(collected(s1, a1) == blocks.push(on_network(found, network)));
    assert(blocks.push(on_network(found, network)).take(blocks.len() as int) =~= blocks);
}

/// A block fetched from the chain during a range fetch is stored with the
/// chain block's number, hash (as `0x` hex), timestamp and base fee, under the
/// loop's network name; a block without a base fee is stored with the fee `0`.
/// When storing succeeds it is added to the collected blocks with those same
/// values; when storing fails nothing is added.
pub proof fn lemma_fetched_block_keeps_chain_values(
    network: Network,
    start: u64,
    end: u64,
    current: u64,
    blocks: Seq<BlockUpdateView>,
    block: ChainBlockView,
    ok: bool,
)
    requires
        start <= current <= end,
    ensures
        ({
            let s = EventLoopView {
                network,
                phase: PhaseView::Fetching {
                    start,
                    end,
                    current,
                    blocks,
                    stage: FetchStageView::FetchingChain,
                },
            };
            let (s1, a1) = next_step(s, EventView::ChainRead(ChainReadView::Found(block)));
            &&& a1 matches ActionView::Store(row) && {
                &&& row.network == network_name(network)
                &&& row.block_number == block.number as i64
                &&& row.block_hash == prefixed_hex(block.hash)
                &&& row.block_timestamp == block.timestamp as i64
                &&& (block.gas_fee_bits matches Some(f) ==> row.gas_fee_bits == f)
                &&& (block.gas_fee_bits is None ==> row.gas_fee_bits == 0)
            }
            &&& accepts(s1.phase, EventView::Stored(ok))
            &&& ({
                let (s2, a2) = next_step(s1, EventView::Stored(ok));
                let got = collected(s2, a2);
                if ok {
                    &&& got.len() == blocks.len() + 1
                    &&& got.take(blocks.len() as int) == blocks
                    &&& got.last().network == network
                    &&& got.last().block_number == block.number
                    &&& got.last().block_hash == prefixed_hex(block.hash)
                    &&& got.last().timestamp == block.timestamp
                    &&& (block.gas_fee_bits matches Some(f) ==> got.last().gas_fee_bits == f)
                    &&& (block.gas_fee_bits is None ==> got.last().gas_fee_bits == 0)
                } else {
                    got == blocks
                }
            })
        }),
{
    let u = fetched_update(network, block);
    assert(blocks.push(u).take(blocks.len() as int) =~= blocks);
}

/// A live block that was stored is then being published: the loop waits for
/// the outcome of publishing, whichever it is; after a successful publish it
/// listens again for new blocks and commands.
pub proof fn lemma_published_block_outcome_awaited(
    network: Network,
    block: ChainBlockView,
    ok: bool,
)
    requires
        block.gas_fee_bits is Some,
    ensures
        ({
            let s = EventLoopView { network, phase: PhaseView::Listening };
            let (s1, a1) = next_step(s, EventView::NewBlock(block));
            let (s2, a2) = next_step(s1, EventView::Stored(true));
            let (s3, a3) = next_step(s2, EventView::Published(true));
            &&& accepts(s2.phase, EventView::Published(ok))
            &&& s3.phase is Listening
            &&& a3 is Wait
            &&& accepts(s3.phase, EventView::NewBlock(block))
            &&& accepts(s3.phase, EventView::Command(Command::FetchBlocks { start_block: 0, end_block: 0 }))
        }),
{
}

/// Every phase but the stopped one waits for some event.
pub proof fn lemma_only_stopped_waits_for_nothing(phase: PhaseView)
    ensures
        !(phase is Stopped) <==> exists|e: EventView| accepts(phase, e),
{
    let e = match phase {
        PhaseView::Subscribing => EventView::Subscribed,
        PhaseView::Listening => EventView::Command(Command::FetchBlocks { start_block: 0, end_block: 0 }),
        PhaseView::StoringLive(_) => EventView::Stored(true),
        PhaseView::PublishingLive => EventView::Published(true),
        PhaseView::Fetching { stage, .. } => match stage {
            FetchStageView::ReadingStorage => EventView::StorageRead(StorageReadView::Missing),
            FetchStageView::FetchingChain => EventView::ChainRead(ChainReadView::Missing),
            FetchStageView::StoringFetched(_) => EventView::Stored(true),
        },
        PhaseView::Stopped => EventView::Subscribed,
    };
    if !(phase is Stopped) {
        assert(accepts(phase, e));
    }
}

} // verus!
