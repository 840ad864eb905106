//! The checks and answers of the `Gas` service: which networks it serves,
//! which range requests it accepts, and how a range reply is put together.

use vstd::prelude::*;
use crate::block::BlockUpdate;
use crate::event_loop::{Command, updates_view};
use crate::network::Network;
use crate::status::{Code, RpcError, RpcErrorView};

verus! {

/// The message for a network without a running provider.
pub open spec fn unsupported_network_message() -> Seq<char> {
    "Unsupported network"@
}

/// The message for a range whose bounds are not multiples of 100.
pub open spec fn unaligned_range_message() -> Seq<char> {
    "start_block and end_block have to be multiples of 100"@
}

/// The message when the command cannot be handed to the event loop.
pub open spec fn send_failed_message() -> Seq<char> {
    "Failed to send command"@
}

/// The message when the event loop's answer cannot be received.
pub open spec fn receive_failed_message() -> Seq<char> {
    "Failed to receive command response"@
}

/// A range can be requested when both bounds are multiples of 100.
pub open spec fn range_is_aligned(start_block: u64, end_block: u64) -> bool {
    start_block % 100 == 0 && end_block % 100 == 0
}

/// The networks for which the service runs a provider.
pub struct GasService {
    networks: Vec<Network>,
}

impl View for GasService {
    type V = Set<Network>;

    closed spec fn view(&self) -> Set<Network> {
        Set::new(|n: Network| self.networks@.contains(n))
    }
}

impl GasService {
    /// A service that serves no network yet.
    pub fn new() -> (service: GasService)
        ensures
            service@ == Set::<Network>::empty(),
    {
        let service = GasService { networks: Vec::new() };
        assert(service@ =~= Set::<Network>::empty());
        service
    }

    /// Whether the service runs a provider for `network`.
    pub fn serves(&self, network: Network) -> (served: bool)
        ensures
            served == self@.contains(network),
    {
        let n = self.networks.len();
        let mut i: usize = 0;
        while i < n
            invariant
                n == self.networks@.len(),
                i <= n,
                forall|j: int| 0 <= j < i ==> self.networks@[j] != network,
            decreases n - i,
        {
            if self.networks[i] == network {
                assert(self.networks@.contains(network));
                return true;
            }
            i = i + 1;
        }
        false
    }

    /// Records that the service now runs a provider for `network`.
    pub fn register(&mut self, network: Network)
        ensures
            final(self)@ == old(self)@.insert(network),
    {
        if !self.serves(network) {
            self.networks.push(network);
            assert forall|n: Network| final(self).networks@.contains(n) <==> (old(
                self,
            ).networks@.contains(n) || n == network) by {
                if old(self).networks@.contains(n) {
                    let j = choose|j: int|
                        0 <= j < old(self).networks@.len() && old(self).networks@[j] == n;
                    assert(final(self).networks@[j] == n);
                }
                if n == network {
                    assert(final(self).networks@[old(self).networks@.len() as int] == n);
                }
            }
        }
        assert(final(self)@ =~= old(self)@.insert(network));
    }

    /// Checks a subscription request: a served network is accepted, any
    /// other is refused as an invalid argument.
    pub fn subscribe(&self, network: Network) -> (result: Result<Network, RpcError>)
        ensures
            self@.contains(network) ==> result == Ok::<Network, RpcError>(network),
            !self@.contains(network) ==> (result matches Err(e) && e@ == (RpcErrorView {
                code: Code::InvalidArgument,
                message: unsupported_network_message(),
            })),
    {
        if self.serves(network) {
            Ok(network)
        } else {
            Err(RpcError::new(Code::InvalidArgument, "Unsupported network"))
        }
    }

    /// Checks a range request and gives the command for the event loop of
    /// `network`.  Bounds that are not both multiples of 100 are refused
    /// first; then a network that is not served.
    pub fn blocks(&self, network: Network, start_block: u64, end_block: u64) -> (result: Result<
        Command,
        RpcError,
    >)
        ensures
            (start_block % 100 != 0 || end_block % 100 != 0) ==> (result matches Err(e) && e@ == (
            RpcErrorView { code: Code::InvalidArgument, message: unaligned_range_message() })),
            (start_block % 100 == 0 && end_block % 100 == 0) && !self@.contains(network) ==> (
            result matches Err(e) && e@ == (RpcErrorView {
                code: Code::InvalidArgument,
                message: unsupported_network_message(),
            })),
            (start_block % 100 == 0 && end_block % 100 == 0) && self@.contains(network) ==> result
                == Ok::<Command, RpcError>(Command::FetchBlocks { start_block, end_block }),
            (result matches Err(e) && e@.message == unaligned_range_message()) <==> (start_block
                % 100 != 0 || end_block % 100 != 0),
            result is Ok <==> (start_block % 100 == 0 && end_block % 100 == 0 && self@.contains(
                network,
            )),
    {
        proof {
            lemma_refusals_differ();
        }
        if start_block % 100 != 0 || end_block % 100 != 0 {
            return Err(
                RpcError::new(
                    Code::InvalidArgument,
                    "start_block and end_block have to be multiples of 100",
                ),
            );
        }
        if !self.serves(network) {
            return Err(RpcError::new(Code::InvalidArgument, "Unsupported network"));
        }
        Ok(Command::FetchBlocks { start_block, end_block })
    }
}

/// The answer to a range request, given whether the command reached the
/// event loop and the loop's answer, if one was received.
pub fn range_answer(sent: bool, answer: Option<Result<Vec<BlockUpdate>, RpcError>>) -> (result:
    Result<Vec<BlockUpdate>, RpcError>)
    ensures
        !sent ==> (result matches Err(e) && e@ == (RpcErrorView {
            code: Code::Internal,
            message: send_failed_message(),
        })),
        sent && answer is None ==> (result matches Err(e) && e@ == (RpcErrorView {
            code: Code::Internal,
            message: receive_failed_message(),
        })),
        sent ==> (answer matches Some(Err(a)) ==> (result matches Err(e) && e@ == a@)),
        sent ==> (answer matches Some(Ok(blocks)) ==> (result matches Ok(r) && updates_view(r@)
            == updates_view(blocks@))),
{
    if !sent {
        return Err(RpcError::new(Code::Internal, "Failed to send command"));
    }
    match answer {
        None => Err(RpcError::new(Code::Internal, "Failed to receive command response")),
        Some(inner) => inner,
    }
}

/// A range is aligned exactly when both of its bounds are multiples of 100.
pub proof fn lemma_range_alignment(start_block: u64, end_block: u64)
    ensures
        range_is_aligned(start_block, end_block) <==> (start_block % 100 == 0 && end_block % 100
            == 0),
        range_is_aligned(start_block, end_block) ==> start_block / 100 * 100 == start_block
            && end_block / 100 * 100 == end_block,
{
}

/// The two refusals of a range request carry different messages, so a caller
/// tells them apart.
pub proof fn lemma_refusals_differ()
    ensures
        unaligned_range_message() != unsupported_network_message(),
{
    reveal_strlit("Unsupported network");
    reveal_strlit("start_block and end_block have to be multiples of 100");
    assert(unaligned_range_message()[0] != unsupported_network_message()[0]);
}

} // verus!
