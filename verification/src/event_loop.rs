//! The decisions of the block event loop of one network.
//!
//! The loop first subscribes to new blocks.  It then waits for either a new
//! block from the subscription or a command.  A new block is stored and, once
//! stored, published to subscribers.  A `FetchBlocks` command is answered
//! with the blocks of a range: each block is read from storage, or else
//! fetched from the chain and stored.
//!
//! `EventLoop::step` takes the outcome of the last piece of outside work (an
//! `Event`) and returns the next piece of outside work to do (an `Action`).
//! The caller performs the action and hands its outcome back as the next
//! event.

use vstd::prelude::*;
use crate::block::{
    BlockRow, BlockRowView, BlockUpdate, BlockUpdateView, ChainBlock, ChainBlockView, row_of,
    update_from_chain,
};
use crate::network::{Network, network_name};
use crate::status::{Code, RpcError, RpcErrorView};

verus! {

/// A command sent to the event loop.
#[derive(Clone, Copy, Debug, PartialEq, Eq, Structural)]
pub enum Command {
    /// Answer with the blocks numbered `start_block..=end_block`.
    FetchBlocks { start_block: u64, end_block: u64 },
}

/// The outcome of reading one block from storage.
pub enum StorageRead {
    Found(BlockUpdate),
    Missing,
    Failed,
}

/// The outcome of fetching one block from the chain.
pub enum ChainRead {
    Found(ChainBlock),
    Missing,
    Failed,
}

/// The outcome of a piece of outside work, or something that arrived.
pub enum Event {
    /// The subscription to new blocks was set up.
    Subscribed,
    /// The subscription could not be set up, for the given reason.
    SubscribeFailed { reason: String },
    /// The subscription delivered a new block.
    NewBlock(ChainBlock),
    /// A command arrived.
    Command(Command),
    /// Storing a block finished, successfully or not.
    Stored { ok: bool },
    /// Publishing a block to subscribers finished, successfully or not.
    Published { ok: bool },
    /// Reading a block from storage finished.
    StorageRead(StorageRead),
    /// Fetching a block from the chain finished.
    ChainRead(ChainRead),
}

/// The next piece of outside work.
pub enum Action {
    /// Nothing to do: wait for the next new block or command.
    Wait,
    /// Send this error to subscribers; the loop has stopped.
    ReportFailure(RpcError),
    /// Store this row.
    Store(BlockRow),
    /// Publish this update to subscribers.
    Publish(BlockUpdate),
    /// Read the block with this network name and number from storage.
    ReadStored { network: String, block_number: i64 },
    /// Fetch the block with this number from the chain.
    FetchFromChain { number: u64 },
    /// Answer the pending command with these blocks.
    Reply(Vec<BlockUpdate>),
    /// Stop the loop.
    Halt,
}

/// Where a range fetch stands for its current block.
pub enum FetchStage {
    ReadingStorage,
    FetchingChain,
    StoringFetched(BlockUpdate),
}

/// Where the event loop stands.
pub enum Phase {
    Subscribing,
    Listening,
    StoringLive(BlockUpdate),
    PublishingLive,
    Fetching { start: u64, end: u64, current: u64, blocks: Vec<BlockUpdate>, stage: FetchStage },
    Stopped,
}

/// The state of the event loop of one network.
pub struct EventLoop {
    network: Network,
    phase: Phase,
}

// ---------------------------------------------------------------------------
// Views
// ---------------------------------------------------------------------------

pub enum StorageReadView {
    Found(BlockUpdateView),
    Missing,
    Failed,
}

pub enum ChainReadView {
    Found(ChainBlockView),
    Missing,
    Failed,
}

pub enum EventView {
    Subscribed,
    SubscribeFailed(Seq<char>),
    NewBlock(ChainBlockView),
    Command(Command),
    Stored(bool),
    Published(bool),
    StorageRead(StorageReadView),
    ChainRead(ChainReadView),
}

pub enum ActionView {
    Wait,
    ReportFailure(RpcErrorView),
    Store(BlockRowView),
    Publish(BlockUpdateView),
    ReadStored(Seq<char>, i64),
    FetchFromChain(u64),
    Reply(Seq<BlockUpdateView>),
    Halt,
}

pub enum FetchStageView {
    ReadingStorage,
    FetchingChain,
    StoringFetched(BlockUpdateView),
}

pub enum PhaseView {
    Subscribing,
    Listening,
    StoringLive(BlockUpdateView),
    PublishingLive,
    Fetching {
        start: u64,
        end: u64,
        current: u64,
        blocks: Seq<BlockUpdateView>,
        stage: FetchStageView,
    },
    Stopped,
}

pub struct EventLoopView {
    pub network: Network,
    pub phase: PhaseView,
}

/// The views of a sequence of updates.
pub open spec fn updates_view(updates: Seq<BlockUpdate>) -> Seq<BlockUpdateView> {
    updates.map_values(|u: BlockUpdate| u@)
}

impl View for StorageRead {
    type V = StorageReadView;

    open spec fn view(&self) -> StorageReadView {
        match self {
            StorageRead::Found(u) => StorageReadView::Found(u@),
            StorageRead::Missing => StorageReadView::Missing,
            StorageRead::Failed => StorageReadView::Failed,
        }
    }
}

impl View for ChainRead {
    type V = ChainReadView;

    open spec fn view(&self) -> ChainReadView {
        match self {
            ChainRead::Found(b) => ChainReadView::Found(b@),
            ChainRead::Missing => ChainReadView::Missing,
            ChainRead::Failed => ChainReadView::Failed,
        }
    }
}

impl View for Event {
    type V = EventView;

    open spec fn view(&self) -> EventView {
        match self {
            Event::Subscribed => EventView::Subscribed,
            Event::SubscribeFailed { reason } => EventView::SubscribeFailed(reason@),
            Event::NewBlock(b) => EventView::NewBlock(b@),
            Event::Command(c) => EventView::Command(*c),
            Event::Stored { ok } => EventView::Stored(*ok),
            Event::Published { ok } => EventView::Published(*ok),
            Event::StorageRead(r) => EventView::StorageRead(r@),
            Event::ChainRead(r) => EventView::ChainRead(r@),
        }
    }
}

impl View for Action {
    type V = ActionView;

    open spec fn view(&self) -> ActionView {
        match self {
            Action::Wait => ActionView::Wait,
            Action::ReportFailure(e) => ActionView::ReportFailure(e@),
            Action::Store(r) => ActionView::Store(r@),
            Action::Publish(u) => ActionView::Publish(u@),
            Action::ReadStored { network, block_number } => ActionView::ReadStored(
                network@,
                *block_number,
            ),
            Action::FetchFromChain { number } => ActionView::FetchFromChain(*number),
            Action::Reply(blocks) => ActionView::Reply(updates_view(blocks@)),
            Action::Halt => ActionView::Halt,
        }
    }
}

impl View for FetchStage {
    type V = FetchStageView;

    open spec fn view(&self) -> FetchStageView {
        match self {
            FetchStage::ReadingStorage => FetchStageView::ReadingStorage,
            FetchStage::FetchingChain => FetchStageView::FetchingChain,
            FetchStage::StoringFetched(u) => FetchStageView::StoringFetched(u@),
        }
    }
}

impl View for Phase {
    type V = PhaseView;

    open spec fn view(&self) -> PhaseView {
        match self {
            Phase::Subscribing => PhaseView::Subscribing,
            Phase::Listening => PhaseView::Listening,
            Phase::StoringLive(u) => PhaseView::StoringLive(u@),
            Phase::PublishingLive => PhaseView::PublishingLive,
            Phase::Fetching { start, end, current, blocks, stage } => PhaseView::Fetching {
                start: *start,
                end: *end,
                current: *current,
                blocks: updates_view(blocks@),
                stage: stage@,
            },
            Phase::Stopped => PhaseView::Stopped,
        }
    }
}

impl View for EventLoop {
    type V = EventLoopView;

    closed spec fn view(&self) -> EventLoopView {
        EventLoopView { network: self.network, phase: self.phase@ }
    }
}

// ---------------------------------------------------------------------------
// The transition function
// ---------------------------------------------------------------------------

/// A range fetch points at a block inside its range.
pub open spec fn phase_well_formed(phase: PhaseView) -> bool {
    match phase {
        PhaseView::Fetching { start, end, current, .. } => start <= current <= end,
        _ => true,
    }
}

/// The events that a phase waits for; a stopped loop waits for none.
pub open spec fn accepts(phase: PhaseView, event: EventView) -> bool {
    match phase {
        PhaseView::Subscribing => event is Subscribed || event is SubscribeFailed,
        PhaseView::Listening => event is NewBlock || event is Command,
        PhaseView::StoringLive(_) => event is Stored,
        PhaseView::PublishingLive => event is Published,
        PhaseView::Fetching { stage, .. } => match stage {
            FetchStageView::ReadingStorage => event is StorageRead,
            FetchStageView::FetchingChain => event is ChainRead,
            FetchStageView::StoringFetched(_) => event is Stored,
        },
        PhaseView::Stopped => false,
    }
}

/// A new block from the subscription must carry a gas fee.
pub open spec fn has_live_fee(event: EventView) -> bool {
    event matches EventView::NewBlock(b) ==> b.gas_fee_bits is Some
}

/// The message sent when the subscription fails.
pub open spec fn subscribe_failure_message(reason: Seq<char>) -> Seq<char> {
    "failed to subscribe to blocks: "@ + reason
}

/// A stored update, given the network of this loop.
pub open spec fn on_network(update: BlockUpdateView, network: Network) -> BlockUpdateView {
    BlockUpdateView { network, ..update }
}

/// The update for a block fetched from the chain: a block without a gas fee
/// gets the fee `0.0`.
pub open spec fn fetched_update(network: Network, block: ChainBlockView) -> BlockUpdateView {
    update_from_chain(
        network,
        block,
        match block.gas_fee_bits {
            Some(f) => f,
            None => 0,
        },
    )
}

/// Reading the block `number` from storage.
pub open spec fn read_action(network: Network, number: u64) -> ActionView {
    ActionView::ReadStored(network_name(network), number as i64)
}

/// Finishing the current block of a range fetch with `blocks` collected so
/// far: either answer, after the last block, or go on with the next one.
pub open spec fn advance(
    network: Network,
    start: u64,
    end: u64,
    current: u64,
    blocks: Seq<BlockUpdateView>,
) -> (EventLoopView, ActionView) {
    if current >= end {
        (EventLoopView { network, phase: PhaseView::Listening }, ActionView::Reply(blocks))
    } else {
        let next = (current + 1) as u64;
        (
            EventLoopView {
                network,
                phase: PhaseView::Fetching {
                    start,
                    end,
                    current: next,
                    blocks,
                    stage: FetchStageView::ReadingStorage,
                },
            },
            read_action(network, next),
        )
    }
}

/// Starting a range fetch for `start..=end`; an empty range is answered at
/// once.
pub open spec fn begin_fetch(network: Network, start: u64, end: u64) -> (
    EventLoopView,
    ActionView,
) {
    if start <= end {
        (
            EventLoopView {
                network,
                phase: PhaseView::Fetching {
                    start,
                    end,
                    current: start,
                    blocks: Seq::empty(),
                    stage: FetchStageView::ReadingStorage,
                },
            },
            read_action(network, start),
        )
    } else {
        (EventLoopView { network, phase: PhaseView::Listening }, ActionView::Reply(Seq::empty()))
    }
}

/// The next state and action of the loop on an event that its phase waits for.
pub open spec fn next_step(s: EventLoopView, event: EventView) -> (EventLoopView, ActionView) {
    let network = s.network;
    let unchanged = (s, ActionView::Wait);
    match s.phase {
        PhaseView::Subscribing => match event {
            EventView::Subscribed => (
                EventLoopView { network, phase: PhaseView::Listening },
                ActionView::Wait,
            ),
            EventView::SubscribeFailed(reason) => (
                EventLoopView { network, phase: PhaseView::Stopped },
                ActionView::ReportFailure(
                    RpcErrorView {
                        code: Code::Internal,
                        message: subscribe_failure_message(reason),
                    },
                ),
            ),
            _ => unchanged,
        },
        PhaseView::Listening => match event {
            EventView::NewBlock(b) => {
                let update = update_from_chain(network, b, b.gas_fee_bits.unwrap());
                (
                    EventLoopView { network, phase: PhaseView::StoringLive(update) },
                    ActionView::Store(row_of(update)),
                )
            },
            EventView::Command(Command::FetchBlocks { start_block, end_block }) => begin_fetch(
                network,
                start_block,
                end_block,
            ),
            _ => unchanged,
        },
        PhaseView::StoringLive(update) => match event {
            EventView::Stored(ok) => if ok {
                (
                    EventLoopView { network, phase: PhaseView::PublishingLive },
                    ActionView::Publish(update),
                )
            } else {
                (EventLoopView { network, phase: PhaseView::Listening }, ActionView::Wait)
            },
            _ => unchanged,
        },
        PhaseView::PublishingLive => match event {
            EventView::Published(ok) => if ok {
                (EventLoopView { network, phase: PhaseView::Listening }, ActionView::Wait)
            } else {
                (EventLoopView { network, phase: PhaseView::Stopped }, ActionView::Halt)
            },
            _ => unchanged,
        },
        PhaseView::Fetching { start, end, current, blocks, stage } => match stage {
            FetchStageView::ReadingStorage => match event {
                EventView::StorageRead(StorageReadView::Found(b)) => advance(
                    network,
                    start,
                    end,
                    current,
                    blocks.push(on_network(b, network)),
                ),
                EventView::StorageRead(_) => (
                    EventLoopView {
                        network,
                        phase: PhaseView::Fetching {
                            start,
                            end,
                            current,
                            blocks,
                            stage: FetchStageView::FetchingChain,
                        },
                    },
                    ActionView::FetchFromChain(current),
                ),
                _ => unchanged,
            },
            FetchStageView::FetchingChain => match event {
                EventView::ChainRead(ChainReadView::Found(b)) => {
                    let update = fetched_update(network, b);
                    (
                        EventLoopView {
                            network,
                            phase: PhaseView::Fetching {
                                start,
                                end,
                                current,
                                blocks,
                                stage: FetchStageView::StoringFetched(update),
                            },
                        },
                        ActionView::Store(row_of(update)),
                    )
                },
                EventView::ChainRead(_) => advance(network, start, end, current, blocks),
                _ => unchanged,
            },
            FetchStageView::StoringFetched(update) => match event {
                EventView::Stored(ok) => advance(
                    network,
                    start,
                    end,
                    current,
                    if ok {
                        blocks.push(update)
                    } else {
                        blocks
                    },
                ),
                _ => unchanged,
            },
        },
        PhaseView::Stopped => unchanged,
    }
}

proof fn lemma_push_view(blocks: Seq<BlockUpdate>, update: BlockUpdate)
    ensures
        updates_view(blocks.push(update)) == updates_view(blocks).push(update@),
{
    assert(updates_view(blocks.push(update)) =~= updates_view(blocks).push(update@));
}

fn subscribe_failure(reason: &String) -> (error: RpcError)
    ensures
        error@ == (RpcErrorView {
            code: Code::Internal,
            message: subscribe_failure_message(reason@),
        }),
{
    let message = String::from_str("failed to subscribe to blocks: ").concat(reason.as_str());
    RpcError { code: Code::Internal, message }
}

fn read_stored(network: Network, number: u64) -> (action: Action)
    ensures
        action@ == read_action(network, number),
{
    Action::ReadStored {
        network: String::from_str(network.as_str_name()),
        block_number: number as i64,
    }
}

fn finish_block(network: Network, start: u64, end: u64, current: u64, blocks: Vec<BlockUpdate>) -> (res: (
    Phase,
    Action,
))
    requires
        start <= current <= end,
    ensures
        phase_well_formed(res.0@),
        (EventLoopView { network, phase: res.0@ }, res.1@) == advance(
            network,
            start,
            end,
            current,
            updates_view(blocks@),
        ),
{
    if current == end {
        (Phase::Listening, Action::Reply(blocks))
    } else {
        let next = current + 1;
        (
            Phase::Fetching { start, end, current: next, blocks, stage: FetchStage::ReadingStorage },
            read_stored(network, next),
        )
    }
}

fn on_subscribing(network: Network, event: Event) -> (res: (Phase, Action))
    requires
        accepts(PhaseView::Subscribing, event@),
    ensures
        phase_well_formed(res.0@),
        (EventLoopView { network, phase: res.0@ }, res.1@) == next_step(
            EventLoopView { network, phase: PhaseView::Subscribing },
            event@,
        ),
{
    match event {
        Event::SubscribeFailed { reason } => (
            Phase::Stopped,
            Action::ReportFailure(subscribe_failure(&reason)),
        ),
        _ => (Phase::Listening, Action::Wait),
    }
}

fn on_listening(network: Network, event: Event) -> (res: (Phase, Action))
    requires
        accepts(PhaseView::Listening, event@),
        has_live_fee(event@),
    ensures
        phase_well_formed(res.0@),
        (EventLoopView { network, phase: res.0@ }, res.1@) == next_step(
            EventLoopView { network, phase: PhaseView::Listening },
            event@,
        ),
{
    match event {
        Event::NewBlock(b) => {
            let fee = b.gas_fee_bits.unwrap();
            let update = BlockUpdate::from_chain(network, &b, fee);
            let row = update.to_row();
            (Phase::StoringLive(update), Action::Store(row))
        },
        Event::Command(Command::FetchBlocks { start_block, end_block }) => {
            if start_block <= end_block {
                proof {
                    assert(updates_view(Seq::<BlockUpdate>::empty()) =~= Seq::empty());
                }
                (
                    Phase::Fetching {
                        start: start_block,
                        end: end_block,
                        current: start_block,
                        blocks: Vec::new(),
                        stage: FetchStage::ReadingStorage,
                    },
                    read_stored(network, start_block),
                )
            } else {
                proof {
                    assert(updates_view(Seq::<BlockUpdate>::empty()) =~= Seq::empty());
                }
                (Phase::Listening, Action::Reply(Vec::new()))
            }
        },
        _ => (Phase::Listening, Action::Wait),
    }
}

fn on_storing_live(network: Network, update: BlockUpdate, event: Event) -> (res: (Phase, Action))
    requires
        accepts(PhaseView::StoringLive(update@), event@),
    ensures
        phase_well_formed(res.0@),
        (EventLoopView { network, phase: res.0@ }, res.1@) == next_step(
            EventLoopView { network, phase: PhaseView::StoringLive(update@) },
            event@,
        ),
{
    match event {
        Event::Stored { ok } => {
            if ok {
                (Phase::PublishingLive, Action::Publish(update))
            } else {
                (Phase::Listening, Action::Wait)
            }
        },
        _ => (Phase::Listening, Action::Wait),
    }
}

fn on_publishing(network: Network, event: Event) -> (res: (Phase, Action))
    requires
        accepts(PhaseView::PublishingLive, event@),
    ensures
        phase_well_formed(res.0@),
        (EventLoopView { network, phase: res.0@ }, res.1@) == next_step(
            EventLoopView { network, phase: PhaseView::PublishingLive },
            event@,
        ),
{
    match event {
        Event::Published { ok } => {
            if ok {
                (Phase::Listening, Action::Wait)
            } else {
                (Phase::Stopped, Action::Halt)
            }
        },
        _ => (Phase::Listening, Action::Wait),
    }
}

fn on_fetching(
    network: Network,
    start: u64,
    end: u64,
    current: u64,
    blocks: Vec<BlockUpdate>,
    stage: FetchStage,
    event: Event,
) -> (res: (Phase, Action))
    requires
        start <= current <= end,
        accepts(
            PhaseView::Fetching {
                start,
                end,
                current,
                blocks: updates_view(blocks@),
                stage: stage@,
            },
            event@,
        ),
    ensures
        phase_well_formed(res.0@),
        (EventLoopView { network, phase: res.0@ }, res.1@) == next_step(
            EventLoopView {
                network,
                phase: PhaseView::Fetching {
                    start,
                    end,
                    current,
                    blocks: updates_view(blocks@),
                    stage: stage@,
                },
            },
            event@,
        ),
{
    let mut blocks = blocks;
    match stage {
        FetchStage::ReadingStorage => match event {
            Event::StorageRead(StorageRead::Found(b)) => {
                let update = BlockUpdate {
                    network,
                    block_number: b.block_number,
                    block_hash: b.block_hash,
                    timestamp: b.timestamp,
                    gas_fee_bits: b.gas_fee_bits,
                };
                proof {
                    lemma_push_view(blocks@, update);
                }
                blocks.push(update);
                finish_block(network, start, end, current, blocks)
            },
            _ => (
                Phase::Fetching { start, end, current, blocks, stage: FetchStage::FetchingChain },
                Action::FetchFromChain { number: current },
            ),
        },
        FetchStage::FetchingChain => match event {
            Event::ChainRead(ChainRead::Found(b)) => {
                let fee = match b.gas_fee_bits {
                    Some(f) => f,
                    None => 0,
                };
                let update = BlockUpdate::from_chain(network, &b, fee);
                let row = update.to_row();
                (
                    Phase::Fetching {
                        start,
                        end,
                        current,
                        blocks,
                        stage: FetchStage::StoringFetched(update),
                    },
                    Action::Store(row),
                )
            },
            _ => finish_block(network, start, end, current, blocks),
        },
        FetchStage::StoringFetched(update) => match event {
            Event::Stored { ok } => {
                if ok {
                    proof {
                        lemma_push_view(blocks@, update);
                    }
                    blocks.push(update);
                }
                finish_block(network, start, end, current, blocks)
            },
            _ => (Phase::Listening, Action::Wait),
        },
    }
}

fn transition(network: Network, phase: Phase, event: Event) -> (res: (Phase, Action))
    requires
        phase_well_formed(phase@),
        accepts(phase@, event@),
        has_live_fee(event@),
    ensures
        phase_well_formed(res.0@),
        (EventLoopView { network, phase: res.0@ }, res.1@) == next_step(
            EventLoopView { network, phase: phase@ },
            event@,
        ),
{
    match phase {
        Phase::Subscribing => on_subscribing(network, event),
        Phase::Listening => on_listening(network, event),
        Phase::StoringLive(update) => on_storing_live(network, update, event),
        Phase::PublishingLive => on_publishing(network, event),
        Phase::Fetching { start, end, current, blocks, stage } => on_fetching(
            network,
            start,
            end,
            current,
            blocks,
            stage,
            event,
        ),
        Phase::Stopped => (Phase::Stopped, Action::Wait),
    }
}

impl EventLoop {
    /// A new event loop for `network`, about to subscribe to new blocks.
    pub fn new(network: Network) -> (event_loop: EventLoop)
        ensures
            event_loop.well_formed(),
            event_loop@ == (EventLoopView { network, phase: PhaseView::Subscribing }),
    {
        EventLoop { network, phase: Phase::Subscribing }
    }

    /// The invariant of the loop's state.
    pub closed spec fn well_formed(&self) -> bool {
        phase_well_formed(self.phase@)
    }

    /// The network this loop follows.
    pub fn network(&self) -> (network: Network)
        ensures
            network == self@.network,
    {
        self.network
    }

    /// Whether the loop has stopped.
    pub fn is_stopped(&self) -> (stopped: bool)
        ensures
            stopped == (self@.phase is Stopped),
    {
        match self.phase {
            Phase::Stopped => true,
            _ => false,
        }
    }

    /// Whether the loop waits for `event` now.
    pub fn accepts(&self, event: &Event) -> (accepted: bool)
        ensures
            accepted == accepts(self@.phase, event@),
    {
        match &self.phase {
            Phase::Subscribing => match event {
                Event::Subscribed => true,
                Event::SubscribeFailed { .. } => true,
                _ => false,
            },
            Phase::Listening => match event {
                Event::NewBlock(_) => true,
                Event::Command(_) => true,
                _ => false,
            },
            Phase::StoringLive(_) => match event {
                Event::Stored { .. } => true,
                _ => false,
            },
            Phase::PublishingLive => match event {
                Event::Published { .. } => true,
                _ => false,
            },
            Phase::Fetching { stage, .. } => match stage {
                FetchStage::ReadingStorage => match event {
                    Event::StorageRead(_) => true,
                    _ => false,
                },
                FetchStage::FetchingChain => match event {
                    Event::ChainRead(_) => true,
                    _ => false,
                },
                FetchStage::StoringFetched(_) => match event {
                    Event::Stored { .. } => true,
                    _ => false,
                },
            },
            Phase::Stopped => false,
        }
    }

    /// Handles `event`, which the loop must be waiting for, and returns the
    /// next piece of outside work.  A new block from the subscription must
    /// carry a gas fee.
    pub fn step(&mut self, event: Event) -> (action: Action)
        requires
            old(self).well_formed(),
            accepts(old(self)@.phase, event@),
            has_live_fee(event@),
        ensures
            final(self).well_formed(),
            (final(self)@, action@) == next_step(old(self)@, event@),
    {
        let mut phase = Phase::Stopped;
        std::mem::swap(&mut phase, &mut self.phase);
        let (next, action) = transition(self.network, phase, event);
        self.phase = next;
        action
    }
}

} // verus!
