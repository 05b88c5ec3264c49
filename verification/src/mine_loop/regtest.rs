//! What the miner does when something happens.

use vstd::prelude::*;

verus! {

/// What the main loop can tell the miner. A block is a `B`.
#[derive(Debug)]
pub enum MainToMiner<B> {
    Empty,
    NewBlock(B),
    ReadyToMineNextBlock,
    Shutdown,
}

/// What the miner waits for.
#[derive(Debug)]
pub enum MinerEvent<B> {
    /// The main loop is gone.
    MainGone,
    /// The main loop sent a message.
    Main(MainToMiner<B>),
    /// The worker ended without a block.
    WorkerGone,
    /// The worker found a block.
    Found(B),
}

/// What the miner does then.
#[derive(Clone, Copy, Debug, PartialEq, Eq, Structural)]
pub enum MinerAction {
    /// It ends with the error that it cannot hear the main loop.
    Fail,
    /// It stops its worker and ends.
    ShutDown,
    /// It stops its worker and starts mining on top of the latest block.
    Restart,
    /// It starts mining on top of the latest block. A worker that it may have stops by itself, as
    /// nobody waits for it.
    Continue,
    /// It sends the latest block to the main loop, waits for its message, and then continues.
    Announce,
}

/// Whether a worker is started.
pub fn starts_worker(syncing: bool) -> (r: bool)
    ensures
        r == !syncing,
{
    !syncing
}

/// The block on top of which the miner mines, after an event.
pub open spec fn latest_after<B>(latest_block: B, event: MinerEvent<B>) -> B {
    match event {
        MinerEvent::Main(MainToMiner::NewBlock(block)) => block,
        MinerEvent::Found(block) => block,
        _ => latest_block,
    }
}

/// What the miner does when something happens.
pub open spec fn action_after<B>(event: MinerEvent<B>) -> MinerAction {
    match event {
        MinerEvent::MainGone => MinerAction::Fail,
        MinerEvent::Main(MainToMiner::Shutdown) => MinerAction::ShutDown,
        MinerEvent::Main(MainToMiner::NewBlock(_)) => MinerAction::Restart,
        MinerEvent::Main(MainToMiner::Empty) => MinerAction::Continue,
        MinerEvent::Main(MainToMiner::ReadyToMineNextBlock) => MinerAction::Continue,
        MinerEvent::WorkerGone => MinerAction::Continue,
        MinerEvent::Found(_) => MinerAction::Announce,
    }
}

/// What the miner does when something happens, and on top of which block it mines from then on. A
/// block that its worker found must be a valid successor of the latest one.
pub fn on_event<B>(latest_block: B, event: MinerEvent<B>, found_is_valid: bool) -> (r: (
    B,
    MinerAction,
))
    requires
        event is Found ==> found_is_valid,
    ensures
        r.0 == latest_after(latest_block, event),
        r.1 == action_after(event),
{
    match event {
        MinerEvent::MainGone => (latest_block, MinerAction::Fail),
        MinerEvent::Main(message) => match message {
            MainToMiner::Shutdown => (latest_block, MinerAction::ShutDown),
            MainToMiner::NewBlock(block) => (block, MinerAction::Restart),
            MainToMiner::Empty => (latest_block, MinerAction::Continue),
            MainToMiner::ReadyToMineNextBlock => (latest_block, MinerAction::Continue),
        },
        MinerEvent::WorkerGone => (latest_block, MinerAction::Continue),
        MinerEvent::Found(block) => (block, MinerAction::Announce),
    }
}

/// Whether a message is the one that the main loop is to send after a block was announced.
pub fn is_expected_after_announcement<B>(message: &MainToMiner<B>) -> (r: bool)
    ensures
        r == (*message is ReadyToMineNextBlock),
{
    match message {
        MainToMiner::ReadyToMineNextBlock => true,
        _ => false,
    }
}

/// The miner ends only when it is told to, or cannot hear the main loop any more.
pub proof fn lemma_miner_ends_only_by_main<B>(event: MinerEvent<B>)
    ensures
        action_after(event) is ShutDown <==> event == MinerEvent::<B>::Main(MainToMiner::Shutdown),
        action_after(event) is Fail <==> event is MainGone,
{
}

/// The miner mines on top of the same block until the main loop sends another one or its own
/// worker finds one.
pub proof fn lemma_latest_block_changes_only_by_blocks<B>(latest_block: B, event: MinerEvent<B>)
    requires
        latest_after(latest_block, event) != latest_block,
    ensures
        event == MinerEvent::Found(latest_after(latest_block, event)) || event == MinerEvent::Main(
            MainToMiner::NewBlock(latest_after(latest_block, event)),
        ),
{
}

} // verus!
