//! The stability monitor: from what was observed of the network so far and
//! the next observation, what to ask of the network next, until the
//! throughput counts as stable and its metrics are reported.

use crate::metrics::{evaluate, Block, Metrics, MetricsError};
use vstd::prelude::*;

verus! {

/// How the monitor decides that the network's throughput is stable.
#[derive(Clone, Copy, Debug, PartialEq, Eq, Structural)]
pub enum MethodToEvalNetStable {
    /// Stable once the `window` most recent blocks differ by at most `margin`
    /// in their numbers of transactions.
    RecentBlocktxnsNearly { window: u64, margin: u64 },
    /// Stable after `warmup` blocks; measured over the `window` blocks that
    /// follow them.
    CustomBlocksElapsed { warmup: u64, window: u64 },
}

impl Default for MethodToEvalNetStable {
    fn default() -> (method: Self)
        ensures
            method == (MethodToEvalNetStable::CustomBlocksElapsed { warmup: 20, window: 21 }),
    {
        MethodToEvalNetStable::CustomBlocksElapsed { warmup: 20, window: 21 }
    }
}

/// The counters of one endpoint's transaction pool.
#[derive(Clone, Copy, Debug, PartialEq, Eq, Structural)]
pub struct TxPoolInfo {
    /// Transactions waiting to be proposed.
    pub pending: u64,
    /// Transactions proposed and waiting to be committed.
    pub proposed: u64,
}

/// An observation of the network, handed to the monitor.
#[derive(Clone, Copy, Debug, PartialEq, Eq, Structural)]
pub enum NetEvent {
    /// The number of the confirmed tip.
    Tip { number: u64 },
    /// A confirmed block that the monitor asked for, with the node counts at
    /// the time it was fetched.
    Fetched { block: Block, network_nodes: u64, bench_nodes: u64 },
}

/// Why the monitor gave up.
#[derive(Clone, Copy, Debug, PartialEq, Eq, Structural)]
pub enum MonitorError {
    /// The window to evaluate holds no block.
    EmptyWindow,
    /// The window's last block is not later than its first.
    ZeroElapsed,
    /// A block number that the method asks to wait for exceeds `u64::MAX`.
    TipOverflow,
    /// The observation is not the one that the state waits for.
    UnexpectedEvent,
}

/// What the caller does next for the monitor.
#[derive(Clone, Copy, Debug, PartialEq, Eq, Structural)]
pub enum MonitorAction {
    /// Read the confirmed tip's number now.
    QueryTip,
    /// Pause for the poll interval, then read the confirmed tip's number.
    Wait,
    /// Fetch the confirmed tip block.
    FetchTipBlock,
    /// Fetch the confirmed block of this number.
    FetchBlock { number: u64 },
    /// The throughput is stable: these are its metrics.
    Done { metrics: Metrics },
    /// The run cannot go on.
    Fail { error: MonitorError },
}

/// What the monitor has observed so far.
#[derive(Clone, Debug)]
pub enum MonitorState {
    /// Elapsed blocks: the tip at entry is not known yet.
    AwaitingTip,
    /// Elapsed blocks: warming up since the tip was `start_tip`.
    Warmup { start_tip: u64 },
    /// Elapsed blocks: the window starts at block `first`; waiting for it to
    /// be confirmed in full.
    Measuring { first: u64 },
    /// Elapsed blocks: gathering the window's blocks, from `first` on.
    Collecting { first: u64, blocks: Vec<Block> },
    /// Recent blocks: the tip block that seeds the queue is not known yet.
    Seeding,
    /// Recent blocks: waiting for the tip to pass the queue's last block.
    Sliding { queue: Vec<Block> },
    /// Recent blocks: waiting for the block that follows the queue's last.
    Fetching { queue: Vec<Block> },
    /// The monitor has reported or given up.
    Finished,
}

/// The mathematical value of a `MonitorState`.
pub enum MonitorModel {
    AwaitingTip,
    Warmup { start_tip: u64 },
    Measuring { first: u64 },
    Collecting { first: u64, blocks: Seq<Block> },
    Seeding,
    Sliding { queue: Seq<Block> },
    Fetching { queue: Seq<Block> },
    Finished,
}

impl View for MonitorState {
    type V = MonitorModel;

    open spec fn view(&self) -> MonitorModel {
        match *self {
            MonitorState::AwaitingTip => MonitorModel::AwaitingTip,
            MonitorState::Warmup { start_tip } => MonitorModel::Warmup { start_tip },
            MonitorState::Measuring { first } => MonitorModel::Measuring { first },
            MonitorState::Collecting { first, blocks } => MonitorModel::Collecting {
                first,
                blocks: blocks@,
            },
            MonitorState::Seeding => MonitorModel::Seeding,
            MonitorState::Sliding { queue } => MonitorModel::Sliding { queue: queue@ },
            MonitorState::Fetching { queue } => MonitorModel::Fetching { queue: queue@ },
            MonitorState::Finished => MonitorModel::Finished,
        }
    }
}

/// The monitor's error for a window that has no metrics.
pub open spec fn error_of(error: MetricsError) -> MonitorError {
    match error {
        MetricsError::EmptyWindow => MonitorError::EmptyWindow,
        MetricsError::ZeroElapsed => MonitorError::ZeroElapsed,
    }
}

/// The end of a run with the outcome of evaluating its window.
pub open spec fn report(outcome: Result<Metrics, MetricsError>) -> (MonitorModel, MonitorAction) {
    match outcome {
        Ok(metrics) => (MonitorModel::Finished, MonitorAction::Done { metrics }),
        Err(error) => (MonitorModel::Finished, MonitorAction::Fail { error: error_of(error) }),
    }
}

/// The end of a run that cannot go on.
pub open spec fn give_up(error: MonitorError) -> (MonitorModel, MonitorAction) {
    (MonitorModel::Finished, MonitorAction::Fail { error })
}

/// No two blocks differ by more than `margin` in their numbers of
/// transactions.
pub open spec fn nearly_equal(blocks: Seq<Block>, margin: u64) -> bool {
    forall|i: int, j: int|
        0 <= i < blocks.len() && 0 <= j < blocks.len() ==> (#[trigger] blocks[i]).transactions - (
        #[trigger] blocks[j]).transactions <= margin
}

/// The queue after `block` has joined it: the `window` most recent blocks,
/// oldest first, or all of them while they are fewer.
pub open spec fn slide(queue: Seq<Block>, block: Block, window: u64) -> Seq<Block> {
    let grown = queue.push(block);
    if grown.len() > window {
        grown.subrange(grown.len() - window, grown.len() as int)
    } else {
        grown
    }
}

/// Elapsed blocks, while the window is not confirmed in full: wait; after
/// that, start gathering it at `first`.
pub open spec fn measuring_on_tip(window: u64, first: u64, tip: u64) -> (
    MonitorModel,
    MonitorAction,
) {
    if first + window > u64::MAX {
        give_up(MonitorError::TipOverflow)
    } else if tip < first + window {
        (MonitorModel::Measuring { first }, MonitorAction::Wait)
    } else if window == 0 {
        give_up(MonitorError::EmptyWindow)
    } else {
        (
            MonitorModel::Collecting { first, blocks: Seq::empty() },
            MonitorAction::FetchBlock { number: first },
        )
    }
}

/// Elapsed blocks, while fewer than `warmup` blocks followed `start_tip`:
/// wait; after that the window starts at `start_tip + warmup`.
pub open spec fn warmup_on_tip(warmup: u64, window: u64, start_tip: u64, tip: u64) -> (
    MonitorModel,
    MonitorAction,
) {
    if start_tip + warmup > u64::MAX {
        give_up(MonitorError::TipOverflow)
    } else if tip < start_tip + warmup {
        (MonitorModel::Warmup { start_tip }, MonitorAction::Wait)
    } else {
        measuring_on_tip(window, (start_tip + warmup) as u64, tip)
    }
}

/// Elapsed blocks, on a block of the window: evaluate once `window` blocks
/// are there, else ask for the next one.
pub open spec fn collecting_on_block(
    window: u64,
    first: u64,
    blocks: Seq<Block>,
    block: Block,
    network_nodes: u64,
    bench_nodes: u64,
) -> (MonitorModel, MonitorAction) {
    let grown = blocks.push(block);
    if grown.len() >= window {
        report(evaluate(network_nodes, bench_nodes, grown))
    } else if first + grown.len() > u64::MAX {
        give_up(MonitorError::TipOverflow)
    } else {
        (
            MonitorModel::Collecting { first, blocks: grown },
            MonitorAction::FetchBlock { number: (first + grown.len()) as u64 },
        )
    }
}

/// Recent blocks, on the tip's number: fetch the block after the queue's
/// last once the tip has passed it, else wait.
pub open spec fn sliding_on_tip(queue: Seq<Block>, tip: u64) -> (MonitorModel, MonitorAction) {
    if queue.len() == 0 {
        give_up(MonitorError::UnexpectedEvent)
    } else if tip > queue.last().number {
        (
            MonitorModel::Fetching { queue },
            MonitorAction::FetchBlock { number: (queue.last().number + 1) as u64 },
        )
    } else {
        (MonitorModel::Sliding { queue }, MonitorAction::Wait)
    }
}

/// Recent blocks, on the next block: it joins the queue; a full queue is
/// evaluated, and reported where its blocks are nearly equal.
pub open spec fn fetching_on_block(
    window: u64,
    margin: u64,
    queue: Seq<Block>,
    block: Block,
    network_nodes: u64,
    bench_nodes: u64,
) -> (MonitorModel, MonitorAction) {
    let next = slide(queue, block, window);
    let outcome = evaluate(network_nodes, bench_nodes, next);
    if next.len() >= window && (outcome is Err || nearly_equal(next, margin)) {
        report(outcome)
    } else {
        (MonitorModel::Sliding { queue: next }, MonitorAction::QueryTip)
    }
}

/// The monitor's next state and what it asks for, given the method, its
/// state and an observation.
pub open spec fn step(method: MethodToEvalNetStable, state: MonitorModel, event: NetEvent) -> (
    MonitorModel,
    MonitorAction,
) {
    match (method, state, event) {
        (
            MethodToEvalNetStable::CustomBlocksElapsed { warmup, window },
            MonitorModel::AwaitingTip,
            NetEvent::Tip { number },
        ) => warmup_on_tip(warmup, window, number, number),
        (
            MethodToEvalNetStable::CustomBlocksElapsed { warmup, window },
            MonitorModel::Warmup { start_tip },
            NetEvent::Tip { number },
        ) => warmup_on_tip(warmup, window, start_tip, number),
        (
            MethodToEvalNetStable::CustomBlocksElapsed { warmup, window },
            MonitorModel::Measuring { first },
            NetEvent::Tip { number },
        ) => measuring_on_tip(window, first, number),
        (
            MethodToEvalNetStable::CustomBlocksElapsed { warmup, window },
            MonitorModel::Collecting { first, blocks },
            NetEvent::Fetched { block, network_nodes, bench_nodes },
        ) => collecting_on_block(window, first, blocks, block, network_nodes, bench_nodes),
        (
            MethodToEvalNetStable::RecentBlocktxnsNearly { window, margin },
            MonitorModel::Seeding,
            NetEvent::Fetched { block, network_nodes, bench_nodes },
        ) => (MonitorModel::Sliding { queue: seq![block] }, MonitorAction::QueryTip),
        (
            MethodToEvalNetStable::RecentBlocktxnsNearly { window, margin },
            MonitorModel::Sliding { queue },
            NetEvent::Tip { number },
        ) => sliding_on_tip(queue, number),
        (
            MethodToEvalNetStable::RecentBlocktxnsNearly { window, margin },
            MonitorModel::Fetching { queue },
            NetEvent::Fetched { block, network_nodes, bench_nodes },
        ) => fetching_on_block(window, margin, queue, block, network_nodes, bench_nodes),
        _ => give_up(MonitorError::UnexpectedEvent),
    }
}

/// Where a run of the method starts.
pub open spec fn initial(method: MethodToEvalNetStable) -> (MonitorModel, MonitorAction) {
    match method {
        MethodToEvalNetStable::CustomBlocksElapsed { .. } => (
            MonitorModel::AwaitingTip,
            MonitorAction::QueryTip,
        ),
        MethodToEvalNetStable::RecentBlocktxnsNearly { .. } => (
            MonitorModel::Seeding,
            MonitorAction::FetchTipBlock,
        ),
    }
}

impl MonitorState {
    /// The state in which a run of the method starts, and the first thing to
    /// ask of the network.
    pub fn start(method: MethodToEvalNetStable) -> (begin: (MonitorState, MonitorAction))
        ensures
            (begin.0@, begin.1) == initial(method),
    {
        match method {
            MethodToEvalNetStable::CustomBlocksElapsed { .. } => (
                MonitorState::AwaitingTip,
                MonitorAction::QueryTip,
            ),
            MethodToEvalNetStable::RecentBlocktxnsNearly { .. } => (
                MonitorState::Seeding,
                MonitorAction::FetchTipBlock,
            ),
        }
    }
}

/// Whether no two blocks differ by more than `margin` in their numbers of
/// transactions.
pub fn blocktxns_nearly(blocks: &Vec<Block>, margin: u64) -> (nearly: bool)
    ensures
        nearly == nearly_equal(blocks@, margin),
{
    if blocks.len() == 0 {
        return true;
    }
    let mut least: u64 = blocks[0].transactions;
    let mut most: u64 = blocks[0].transactions;
    let ghost mut at_least: int = 0;
    let ghost mut at_most: int = 0;
    let mut i: usize = 1;
    while i < blocks.len()
        invariant
            1 <= i <= blocks.len(),
            0 <= at_least < i,
            0 <= at_most < i,
            blocks[at_least].transactions == least,
            blocks[at_most].transactions == most,
            forall|k: int| 0 <= k < i ==> least <= (#[trigger] blocks[k]).transactions <= most,
        decreases blocks.len() - i,
    {
        let count: u64 = blocks[i].transactions;
        if count < least {
            least = count;
            proof {
                at_least = i as int;
            }
        }
        if count > most {
            most = count;
            proof {
                at_most = i as int;
            }
        }
        i = i + 1;
    }
    let nearly = most - least <= margin;
    proof {
        if !nearly {
            assert(blocks@[at_most].transactions - blocks@[at_least].transactions > margin);
        }
    }
    nearly
}

/// Appends `block` to the queue and drops its oldest blocks until at most
/// `window` are left.
pub fn slide_queue(queue: Vec<Block>, block: Block, window: u64) -> (next: Vec<Block>)
    ensures
        next@ == slide(queue@, block, window),
{
    let ghost grown = queue@.push(block);
    let mut queue = queue;
    queue.push(block);
    while queue.len() as u64 > window
        invariant
            queue.len() <= grown.len(),
            queue@ =~= grown.subrange(grown.len() - queue.len(), grown.len() as int),
            grown.len() > window ==> queue.len() >= window,
            grown.len() <= window ==> queue.len() == grown.len(),
        decreases queue.len(),
    {
        queue.remove(0);
    }
    proof {
        assert(grown.subrange(0, grown.len() as int) =~= grown);
    }
    queue
}

fn report_outcome(outcome: Result<Metrics, MetricsError>) -> (next: (MonitorState, MonitorAction))
    ensures
        (next.0@, next.1) == report(outcome),
{
    match outcome {
        Ok(metrics) => (MonitorState::Finished, MonitorAction::Done { metrics }),
        Err(MetricsError::EmptyWindow) => (
            MonitorState::Finished,
            MonitorAction::Fail { error: MonitorError::EmptyWindow },
        ),
        Err(MetricsError::ZeroElapsed) => (
            MonitorState::Finished,
            MonitorAction::Fail { error: MonitorError::ZeroElapsed },
        ),
    }
}

fn fail(error: MonitorError) -> (next: (MonitorState, MonitorAction))
    ensures
        (next.0@, next.1) == give_up(error),
{
    (MonitorState::Finished, MonitorAction::Fail { error })
}

fn on_tip_measuring(window: u64, first: u64, tip: u64) -> (next: (MonitorState, MonitorAction))
    ensures
        (next.0@, next.1) == measuring_on_tip(window, first, tip),
{
    match first.checked_add(window) {
        None => fail(MonitorError::TipOverflow),
        Some(end) => {
            if tip < end {
                (MonitorState::Measuring { first }, MonitorAction::Wait)
            } else if window == 0 {
                fail(MonitorError::EmptyWindow)
            } else {
                (
                    MonitorState::Collecting { first, blocks: Vec::new() },
                    MonitorAction::FetchBlock { number: first },
                )
            }
        },
    }
}

fn on_tip_warmup(warmup: u64, window: u64, start_tip: u64, tip: u64) -> (next: (
    MonitorState,
    MonitorAction,
))
    ensures
        (next.0@, next.1) == warmup_on_tip(warmup, window, start_tip, tip),
{
    match start_tip.checked_add(warmup) {
        None => fail(MonitorError::TipOverflow),
        Some(first) => {
            if tip < first {
                (MonitorState::Warmup { start_tip }, MonitorAction::Wait)
            } else {
                on_tip_measuring(window, first, tip)
            }
        },
    }
}

fn on_block_collecting(
    window: u64,
    first: u64,
    blocks: Vec<Block>,
    block: Block,
    network_nodes: u64,
    bench_nodes: u64,
) -> (next: (MonitorState, MonitorAction))
    ensures
        (next.0@, next.1) == collecting_on_block(
            window,
            first,
            blocks@,
            block,
            network_nodes,
            bench_nodes,
        ),
{
    let mut blocks = blocks;
    blocks.push(block);
    let held = blocks.len() as u64;
    if held >= window {
        report_outcome(Metrics::eval_blocks(network_nodes, bench_nodes, &blocks))
    } else {
        match first.checked_add(held) {
            None => fail(MonitorError::TipOverflow),
            Some(number) => (
                MonitorState::Collecting { first, blocks },
                MonitorAction::FetchBlock { number },
            ),
        }
    }
}

fn on_tip_sliding(queue: Vec<Block>, tip: u64) -> (next: (MonitorState, MonitorAction))
    ensures
        (next.0@, next.1) == sliding_on_tip(queue@, tip),
{
    if queue.len() == 0 {
        return fail(MonitorError::UnexpectedEvent);
    }
    let back: u64 = queue[queue.len() - 1].number;
    if tip > back {
        (MonitorState::Fetching { queue }, MonitorAction::FetchBlock { number: back + 1 })
    } else {
        (MonitorState::Sliding { queue }, MonitorAction::Wait)
    }
}

fn on_block_fetching(
    window: u64,
    margin: u64,
    queue: Vec<Block>,
    block: Block,
    network_nodes: u64,
    bench_nodes: u64,
) -> (next: (MonitorState, MonitorAction))
    ensures
        (next.0@, next.1) == fetching_on_block(
            window,
            margin,
            queue@,
            block,
            network_nodes,
            bench_nodes,
        ),
{
    let queue = slide_queue(queue, block, window);
    if queue.len() as u64 >= window {
        let outcome = Metrics::eval_blocks(network_nodes, bench_nodes, &queue);
        if outcome.is_err() || blocktxns_nearly(&queue, margin) {
            return report_outcome(outcome);
        }
    }
    (MonitorState::Sliding { queue }, MonitorAction::QueryTip)
}

/// One decision of the monitor: takes the method, what was observed so far
/// and the next observation, and gives the new state and what to ask of the
/// network next. The run starts at `MonitorState::start` and ends with
/// `Done`, which carries the metrics of the stable window, or with `Fail`.
pub fn wait_network_stabled(
    method: MethodToEvalNetStable,
    state: MonitorState,
    event: NetEvent,
) -> (next: (MonitorState, MonitorAction))
    ensures
        (next.0@, next.1) == step(method, state@, event),
{
    match method {
        MethodToEvalNetStable::CustomBlocksElapsed { warmup, window } => match (state, event) {
            (MonitorState::AwaitingTip, NetEvent::Tip { number }) => on_tip_warmup(
                warmup,
                window,
                number,
                number,
            ),
            (MonitorState::Warmup { start_tip }, NetEvent::Tip { number }) => on_tip_warmup(
                warmup,
                window,
                start_tip,
                number,
            ),
            (MonitorState::Measuring { first }, NetEvent::Tip { number }) => on_tip_measuring(
                window,
                first,
                number,
            ),
            (
                MonitorState::Collecting { first, blocks },
                NetEvent::Fetched { block, network_nodes, bench_nodes },
            ) => on_block_collecting(window, first, blocks, block, network_nodes, bench_nodes),
            _ => fail(MonitorError::UnexpectedEvent),
        },
        MethodToEvalNetStable::RecentBlocktxnsNearly { window, margin } => match (state, event) {
            (MonitorState::Seeding, NetEvent::Fetched { block, .. }) => {
                let mut queue: Vec<Block> = Vec::new();
                queue.push(block);
                proof {
                    assert(queue@ =~= seq![block]);
                }
                (MonitorState::Sliding { queue }, MonitorAction::QueryTip)
            },
            (MonitorState::Sliding { queue }, NetEvent::Tip { number }) => on_tip_sliding(
                queue,
                number,
            ),
            (
                MonitorState::Fetching { queue },
                NetEvent::Fetched { block, network_nodes, bench_nodes },
            ) => on_block_fetching(window, margin, queue, block, network_nodes, bench_nodes),
            _ => fail(MonitorError::UnexpectedEvent),
        },
    }
}

/// Whether every endpoint's transaction pool is empty: no pending and no
/// proposed transaction anywhere.
pub fn is_network_txpool_empty(pools: &Vec<TxPoolInfo>) -> (empty: bool)
    ensures
        empty <==> forall|i: int|
            0 <= i < pools.len() ==> (#[trigger] pools[i]).pending == 0 && pools[i].proposed == 0,
{
    let mut i: usize = 0;
    while i < pools.len()
        invariant
            i <= pools.len(),
            forall|k: int| 0 <= k < i ==> (#[trigger] pools[k]).pending == 0 && pools[k].proposed == 0,
        decreases pools.len() - i,
    {
        if pools[i].pending != 0 || pools[i].proposed != 0 {
            return false;
        }
        i = i + 1;
    }
    true
}

/// Recent blocks: on a new block the monitor reports metrics exactly when
/// the queue is full and its blocks are nearly equal; while they are not,
/// it goes on to the next block. The metrics are those of the queue.
pub proof fn lemma_recent_blocks_report_iff_nearly_equal(
    window: u64,
    margin: u64,
    queue: Seq<Block>,
    block: Block,
    network_nodes: u64,
    bench_nodes: u64,
)
    requires
        evaluate(network_nodes, bench_nodes, slide(queue, block, window)) is Ok,
    ensures
        ({
            let method = MethodToEvalNetStable::RecentBlocktxnsNearly { window, margin };
            let event = NetEvent::Fetched { block, network_nodes, bench_nodes };
            let next = slide(queue, block, window);
            let action = step(method, MonitorModel::Fetching { queue }, event).1;
            let metrics = evaluate(network_nodes, bench_nodes, next).unwrap();
            &&& action is Done <==> next.len() >= window && nearly_equal(next, margin)
            &&& action is Done ==> action == (MonitorAction::Done { metrics })
            &&& !(action is Done) ==> action == MonitorAction::QueryTip
        }),
{
}

/// Recent blocks: the queue never holds more than `window` blocks, and
/// holds the most recent ones in the order in which they were confirmed.
pub proof fn lemma_slide_keeps_most_recent(queue: Seq<Block>, block: Block, window: u64)
    requires
        queue.len() <= window,
        window > 0,
    ensures
        slide(queue, block, window).len() <= window,
        slide(queue, block, window).len() == if queue.len() < window {
            queue.len() + 1
        } else {
            window as nat
        },
        slide(queue, block, window).last() == block,
        forall|i: int|
            0 <= i < slide(queue, block, window).len() - 1 ==> #[trigger] slide(
                queue,
                block,
                window,
            )[i] == queue[queue.len() - (slide(queue, block, window).len() - 1) + i],
{
}

/// Elapsed blocks: from the tip `start_tip` on, whatever the state of the
/// wait, nothing is fetched or evaluated before the tip has reached
/// `start_tip + warmup + window`; at that tip the window's first block,
/// `start_tip + warmup`, is asked for.
pub proof fn lemma_elapsed_blocks_waits_for_window(
    warmup: u64,
    window: u64,
    start_tip: u64,
    tip: u64,
)
    requires
        start_tip + warmup + window <= u64::MAX,
        window > 0,
    ensures
        ({
            let method = MethodToEvalNetStable::CustomBlocksElapsed { warmup, window };
            let event = NetEvent::Tip { number: tip };
            let first = (start_tip + warmup) as u64;
            let warming = step(method, MonitorModel::Warmup { start_tip }, event);
            let measuring = step(method, MonitorModel::Measuring { first }, event);
            &&& tip < start_tip + warmup + window ==> warming.1 == MonitorAction::Wait
                && measuring.1 == MonitorAction::Wait
            &&& tip < start_tip + warmup ==> warming.0 == (MonitorModel::Warmup { start_tip })
            &&& start_tip + warmup <= tip < start_tip + warmup + window ==> warming.0 == (
            MonitorModel::Measuring { first })
            &&& tip >= start_tip + warmup + window ==> warming == measuring && warming.1 == (
            MonitorAction::FetchBlock { number: first }) && warming.0 == (MonitorModel::Collecting {
                first,
                blocks: Seq::empty(),
            })
        }),
{
}

/// Elapsed blocks: the blocks gathered are exactly those numbered from
/// `first` up to, not including, `first + window`: while fewer than
/// `window` are held the next number is asked for, and the window is
/// evaluated as soon as `window` are held.
pub proof fn lemma_elapsed_blocks_window_is_exact(
    warmup: u64,
    window: u64,
    first: u64,
    blocks: Seq<Block>,
    block: Block,
    network_nodes: u64,
    bench_nodes: u64,
)
    requires
        first + window <= u64::MAX,
        blocks.len() < window,
    ensures
        ({
            let method = MethodToEvalNetStable::CustomBlocksElapsed { warmup, window };
            let event = NetEvent::Fetched { block, network_nodes, bench_nodes };
            let next = step(method, MonitorModel::Collecting { first, blocks }, event);
            let grown = blocks.push(block);
            &&& grown.len() < window ==> next.1 == (MonitorAction::FetchBlock {
                number: (first + grown.len()) as u64,
            }) && next.0 == (MonitorModel::Collecting { first, blocks: grown })
            &&& grown.len() == window ==> next == report(
                evaluate(network_nodes, bench_nodes, grown),
            )
        }),
{
}

} // verus!
