//! Summary statistics over a window of consecutive blocks.

use vstd::arithmetic::div_mod::{lemma_fundamental_div_mod, lemma_hoist_over_denominator};
use vstd::prelude::*;

verus! {

/// What the benchmark reads of a confirmed block.
#[derive(Clone, Copy, Debug, PartialEq, Eq, Structural)]
pub struct Block {
    /// The block's number in the chain.
    pub number: u64,
    /// The block's timestamp, in milliseconds.
    pub timestamp: u64,
    /// How many transactions the block holds.
    pub transactions: u64,
}

/// Throughput figures of one window of blocks.
#[derive(Clone, Copy, Debug, PartialEq, Eq, Structural)]
pub struct Metrics {
    /// Transactions per second over the window.
    pub tps: u64,
    /// Average time between blocks, in milliseconds, at least 1.
    pub average_block_time_ms: u64,
    /// Average number of transactions in a block.
    pub average_block_transactions: u64,
    /// Number of the window's first block.
    pub start_block_number: u64,
    /// Number of the window's last block.
    pub end_block_number: u64,
    /// Nodes in the network when the window was evaluated.
    pub network_nodes: u64,
    /// Nodes that drive the benchmark when the window was evaluated.
    pub bench_nodes: u64,
}

/// Why a window of blocks has no metrics.
#[derive(Clone, Copy, Debug, PartialEq, Eq, Structural)]
pub enum MetricsError {
    /// The window holds no block.
    EmptyWindow,
    /// The window's last block is not later than its first.
    ZeroElapsed,
}

/// The number of transactions in all blocks of the window together.
pub open spec fn total_transactions(blocks: Seq<Block>) -> nat
    decreases blocks.len(),
{
    if blocks.len() == 0 {
        0
    } else {
        total_transactions(blocks.drop_last()) + blocks.last().transactions as nat
    }
}

/// Milliseconds from the first block's timestamp to the last one's; 0 where
/// the last is not later than the first.
pub open spec fn elapsed_ms(blocks: Seq<Block>) -> nat
    recommends
        blocks.len() > 0,
{
    if blocks.last().timestamp >= blocks.first().timestamp {
        (blocks.last().timestamp - blocks.first().timestamp) as nat
    } else {
        0
    }
}

/// `value` as a `u64`, or the largest `u64` where it does not fit.
pub open spec fn saturate(value: int) -> u64 {
    if value > u64::MAX {
        u64::MAX
    } else if value < 0 {
        0
    } else {
        value as u64
    }
}

/// The metrics of a non-empty window over which time has passed.
pub open spec fn metrics_of(network_nodes: u64, bench_nodes: u64, blocks: Seq<Block>) -> Metrics
    recommends
        blocks.len() > 0,
        elapsed_ms(blocks) > 0,
{
    let total = total_transactions(blocks) as int;
    let count = blocks.len() as int;
    let elapsed = elapsed_ms(blocks) as int;
    Metrics {
        tps: saturate(total * 1000 / elapsed),
        average_block_time_ms: if elapsed / count < 1 {
            1
        } else {
            (elapsed / count) as u64
        },
        average_block_transactions: (total / count) as u64,
        start_block_number: blocks.first().number,
        end_block_number: blocks.last().number,
        network_nodes,
        bench_nodes,
    }
}

/// What evaluating a window gives: its metrics, or the reason it has none.
pub open spec fn evaluate(network_nodes: u64, bench_nodes: u64, blocks: Seq<Block>) -> Result<
    Metrics,
    MetricsError,
> {
    if blocks.len() == 0 {
        Err(MetricsError::EmptyWindow)
    } else if elapsed_ms(blocks) == 0 {
        Err(MetricsError::ZeroElapsed)
    } else {
        Ok(metrics_of(network_nodes, bench_nodes, blocks))
    }
}

/// A quotient by `divisor` of `1000 * value` splits into the quotient's and
/// the remainder's parts.
proof fn lemma_scaled_quotient(value: int, divisor: int)
    requires
        value >= 0,
        divisor > 0,
    ensures
        value * 1000 / divisor == (value / divisor) * 1000 + ((value % divisor) * 1000) / divisor,
        ((value % divisor) * 1000) / divisor >= 0,
        value / divisor >= 0,
        0 <= value % divisor < divisor,
{
    let q = value / divisor;
    let r = value % divisor;
    lemma_fundamental_div_mod(value, divisor);
    assert(value * 1000 == r * 1000 + (q * 1000) * divisor) by (nonlinear_arith)
        requires
            value == divisor * q + r,
    ;
    lemma_hoist_over_denominator(r * 1000, q * 1000, divisor as nat);
    assert(0 <= r < divisor) by (nonlinear_arith)
        requires
            r == value % divisor,
            divisor > 0,
    ;
    assert((r * 1000) / divisor >= 0) by (nonlinear_arith)
        requires
            r >= 0,
            divisor > 0,
    ;
    assert(q >= 0) by (nonlinear_arith)
        requires
            q == value / divisor,
            value >= 0,
            divisor > 0,
    ;
}

impl Metrics {
    /// Evaluates a window of consecutive blocks, given in chain order, with
    /// the node counts taken at the time of the evaluation.
    pub fn eval_blocks(network_nodes: u64, bench_nodes: u64, blocks: &Vec<Block>) -> (result:
        Result<Metrics, MetricsError>)
        ensures
            result == evaluate(network_nodes, bench_nodes, blocks@),
    {
        let count = blocks.len();
        if count == 0 {
            return Err(MetricsError::EmptyWindow);
        }
        let front = blocks[0];
        let back = blocks[count - 1];
        let elapsed: u64 = back.timestamp.saturating_sub(front.timestamp);
        if elapsed == 0 {
            return Err(MetricsError::ZeroElapsed);
        }
        let mut total: u128 = 0;
        let mut i: usize = 0;
        while i < count
            invariant
                i <= count,
                count == blocks.len(),
                total == total_transactions(blocks@.take(i as int)),
                total <= i * u64::MAX,
            decreases count - i,
        {
            proof {
                assert(blocks@.take(i + 1).drop_last() =~= blocks@.take(i as int));
                assert(i * u64::MAX + u64::MAX <= u64::MAX * u64::MAX + u64::MAX) by (nonlinear_arith)
                    requires
                        i <= u64::MAX,
                ;
                assert((i + 1) * u64::MAX == i * u64::MAX + u64::MAX) by (nonlinear_arith);
            }
            total = total + blocks[i].transactions as u128;
            i = i + 1;
        }
        proof {
            assert(blocks@.take(count as int) =~= blocks@);
            lemma_scaled_quotient(total as int, elapsed as int);
            assert(total as int / (count as int) <= u64::MAX) by (nonlinear_arith)
                requires
                    total <= count * u64::MAX,
                    count > 0,
            ;
        }
        let span = elapsed as u128;
        let whole = total / span;
        let tps: u64 = if whole > u64::MAX as u128 {
            u64::MAX
        } else {
            let scaled = whole * 1000 + ((total % span) * 1000) / span;
            if scaled > u64::MAX as u128 {
                u64::MAX
            } else {
                scaled as u64
            }
        };
        let per_block = elapsed / (count as u64);
        Ok(
            Metrics {
                tps,
                average_block_time_ms: if per_block < 1 {
                    1
                } else {
                    per_block
                },
                average_block_transactions: (total / (count as u128)) as u64,
                start_block_number: front.number,
                end_block_number: back.number,
                network_nodes,
                bench_nodes,
            },
        )
    }
}

} // verus!
