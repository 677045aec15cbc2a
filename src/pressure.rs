//! The pressure decorator's decisions: which delay each kind of request
//! gets, and in which order a decorated call counts, suspends and forwards.
//! Whoever runs the calls performs the steps one after the other.
use vstd::prelude::*;
use crate::counter::{apply_step, run, StageCounts, Step};

verus! {

/// The two kinds of request that the decorator delays.
#[derive(Debug, Copy, Clone, PartialEq, Eq, Structural)]
pub enum Stage {
    /// Fetching a sealed block header.
    Headers,
    /// Fetching the transactions of a block.
    Transactions,
}

/// The delay of each stage, in nanoseconds. Any value, zero included, is a
/// valid configuration.
#[derive(Debug, Copy, Clone, PartialEq, Eq, Structural)]
pub struct DelayConfig {
    pub header_stage_nanos: u64,
    pub transaction_stage_nanos: u64,
}

/// The steps of a header fetch: count the request as soon as the call
/// enters, suspend for the header delay, count the delivery, then forward.
pub open spec fn header_plan(delay: u64) -> Seq<Step> {
    seq![Step::CountHeaderRequest, Step::Sleep(delay), Step::CountBlockDelivered, Step::Forward]
}

/// The steps of a transactions fetch: suspend for the transaction delay,
/// count the delivery, then forward.
pub open spec fn transactions_plan(delay: u64) -> Seq<Step> {
    seq![Step::Sleep(delay), Step::CountTransactionsDelivered, Step::Forward]
}

impl DelayConfig {
    pub fn new(header_stage_nanos: u64, transaction_stage_nanos: u64) -> (r: DelayConfig)
        ensures
            r.header_stage_nanos == header_stage_nanos,
            r.transaction_stage_nanos == transaction_stage_nanos,
    {
        DelayConfig { header_stage_nanos, transaction_stage_nanos }
    }

    pub open spec fn spec_duration(self, stage: Stage) -> u64 {
        match stage {
            Stage::Headers => self.header_stage_nanos,
            Stage::Transactions => self.transaction_stage_nanos,
        }
    }

    /// The configured delay of `stage`.
    pub fn duration(&self, stage: Stage) -> (r: u64)
        ensures
            r == self.spec_duration(stage),
    {
        match stage {
            Stage::Headers => self.header_stage_nanos,
            Stage::Transactions => self.transaction_stage_nanos,
        }
    }

    /// The steps a decorated `get_sealed_block_header` takes.
    pub fn header_fetch_plan(&self) -> (r: Vec<Step>)
        ensures
            r@ == header_plan(self.header_stage_nanos),
    {
        let mut r: Vec<Step> = Vec::new();
        r.push(Step::CountHeaderRequest);
        r.push(Step::Sleep(self.duration(Stage::Headers)));
        r.push(Step::CountBlockDelivered);
        r.push(Step::Forward);
        assert(r@ =~= header_plan(self.header_stage_nanos));
        r
    }

    /// The steps a decorated `get_transactions` takes.
    pub fn transactions_fetch_plan(&self) -> (r: Vec<Step>)
        ensures
            r@ == transactions_plan(self.transaction_stage_nanos),
    {
        let mut r: Vec<Step> = Vec::new();
        r.push(Step::Sleep(self.duration(Stage::Transactions)));
        r.push(Step::CountTransactionsDelivered);
        r.push(Step::Forward);
        assert(r@ =~= transactions_plan(self.transaction_stage_nanos));
        r
    }
}

/// Nothing is forwarded to the delegate before the call has been suspended
/// for the whole configured delay of its stage: the one suspension is for
/// exactly that delay, and it comes before the forward.
pub proof fn lemma_delay_precedes_forward(delays: DelayConfig)
    ensures
        header_plan(delays.header_stage_nanos)[1] == Step::Sleep(delays.header_stage_nanos),
        header_plan(delays.header_stage_nanos)[3] == Step::Forward,
        forall|i: int|
            0 <= i < 3 ==> header_plan(delays.header_stage_nanos)[i] != Step::Forward,
        transactions_plan(delays.transaction_stage_nanos)[0] == Step::Sleep(
            delays.transaction_stage_nanos,
        ),
        transactions_plan(delays.transaction_stage_nanos)[2] == Step::Forward,
        forall|i: int|
            0 <= i < 2 ==> transactions_plan(delays.transaction_stage_nanos)[i] != Step::Forward,
{
}

/// A header fetch that runs to completion adds exactly one to the headers
/// requested and one to the blocks delivered, and leaves the transactions
/// delivered as they were, whatever the delegate answers.
pub proof fn lemma_header_fetch_counts(c: StageCounts, delay: u64)
    ensures
        run(c, header_plan(delay)) == (StageCounts {
            headers: c.headers + 1,
            blocks: c.blocks + 1,
            transactions: c.transactions,
        }),
{
    let p = header_plan(delay);
    reveal_with_fuel(run, 5);
    assert(p.drop_last() =~= p.take(3));
    assert(p.take(3).drop_last() =~= p.take(2));
    assert(p.take(2).drop_last() =~= p.take(1));
    assert(p.take(1).drop_last() =~= Seq::<Step>::empty());
}

/// A header fetch abandoned while it is suspended has already counted its
/// request, has not counted a delivery, and has not reached the delegate.
pub proof fn lemma_header_fetch_cancelled(c: StageCounts, delay: u64, taken: int)
    requires
        1 <= taken <= 2,
    ensures
        run(c, header_plan(delay).take(taken)) == (StageCounts {
            headers: c.headers + 1,
            blocks: c.blocks,
            transactions: c.transactions,
        }),
        !header_plan(delay).take(taken).contains(Step::Forward),
{
    let p = header_plan(delay);
    reveal_with_fuel(run, 3);
    assert(p.take(2).drop_last() =~= p.take(1));
    assert(p.take(1).drop_last() =~= Seq::<Step>::empty());
    assert(p.take(taken)[taken - 1] != Step::Forward);
    assert(forall|i: int| 0 <= i < taken ==> p.take(taken)[i] != Step::Forward);
}

/// A header fetch counts its request on entry: the first step it takes adds
/// one to the headers requested and nothing else.
pub proof fn lemma_header_request_counted_on_entry(c: StageCounts, delay: u64)
    ensures
        header_plan(delay)[0] == Step::CountHeaderRequest,
        apply_step(c, header_plan(delay)[0]) == (StageCounts { headers: c.headers + 1, ..c }),
{
}

/// A transactions fetch that runs to completion adds exactly one to the
/// transactions delivered and leaves the other counts as they were.
pub proof fn lemma_transactions_fetch_counts(c: StageCounts, delay: u64)
    ensures
        run(c, transactions_plan(delay)) == (StageCounts {
            transactions: c.transactions + 1,
            ..c
        }),
{
    let p = transactions_plan(delay);
    reveal_with_fuel(run, 4);
    assert(p.drop_last() =~= p.take(2));
    assert(p.take(2).drop_last() =~= p.take(1));
    assert(p.take(1).drop_last() =~= Seq::<Step>::empty());
}

} // verus!
