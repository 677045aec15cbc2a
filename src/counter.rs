//! The stage counter: three monotonic counts that the pressure decorator
//! advances as its calls pass through their stages.
use vstd::prelude::*;

verus! {

/// The mathematical value of a stage counter.
pub struct StageCounts {
    pub headers: nat,
    pub blocks: nat,
    pub transactions: nat,
}

/// One step of a decorated call, in the order the call takes them.
#[derive(Debug, Copy, Clone, PartialEq, Eq, Structural)]
pub enum Step {
    /// Record that a header was requested.
    CountHeaderRequest,
    /// Suspend the call for the given number of nanoseconds.
    Sleep(u64),
    /// Record that a block header was delivered.
    CountBlockDelivered,
    /// Record that a block's transactions were delivered.
    CountTransactionsDelivered,
    /// Hand the call to the delegate and return its answer unchanged.
    Forward,
}

/// The counts after one step: each counting step adds one to its own count;
/// suspending and forwarding leave the counts as they are.
pub open spec fn apply_step(c: StageCounts, s: Step) -> StageCounts {
    match s {
        Step::CountHeaderRequest => StageCounts { headers: c.headers + 1, ..c },
        Step::CountBlockDelivered => StageCounts { blocks: c.blocks + 1, ..c },
        Step::CountTransactionsDelivered => StageCounts { transactions: c.transactions + 1, ..c },
        _ => c,
    }
}

/// The counts after the steps, taken in order.
pub open spec fn run(c: StageCounts, steps: Seq<Step>) -> StageCounts
    decreases steps.len(),
{
    if steps.len() == 0 {
        c
    } else {
        apply_step(run(c, steps.drop_last()), steps.last())
    }
}

/// How many of the steps are `s`.
pub open spec fn occurrences(steps: Seq<Step>, s: Step) -> nat
    decreases steps.len(),
{
    if steps.len() == 0 {
        0
    } else {
        occurrences(steps.drop_last(), s) + if steps.last() == s {
            1nat
        } else {
            0nat
        }
    }
}

/// Whether the step can be recorded without a count passing `u64::MAX`.
pub open spec fn fits(c: StageCounts, s: Step) -> bool {
    match s {
        Step::CountHeaderRequest => c.headers < u64::MAX,
        Step::CountBlockDelivered => c.blocks < u64::MAX,
        Step::CountTransactionsDelivered => c.transactions < u64::MAX,
        _ => true,
    }
}

/// Counts of headers requested, blocks delivered and transactions
/// delivered. They only grow, one increment at a time.
#[derive(Debug)]
pub struct Count {
    headers: u64,
    blocks: u64,
    transactions: u64,
}

impl View for Count {
    type V = StageCounts;

    closed spec fn view(&self) -> StageCounts {
        StageCounts {
            headers: self.headers as nat,
            blocks: self.blocks as nat,
            transactions: self.transactions as nat,
        }
    }
}

impl Count {
    /// All three counts at zero.
    pub fn new() -> (r: Count)
        ensures
            r@ == (StageCounts { headers: 0, blocks: 0, transactions: 0 }),
    {
        Count { headers: 0, blocks: 0, transactions: 0 }
    }

    pub fn headers_requested(&self) -> (r: u64)
        ensures
            r == self@.headers,
    {
        self.headers
    }

    pub fn blocks_delivered(&self) -> (r: u64)
        ensures
            r == self@.blocks,
    {
        self.blocks
    }

    pub fn transactions_delivered(&self) -> (r: u64)
        ensures
            r == self@.transactions,
    {
        self.transactions
    }

    /// The three counts as one triple, in the order headers requested,
    /// blocks delivered, transactions delivered.
    pub fn snapshot(&self) -> (r: (u64, u64, u64))
        ensures
            r.0 == self@.headers,
            r.1 == self@.blocks,
            r.2 == self@.transactions,
    {
        (self.headers, self.blocks, self.transactions)
    }

    pub fn inc_headers(&mut self)
        requires
            old(self)@.headers < u64::MAX,
        ensures
            final(self)@ == apply_step(old(self)@, Step::CountHeaderRequest),
    {
        self.headers = self.headers + 1;
    }

    pub fn inc_blocks(&mut self)
        requires
            old(self)@.blocks < u64::MAX,
        ensures
            final(self)@ == apply_step(old(self)@, Step::CountBlockDelivered),
    {
        self.blocks = self.blocks + 1;
    }

    pub fn inc_transactions(&mut self)
        requires
            old(self)@.transactions < u64::MAX,
        ensures
            final(self)@ == apply_step(old(self)@, Step::CountTransactionsDelivered),
    {
        self.transactions = self.transactions + 1;
    }

    /// Whether `step` can be recorded without a count overflowing.
    pub fn can_record(&self, step: &Step) -> (r: bool)
        ensures
            r == fits(self@, *step),
    {
        match step {
            Step::CountHeaderRequest => self.headers < u64::MAX,
            Step::CountBlockDelivered => self.blocks < u64::MAX,
            Step::CountTransactionsDelivered => self.transactions < u64::MAX,
            _ => true,
        }
    }

    /// Records a counting step; a suspension or a forward changes nothing.
    pub fn record(&mut self, step: &Step)
        requires
            fits(old(self)@, *step),
        ensures
            final(self)@ == apply_step(old(self)@, *step),
    {
        match step {
            Step::CountHeaderRequest => self.inc_headers(),
            Step::CountBlockDelivered => self.inc_blocks(),
            Step::CountTransactionsDelivered => self.inc_transactions(),
            _ => {},
        }
    }
}

/// Whatever order concurrent calls record their steps in, each count ends
/// exactly as many above where it started as there were steps for it: no
/// increment is lost and none is counted twice.
pub proof fn lemma_run_counts_each_step(c: StageCounts, steps: Seq<Step>)
    ensures
        run(c, steps) == (StageCounts {
            headers: c.headers + occurrences(steps, Step::CountHeaderRequest),
            blocks: c.blocks + occurrences(steps, Step::CountBlockDelivered),
            transactions: c.transactions + occurrences(steps, Step::CountTransactionsDelivered),
        }),
    decreases steps.len(),
{
    if steps.len() > 0 {
        lemma_run_counts_each_step(c, steps.drop_last());
    }
}

/// Counts never go down: after any steps each count is at least what it was.
pub proof fn lemma_run_monotonic(c: StageCounts, steps: Seq<Step>)
    ensures
        run(c, steps).headers >= c.headers,
        run(c, steps).blocks >= c.blocks,
        run(c, steps).transactions >= c.transactions,
{
    lemma_run_counts_each_step(c, steps);
}

} // verus!
