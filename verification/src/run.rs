//! Per-chunk outcomes and their aggregation into the end-of-run report.
//!
//! One outcome is folded in per dispatched chunk, and the run is
//! complete only when every dispatched chunk's outcome has been folded
//! in: the aggregator keeps the dispatched and completed counts apart
//! so that the completion barrier is explicit. In-flight work is
//! bounded by the capacity of the connection pool.

use vstd::prelude::*;

verus! {

/// Counters from writing one chunk's extracted entities.
#[derive(Clone, Copy, Debug, PartialEq, Eq, Structural)]
pub struct WriteStats {
    pub extracted: u64,
    pub written: u64,
    pub pool_errors: u64,
    pub store_errors: u64,
    pub serialization_errors: u64,
}

impl WriteStats {
    /// Writes and per-write failures accounted for so far.
    pub open spec fn accounted(self) -> int {
        self.written + self.pool_errors + self.store_errors + self.serialization_errors
    }

    /// Every write and every failure belongs to one extracted entity.
    pub open spec fn wf(self) -> bool {
        self.accounted() <= self.extracted
    }

    /// Counters for a chunk that extracted `extracted` entities, with
    /// no writes attempted yet.
    pub fn start(extracted: u64) -> (r: WriteStats)
        ensures
            r.wf(),
            r.extracted == extracted,
            r.accounted() == 0,
    {
        WriteStats {
            extracted,
            written: 0,
            pool_errors: 0,
            store_errors: 0,
            serialization_errors: 0,
        }
    }

    /// Accounts one entity as written.
    pub fn note_written(&mut self)
        requires
            old(self).wf(),
            old(self).accounted() < old(self).extracted,
        ensures
            final(self).wf(),
            final(self).written == old(self).written + 1,
            final(self).extracted == old(self).extracted,
            final(self).pool_errors == old(self).pool_errors,
            final(self).store_errors == old(self).store_errors,
            final(self).serialization_errors == old(self).serialization_errors,
    {
        self.written = self.written + 1;
    }

    /// Accounts one entity's write as abandoned after the bounded
    /// connection-acquisition retries.
    pub fn note_pool_error(&mut self)
        requires
            old(self).wf(),
            old(self).accounted() < old(self).extracted,
        ensures
            final(self).wf(),
            final(self).pool_errors == old(self).pool_errors + 1,
            final(self).extracted == old(self).extracted,
            final(self).written == old(self).written,
            final(self).store_errors == old(self).store_errors,
            final(self).serialization_errors == old(self).serialization_errors,
    {
        self.pool_errors = self.pool_errors + 1;
    }

    /// Accounts one entity's write as refused by the store.
    pub fn note_store_error(&mut self)
        requires
            old(self).wf(),
            old(self).accounted() < old(self).extracted,
        ensures
            final(self).wf(),
            final(self).store_errors == old(self).store_errors + 1,
            final(self).extracted == old(self).extracted,
            final(self).written == old(self).written,
            final(self).pool_errors == old(self).pool_errors,
            final(self).serialization_errors == old(self).serialization_errors,
    {
        self.store_errors = self.store_errors + 1;
    }

    /// Accounts one entity whose payload could not be encoded.
    pub fn note_serialization_error(&mut self)
        requires
            old(self).wf(),
            old(self).accounted() < old(self).extracted,
        ensures
            final(self).wf(),
            final(self).serialization_errors == old(self).serialization_errors + 1,
            final(self).extracted == old(self).extracted,
            final(self).written == old(self).written,
            final(self).pool_errors == old(self).pool_errors,
            final(self).store_errors == old(self).store_errors,
    {
        self.serialization_errors = self.serialization_errors + 1;
    }

    /// Whether another write may still be accounted: true while fewer
    /// entities were written or reported failed than were extracted.
    pub fn can_account(&self) -> (r: bool)
        requires
            self.wf(),
        ensures
            r == (self.accounted() < self.extracted),
    {
        let done = self.written as u128 + self.pool_errors as u128 + self.store_errors as u128
            + self.serialization_errors as u128;
        done < self.extracted as u128
    }

    /// Whether every extracted entity has been written or reported
    /// failed: anything less on a finished chunk is silent data loss.
    pub fn fully_accounted(&self) -> (r: bool)
        requires
            self.wf(),
        ensures
            r == (self.accounted() == self.extracted),
    {
        let done = self.written as u128 + self.pool_errors as u128 + self.store_errors as u128
            + self.serialization_errors as u128;
        done == self.extracted as u128
    }
}

/// What one chunk's pipeline came to.
#[derive(Clone, Copy, Debug, PartialEq, Eq, Structural)]
pub enum ChunkOutcome {
    /// A header or unrecognized chunk: nothing to extract.
    Skipped,
    /// The chunk's payload failed to decode: the chunk was dropped.
    DecodeFailed,
    /// The chunk was decoded and its entities were written.
    Written(WriteStats),
}

/// Entities extracted from one outcome.
pub open spec fn outcome_extracted(o: ChunkOutcome) -> int {
    match o {
        ChunkOutcome::Written(w) => w.extracted as int,
        _ => 0,
    }
}

/// Entities written by one outcome.
pub open spec fn outcome_written(o: ChunkOutcome) -> int {
    match o {
        ChunkOutcome::Written(w) => w.written as int,
        _ => 0,
    }
}

/// Decode failures of one outcome.
pub open spec fn outcome_decode_failures(o: ChunkOutcome) -> int {
    match o {
        ChunkOutcome::DecodeFailed => 1,
        _ => 0,
    }
}

/// Pool failures of one outcome.
pub open spec fn outcome_pool_errors(o: ChunkOutcome) -> int {
    match o {
        ChunkOutcome::Written(w) => w.pool_errors as int,
        _ => 0,
    }
}

/// Store failures of one outcome.
pub open spec fn outcome_store_errors(o: ChunkOutcome) -> int {
    match o {
        ChunkOutcome::Written(w) => w.store_errors as int,
        _ => 0,
    }
}

/// Serialization failures of one outcome.
pub open spec fn outcome_serialization_errors(o: ChunkOutcome) -> int {
    match o {
        ChunkOutcome::Written(w) => w.serialization_errors as int,
        _ => 0,
    }
}

/// Total entities extracted over a run.
pub open spec fn total_extracted(s: Seq<ChunkOutcome>) -> int
    decreases s.len(),
{
    if s.len() == 0 {
        0
    } else {
        total_extracted(s.drop_last()) + outcome_extracted(s.last())
    }
}

/// Total entities written over a run.
pub open spec fn total_written(s: Seq<ChunkOutcome>) -> int
    decreases s.len(),
{
    if s.len() == 0 {
        0
    } else {
        total_written(s.drop_last()) + outcome_written(s.last())
    }
}

/// Total decode failures over a run.
pub open spec fn total_decode_failures(s: Seq<ChunkOutcome>) -> int
    decreases s.len(),
{
    if s.len() == 0 {
        0
    } else {
        total_decode_failures(s.drop_last()) + outcome_decode_failures(s.last())
    }
}

/// Total pool failures over a run.
pub open spec fn total_pool_errors(s: Seq<ChunkOutcome>) -> int
    decreases s.len(),
{
    if s.len() == 0 {
        0
    } else {
        total_pool_errors(s.drop_last()) + outcome_pool_errors(s.last())
    }
}

/// Total store failures over a run.
pub open spec fn total_store_errors(s: Seq<ChunkOutcome>) -> int
    decreases s.len(),
{
    if s.len() == 0 {
        0
    } else {
        total_store_errors(s.drop_last()) + outcome_store_errors(s.last())
    }
}

/// Total serialization failures over a run.
pub open spec fn total_serialization_errors(s: Seq<ChunkOutcome>) -> int
    decreases s.len(),
{
    if s.len() == 0 {
        0
    } else {
        total_serialization_errors(s.drop_last()) + outcome_serialization_errors(s.last())
    }
}

/// Every total over a concatenation is the sum of the totals over each
/// part: chunks contribute independently of their neighbours.
pub proof fn lemma_totals_concat(s1: Seq<ChunkOutcome>, s2: Seq<ChunkOutcome>)
    ensures
        total_extracted(s1 + s2) == total_extracted(s1) + total_extracted(s2),
        total_written(s1 + s2) == total_written(s1) + total_written(s2),
        total_decode_failures(s1 + s2) == total_decode_failures(s1) + total_decode_failures(s2),
        total_pool_errors(s1 + s2) == total_pool_errors(s1) + total_pool_errors(s2),
        total_store_errors(s1 + s2) == total_store_errors(s1) + total_store_errors(s2),
        total_serialization_errors(s1 + s2) == total_serialization_errors(s1)
            + total_serialization_errors(s2),
    decreases s2.len(),
{
    if s2.len() == 0 {
        assert(s1 + s2 =~= s1);
    } else {
        lemma_totals_concat(s1, s2.drop_last());
        assert((s1 + s2).drop_last() =~= s1 + s2.drop_last());
        assert((s1 + s2).last() == s2.last());
    }
}

/// A chunk that fails to decode contributes exactly one decode failure
/// to the run and nothing else: every other total over the run is what
/// the remaining chunks alone produce.
pub proof fn lemma_corrupt_chunk_isolated(s1: Seq<ChunkOutcome>, s2: Seq<ChunkOutcome>)
    ensures
        total_extracted(s1 + seq![ChunkOutcome::DecodeFailed] + s2) == total_extracted(s1 + s2),
        total_written(s1 + seq![ChunkOutcome::DecodeFailed] + s2) == total_written(s1 + s2),
        total_pool_errors(s1 + seq![ChunkOutcome::DecodeFailed] + s2) == total_pool_errors(s1 + s2),
        total_store_errors(s1 + seq![ChunkOutcome::DecodeFailed] + s2) == total_store_errors(
            s1 + s2,
        ),
        total_serialization_errors(s1 + seq![ChunkOutcome::DecodeFailed] + s2)
            == total_serialization_errors(s1 + s2),
        total_decode_failures(s1 + seq![ChunkOutcome::DecodeFailed] + s2) == total_decode_failures(
            s1 + s2,
        ) + 1,
{
    let bad = seq![ChunkOutcome::DecodeFailed];
    lemma_totals_concat(s1 + bad, s2);
    lemma_totals_concat(s1, bad);
    lemma_totals_concat(s1, s2);
    assert(bad.drop_last() =~= Seq::<ChunkOutcome>::empty());
    reveal_with_fuel(total_extracted, 2);
    reveal_with_fuel(total_written, 2);
    reveal_with_fuel(total_decode_failures, 2);
    reveal_with_fuel(total_pool_errors, 2);
    reveal_with_fuel(total_store_errors, 2);
    reveal_with_fuel(total_serialization_errors, 2);
}

/// Clamp to what a 64-bit counter can hold.
pub open spec fn sat64(x: int) -> int {
    if x > u64::MAX {
        u64::MAX as int
    } else {
        x
    }
}

/// The end-of-run summary: chunks seen, entities extracted and written,
/// and failures per kind. Counters clamp at their maximum instead of
/// wrapping.
#[derive(Clone, Copy, Debug, PartialEq, Eq, Structural)]
pub struct RunReport {
    pub chunks: u64,
    pub extracted: u64,
    pub written: u64,
    pub decode_errors: u64,
    pub pool_errors: u64,
    pub store_errors: u64,
    pub serialization_errors: u64,
}

/// Whether `rep` is the exact summary of the outcomes `s`.
pub open spec fn report_of(rep: RunReport, s: Seq<ChunkOutcome>) -> bool {
    &&& rep.chunks == s.len()
    &&& rep.extracted == sat64(total_extracted(s))
    &&& rep.written == sat64(total_written(s))
    &&& rep.decode_errors == sat64(total_decode_failures(s))
    &&& rep.pool_errors == sat64(total_pool_errors(s))
    &&& rep.store_errors == sat64(total_store_errors(s))
    &&& rep.serialization_errors == sat64(total_serialization_errors(s))
}

/// Fans chunk pipelines out and folds their outcomes back in. The
/// in-flight count is bounded by the connection-pool capacity, and the
/// run is complete only when every dispatched chunk has reported back.
pub struct RunAggregator {
    pub pool_capacity: usize,
    pub dispatched: u64,
    pub completed: u64,
    pub report: RunReport,
    pub outcomes: Ghost<Seq<ChunkOutcome>>,
}

impl RunAggregator {
    /// The aggregator's internal consistency: completed outcomes are
    /// exactly the folded ones, no more chunks completed than
    /// dispatched, and the report summarizes them exactly.
    pub open spec fn wf(self) -> bool {
        &&& self.pool_capacity > 0
        &&& self.completed == self.outcomes@.len()
        &&& self.completed <= self.dispatched
        &&& report_of(self.report, self.outcomes@)
    }

    /// How many dispatched chunks have not reported back yet.
    pub open spec fn in_flight(self) -> int {
        self.dispatched - self.completed
    }

    /// An aggregator for a pool of `pool_capacity` connections, with
    /// nothing dispatched.
    pub fn new(pool_capacity: usize) -> (r: RunAggregator)
        requires
            pool_capacity > 0,
        ensures
            r.wf(),
            r.pool_capacity == pool_capacity,
            r.dispatched == 0,
            r.completed == 0,
            r.outcomes@ =~= Seq::<ChunkOutcome>::empty(),
    {
        RunAggregator {
            pool_capacity,
            dispatched: 0,
            completed: 0,
            report: RunReport {
                chunks: 0,
                extracted: 0,
                written: 0,
                decode_errors: 0,
                pool_errors: 0,
                store_errors: 0,
                serialization_errors: 0,
            },
            outcomes: Ghost(Seq::empty()),
        }
    }

    /// Whether another chunk pipeline may be dispatched without
    /// exceeding the pool's capacity.
    pub fn has_capacity(&self) -> (r: bool)
        requires
            self.wf(),
        ensures
            r == (self.in_flight() < self.pool_capacity),
    {
        self.dispatched - self.completed < self.pool_capacity as u64
    }

    /// Notes one more chunk pipeline in flight.
    pub fn dispatch(&mut self)
        requires
            old(self).wf(),
            old(self).in_flight() < old(self).pool_capacity,
            old(self).dispatched < u64::MAX,
        ensures
            final(self).wf(),
            final(self).dispatched == old(self).dispatched + 1,
            final(self).completed == old(self).completed,
            final(self).pool_capacity == old(self).pool_capacity,
            final(self).outcomes@ == old(self).outcomes@,
            final(self).report == old(self).report,
    {
        self.dispatched = self.dispatched + 1;
    }

    /// Folds one finished chunk pipeline's outcome into the report.
    pub fn complete(&mut self, outcome: ChunkOutcome)
        requires
            old(self).wf(),
            old(self).completed < old(self).dispatched,
        ensures
            final(self).wf(),
            final(self).outcomes@ == old(self).outcomes@.push(outcome),
            final(self).completed == old(self).completed + 1,
            final(self).dispatched == old(self).dispatched,
            final(self).pool_capacity == old(self).pool_capacity,
    {
        proof {
            let s = self.outcomes@;
            let s2 = s.push(outcome);
            assert(s2.drop_last() =~= s);
            assert(self.report.chunks == s.len());
            assert(self.completed < self.dispatched <= u64::MAX);
        }
        match outcome {
            ChunkOutcome::Skipped => {},
            ChunkOutcome::DecodeFailed => {
                self.report.decode_errors = self.report.decode_errors.saturating_add(1);
            },
            ChunkOutcome::Written(w) => {
                self.report.extracted = self.report.extracted.saturating_add(w.extracted);
                self.report.written = self.report.written.saturating_add(w.written);
                self.report.pool_errors = self.report.pool_errors.saturating_add(w.pool_errors);
                self.report.store_errors = self.report.store_errors.saturating_add(w.store_errors);
                self.report.serialization_errors = self.report.serialization_errors.saturating_add(
                    w.serialization_errors,
                );
            },
        }
        self.report.chunks = self.report.chunks + 1;
        self.completed = self.completed + 1;
        proof {
            self.outcomes@ = self.outcomes@.push(outcome);
        }
    }

    /// Whether every dispatched chunk pipeline has reported back. Only
    /// then is the run complete; a report read before that describes an
    /// unfinished run.
    pub fn is_complete(&self) -> (r: bool)
        ensures
            r == (self.dispatched == self.completed),
    {
        self.dispatched == self.completed
    }

    /// The end-of-run summary.
    pub fn report(&self) -> (r: RunReport)
        requires
            self.wf(),
            self.dispatched == self.completed,
        ensures
            report_of(r, self.outcomes@),
    {
        self.report
    }
}

/// How pool acquisition retries back off: delays double from the base,
/// clamped to the longest delay, for a bounded number of attempts.
#[derive(Clone, Copy, Debug, PartialEq, Eq, Structural)]
pub struct RetryPolicy {
    pub max_attempts: u32,
    pub base_delay_ms: u64,
    pub max_delay_ms: u64,
}

/// What a write should do after a failed connection acquisition.
#[derive(Clone, Copy, Debug, PartialEq, Eq, Structural)]
pub enum RetryDecision {
    /// Wait this many milliseconds, then try again.
    RetryAfterMs(u64),
    /// Give up on this write and report a pool failure.
    Abandon,
}

/// The delay before attempt `k + 1`: the base delay doubled `k` times,
/// clamped to the longest delay.
pub open spec fn spec_backoff(p: RetryPolicy, k: int) -> int
    decreases k + 1,
{
    if k <= 0 {
        if p.base_delay_ms > p.max_delay_ms {
            p.max_delay_ms as int
        } else {
            p.base_delay_ms as int
        }
    } else {
        let prev = spec_backoff(p, k - 1);
        if prev * 2 > p.max_delay_ms {
            p.max_delay_ms as int
        } else {
            prev * 2
        }
    }
}

impl RetryPolicy {
    /// Decides whether a write that has already made `attempts_made`
    /// failed acquisition attempts retries — and after how long — or is
    /// abandoned: it retries exactly while fewer than the bounded
    /// number of attempts were made.
    pub fn decide(&self, attempts_made: u32) -> (r: RetryDecision)
        ensures
            attempts_made < self.max_attempts ==> r == RetryDecision::RetryAfterMs(
                spec_backoff(*self, attempts_made as int) as u64,
            ),
            attempts_made >= self.max_attempts ==> r == RetryDecision::Abandon,
    {
        if attempts_made >= self.max_attempts {
            return RetryDecision::Abandon;
        }
        let mut delay: u64 = if self.base_delay_ms > self.max_delay_ms {
            self.max_delay_ms
        } else {
            self.base_delay_ms
        };
        let mut k: u32 = 0;
        while k < attempts_made
            invariant
                0 <= k <= attempts_made,
                delay == spec_backoff(*self, k as int),
                delay <= self.max_delay_ms,
            decreases attempts_made - k,
        {
            delay = match delay.checked_mul(2) {
                Some(x) => {
                    if x > self.max_delay_ms {
                        self.max_delay_ms
                    } else {
                        x
                    }
                },
                None => self.max_delay_ms,
            };
            k = k + 1;
        }
        RetryDecision::RetryAfterMs(delay)
    }
}

} // verus!
