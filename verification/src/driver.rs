//! The benchmark driver's iteration model: which log mode each workload
//! opens its file with, and how one iteration's outcome changes the
//! latency log and the progress counter.

use vstd::prelude::*;

verus! {

/// Which of the two benchmark workloads is being driven.
#[derive(Clone, Copy, PartialEq, Eq, Structural, Debug)]
pub enum Workload {
    SingleCall,
    Delegation,
}

/// How a workload's log file is opened at startup.
#[derive(Clone, Copy, PartialEq, Eq, Structural, Debug)]
pub enum LogMode {
    Truncate,
    Append,
}

pub open spec fn spec_log_mode(w: Workload) -> LogMode {
    match w {
        Workload::SingleCall => LogMode::Truncate,
        Workload::Delegation => LogMode::Append,
    }
}

/// The single-call workload always starts a fresh log file; the delegation
/// workload keeps prior content and appends, so its history survives runs.
pub fn log_open_mode(w: Workload) -> (m: LogMode)
    ensures
        m == spec_log_mode(w),
{
    match w {
        Workload::SingleCall => LogMode::Truncate,
        Workload::Delegation => LogMode::Append,
    }
}

/// The entries a log file holds right after being opened in mode `m`,
/// given the entries it held before.
pub open spec fn initial_entries(m: LogMode, prior: Seq<u64>) -> Seq<u64> {
    match m {
        LogMode::Truncate => Seq::empty(),
        LogMode::Append => prior,
    }
}

/// Outcome of one benchmark iteration, as the driver sees it.
pub enum IterationOutcome {
    /// The call (or two-phase exchange) succeeded after `elapsed_ms`
    /// milliseconds of wall-clock time.
    Success { elapsed_ms: u64 },
    /// A transient transport failure: the same iteration is retried and
    /// nothing is recorded.
    RetryableFailure,
    /// A protocol violation or decode failure: the driver must abort.
    FatalFailure,
}

/// What one outcome does to the log: a success appends its measurement,
/// anything else leaves the log untouched.
pub open spec fn apply_outcome(entries: Seq<u64>, outcome: IterationOutcome) -> Seq<u64> {
    match outcome {
        IterationOutcome::Success { elapsed_ms } => entries.push(elapsed_ms),
        IterationOutcome::RetryableFailure => entries,
        IterationOutcome::FatalFailure => entries,
    }
}

pub open spec fn apply_outcomes(entries: Seq<u64>, outcomes: Seq<IterationOutcome>) -> Seq<u64>
    decreases outcomes.len(),
{
    if outcomes.len() == 0 {
        entries
    } else {
        apply_outcome(apply_outcomes(entries, outcomes.drop_last()), outcomes.last())
    }
}

pub open spec fn success_count(outcomes: Seq<IterationOutcome>) -> nat
    decreases outcomes.len(),
{
    if outcomes.len() == 0 {
        0
    } else {
        success_count(outcomes.drop_last()) + if outcomes.last() is Success {
            1nat
        } else {
            0nat
        }
    }
}

/// The driver's record of one run: the latencies appended during this run
/// and the progress count, which advances only on success.
pub struct DriverState {
    pub entries: Vec<u64>,
    pub completed: u64,
}

impl DriverState {
    /// Every appended entry corresponds to exactly one completed iteration.
    pub open spec fn wf(self) -> bool {
        self.entries@.len() == self.completed
    }

    pub fn new() -> (s: DriverState)
        ensures
            s.wf(),
            s.entries@ == Seq::<u64>::empty(),
            s.completed == 0,
    {
        DriverState { entries: Vec::new(), completed: 0 }
    }

    /// A successful iteration appends its measurement and advances the
    /// progress counter; a failed one changes nothing, so a failed
    /// iteration never produces a log entry.
    pub fn record_iteration(&mut self, outcome: &IterationOutcome)
        requires
            old(self).wf(),
            old(self).completed < u64::MAX,
        ensures
            final(self).wf(),
            final(self).entries@ == apply_outcome(old(self).entries@, *outcome),
            *outcome matches IterationOutcome::Success { elapsed_ms } ==> final(self).completed
                == old(self).completed + 1,
            !(*outcome is Success) ==> *final(self) == *old(self),
    {
        match outcome {
            IterationOutcome::Success { elapsed_ms } => {
                self.entries.push(*elapsed_ms);
                self.completed = self.completed + 1;
            }
            IterationOutcome::RetryableFailure => {}
            IterationOutcome::FatalFailure => {}
        }
    }
}

/// How one attempt of the single-call workload ended.
pub enum CallEvent {
    /// The state-mutating call finalized.
    Succeeded,
    /// The call failed in transport or finalization.
    TransportFailed,
}

/// The single-call workload's retry policy: a finalized call records its
/// elapsed time; any failure retries the very same iteration, so every
/// logged latency belongs to an eventually-successful call and the log
/// holds no failure markers.
pub fn single_call_outcome(ev: &CallEvent, elapsed_ms: u64) -> (o: IterationOutcome)
    ensures
        ev is Succeeded ==> o == (IterationOutcome::Success { elapsed_ms }),
        ev is TransportFailed ==> o is RetryableFailure,
{
    match ev {
        CallEvent::Succeeded => IterationOutcome::Success { elapsed_ms },
        CallEvent::TransportFailed => IterationOutcome::RetryableFailure,
    }
}

/// No lost iterations: however a run of iterations went, the log gains
/// exactly one entry per successful iteration.
pub proof fn lemma_no_lost_iterations(entries: Seq<u64>, outcomes: Seq<IterationOutcome>)
    ensures
        apply_outcomes(entries, outcomes).len() == entries.len() + success_count(outcomes),
    decreases outcomes.len(),
{
    if outcomes.len() > 0 {
        lemma_no_lost_iterations(entries, outcomes.drop_last());
    }
}

/// A run made only of retryable or fatal failures leaves the log exactly
/// as it was.
pub proof fn lemma_failures_leave_log(entries: Seq<u64>, failures: Seq<IterationOutcome>)
    requires
        forall|i: int| 0 <= i < failures.len() ==> !(failures[i] is Success),
    ensures
        apply_outcomes(entries, failures) == entries,
    decreases failures.len(),
{
    if failures.len() > 0 {
        lemma_failures_leave_log(entries, failures.drop_last());
    }
}

/// Retry without log pollution: any number of transient failures followed
/// by one success appends exactly the one successful measurement.
pub proof fn lemma_retry_without_log_pollution(
    entries: Seq<u64>,
    failures: Seq<IterationOutcome>,
    elapsed_ms: u64,
)
    requires
        forall|i: int| 0 <= i < failures.len() ==> !(failures[i] is Success),
    ensures
        apply_outcomes(entries, failures.push(IterationOutcome::Success { elapsed_ms }))
            == entries.push(elapsed_ms),
{
    let run = failures.push(IterationOutcome::Success { elapsed_ms });
    assert(run.drop_last() =~= failures);
    lemma_failures_leave_log(entries, failures);
}

/// Fresh vs. resumed logs: after a run appending `run`, the single-call
/// workload's file holds only `run`, while the delegation workload's file
/// holds its prior entries followed by `run`.
pub proof fn lemma_fresh_vs_resumed(prior: Seq<u64>, run: Seq<u64>)
    ensures
        initial_entries(spec_log_mode(Workload::SingleCall), prior) + run =~= run,
        initial_entries(spec_log_mode(Workload::Delegation), prior) + run =~= prior + run,
{
}

} // verus!
