//! How a launched simulation ended, how that outcome is classified and
//! reported, and the decisions that a launch takes between its steps.
use vstd::prelude::*;
use crate::time::Time;

verus! {

/// How the integrator's run of a simulation ended.
pub enum Outcome {
    /// The integration reached the final time.
    Completed,
    /// The integrator used up its step budget at `time`, after `n_step` steps.
    StepLimitReached { time: Time, n_step: usize },
    /// Any other failure, given by its chain of causes, from the proximate
    /// error down to the root cause.
    Failed { causes: Vec<String> },
}

/// The classification of an outcome, with what its log record needs.
pub enum Verdict {
    /// Logged at info level.
    Success,
    /// An expected early end, logged as a warning.
    Recoverable { time: Time, n_step: usize },
    /// Logged as an error with the whole cause chain, and shown to the user.
    Fatal { message: String },
}

/// The level of a log record.
#[derive(Clone, Copy, Debug, PartialEq, Eq, Structural)]
pub enum LogLevel {
    Info,
    Warning,
    Error,
}

/// What happened last while launching a simulation.
pub enum LaunchEvent {
    /// The launch begins.
    Begin,
    /// The integrator took the initial values.
    Initialised,
    /// The integrator refused the initial values.
    InitialiseFailed,
    /// The integration ended so.
    Finished(Outcome),
}

/// What a launch does next.
pub enum LaunchStep {
    /// Hand the initial values to the integrator.
    Initialise,
    /// Log the start of the run and integrate up to the final time.
    Integrate,
    /// Log the verdict; the launch has succeeded, whatever the verdict.
    Report(Verdict),
    /// Give up and return the integrator's error to the caller.
    Abort,
}

#[verifier::external_type_specification]
#[verifier::external_body]
pub struct ExAnyhowError(anyhow::Error);

/// The number of errors in the chain of `e`: `e` itself and each of its
/// sources in turn.
pub uninterp spec fn chain_len_of(e: anyhow::Error) -> nat;

/// Relies on `anyhow::Error::chain`, which yields the error itself and then
/// each of its sources in turn, so that the chain is never empty; each
/// cause is rendered by its `Display`, one string per error of the chain.
#[verifier::external_body]
fn cause_messages(e: &anyhow::Error) -> (r: Vec<String>)
    ensures
        r@.len() == chain_len_of(*e),
        r@.len() >= 1,
{
    e.chain().map(|cause| cause.to_string()).collect()
}

/// The outcome of an integration that failed with `e` for any reason other
/// than an exhausted step budget: a failure with the whole chain of causes
/// of `e`, one for each error from `e` itself down to the root cause.
pub fn failed_outcome(e: &anyhow::Error) -> (r: Outcome)
    ensures
        r is Failed,
        r->causes@.len() == chain_len_of(*e),
        r->causes@.len() >= 1,
{
    Outcome::Failed { causes: cause_messages(e) }
}

/// The first part of the message of a failed simulation.
pub open spec fn abort_prefix(name: Seq<char>) -> Seq<char> {
    "Aborting simulation "@ + name + " due to failure."@
}

/// The first `n` causes, each after a `": "`.
pub open spec fn chain_text(causes: Seq<String>, n: int) -> Seq<char>
    decreases n,
{
    if n <= 0 {
        Seq::empty()
    } else {
        chain_text(causes, n - 1) + ": "@ + causes[n - 1]@
    }
}

/// The message of a failed simulation: its name and every cause of the
/// failure, flattened into one line.
pub open spec fn failure_text(name: Seq<char>, causes: Seq<String>) -> Seq<char> {
    abort_prefix(name) + chain_text(causes, causes.len() as int)
}

/// Where the `k`-th cause stands in the failure message.
pub open spec fn cause_offset(name: Seq<char>, causes: Seq<String>, k: int) -> int {
    (abort_prefix(name).len() + chain_text(causes, k).len() + 2) as int
}

/// Whether `v` is the verdict on `outcome` for the simulation named `name`.
pub open spec fn is_verdict(name: Seq<char>, outcome: Outcome, v: Verdict) -> bool {
    match outcome {
        Outcome::Completed => v is Success,
        Outcome::StepLimitReached { time, n_step } => v == (Verdict::Recoverable { time, n_step }),
        Outcome::Failed { causes } => v is Fatal && v->message@ == failure_text(name, causes@),
    }
}

impl Verdict {
    pub open spec fn spec_level(&self) -> LogLevel {
        match self {
            Verdict::Success => LogLevel::Info,
            Verdict::Recoverable { .. } => LogLevel::Warning,
            Verdict::Fatal { .. } => LogLevel::Error,
        }
    }

    /// The level at which the verdict is logged.
    pub fn level(&self) -> (r: LogLevel)
        ensures
            r == self.spec_level(),
    {
        match self {
            Verdict::Success => LogLevel::Info,
            Verdict::Recoverable { .. } => LogLevel::Warning,
            Verdict::Fatal { .. } => LogLevel::Error,
        }
    }
}

/// Flattens a chain of causes into the message of the failed simulation
/// `name`: `Aborting simulation <name> due to failure.` followed by
/// `: <cause>` for each cause, in the order of the chain.
pub fn failure_message(name: &str, causes: &Vec<String>) -> (r: String)
    ensures
        r@ == failure_text(name@, causes@),
{
    let mut s = "Aborting simulation ".to_owned();
    s.append(name);
    s.append(" due to failure.");
    proof {
        reveal_strlit("Aborting simulation ");
        reveal_strlit(" due to failure.");
        assert(s@ =~= abort_prefix(name@) + chain_text(causes@, 0));
    }
    let mut i: usize = 0;
    while i < causes.len()
        invariant
            i <= causes@.len(),
            s@ == abort_prefix(name@) + chain_text(causes@, i as int),
        decreases causes@.len() - i,
    {
        s.append(": ");
        s.append(causes[i].as_str());
        proof {
            reveal_strlit(": ");
            assert(s@ =~= abort_prefix(name@) + chain_text(causes@, i + 1));
        }
        i = i + 1;
    }
    s
}

/// Classifies how the simulation `name` ended: a completed run is a
/// success, an exhausted step budget an expected early end, and any other
/// failure fatal.
pub fn classify(name: &str, outcome: Outcome) -> (r: Verdict)
    ensures
        is_verdict(name@, outcome, r),
        outcome is StepLimitReached ==> r.spec_level() == LogLevel::Warning,
        outcome is Failed ==> r.spec_level() == LogLevel::Error,
{
    match outcome {
        Outcome::Completed => Verdict::Success,
        Outcome::StepLimitReached { time, n_step } => Verdict::Recoverable { time, n_step },
        Outcome::Failed { causes } => Verdict::Fatal { message: failure_message(name, &causes) },
    }
}

proof fn lemma_chain_text_prefix(causes: Seq<String>, m: int, n: int)
    requires
        0 <= m <= n,
    ensures
        chain_text(causes, m).len() <= chain_text(causes, n).len(),
        chain_text(causes, n).subrange(0, chain_text(causes, m).len() as int) == chain_text(causes, m),
    decreases n,
{
    if n > m {
        lemma_chain_text_prefix(causes, m, n - 1);
        let a = chain_text(causes, m);
        let b = chain_text(causes, n - 1);
        assert(chain_text(causes, n).subrange(0, a.len() as int) =~= b.subrange(0, a.len() as int));
    } else {
        assert(chain_text(causes, n).subrange(0, chain_text(causes, n).len() as int) =~= chain_text(causes, n));
    }
}

/// Every cause of a failure stands in the failure message, each one after
/// the causes that come before it in the chain.
pub proof fn law_failure_message_keeps_causes_in_order(name: Seq<char>, causes: Seq<String>, j: int, k: int)
    requires
        0 <= j < k < causes.len(),
    ensures
        failure_text(name, causes).subrange(
            cause_offset(name, causes, k),
            cause_offset(name, causes, k) + causes[k]@.len(),
        ) == causes[k]@,
        failure_text(name, causes).subrange(
            cause_offset(name, causes, j),
            cause_offset(name, causes, j) + causes[j]@.len(),
        ) == causes[j]@,
        cause_offset(name, causes, j) + causes[j]@.len() < cause_offset(name, causes, k),
{
    lemma_cause_in_message(name, causes, j);
    lemma_cause_in_message(name, causes, k);
    lemma_chain_text_prefix(causes, j + 1, k);
    reveal_strlit(": ");
}

proof fn lemma_cause_in_message(name: Seq<char>, causes: Seq<String>, k: int)
    requires
        0 <= k < causes.len(),
    ensures
        failure_text(name, causes).subrange(
            cause_offset(name, causes, k),
            cause_offset(name, causes, k) + causes[k]@.len(),
        ) == causes[k]@,
{
    reveal_strlit(": ");
    let p = abort_prefix(name);
    let full = chain_text(causes, causes.len() as int);
    let upto = chain_text(causes, k + 1);
    lemma_chain_text_prefix(causes, k + 1, causes.len() as int);
    let off = cause_offset(name, causes, k);
    assert(upto =~= chain_text(causes, k) + ": "@ + causes[k]@);
    assert(failure_text(name, causes).subrange(off, off + causes[k]@.len()) =~= upto.subrange(
        off - p.len(),
        off - p.len() + causes[k]@.len(),
    ));
    assert(upto.subrange(off - p.len(), off - p.len() + causes[k]@.len()) =~= causes[k]@);
}

} // verus!
