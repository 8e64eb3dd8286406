//! Planning of simulation runs: what a configuration source must satisfy
//! before any of its output is created, which files its run writes, and the
//! simulation entity assembled once that output exists.
use vstd::prelude::*;
use crate::config::{InputConfig, SetupError};
use crate::outcome::{classify, is_verdict, LaunchEvent, LaunchStep, LogLevel};
use crate::source::{file_stem, stem_of};
use crate::time::Time;

verus! {

/// The name of the reproducibility copy of a run's configuration: `<name>.conf`.
pub open spec fn config_file_of(name: Seq<char>) -> Seq<char> {
    name + seq!['.', 'c', 'o', 'n', 'f']
}

/// The name of the file that receives a run's results: `<name>.jsonl`.
pub open spec fn output_file_of(name: Seq<char>) -> Seq<char> {
    name + seq!['.', 'j', 's', 'o', 'n', 'l']
}

/// The view of an optional file name.
pub open spec fn name_view(file_name: Option<String>) -> Option<Seq<char>> {
    match file_name {
        Some(n) => Some(n@),
        None => None,
    }
}

/// The view of an optional borrowed file name.
pub open spec fn str_name_view(file_name: Option<&str>) -> Option<Seq<char>> {
    match file_name {
        Some(n) => Some(n@),
        None => None,
    }
}

/// What setting up a run from `config`, read from a file of the given name,
/// comes to: the run's name, or the reason why there is no run. The time
/// span is checked first.
pub open spec fn setup_outcome<U, I>(config: InputConfig<U, I>, file_name: Option<Seq<char>>) -> Result<
    Seq<char>,
    SetupError,
> {
    if !config.spec_valid() {
        Err(SetupError::InvalidTimeSpan)
    } else {
        match file_name {
            Some(n) => Ok(stem_of(n)),
            None => Err(SetupError::MissingName),
        }
    }
}

/// One configuration source: its record and the file name it was read from
/// (`None` where the source's path has no file name).
pub struct ConfigSource<U, I> {
    pub file_name: Option<String>,
    pub config: InputConfig<U, I>,
}

/// What setting up the first `n` sources of a batch comes to: the names of
/// all their runs, or the error of the first source that fails.
pub open spec fn batch_outcome<U, I>(sources: Seq<ConfigSource<U, I>>, n: int) -> Result<
    Seq<Seq<char>>,
    SetupError,
>
    decreases n,
{
    if n <= 0 {
        Ok(Seq::empty())
    } else {
        match batch_outcome(sources, n - 1) {
            Err(e) => Err(e),
            Ok(names) => match setup_outcome(sources[n - 1].config, name_view(sources[n - 1].file_name)) {
                Err(e) => Err(e),
                Ok(name) => Ok(names.push(name)),
            },
        }
    }
}

/// The names of the files that one run writes inside its run directory.
pub struct RunPlan {
    /// The run's name: the stem of its configuration source's file name.
    pub name: String,
    /// The reproducibility copy of the configuration.
    pub config_file: String,
    /// The file that receives the results, one JSON record per line.
    pub output_file: String,
}

impl RunPlan {
    /// Whether this is the plan of the run named `name`.
    pub open spec fn is_plan_for(&self, name: Seq<char>) -> bool {
        &&& self.name@ == name
        &&& self.config_file@ == config_file_of(name)
        &&& self.output_file@ == output_file_of(name)
    }

    /// The plan of the run named `name`.
    pub fn for_name(name: String) -> (r: RunPlan)
        ensures
            r.is_plan_for(name@),
    {
        let mut config_file = name.clone();
        config_file.append(".conf");
        let mut output_file = name.clone();
        output_file.append(".jsonl");
        proof {
            reveal_strlit(".conf");
            reveal_strlit(".jsonl");
            assert(config_file@ =~= config_file_of(name@));
            assert(output_file@ =~= output_file_of(name@));
        }
        RunPlan { name, config_file, output_file }
    }
}

/// Checks one configuration source and plans its run. Nothing is to be
/// created for a source that this rejects.
pub fn plan_run<U, I>(config: &InputConfig<U, I>, file_name: Option<&str>) -> (r: Result<RunPlan, SetupError>)
    ensures
        match r {
            Ok(plan) => setup_outcome(*config, str_name_view(file_name)) == Ok::<Seq<char>, SetupError>(plan.name@)
                && plan.is_plan_for(plan.name@),
            Err(e) => setup_outcome(*config, str_name_view(file_name)) == Err::<Seq<char>, SetupError>(e),
        },
        !config.spec_valid() ==> r == Err::<RunPlan, SetupError>(SetupError::InvalidTimeSpan),
{
    match config.validate() {
        Err(e) => Err(e),
        Ok(()) => match file_name {
            Some(n) => Ok(RunPlan::for_name(file_stem(n))),
            None => Err(SetupError::MissingName),
        },
    }
}

/// Checks every source of a batch and plans their runs, in order. The batch
/// resolves whole or not at all: the first source that fails fails the
/// batch, before anything is created for any of its sources. The error
/// gives the position of that source in `sources` with the reason.
pub fn plan_batch<U, I>(sources: &Vec<ConfigSource<U, I>>) -> (r: Result<Vec<RunPlan>, (usize, SetupError)>)
    ensures
        match r {
            Ok(plans) => {
                &&& batch_outcome(sources@, sources@.len() as int) is Ok
                &&& plans@.len() == sources@.len()
                &&& forall|k: int|
                    0 <= k < plans@.len() ==> #[trigger] plans@[k].is_plan_for(
                        batch_outcome(sources@, sources@.len() as int)->Ok_0[k],
                    )
            },
            Err((index, e)) => {
                &&& index < sources@.len()
                &&& batch_outcome(sources@, index as int) is Ok
                &&& setup_outcome(sources@[index as int].config, name_view(sources@[index as int].file_name))
                    == Err::<Seq<char>, SetupError>(e)
                &&& batch_outcome(sources@, sources@.len() as int) == Err::<Seq<Seq<char>>, SetupError>(e)
            },
        },
{
    let mut plans: Vec<RunPlan> = Vec::new();
    let mut i: usize = 0;
    while i < sources.len()
        invariant
            i <= sources@.len(),
            batch_outcome(sources@, i as int) is Ok,
            batch_outcome(sources@, i as int)->Ok_0.len() == i,
            plans@.len() == i,
            forall|k: int|
                0 <= k < i ==> #[trigger] plans@[k].is_plan_for(batch_outcome(sources@, i as int)->Ok_0[k]),
        decreases sources@.len() - i,
    {
        let source = &sources[i];
        let name: Option<&str> = match &source.file_name {
            Some(n) => Some(n.as_str()),
            None => None,
        };
        assert(str_name_view(name) == name_view(source.file_name));
        match plan_run(&source.config, name) {
            Err(e) => {
                proof {
                    lemma_batch_error_persists(sources@, i as int + 1, sources@.len() as int);
                }
                return Err((i, e));
            },
            Ok(plan) => {
                let ghost before = plans@;
                plans.push(plan);
                assert(forall|k: int| 0 <= k < i ==> plans@[k] == before[k]);
            },
        }
        i = i + 1;
    }
    Ok(plans)
}

/// A source that fails its time-span check fails its whole batch, whatever
/// the other sources hold.
pub proof fn law_invalid_time_span_fails_batch<U, I>(sources: Seq<ConfigSource<U, I>>, i: int)
    requires
        0 <= i < sources.len(),
        !sources[i].config.spec_valid(),
    ensures
        batch_outcome(sources, sources.len() as int) is Err,
{
    lemma_batch_fails_from(sources, i, sources.len() as int);
}

proof fn lemma_batch_fails_from<U, I>(sources: Seq<ConfigSource<U, I>>, i: int, n: int)
    requires
        0 <= i < n <= sources.len(),
        !sources[i].config.spec_valid(),
    ensures
        batch_outcome(sources, n) is Err,
    decreases n,
{
    if n - 1 > i {
        lemma_batch_fails_from(sources, i, n - 1);
    }
}

proof fn lemma_batch_error_persists<U, I>(sources: Seq<ConfigSource<U, I>>, m: int, n: int)
    requires
        0 < m <= n,
        batch_outcome(sources, m) is Err,
    ensures
        batch_outcome(sources, n) == batch_outcome(sources, m),
    decreases n,
{
    if n > m {
        lemma_batch_error_persists(sources, m, n - 1);
    }
}

/// One simulation, ready to be launched: its name, time bounds, resume flag,
/// integration scheme `I`, and the system `S` that bundles the result sink
/// with the domain state.
pub struct Simulation<I, S> {
    pub name: String,
    pub resume: bool,
    pub initial_time: Time,
    pub final_time: Time,
    pub integrator: I,
    /// All data passed to the integrator's derivation function, and the
    /// sink that receives the results.
    pub system: S,
}

impl<I, S> Simulation<I, S> {
    /// A simulation runs over a time span that is not empty.
    pub open spec fn well_formed(&self) -> bool {
        self.initial_time.spec_lt(self.final_time)
    }

    /// Assembles the simulation planned by `plan` from its configuration's
    /// settings and the system built for it.
    pub fn assemble(
        plan: RunPlan,
        resume: bool,
        initial_time: Time,
        final_time: Time,
        integrator: I,
        system: S,
    ) -> (r: Simulation<I, S>)
        requires
            initial_time.spec_lt(final_time),
        ensures
            r.well_formed(),
            r.name@ == plan.name@,
            r.resume == resume,
            r.initial_time == initial_time,
            r.final_time == final_time,
            r.integrator == integrator,
            r.system == system,
    {
        Simulation { name: plan.name, resume, initial_time, final_time, integrator, system }
    }

    /// Decides what launching this simulation does after `event`. A fresh
    /// run hands its initial values to the integrator first; a resumed run
    /// goes straight to the integration, with the state it already holds.
    /// Once the integration has ended, its outcome is reported and the
    /// launch succeeds, so that a batch goes on to its next simulation.
    pub fn next_step(&self, event: LaunchEvent) -> (r: LaunchStep)
        ensures
            match event {
                LaunchEvent::Begin => if self.resume {
                    r is Integrate
                } else {
                    r is Initialise
                },
                LaunchEvent::Initialised => r is Integrate,
                LaunchEvent::InitialiseFailed => r is Abort,
                LaunchEvent::Finished(outcome) => {
                    &&& r is Report
                    &&& is_verdict(self.name@, outcome, r->Report_0)
                    &&& outcome is StepLimitReached ==> r->Report_0.spec_level() == LogLevel::Warning
                },
            },
    {
        match event {
            LaunchEvent::Begin => {
                if self.resume {
                    LaunchStep::Integrate
                } else {
                    LaunchStep::Initialise
                }
            },
            LaunchEvent::Initialised => LaunchStep::Integrate,
            LaunchEvent::InitialiseFailed => LaunchStep::Abort,
            LaunchEvent::Finished(outcome) => LaunchStep::Report(classify(self.name.as_str(), outcome)),
        }
    }
}

} // verus!
