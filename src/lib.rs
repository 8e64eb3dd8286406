//! Lifecycle management for simulation runs: validating run configurations,
//! choosing the names of a run's files, selecting the configuration sources
//! of a batch, deciding how a run is launched and classifying how it ended.

pub mod config;
pub mod outcome;
pub mod run;
pub mod source;
pub mod time;

pub use config::{InputConfig, SetupError};
pub use outcome::{classify, failed_outcome, failure_message, LaunchEvent, LaunchStep, LogLevel, Outcome, Verdict};
pub use run::{plan_batch, plan_run, ConfigSource, RunPlan, Simulation};
pub use source::{file_extension, file_stem, is_config_name, select_config_sources};
pub use time::Time;
