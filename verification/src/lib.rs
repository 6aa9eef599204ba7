//! Drifter: the building blocks of a fuzzing framework.
//!
//! * [`Input`]: the data fed to a target, seen as bytes.
//! * [`Mutator`]: turns an input into a new one ([`FlipSingleByteMutator`]).
//! * [`Executor`]: runs the target with an input ([`InProcessExecutor`]);
//!   [`CommandExecutor`] decides what an external program run means.
//! * [`Observer`]: watches executions ([`NoOpObserver`], [`MockCoverageObserver`]).
//! * [`Feedback`]: decides which inputs to keep ([`UniqueInputFeedback`],
//!   [`MockBitmapCoverageFeedback`]).
//! * [`Corpus`]: the kept inputs ([`InMemoryCorpus`]; [`ondisk::OnDiskIndex`]
//!   holds the bookkeeping of a corpus kept on disk).
//! * [`Scheduler`]: picks the next input to fuzz ([`RandomScheduler`]).
//! * [`Oracle`]: reports bugs ([`CrashOracle`]).
//! * [`DrifterConfig`]: the configuration of a fuzzing campaign.
pub mod campaign;
pub mod config;
pub mod corpus;
pub mod digest;
pub mod executor;
pub mod feedback;
pub mod harness;
pub mod input;
pub mod mutator;
pub mod observer;
pub mod ondisk;
pub mod oracle;
pub mod rng;
pub mod scheduler;
pub mod text;

pub use corpus::Corpus;
pub use executor::Executor;
pub use feedback::Feedback;
pub use input::Input;
pub use mutator::Mutator;
pub use observer::Observer;
pub use oracle::Oracle;
pub use scheduler::Scheduler;

pub use config::DrifterConfig;
pub use corpus::{CorpusError, InMemoryCorpus, OnDiskCorpusEntryMetadata};
pub use executor::{
    CommandExecutor, CommandExecutorConfig, ExecutionStatus, InProcessExecutor, InputDeliveryMode,
    ProcessOutput,
};
pub use feedback::{FeedbackError, MockBitmapCoverageFeedback, UniqueInputFeedback};
pub use mutator::FlipSingleByteMutator;
pub use observer::{MockCoverageObserver, NoOpObserver};
pub use oracle::{BugReport, CrashOracle};
pub use scheduler::{RandomScheduler, SchedulerError};
