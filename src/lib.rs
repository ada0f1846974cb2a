//! Normalisation and validation of task descriptors for a dependency-driven
//! build and install orchestrator.
mod arch;
mod config;
mod source;
mod task;
mod task_type;
mod text;

pub use arch::TargetArch;
pub use config::{BuildConfig, CleanConfig, Dependency, InstallConfig, TaskEnv};
pub use source::{ArchiveSource, GitSource, LocalSource, SourceView};
pub use text::{lemma_trim_seq_idempotent, trim_seq, trim_string};
pub use task_type::{
    CodeSource, DADKUserTaskType, ParserError, ParserErrorKind, PrebuiltSource, SourceKind,
    TaskKind, TaskType,
};
pub use task::{
    lemma_build_command_rule, lemma_trim_idempotent, lemma_validate_iff_well_formed, DADKTask,
    DADKTaskView,
};
