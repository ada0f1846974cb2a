//! The kind of a task and the strategy that provides its inputs, and their
//! conversion from the loosely typed record a configuration file gives.
use crate::source::{
    source_error, trim_source, ArchiveSource, GitSource, LocalSource, SourceView,
};
use crate::text::{opt_view, reports, str_eq};
use vstd::prelude::*;

verus! {

/// Whether a task compiles code or installs something already built.
#[derive(Debug, Clone, Copy, PartialEq, Eq, Structural, Hash)]
pub enum TaskKind {
    BuildFromSource,
    InstallFromPrebuilt,
}

/// How the inputs of a task are obtained.
#[derive(Debug, Clone, Copy, PartialEq, Eq, Structural, Hash)]
pub enum SourceKind {
    Git,
    Local,
    Archive,
}

/// The task kind that a configuration key names.
pub open spec fn task_kind_of(s: Seq<char>) -> Option<TaskKind> {
    if s == "build_from_source"@ {
        Some(TaskKind::BuildFromSource)
    } else if s == "install_from_prebuilt"@ {
        Some(TaskKind::InstallFromPrebuilt)
    } else {
        None
    }
}

/// The source kind that a configuration key names.
pub open spec fn source_kind_of(s: Seq<char>) -> Option<SourceKind> {
    if s == "git"@ {
        Some(SourceKind::Git)
    } else if s == "local"@ {
        Some(SourceKind::Local)
    } else if s == "archive"@ {
        Some(SourceKind::Archive)
    } else {
        None
    }
}

/// Whether a task of kind `t` can take its inputs from a source of kind `s`:
/// a prebuilt artifact never comes from git.
pub open spec fn is_supported(t: TaskKind, s: SourceKind) -> bool {
    !(t == TaskKind::InstallFromPrebuilt && s == SourceKind::Git)
}

/// Where the inputs of a task are obtained from, for a task built from source.
#[derive(Debug, Clone, PartialEq, Eq)]
pub enum CodeSource {
    Git(GitSource),
    Local(LocalSource),
    Archive(ArchiveSource),
}

impl View for CodeSource {
    type V = SourceView;

    open spec fn view(&self) -> SourceView {
        match self {
            CodeSource::Git(s) => s@,
            CodeSource::Local(s) => s@,
            CodeSource::Archive(s) => s@,
        }
    }
}

impl CodeSource {
    pub fn validate(&self) -> (r: Result<(), String>)
        ensures
            reports(r, source_error(self@)),
    {
        match self {
            CodeSource::Git(s) => s.validate(),
            CodeSource::Local(s) => s.validate(),
            CodeSource::Archive(s) => s.validate(),
        }
    }

    pub fn trim(&mut self)
        ensures
            final(self)@ == trim_source(old(self)@),
    {
        match self {
            CodeSource::Git(s) => s.trim(),
            CodeSource::Local(s) => s.trim(),
            CodeSource::Archive(s) => s.trim(),
        }
    }
}

/// Where a prebuilt artifact is obtained from: an archive or a local path.
#[derive(Debug, Clone, PartialEq, Eq)]
pub enum PrebuiltSource {
    Archive(ArchiveSource),
    Local(LocalSource),
}

impl View for PrebuiltSource {
    type V = SourceView;

    open spec fn view(&self) -> SourceView {
        match self {
            PrebuiltSource::Archive(s) => s@,
            PrebuiltSource::Local(s) => s@,
        }
    }
}

impl PrebuiltSource {
    pub fn validate(&self) -> (r: Result<(), String>)
        ensures
            reports(r, source_error(self@)),
    {
        match self {
            PrebuiltSource::Archive(s) => s.validate(),
            PrebuiltSource::Local(s) => s.validate(),
        }
    }

    pub fn trim(&mut self)
        ensures
            final(self)@ == trim_source(old(self)@),
    {
        match self {
            PrebuiltSource::Archive(s) => s.trim(),
            PrebuiltSource::Local(s) => s.trim(),
        }
    }
}

/// What a task does, with the source of its inputs.
#[derive(Debug, Clone, PartialEq, Eq)]
pub enum TaskType {
    BuildFromSource(CodeSource),
    InstallFromPrebuilt(PrebuiltSource),
}

impl View for TaskType {
    type V = (TaskKind, SourceView);

    open spec fn view(&self) -> (TaskKind, SourceView) {
        match self {
            TaskType::BuildFromSource(s) => (TaskKind::BuildFromSource, s@),
            TaskType::InstallFromPrebuilt(s) => (TaskKind::InstallFromPrebuilt, s@),
        }
    }
}

/// The task kind and source of a task type, trimmed.
pub open spec fn trim_task_type(v: (TaskKind, SourceView)) -> (TaskKind, SourceView) {
    (v.0, trim_source(v.1))
}

/// The record that a configuration file gives for the type of a task.
#[derive(Debug, Clone, PartialEq, Eq)]
pub struct DADKUserTaskType {
    /// The file the record was read from.
    pub config_file: String,
    /// The task kind, as a configuration key.
    pub task_type: String,
    /// The source kind, as a configuration key.
    pub source: String,
    /// The URL or path of the source.
    pub source_path: String,
    /// The git branch, for a git source.
    pub branch: Option<String>,
    /// The git revision, for a git source.
    pub revision: Option<String>,
}

/// Why a task-type record could not be converted.
#[derive(Debug, Clone, Copy, PartialEq, Eq, Structural, Hash)]
pub enum ParserErrorKind {
    /// The task kind names no known kind.
    UnknownTaskType,
    /// The source kind names no known kind.
    UnknownSource,
    /// The source kind is known but cannot serve the task kind.
    UnsupportedSource,
}

/// A conversion failure, with the text at fault and the file it came from.
#[derive(Debug, Clone, PartialEq, Eq)]
pub struct ParserError {
    /// The configuration file at fault, where it is known.
    pub config_file: Option<String>,
    pub kind: ParserErrorKind,
    /// The configuration text that could not be used.
    pub value: String,
}

/// The words that introduce the message of each kind of failure.
pub open spec fn error_prefix(k: ParserErrorKind) -> Seq<char> {
    match k {
        ParserErrorKind::UnknownTaskType => "Unknown task type: "@,
        ParserErrorKind::UnknownSource => "Unknown source: "@,
        ParserErrorKind::UnsupportedSource => "Unsupported source: "@,
    }
}

impl ParserError {
    /// A message that names the text at fault.
    pub fn message(&self) -> (r: String)
        ensures
            r@ == error_prefix(self.kind) + self.value@,
    {
        let prefix = match self.kind {
            ParserErrorKind::UnknownTaskType => "Unknown task type: ",
            ParserErrorKind::UnknownSource => "Unknown source: ",
            ParserErrorKind::UnsupportedSource => "Unsupported source: ",
        };
        String::from_str(prefix).concat(self.value.as_str())
    }
}

/// Why a record with task kind `t` and source kind `s` cannot be converted,
/// with the text at fault; `None` where it can.
pub open spec fn conversion_error(t: Seq<char>, s: Seq<char>) -> Option<(ParserErrorKind, Seq<char>)> {
    if task_kind_of(t) is None {
        Some((ParserErrorKind::UnknownTaskType, t))
    } else if source_kind_of(s) is None {
        Some((ParserErrorKind::UnknownSource, s))
    } else if !is_supported(task_kind_of(t).unwrap(), source_kind_of(s).unwrap()) {
        Some((ParserErrorKind::UnsupportedSource, s))
    } else {
        None
    }
}

/// The parameters that a record gives a source of kind `k`.
pub open spec fn source_from_record(k: SourceKind, raw: DADKUserTaskType) -> SourceView {
    match k {
        SourceKind::Git => SourceView::Git {
            url: raw.source_path@,
            branch: opt_view(raw.branch),
            revision: opt_view(raw.revision),
        },
        SourceKind::Local => SourceView::Local { path: raw.source_path@ },
        SourceKind::Archive => SourceView::Archive { url: raw.source_path@ },
    }
}

/// The task kind that the key `s` names.
pub fn resolve_task_kind(s: &str) -> (r: Option<TaskKind>)
    ensures
        r == task_kind_of(s@),
{
    if str_eq(s, "build_from_source") {
        Some(TaskKind::BuildFromSource)
    } else if str_eq(s, "install_from_prebuilt") {
        Some(TaskKind::InstallFromPrebuilt)
    } else {
        None
    }
}

/// The source kind that the key `s` names.
pub fn resolve_source_kind(s: &str) -> (r: Option<SourceKind>)
    ensures
        r == source_kind_of(s@),
{
    if str_eq(s, "git") {
        Some(SourceKind::Git)
    } else if str_eq(s, "local") {
        Some(SourceKind::Local)
    } else if str_eq(s, "archive") {
        Some(SourceKind::Archive)
    } else {
        None
    }
}

impl TaskType {
    pub fn validate(&self) -> (r: Result<(), String>)
        ensures
            reports(r, source_error(self@.1)),
    {
        match self {
            TaskType::BuildFromSource(s) => s.validate(),
            TaskType::InstallFromPrebuilt(s) => s.validate(),
        }
    }

    pub fn trim(&mut self)
        ensures
            final(self)@ == trim_task_type(old(self)@),
    {
        match self {
            TaskType::BuildFromSource(s) => s.trim(),
            TaskType::InstallFromPrebuilt(s) => s.trim(),
        }
    }

    /// Converts a task-type record: the task kind and the source kind must
    /// both be known, and the pair supported. A failure carries the record's
    /// file.
    pub fn try_from_user(raw: DADKUserTaskType) -> (r: Result<TaskType, ParserError>)
        ensures
            r is Ok <==> conversion_error(raw.task_type@, raw.source@) is None,
            r is Ok <==> (task_kind_of(raw.task_type@) matches Some(t) && source_kind_of(
                raw.source@,
            ) matches Some(s) && is_supported(t, s)),
            r matches Ok(t) ==> t@ == (
                task_kind_of(raw.task_type@).unwrap(),
                source_from_record(source_kind_of(raw.source@).unwrap(), raw),
            ),
            r matches Err(e) ==> (conversion_error(raw.task_type@, raw.source@) == Some(
                (e.kind, e.value@),
            ) && opt_view(e.config_file) == Some(raw.config_file@)),
    {
        let ghost raw0 = raw;
        let task_kind = match resolve_task_kind(raw.task_type.as_str()) {
            Some(k) => k,
            None => {
                return Err(
                    ParserError {
                        config_file: Some(raw.config_file),
                        kind: ParserErrorKind::UnknownTaskType,
                        value: raw.task_type,
                    },
                );
            },
        };
        let source_kind = match resolve_source_kind(raw.source.as_str()) {
            Some(k) => k,
            None => {
                return Err(
                    ParserError {
                        config_file: Some(raw.config_file),
                        kind: ParserErrorKind::UnknownSource,
                        value: raw.source,
                    },
                );
            },
        };
        match (task_kind, source_kind) {
            (TaskKind::BuildFromSource, SourceKind::Git) => Ok(
                TaskType::BuildFromSource(
                    CodeSource::Git(GitSource::new(raw.source_path, raw.branch, raw.revision)),
                ),
            ),
            (TaskKind::BuildFromSource, SourceKind::Local) => Ok(
                TaskType::BuildFromSource(CodeSource::Local(LocalSource::new(raw.source_path))),
            ),
            (TaskKind::BuildFromSource, SourceKind::Archive) => Ok(
                TaskType::BuildFromSource(
                    CodeSource::Archive(ArchiveSource::new(raw.source_path)),
                ),
            ),
            (TaskKind::InstallFromPrebuilt, SourceKind::Local) => Ok(
                TaskType::InstallFromPrebuilt(
                    PrebuiltSource::Local(LocalSource::new(raw.source_path)),
                ),
            ),
            (TaskKind::InstallFromPrebuilt, SourceKind::Archive) => Ok(
                TaskType::InstallFromPrebuilt(
                    PrebuiltSource::Archive(ArchiveSource::new(raw.source_path)),
                ),
            ),
            (TaskKind::InstallFromPrebuilt, SourceKind::Git) => Err(
                ParserError {
                    config_file: Some(raw.config_file),
                    kind: ParserErrorKind::UnsupportedSource,
                    value: raw.source,
                },
            ),
        }
    }
}

} // verus!
