//! Per-stage configuration, dependencies and environment entries of a task.
use crate::text::{
    hyphen_join, is_absolute, is_absolute_path, join_with_hyphen, lemma_trim_seq_idempotent, opt_trim, opt_view, reports, trim_option, trim_seq, trim_string,
};
use vstd::prelude::*;

verus! {

/// Configuration of the build stage.
#[derive(Debug, Clone, PartialEq, Eq)]
pub struct BuildConfig {
    /// The command that builds the task.
    pub build_command: Option<String>,
}

impl View for BuildConfig {
    type V = Option<Seq<char>>;

    open spec fn view(&self) -> Option<Seq<char>> {
        opt_view(self.build_command)
    }
}

impl BuildConfig {
    pub fn new(build_command: Option<String>) -> (r: Self)
        ensures
            r@ == opt_view(build_command),
    {
        BuildConfig { build_command }
    }

    /// Every build configuration is well formed on its own.
    pub fn validate(&self) -> (r: Result<(), String>)
        ensures
            r is Ok,
    {
        Ok(())
    }

    pub fn trim(&mut self)
        ensures
            final(self)@ == opt_trim(old(self)@),
    {
        self.build_command = trim_option(&self.build_command);
    }
}

/// The first defect of an install configuration whose target path is `p`.
pub open spec fn install_error(p: Option<Seq<char>>) -> Option<Seq<char>> {
    if p matches Some(s) && !is_absolute_path(s) {
        Some("InstallConfig: in_dragonos_path should be an Absolute path"@)
    } else {
        None
    }
}

/// Configuration of the install stage.
#[derive(Debug, Clone, PartialEq, Eq)]
pub struct InstallConfig {
    /// The directory of the target system to install into.
    pub in_dragonos_path: Option<String>,
}

impl View for InstallConfig {
    type V = Option<Seq<char>>;

    open spec fn view(&self) -> Option<Seq<char>> {
        opt_view(self.in_dragonos_path)
    }
}

impl InstallConfig {
    pub fn new(in_dragonos_path: Option<String>) -> (r: Self)
        ensures
            r@ == opt_view(in_dragonos_path),
    {
        InstallConfig { in_dragonos_path }
    }

    /// Rejects a target path that is not absolute.
    pub fn validate(&self) -> (r: Result<(), String>)
        ensures
            reports(r, install_error(self@)),
    {
        if let Some(p) = &self.in_dragonos_path {
            if !is_absolute(p.as_str()) {
                return Err(
                    String::from_str("InstallConfig: in_dragonos_path should be an Absolute path"),
                );
            }
        }
        Ok(())
    }

    /// A path is kept as it is.
    pub fn trim(&mut self)
        ensures
            *final(self) == *old(self),
    {
    }
}

/// Configuration of the clean stage.
#[derive(Debug, Clone, PartialEq, Eq)]
pub struct CleanConfig {
    /// The command that cleans what the task produced.
    pub clean_command: Option<String>,
}

impl View for CleanConfig {
    type V = Option<Seq<char>>;

    open spec fn view(&self) -> Option<Seq<char>> {
        opt_view(self.clean_command)
    }
}

impl CleanConfig {
    pub fn new(clean_command: Option<String>) -> (r: Self)
        ensures
            r@ == opt_view(clean_command),
    {
        CleanConfig { clean_command }
    }

    /// Every clean configuration is well formed on its own.
    pub fn validate(&self) -> (r: Result<(), String>)
        ensures
            r is Ok,
    {
        Ok(())
    }

    pub fn trim(&mut self)
        ensures
            final(self)@ == opt_trim(old(self)@),
    {
        self.clean_command = trim_option(&self.clean_command);
    }
}

/// A pair of texts, each trimmed.
pub open spec fn trim_pair(p: (Seq<char>, Seq<char>)) -> (Seq<char>, Seq<char>) {
    (trim_seq(p.0), trim_seq(p.1))
}

/// Trimming a pair twice gives what trimming it once gives.
pub proof fn lemma_trim_pair_idempotent(p: (Seq<char>, Seq<char>))
    ensures
        trim_pair(trim_pair(p)) == trim_pair(p),
{
    lemma_trim_seq_idempotent(p.0);
    lemma_trim_seq_idempotent(p.1);
}

/// The first defect of a dependency given as (name, version).
pub open spec fn dependency_error(d: (Seq<char>, Seq<char>)) -> Option<Seq<char>> {
    if d.0.len() == 0 {
        Some("name is empty"@)
    } else if d.1.len() == 0 {
        Some("version is empty"@)
    } else {
        None
    }
}

/// Another task that a task depends on, named by name and version.
#[derive(Debug, Clone, PartialEq, Eq, PartialOrd, Ord, Hash)]
pub struct Dependency {
    pub name: String,
    pub version: String,
}

impl View for Dependency {
    type V = (Seq<char>, Seq<char>);

    open spec fn view(&self) -> (Seq<char>, Seq<char>) {
        (self.name@, self.version@)
    }
}

impl Dependency {
    pub fn new(name: String, version: String) -> (r: Self)
        ensures
            r@ == (name@, version@),
    {
        Dependency { name, version }
    }

    /// Rejects an empty name or an empty version, the name first.
    pub fn validate(&self) -> (r: Result<(), String>)
        ensures
            reports(r, dependency_error(self@)),
    {
        if self.name.as_str().unicode_len() == 0 {
            return Err(String::from_str("name is empty"));
        }
        if self.version.as_str().unicode_len() == 0 {
            return Err(String::from_str("version is empty"));
        }
        Ok(())
    }

    /// A copy with name and version trimmed.
    pub fn trimmed(&self) -> (r: Dependency)
        ensures
            r@ == trim_pair(self@),
    {
        Dependency { name: trim_string(&self.name), version: trim_string(&self.version) }
    }

    pub fn trim(&mut self)
        ensures
            final(self)@ == trim_pair(old(self)@),
    {
        self.name = trim_string(&self.name);
        self.version = trim_string(&self.version);
    }

    /// Name and version joined by a hyphen.
    pub fn name_version(&self) -> (r: String)
        ensures
            r@ == hyphen_join(self.name@, self.version@),
    {
        join_with_hyphen(self.name.as_str(), self.version.as_str())
    }
}

/// The first defect of an environment entry given as (key, value).
pub open spec fn env_error(e: (Seq<char>, Seq<char>)) -> Option<Seq<char>> {
    if e.0.len() == 0 {
        Some("Env: key is empty"@)
    } else {
        None
    }
}

/// An environment variable scoped to the execution of one task.
#[derive(Debug, Clone, PartialEq, Eq, PartialOrd, Ord, Hash)]
pub struct TaskEnv {
    pub key: String,
    pub value: String,
}

impl View for TaskEnv {
    type V = (Seq<char>, Seq<char>);

    open spec fn view(&self) -> (Seq<char>, Seq<char>) {
        (self.key@, self.value@)
    }
}

impl TaskEnv {
    pub fn new(key: String, value: String) -> (r: Self)
        ensures
            r@ == (key@, value@),
    {
        TaskEnv { key, value }
    }

    pub fn key(&self) -> (r: &str)
        ensures
            r@ == self.key@,
    {
        self.key.as_str()
    }

    pub fn value(&self) -> (r: &str)
        ensures
            r@ == self.value@,
    {
        self.value.as_str()
    }

    /// A copy with key and value trimmed.
    pub fn trimmed(&self) -> (r: TaskEnv)
        ensures
            r@ == trim_pair(self@),
    {
        TaskEnv { key: trim_string(&self.key), value: trim_string(&self.value) }
    }

    pub fn trim(&mut self)
        ensures
            final(self)@ == trim_pair(old(self)@),
    {
        self.key = trim_string(&self.key);
        self.value = trim_string(&self.value);
    }

    /// Rejects an empty key.
    pub fn validate(&self) -> (r: Result<(), String>)
        ensures
            reports(r, env_error(self@)),
    {
        if self.key.as_str().unicode_len() == 0 {
            return Err(String::from_str("Env: key is empty"));
        }
        Ok(())
    }
}

} // verus!
