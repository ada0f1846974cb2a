//! The task descriptor: identity, kind, stage configuration, dependencies,
//! environment and target architectures of one buildable or installable unit.
use crate::arch::{resolved_arch, TargetArch};
use crate::config::{
    dependency_error, env_error, install_error, lemma_trim_pair_idempotent, trim_pair,
    BuildConfig, CleanConfig, Dependency, InstallConfig, TaskEnv,
};
use crate::source::{lemma_trim_source_idempotent, source_error, SourceView};
use crate::task_type::{trim_task_type, TaskKind, TaskType};
use crate::text::{
    ascii_upper, hyphen_join, is_absolute_path, join_with_hyphen, lemma_opt_trim_idempotent,
    lemma_trim_seq_idempotent, opt_trim, opt_view, reports, sanitize, sanitize_seq,
    ascii_uppercase, trim_option, trim_seq, trim_string,
};
use vstd::prelude::*;

verus! {

/// A task descriptor as plain values.
pub struct DADKTaskView {
    pub name: Seq<char>,
    pub version: Seq<char>,
    pub description: Seq<char>,
    pub rust_target: Option<Seq<char>>,
    pub task_type: (TaskKind, SourceView),
    pub depends: Seq<(Seq<char>, Seq<char>)>,
    pub build: Option<Seq<char>>,
    pub install: Option<Seq<char>>,
    pub clean: Option<Seq<char>>,
    pub envs: Option<Seq<(Seq<char>, Seq<char>)>>,
    pub build_once: bool,
    pub install_once: bool,
    pub target_arch: Seq<TargetArch>,
}

/// The first of `f`'s reports on `s[i]`, `s[i + 1]`, ..., if any.
pub open spec fn first_error<A>(s: Seq<A>, f: spec_fn(A) -> Option<Seq<char>>, i: int) -> Option<
    Seq<char>,
>
    decreases s.len() - i,
{
    if i < 0 || i >= s.len() {
        None
    } else if f(s[i]) is Some {
        f(s[i])
    } else {
        first_error(s, f, i + 1)
    }
}

proof fn lemma_first_error_none<A>(s: Seq<A>, f: spec_fn(A) -> Option<Seq<char>>, i: int)
    requires
        0 <= i <= s.len(),
    ensures
        first_error(s, f, i) is None <==> forall|j: int| i <= j < s.len() ==> f(s[j]) is None,
    decreases s.len() - i,
{
    if i < s.len() {
        lemma_first_error_none(s, f, i + 1);
    }
}

/// The check of one dependency.
pub open spec fn dependency_check() -> spec_fn((Seq<char>, Seq<char>)) -> Option<Seq<char>> {
    |p: (Seq<char>, Seq<char>)| dependency_error(p)
}

/// The check of one environment entry.
pub open spec fn env_check() -> spec_fn((Seq<char>, Seq<char>)) -> Option<Seq<char>> {
    |p: (Seq<char>, Seq<char>)| env_error(p)
}

/// `a` where it holds a report, `b` otherwise.
pub open spec fn or_else(a: Option<Seq<char>>, b: Option<Seq<char>>) -> Option<Seq<char>> {
    if a is Some {
        a
    } else {
        b
    }
}

/// What is wrong with a build command of presence `build` for a task of
/// kind `kind`: a build from source needs one, a prebuilt install has none.
pub open spec fn build_type_error(kind: TaskKind, build: Option<Seq<char>>) -> Option<Seq<char>> {
    match kind {
        TaskKind::BuildFromSource => if build is None {
            Some("build command is empty"@)
        } else {
            None
        },
        TaskKind::InstallFromPrebuilt => if build is Some {
            Some("build command should be empty when install from prebuilt"@)
        } else {
            None
        },
    }
}

/// The first defect among environment entries, if any.
pub open spec fn envs_error(envs: Option<Seq<(Seq<char>, Seq<char>)>>) -> Option<Seq<char>> {
    match envs {
        Some(e) => first_error(e, env_check(), 0),
        None => None,
    }
}

/// The first defect of a task descriptor, in the order in which they are
/// checked: name, version, source, build command against task kind, install
/// path, dependencies, environment, target architectures.
pub open spec fn task_error(v: DADKTaskView) -> Option<Seq<char>> {
    if v.name.len() == 0 {
        Some("name is empty"@)
    } else if v.version.len() == 0 {
        Some("version is empty"@)
    } else {
        or_else(
            source_error(v.task_type.1),
            or_else(
                build_type_error(v.task_type.0, v.build),
                or_else(
                    install_error(v.install),
                    or_else(
                        first_error(v.depends, dependency_check(), 0),
                        or_else(
                            envs_error(v.envs),
                            if v.target_arch.len() == 0 {
                                Some("target_arch is empty"@)
                            } else {
                                None
                            },
                        ),
                    ),
                ),
            ),
        )
    }
}

/// The invariants of a well-formed task descriptor.
pub open spec fn is_well_formed(v: DADKTaskView) -> bool {
    &&& v.name.len() > 0
    &&& v.version.len() > 0
    &&& source_error(v.task_type.1) is None
    &&& (v.task_type.0 == TaskKind::BuildFromSource <==> v.build is Some)
    &&& (v.install matches Some(p) ==> is_absolute_path(p))
    &&& forall|i: int|
        0 <= i < v.depends.len() ==> v.depends[i].0.len() > 0 && v.depends[i].1.len() > 0
    &&& (v.envs matches Some(e) ==> forall|i: int| 0 <= i < e.len() ==> e[i].0.len() > 0)
    &&& v.target_arch.len() > 0
}

/// A task descriptor with every free text trimmed; paths and flags are kept.
pub open spec fn trim_task(v: DADKTaskView) -> DADKTaskView {
    DADKTaskView {
        name: trim_seq(v.name),
        version: trim_seq(v.version),
        description: trim_seq(v.description),
        rust_target: opt_trim(v.rust_target),
        task_type: trim_task_type(v.task_type),
        depends: v.depends.map_values(|p: (Seq<char>, Seq<char>)| trim_pair(p)),
        build: opt_trim(v.build),
        install: v.install,
        clean: opt_trim(v.clean),
        envs: match v.envs {
            Some(e) => Some(e.map_values(|p: (Seq<char>, Seq<char>)| trim_pair(p))),
            None => None,
        },
        build_once: v.build_once,
        install_once: v.install_once,
        target_arch: v.target_arch,
    }
}

/// The identifier of a task named `name` at version `version`.
pub open spec fn name_version_seq(name: Seq<char>, version: Seq<char>) -> Seq<char> {
    sanitize_seq(hyphen_join(name, version))
}

/// The identifier of a task in upper case, for the name of an environment
/// variable.
pub open spec fn name_version_env_seq(name: Seq<char>, version: Seq<char>) -> Seq<char> {
    sanitize_seq(hyphen_join(name, version).map_values(|c: char| ascii_upper(c)))
}

/// One buildable or installable unit.
#[derive(Debug, Clone, PartialEq, Eq)]
pub struct DADKTask {
    pub name: String,
    pub version: String,
    pub description: String,
    /// The compilation target, where it is not the default one.
    pub rust_target: Option<String>,
    pub task_type: TaskType,
    pub depends: Vec<Dependency>,
    pub build: BuildConfig,
    pub install: InstallConfig,
    pub clean: CleanConfig,
    pub envs: Option<Vec<TaskEnv>>,
    /// Build only once: later runs use what the first one produced.
    pub build_once: bool,
    /// Install only once.
    pub install_once: bool,
    pub target_arch: Vec<TargetArch>,
}

/// The views of a sequence of dependencies.
pub open spec fn depends_view(d: Seq<Dependency>) -> Seq<(Seq<char>, Seq<char>)> {
    d.map_values(|x: Dependency| x@)
}

/// The views of an optional sequence of environment entries.
pub open spec fn envs_view(e: Option<Vec<TaskEnv>>) -> Option<Seq<(Seq<char>, Seq<char>)>> {
    match e {
        Some(v) => Some(v@.map_values(|x: TaskEnv| x@)),
        None => None,
    }
}

/// The architecture override as text.
pub open spec fn override_view(o: Option<&str>) -> Option<Seq<char>> {
    match o {
        Some(s) => Some(s@),
        None => None,
    }
}

impl View for DADKTask {
    type V = DADKTaskView;

    open spec fn view(&self) -> DADKTaskView {
        DADKTaskView {
            name: self.name@,
            version: self.version@,
            description: self.description@,
            rust_target: opt_view(self.rust_target),
            task_type: self.task_type@,
            depends: depends_view(self.depends@),
            build: self.build@,
            install: self.install@,
            clean: self.clean@,
            envs: envs_view(self.envs),
            build_once: self.build_once,
            install_once: self.install_once,
            target_arch: self.target_arch@,
        }
    }
}

impl DADKTask {
    /// A task descriptor with the given fields; where no architecture list
    /// is given, the list holds `default_arch` alone.
    pub fn new(
        name: String,
        version: String,
        description: String,
        rust_target: Option<String>,
        task_type: TaskType,
        depends: Vec<Dependency>,
        build: BuildConfig,
        install: InstallConfig,
        clean: CleanConfig,
        envs: Option<Vec<TaskEnv>>,
        build_once: bool,
        install_once: bool,
        target_arch: Option<Vec<TargetArch>>,
        default_arch: TargetArch,
    ) -> (r: Self)
        ensures
            r.name == name,
            r.version == version,
            r.description == description,
            r.rust_target == rust_target,
            r.task_type == task_type,
            r.depends == depends,
            r.build == build,
            r.install == install,
            r.clean == clean,
            r.envs == envs,
            r.build_once == build_once,
            r.install_once == install_once,
            r.target_arch@ == match target_arch {
                Some(v) => v@,
                None => seq![default_arch],
            },
    {
        let target_arch = match target_arch {
            Some(v) => v,
            None => vec![default_arch],
        };
        DADKTask {
            name,
            version,
            description,
            rust_target,
            task_type,
            depends,
            build,
            install,
            clean,
            envs,
            build_once,
            install_once,
            target_arch,
        }
    }

    /// The default target architecture: the one that `arch_override` names,
    /// or `x86_64` where there is no override. An override that names no
    /// known architecture is an error.
    pub fn default_target_arch(arch_override: Option<&str>) -> (r: Result<TargetArch, String>)
        ensures
            r is Ok <==> resolved_arch(override_view(arch_override)) is Some,
            r matches Ok(a) ==> resolved_arch(override_view(arch_override)) == Some(a),
    {
        match arch_override {
            Some(s) => TargetArch::try_from_str(s),
            None => Ok(TargetArch::X86_64),
        }
    }

    /// Checks every invariant of a task descriptor and reports the first
    /// one that fails.
    pub fn validate(&self) -> (r: Result<(), String>)
        ensures
            reports(r, task_error(self@)),
    {
        if self.name.as_str().unicode_len() == 0 {
            return Err(String::from_str("name is empty"));
        }
        if self.version.as_str().unicode_len() == 0 {
            return Err(String::from_str("version is empty"));
        }
        self.task_type.validate()?;
        self.build.validate()?;
        self.validate_build_type()?;
        self.install.validate()?;
        self.clean.validate()?;
        self.validate_depends()?;
        self.validate_envs()?;
        self.validate_target_arch()?;
        Ok(())
    }

    fn validate_depends(&self) -> (r: Result<(), String>)
        ensures
            reports(
                r,
                first_error(self@.depends, dependency_check(), 0),
            ),
    {
        let ghost f = dependency_check();
        let ghost s = self@.depends;
        let n = self.depends.len();
        let mut i: usize = 0;
        while i < n
            invariant
                n == self.depends@.len(),
                s == self@.depends,
                f == (dependency_check()),
                i <= n,
                first_error(s, f, 0) == first_error(s, f, i as int),
            decreases n - i,
        {
            assert(s[i as int] == self.depends@[i as int]@);
            self.depends[i].validate()?;
            i = i + 1;
        }
        Ok(())
    }

    fn validate_envs(&self) -> (r: Result<(), String>)
        ensures
            reports(r, envs_error(self@.envs)),
    {
        if let Some(envs) = &self.envs {
            let ghost f = env_check();
            let ghost s = envs@.map_values(|x: TaskEnv| x@);
            assert(self@.envs == Some(s));
            let n = envs.len();
            let mut i: usize = 0;
            while i < n
                invariant
                    n == envs@.len(),
                    s == envs@.map_values(|x: TaskEnv| x@),
                    self@.envs == Some(s),
                    f == (env_check()),
                    i <= n,
                    first_error(s, f, 0) == first_error(s, f, i as int),
                decreases n - i,
            {
                assert(s[i as int] == envs@[i as int]@);
                envs[i].validate()?;
                i = i + 1;
            }
        }
        Ok(())
    }

    fn validate_target_arch(&self) -> (r: Result<(), String>)
        ensures
            reports(
                r,
                if self.target_arch@.len() == 0 {
                    Some("target_arch is empty"@)
                } else {
                    None
                },
            ),
    {
        if self.target_arch.len() == 0 {
            return Err(String::from_str("target_arch is empty"));
        }
        Ok(())
    }

    /// Checks that the build command is there for a build from source and
    /// absent for a prebuilt install.
    fn validate_build_type(&self) -> (r: Result<(), String>)
        ensures
            reports(r, build_type_error(self@.task_type.0, self@.build)),
    {
        match &self.task_type {
            TaskType::BuildFromSource(_) => {
                if self.build.build_command.is_none() {
                    return Err(String::from_str("build command is empty"));
                }
            },
            TaskType::InstallFromPrebuilt(_) => {
                if self.build.build_command.is_some() {
                    return Err(
                        String::from_str(
                            "build command should be empty when install from prebuilt",
                        ),
                    );
                }
            },
        }
        Ok(())
    }

    /// Trims every free text of the descriptor.
    pub fn trim(&mut self)
        ensures
            final(self)@ == trim_task(old(self)@),
    {
        self.name = trim_string(&self.name);
        self.version = trim_string(&self.version);
        self.description = trim_string(&self.description);
        self.rust_target = trim_option(&self.rust_target);
        self.task_type.trim();
        self.build.trim();
        self.install.trim();
        self.clean.trim();
        self.trim_depends();
        self.trim_envs();
        assert(self@ == trim_task(old(self)@));
    }

    fn trim_depends(&mut self)
        ensures
            final(self)@ == (DADKTaskView {
                depends: old(self)@.depends.map_values(
                    |p: (Seq<char>, Seq<char>)| trim_pair(p),
                ),
                ..old(self)@
            }),
    {
        let n = self.depends.len();
        let mut out: Vec<Dependency> = Vec::new();
        let mut i: usize = 0;
        while i < n
            invariant
                n == self.depends@.len(),
                i <= n,
                out@.len() == i,
                forall|j: int| 0 <= j < i ==> out@[j]@ == trim_pair(self.depends@[j]@),
            decreases n - i,
        {
            out.push(self.depends[i].trimmed());
            i = i + 1;
        }
        assert(depends_view(out@) =~= self@.depends.map_values(
            |p: (Seq<char>, Seq<char>)| trim_pair(p),
        ));
        self.depends = out;
    }

    fn trim_envs(&mut self)
        ensures
            final(self)@ == (DADKTaskView {
                envs: match old(self)@.envs {
                    Some(e) => Some(e.map_values(|p: (Seq<char>, Seq<char>)| trim_pair(p))),
                    None => None,
                },
                ..old(self)@
            }),
    {
        let trimmed = match &self.envs {
            Some(envs) => {
                let n = envs.len();
                let mut out: Vec<TaskEnv> = Vec::new();
                let mut i: usize = 0;
                while i < n
                    invariant
                        n == envs@.len(),
                        i <= n,
                        out@.len() == i,
                        forall|j: int| 0 <= j < i ==> out@[j]@ == trim_pair(envs@[j]@),
                    decreases n - i,
                {
                    out.push(envs[i].trimmed());
                    i = i + 1;
                }
                assert(out@.map_values(|x: TaskEnv| x@) =~= envs@.map_values(|x: TaskEnv| x@).map_values(
                    |p: (Seq<char>, Seq<char>)| trim_pair(p),
                ));
                Some(out)
            },
            None => None,
        };
        self.envs = trimmed;
    }

    /// The identifier of the task: name and version joined by a hyphen,
    /// with `_` for every character unsafe in a path segment.
    pub fn name_version(&self) -> (r: String)
        ensures
            r@ == name_version_seq(self.name@, self.version@),
    {
        let joined = join_with_hyphen(self.name.as_str(), self.version.as_str());
        sanitize(joined.as_str())
    }

    /// The identifier of the task in upper case.
    pub fn name_version_env(&self) -> (r: String)
        ensures
            r@ == name_version_env_seq(self.name@, self.version@),
    {
        Self::name_version_uppercase(self.name.as_str(), self.version.as_str())
    }

    /// The upper-case identifier of a task named `name` at `version`.
    pub fn name_version_uppercase(name: &str, version: &str) -> (r: String)
        ensures
            r@ == name_version_env_seq(name@, version@),
    {
        let joined = join_with_hyphen(name, version);
        let upper = ascii_uppercase(joined.as_str());
        sanitize(upper.as_str())
    }

    /// The local path of the task's inputs, where its source is a local path.
    pub fn source_path(&self) -> (r: Option<String>)
        ensures
            self@.task_type.1 matches SourceView::Local { path } ==> (r matches Some(p) && p@
                == path),
            !(self@.task_type.1 is Local) ==> r is None,
    {
        match &self.task_type {
            TaskType::BuildFromSource(cs) => match cs {
                crate::task_type::CodeSource::Local(lc) => Some(
                    String::from_str(lc.path().as_str()),
                ),
                _ => None,
            },
            TaskType::InstallFromPrebuilt(ps) => match ps {
                crate::task_type::PrebuiltSource::Local(lc) => Some(
                    String::from_str(lc.path().as_str()),
                ),
                _ => None,
            },
        }
    }
}

/// Trimming a task descriptor twice gives what trimming it once gives.
pub proof fn lemma_trim_idempotent(v: DADKTaskView)
    ensures
        trim_task(trim_task(v)) == trim_task(v),
{
    let t = trim_task(v);
    let tt = trim_task(t);
    lemma_trim_seq_idempotent(v.name);
    lemma_trim_seq_idempotent(v.version);
    lemma_trim_seq_idempotent(v.description);
    lemma_opt_trim_idempotent(v.rust_target);
    lemma_opt_trim_idempotent(v.build);
    lemma_opt_trim_idempotent(v.clean);
    lemma_trim_source_idempotent(v.task_type.1);
    assert forall|i: int| 0 <= i < v.depends.len() implies tt.depends[i] == t.depends[i] by {
        lemma_trim_pair_idempotent(v.depends[i]);
    }
    assert(tt.depends =~= t.depends);
    if let Some(e) = v.envs {
        let te = t.envs.unwrap();
        let tte = tt.envs.unwrap();
        assert forall|i: int| 0 <= i < e.len() implies tte[i] == te[i] by {
            lemma_trim_pair_idempotent(e[i]);
        }
        assert(tte =~= te);
    }
}

/// Validation succeeds exactly on the well-formed task descriptors: it
/// rejects a descriptor if and only if one of the invariants fails.
pub proof fn lemma_validate_iff_well_formed(v: DADKTaskView)
    ensures
        task_error(v) is None <==> is_well_formed(v),
{
    lemma_first_error_none(v.depends, dependency_check(), 0);
    if let Some(e) = v.envs {
        lemma_first_error_none(e, env_check(), 0);
    }
}

/// A build from source without a build command, and a prebuilt install
/// with one, fail validation; every other pairing of task kind and build
/// command passes the check that relates the two.
pub proof fn lemma_build_command_rule(v: DADKTaskView)
    ensures
        v.task_type.0 == TaskKind::BuildFromSource && v.build is None ==> task_error(v) is Some,
        v.task_type.0 == TaskKind::InstallFromPrebuilt && v.build is Some ==> task_error(v) is Some,
        build_type_error(v.task_type.0, v.build) is None <==> (v.task_type.0
            == TaskKind::BuildFromSource <==> v.build is Some),
{
}

} // verus!
