use dadk_user::{
    trim_string, ArchiveSource, BuildConfig, CleanConfig, CodeSource, DADKTask, DADKUserTaskType,
    Dependency, GitSource, InstallConfig, LocalSource, ParserErrorKind, PrebuiltSource,
    TargetArch, TaskEnv, TaskType,
};

fn raw(task_type: &str, source: &str, path: &str) -> DADKUserTaskType {
    DADKUserTaskType {
        config_file: "/conf/app.toml".to_string(),
        task_type: task_type.to_string(),
        source: source.to_string(),
        source_path: path.to_string(),
        branch: Some("main".to_string()),
        revision: None,
    }
}

fn local_build_task() -> DADKTask {
    DADKTask::new(
        "app".to_string(),
        "1.0".to_string(),
        "an app".to_string(),
        None,
        TaskType::BuildFromSource(CodeSource::Local(LocalSource::new("/src/foo".to_string()))),
        vec![Dependency::new("lib".to_string(), "0.1".to_string())],
        BuildConfig::new(Some("make".to_string())),
        InstallConfig::new(Some("/bin".to_string())),
        CleanConfig::new(Some("make clean".to_string())),
        Some(vec![TaskEnv::new("CC".to_string(), "gcc".to_string())]),
        false,
        false,
        None,
        TargetArch::X86_64,
    )
}

fn prebuilt_archive_task() -> DADKTask {
    let mut t = local_build_task();
    t.task_type = TaskType::InstallFromPrebuilt(PrebuiltSource::Archive(ArchiveSource::new(
        "https://example.org/a.tar.gz".to_string(),
    )));
    t.build = BuildConfig::new(None);
    t
}

#[test]
fn convert_build_from_git() {
    let t = TaskType::try_from_user(raw("build_from_source", "git", "https://g/x.git")).unwrap();
    assert_eq!(
        t,
        TaskType::BuildFromSource(CodeSource::Git(GitSource::new(
            "https://g/x.git".to_string(),
            Some("main".to_string()),
            None
        )))
    );
}

#[test]
fn convert_build_from_local() {
    let t = TaskType::try_from_user(raw("build_from_source", "local", "/src/foo")).unwrap();
    assert_eq!(
        t,
        TaskType::BuildFromSource(CodeSource::Local(LocalSource::new("/src/foo".to_string())))
    );
}

#[test]
fn convert_build_from_archive() {
    let t = TaskType::try_from_user(raw("build_from_source", "archive", "https://a/b.tgz")).unwrap();
    assert_eq!(
        t,
        TaskType::BuildFromSource(CodeSource::Archive(ArchiveSource::new(
            "https://a/b.tgz".to_string()
        )))
    );
}

#[test]
fn convert_install_from_local() {
    let t = TaskType::try_from_user(raw("install_from_prebuilt", "local", "/opt/x")).unwrap();
    assert_eq!(
        t,
        TaskType::InstallFromPrebuilt(PrebuiltSource::Local(LocalSource::new("/opt/x".to_string())))
    );
}

#[test]
fn convert_install_from_archive() {
    let t = TaskType::try_from_user(raw("install_from_prebuilt", "archive", "https://a/b.tgz"))
        .unwrap();
    assert_eq!(
        t,
        TaskType::InstallFromPrebuilt(PrebuiltSource::Archive(ArchiveSource::new(
            "https://a/b.tgz".to_string()
        )))
    );
}

#[test]
fn convert_install_from_git_fails_naming_source_and_file() {
    let e = TaskType::try_from_user(raw("install_from_prebuilt", "git", "https://g/x.git"))
        .unwrap_err();
    assert_eq!(e.kind, ParserErrorKind::UnsupportedSource);
    assert_eq!(e.value, "git");
    assert_eq!(e.config_file, Some("/conf/app.toml".to_string()));
    assert_eq!(e.message(), "Unsupported source: git");
}

#[test]
fn convert_unknown_task_type_fails() {
    let e = TaskType::try_from_user(raw("compile", "git", "x")).unwrap_err();
    assert_eq!(e.kind, ParserErrorKind::UnknownTaskType);
    assert_eq!(e.value, "compile");
    assert_eq!(e.config_file, Some("/conf/app.toml".to_string()));
    assert_eq!(e.message(), "Unknown task type: compile");
}

#[test]
fn convert_unknown_source_fails() {
    let e = TaskType::try_from_user(raw("build_from_source", "ftp", "x")).unwrap_err();
    assert_eq!(e.kind, ParserErrorKind::UnknownSource);
    assert_eq!(e.value, "ftp");
    assert_eq!(e.message(), "Unknown source: ftp");
}

#[test]
fn trim_string_removes_surrounding_white_space() {
    assert_eq!(trim_string(&" \t a b \n".to_string()), "a b");
    assert_eq!(trim_string(&"   ".to_string()), "");
}

#[test]
fn trim_task_trims_every_text_and_is_idempotent() {
    let mut t = local_build_task();
    t.name = "  app ".to_string();
    t.version = "\t1.0".to_string();
    t.description = " d ".to_string();
    t.rust_target = Some(" x86_64-unknown-none ".to_string());
    t.task_type = TaskType::BuildFromSource(CodeSource::Git(GitSource::new(
        " https://g/x.git ".to_string(),
        Some(" dev ".to_string()),
        None,
    )));
    t.build = BuildConfig::new(Some(" make ".to_string()));
    t.clean = CleanConfig::new(Some(" make clean ".to_string()));
    t.depends = vec![Dependency::new(" lib ".to_string(), " 0.1 ".to_string())];
    t.envs = Some(vec![TaskEnv::new(" CC ".to_string(), " gcc ".to_string())]);
    t.trim();
    assert_eq!(t.name, "app");
    assert_eq!(t.version, "1.0");
    assert_eq!(t.description, "d");
    assert_eq!(t.rust_target, Some("x86_64-unknown-none".to_string()));
    assert_eq!(
        t.task_type,
        TaskType::BuildFromSource(CodeSource::Git(GitSource::new(
            "https://g/x.git".to_string(),
            Some("dev".to_string()),
            None
        )))
    );
    assert_eq!(t.build.build_command, Some("make".to_string()));
    assert_eq!(t.clean.clean_command, Some("make clean".to_string()));
    assert_eq!(t.depends, vec![Dependency::new("lib".to_string(), "0.1".to_string())]);
    assert_eq!(t.envs, Some(vec![TaskEnv::new("CC".to_string(), "gcc".to_string())]));
    let once = t.clone();
    t.trim();
    assert_eq!(t, once);
}

#[test]
fn well_formed_task_validates() {
    assert_eq!(local_build_task().validate(), Ok(()));
    assert_eq!(prebuilt_archive_task().validate(), Ok(()));
}

#[test]
fn empty_name_is_rejected() {
    let mut t = local_build_task();
    t.name = String::new();
    assert_eq!(t.validate(), Err("name is empty".to_string()));
}

#[test]
fn empty_version_is_rejected() {
    let mut t = local_build_task();
    t.version = String::new();
    assert_eq!(t.validate(), Err("version is empty".to_string()));
}

#[test]
fn build_from_source_without_command_is_rejected() {
    let mut t = local_build_task();
    t.build = BuildConfig::new(None);
    assert_eq!(t.validate(), Err("build command is empty".to_string()));
}

#[test]
fn prebuilt_with_build_command_is_rejected() {
    let mut t = prebuilt_archive_task();
    t.build = BuildConfig::new(Some("make".to_string()));
    assert_eq!(
        t.validate(),
        Err("build command should be empty when install from prebuilt".to_string())
    );
}

#[test]
fn relative_install_path_is_rejected() {
    let mut t = local_build_task();
    t.install = InstallConfig::new(Some("bin".to_string()));
    assert_eq!(
        t.validate(),
        Err("InstallConfig: in_dragonos_path should be an Absolute path".to_string())
    );
    assert_eq!(InstallConfig::new(None).validate(), Ok(()));
}

#[test]
fn malformed_dependency_is_rejected() {
    let mut t = local_build_task();
    t.depends.push(Dependency::new("x".to_string(), String::new()));
    assert_eq!(t.validate(), Err("version is empty".to_string()));
    assert_eq!(
        Dependency::new(String::new(), "1".to_string()).validate(),
        Err("name is empty".to_string())
    );
}

#[test]
fn empty_env_key_is_rejected() {
    let mut t = local_build_task();
    t.envs = Some(vec![TaskEnv::new(String::new(), "v".to_string())]);
    assert_eq!(t.validate(), Err("Env: key is empty".to_string()));
}

#[test]
fn empty_target_arch_is_rejected() {
    let mut t = local_build_task();
    t.target_arch = Vec::new();
    assert_eq!(t.validate(), Err("target_arch is empty".to_string()));
}

#[test]
fn source_errors_are_reported() {
    let mut t = local_build_task();
    t.task_type = TaskType::BuildFromSource(CodeSource::Local(LocalSource::new("rel".to_string())));
    assert_eq!(
        t.validate(),
        Err("LocalSource: path should be an absolute path".to_string())
    );
    let git = GitSource::new(String::new(), None, None);
    assert_eq!(git.validate(), Err("GitSource: url is empty".to_string()));
    let git = GitSource::new("u".to_string(), Some("b".to_string()), Some("r".to_string()));
    assert_eq!(
        git.validate(),
        Err("GitSource: branch and revision are both specified".to_string())
    );
    let git = GitSource::new("u".to_string(), Some(String::new()), None);
    assert_eq!(git.validate(), Err("GitSource: branch is empty".to_string()));
    let git = GitSource::new("u".to_string(), None, Some(String::new()));
    assert_eq!(git.validate(), Err("GitSource: revision is empty".to_string()));
    assert_eq!(
        ArchiveSource::new(String::new()).validate(),
        Err("ArchiveSource: url is empty".to_string())
    );
    assert_eq!(
        ArchiveSource::new("ftp://a/b".to_string()).validate(),
        Err("ArchiveSource: url should use http or https".to_string())
    );
    assert_eq!(ArchiveSource::new("http://a/b".to_string()).validate(), Ok(()));
}

#[test]
fn name_version_replaces_unsafe_characters() {
    let mut t = local_build_task();
    t.name = "My App".to_string();
    t.version = "1.0.2".to_string();
    assert_eq!(t.name_version(), "My_App_1_0_2");
    t.name = "a\tb+c*d".to_string();
    t.version = "x".to_string();
    assert_eq!(t.name_version(), "a_b_c_d_x");
}

#[test]
fn name_version_env_upper_cases() {
    let mut t = local_build_task();
    t.name = "my-app".to_string();
    t.version = "1.0".to_string();
    assert_eq!(t.name_version_env(), "MY_APP_1_0");
    assert_eq!(DADKTask::name_version_uppercase("ä b", "v+1"), "ä_B_V_1");
}

#[test]
fn dependency_name_version_joins_with_hyphen() {
    let d = Dependency::new("lib".to_string(), "0.1".to_string());
    assert_eq!(d.name_version(), "lib-0.1");
}

#[test]
fn source_path_only_for_local_sources() {
    let t = local_build_task();
    assert_eq!(t.source_path(), Some("/src/foo".to_string()));
    let mut t = prebuilt_archive_task();
    assert_eq!(t.source_path(), None);
    t.task_type = TaskType::InstallFromPrebuilt(PrebuiltSource::Local(LocalSource::new(
        "/src/foo".to_string(),
    )));
    assert_eq!(t.source_path(), Some("/src/foo".to_string()));
    t.task_type = TaskType::BuildFromSource(CodeSource::Git(GitSource::new(
        "https://g".to_string(),
        None,
        None,
    )));
    assert_eq!(t.source_path(), None);
    t.task_type = TaskType::BuildFromSource(CodeSource::Archive(ArchiveSource::new(
        "https://g".to_string(),
    )));
    assert_eq!(t.source_path(), None);
}

#[test]
fn default_target_arch_without_override_is_x86_64() {
    assert_eq!(DADKTask::default_target_arch(None), Ok(TargetArch::X86_64));
    let t = local_build_task();
    assert_eq!(t.target_arch, vec![TargetArch::X86_64]);
}

#[test]
fn default_target_arch_follows_override() {
    assert_eq!(DADKTask::default_target_arch(Some("riscv64")), Ok(TargetArch::RiscV64));
    assert_eq!(
        DADKTask::default_target_arch(Some("sparc")),
        Err("Unknown target arch: sparc".to_string())
    );
    assert_eq!(TargetArch::try_from_str("aarch64"), Ok(TargetArch::AArch64));
    assert_eq!(TargetArch::LoongArch64.as_str(), "loongarch64");
}

#[test]
fn explicit_target_arch_list_is_kept() {
    let t = DADKTask::new(
        "a".to_string(),
        "1".to_string(),
        String::new(),
        None,
        TaskType::BuildFromSource(CodeSource::Local(LocalSource::new("/s".to_string()))),
        Vec::new(),
        BuildConfig::new(Some("make".to_string())),
        InstallConfig::new(None),
        CleanConfig::new(None),
        None,
        true,
        true,
        Some(vec![TargetArch::RiscV64, TargetArch::AArch64]),
        TargetArch::X86_64,
    );
    assert_eq!(t.target_arch, vec![TargetArch::RiscV64, TargetArch::AArch64]);
    assert!(t.build_once && t.install_once);
}

#[test]
fn task_env_accessors_and_trim() {
    let mut e = TaskEnv::new(" K ".to_string(), " v ".to_string());
    e.trim();
    assert_eq!(e.key(), "K");
    assert_eq!(e.value(), "v");
    assert_eq!(e.validate(), Ok(()));
}

#[test]
fn stage_configs_trim_and_validate() {
    let mut b = BuildConfig::new(Some(" make ".to_string()));
    b.trim();
    assert_eq!(b.build_command, Some("make".to_string()));
    assert_eq!(b.validate(), Ok(()));
    let mut c = CleanConfig::new(Some(" rm ".to_string()));
    c.trim();
    assert_eq!(c.clean_command, Some("rm".to_string()));
    assert_eq!(c.validate(), Ok(()));
    let mut i = InstallConfig::new(Some(" /bin".to_string()));
    i.trim();
    assert_eq!(i.in_dragonos_path, Some(" /bin".to_string()));
}
