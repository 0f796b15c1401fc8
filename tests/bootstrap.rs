use newt_bootstrap::{
    is_required_dialect, parse_version, version_at_least, Action, BuildEnvironment, BuildStep,
    BuildTarget, Compression, Failure, FlagEnv, Invocation, Orchestrator, Phase, ProbedLibrary,
    Recipe,
};

fn lib(version: &str, inc: &[&str], link: &[&str]) -> ProbedLibrary {
    ProbedLibrary {
        version: version.to_string(),
        include_paths: inc.iter().map(|s| s.to_string()).collect(),
        link_paths: link.iter().map(|s| s.to_string()).collect(),
        link_args: Vec::new(),
    }
}

fn installed(name_version: &str) -> ProbedLibrary {
    let root = format!("/out/install/{}", name_version);
    let version = name_version.split('-').nth(1).unwrap();
    lib(version, &[&format!("{}/include", root)], &[&format!("{}/lib", root)])
}

fn run(a: Action) -> Invocation {
    match a {
        Action::Run(inv) => inv,
        _ => panic!("expected a command to run"),
    }
}

fn orchestrator(force_static: bool) -> Orchestrator {
    Orchestrator::new(force_static, "/out".to_string(), "/src".to_string())
}

/// Drives a bootstrap from the tool query on, with every step succeeding;
/// returns each command run.
fn build_all(o: &mut Orchestrator) -> Vec<Invocation> {
    let mut a = o.on_tool_output(Some(b"GNU Make 4.3\n".to_vec()));
    let mut runs = Vec::new();
    let stems = ["popt-1.16", "slang-2.3.2", "newt-0.52.20"];
    let mut t = 0;
    loop {
        match a {
            Action::Run(inv) => {
                runs.push(inv);
                a = o.on_exit(true);
            }
            Action::Probe(p) => {
                assert_eq!(p.search_path, Some(format!("/out/install/{}/lib/pkgconfig", stems[t])));
                assert!(p.want_static);
                a = o.on_probe(Some(installed(stems[t])));
                t += 1;
            }
            Action::Finish => break,
            Action::QueryTool(_) => panic!("tool queried again"),
        }
    }
    runs
}

#[test]
fn version_components() {
    assert_eq!(parse_version("0.52.20"), vec![0, 52, 20]);
    assert_eq!(parse_version("2.3.2"), vec![2, 3, 2]);
    assert_eq!(parse_version(""), vec![0]);
    assert_eq!(parse_version("99999999999999999999999"), vec![u64::MAX]);
}

#[test]
fn version_comparison() {
    assert!(version_at_least("0.52.25", "0.52.20"));
    assert!(version_at_least("0.52.20", "0.52.20"));
    assert!(!version_at_least("0.52.19", "0.52.20"));
    assert!(version_at_least("0.53", "0.52.20"));
    assert!(version_at_least("1.16.0", "1.16"));
    assert!(!version_at_least("1.9", "1.16"));
}

#[test]
fn declared_targets() {
    let popt = BuildTarget::declared(0);
    assert_eq!((popt.name.as_str(), popt.version.as_str()), ("popt", "1.16"));
    assert_eq!(popt.recipe, Recipe::NoLocaleNoRpath);
    let slang = BuildTarget::declared(1);
    assert_eq!(slang.compression, Compression::Bzip2);
    assert_eq!(slang.recipe, Recipe::StaticInstall);
    let newt = BuildTarget::declared(2);
    assert_eq!(newt.package, "libnewt");
    assert!(newt.depends_on_prior && !newt.want_cflags);
}

#[test]
fn build_environment_paths() {
    let e = BuildEnvironment::new("/out", "/src", &BuildTarget::declared(1));
    assert_eq!(e.archive, "/src/vendor/slang-2.3.2.tar.bz2");
    assert_eq!(e.build_root, "/out/build");
    assert_eq!(e.source_dir, "/out/build/slang-2.3.2");
    assert_eq!(e.install_root, "/out/install/slang-2.3.2");
    assert_eq!(e.metadata_path, "/out/install/slang-2.3.2/lib/pkgconfig");
    let e = BuildEnvironment::new("/out", "/src", &BuildTarget::declared(0));
    assert_eq!(e.archive, "/src/vendor/popt-1.16.tar.gz");
}

#[test]
fn target_paths_are_disjoint() {
    let envs: Vec<BuildEnvironment> =
        (0..3).map(|i| BuildEnvironment::new("/out", "/src", &BuildTarget::declared(i))).collect();
    for i in 0..3 {
        for j in 0..3 {
            if i != j {
                assert_ne!(envs[i].source_dir, envs[j].source_dir);
                assert_ne!(envs[i].install_root, envs[j].install_root);
                assert_ne!(envs[i].source_dir, envs[j].install_root);
                assert_ne!(envs[i].archive, envs[j].archive);
            }
        }
    }
}

#[test]
fn export_joins_flags_in_order() {
    let mut env = FlagEnv::new();
    env.export(&vec![lib("1", &["/a/inc", "/a/inc2"], &["/a/lib"]), lib("2", &["/b/inc"], &[])]);
    assert_eq!(env.cppflags.as_deref(), Some("-I/a/inc -I/a/inc2 -I/b/inc "));
    assert_eq!(env.ldflags.as_deref(), Some("-L/a/lib "));
}

#[test]
fn export_then_clear_removes_preset_values() {
    let mut env = FlagEnv { cppflags: Some("-DUSER".to_string()), ldflags: Some("-s".to_string()) };
    env.export(&vec![lib("1", &["/a/inc"], &["/a/lib"])]);
    env.clear();
    assert_eq!(env.cppflags, None);
    assert_eq!(env.ldflags, None);
}

#[test]
fn export_of_nothing_sets_neither() {
    let mut env = FlagEnv { cppflags: Some("-DUSER".to_string()), ldflags: None };
    env.export(&Vec::new());
    assert_eq!(env.cppflags, None);
    assert_eq!(env.ldflags, None);
    let mut env = FlagEnv::new();
    env.export(&vec![lib("1", &[], &[])]);
    assert_eq!((env.cppflags, env.ldflags), (None, None));
}

#[test]
fn dialect_signature() {
    assert!(is_required_dialect(b"GNU Make 4.3\nBuilt for x86_64"));
    assert!(is_required_dialect(b"GNU Make"));
    assert!(!is_required_dialect(b"GNU Mak"));
    assert!(!is_required_dialect(b"usage: make [-BeikNnqrSstWwX]"));
    assert!(!is_required_dialect(b" GNU Make 4.3"));
}

#[test]
fn scenario_system_library_satisfies() {
    let mut o = orchestrator(false);
    match o.start() {
        Action::Probe(p) => {
            assert_eq!((p.package.as_str(), p.min_version.as_str()), ("libnewt", "0.52.20"));
            assert_eq!(p.search_path, None);
            assert!(!p.want_static);
        }
        _ => panic!("expected the system probe"),
    }
    let a = o.on_system_probe(Some(lib("0.52.25", &["/usr/include"], &["/usr/lib"])));
    assert!(matches!(a, Action::Finish));
    assert_eq!(o.phase, Phase::Satisfied);
    assert!(o.tool.is_none());
    assert!(o.built.is_empty());
}

#[test]
fn old_system_library_requires_bootstrap() {
    let mut o = orchestrator(false);
    o.start();
    let a = o.on_system_probe(Some(lib("0.52.19", &[], &[])));
    assert!(matches!(a, Action::QueryTool(ref n) if n == "make"));
    assert_eq!(o.phase, Phase::BootstrapRequired(0));
}

#[test]
fn force_static_requires_bootstrap() {
    let mut o = orchestrator(true);
    o.start();
    let a = o.on_system_probe(Some(lib("0.52.25", &[], &[])));
    assert!(matches!(a, Action::QueryTool(ref n) if n == "make"));
    assert_eq!(o.phase, Phase::BootstrapRequired(0));
}

#[test]
fn scenario_build_chain() {
    let mut o = orchestrator(false);
    o.start();
    o.on_system_probe(None);
    let runs = build_all(&mut o);
    assert_eq!(o.phase, Phase::Done);
    assert_eq!(runs.len(), 9);
    let cwds: Vec<&str> = runs.iter().map(|r| r.cwd.as_str()).collect();
    assert_eq!(
        cwds,
        vec![
            "/out/build",
            "/out/build/popt-1.16",
            "/out/build/popt-1.16",
            "/out/build",
            "/out/build/slang-2.3.2",
            "/out/build/slang-2.3.2",
            "/out/build",
            "/out/build/newt-0.52.20",
            "/out/build/newt-0.52.20",
        ]
    );
    assert_eq!(runs[0].args, vec!["xzf", "/src/vendor/popt-1.16.tar.gz", "-C", "/out/build"]);
    assert_eq!(runs[1].args, vec!["--prefix", "/out/install/popt-1.16", "--disable-nls", "--disable-rpath"]);
    assert_eq!(runs[2].program, "make");
    assert_eq!(runs[2].args, vec!["install"]);
    assert_eq!(runs[3].args, vec!["xjf", "/src/vendor/slang-2.3.2.tar.bz2", "-C", "/out/build"]);
    assert_eq!(runs[4].args, vec!["--prefix", "/out/install/slang-2.3.2"]);
    assert_eq!(runs[5].args, vec!["CFLAGS=-g -O2 -fPIC", "install-static"]);
    assert_eq!(runs[7].program, "./configure");
    assert_eq!(runs[7].args, vec!["--prefix", "/out/install/newt-0.52.20", "--disable-nls"]);
    for r in &runs[..6] {
        assert_eq!((r.env.cppflags.clone(), r.env.ldflags.clone()), (None, None));
    }
    for r in &runs[6..] {
        assert_eq!(
            r.env.cppflags.as_deref(),
            Some("-I/out/install/popt-1.16/include -I/out/install/slang-2.3.2/include ")
        );
        assert_eq!(
            r.env.ldflags.as_deref(),
            Some("-L/out/install/popt-1.16/lib -L/out/install/slang-2.3.2/lib ")
        );
    }
    assert_eq!(o.built.len(), 3);
}

#[test]
fn scenario_configure_failure_stops() {
    let mut o = orchestrator(true);
    o.start();
    o.on_system_probe(None);
    let a = o.on_tool_output(Some(b"GNU Make 4.3".to_vec()));
    assert_eq!(run(a).cwd, "/out/build");
    let a = o.on_exit(true);
    assert_eq!(o.phase, Phase::DependencyBuilding(0, BuildStep::Configure));
    assert_eq!(run(a).program, "./configure");
    let a = o.on_exit(false);
    assert!(matches!(a, Action::Finish));
    assert_eq!(o.phase, Phase::FatalFailure(Failure::Configure(0)));
    assert!(o.built.is_empty());
}

#[test]
fn failure_of_each_step_names_it() {
    let mut o = orchestrator(true);
    o.start();
    o.on_system_probe(None);
    o.on_tool_output(Some(b"GNU Make 4.3".to_vec()));
    o.on_exit(false);
    assert_eq!(o.phase, Phase::FatalFailure(Failure::Extraction(0)));

    let mut o = orchestrator(true);
    o.start();
    o.on_system_probe(None);
    o.on_tool_output(Some(b"GNU Make 4.3".to_vec()));
    o.on_exit(true);
    o.on_exit(true);
    o.on_exit(false);
    assert_eq!(o.phase, Phase::FatalFailure(Failure::Install(0)));
}

#[test]
fn probe_failures_are_fatal() {
    let mut o = orchestrator(true);
    o.start();
    o.on_system_probe(None);
    o.on_tool_output(Some(b"GNU Make 4.3".to_vec()));
    o.on_exit(true);
    o.on_exit(true);
    let a = o.on_exit(true);
    assert!(matches!(a, Action::Probe(_)));
    o.on_probe(None);
    assert_eq!(o.phase, Phase::FatalFailure(Failure::NotFound(0)));

    let mut o = orchestrator(true);
    o.start();
    o.on_system_probe(None);
    o.on_tool_output(Some(b"GNU Make 4.3".to_vec()));
    o.on_exit(true);
    o.on_exit(true);
    o.on_exit(true);
    o.on_probe(Some(lib("1.15", &[], &[])));
    assert_eq!(o.phase, Phase::FatalFailure(Failure::VersionMismatch(0)));
}

#[test]
fn wrong_dialect_tries_next_candidate() {
    let mut o = orchestrator(true);
    o.start();
    o.on_system_probe(None);
    let a = o.on_tool_output(Some(b"usage: make [-BeikNnqrSstWwX]".to_vec()));
    assert!(matches!(a, Action::QueryTool(ref n) if n == "gmake"));
    assert_eq!(o.phase, Phase::BootstrapRequired(1));
    let a = o.on_tool_output(Some(b"GNU Make 4.4".to_vec()));
    assert_eq!(o.tool.as_ref().map(|t| t.program.as_str()), Some("gmake"));
    assert_eq!(run(a).program, "tar");
}

#[test]
fn no_candidate_is_fatal() {
    let mut o = orchestrator(true);
    o.start();
    o.on_system_probe(None);
    o.on_tool_output(None);
    let a = o.on_tool_output(Some(b"bmake 2020".to_vec()));
    assert!(matches!(a, Action::Finish));
    assert_eq!(o.phase, Phase::FatalFailure(Failure::ToolNotFound));
}

#[test]
fn clear_without_export_removes_both() {
    let mut env = FlagEnv { cppflags: Some("-I/usr/local/include".to_string()), ldflags: None };
    env.clear();
    assert_eq!((env.cppflags, env.ldflags), (None, None));
    let mut env = FlagEnv::new();
    env.clear();
    assert_eq!((env.cppflags, env.ldflags), (None, None));
}
