use vstd::prelude::*;
use crate::flags::{after_export, EnvView, FlagEnv, ProbedLibrary};
use crate::layout::{
    archive_of, build_root_of, install_root_of, metadata_path_of, source_dir_of, BuildEnvironment,
};
use crate::target::{
    declared_compression, declared_name, declared_package, declared_recipe, declared_version,
    BuildTarget, Compression, Recipe, TARGET_COUNT,
};
use crate::tool::{candidate, candidate_name, has_signature, is_required_dialect, ToolHandle, TOOL_CANDIDATES};
use crate::version::{at_least, version_at_least};

verus! {

/// The index of the top-level target, built last.
pub const TOP_TARGET: usize = 2;

/// One step of building a target.
#[derive(Clone, Copy, Debug, PartialEq, Eq, Structural)]
pub enum BuildStep {
    Extract,
    Configure,
    Install,
    Probe,
}

/// Why a bootstrap stopped; each names the target it concerns.
#[derive(Clone, Copy, Debug, PartialEq, Eq, Structural)]
pub enum Failure {
    ToolNotFound,
    Extraction(usize),
    Configure(usize),
    Install(usize),
    NotFound(usize),
    VersionMismatch(usize),
}

/// Where a bootstrap stands.
#[derive(Clone, Copy, Debug, PartialEq, Eq, Structural)]
pub enum Phase {
    Idle,
    /// The system library has been asked for.
    SystemProbeAttempted,
    /// A build is needed; build-tool candidate `0` is being tried.
    BootstrapRequired(usize),
    /// Target `0` is at step `1`.
    DependencyBuilding(usize, BuildStep),
    /// The system library will do; nothing was built.
    Satisfied,
    /// Every target was built and probed.
    Done,
    FatalFailure(Failure),
}

/// An external command to run and wait for, in directory `cwd` (created
/// first where absent), with the two flag variables set or removed as `env`
/// says.
pub struct Invocation {
    pub program: String,
    pub args: Vec<String>,
    pub cwd: String,
    pub env: FlagEnv,
}

/// A pkg-config query for `package` at `min_version` or above.
pub struct ProbeRequest {
    pub package: String,
    pub min_version: String,
    /// The only metadata directory to search; `None` for the system's own.
    pub search_path: Option<String>,
    /// Ask for static linking.
    pub want_static: bool,
    /// Ask for compiler flags as well.
    pub want_cflags: bool,
}

/// The outside work that comes next.
pub enum Action {
    /// Probe for a library, then report with `on_system_probe` or `on_probe`.
    Probe(ProbeRequest),
    /// Run `<name> -f - --version` with no input and report its standard
    /// output with `on_tool_output` (`None` if it could not be run).
    QueryTool(String),
    /// Run a command and report whether it exited with success with `on_exit`.
    Run(Invocation),
    /// Nothing more: the phase is final.
    Finish,
}

pub type InvocationView = (Seq<char>, Seq<Seq<char>>, Seq<char>, EnvView);

pub open spec fn strs(v: Seq<String>) -> Seq<Seq<char>> {
    v.map_values(|s: String| s@)
}

impl View for Invocation {
    type V = InvocationView;

    open spec fn view(&self) -> InvocationView {
        (self.program@, strs(self.args@), self.cwd@, self.env@)
    }
}

pub open spec fn is_run(a: Action, expected: InvocationView) -> bool {
    match a {
        Action::Run(inv) => inv@ == expected,
        _ => false,
    }
}

pub open spec fn is_query(a: Action, name: Seq<char>) -> bool {
    match a {
        Action::QueryTool(n) => n@ == name,
        _ => false,
    }
}

pub open spec fn is_probe(
    a: Action,
    package: Seq<char>,
    min_version: Seq<char>,
    search_path: Option<Seq<char>>,
    want_static: bool,
    want_cflags: bool,
) -> bool {
    match a {
        Action::Probe(p) => {
            &&& p.package@ == package
            &&& p.min_version@ == min_version
            &&& crate::flags::opt_view(p.search_path) == search_path
            &&& p.want_static == want_static
            &&& p.want_cflags == want_cflags
        },
        _ => false,
    }
}

/// The libraries whose flags target `t` receives: those built before it
/// where it depends on them, none for a leaf.
pub open spec fn propagated(t: int, built: Seq<ProbedLibrary>) -> Seq<ProbedLibrary> {
    if t == TOP_TARGET {
        built
    } else {
        Seq::empty()
    }
}

pub open spec fn step_env(t: int, built: Seq<ProbedLibrary>) -> EnvView {
    after_export((None, None), propagated(t, built))
}

pub open spec fn tar_mode(c: Compression) -> Seq<char> {
    match c {
        Compression::Gzip => "xzf"@,
        Compression::Bzip2 => "xjf"@,
    }
}

pub open spec fn configure_extras(r: Recipe) -> Seq<Seq<char>> {
    match r {
        Recipe::NoLocale => seq!["--disable-nls"@],
        Recipe::NoLocaleNoRpath => seq!["--disable-nls"@, "--disable-rpath"@],
        Recipe::StaticInstall => Seq::empty(),
    }
}

pub open spec fn install_args(r: Recipe) -> Seq<Seq<char>> {
    match r {
        Recipe::StaticInstall => seq!["CFLAGS=-g -O2 -fPIC"@, "install-static"@],
        _ => seq!["install"@],
    }
}

/// `tar x{z|j}f <archive> -C <build root>`, run in the build root.
pub open spec fn extract_view(out: Seq<char>, project: Seq<char>, t: int, built: Seq<ProbedLibrary>) -> InvocationView {
    let (n, v, c) = (declared_name(t), declared_version(t), declared_compression(t));
    (
        "tar"@,
        seq![tar_mode(c), archive_of(project, n, v, c), "-C"@, build_root_of(out)],
        build_root_of(out),
        step_env(t, built),
    )
}

/// `./configure --prefix <install root>` and the recipe's flags, run in the
/// source tree.
pub open spec fn configure_view(out: Seq<char>, t: int, built: Seq<ProbedLibrary>) -> InvocationView {
    let (n, v) = (declared_name(t), declared_version(t));
    (
        "./configure"@,
        seq!["--prefix"@, install_root_of(out, n, v)] + configure_extras(declared_recipe(t)),
        source_dir_of(out, n, v),
        step_env(t, built),
    )
}

/// The build tool with the recipe's install target, run in the source tree.
pub open spec fn install_view(out: Seq<char>, tool: Seq<char>, t: int, built: Seq<ProbedLibrary>) -> InvocationView {
    (
        tool,
        install_args(declared_recipe(t)),
        source_dir_of(out, declared_name(t), declared_version(t)),
        step_env(t, built),
    )
}

pub open spec fn tool_program(tool: Option<ToolHandle>) -> Seq<char> {
    match tool {
        Some(h) => h.program@,
        None => Seq::empty(),
    }
}

/// The probe finished with a library at `min` or above.
pub open spec fn probe_ok(found: Option<ProbedLibrary>, min: Seq<char>) -> bool {
    match found {
        Some(l) => at_least(l.version@, min),
        None => false,
    }
}

pub open spec fn next_step(s: BuildStep) -> BuildStep {
    match s {
        BuildStep::Extract => BuildStep::Configure,
        BuildStep::Configure => BuildStep::Install,
        _ => BuildStep::Probe,
    }
}

pub open spec fn step_failure(s: BuildStep, t: usize) -> Failure {
    match s {
        BuildStep::Extract => Failure::Extraction(t),
        BuildStep::Configure => Failure::Configure(t),
        _ => Failure::Install(t),
    }
}

pub open spec fn candidate_of(p: Phase) -> int {
    match p {
        Phase::BootstrapRequired(c) => c as int,
        _ => 0,
    }
}

pub open spec fn target_of(p: Phase) -> usize {
    match p {
        Phase::DependencyBuilding(t, _) => t,
        _ => 0,
    }
}

pub open spec fn step_of(p: Phase) -> BuildStep {
    match p {
        Phase::DependencyBuilding(_, s) => s,
        _ => BuildStep::Probe,
    }
}

/// The tool's version output shows the required dialect.
pub open spec fn tool_ok(output: Option<Vec<u8>>) -> bool {
    match output {
        Some(o) => has_signature(o@),
        None => false,
    }
}

/// Decides, from each outcome of outside work, what the bootstrap does next.
pub struct Orchestrator {
    pub phase: Phase,
    /// Build from the vendored archives even where the system library would do.
    pub force_static: bool,
    pub output_root: String,
    /// Root of the project, under which `vendor/` holds the archives.
    pub project_root: String,
    pub tool: Option<ToolHandle>,
    /// What the probes of the targets built so far found, in build order.
    pub built: Vec<ProbedLibrary>,
}

impl Orchestrator {
    pub open spec fn wf(&self) -> bool {
        match self.phase {
            Phase::BootstrapRequired(c) => c < TOOL_CANDIDATES && self.built@.len() == 0,
            Phase::DependencyBuilding(t, _) => {
                &&& t < TARGET_COUNT
                &&& self.tool is Some
                &&& self.built@.len() == t
            },
            Phase::Idle | Phase::SystemProbeAttempted => self.built@.len() == 0,
            Phase::Done => self.built@.len() == TARGET_COUNT,
            _ => true,
        }
    }

    /// `a` is the work of step `s` of target `t`.
    pub open spec fn step_action(&self, t: int, s: BuildStep, a: Action) -> bool {
        let (out, n, v) = (self.output_root@, declared_name(t), declared_version(t));
        match s {
            BuildStep::Extract => is_run(a, extract_view(out, self.project_root@, t, self.built@)),
            BuildStep::Configure => is_run(a, configure_view(out, t, self.built@)),
            BuildStep::Install => is_run(a, install_view(out, tool_program(self.tool), t, self.built@)),
            BuildStep::Probe => is_probe(
                a,
                declared_package(t),
                v,
                Some(metadata_path_of(out, n, v)),
                true,
                t != TOP_TARGET,
            ),
        }
    }

    pub open spec fn same_setup(&self, other: &Orchestrator) -> bool {
        &&& self.force_static == other.force_static
        &&& self.output_root@ == other.output_root@
        &&& self.project_root@ == other.project_root@
    }

    /// A bootstrap that has not started.
    pub fn new(force_static: bool, output_root: String, project_root: String) -> (r: Orchestrator)
        ensures
            r.phase == Phase::Idle,
            r.wf(),
            r.force_static == force_static,
            r.output_root@ == output_root@,
            r.project_root@ == project_root@,
            r.tool is None,
            r.built@.len() == 0,
    {
        Orchestrator { phase: Phase::Idle, force_static, output_root, project_root, tool: None, built: Vec::new() }
    }

    /// Starts by asking for the system's top-level library at its minimum
    /// version, without static linking.
    pub fn start(&mut self) -> (a: Action)
        requires
            old(self).phase == Phase::Idle,
            old(self).wf(),
        ensures
            final(self).phase == Phase::SystemProbeAttempted,
            final(self).wf(),
            final(self).same_setup(old(self)),
            final(self).tool == old(self).tool,
            final(self).built@ == old(self).built@,
            is_probe(a, declared_package(2), declared_version(2), None, false, false),
    {
        self.phase = Phase::SystemProbeAttempted;
        let top = BuildTarget::declared(TOP_TARGET);
        Action::Probe(ProbeRequest {
            package: top.package,
            min_version: top.version,
            search_path: None,
            want_static: false,
            want_cflags: false,
        })
    }

    /// The flag variables for target `t`'s build steps.
    fn step_flags(&self, target: &BuildTarget, t: usize) -> (r: FlagEnv)
        requires
            target.is_declared(t as int),
        ensures
            r@ == step_env(t as int, self.built@),
    {
        let mut env = FlagEnv::new();
        if target.depends_on_prior {
            env.export(&self.built);
        } else {
            env.export(&Vec::new());
        }
        proof {
            assert(propagated(t as int, self.built@) =~= if target.depends_on_prior { self.built@ } else { Seq::empty() });
        }
        env
    }

    /// The outside work of step `s` of target `t`.
    fn step_work(&self, t: usize, s: BuildStep) -> (a: Action)
        requires
            t < TARGET_COUNT,
            s == BuildStep::Install ==> self.tool is Some,
        ensures
            self.step_action(t as int, s, a),
    {
        let target = BuildTarget::declared(t);
        let paths = BuildEnvironment::new(self.output_root.as_str(), self.project_root.as_str(), &target);
        match s {
            BuildStep::Extract => {
                let mode = match target.compression {
                    Compression::Gzip => String::from_str("xzf"),
                    Compression::Bzip2 => String::from_str("xjf"),
                };
                let args = vec![mode, paths.archive, String::from_str("-C"), paths.build_root.clone()];
                let inv = Invocation {
                    program: String::from_str("tar"),
                    args,
                    cwd: paths.build_root,
                    env: self.step_flags(&target, t),
                };
                proof {
                    assert(inv@ =~= extract_view(self.output_root@, self.project_root@, t as int, self.built@));
                }
                Action::Run(inv)
            },
            BuildStep::Configure => {
                let mut args = vec![String::from_str("--prefix"), paths.install_root];
                match target.recipe {
                    Recipe::NoLocale => {
                        args.push(String::from_str("--disable-nls"));
                    },
                    Recipe::NoLocaleNoRpath => {
                        args.push(String::from_str("--disable-nls"));
                        args.push(String::from_str("--disable-rpath"));
                    },
                    Recipe::StaticInstall => {},
                }
                let inv = Invocation {
                    program: String::from_str("./configure"),
                    args,
                    cwd: paths.source_dir,
                    env: self.step_flags(&target, t),
                };
                proof {
                    assert(strs(inv.args@) =~= configure_view(self.output_root@, t as int, self.built@).1);
                    assert(inv@ =~= configure_view(self.output_root@, t as int, self.built@));
                }
                Action::Run(inv)
            },
            BuildStep::Install => {
                let args = match target.recipe {
                    Recipe::StaticInstall => vec![
                        String::from_str("CFLAGS=-g -O2 -fPIC"),
                        String::from_str("install-static"),
                    ],
                    _ => vec![String::from_str("install")],
                };
                let program = match &self.tool {
                    Some(h) => h.program.clone(),
                    None => String::new(),
                };
                let inv = Invocation { program, args, cwd: paths.source_dir, env: self.step_flags(&target, t) };
                proof {
                    assert(strs(inv.args@) =~= install_args(target.recipe));
                    assert(inv@ =~= install_view(self.output_root@, tool_program(self.tool), t as int, self.built@));
                }
                Action::Run(inv)
            },
            BuildStep::Probe => Action::Probe(ProbeRequest {
                package: target.package,
                min_version: target.version,
                search_path: Some(paths.metadata_path),
                want_static: true,
                want_cflags: target.want_cflags,
            }),
        }
    }

    /// Takes the outcome of the system probe. The system library is used,
    /// and nothing is located or built, when it was found at the minimum
    /// version or above and no static build is forced; otherwise the first
    /// build-tool candidate is queried.
    pub fn on_system_probe(&mut self, found: Option<ProbedLibrary>) -> (a: Action)
        requires
            old(self).phase == Phase::SystemProbeAttempted,
            old(self).wf(),
        ensures
            final(self).wf(),
            final(self).same_setup(old(self)),
            final(self).tool == old(self).tool,
            final(self).built@ == old(self).built@,
            !old(self).force_static && probe_ok(found, declared_version(2)) ==> {
                &&& final(self).phase == Phase::Satisfied
                &&& a is Finish
            },
            old(self).force_static || !probe_ok(found, declared_version(2)) ==> {
                &&& final(self).phase == Phase::BootstrapRequired(0)
                &&& is_query(a, candidate_name(0))
            },
    {
        let ok = match &found {
            Some(l) => {
                let top = BuildTarget::declared(TOP_TARGET);
                version_at_least(l.version.as_str(), top.version.as_str())
            },
            None => false,
        };
        if !self.force_static && ok {
            self.phase = Phase::Satisfied;
            Action::Finish
        } else {
            self.phase = Phase::BootstrapRequired(0);
            Action::QueryTool(candidate(0))
        }
    }

    /// Takes the version output of the build-tool candidate being tried
    /// (`None` if it could not be run). A candidate whose output starts with
    /// the required dialect's signature becomes the build tool and the first
    /// target's extraction follows; otherwise the next candidate is queried,
    /// and when none is left the bootstrap fails with `ToolNotFound`.
    pub fn on_tool_output(&mut self, output: Option<Vec<u8>>) -> (a: Action)
        requires
            old(self).phase is BootstrapRequired,
            old(self).wf(),
        ensures
            final(self).wf(),
            final(self).same_setup(old(self)),
            final(self).built@ == old(self).built@,
            tool_ok(output) ==> {
                &&& tool_program(final(self).tool) == candidate_name(candidate_of(old(self).phase))
                &&& final(self).tool is Some
                &&& final(self).phase == Phase::DependencyBuilding(0, BuildStep::Extract)
                &&& final(self).step_action(0, BuildStep::Extract, a)
            },
            !tool_ok(output) ==> final(self).tool == old(self).tool,
            !tool_ok(output) && candidate_of(old(self).phase) + 1 < TOOL_CANDIDATES ==> {
                &&& final(self).phase == Phase::BootstrapRequired((candidate_of(old(self).phase) + 1) as usize)
                &&& is_query(a, candidate_name(candidate_of(old(self).phase) + 1))
            },
            !tool_ok(output) && candidate_of(old(self).phase) + 1 >= TOOL_CANDIDATES ==> {
                &&& final(self).phase == Phase::FatalFailure(Failure::ToolNotFound)
                &&& a is Finish
            },
    {
        let c = match self.phase {
            Phase::BootstrapRequired(c) => c,
            _ => 0,
        };
        let ok = match &output {
            Some(o) => is_required_dialect(o.as_slice()),
            None => false,
        };
        if ok {
            self.tool = Some(ToolHandle { program: candidate(c) });
            self.phase = Phase::DependencyBuilding(0, BuildStep::Extract);
            self.step_work(0, BuildStep::Extract)
        } else if c + 1 < TOOL_CANDIDATES {
            self.phase = Phase::BootstrapRequired(c + 1);
            Action::QueryTool(candidate(c + 1))
        } else {
            self.phase = Phase::FatalFailure(Failure::ToolNotFound);
            Action::Finish
        }
    }

    /// Takes whether the command of the current extract, configure or
    /// install step exited with success. Success moves on to the next step
    /// of the same target; failure stops the bootstrap with that step's
    /// error, and nothing further is run.
    pub fn on_exit(&mut self, success: bool) -> (a: Action)
        requires
            old(self).phase is DependencyBuilding,
            step_of(old(self).phase) != BuildStep::Probe,
            old(self).wf(),
        ensures
            final(self).wf(),
            final(self).same_setup(old(self)),
            final(self).tool == old(self).tool,
            final(self).built@ == old(self).built@,
            !success ==> {
                &&& final(self).phase == Phase::FatalFailure(
                    step_failure(step_of(old(self).phase), target_of(old(self).phase)),
                )
                &&& a is Finish
            },
            success ==> {
                &&& final(self).phase == Phase::DependencyBuilding(
                    target_of(old(self).phase),
                    next_step(step_of(old(self).phase)),
                )
                &&& final(self).step_action(
                    target_of(old(self).phase) as int,
                    next_step(step_of(old(self).phase)),
                    a,
                )
            },
    {
        let (t, s) = match self.phase {
            Phase::DependencyBuilding(t, s) => (t, s),
            _ => (0, BuildStep::Probe),
        };
        if !success {
            self.phase = Phase::FatalFailure(
                match s {
                    BuildStep::Extract => Failure::Extraction(t),
                    BuildStep::Configure => Failure::Configure(t),
                    _ => Failure::Install(t),
                },
            );
            return Action::Finish;
        }
        let next = match s {
            BuildStep::Extract => BuildStep::Configure,
            BuildStep::Configure => BuildStep::Install,
            _ => BuildStep::Probe,
        };
        self.phase = Phase::DependencyBuilding(t, next);
        self.step_work(t, next)
    }

    /// Takes the outcome of probing the target just installed. A library at
    /// the target's version or above is recorded and the next target's
    /// extraction follows, or the bootstrap is done after the last target;
    /// nothing found stops it with `NotFound`, an older version with
    /// `VersionMismatch`.
    pub fn on_probe(&mut self, found: Option<ProbedLibrary>) -> (a: Action)
        requires
            old(self).phase is DependencyBuilding,
            step_of(old(self).phase) == BuildStep::Probe,
            old(self).wf(),
        ensures
            final(self).wf(),
            final(self).same_setup(old(self)),
            final(self).tool == old(self).tool,
            ({
                let t = target_of(old(self).phase);
                match found {
                    None => {
                        &&& final(self).phase == Phase::FatalFailure(Failure::NotFound(t))
                        &&& final(self).built@ == old(self).built@
                        &&& a is Finish
                    },
                    Some(l) => if !at_least(l.version@, declared_version(t as int)) {
                        &&& final(self).phase == Phase::FatalFailure(Failure::VersionMismatch(t))
                        &&& final(self).built@ == old(self).built@
                        &&& a is Finish
                    } else {
                        &&& final(self).built@ == old(self).built@.push(l)
                        &&& t + 1 < TARGET_COUNT ==> {
                            &&& final(self).phase == Phase::DependencyBuilding((t + 1) as usize, BuildStep::Extract)
                            &&& final(self).step_action(t + 1, BuildStep::Extract, a)
                        }
                        &&& t + 1 >= TARGET_COUNT ==> {
                            &&& final(self).phase == Phase::Done
                            &&& a is Finish
                        }
                    },
                }
            }),
    {
        let t = match self.phase {
            Phase::DependencyBuilding(t, _) => t,
            _ => 0,
        };
        match found {
            None => {
                self.phase = Phase::FatalFailure(Failure::NotFound(t));
                Action::Finish
            },
            Some(l) => {
                let target = BuildTarget::declared(t);
                if !version_at_least(l.version.as_str(), target.version.as_str()) {
                    self.phase = Phase::FatalFailure(Failure::VersionMismatch(t));
                    return Action::Finish;
                }
                self.built.push(l);
                if t + 1 < TARGET_COUNT {
                    self.phase = Phase::DependencyBuilding(t + 1, BuildStep::Extract);
                    self.step_work(t + 1, BuildStep::Extract)
                } else {
                    self.phase = Phase::Done;
                    Action::Finish
                }
            },
        }
    }
}

} // verus!
