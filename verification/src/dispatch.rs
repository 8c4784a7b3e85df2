//! The command dispatcher: a parsed invocation is turned into a plan of at
//! most two external process invocations, driven as a small state machine.
//! The caller performs each spawn it is handed, waits for the process, and
//! feeds the exit status back through `on_status`; everything else — which
//! program runs, with which arguments, what is printed, and whether a
//! dependent step may run at all — is decided and verified here.

use vstd::prelude::*;

use crate::command::{
    bundle_command, node_command, psc_package_command, spec_build_cmd, spec_bundle_cmd,
    spec_node_cmd, Cmd, CmdModel,
};

verus! {

/// A parsed invocation: the selected subcommand with its raw options.
/// `None` in an option field means the flag was absent; defaults are
/// resolved by the dispatcher, not by the parser.
pub enum Invocation {
    /// `build`: invoke the build tool once.
    Build { dependencies_only: bool },
    /// `test`: build with the test files appended, then run the test module.
    Test { main: Option<String>, skip_build: bool },
    /// `run`: build, then run the main module.
    Run { main: Option<String>, skip_build: bool },
    /// `bundle`: build, then invoke the bundler.
    Bundle {
        main: Option<String>,
        output: Option<String>,
        source_maps: bool,
        skip_build: bool,
    },
    /// No subcommand given: behaves exactly as `build` without
    /// `dependencies-only`.
    NoCommand,
    /// An unrecognized subcommand token: report it, spawn nothing.
    Unknown { task: String },
}

/// The mathematical shape of an `Invocation`.
pub enum InvocationModel {
    Build { dependencies_only: bool },
    Test { main: Option<Seq<char>>, skip_build: bool },
    Run { main: Option<Seq<char>>, skip_build: bool },
    Bundle {
        main: Option<Seq<char>>,
        output: Option<Seq<char>>,
        source_maps: bool,
        skip_build: bool,
    },
    NoCommand,
    Unknown { task: Seq<char> },
}

impl View for Invocation {
    type V = InvocationModel;

    open spec fn view(&self) -> InvocationModel {
        match self {
            Invocation::Build { dependencies_only } => InvocationModel::Build {
                dependencies_only: *dependencies_only,
            },
            Invocation::Test { main, skip_build } => InvocationModel::Test {
                main: main.deep_view(),
                skip_build: *skip_build,
            },
            Invocation::Run { main, skip_build } => InvocationModel::Run {
                main: main.deep_view(),
                skip_build: *skip_build,
            },
            Invocation::Bundle { main, output, source_maps, skip_build } => InvocationModel::Bundle {
                main: main.deep_view(),
                output: output.deep_view(),
                source_maps: *source_maps,
                skip_build: *skip_build,
            },
            Invocation::NoCommand => InvocationModel::NoCommand,
            Invocation::Unknown { task } => InvocationModel::Unknown { task: task@ },
        }
    }
}

/// The step that follows a successful build.
pub enum FollowUp {
    Node { main: String },
    Bundle { main: String, output: String, source_maps: bool },
}

/// The mathematical shape of a `FollowUp`.
pub enum FollowUpModel {
    Node { main: Seq<char> },
    Bundle { main: Seq<char>, output: Seq<char>, source_maps: bool },
}

impl View for FollowUp {
    type V = FollowUpModel;

    open spec fn view(&self) -> FollowUpModel {
        match self {
            FollowUp::Node { main } => FollowUpModel::Node { main: main@ },
            FollowUp::Bundle { main, output, source_maps } => FollowUpModel::Bundle {
                main: main@,
                output: output@,
                source_maps: *source_maps,
            },
        }
    }
}

/// The dispatcher's state between process invocations.
pub enum Machine {
    /// Nothing further to do.
    Done,
    /// The build tool was spawned; on success, `follow` (if any) runs next.
    Building { follow: Option<FollowUp> },
    /// The dependent runtime or bundler step was spawned; its status only
    /// remains to be reported.
    Running,
}

/// The mathematical shape of a `Machine`.
pub enum MachineModel {
    Done,
    Building { follow: Option<FollowUpModel> },
    Running,
}

impl View for Machine {
    type V = MachineModel;

    open spec fn view(&self) -> MachineModel {
        match self {
            Machine::Done => MachineModel::Done,
            Machine::Building { follow } => MachineModel::Building {
                follow: match follow {
                    Some(f) => Some(f@),
                    None => None,
                },
            },
            Machine::Running => MachineModel::Running,
        }
    }
}

/// What the dispatcher asks of its caller after a step: lines to print,
/// in order, and at most one process to spawn.
pub struct Effects {
    pub prints: Vec<String>,
    pub spawn: Option<Cmd>,
}

/// The mathematical shape of `Effects`.
#[verifier::ext_equal]
pub struct EffectsModel {
    pub prints: Seq<Seq<char>>,
    pub spawn: Option<CmdModel>,
}

impl View for Effects {
    type V = EffectsModel;

    open spec fn view(&self) -> EffectsModel {
        EffectsModel {
            prints: self.prints.deep_view(),
            spawn: match &self.spawn {
                Some(c) => Some(c@),
                None => None,
            },
        }
    }
}

/// The module the runtime step defaults to for `test`.
pub open spec fn spec_default_test_main() -> Seq<char> {
    "Test.Main"@
}

/// The module the runtime and bundler steps default to.
pub open spec fn spec_default_main() -> Seq<char> {
    "Main"@
}

/// The path the bundler writes to when `--output` is absent.
pub open spec fn spec_default_output() -> Seq<char> {
    "index.js"@
}

/// The glob pattern whose expansion yields the test files handed to the
/// build step of `test`.
pub open spec fn spec_test_glob_pattern() -> Seq<char> {
    "./test/**/*.purs"@
}

/// An option resolved against its default.
pub open spec fn spec_or_default(opt: Option<Seq<char>>, default: Seq<char>) -> Seq<char> {
    match opt {
        Some(s) => s,
        None => default,
    }
}

/// The message reported for an unrecognized subcommand token: it names
/// the exact token, quoted.
pub open spec fn spec_unknown_message(task: Seq<char>) -> Seq<char> {
    "Unknown task: \""@ + task + "\""@
}

/// The lines printed as a build step starts.
pub open spec fn spec_build_prints(dependencies_only: bool) -> Seq<Seq<char>> {
    if dependencies_only {
        seq!["Building with dependencies only"@, "Building..."@]
    } else {
        seq!["Building..."@]
    }
}

/// The command a follow-up step spawns.
pub open spec fn spec_follow_cmd(f: FollowUpModel) -> CmdModel {
    match f {
        FollowUpModel::Node { main } => spec_node_cmd(main),
        FollowUpModel::Bundle { main, output, source_maps } => spec_bundle_cmd(
            main,
            output,
            source_maps,
        ),
    }
}

/// The lines printed as a follow-up step starts.
pub open spec fn spec_follow_prints(f: FollowUpModel) -> Seq<Seq<char>> {
    match f {
        FollowUpModel::Node { .. } => Seq::<Seq<char>>::empty(),
        FollowUpModel::Bundle { .. } => seq!["Bundling..."@],
    }
}

/// The dispatcher's first step: the state to wait in and the effects to
/// perform for a given invocation. `test_paths` is the glob expansion of
/// the test-file pattern, used only by `test`.
pub open spec fn spec_start(inv: InvocationModel, test_paths: Seq<Seq<char>>) -> (
    MachineModel,
    EffectsModel,
) {
    match inv {
        InvocationModel::Build { dependencies_only } => (
            MachineModel::Building { follow: None },
            EffectsModel {
                prints: spec_build_prints(dependencies_only),
                spawn: Some(spec_build_cmd(dependencies_only, Seq::<Seq<char>>::empty())),
            },
        ),
        InvocationModel::NoCommand => (
            MachineModel::Building { follow: None },
            EffectsModel {
                prints: spec_build_prints(false),
                spawn: Some(spec_build_cmd(false, Seq::<Seq<char>>::empty())),
            },
        ),
        InvocationModel::Test { main, skip_build } => {
            let follow = FollowUpModel::Node { main: spec_or_default(main, spec_default_test_main()) };
            if skip_build {
                (
                    MachineModel::Running,
                    EffectsModel {
                        prints: spec_follow_prints(follow),
                        spawn: Some(spec_follow_cmd(follow)),
                    },
                )
            } else {
                (
                    MachineModel::Building { follow: Some(follow) },
                    EffectsModel {
                        prints: spec_build_prints(false),
                        spawn: Some(spec_build_cmd(false, test_paths)),
                    },
                )
            }
        },
        InvocationModel::Run { main, skip_build } => {
            let follow = FollowUpModel::Node { main: spec_or_default(main, spec_default_main()) };
            if skip_build {
                (
                    MachineModel::Running,
                    EffectsModel {
                        prints: spec_follow_prints(follow),
                        spawn: Some(spec_follow_cmd(follow)),
                    },
                )
            } else {
                (
                    MachineModel::Building { follow: Some(follow) },
                    EffectsModel {
                        prints: spec_build_prints(false),
                        spawn: Some(spec_build_cmd(false, Seq::<Seq<char>>::empty())),
                    },
                )
            }
        },
        InvocationModel::Bundle { main, output, source_maps, skip_build } => {
            let follow = FollowUpModel::Bundle {
                main: spec_or_default(main, spec_default_main()),
                output: spec_or_default(output, spec_default_output()),
                source_maps: source_maps,
            };
            if skip_build {
                (
                    MachineModel::Running,
                    EffectsModel {
                        prints: spec_follow_prints(follow),
                        spawn: Some(spec_follow_cmd(follow)),
                    },
                )
            } else {
                (
                    MachineModel::Building { follow: Some(follow) },
                    EffectsModel {
                        prints: spec_build_prints(false),
                        spawn: Some(spec_build_cmd(false, Seq::<Seq<char>>::empty())),
                    },
                )
            }
        },
        InvocationModel::Unknown { task } => (
            MachineModel::Done,
            EffectsModel { prints: seq![spec_unknown_message(task)], spawn: None },
        ),
    }
}

/// The dispatcher's reaction to the exit status of the process it last
/// asked for: the next state and the effects to perform. A failing build
/// discards the follow-up step; nothing is ever spawned after a failure.
pub open spec fn spec_step(m: MachineModel, success: bool) -> (MachineModel, EffectsModel) {
    match m {
        MachineModel::Done => (
            MachineModel::Done,
            EffectsModel { prints: Seq::<Seq<char>>::empty(), spawn: None },
        ),
        MachineModel::Building { follow } => {
            if success {
                match follow {
                    None => (
                        MachineModel::Done,
                        EffectsModel { prints: seq!["Success."@], spawn: None },
                    ),
                    Some(f) => (
                        MachineModel::Running,
                        EffectsModel {
                            prints: seq!["Success."@] + spec_follow_prints(f),
                            spawn: Some(spec_follow_cmd(f)),
                        },
                    ),
                }
            } else {
                match follow {
                    None => (
                        MachineModel::Done,
                        EffectsModel { prints: seq!["Build failed."@], spawn: None },
                    ),
                    Some(_) => (
                        MachineModel::Done,
                        EffectsModel { prints: seq!["Failed."@], spawn: None },
                    ),
                }
            }
        },
        MachineModel::Running => (
            MachineModel::Done,
            EffectsModel {
                prints: if success {
                    seq!["Success."@]
                } else {
                    seq!["Failed."@]
                },
                spawn: None,
            },
        ),
    }
}

/// Resolves an optional flag value against its default.
pub fn resolve_default(opt: &Option<String>, default: &str) -> (r: String)
    ensures
        r@ == spec_or_default(opt.deep_view(), default@),
{
    match opt {
        Some(s) => s.clone(),
        None => String::from_str(default),
    }
}

/// The glob pattern for the test files of `test`, for the caller to expand.
pub fn test_glob_pattern() -> (r: String)
    ensures
        r@ == spec_test_glob_pattern(),
{
    String::from_str("./test/**/*.purs")
}

/// Whether the caller must expand the test-file pattern before `start`:
/// only `test` consumes the expansion.
pub fn needs_test_paths(inv: &Invocation) -> (b: bool)
    ensures
        b == (inv@ is Test),
{
    match inv {
        Invocation::Test { .. } => true,
        _ => false,
    }
}

/// The message reported for an unrecognized subcommand token.
pub fn unknown_task_message(task: &str) -> (r: String)
    ensures
        r@ == spec_unknown_message(task@),
{
    let mut r = String::from_str("Unknown task: \"");
    r.append(task);
    r.append("\"");
    r
}

/// Builds the command a follow-up step spawns.
fn follow_command(f: &FollowUp) -> (c: Cmd)
    ensures
        c@ == spec_follow_cmd(f@),
{
    match f {
        FollowUp::Node { main } => node_command(main.as_str()),
        FollowUp::Bundle { main, output, source_maps } => bundle_command(
            main.as_str(),
            output.as_str(),
            *source_maps,
        ),
    }
}

/// Builds the lines printed as a build step starts.
fn build_prints(dependencies_only: bool) -> (v: Vec<String>)
    ensures
        v.deep_view() == spec_build_prints(dependencies_only),
{
    let mut v: Vec<String> = Vec::new();
    if dependencies_only {
        v.push(String::from_str("Building with dependencies only"));
    }
    v.push(String::from_str("Building..."));
    proof {
        assert(v.deep_view() =~~= spec_build_prints(dependencies_only));
    }
    v
}

/// Builds the lines printed as a follow-up step starts.
fn follow_prints(f: &FollowUp) -> (v: Vec<String>)
    ensures
        v.deep_view() == spec_follow_prints(f@),
{
    let mut v: Vec<String> = Vec::new();
    match f {
        FollowUp::Node { .. } => {},
        FollowUp::Bundle { .. } => {
            v.push(String::from_str("Bundling..."));
        },
    }
    proof {
        assert(v.deep_view() =~~= spec_follow_prints(f@));
    }
    v
}

/// Starts the dispatcher on a parsed invocation. `test_paths` must hold
/// the expansion of the test-file glob pattern when the invocation is
/// `test` (see `needs_test_paths`); it is ignored otherwise. The returned
/// effects are performed by the caller: print the lines in order, then, if
/// a command is present, spawn it, wait, and report its status through
/// `on_status`.
pub fn start(inv: &Invocation, test_paths: &Vec<String>) -> (r: (Machine, Effects))
    ensures
        r.0@ == spec_start(inv@, test_paths.deep_view()).0,
        r.1@ == spec_start(inv@, test_paths.deep_view()).1,
{
    match inv {
        Invocation::Build { dependencies_only } => {
            let empty: Vec<String> = Vec::new();
            proof {
                assert(empty.deep_view() =~~= Seq::<Seq<char>>::empty());
            }
            let r = (
                Machine::Building { follow: None },
                Effects {
                    prints: build_prints(*dependencies_only),
                    spawn: Some(psc_package_command(*dependencies_only, &empty)),
                },
            );
            proof {
                assert(r.1@ =~~= spec_start(inv@, test_paths.deep_view()).1);
            }
            r
        },
        Invocation::NoCommand => {
            let empty: Vec<String> = Vec::new();
            proof {
                assert(empty.deep_view() =~~= Seq::<Seq<char>>::empty());
            }
            let r = (
                Machine::Building { follow: None },
                Effects {
                    prints: build_prints(false),
                    spawn: Some(psc_package_command(false, &empty)),
                },
            );
            proof {
                assert(r.1@ =~~= spec_start(inv@, test_paths.deep_view()).1);
            }
            r
        },
        Invocation::Test { main, skip_build } => {
            let follow = FollowUp::Node { main: resolve_default(main, "Test.Main") };
            let r = if *skip_build {
                let prints = follow_prints(&follow);
                let cmd = follow_command(&follow);
                (Machine::Running, Effects { prints, spawn: Some(cmd) })
            } else {
                (
                    Machine::Building { follow: Some(follow) },
                    Effects {
                        prints: build_prints(false),
                        spawn: Some(psc_package_command(false, test_paths)),
                    },
                )
            };
            proof {
                assert(r.1@ =~~= spec_start(inv@, test_paths.deep_view()).1);
            }
            r
        },
        Invocation::Run { main, skip_build } => {
            let follow = FollowUp::Node { main: resolve_default(main, "Main") };
            let r = if *skip_build {
                let prints = follow_prints(&follow);
                let cmd = follow_command(&follow);
                (Machine::Running, Effects { prints, spawn: Some(cmd) })
            } else {
                let empty: Vec<String> = Vec::new();
                proof {
                    assert(empty.deep_view() =~~= Seq::<Seq<char>>::empty());
                }
                (
                    Machine::Building { follow: Some(follow) },
                    Effects {
                        prints: build_prints(false),
                        spawn: Some(psc_package_command(false, &empty)),
                    },
                )
            };
            proof {
                assert(r.1@ =~~= spec_start(inv@, test_paths.deep_view()).1);
            }
            r
        },
        Invocation::Bundle { main, output, source_maps, skip_build } => {
            let follow = FollowUp::Bundle {
                main: resolve_default(main, "Main"),
                output: resolve_default(output, "index.js"),
                source_maps: *source_maps,
            };
            let r = if *skip_build {
                let prints = follow_prints(&follow);
                let cmd = follow_command(&follow);
                (Machine::Running, Effects { prints, spawn: Some(cmd) })
            } else {
                let empty: Vec<String> = Vec::new();
                proof {
                    assert(empty.deep_view() =~~= Seq::<Seq<char>>::empty());
                }
                (
                    Machine::Building { follow: Some(follow) },
                    Effects {
                        prints: build_prints(false),
                        spawn: Some(psc_package_command(false, &empty)),
                    },
                )
            };
            proof {
                assert(r.1@ =~~= spec_start(inv@, test_paths.deep_view()).1);
            }
            r
        },
        Invocation::Unknown { task } => {
            let mut prints: Vec<String> = Vec::new();
            prints.push(unknown_task_message(task.as_str()));
            let r = (Machine::Done, Effects { prints, spawn: None });
            proof {
                assert(r.1@ =~~= spec_start(inv@, test_paths.deep_view()).1);
            }
            r
        },
    }
}

/// Feeds the exit status of the last spawned process back to the
/// dispatcher. A failing build reports failure and ends the run without
/// spawning the dependent step; a successful build hands out the
/// follow-up command, if the invocation had one.
pub fn on_status(m: Machine, success: bool) -> (r: (Machine, Effects))
    ensures
        r.0@ == spec_step(m@, success).0,
        r.1@ == spec_step(m@, success).1,
{
    match m {
        Machine::Done => {
            let r = (Machine::Done, Effects { prints: Vec::new(), spawn: None });
            proof {
                assert(r.1@ =~~= spec_step(m@, success).1);
            }
            r
        },
        Machine::Building { follow } => {
            if success {
                match follow {
                    None => {
                        let mut prints: Vec<String> = Vec::new();
                        prints.push(String::from_str("Success."));
                        let r = (Machine::Done, Effects { prints, spawn: None });
                        proof {
                            assert(r.1@ =~~= spec_step(m@, success).1);
                        }
                        r
                    },
                    Some(f) => {
                        let mut prints: Vec<String> = Vec::new();
                        prints.push(String::from_str("Success."));
                        // `test` and `run` add nothing here; `bundle` announces itself.
                        match &f {
                            FollowUp::Node { .. } => {},
                            FollowUp::Bundle { .. } => {
                                prints.push(String::from_str("Bundling..."));
                            },
                        }
                        let cmd = follow_command(&f);
                        let r = (Machine::Running, Effects { prints, spawn: Some(cmd) });
                        proof {
                            assert(r.1@ =~~= spec_step(m@, success).1);
                        }
                        r
                    },
                }
            } else {
                let mut prints: Vec<String> = Vec::new();
                match &follow {
                    None => prints.push(String::from_str("Build failed.")),
                    Some(_) => prints.push(String::from_str("Failed.")),
                }
                let r = (Machine::Done, Effects { prints, spawn: None });
                proof {
                    assert(r.1@ =~~= spec_step(m@, success).1);
                }
                r
            }
        },
        Machine::Running => {
            let mut prints: Vec<String> = Vec::new();
            if success {
                prints.push(String::from_str("Success."));
            } else {
                prints.push(String::from_str("Failed."));
            }
            let r = (Machine::Done, Effects { prints, spawn: None });
            proof {
                assert(r.1@ =~~= spec_step(m@, success).1);
            }
            r
        },
    }
}

} // verus!
