//! The dispatcher's guarantees, stated over whole runs. A run is modeled
//! by the trace of every process it spawns and every line it prints, as a
//! function of the invocation, the expanded test paths, and the exit
//! statuses the spawned processes report.

use vstd::prelude::*;

use crate::command::{spec_build_cmd, spec_bundle_cmd, spec_node_cmd, CmdModel};
use crate::dispatch::{
    spec_default_main, spec_default_output, spec_default_test_main, spec_follow_cmd,
    spec_or_default, spec_start, spec_step, spec_unknown_message, EffectsModel, FollowUpModel,
    InvocationModel, MachineModel,
};

verus! {

/// Everything observable about one run: the commands spawned and the
/// lines printed, each in order.
#[verifier::ext_equal]
pub struct TraceModel {
    pub spawned: Seq<CmdModel>,
    pub printed: Seq<Seq<char>>,
}

/// The commands one step asks the caller to spawn: none or one.
pub open spec fn spec_spawns(e: EffectsModel) -> Seq<CmdModel> {
    match e.spawn {
        Some(c) => seq![c],
        None => Seq::<CmdModel>::empty(),
    }
}

/// The remainder of a run from state `m`, when the spawned processes
/// report the statuses in `statuses`, in order. A run whose statuses run
/// out is truncated there.
pub open spec fn spec_run_from(m: MachineModel, statuses: Seq<bool>) -> TraceModel
    decreases statuses.len(),
{
    if m is Done || statuses.len() == 0 {
        TraceModel { spawned: Seq::<CmdModel>::empty(), printed: Seq::<Seq<char>>::empty() }
    } else {
        let next = spec_step(m, statuses[0]);
        let rest = spec_run_from(next.0, statuses.drop_first());
        TraceModel {
            spawned: spec_spawns(next.1) + rest.spawned,
            printed: next.1.prints + rest.printed,
        }
    }
}

/// The whole run of one invocation.
pub open spec fn spec_run(
    inv: InvocationModel,
    test_paths: Seq<Seq<char>>,
    statuses: Seq<bool>,
) -> TraceModel {
    let first = spec_start(inv, test_paths);
    let rest = spec_run_from(first.0, statuses);
    TraceModel {
        spawned: spec_spawns(first.1) + rest.spawned,
        printed: first.1.prints + rest.printed,
    }
}

/// Whether the invocation begins with a build step: every subcommand but
/// an unrecognized one, unless skip-build is set.
pub open spec fn spec_runs_build_first(inv: InvocationModel) -> bool {
    match inv {
        InvocationModel::Build { .. } => true,
        InvocationModel::NoCommand => true,
        InvocationModel::Test { skip_build, .. } => !skip_build,
        InvocationModel::Run { skip_build, .. } => !skip_build,
        InvocationModel::Bundle { skip_build, .. } => !skip_build,
        InvocationModel::Unknown { .. } => false,
    }
}

/// Whether the invocation bypasses the build step by request.
pub open spec fn spec_skips_build(inv: InvocationModel) -> bool {
    match inv {
        InvocationModel::Test { skip_build, .. } => skip_build,
        InvocationModel::Run { skip_build, .. } => skip_build,
        InvocationModel::Bundle { skip_build, .. } => skip_build,
        _ => false,
    }
}

/// The step that follows the invocation's build step, with its defaults
/// resolved; `None` where nothing follows.
pub open spec fn spec_follow_of(inv: InvocationModel) -> Option<FollowUpModel> {
    match inv {
        InvocationModel::Test { main, .. } => Some(
            FollowUpModel::Node { main: spec_or_default(main, spec_default_test_main()) },
        ),
        InvocationModel::Run { main, .. } => Some(
            FollowUpModel::Node { main: spec_or_default(main, spec_default_main()) },
        ),
        InvocationModel::Bundle { main, output, source_maps, .. } => Some(
            FollowUpModel::Bundle {
                main: spec_or_default(main, spec_default_main()),
                output: spec_or_default(output, spec_default_output()),
                source_maps: source_maps,
            },
        ),
        _ => None,
    }
}

/// When the build step runs and the build tool reports failure, the
/// dependent runtime or bundler step is never invoked: the run spawns
/// exactly the one build-tool process, and its last printed line reports
/// the failure — `Build failed.` where nothing was to follow, `Failed.`
/// where a dependent step was discarded.
pub proof fn lemma_build_failure_stops_run(
    inv: InvocationModel,
    test_paths: Seq<Seq<char>>,
    statuses: Seq<bool>,
)
    requires
        spec_runs_build_first(inv),
        statuses.len() >= 1,
        !statuses[0],
    ensures
        spec_run(inv, test_paths, statuses).spawned.len() == 1,
        spec_run(inv, test_paths, statuses).spawned[0].program == "psc-package"@,
        spec_run(inv, test_paths, statuses).printed == spec_start(inv, test_paths).1.prints + (
        if spec_follow_of(inv) is Some {
            seq!["Failed."@]
        } else {
            seq!["Build failed."@]
        }),
{
    let first = spec_start(inv, test_paths);
    assert(first.0 is Building);
    assert(spec_step(first.0, statuses[0]).0 is Done);
    assert(spec_step(first.0, statuses[0]).1.spawn is None);
    assert(spec_run_from(spec_step(first.0, statuses[0]).0, statuses.drop_first()).spawned
        =~= Seq::<CmdModel>::empty());
    assert(spec_run_from(spec_step(first.0, statuses[0]).0, statuses.drop_first()).printed
        =~= Seq::<Seq<char>>::empty());
    assert(spec_run_from(first.0, statuses).spawned =~= Seq::<CmdModel>::empty());
    assert(spec_run(inv, test_paths, statuses).spawned =~= spec_spawns(first.1));
    assert(spec_run_from(first.0, statuses).printed =~= spec_step(first.0, statuses[0]).1.prints);
    if spec_follow_of(inv) is Some {
        assert(first.0 == (MachineModel::Building { follow: Some(spec_follow_of(inv)->Some_0) }));
        assert(spec_step(first.0, statuses[0]).1.prints =~= seq!["Failed."@]);
    } else {
        assert(first.0 == (MachineModel::Building { follow: None::<FollowUpModel> }));
        assert(spec_step(first.0, statuses[0]).1.prints =~= seq!["Build failed."@]);
    }
    assert(spec_run(inv, test_paths, statuses).printed =~= spec_start(inv, test_paths).1.prints + (
    if spec_follow_of(inv) is Some {
        seq!["Failed."@]
    } else {
        seq!["Build failed."@]
    }));
}

/// When skip-build is set, the build tool is never invoked, whatever
/// statuses come back: the run spawns exactly one process, the dependent
/// step's own, and its program is the runtime or the bundler.
pub proof fn lemma_skip_build_never_builds(
    inv: InvocationModel,
    test_paths: Seq<Seq<char>>,
    statuses: Seq<bool>,
)
    requires
        spec_skips_build(inv),
    ensures
        spec_run(inv, test_paths, statuses).spawned.len() == 1,
        spec_run(inv, test_paths, statuses).spawned[0] == spec_follow_cmd(
            spec_follow_of(inv)->Some_0,
        ),
        spec_run(inv, test_paths, statuses).spawned[0].program == "node"@
            || spec_run(inv, test_paths, statuses).spawned[0].program == "purs"@,
        spec_run(inv, test_paths, statuses).spawned[0].program != "psc-package"@,
{
    let first = spec_start(inv, test_paths);
    assert(first.0 is Running);
    if statuses.len() > 0 {
        assert(spec_step(first.0, statuses[0]).0 is Done);
        assert(spec_step(first.0, statuses[0]).1.spawn is None);
        assert(spec_run_from(spec_step(first.0, statuses[0]).0, statuses.drop_first()).spawned
            =~= Seq::<CmdModel>::empty());
    }
    assert(spec_run_from(first.0, statuses).spawned =~= Seq::<CmdModel>::empty());
    assert(spec_run(inv, test_paths, statuses).spawned =~= spec_spawns(first.1));
    reveal_strlit("psc-package");
    reveal_strlit("node");
    reveal_strlit("purs");
    assert("node"@.len() == 4 && "purs"@.len() == 4 && "psc-package"@.len() == 11);
}

/// When the build step runs and the build tool succeeds, the run's second
/// spawn is exactly the invocation's dependent step, defaults resolved —
/// and there is no third.
pub proof fn lemma_build_success_runs_follow(
    inv: InvocationModel,
    test_paths: Seq<Seq<char>>,
    statuses: Seq<bool>,
)
    requires
        spec_runs_build_first(inv),
        spec_follow_of(inv) is Some,
        statuses.len() >= 1,
        statuses[0],
    ensures
        spec_run(inv, test_paths, statuses).spawned.len() == 2,
        spec_run(inv, test_paths, statuses).spawned[1] == spec_follow_cmd(
            spec_follow_of(inv)->Some_0,
        ),
{
    let first = spec_start(inv, test_paths);
    let f = spec_follow_of(inv)->Some_0;
    assert(first.0 == MachineModel::Building { follow: Some(f) });
    let second = spec_step(first.0, statuses[0]);
    assert(second.0 is Running);
    assert(second.1.spawn == Some(spec_follow_cmd(f)));
    let rest2 = statuses.drop_first();
    if rest2.len() > 0 {
        assert(spec_step(second.0, rest2[0]).0 is Done);
        assert(spec_step(second.0, rest2[0]).1.spawn is None);
        assert(spec_run_from(spec_step(second.0, rest2[0]).0, rest2.drop_first()).spawned
            =~= Seq::<CmdModel>::empty());
    }
    assert(spec_run_from(second.0, rest2).spawned =~= Seq::<CmdModel>::empty());
    assert(spec_run_from(first.0, statuses).spawned =~= seq![spec_follow_cmd(f)]);
    assert(spec_run(inv, test_paths, statuses).spawned =~= spec_spawns(first.1) + seq![
        spec_follow_cmd(f),
    ]);
}

/// For `test` without skip-build, the build tool receives exactly the
/// expanded test paths, unchanged and in order, as its trailing arguments
/// after `build` and `--` — so also as an unordered set.
pub proof fn lemma_test_paths_forwarded(
    main: Option<Seq<char>>,
    test_paths: Seq<Seq<char>>,
    statuses: Seq<bool>,
)
    ensures
        spec_run(
            InvocationModel::Test { main, skip_build: false },
            test_paths,
            statuses,
        ).spawned.len() >= 1,
        spec_run(InvocationModel::Test { main, skip_build: false }, test_paths, statuses).spawned[0]
            == spec_build_cmd(false, test_paths),
        spec_build_cmd(false, test_paths).args.skip(2) == test_paths,
        spec_build_cmd(false, test_paths).args.skip(2).to_multiset() == test_paths.to_multiset(),
{
    let inv = InvocationModel::Test { main, skip_build: false };
    let first = spec_start(inv, test_paths);
    assert(first.1.spawn == Some(spec_build_cmd(false, test_paths)));
    assert(spec_run(inv, test_paths, statuses).spawned[0] == spec_build_cmd(false, test_paths));
    assert(spec_build_cmd(false, test_paths).args.skip(2) =~= test_paths);
}

/// The bundler's argument list places the module name after `--module`
/// and again after `--main`, and the output path after `--output`.
pub proof fn lemma_bundle_cmd_structure(main: Seq<char>, output: Seq<char>, source_maps: bool)
    ensures
        spec_bundle_cmd(main, output, source_maps).program == "purs"@,
        spec_bundle_cmd(main, output, source_maps).args[2] == "--module"@,
        spec_bundle_cmd(main, output, source_maps).args[3] == main,
        spec_bundle_cmd(main, output, source_maps).args[4] == "--main"@,
        spec_bundle_cmd(main, output, source_maps).args[5] == main,
        spec_bundle_cmd(main, output, source_maps).args[6] == "--output"@,
        spec_bundle_cmd(main, output, source_maps).args[7] == output,
{
}

/// For `bundle` with `--main` and `--output` absent, the bundler is
/// invoked with output path `index.js`, and `--module` and `--main` both
/// receive the default module name `Main`.
pub proof fn lemma_bundle_defaults(
    source_maps: bool,
    test_paths: Seq<Seq<char>>,
    statuses: Seq<bool>,
)
    requires
        statuses.len() >= 1,
        statuses[0],
    ensures
        spec_run(
            InvocationModel::Bundle { main: None, output: None, source_maps, skip_build: false },
            test_paths,
            statuses,
        ).spawned.len() == 2,
        spec_run(
            InvocationModel::Bundle { main: None, output: None, source_maps, skip_build: false },
            test_paths,
            statuses,
        ).spawned[1] == spec_bundle_cmd(spec_default_main(), spec_default_output(), source_maps),
        spec_bundle_cmd(spec_default_main(), spec_default_output(), source_maps).args[3]
            == "Main"@,
        spec_bundle_cmd(spec_default_main(), spec_default_output(), source_maps).args[5]
            == "Main"@,
        spec_bundle_cmd(spec_default_main(), spec_default_output(), source_maps).args[7]
            == "index.js"@,
{
    let inv = InvocationModel::Bundle { main: None, output: None, source_maps, skip_build: false };
    lemma_build_success_runs_follow(inv, test_paths, statuses);
    lemma_bundle_cmd_structure(spec_default_main(), spec_default_output(), source_maps);
}

/// For `run` and `test`, an absent `--main` defaults the runtime module
/// to `Main` and `Test.Main` respectively, whether or not the build step
/// is skipped.
pub proof fn lemma_default_main_modules(skip_build: bool, test_paths: Seq<Seq<char>>)
    ensures
        spec_follow_of((InvocationModel::Run { main: None, skip_build })) == Some(
            (FollowUpModel::Node { main: "Main"@ }),
        ),
        spec_follow_of((InvocationModel::Test { main: None, skip_build })) == Some(
            (FollowUpModel::Node { main: "Test.Main"@ }),
        ),
        skip_build ==> spec_start(
            (InvocationModel::Run { main: None, skip_build }),
            test_paths,
        ).1.spawn == Some(spec_node_cmd("Main"@)),
        skip_build ==> spec_start(
            (InvocationModel::Test { main: None, skip_build }),
            test_paths,
        ).1.spawn == Some(spec_node_cmd("Test.Main"@)),
        !skip_build ==> spec_start((InvocationModel::Run { main: None, skip_build }), test_paths).0
            == (MachineModel::Building { follow: Some((FollowUpModel::Node { main: "Main"@ })) }),
        !skip_build ==> spec_start((InvocationModel::Test { main: None, skip_build }), test_paths).0
            == (MachineModel::Building {
            follow: Some((FollowUpModel::Node { main: "Test.Main"@ })),
        }),
{
}

/// Giving no subcommand behaves exactly as `build` with
/// `dependencies-only` unset: the whole runs coincide.
pub proof fn lemma_no_subcommand_is_build(test_paths: Seq<Seq<char>>, statuses: Seq<bool>)
    ensures
        spec_run(InvocationModel::NoCommand, test_paths, statuses) == spec_run(
            InvocationModel::Build { dependencies_only: false },
            test_paths,
            statuses,
        ),
{
    assert(spec_start(InvocationModel::NoCommand, test_paths) == spec_start(
        InvocationModel::Build { dependencies_only: false },
        test_paths,
    ));
}

/// An unrecognized subcommand token spawns no process at all, and the
/// run prints exactly one line: the message naming that token.
pub proof fn lemma_unknown_spawns_nothing(
    task: Seq<char>,
    test_paths: Seq<Seq<char>>,
    statuses: Seq<bool>,
)
    ensures
        spec_run(InvocationModel::Unknown { task }, test_paths, statuses).spawned
            == Seq::<CmdModel>::empty(),
        spec_run(InvocationModel::Unknown { task }, test_paths, statuses).printed == seq![
            spec_unknown_message(task),
        ],
{
    let inv = InvocationModel::Unknown { task };
    let first = spec_start(inv, test_paths);
    assert(first.0 is Done);
    assert(spec_run_from(first.0, statuses).spawned =~= Seq::<CmdModel>::empty());
    assert(spec_run(inv, test_paths, statuses).spawned =~= Seq::<CmdModel>::empty());
    assert(spec_run(inv, test_paths, statuses).printed =~= seq![spec_unknown_message(task)]);
}

/// The unknown-task message holds the offending token itself, verbatim,
/// between the quotes.
pub proof fn lemma_unknown_message_names_token(task: Seq<char>)
    ensures
        spec_unknown_message(task).subrange(
            "Unknown task: \""@.len() as int,
            "Unknown task: \""@.len() + task.len() as int,
        ) == task,
{
    assert(spec_unknown_message(task).subrange(
        "Unknown task: \""@.len() as int,
        "Unknown task: \""@.len() + task.len() as int,
    ) =~= task);
}

} // verus!
