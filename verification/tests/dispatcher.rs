//! Whole runs of the dispatcher on concrete invocations: which processes
//! are asked for, in which order, and what is printed.

use purp::dispatch::{
    needs_test_paths, on_status, resolve_default, start, test_glob_pattern, unknown_task_message,
    Invocation, Machine,
};

fn no_paths() -> Vec<String> {
    Vec::new()
}

#[test]
fn build_prints_and_spawns_build_tool() {
    let inv = Invocation::Build {
        dependencies_only: false,
    };
    let (m, fx) = start(&inv, &no_paths());
    assert!(matches!(m, Machine::Building { .. }));
    assert_eq!(fx.prints, vec!["Building...".to_string()]);
    let cmd = fx.spawn.expect("build must spawn the build tool");
    assert_eq!(cmd.program, "psc-package");
    assert_eq!(cmd.args, vec!["build".to_string(), "--".to_string()]);
}

#[test]
fn build_dependencies_only_announces_itself() {
    let inv = Invocation::Build {
        dependencies_only: true,
    };
    let (_, fx) = start(&inv, &no_paths());
    assert_eq!(
        fx.prints,
        vec![
            "Building with dependencies only".to_string(),
            "Building...".to_string(),
        ]
    );
    let cmd = fx.spawn.expect("build must spawn the build tool");
    assert_eq!(
        cmd.args,
        vec!["build".to_string(), "-d".to_string(), "--".to_string()]
    );
}

#[test]
fn build_success_reports_and_stops() {
    let inv = Invocation::Build {
        dependencies_only: false,
    };
    let (m, _) = start(&inv, &no_paths());
    let (m2, fx2) = on_status(m, true);
    assert!(matches!(m2, Machine::Done));
    assert_eq!(fx2.prints, vec!["Success.".to_string()]);
    assert!(fx2.spawn.is_none());
}

#[test]
fn build_failure_reports_build_failed() {
    let inv = Invocation::Build {
        dependencies_only: false,
    };
    let (m, _) = start(&inv, &no_paths());
    let (m2, fx2) = on_status(m, false);
    assert!(matches!(m2, Machine::Done));
    assert_eq!(fx2.prints, vec!["Build failed.".to_string()]);
    assert!(fx2.spawn.is_none());
}

#[test]
fn no_subcommand_behaves_as_plain_build() {
    let (m_none, fx_none) = start(&Invocation::NoCommand, &no_paths());
    let (m_build, fx_build) = start(
        &Invocation::Build {
            dependencies_only: false,
        },
        &no_paths(),
    );
    assert!(matches!(m_none, Machine::Building { follow: None }));
    assert!(matches!(m_build, Machine::Building { follow: None }));
    assert_eq!(fx_none.prints, fx_build.prints);
    let c_none = fx_none.spawn.unwrap();
    let c_build = fx_build.spawn.unwrap();
    assert_eq!(c_none.program, c_build.program);
    assert_eq!(c_none.args, c_build.args);
}

#[test]
fn test_forwards_globbed_paths_to_build_tool() {
    let paths = vec![
        "./test/Main.purs".to_string(),
        "./test/Deep/More.purs".to_string(),
    ];
    let inv = Invocation::Test {
        main: None,
        skip_build: false,
    };
    let (_, fx) = start(&inv, &paths);
    let cmd = fx.spawn.expect("test must spawn the build tool first");
    assert_eq!(cmd.program, "psc-package");
    assert_eq!(
        cmd.args,
        vec![
            "build".to_string(),
            "--".to_string(),
            "./test/Main.purs".to_string(),
            "./test/Deep/More.purs".to_string(),
        ]
    );
}

#[test]
fn test_build_success_runs_default_test_main() {
    let inv = Invocation::Test {
        main: None,
        skip_build: false,
    };
    let (m, _) = start(&inv, &no_paths());
    let (m2, fx2) = on_status(m, true);
    assert!(matches!(m2, Machine::Running));
    assert_eq!(fx2.prints, vec!["Success.".to_string()]);
    let cmd = fx2.spawn.expect("a successful build must hand out the runtime step");
    assert_eq!(cmd.program, "node");
    assert_eq!(cmd.args[1], "require('./output/Test.Main').main()");
    let (m3, fx3) = on_status(m2, true);
    assert!(matches!(m3, Machine::Done));
    assert_eq!(fx3.prints, vec!["Success.".to_string()]);
    assert!(fx3.spawn.is_none());
}

#[test]
fn test_build_failure_never_runs_node() {
    let inv = Invocation::Test {
        main: None,
        skip_build: false,
    };
    let (m, _) = start(&inv, &no_paths());
    let (m2, fx2) = on_status(m, false);
    assert!(matches!(m2, Machine::Done));
    assert_eq!(fx2.prints, vec!["Failed.".to_string()]);
    assert!(fx2.spawn.is_none());
}

#[test]
fn test_skip_build_goes_straight_to_node() {
    let inv = Invocation::Test {
        main: None,
        skip_build: true,
    };
    let (m, fx) = start(&inv, &no_paths());
    assert!(matches!(m, Machine::Running));
    assert_eq!(fx.prints, Vec::<String>::new());
    let cmd = fx.spawn.expect("skip-build still runs the runtime step");
    assert_eq!(cmd.program, "node");
    let (m2, fx2) = on_status(m, false);
    assert!(matches!(m2, Machine::Done));
    assert_eq!(fx2.prints, vec!["Failed.".to_string()]);
    assert!(fx2.spawn.is_none());
}

#[test]
fn run_defaults_to_main_module() {
    let inv = Invocation::Run {
        main: None,
        skip_build: true,
    };
    let (_, fx) = start(&inv, &no_paths());
    let cmd = fx.spawn.unwrap();
    assert_eq!(cmd.program, "node");
    assert_eq!(
        cmd.args,
        vec![
            "-e".to_string(),
            "require('./output/Main').main()".to_string(),
        ]
    );
}

#[test]
fn run_uses_given_main_module() {
    let inv = Invocation::Run {
        main: Some("App.Entry".to_string()),
        skip_build: true,
    };
    let (_, fx) = start(&inv, &no_paths());
    let cmd = fx.spawn.unwrap();
    assert_eq!(cmd.args[1], "require('./output/App.Entry').main()");
}

#[test]
fn run_without_skip_builds_first_with_no_paths() {
    let inv = Invocation::Run {
        main: None,
        skip_build: false,
    };
    let (m, fx) = start(&inv, &no_paths());
    assert!(matches!(m, Machine::Building { follow: Some(_) }));
    assert_eq!(fx.prints, vec!["Building...".to_string()]);
    let cmd = fx.spawn.unwrap();
    assert_eq!(cmd.program, "psc-package");
    assert_eq!(cmd.args, vec!["build".to_string(), "--".to_string()]);
}

#[test]
fn bundle_defaults_main_and_output() {
    let inv = Invocation::Bundle {
        main: None,
        output: None,
        source_maps: false,
        skip_build: true,
    };
    let (m, fx) = start(&inv, &no_paths());
    assert!(matches!(m, Machine::Running));
    assert_eq!(fx.prints, vec!["Bundling...".to_string()]);
    let cmd = fx.spawn.unwrap();
    assert_eq!(cmd.program, "purs");
    assert_eq!(
        cmd.args,
        vec![
            "bundle".to_string(),
            "./output/*/*.js".to_string(),
            "--module".to_string(),
            "Main".to_string(),
            "--main".to_string(),
            "Main".to_string(),
            "--output".to_string(),
            "index.js".to_string(),
        ]
    );
}

#[test]
fn bundle_after_successful_build_announces_and_spawns() {
    let inv = Invocation::Bundle {
        main: Some("App".to_string()),
        output: Some("dist/app.js".to_string()),
        source_maps: true,
        skip_build: false,
    };
    let (m, fx) = start(&inv, &no_paths());
    assert_eq!(fx.prints, vec!["Building...".to_string()]);
    assert_eq!(fx.spawn.unwrap().program, "psc-package");
    let (m2, fx2) = on_status(m, true);
    assert!(matches!(m2, Machine::Running));
    assert_eq!(
        fx2.prints,
        vec!["Success.".to_string(), "Bundling...".to_string()]
    );
    let cmd = fx2.spawn.unwrap();
    assert_eq!(cmd.program, "purs");
    assert_eq!(cmd.args[3], "App");
    assert_eq!(cmd.args[5], "App");
    assert_eq!(cmd.args[7], "dist/app.js");
    assert_eq!(cmd.args[8], "--source-maps");
}

#[test]
fn bundle_build_failure_never_bundles() {
    let inv = Invocation::Bundle {
        main: None,
        output: None,
        source_maps: false,
        skip_build: false,
    };
    let (m, _) = start(&inv, &no_paths());
    let (m2, fx2) = on_status(m, false);
    assert!(matches!(m2, Machine::Done));
    assert_eq!(fx2.prints, vec!["Failed.".to_string()]);
    assert!(fx2.spawn.is_none());
}

#[test]
fn unknown_task_spawns_nothing_and_names_token() {
    let inv = Invocation::Unknown {
        task: "frobnicate".to_string(),
    };
    let (m, fx) = start(&inv, &no_paths());
    assert!(matches!(m, Machine::Done));
    assert!(fx.spawn.is_none());
    assert_eq!(fx.prints, vec!["Unknown task: \"frobnicate\"".to_string()]);
}

#[test]
fn done_machine_asks_for_nothing_more() {
    let (m, fx) = on_status(Machine::Done, true);
    assert!(matches!(m, Machine::Done));
    assert!(fx.prints.is_empty());
    assert!(fx.spawn.is_none());
}

#[test]
fn glob_pattern_targets_test_tree() {
    assert_eq!(test_glob_pattern(), "./test/**/*.purs");
}

#[test]
fn only_test_needs_the_glob_expansion() {
    assert!(needs_test_paths(&Invocation::Test {
        main: None,
        skip_build: false
    }));
    assert!(!needs_test_paths(&Invocation::Run {
        main: None,
        skip_build: false
    }));
    assert!(!needs_test_paths(&Invocation::Build {
        dependencies_only: false
    }));
    assert!(!needs_test_paths(&Invocation::NoCommand));
}

#[test]
fn resolve_default_prefers_the_given_value() {
    assert_eq!(
        resolve_default(&Some("Custom".to_string()), "Main"),
        "Custom"
    );
    assert_eq!(resolve_default(&None, "Main"), "Main");
}

#[test]
fn unknown_task_message_quotes_the_token() {
    assert_eq!(unknown_task_message("watch"), "Unknown task: \"watch\"");
    assert_eq!(unknown_task_message(""), "Unknown task: \"\"");
}
