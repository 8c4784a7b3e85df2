//! Descriptions of the external process invocations the tool can make,
//! and the functions that assemble their argument lists.

use vstd::prelude::*;

verus! {

/// One external process invocation: the program to launch and its
/// arguments, in order.
pub struct Cmd {
    pub program: String,
    pub args: Vec<String>,
}

/// The mathematical shape of a `Cmd`: program name and arguments as
/// sequences of characters.
#[verifier::ext_equal]
pub struct CmdModel {
    pub program: Seq<char>,
    pub args: Seq<Seq<char>>,
}

impl View for Cmd {
    type V = CmdModel;

    open spec fn view(&self) -> CmdModel {
        CmdModel { program: self.program@, args: self.args.deep_view() }
    }
}

/// The build-tool invocation: `psc-package build [-d] -- <paths...>`.
/// The given paths come last, unchanged and in order.
pub open spec fn spec_build_cmd(dependencies_only: bool, paths: Seq<Seq<char>>) -> CmdModel {
    CmdModel {
        program: "psc-package"@,
        args: (if dependencies_only {
            seq!["build"@, "-d"@]
        } else {
            seq!["build"@]
        }) + seq!["--"@] + paths,
    }
}

/// The inline script handed to the runtime: it loads the compiled module
/// named `main` from the output directory and calls its entry point.
pub open spec fn spec_node_script(main: Seq<char>) -> Seq<char> {
    "require('./output/"@ + main + "').main()"@
}

/// The runtime invocation: `node -e <script>`.
pub open spec fn spec_node_cmd(main: Seq<char>) -> CmdModel {
    CmdModel { program: "node"@, args: seq!["-e"@, spec_node_script(main)] }
}

/// The bundler invocation: `purs bundle ./output/*/*.js --module <main>
/// --main <main> --output <output> [--source-maps]`. The same module name
/// is handed to both `--module` and `--main`.
pub open spec fn spec_bundle_cmd(main: Seq<char>, output: Seq<char>, source_maps: bool) -> CmdModel {
    CmdModel {
        program: "purs"@,
        args: seq![
            "bundle"@,
            "./output/*/*.js"@,
            "--module"@,
            main,
            "--main"@,
            main,
            "--output"@,
            output,
        ] + (if source_maps {
            seq!["--source-maps"@]
        } else {
            Seq::<Seq<char>>::empty()
        }),
    }
}

/// Pushing a string onto a vector pushes its view onto the vector's
/// deep view.
pub proof fn lemma_deep_view_push(pre: Vec<String>, post: Vec<String>, s: String)
    requires
        post@ == pre@.push(s),
    ensures
        post.deep_view() == pre.deep_view().push(s@),
{
    assert forall|j: int| 0 <= j < post.deep_view().len() implies post.deep_view()[j]
        == pre.deep_view().push(s@)[j] by {
        if j < pre@.len() {
            assert(post@[j] == pre@[j]);
        } else {
            assert(post@[j] == s);
        }
    }
    assert(post.deep_view() =~= pre.deep_view().push(s@));
}

/// Builds the build-tool invocation. `-d` is passed exactly when
/// `dependencies_only` is set, and the given paths are appended after
/// `--` as trailing positional arguments, unchanged and in order.
pub fn psc_package_command(dependencies_only: bool, paths: &Vec<String>) -> (c: Cmd)
    ensures
        c@ == spec_build_cmd(dependencies_only, paths.deep_view()),
{
    let mut args: Vec<String> = Vec::new();
    args.push(String::from_str("build"));
    if dependencies_only {
        args.push(String::from_str("-d"));
    }
    args.push(String::from_str("--"));
    let ghost head: Seq<Seq<char>> = args.deep_view();
    let mut i: usize = 0;
    while i < paths.len()
        invariant
            i <= paths.len(),
            args.deep_view() == head + paths.deep_view().take(i as int),
        decreases paths.len() - i,
    {
        let ghost pre = args;
        args.push(paths[i].clone());
        proof {
            lemma_deep_view_push(pre, args, paths@[i as int]);
            assert(paths.deep_view()[i as int] == paths@[i as int]@);
            assert(args.deep_view() =~= head + paths.deep_view().take(i as int + 1));
        }
        i = i + 1;
    }
    let c = Cmd { program: String::from_str("psc-package"), args };
    proof {
        assert(paths.deep_view().take(paths.len() as int) =~~= paths.deep_view());
        assert(c@ =~~= spec_build_cmd(dependencies_only, paths.deep_view()));
    }
    c
}

/// Builds the runtime invocation for the module named `main`.
pub fn node_command(main: &str) -> (c: Cmd)
    ensures
        c@ == spec_node_cmd(main@),
{
    let mut script = String::from_str("require('./output/");
    script.append(main);
    script.append("').main()");
    let mut args: Vec<String> = Vec::new();
    args.push(String::from_str("-e"));
    args.push(script);
    let c = Cmd { program: String::from_str("node"), args };
    proof {
        assert(c@ =~~= spec_node_cmd(main@));
    }
    c
}

/// Builds the bundler invocation for the module named `main`, writing the
/// bundle to `output`, with source maps exactly when `source_maps` is set.
pub fn bundle_command(main: &str, output: &str, source_maps: bool) -> (c: Cmd)
    ensures
        c@ == spec_bundle_cmd(main@, output@, source_maps),
{
    let mut args: Vec<String> = Vec::new();
    args.push(String::from_str("bundle"));
    args.push(String::from_str("./output/*/*.js"));
    args.push(String::from_str("--module"));
    args.push(String::from_str(main));
    args.push(String::from_str("--main"));
    args.push(String::from_str(main));
    args.push(String::from_str("--output"));
    args.push(String::from_str(output));
    if source_maps {
        args.push(String::from_str("--source-maps"));
    }
    let c = Cmd { program: String::from_str("purs"), args };
    proof {
        assert(c@ =~~= spec_bundle_cmd(main@, output@, source_maps));
    }
    c
}

} // verus!
