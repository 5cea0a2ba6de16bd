//! The compiled-library project kind: toolchain descriptor, package
//! manifest, source layout, and a recursive descriptor exposing the
//! toolchain channel and build-environment variables.

use vstd::prelude::*;
use vstd::string::StringExecFns;
use crate::nix::AttrView;
use crate::nix::LetVarView;
use crate::nix::NixBuilder;
use crate::nix::NixBuilderView;
use crate::nix::NixError;
use crate::nix::NixValueView;
use crate::nix::add_inputs_spec;
use crate::nix::render_text;
use crate::scaffold::FsState;
use crate::scaffold::ScaffoldError;
use crate::scaffold::ScaffoldPlan;
use crate::scaffold::ScaffoldStep;
use crate::scaffold::ScaffoldStepView;
use crate::scaffold::project_path;
use crate::scaffold::project_path_text;
use crate::scaffold::projects_dir;
use crate::scaffold::projects_dir_text;
use crate::scaffold::check_rust_name;
use crate::scaffold::valid_rust_name;

verus! {

broadcast use vstd::string::group_string_axioms;

/// The closed set of supported toolchain channels.
#[derive(Clone, Copy, PartialEq, Eq, Structural, Debug)]
pub enum Toolchain {
    Stable,
    Nightly,
    Beta,
}

/// Arguments of the compiled-library kind: a crate name, the
/// binary/library mode flags, a toolchain channel and package references.
pub struct RustArgs {
    pub name: String,
    pub bin: bool,
    pub lib: bool,
    pub toolchain: Toolchain,
    pub package: Vec<String>,
}

/// The channel label of a toolchain.
pub open spec fn channel_text(t: Toolchain) -> Seq<char> {
    match t {
        Toolchain::Stable => "stable"@,
        Toolchain::Nightly => "nightly"@,
        Toolchain::Beta => "beta"@,
    }
}

/// The channel label of a toolchain.
fn channel_str(t: Toolchain) -> (r: &'static str)
    ensures
        r@ == channel_text(t),
{
    match t {
        Toolchain::Stable => "stable",
        Toolchain::Nightly => "nightly",
        Toolchain::Beta => "beta",
    }
}

/// The ignore-file content of the compiled-library kind.
pub open spec fn gitignore_text() -> Seq<char> {
    "perf.data\nperf.data.old\nflamegraph.svg\n*.fxt\n*.fxt.old\n/target\n"@
}

/// The ignore-file content of the compiled-library kind.
fn gitignore() -> (r: &'static str)
    ensures
        r@ == gitignore_text(),
{
    "perf.data\nperf.data.old\nflamegraph.svg\n*.fxt\n*.fxt.old\n/target\n"
}

/// The toolchain-descriptor content, naming the selected channel.
pub open spec fn toolchain_text(t: Toolchain) -> Seq<char> {
    "[toolchain]\nchannel = \""@ + channel_text(t) + "\"\n"@
}

/// The toolchain-descriptor content, naming the selected channel.
pub fn mktoolchain(args: &RustArgs) -> (r: String)
    ensures
        r@ == toolchain_text(args.toolchain),
{
    let mut r = String::from_str("[toolchain]\nchannel = \"");
    r.append(channel_str(args.toolchain));
    r.append("\"\n");
    r
}

/// The package-manifest content, naming the project.
pub open spec fn cargo_text(name: Seq<char>) -> Seq<char> {
    "[package]\nname = \""@ + name
        + "\"\nversion = \"0.1.0\"\nedition = \"2021\"\n\n[dependencies]"@
}

/// The package-manifest content, naming the project.
pub fn mkcargo(args: &RustArgs) -> (r: String)
    ensures
        r@ == cargo_text(args.name@),
{
    let mut r = String::from_str("[package]\nname = \"");
    r.append(args.name.as_str());
    r.append("\"\nversion = \"0.1.0\"\nedition = \"2021\"\n\n[dependencies]");
    r
}

/// The executable entry file: a comment naming the crate as a reminder,
/// then the fixed greeting program.
pub open spec fn main_text(name: Seq<char>) -> Seq<char> {
    "// crate: "@ + name + "\n\nfn main() {\n    println!(\"hello, world!\");\n}"@
}

/// The executable entry file, written only in binary mode.
pub fn mkmain(args: &RustArgs) -> (r: String)
    requires
        args.bin,
    ensures
        r@ == main_text(args.name@),
{
    let mut r = String::from_str("// crate: ");
    r.append(args.name.as_str());
    r.append("\n\nfn main() {\n    println!(\"hello, world!\");\n}");
    r
}

/// The expression binding the toolchain channel, read back from the
/// just-written toolchain descriptor by file content.
pub open spec fn overrides_text() -> Seq<char> {
    "(builtins.fromTOML (builtins.readFile ./rust-toolchain.toml))"@
}

/// The expression computing the linker search path.
pub open spec fn lib_path_text() -> Seq<char> {
    "with pkgs; lib.makeLibraryPath [\n  # load external libraries that you need in your rust project here\n]"@
}

/// The shell-initialization script that augments the process `PATH` for the
/// toolchain.
pub open spec fn shell_hook_text() -> Seq<char> {
    "\n  export PATH=$PATH:''${CARGO_HOME:-~/.cargo}/bin\n  export PATH=$PATH:''${RUSTUP_HOME:-~/.rustup}/toolchains/$RUSTC_VERSION-x86_64-unknown-linux-gnu/bin/\n  "@
}

/// The compiler-flags expression adding precompiled libraries to the search
/// path.
pub open spec fn rustflags_text() -> Seq<char> {
    "(builtins.map (a: ''-L ${a}/lib'') [\n  # add libraries here (e.g. pkgs.libvmi)\n])"@
}

/// The binding-generator header-search expression.
pub open spec fn bindgen_args_text() -> Seq<char> {
    "\n# header search paths for bindgen\n(builtins.map (a: ''-I\"${a}\"'') [\n  # add dev libraries here (e.g. pkgs.libvmi.dev)\n  pkgs.glibc.dev\n])"@
}

/// The builder state of a compiled-library descriptor: recursive mode, the
/// toolchain and linker-path bindings, the fixed tool inputs followed by the
/// caller's packages, and the build-environment attributes in order.
pub open spec fn shell_state(packages: Seq<Seq<char>>) -> NixBuilderView {
    NixBuilderView {
        rec: true,
        let_vars: seq![
            LetVarView { name: "overrides"@, value: NixValueView::Expr(overrides_text()) },
            LetVarView { name: "libPath"@, value: NixValueView::Expr(lib_path_text()) },
        ],
        inputs: add_inputs_spec(
            add_inputs_spec(
                Seq::<Seq<char>>::empty(),
                seq!["clang"@, "llvmPackages_17.bintools"@, "rustup"@],
            ),
            packages,
        ),
        attrs: seq![
            AttrView {
                key: "RUSTC_VERSION"@,
                value: NixValueView::Expr("overrides.toolchain.channel"@),
                comment: None,
            },
            AttrView {
                key: "LIBCLANG_PATH"@,
                value: NixValueView::Expr(
                    "pkgs.lib.makeLibraryPath [ pkgs.llvmPackages_latest.libclang.lib ]"@,
                ),
                comment: Some("https://github.com/rust-lang/rust-bindgen#environment-variables"@),
            },
            AttrView {
                key: "shellHook"@,
                value: NixValueView::Str(shell_hook_text()),
                comment: None,
            },
            AttrView {
                key: "RUSTFLAGS"@,
                value: NixValueView::Expr(rustflags_text()),
                comment: Some("Add precompiled library to rustc search path"@),
            },
            AttrView {
                key: "LD_LIBRARY_PATH"@,
                value: NixValueView::Expr("libPath"@),
                comment: None,
            },
            AttrView {
                key: "BINDGEN_EXTRA_CLANG_ARGS"@,
                value: NixValueView::Expr(bindgen_args_text()),
                comment: Some("Add glibc, clang, glib, and other headers to bindgen search path"@),
            },
        ],
    }
}

/// The rendered descriptor of a compiled-library project.
pub fn mkshell(args: &RustArgs) -> (r: Result<String, NixError>)
    ensures
        r matches Ok(s) && s@ == render_text(shell_state(args.package.deep_view())),
{
    proof {
        reveal_strlit("buildInputs");
        reveal_strlit("overrides");
        reveal_strlit("libPath");
        reveal_strlit("RUSTC_VERSION");
        reveal_strlit("LIBCLANG_PATH");
        reveal_strlit("shellHook");
        reveal_strlit("RUSTFLAGS");
        reveal_strlit("LD_LIBRARY_PATH");
        reveal_strlit("BINDGEN_EXTRA_CLANG_ARGS");
        assert("overrides"@.len() == 9);
        assert("libPath"@.len() == 7);
        assert("buildInputs"@.len() == 11);
        assert("RUSTC_VERSION"@.len() == 13);
        assert("LIBCLANG_PATH"@.len() == 13);
        assert("shellHook"@.len() == 9);
        assert("RUSTFLAGS"@.len() == 9);
        assert("LD_LIBRARY_PATH"@.len() == 15);
        assert("BINDGEN_EXTRA_CLANG_ARGS"@.len() == 24);
        assert("RUSTC_VERSION"@[0] == 'R');
        assert("LIBCLANG_PATH"@[0] == 'L');
        assert("shellHook"@[0] == 's');
        assert("RUSTFLAGS"@[0] == 'R');
        assert("overrides"@ != "libPath"@);
        assert("RUSTC_VERSION"@ != "buildInputs"@);
        assert("LIBCLANG_PATH"@ != "buildInputs"@);
        assert("shellHook"@ != "buildInputs"@);
        assert("RUSTFLAGS"@ != "buildInputs"@);
        assert("LD_LIBRARY_PATH"@ != "buildInputs"@);
        assert("BINDGEN_EXTRA_CLANG_ARGS"@ != "buildInputs"@);
        assert("LIBCLANG_PATH"@ != "RUSTC_VERSION"@);
        assert("shellHook"@ != "RUSTC_VERSION"@);
        assert("shellHook"@ != "LIBCLANG_PATH"@);
        assert("RUSTFLAGS"@ != "RUSTC_VERSION"@);
        assert("RUSTFLAGS"@ != "LIBCLANG_PATH"@);
        assert("RUSTFLAGS"@ != "shellHook"@);
        assert("LD_LIBRARY_PATH"@ != "RUSTC_VERSION"@);
        assert("LD_LIBRARY_PATH"@ != "LIBCLANG_PATH"@);
        assert("LD_LIBRARY_PATH"@ != "shellHook"@);
        assert("LD_LIBRARY_PATH"@ != "RUSTFLAGS"@);
        assert("BINDGEN_EXTRA_CLANG_ARGS"@ != "RUSTC_VERSION"@);
        assert("BINDGEN_EXTRA_CLANG_ARGS"@ != "LIBCLANG_PATH"@);
        assert("BINDGEN_EXTRA_CLANG_ARGS"@ != "shellHook"@);
        assert("BINDGEN_EXTRA_CLANG_ARGS"@ != "RUSTFLAGS"@);
        assert("BINDGEN_EXTRA_CLANG_ARGS"@ != "LD_LIBRARY_PATH"@);
    }
    let mut nix = NixBuilder::new();
    nix.rec();
    match nix.add_letvar_expr(
        "overrides",
        "(builtins.fromTOML (builtins.readFile ./rust-toolchain.toml))",
    ) {
        Ok(_) => {},
        Err(_) => { return Err(NixError::LetVarSet(String::from_str("overrides"))) },
    }
    match nix.add_letvar_expr(
        "libPath",
        "with pkgs; lib.makeLibraryPath [\n  # load external libraries that you need in your rust project here\n]",
    ) {
        Ok(_) => {},
        Err(_) => { return Err(NixError::LetVarSet(String::from_str("libPath"))) },
    }
    match nix.add_expr_attribute("RUSTC_VERSION", "overrides.toolchain.channel") {
        Ok(_) => {},
        Err(_) => { return Err(NixError::AttrSet(String::from_str("RUSTC_VERSION"))) },
    }
    match nix.add_expr_attribute_comment(
        "LIBCLANG_PATH",
        "pkgs.lib.makeLibraryPath [ pkgs.llvmPackages_latest.libclang.lib ]",
        "https://github.com/rust-lang/rust-bindgen#environment-variables",
    ) {
        Ok(_) => {},
        Err(_) => { return Err(NixError::AttrSet(String::from_str("LIBCLANG_PATH"))) },
    }
    match nix.add_string_attribute(
        "shellHook",
        "\n  export PATH=$PATH:''${CARGO_HOME:-~/.cargo}/bin\n  export PATH=$PATH:''${RUSTUP_HOME:-~/.rustup}/toolchains/$RUSTC_VERSION-x86_64-unknown-linux-gnu/bin/\n  ",
    ) {
        Ok(_) => {},
        Err(_) => { return Err(NixError::AttrSet(String::from_str("shellHook"))) },
    }
    match nix.add_expr_attribute_comment(
        "RUSTFLAGS",
        "(builtins.map (a: ''-L ${a}/lib'') [\n  # add libraries here (e.g. pkgs.libvmi)\n])",
        "Add precompiled library to rustc search path",
    ) {
        Ok(_) => {},
        Err(_) => { return Err(NixError::AttrSet(String::from_str("RUSTFLAGS"))) },
    }
    match nix.add_expr_attribute("LD_LIBRARY_PATH", "libPath") {
        Ok(_) => {},
        Err(_) => { return Err(NixError::AttrSet(String::from_str("LD_LIBRARY_PATH"))) },
    }
    match nix.add_expr_attribute_comment(
        "BINDGEN_EXTRA_CLANG_ARGS",
        "\n# header search paths for bindgen\n(builtins.map (a: ''-I\"${a}\"'') [\n  # add dev libraries here (e.g. pkgs.libvmi.dev)\n  pkgs.glibc.dev\n])",
        "Add glibc, clang, glib, and other headers to bindgen search path",
    ) {
        Ok(_) => {},
        Err(_) => { return Err(NixError::AttrSet(String::from_str("BINDGEN_EXTRA_CLANG_ARGS"))) },
    }
    let mut tools: Vec<String> = Vec::new();
    tools.push(String::from_str("clang"));
    tools.push(String::from_str("llvmPackages_17.bintools"));
    tools.push(String::from_str("rustup"));
    proof {
        assert(tools.deep_view() =~= seq!["clang"@, "llvmPackages_17.bintools"@, "rustup"@]);
    }
    nix.add_build_inputs(&tools);
    nix.add_build_inputs(&args.package);
    proof {
        assert(nix@.let_vars =~= shell_state(args.package.deep_view()).let_vars);
        assert(nix@.attrs =~= shell_state(args.package.deep_view()).attrs);
    }
    Ok(nix.build())
}

/// The steps of a compiled-library project, after the target directory is
/// created: the ignore file, the rendered descriptor, the toolchain
/// descriptor, the package manifest, the `tests` and `src` directories, an
/// empty library entry file, and, in binary mode only, the executable entry
/// file.  Files are create-only.
pub open spec fn steps_spec(
    name: Seq<char>,
    bin: bool,
    toolchain: Toolchain,
    packages: Seq<Seq<char>>,
) -> Seq<ScaffoldStepView> {
    let base = seq![
        ScaffoldStepView::File(".gitignore"@, gitignore_text()),
        ScaffoldStepView::File("shell.nix"@, render_text(shell_state(packages))),
        ScaffoldStepView::File("rust-toolchain.toml"@, toolchain_text(toolchain)),
        ScaffoldStepView::File("Cargo.toml"@, cargo_text(name)),
        ScaffoldStepView::Dir("tests"@),
        ScaffoldStepView::Dir("src"@),
        ScaffoldStepView::File("src/lib.rs"@, Seq::<char>::empty()),
    ];
    if bin {
        base.push(ScaffoldStepView::File("src/main.rs"@, main_text(name)))
    } else {
        base
    }
}

/// Plans a compiled-library project: validates the crate name under the
/// stricter charset, resolves the target directory, and lays out the
/// directories and files to write.  Checks run in the protocol's order, and
/// any failure precedes every filesystem effect.
pub fn create_rust(args: &RustArgs, fs: &FsState) -> (r: Result<ScaffoldPlan, ScaffoldError>)
    ensures
        !valid_rust_name(args.name@) ==> (r matches Err(e) && e is InvalidName),
        valid_rust_name(args.name@) && fs.home is None ==> (r matches Err(e) && e is HomeNotSet),
        fs.home matches Some(h) ==> (valid_rust_name(args.name@) && !fs.projects_dir_exists ==> (
        r matches Err(ScaffoldError::ProjectsDirMissing(p)) && p@ == projects_dir_text(h@))),
        fs.home matches Some(h) ==> (valid_rust_name(args.name@) && fs.projects_dir_exists
            && fs.target_exists ==> (r matches Err(ScaffoldError::TargetExists(p)) && p@
            == project_path_text(h@, args.name@))),
        fs.home matches Some(h) ==> (valid_rust_name(args.name@) && fs.projects_dir_exists
            && !fs.target_exists ==> (r matches Ok(plan) && plan.target_dir@ == project_path_text(
            h@,
            args.name@,
        ) && plan.steps.deep_view() == steps_spec(
            args.name@,
            args.bin,
            args.toolchain,
            args.package.deep_view(),
        ))),
{
    if !check_rust_name(args.name.as_str()) {
        return Err(ScaffoldError::InvalidName);
    }
    let home = match &fs.home {
        Some(h) => h,
        None => { return Err(ScaffoldError::HomeNotSet) },
    };
    if !fs.projects_dir_exists {
        return Err(ScaffoldError::ProjectsDirMissing(projects_dir(home.as_str())));
    }
    let target = project_path(home.as_str(), args.name.as_str());
    if fs.target_exists {
        return Err(ScaffoldError::TargetExists(target));
    }
    let shell = match mkshell(args) {
        Ok(s) => s,
        Err(_) => { return Err(ScaffoldError::InvalidName) },
    };
    let mut steps: Vec<ScaffoldStep> = Vec::new();
    steps.push(
        ScaffoldStep::CreateFile(String::from_str(".gitignore"), String::from_str(gitignore())),
    );
    steps.push(ScaffoldStep::CreateFile(String::from_str("shell.nix"), shell));
    steps.push(
        ScaffoldStep::CreateFile(String::from_str("rust-toolchain.toml"), mktoolchain(args)),
    );
    steps.push(ScaffoldStep::CreateFile(String::from_str("Cargo.toml"), mkcargo(args)));
    steps.push(ScaffoldStep::CreateDir(String::from_str("tests")));
    steps.push(ScaffoldStep::CreateDir(String::from_str("src")));
    steps.push(ScaffoldStep::CreateFile(String::from_str("src/lib.rs"), String::new()));
    if args.bin {
        steps.push(ScaffoldStep::CreateFile(String::from_str("src/main.rs"), mkmain(args)));
    }
    proof {
        assert(steps.deep_view() =~= steps_spec(
            args.name@,
            args.bin,
            args.toolchain,
            args.package.deep_view(),
        ));
    }
    Ok(ScaffoldPlan { target_dir: target, steps })
}

} // verus!
