use mkproj::generic::GenericArgs;
use mkproj::generic::create_generic;
use mkproj::python::PyVersion;
use mkproj::python::PythonArgs;
use mkproj::python::create_python;
use mkproj::rust::RustArgs;
use mkproj::rust::Toolchain;
use mkproj::rust::create_rust;
use mkproj::rust::mkcargo;
use mkproj::rust::mkmain;
use mkproj::rust::mktoolchain;
use mkproj::scaffold::FsState;
use mkproj::scaffold::ScaffoldError;
use mkproj::scaffold::ScaffoldStep;
use mkproj::scaffold::check_generic_name;
use mkproj::scaffold::check_rust_name;
use mkproj::scaffold::project_path;
use mkproj::scaffold::projects_dir;

fn good_fs() -> FsState {
    FsState { home: Some("/home/u".to_string()), projects_dir_exists: true, target_exists: false }
}

fn generic_args(name: &str, packages: &[&str]) -> GenericArgs {
    GenericArgs {
        name: name.to_string(),
        package: packages.iter().map(|p| p.to_string()).collect(),
    }
}

fn python_args(name: &str, version: PyVersion, py: &[&str], packages: &[&str]) -> PythonArgs {
    PythonArgs {
        name: name.to_string(),
        python_version: version,
        python_package: py.iter().map(|p| p.to_string()).collect(),
        package: packages.iter().map(|p| p.to_string()).collect(),
    }
}

fn rust_args(name: &str, bin: bool, toolchain: Toolchain, packages: &[&str]) -> RustArgs {
    RustArgs {
        name: name.to_string(),
        bin,
        lib: !bin,
        toolchain,
        package: packages.iter().map(|p| p.to_string()).collect(),
    }
}

#[test]
fn command() {
    // every kind plans successfully on a sane environment
    let fs = good_fs();
    assert!(create_generic(&generic_args("proj", &[]), &fs).is_ok());
    assert!(create_python(&python_args("proj", PyVersion::Py3_12, &[], &[]), &fs).is_ok());
    assert!(create_rust(&rust_args("proj", false, Toolchain::Stable, &[]), &fs).is_ok());
}

#[test]
fn shell_is_ok() {
    // this tests that NixBuilder works
    let args = rust_args("test_proj", false, Toolchain::Stable, &[]);
    let expected = [
        "{ pkgs ? import <nixpkgs> {} }:",
        "  let",
        "    overrides = (builtins.fromTOML (builtins.readFile ./rust-toolchain.toml));",
        "    libPath = with pkgs; lib.makeLibraryPath [",
        "      # load external libraries that you need in your rust project here",
        "    ];",
        "  in",
        "  pkgs.mkShell rec {",
        "    buildInputs = with pkgs; [",
        "      clang",
        "      llvmPackages_17.bintools",
        "      rustup",
        "    ];",
        "    RUSTC_VERSION = overrides.toolchain.channel;",
        "    # https://github.com/rust-lang/rust-bindgen#environment-variables",
        "    LIBCLANG_PATH = pkgs.lib.makeLibraryPath [ pkgs.llvmPackages_latest.libclang.lib ];",
        "    shellHook = ''",
        "      export PATH=$PATH:''${CARGO_HOME:-~/.cargo}/bin",
        "      export PATH=$PATH:''${RUSTUP_HOME:-~/.rustup}/toolchains/$RUSTC_VERSION-x86_64-unknown-linux-gnu/bin/",
        "      '';",
        "    # Add precompiled library to rustc search path",
        "    RUSTFLAGS = (builtins.map (a: ''-L ${a}/lib'') [",
        "      # add libraries here (e.g. pkgs.libvmi)",
        "    ]);",
        "    LD_LIBRARY_PATH = libPath;",
        "    # Add glibc, clang, glib, and other headers to bindgen search path",
        "    BINDGEN_EXTRA_CLANG_ARGS = ",
        "    # header search paths for bindgen",
        "    (builtins.map (a: ''-I\"${a}\"'') [",
        "      # add dev libraries here (e.g. pkgs.libvmi.dev)",
        "      pkgs.glibc.dev",
        "    ]);",
        "  }",
        "",
    ]
    .join("\n");
    let actual = mkproj::rust::mkshell(&args).unwrap();
    assert!(expected == actual, "expected:\n{expected}\n\nactual:\n{actual}");
}

#[test]
fn generic_descriptor_lists_packages_in_order() {
    let args = generic_args("tools", &["jq", "curl"]);
    let expected = [
        "{ pkgs ? import <nixpkgs> {} }:",
        "  pkgs.mkShell {",
        "    buildInputs = with pkgs; [",
        "      jq",
        "      curl",
        "    ];",
        "  }",
        "",
    ]
    .join("\n");
    assert_eq!(mkproj::generic::mkshell(&args).unwrap(), expected);
}

#[test]
fn python_descriptor_prefixes_runtime_packages() {
    let args = python_args("site", PyVersion::Py3_12, &["requests"], &[]);
    let expected = [
        "{ pkgs ? import <nixpkgs> {} }:",
        "  let",
        "    py = pkgs.python312Packages;",
        "  in",
        "  pkgs.mkShell {",
        "    buildInputs = with pkgs; [",
        "      py.python",
        "      py.requests",
        "    ];",
        "  }",
        "",
    ]
    .join("\n");
    assert_eq!(mkproj::python::mkshell(&args).unwrap(), expected);
}

#[test]
fn python_versions_pick_their_package_set() {
    let cases = [
        (PyVersion::Py3_8, "    py = pkgs.python38Packages;\n"),
        (PyVersion::Py3_9, "    py = pkgs.python39Packages;\n"),
        (PyVersion::Py3_10, "    py = pkgs.python310Packages;\n"),
        (PyVersion::Py3_11, "    py = pkgs.python311Packages;\n"),
        (PyVersion::Py3_12, "    py = pkgs.python312Packages;\n"),
        (PyVersion::Py3_13, "    py = pkgs.python313Packages;\n"),
        (PyVersion::Py3_14, "    py = pkgs.python314Packages;\n"),
        (PyVersion::Py3_15, "    py = pkgs.python315Packages;\n"),
        (PyVersion::Py3_16, "    py = pkgs.python316Packages;\n"),
    ];
    for (version, line) in cases {
        let args = python_args("p", version, &[], &[]);
        let out = mkproj::python::mkshell(&args).unwrap();
        assert!(out.contains(line), "missing {line:?} in:\n{out}");
    }
}

#[test]
fn mkshell_is_pure() {
    let args = rust_args("p", true, Toolchain::Nightly, &["openssl"]);
    assert_eq!(mkproj::rust::mkshell(&args).unwrap(), mkproj::rust::mkshell(&args).unwrap());
    let gargs = generic_args("p", &["jq"]);
    assert_eq!(
        mkproj::generic::mkshell(&gargs).unwrap(),
        mkproj::generic::mkshell(&gargs).unwrap()
    );
}

#[test]
fn rust_plan_binary_mode() {
    let args = rust_args("hello", true, Toolchain::Stable, &[]);
    let plan = create_rust(&args, &good_fs()).unwrap();
    assert_eq!(plan.target_dir, "/home/u/projects/hello");
    let shell = mkproj::rust::mkshell(&args).unwrap();
    let expected: Vec<(bool, &str, String)> = vec![
        (false, ".gitignore", "perf.data\nperf.data.old\nflamegraph.svg\n*.fxt\n*.fxt.old\n/target\n".to_string()),
        (false, "shell.nix", shell),
        (false, "rust-toolchain.toml", "[toolchain]\nchannel = \"stable\"\n".to_string()),
        (false, "Cargo.toml", "[package]\nname = \"hello\"\nversion = \"0.1.0\"\nedition = \"2021\"\n\n[dependencies]".to_string()),
        (true, "tests", String::new()),
        (true, "src", String::new()),
        (false, "src/lib.rs", String::new()),
        (false, "src/main.rs", mkmain(&args)),
    ];
    assert_eq!(plan.steps.len(), expected.len());
    for (step, (is_dir, path, content)) in plan.steps.iter().zip(expected.iter()) {
        match step {
            ScaffoldStep::CreateDir(p) => {
                assert!(*is_dir, "unexpected directory {p}");
                assert_eq!(p, path);
            }
            ScaffoldStep::CreateFile(p, c) => {
                assert!(!*is_dir, "unexpected file {p}");
                assert_eq!(p, path);
                assert_eq!(c, content);
            }
        }
    }
}

#[test]
fn rust_plan_library_mode_writes_no_main() {
    let args = rust_args("quiet", false, Toolchain::Beta, &[]);
    let plan = create_rust(&args, &good_fs()).unwrap();
    assert_eq!(plan.steps.len(), 7);
    for step in plan.steps.iter() {
        if let ScaffoldStep::CreateFile(p, _) = step {
            assert_ne!(p, "src/main.rs");
        }
    }
}

#[test]
fn main_file_greets_and_names_the_crate() {
    let args = rust_args("hello", true, Toolchain::Stable, &[]);
    let main = mkmain(&args);
    assert!(main.contains("hello, world!"));
    assert!(main.contains("hello"));
    assert_eq!(main, "// crate: hello\n\nfn main() {\n    println!(\"hello, world!\");\n}");
}

#[test]
fn toolchain_descriptor_names_channel() {
    let stable = rust_args("p", false, Toolchain::Stable, &[]);
    let nightly = rust_args("p", false, Toolchain::Nightly, &[]);
    let beta = rust_args("p", false, Toolchain::Beta, &[]);
    assert_eq!(mktoolchain(&stable), "[toolchain]\nchannel = \"stable\"\n");
    assert_eq!(mktoolchain(&nightly), "[toolchain]\nchannel = \"nightly\"\n");
    assert_eq!(mktoolchain(&beta), "[toolchain]\nchannel = \"beta\"\n");
}

#[test]
fn cargo_manifest_names_project() {
    let args = rust_args("demo", false, Toolchain::Stable, &[]);
    assert_eq!(
        mkcargo(&args),
        "[package]\nname = \"demo\"\nversion = \"0.1.0\"\nedition = \"2021\"\n\n[dependencies]"
    );
}

#[test]
fn generic_plan_writes_ignore_and_descriptor() {
    let args = generic_args("tools", &["jq"]);
    let plan = create_generic(&args, &good_fs()).unwrap();
    assert_eq!(plan.target_dir, "/home/u/projects/tools");
    assert_eq!(plan.steps.len(), 2);
    match &plan.steps[0] {
        ScaffoldStep::CreateFile(p, c) => {
            assert_eq!(p, ".gitignore");
            assert_eq!(c, "perf.data\nperf.data.old\nflamegraph.svg\n*.fxt\n*.fxt.old\n/result\n");
        }
        _ => panic!("expected the ignore file first"),
    }
    match &plan.steps[1] {
        ScaffoldStep::CreateFile(p, c) => {
            assert_eq!(p, "shell.nix");
            assert_eq!(c, &mkproj::generic::mkshell(&args).unwrap());
        }
        _ => panic!("expected the descriptor second"),
    }
}

#[test]
fn python_plan_uses_python_ignore_file() {
    let args = python_args("site", PyVersion::Py3_10, &[], &[]);
    let plan = create_python(&args, &good_fs()).unwrap();
    match &plan.steps[0] {
        ScaffoldStep::CreateFile(p, c) => {
            assert_eq!(p, ".gitignore");
            assert_eq!(
                c,
                "\nperf.data\nperf.data.old\nflamegraph.svg\n*.fxt\n*.fxt.old\n/result\n__pycache__/\n*.py[cod]\nbuild/\n"
            );
        }
        _ => panic!("expected the ignore file first"),
    }
}

#[test]
fn existing_target_collides_without_changes() {
    let fs = FsState {
        home: Some("/home/u".to_string()),
        projects_dir_exists: true,
        target_exists: true,
    };
    let r = create_generic(&generic_args("proj", &[]), &fs);
    match r {
        Err(ScaffoldError::TargetExists(p)) => assert_eq!(p, "/home/u/projects/proj"),
        _ => panic!("expected a collision on the existing target"),
    }
    assert!(matches!(
        create_rust(&rust_args("proj", true, Toolchain::Stable, &[]), &fs),
        Err(ScaffoldError::TargetExists(_))
    ));
    assert!(matches!(
        create_python(&python_args("proj", PyVersion::Py3_12, &[], &[]), &fs),
        Err(ScaffoldError::TargetExists(_))
    ));
}

#[test]
fn unset_home_fails_before_any_step() {
    let fs = FsState { home: None, projects_dir_exists: false, target_exists: false };
    assert!(matches!(
        create_generic(&generic_args("proj", &[]), &fs),
        Err(ScaffoldError::HomeNotSet)
    ));
    assert!(matches!(
        create_rust(&rust_args("proj", false, Toolchain::Stable, &[]), &fs),
        Err(ScaffoldError::HomeNotSet)
    ));
    assert!(matches!(
        create_python(&python_args("proj", PyVersion::Py3_12, &[], &[]), &fs),
        Err(ScaffoldError::HomeNotSet)
    ));
}

#[test]
fn missing_projects_dir_is_fatal() {
    let fs = FsState {
        home: Some("/home/u".to_string()),
        projects_dir_exists: false,
        target_exists: false,
    };
    match create_generic(&generic_args("proj", &[]), &fs) {
        Err(ScaffoldError::ProjectsDirMissing(p)) => assert_eq!(p, "/home/u/projects"),
        _ => panic!("expected the missing projects dir to be fatal"),
    }
}

#[test]
fn name_rules_differ_per_kind() {
    // dashes are fine for generic and runtime-package projects
    assert!(check_generic_name("my-proj_2"));
    assert!(!check_generic_name("my proj"));
    assert!(!check_generic_name("my/proj"));
    // but not for compiled-library crates
    assert!(check_rust_name("my_proj2"));
    assert!(!check_rust_name("my-proj"));
    let fs = good_fs();
    assert!(create_generic(&generic_args("my-proj", &[]), &fs).is_ok());
    assert!(matches!(
        create_rust(&rust_args("my-proj", false, Toolchain::Stable, &[]), &fs),
        Err(ScaffoldError::InvalidName)
    ));
    // an invalid name is reported before environment errors
    let no_home = FsState { home: None, projects_dir_exists: false, target_exists: false };
    assert!(matches!(
        create_generic(&generic_args("bad name", &[]), &no_home),
        Err(ScaffoldError::InvalidName)
    ));
}

#[test]
fn paths_compose_under_home() {
    assert_eq!(projects_dir("/home/u"), "/home/u/projects");
    assert_eq!(project_path("/home/u", "x"), "/home/u/projects/x");
}
