//! The runtime-package project kind: interpreted-language projects with a
//! selectable runtime version, runtime-scoped packages and general packages.

use vstd::prelude::*;
use vstd::string::StringExecFns;
use crate::nix::LetVarView;
use crate::nix::NixBuilder;
use crate::nix::NixBuilderView;
use crate::nix::NixError;
use crate::nix::NixValueView;
use crate::nix::add_input_spec;
use crate::nix::add_inputs_spec;
use crate::nix::render_text;
use crate::scaffold::FsState;
use crate::scaffold::ScaffoldError;
use crate::scaffold::ScaffoldPlan;
use crate::scaffold::ScaffoldStep;
use crate::scaffold::ScaffoldStepView;
use crate::scaffold::project_path;
use crate::scaffold::project_path_text;
use crate::scaffold::projects_dir;
use crate::scaffold::projects_dir_text;
use crate::scaffold::check_generic_name;
use crate::scaffold::valid_generic_name;

verus! {

/// The closed set of supported runtime versions.
#[derive(Clone, Copy, PartialEq, Eq, Structural, Debug)]
pub enum PyVersion {
    Py3_8,
    Py3_9,
    Py3_10,
    Py3_11,
    Py3_12,
    Py3_13,
    Py3_14,
    Py3_15,
    Py3_16,
}

/// Arguments of the runtime-package kind: a project name, a runtime version,
/// runtime-scoped packages and general packages.
pub struct PythonArgs {
    pub name: String,
    pub python_version: PyVersion,
    pub python_package: Vec<String>,
    pub package: Vec<String>,
}

/// The version-qualified package-set expression that the `py` binding
/// aliases.
pub open spec fn py_packages_text(v: PyVersion) -> Seq<char> {
    match v {
        PyVersion::Py3_8 => "pkgs.python38Packages"@,
        PyVersion::Py3_9 => "pkgs.python39Packages"@,
        PyVersion::Py3_10 => "pkgs.python310Packages"@,
        PyVersion::Py3_11 => "pkgs.python311Packages"@,
        PyVersion::Py3_12 => "pkgs.python312Packages"@,
        PyVersion::Py3_13 => "pkgs.python313Packages"@,
        PyVersion::Py3_14 => "pkgs.python314Packages"@,
        PyVersion::Py3_15 => "pkgs.python315Packages"@,
        PyVersion::Py3_16 => "pkgs.python316Packages"@,
    }
}

/// The version-qualified package-set expression that the `py` binding
/// aliases.
fn py_packages_str(v: PyVersion) -> (r: &'static str)
    ensures
        r@ == py_packages_text(v),
{
    match v {
        PyVersion::Py3_8 => "pkgs.python38Packages",
        PyVersion::Py3_9 => "pkgs.python39Packages",
        PyVersion::Py3_10 => "pkgs.python310Packages",
        PyVersion::Py3_11 => "pkgs.python311Packages",
        PyVersion::Py3_12 => "pkgs.python312Packages",
        PyVersion::Py3_13 => "pkgs.python313Packages",
        PyVersion::Py3_14 => "pkgs.python314Packages",
        PyVersion::Py3_15 => "pkgs.python315Packages",
        PyVersion::Py3_16 => "pkgs.python316Packages",
    }
}

/// The ignore-file content of the runtime-package kind.
pub open spec fn gitignore_text() -> Seq<char> {
    "\nperf.data\nperf.data.old\nflamegraph.svg\n*.fxt\n*.fxt.old\n/result\n__pycache__/\n*.py[cod]\nbuild/\n"@
}

/// The ignore-file content of the runtime-package kind.
fn gitignore() -> (r: &'static str)
    ensures
        r@ == gitignore_text(),
{
    "\nperf.data\nperf.data.old\nflamegraph.svg\n*.fxt\n*.fxt.old\n/result\n__pycache__/\n*.py[cod]\nbuild/\n"
}

/// A runtime-scoped package reference, qualified by the `py` alias.
pub open spec fn py_scoped(p: Seq<char>) -> Seq<char> {
    "py."@ + p
}

/// The builder state of a runtime-package descriptor: one binding aliasing
/// the version-qualified package set, and as inputs the runtime executable,
/// the runtime-scoped packages, then the general packages.
pub open spec fn shell_state(
    version: PyVersion,
    python_packages: Seq<Seq<char>>,
    packages: Seq<Seq<char>>,
) -> NixBuilderView {
    NixBuilderView {
        rec: false,
        let_vars: seq![
            LetVarView { name: "py"@, value: NixValueView::Expr(py_packages_text(version)) },
        ],
        inputs: add_inputs_spec(
            add_inputs_spec(
                add_input_spec(Seq::<Seq<char>>::empty(), "py.python"@),
                python_packages.map(|i: int, p: Seq<char>| py_scoped(p)),
            ),
            packages,
        ),
        attrs: Seq::<crate::nix::AttrView>::empty(),
    }
}

/// The rendered descriptor of a runtime-package project.
pub fn mkshell(args: &PythonArgs) -> (r: Result<String, NixError>)
    ensures
        r matches Ok(s) && s@ == render_text(
            shell_state(
                args.python_version,
                args.python_package.deep_view(),
                args.package.deep_view(),
            ),
        ),
{
    let mut nix = NixBuilder::new();
    let alias = py_packages_str(args.python_version);
    match nix.add_letvar_expr("py", alias) {
        Ok(_) => {},
        Err(_) => { return Err(NixError::LetVarSet(String::from_str("py"))) },
    }
    nix.add_build_input("py.python");
    let mut scoped: Vec<String> = Vec::new();
    let mut i: usize = 0;
    while i < args.python_package.len()
        invariant
            i <= args.python_package.len(),
            scoped.deep_view() == args.python_package.deep_view().take(i as int).map(
                |k: int, p: Seq<char>| py_scoped(p),
            ),
        decreases args.python_package.len() - i,
    {
        let mut s = String::from_str("py.");
        s.append(args.python_package[i].as_str());
        let ghost prev = scoped.deep_view();
        scoped.push(s);
        proof {
            let dv = args.python_package.deep_view();
            assert(dv[i as int] == args.python_package@[i as int]@);
            assert(s@ == py_scoped(dv[i as int]));
            assert(scoped.deep_view() =~= prev.push(s@));
            assert(dv.take(i + 1) =~= dv.take(i as int).push(dv[i as int]));
            assert(scoped.deep_view() =~= dv.take(i + 1).map(
                |k: int, p: Seq<char>| py_scoped(p),
            ));
        }
        i = i + 1;
    }
    proof {
        assert(args.python_package.deep_view().take(args.python_package.len() as int)
            =~= args.python_package.deep_view());
    }
    nix.add_build_inputs(&scoped);
    nix.add_build_inputs(&args.package);
    proof {
        assert(nix@.let_vars =~= seq![
            LetVarView {
                name: "py"@,
                value: NixValueView::Expr(py_packages_text(args.python_version)),
            },
        ]);
    }
    Ok(nix.build())
}

/// The steps of a runtime-package project, after the target directory is
/// created: the ignore file, then the rendered descriptor, both create-only.
pub open spec fn steps_spec(
    version: PyVersion,
    python_packages: Seq<Seq<char>>,
    packages: Seq<Seq<char>>,
) -> Seq<ScaffoldStepView> {
    seq![
        ScaffoldStepView::File(".gitignore"@, gitignore_text()),
        ScaffoldStepView::File(
            "shell.nix"@,
            render_text(shell_state(version, python_packages, packages)),
        ),
    ]
}

/// Plans a runtime-package project: validates the name, resolves the target
/// directory, and lays out the files to write.  Checks run in the protocol's
/// order, and any failure precedes every filesystem effect.
pub fn create_python(args: &PythonArgs, fs: &FsState) -> (r: Result<ScaffoldPlan, ScaffoldError>)
    ensures
        !valid_generic_name(args.name@) ==> (r matches Err(e) && e is InvalidName),
        valid_generic_name(args.name@) && fs.home is None ==> (r matches Err(e)
            && e is HomeNotSet),
        fs.home matches Some(h) ==> (valid_generic_name(args.name@) && !fs.projects_dir_exists
            ==> (r matches Err(ScaffoldError::ProjectsDirMissing(p)) && p@ == projects_dir_text(
            h@,
        ))),
        fs.home matches Some(h) ==> (valid_generic_name(args.name@) && fs.projects_dir_exists
            && fs.target_exists ==> (r matches Err(ScaffoldError::TargetExists(p)) && p@
            == project_path_text(h@, args.name@))),
        fs.home matches Some(h) ==> (valid_generic_name(args.name@) && fs.projects_dir_exists
            && !fs.target_exists ==> (r matches Ok(plan) && plan.target_dir@ == project_path_text(
            h@,
            args.name@,
        ) && plan.steps.deep_view() == steps_spec(
            args.python_version,
            args.python_package.deep_view(),
            args.package.deep_view(),
        ))),
{
    if !check_generic_name(args.name.as_str()) {
        return Err(ScaffoldError::InvalidName);
    }
    let home = match &fs.home {
        Some(h) => h,
        None => { return Err(ScaffoldError::HomeNotSet) },
    };
    if !fs.projects_dir_exists {
        return Err(ScaffoldError::ProjectsDirMissing(projects_dir(home.as_str())));
    }
    let target = project_path(home.as_str(), args.name.as_str());
    if fs.target_exists {
        return Err(ScaffoldError::TargetExists(target));
    }
    let shell = match mkshell(args) {
        Ok(s) => s,
        Err(_) => { return Err(ScaffoldError::InvalidName) },
    };
    let mut steps: Vec<ScaffoldStep> = Vec::new();
    steps.push(
        ScaffoldStep::CreateFile(String::from_str(".gitignore"), String::from_str(gitignore())),
    );
    steps.push(ScaffoldStep::CreateFile(String::from_str("shell.nix"), shell));
    proof {
        assert(steps.deep_view() =~= steps_spec(
            args.python_version,
            args.python_package.deep_view(),
            args.package.deep_view(),
        ));
    }
    Ok(ScaffoldPlan { target_dir: target, steps })
}

} // verus!
