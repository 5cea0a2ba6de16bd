//! The generic project kind: an ignore file and a descriptor whose inputs
//! are exactly the caller-supplied package references.

use vstd::prelude::*;
use vstd::string::StringExecFns;
use crate::nix::NixBuilder;
use crate::nix::NixBuilderView;
use crate::nix::NixError;
use crate::nix::add_inputs_spec;
use crate::nix::render_text;
use crate::scaffold::FsState;
use crate::scaffold::ScaffoldError;
use crate::scaffold::ScaffoldPlan;
use crate::scaffold::ScaffoldStep;
use crate::scaffold::ScaffoldStepView;
use crate::scaffold::project_path;
use crate::scaffold::project_path_text;
use crate::scaffold::projects_dir;
use crate::scaffold::projects_dir_text;
use crate::scaffold::check_generic_name;
use crate::scaffold::valid_generic_name;

verus! {

/// Arguments of the generic kind: a project name and package references.
pub struct GenericArgs {
    pub name: String,
    pub package: Vec<String>,
}

/// The ignore-file content of the generic kind.
pub open spec fn gitignore_text() -> Seq<char> {
    "perf.data\nperf.data.old\nflamegraph.svg\n*.fxt\n*.fxt.old\n/result\n"@
}

/// The ignore-file content of the generic kind.
fn gitignore() -> (r: &'static str)
    ensures
        r@ == gitignore_text(),
{
    "perf.data\nperf.data.old\nflamegraph.svg\n*.fxt\n*.fxt.old\n/result\n"
}

/// The builder state of a generic descriptor: no bindings, no attributes,
/// the caller's packages as inputs, in order and deduplicated.
pub open spec fn shell_state(packages: Seq<Seq<char>>) -> NixBuilderView {
    NixBuilderView {
        rec: false,
        let_vars: Seq::<crate::nix::LetVarView>::empty(),
        inputs: add_inputs_spec(Seq::<Seq<char>>::empty(), packages),
        attrs: Seq::<crate::nix::AttrView>::empty(),
    }
}

/// The rendered descriptor of a generic project.
pub fn mkshell(args: &GenericArgs) -> (r: Result<String, NixError>)
    ensures
        r matches Ok(s) && s@ == render_text(shell_state(args.package.deep_view())),
{
    let mut nix = NixBuilder::new();
    nix.add_build_inputs(&args.package);
    Ok(nix.build())
}

/// The steps of a generic project, after the target directory is created:
/// the ignore file, then the rendered descriptor, both create-only.
pub open spec fn steps_spec(packages: Seq<Seq<char>>) -> Seq<ScaffoldStepView> {
    seq![
        ScaffoldStepView::File(".gitignore"@, gitignore_text()),
        ScaffoldStepView::File("shell.nix"@, render_text(shell_state(packages))),
    ]
}

/// Plans a generic project: validates the name, resolves the target
/// directory, and lays out the files to write.  Checks run in the protocol's
/// order, and any failure precedes every filesystem effect.
pub fn create_generic(args: &GenericArgs, fs: &FsState) -> (r: Result<
    ScaffoldPlan,
    ScaffoldError,
>)
    ensures
        !valid_generic_name(args.name@) ==> (r matches Err(e) && e is InvalidName),
        valid_generic_name(args.name@) && fs.home is None ==> (r matches Err(e)
            && e is HomeNotSet),
        fs.home matches Some(h) ==> (valid_generic_name(args.name@) && !fs.projects_dir_exists
            ==> (r matches Err(ScaffoldError::ProjectsDirMissing(p)) && p@ == projects_dir_text(
            h@,
        ))),
        fs.home matches Some(h) ==> (valid_generic_name(args.name@) && fs.projects_dir_exists
            && fs.target_exists ==> (r matches Err(ScaffoldError::TargetExists(p)) && p@
            == project_path_text(h@, args.name@))),
        fs.home matches Some(h) ==> (valid_generic_name(args.name@) && fs.projects_dir_exists
            && !fs.target_exists ==> (r matches Ok(plan) && plan.target_dir@ == project_path_text(
            h@,
            args.name@,
        ) && plan.steps.deep_view() == steps_spec(args.package.deep_view()))),
{
    if !check_generic_name(args.name.as_str()) {
        return Err(ScaffoldError::InvalidName);
    }
    let home = match &fs.home {
        Some(h) => h,
        None => { return Err(ScaffoldError::HomeNotSet) },
    };
    if !fs.projects_dir_exists {
        return Err(ScaffoldError::ProjectsDirMissing(projects_dir(home.as_str())));
    }
    let target = project_path(home.as_str(), args.name.as_str());
    if fs.target_exists {
        return Err(ScaffoldError::TargetExists(target));
    }
    let shell = match mkshell(args) {
        Ok(s) => s,
        Err(_) => { return Err(ScaffoldError::InvalidName) },
    };
    let mut steps: Vec<ScaffoldStep> = Vec::new();
    steps.push(
        ScaffoldStep::CreateFile(String::from_str(".gitignore"), String::from_str(gitignore())),
    );
    steps.push(ScaffoldStep::CreateFile(String::from_str("shell.nix"), shell));
    proof {
        assert(steps.deep_view() =~= steps_spec(args.package.deep_view()));
    }
    Ok(ScaffoldPlan { target_dir: target, steps })
}

} // verus!
