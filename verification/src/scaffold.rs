//! The planning step of the scaffolding protocol.
//!
//! A project kind validates its name, resolves the target directory under
//! `<home>/projects`, and lays out a [`ScaffoldPlan`]: the target directory
//! to create, followed by the exact ordered sequence of directories and
//! create-only file writes inside it.  The caller probes the environment and
//! the filesystem, hands the findings over as an [`FsState`], and performs
//! the plan's steps in order, then version-control initialization and the
//! environment handoff; a planning error means nothing is to be created.

use vstd::prelude::*;
use vstd::string::StrSliceExecFns;
use vstd::string::StringExecFns;

verus! {

/// What the caller found when probing the environment and the filesystem, in
/// the protocol's order: the home variable, then whether `<home>/projects`
/// exists, then whether the target path exists (as a file or a directory).
pub struct FsState {
    pub home: Option<String>,
    pub projects_dir_exists: bool,
    pub target_exists: bool,
}

/// Why a project could not be planned.  Every error is fatal to the run and
/// precedes any filesystem effect.
#[derive(Debug)]
pub enum ScaffoldError {
    /// The project name holds a character outside the kind's allowed set.
    InvalidName,
    /// The home-directory variable is not set.
    HomeNotSet,
    /// The `projects` directory under home does not exist; it is never
    /// auto-created.  Carries that directory's path.
    ProjectsDirMissing(String),
    /// The target path already exists; nothing is ever overwritten.  Carries
    /// the target path.
    TargetExists(String),
}

/// One step of a plan, relative to the target directory: create a directory
/// (non-recursive), or create a new file with the given content, failing if
/// it exists.
#[derive(Debug)]
pub enum ScaffoldStep {
    CreateDir(String),
    CreateFile(String, String),
}

/// Abstract value of a [`ScaffoldStep`].
pub enum ScaffoldStepView {
    Dir(Seq<char>),
    File(Seq<char>, Seq<char>),
}

impl View for ScaffoldStep {
    type V = ScaffoldStepView;

    open spec fn view(&self) -> ScaffoldStepView {
        match self {
            ScaffoldStep::CreateDir(p) => ScaffoldStepView::Dir(p@),
            ScaffoldStep::CreateFile(p, c) => ScaffoldStepView::File(p@, c@),
        }
    }
}

impl DeepView for ScaffoldStep {
    type V = ScaffoldStepView;

    open spec fn deep_view(&self) -> ScaffoldStepView {
        self.view()
    }
}

/// The target directory to create, and the ordered steps to perform inside
/// it.
#[derive(Debug)]
pub struct ScaffoldPlan {
    pub target_dir: String,
    pub steps: Vec<ScaffoldStep>,
}

/// The path of the required `projects` directory under `home`.
pub open spec fn projects_dir_text(home: Seq<char>) -> Seq<char> {
    home + "/projects"@
}

/// The target path of a project: `<home>/projects/<name>`.
pub open spec fn project_path_text(home: Seq<char>, name: Seq<char>) -> Seq<char> {
    home + "/projects"@ + "/"@ + name
}

/// The path of the required `projects` directory under `home`.
pub fn projects_dir(home: &str) -> (r: String)
    ensures
        r@ == projects_dir_text(home@),
{
    let mut r = String::from_str(home);
    r.append("/projects");
    r
}

/// The target path of a project.
pub fn project_path(home: &str, name: &str) -> (r: String)
    ensures
        r@ == project_path_text(home@, name@),
{
    let mut r = String::from_str(home);
    r.append("/projects");
    r.append("/");
    r.append(name);
    r
}

/// An ASCII letter or digit.
pub open spec fn is_ascii_alnum(c: char) -> bool {
    (97 <= c as u32 && c as u32 <= 122)  // 'a'..='z'
     || (65 <= c as u32 && c as u32 <= 90)  // 'A'..='Z'
     || (48 <= c as u32 && c as u32 <= 57)  // '0'..='9'

}

/// A character allowed in generic and runtime-package project names: ASCII
/// alphanumeric, underscore or dash.
pub open spec fn is_generic_name_char(c: char) -> bool {
    is_ascii_alnum(c) || c as u32 == 95 || c as u32 == 45  // '_' or '-'

}

/// A character allowed in compiled-library project names: ASCII alphanumeric
/// or underscore, never a dash.
pub open spec fn is_rust_name_char(c: char) -> bool {
    is_ascii_alnum(c) || c as u32 == 95  // '_'

}

/// Whether every character of `name` is allowed in generic and
/// runtime-package project names.
pub open spec fn valid_generic_name(name: Seq<char>) -> bool {
    forall|i: int| 0 <= i < name.len() ==> is_generic_name_char(#[trigger] name[i])
}

/// Whether every character of `name` is allowed in compiled-library project
/// names.
pub open spec fn valid_rust_name(name: Seq<char>) -> bool {
    forall|i: int| 0 <= i < name.len() ==> is_rust_name_char(#[trigger] name[i])
}

/// Checks the generic/runtime-package name rule.
pub fn check_generic_name(name: &str) -> (r: bool)
    ensures
        r == valid_generic_name(name@),
{
    let n = name.unicode_len();
    let mut j: usize = 0;
    while j < n
        invariant
            n == name@.len(),
            j <= n,
            forall|i: int| 0 <= i < j ==> is_generic_name_char(#[trigger] name@[i]),
        decreases n - j,
    {
        let c = name.get_char(j);
        let u = c as u32;
        if !((97 <= u && u <= 122) || (65 <= u && u <= 90) || (48 <= u && u <= 57) || u == 95 || u
            == 45) {
            return false;
        }
        j = j + 1;
    }
    true
}

/// Checks the compiled-library name rule.
pub fn check_rust_name(name: &str) -> (r: bool)
    ensures
        r == valid_rust_name(name@),
{
    let n = name.unicode_len();
    let mut j: usize = 0;
    while j < n
        invariant
            n == name@.len(),
            j <= n,
            forall|i: int| 0 <= i < j ==> is_rust_name_char(#[trigger] name@[i]),
        decreases n - j,
    {
        let c = name.get_char(j);
        let u = c as u32;
        if !((97 <= u && u <= 122) || (65 <= u && u <= 90) || (48 <= u && u <= 57) || u == 95) {
            return false;
        }
        j = j + 1;
    }
    true
}

} // verus!
