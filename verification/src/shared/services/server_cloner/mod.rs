//! Fetching the worker's repository: what is to be run, in which order.

pub mod simple_server_cloner;

use vstd::prelude::*;

verus! {

/// One `git` call: its arguments and the directory in which it runs, the
/// current one where none is given.
#[derive(Debug, PartialEq, Eq)]
pub struct GitCall {
    pub args: Vec<String>,
    pub dir: Option<String>,
}

/// A `git` call as a mathematical value.
pub struct GitCallView {
    pub args: Seq<Seq<char>>,
    pub dir: Option<Seq<char>>,
}

impl View for GitCall {
    type V = GitCallView;

    open spec fn view(&self) -> GitCallView {
        GitCallView {
            args: self.args@.map_values(|arg: String| arg@),
            dir: match self.dir {
                Some(dir) => Some(dir@),
                None => None,
            },
        }
    }
}

/// How the repository is fetched: a directory to remove first, then the
/// `git` calls to make in order.
#[derive(Debug, PartialEq, Eq)]
pub struct ClonePlan {
    pub remove_dir: String,
    pub calls: Vec<GitCall>,
}

/// A plan as a mathematical value.
pub struct ClonePlanView {
    pub remove_dir: Seq<char>,
    pub calls: Seq<GitCallView>,
}

impl View for ClonePlan {
    type V = ClonePlanView;

    open spec fn view(&self) -> ClonePlanView {
        ClonePlanView {
            remove_dir: self.remove_dir@,
            calls: self.calls@.map_values(|call: GitCall| call@),
        }
    }
}

/// The plan for a project fetched from `repo`: remove the project's
/// directory, clone the repository, then fetch and pull its large files
/// inside the project's directory.
pub open spec fn clone_plan(project: Seq<char>, repo: Seq<char>) -> ClonePlanView {
    ClonePlanView {
        remove_dir: project,
        calls: seq![
            GitCallView { args: seq!["clone"@, repo], dir: None },
            GitCallView { args: seq!["lfs"@, "fetch"@], dir: Some(project) },
            GitCallView { args: seq!["lfs"@, "pull"@], dir: Some(project) },
        ],
    }
}

/// Something that knows how to fetch the worker's repository.
pub trait ServerCloner {
    /// The name of the worker's project.
    spec fn project(&self) -> Seq<char>;

    /// Where the repository is fetched from.
    spec fn repo(&self) -> Seq<char>;

    /// The steps that fetch the repository.
    fn clone_server_repo(&self) -> (plan: ClonePlan)
        ensures
            plan@ == clone_plan(self.project(), self.repo()),
    ;
}

} // verus!
