use crate::shared::context::Context;
use crate::shared::services::server_cloner::{clone_plan, ClonePlan, GitCall, ServerCloner};
use crate::shared::services::sesser::Sesser;
use vstd::prelude::*;
use vstd::string::*;

verus! {

/// Fetches the repository that the context names.
pub struct SimplerServerCloner<S: Sesser> {
    context: Context<S>,
}

impl<S: Sesser> SimplerServerCloner<S> {
    /// The context that the cloner works with.
    pub closed spec fn context(&self) -> Context<S> {
        self.context
    }

    /// A cloner for the repository of `context`.
    pub fn new(context: Context<S>) -> (cloner: Self)
        ensures
            cloner.context() == context,
    {
        Self { context }
    }

    /// Hands the context back.
    pub fn into_context(self) -> (context: Context<S>)
        ensures
            context == self.context(),
    {
        self.context
    }
}

impl<S: Sesser> ServerCloner for SimplerServerCloner<S> {
    closed spec fn project(&self) -> Seq<char> {
        self.context.project_name_spec()
    }

    closed spec fn repo(&self) -> Seq<char> {
        self.context.repo_path_spec()
    }

    fn clone_server_repo(&self) -> (plan: ClonePlan) {
        let project = self.context.project_name();
        let repo = self.context.repo_path();
        let mut clone_args: Vec<String> = Vec::new();
        clone_args.push(String::from_str("clone"));
        clone_args.push(String::from_str(repo));
        let mut fetch_args: Vec<String> = Vec::new();
        fetch_args.push(String::from_str("lfs"));
        fetch_args.push(String::from_str("fetch"));
        let mut pull_args: Vec<String> = Vec::new();
        pull_args.push(String::from_str("lfs"));
        pull_args.push(String::from_str("pull"));
        let mut calls: Vec<GitCall> = Vec::new();
        calls.push(GitCall { args: clone_args, dir: None });
        calls.push(GitCall { args: fetch_args, dir: Some(String::from_str(project)) });
        calls.push(GitCall { args: pull_args, dir: Some(String::from_str(project)) });
        let plan = ClonePlan { remove_dir: String::from_str(project), calls };
        proof {
            let expected = clone_plan(self.project(), self.repo());
            assert(plan@.calls[0].args =~= expected.calls[0].args);
            assert(plan@.calls[1].args =~= expected.calls[1].args);
            assert(plan@.calls[2].args =~= expected.calls[2].args);
            assert(plan@.calls =~= expected.calls);
        }
        plan
    }
}

} // verus!
