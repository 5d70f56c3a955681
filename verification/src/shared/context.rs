//! What request handling works with: the session service and the names
//! from the settings.

use crate::shared::config::AppConfig;
use crate::shared::services::sesser::Sesser;
use vstd::prelude::*;

verus! {

/// The session service together with the worker's project name and the
/// place its repository is fetched from.
pub struct Context<S: Sesser> {
    sesser: S,
    project_name: String,
    repo_path: String,
}

impl<S: Sesser> Context<S> {
    /// The session service as a mathematical value.
    pub closed spec fn sesser_spec(&self) -> S {
        self.sesser
    }

    /// The project name as a mathematical value.
    pub closed spec fn project_name_spec(&self) -> Seq<char> {
        self.project_name@
    }

    /// The repository path as a mathematical value.
    pub closed spec fn repo_path_spec(&self) -> Seq<char> {
        self.repo_path@
    }

    /// The context of a service with the names that `config` gives.
    pub fn new(config: &AppConfig, sesser: S) -> (context: Self)
        ensures
            context.sesser_spec() == sesser,
            context.project_name_spec() == config.project_name@,
            context.repo_path_spec() == config.repo_path@,
    {
        Context {
            sesser,
            project_name: config.project_name.clone(),
            repo_path: config.repo_path.clone(),
        }
    }

    /// The name of the worker's project.
    pub fn project_name(&self) -> (name: &str)
        ensures
            name@ == self.project_name_spec(),
    {
        self.project_name.as_str()
    }

    /// Where the worker's repository is fetched from.
    pub fn repo_path(&self) -> (path: &str)
        ensures
            path@ == self.repo_path_spec(),
    {
        self.repo_path.as_str()
    }

    /// The session service.
    pub fn sesser(&self) -> (sesser: &S)
        ensures
            *sesser == self.sesser_spec(),
    {
        &self.sesser
    }

    /// The session service, to change it. The names stay as they are.
    pub fn sesser_mut(&mut self) -> (sesser: &mut S)
        ensures
            *sesser == old(self).sesser_spec(),
            final(self).sesser_spec() == *final(sesser),
            final(self).project_name_spec() == old(self).project_name_spec(),
            final(self).repo_path_spec() == old(self).repo_path_spec(),
    {
        &mut self.sesser
    }
}

/// Holds for every type that may be sent to another thread.
pub fn is_send<T: Send>() {
}

/// Holds for every type that may be shared between threads.
pub fn is_sync<T: Sync>() {
}

} // verus!
