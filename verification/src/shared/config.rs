//! Settings of the service.

use vstd::prelude::*;

verus! {

/// Where the service listens, which host it reports in endpoints, and where
/// the worker comes from.
#[derive(Debug)]
pub struct AppConfig {
    pub host: String,
    pub port: u16,
    pub project_name: String,
    pub repo_path: String,
}

} // verus!
