//! The per-invocation context every command receives: repository root,
//! configuration, verbosity.

use vstd::prelude::*;
use crate::config::AutosnapConfig;
use crate::errors::AutosnapError;
use crate::repo;

verus! {

/// What a command needs to run.
#[derive(Debug, Clone)]
pub struct AppContext {
    /// Absolute path of the primary working tree.
    pub repo_root: String,
    /// The loaded configuration.
    pub cfg: AutosnapConfig,
    /// Requested verbosity (count of `-v` flags).
    pub verbosity: u8,
}

impl AppContext {
    /// Assemble a context from its parts.
    pub fn new(repo_root: String, cfg: AutosnapConfig, verbosity: u8) -> (r: Self)
        ensures
            r.repo_root@ == repo_root@,
            r.cfg == cfg,
            r.verbosity == verbosity,
    {
        AppContext { repo_root, cfg, verbosity }
    }

    /// Discover the repository and load its configuration.
    pub fn from_repo(verbosity: u8) -> (r: Result<Self, AutosnapError>)
        ensures
            r matches Err(e) ==> e matches AutosnapError::NotAVcsRepository,
            r matches Ok(ctx) ==> ctx.verbosity == verbosity,
    {
        let root = match repo::repo_root() {
            Ok(root) => root,
            Err(e) => {
                return Err(e);
            },
        };
        let cfg = AutosnapConfig::load(&root);
        Ok(AppContext::new(root, cfg, verbosity))
    }
}

} // verus!
