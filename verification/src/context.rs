//! The execution context of one run.
//!
//! Exactly one context belongs to each run.  It is built when the run
//! begins, read — never written — afterwards, and dropped when the run
//! completes.  Every capability handler receives the context of its own run
//! as an explicit handle, so an operation that completes asynchronously
//! still consults the sandbox that was active when its run began, and a
//! context installed for one run can never be observed by another.

use vstd::prelude::*;

use crate::path::PathView;
use crate::sandbox::SandboxConfig;

verus! {

/// The state shared between a run's synchronous call stack and its
/// asynchronous capability handlers: the active sandbox, if one was
/// configured for the run.
pub struct ExecutionContext {
    sandbox: Option<SandboxConfig>,
}

impl ExecutionContext {
    /// The canonical root of the active sandbox, if one is active.
    pub closed spec fn spec_sandbox_root(&self) -> Option<PathView> {
        match self.sandbox {
            Option::Some(config) => Some(config.spec_root()),
            Option::None => None,
        }
    }

    /// Whether a sandbox is active in this context.
    pub open spec fn is_active(&self) -> bool {
        self.spec_sandbox_root() is Some
    }

    /// A context with no active sandbox.  Every capability request made
    /// through it is refused.
    pub fn inactive() -> (r: ExecutionContext)
        ensures
            r.spec_sandbox_root() is None,
    {
        ExecutionContext { sandbox: None }
    }

    /// A context carrying the given sandbox for the lifetime of one run.
    pub fn with_sandbox(config: SandboxConfig) -> (r: ExecutionContext)
        ensures
            r.spec_sandbox_root() == Some(config.spec_root()),
    {
        ExecutionContext { sandbox: Some(config) }
    }

    /// The active sandbox, if any.
    pub fn sandbox(&self) -> (r: Option<&SandboxConfig>)
        ensures
            match r {
                Option::None => self.spec_sandbox_root() is None,
                Option::Some(config) => self.spec_sandbox_root() == Some(config.spec_root()),
            },
    {
        match &self.sandbox {
            Option::Some(config) => Some(config),
            Option::None => None,
        }
    }

    /// A context carrying the same sandbox.
    pub fn duplicate(&self) -> (r: ExecutionContext)
        ensures
            r.spec_sandbox_root() == self.spec_sandbox_root(),
    {
        match &self.sandbox {
            Option::Some(config) => ExecutionContext::with_sandbox(config.duplicate()),
            Option::None => ExecutionContext::inactive(),
        }
    }

    /// Whether a sandbox is active.
    pub fn active(&self) -> (r: bool)
        ensures
            r == self.is_active(),
    {
        match &self.sandbox {
            Option::Some(_) => true,
            Option::None => false,
        }
    }
}

} // verus!
