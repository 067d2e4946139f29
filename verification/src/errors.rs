//! The error taxonomy of the sandbox subsystem.
//!
//! Sandbox and module errors are never recovered locally: they abort the
//! operation or module load that raised them and surface to the caller.
//! Filesystem failures keep enough detail to tell "not found" from
//! "permission denied" from an escape attempt.

use vstd::prelude::*;

verus! {

/// What kind of underlying filesystem or network failure occurred.
#[derive(Clone, Copy, Debug, PartialEq, Eq, Structural)]
pub enum IoKind {
    /// The target does not exist.
    NotFound,
    /// The host refused access.
    PermissionDenied,
    /// Any other underlying failure.
    Other,
}

/// A failure of a sandboxed operation or of a module load.
#[derive(Debug)]
pub enum RunError {
    /// An operation ran while no execution context with a sandbox was active.
    SandboxNotInitialized,
    /// A candidate path resolves outside the sandbox root.
    PathEscapesSandbox,
    /// A module location lies outside the sandbox root.
    ModuleOutsideSandbox,
    /// An underlying filesystem or network failure, passed through.
    Io(IoKind),
    /// Source text failed to parse or transpile; carries the diagnostic.
    SyntaxError(String),
    /// A module file has an extension outside the supported set.
    UnsupportedModuleKind,
    /// An import specifier is malformed (for instance a bare specifier).
    UnresolvedSpecifier,
}

} // verus!
