//! The operation bridge: the decision part of each host capability.
//!
//! Scripts reach the host through five capabilities: reading, writing and
//! removing a file, fetching over the network, and a timer.  Each capability
//! consults the run's [`ExecutionContext`] before anything else happens, and
//! each request function here returns either the proven-safe plan the host
//! may carry out — a validated target, a parent directory to create, a URL,
//! a duration — or the error the capability must report.  The host performs
//! the filesystem, network and timer work itself, but only ever on what
//! these functions hand it.

use vstd::prelude::*;

use crate::context::ExecutionContext;
use crate::errors::RunError;
use crate::path::FsPath;
use crate::path::PathView;
use crate::path::spec_resolve_norm;
use crate::sandbox::PathProbe;
use crate::sandbox::ProbeView;
use crate::sandbox::ValidatedPath;
use crate::sandbox::spec_validate;

verus! {

/// The decision of a `readFile` request: refused outright with no active
/// sandbox, otherwise the sandbox validation of the candidate.
pub open spec fn spec_read_request(
    ctx: ExecutionContext,
    candidate: PathView,
    probe: ProbeView,
) -> Result<PathView, RunError> {
    match ctx.spec_sandbox_root() {
        Option::None => Err(RunError::SandboxNotInitialized),
        Option::Some(root) => spec_validate(root, candidate, probe),
    }
}

/// The decision of a `removeFile` request: refused outright with no active
/// sandbox, otherwise the sandbox validation of the candidate.  Removal is
/// never exempt from validation — a bypass here would be a sandbox escape.
pub open spec fn spec_remove_request(
    ctx: ExecutionContext,
    candidate: PathView,
    probe: ProbeView,
) -> Result<PathView, RunError> {
    match ctx.spec_sandbox_root() {
        Option::None => Err(RunError::SandboxNotInitialized),
        Option::Some(root) => spec_validate(root, candidate, probe),
    }
}

/// The decision of a `writeFile` request: the sandbox validation of the
/// candidate, followed by a second judgment on the target's parent
/// directory — the directory the host will create missing parents in must
/// itself lie under the root.
pub open spec fn spec_write_request(
    ctx: ExecutionContext,
    candidate: PathView,
    probe: ProbeView,
) -> Result<(PathView, Option<PathView>), RunError> {
    match ctx.spec_sandbox_root() {
        Option::None => Err(RunError::SandboxNotInitialized),
        Option::Some(root) => match spec_validate(root, candidate, probe) {
            Err(e) => Err(e),
            Ok(target) => match target.parent() {
                Option::None => Ok((target, None)),
                Option::Some(parent) => if root.is_prefix_of(parent) {
                    Ok((target, Some(parent)))
                } else {
                    Err(RunError::PathEscapesSandbox)
                },
            },
        },
    }
}

/// The decision of a `fetch` request: the URL passes through untouched —
/// network destinations are not restricted by the path sandbox — but only
/// under an active context.
pub open spec fn spec_fetch_request(ctx: ExecutionContext, url: Seq<char>) -> Result<
    Seq<char>,
    RunError,
> {
    match ctx.spec_sandbox_root() {
        Option::None => Err(RunError::SandboxNotInitialized),
        Option::Some(_) => Ok(url),
    }
}

/// The decision of a `delay` request: the duration passes through, but only
/// under an active context.
pub open spec fn spec_delay_request(ctx: ExecutionContext, millis: u64) -> Result<u64, RunError> {
    match ctx.spec_sandbox_root() {
        Option::None => Err(RunError::SandboxNotInitialized),
        Option::Some(_) => Ok(millis),
    }
}

/// What a permitted `writeFile` hands the host: the validated target, and
/// the parent directory whose missing levels the host creates first, when
/// the target has a parent.
#[derive(Debug)]
pub struct WritePlan {
    /// Where the contents go.
    pub target: ValidatedPath,
    /// The directory to create (with its missing ancestors) before writing.
    pub create_parent: Option<FsPath>,
}

/// Decide a `readFile` capability call.
pub fn read_file_request(ctx: &ExecutionContext, candidate: &FsPath, probe: &PathProbe) -> (r:
    Result<ValidatedPath, RunError>)
    ensures
        match r {
            Ok(v) => spec_read_request(*ctx, candidate@, probe@) == Ok::<PathView, RunError>(v@),
            Err(e) => spec_read_request(*ctx, candidate@, probe@) == Err::<PathView, RunError>(e),
        },
{
    match ctx.sandbox() {
        Option::None => Err(RunError::SandboxNotInitialized),
        Option::Some(config) => config.validate_path(candidate, probe),
    }
}

/// Decide a `removeFile` capability call.
pub fn remove_file_request(ctx: &ExecutionContext, candidate: &FsPath, probe: &PathProbe) -> (r:
    Result<ValidatedPath, RunError>)
    ensures
        match r {
            Ok(v) => spec_remove_request(*ctx, candidate@, probe@) == Ok::<PathView, RunError>(v@),
            Err(e) => spec_remove_request(*ctx, candidate@, probe@) == Err::<PathView, RunError>(e),
        },
{
    match ctx.sandbox() {
        Option::None => Err(RunError::SandboxNotInitialized),
        Option::Some(config) => config.validate_path(candidate, probe),
    }
}

/// Decide a `writeFile` capability call.
pub fn write_file_request(ctx: &ExecutionContext, candidate: &FsPath, probe: &PathProbe) -> (r:
    Result<WritePlan, RunError>)
    ensures
        match r {
            Ok(plan) => spec_write_request(*ctx, candidate@, probe@) == Ok::<
                (PathView, Option<PathView>),
                RunError,
            >(
                (
                    plan.target@,
                    match plan.create_parent {
                        Option::None => None,
                        Option::Some(p) => Some(p@),
                    },
                ),
            ),
            Err(e) => spec_write_request(*ctx, candidate@, probe@) == Err::<
                (PathView, Option<PathView>),
                RunError,
            >(e),
        },
{
    match ctx.sandbox() {
        Option::None => Err(RunError::SandboxNotInitialized),
        Option::Some(config) => match config.validate_path(candidate, probe) {
            Err(e) => Err(e),
            Ok(target) => match target.as_path().parent_path() {
                Option::None => Ok(WritePlan { target, create_parent: None }),
                Option::Some(parent) => {
                    if parent.starts_with(config.root()) {
                        Ok(WritePlan { target, create_parent: Some(parent) })
                    } else {
                        Err(RunError::PathEscapesSandbox)
                    }
                },
            },
        },
    }
}

/// Decide a `fetch` capability call.
pub fn fetch_request<'a>(ctx: &ExecutionContext, url: &'a str) -> (r: Result<&'a str, RunError>)
    ensures
        match r {
            Ok(u) => spec_fetch_request(*ctx, url@) == Ok::<Seq<char>, RunError>(u@),
            Err(e) => spec_fetch_request(*ctx, url@) == Err::<Seq<char>, RunError>(e),
        },
{
    match ctx.sandbox() {
        Option::None => Err(RunError::SandboxNotInitialized),
        Option::Some(_) => Ok(url),
    }
}

/// Decide a `delay` capability call.
pub fn delay_request(ctx: &ExecutionContext, millis: u64) -> (r: Result<u64, RunError>)
    ensures
        match r {
            Ok(d) => spec_delay_request(*ctx, millis) == Ok::<u64, RunError>(d),
            Err(e) => spec_delay_request(*ctx, millis) == Err::<u64, RunError>(e),
        },
{
    match ctx.sandbox() {
        Option::None => Err(RunError::SandboxNotInitialized),
        Option::Some(_) => Ok(millis),
    }
}

/// No capability proceeds without an active context: with no sandbox
/// installed, every one of the five requests answers
/// `SandboxNotInitialized`.
pub proof fn lemma_inactive_context_refuses_all(
    ctx: ExecutionContext,
    candidate: PathView,
    probe: ProbeView,
    url: Seq<char>,
    millis: u64,
)
    requires
        ctx.spec_sandbox_root() is None,
    ensures
        spec_read_request(ctx, candidate, probe) == Err::<PathView, RunError>(
            RunError::SandboxNotInitialized,
        ),
        spec_remove_request(ctx, candidate, probe) == Err::<PathView, RunError>(
            RunError::SandboxNotInitialized,
        ),
        spec_write_request(ctx, candidate, probe) == Err::<(PathView, Option<PathView>), RunError>(
            RunError::SandboxNotInitialized,
        ),
        spec_fetch_request(ctx, url) == Err::<Seq<char>, RunError>(
            RunError::SandboxNotInitialized,
        ),
        spec_delay_request(ctx, millis) == Err::<u64, RunError>(RunError::SandboxNotInitialized),
{
}

/// Removing a missing file is not a sandbox violation: with a sandbox
/// active, the target's normalized resolution inside the root, and its
/// nearest existing ancestor canonicalizing inside the root, the removal
/// request itself succeeds — the only failure left to the operation is the
/// filesystem's own "not found".
pub proof fn lemma_remove_missing_inside_no_sandbox_error(
    ctx: ExecutionContext,
    root: PathView,
    candidate: PathView,
    ancestor: PathView,
    resolved: PathView,
)
    requires
        ctx.spec_sandbox_root() == Some(root),
        root.is_prefix_of(ancestor),
        spec_resolve_norm(root, candidate) == Some(resolved),
        root.is_prefix_of(resolved),
    ensures
        spec_remove_request(ctx, candidate, ProbeView::Missing(Ok(ancestor))) == Ok::<
            PathView,
            RunError,
        >(resolved),
{
}

/// A write and a read of the same candidate, judged against the same state
/// of the disk, address the same location: whatever content the host stores
/// through the write plan, a read of the same candidate consults exactly
/// the written target.
pub proof fn lemma_write_then_read_same_target(
    ctx: ExecutionContext,
    candidate: PathView,
    probe: ProbeView,
)
    ensures
        spec_write_request(ctx, candidate, probe) matches Ok(plan) ==> spec_read_request(
            ctx,
            candidate,
            probe,
        ) == Ok::<PathView, RunError>(plan.0),
{
}

} // verus!
