//! The sandbox boundary: validating candidate paths against a root directory.
//!
//! A [`SandboxConfig`] holds the canonical form of the authorized root.  A
//! candidate path is resolved against the root, and then judged by what the
//! host found on disk (a [`PathProbe`]): an existing target is compared by
//! its canonical form, so a symlink inside the root cannot smuggle an
//! operation outside; a target yet to be created is judged by the canonical
//! form of its nearest existing ancestor directory, since a location that
//! does not exist cannot itself be canonicalized.  In that create case the
//! `..` components of the resolution — which only the missing, hence
//! symlink-free, suffix can still contain — are folded away lexically
//! first, so a `..` can never slip past the nearest-ancestor judgment.
//!
//! Probing and canonicalizing are the host's work; every decision taken on
//! the answers is made — and proved — here.

use vstd::prelude::*;

use crate::errors::IoKind;
use crate::errors::RunError;
use crate::path::FsPath;
use crate::path::PathView;
use crate::path::spec_render;
use crate::path::spec_resolve_norm;

verus! {

/// What the host found on disk about a resolved location.
///
/// The probe always concerns the candidate's normalized resolution against
/// the root, that is [`spec_resolve_norm`] of the two; where normalization
/// itself fails, validation refuses without consulting the probe.
pub enum PathProbe {
    /// The location exists.  Carries its canonical form — every symlink
    /// resolved — or the failure that canonicalization hit.
    Exists(Result<FsPath, IoKind>),
    /// The location does not exist.  Carries the canonical form of its
    /// nearest existing ancestor directory, or the failure finding or
    /// canonicalizing that ancestor hit.
    Missing(Result<FsPath, IoKind>),
}

/// The mathematical value of a [`PathProbe`].
pub enum ProbeView {
    Exists(Result<PathView, IoKind>),
    Missing(Result<PathView, IoKind>),
}

impl View for PathProbe {
    type V = ProbeView;

    open spec fn view(&self) -> ProbeView {
        match self {
            PathProbe::Exists(Ok(c)) => ProbeView::Exists(Ok(c@)),
            PathProbe::Exists(Err(k)) => ProbeView::Exists(Err(*k)),
            PathProbe::Missing(Ok(a)) => ProbeView::Missing(Ok(a@)),
            PathProbe::Missing(Err(k)) => ProbeView::Missing(Err(*k)),
        }
    }
}

/// The validation policy, as a function of the root's canonical form, the
/// candidate, and what the host found on disk about the normalized
/// resolution of the candidate:
///
/// - a candidate whose `..` components climb past the filesystem root is an
///   escape outright, whatever the disk holds;
/// - an existing target validates to its canonical form exactly when that
///   canonical form lies under the root;
/// - a missing target validates to the normalized resolution — which
///   folding has left free of `..`, so that the host creates directories
///   only below the probed ancestor — exactly when that resolution and the
///   canonical form of its nearest existing ancestor both lie under the
///   root;
/// - everything else is an escape, and a failed canonicalization passes the
///   underlying failure through.
pub open spec fn spec_validate(root: PathView, candidate: PathView, probe: ProbeView) -> Result<
    PathView,
    RunError,
> {
    match spec_resolve_norm(root, candidate) {
        Option::None => Err(RunError::PathEscapesSandbox),
        Option::Some(resolved) => match probe {
            ProbeView::Exists(Ok(canonical)) => if root.is_prefix_of(canonical) {
                Ok(canonical)
            } else {
                Err(RunError::PathEscapesSandbox)
            },
            ProbeView::Exists(Err(kind)) => Err(RunError::Io(kind)),
            ProbeView::Missing(Ok(ancestor)) => if root.is_prefix_of(ancestor)
                && root.is_prefix_of(resolved) {
                Ok(resolved)
            } else {
                Err(RunError::PathEscapesSandbox)
            },
            ProbeView::Missing(Err(kind)) => Err(RunError::Io(kind)),
        },
    }
}

/// An absolute path proven to lie within the sandbox root.
///
/// Values of this type are only ever produced by
/// [`SandboxConfig::validate_path`].
#[derive(Debug)]
pub struct ValidatedPath {
    path: FsPath,
}

impl View for ValidatedPath {
    type V = PathView;

    closed spec fn view(&self) -> PathView {
        self.path@
    }
}

impl ValidatedPath {
    /// The validated location.
    pub fn as_path(&self) -> (r: &FsPath)
        ensures
            r@ == self@,
    {
        &self.path
    }

    /// The textual form of the validated location.
    pub fn render(&self) -> (r: String)
        ensures
            r@ == spec_render(self@),
    {
        self.path.render()
    }

    /// Give up the validated wrapper and keep the location.
    pub fn into_path(self) -> (r: FsPath)
        ensures
            r@ == self@,
    {
        self.path
    }
}

/// The sandbox configuration: the canonical form of the root directory
/// outside of which no validated operation may act.
///
/// The root is canonicalized by the host once, when the configuration is
/// created, so that every later comparison is symlink-safe at the root.
pub struct SandboxConfig {
    root: FsPath,
}

impl SandboxConfig {
    /// The root's canonical form.
    pub closed spec fn spec_root(&self) -> PathView {
        self.root@
    }

    /// Create a configuration around the root's canonical form.
    pub fn new(root: FsPath) -> (r: SandboxConfig)
        ensures
            r.spec_root() == root@,
    {
        SandboxConfig { root }
    }

    /// The configured root.
    pub fn root(&self) -> (r: &FsPath)
        ensures
            r@ == self.spec_root(),
    {
        &self.root
    }

    /// A configuration around the same root.
    pub fn duplicate(&self) -> (r: SandboxConfig)
        ensures
            r.spec_root() == self.spec_root(),
    {
        SandboxConfig { root: self.root.duplicate() }
    }

    /// The normalized resolution of a candidate against the root: the
    /// location the host probes on disk, or `None` when a `..` climbs past
    /// the filesystem root (validation then refuses whatever the probe
    /// says).
    pub fn resolve_candidate(&self, candidate: &FsPath) -> (r: Option<FsPath>)
        ensures
            match r {
                Option::Some(p) => spec_resolve_norm(self.spec_root(), candidate@) == Some(p@),
                Option::None => spec_resolve_norm(self.spec_root(), candidate@) is None,
            },
    {
        let resolved = self.root.join(candidate);
        match resolved.normalize() {
            Option::Some(p) => {
                proof {
                    assert(p@ =~= spec_resolve_norm(self.spec_root(), candidate@)->Some_0);
                }
                Some(p)
            },
            Option::None => None,
        }
    }

    /// Validate a candidate path against the root: the decision is exactly
    /// [`spec_validate`] of the root, the candidate, and the probe.
    pub fn validate_path(&self, candidate: &FsPath, probe: &PathProbe) -> (r: Result<
        ValidatedPath,
        RunError,
    >)
        ensures
            match r {
                Ok(v) => spec_validate(self.spec_root(), candidate@, probe@) == Ok::<
                    PathView,
                    RunError,
                >(v@),
                Err(e) => spec_validate(self.spec_root(), candidate@, probe@) == Err::<
                    PathView,
                    RunError,
                >(e),
            },
    {
        let resolved = match self.resolve_candidate(candidate) {
            Option::Some(p) => p,
            Option::None => {
                return Err(RunError::PathEscapesSandbox);
            },
        };
        match probe {
            PathProbe::Exists(Ok(canonical)) => {
                if canonical.starts_with(&self.root) {
                    Ok(ValidatedPath { path: canonical.duplicate() })
                } else {
                    Err(RunError::PathEscapesSandbox)
                }
            },
            PathProbe::Exists(Err(kind)) => Err(RunError::Io(*kind)),
            PathProbe::Missing(Ok(ancestor)) => {
                if ancestor.starts_with(&self.root) && resolved.starts_with(&self.root) {
                    Ok(ValidatedPath { path: resolved })
                } else {
                    Err(RunError::PathEscapesSandbox)
                }
            },
            PathProbe::Missing(Err(kind)) => Err(RunError::Io(*kind)),
        }
    }
}

/// Sandbox containment: whenever validation succeeds, the returned location
/// lies under the root.  For an existing target the result is that target's
/// canonical form, itself under the root; for a missing target the nearest
/// existing ancestor's canonical form and the normalized resolution that is
/// returned are both under the root — and the latter is free of `..`
/// ([`crate::path::lemma_fold_parts_no_dot_dot`]), so the directories a host creates for
/// it descend from the probed ancestor and never leave the root.
pub proof fn lemma_validate_within_root(root: PathView, candidate: PathView, probe: ProbeView)
    ensures
        spec_validate(root, candidate, probe) is Ok ==> match probe {
            ProbeView::Exists(res) => res matches Ok(canonical) && root.is_prefix_of(canonical)
                && spec_validate(root, candidate, probe) == Ok::<PathView, RunError>(canonical),
            ProbeView::Missing(res) => {
                &&& res matches Ok(ancestor)
                &&& root.is_prefix_of(ancestor)
                &&& spec_resolve_norm(root, candidate) matches Some(resolved)
                &&& root.is_prefix_of(resolved)
                &&& spec_validate(root, candidate, probe) == Ok::<PathView, RunError>(resolved)
            },
        },
{
}

/// An existing target whose canonical form leaves the root — a symlink
/// inside the sandbox pointing outside it, say — is rejected as an escape,
/// never returned.
pub proof fn lemma_escaping_target_rejected(root: PathView, candidate: PathView, canonical: PathView)
    requires
        !root.is_prefix_of(canonical),
    ensures
        spec_validate(root, candidate, ProbeView::Exists(Ok(canonical))) == Err::<
            PathView,
            RunError,
        >(RunError::PathEscapesSandbox),
{
}

/// A location yet to be created is judged by its nearest existing ancestor
/// and by its own normalized resolution: with both inside the root,
/// validation succeeds and returns the resolution; with the ancestor's
/// canonical form outside the root, or with a `..` climbing past the
/// filesystem root, validation fails as an escape.
pub proof fn lemma_missing_target_judged_by_ancestor(
    root: PathView,
    candidate: PathView,
    ancestor: PathView,
    resolved: PathView,
)
    ensures
        (spec_resolve_norm(root, candidate) == Some(resolved) && root.is_prefix_of(resolved)
            && root.is_prefix_of(ancestor)) ==> spec_validate(
            root,
            candidate,
            ProbeView::Missing(Ok(ancestor)),
        ) == Ok::<PathView, RunError>(resolved),
        !root.is_prefix_of(ancestor) ==> spec_validate(
            root,
            candidate,
            ProbeView::Missing(Ok(ancestor)),
        ) == Err::<PathView, RunError>(RunError::PathEscapesSandbox),
        spec_resolve_norm(root, candidate) is None ==> spec_validate(
            root,
            candidate,
            ProbeView::Missing(Ok(ancestor)),
        ) == Err::<PathView, RunError>(RunError::PathEscapesSandbox),
{
}

} // verus!
