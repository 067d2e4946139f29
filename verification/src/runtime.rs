//! The runtime: one execution of a script, orchestrated.
//!
//! A [`RunJs`] instance owns the configuration and the
//! [`ExecutionContext`] of one run.  The host canonicalizes the configured
//! root once, installs the sandbox, prepares the entry module — a file
//! path validated against the sandbox, or an inline source string served
//! under a placeholder specifier — and then drives the engine, handing the
//! run's context to every capability handler it registers.

use vstd::prelude::*;

use crate::context::ExecutionContext;
use crate::errors::RunError;
use crate::loader::StringModuleLoader;
use crate::loader::spec_string_entry_specifier;
use crate::loader::string_entry_specifier;
use crate::path::FsPath;
use crate::path::PathView;
use crate::path::spec_resolve;
use crate::sandbox::PathProbe;
use crate::sandbox::SandboxConfig;
use crate::sandbox::spec_validate;

verus! {

/// Configuration of a runtime instance.
#[derive(Debug)]
pub struct RunJsConfig {
    /// The sandbox root for the run, as the user gave it; `None` leaves the
    /// run without a sandbox, and with it without file capabilities.
    pub chroot_path: Option<FsPath>,
}

impl Default for RunJsConfig {
    /// The default configuration: no sandbox root.
    fn default() -> (r: RunJsConfig)
        ensures
            r.chroot_path is None,
    {
        RunJsConfig { chroot_path: None }
    }
}

/// One runtime instance: the configuration and the execution context of
/// one run.
pub struct RunJs {
    config: RunJsConfig,
    context: ExecutionContext,
}

impl RunJs {
    /// The configured sandbox root, as the user gave it.
    pub closed spec fn spec_chroot(&self) -> Option<PathView> {
        match self.config.chroot_path {
            Option::Some(p) => Some(p@),
            Option::None => None,
        }
    }

    /// The run's execution context.
    pub closed spec fn spec_context(&self) -> ExecutionContext {
        self.context
    }

    /// Create a runtime instance with the given configuration.  No sandbox
    /// is active until one is installed for a run.
    pub fn new(config: RunJsConfig) -> (r: RunJs)
        ensures
            r.spec_chroot() == (match config.chroot_path {
                Option::Some(p) => Some(p@),
                Option::None => None::<PathView>,
            }),
            r.spec_context().spec_sandbox_root() is None,
    {
        RunJs { config, context: ExecutionContext::inactive() }
    }

    /// Create a runtime instance with the default configuration: no
    /// sandbox.
    pub fn new_default() -> (r: RunJs)
        ensures
            r.spec_chroot() is None,
            r.spec_context().spec_sandbox_root() is None,
    {
        Self::new(RunJsConfig::default())
    }

    /// Whether a sandbox root was configured for this instance.
    pub fn wants_sandbox(&self) -> (r: bool)
        ensures
            r == (self.spec_chroot() is Some),
    {
        match &self.config.chroot_path {
            Option::Some(_) => true,
            Option::None => false,
        }
    }

    /// The configured sandbox root, as the user gave it.
    pub fn chroot_path(&self) -> (r: Option<&FsPath>)
        ensures
            match r {
                Option::Some(p) => self.spec_chroot() == Some(p@),
                Option::None => self.spec_chroot() is None,
            },
    {
        match &self.config.chroot_path {
            Option::Some(p) => Some(p),
            Option::None => None,
        }
    }

    /// Install the sandbox for the coming run.  The host canonicalizes the
    /// configured root once — so every later comparison is symlink-safe at
    /// the root — and hands the canonical form here.
    pub fn install_sandbox(&mut self, canonical_root: FsPath)
        requires
            old(self).spec_chroot() is Some,
        ensures
            final(self).spec_context().spec_sandbox_root() == Some(canonical_root@),
            final(self).spec_chroot() == old(self).spec_chroot(),
    {
        self.context = ExecutionContext::with_sandbox(SandboxConfig::new(canonical_root));
    }

    /// The context of the current run, to hand to every capability
    /// handler.
    pub fn context(&self) -> (r: &ExecutionContext)
        ensures
            *r == self.spec_context(),
    {
        &self.context
    }

    /// Prepare a file-mode run: with a sandbox installed the entry path
    /// must validate against it (the probe concerns the entry's normalized
    /// resolution against the root); the entry's module location is then
    /// the path resolved against the host's current working directory.
    pub fn prepare_entry_file(&self, entry: &FsPath, cwd: &FsPath, probe: &PathProbe) -> (r:
        Result<FsPath, RunError>)
        ensures
            match self.spec_context().spec_sandbox_root() {
                Option::None => (r matches Ok(p) && p@ == spec_resolve(cwd@, entry@)),
                Option::Some(root) => match r {
                    Ok(p) => spec_validate(root, entry@, probe@) is Ok && p@ == spec_resolve(
                        cwd@,
                        entry@,
                    ),
                    Err(e) => spec_validate(root, entry@, probe@) == Err::<PathView, RunError>(e),
                },
            },
    {
        match self.context.sandbox() {
            Option::None => Ok(cwd.join(entry)),
            Option::Some(config) => match config.validate_path(entry, probe) {
                Ok(_) => Ok(cwd.join(entry)),
                Err(e) => Err(e),
            },
        }
    }

    /// Prepare a string-mode run: a loader serving the inline source under
    /// the placeholder specifier the engine is started with.
    pub fn prepare_entry_string(&self, code: String) -> (r: StringModuleLoader)
        ensures
            r.spec_code() == code@,
            r.spec_specifier() == spec_string_entry_specifier(),
    {
        StringModuleLoader::new(code, string_entry_specifier())
    }
}

} // verus!
