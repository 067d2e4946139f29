//! A sandboxed script-runner library.
//!
//! Untrusted script files run inside a restricted filesystem sandbox: every
//! path a script supplies — directly through a host capability, or indirectly
//! through a module import — must resolve to a location inside an authorized
//! root directory.  This crate holds the verified core of that boundary:
//! path modelling and resolution, sandbox validation policy, the execution
//! context carrying the active sandbox, the decision part of each host
//! capability, and the module load pipeline.  The host glue (filesystem and
//! network calls, the script engine) lives outside and consults this crate
//! before touching anything.

pub mod context;
pub mod errors;
pub mod loader;
pub mod ops;
pub mod sandbox;
pub mod path;
pub mod runtime;
