//! Confinement of a child process before its program is loaded.
//!
//! A launcher describes what a child may touch and how much it may use; the
//! child applies the description to itself after the fork and before the
//! exec, through the kernel's Landlock interface and its resource limits, and
//! the program is loaded only if all of it took effect.
//!
//! * [`Rules`] is the access policy: paths that may be read, written or both,
//!   and TCP ports that may be bound or connected to.
//! * [`Rules::plan`] is what a policy compiles to: the requests to the kernel,
//!   in the order in which they are made. [`Rules::restrict`] makes them and
//!   enforces the result on the calling thread.
//! * [`MemorySize`] is a byte count with decimal and binary units, and
//!   [`Limit`] names the resources that such a count can bound.
//! * [`CommandExt`] collects the restrictions of one spawn, and
//!   [`Restrictions`] says in which order they are applied and what a failure
//!   means: every ceiling comes before the policy, and the first failure is
//!   the failure of the spawn.
//!
//! ```ignore
//! use leucite::{CommandExt, MemorySize, Rules, Sandboxed};
//! use std::process::Command;
//!
//! let rules = Rules::new()
//!     .add_read_only("/usr")
//!     .add_read_only("/etc")
//!     .add_read_only("/dev")
//!     .add_read_only("/bin")
//!     .add_read_write("/tmp/foo");
//!
//! let mut bash = Sandboxed::new(Command::new("bash"));
//! bash.command().arg("-i").current_dir("/tmp/foo").env_clear();
//! bash.restrict(rules.into()).max_memory(MemorySize::from_mb(100));
//! ```
//!
//! The library makes no system call for a resource limit and registers no
//! hook: it hands the steps to whoever spawns the command.

pub mod compiler;
pub mod error;
mod kernel;
pub mod limit;
pub mod memory_size;
pub mod plan;
pub mod policy;
pub mod spawn;

pub use compiler::conclude;
pub use error::{EnforcementOutcome, Error, Stage};
pub use limit::{into_rlimit, Limit, ResourceLimit};
pub use memory_size::MemorySize;
pub use plan::{Direction, PathClass, Request, RequestView, SENTINEL_PORT};
pub use policy::{Policy, Rules};
pub use spawn::{
    CommandExt, HookState, Requested, Restrictions, Sandboxed, Step, StepView,
};
