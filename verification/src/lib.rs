//! Local hermetic execution of build commands.
//!
//! Given a description of a command (argv, environment, declared inputs and
//! outputs, a timeout, toolchain requirements), this library plans an isolated
//! working directory, a hermetic spawn (explicit environment, no `PATH`
//! search), the folding of the child's streamed output, a deadline, and a
//! content-addressed snapshot of the declared outputs. The filesystem,
//! process, and store side effects themselves are performed by a thin
//! unverified driver around the library.

use vstd::prelude::*;

pub mod command;
pub mod lifecycle;
pub mod output;
pub mod request;
pub mod runner;
pub mod snapshot;
pub mod timeout;

verus! {

/// The conventional exit code reported for a child terminated by `SIGTERM`:
/// the negated signal number.
pub const SIGTERM_EXIT_CODE: i32 = -15;

} // verus!
