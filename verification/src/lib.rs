//! Environment-bootstrapping core: step orchestration, privilege-escalation
//! command wrapping, and asynchronous completion detection for remediation
//! actions that run outside the orchestrating process.

use vstd::prelude::*;

pub mod command;
pub mod orchestrator;
pub mod probe;
pub mod step;
pub mod text;
pub mod watcher;

verus! {

/// The error taxonomy of a bootstrapping run.
///
/// `Probe`: a detection primitive failed; always fatal for the whole run.
/// `Credential`: the elevation credential could not be validated.
/// `Install`: a remediation subprocess or detached script failed.
/// `Watch`: the filesystem watch desynchronized or its event channel closed.
#[derive(Clone, Copy, PartialEq, Eq, Structural, Debug)]
pub enum BootError {
    Probe,
    Credential,
    Install,
    Watch,
}

} // verus!
