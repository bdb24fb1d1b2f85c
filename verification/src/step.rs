//! The Step contract: the polymorphic unit of remediation, and the outcome
//! classification shared by every remediation subprocess.

use vstd::prelude::*;

pub mod rust;
pub mod tauri_cli;
pub mod xcode_clt;

verus! {

/// The outcome of one Step in one run: produced once, never retried.
pub enum StepOutcome {
    /// No action was needed.
    Satisfied,
    /// An action was taken and succeeded.
    Remediated,
    /// An action was taken and failed.
    Failed { reason: String },
}

/// One unit of environment remediation. A value of an implementing type is
/// the decision recorded by its `check` probe: immutable once constructed,
/// and consumed by the install planning that acts on it.
pub trait Step: Sized {
    /// Whether this value is the "no action" variant of its type.
    spec fn no_action(&self) -> bool;

    /// Pure predicate over the variant: true exactly when remediation is
    /// required, i.e. when `check` did not return the "no action" variant.
    fn needs_install(&self) -> (r: bool)
        ensures
            r == !self.no_action(),
    ;
}

/// The outcome a step's check alone determines: a step whose check returned
/// the "no action" variant is satisfied without any install; any other step
/// still owes its install an outcome.
pub fn outcome_of_check<S: Step>(s: &S) -> (r: Option<StepOutcome>)
    ensures
        s.no_action() ==> (r matches Some(o) && o is Satisfied),
        !s.no_action() ==> r is None,
{
    if s.needs_install() {
        None
    } else {
        Some(StepOutcome::Satisfied)
    }
}

/// Classifies a synchronous remediation subprocess: it remediated its step
/// exactly when it could be spawned and exited with status zero.
pub fn outcome_of_run(spawned: bool, exit_ok: bool, description: &str) -> (r: StepOutcome)
    ensures
        spawned && exit_ok ==> r is Remediated,
        !(spawned && exit_ok) ==> (r matches StepOutcome::Failed { reason } && reason@
            == description@),
{
    if spawned && exit_ok {
        StepOutcome::Remediated
    } else {
        StepOutcome::Failed { reason: description.to_owned() }
    }
}

} // verus!
