//! The Orchestrator: an ordered pipeline of steps under the critical /
//! non-critical failure policy. A probe error aborts the run at once; a
//! critical step's failed install aborts it with a non-zero exit; a
//! non-critical step's failure is noted and the pipeline continues.

use vstd::prelude::*;

verus! {

/// What a step's check reported.
#[derive(Clone, Copy, PartialEq, Eq, Structural, Debug)]
pub enum CheckOutcome {
    /// A detection primitive failed: always fatal.
    ProbeFailed,
    /// The step is satisfied: skip its install.
    NoActionNeeded,
    /// The step must install.
    ActionNeeded,
}

/// One step as the pipeline sees it: its policy, what its check reports, and
/// whether its install — were it invoked — would succeed.
#[derive(Clone, Copy, PartialEq, Eq, Structural, Debug)]
pub struct StepBehavior {
    pub critical: bool,
    pub check: CheckOutcome,
    pub install_ok: bool,
}

/// A sequence of `false` of the given length: the installs never invoked
/// after an abort.
pub open spec fn no_installs(n: nat) -> Seq<bool> {
    Seq::new(n, |i: int| false)
}

/// The pipeline, step by step: which installs are invoked, and the exit
/// code. A probe failure aborts with exit 1 before the step's install; a
/// critical install failure aborts with exit 1 after it; a non-critical
/// failure leaves the rest of the run, and its exit code, untouched.
pub open spec fn spec_run(steps: Seq<StepBehavior>) -> (Seq<bool>, int)
    decreases steps.len(),
{
    if steps.len() == 0 {
        (Seq::empty(), 0)
    } else {
        let s = steps[0];
        let rest = steps.drop_first();
        match s.check {
            CheckOutcome::ProbeFailed => (seq![false] + no_installs(rest.len()), 1),
            CheckOutcome::NoActionNeeded => (seq![false] + spec_run(rest).0, spec_run(rest).1),
            CheckOutcome::ActionNeeded => {
                if !s.install_ok && s.critical {
                    (seq![true] + no_installs(rest.len()), 1)
                } else {
                    (seq![true] + spec_run(rest).0, spec_run(rest).1)
                }
            },
        }
    }
}

pub proof fn lemma_spec_run_len(steps: Seq<StepBehavior>)
    ensures
        spec_run(steps).0.len() == steps.len(),
    decreases steps.len(),
{
    if steps.len() > 0 {
        lemma_spec_run_len(steps.drop_first());
    }
}

/// Runs the pipeline over the given step behaviors: `r.0[i]` is whether step
/// `i`'s install was invoked, `r.1` the process exit code.
pub fn run_pipeline(steps: &Vec<StepBehavior>) -> (r: (Vec<bool>, i32))
    ensures
        r.0@ == spec_run(steps@).0,
        r.1 as int == spec_run(steps@).1,
{
    let n = steps.len();
    let mut installed: Vec<bool> = Vec::new();
    let mut exit: i32 = 0;
    let mut aborted: bool = false;
    let mut i: usize = 0;
    proof {
        lemma_spec_run_len(steps@);
        assert(steps@.skip(0) =~= steps@);
    }
    while i < n
        invariant
            0 <= i <= n,
            n == steps@.len(),
            installed@.len() == i,
            spec_run(steps@).0.len() == n,
            forall|j: int| 0 <= j < i ==> installed@[j] == spec_run(steps@).0[j],
            !aborted ==> {
                &&& spec_run(steps@).0.skip(i as int) == spec_run(steps@.skip(i as int)).0
                &&& spec_run(steps@).1 == spec_run(steps@.skip(i as int)).1
                &&& exit == 0
            },
            aborted ==> {
                &&& exit as int == spec_run(steps@).1
                &&& forall|j: int| i <= j < n ==> spec_run(steps@).0[j] == false
            },
        decreases n - i,
    {
        let ghost tail = steps@.skip(i as int);
        proof {
            lemma_spec_run_len(tail);
            assert(tail.drop_first() =~= steps@.skip(i as int + 1));
            if !aborted {
                assert(spec_run(steps@).0[i as int] == spec_run(tail).0[0]);
            }
        }
        if aborted {
            installed.push(false);
        } else {
            let s = steps[i];
            match s.check {
                CheckOutcome::ProbeFailed => {
                    installed.push(false);
                    exit = 1;
                    aborted = true;
                    proof {
                        assert(spec_run(tail).0 == seq![false] + no_installs(
                            tail.drop_first().len(),
                        ));
                        assert(forall|j: int|
                            i < j < n ==> spec_run(steps@).0[j] == spec_run(tail).0[j - i]);
                    }
                },
                CheckOutcome::NoActionNeeded => {
                    installed.push(false);
                },
                CheckOutcome::ActionNeeded => {
                    installed.push(true);
                    if !s.install_ok && s.critical {
                        exit = 1;
                        aborted = true;
                        proof {
                            assert(spec_run(tail).0 == seq![true] + no_installs(
                                tail.drop_first().len(),
                            ));
                            assert(forall|j: int|
                                i < j < n ==> spec_run(steps@).0[j] == spec_run(tail).0[j - i]);
                        }
                    }
                },
            }
            proof {
                if !aborted {
                    assert(spec_run(steps@).0.skip(i as int + 1) =~= spec_run(
                        steps@.skip(i as int + 1),
                    ).0) by {
                        assert(spec_run(tail).0.drop_first() =~= spec_run(tail.drop_first()).0);
                        assert(spec_run(steps@).0.skip(i as int + 1) =~= spec_run(steps@).0.skip(
                            i as int,
                        ).drop_first());
                    }
                }
            }
        }
        i = i + 1;
    }
    proof {
        if !aborted {
            assert(steps@.skip(n as int) =~= Seq::<StepBehavior>::empty());
        }
        assert(installed@ =~= spec_run(steps@).0);
    }
    (installed, exit)
}

/// Law: once a critical step's install fails, no later step's install is
/// ever invoked.
pub proof fn critical_failure_halts(steps: Seq<StepBehavior>, i: int, j: int)
    requires
        0 <= i < j < steps.len(),
        steps[i].check is ActionNeeded,
        !steps[i].install_ok,
        steps[i].critical,
    ensures
        spec_run(steps).0[j] == false,
        spec_run(steps).1 == 1,
    decreases i,
{
    let rest = steps.drop_first();
    if i == 0 {
    } else {
        lemma_spec_run_len(rest);
        critical_failure_halts(rest, i - 1, j - 1);
        match steps[0].check {
            CheckOutcome::ProbeFailed => {},
            CheckOutcome::NoActionNeeded => {},
            CheckOutcome::ActionNeeded => {},
        }
    }
}

/// Law: a probe failure aborts the run before the failing step's install and
/// before every later step.
pub proof fn probe_failure_halts(steps: Seq<StepBehavior>, i: int, j: int)
    requires
        0 <= i <= j < steps.len(),
        steps[i].check is ProbeFailed,
        forall|k: int| 0 <= k < i ==> !((#[trigger] steps[k]).check is ProbeFailed),
        forall|k: int|
            0 <= k < i ==> !((#[trigger] steps[k]).check is ActionNeeded && !steps[k].install_ok
                && steps[k].critical),
    ensures
        spec_run(steps).0[j] == false,
        spec_run(steps).1 == 1,
    decreases i,
{
    let rest = steps.drop_first();
    lemma_spec_run_len(rest);
    if i == 0 {
    } else {
        probe_failure_halts(rest, i - 1, j - 1);
    }
}

/// Law: a non-critical step's failed install does not decide the run — the
/// installs invoked after it and the exit code are exactly those of the rest
/// of the pipeline.
pub proof fn noncritical_failure_continues(s: StepBehavior, rest: Seq<StepBehavior>)
    requires
        !s.critical,
        s.check is ActionNeeded,
        !s.install_ok,
    ensures
        spec_run(seq![s] + rest).0 == seq![true] + spec_run(rest).0,
        spec_run(seq![s] + rest).1 == spec_run(rest).1,
{
    let steps = seq![s] + rest;
    assert(steps[0] == s);
    assert(steps.drop_first() =~= rest);
}

/// Law: a run over steps that all report "no action" invokes no install and
/// exits zero — so a second run on a system the first run fully satisfied
/// does nothing.
pub proof fn satisfied_run_is_clean(steps: Seq<StepBehavior>)
    requires
        forall|i: int| 0 <= i < steps.len() ==> (#[trigger] steps[i]).check is NoActionNeeded,
    ensures
        spec_run(steps).1 == 0,
        forall|j: int| 0 <= j < steps.len() ==> spec_run(steps).0[j] == false,
    decreases steps.len(),
{
    if steps.len() > 0 {
        let rest = steps.drop_first();
        assert(forall|i: int| 0 <= i < rest.len() ==> (#[trigger] rest[i]).check
            is NoActionNeeded);
        satisfied_run_is_clean(rest);
        lemma_spec_run_len(rest);
        assert(forall|j: int|
            1 <= j < steps.len() ==> spec_run(steps).0[j] == spec_run(rest).0[j - 1]);
    }
}

/// The pipeline driven incrementally: the caller performs each probe and
/// install and reports the result; the machine decides what follows. Once
/// `finished`, no further event is accepted — in particular, after a probe
/// failure or a critical install failure nothing more is ever invoked.
pub struct Orchestrator {
    /// The policy: whether each step, in order, is critical.
    pub critical: Vec<bool>,
    /// The index of the next step to check.
    pub next_step: usize,
    /// A check demanded an action whose install result is still owed.
    pub installing: bool,
    /// The run is over: every step ran, or an abort fired.
    pub finished: bool,
    /// The process exit code the run has earned so far.
    pub exit_code: i32,
}

impl Orchestrator {
    pub open spec fn wf(&self) -> bool {
        &&& self.next_step <= self.critical@.len()
        &&& self.installing ==> self.next_step < self.critical@.len()
        &&& self.installing ==> !self.finished
        &&& !self.finished ==> self.next_step < self.critical@.len()
    }

    /// A pipeline over the given policy, ready to check its first step.
    pub fn new(critical: Vec<bool>) -> (r: Orchestrator)
        ensures
            r.wf(),
            r.critical == critical,
            r.next_step == 0,
            !r.installing,
            r.finished == (critical@.len() == 0),
            r.exit_code == 0,
    {
        let finished = critical.len() == 0;
        Orchestrator { critical, next_step: 0, installing: false, finished, exit_code: 0 }
    }

    fn advance(&mut self)
        requires
            old(self).wf(),
            !old(self).finished,
        ensures
            final(self).wf(),
            final(self).critical == old(self).critical,
            final(self).next_step == old(self).next_step + 1,
            !final(self).installing,
            final(self).finished == (old(self).next_step + 1 == old(self).critical@.len()),
            final(self).exit_code == old(self).exit_code,
    {
        let len = self.critical.len();
        self.next_step = self.next_step + 1;
        self.installing = false;
        self.finished = self.next_step == len;
    }

    /// Feeds the current step's check result. A probe failure is always
    /// fatal: the run finishes at once with exit 1. "No action" skips to the
    /// next step; a needed action leaves the machine owing that step's
    /// install result.
    pub fn report_check(&mut self, outcome: CheckOutcome)
        requires
            old(self).wf(),
            !old(self).finished,
            !old(self).installing,
        ensures
            final(self).wf(),
            final(self).critical == old(self).critical,
            outcome is ProbeFailed ==> final(self).finished && final(self).exit_code == 1,
            outcome is NoActionNeeded ==> {
                &&& final(self).next_step == old(self).next_step + 1
                &&& !final(self).installing
                &&& final(self).exit_code == old(self).exit_code
                &&& final(self).finished == (old(self).next_step + 1 == old(
                    self,
                ).critical@.len())
            },
            outcome is ActionNeeded ==> {
                &&& final(self).next_step == old(self).next_step
                &&& final(self).installing
                &&& !final(self).finished
                &&& final(self).exit_code == old(self).exit_code
            },
    {
        match outcome {
            CheckOutcome::ProbeFailed => {
                self.exit_code = 1;
                self.finished = true;
                self.installing = false;
            },
            CheckOutcome::NoActionNeeded => {
                self.advance();
            },
            CheckOutcome::ActionNeeded => {
                self.installing = true;
            },
        }
    }

    /// Feeds the owed install result. A failure aborts the run with exit 1
    /// exactly when the step is critical; otherwise the run continues and
    /// the exit code is untouched.
    pub fn report_install(&mut self, ok: bool)
        requires
            old(self).wf(),
            old(self).installing,
        ensures
            final(self).wf(),
            final(self).critical == old(self).critical,
            !final(self).installing,
            ok || !old(self).critical@[old(self).next_step as int] ==> {
                &&& final(self).next_step == old(self).next_step + 1
                &&& final(self).exit_code == old(self).exit_code
                &&& final(self).finished == (old(self).next_step + 1 == old(
                    self,
                ).critical@.len())
            },
            !ok && old(self).critical@[old(self).next_step as int] ==> final(self).finished
                && final(self).exit_code == 1,
    {
        if !ok && self.critical[self.next_step] {
            self.exit_code = 1;
            self.finished = true;
            self.installing = false;
        } else {
            self.advance();
        }
    }
}

/// Whether a step's run failed, as the policy sees it: its check demanded an
/// action and the action did not succeed.
pub fn step_failed(check: CheckOutcome, install_ok: bool) -> (r: bool)
    ensures
        r == (check is ActionNeeded && !install_ok),
{
    match check {
        CheckOutcome::ActionNeeded => !install_ok,
        _ => false,
    }
}

/// The critical-step policy: a failed step aborts the run exactly when the
/// orchestration declared the step critical.
pub fn critical_step(failed: bool, critical: bool) -> (abort: bool)
    ensures
        abort == (failed && critical),
{
    failed && critical
}

} // verus!
