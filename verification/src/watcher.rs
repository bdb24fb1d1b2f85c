//! Completion Watcher: race-free detection of the exit status of a
//! remediation that runs in a detached process. The detached script writes
//! its exit code to a sentinel file; a watch on the sentinel's parent
//! directory reports the creation. The watch must be installed, and its
//! readiness signalled, before the detached process is spawned — otherwise
//! the creation event could fire before anyone listens and be lost.

use vstd::prelude::*;
use vstd::string::StringExecFns;
use crate::BootError;
use crate::step::StepOutcome;
use crate::text::trim_range;
use crate::text::trimmed;

verus! {

/// A remediation that must run detached. The sentinel path is derived
/// deterministically from the script path, so that the framed script and the
/// watcher agree on it without further coordination.
pub struct PendingAction {
    pub script: String,
    pub sentinel: String,
    pub description: String,
}

impl PendingAction {
    /// The derived sentinel lies beside the script.
    pub open spec fn wf(&self) -> bool {
        self.sentinel@ == self.script@ + ".status"@
    }

    pub fn new(script: String, description: String) -> (r: PendingAction)
        ensures
            r.wf(),
            r.script@ == script@,
            r.description@ == description@,
    {
        let sentinel = sentinel_path(script.as_str());
        PendingAction { script, sentinel, description }
    }
}

/// Frames a remediation script body: whatever the body did, the framed
/// script's unconditional last action writes the body's exit status to the
/// sentinel file. The sentinel write therefore strictly follows the body's
/// completion.
pub fn frame_script(body: &str, action: &PendingAction) -> (r: String)
    ensures
        r@ == body@ + "\nprintf '%s' \"$?\" > '"@ + action.sentinel@ + "'\n"@,
{
    let mut r = body.to_owned();
    r.append("\nprintf '%s' \"$?\" > '");
    r.append(action.sentinel.as_str());
    r.append("'\n");
    r
}

/// The sentinel path for a remediation script: the script path with a fixed
/// suffix appended.
pub fn sentinel_path(script: &str) -> (r: String)
    ensures
        r@ == script@ + ".status"@,
{
    let mut r = script.to_owned();
    r.append(".status");
    r
}

/// Whether sentinel content denotes success: exactly the digit zero once
/// surrounding whitespace is stripped. Anything else — any other digit, any
/// other text, empty content — denotes failure.
pub open spec fn sentinel_is_success(content: Seq<char>) -> bool {
    trimmed(content) == seq!['0']
}

/// Classifies the content read from a sentinel file.
pub fn classify_sentinel(content: &str) -> (r: bool)
    ensures
        r == sentinel_is_success(content@),
{
    let (start, end) = trim_range(content);
    if end - start == 1 && content.get_char(start) == '0' {
        proof {
            assert(trimmed(content@) =~= seq!['0']) by {
                assert(trimmed(content@)[0] == content@[start as int]);
            }
        }
        true
    } else {
        proof {
            if trimmed(content@) == seq!['0'] {
                assert(content@.subrange(start as int, end as int).len() == 1);
                assert(content@.subrange(start as int, end as int)[0] == content@[start as int]);
            }
        }
        false
    }
}

/// One Watcher per detached remediation. The fields record which events of
/// the handshake have happened; each transition requires its predecessor, so
/// a well-formed Watcher can only have seen a sentinel-creation event after
/// the watch was installed and its readiness signalled.
pub struct Watcher {
    /// The filesystem watch on the sentinel's parent directory is in place.
    pub watch_installed: bool,
    /// The one-shot "ready" signal has been sent to the caller.
    pub ready_sent: bool,
    /// The caller has spawned the detached process.
    pub spawned: bool,
    /// A creation event for the sentinel path has been observed.
    pub event_seen: bool,
}

impl Watcher {
    /// The handshake order: event only after spawn, spawn only after ready,
    /// ready only after the watch is installed.
    pub open spec fn wf(&self) -> bool {
        &&& self.event_seen ==> self.spawned
        &&& self.spawned ==> self.ready_sent
        &&& self.ready_sent ==> self.watch_installed
    }

    pub fn new() -> (r: Watcher)
        ensures
            r.wf(),
            !r.watch_installed,
            !r.ready_sent,
            !r.spawned,
            !r.event_seen,
    {
        Watcher { watch_installed: false, ready_sent: false, spawned: false, event_seen: false }
    }

    /// Records that the filesystem watch on the sentinel's parent directory
    /// is installed. Nothing else may have happened yet.
    pub fn install_watch(&mut self)
        requires
            old(self).wf(),
            !old(self).watch_installed,
        ensures
            final(self).wf(),
            final(self).watch_installed,
            !final(self).ready_sent,
            !final(self).spawned,
            !final(self).event_seen,
    {
        self.watch_installed = true;
    }

    /// Records that the "ready" signal went out over the one-shot channel.
    /// Only legal once the watch is installed: signalling earlier would let
    /// the caller spawn into an unwatched directory.
    pub fn signal_ready(&mut self)
        requires
            old(self).wf(),
            old(self).watch_installed,
            !old(self).ready_sent,
        ensures
            final(self).wf(),
            final(self).watch_installed,
            final(self).ready_sent,
            final(self).spawned == old(self).spawned,
            final(self).event_seen == old(self).event_seen,
    {
        self.ready_sent = true;
    }

    /// Whether the caller may spawn the detached process now.
    pub fn may_spawn(&self) -> (r: bool)
        ensures
            r == self.ready_sent,
    {
        self.ready_sent
    }

    /// Records that the caller spawned the detached process. Only legal
    /// after the readiness signal arrived.
    pub fn record_spawn(&mut self)
        requires
            old(self).wf(),
            old(self).ready_sent,
        ensures
            final(self).wf(),
            final(self).spawned,
            final(self).ready_sent,
            final(self).watch_installed,
            final(self).event_seen == old(self).event_seen,
    {
        self.spawned = true;
    }

    /// Records a creation event for the sentinel path. Only the spawned
    /// script writes in the watched directory, so an event presupposes the
    /// spawn.
    pub fn observe_creation(&mut self)
        requires
            old(self).wf(),
            old(self).spawned,
        ensures
            final(self).wf(),
            final(self).event_seen,
            final(self).spawned,
            final(self).ready_sent,
            final(self).watch_installed,
    {
        self.event_seen = true;
    }

    /// The terminal outcome of the watched remediation. `content` is what
    /// was read from the sentinel file, or `None` if the watch
    /// desynchronized or the sentinel could not be read: that is an
    /// indeterminate failure.
    pub fn conclude(&self, content: Option<&str>, description: &str) -> (r: StepOutcome)
        requires
            self.wf(),
            self.event_seen,
        ensures
            (content matches Some(c) && sentinel_is_success(c@)) ==> r is Remediated,
            !(content matches Some(c) && sentinel_is_success(c@)) ==> (
            r matches StepOutcome::Failed { reason } && reason@ == description@),
    {
        match content {
            Some(c) => {
                if classify_sentinel(c) {
                    StepOutcome::Remediated
                } else {
                    StepOutcome::Failed { reason: description.to_owned() }
                }
            },
            None => StepOutcome::Failed { reason: description.to_owned() },
        }
    }
    /// The Watcher could not keep reading its event stream — the channel
    /// closed or the watch errored. That is a watch error, surfaced as an
    /// indeterminate failure for the owning step; the Watcher is not
    /// retried.
    pub fn desynchronize(self, description: &str) -> (r: (BootError, StepOutcome))
        ensures
            r.0 == BootError::Watch,
            r.1 matches StepOutcome::Failed { reason } && reason@ == description@,
    {
        (BootError::Watch, StepOutcome::Failed { reason: description.to_owned() })
    }
}

/// Law: a well-formed Watcher never observes a sentinel-creation event
/// before its own "ready" signal has been sent.
pub proof fn ready_precedes_event(w: Watcher)
    requires
        w.wf(),
        w.event_seen,
    ensures
        w.ready_sent,
        w.watch_installed,
{
}

} // verus!
