//! The platform-SDK Step: detect the Command Line Tools, and remediate by
//! driving the software updater through its on-demand listing: create the
//! magic file, list the offered updates, pick the one matching label,
//! install it elevated, switch the developer directory, remove the magic
//! file.

use vstd::prelude::*;
use vstd::string::StringExecFns;
use crate::BootError;
use crate::command::Cmd;
use crate::command::arg_views;
use crate::command::sudo_validate_cmd;
use crate::probe::locate;
use crate::step::Step;
use crate::text::contains_seq;
use crate::text::contains_str;
use crate::text::split_lines;
use crate::text::split_lines_spec;
use crate::text::starts_with_str;
use crate::text::trim_range;
use crate::text::trimmed;

verus! {

/// The binary the toolchain itself relies on: its presence stands for the
/// whole Command Line Tools installation.
pub const TESTED_PATH: &'static str = "/Library/Developer/CommandLineTools/usr/bin/cc";

/// Creating this temporary file prompts the software updater to list the
/// Command Line Tools.
pub const CLT_MAGIC_FILE: &'static str =
    "/tmp/.com.apple.dt.CommandLineTools.installondemand.in-progress";

/// The prefix under which the updater lists an installable label.
pub const LABEL_PREFIX: &'static str = "* Label: ";

/// The directory the developer tools are switched to after the install.
pub const CLT_DIR: &'static str = "/Library/Developer/CommandLineTools";

/// The platform-SDK Step's decision, recorded by `check`.
#[derive(Clone, Copy, PartialEq, Eq, Structural, Debug)]
pub enum XcodeClt {
    /// The tools are present: no action.
    NoAction,
    /// Install them through the software updater's on-demand listing.
    Stealth,
}

impl Step for XcodeClt {
    open spec fn no_action(&self) -> bool {
        self is NoAction
    }

    fn needs_install(&self) -> (r: bool) {
        match self {
            XcodeClt::NoAction => false,
            XcodeClt::Stealth => true,
        }
    }
}

impl XcodeClt {
    /// The decision from the probe: `tested_path_exists` is whether the
    /// tested compiler path is present on disk.
    pub fn check(tested_path_exists: bool) -> (r: XcodeClt)
        ensures
            r == (if tested_path_exists {
                XcodeClt::NoAction
            } else {
                XcodeClt::Stealth
            }),
    {
        if tested_path_exists {
            XcodeClt::NoAction
        } else {
            XcodeClt::Stealth
        }
    }

    /// Consumes the decision: the starting phase of the stealth
    /// installation, if any action is needed.
    pub fn install_plan(self) -> (r: Option<StealthPhase>)
        ensures
            self is NoAction <==> r is None,
            self is Stealth ==> (r matches Some(p) && p is Touch),
    {
        match self {
            XcodeClt::NoAction => None,
            XcodeClt::Stealth => Some(StealthPhase::Touch),
        }
    }
}

/// The label a listing line offers, if it is a Command Line Tools label: the
/// trimmed line must carry the label prefix and name the tools, betas
/// excluded; the label is what follows the prefix.
pub open spec fn label_of_line(l: Seq<char>) -> Option<Seq<char>> {
    let t = trimmed(l);
    if LABEL_PREFIX@.is_prefix_of(t) && contains_seq(t, "Command Line Tools"@) && !contains_seq(
        t,
        "beta"@,
    ) {
        Some(t.subrange(LABEL_PREFIX@.len() as int, t.len() as int))
    } else {
        None
    }
}

/// The labels the lines offer, in order.
pub open spec fn collect_labels(lines: Seq<Seq<char>>) -> Seq<Seq<char>>
    decreases lines.len(),
{
    if lines.len() == 0 {
        Seq::empty()
    } else {
        let rest = collect_labels(lines.drop_last());
        match label_of_line(lines.last()) {
            Some(l) => rest.push(l),
            None => rest,
        }
    }
}

/// The Command Line Tools labels offered in a software-update listing.
pub open spec fn clt_labels(out: Seq<char>) -> Seq<Seq<char>> {
    collect_labels(split_lines_spec(out))
}

/// Extracts the Command Line Tools labels from a software-update listing.
pub fn extract_labels(out: &str) -> (r: Vec<String>)
    ensures
        r@.map_values(|l: String| l@) == clt_labels(out@),
{
    let lines = split_lines(out);
    let ghost lv = lines@.map_values(|l: String| l@);
    let mut labels: Vec<String> = Vec::new();
    let mut i: usize = 0;
    proof {
        assert(labels@.map_values(|l: String| l@) =~= collect_labels(lv.subrange(0, 0)));
    }
    while i < lines.len()
        invariant
            0 <= i <= lines@.len(),
            lv == lines@.map_values(|l: String| l@),
            lv == split_lines_spec(out@),
            labels@.map_values(|l: String| l@) =~= collect_labels(lv.subrange(0, i as int)),
        decreases lines@.len() - i,
    {
        let ghost labels0 = labels@;
        let line: &String = &lines[i];
        let (a, b) = trim_range(line.as_str());
        let t = line.as_str().substring_char(a, b);
        proof {
            assert(t@ == trimmed(line@));
            assert(lv[i as int] == line@);
        }
        if starts_with_str(t, LABEL_PREFIX) && contains_str(t, "Command Line Tools")
            && !contains_str(t, "beta") {
            let plen = LABEL_PREFIX.unicode_len();
            proof {
                assert(LABEL_PREFIX@.len() <= t@.len());
            }
            let label = t.substring_char(plen, t.unicode_len() - (plen - plen)).to_owned();
            proof {
                assert(label@ == t@.subrange(LABEL_PREFIX@.len() as int, t@.len() as int));
            }
            labels.push(label);
            proof {
                assert(labels@ =~= labels0.push(label));
                assert(labels@.map_values(|l: String| l@) =~= labels0.map_values(|l: String| l@)
                    .push(label@));
            }
        }
        proof {
            let cur = lv.subrange(0, i as int + 1);
            assert(cur.drop_last() =~= lv.subrange(0, i as int));
            assert(cur.last() == lv[i as int]);
        }
        i = i + 1;
    }
    proof {
        assert(lv.subrange(0, lv.len() as int) =~= lv);
    }
    labels
}

/// Exactly one matching label must be offered: none, or several, leaves the
/// choice indeterminate and fails the install.
pub fn select_label(labels: Vec<String>) -> (r: Result<String, BootError>)
    ensures
        labels@.len() == 1 ==> (r matches Ok(l) && l == labels@[0]),
        labels@.len() != 1 ==> r == Err::<String, BootError>(BootError::Install),
{
    let mut labels = labels;
    if labels.len() == 1 {
        let l = labels.remove(0);
        Ok(l)
    } else {
        Err(BootError::Install)
    }
}

/// The phases of the stealth installation, in their fixed order.
pub enum StealthPhase {
    /// Create the magic file that makes the updater list the tools.
    Touch,
    /// List the offered updates and read their labels.
    List,
    /// Install the selected label.
    Install { label: String },
    /// Point the developer directory at the fresh install.
    Switch,
    /// Remove the magic file.
    Cleanup,
    /// Every action ran.
    Done,
}

/// What the caller must run for one phase.
pub enum StealthAction {
    /// Validate the elevation credential with `validate`, elevate `base`
    /// under `sudo_path`, run it, and report the status.
    Elevated { sudo_path: String, validate: Cmd, base: Cmd },
    /// Run the command, and report its status and captured output.
    Capture { cmd: Cmd },
}

impl StealthPhase {
    /// The starting phase.
    pub fn start() -> (r: StealthPhase)
        ensures
            r is Touch,
    {
        StealthPhase::Touch
    }

    /// The action this phase requires. Binaries are located lazily, as each
    /// phase comes to run; a missing one is a probe failure.
    pub fn action(&self) -> (r: Result<StealthAction, BootError>)
        requires
            !(self is Done),
        ensures
            r matches Ok(a) ==> match self {
                StealthPhase::Touch => a matches StealthAction::Elevated {
                    sudo_path,
                    validate,
                    base,
                } && validate.program@ == sudo_path@ && arg_views(validate.args@) == seq!["-v"@]
                    && arg_views(base.args@) == seq![CLT_MAGIC_FILE@] && base.env@.len() == 0
                    && base.cwd is None,
                StealthPhase::List => a matches StealthAction::Capture { cmd } && arg_views(
                    cmd.args@,
                ) == seq!["-l"@] && cmd.env@.len() == 0 && cmd.cwd is None,
                StealthPhase::Install { label } => a matches StealthAction::Elevated {
                    sudo_path,
                    validate,
                    base,
                } && validate.program@ == sudo_path@ && arg_views(validate.args@) == seq!["-v"@]
                    && arg_views(base.args@) == seq!["-i"@, label@] && base.env@.len() == 0
                    && base.cwd is None,
                StealthPhase::Switch => a matches StealthAction::Elevated {
                    sudo_path,
                    validate,
                    base,
                } && validate.program@ == sudo_path@ && arg_views(validate.args@) == seq!["-v"@]
                    && arg_views(base.args@) == seq!["--switch"@, CLT_DIR@] && base.env@.len() == 0
                    && base.cwd is None,
                StealthPhase::Cleanup => a matches StealthAction::Elevated {
                    sudo_path,
                    validate,
                    base,
                } && validate.program@ == sudo_path@ && arg_views(validate.args@) == seq!["-v"@]
                    && arg_views(base.args@) == seq!["-f"@, CLT_MAGIC_FILE@] && base.env@.len() == 0
                    && base.cwd is None,
                StealthPhase::Done => false,
            },
            r is Err ==> r == Err::<StealthAction, BootError>(BootError::Probe),
    {
        match self {
            StealthPhase::Touch => {
                let mut base = match locate("touch") {
                    Some(p) => Cmd::new(p),
                    None => {
                        return Err(BootError::Probe);
                    },
                };
                base.arg(CLT_MAGIC_FILE.to_owned());
                proof {
                    assert(arg_views(base.args@) =~= seq![CLT_MAGIC_FILE@]);
                }
                elevated_action(base)
            },
            StealthPhase::List => {
                let mut cmd = match locate("softwareupdate") {
                    Some(p) => Cmd::new(p),
                    None => {
                        return Err(BootError::Probe);
                    },
                };
                cmd.arg("-l".to_owned());
                proof {
                    assert(arg_views(cmd.args@) =~= seq!["-l"@]);
                }
                Ok(StealthAction::Capture { cmd })
            },
            StealthPhase::Install { label } => {
                let mut base = match locate("softwareupdate") {
                    Some(p) => Cmd::new(p),
                    None => {
                        return Err(BootError::Probe);
                    },
                };
                base.arg("-i".to_owned());
                base.arg(label.clone());
                proof {
                    assert(arg_views(base.args@) =~= seq!["-i"@, label@]);
                }
                elevated_action(base)
            },
            StealthPhase::Switch => {
                let mut base = match locate("xcode-select") {
                    Some(p) => Cmd::new(p),
                    None => {
                        return Err(BootError::Probe);
                    },
                };
                base.arg("--switch".to_owned());
                base.arg(CLT_DIR.to_owned());
                proof {
                    assert(arg_views(base.args@) =~= seq!["--switch"@, CLT_DIR@]);
                }
                elevated_action(base)
            },
            StealthPhase::Cleanup => {
                let mut base = match locate("rm") {
                    Some(p) => Cmd::new(p),
                    None => {
                        return Err(BootError::Probe);
                    },
                };
                base.arg("-f".to_owned());
                base.arg(CLT_MAGIC_FILE.to_owned());
                proof {
                    assert(arg_views(base.args@) =~= seq!["-f"@, CLT_MAGIC_FILE@]);
                }
                elevated_action(base)
            },
            StealthPhase::Done => Err(BootError::Probe),
        }
    }

    /// Advances the installation on the event its action produced. The
    /// transitions pin the fixed order — touch, list, select exactly one
    /// label, install it, switch the developer directory, clean up — and
    /// make any command failure an install failure.
    pub fn next(self, event: StealthEvent) -> (r: Result<StealthPhase, BootError>)
        requires
            !(self is Done),
            self is List <==> event is Output,
        ensures
            self is Touch && (event matches StealthEvent::Status { ok: true }) ==> (
            r matches Ok(p) && p is List),
            self is Install && (event matches StealthEvent::Status { ok: true }) ==> (
            r matches Ok(p) && p is Switch),
            self is Switch && (event matches StealthEvent::Status { ok: true }) ==> (
            r matches Ok(p) && p is Cleanup),
            self is Cleanup && (event matches StealthEvent::Status { ok: true }) ==> (
            r matches Ok(p) && p is Done),
            event matches StealthEvent::Status { ok: false } ==> r == Err::<
                StealthPhase,
                BootError,
            >(BootError::Install),
            self is List ==> (event matches StealthEvent::Output { ok: true, stdout: Some(out) }
                ==> {
                &&& clt_labels(out@).len() == 1 ==> (r matches Ok(p)
                    && p matches StealthPhase::Install { label } && label@ == clt_labels(out@)[0])
                &&& clt_labels(out@).len() != 1 ==> r == Err::<StealthPhase, BootError>(
                    BootError::Install,
                )
            }),
            self is List && !(event matches StealthEvent::Output { ok: true, stdout: Some(out) })
                ==> r == Err::<StealthPhase, BootError>(BootError::Install),
    {
        match (self, event) {
            (StealthPhase::List, StealthEvent::Output { ok, stdout }) => {
                if !ok {
                    return Err(BootError::Install);
                }
                match stdout {
                    Some(out) => {
                        let labels = extract_labels(out.as_str());
                        proof {
                            if clt_labels(out@).len() == 1 {
                                assert(labels@[0]@ == clt_labels(out@)[0]);
                            }
                        }
                        match select_label(labels) {
                            Ok(label) => Ok(StealthPhase::Install { label }),
                            Err(e) => Err(e),
                        }
                    },
                    None => Err(BootError::Install),
                }
            },
            (phase, StealthEvent::Status { ok }) => {
                if !ok {
                    return Err(BootError::Install);
                }
                match phase {
                    StealthPhase::Touch => Ok(StealthPhase::List),
                    StealthPhase::Install { label } => Ok(StealthPhase::Switch),
                    StealthPhase::Switch => Ok(StealthPhase::Cleanup),
                    StealthPhase::Cleanup => Ok(StealthPhase::Done),
                    _ => Err(BootError::Install),
                }
            },
            _ => Err(BootError::Install),
        }
    }
}

/// What an action's run reported back.
pub enum StealthEvent {
    /// The elevated command's exit status; `false` also when it could not be
    /// spawned or the credential validation failed.
    Status { ok: bool },
    /// The capture command's exit status and its standard output decoded as
    /// text, `None` when the output was not valid text.
    Output { ok: bool, stdout: Option<String> },
}

/// Locates the elevation binary and pairs the credential validation with the
/// base command; a missing elevation binary is a probe failure.
fn elevated_action(base: Cmd) -> (r: Result<StealthAction, BootError>)
    ensures
        r matches Ok(a) ==> a matches StealthAction::Elevated { sudo_path, validate, base: b }
            && validate.program@ == sudo_path@ && arg_views(validate.args@) == seq!["-v"@] && b
            == base,
        r is Err ==> r == Err::<StealthAction, BootError>(BootError::Probe),
{
    match locate("sudo") {
        Some(sudo_path) => {
            let validate = sudo_validate_cmd(sudo_path.as_str());
            Ok(StealthAction::Elevated { sudo_path, validate, base })
        },
        None => Err(BootError::Probe),
    }
}

} // verus!
