//! The toolchain Step: probe for rustc, cargo and rustup, decide what must
//! be installed, and plan the remediation command.

use vstd::prelude::*;
use vstd::string::StringExecFns;
use crate::BootError;
use crate::command::Cmd;
use crate::command::arg_views;
use crate::probe::locate;
use crate::step::Step;

verus! {

/// Address of the rustup initialization script.
pub const RUSTUP_SCRIPT_URL: &'static str = "https://sh.rustup.rs/";

/// What the toolchain probe found on the search path.
pub struct RustProbe {
    pub rustc: Option<String>,
    pub cargo: Option<String>,
    pub rustup: Option<String>,
}

impl RustProbe {
    /// The toolchain is complete.
    pub open spec fn complete(&self) -> bool {
        self.rustc is Some && self.cargo is Some && self.rustup is Some
    }
}

/// The toolchain Step's decision, recorded by `check`.
pub enum Rust {
    /// The toolchain is complete: no action.
    NoAction,
    /// rustup is present but the toolchain is not: install stable with it.
    Stable { rustup: String },
    /// rustup itself is missing: bootstrap it, and stable, through a shell.
    RustupStable { sh: String },
}

impl Step for Rust {
    open spec fn no_action(&self) -> bool {
        self is NoAction
    }

    fn needs_install(&self) -> (r: bool) {
        match self {
            Rust::NoAction => false,
            _ => true,
        }
    }
}

/// Looks rustc up on the search path.
pub fn check_rustc() -> (r: Option<String>) {
    locate("rustc")
}

/// Looks cargo up on the search path.
pub fn check_cargo() -> (r: Option<String>) {
    locate("cargo")
}

/// Looks rustup up on the search path.
pub fn check_rustup() -> (r: Option<String>) {
    locate("rustup")
}

impl Rust {
    /// Probes the search path for the three toolchain binaries.
    pub fn probe() -> (r: RustProbe) {
        RustProbe { rustc: check_rustc(), cargo: check_cargo(), rustup: check_rustup() }
    }

    /// The decision recorded from a probe. `sh` is the shell lookup,
    /// consulted only when rustup itself is missing; a missing shell is a
    /// probe failure.
    pub fn decide(p: &RustProbe, sh: Option<String>) -> (r: Result<Rust, BootError>)
        ensures
            p.complete() ==> (r matches Ok(s) && s is NoAction),
            (r matches Ok(s) && s is NoAction) ==> p.complete(),
            p.rustup is Some && !(p.rustc is Some && p.cargo is Some) ==> (r matches Ok(s)
                && s matches Rust::Stable { rustup } && rustup@ == p.rustup.unwrap()@),
            p.rustup is None && sh is Some ==> (r matches Ok(s) && s matches Rust::RustupStable {
                sh: q,
            } && q == sh.unwrap()),
            p.rustup is None && sh is None ==> r == Err::<Rust, BootError>(BootError::Probe),
            r is Err ==> p.rustup is None && sh is None,
    {
        let ok_rustc = p.rustc.is_some();
        let ok_cargo = p.cargo.is_some();
        if ok_rustc && ok_cargo && p.rustup.is_some() {
            Ok(Rust::NoAction)
        } else {
            match &p.rustup {
                Some(rustup) => Ok(Rust::Stable { rustup: rustup.clone() }),
                None => match sh {
                    Some(sh) => Ok(Rust::RustupStable { sh }),
                    None => Err(BootError::Probe),
                },
            }
        }
    }

    /// The whole check: probe the toolchain and record the decision. The
    /// probe report is returned beside it so the caller can tell the user
    /// which binaries were missing.
    pub fn check() -> (r: Result<(Rust, RustProbe), BootError>)
        ensures
            r matches Ok((s, p)) ==> {
                &&& (s is NoAction <==> p.complete())
                &&& (p.rustup is Some && !(p.rustc is Some && p.cargo is Some) ==> (
                s matches Rust::Stable { rustup } && rustup@ == p.rustup.unwrap()@))
                &&& (p.rustup is None ==> s is RustupStable)
            },
            r is Err ==> r == Err::<(Rust, RustProbe), BootError>(BootError::Probe),
    {
        let p = Rust::probe();
        let sh = if p.rustup.is_none() {
            locate("sh")
        } else {
            None
        };
        match Rust::decide(&p, sh) {
            Ok(s) => Ok((s, p)),
            Err(e) => Err(e),
        }
    }

    /// Consumes the decision and yields what must be run: nothing for a
    /// complete toolchain; rustup synchronously for a missing stable
    /// toolchain; the bootstrap script piped to a shell for a missing
    /// rustup.
    pub fn install_plan(self) -> (r: Option<InstallPlan>)
        ensures
            self is NoAction <==> r is None,
            self matches Rust::Stable { rustup } ==> (r matches Some(InstallPlan::Direct { cmd })
                && cmd.program@ == rustup@ && arg_views(cmd.args@) == seq![
                "toolchain"@,
                "install"@,
                "stable"@,
            ] && cmd.env@.len() == 0 && cmd.cwd is None),
            self matches Rust::RustupStable { sh } ==> (r matches Some(
                InstallPlan::PipedScript { url, shell },
            ) && url@ == RUSTUP_SCRIPT_URL@ && shell.program@ == sh@ && arg_views(shell.args@)
                == seq!["-s -y"@] && shell.env@.len() == 0 && shell.cwd is None),
    {
        match self {
            Rust::NoAction => None,
            Rust::Stable { rustup } => Some(
                InstallPlan::Direct { cmd: install_rust_stable_cmd(rustup.as_str()) },
            ),
            Rust::RustupStable { sh } => Some(
                InstallPlan::PipedScript {
                    url: RUSTUP_SCRIPT_URL.to_owned(),
                    shell: install_rustup_cmd(sh.as_str()),
                },
            ),
        }
    }
}

/// One remediation to run for the toolchain Step.
pub enum InstallPlan {
    /// Run the command synchronously and collect its output.
    Direct { cmd: Cmd },
    /// Download the script at `url` and pipe it to the shell command's
    /// standard input.
    PipedScript { url: String, shell: Cmd },
}

/// The command that installs the stable toolchain with rustup.
pub fn install_rust_stable_cmd(rustup: &str) -> (c: Cmd)
    ensures
        c.program@ == rustup@,
        arg_views(c.args@) == seq!["toolchain"@, "install"@, "stable"@],
        c.env@.len() == 0,
        c.cwd is None,
        c.wf(),
{
    let mut c = Cmd::new(rustup.to_owned());
    c.arg("toolchain".to_owned());
    c.arg("install".to_owned());
    c.arg("stable".to_owned());
    proof {
        assert(arg_views(c.args@) =~= seq!["toolchain"@, "install"@, "stable"@]);
    }
    c
}

/// The shell command the downloaded bootstrap script is piped into.
pub fn install_rustup_cmd(sh: &str) -> (c: Cmd)
    ensures
        c.program@ == sh@,
        arg_views(c.args@) == seq!["-s -y"@],
        c.env@.len() == 0,
        c.cwd is None,
        c.wf(),
{
    let mut c = Cmd::new(sh.to_owned());
    c.arg("-s -y".to_owned());
    proof {
        assert(arg_views(c.args@) =~= seq!["-s -y"@]);
    }
    c
}

} // verus!
