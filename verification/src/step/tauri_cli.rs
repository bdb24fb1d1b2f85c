//! The helper-CLI Step: probe for the cargo subcommand, and plan a pinned
//! `cargo install` when it is missing.

use vstd::prelude::*;
use vstd::string::StringExecFns;
use crate::BootError;
use crate::command::Cmd;
use crate::command::arg_views;
use crate::probe::home_dir_path;
use crate::probe::locate;
use crate::probe::locate_in;
use crate::step::Step;

verus! {

/// The pinned release to install.
pub const EXACT: &'static str = "1.0.0-rc.6";

/// The helper-CLI Step's decision, recorded by `check`.
pub enum TauriCli {
    /// The subcommand answers: no action.
    NoAction,
    /// Install this exact version.
    Exact { version: String },
}

impl Step for TauriCli {
    open spec fn no_action(&self) -> bool {
        self is NoAction
    }

    fn needs_install(&self) -> (r: bool) {
        match self {
            TauriCli::NoAction => false,
            _ => true,
        }
    }
}

impl TauriCli {
    /// The probe command: ask cargo for the subcommand's help text. Its exit
    /// status tells whether the subcommand is installed.
    pub fn probe_cmd() -> (c: Cmd)
        ensures
            c.program@ == "cargo"@,
            arg_views(c.args@) == seq!["help"@, "tauri"@],
            c.env@.len() == 0,
            c.cwd is None,
            c.wf(),
    {
        let mut c = Cmd::new("cargo".to_owned());
        c.arg("help".to_owned());
        c.arg("tauri".to_owned());
        proof {
            assert(arg_views(c.args@) =~= seq!["help"@, "tauri"@]);
        }
        c
    }

    /// The decision from the probe: `help_status` is whether the help
    /// invocation exited successfully, or `None` when it could not be run at
    /// all — a probe failure, which is always fatal.
    pub fn check(help_status: Option<bool>) -> (r: Result<TauriCli, BootError>)
        ensures
            help_status == Some(true) ==> (r matches Ok(s) && s is NoAction),
            help_status == Some(false) ==> (r matches Ok(s) && s matches TauriCli::Exact {
                version,
            } && version@ == EXACT@),
            help_status is None ==> r == Err::<TauriCli, BootError>(BootError::Probe),
    {
        match help_status {
            Some(true) => Ok(TauriCli::NoAction),
            Some(false) => Ok(TauriCli::Exact { version: EXACT.to_owned() }),
            None => Err(BootError::Probe),
        }
    }

    /// Consumes the decision: the version to install, if any.
    pub fn install_plan(self) -> (r: Option<String>)
        ensures
            self is NoAction <==> r is None,
            self matches TauriCli::Exact { version } ==> r == Some(version),
    {
        match self {
            TauriCli::NoAction => None,
            TauriCli::Exact { version } => Some(version),
        }
    }
}

/// Resolves cargo: on the search path, or — since cargo may not be on the
/// path yet right after a toolchain install — in the default rustup location
/// under the home directory. `cwd` is the caller's working directory,
/// against which relative candidates resolve. A failed resolution is a probe
/// failure.
pub fn cargo(cwd: &str) -> (r: Result<String, BootError>)
    ensures
        r is Err ==> r == Err::<String, BootError>(BootError::Probe),
{
    match locate("cargo") {
        Some(p) => Ok(p),
        None => {
            let home = home_dir_path();
            match locate_in("cargo", home.as_ref(), cwd) {
                Some(p) => Ok(p),
                None => Err(BootError::Probe),
            }
        },
    }
}

/// The pinned install command for the subcommand CLI.
pub fn install_locked_cmd(cargo_path: &str, version: &str) -> (c: Cmd)
    ensures
        c.program@ == cargo_path@,
        arg_views(c.args@) == seq!["install"@, "tauri-cli"@, "--version"@, version@],
        c.env@.len() == 0,
        c.cwd is None,
        c.wf(),
{
    let mut c = Cmd::new(cargo_path.to_owned());
    c.arg("install".to_owned());
    c.arg("tauri-cli".to_owned());
    c.arg("--version".to_owned());
    c.arg(version.to_owned());
    proof {
        assert(arg_views(c.args@) =~= seq!["install"@, "tauri-cli"@, "--version"@, version@]);
    }
    c
}

/// Resolves cargo and builds the pinned install command; the caller runs it
/// and reports the status to `conclude_install`.
pub fn install_locked(version: &str, cwd: &str) -> (r: Result<Cmd, BootError>)
    ensures
        r matches Ok(c) ==> arg_views(c.args@) == seq![
            "install"@,
            "tauri-cli"@,
            "--version"@,
            version@,
        ] && c.env@.len() == 0 && c.cwd is None,
        r is Err ==> r == Err::<Cmd, BootError>(BootError::Probe),
{
    match cargo(cwd) {
        Ok(cargo_path) => Ok(install_locked_cmd(cargo_path.as_str(), version)),
        Err(_) => Err(BootError::Probe),
    }
}

/// Classifies the install subprocess's exit: anything but success is an
/// install failure.
pub fn conclude_install(status_success: bool) -> (r: Result<(), BootError>)
    ensures
        status_success ==> r is Ok,
        !status_success ==> r == Err::<(), BootError>(BootError::Install),
{
    if status_success {
        Ok(())
    } else {
        Err(BootError::Install)
    }
}

} // verus!
