use envsetup::step::rust::{
    install_rust_stable_cmd, install_rustup_cmd, InstallPlan, Rust, RustProbe, RUSTUP_SCRIPT_URL,
};
use envsetup::step::tauri_cli::{
    cargo, conclude_install, install_locked, install_locked_cmd, TauriCli, EXACT,
};
use envsetup::step::xcode_clt::{
    extract_labels, select_label, StealthAction, StealthEvent, StealthPhase, XcodeClt,
    CLT_MAGIC_FILE,
};
use envsetup::step::{outcome_of_check, outcome_of_run, Step, StepOutcome};
use envsetup::BootError;

fn opt_path(present: bool, path: &str) -> Option<String> {
    if present {
        Some(path.to_string())
    } else {
        None
    }
}

fn probe(rustc: bool, cargo: bool, rustup: bool) -> RustProbe {
    RustProbe {
        rustc: opt_path(rustc, "/bin/rustc"),
        cargo: opt_path(cargo, "/bin/cargo"),
        rustup: opt_path(rustup, "/bin/rustup"),
    }
}

#[test]
fn complete_toolchain_needs_no_install() {
    let s = Rust::decide(&probe(true, true, true), None).unwrap();
    assert!(matches!(s, Rust::NoAction));
    assert!(!s.needs_install());
}

#[test]
fn missing_toolchain_with_rustup_installs_stable() {
    let s = Rust::decide(&probe(false, true, true), None).unwrap();
    match &s {
        Rust::Stable { rustup } => assert_eq!(rustup, "/bin/rustup"),
        _ => panic!("rustup present and rustc missing must install stable"),
    }
    assert!(s.needs_install());
    let s = Rust::decide(&probe(true, false, true), None).unwrap();
    assert!(matches!(s, Rust::Stable { .. }));
}

#[test]
fn missing_rustup_bootstraps_through_a_shell() {
    let s = Rust::decide(&probe(false, false, false), Some("/bin/sh".to_string())).unwrap();
    match &s {
        Rust::RustupStable { sh } => assert_eq!(sh, "/bin/sh"),
        _ => panic!("missing rustup must bootstrap"),
    }
    assert!(s.needs_install());
}

#[test]
fn missing_rustup_and_shell_is_a_probe_error() {
    let r = Rust::decide(&probe(false, true, false), None);
    assert!(matches!(r, Err(BootError::Probe)));
}

#[test]
fn rust_install_plans_match_the_decision() {
    assert!(Rust::NoAction.install_plan().is_none());
    match (Rust::Stable { rustup: "/bin/rustup".to_string() }).install_plan().unwrap() {
        InstallPlan::Direct { cmd } => {
            assert_eq!(cmd.program, "/bin/rustup");
            assert_eq!(cmd.args, vec!["toolchain", "install", "stable"]);
        },
        _ => panic!("stable install must be direct"),
    }
    match (Rust::RustupStable { sh: "/bin/sh".to_string() }).install_plan().unwrap() {
        InstallPlan::PipedScript { url, shell } => {
            assert_eq!(url, RUSTUP_SCRIPT_URL);
            assert_eq!(url, "https://sh.rustup.rs/");
            assert_eq!(shell.program, "/bin/sh");
            assert_eq!(shell.args, vec!["-s -y"]);
        },
        _ => panic!("bootstrap must pipe the script"),
    }
}

#[test]
fn rust_command_builders_pin_the_arguments() {
    let c = install_rust_stable_cmd("/opt/rustup");
    assert_eq!(c.program, "/opt/rustup");
    assert_eq!(c.args, vec!["toolchain", "install", "stable"]);
    let c = install_rustup_cmd("/bin/dash");
    assert_eq!(c.program, "/bin/dash");
    assert_eq!(c.args, vec!["-s -y"]);
}

#[test]
fn live_rust_check_is_consistent() {
    // Runs the real binary lookups on this machine; whatever they find, the
    // decision must match the probe report.
    if let Ok((s, p)) = Rust::check() {
        let complete = p.rustc.is_some() && p.cargo.is_some() && p.rustup.is_some();
        assert_eq!(!s.needs_install(), complete);
    }
}

#[test]
fn tauri_check_follows_the_help_probe() {
    let s = TauriCli::check(Some(true)).unwrap();
    assert!(matches!(s, TauriCli::NoAction));
    assert!(!s.needs_install());
    let s = TauriCli::check(Some(false)).unwrap();
    match &s {
        TauriCli::Exact { version } => {
            assert_eq!(version, EXACT);
            assert_eq!(version, "1.0.0-rc.6");
        },
        _ => panic!("a failed help probe must install"),
    }
    assert!(s.needs_install());
}

#[test]
fn tauri_probe_that_cannot_run_is_a_probe_error() {
    assert!(matches!(TauriCli::check(None), Err(BootError::Probe)));
}

#[test]
fn tauri_probe_cmd_asks_for_help() {
    let c = TauriCli::probe_cmd();
    assert_eq!(c.program, "cargo");
    assert_eq!(c.args, vec!["help", "tauri"]);
}

#[test]
fn tauri_install_plan_carries_the_version() {
    assert!(TauriCli::NoAction.install_plan().is_none());
    let v = TauriCli::Exact { version: EXACT.to_string() }.install_plan().unwrap();
    assert_eq!(v, "1.0.0-rc.6");
}

#[test]
fn locked_install_cmd_pins_the_version() {
    let c = install_locked_cmd("/bin/cargo", "1.0.0-rc.6");
    assert_eq!(c.program, "/bin/cargo");
    assert_eq!(c.args, vec!["install", "tauri-cli", "--version", "1.0.0-rc.6"]);
}

#[test]
fn live_cargo_resolution_only_fails_as_probe() {
    match cargo("/") {
        Ok(path) => assert!(!path.is_empty()),
        Err(e) => assert!(matches!(e, BootError::Probe)),
    }
}

#[test]
fn live_install_locked_builds_the_command() {
    match install_locked("9.9.9", "/") {
        Ok(c) => assert_eq!(c.args, vec!["install", "tauri-cli", "--version", "9.9.9"]),
        Err(e) => assert!(matches!(e, BootError::Probe)),
    }
}

#[test]
fn install_status_classifies() {
    assert!(conclude_install(true).is_ok());
    assert!(matches!(conclude_install(false), Err(BootError::Install)));
    assert!(matches!(outcome_of_run(true, true, "d"), StepOutcome::Remediated));
    match outcome_of_run(true, false, "toolchain install") {
        StepOutcome::Failed { reason } => assert_eq!(reason, "toolchain install"),
        _ => panic!("non-zero exit must fail"),
    }
    assert!(matches!(outcome_of_run(false, true, "d"), StepOutcome::Failed { .. }));
}

#[test]
fn a_no_action_check_is_satisfied_outright() {
    let s = XcodeClt::check(true);
    assert!(matches!(outcome_of_check(&s), Some(StepOutcome::Satisfied)));
    let s = XcodeClt::check(false);
    assert!(outcome_of_check(&s).is_none());
}

#[test]
fn xcode_check_follows_the_path_probe() {
    let s = XcodeClt::check(true);
    assert_eq!(s, XcodeClt::NoAction);
    assert!(!s.needs_install());
    let s = XcodeClt::check(false);
    assert_eq!(s, XcodeClt::Stealth);
    assert!(s.needs_install());
    assert!(XcodeClt::NoAction.install_plan().is_none());
    assert!(matches!(XcodeClt::Stealth.install_plan(), Some(StealthPhase::Touch)));
}

const LISTING: &str = "Software Update Tool\n\
Finding available software\n\
* Label: Command Line Tools for Xcode-14.2\n\
\tTitle: Command Line Tools for Xcode, Version: 14.2, Size: 711888KiB\n";

#[test]
fn extract_labels_finds_the_one_label() {
    let labels = extract_labels(LISTING);
    assert_eq!(labels, vec!["Command Line Tools for Xcode-14.2".to_string()]);
}

#[test]
fn extract_labels_skips_betas_and_unrelated_lines() {
    let out = "* Label: Command Line Tools for Xcode-15.0 beta\n\
* Label: macOS Ventura 13.1\n\
   * Label: Command Line Tools for Xcode-14.2   \n\
no label here\n";
    let labels = extract_labels(out);
    assert_eq!(labels, vec!["Command Line Tools for Xcode-14.2".to_string()]);
}

#[test]
fn extract_labels_of_empty_output_is_empty() {
    assert!(extract_labels("").is_empty());
}

#[test]
fn select_label_demands_exactly_one() {
    assert_eq!(select_label(vec!["a".to_string()]).unwrap(), "a");
    assert!(matches!(select_label(Vec::new()), Err(BootError::Install)));
    assert!(matches!(
        select_label(vec!["a".to_string(), "b".to_string()]),
        Err(BootError::Install)
    ));
}

#[test]
fn stealth_phases_run_in_order() {
    let p = StealthPhase::start();
    let p = p.next(StealthEvent::Status { ok: true }).unwrap();
    assert!(matches!(p, StealthPhase::List));
    let p = p
        .next(StealthEvent::Output { ok: true, stdout: Some(LISTING.to_string()) })
        .unwrap();
    match &p {
        StealthPhase::Install { label } => {
            assert_eq!(label, "Command Line Tools for Xcode-14.2")
        },
        _ => panic!("one label must move to the install phase"),
    }
    let p = p.next(StealthEvent::Status { ok: true }).unwrap();
    assert!(matches!(p, StealthPhase::Switch));
    let p = p.next(StealthEvent::Status { ok: true }).unwrap();
    assert!(matches!(p, StealthPhase::Cleanup));
    let p = p.next(StealthEvent::Status { ok: true }).unwrap();
    assert!(matches!(p, StealthPhase::Done));
}

#[test]
fn stealth_failures_are_install_errors() {
    let r = StealthPhase::Touch.next(StealthEvent::Status { ok: false });
    assert!(matches!(r, Err(BootError::Install)));
    let r = StealthPhase::List.next(StealthEvent::Output { ok: false, stdout: None });
    assert!(matches!(r, Err(BootError::Install)));
    let r = StealthPhase::List.next(StealthEvent::Output { ok: true, stdout: None });
    assert!(matches!(r, Err(BootError::Install)));
    let no_label = StealthPhase::List.next(StealthEvent::Output {
        ok: true,
        stdout: Some("nothing offered\n".to_string()),
    });
    assert!(matches!(no_label, Err(BootError::Install)));
}

#[test]
fn live_stealth_action_locates_or_fails_as_probe() {
    // `touch` and `sudo` may or may not exist on this machine; the contract
    // allows exactly a built action or a probe failure.
    match StealthPhase::Touch.action() {
        Ok(StealthAction::Elevated { sudo_path, validate, base }) => {
            assert_eq!(validate.program, sudo_path);
            assert_eq!(validate.args, vec!["-v"]);
            assert_eq!(base.args, vec![CLT_MAGIC_FILE]);
        },
        Ok(_) => panic!("the touch phase must elevate"),
        Err(e) => assert!(matches!(e, BootError::Probe)),
    }
}
