use envsetup::step::StepOutcome;
use envsetup::watcher::{classify_sentinel, sentinel_path, PendingAction, Watcher};
use envsetup::BootError;

#[test]
fn desynchronized_watch_is_an_indeterminate_failure() {
    let mut w = Watcher::new();
    w.install_watch();
    w.signal_ready();
    let (err, outcome) = w.desynchronize("sdk install");
    assert!(matches!(err, BootError::Watch));
    match outcome {
        StepOutcome::Failed { reason } => assert_eq!(reason, "sdk install"),
        _ => panic!("a desynchronized watch must fail its step"),
    }
}

#[test]
fn sentinel_zero_is_success() {
    assert!(classify_sentinel("0"));
}

#[test]
fn sentinel_zero_with_whitespace_is_success() {
    assert!(classify_sentinel(" 0\n"));
    assert!(classify_sentinel("\t0 \r\n"));
}

#[test]
fn sentinel_empty_is_failure() {
    assert!(!classify_sentinel(""));
    assert!(!classify_sentinel("   \n"));
}

#[test]
fn sentinel_other_content_is_failure() {
    assert!(!classify_sentinel("1"));
    assert!(!classify_sentinel("00"));
    assert!(!classify_sentinel("0 1"));
    assert!(!classify_sentinel("exit 0"));
    assert!(!classify_sentinel("-1"));
}

#[test]
fn framed_script_writes_its_status_last() {
    let p = PendingAction::new("/tmp/x.sh".to_string(), "install".to_string());
    let framed = envsetup::watcher::frame_script("do_work --now", &p);
    assert_eq!(framed, "do_work --now\nprintf '%s' \"$?\" > '/tmp/x.sh.status'\n");
    assert!(framed.ends_with("'/tmp/x.sh.status'\n"));
}

#[test]
fn sentinel_path_appends_the_suffix() {
    assert_eq!(sentinel_path("/tmp/run/install.sh"), "/tmp/run/install.sh.status");
    assert_eq!(sentinel_path(""), ".status");
}

#[test]
fn pending_action_derives_its_sentinel() {
    let p = PendingAction::new("/tmp/x.sh".to_string(), "install the tools".to_string());
    assert_eq!(p.script, "/tmp/x.sh");
    assert_eq!(p.sentinel, "/tmp/x.sh.status");
    assert_eq!(p.description, "install the tools");
}

#[test]
fn spawn_waits_for_the_ready_signal() {
    let mut w = Watcher::new();
    assert!(!w.may_spawn());
    w.install_watch();
    assert!(!w.may_spawn());
    w.signal_ready();
    assert!(w.may_spawn());
}

#[test]
fn handshake_runs_in_order() {
    let mut w = Watcher::new();
    w.install_watch();
    w.signal_ready();
    assert!(w.may_spawn());
    w.record_spawn();
    w.observe_creation();
    assert!(w.event_seen);
    assert!(w.ready_sent);
    assert!(w.watch_installed);
}

#[test]
fn conclude_classifies_the_sentinel() {
    let mut w = Watcher::new();
    w.install_watch();
    w.signal_ready();
    w.record_spawn();
    w.observe_creation();
    assert!(matches!(w.conclude(Some("0\n"), "sdk install"), StepOutcome::Remediated));
    match w.conclude(Some("127"), "sdk install") {
        StepOutcome::Failed { reason } => assert_eq!(reason, "sdk install"),
        _ => panic!("a non-zero sentinel must fail"),
    }
}

#[test]
fn conclude_without_content_is_indeterminate_failure() {
    let mut w = Watcher::new();
    w.install_watch();
    w.signal_ready();
    w.record_spawn();
    w.observe_creation();
    match w.conclude(None, "sdk install") {
        StepOutcome::Failed { reason } => assert_eq!(reason, "sdk install"),
        _ => panic!("an unreadable sentinel must fail"),
    }
}
