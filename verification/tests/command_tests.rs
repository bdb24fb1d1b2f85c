use envsetup::command::{elevate, sudo, sudo_validate_cmd, Cmd, EnvVar};
use envsetup::BootError;

fn sample_cmd() -> Cmd {
    Cmd {
        program: "apt-get".to_string(),
        args: vec!["install".to_string(), "-y".to_string(), "build-essential".to_string()],
        env: vec![
            EnvVar { key: "PATH".to_string(), value: Some("/usr/bin".to_string()) },
            EnvVar { key: "LANG".to_string(), value: None },
            EnvVar { key: "HOME".to_string(), value: Some("/root".to_string()) },
        ],
        cwd: Some("/tmp".to_string()),
    }
}

#[test]
fn elevated_program_is_the_elevation_binary() {
    let cmd = sample_cmd();
    let e = elevate("/usr/bin/sudo", &cmd);
    assert_eq!(e.program, "/usr/bin/sudo");
    assert_eq!(e.args[0], "apt-get");
}

#[test]
fn elevated_args_preserve_order_and_count() {
    let cmd = sample_cmd();
    let e = elevate("/usr/bin/sudo", &cmd);
    assert_eq!(e.args.len(), cmd.args.len() + 1);
    for (i, a) in cmd.args.iter().enumerate() {
        assert_eq!(&e.args[i + 1], a);
    }
}

#[test]
fn elevated_env_forwards_only_defined_variables() {
    let cmd = sample_cmd();
    let e = elevate("/usr/bin/sudo", &cmd);
    assert_eq!(e.env.len(), 2);
    assert_eq!(e.env[0].key, "PATH");
    assert_eq!(e.env[0].value.as_deref(), Some("/usr/bin"));
    assert_eq!(e.env[1].key, "HOME");
    assert_eq!(e.env[1].value.as_deref(), Some("/root"));
    assert!(e.env.iter().all(|v| v.key != "LANG"));
}

#[test]
fn elevated_cwd_is_kept() {
    let cmd = sample_cmd();
    let e = elevate("/usr/bin/sudo", &cmd);
    assert_eq!(e.cwd.as_deref(), Some("/tmp"));
    let mut bare = sample_cmd();
    bare.cwd = None;
    let e = elevate("/usr/bin/sudo", &bare);
    assert!(e.cwd.is_none());
}

#[test]
fn elevation_leaves_the_source_untouched() {
    let cmd = sample_cmd();
    let _ = elevate("/usr/bin/sudo", &cmd);
    let again = sample_cmd();
    assert_eq!(cmd.program, again.program);
    assert_eq!(cmd.args, again.args);
    assert_eq!(cmd.env.len(), again.env.len());
}

#[test]
fn validate_cmd_is_the_zero_argument_invocation() {
    let v = sudo_validate_cmd("/usr/bin/sudo");
    assert_eq!(v.program, "/usr/bin/sudo");
    assert_eq!(v.args, vec!["-v".to_string()]);
    assert!(v.env.is_empty());
    assert!(v.cwd.is_none());
}

#[test]
fn sudo_refuses_without_credential() {
    let cmd = sample_cmd();
    let r = sudo("/usr/bin/sudo", false, &cmd);
    assert!(matches!(r, Err(BootError::Credential)));
}

#[test]
fn sudo_elevates_with_credential() {
    let cmd = sample_cmd();
    let r = sudo("/usr/bin/sudo", true, &cmd).unwrap();
    assert_eq!(r.args[0], "apt-get");
    assert_eq!(r.args[1..], cmd.args[..]);
}

#[test]
fn cmd_builder_appends_in_order() {
    let mut c = Cmd::new("rustup".to_string());
    c.arg("toolchain".to_string());
    c.arg("install".to_string());
    c.arg("stable".to_string());
    assert_eq!(c.args, vec!["toolchain", "install", "stable"]);
    assert!(c.env.is_empty());
    assert!(c.cwd.is_none());
}
