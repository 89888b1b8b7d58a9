use pty_manager::spawn::{posix_default_shell, windows_default_shell, SpawnPlan};

#[test]
fn default_shell_returns_nonempty() {
    assert!(!posix_default_shell(None).is_empty());
    assert!(!posix_default_shell(Some("/bin/zsh".to_string())).is_empty());
}

#[test]
fn default_shell_is_powershell_on_windows() {
    for found in [true, false] {
        let shell = windows_default_shell(found);
        assert!(
            shell == "pwsh.exe" || shell == "powershell.exe",
            "Expected pwsh.exe or powershell.exe, got: {}",
            shell
        );
    }
}

#[test]
fn posix_shell_prefers_login_shell() {
    assert_eq!(posix_default_shell(Some("/usr/bin/fish".to_string())), "/usr/bin/fish");
    assert_eq!(posix_default_shell(None), "/bin/sh");
}

#[test]
fn windows_shell_prefers_pwsh() {
    assert_eq!(windows_default_shell(true), "pwsh.exe");
    assert_eq!(windows_default_shell(false), "powershell.exe");
}

#[test]
fn spawn_plan_defaults() {
    let plan = SpawnPlan::new(None, None, None, None, "/bin/sh".to_string());
    assert_eq!(plan.shell, "/bin/sh");
    assert_eq!(plan.cwd, None);
    assert_eq!(plan.cols, 80);
    assert_eq!(plan.rows, 24);
    assert_eq!(plan.term, "xterm-256color");
    assert_eq!(plan.unset_vars, vec!["CLAUDECODE".to_string(), "CLAUDE_CODE".to_string()]);
}

#[test]
fn spawn_plan_overrides() {
    let plan = SpawnPlan::new(
        Some("/tmp".to_string()),
        Some("/bin/bash".to_string()),
        Some(132),
        Some(50),
        "/bin/sh".to_string(),
    );
    assert_eq!(plan.shell, "/bin/bash");
    assert_eq!(plan.cwd, Some("/tmp".to_string()));
    assert_eq!(plan.cols, 132);
    assert_eq!(plan.rows, 50);
}
