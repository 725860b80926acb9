use pty_manager::factory::TerminalSize;
use pty_manager::pty::PtyManager;
use pty_manager::reaper::IdleReaper;
use pty_manager::session::{seconds_since, CLEANUP_INTERVAL_SECS, IDLE_TIMEOUT_SECS};
use pty_manager::shell::{default_shell, launch_plan, recommended_env, EnvOverride};

#[test]
fn shell_of_the_host_is_preferred() {
    assert_eq!(default_shell(false, Some("/bin/zsh")), "/bin/zsh");
    assert_eq!(default_shell(true, Some("C:\\tools\\bash.exe")), "C:\\tools\\bash.exe");
}

#[test]
fn platform_shell_is_the_fallback() {
    assert_eq!(default_shell(false, None), "/bin/bash");
    assert_eq!(default_shell(true, None), "cmd.exe");
}

#[test]
fn recommended_env_sets_three_variables() {
    let env = recommended_env();
    assert_eq!(
        env,
        vec![
            EnvOverride { name: "TERM".to_string(), value: "xterm-256color".to_string() },
            EnvOverride {
                name: "PATH".to_string(),
                value: "/opt/homebrew/bin:/usr/local/bin:/usr/bin:/bin".to_string(),
            },
            EnvOverride { name: "FORCE_COLOR".to_string(), value: "1".to_string() },
        ]
    );
}

#[test]
fn launch_plan_uses_the_initial_size() {
    let plan = launch_plan("bash".to_string());
    assert_eq!(plan.program, "bash");
    assert_eq!(plan.env, recommended_env());
    assert_eq!(plan.size, TerminalSize { rows: 24, cols: 80, pixel_width: 0, pixel_height: 0 });
}

#[test]
fn seconds_since_never_goes_negative() {
    assert_eq!(seconds_since(10, 25), 15);
    assert_eq!(seconds_since(25, 25), 0);
    assert_eq!(seconds_since(30, 25), 0);
    assert_eq!(seconds_since(0, u64::MAX), u64::MAX);
}

#[test]
fn reaper_sweeps_every_five_minutes_with_half_an_hour_of_grace() {
    let reaper = IdleReaper::new();
    assert_eq!(reaper.interval_secs, 300);
    assert_eq!(reaper.threshold_secs, 1800);
    assert_eq!(CLEANUP_INTERVAL_SECS, 300);
    assert_eq!(IDLE_TIMEOUT_SECS, 1800);
}

#[test]
fn reaper_removes_abandoned_sessions_only() {
    let reaper = IdleReaper::new();
    let mut manager: PtyManager<u8> = PtyManager::new();
    let abandoned = manager.create_session(1, 0).unwrap();
    let busy = manager.create_session(2, 0).unwrap();
    manager.record_activity(&busy, 1700);
    assert_eq!(reaper.sweep(&mut manager, 1800), 300);
    assert_eq!(manager.active_sessions(), 2);
    assert_eq!(reaper.sweep(&mut manager, 1801), 300);
    assert!(!manager.contains(&abandoned));
    assert!(manager.contains(&busy));
    assert_eq!(reaper.sweep(&mut manager, 3500), 300);
    assert!(manager.contains(&busy));
    assert_eq!(reaper.sweep(&mut manager, 3501), 300);
    assert_eq!(manager.active_sessions(), 0);
}

#[test]
fn reaper_with_its_own_policy() {
    let reaper = IdleReaper { interval_secs: 1, threshold_secs: 10 };
    let mut manager: PtyManager<u8> = PtyManager::new();
    let id = manager.create_session(1, 0).unwrap();
    assert_eq!(reaper.sweep(&mut manager, 10), 1);
    assert!(manager.contains(&id));
    assert_eq!(reaper.sweep(&mut manager, 11), 1);
    assert!(!manager.contains(&id));
}
