use pty_manager::error::PtyError;
use pty_manager::factory::TerminalSize;
use pty_manager::pty::{PtyManager, DEFAULT_MAX_SESSIONS, DEFAULT_RETRY_ATTEMPTS};
use pty_manager::session::IDLE_TIMEOUT_SECS;

fn looks_like_uuid(id: &str) -> bool {
    let chars: Vec<char> = id.chars().collect();
    chars.len() == 36
        && chars.iter().enumerate().all(|(i, c)| {
            if i == 8 || i == 13 || i == 18 || i == 23 {
                *c == '-'
            } else {
                c.is_ascii_digit() || ('a'..='f').contains(c)
            }
        })
        && chars[14] == '4'
}

#[test]
fn new_registry_has_the_default_limits() {
    let manager: PtyManager<()> = PtyManager::new();
    assert_eq!(manager.max_sessions(), 10);
    assert_eq!(manager.retry_attempts(), 3);
    assert_eq!(DEFAULT_MAX_SESSIONS, 10);
    assert_eq!(DEFAULT_RETRY_ATTEMPTS, 3);
    assert_eq!(manager.active_sessions(), 0);
}

#[test]
fn capacity_scenario_with_two_slots() {
    let mut manager: PtyManager<u32> = PtyManager::with_limits(2, 3);
    let a = manager.create_session(1, 0).unwrap();
    let b = manager.create_session(2, 0).unwrap();
    assert_ne!(a, b);
    assert_eq!(
        manager.create_session(3, 0),
        Err(PtyError::CapacityExceeded { max_sessions: 2 })
    );
    assert_eq!(manager.active_sessions(), 2);
    assert_eq!(manager.close_session(&a), Ok(()));
    let c = manager.create_session(3, 0).unwrap();
    assert!(manager.contains(&c));
    assert!(manager.contains(&b));
    assert!(!manager.contains(&a));
    assert_eq!(manager.active_sessions(), 2);
}

#[test]
fn created_ids_are_fresh_and_shaped_like_uuids() {
    let mut manager: PtyManager<usize> = PtyManager::new();
    let mut ids: Vec<String> = Vec::new();
    for n in 0..10 {
        let id = manager.create_session(n, 5).unwrap();
        assert!(looks_like_uuid(&id), "{}", id);
        assert!(!ids.contains(&id));
        assert!(manager.contains(&id));
        ids.push(id);
    }
    assert_eq!(manager.active_sessions(), 10);
    for (n, id) in ids.iter().enumerate() {
        let session = manager.session(id).unwrap();
        assert_eq!(&session.id, id);
        assert_eq!(session.handle, n);
        assert_eq!(session.created_at, 5);
        assert_eq!(session.last_activity, 5);
    }
}

#[test]
fn eleventh_session_is_refused_by_default() {
    let mut manager: PtyManager<()> = PtyManager::new();
    for _ in 0..10 {
        assert!(manager.create_session((), 0).is_ok());
    }
    let refused = manager.create_session((), 0).unwrap_err();
    assert_eq!(refused, PtyError::CapacityExceeded { max_sessions: 10 });
    assert_eq!(refused.message(), "Maximum number of sessions (10) reached");
    assert_eq!(manager.active_sessions(), 10);
}

#[test]
fn full_registry_sweeps_idle_sessions_before_refusing() {
    let mut manager: PtyManager<u8> = PtyManager::with_limits(2, 3);
    let old = manager.create_session(1, 0).unwrap();
    let recent = manager.create_session(2, 1000).unwrap();
    // At 1801 the first session has been idle for 1801 s, the second for 801 s.
    let fresh = manager.create_session(3, 1801).unwrap();
    assert!(!manager.contains(&old));
    assert!(manager.contains(&recent));
    assert!(manager.contains(&fresh));
    assert_eq!(manager.active_sessions(), 2);
}

#[test]
fn full_registry_without_idle_sessions_refuses() {
    let mut manager: PtyManager<u8> = PtyManager::with_limits(2, 3);
    let a = manager.create_session(1, 0).unwrap();
    let b = manager.create_session(2, 0).unwrap();
    // Exactly at the threshold nobody is idle yet.
    assert_eq!(
        manager.create_session(3, IDLE_TIMEOUT_SECS),
        Err(PtyError::CapacityExceeded { max_sessions: 2 })
    );
    assert!(manager.contains(&a));
    assert!(manager.contains(&b));
}

#[test]
fn registry_with_room_does_not_sweep() {
    let mut manager: PtyManager<u8> = PtyManager::with_limits(3, 3);
    let a = manager.create_session(1, 0).unwrap();
    let b = manager.create_session(2, 100_000).unwrap();
    assert!(manager.contains(&a));
    assert!(manager.contains(&b));
}

#[test]
fn make_room_reports_room() {
    let mut manager: PtyManager<u8> = PtyManager::with_limits(1, 3);
    assert_eq!(manager.make_room(0), Ok(()));
    let a = manager.create_session(1, 0).unwrap();
    assert_eq!(
        manager.make_room(10),
        Err(PtyError::CapacityExceeded { max_sessions: 1 })
    );
    assert!(manager.contains(&a));
    assert_eq!(manager.make_room(1801), Ok(()));
    assert!(!manager.contains(&a));
}

#[test]
fn registry_without_slots_refuses_everything() {
    let mut manager: PtyManager<u8> = PtyManager::with_limits(0, 3);
    assert_eq!(
        manager.create_session(1, 0),
        Err(PtyError::CapacityExceeded { max_sessions: 0 })
    );
}

#[test]
fn register_session_keeps_the_given_id() {
    let mut manager: PtyManager<&str> = PtyManager::new();
    assert_eq!(
        manager.register_session("alpha".to_string(), "first", 7),
        Ok("alpha".to_string())
    );
    assert!(manager.contains("alpha"));
    assert_eq!(manager.session("alpha").unwrap().handle, "first");
}

#[test]
fn register_session_refuses_a_live_id() {
    let mut manager: PtyManager<&str> = PtyManager::new();
    manager.register_session("alpha".to_string(), "first", 7).unwrap();
    assert_eq!(
        manager.register_session("alpha".to_string(), "second", 8),
        Err(PtyError::IdCollision)
    );
    assert_eq!(manager.active_sessions(), 1);
    assert_eq!(manager.session("alpha").unwrap().handle, "first");
    manager.close_session("alpha").unwrap();
    assert_eq!(
        manager.register_session("alpha".to_string(), "third", 9),
        Ok("alpha".to_string())
    );
    assert_eq!(manager.session("alpha").unwrap().handle, "third");
}

#[test]
fn room_comes_before_the_id() {
    let mut manager: PtyManager<u8> = PtyManager::with_limits(1, 3);
    manager.register_session("alpha".to_string(), 1, 0).unwrap();
    assert_eq!(
        manager.register_session("alpha".to_string(), 2, 0),
        Err(PtyError::CapacityExceeded { max_sessions: 1 })
    );
}

#[test]
fn close_removes_and_second_close_fails() {
    let mut manager: PtyManager<u8> = PtyManager::new();
    let a = manager.create_session(1, 0).unwrap();
    let b = manager.create_session(2, 0).unwrap();
    assert_eq!(manager.close_session(&a), Ok(()));
    let stats = manager.get_stats(1, "linux", false, None);
    assert_eq!(stats.active_sessions, 1);
    assert!(stats.sessions.iter().all(|line| line.id != a));
    assert!(stats.sessions.iter().any(|line| line.id == b));
    assert_eq!(manager.close_session(&a), Err(PtyError::SessionNotFound));
    assert_eq!(manager.active_sessions(), 1);
}

#[test]
fn unknown_ids_are_not_found() {
    let mut manager: PtyManager<u8> = PtyManager::new();
    manager.create_session(1, 0).unwrap();
    assert_eq!(
        manager.write_to_session("nobody", 1).unwrap_err(),
        PtyError::SessionNotFound
    );
    assert_eq!(
        manager.resize_session("nobody", 30, 100, 1).unwrap_err(),
        PtyError::SessionNotFound
    );
    assert_eq!(manager.close_session("nobody"), Err(PtyError::SessionNotFound));
    assert_eq!(manager.close_session(""), Err(PtyError::SessionNotFound));
    assert!(!manager.record_activity("nobody", 1));
    assert!(manager.session("nobody").is_none());
    assert_eq!(manager.active_sessions(), 1);
    assert_eq!(PtyError::SessionNotFound.message(), "Session not found");
}

#[test]
fn write_lends_the_handle_and_notes_activity() {
    let mut manager: PtyManager<Vec<u8>> = PtyManager::new();
    let id = manager.create_session(Vec::new(), 10).unwrap();
    {
        let sink = manager.write_to_session(&id, 25).unwrap();
        sink.extend_from_slice("ls\n".as_bytes());
    }
    let session = manager.session(&id).unwrap();
    assert_eq!(session.handle, b"ls\n".to_vec());
    assert_eq!(session.created_at, 10);
    assert_eq!(session.last_activity, 25);
}

#[test]
fn activity_time_never_moves_back() {
    let mut manager: PtyManager<u8> = PtyManager::new();
    let id = manager.create_session(1, 100).unwrap();
    manager.write_to_session(&id, 50).unwrap();
    assert_eq!(manager.session(&id).unwrap().last_activity, 100);
    assert!(manager.record_activity(&id, 150));
    assert_eq!(manager.session(&id).unwrap().last_activity, 150);
    manager.resize_session(&id, 24, 80, 120).unwrap();
    assert_eq!(manager.session(&id).unwrap().last_activity, 150);
    manager.resize_session(&id, 24, 80, 151).unwrap();
    assert_eq!(manager.session(&id).unwrap().last_activity, 151);
    assert_eq!(manager.session(&id).unwrap().created_at, 100);
}

#[test]
fn resize_hands_out_the_size_in_cells() {
    let mut manager: PtyManager<(u16, u16)> = PtyManager::new();
    let id = manager.create_session((24, 80), 0).unwrap();
    {
        let (handle, size) = manager.resize_session(&id, 40, 120, 3).unwrap();
        assert_eq!(
            size,
            TerminalSize { rows: 40, cols: 120, pixel_width: 0, pixel_height: 0 }
        );
        *handle = (size.rows, size.cols);
    }
    assert_eq!(manager.session(&id).unwrap().handle, (40, 120));
    assert_eq!(manager.session(&id).unwrap().last_activity, 3);
}

#[test]
fn cleanup_removes_only_sessions_idle_beyond_the_threshold() {
    let mut manager: PtyManager<u8> = PtyManager::new();
    let at_threshold = manager.create_session(1, 100).unwrap();
    let beyond = manager.create_session(2, 99).unwrap();
    let active = manager.create_session(3, 0).unwrap();
    manager.record_activity(&active, 1500);
    let from_the_future = manager.create_session(4, 5000).unwrap();
    manager.cleanup_idle_sessions(1800, 1900);
    assert!(manager.contains(&at_threshold));
    assert!(!manager.contains(&beyond));
    assert!(manager.contains(&active));
    assert!(manager.contains(&from_the_future));
    assert_eq!(manager.active_sessions(), 3);
    assert_eq!(manager.session(&active).unwrap().last_activity, 1500);
}

#[test]
fn cleanup_can_empty_the_registry() {
    let mut manager: PtyManager<u8> = PtyManager::new();
    for n in 0..5 {
        manager.create_session(n, 0).unwrap();
    }
    manager.cleanup_idle_sessions(0, 0);
    assert_eq!(manager.active_sessions(), 5);
    manager.cleanup_idle_sessions(0, 1);
    assert_eq!(manager.active_sessions(), 0);
}

#[test]
fn stats_show_every_session_once() {
    let mut manager: PtyManager<u8> = PtyManager::with_limits(4, 3);
    let a = manager.create_session(1, 10).unwrap();
    let b = manager.create_session(2, 20).unwrap();
    manager.record_activity(&a, 40);
    let stats = manager.get_stats(100, "linux", false, Some("/bin/zsh"));
    assert_eq!(stats.active_sessions, 2);
    assert_eq!(stats.max_sessions, 4);
    assert_eq!(stats.platform, "linux");
    assert_eq!(stats.shell, "/bin/zsh");
    assert_eq!(stats.sessions.len(), 2);
    let line_a = stats.sessions.iter().find(|line| line.id == a).unwrap();
    assert_eq!(line_a.age_seconds, 90);
    assert_eq!(line_a.idle_seconds, 60);
    let line_b = stats.sessions.iter().find(|line| line.id == b).unwrap();
    assert_eq!(line_b.age_seconds, 80);
    assert_eq!(line_b.idle_seconds, 80);
    // Looking does not change anything.
    assert_eq!(manager.session(&a).unwrap().last_activity, 40);
}

#[test]
fn stats_of_an_empty_registry() {
    let manager: PtyManager<u8> = PtyManager::new();
    let stats = manager.get_stats(0, "macos", false, None);
    assert_eq!(stats.active_sessions, 0);
    assert_eq!(stats.max_sessions, 10);
    assert!(stats.sessions.is_empty());
    assert_eq!(stats.platform, "macos");
    assert_eq!(stats.shell, "/bin/bash");
}

#[test]
fn stats_before_registration_time_show_zero() {
    let mut manager: PtyManager<u8> = PtyManager::new();
    manager.create_session(1, 500).unwrap();
    let stats = manager.get_stats(100, "linux", false, None);
    assert_eq!(stats.sessions[0].age_seconds, 0);
    assert_eq!(stats.sessions[0].idle_seconds, 0);
}

#[test]
fn stats_show_the_shell_that_a_new_session_would_run() {
    let manager: PtyManager<u8> = PtyManager::new();
    assert_eq!(manager.get_stats(0, "linux", false, None).shell, "/bin/bash");
    assert_eq!(manager.get_stats(0, "windows", true, None).shell, "cmd.exe");
    assert_eq!(manager.get_stats(0, "linux", false, Some("/bin/fish")).shell, "/bin/fish");
    assert_eq!(manager.get_stats(0, "windows", true, Some("pwsh.exe")).shell, "pwsh.exe");
    assert_eq!(manager.get_stats(0, "windows", true, None).platform, "windows");
}

#[test]
fn no_session_is_idle_for_longer_than_it_exists() {
    let mut manager: PtyManager<u8> = PtyManager::new();
    let a = manager.create_session(1, 100).unwrap();
    let b = manager.create_session(2, 200).unwrap();
    manager.record_activity(&a, 50);
    manager.write_to_session(&b, 10).unwrap();
    manager.resize_session(&a, 1, 1, 150).unwrap();
    for now in [0, 99, 100, 149, 150, 200, 5000] {
        let stats = manager.get_stats(now, "linux", false, None);
        assert_eq!(stats.sessions.len(), 2);
        for line in &stats.sessions {
            assert!(line.idle_seconds <= line.age_seconds);
        }
    }
    let stats = manager.get_stats(400, "linux", false, None);
    let line_a = stats.sessions.iter().find(|line| line.id == a).unwrap();
    assert_eq!((line_a.age_seconds, line_a.idle_seconds), (300, 250));
    let line_b = stats.sessions.iter().find(|line| line.id == b).unwrap();
    assert_eq!((line_b.age_seconds, line_b.idle_seconds), (200, 200));
}

#[test]
fn first_sessions_of_an_empty_registry_are_registered() {
    let mut manager: PtyManager<u8> = PtyManager::with_limits(2, 3);
    let a = manager.create_session(1, 0).unwrap();
    let b = manager.create_session(2, 0).unwrap();
    assert_ne!(a, b);
    let stats = manager.get_stats(0, "linux", false, None);
    assert_eq!(stats.active_sessions, 2);
    let mut listed: Vec<String> = stats.sessions.iter().map(|line| line.id.clone()).collect();
    listed.sort();
    let mut expected = vec![a, b];
    expected.sort();
    assert_eq!(listed, expected);
}
