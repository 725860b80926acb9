use pty_manager::error::PtyError;
use pty_manager::pty::PtyManager;
use pty_manager::factory::{
    backoff_delay_ms, FactoryStep, PtyFactory, TerminalSize, BACKOFF_BASE_MS, DEFAULT_COLS,
    DEFAULT_ROWS,
};

#[test]
fn backoff_starts_at_a_hundred_and_doubles() {
    assert_eq!(BACKOFF_BASE_MS, 100);
    assert_eq!(backoff_delay_ms(0), 0);
    assert_eq!(backoff_delay_ms(1), 100);
    assert_eq!(backoff_delay_ms(2), 200);
    assert_eq!(backoff_delay_ms(3), 400);
    assert_eq!(backoff_delay_ms(4), 800);
    assert_eq!(backoff_delay_ms(11), 102_400);
}

#[test]
fn backoff_stops_growing_where_it_no_longer_fits() {
    assert_eq!(backoff_delay_ms(58), 100 * (1u64 << 57));
    assert_eq!(backoff_delay_ms(59), u64::MAX);
    assert_eq!(backoff_delay_ms(64), u64::MAX);
    assert_eq!(backoff_delay_ms(u32::MAX), u64::MAX);
}

#[test]
fn backoff_never_shrinks() {
    let mut before = backoff_delay_ms(0);
    for failures in 1..80 {
        let delay = backoff_delay_ms(failures);
        assert!(delay >= before);
        before = delay;
    }
}

#[test]
fn initial_size_is_24_by_80() {
    assert_eq!(DEFAULT_ROWS, 24);
    assert_eq!(DEFAULT_COLS, 80);
    assert_eq!(
        TerminalSize::initial(),
        TerminalSize { rows: 24, cols: 80, pixel_width: 0, pixel_height: 0 }
    );
    assert_eq!(
        TerminalSize::new(3, 7),
        TerminalSize { rows: 3, cols: 7, pixel_width: 0, pixel_height: 0 }
    );
}

#[test]
fn factory_tries_as_often_as_allowed_then_gives_up() {
    let size = TerminalSize::initial();
    let mut factory = PtyFactory::new(3);
    assert_eq!(factory.next_step(size), FactoryStep::Open { delay_ms: 0, size });
    factory.record_failure("first".to_string());
    assert_eq!(factory.failures(), 1);
    assert_eq!(factory.next_step(size), FactoryStep::Open { delay_ms: 100, size });
    factory.record_failure("second".to_string());
    assert_eq!(factory.next_step(size), FactoryStep::Open { delay_ms: 200, size });
    factory.record_failure("forkpty: Resource temporarily unavailable".to_string());
    assert_eq!(factory.failures(), 3);
    let expected = PtyError::ResourceExhausted {
        attempts: 3,
        last_error: "forkpty: Resource temporarily unavailable".to_string(),
        suggestion: "PTY limit reached. Try: sudo sysctl -w kern.tty.ptmx_max=768".to_string(),
    };
    assert_eq!(factory.next_step(size), FactoryStep::GiveUp { error: expected.clone() });
    assert_eq!(
        expected.message(),
        "Failed to create PTY after 3 attempts: forkpty: Resource temporarily unavailable"
    );
    // Asking again changes nothing, and neither does a report that comes too late.
    assert_eq!(factory.next_step(size), FactoryStep::GiveUp { error: expected });
    factory.record_failure("late".to_string());
    assert_eq!(factory.failures(), 3);
}

#[test]
fn registry_hands_out_a_factory_with_its_attempts() {
    let manager: PtyManager<()> = PtyManager::with_limits(5, 2);
    let mut factory = manager.pty_factory();
    let size = TerminalSize::initial();
    assert_eq!(factory.failures(), 0);
    factory.record_failure("a".to_string());
    assert_eq!(factory.next_step(size), FactoryStep::Open { delay_ms: 100, size });
    factory.record_failure("b".to_string());
    match factory.next_step(size) {
        FactoryStep::GiveUp { error } => {
            assert_eq!(error.message(), "Failed to create PTY after 2 attempts: b")
        }
        FactoryStep::Open { .. } => panic!("a third attempt was allowed"),
    }
}

#[test]
fn factory_asks_for_the_size_it_was_given() {
    let factory = PtyFactory::new(1);
    let size = TerminalSize::new(50, 132);
    assert_eq!(factory.next_step(size), FactoryStep::Open { delay_ms: 0, size });
}

#[test]
fn factory_without_attempts_gives_up_at_once() {
    let factory = PtyFactory::new(0);
    match factory.next_step(TerminalSize::initial()) {
        FactoryStep::GiveUp { error } => {
            assert_eq!(
                error,
                PtyError::ResourceExhausted {
                    attempts: 0,
                    last_error: String::new(),
                    suggestion: "Check system resources and permissions".to_string(),
                }
            );
            assert_eq!(error.message(), "Failed to create PTY after 0 attempts: ");
        }
        FactoryStep::Open { .. } => panic!("an attempt was allowed"),
    }
}

#[test]
fn pauses_of_one_run_never_shrink() {
    let mut factory = PtyFactory::new(12);
    let mut before = 0;
    let mut attempts = 0;
    loop {
        match factory.next_step(TerminalSize::initial()) {
            FactoryStep::Open { delay_ms, .. } => {
                assert!(delay_ms >= before);
                before = delay_ms;
                attempts += 1;
                factory.record_failure(format!("failure {}", attempts));
            }
            FactoryStep::GiveUp { error } => {
                assert_eq!(
                    error.message(),
                    "Failed to create PTY after 12 attempts: failure 12"
                );
                break;
            }
        }
    }
    assert_eq!(attempts, 12);
    assert_eq!(before, 100 * 1024);
}

#[test]
fn exhaustion_suggests_raising_the_limit_for_either_marker() {
    let limit = "PTY limit reached. Try: sudo sysctl -w kern.tty.ptmx_max=768";
    for said in [
        "forkpty failed",
        "fork: Resource temporarily unavailable (os error 35)",
        "forkpty: Resource temporarily unavailable",
    ] {
        let mut factory = PtyFactory::new(1);
        factory.record_failure(said.to_string());
        match factory.next_step(TerminalSize::initial()) {
            FactoryStep::GiveUp { error } => {
                assert_eq!(error.suggestion(), Some(limit.to_string()));
                assert_ne!(error.suggestion(), Some(said.to_string()));
            }
            FactoryStep::Open { .. } => panic!("a second attempt was allowed"),
        }
    }
}

#[test]
fn other_failures_of_opening_get_the_general_suggestion() {
    let mut factory = PtyFactory::new(1);
    factory.record_failure("Permission denied (os error 13)".to_string());
    match factory.next_step(TerminalSize::initial()) {
        FactoryStep::GiveUp { error } => {
            assert_eq!(
                error,
                PtyError::ResourceExhausted {
                    attempts: 1,
                    last_error: "Permission denied (os error 13)".to_string(),
                    suggestion: "Check system resources and permissions".to_string(),
                }
            );
        }
        FactoryStep::Open { .. } => panic!("a second attempt was allowed"),
    }
}
