use interprocess::options::QueueOptions;
use interprocess::semaphore::{
    classify_failure, deadline_after, has_nul_byte, ErrnoCodes, next_wait_step, semaphore_name, wait_strategy, AttemptOutcome,
    SemaphoreNameError, Timespec, WaitStep, WaitStrategy,
};

#[test]
fn semaphore_name_outside_macos() {
    assert_eq!(semaphore_name("q", false), Ok("/ct.ip.q".to_string()));
}

#[test]
fn semaphore_name_on_macos_is_hashed() {
    assert_eq!(semaphore_name("q", true), Ok("/sem_uKzt2BOXY4As0pk4iitt8kwL".to_string()));
    assert_eq!(
        semaphore_name("renderide_primary", true),
        Ok("/sem_ZsX1PKfjMHCHWm7CD_PfxvBE".to_string())
    );
}

#[test]
fn semaphore_name_with_nul_is_rejected() {
    assert_eq!(semaphore_name("a\0b", false), Err(SemaphoreNameError::ContainsNul));
    assert!(semaphore_name("a\0b", true).is_ok());
}

#[test]
fn nul_bytes_are_found() {
    assert!(has_nul_byte(b"ab\0"));
    assert!(!has_nul_byte(b"abc"));
    assert!(!has_nul_byte(b""));
}

#[test]
fn wait_strategy_by_timeout_and_platform() {
    assert_eq!(wait_strategy(0, false), WaitStrategy::TryOnce);
    assert_eq!(wait_strategy(0, true), WaitStrategy::TryOnce);
    assert_eq!(wait_strategy(1, true), WaitStrategy::Poll);
    assert_eq!(wait_strategy(1, false), WaitStrategy::TimedWait);
}

#[test]
fn wait_steps() {
    for s in [WaitStrategy::TryOnce, WaitStrategy::Poll, WaitStrategy::TimedWait] {
        assert_eq!(next_wait_step(s, AttemptOutcome::Acquired), WaitStep::Finish(true));
        assert_eq!(next_wait_step(s, AttemptOutcome::Interrupted), WaitStep::Retry);
        assert_eq!(next_wait_step(s, AttemptOutcome::DeadlinePassed), WaitStep::Finish(false));
    }
    assert_eq!(
        next_wait_step(WaitStrategy::TryOnce, AttemptOutcome::Unavailable),
        WaitStep::Finish(false)
    );
    assert_eq!(
        next_wait_step(WaitStrategy::TimedWait, AttemptOutcome::TimedOut),
        WaitStep::Finish(false)
    );
    assert_eq!(
        next_wait_step(WaitStrategy::TimedWait, AttemptOutcome::Failed),
        WaitStep::Finish(false)
    );
    assert_eq!(next_wait_step(WaitStrategy::Poll, AttemptOutcome::Unavailable), WaitStep::Retry);
}

#[test]
fn deadline_carries_nanoseconds() {
    let d = deadline_after(Timespec { sec: 100, nsec: 900_000_000 }, 2, 300_000_000);
    assert_eq!(d, Timespec { sec: 103, nsec: 200_000_000 });
    let d = deadline_after(Timespec { sec: 0, nsec: 0 }, 0, 1);
    assert_eq!(d, Timespec { sec: 0, nsec: 1 });
}

#[test]
fn deadline_before_epoch_rounds_toward_zero() {
    let d = deadline_after(Timespec { sec: -5, nsec: 0 }, 1, 500_000_000);
    assert_eq!(d, Timespec { sec: -3, nsec: -500_000_000 });
}

#[test]
fn deadline_with_huge_timeout_truncates_seconds() {
    let d = deadline_after(Timespec { sec: 0, nsec: 0 }, u64::MAX, 0);
    assert_eq!(d, Timespec { sec: u64::MAX as i64, nsec: 0 });
}

#[test]
fn queue_semaphore_matches_posix_name() {
    let o = QueueOptions::with_path("renderer_in", "/dev/shm/q", 64).expect("valid");
    assert_eq!(semaphore_name(&o.memory_view_name, false), Ok(o.posix_semaphore_name()));
}

#[test]
fn normalized_deadline_is_timeout_after_now() {
    let now = Timespec { sec: 1_700_000_000, nsec: 999_999_999 };
    let d = deadline_after(now, 5, 2);
    assert!(0 <= d.nsec && d.nsec < 1_000_000_000);
    assert_eq!(
        d.sec as i128 * 1_000_000_000 + d.nsec as i128,
        now.sec as i128 * 1_000_000_000 + now.nsec as i128 + 5_000_000_002
    );
}

#[test]
fn failures_are_classified_by_errno() {
    let codes = ErrnoCodes { interrupted: 4, would_block: 11, busy: 16, timed_out: 110 };
    assert_eq!(classify_failure(Some(4), codes), AttemptOutcome::Interrupted);
    assert_eq!(classify_failure(Some(11), codes), AttemptOutcome::Unavailable);
    assert_eq!(classify_failure(Some(16), codes), AttemptOutcome::Unavailable);
    assert_eq!(classify_failure(Some(110), codes), AttemptOutcome::TimedOut);
    assert_eq!(classify_failure(Some(5), codes), AttemptOutcome::Failed);
    assert_eq!(classify_failure(None, codes), AttemptOutcome::Failed);
}

#[test]
fn macos_names_are_short_and_never_rejected() {
    for q in ["", "a\0b", "renderer_in", "a very long queue name with spaces and ünïcode"] {
        let n = semaphore_name(q, true).expect("macOS names are always valid");
        assert_eq!(n.len(), 29);
        assert!(n.is_ascii());
        assert!(n.starts_with("/sem_"));
    }
}
