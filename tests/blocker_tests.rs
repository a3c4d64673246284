use focus_timer::blocker::{BlockerAction, FocusBlocker, OsOutcome, Stage};
use focus_timer::hosts::{
    append_hosts_block, blocked_domains, detect_newline, has_block_marker, strip_hosts_block,
};

fn expected_block(nl: &str) -> String {
    let mut out = String::from("# focus-timer-block-start");
    out.push_str(nl);
    for d in blocked_domains() {
        out.push_str("0.0.0.0 ");
        out.push_str(d);
        out.push_str(nl);
    }
    out.push_str("# focus-timer-block-end");
    out.push_str(nl);
    out
}

fn finish_ok(a: &BlockerAction) -> bool {
    matches!(a, BlockerAction::Finish(Ok(())))
}

fn enabled_blocker() -> FocusBlocker {
    let mut b = FocusBlocker::new();
    assert!(matches!(b.enable(), BlockerAction::SuppressNotifications));
    let a = b.resume(OsOutcome::Suppressed(Ok((Some(1), true))));
    assert!(matches!(a, BlockerAction::ReadHosts));
    let a = b.resume(OsOutcome::HostsRead(Ok("127.0.0.1 localhost\n".to_string())));
    assert!(matches!(a, BlockerAction::WriteHosts(_)));
    let a = b.resume(OsOutcome::HostsWritten(Ok(())));
    assert!(finish_ok(&a));
    b
}

#[test]
fn blocked_domain_list() {
    let ds = blocked_domains();
    assert_eq!(ds.len(), 18);
    assert_eq!(ds[0], "facebook.com");
    assert_eq!(ds[17], "old.reddit.com");
}

#[test]
fn newline_detection() {
    assert_eq!(detect_newline("a\r\nb"), "\r\n");
    assert_eq!(detect_newline("a\nb"), "\n");
    assert_eq!(detect_newline(""), "\n");
}

#[test]
fn strip_without_marker_keeps_text() {
    let t = "127.0.0.1 localhost";
    assert_eq!(strip_hosts_block(t), t);
    assert!(!has_block_marker(t));
}

#[test]
fn strip_removes_block() {
    let t = "127.0.0.1 localhost\n# focus-timer-block-start\n0.0.0.0 x.com\n# focus-timer-block-end  \n::1 localhost\n";
    assert!(has_block_marker(t));
    assert_eq!(strip_hosts_block(t), "127.0.0.1 localhost\n::1 localhost\n");
}

#[test]
fn strip_keeps_crlf() {
    let t = "a\r\n# focus-timer-block-start\r\n0.0.0.0 x.com\r\n# focus-timer-block-end\r\nb";
    assert_eq!(strip_hosts_block(t), "a\r\nb\r\n");
}

#[test]
fn append_adds_block() {
    let t = "127.0.0.1 localhost";
    let mut expect = String::from("127.0.0.1 localhost\n");
    expect.push_str(&expected_block("\n"));
    assert_eq!(append_hosts_block(t), expect);
}

#[test]
fn append_replaces_earlier_block() {
    let once = append_hosts_block("127.0.0.1 localhost\n");
    assert_eq!(append_hosts_block(&once), once);
    assert_eq!(strip_hosts_block(&once), "127.0.0.1 localhost\n");
}

#[test]
fn append_to_empty_text() {
    assert_eq!(append_hosts_block(""), expected_block("\n"));
}

#[test]
fn enable_success_sequence() {
    let mut b = FocusBlocker::default();
    assert!(matches!(b.enable(), BlockerAction::SuppressNotifications));
    b.resume(OsOutcome::Suppressed(Ok((Some(1), true))));
    assert!(b.suppressed);
    let a = b.resume(OsOutcome::HostsRead(Ok("h\n".to_string())));
    match a {
        BlockerAction::WriteHosts(w) => assert_eq!(w, append_hosts_block("h\n")),
        other => panic!("unexpected {other:?}"),
    }
    assert!(finish_ok(&b.resume(OsOutcome::HostsWritten(Ok(())))));
    assert!(b.enabled);
    assert_eq!(b.stage, Stage::Idle);
    assert_eq!(b.toast_prev, Some(1));
    assert!(b.toast_prev_existed);
}

#[test]
fn enable_twice_is_noop() {
    let mut b = enabled_blocker();
    let before = (b.enabled, b.suppressed, b.toast_prev, b.toast_prev_existed, b.stage);
    assert!(finish_ok(&b.enable()));
    assert_eq!(before, (b.enabled, b.suppressed, b.toast_prev, b.toast_prev_existed, b.stage));
}

#[test]
fn failed_write_rolls_back_notifications() {
    let mut b = FocusBlocker::new();
    b.enable();
    b.resume(OsOutcome::Suppressed(Ok((Some(1), true))));
    b.resume(OsOutcome::HostsRead(Ok("h\n".to_string())));
    let a = b.resume(OsOutcome::HostsWritten(Err("access denied".to_string())));
    match a {
        BlockerAction::RestoreNotifications { prev, existed } => {
            assert_eq!(prev, Some(1));
            assert!(existed);
        }
        other => panic!("unexpected {other:?}"),
    }
    let a = b.resume(OsOutcome::Restored(Ok(())));
    match a {
        BlockerAction::Finish(Err(e)) => assert_eq!(e, "access denied"),
        other => panic!("unexpected {other:?}"),
    }
    assert!(!b.enabled);
    assert!(!b.suppressed);
    assert_eq!(b.toast_prev, None);
    assert_eq!(b.stage, Stage::Idle);
}

#[test]
fn failed_read_rolls_back_notifications() {
    let mut b = FocusBlocker::new();
    b.enable();
    b.resume(OsOutcome::Suppressed(Ok((None, false))));
    let a = b.resume(OsOutcome::HostsRead(Err("missing".to_string())));
    assert!(matches!(a, BlockerAction::RestoreNotifications { prev: None, existed: false }));
    let a = b.resume(OsOutcome::Restored(Ok(())));
    assert!(matches!(a, BlockerAction::Finish(Err(_))));
    assert!(!b.enabled && !b.suppressed);
}

#[test]
fn failed_suppress_aborts_enable() {
    let mut b = FocusBlocker::new();
    b.enable();
    let a = b.resume(OsOutcome::Suppressed(Err("registry".to_string())));
    assert!(matches!(a, BlockerAction::Finish(Err(_))));
    assert!(!b.enabled && !b.suppressed);
}

#[test]
fn disable_restores_first_then_unblocks() {
    let mut b = enabled_blocker();
    match b.disable() {
        BlockerAction::RestoreNotifications { prev, existed } => {
            assert_eq!(prev, Some(1));
            assert!(existed);
        }
        other => panic!("unexpected {other:?}"),
    }
    let a = b.resume(OsOutcome::Restored(Ok(())));
    assert!(matches!(a, BlockerAction::ReadHosts));
    assert!(!b.suppressed);
    let blocked = append_hosts_block("h\n");
    match b.resume(OsOutcome::HostsRead(Ok(blocked))) {
        BlockerAction::WriteHosts(w) => assert_eq!(w, "h\n"),
        other => panic!("unexpected {other:?}"),
    }
    assert!(finish_ok(&b.resume(OsOutcome::HostsWritten(Ok(())))));
    assert!(!b.enabled);
}

#[test]
fn disable_failure_keeps_blocking_on() {
    let mut b = enabled_blocker();
    b.disable();
    b.resume(OsOutcome::Restored(Ok(())));
    let a = b.resume(OsOutcome::HostsRead(Err("denied".to_string())));
    assert!(matches!(a, BlockerAction::Finish(Err(_))));
    assert!(b.enabled);
    assert!(!b.suppressed);
}

#[test]
fn disable_when_off_cleans_leftover_block() {
    let mut b = FocusBlocker::new();
    assert!(matches!(b.ensure_disabled(), BlockerAction::ReadHosts));
    match b.resume(OsOutcome::HostsRead(Ok(append_hosts_block("h\n")))) {
        BlockerAction::WriteHosts(w) => assert_eq!(w, "h\n"),
        other => panic!("unexpected {other:?}"),
    }
    assert!(finish_ok(&b.resume(OsOutcome::HostsWritten(Err("denied".to_string())))));
    assert!(!b.enabled);
}

#[test]
fn disable_twice_touches_nothing_more() {
    let mut b = FocusBlocker::new();
    assert!(matches!(b.disable(), BlockerAction::ReadHosts));
    assert!(finish_ok(&b.resume(OsOutcome::HostsRead(Ok("h\n".to_string())))));
    assert!(matches!(b.disable(), BlockerAction::ReadHosts));
    assert!(finish_ok(&b.resume(OsOutcome::HostsRead(Err("gone".to_string())))));
    assert!(!b.enabled && !b.suppressed);
    assert!(b.is_idle());
}

#[test]
fn outcome_must_match_stage() {
    let mut b = FocusBlocker::new();
    assert!(!b.awaits(&OsOutcome::HostsWritten(Ok(()))));
    b.enable();
    assert!(b.awaits(&OsOutcome::Suppressed(Ok((None, false)))));
    assert!(!b.awaits(&OsOutcome::HostsRead(Ok(String::new()))));
}

#[test]
fn retried_disable_restores_saved_value() {
    let mut b = enabled_blocker();
    b.disable();
    assert!(matches!(b.resume(OsOutcome::Restored(Ok(()))), BlockerAction::ReadHosts));
    let blocked = append_hosts_block("h\n");
    assert!(matches!(b.resume(OsOutcome::HostsRead(Ok(blocked))), BlockerAction::WriteHosts(_)));
    let a = b.resume(OsOutcome::HostsWritten(Err("denied".to_string())));
    assert!(matches!(a, BlockerAction::Finish(Err(_))));
    assert!(b.enabled);
    match b.disable() {
        BlockerAction::RestoreNotifications { prev, existed } => {
            assert_eq!(prev, Some(1));
            assert!(existed);
        }
        other => panic!("unexpected {other:?}"),
    }
    b.resume(OsOutcome::Restored(Ok(())));
    b.resume(OsOutcome::HostsRead(Ok("h\n".to_string())));
    assert!(finish_ok(&b.resume(OsOutcome::HostsWritten(Ok(())))));
    assert!(!b.enabled);
    assert_eq!(b.toast_prev, None);
    assert!(!b.toast_prev_existed);
}

#[test]
fn strip_twice_equals_strip_once() {
    let t = "a # focus-timer-block-start\n# focus-timer-block-start\nx\n# focus-timer-block-end\nb\n";
    let once = strip_hosts_block(t);
    assert_eq!(once, "a # focus-timer-block-start\nb\n");
    assert_eq!(strip_hosts_block(&once), once);
}
