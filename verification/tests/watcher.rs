use ptyproxy::fd_winsize::WindowSize;
use ptyproxy::watcher::ResizeFlag;

#[test]
fn fresh_flag_owes_the_initial_resync() {
    let mut flag = ResizeFlag::new();
    assert!(flag.take());
    assert!(!flag.take());
}

#[test]
fn initial_resync_applies_the_real_size_at_session_start() {
    // The terminal reports (24, 80) when the session starts: the first
    // watcher pass hands back exactly that size to apply to the PTY master,
    // before any bytes are relayed.
    let mut flag = ResizeFlag::new();
    let real = Some(WindowSize::new(24, 80));
    assert_eq!(flag.watcher_step(real), Some(WindowSize::new(24, 80)));
}

#[test]
fn rapid_notifications_coalesce_into_one_resync() {
    let mut flag = ResizeFlag::new();
    // Drain the initial synchronization.
    let _ = flag.watcher_step(Some(WindowSize::new(24, 80)));

    // Several size changes arrive before the watcher's next check.
    flag.notify();
    flag.notify();
    flag.notify();

    // Exactly one resync happens, reflecting the size at the time of the
    // check; the next check without new notifications does nothing.
    let size_at_check = Some(WindowSize::new(52, 211));
    assert_eq!(flag.watcher_step(size_at_check), Some(WindowSize::new(52, 211)));
    assert_eq!(flag.watcher_step(Some(WindowSize::new(52, 211))), None);
}

#[test]
fn notification_with_no_terminal_clears_the_flag_and_applies_nothing() {
    let mut flag = ResizeFlag::new();
    let _ = flag.take();
    flag.notify();
    assert_eq!(flag.watcher_step(None), None);
    assert_eq!(flag.watcher_step(Some(WindowSize::new(1, 1))), None);
}

#[test]
fn idle_watcher_does_nothing() {
    let mut flag = ResizeFlag::new();
    let _ = flag.take();
    assert_eq!(flag.watcher_step(Some(WindowSize::new(30, 100))), None);
}

#[test]
fn window_size_holds_rows_and_cols() {
    let ws = WindowSize::new(43, 132);
    assert_eq!(ws.rows, 43);
    assert_eq!(ws.cols, 132);
}
