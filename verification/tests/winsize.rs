use ptyproxy::fd_winsize::{get_size, size_decision, WindowSize};

#[test]
fn no_terminal_means_no_size() {
    // The gating decision: from a descriptor that is not a terminal the size
    // is absent — a normal answer, not an error — whatever a query might
    // have reported.
    assert_eq!(size_decision(false, Some(WindowSize::new(24, 80))), None);
    assert_eq!(size_decision(false, None), None);
}

#[test]
fn a_terminal_hands_the_queried_size_through_unchanged() {
    assert_eq!(
        size_decision(true, Some(WindowSize::new(24, 80))),
        Some(WindowSize::new(24, 80))
    );
    // A terminal whose size query failed still has no size to report.
    assert_eq!(size_decision(true, None), None);
}

#[test]
fn redirected_output_has_no_size() {
    // The test harness runs with standard output redirected to a pipe, not a
    // terminal device: the absent size is the normal answer, and the relay
    // proceeds as a plain byte pipe.
    assert_eq!(get_size(), None);
}
