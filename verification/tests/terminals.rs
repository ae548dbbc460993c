use statline::should_colorize_output;

#[test]
fn no_color_signal_wins_over_a_terminal() {
    assert!(!should_colorize_output(true, true));
    assert!(!should_colorize_output(true, false));
}

#[test]
fn without_the_signal_the_terminal_decides() {
    assert!(should_colorize_output(false, true));
    assert!(!should_colorize_output(false, false));
}
