use atomic_spinners::{decimal, elapsed_text, render_line, stop_line};

#[test]
fn decimal_single_digits() {
    assert_eq!(decimal(0), "0");
    assert_eq!(decimal(7), "7");
    assert_eq!(decimal(9), "9");
}

#[test]
fn decimal_multiple_digits() {
    assert_eq!(decimal(10), "10");
    assert_eq!(decimal(123456), "123456");
    assert_eq!(decimal(18446744073709551615), "18446744073709551615");
}

#[test]
fn elapsed_under_a_second_is_milliseconds() {
    assert_eq!(elapsed_text(0), "0ms");
    assert_eq!(elapsed_text(999), "999ms");
}

#[test]
fn elapsed_from_a_second_is_whole_seconds() {
    assert_eq!(elapsed_text(1000), "1s");
    assert_eq!(elapsed_text(2500), "2s");
    assert_eq!(elapsed_text(61000), "61s");
}

#[test]
fn line_without_timer_has_no_annotation() {
    let line = render_line("|", "loading", None, 42);
    assert_eq!(line, "\r\u{1b}[K| loading");
}

#[test]
fn line_with_timer_appends_elapsed() {
    let line = render_line("|", "loading", Some(1000), 1500);
    assert_eq!(line, "\r\u{1b}[K| loading (500ms)");
}

#[test]
fn line_with_timer_clamps_a_backward_clock() {
    let line = render_line("|", "loading", Some(2000), 1500);
    assert_eq!(line, "\r\u{1b}[K| loading (0ms)");
}

#[test]
fn timer_annotation_never_decreases() {
    let first = render_line("|", "work", Some(100), 600);
    let second = render_line("/", "work", Some(100), 2100);
    assert_eq!(first, "\r\u{1b}[K| work (500ms)");
    assert_eq!(second, "\r\u{1b}[K/ work (2s)");
}

#[test]
fn stop_line_with_neither_is_a_bare_newline() {
    assert_eq!(stop_line(None, None), "\n");
}

#[test]
fn stop_line_with_symbol_persists_it() {
    assert_eq!(stop_line(Some("X"), None), "\r\u{1b}[KX");
}

#[test]
fn stop_line_with_message_injects_no_newline() {
    let line = stop_line(None, Some("done"));
    assert_eq!(line, "\r\u{1b}[Kdone");
    assert!(!line.contains('\n'));
}

#[test]
fn stop_line_with_both_combines_them() {
    assert_eq!(stop_line(Some("X"), Some("done")), "\r\u{1b}[KX done");
}
