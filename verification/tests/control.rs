use atomic_spinners::{plan_stop, StopKind};

#[test]
fn plain_stop_sends_nothing_and_writes_nothing() {
    let plan = plan_stop(StopKind::Plain);
    assert!(plan.signal_symbol.is_none());
    assert!(plan.closing.is_none());
}

#[test]
fn newline_stop_closes_with_a_bare_newline() {
    let plan = plan_stop(StopKind::WithNewline);
    assert!(plan.signal_symbol.is_none());
    assert_eq!(plan.closing.as_deref(), Some("\n"));
}

#[test]
fn symbol_stop_sends_and_persists_the_symbol() {
    let plan = plan_stop(StopKind::WithSymbol("X".to_string()));
    assert_eq!(plan.signal_symbol.as_deref(), Some("X"));
    assert_eq!(plan.closing.as_deref(), Some("\r\u{1b}[KX"));
}

#[test]
fn message_stop_closes_with_exactly_the_message() {
    let plan = plan_stop(StopKind::WithMessage("done".to_string()));
    assert!(plan.signal_symbol.is_none());
    assert_eq!(plan.closing.as_deref(), Some("\r\u{1b}[Kdone"));
    assert!(!plan.closing.unwrap().contains('\n'));
}

#[test]
fn persist_stop_combines_symbol_and_message() {
    let plan = plan_stop(StopKind::AndPersist("X".to_string(), "done".to_string()));
    assert!(plan.signal_symbol.is_none());
    assert_eq!(plan.closing.as_deref(), Some("\r\u{1b}[KX done"));
}
