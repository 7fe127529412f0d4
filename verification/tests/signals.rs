use crater::signals::{choose_signal, parse_signal, signal_from_name, Signal};

#[test]
fn names_and_numbers_in_any_case() {
    assert_eq!(parse_signal("SIGTERM"), Some(Signal::Term));
    assert_eq!(parse_signal("term"), Some(Signal::Term));
    assert_eq!(parse_signal("15"), Some(Signal::Term));
    assert_eq!(parse_signal("SIGKILL"), Some(Signal::Kill));
    assert_eq!(parse_signal("Kill"), Some(Signal::Kill));
    assert_eq!(parse_signal("9"), Some(Signal::Kill));
    assert_eq!(parse_signal("sigint"), Some(Signal::Int));
    assert_eq!(parse_signal("INT"), Some(Signal::Int));
    assert_eq!(parse_signal("2"), Some(Signal::Int));
}

#[test]
fn unknown_signals_fall_back_to_sigterm() {
    assert_eq!(parse_signal("HUP"), None);
    assert_eq!(parse_signal("SIGTERM "), None);
    assert_eq!(choose_signal("hup"), (Signal::Term, false));
    assert_eq!(choose_signal("kill"), (Signal::Kill, true));
}

#[test]
fn upper_case_names_only_match_exactly() {
    assert_eq!(signal_from_name("TERM"), Some(Signal::Term));
    assert_eq!(signal_from_name("term"), None);
}

#[test]
fn names_and_numbers_round_trip() {
    for sig in [Signal::Term, Signal::Kill, Signal::Int] {
        assert_eq!(parse_signal(&sig.name()), Some(sig));
        assert_eq!(parse_signal(&sig.number().to_string()), Some(sig));
    }
    assert_eq!(Signal::Term.number(), 15);
    assert_eq!(Signal::Kill.name(), "SIGKILL");
}
