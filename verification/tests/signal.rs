use mcp_runner::signal::{parse_signal, signal_target, Signal};

#[test]
fn signals_are_found_by_name() {
    assert_eq!(parse_signal("SIGINT").unwrap(), Signal::Int);
    assert_eq!(parse_signal("SIGTERM").unwrap(), Signal::Term);
    assert_eq!(parse_signal("SIGKILL").unwrap(), Signal::Kill);
    assert_eq!(parse_signal("SIGSTOP").unwrap(), Signal::Stop);
    assert_eq!(parse_signal("SIGCONT").unwrap(), Signal::Cont);
    assert_eq!(parse_signal("SIGHUP").unwrap(), Signal::Hup);
    assert_eq!(parse_signal("SIGQUIT").unwrap(), Signal::Quit);
}

#[test]
fn signal_names_may_be_in_small_letters() {
    assert_eq!(parse_signal("sigint").unwrap(), Signal::Int);
    assert_eq!(parse_signal("SigTerm").unwrap(), Signal::Term);
    // The dotless i has the capital I as its upper case.
    assert_eq!(parse_signal("s\u{131}gkill").unwrap(), Signal::Kill);
}

#[test]
fn other_signals_are_refused() {
    assert_eq!(parse_signal("sigusr1").unwrap_err().message, "Unsupported signal: sigusr1");
    assert_eq!(parse_signal("INT").unwrap_err().message, "Unsupported signal: INT");
    assert_eq!(parse_signal("").unwrap_err().message, "Unsupported signal: ");
}

#[test]
fn a_process_that_was_waited_for_gets_no_signal() {
    assert_eq!(signal_target(Some(4711)).unwrap(), 4711);
    assert_eq!(signal_target(None).unwrap_err().message, "Process already exited");
}
