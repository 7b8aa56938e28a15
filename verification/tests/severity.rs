use ffi_log_bridge::severity::Severity;

#[test]
fn ranks_run_from_most_to_least_severe() {
    assert_eq!(Severity::Error.rank(), 1);
    assert_eq!(Severity::Warn.rank(), 2);
    assert_eq!(Severity::Info.rank(), 3);
    assert_eq!(Severity::Debug.rank(), 4);
    assert_eq!(Severity::Trace.rank(), 5);
}

#[test]
fn error_is_at_least_as_severe_as_everything() {
    let levels = [
        Severity::Error,
        Severity::Warn,
        Severity::Info,
        Severity::Debug,
        Severity::Trace,
    ];
    for l in levels {
        assert!(Severity::Error.at_least_as_severe_as(&l));
    }
    assert!(!Severity::Trace.at_least_as_severe_as(&Severity::Debug));
    assert!(Severity::Warn.at_least_as_severe_as(&Severity::Warn));
}
