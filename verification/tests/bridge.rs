use ffi_log_bridge::bridge::{FfiLogger, LogCall, LogHandle};
use ffi_log_bridge::severity::Severity;

const CALLBACK_ADDR: usize = 0x1000;

fn record(collector: &mut Vec<(Option<usize>, Severity, Vec<u8>)>, call: LogCall) {
    collector.push((call.data, call.level, call.message));
}

#[test]
fn scenario_one_info_record_then_deinit() {
    let mut collector: Vec<(Option<usize>, Severity, Vec<u8>)> = Vec::new();
    let logger = FfiLogger::new(CALLBACK_ADDR, Some(0xABCD));
    let mut handle = LogHandle::new(logger);

    let call = handle.bridge().log(Severity::Info, b"hello");
    match call {
        Some(c) => record(&mut collector, c),
        None => panic!("a live bridge must invoke the callback"),
    }
    assert_eq!(collector.len(), 1);
    assert_eq!(collector[0].0, Some(0xABCD));
    assert_eq!(collector[0].1, Severity::Info);
    assert_eq!(collector[0].2, b"hello\0".to_vec());

    let token = handle.deinit();
    assert_eq!(token, Some(0xABCD));

    let call = handle.bridge().log(Severity::Info, b"hello");
    if let Some(c) = call {
        record(&mut collector, c);
    }
    assert_eq!(collector.len(), 1);
}

#[test]
fn live_bridge_invokes_once_for_every_severity() {
    let levels = [
        Severity::Error,
        Severity::Warn,
        Severity::Info,
        Severity::Debug,
        Severity::Trace,
    ];
    let logger = FfiLogger::new(CALLBACK_ADDR, Some(7));
    for level in levels {
        let call = logger.log(level, b"payload");
        match call {
            Some(c) => {
                assert_eq!(c.callback, CALLBACK_ADDR);
                assert_eq!(c.data, Some(7));
                assert_eq!(c.level, level);
                assert_eq!(c.message, b"payload\0".to_vec());
            }
            None => panic!("a live bridge must invoke the callback"),
        }
    }
}

#[test]
fn message_with_interior_null_is_sanitized_not_dropped() {
    let logger = FfiLogger::new(CALLBACK_ADDR, None);
    let call = logger.log(Severity::Warn, b"a\0b\0");
    let c = call.expect("a live bridge must invoke the callback");
    assert_eq!(c.message, b"a\x1ab\x1a\0".to_vec());
}

#[test]
fn log_after_deinit_never_invokes() {
    let mut handle = LogHandle::new(FfiLogger::new(CALLBACK_ADDR, Some(1)));
    assert_eq!(handle.deinit(), Some(1));
    for level in [
        Severity::Error,
        Severity::Warn,
        Severity::Info,
        Severity::Debug,
        Severity::Trace,
    ] {
        assert!(handle.bridge().log(level, b"late").is_none());
    }
}

#[test]
fn deinit_is_idempotent() {
    let mut handle = LogHandle::new(FfiLogger::new(CALLBACK_ADDR, Some(0xFEED)));
    let first = handle.deinit();
    let second = handle.deinit();
    assert_eq!(first, Some(0xFEED));
    assert_eq!(second, None);
}

#[test]
fn deinit_returns_exact_token() {
    let token: usize = 0xDEAD_BEEF;
    let mut handle = LogHandle::new(FfiLogger::new(CALLBACK_ADDR, Some(token)));
    assert_eq!(handle.deinit(), Some(token));
}

#[test]
fn deinit_without_token_returns_none_even_when_live() {
    let mut handle = LogHandle::new(FfiLogger::new(CALLBACK_ADDR, None));
    let logger_was_live = handle.bridge().log(Severity::Error, b"x").is_some();
    assert!(logger_was_live);
    assert_eq!(handle.deinit(), None);
}

#[test]
fn bridge_reports_enabled_for_every_severity() {
    let logger = FfiLogger::new(CALLBACK_ADDR, None);
    for level in [
        Severity::Error,
        Severity::Warn,
        Severity::Info,
        Severity::Debug,
        Severity::Trace,
    ] {
        assert!(logger.enabled(level));
    }
    logger.flush();
}

#[test]
fn every_message_arrives_intact_and_terminated() {
    let sent: Vec<&[u8]> = vec![b"first", b"sec\0ond", b"", b"third"];
    let logger = FfiLogger::new(CALLBACK_ADDR, Some(9));
    let mut received: Vec<Vec<u8>> = Vec::new();
    for m in &sent {
        let c = logger.log(Severity::Debug, m).expect("live bridge");
        received.push(c.message);
    }
    let mut expected: Vec<Vec<u8>> = vec![
        b"first\0".to_vec(),
        b"sec\x1aond\0".to_vec(),
        b"\0".to_vec(),
        b"third\0".to_vec(),
    ];
    let mut got = received.clone();
    expected.sort();
    got.sort();
    assert_eq!(got, expected);
    for m in &received {
        assert_eq!(m.last(), Some(&0u8));
        assert!(m[..m.len() - 1].iter().all(|b| *b != 0));
    }
}
