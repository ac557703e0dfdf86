use rust_template::logging::LogLevel;

#[test]
fn verbosity_selects_the_level() {
    assert_eq!(LogLevel::from_verbosity(0), LogLevel::Warn);
    assert_eq!(LogLevel::from_verbosity(1), LogLevel::Info);
    assert_eq!(LogLevel::from_verbosity(2), LogLevel::Debug);
    assert_eq!(LogLevel::from_verbosity(3), LogLevel::Trace);
}

#[test]
fn verbosity_beyond_three_stays_at_trace() {
    assert_eq!(LogLevel::from_verbosity(4), LogLevel::Trace);
    assert_eq!(LogLevel::from_verbosity(100), LogLevel::Trace);
    assert_eq!(LogLevel::from_verbosity(u8::MAX), LogLevel::Trace);
}

#[test]
fn levels_have_their_directives() {
    assert_eq!(LogLevel::Warn.directive(), "warn");
    assert_eq!(LogLevel::Info.directive(), "info");
    assert_eq!(LogLevel::Debug.directive(), "debug");
    assert_eq!(LogLevel::Trace.directive(), "trace");
}

#[test]
fn more_flags_never_lower_the_level() {
    let order = [LogLevel::Warn, LogLevel::Info, LogLevel::Debug, LogLevel::Trace];
    let rank = |level: LogLevel| order.iter().position(|l| *l == level).unwrap();
    let mut last = 0;
    for verbosity in 0..=u8::MAX {
        let now = rank(LogLevel::from_verbosity(verbosity));
        assert!(now >= last);
        assert_eq!(now, usize::from(verbosity.min(3)));
        last = now;
    }
}
