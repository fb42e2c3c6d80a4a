use epoch_get::{
    decimal_text, help_text, read_clock, render_time, run, same_text, scale, version_text,
    Action, ClockError, Elapsed, Settings, TimeUnit, Verbosity, VERSION,
};

const SAMPLE: Elapsed = Elapsed { secs: 1_700_000_123, nanos: 456_789_012 };

#[test]
fn scale_truncates_in_each_unit() {
    assert_eq!(scale(&SAMPLE, TimeUnit::Seconds), 1_700_000_123);
    assert_eq!(scale(&SAMPLE, TimeUnit::Milliseconds), 1_700_000_123_456);
    assert_eq!(scale(&SAMPLE, TimeUnit::Microseconds), 1_700_000_123_456_789);
    assert_eq!(scale(&SAMPLE, TimeUnit::Nanoseconds), 1_700_000_123_456_789_012);
}

#[test]
fn scale_holds_the_largest_reading() {
    let e = Elapsed { secs: u64::MAX, nanos: 999_999_999 };
    assert_eq!(scale(&e, TimeUnit::Nanoseconds), u64::MAX as u128 * 1_000_000_000 + 999_999_999);
    assert_eq!(scale(&e, TimeUnit::Seconds), u64::MAX as u128);
}

#[test]
fn scale_is_monotone_on_examples() {
    let a = Elapsed { secs: 10, nanos: 999_999_999 };
    let b = Elapsed { secs: 11, nanos: 0 };
    for u in [TimeUnit::Seconds, TimeUnit::Milliseconds, TimeUnit::Microseconds, TimeUnit::Nanoseconds] {
        assert!(scale(&a, u) <= scale(&b, u));
    }
}

#[test]
fn quiet_line_is_bare_number() {
    assert_eq!(render_time(Verbosity::Quiet, TimeUnit::Seconds, &SAMPLE), "1700000123\n");
    assert_eq!(render_time(Verbosity::Quiet, TimeUnit::Nanoseconds, &SAMPLE), "1700000123456789012\n");
    let zero = Elapsed { secs: 0, nanos: 0 };
    assert_eq!(render_time(Verbosity::Quiet, TimeUnit::Milliseconds, &zero), "0\n");
}

#[test]
fn verbose_line_in_each_unit() {
    let lead = "The Unix Epoch, 1970-01-01 00:00:00 UTC was ";
    assert_eq!(
        render_time(Verbosity::Verbose, TimeUnit::Seconds, &SAMPLE),
        format!("{lead}1700000123 seconds ago!\n")
    );
    assert_eq!(
        render_time(Verbosity::Verbose, TimeUnit::Milliseconds, &SAMPLE),
        format!("{lead}1700000123456 milliseconds ago!\n")
    );
    assert_eq!(
        render_time(Verbosity::Verbose, TimeUnit::Microseconds, &SAMPLE),
        format!("{lead}1700000123456789 microseconds ago!\n")
    );
    assert_eq!(
        render_time(Verbosity::Verbose, TimeUnit::Nanoseconds, &SAMPLE),
        format!("{lead}1700000123456789012 nanoseconds ago!\n")
    );
}

#[test]
fn decimal_text_edges() {
    assert_eq!(decimal_text(0), "0");
    assert_eq!(decimal_text(9), "9");
    assert_eq!(decimal_text(10), "10");
    assert_eq!(decimal_text(u128::MAX), u128::MAX.to_string());
}

#[test]
fn same_text_compares_whole_strings() {
    assert!(same_text("--help", "--help"));
    assert!(!same_text("--help", "--hel"));
    assert!(!same_text("-ms", "-mu"));
    assert!(same_text("", ""));
}

#[test]
fn quiet_version_is_bare() {
    assert_eq!(version_text(Verbosity::Quiet), format!("{VERSION}\n"));
    assert_eq!(VERSION, "0.1.0");
}

#[test]
fn help_names_every_flag() {
    let h = help_text();
    for token in [
        "-h", "--help", "-V", "--version", "-v", "--verbose", "-s", "--seconds", "-m", "-ms",
        "--milliseconds", "-u", "-us", "--microseconds", "-n", "-ns", "--nanoseconds",
    ] {
        assert!(h.contains(token), "{token}");
    }
    assert!(h.contains("USAGE:"));
    assert!(h.contains("OPTIONS:"));
    assert!(h.contains("default"));
    assert!(h.contains(VERSION));
}

#[test]
fn clock_reads_after_epoch() {
    let e = read_clock().unwrap();
    assert!(e.secs > 1_600_000_000);
    assert!(e.nanos < 1_000_000_000);
}

#[test]
fn successive_nanosecond_readings_do_not_decrease() {
    let quiet_ns = Settings { verbosity: Verbosity::Quiet, unit: TimeUnit::Nanoseconds, action: Action::Print };
    let a: u128 = run(quiet_ns).unwrap().trim_end().parse().unwrap();
    let mut spin: u64 = 0;
    for i in 0..100_000u64 {
        spin = spin.wrapping_add(i);
    }
    assert!(spin > 0);
    let b: u128 = run(quiet_ns).unwrap().trim_end().parse().unwrap();
    assert!(a <= b);
}

#[test]
fn run_prints_in_seconds_by_default() {
    let out = run(Settings::defaults()).unwrap();
    assert!(out.ends_with('\n'));
    let value: u64 = out.trim_end_matches('\n').parse().unwrap();
    assert!(value > 1_600_000_000);
}

#[test]
fn run_version_and_help() {
    let s = Settings { verbosity: Verbosity::Quiet, unit: TimeUnit::Seconds, action: Action::Version };
    assert_eq!(run(s).unwrap(), "0.1.0\n");
    let s = Settings { verbosity: Verbosity::Quiet, unit: TimeUnit::Seconds, action: Action::Help };
    assert!(run(s).unwrap().contains("--nanoseconds"));
}

#[test]
fn clock_error_message_names_the_failure() {
    let m = ClockError::BeforeEpoch.message();
    assert!(m.contains("Error:"));
    assert!(m.ends_with(" Unable to get system time!"));
}
