use epoch_get::{classify, resolve, Action, Flag, Settings, TimeUnit, Verbosity};

fn args(list: &[&str]) -> Vec<String> {
    list.iter().map(|s| s.to_string()).collect()
}

fn defaults() -> Settings {
    Settings { verbosity: Verbosity::Quiet, unit: TimeUnit::Seconds, action: Action::Print }
}

#[test]
fn empty_list_gives_defaults() {
    assert_eq!(resolve(&args(&[])), defaults());
}

#[test]
fn program_name_alone_gives_defaults() {
    assert_eq!(resolve(&args(&["epoch-get"])), defaults());
}

#[test]
fn program_name_alone_equals_explicit_seconds() {
    assert_eq!(resolve(&args(&["epoch-get"])), resolve(&args(&["epoch-get", "-s"])));
    assert_eq!(resolve(&args(&["epoch-get"])), resolve(&args(&["epoch-get", "--seconds"])));
}

#[test]
fn program_name_is_not_matched() {
    assert_eq!(resolve(&args(&["-v"])), defaults());
    assert_eq!(resolve(&args(&["--help", "-ms"])).action, Action::Print);
}

#[test]
fn no_action_flag_prints() {
    let s = resolve(&args(&["p", "-v", "-ns", "-x", "--seconds"]));
    assert_eq!(s.action, Action::Print);
}

#[test]
fn help_then_version_gives_version() {
    assert_eq!(resolve(&args(&["p", "--help", "--version"])).action, Action::Version);
}

#[test]
fn version_then_help_gives_help() {
    assert_eq!(resolve(&args(&["p", "--version", "--help"])).action, Action::Help);
    assert_eq!(resolve(&args(&["p", "-V", "-v", "-h"])).action, Action::Help);
}

#[test]
fn last_unit_wins_across_verbosity() {
    let s = resolve(&args(&["p", "-ms", "-v", "-us", "--verbose", "-n"]));
    assert_eq!(s.unit, TimeUnit::Nanoseconds);
    assert_eq!(s.verbosity, Verbosity::Verbose);
    let s = resolve(&args(&["p", "--nanoseconds", "-v", "-s"]));
    assert_eq!(s.unit, TimeUnit::Seconds);
}

#[test]
fn unknown_flag_changes_nothing() {
    assert_eq!(resolve(&args(&["p", "--bogus"])), resolve(&args(&["p"])));
    assert_eq!(
        resolve(&args(&["p", "-u", "--bogus", "-V"])),
        resolve(&args(&["p", "-u", "-V"]))
    );
}

#[test]
fn matching_is_case_sensitive_and_whole() {
    assert_eq!(classify("-S"), Flag::Unknown);
    assert_eq!(classify("--Help"), Flag::Unknown);
    assert_eq!(classify("-vs"), Flag::Unknown);
    assert_eq!(classify("-v "), Flag::Unknown);
    assert_eq!(classify(""), Flag::Unknown);
}

#[test]
fn every_flag_is_classified() {
    assert_eq!(classify("-v"), Flag::Verbose);
    assert_eq!(classify("--verbose"), Flag::Verbose);
    assert_eq!(classify("-s"), Flag::Unit(TimeUnit::Seconds));
    assert_eq!(classify("--seconds"), Flag::Unit(TimeUnit::Seconds));
    assert_eq!(classify("-m"), Flag::Unit(TimeUnit::Milliseconds));
    assert_eq!(classify("-ms"), Flag::Unit(TimeUnit::Milliseconds));
    assert_eq!(classify("--milliseconds"), Flag::Unit(TimeUnit::Milliseconds));
    assert_eq!(classify("-u"), Flag::Unit(TimeUnit::Microseconds));
    assert_eq!(classify("-us"), Flag::Unit(TimeUnit::Microseconds));
    assert_eq!(classify("--microseconds"), Flag::Unit(TimeUnit::Microseconds));
    assert_eq!(classify("-n"), Flag::Unit(TimeUnit::Nanoseconds));
    assert_eq!(classify("-ns"), Flag::Unit(TimeUnit::Nanoseconds));
    assert_eq!(classify("--nanoseconds"), Flag::Unit(TimeUnit::Nanoseconds));
    assert_eq!(classify("-h"), Flag::Act(Action::Help));
    assert_eq!(classify("--help"), Flag::Act(Action::Help));
    assert_eq!(classify("-V"), Flag::Act(Action::Version));
    assert_eq!(classify("--version"), Flag::Act(Action::Version));
}

#[test]
fn apply_flag_overrides_one_category() {
    let mut s = Settings::defaults();
    s.apply_flag(Flag::Unit(TimeUnit::Microseconds));
    s.apply_flag(Flag::Unknown);
    assert_eq!(s, Settings { verbosity: Verbosity::Quiet, unit: TimeUnit::Microseconds, action: Action::Print });
    s.apply_flag(Flag::Act(Action::Version));
    s.apply_flag(Flag::Verbose);
    assert_eq!(s, Settings { verbosity: Verbosity::Verbose, unit: TimeUnit::Microseconds, action: Action::Version });
}
