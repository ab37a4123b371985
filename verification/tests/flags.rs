use coverage_annotations::annotation::FlakyPolicy;
use coverage_annotations::args::{process_args, read_flag, Invocation};

fn ask(flags: &[&str]) -> Invocation {
    process_args(&flags.iter().map(|flag| flag.to_string()).collect())
}

#[test]
fn flaky_code_is_maybe_tested_by_default() {
    assert_eq!(FlakyPolicy::default(), FlakyPolicy::MaybeTested);
    assert_eq!(ask(&[]), Invocation::Check(FlakyPolicy::MaybeTested));
}

#[test]
fn policy_flags_select_the_policy() {
    assert_eq!(ask(&["--flaky=not-tested"]), Invocation::Check(FlakyPolicy::NotTested));
    assert_eq!(ask(&["--flaky=maybe-tested"]), Invocation::Check(FlakyPolicy::MaybeTested));
    assert_eq!(ask(&["--flaky=tested"]), Invocation::Check(FlakyPolicy::Tested));
}

#[test]
fn last_policy_flag_counts() {
    assert_eq!(
        ask(&["--flaky=tested", "--flaky=not-tested"]),
        Invocation::Check(FlakyPolicy::NotTested)
    );
    assert_eq!(
        ask(&["--flaky=not-tested", "--flaky=maybe-tested", "--flaky=tested"]),
        Invocation::Check(FlakyPolicy::Tested)
    );
}

#[test]
fn version_stops_the_reading() {
    assert_eq!(ask(&["--version"]), Invocation::Version);
    assert_eq!(ask(&["--flaky=tested", "--version", "--bogus"]), Invocation::Version);
}

#[test]
fn unknown_flag_stops_the_reading() {
    assert_eq!(ask(&["--bogus"]), Invocation::UnknownFlag(0));
    assert_eq!(ask(&["--flaky=tested", "--flaky", "--version"]), Invocation::UnknownFlag(1));
    assert_eq!(ask(&["--flaky=tested", ""]), Invocation::UnknownFlag(1));
    assert_eq!(ask(&["--Version"]), Invocation::UnknownFlag(0));
    assert_eq!(ask(&["--flaky=tested "]), Invocation::UnknownFlag(0));
}

#[test]
fn flags_are_read_one_by_one() {
    let start = Invocation::Check(FlakyPolicy::Tested);
    assert_eq!(read_flag(start, 4, "--flaky=not-tested"), Invocation::Check(FlakyPolicy::NotTested));
    assert_eq!(read_flag(start, 4, "--version"), Invocation::Version);
    assert_eq!(read_flag(start, 4, "-v"), Invocation::UnknownFlag(4));
    assert_eq!(read_flag(Invocation::Version, 4, "-v"), Invocation::Version);
    assert_eq!(read_flag(Invocation::UnknownFlag(2), 4, "--version"), Invocation::UnknownFlag(2));
}
