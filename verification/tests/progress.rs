use termal::progress::bar::Bar;
use termal::progress::dots::Dots;
use termal::progress::duration::{duration_to_string, TimeSpan};
use termal::progress::iter::{Iter, ProgressStep};
use termal::progress::no_state::NoState;
use termal::progress::update::{Update, UpdatePolicy};

fn dur(secs: u64, nanos: u32, trunc: bool) -> String {
    let mut s = String::new();
    duration_to_string(TimeSpan { secs, nanos }, trunc, &mut s);
    s
}

#[test]
fn duration_forms() {
    assert_eq!(dur(0, 0, true), "00:00");
    assert_eq!(dur(5, 0, false), "00:05");
    assert_eq!(dur(3661, 0, true), "01:01:01");
    assert_eq!(dur(90061, 5_000_000, false), "1d01:01:01.005");
    assert_eq!(dur(90061, 5_000_000, true), "1d01:01:01");
    assert_eq!(dur(59, 123_456_789, false), "00:59.123456789");
    assert_eq!(dur(59, 123_456_789, true), "00:59");
    assert_eq!(dur(86400, 0, true), "1d00:00");
    assert_eq!(dur(60, 1, false), "01:00.000000001");
}

#[test]
fn duration_appends() {
    let mut s = String::from("t=");
    duration_to_string(TimeSpan { secs: 7, nanos: 0 }, true, &mut s);
    assert_eq!(s, "t=00:07");
}

#[test]
fn duration_truncated_is_prefix() {
    for (secs, nanos) in [(0, 1), (3599, 999_999_999), (100_000, 10)] {
        let full = dur(secs, nanos, false);
        let short = dur(secs, nanos, true);
        assert!(full.starts_with(&short));
    }
}

#[test]
fn update_policy_default_is_100ms() {
    assert_eq!(UpdatePolicy::default(), UpdatePolicy::Time(100_000_000));
}

#[test]
fn update_every_iterations() {
    let mut u = Update::new(UpdatePolicy::Iterations(3), 0);
    let got: Vec<bool> = (0..7).map(|i| u.should(i).is_some()).collect();
    assert_eq!(got, [false, false, true, false, false, true, false]);
    u.reset(0);
    assert_eq!(u, Update::Iterations { every: 3, remain: 3 });

    let mut one = Update::new(UpdatePolicy::Iterations(1), 0);
    assert!(one.should(0).is_some());
    assert!(one.should(0).is_some());
    let mut zero = Update::new(UpdatePolicy::Iterations(0), 0);
    assert!(zero.should(0).is_some());
}

#[test]
fn update_every_time() {
    let mut u = Update::new(UpdatePolicy::Time(100), 1000);
    assert_eq!(u.should(1050), None);
    assert_eq!(u.should(1100), Some(1100));
    assert_eq!(u.should(1150), None);
    assert_eq!(u.should(500), None);
    assert_eq!(u.should(1200), Some(1200));
    u.reset(5000);
    assert_eq!(u, Update::Time { every: 100, last: 5000 });
}

#[test]
fn iter_steps() {
    let mut it = Iter::new(Some(2));
    assert_eq!(it.counts(), (0, 2));
    assert_eq!(it.update_progress(false), ProgressStep::UpdateOf(0, 2));
    assert_eq!(it.update_progress(false), ProgressStep::UpdateOf(1, 2));
    assert_eq!(it.update_progress(false), ProgressStep::UpdateOf(2, 2));
    assert_eq!(it.update_progress(false), ProgressStep::Unknown);
    assert_eq!(it.counts(), (3, 2));
    assert_eq!(it.update_progress(true), ProgressStep::Finish);

    let mut none = Iter::new(None);
    assert_eq!(none.update_progress(false), ProgressStep::UpdateOf(0, 0));
    assert_eq!(none.update_progress(false), ProgressStep::Unknown);
}

#[test]
fn no_state_is_empty() {
    assert_eq!(NoState.text(), "");
}

#[test]
fn bar_known_progress() {
    let mut b: Bar<()> = Bar::default();
    assert_eq!(b.width, 40);
    assert!(b.log);
    b.width = 4;
    b.format_progress(Some(("50.00", 2)), "task", "info", Some(TimeSpan { secs: 3, nanos: 0 }));
    assert_eq!(
        b.buf,
        "  \x1b[97mtask\x1b[0m \x1b[96m50.00 %\x1b[0m [\x1b[93m==\x1b[97;1m#\x1b[0;90m--\x1b[0m] \x1b[95m00:03\x1b[0m info\x1b[0m"
    );
}

#[test]
fn bar_unknown_progress_moves() {
    let mut b: Bar<()> = Bar::default();
    b.width = 10;
    b.format_progress(None, "", "", Some(TimeSpan { secs: 1, nanos: 500_000_000 }));
    // 1500 ms: step 15 of a bar of 10 goes back to step 5.
    assert_eq!(
        b.buf,
        "  \x1b[96m?? %\x1b[0m [\x1b[93m-----\x1b[97;1m#\x1b[0;90m-----\x1b[0m] \x1b[95m00:01\x1b[0m"
    );
    b.buf.clear();
    b.format_progress(None, "", "", None);
    assert_eq!(
        b.buf,
        "  \x1b[96m?? %\x1b[0m [\x1b[93m\x1b[97;1m#\x1b[0;90m----------\x1b[0m]"
    );
}

#[test]
fn bar_frames() {
    let mut b: Bar<()> = Bar::default();
    b.width = 2;
    b.show_progress(Some(("0.00", 0)), "t", "", None);
    assert_eq!(
        b.buf,
        "\x1b[J\x1b7  \x1b[97mt\x1b[0m \x1b[96m0.00 %\x1b[0m [\x1b[93m\x1b[97;1m#\x1b[0;90m--\x1b[0m]\x1b8"
    );
    b.finish("t", "", TimeSpan { secs: 2, nanos: 0 });
    assert_eq!(
        b.buf,
        "\x1b[J  \x1b[97mt\x1b[0m \x1b[96m100.00 %\x1b[0m [\x1b[93m==\x1b[97;1m#\x1b[0;90m\x1b[0m] \x1b[95m00:02\x1b[0m"
    );
}

#[test]
fn dots_lines() {
    let mut d = Dots::default();
    assert!(d.log);
    d.format_progress(Some("42.00"), "load", "x", Some(TimeSpan { secs: 61, nanos: 0 }));
    assert_eq!(d.buf, "load... \x1b[96m42.00 %\x1b[0m [\x1b[95m01:01\x1b[0m] x");
    d.show_progress(None, "t", "", None);
    assert_eq!(d.buf, "\x1b[J\x1b7t...\x1b8");
    d.finish("load");
    assert_eq!(d.buf, "\x1b[Jload... \x1b[92mDone!\x1b[0m");
    d.fail("load", "boom");
    assert_eq!(d.buf, "\x1b[Jload... \x1b[91mFailed!\x1b[0m\n\x1b[91merror:\x1b[0m boom");
}
