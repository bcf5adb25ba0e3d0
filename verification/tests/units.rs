//! Component-level tests: parsing, formatting, the line buffer, the
//! run-control signal, and the worker lifecycle.

use csi_console::config::Config;
use csi_console::interp::greeting;
use csi_console::session::LineBuffer;
use csi_console::signal::{RunSignal, Worker};
use csi_console::text::{fmt_u64, parse_u64, tokenize};

#[test]
fn parse_u64_accepts_digits_only() {
    assert_eq!(parse_u64("0"), Some(0));
    assert_eq!(parse_u64("604800"), Some(604800));
    assert_eq!(parse_u64("18446744073709551615"), Some(u64::MAX));
    assert_eq!(parse_u64("18446744073709551616"), None);
    assert_eq!(parse_u64(""), None);
    assert_eq!(parse_u64("12x"), None);
    assert_eq!(parse_u64("-3"), None);
    assert_eq!(parse_u64("+3"), None);
    assert_eq!(parse_u64(" 3"), None);
}

#[test]
fn fmt_u64_renders_decimal() {
    assert_eq!(fmt_u64(0), "0");
    assert_eq!(fmt_u64(7), "7");
    assert_eq!(fmt_u64(604800), "604800");
    assert_eq!(fmt_u64(u64::MAX), "18446744073709551615");
}

#[test]
fn tokenize_splits_on_spaces() {
    let toks = tokenize(&String::from("  a  bb   c "));
    assert_eq!(toks, vec!["a".to_string(), "bb".to_string(), "c".to_string()]);
    let toks = tokenize(&String::from(""));
    assert!(toks.is_empty());
}

#[test]
fn line_buffer_caps_at_sixty_four() {
    let mut b = LineBuffer::new();
    for _ in 0..70 {
        assert_eq!(b.push_input('a'), None);
    }
    let line = b.push_input('\n').unwrap();
    assert_eq!(line.len(), 64);
    // The buffer is empty again afterwards.
    let line = b.push_input('\r').unwrap();
    assert_eq!(line, "");
}

#[test]
fn signal_is_a_single_overwriting_slot() {
    let mut sig = RunSignal::new();
    assert_eq!(sig.peek(), None);
    sig.send(5);
    sig.send(9000);
    assert_eq!(sig.peek(), Some(9000));
    assert_eq!(sig.peek(), Some(9000));
    sig.reset();
    assert_eq!(sig.peek(), None);
}

#[test]
fn worker_runs_once_per_request_and_inits_once() {
    let mut sig = RunSignal::new();
    let mut w = Worker::new();
    let cfg = Config::new_default();
    sig.send(5);
    sig.send(9000);
    // One cycle: the worker consumes the single pending request.
    let d = sig.peek().unwrap();
    let plan = w.begin_run(d, &cfg);
    assert_eq!(plan.duration, 9000);
    assert!(plan.needs_init);
    w.finish_run(&mut sig);
    // Nothing left: no second run happens.
    assert_eq!(sig.peek(), None);
    // A later request initializes nothing anew.
    sig.send(60);
    let d = sig.peek().unwrap();
    let plan = w.begin_run(d, &cfg);
    assert!(!plan.needs_init);
    assert_eq!(plan.duration, 60);
    w.finish_run(&mut sig);
}

#[test]
fn snapshot_is_unaffected_by_later_edits() {
    let mut sig = RunSignal::new();
    let mut w = Worker::new();
    let mut cfg = Config::new_default();
    sig.send(30);
    let plan = w.begin_run(sig.peek().unwrap(), &cfg);
    // An edit made during the run is not visible to the running cycle.
    cfg.traffic.enabled = true;
    assert_eq!(plan.snapshot.traffic.enabled, false);
    w.finish_run(&mut sig);
    // The next cycle sees a fresh snapshot.
    sig.send(10);
    let plan = w.begin_run(sig.peek().unwrap(), &cfg);
    assert_eq!(plan.snapshot.traffic.enabled, true);
    w.finish_run(&mut sig);
}

#[test]
fn greeting_names_every_command() {
    let out = greeting();
    assert_eq!(out[1], "Welcome to the CSI collection console");
    assert_eq!(out[3], "Available commands:");
    assert_eq!(out.len(), 14);
    let joined = out.join("\n");
    for cmd in ["set-traffic", "set-network", "set-csi", "set-wifi", "start",
        "show-config", "reset-config", "help"] {
        assert!(joined.contains(cmd));
    }
}
