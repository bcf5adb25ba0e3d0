//! The `set-traffic` command: enabling traffic generation and choosing
//! its kind and interval, one independent flag at a time.

use vstd::prelude::*;
use vstd::string::*;

use crate::config::{Config, ConfigV, TrafficConfig, TrafficKind};
use crate::render::{bad_token_line, err_line, missing_value_line, push_empty, push_line,
    push_lit, render_traffic, stray_value_line, traffic_lines, unknown_flag_line};
use crate::text::{flag_of, opt_view, parse_flag, parse_u64, parse_u64_v, lemma_take_push,
    text_eq, views_of};

verus! {

/// The traffic section after one token is applied.
pub open spec fn traffic_tok_step(t: TrafficConfig, tok: Seq<char>) -> TrafficConfig {
    match flag_of(tok) {
        None => t,
        Some(f) => {
            if f.name == "enable"@ {
                if f.value is None {
                    TrafficConfig { enabled: true, ..t }
                } else {
                    t
                }
            } else if f.name == "type"@ {
                match f.value {
                    Some(v) => {
                        if v == "icmp"@ {
                            TrafficConfig { kind: TrafficKind::Icmp, ..t }
                        } else if v == "udp"@ {
                            TrafficConfig { kind: TrafficKind::Udp, ..t }
                        } else {
                            t
                        }
                    },
                    None => t,
                }
            } else if f.name == "interval"@ {
                match f.value {
                    Some(v) => match parse_u64_v(v) {
                        Some(n) => TrafficConfig { interval_ms: n, ..t },
                        None => t,
                    },
                    None => t,
                }
            } else {
                t
            }
        },
    }
}

/// The error line one token produces, if any.
pub open spec fn traffic_tok_err(tok: Seq<char>) -> Option<Seq<char>> {
    match flag_of(tok) {
        None => Some(bad_token_line(tok)),
        Some(f) => {
            if f.name == "enable"@ {
                if f.value is None {
                    None
                } else {
                    Some(stray_value_line(f.name))
                }
            } else if f.name == "type"@ {
                match f.value {
                    Some(v) => {
                        if v == "icmp"@ || v == "udp"@ {
                            None
                        } else {
                            Some("Invalid Traffic Type"@)
                        }
                    },
                    None => Some(missing_value_line(f.name)),
                }
            } else if f.name == "interval"@ {
                match f.value {
                    Some(v) => {
                        if parse_u64_v(v) is Some {
                            None
                        } else {
                            Some("Invalid Interval"@)
                        }
                    },
                    None => Some(missing_value_line(f.name)),
                }
            } else {
                Some(unknown_flag_line(f.name))
            }
        },
    }
}

/// The traffic section after a whole token sequence, applied left to right.
pub open spec fn traffic_fold(t: TrafficConfig, toks: Seq<Seq<char>>) -> TrafficConfig
    decreases toks.len(),
{
    if toks.len() == 0 {
        t
    } else {
        traffic_tok_step(traffic_fold(t, toks.drop_last()), toks.last())
    }
}

pub open spec fn opt_line(e: Option<Seq<char>>) -> Seq<Seq<char>> {
    match e {
        Some(l) => seq![l],
        None => Seq::empty(),
    }
}

/// The error lines of a token sequence, in order.
pub open spec fn traffic_errs(toks: Seq<Seq<char>>) -> Seq<Seq<char>>
    decreases toks.len(),
{
    if toks.len() == 0 {
        Seq::empty()
    } else {
        traffic_errs(toks.drop_last()) + opt_line(traffic_tok_err(toks.last()))
    }
}

/// Applies one token to the traffic section; flags are independent, and an
/// ill-formed one changes nothing and yields its error line.
fn traffic_apply_tok(t: &mut TrafficConfig, tok: &String) -> (err: Option<String>)
    ensures
        *final(t) == traffic_tok_step(*old(t), tok@),
        opt_view(err) == traffic_tok_err(tok@),
{
    match parse_flag(tok) {
        None => Some(err_line("Unexpected Argument: ", tok)),
        Some(f) => {
            if text_eq(&f.name, "enable") {
                match f.value {
                    None => {
                        t.enabled = true;
                        None
                    },
                    Some(_) => Some(err_line("Unexpected Value For Flag: ", &f.name)),
                }
            } else if text_eq(&f.name, "type") {
                match &f.value {
                    Some(v) => {
                        if text_eq(v, "icmp") {
                            t.kind = TrafficKind::Icmp;
                            None
                        } else if text_eq(v, "udp") {
                            t.kind = TrafficKind::Udp;
                            None
                        } else {
                            Some(String::from_str("Invalid Traffic Type"))
                        }
                    },
                    None => Some(err_line("Missing Value For Flag: ", &f.name)),
                }
            } else if text_eq(&f.name, "interval") {
                match &f.value {
                    Some(v) => match parse_u64(v.as_str()) {
                        Some(n) => {
                            t.interval_ms = n;
                            None
                        },
                        None => Some(String::from_str("Invalid Interval")),
                    },
                    None => Some(err_line("Missing Value For Flag: ", &f.name)),
                }
            } else {
                Some(err_line("Unknown Flag: ", &f.name))
            }
        },
    }
}

/// All response lines of `set-traffic`: per-flag errors, then the
/// confirmation block for the updated section.
pub open spec fn traffic_response(t: TrafficConfig, toks: Seq<Seq<char>>) -> Seq<Seq<char>> {
    traffic_errs(toks) + seq![Seq::<char>::empty(), "Updated Traffic Configuration:"@,
        Seq::<char>::empty()] + traffic_lines(traffic_fold(t, toks))
}

/// Runs `set-traffic` over its flag tokens: each flag is validated and
/// applied on its own, and the updated traffic section is echoed back.
pub fn set_traffic_cmd(cfg: &mut Config, flags: &Vec<String>) -> (out: Vec<String>)
    requires
        old(cfg)@.wf(),
    ensures
        final(cfg)@.wf(),
        final(cfg)@ == (ConfigV {
            traffic: traffic_fold(old(cfg)@.traffic, views_of(flags@)),
            ..old(cfg)@
        }),
        views_of(out@) == traffic_response(old(cfg)@.traffic, views_of(flags@)),
{
    let ghost vs = views_of(flags@);
    let ghost t0 = old(cfg)@.traffic;
    let ghost c0 = old(cfg)@;
    let mut out: Vec<String> = Vec::new();
    proof {
        assert(vs.take(0) =~= Seq::<Seq<char>>::empty());
        assert(views_of(out@) =~= Seq::<Seq<char>>::empty());
    }
    let mut i: usize = 0;
    while i < flags.len()
        invariant
            0 <= i <= flags.len(),
            vs == views_of(flags@),
            vs.len() == flags@.len(),
            cfg@ == (ConfigV { traffic: traffic_fold(t0, vs.take(i as int)), ..c0 }),
            views_of(out@) == traffic_errs(vs.take(i as int)),
        decreases flags.len() - i,
    {
        let ghost pre_out = views_of(out@);
        let tok = &flags[i];
        proof {
            lemma_take_push(vs, i as int);
            assert(vs[i as int] == tok@);
        }
        match traffic_apply_tok(&mut cfg.traffic, tok) {
            Some(e) => {
                push_line(&mut out, e);
                proof {
                    assert(views_of(out@) =~= traffic_errs(vs.take(i + 1)));
                }
            },
            None => {
                proof {
                    assert(views_of(out@) =~= traffic_errs(vs.take(i + 1)));
                }
            },
        }
        i += 1;
    }
    proof {
        assert(vs.take(flags@.len() as int) =~= vs);
    }
    let ghost errs_done = views_of(out@);
    push_empty(&mut out);
    push_lit(&mut out, "Updated Traffic Configuration:");
    push_empty(&mut out);
    render_traffic(&cfg.traffic, &mut out);
    proof {
        assert(views_of(out@) =~= traffic_response(t0, vs));
    }
    out
}

} // verus!
