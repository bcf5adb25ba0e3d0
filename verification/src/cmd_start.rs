//! The `start` command: requesting one collection run of a given duration,
//! or the week-long "run until stopped" default when none is given.

use vstd::prelude::*;
use vstd::string::*;

use crate::cmd_traffic::opt_line;
use crate::render::{bad_token_line, err_line, missing_value_line, push_line, push_lit,
    unknown_flag_line};
use crate::signal::RunSignal;
use crate::text::{flag_of, opt_view, parse_flag, parse_u64, parse_u64_v, lemma_take_push,
    text_eq, views_of};

verus! {

/// Seconds in one week: the default duration when `start` names none.
pub const DEFAULT_RUN_SECS: u64 = 604800;

/// Whether the token is a `duration` flag, in any form.
pub open spec fn is_duration_tok(tok: Seq<char>) -> bool {
    match flag_of(tok) {
        Some(f) => f.name == "duration"@,
        None => false,
    }
}

/// Whether any token names a duration.
pub open spec fn has_duration(toks: Seq<Seq<char>>) -> bool
    decreases toks.len(),
{
    if toks.len() == 0 {
        false
    } else {
        has_duration(toks.drop_last()) || is_duration_tok(toks.last())
    }
}

/// The pending request after one token: a parsed duration overwrites it.
pub open spec fn start_tok_step(p: Option<u64>, tok: Seq<char>) -> Option<u64> {
    match flag_of(tok) {
        Some(f) => {
            if f.name == "duration"@ {
                match f.value {
                    Some(v) => match parse_u64_v(v) {
                        Some(n) => Some(n),
                        None => p,
                    },
                    None => p,
                }
            } else {
                p
            }
        },
        None => p,
    }
}

/// The error line one token produces, if any.
pub open spec fn start_tok_err(tok: Seq<char>) -> Option<Seq<char>> {
    match flag_of(tok) {
        None => Some(bad_token_line(tok)),
        Some(f) => {
            if f.name == "duration"@ {
                match f.value {
                    Some(v) => {
                        if parse_u64_v(v) is Some {
                            None
                        } else {
                            Some("Invalid Duration"@)
                        }
                    },
                    None => Some(missing_value_line(f.name)),
                }
            } else {
                Some(unknown_flag_line(f.name))
            }
        },
    }
}

pub open spec fn start_fold(p: Option<u64>, toks: Seq<Seq<char>>) -> Option<u64>
    decreases toks.len(),
{
    if toks.len() == 0 {
        p
    } else {
        start_tok_step(start_fold(p, toks.drop_last()), toks.last())
    }
}

pub open spec fn start_errs(toks: Seq<Seq<char>>) -> Seq<Seq<char>>
    decreases toks.len(),
{
    if toks.len() == 0 {
        Seq::empty()
    } else {
        start_errs(toks.drop_last()) + opt_line(start_tok_err(toks.last()))
    }
}

/// The pending request after the whole command: explicit durations
/// overwrite the slot; with no duration flag at all, one week is requested.
pub open spec fn start_pending(p: Option<u64>, toks: Seq<Seq<char>>) -> Option<u64> {
    if has_duration(toks) {
        start_fold(p, toks)
    } else {
        Some(DEFAULT_RUN_SECS)
    }
}

/// All response lines of `start`: per-flag errors, and the notice when the
/// default week-long run is requested.
pub open spec fn start_response(toks: Seq<Seq<char>>) -> Seq<Seq<char>> {
    start_errs(toks) + if has_duration(toks) {
        Seq::<Seq<char>>::empty()
    } else {
        seq!["Running Forever"@]
    }
}

/// Runs `start`: sends the requested duration to the run-control signal,
/// overwriting any unconsumed request; never starts more than one run.
pub fn start_cmd(sig: &mut RunSignal, flags: &Vec<String>) -> (out: Vec<String>)
    ensures
        final(sig)@ == start_pending(old(sig)@, views_of(flags@)),
        views_of(out@) == start_response(views_of(flags@)),
{
    let ghost vs = views_of(flags@);
    let ghost p0 = old(sig)@;
    let mut out: Vec<String> = Vec::new();
    let mut found = false;
    proof {
        assert(vs.take(0) =~= Seq::<Seq<char>>::empty());
        assert(views_of(out@) =~= Seq::<Seq<char>>::empty());
    }
    let mut i: usize = 0;
    while i < flags.len()
        invariant
            0 <= i <= flags.len(),
            vs == views_of(flags@),
            vs.len() == flags@.len(),
            sig@ == start_fold(p0, vs.take(i as int)),
            found == has_duration(vs.take(i as int)),
            views_of(out@) == start_errs(vs.take(i as int)),
        decreases flags.len() - i,
    {
        let tok = &flags[i];
        proof {
            lemma_take_push(vs, i as int);
            assert(vs[i as int] == tok@);
        }
        match parse_flag(tok) {
            None => {
                push_line(&mut out, err_line("Unexpected Argument: ", tok));
            },
            Some(f) => {
                if text_eq(&f.name, "duration") {
                    found = true;
                    match &f.value {
                        Some(v) => match parse_u64(v.as_str()) {
                            Some(n) => {
                                sig.send(n);
                            },
                            None => {
                                push_line(&mut out, lit_invalid_duration());
                            },
                        },
                        None => {
                            push_line(&mut out, err_line("Missing Value For Flag: ", &f.name));
                        },
                    }
                } else {
                    push_line(&mut out, err_line("Unknown Flag: ", &f.name));
                }
            },
        }
        proof {
            assert(views_of(out@) =~= start_errs(vs.take(i + 1)));
        }
        i += 1;
    }
    proof {
        assert(vs.take(flags@.len() as int) =~= vs);
    }
    if !found {
        sig.send(DEFAULT_RUN_SECS);
        push_lit(&mut out, "Running Forever");
        proof {
            assert(views_of(out@) =~= start_response(vs));
        }
    } else {
        proof {
            assert(views_of(out@) + Seq::<Seq<char>>::empty() =~= views_of(out@));
        }
    }
    out
}

fn lit_invalid_duration() -> (r: String)
    ensures
        r@ == "Invalid Duration"@,
{
    String::from_str("Invalid Duration")
}

} // verus!
