//! The `set-network` command: choosing the network architecture.

use vstd::prelude::*;
use vstd::string::*;

use crate::cmd_traffic::{opt_line};
use crate::config::{Config, ConfigV, NetworkArch};
use crate::render::{bad_token_line, err_line, missing_value_line, net_arch_v, net_arch_str,
    push_empty, push_line, unknown_flag_line};
use crate::text::{flag_of, opt_view, parse_flag, lemma_take_push, text_eq, views_of};

verus! {

/// The architecture after one token is applied.
pub open spec fn network_tok_step(a: NetworkArch, tok: Seq<char>) -> NetworkArch {
    match flag_of(tok) {
        None => a,
        Some(f) => {
            if f.name == "arch"@ {
                match f.value {
                    Some(v) => {
                        if v == "rsta"@ {
                            NetworkArch::RouterStation
                        } else if v == "rapsta"@ {
                            NetworkArch::RouterAccessPointStation
                        } else if v == "apsta"@ {
                            NetworkArch::AccessPointStation
                        } else if v == "sniff"@ {
                            NetworkArch::Sniffer
                        } else {
                            a
                        }
                    },
                    None => a,
                }
            } else {
                a
            }
        },
    }
}

/// The error line one token produces, if any.
pub open spec fn network_tok_err(tok: Seq<char>) -> Option<Seq<char>> {
    match flag_of(tok) {
        None => Some(bad_token_line(tok)),
        Some(f) => {
            if f.name == "arch"@ {
                match f.value {
                    Some(v) => {
                        if v == "rsta"@ || v == "rapsta"@ || v == "apsta"@ || v == "sniff"@ {
                            None
                        } else {
                            Some("Invalid Network Type"@)
                        }
                    },
                    None => Some(missing_value_line(f.name)),
                }
            } else {
                Some(unknown_flag_line(f.name))
            }
        },
    }
}

pub open spec fn network_fold(a: NetworkArch, toks: Seq<Seq<char>>) -> NetworkArch
    decreases toks.len(),
{
    if toks.len() == 0 {
        a
    } else {
        network_tok_step(network_fold(a, toks.drop_last()), toks.last())
    }
}

pub open spec fn network_errs(toks: Seq<Seq<char>>) -> Seq<Seq<char>>
    decreases toks.len(),
{
    if toks.len() == 0 {
        Seq::empty()
    } else {
        network_errs(toks.drop_last()) + opt_line(network_tok_err(toks.last()))
    }
}

fn network_apply_tok(a: &mut NetworkArch, tok: &String) -> (err: Option<String>)
    ensures
        *final(a) == network_tok_step(*old(a), tok@),
        opt_view(err) == network_tok_err(tok@),
{
    match parse_flag(tok) {
        None => Some(err_line("Unexpected Argument: ", tok)),
        Some(f) => {
            if text_eq(&f.name, "arch") {
                match &f.value {
                    Some(v) => {
                        if text_eq(v, "rsta") {
                            *a = NetworkArch::RouterStation;
                            None
                        } else if text_eq(v, "rapsta") {
                            *a = NetworkArch::RouterAccessPointStation;
                            None
                        } else if text_eq(v, "apsta") {
                            *a = NetworkArch::AccessPointStation;
                            None
                        } else if text_eq(v, "sniff") {
                            *a = NetworkArch::Sniffer;
                            None
                        } else {
                            Some(String::from_str("Invalid Network Type"))
                        }
                    },
                    None => Some(err_line("Missing Value For Flag: ", &f.name)),
                }
            } else {
                Some(err_line("Unknown Flag: ", &f.name))
            }
        },
    }
}

/// All response lines of `set-network`.
pub open spec fn network_response(a: NetworkArch, toks: Seq<Seq<char>>) -> Seq<Seq<char>> {
    network_errs(toks) + seq![Seq::<char>::empty(), "Updated Network Architecture: "@
        + net_arch_v(network_fold(a, toks))]
}

/// Runs `set-network` over its flag tokens.
pub fn set_network_cmd(cfg: &mut Config, flags: &Vec<String>) -> (out: Vec<String>)
    requires
        old(cfg)@.wf(),
    ensures
        final(cfg)@.wf(),
        final(cfg)@ == (ConfigV {
            net_arch: network_fold(old(cfg)@.net_arch, views_of(flags@)),
            ..old(cfg)@
        }),
        views_of(out@) == network_response(old(cfg)@.net_arch, views_of(flags@)),
{
    let ghost vs = views_of(flags@);
    let ghost a0 = old(cfg)@.net_arch;
    let ghost c0 = old(cfg)@;
    let mut out: Vec<String> = Vec::new();
    proof {
        assert(vs.take(0) =~= Seq::<Seq<char>>::empty());
        assert(views_of(out@) =~= Seq::<Seq<char>>::empty());
    }
    let mut i: usize = 0;
    while i < flags.len()
        invariant
            0 <= i <= flags.len(),
            vs == views_of(flags@),
            vs.len() == flags@.len(),
            cfg@ == (ConfigV { net_arch: network_fold(a0, vs.take(i as int)), ..c0 }),
            views_of(out@) == network_errs(vs.take(i as int)),
        decreases flags.len() - i,
    {
        let tok = &flags[i];
        proof {
            lemma_take_push(vs, i as int);
            assert(vs[i as int] == tok@);
        }
        match network_apply_tok(&mut cfg.net_arch, tok) {
            Some(e) => {
                push_line(&mut out, e);
                proof {
                    assert(views_of(out@) =~= network_errs(vs.take(i + 1)));
                }
            },
            None => {
                proof {
                    assert(views_of(out@) =~= network_errs(vs.take(i + 1)));
                }
            },
        }
        i += 1;
    }
    proof {
        assert(vs.take(flags@.len() as int) =~= vs);
    }
    push_empty(&mut out);
    let mut l = String::from_str("Updated Network Architecture: ");
    l.append(net_arch_str(cfg.net_arch));
    push_line(&mut out, l);
    proof {
        assert(views_of(out@) =~= network_response(a0, vs));
    }
    out
}

} // verus!
