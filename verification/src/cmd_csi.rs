//! The `set-csi` command: disabling individual CSI acquisition features and
//! tuning the two small bounded selectors.  There is no re-enable flag;
//! restoring a feature takes `reset-config`.

use vstd::prelude::*;
use vstd::string::*;

use crate::cmd_traffic::opt_line;
use crate::config::{Config, ConfigV, CsiConfig};
use crate::render::{bad_token_line, csi_lines, err_line, missing_value_line, push_empty,
    push_line, push_lit, render_csi, stray_value_line, unknown_flag_line};
use crate::text::{flag_of, opt_view, parse_flag, parse_u64, parse_u64_v, lemma_take_push,
    text_eq, views_of};

verus! {

/// The CSI section after one token is applied.
pub open spec fn csi_tok_step(c: CsiConfig, tok: Seq<char>) -> CsiConfig {
    match flag_of(tok) {
        None => c,
        Some(f) => {
            if f.value is None {
                if f.name == "disable-csi"@ {
                    CsiConfig { csi_enabled: false, ..c }
                } else if f.name == "disable-csi-legacy"@ {
                    CsiConfig { legacy: false, ..c }
                } else if f.name == "disable-csi-ht20"@ {
                    CsiConfig { ht20: false, ..c }
                } else if f.name == "disable-csi-ht40"@ {
                    CsiConfig { ht40: false, ..c }
                } else if f.name == "disable-csi-su"@ {
                    CsiConfig { su: false, ..c }
                } else if f.name == "disable-csi-mu"@ {
                    CsiConfig { mu: false, ..c }
                } else if f.name == "disable-csi-dcm"@ {
                    CsiConfig { dcm: false, ..c }
                } else if f.name == "disable-csi-beamformed"@ {
                    CsiConfig { beamformed: false, ..c }
                } else {
                    c
                }
            } else {
                let v = f.value.unwrap();
                if f.name == "disable-csi"@ || f.name == "disable-csi-legacy"@
                    || f.name == "disable-csi-ht20"@ || f.name == "disable-csi-ht40"@
                    || f.name == "disable-csi-su"@ || f.name == "disable-csi-mu"@
                    || f.name == "disable-csi-dcm"@ || f.name == "disable-csi-beamformed"@ {
                    c
                } else if f.name == "csi-he-stbc"@ {
                    match parse_u64_v(v) {
                        Some(n) => if n <= 3 {
                            CsiConfig { he_stbc: n as u8, ..c }
                        } else {
                            c
                        },
                        None => c,
                    }
                } else if f.name == "val-scale-cfg"@ {
                    match parse_u64_v(v) {
                        Some(n) => if n <= 3 {
                            CsiConfig { scale: n as u8, ..c }
                        } else {
                            c
                        },
                        None => c,
                    }
                } else {
                    c
                }
            }
        },
    }
}

/// The error line one token produces, if any.
pub open spec fn csi_tok_err(tok: Seq<char>) -> Option<Seq<char>> {
    match flag_of(tok) {
        None => Some(bad_token_line(tok)),
        Some(f) => {
            if f.name == "disable-csi"@ || f.name == "disable-csi-legacy"@
                || f.name == "disable-csi-ht20"@ || f.name == "disable-csi-ht40"@
                || f.name == "disable-csi-su"@ || f.name == "disable-csi-mu"@
                || f.name == "disable-csi-dcm"@ || f.name == "disable-csi-beamformed"@ {
                if f.value is None {
                    None
                } else {
                    Some(stray_value_line(f.name))
                }
            } else if f.name == "csi-he-stbc"@ {
                match f.value {
                    Some(v) => {
                        if parse_u64_v(v) is Some && parse_u64_v(v).unwrap() <= 3 {
                            None
                        } else {
                            Some("Invalid CSI HE STBC Value"@)
                        }
                    },
                    None => Some(missing_value_line(f.name)),
                }
            } else if f.name == "val-scale-cfg"@ {
                match f.value {
                    Some(v) => {
                        if parse_u64_v(v) is Some && parse_u64_v(v).unwrap() <= 3 {
                            None
                        } else {
                            Some("Invalid Scale Value"@)
                        }
                    },
                    None => Some(missing_value_line(f.name)),
                }
            } else {
                Some(unknown_flag_line(f.name))
            }
        },
    }
}

pub open spec fn csi_fold(c: CsiConfig, toks: Seq<Seq<char>>) -> CsiConfig
    decreases toks.len(),
{
    if toks.len() == 0 {
        c
    } else {
        csi_tok_step(csi_fold(c, toks.drop_last()), toks.last())
    }
}

pub open spec fn csi_errs(toks: Seq<Seq<char>>) -> Seq<Seq<char>>
    decreases toks.len(),
{
    if toks.len() == 0 {
        Seq::empty()
    } else {
        csi_errs(toks.drop_last()) + opt_line(csi_tok_err(toks.last()))
    }
}

/// One token never drives a tuning value out of range.
pub proof fn lemma_csi_step_wf(c: CsiConfig, tok: Seq<char>)
    requires
        c.wf(),
    ensures
        csi_tok_step(c, tok).wf(),
{
}

fn csi_apply_tok(c: &mut CsiConfig, tok: &String) -> (err: Option<String>)
    ensures
        *final(c) == csi_tok_step(*old(c), tok@),
        opt_view(err) == csi_tok_err(tok@),
{
    match parse_flag(tok) {
        None => Some(err_line("Unexpected Argument: ", tok)),
        Some(f) => {
            match &f.value {
                None => {
                    if text_eq(&f.name, "disable-csi") {
                        c.csi_enabled = false;
                        None
                    } else if text_eq(&f.name, "disable-csi-legacy") {
                        c.legacy = false;
                        None
                    } else if text_eq(&f.name, "disable-csi-ht20") {
                        c.ht20 = false;
                        None
                    } else if text_eq(&f.name, "disable-csi-ht40") {
                        c.ht40 = false;
                        None
                    } else if text_eq(&f.name, "disable-csi-su") {
                        c.su = false;
                        None
                    } else if text_eq(&f.name, "disable-csi-mu") {
                        c.mu = false;
                        None
                    } else if text_eq(&f.name, "disable-csi-dcm") {
                        c.dcm = false;
                        None
                    } else if text_eq(&f.name, "disable-csi-beamformed") {
                        c.beamformed = false;
                        None
                    } else if text_eq(&f.name, "csi-he-stbc") || text_eq(&f.name, "val-scale-cfg") {
                        Some(err_line("Missing Value For Flag: ", &f.name))
                    } else {
                        Some(err_line("Unknown Flag: ", &f.name))
                    }
                },
                Some(v) => {
                    if text_eq(&f.name, "disable-csi") || text_eq(&f.name, "disable-csi-legacy")
                        || text_eq(&f.name, "disable-csi-ht20") || text_eq(&f.name, "disable-csi-ht40")
                        || text_eq(&f.name, "disable-csi-su") || text_eq(&f.name, "disable-csi-mu")
                        || text_eq(&f.name, "disable-csi-dcm")
                        || text_eq(&f.name, "disable-csi-beamformed") {
                        Some(err_line("Unexpected Value For Flag: ", &f.name))
                    } else if text_eq(&f.name, "csi-he-stbc") {
                        match parse_u64(v.as_str()) {
                            Some(n) => {
                                if n <= 3 {
                                    c.he_stbc = n as u8;
                                    None
                                } else {
                                    Some(String::from_str("Invalid CSI HE STBC Value"))
                                }
                            },
                            None => Some(String::from_str("Invalid CSI HE STBC Value")),
                        }
                    } else if text_eq(&f.name, "val-scale-cfg") {
                        match parse_u64(v.as_str()) {
                            Some(n) => {
                                if n <= 3 {
                                    c.scale = n as u8;
                                    None
                                } else {
                                    Some(String::from_str("Invalid Scale Value"))
                                }
                            },
                            None => Some(String::from_str("Invalid Scale Value")),
                        }
                    } else {
                        Some(err_line("Unknown Flag: ", &f.name))
                    }
                },
            }
        },
    }
}

/// All response lines of `set-csi`.
pub open spec fn csi_response(c: CsiConfig, toks: Seq<Seq<char>>) -> Seq<Seq<char>> {
    csi_errs(toks) + seq![Seq::<char>::empty(), "Updated CSI Configuration:"@,
        Seq::<char>::empty()] + csi_lines(csi_fold(c, toks))
}

/// Runs `set-csi` over its flag tokens: each flag is validated and applied
/// on its own, and the updated CSI section is echoed back.
pub fn set_csi_cmd(cfg: &mut Config, flags: &Vec<String>) -> (out: Vec<String>)
    requires
        old(cfg)@.wf(),
    ensures
        final(cfg)@.wf(),
        final(cfg)@ == (ConfigV { csi: csi_fold(old(cfg)@.csi, views_of(flags@)), ..old(cfg)@ }),
        views_of(out@) == csi_response(old(cfg)@.csi, views_of(flags@)),
{
    let ghost vs = views_of(flags@);
    let ghost s0 = old(cfg)@.csi;
    let ghost c0 = old(cfg)@;
    let mut out: Vec<String> = Vec::new();
    proof {
        assert(vs.take(0) =~= Seq::<Seq<char>>::empty());
        assert(views_of(out@) =~= Seq::<Seq<char>>::empty());
    }
    let mut i: usize = 0;
    while i < flags.len()
        invariant
            0 <= i <= flags.len(),
            vs == views_of(flags@),
            vs.len() == flags@.len(),
            cfg@ == (ConfigV { csi: csi_fold(s0, vs.take(i as int)), ..c0 }),
            views_of(out@) == csi_errs(vs.take(i as int)),
        decreases flags.len() - i,
    {
        let tok = &flags[i];
        proof {
            lemma_take_push(vs, i as int);
            assert(vs[i as int] == tok@);
        }
        match csi_apply_tok(&mut cfg.csi, tok) {
            Some(e) => {
                push_line(&mut out, e);
                proof {
                    assert(views_of(out@) =~= csi_errs(vs.take(i + 1)));
                }
            },
            None => {
                proof {
                    assert(views_of(out@) =~= csi_errs(vs.take(i + 1)));
                }
            },
        }
        i += 1;
    }
    proof {
        assert(vs.take(flags@.len() as int) =~= vs);
        lemma_csi_fold_wf(s0, vs);
    }
    push_empty(&mut out);
    push_lit(&mut out, "Updated CSI Configuration:");
    push_empty(&mut out);
    render_csi(&cfg.csi, &mut out);
    proof {
        assert(views_of(out@) =~= csi_response(s0, vs));
    }
    out
}

/// No token sequence drives a tuning value out of range.
pub proof fn lemma_csi_fold_wf(c: CsiConfig, toks: Seq<Seq<char>>)
    requires
        c.wf(),
    ensures
        csi_fold(c, toks).wf(),
    decreases toks.len(),
{
    if toks.len() > 0 {
        lemma_csi_fold_wf(c, toks.drop_last());
        lemma_csi_step_wf(csi_fold(c, toks.drop_last()), toks.last());
    }
}

} // verus!
