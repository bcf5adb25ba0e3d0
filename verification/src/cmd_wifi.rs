//! The `set-wifi` command: operation mode, access-point limits, and the four
//! credential strings.  Underscores in supplied values decode to spaces, and
//! a value that would not fit its bounded field fails rather than truncate.

use vstd::prelude::*;
use vstd::string::*;

use crate::cmd_traffic::opt_line;
use crate::config::{Config, ConfigV, WifiConfig, WifiMode, WifiV, MAX_PASSWORD_LEN,
    MAX_SSID_LEN};
use crate::render::{bad_token_line, err_line, missing_value_line, push_empty, push_line,
    push_lit, render_wifi, stray_value_line, unknown_flag_line, wifi_lines};
use crate::text::{decode_underscores, decode_v, flag_of, opt_view, parse_flag, parse_u64,
    parse_u64_v, lemma_take_push, text_eq, views_of};

verus! {

/// The WiFi section after one token is applied.
pub open spec fn wifi_tok_step(w: WifiV, tok: Seq<char>) -> WifiV {
    match flag_of(tok) {
        None => w,
        Some(f) => {
            if f.name == "mode"@ {
                match f.value {
                    Some(v) => {
                        if v == "ap"@ {
                            WifiV { mode: WifiMode::AccessPoint, ..w }
                        } else if v == "station"@ {
                            WifiV { mode: WifiMode::Station, ..w }
                        } else if v == "sniffer"@ {
                            WifiV { mode: WifiMode::Sniffer, ..w }
                        } else if v == "ap-station"@ {
                            WifiV { mode: WifiMode::AccessPointStation, ..w }
                        } else {
                            w
                        }
                    },
                    None => w,
                }
            } else if f.name == "max-connections"@ {
                match f.value {
                    Some(v) => match parse_u64_v(v) {
                        Some(n) => if n <= 65535 {
                            WifiV { max_connections: n as u16, ..w }
                        } else {
                            w
                        },
                        None => w,
                    },
                    None => w,
                }
            } else if f.name == "hide-ssid"@ {
                if f.value is None {
                    WifiV { ssid_hidden: true, ..w }
                } else {
                    w
                }
            } else if f.name == "ap-ssid"@ {
                match f.value {
                    Some(v) => if decode_v(v).len() <= MAX_SSID_LEN as int {
                        WifiV { ap_ssid: decode_v(v), ..w }
                    } else {
                        w
                    },
                    None => w,
                }
            } else if f.name == "ap-password"@ {
                match f.value {
                    Some(v) => if decode_v(v).len() <= MAX_PASSWORD_LEN as int {
                        WifiV { ap_password: decode_v(v), ..w }
                    } else {
                        w
                    },
                    None => w,
                }
            } else if f.name == "sta-ssid"@ {
                match f.value {
                    Some(v) => if decode_v(v).len() <= MAX_SSID_LEN as int {
                        WifiV { sta_ssid: decode_v(v), ..w }
                    } else {
                        w
                    },
                    None => w,
                }
            } else if f.name == "sta-password"@ {
                match f.value {
                    Some(v) => if decode_v(v).len() <= MAX_PASSWORD_LEN as int {
                        WifiV { sta_password: decode_v(v), ..w }
                    } else {
                        w
                    },
                    None => w,
                }
            } else {
                w
            }
        },
    }
}

/// The error line one token produces, if any.
pub open spec fn wifi_tok_err(tok: Seq<char>) -> Option<Seq<char>> {
    match flag_of(tok) {
        None => Some(bad_token_line(tok)),
        Some(f) => {
            if f.name == "mode"@ {
                match f.value {
                    Some(v) => {
                        if v == "ap"@ || v == "station"@ || v == "sniffer"@ || v == "ap-station"@ {
                            None
                        } else {
                            Some("Invalid WiFi Mode"@)
                        }
                    },
                    None => Some(missing_value_line(f.name)),
                }
            } else if f.name == "max-connections"@ {
                match f.value {
                    Some(v) => {
                        if parse_u64_v(v) is Some && parse_u64_v(v).unwrap() <= 65535 {
                            None
                        } else {
                            Some("Invalid Max Connections"@)
                        }
                    },
                    None => Some(missing_value_line(f.name)),
                }
            } else if f.name == "hide-ssid"@ {
                if f.value is None {
                    None
                } else {
                    Some(stray_value_line(f.name))
                }
            } else if f.name == "ap-ssid"@ {
                match f.value {
                    Some(v) => if decode_v(v).len() <= MAX_SSID_LEN as int {
                        None
                    } else {
                        Some("AP SSID Too Long"@)
                    },
                    None => Some(missing_value_line(f.name)),
                }
            } else if f.name == "ap-password"@ {
                match f.value {
                    Some(v) => if decode_v(v).len() <= MAX_PASSWORD_LEN as int {
                        None
                    } else {
                        Some("AP Password Too Long"@)
                    },
                    None => Some(missing_value_line(f.name)),
                }
            } else if f.name == "sta-ssid"@ {
                match f.value {
                    Some(v) => if decode_v(v).len() <= MAX_SSID_LEN as int {
                        None
                    } else {
                        Some("Station SSID Too Long"@)
                    },
                    None => Some(missing_value_line(f.name)),
                }
            } else if f.name == "sta-password"@ {
                match f.value {
                    Some(v) => if decode_v(v).len() <= MAX_PASSWORD_LEN as int {
                        None
                    } else {
                        Some("Station Password Too Long"@)
                    },
                    None => Some(missing_value_line(f.name)),
                }
            } else {
                Some(unknown_flag_line(f.name))
            }
        },
    }
}

pub open spec fn wifi_fold(w: WifiV, toks: Seq<Seq<char>>) -> WifiV
    decreases toks.len(),
{
    if toks.len() == 0 {
        w
    } else {
        wifi_tok_step(wifi_fold(w, toks.drop_last()), toks.last())
    }
}

pub open spec fn wifi_errs(toks: Seq<Seq<char>>) -> Seq<Seq<char>>
    decreases toks.len(),
{
    if toks.len() == 0 {
        Seq::empty()
    } else {
        wifi_errs(toks.drop_last()) + opt_line(wifi_tok_err(toks.last()))
    }
}

/// One token never stores a credential beyond its bounded length.
pub proof fn lemma_wifi_step_wf(w: WifiV, tok: Seq<char>)
    requires
        w.wf(),
    ensures
        wifi_tok_step(w, tok).wf(),
{
}

/// No token sequence stores a credential beyond its bounded length.
pub proof fn lemma_wifi_fold_wf(w: WifiV, toks: Seq<Seq<char>>)
    requires
        w.wf(),
    ensures
        wifi_fold(w, toks).wf(),
    decreases toks.len(),
{
    if toks.len() > 0 {
        lemma_wifi_fold_wf(w, toks.drop_last());
        lemma_wifi_step_wf(wifi_fold(w, toks.drop_last()), toks.last());
    }
}

fn wifi_apply_tok(w: &mut WifiConfig, tok: &String) -> (err: Option<String>)
    ensures
        final(w)@ == wifi_tok_step(old(w)@, tok@),
        opt_view(err) == wifi_tok_err(tok@),
{
    match parse_flag(tok) {
        None => Some(err_line("Unexpected Argument: ", tok)),
        Some(f) => {
            if text_eq(&f.name, "mode") {
                match &f.value {
                    Some(v) => {
                        if text_eq(v, "ap") {
                            w.mode = WifiMode::AccessPoint;
                            None
                        } else if text_eq(v, "station") {
                            w.mode = WifiMode::Station;
                            None
                        } else if text_eq(v, "sniffer") {
                            w.mode = WifiMode::Sniffer;
                            None
                        } else if text_eq(v, "ap-station") {
                            w.mode = WifiMode::AccessPointStation;
                            None
                        } else {
                            Some(String::from_str("Invalid WiFi Mode"))
                        }
                    },
                    None => Some(err_line("Missing Value For Flag: ", &f.name)),
                }
            } else if text_eq(&f.name, "max-connections") {
                match &f.value {
                    Some(v) => match parse_u64(v.as_str()) {
                        Some(n) => {
                            if n <= 65535 {
                                w.max_connections = n as u16;
                                None
                            } else {
                                Some(String::from_str("Invalid Max Connections"))
                            }
                        },
                        None => Some(String::from_str("Invalid Max Connections")),
                    },
                    None => Some(err_line("Missing Value For Flag: ", &f.name)),
                }
            } else if text_eq(&f.name, "hide-ssid") {
                match f.value {
                    None => {
                        w.ssid_hidden = true;
                        None
                    },
                    Some(_) => Some(err_line("Unexpected Value For Flag: ", &f.name)),
                }
            } else if text_eq(&f.name, "ap-ssid") {
                match &f.value {
                    Some(v) => {
                        let d = decode_underscores(v);
                        if d.as_str().unicode_len() <= MAX_SSID_LEN {
                            w.ap_ssid = d;
                            None
                        } else {
                            Some(String::from_str("AP SSID Too Long"))
                        }
                    },
                    None => Some(err_line("Missing Value For Flag: ", &f.name)),
                }
            } else if text_eq(&f.name, "ap-password") {
                match &f.value {
                    Some(v) => {
                        let d = decode_underscores(v);
                        if d.as_str().unicode_len() <= MAX_PASSWORD_LEN {
                            w.ap_password = d;
                            None
                        } else {
                            Some(String::from_str("AP Password Too Long"))
                        }
                    },
                    None => Some(err_line("Missing Value For Flag: ", &f.name)),
                }
            } else if text_eq(&f.name, "sta-ssid") {
                match &f.value {
                    Some(v) => {
                        let d = decode_underscores(v);
                        if d.as_str().unicode_len() <= MAX_SSID_LEN {
                            w.sta_ssid = d;
                            None
                        } else {
                            Some(String::from_str("Station SSID Too Long"))
                        }
                    },
                    None => Some(err_line("Missing Value For Flag: ", &f.name)),
                }
            } else if text_eq(&f.name, "sta-password") {
                match &f.value {
                    Some(v) => {
                        let d = decode_underscores(v);
                        if d.as_str().unicode_len() <= MAX_PASSWORD_LEN {
                            w.sta_password = d;
                            None
                        } else {
                            Some(String::from_str("Station Password Too Long"))
                        }
                    },
                    None => Some(err_line("Missing Value For Flag: ", &f.name)),
                }
            } else {
                Some(err_line("Unknown Flag: ", &f.name))
            }
        },
    }
}

/// All response lines of `set-wifi`.
pub open spec fn wifi_response(w: WifiV, toks: Seq<Seq<char>>) -> Seq<Seq<char>> {
    wifi_errs(toks) + seq![Seq::<char>::empty(), "Updated WiFi Configuration:"@,
        Seq::<char>::empty()] + wifi_lines(wifi_fold(w, toks))
}

/// Runs `set-wifi` over its flag tokens: each flag is validated and applied
/// on its own, and the updated WiFi section is echoed back.
pub fn set_wifi_cmd(cfg: &mut Config, flags: &Vec<String>) -> (out: Vec<String>)
    requires
        old(cfg)@.wf(),
    ensures
        final(cfg)@.wf(),
        final(cfg)@ == (ConfigV { wifi: wifi_fold(old(cfg)@.wifi, views_of(flags@)), ..old(cfg)@ }),
        views_of(out@) == wifi_response(old(cfg)@.wifi, views_of(flags@)),
{
    let ghost vs = views_of(flags@);
    let ghost w0 = old(cfg)@.wifi;
    let ghost c0 = old(cfg)@;
    let mut out: Vec<String> = Vec::new();
    proof {
        assert(vs.take(0) =~= Seq::<Seq<char>>::empty());
        assert(views_of(out@) =~= Seq::<Seq<char>>::empty());
    }
    let mut i: usize = 0;
    while i < flags.len()
        invariant
            0 <= i <= flags.len(),
            vs == views_of(flags@),
            vs.len() == flags@.len(),
            cfg@ == (ConfigV { wifi: wifi_fold(w0, vs.take(i as int)), ..c0 }),
            views_of(out@) == wifi_errs(vs.take(i as int)),
        decreases flags.len() - i,
    {
        let tok = &flags[i];
        proof {
            lemma_take_push(vs, i as int);
            assert(vs[i as int] == tok@);
        }
        match wifi_apply_tok(&mut cfg.wifi, tok) {
            Some(e) => {
                push_line(&mut out, e);
                proof {
                    assert(views_of(out@) =~= wifi_errs(vs.take(i + 1)));
                }
            },
            None => {
                proof {
                    assert(views_of(out@) =~= wifi_errs(vs.take(i + 1)));
                }
            },
        }
        i += 1;
    }
    proof {
        assert(vs.take(flags@.len() as int) =~= vs);
        lemma_wifi_fold_wf(w0, vs);
    }
    push_empty(&mut out);
    push_lit(&mut out, "Updated WiFi Configuration:");
    push_empty(&mut out);
    render_wifi(&cfg.wifi, &mut out);
    proof {
        assert(views_of(out@) =~= wifi_response(w0, vs));
    }
    out
}

} // verus!
