//! Laws of the console, stated and proved over the interpreter's
//! specification functions.

use vstd::prelude::*;

use crate::cmd_csi::{csi_tok_err, csi_tok_step};
use crate::cmd_start::{has_duration, start_errs, start_pending, start_response,
    DEFAULT_RUN_SECS};
use crate::cmd_wifi::{wifi_fold, wifi_tok_err, wifi_tok_step};
use crate::config::{default_config_v, ConfigV, CsiConfig, WifiV, MAX_SSID_LEN};
use crate::interp::{line_outcome, lemma_line_outcome_wf};
use crate::render::show_config_lines;
use crate::session::{session_step, SessionV};
use crate::text::{decode_v, flag_of, parse_u64_v, tokens_of, FlagV};

verus! {

broadcast use vstd::string::group_string_axioms;

/// Law: under any sequence of `--ap-ssid` flags whose values decode to at
/// most the bounded length, the stored AP SSID is the decoded last value,
/// and nothing else in the WiFi section moves.
pub proof fn lemma_ap_ssid_last_wins(w: WifiV, toks: Seq<Seq<char>>, vals: Seq<Seq<char>>)
    requires
        toks.len() == vals.len(),
        toks.len() > 0,
        forall|i: int| 0 <= i < toks.len() ==> flag_of(#[trigger] toks[i]) == Some(FlagV {
            name: "ap-ssid"@,
            value: Some(vals[i]),
        }),
        forall|i: int| 0 <= i < vals.len() ==> decode_v(#[trigger] vals[i]).len()
            <= MAX_SSID_LEN as int,
    ensures
        wifi_fold(w, toks) == (WifiV { ap_ssid: decode_v(vals.last()), ..w }),
    decreases toks.len(),
{
    reveal_strlit("mode");
    reveal_strlit("max-connections");
    reveal_strlit("hide-ssid");
    reveal_strlit("ap-ssid");
    assert("mode"@.len() == 4);
    assert("max-connections"@.len() == 15);
    assert("hide-ssid"@.len() == 9);
    assert("ap-ssid"@.len() == 7);
    if toks.len() == 1 {
        assert(toks.drop_last() =~= Seq::<Seq<char>>::empty());
        assert(wifi_fold(w, toks) == wifi_tok_step(w, toks[0]));
    } else {
        lemma_ap_ssid_last_wins(w, toks.drop_last(), vals.drop_last());
        assert(toks.drop_last()[toks.len() - 2] == toks[toks.len() - 2]);
        assert(vals.drop_last().last() == vals[vals.len() - 2]);
    }
}

/// Law: an `--ap-ssid` value decoding past the bounded length changes
/// nothing and yields an error.
pub proof fn lemma_oversize_ap_ssid_rejected(w: WifiV, tok: Seq<char>, v: Seq<char>)
    requires
        flag_of(tok) == Some(FlagV { name: "ap-ssid"@, value: Some(v) }),
        decode_v(v).len() > MAX_SSID_LEN as int,
    ensures
        wifi_tok_step(w, tok) == w,
        wifi_tok_err(tok) == Some("AP SSID Too Long"@),
{
    reveal_strlit("mode");
    reveal_strlit("max-connections");
    reveal_strlit("hide-ssid");
    reveal_strlit("ap-ssid");
    assert("mode"@.len() == 4);
    assert("max-connections"@.len() == 15);
    assert("hide-ssid"@.len() == 9);
    assert("ap-ssid"@.len() == 7);
}

/// Law: `reset-config` stores the documented default record whatever was
/// stored before, so a following `show-config` answers with the default
/// record's lines from any two histories.
pub proof fn lemma_reset_then_show(
    c1: ConfigV,
    c2: ConfigV,
    p1: Option<u64>,
    p2: Option<u64>,
    reset_line: Seq<char>,
    show_line: Seq<char>,
)
    requires
        tokens_of(reset_line) == seq!["reset-config"@],
        tokens_of(show_line) == seq!["show-config"@],
    ensures
        line_outcome(c1, p1, reset_line).cfg == default_config_v(),
        line_outcome(
            line_outcome(c1, p1, reset_line).cfg,
            line_outcome(c1, p1, reset_line).pending,
            show_line,
        ).out == show_config_lines(default_config_v()),
        line_outcome(
            line_outcome(c1, p1, reset_line).cfg,
            line_outcome(c1, p1, reset_line).pending,
            show_line,
        ).out == line_outcome(
            line_outcome(c2, p2, reset_line).cfg,
            line_outcome(c2, p2, reset_line).pending,
            show_line,
        ).out,
{
    reveal_strlit("set-traffic");
    reveal_strlit("set-network");
    reveal_strlit("set-csi");
    reveal_strlit("set-wifi");
    reveal_strlit("start");
    reveal_strlit("show-config");
    reveal_strlit("reset-config");
    reveal_strlit("help");
    assert("set-traffic"@.len() == 11);
    assert("set-network"@.len() == 11);
    assert("set-csi"@.len() == 7);
    assert("set-wifi"@.len() == 8);
    assert("start"@.len() == 5);
    assert("show-config"@.len() == 11);
    assert("reset-config"@.len() == 12);
    assert("help"@.len() == 4);
    assert("show-config"@[1] != "set-traffic"@[1]);
    assert("show-config"@[1] != "set-network"@[1]);
}

/// Law: a second `start` issued before the pending request is consumed
/// replaces it: exactly the later duration is pending, and only one.
pub proof fn lemma_second_start_wins(
    p0: Option<u64>,
    t1: Seq<char>,
    t2: Seq<char>,
    v1: Seq<char>,
    v2: Seq<char>,
)
    requires
        flag_of(t1) == Some(FlagV { name: "duration"@, value: Some(v1) }),
        flag_of(t2) == Some(FlagV { name: "duration"@, value: Some(v2) }),
        parse_u64_v(v1) is Some,
        parse_u64_v(v2) is Some,
    ensures
        start_pending(start_pending(p0, seq![t1]), seq![t2])
            == Some(parse_u64_v(v2).unwrap()),
{
    assert(seq![t1].drop_last() =~= Seq::<Seq<char>>::empty());
    assert(seq![t2].drop_last() =~= Seq::<Seq<char>>::empty());
}

/// Law: `start` with no duration flag requests the week-long default run
/// and answers with the running-forever notice after any flag errors.
pub proof fn lemma_start_without_duration(p0: Option<u64>, toks: Seq<Seq<char>>)
    requires
        !has_duration(toks),
    ensures
        start_pending(p0, toks) == Some(DEFAULT_RUN_SECS),
        start_response(toks) == start_errs(toks) + seq!["Running Forever"@],
{
}

/// Law: a `--csi-he-stbc` value outside `0..=3` is rejected with an error
/// and the stored selector is unchanged.
pub proof fn lemma_out_of_range_he_stbc_rejected(c: CsiConfig, tok: Seq<char>, v: Seq<char>)
    requires
        flag_of(tok) == Some(FlagV { name: "csi-he-stbc"@, value: Some(v) }),
        parse_u64_v(v) is Some,
        parse_u64_v(v).unwrap() > 3,
    ensures
        csi_tok_step(c, tok) == c,
        csi_tok_err(tok) == Some("Invalid CSI HE STBC Value"@),
{
    reveal_strlit("disable-csi");
    reveal_strlit("disable-csi-legacy");
    reveal_strlit("disable-csi-ht20");
    reveal_strlit("disable-csi-ht40");
    reveal_strlit("disable-csi-su");
    reveal_strlit("disable-csi-mu");
    reveal_strlit("disable-csi-dcm");
    reveal_strlit("disable-csi-beamformed");
    reveal_strlit("csi-he-stbc");
    assert("csi-he-stbc"@[0] != "disable-csi"@[0]);
}

/// Law: no input character ever leaves the shared record ill-formed; every
/// mutation is validated before it is stored.
pub proof fn lemma_session_step_preserves_wf(s: SessionV, c: char)
    requires
        s.cfg.wf(),
    ensures
        session_step(s, c).0.cfg.wf(),
{
    let (b, done) = crate::session::line_step(s.line, c);
    match done {
        None => {},
        Some(l) => {
            lemma_line_outcome_wf(s.cfg, s.pending, l);
        },
    }
}

} // verus!
