//! The command interpreter: one line of operator text in, a validated
//! mutation of the record or run request, and the response lines out.

use vstd::prelude::*;
use vstd::string::*;

use crate::cmd_csi::{csi_fold, csi_response, set_csi_cmd};
use crate::cmd_network::{network_fold, network_response, set_network_cmd};
use crate::cmd_start::{start_cmd, start_pending, start_response};
use crate::cmd_traffic::{set_traffic_cmd, traffic_fold, traffic_response};
use crate::cmd_wifi::{set_wifi_cmd, wifi_fold, wifi_response};
use crate::config::{default_config_v, Config, ConfigV};
use crate::render::{push_empty, push_lit, render_show_config, show_config_lines};
use crate::signal::RunSignal;
use crate::text::{text_eq, tokenize, tokens_of, views_of};

verus! {

/// The command list shown by the greeting, by `help`, and with errors.
pub open spec fn command_list_lines() -> Seq<Seq<char>> {
    seq![
        "  set-traffic    Configure traffic generation"@,
        "  set-network    Configure the network architecture"@,
        "  set-csi        Configure CSI feature flags"@,
        "  set-wifi       Configure WiFi settings"@,
        "  start          Start a collection run"@,
        "  show-config    Display the current configuration"@,
        "  reset-config   Restore the default configuration"@,
        "  help           Show help, or details for one command"@,
    ]
}

fn push_command_list(out: &mut Vec<String>)
    ensures
        views_of(final(out)@) == views_of(old(out)@) + command_list_lines(),
{
    let ghost pre = views_of(out@);
    push_lit(out, "  set-traffic    Configure traffic generation");
    push_lit(out, "  set-network    Configure the network architecture");
    push_lit(out, "  set-csi        Configure CSI feature flags");
    push_lit(out, "  set-wifi       Configure WiFi settings");
    push_lit(out, "  start          Start a collection run");
    push_lit(out, "  show-config    Display the current configuration");
    push_lit(out, "  reset-config   Restore the default configuration");
    push_lit(out, "  help           Show help, or details for one command");
    proof {
        assert(views_of(out@) =~= pre + command_list_lines());
    }
}

/// The greeting printed when the console comes up.
pub open spec fn greeting_lines() -> Seq<Seq<char>> {
    seq![
        Seq::<char>::empty(),
        "Welcome to the CSI collection console"@,
        Seq::<char>::empty(),
        "Available commands:"@,
    ] + command_list_lines() + seq![
        Seq::<char>::empty(),
        "For details on a command, type: help <command>"@,
    ]
}

/// The lines the console greets the operator with.
pub fn greeting() -> (out: Vec<String>)
    ensures
        views_of(out@) == greeting_lines(),
{
    let mut out: Vec<String> = Vec::new();
    push_empty(&mut out);
    push_lit(&mut out, "Welcome to the CSI collection console");
    push_empty(&mut out);
    push_lit(&mut out, "Available commands:");
    push_command_list(&mut out);
    push_empty(&mut out);
    push_lit(&mut out, "For details on a command, type: help <command>");
    proof {
        assert(views_of(out@) =~= greeting_lines());
    }
    out
}

/// The answer to a line whose command word is not recognized.
pub open spec fn unknown_command_lines() -> Seq<Seq<char>> {
    seq!["Unrecognized command"@, "Available commands:"@] + command_list_lines()
}

fn unknown_command() -> (out: Vec<String>)
    ensures
        views_of(out@) == unknown_command_lines(),
{
    let mut out: Vec<String> = Vec::new();
    push_lit(&mut out, "Unrecognized command");
    push_lit(&mut out, "Available commands:");
    push_command_list(&mut out);
    proof {
        assert(views_of(out@) =~= unknown_command_lines());
    }
    out
}

/// The answer to a bare `help`.
pub open spec fn help_general_lines() -> Seq<Seq<char>> {
    seq!["Available commands:"@] + command_list_lines() + seq![
        Seq::<char>::empty(),
        "For details on a command, type: help <command>"@,
    ]
}

fn help_general() -> (out: Vec<String>)
    ensures
        views_of(out@) == help_general_lines(),
{
    let mut out: Vec<String> = Vec::new();
    push_lit(&mut out, "Available commands:");
    push_command_list(&mut out);
    push_empty(&mut out);
    push_lit(&mut out, "For details on a command, type: help <command>");
    proof {
        assert(views_of(out@) =~= help_general_lines());
    }
    out
}

/// The detailed help for one command name, or the unrecognized-command
/// answer for any other topic.
pub open spec fn help_topic_lines(topic: Seq<char>) -> Seq<Seq<char>> {
    if topic == "set-traffic"@ {
        seq![
            "set-traffic - Configure traffic generation"@,
            "Usage: set-traffic [--enable] [--type=icmp|udp] [--interval=MILLISECONDS]"@,
            "  --enable            Enable traffic generation (default: disabled)"@,
            "  --type=icmp|udp     Kind of generated traffic (default: icmp)"@,
            "  --interval=NUMBER   Interval between packets in ms (default: 1000)"@,
        ]
    } else if topic == "set-network"@ {
        seq![
            "set-network - Configure the network architecture"@,
            "Usage: set-network [--arch=rsta|rapsta|apsta|sniff]"@,
            "  --arch=rsta     Router connected to one station"@,
            "  --arch=rapsta   Router, access point and station"@,
            "  --arch=apsta    Access point with one or more stations"@,
            "  --arch=sniff    Standalone sniffer (default)"@,
        ]
    } else if topic == "set-csi"@ {
        seq![
            "set-csi - Configure CSI feature flags"@,
            "Usage: set-csi [OPTIONS]"@,
            "  --disable-csi              Disable CSI acquisition"@,
            "  --disable-csi-legacy       Disable L-LTF acquisition"@,
            "  --disable-csi-ht20         Disable HT-LTF acquisition on HT20"@,
            "  --disable-csi-ht40         Disable HT-LTF acquisition on HT40"@,
            "  --disable-csi-su           Disable HE-LTF acquisition on SU"@,
            "  --disable-csi-mu           Disable HE-LTF acquisition on MU"@,
            "  --disable-csi-dcm          Disable HE-LTF acquisition with DCM"@,
            "  --disable-csi-beamformed   Disable beamformed HE-LTF acquisition"@,
            "  --csi-he-stbc=0..3         HE-LTF sampling under STBC (default: 2)"@,
            "  --val-scale-cfg=0..3       Scale configuration (default: 2)"@,
            "All features start enabled; re-enabling takes reset-config"@,
        ]
    } else if topic == "set-wifi"@ {
        seq![
            "set-wifi - Configure WiFi settings"@,
            "Usage: set-wifi [OPTIONS]"@,
            "  --mode=ap|station|sniffer|ap-station   Operation mode (default: sniffer)"@,
            "  --max-connections=NUMBER               AP connection limit (default: 1)"@,
            "  --hide-ssid                            Hide the AP SSID"@,
            "  --ap-ssid=SSID                         AP SSID, at most 32 characters"@,
            "  --ap-password=PASSWORD                 AP password, at most 64 characters"@,
            "  --sta-ssid=SSID                        Station SSID, at most 32 characters"@,
            "  --sta-password=PASSWORD                Station password, at most 64 characters"@,
            "Write underscores for spaces in SSIDs and passwords"@,
        ]
    } else if topic == "start"@ {
        seq![
            "start - Start a collection run"@,
            "Usage: start [--duration=SECONDS]"@,
            "  --duration=NUMBER   Run length in seconds; without it the run"@,
            "                      is requested for one week"@,
        ]
    } else if topic == "show-config"@ {
        seq![
            "show-config - Display the current configuration"@,
            "Usage: show-config"@,
        ]
    } else if topic == "reset-config"@ {
        seq![
            "reset-config - Restore the default configuration"@,
            "Usage: reset-config"@,
        ]
    } else if topic == "help"@ {
        help_general_lines()
    } else {
        unknown_command_lines()
    }
}

fn help_topic(topic: &String) -> (out: Vec<String>)
    ensures
        views_of(out@) == help_topic_lines(topic@),
{
    let mut out: Vec<String> = Vec::new();
    if text_eq(topic, "set-traffic") {
        push_lit(&mut out, "set-traffic - Configure traffic generation");
        push_lit(&mut out, "Usage: set-traffic [--enable] [--type=icmp|udp] [--interval=MILLISECONDS]");
        push_lit(&mut out, "  --enable            Enable traffic generation (default: disabled)");
        push_lit(&mut out, "  --type=icmp|udp     Kind of generated traffic (default: icmp)");
        push_lit(&mut out, "  --interval=NUMBER   Interval between packets in ms (default: 1000)");
    } else if text_eq(topic, "set-network") {
        push_lit(&mut out, "set-network - Configure the network architecture");
        push_lit(&mut out, "Usage: set-network [--arch=rsta|rapsta|apsta|sniff]");
        push_lit(&mut out, "  --arch=rsta     Router connected to one station");
        push_lit(&mut out, "  --arch=rapsta   Router, access point and station");
        push_lit(&mut out, "  --arch=apsta    Access point with one or more stations");
        push_lit(&mut out, "  --arch=sniff    Standalone sniffer (default)");
    } else if text_eq(topic, "set-csi") {
        push_lit(&mut out, "set-csi - Configure CSI feature flags");
        push_lit(&mut out, "Usage: set-csi [OPTIONS]");
        push_lit(&mut out, "  --disable-csi              Disable CSI acquisition");
        push_lit(&mut out, "  --disable-csi-legacy       Disable L-LTF acquisition");
        push_lit(&mut out, "  --disable-csi-ht20         Disable HT-LTF acquisition on HT20");
        push_lit(&mut out, "  --disable-csi-ht40         Disable HT-LTF acquisition on HT40");
        push_lit(&mut out, "  --disable-csi-su           Disable HE-LTF acquisition on SU");
        push_lit(&mut out, "  --disable-csi-mu           Disable HE-LTF acquisition on MU");
        push_lit(&mut out, "  --disable-csi-dcm          Disable HE-LTF acquisition with DCM");
        push_lit(&mut out, "  --disable-csi-beamformed   Disable beamformed HE-LTF acquisition");
        push_lit(&mut out, "  --csi-he-stbc=0..3         HE-LTF sampling under STBC (default: 2)");
        push_lit(&mut out, "  --val-scale-cfg=0..3       Scale configuration (default: 2)");
        push_lit(&mut out, "All features start enabled; re-enabling takes reset-config");
    } else if text_eq(topic, "set-wifi") {
        push_lit(&mut out, "set-wifi - Configure WiFi settings");
        push_lit(&mut out, "Usage: set-wifi [OPTIONS]");
        push_lit(&mut out, "  --mode=ap|station|sniffer|ap-station   Operation mode (default: sniffer)");
        push_lit(&mut out, "  --max-connections=NUMBER               AP connection limit (default: 1)");
        push_lit(&mut out, "  --hide-ssid                            Hide the AP SSID");
        push_lit(&mut out, "  --ap-ssid=SSID                         AP SSID, at most 32 characters");
        push_lit(&mut out, "  --ap-password=PASSWORD                 AP password, at most 64 characters");
        push_lit(&mut out, "  --sta-ssid=SSID                        Station SSID, at most 32 characters");
        push_lit(&mut out, "  --sta-password=PASSWORD                Station password, at most 64 characters");
        push_lit(&mut out, "Write underscores for spaces in SSIDs and passwords");
    } else if text_eq(topic, "start") {
        push_lit(&mut out, "start - Start a collection run");
        push_lit(&mut out, "Usage: start [--duration=SECONDS]");
        push_lit(&mut out, "  --duration=NUMBER   Run length in seconds; without it the run");
        push_lit(&mut out, "                      is requested for one week");
    } else if text_eq(topic, "show-config") {
        push_lit(&mut out, "show-config - Display the current configuration");
        push_lit(&mut out, "Usage: show-config");
    } else if text_eq(topic, "reset-config") {
        push_lit(&mut out, "reset-config - Restore the default configuration");
        push_lit(&mut out, "Usage: reset-config");
    } else if text_eq(topic, "help") {
        return help_general();
    } else {
        return unknown_command();
    }
    proof {
        assert(views_of(out@) =~= help_topic_lines(topic@));
    }
    out
}

/// The answer of `reset-config`.
pub open spec fn reset_lines() -> Seq<Seq<char>> {
    seq![Seq::<char>::empty(), "Configuration Reset to Default Values"@, Seq::<char>::empty()]
}

/// Replaces the whole record with the documented defaults, whatever was
/// stored before.
pub fn reset_config_cmd(cfg: &mut Config) -> (out: Vec<String>)
    ensures
        final(cfg)@ == default_config_v(),
        final(cfg)@.wf(),
        views_of(out@) == reset_lines(),
{
    *cfg = Config::new_default();
    let mut out: Vec<String> = Vec::new();
    push_empty(&mut out);
    push_lit(&mut out, "Configuration Reset to Default Values");
    push_empty(&mut out);
    proof {
        assert(views_of(out@) =~= reset_lines());
    }
    out
}

/// What one line does to the whole system: the record and pending request
/// afterwards, and the response lines.
pub ghost struct LineOutcome {
    pub cfg: ConfigV,
    pub pending: Option<u64>,
    pub out: Seq<Seq<char>>,
}

/// The interpreter, as one function of the prior state and the line.
pub open spec fn line_outcome(c: ConfigV, p: Option<u64>, line: Seq<char>) -> LineOutcome {
    let ts = tokens_of(line);
    if ts.len() == 0 {
        LineOutcome { cfg: c, pending: p, out: Seq::empty() }
    } else {
        let cmd = ts[0];
        let flags = ts.drop_first();
        if cmd == "set-traffic"@ {
            LineOutcome {
                cfg: ConfigV { traffic: traffic_fold(c.traffic, flags), ..c },
                pending: p,
                out: traffic_response(c.traffic, flags),
            }
        } else if cmd == "set-network"@ {
            LineOutcome {
                cfg: ConfigV { net_arch: network_fold(c.net_arch, flags), ..c },
                pending: p,
                out: network_response(c.net_arch, flags),
            }
        } else if cmd == "set-csi"@ {
            LineOutcome {
                cfg: ConfigV { csi: csi_fold(c.csi, flags), ..c },
                pending: p,
                out: csi_response(c.csi, flags),
            }
        } else if cmd == "set-wifi"@ {
            LineOutcome {
                cfg: ConfigV { wifi: wifi_fold(c.wifi, flags), ..c },
                pending: p,
                out: wifi_response(c.wifi, flags),
            }
        } else if cmd == "start"@ {
            LineOutcome { cfg: c, pending: start_pending(p, flags), out: start_response(flags) }
        } else if cmd == "show-config"@ {
            LineOutcome { cfg: c, pending: p, out: show_config_lines(c) }
        } else if cmd == "reset-config"@ {
            LineOutcome { cfg: default_config_v(), pending: p, out: reset_lines() }
        } else if cmd == "help"@ {
            if ts.len() == 1 {
                LineOutcome { cfg: c, pending: p, out: help_general_lines() }
            } else {
                LineOutcome { cfg: c, pending: p, out: help_topic_lines(ts[1]) }
            }
        } else {
            LineOutcome { cfg: c, pending: p, out: unknown_command_lines() }
        }
    }
}

/// A line never leaves the record ill-formed.
pub proof fn lemma_line_outcome_wf(c: ConfigV, p: Option<u64>, line: Seq<char>)
    requires
        c.wf(),
    ensures
        line_outcome(c, p, line).cfg.wf(),
{
    let ts = tokens_of(line);
    if ts.len() > 0 {
        let flags = ts.drop_first();
        crate::cmd_csi::lemma_csi_fold_wf(c.csi, flags);
        crate::cmd_wifi::lemma_wifi_fold_wf(c.wifi, flags);
    }
}

fn rest(v: &Vec<String>) -> (r: Vec<String>)
    requires
        v@.len() >= 1,
    ensures
        views_of(r@) == views_of(v@).drop_first(),
{
    let mut r: Vec<String> = Vec::new();
    let mut i: usize = 1;
    proof {
        assert(views_of(r@) =~= views_of(v@).subrange(1, 1));
    }
    while i < v.len()
        invariant
            1 <= i <= v@.len(),
            views_of(r@) == views_of(v@).subrange(1, i as int),
        decreases v@.len() - i,
    {
        let ghost pre = views_of(r@);
        r.push(v[i].clone());
        proof {
            assert(views_of(r@) =~= pre.push(v@[i as int]@));
            assert(views_of(r@) =~= views_of(v@).subrange(1, i + 1));
        }
        i += 1;
    }
    proof {
        assert(views_of(v@).subrange(1, v@.len() as int) =~= views_of(v@).drop_first());
    }
    r
}

/// Interprets one full line: tokenizes it, dispatches on the command word,
/// mutates the record or the run-control signal, and answers.
pub fn handle_line(cfg: &mut Config, sig: &mut RunSignal, line: &String) -> (out: Vec<String>)
    requires
        old(cfg)@.wf(),
    ensures
        final(cfg)@.wf(),
        final(cfg)@ == line_outcome(old(cfg)@, old(sig)@, line@).cfg,
        final(sig)@ == line_outcome(old(cfg)@, old(sig)@, line@).pending,
        views_of(out@) == line_outcome(old(cfg)@, old(sig)@, line@).out,
{
    let toks = tokenize(line);
    if toks.len() == 0 {
        let out: Vec<String> = Vec::new();
        proof {
            assert(views_of(out@) =~= Seq::<Seq<char>>::empty());
        }
        return out;
    }
    let cmd = &toks[0];
    proof {
        assert(views_of(toks@)[0] == cmd@);
    }
    if text_eq(cmd, "set-traffic") {
        let flags = rest(&toks);
        set_traffic_cmd(cfg, &flags)
    } else if text_eq(cmd, "set-network") {
        let flags = rest(&toks);
        set_network_cmd(cfg, &flags)
    } else if text_eq(cmd, "set-csi") {
        let flags = rest(&toks);
        set_csi_cmd(cfg, &flags)
    } else if text_eq(cmd, "set-wifi") {
        let flags = rest(&toks);
        set_wifi_cmd(cfg, &flags)
    } else if text_eq(cmd, "start") {
        let flags = rest(&toks);
        start_cmd(sig, &flags)
    } else if text_eq(cmd, "show-config") {
        render_show_config(cfg)
    } else if text_eq(cmd, "reset-config") {
        reset_config_cmd(cfg)
    } else if text_eq(cmd, "help") {
        if toks.len() == 1 {
            help_general()
        } else {
            let topic = &toks[1];
            proof {
                assert(views_of(toks@)[1] == topic@);
            }
            help_topic(topic)
        }
    } else {
        unknown_command()
    }
}

} // verus!
