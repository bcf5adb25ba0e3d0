//! Response rendering: the exact lines each command answers with,
//! specified over `Seq<char>` and built with verified string helpers.

use vstd::prelude::*;
use vstd::string::*;

use crate::config::{Config, ConfigV, CsiConfig, NetworkArch, TrafficConfig, TrafficKind,
    WifiConfig, WifiMode, WifiV};
use crate::text::{dec_digits, fmt_u64, views_of};

verus! {

pub open spec fn bool_v(b: bool) -> Seq<char> {
    if b { "true"@ } else { "false"@ }
}

pub fn bool_str(b: bool) -> (r: &'static str)
    ensures
        r@ == bool_v(b),
{
    if b { "true" } else { "false" }
}

pub open spec fn traffic_kind_v(k: TrafficKind) -> Seq<char> {
    match k {
        TrafficKind::Icmp => "ICMP"@,
        TrafficKind::Udp => "UDP"@,
    }
}

pub fn traffic_kind_str(k: TrafficKind) -> (r: &'static str)
    ensures
        r@ == traffic_kind_v(k),
{
    match k {
        TrafficKind::Icmp => "ICMP",
        TrafficKind::Udp => "UDP",
    }
}

pub open spec fn net_arch_v(a: NetworkArch) -> Seq<char> {
    match a {
        NetworkArch::RouterStation => "RouterStation"@,
        NetworkArch::RouterAccessPointStation => "RouterAccessPointStation"@,
        NetworkArch::AccessPointStation => "AccessPointStation"@,
        NetworkArch::Sniffer => "Sniffer"@,
    }
}

pub fn net_arch_str(a: NetworkArch) -> (r: &'static str)
    ensures
        r@ == net_arch_v(a),
{
    match a {
        NetworkArch::RouterStation => "RouterStation",
        NetworkArch::RouterAccessPointStation => "RouterAccessPointStation",
        NetworkArch::AccessPointStation => "AccessPointStation",
        NetworkArch::Sniffer => "Sniffer",
    }
}

pub open spec fn wifi_mode_v(m: WifiMode) -> Seq<char> {
    match m {
        WifiMode::AccessPoint => "AccessPoint"@,
        WifiMode::Station => "Station"@,
        WifiMode::Sniffer => "Sniffer"@,
        WifiMode::AccessPointStation => "AccessPointStation"@,
    }
}

pub fn wifi_mode_str(m: WifiMode) -> (r: &'static str)
    ensures
        r@ == wifi_mode_v(m),
{
    match m {
        WifiMode::AccessPoint => "AccessPoint",
        WifiMode::Station => "Station",
        WifiMode::Sniffer => "Sniffer",
        WifiMode::AccessPointStation => "AccessPointStation",
    }
}

/// An owned copy of a literal.
pub fn lit(s: &str) -> (r: String)
    ensures
        r@ == s@,
{
    String::from_str(s)
}

/// The error line for a flag problem: a fixed prefix naming the problem,
/// then the offending flag name or token.
pub fn err_line(prefix: &str, name: &String) -> (r: String)
    ensures
        r@ == prefix@ + name@,
{
    let mut l = String::from_str(prefix);
    l.append(name.as_str());
    l
}

/// Appends one response line.
pub fn push_line(out: &mut Vec<String>, s: String)
    ensures
        views_of(final(out)@) == views_of(old(out)@).push(s@),
{
    let ghost pre = out@;
    let ghost sv = s@;
    out.push(s);
    proof {
        assert(views_of(out@) =~= views_of(pre).push(sv));
    }
}

/// Appends one literal response line.
pub fn push_lit(out: &mut Vec<String>, s: &str)
    ensures
        views_of(final(out)@) == views_of(old(out)@).push(s@),
{
    push_line(out, String::from_str(s));
}

/// Appends an empty response line.
pub fn push_empty(out: &mut Vec<String>)
    ensures
        views_of(final(out)@) == views_of(old(out)@).push(Seq::<char>::empty()),
{
    push_line(out, String::new());
}

/// The lines describing the traffic section.
pub open spec fn traffic_lines(t: TrafficConfig) -> Seq<Seq<char>> {
    seq![
        "Traffic Enabled: "@ + bool_v(t.enabled),
        "Traffic Type: "@ + traffic_kind_v(t.kind),
        "Traffic Interval: "@ + dec_digits(t.interval_ms as nat) + "ms"@,
    ]
}

pub fn render_traffic(t: &TrafficConfig, out: &mut Vec<String>)
    ensures
        views_of(final(out)@) == views_of(old(out)@) + traffic_lines(*t),
{
    let ghost pre = views_of(out@);
    let mut l1 = lit("Traffic Enabled: ");
    l1.append(bool_str(t.enabled));
    push_line(out, l1);
    let mut l2 = lit("Traffic Type: ");
    l2.append(traffic_kind_str(t.kind));
    push_line(out, l2);
    let mut l3 = lit("Traffic Interval: ");
    let iv = fmt_u64(t.interval_ms);
    l3.append(iv.as_str());
    l3.append("ms");
    push_line(out, l3);
    proof {
        assert(views_of(out@) =~= pre + traffic_lines(*t));
    }
}

/// The lines describing the CSI section.
pub open spec fn csi_lines(c: CsiConfig) -> Seq<Seq<char>> {
    seq![
        "Acquire CSI: "@ + bool_v(c.csi_enabled),
        "Acquire Legacy CSI: "@ + bool_v(c.legacy),
        "Acquire HT20: "@ + bool_v(c.ht20),
        "Acquire HT40: "@ + bool_v(c.ht40),
        "Acquire HE20 SU: "@ + bool_v(c.su),
        "Acquire HE20 MU: "@ + bool_v(c.mu),
        "Acquire HE20 DCM: "@ + bool_v(c.dcm),
        "Acquire HE20 Beamformed: "@ + bool_v(c.beamformed),
        "HE STBC: "@ + dec_digits(c.he_stbc as nat),
        "Scale Value: "@ + dec_digits(c.scale as nat),
    ]
}

fn push_bool_line(out: &mut Vec<String>, label: &str, b: bool)
    ensures
        views_of(final(out)@) == views_of(old(out)@).push(label@ + bool_v(b)),
{
    let mut l = lit(label);
    l.append(bool_str(b));
    push_line(out, l);
}

pub fn render_csi(c: &CsiConfig, out: &mut Vec<String>)
    ensures
        views_of(final(out)@) == views_of(old(out)@) + csi_lines(*c),
{
    let ghost pre = views_of(out@);
    push_bool_line(out, "Acquire CSI: ", c.csi_enabled);
    push_bool_line(out, "Acquire Legacy CSI: ", c.legacy);
    push_bool_line(out, "Acquire HT20: ", c.ht20);
    push_bool_line(out, "Acquire HT40: ", c.ht40);
    push_bool_line(out, "Acquire HE20 SU: ", c.su);
    push_bool_line(out, "Acquire HE20 MU: ", c.mu);
    push_bool_line(out, "Acquire HE20 DCM: ", c.dcm);
    push_bool_line(out, "Acquire HE20 Beamformed: ", c.beamformed);
    let mut l9 = lit("HE STBC: ");
    let v9 = fmt_u64(c.he_stbc as u64);
    l9.append(v9.as_str());
    push_line(out, l9);
    let mut l10 = lit("Scale Value: ");
    let v10 = fmt_u64(c.scale as u64);
    l10.append(v10.as_str());
    push_line(out, l10);
    proof {
        assert(views_of(out@) =~= pre + csi_lines(*c));
    }
}

/// The line describing the network architecture.
pub open spec fn net_arch_line(a: NetworkArch) -> Seq<char> {
    "Network Architecture: "@ + net_arch_v(a)
}

pub fn render_net_arch(a: NetworkArch, out: &mut Vec<String>)
    ensures
        views_of(final(out)@) == views_of(old(out)@).push(net_arch_line(a)),
{
    let mut l = lit("Network Architecture: ");
    l.append(net_arch_str(a));
    push_line(out, l);
}

/// The lines describing the WiFi section.
pub open spec fn wifi_lines(w: WifiV) -> Seq<Seq<char>> {
    seq![
        "WiFi Operation Mode: "@ + wifi_mode_v(w.mode),
        "Station SSID: '"@ + w.sta_ssid + "', Password: '"@ + w.sta_password + "'"@,
        "Access Point SSID: '"@ + w.ap_ssid + "', Password: '"@ + w.ap_password
            + "', SSID Hidden: "@ + bool_v(w.ssid_hidden) + ", Max Connections: "@
            + dec_digits(w.max_connections as nat),
    ]
}

pub fn render_wifi(w: &WifiConfig, out: &mut Vec<String>)
    ensures
        views_of(final(out)@) == views_of(old(out)@) + wifi_lines(w@),
{
    let ghost pre = views_of(out@);
    let mut l1 = lit("WiFi Operation Mode: ");
    l1.append(wifi_mode_str(w.mode));
    push_line(out, l1);
    let mut l2 = lit("Station SSID: '");
    l2.append(w.sta_ssid.as_str());
    l2.append("', Password: '");
    l2.append(w.sta_password.as_str());
    l2.append("'");
    push_line(out, l2);
    let mut l3 = lit("Access Point SSID: '");
    l3.append(w.ap_ssid.as_str());
    l3.append("', Password: '");
    l3.append(w.ap_password.as_str());
    l3.append("', SSID Hidden: ");
    l3.append(bool_str(w.ssid_hidden));
    l3.append(", Max Connections: ");
    let mc = fmt_u64(w.max_connections as u64);
    l3.append(mc.as_str());
    push_line(out, l3);
    proof {
        assert(views_of(out@) =~= pre + wifi_lines(w@));
    }
}

/// The full record as `show-config` reports it.
pub open spec fn show_config_lines(c: ConfigV) -> Seq<Seq<char>> {
    seq![Seq::<char>::empty(), "Traffic Settings:"@] + traffic_lines(c.traffic)
        + seq![Seq::<char>::empty(), "Network Settings:"@, net_arch_line(c.net_arch)]
        + seq![Seq::<char>::empty(), "CSI Settings:"@] + csi_lines(c.csi)
        + seq![Seq::<char>::empty(), "WiFi Settings:"@] + wifi_lines(c.wifi)
}

/// Renders the whole record, section by section.
pub fn render_show_config(cfg: &Config) -> (out: Vec<String>)
    ensures
        views_of(out@) == show_config_lines(cfg@),
{
    let mut out: Vec<String> = Vec::new();
    push_empty(&mut out);
    push_lit(&mut out, "Traffic Settings:");
    render_traffic(&cfg.traffic, &mut out);
    push_empty(&mut out);
    push_lit(&mut out, "Network Settings:");
    render_net_arch(cfg.net_arch, &mut out);
    push_empty(&mut out);
    push_lit(&mut out, "CSI Settings:");
    render_csi(&cfg.csi, &mut out);
    push_empty(&mut out);
    push_lit(&mut out, "WiFi Settings:");
    render_wifi(&cfg.wifi, &mut out);
    proof {
        assert(views_of(out@) =~= show_config_lines(cfg@));
    }
    out
}


/// Error line for a flag no command declares.
pub open spec fn unknown_flag_line(name: Seq<char>) -> Seq<char> {
    "Unknown Flag: "@ + name
}

/// Error line for a valued flag given without a value.
pub open spec fn missing_value_line(name: Seq<char>) -> Seq<char> {
    "Missing Value For Flag: "@ + name
}

/// Error line for a bare flag given a value.
pub open spec fn stray_value_line(name: Seq<char>) -> Seq<char> {
    "Unexpected Value For Flag: "@ + name
}

/// Error line for a token that is not a flag at all.
pub open spec fn bad_token_line(tok: Seq<char>) -> Seq<char> {
    "Unexpected Argument: "@ + tok
}

} // verus!
