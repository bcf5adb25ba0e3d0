//! End-to-end scenarios through the session: one character at a time, as
//! the transport would deliver them.

use csi_console::session::Session;

fn run_line(s: &mut Session, line: &str) -> Vec<String> {
    let mut out: Vec<String> = Vec::new();
    for c in line.chars() {
        out.extend(s.input_char(c));
    }
    out.extend(s.input_char('\n'));
    out
}

fn assert_lines(out: &[String], expected: &[&str]) {
    let got: Vec<&str> = out.iter().map(|s| s.as_str()).collect();
    assert_eq!(got, expected);
}

#[test]
fn default_record_is_documented() {
    let s = Session::new();
    assert_eq!(s.config.traffic.enabled, false);
    assert_eq!(s.config.traffic.interval_ms, 1000);
    assert_eq!(s.config.csi.he_stbc, 2);
    assert_eq!(s.config.csi.scale, 2);
    assert!(s.config.csi.csi_enabled && s.config.csi.legacy && s.config.csi.ht20);
    assert!(s.config.csi.ht40 && s.config.csi.su && s.config.csi.mu);
    assert!(s.config.csi.dcm && s.config.csi.beamformed);
    assert_eq!(s.config.wifi.max_connections, 1);
    assert_eq!(s.config.wifi.ssid_hidden, false);
    assert_eq!(s.config.wifi.ap_ssid, "");
    assert_eq!(s.config.wifi.ap_password, "");
    assert_eq!(s.config.wifi.sta_ssid, "");
    assert_eq!(s.config.wifi.sta_password, "");
    assert_eq!(s.signal.peek(), None);
}

#[test]
fn set_traffic_full_line() {
    let mut s = Session::new();
    let out = run_line(&mut s, "set-traffic --enable --type=udp --interval=50");
    assert_lines(&out, &[
        "",
        "Updated Traffic Configuration:",
        "",
        "Traffic Enabled: true",
        "Traffic Type: UDP",
        "Traffic Interval: 50ms",
    ]);
    assert!(s.config.traffic.enabled);
    assert_eq!(s.config.traffic.interval_ms, 50);
}

#[test]
fn set_traffic_invalid_type_keeps_rest_of_line() {
    let mut s = Session::new();
    let out = run_line(&mut s, "set-traffic --type=tcp --interval=250");
    assert_lines(&out, &[
        "Invalid Traffic Type",
        "",
        "Updated Traffic Configuration:",
        "",
        "Traffic Enabled: false",
        "Traffic Type: ICMP",
        "Traffic Interval: 250ms",
    ]);
    assert_eq!(s.config.traffic.interval_ms, 250);
}

#[test]
fn set_traffic_invalid_interval() {
    let mut s = Session::new();
    let out = run_line(&mut s, "set-traffic --interval=12a");
    assert_eq!(out[0], "Invalid Interval");
    assert_eq!(s.config.traffic.interval_ms, 1000);
}

#[test]
fn interval_at_u64_maximum() {
    let mut s = Session::new();
    let out = run_line(&mut s, "set-traffic --interval=18446744073709551615");
    assert_eq!(out[0], "");
    assert_eq!(s.config.traffic.interval_ms, u64::MAX);
    let out = run_line(&mut s, "set-traffic --interval=18446744073709551616");
    assert_eq!(out[0], "Invalid Interval");
    assert_eq!(s.config.traffic.interval_ms, u64::MAX);
}

#[test]
fn set_network_architectures() {
    let mut s = Session::new();
    let out = run_line(&mut s, "set-network --arch=rsta");
    assert_lines(&out, &["", "Updated Network Architecture: RouterStation"]);
    run_line(&mut s, "set-network --arch=rapsta");
    let out = run_line(&mut s, "set-network --arch=mesh");
    assert_lines(&out, &["Invalid Network Type", "",
        "Updated Network Architecture: RouterAccessPointStation"]);
    let out = run_line(&mut s, "set-network --arch=apsta");
    assert_lines(&out, &["", "Updated Network Architecture: AccessPointStation"]);
    let out = run_line(&mut s, "set-network --arch=sniff");
    assert_lines(&out, &["", "Updated Network Architecture: Sniffer"]);
}

#[test]
fn ap_ssid_underscores_decode_to_spaces() {
    let mut s = Session::new();
    run_line(&mut s, "set-wifi --ap-ssid=my_home_network");
    assert_eq!(s.config.wifi.ap_ssid, "my home network");
}

#[test]
fn ap_ssid_last_valid_write_wins() {
    let mut s = Session::new();
    run_line(&mut s, "set-wifi --ap-ssid=first_name");
    run_line(&mut s, "set-wifi --ap-ssid=second_name");
    let out = run_line(&mut s, "set-wifi --ap-ssid=third_name");
    assert_eq!(s.config.wifi.ap_ssid, "third name");
    assert_eq!(out[0], "");
}

#[test]
fn oversize_ap_ssid_rejected_and_unchanged() {
    let mut s = Session::new();
    run_line(&mut s, "set-wifi --ap-ssid=kept_value");
    // 33 characters, one past the bound.
    let out = run_line(&mut s, "set-wifi --ap-ssid=aaaaaaaaaaaaaaaaaaaaaaaaaaaaaaaaa");
    assert_eq!(out[0], "AP SSID Too Long");
    assert_eq!(s.config.wifi.ap_ssid, "kept value");
}

#[test]
fn ssid_at_exact_bound_accepted() {
    let mut s = Session::new();
    let ssid32: String = "b".repeat(32);
    let mut line = String::from("set-wifi --sta-ssid=");
    line.push_str(&ssid32);
    let out = run_line(&mut s, &line);
    assert_eq!(out[0], "");
    assert_eq!(s.config.wifi.sta_ssid, ssid32);
}

#[test]
fn password_bounds() {
    // Lines longer than the 64-character line buffer cannot carry a
    // 64-character password, so drive the interpreter on whole lines here.
    let mut cfg = csi_console::config::Config::new_default();
    let mut sig = csi_console::signal::RunSignal::new();
    let pw64: String = "p".repeat(64);
    let mut line = String::from("set-wifi --ap-password=");
    line.push_str(&pw64);
    let out = csi_console::interp::handle_line(&mut cfg, &mut sig, &line);
    assert_eq!(out[0], "");
    assert_eq!(cfg.wifi.ap_password, pw64);
    let mut line = String::from("set-wifi --sta-password=");
    line.push_str(&"q".repeat(65));
    let out = csi_console::interp::handle_line(&mut cfg, &mut sig, &line);
    assert_eq!(out[0], "Station Password Too Long");
    assert_eq!(cfg.wifi.sta_password, "");
}

#[test]
fn set_wifi_mode_and_limits() {
    let mut s = Session::new();
    let out = run_line(&mut s, "set-wifi --mode=ap --max-connections=5 --hide-ssid");
    assert_eq!(out[0], "");
    assert!(s.config.wifi.ssid_hidden);
    assert_eq!(s.config.wifi.max_connections, 5);
    let out = run_line(&mut s, "set-wifi --mode=repeater");
    assert_eq!(out[0], "Invalid WiFi Mode");
    let out = run_line(&mut s, "set-wifi --max-connections=70000");
    assert_eq!(out[0], "Invalid Max Connections");
    assert_eq!(s.config.wifi.max_connections, 5);
    let out = run_line(&mut s, "set-wifi --max-connections=65535");
    assert_eq!(out[0], "");
    assert_eq!(s.config.wifi.max_connections, 65535);
}

#[test]
fn csi_disable_flags() {
    let mut s = Session::new();
    let out = run_line(&mut s, "set-csi --disable-csi-legacy --disable-csi-ht40");
    assert_lines(&out, &[
        "",
        "Updated CSI Configuration:",
        "",
        "Acquire CSI: true",
        "Acquire Legacy CSI: false",
        "Acquire HT20: true",
        "Acquire HT40: false",
        "Acquire HE20 SU: true",
        "Acquire HE20 MU: true",
        "Acquire HE20 DCM: true",
        "Acquire HE20 Beamformed: true",
        "HE STBC: 2",
        "Scale Value: 2",
    ]);
}

#[test]
fn csi_he_stbc_out_of_range_rejected() {
    let mut s = Session::new();
    let out = run_line(&mut s, "set-csi --csi-he-stbc=7");
    assert_eq!(out[0], "Invalid CSI HE STBC Value");
    assert_eq!(s.config.csi.he_stbc, 2);
    let out = run_line(&mut s, "set-csi --csi-he-stbc=4");
    assert_eq!(out[0], "Invalid CSI HE STBC Value");
    assert_eq!(s.config.csi.he_stbc, 2);
    let out = run_line(&mut s, "set-csi --csi-he-stbc=3 --val-scale-cfg=0");
    assert_eq!(out[0], "");
    assert_eq!(s.config.csi.he_stbc, 3);
    assert_eq!(s.config.csi.scale, 0);
    let out = run_line(&mut s, "set-csi --val-scale-cfg=9");
    assert_eq!(out[0], "Invalid Scale Value");
    assert_eq!(s.config.csi.scale, 0);
}

#[test]
fn reset_config_restores_documented_defaults() {
    let mut s = Session::new();
    let mut fresh = Session::new();
    let expected = run_line(&mut fresh, "show-config");
    run_line(&mut s, "set-traffic --enable --type=udp --interval=7");
    run_line(&mut s, "set-network --arch=rsta");
    run_line(&mut s, "set-csi --disable-csi --csi-he-stbc=0");
    run_line(&mut s, "set-wifi --mode=ap --ap-ssid=x_y --hide-ssid --max-connections=9");
    let out = run_line(&mut s, "reset-config");
    assert_lines(&out, &["", "Configuration Reset to Default Values", ""]);
    let shown = run_line(&mut s, "show-config");
    assert_eq!(shown, expected);
}

#[test]
fn show_config_reports_default_record() {
    let mut s = Session::new();
    let out = run_line(&mut s, "show-config");
    assert_lines(&out, &[
        "",
        "Traffic Settings:",
        "Traffic Enabled: false",
        "Traffic Type: ICMP",
        "Traffic Interval: 1000ms",
        "",
        "Network Settings:",
        "Network Architecture: Sniffer",
        "",
        "CSI Settings:",
        "Acquire CSI: true",
        "Acquire Legacy CSI: true",
        "Acquire HT20: true",
        "Acquire HT40: true",
        "Acquire HE20 SU: true",
        "Acquire HE20 MU: true",
        "Acquire HE20 DCM: true",
        "Acquire HE20 Beamformed: true",
        "HE STBC: 2",
        "Scale Value: 2",
        "",
        "WiFi Settings:",
        "WiFi Operation Mode: Sniffer",
        "Station SSID: '', Password: ''",
        "Access Point SSID: '', Password: '', SSID Hidden: false, Max Connections: 1",
    ]);
}

#[test]
fn start_with_duration_sends_it() {
    let mut s = Session::new();
    let out = run_line(&mut s, "start --duration=120");
    assert!(out.is_empty());
    assert_eq!(s.signal.peek(), Some(120));
}

#[test]
fn start_without_duration_runs_forever() {
    let mut s = Session::new();
    let out = run_line(&mut s, "start");
    assert_lines(&out, &["Running Forever"]);
    assert_eq!(s.signal.peek(), Some(604800));
}

#[test]
fn start_with_bad_duration_sends_nothing() {
    let mut s = Session::new();
    let out = run_line(&mut s, "start --duration=2h");
    assert_lines(&out, &["Invalid Duration"]);
    assert_eq!(s.signal.peek(), None);
}

#[test]
fn second_start_overwrites_pending_request() {
    let mut s = Session::new();
    run_line(&mut s, "start --duration=5");
    run_line(&mut s, "start --duration=9000");
    assert_eq!(s.signal.peek(), Some(9000));
}

#[test]
fn unknown_command_lists_commands() {
    let mut s = Session::new();
    let out = run_line(&mut s, "launch --now");
    assert_eq!(out[0], "Unrecognized command");
    assert_eq!(out[1], "Available commands:");
    assert_eq!(out.len(), 10);
}

#[test]
fn unknown_and_malformed_flags_report_each() {
    let mut s = Session::new();
    let out = run_line(&mut s, "set-traffic --bogus --enable=yes --type extra");
    assert_eq!(out[0], "Unknown Flag: bogus");
    assert_eq!(out[1], "Unexpected Value For Flag: enable");
    assert_eq!(out[2], "Missing Value For Flag: type");
    assert_eq!(out[3], "Unexpected Argument: extra");
}

#[test]
fn empty_and_spaced_lines_answer_nothing() {
    let mut s = Session::new();
    let out = run_line(&mut s, "");
    assert!(out.is_empty());
    let out = run_line(&mut s, "    ");
    assert!(out.is_empty());
}

#[test]
fn extra_spaces_between_tokens_are_ignored() {
    let mut s = Session::new();
    let out = run_line(&mut s, "   set-network    --arch=rsta   ");
    assert_lines(&out, &["", "Updated Network Architecture: RouterStation"]);
}

#[test]
fn help_lists_commands() {
    let mut s = Session::new();
    let out = run_line(&mut s, "help");
    assert_eq!(out[0], "Available commands:");
    assert_eq!(out.len(), 11);
}

#[test]
fn help_on_one_command() {
    let mut s = Session::new();
    let out = run_line(&mut s, "help start");
    assert_eq!(out[0], "start - Start a collection run");
    let out = run_line(&mut s, "help nonsense");
    assert_eq!(out[0], "Unrecognized command");
}

#[test]
fn carriage_return_terminates_a_line() {
    let mut s = Session::new();
    let mut out: Vec<String> = Vec::new();
    for c in "set-network --arch=rsta\r".chars() {
        out.extend(s.input_char(c));
    }
    assert_lines(&out, &["", "Updated Network Architecture: RouterStation"]);
}

#[test]
fn ap_password_too_long_rejected() {
    let mut cfg = csi_console::config::Config::new_default();
    let mut sig = csi_console::signal::RunSignal::new();
    let mut line = String::from("set-wifi --ap-password=");
    line.push_str(&"r".repeat(65));
    let out = csi_console::interp::handle_line(&mut cfg, &mut sig, &line);
    assert_eq!(out[0], "AP Password Too Long");
    assert_eq!(cfg.wifi.ap_password, "");
}

#[test]
fn station_ssid_too_long_rejected() {
    let mut s = Session::new();
    let out = run_line(&mut s, "set-wifi --sta-ssid=ccccccccccccccccccccccccccccccccc");
    assert_eq!(out[0], "Station SSID Too Long");
    assert_eq!(s.config.wifi.sta_ssid, "");
}

#[test]
fn empty_flag_value_stores_empty_ssid() {
    let mut s = Session::new();
    run_line(&mut s, "set-wifi --ap-ssid=some_name");
    let out = run_line(&mut s, "set-wifi --ap-ssid=");
    assert_eq!(out[0], "");
    assert_eq!(s.config.wifi.ap_ssid, "");
}

#[test]
fn bare_double_dash_is_an_unknown_flag() {
    let mut s = Session::new();
    let out = run_line(&mut s, "set-traffic --");
    assert_eq!(out[0], "Unknown Flag: ");
}

#[test]
fn traffic_type_icmp_round_trip() {
    let mut s = Session::new();
    run_line(&mut s, "set-traffic --type=udp");
    let out = run_line(&mut s, "set-traffic --type=icmp");
    assert_eq!(out[4], "Traffic Type: ICMP");
}

#[test]
fn set_wifi_station_mode_and_credentials() {
    let mut s = Session::new();
    let out = run_line(&mut s, "set-wifi --mode=station --sta-ssid=lab_net");
    assert_eq!(out[0], "");
    let out = run_line(&mut s, "set-wifi --sta-password=secret_word");
    assert_eq!(out[0], "");
    assert_eq!(s.config.wifi.sta_ssid, "lab net");
    assert_eq!(s.config.wifi.sta_password, "secret word");
    assert_eq!(out[4], "Station SSID: 'lab net', Password: 'secret word'");
    let out = run_line(&mut s, "set-wifi --mode=ap-station");
    assert_eq!(out[3], "WiFi Operation Mode: AccessPointStation");
    let out = run_line(&mut s, "set-wifi --mode=sniffer");
    assert_eq!(out[3], "WiFi Operation Mode: Sniffer");
}
