//! The live-weight monitor's state, routing and request gate.

use doser_core::monitor::{host_name_part, ipv4_is_lan, ipv6_is_lan, name_is_lan};
use doser_core::monitor_state::{route, state_change_refusal, Endpoint, HttpMethod, MonitorState};

/// The whole `Host` check as the monitor program runs it: the library splits
/// off the port and judges names and addresses; the address literal is
/// parsed here.
fn host_is_lan(host: &str) -> bool {
    let Some(name) = host_name_part(host.trim()) else {
        return false;
    };
    match name.parse::<core::net::IpAddr>() {
        Ok(core::net::IpAddr::V4(v4)) => ipv4_is_lan(v4.octets()),
        Ok(core::net::IpAddr::V6(v6)) => ipv6_is_lan(v6.segments()),
        Err(_) => name_is_lan(&name),
    }
}

#[test]
fn reading_json_before_first_sample_is_all_null() {
    let s = MonitorState::new();
    assert_eq!(s.reading(), None);
    assert_eq!(s.tared_raw(), None);
    assert!(!s.tare_set);
    assert_eq!(s.seq, 0);
    assert_eq!(s.interval_us, 0);
    assert!(s.last_err.is_none());
}

#[test]
fn reading_json_uncalibrated_reports_raw_only() {
    let mut s = MonitorState::new();
    s.record_ok(12_345);
    assert_eq!(s.reading(), Some(12_345));
    assert_eq!(s.seq, 1);
}

#[test]
fn record_err_surfaces_and_clears() {
    let mut s = MonitorState::new();
    s.record_err("timeout waiting for DOUT".to_string());
    assert_eq!(s.last_err.as_deref(), Some("timeout waiting for DOUT"));
    s.record_ok(7);
    assert!(s.last_err.is_none(), "a good sample clears the error");
}

#[test]
fn tare_is_refused_before_the_first_reading() {
    let mut s = MonitorState::new();
    assert!(!s.set_tare(), "nothing to zero yet");
    assert!(!s.tare_set);
    assert_eq!(s.tared_raw(), None);
}

#[test]
fn tare_nets_out_the_captured_zero() {
    let mut s = MonitorState::new();
    s.record_ok(2_000);
    assert!(s.set_tare());
    s.record_ok(2_500);
    assert!(s.tare_set);
    assert_eq!(s.tared_raw(), Some(500));
    assert_eq!(s.reading(), Some(2_500));
}

#[test]
fn clear_tare_drops_the_net_figures() {
    let mut s = MonitorState::new();
    s.record_ok(2_000);
    assert!(s.set_tare());
    s.clear_tare();
    assert!(!s.tare_set);
    assert_eq!(s.tared_raw(), None);
}

#[test]
fn tare_without_calibration_reports_raw_delta_only() {
    let mut s = MonitorState::new();
    s.record_ok(100);
    assert!(s.set_tare());
    s.record_ok(140);
    assert_eq!(s.tared_raw(), Some(40));
}

#[test]
fn seq_advances_once_per_successful_sample() {
    let mut s = MonitorState::new();
    for _ in 0..3 {
        s.record_ok(1);
    }
    assert_eq!(s.seq, 3);
    s.record_err("bad".to_string());
    assert_eq!(s.seq, 3, "failed reads do not advance seq");
}

#[test]
fn seq_wraps_at_the_top_of_its_range() {
    let mut s = MonitorState::new();
    s.seq = u64::MAX;
    s.record_ok(1);
    assert_eq!(s.seq, 0);
}

#[test]
fn tare_right_after_capture_reads_zero() {
    let mut s = MonitorState::new();
    s.record_ok(-321);
    assert!(s.set_tare());
    assert_eq!(s.tared_raw(), Some(0));
}

#[test]
fn interval_takes_the_first_measurement_then_smooths() {
    let mut s = MonitorState::new();
    s.record_interval(100_000);
    assert_eq!(s.interval_us, 100_000);
    // 50_000 / 5 + 100_000 * 4 / 5
    s.record_interval(50_000);
    assert_eq!(s.interval_us, 90_000);
    // Truncating divisions: 7 / 5 + 90_000 * 4 / 5.
    s.record_interval(7);
    assert_eq!(s.interval_us, 72_001);
}

#[test]
fn interval_of_huge_measurements_does_not_overflow() {
    let mut s = MonitorState::new();
    s.record_interval(u64::MAX);
    s.record_interval(u64::MAX);
    assert_eq!(s.interval_us, u64::MAX / 5 + (u64::MAX as u128 * 4 / 5) as u64);
}

#[test]
fn lan_hosts_are_accepted() {
    for h in [
        "192.168.1.42:8080",
        "10.0.0.7:8080",
        "172.16.3.1",
        "127.0.0.1:8080",
        "169.254.4.5:8080",
        "100.101.102.103:8080",
        "[::1]:8080",
        "[fe80::1]:8080",
        "[fd00::abcd]:8080",
        "localhost:8080",
        "doser",
        "raspberrypi:8080",
        "doser.local:8080",
        "doser.local.:8080",
        "pi.lan",
        "doser.home.arpa:8080",
    ] {
        assert!(host_is_lan(h), "{h} should be treated as LAN");
    }
}

#[test]
fn public_hosts_are_rejected() {
    for h in [
        "evil.example.com:8080",
        "rebind.attacker.net",
        "8.8.8.8:8080",
        "172.32.0.1:8080",
        "[2001:4860:4860::8888]:8080",
        "[bad",
    ] {
        assert!(!host_is_lan(h), "{h} should not be treated as LAN");
    }
}

#[test]
fn ipv4_mapped_addresses_follow_their_ipv4_address() {
    assert!(ipv6_is_lan([0, 0, 0, 0, 0, 0xffff, 0xc0a8, 0x0101]));
    assert!(!ipv6_is_lan([0, 0, 0, 0, 0, 0xffff, 0x0808, 0x0808]));
}

#[test]
fn host_part_strips_ports_and_brackets() {
    assert_eq!(host_name_part("doser.local:8080").as_deref(), Some("doser.local"));
    assert_eq!(host_name_part("[::1]:8080").as_deref(), Some("::1"));
    assert_eq!(host_name_part("fe80::1").as_deref(), Some("fe80::1"));
    assert_eq!(host_name_part("pi").as_deref(), Some("pi"));
    assert_eq!(host_name_part("[bad"), None);
}

#[test]
fn lan_names_ignore_letter_case() {
    assert!(name_is_lan("Doser.LOCAL"));
    assert!(name_is_lan("router.Home.Arpa"));
    assert!(!name_is_lan("example.com"));
}

#[test]
fn routes_follow_method_and_path() {
    assert_eq!(route(HttpMethod::Get, "/"), Endpoint::Index);
    assert_eq!(route(HttpMethod::Get, "/reading?t=1"), Endpoint::Reading);
    assert_eq!(route(HttpMethod::Post, "/tare"), Endpoint::Tare);
    assert_eq!(route(HttpMethod::Post, "/tare/clear?x"), Endpoint::TareClear);
    assert_eq!(route(HttpMethod::Get, "/tare"), Endpoint::NotFound);
    assert_eq!(route(HttpMethod::Post, "/reading"), Endpoint::NotFound);
    assert_eq!(route(HttpMethod::Other, "/"), Endpoint::NotFound);
    assert_eq!(route(HttpMethod::Get, "/readings"), Endpoint::NotFound);
}

#[test]
fn state_changes_need_the_header_and_a_lan_host() {
    assert_eq!(state_change_refusal(false, true), Some((403, "missing X-Doser-Monitor header")));
    assert_eq!(state_change_refusal(false, false), Some((403, "missing X-Doser-Monitor header")));
    assert_eq!(state_change_refusal(true, false), Some((403, "Host is not a LAN address")));
    assert_eq!(state_change_refusal(true, true), None);
}
