use ui_openvpn_linux::openvpn::OpenVpnService;
use ui_openvpn_linux::scan::{find_tunnel_config, vpn_connection_names};
use ui_openvpn_linux::text::u64_to_string;

#[test]
fn tunnel_line_yields_its_config_path() {
    let ps = "root 42 0.0 /usr/bin/openvpn --config /x/y.ovpn\n";
    let service = OpenVpnService::new();
    assert_eq!(service.get_connected_vpn_config(ps), Some("/x/y.ovpn".to_string()));
}

#[test]
fn listing_without_tunnel_line_yields_none() {
    let ps = "USER PID COMMAND\nroot 1 /sbin/init\nuser 7 bash\n";
    let service = OpenVpnService::new();
    assert_eq!(service.get_connected_vpn_config(ps), None);
}

#[test]
fn grep_lines_are_excluded() {
    let ps = "user 9 grep /usr/bin/openvpn --config /x/y.ovpn\n";
    assert_eq!(find_tunnel_config(ps), None);
}

#[test]
fn first_reporting_line_wins() {
    let ps = "root 1 /sbin/init\nroot 5 /usr/bin/openvpn --config /first.ovpn\nroot 6 /usr/bin/openvpn --config /second.ovpn\n";
    assert_eq!(find_tunnel_config(ps), Some("/first.ovpn".to_string()));
}

#[test]
fn flag_without_following_token_is_skipped() {
    let ps = "root 5 /usr/bin/openvpn --config   \nroot 6 /usr/bin/openvpn --config /b.ovpn\n";
    assert_eq!(find_tunnel_config(ps), Some("/b.ovpn".to_string()));
}

#[test]
fn extra_whitespace_before_the_path_is_skipped() {
    let ps = "root 5 /usr/bin/openvpn --config \t /spaced.ovpn extra\n";
    assert_eq!(find_tunnel_config(ps), Some("/spaced.ovpn".to_string()));
}

#[test]
fn empty_listing_yields_none() {
    assert_eq!(find_tunnel_config(""), None);
}

#[test]
fn binary_without_config_flag_is_not_reported() {
    let ps = "root 5 /usr/bin/openvpn /plain/args\n";
    assert_eq!(find_tunnel_config(ps), None);
}

#[test]
fn connection_table_rows_with_vpn_type_are_listed() {
    let table = "NAME UUID TYPE DEVICE\nwork abc vpn --\nhome def wifi wlan0\nlab ghi vpn tun0\n";
    assert_eq!(vpn_connection_names(table), vec!["work".to_string(), "lab".to_string()]);
}

#[test]
fn connection_table_header_row_is_skipped() {
    let table = "NAME UUID vpn DEVICE\nhome def wifi wlan0\n";
    assert_eq!(vpn_connection_names(table), Vec::<String>::new());
}

#[test]
fn connection_table_blank_and_short_rows_are_ignored() {
    let table = "NAME UUID TYPE DEVICE\n\n   \nonly two\nwork abc vpn --\n";
    assert_eq!(vpn_connection_names(table), vec!["work".to_string()]);
}

#[test]
fn decimal_rendering_matches_the_standard_one() {
    assert_eq!(u64_to_string(0), "0");
    assert_eq!(u64_to_string(7), "7");
    assert_eq!(u64_to_string(10), "10");
    assert_eq!(u64_to_string(1234567890), "1234567890");
    assert_eq!(u64_to_string(u64::MAX), u64::MAX.to_string());
}
