use ui_openvpn_linux::openvpn::OpenVpnService;
use ui_openvpn_linux::repository::FileVpnRepository;

// No tunnel process shows in this process listing.
const PS_IDLE: &str = "USER PID COMMAND\nroot 1 /sbin/init\n";

#[test]
fn should_find_vpn_by_id() {
    let repo = FileVpnRepository::new("/tmp/profiles".to_string());
    let vpn = repo.vpn_for_id("test-vpn");

    assert_eq!(vpn.id(), "test-vpn");
    assert_eq!(vpn.config_path(), "/tmp/profiles/test-vpn.ovpn");
    assert!(vpn.status().connected_since().is_none());
}

#[test]
fn should_return_none_when_vpn_not_found() {
    let repo = FileVpnRepository::new("/tmp/profiles".to_string());
    let vpns = repo.list_from_filenames(&vec!["other.ovpn".to_string()]);

    let found = vpns.iter().find(|v| v.id() == "non-existent");
    assert!(found.is_none());
}

#[test]
fn should_list_all_vpns() {
    let repo = FileVpnRepository::new("/tmp/profiles".to_string());
    let filenames = vec!["David_cruz.ovpn".to_string(), "julian.ovpn".to_string()];
    let vpns = repo.list_from_filenames(&filenames);

    assert_eq!(vpns.len(), 2);

    let mut vpn_ids: Vec<&str> = vpns.iter().map(|v| v.id()).collect();
    vpn_ids.sort();
    assert_eq!(vpn_ids, vec!["David_cruz", "julian"]);
}

#[test]
fn should_map_display_names_correctly() {
    let repo = FileVpnRepository::new("/tmp/profiles".to_string());
    let filenames = vec!["David_cruz.ovpn".to_string(), "julian.ovpn".to_string()];
    let vpns = repo.list_from_filenames(&filenames);

    for vpn in vpns {
        match vpn.id() {
            "David_cruz" => assert_eq!(vpn.display_name(), "Dynamic"),
            "julian" => assert_eq!(vpn.display_name(), "Howden"),
            _ => panic!("Unexpected VPN ID"),
        }
    }
}

#[test]
fn should_create_openvpn_service() {
    let mut service = OpenVpnService::new();
    assert!(!service.is_connected(PS_IDLE));
}

#[test]
fn should_build_openvpn_command() {
    let service = OpenVpnService::new();
    let config_path = "/path/to/config.ovpn";
    let args = service.build_openvpn_args(config_path);

    assert_eq!(args, vec!["--config".to_string(), "/path/to/config.ovpn".to_string()]);
}

#[test]
fn unknown_filename_falls_back_to_unknown_display_name() {
    assert_eq!(FileVpnRepository::map_display_name("other.ovpn"), "Unknown");
    assert_eq!(FileVpnRepository::map_display_name("David_cruz.ovpn"), "Dynamic");
    assert_eq!(FileVpnRepository::map_display_name("julian.ovpn"), "Howden");
}

#[test]
fn id_extraction_strips_every_trailing_extension() {
    assert_eq!(FileVpnRepository::extract_id_from_filename("David_cruz.ovpn"), "David_cruz");
    assert_eq!(FileVpnRepository::extract_id_from_filename("a.ovpn.ovpn"), "a");
    assert_eq!(FileVpnRepository::extract_id_from_filename("plain"), "plain");
}

#[test]
fn listing_skips_files_without_the_profile_extension() {
    let repo = FileVpnRepository::new("/etc/vpn".to_string());
    let filenames = vec![
        "readme.txt".to_string(),
        "work.ovpn".to_string(),
        ".ovpn".to_string(),
    ];
    let vpns = repo.list_from_filenames(&filenames);

    assert_eq!(vpns.len(), 1);
    assert_eq!(vpns[0].id(), "work");
    assert_eq!(vpns[0].config_path(), "/etc/vpn/work.ovpn");
    assert_eq!(vpns[0].display_name(), "Unknown");
}

#[test]
fn kill_strategies_escalate_in_order() {
    let service = OpenVpnService::new();
    let commands = service.kill_commands();

    assert_eq!(
        commands,
        vec![
            vec!["pkill".to_string(), "-f".to_string(), "openvpn".to_string()],
            vec!["killall".to_string(), "openvpn".to_string()],
            vec![
                "sudo".to_string(),
                "pkill".to_string(),
                "-9".to_string(),
                "-f".to_string(),
                "openvpn".to_string()
            ],
            vec!["sudo".to_string(), "killall".to_string(), "-9".to_string(), "openvpn".to_string()],
        ]
    );
}
