use ui_openvpn_linux::entities::{ConnectionState, Vpn};
use ui_openvpn_linux::openvpn::{ConnectionStatus, OpenVpnService};
use ui_openvpn_linux::repository::MemoryVpnRepository;
use ui_openvpn_linux::services::{VpnApplicationService, VpnServiceError};
use ui_openvpn_linux::use_cases::UseCaseError;

// No tunnel process shows in this process listing.
const PS_IDLE: &str = "USER PID COMMAND\nroot 1 /sbin/init\n";

fn service_with_david_cruz() -> VpnApplicationService {
    let mut repo = MemoryVpnRepository::new();
    repo.add_vpn(Vpn::new(
        "David_cruz".to_string(),
        "Dynamic".to_string(),
        "/home/u/.connectvpn.conf/David_cruz.ovpn".to_string(),
    ));
    VpnApplicationService::new(repo, OpenVpnService::new())
}

#[test]
fn connect_marks_exactly_the_target_connected() {
    let mut service = service_with_david_cruz();

    // nothing is running, so the force-kill pass is a no-op
    let result = service.connect_vpn("David_cruz", &vec![], false, Ok(()));
    assert!(result.is_ok());

    let ps = "root 9 /usr/bin/openvpn --config /home/u/.connectvpn.conf/David_cruz.ovpn\n";
    let vpns = service.list_vpns(ps).unwrap();
    assert_eq!(vpns.len(), 1);
    assert!(vpns[0].is_connected());
    assert!(vpns[0].status().connected_since().is_some());
}

#[test]
fn connecting_unknown_profile_fails_with_not_found_and_spawns_nothing() {
    let mut service = service_with_david_cruz();

    let result = service.connect_vpn("ghost", &vec![], false, Ok(()));
    assert_eq!(
        result.unwrap_err(),
        VpnServiceError::VpnNotFound("ghost".to_string())
    );

    // no handle is held and nothing is observed: the status is Disconnected
    let mut openvpn = OpenVpnService::new();
    assert_eq!(openvpn.get_status(PS_IDLE), ConnectionStatus::Disconnected);
}

#[test]
fn disconnect_current_is_idempotent() {
    let mut service = service_with_david_cruz();
    service.connect_vpn("David_cruz", &vec![], false, Ok(())).unwrap();

    assert!(service.disconnect_current(PS_IDLE).is_ok());
    let after_first = service.list_vpns(PS_IDLE).unwrap();

    assert!(service.disconnect_current(PS_IDLE).is_ok());
    let after_second = service.list_vpns(PS_IDLE).unwrap();

    assert_eq!(after_first, after_second);
}

#[test]
fn force_kill_disconnects_every_active_profile() {
    let mut repo = MemoryVpnRepository::new();
    repo.add_vpn(Vpn::new("a".to_string(), "A".to_string(), "/a.ovpn".to_string()));
    repo.add_vpn(Vpn::new("b".to_string(), "B".to_string(), "/b.ovpn".to_string()));
    let mut service = VpnApplicationService::new(repo, OpenVpnService::new());

    service.connect_vpn("a", &vec![], false, Ok(())).unwrap();

    let result = service.force_kill_all_vpns(&vec![true], false);
    assert!(result.is_ok());

    let vpns = service.list_vpns(PS_IDLE).unwrap();
    assert_eq!(vpns.len(), 2);
    for vpn in &vpns {
        assert!(vpn.is_disconnected());
    }
}

#[test]
fn failed_kill_sequence_reports_openvpn_error() {
    let mut service = service_with_david_cruz();

    // every strategy failed and a tunnel process is still observed
    let result = service.force_kill_all_vpns(&vec![false, false, false, false], true);
    assert_eq!(
        result.unwrap_err(),
        VpnServiceError::OpenVpnError(
            "Failed to kill OpenVPN processes. Try running with sudo or check if processes exist."
                .to_string()
        )
    );
}

#[test]
fn spawn_failure_surfaces_as_error_state_and_openvpn_error() {
    let mut service = service_with_david_cruz();

    let result = service.connect_vpn(
        "David_cruz",
        &vec![],
        false,
        Err("permission denied".to_string()),
    );
    let expected = "Failed to start OpenVPN process: permission denied. \
                    Make sure OpenVPN is installed and you have proper permissions.";
    assert_eq!(
        result.unwrap_err(),
        VpnServiceError::OpenVpnError(expected.to_string())
    );

    let vpns = service.list_vpns(PS_IDLE).unwrap();
    assert_eq!(
        vpns[0].status().state(),
        &ConnectionState::Error(expected.to_string())
    );
}

#[test]
fn disconnect_vpn_moves_the_profile_to_disconnected() {
    let mut service = service_with_david_cruz();
    service.connect_vpn("David_cruz", &vec![], false, Ok(())).unwrap();

    assert!(service.disconnect_vpn("David_cruz").is_ok());
    let vpns = service.get_connection_status(PS_IDLE).unwrap();
    assert!(vpns[0].is_disconnected());

    assert_eq!(
        service.disconnect_vpn("ghost").unwrap_err(),
        VpnServiceError::VpnNotFound("ghost".to_string())
    );
}

#[test]
fn status_flags_disagreement_between_belief_and_observation() {
    let mut openvpn = OpenVpnService::new();
    let ps = "root 9 /usr/bin/openvpn --config /x.ovpn\n";
    assert_eq!(
        openvpn.get_status(ps),
        ConnectionStatus::Error("Connected flag set but no process found".to_string())
    );
}

#[test]
fn reconciliation_repairs_the_cached_flag() {
    let mut openvpn = OpenVpnService::new();
    let ps = "root 9 /usr/bin/openvpn --config /x.ovpn\n";
    assert!(openvpn.is_connected(ps));
    assert!(!openvpn.is_connected(PS_IDLE));
}

#[test]
fn listing_reconciles_against_the_observed_tunnel() {
    let mut repo = MemoryVpnRepository::new();
    repo.add_vpn(Vpn::new("a".to_string(), "A".to_string(), "/a.ovpn".to_string()));
    repo.add_vpn(Vpn::new("b".to_string(), "B".to_string(), "/b.ovpn".to_string()));
    let service = VpnApplicationService::new(repo, OpenVpnService::new());

    let ps = "root 9 /usr/bin/openvpn --config /b.ovpn\n";
    let vpns = service.list_vpns(ps).unwrap();
    assert!(vpns[0].is_disconnected());
    assert!(vpns[1].is_connected());
    assert!(vpns[1].status().connected_since().is_some());
}

#[test]
fn agreeing_profile_keeps_its_connect_timestamp() {
    let mut service = service_with_david_cruz();
    service.connect_vpn("David_cruz", &vec![], false, Ok(())).unwrap();

    let ps = "root 9 /usr/bin/openvpn --config /home/u/.connectvpn.conf/David_cruz.ovpn\n";
    let first = service.list_vpns(ps).unwrap();
    let second = service.list_vpns(ps).unwrap();
    assert_eq!(
        first[0].status().connected_since(),
        second[0].status().connected_since()
    );
    assert!(first[0].status().connected_since().is_some());
}

#[test]
fn service_error_messages_name_their_cause() {
    assert_eq!(
        VpnServiceError::VpnNotFound("x".to_string()).message(),
        "VPN not found: x"
    );
    assert_eq!(
        VpnServiceError::ConnectionFailed("y".to_string()).message(),
        "Connection failed: y"
    );
    assert_eq!(
        VpnServiceError::RepositoryError("z".to_string()).message(),
        "Repository error: z"
    );
    assert_eq!(
        VpnServiceError::OpenVpnError("w".to_string()).message(),
        "OpenVPN service error: w"
    );
    assert_eq!(
        UseCaseError::ConnectionError("c".to_string()).message(),
        "Connection error: c"
    );
    assert_eq!(
        UseCaseError::RepositoryError("r".to_string()).message(),
        "Repository error: r"
    );
    assert_eq!(
        UseCaseError::VpnNotFound("v".to_string()).message(),
        "VPN not found: v"
    );
}
