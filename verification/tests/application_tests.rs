use ui_openvpn_linux::dtos::{ConnectionStateDto, VpnDto, VpnStatusDto};
use ui_openvpn_linux::entities::{ConnectionState, Vpn, VpnStatus};
use ui_openvpn_linux::mappers::VpnMapper;
use ui_openvpn_linux::openvpn::OpenVpnService;
use ui_openvpn_linux::repository::MemoryVpnRepository;
use ui_openvpn_linux::services::VpnApplicationService;

// No tunnel process shows in this process listing.
const PS_IDLE: &str = "USER PID COMMAND\nroot 1 /sbin/init\n";

#[test]
fn should_list_vpns() {
    let mut repo = MemoryVpnRepository::new();
    let openvpn_service = OpenVpnService::new();

    let vpn1 = Vpn::new("vpn1".to_string(), "VPN 1".to_string(), "/path1".to_string());
    let vpn2 = Vpn::new("vpn2".to_string(), "VPN 2".to_string(), "/path2".to_string());

    repo.add_vpn(vpn1);
    repo.add_vpn(vpn2);

    let service = VpnApplicationService::new(repo, openvpn_service);
    let result = service.list_vpns(PS_IDLE);

    assert!(result.is_ok());
    let vpns = result.unwrap();
    assert_eq!(vpns.len(), 2);
}

#[test]
fn should_return_error_when_connecting_nonexistent_vpn() {
    let repo = MemoryVpnRepository::new();
    let openvpn_service = OpenVpnService::new();

    let mut service = VpnApplicationService::new(repo, openvpn_service);
    let result = service.connect_vpn("nonexistent", &vec![], false, Ok(()));

    assert!(result.is_err());
}

#[test]
fn should_disconnect_current_connection() {
    let repo = MemoryVpnRepository::new();
    let openvpn_service = OpenVpnService::new();

    let mut service = VpnApplicationService::new(repo, openvpn_service);
    let result = service.disconnect_current(PS_IDLE);

    // Should succeed even if no connection exists
    assert!(result.is_ok());
}

#[test]
fn should_map_vpn_to_dto() {
    let vpn = Vpn::new(
        "test-vpn".to_string(),
        "Test VPN".to_string(),
        "/path/to/config.ovpn".to_string(),
    );

    let dto = VpnMapper::to_dto(&vpn);

    assert_eq!(dto.id, "test-vpn");
    assert_eq!(dto.display_name, "Test VPN");
    assert_eq!(dto.config_path, "/path/to/config.ovpn");
}

#[test]
fn should_map_dto_to_vpn() {
    let dto = VpnDto {
        id: "test-vpn".to_string(),
        display_name: "Test VPN".to_string(),
        config_path: "/path/to/config.ovpn".to_string(),
        status: VpnStatusDto {
            state: ConnectionStateDto::Disconnected,
            ip_address: String::new(),
            connected_since: None,
        },
    };

    let vpn = VpnMapper::from_dto(&dto);

    assert_eq!(vpn.id(), "test-vpn");
    assert_eq!(vpn.display_name(), "Test VPN");
    assert_eq!(vpn.config_path(), "/path/to/config.ovpn");
}

#[test]
fn should_map_vpn_list_to_dto_list() {
    let vpns = vec![
        Vpn::new("vpn1".to_string(), "VPN 1".to_string(), "/path1".to_string()),
        Vpn::new("vpn2".to_string(), "VPN 2".to_string(), "/path2".to_string()),
    ];

    let dtos = VpnMapper::to_dto_list(&vpns);

    assert_eq!(dtos.len(), 2);
    assert_eq!(dtos[0].id, "vpn1");
    assert_eq!(dtos[1].id, "vpn2");
}

#[test]
fn connected_status_maps_its_timestamp_to_decimal_seconds() {
    let status = VpnStatus::new(ConnectionState::Connected, "10.0.0.1".to_string());
    let dto = VpnMapper::status_to_dto(&status);

    assert_eq!(dto.state, ConnectionStateDto::Connected);
    assert_eq!(dto.ip_address, "10.0.0.1");
    let since = status.connected_since().unwrap();
    assert_eq!(dto.connected_since.unwrap(), since.to_string());
}

#[test]
fn disconnected_status_maps_without_timestamp() {
    let status = VpnStatus::new(ConnectionState::Disconnected, String::new());
    let dto = VpnMapper::status_to_dto(&status);

    assert_eq!(dto.state, ConnectionStateDto::Disconnected);
    assert!(dto.connected_since.is_none());
}

#[test]
fn error_state_round_trips_through_its_dto() {
    let state = ConnectionState::Error("spawn failed".to_string());
    let dto = VpnMapper::connection_state_to_dto(&state);
    assert_eq!(dto, ConnectionStateDto::Error("spawn failed".to_string()));
    assert_eq!(VpnMapper::connection_state_from_dto(&dto), state);
}
