use ui_openvpn_linux::entities::{ConnectionState, Vpn, VpnError, VpnStatus};
use ui_openvpn_linux::repository::MemoryVpnRepository;
use ui_openvpn_linux::use_cases::ConnectVpnUseCase;

#[test]
fn should_create_vpn_with_valid_data() {
    let vpn = Vpn::new(
        "test-vpn".to_string(),
        "Dynamic".to_string(),
        "/path/to/config.ovpn".to_string(),
    );

    assert_eq!(vpn.id(), "test-vpn");
    assert_eq!(vpn.display_name(), "Dynamic");
    assert_eq!(vpn.config_path(), "/path/to/config.ovpn");
    assert_eq!(vpn.status(), &VpnStatus::default());
}

#[test]
fn should_update_vpn_status() {
    let mut vpn = Vpn::new(
        "test-vpn".to_string(),
        "Dynamic".to_string(),
        "/path/to/config.ovpn".to_string(),
    );

    let new_status = VpnStatus::new(ConnectionState::Connected, "192.168.1.100".to_string());
    vpn.update_status(new_status.clone());

    assert_eq!(vpn.status(), &new_status);
}

#[test]
fn should_validate_empty_id_returns_error() {
    let result = Vpn::try_new("".to_string(), "Display".to_string(), "/path".to_string());
    assert!(result.is_err());
}

#[test]
fn should_validate_empty_config_path_returns_error() {
    let result = Vpn::try_new("id".to_string(), "Display".to_string(), "".to_string());
    assert!(result.is_err());
}

#[test]
fn should_create_default_status() {
    let status = VpnStatus::default();
    assert_eq!(status.state(), &ConnectionState::Disconnected);
    assert_eq!(status.ip_address(), "");
}

#[test]
fn should_create_connected_status() {
    let status = VpnStatus::new(ConnectionState::Connected, "10.0.0.1".to_string());
    assert_eq!(status.state(), &ConnectionState::Connected);
    assert_eq!(status.ip_address(), "10.0.0.1");
}

#[test]
fn should_transition_states_correctly() {
    let mut status = VpnStatus::default();

    status.set_state(ConnectionState::Connecting);
    assert_eq!(status.state(), &ConnectionState::Connecting);

    status.set_state(ConnectionState::Connected);
    assert_eq!(status.state(), &ConnectionState::Connected);

    status.set_state(ConnectionState::Disconnected);
    assert_eq!(status.state(), &ConnectionState::Disconnected);
}

#[test]
fn should_connect_vpn_successfully() {
    let mut repo = MemoryVpnRepository::new();
    let vpn = Vpn::new("test-vpn".to_string(), "Test".to_string(), "/path".to_string());
    repo.add_vpn(vpn);

    let mut use_case = ConnectVpnUseCase::new(repo);
    let result = use_case.execute("test-vpn");

    assert!(result.is_ok());
}

#[test]
fn should_return_error_when_vpn_not_found() {
    let repo = MemoryVpnRepository::new();

    let mut use_case = ConnectVpnUseCase::new(repo);
    let result = use_case.execute("non-existent");

    assert!(result.is_err());
}

#[test]
fn blank_id_is_rejected_as_empty() {
    let result = Vpn::try_new("   ".to_string(), "Display".to_string(), "/path".to_string());
    assert_eq!(result.unwrap_err(), VpnError::EmptyId);
}

#[test]
fn empty_id_error_takes_precedence_over_empty_path() {
    let result = Vpn::try_new("".to_string(), "Display".to_string(), "".to_string());
    assert_eq!(result.unwrap_err(), VpnError::EmptyId);
}

#[test]
fn empty_config_path_yields_its_own_error() {
    let result = Vpn::try_new("id".to_string(), "Display".to_string(), "  ".to_string());
    assert_eq!(result.unwrap_err(), VpnError::EmptyConfigPath);
}

#[test]
fn nonempty_inputs_always_succeed() {
    let result = Vpn::try_new("x".to_string(), "".to_string(), "y".to_string());
    let vpn = result.unwrap();
    assert_eq!(vpn.id(), "x");
    assert_eq!(vpn.display_name(), "");
    assert_eq!(vpn.config_path(), "y");
}

#[test]
fn connected_since_present_exactly_when_connected() {
    let status = VpnStatus::new(ConnectionState::Connected, String::new());
    assert!(status.connected_since().is_some());

    let mut status = VpnStatus::new(ConnectionState::Connecting, String::new());
    assert!(status.connected_since().is_none());

    status.set_state(ConnectionState::Connected);
    assert!(status.connected_since().is_some());

    status.set_state(ConnectionState::Disconnected);
    assert!(status.connected_since().is_none());

    let err = VpnStatus::new(ConnectionState::Error("boom".to_string()), String::new());
    assert!(err.connected_since().is_none());
}

#[test]
fn setting_the_address_keeps_state_and_timestamp() {
    let mut status = VpnStatus::new(ConnectionState::Connected, String::new());
    let since = status.connected_since();

    status.set_ip_address("10.8.0.2".to_string());
    assert_eq!(status.ip_address(), "10.8.0.2");
    assert_eq!(status.state(), &ConnectionState::Connected);
    assert_eq!(status.connected_since(), since);
}

#[test]
fn error_messages_name_their_cause() {
    assert_eq!(VpnError::EmptyId.message(), "VPN ID cannot be empty");
    assert_eq!(VpnError::EmptyConfigPath.message(), "Config path cannot be empty");
    assert_eq!(
        VpnError::InvalidConfigFile("x.conf".to_string()).message(),
        "Invalid config file: x.conf"
    );
    assert_eq!(
        VpnError::ConnectionFailed("timed out".to_string()).message(),
        "Connection failed: timed out"
    );
}
