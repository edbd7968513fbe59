use prop_hunt::network::{
    parse_u32, resolve_setting, steam_app_id_from_env, ConnectOutcome, ConnectionState,
    ConnectionStatus, EnvValue, SettingLookup, SteamAppIdError, DEFAULT_SERVER_PORT,
    DEFAULT_STEAM_APP_ID,
};

#[test]
fn host_is_granted_once() {
    let mut c = ConnectionState::default();
    assert_eq!(c.status, ConnectionStatus::Disconnected);
    assert!(c.request_host(false, false));
    assert_eq!(c.status, ConnectionStatus::Hosting);
    assert!(!c.request_host(false, false));
    assert_eq!(c.request_connect(false, false), ConnectOutcome::Duplicate);
    assert_eq!(c.status, ConnectionStatus::Hosting);
}

#[test]
fn host_is_refused_while_a_server_or_client_exists() {
    let mut c = ConnectionState::new();
    assert!(!c.request_host(true, false));
    assert!(!c.request_host(false, true));
    assert_eq!(c.status, ConnectionStatus::Disconnected);
}

#[test]
fn connect_lifecycle() {
    let mut c = ConnectionState::new();
    assert_eq!(c.request_connect(true, false), ConnectOutcome::HostMode);
    assert_eq!(c.status, ConnectionStatus::Disconnected);
    assert_eq!(c.request_connect(false, true), ConnectOutcome::Duplicate);
    assert_eq!(c.request_connect(false, false), ConnectOutcome::Connect);
    assert_eq!(c.status, ConnectionStatus::Connecting);
    c.client_connected(false);
    assert_eq!(c.status, ConnectionStatus::Connecting);
    c.client_connected(true);
    assert_eq!(c.status, ConnectionStatus::Connected);
    assert!(!c.client_disconnected(false));
    assert_eq!(c.status, ConnectionStatus::Connected);
    assert!(c.client_disconnected(true));
    assert_eq!(c.status, ConnectionStatus::Disconnected);
    assert!(c.request_host(false, false));
}

#[test]
fn parses_decimal_u32_like_from_str() {
    for s in ["480", "+7", "0", "007", "4294967295", "", "+", "-1", "12a", " 1", "4294967296", "99999999999999", "١"] {
        assert_eq!(parse_u32(s.as_bytes()), s.parse::<u32>().ok(), "{s:?}");
    }
}

#[test]
fn steam_app_id_rules() {
    assert_eq!(steam_app_id_from_env(&EnvValue::Present(b"1234".to_vec()), false), Ok(1234));
    assert_eq!(
        steam_app_id_from_env(&EnvValue::Present(b"12x".to_vec()), true),
        Err(SteamAppIdError::NotNumeric)
    );
    assert_eq!(steam_app_id_from_env(&EnvValue::NotPresent, true), Ok(DEFAULT_STEAM_APP_ID));
    assert_eq!(steam_app_id_from_env(&EnvValue::NotPresent, false), Err(SteamAppIdError::Missing));
    assert_eq!(steam_app_id_from_env(&EnvValue::NotUnicode, true), Err(SteamAppIdError::NotUnicode));
    assert_eq!(DEFAULT_STEAM_APP_ID, 480);
    assert_eq!(DEFAULT_SERVER_PORT, 6767);
}

#[test]
fn settings_fall_back_to_defaults() {
    assert_eq!(resolve_setting(SettingLookup::Missing, 1u16), (1, false));
    assert_eq!(resolve_setting(SettingLookup::Parsed(9u16), 1), (9, false));
    assert_eq!(resolve_setting(SettingLookup::Invalid, 1u16), (1, true));
}
