use danfoss_ally_rs::{
    basic_authorization, basic_credentials, bearer_authorization, AllyApi, CallError, ConfigError,
    DataError, Device, DevicesResponse, Status, Token, DEFAULT_POLLING_INTERVAL,
};

fn client(now: u64) -> AllyApi {
    AllyApi::new(Some("key".to_string()), Some("secret".to_string()), now).unwrap()
}

fn token(access: &str, expires: &str) -> Token {
    Token {
        access_token: access.to_string(),
        token_type: "bearer".to_string(),
        expires_in: expires.to_string(),
    }
}

fn device(id: &str, name: &str, statuses: Vec<(&str, &str)>) -> Device {
    Device {
        id: id.to_string(),
        name: name.to_string(),
        status: statuses
            .into_iter()
            .map(|(c, v)| Status { code: c.to_string(), value: v.to_string() })
            .collect(),
        ..Default::default()
    }
}

#[test]
fn missing_key_halts_construction() {
    let r = AllyApi::new(None, Some("secret".to_string()), 0);
    assert_eq!(r.unwrap_err(), ConfigError::MissingApiKey);
    let r = AllyApi::new(None, None, 0);
    assert_eq!(r.unwrap_err(), ConfigError::MissingApiKey);
}

#[test]
fn missing_secret_halts_construction() {
    let r = AllyApi::new(Some("key".to_string()), None, 0);
    assert_eq!(r.unwrap_err(), ConfigError::MissingApiSecret);
}

#[test]
fn config_messages_name_the_variable() {
    assert!(ConfigError::MissingApiKey.message().contains("DANFOSS_API_KEY"));
    assert!(ConfigError::MissingApiSecret.message().contains("DANFOSS_API_SECRET"));
}

#[test]
fn new_client_is_fresh() {
    let api = client(42);
    assert!(api.devices.is_empty());
    assert_eq!(api.token.access_token, "");
    assert_eq!(api.token.expires_in, "0");
    assert_eq!(api.time_since_update, 42);
    assert_eq!(api.time_since_token_renewal, 42);
    assert_eq!(api.polling_interval, DEFAULT_POLLING_INTERVAL);
    assert_eq!(api.polling_interval, 30);
    assert_eq!(api.api_key, "key");
    assert_eq!(api.api_secret, "secret");
}

#[test]
fn first_check_after_construction_is_due() {
    let api = client(1000);
    assert_eq!(api.is_renewal_due(1000), Ok(true));
    assert_eq!(api.is_renewal_due(1030), Ok(true));
    assert!(api.needs_renewal(1030));
}

#[test]
fn successful_renewal_replaces_token_whole() {
    let mut api = client(0);
    assert_eq!(api.get_token(Ok(token("abc", "3600")), 30), Ok(()));
    assert_eq!(api.token, token("abc", "3600"));
    assert_eq!(api.time_since_token_renewal, 30);
    assert_eq!(api.is_renewal_due(3629), Ok(false));
    assert_eq!(api.is_renewal_due(3630), Ok(true));
}

#[test]
fn failed_renewal_keeps_token() {
    let mut api = client(0);
    api.get_token(Ok(token("abc", "3600")), 30).unwrap();
    let e = CallError::Network("connection refused".to_string());
    assert_eq!(api.get_token(Err(e.clone()), 60), Err(e));
    assert_eq!(api.token, token("abc", "3600"));
    assert_eq!(api.time_since_token_renewal, 30);
    let e = CallError::Protocol("expected value at line 1".to_string());
    assert_eq!(api.get_token(Err(e.clone()), 90), Err(e));
    assert_eq!(api.token, token("abc", "3600"));
}

#[test]
fn renewal_with_empty_access_token_is_refused() {
    let mut api = client(0);
    api.get_token(Ok(token("abc", "3600")), 30).unwrap();
    assert_eq!(api.get_token(Ok(token("", "7200")), 60), Err(CallError::EmptyAccessToken));
    assert_eq!(api.token, token("abc", "3600"));
    assert_eq!(api.time_since_token_renewal, 30);
}

#[test]
fn unreadable_lifetime_is_reported_and_renewed() {
    let mut api = client(0);
    api.get_token(Ok(token("abc", "an hour")), 0).unwrap();
    assert_eq!(api.is_renewal_due(10), Err(DataError::InvalidExpiresIn));
    assert!(api.needs_renewal(10));
}

#[test]
fn needs_renewal_follows_lifetime() {
    let mut api = client(0);
    api.get_token(Ok(token("abc", "100")), 0).unwrap();
    assert!(!api.needs_renewal(99));
    assert!(api.needs_renewal(100));
}

#[test]
fn device_fetch_replaces_snapshot() {
    let mut api = client(0);
    let first = DevicesResponse {
        result: vec![device("a", "Kitchen", vec![]), device("b", "Hall", vec![])],
        t: 1,
    };
    assert_eq!(api.get_devices(Ok(first), 30), Ok(()));
    assert_eq!(api.devices.len(), 2);
    let second = DevicesResponse { result: vec![device("b", "Hall", vec![("lock", "true")])], t: 2 };
    assert_eq!(api.get_devices(Ok(second), 60), Ok(()));
    assert_eq!(api.devices, vec![device("b", "Hall", vec![("lock", "true")])]);
    assert_eq!(api.time_since_update, 60);
}

#[test]
fn failed_device_fetch_keeps_snapshot() {
    let mut api = client(0);
    let first = DevicesResponse { result: vec![device("a", "Kitchen", vec![])], t: 1 };
    api.get_devices(Ok(first), 30).unwrap();
    let e = CallError::Network("timed out".to_string());
    assert_eq!(api.get_devices(Err(e.clone()), 60), Err(e));
    assert_eq!(api.devices, vec![device("a", "Kitchen", vec![])]);
    assert_eq!(api.time_since_update, 30);
}

#[test]
fn temperature_line_names_device_and_value() {
    let mut api = client(0);
    let resp = DevicesResponse {
        result: vec![device("a", "Living room", vec![("temp_current", "21.5"), ("lock", "true")])],
        t: 1,
    };
    api.get_devices(Ok(resp), 30).unwrap();
    let lines = api.temperature_lines();
    assert_eq!(lines, vec!["Living room: 21.5".to_string()]);
    assert!(lines.iter().all(|l| !l.contains("true")));
}

#[test]
fn temperature_lines_cover_both_codes_in_order() {
    let mut api = client(0);
    let resp = DevicesResponse {
        result: vec![
            device("a", "Bath", vec![("va_temperature", "230"), ("mode", "\"auto\"")]),
            device("b", "Office", vec![("lock", "false")]),
            device("c", "Bedroom", vec![("temp_current", "19"), ("va_temperature", "195")]),
        ],
        t: 1,
    };
    api.get_devices(Ok(resp), 30).unwrap();
    assert_eq!(
        api.temperature_lines(),
        vec!["Bath: 230".to_string(), "Bedroom: 19".to_string(), "Bedroom: 195".to_string()]
    );
}

#[test]
fn empty_snapshot_has_no_temperature_lines() {
    assert!(client(0).temperature_lines().is_empty());
}

#[test]
fn token_request_header_encodes_credentials() {
    let api = client(0);
    assert_eq!(api.token_authorization(), "Basic a2V5OnNlY3JldA==");
    assert_eq!(basic_credentials("key", "secret"), "Basic a2V5OnNlY3JldA==");
    assert_eq!(basic_credentials("clé", "s"), "Basic Y2zDqTpz");
    assert_eq!(basic_authorization("xyz"), "Basic xyz");
}

#[test]
fn device_request_header_presents_token() {
    let mut api = client(0);
    api.get_token(Ok(token("abc.def", "3600")), 0).unwrap();
    assert_eq!(api.devices_authorization(), "Bearer abc.def");
    assert_eq!(bearer_authorization(""), "Bearer ");
}
