use jamfrs::session::Session;

#[test]
fn test_jamfcloud() {
    let session = Session::new(
        String::from("test.jamfcloud.com"),
        None,
        String::from("test"),
        String::from("test-password"),
        false,
    )
    .unwrap();

    assert!(session.server_address.starts_with("https://"));
    assert_eq!(session.port, 443);
}

#[test]
fn test_jps_default_port() {
    // Hostname
    let session = Session::new(
        String::from("test.jps.com"),
        None,
        String::from("test"),
        String::from("test-password"),
        false,
    )
    .unwrap();

    assert!(session.server_address.starts_with("https://"));
    assert_eq!(session.port, 8443);

    let session = Session::new(
        String::from("192.168.1.1"),
        None,
        String::from("test"),
        String::from("test-password"),
        false,
    )
    .unwrap();

    assert!(session.server_address.starts_with("https://"));
    assert_eq!(session.port, 8443);
}

#[test]
fn test_jps_specified_port() {
    let session = Session::new(
        String::from("test.jps.com"),
        Some(2022),
        String::from("test"),
        String::from("test-password"),
        false,
    )
    .unwrap();

    assert!(session.server_address.starts_with("https://"));
    assert_eq!(session.port, 2022);

    let session = Session::new(
        String::from("192.168.1.1"),
        Some(2022),
        String::from("test"),
        String::from("test-password"),
        false,
    )
    .unwrap();

    assert!(session.server_address.starts_with("https://"));
    assert_eq!(session.port, 2022);
}

#[test]
fn test_jps_insecure_default_port() {
    let session = Session::new(
        String::from("test.jps.com"),
        None,
        String::from("test"),
        String::from("test-password"),
        true,
    )
    .unwrap();

    assert!(session.server_address.starts_with("http://"));
    assert_eq!(session.port, 8080);

    let session = Session::new(
        String::from("192.168.1.1"),
        None,
        String::from("test"),
        String::from("test-password"),
        true,
    )
    .unwrap();

    assert!(session.server_address.starts_with("http://"));
    assert_eq!(session.port, 8080);
}

#[test]
fn test_jps_inline_port() {
    let session = Session::new(
        String::from("test.jps.com:2022"),
        None,
        String::from("test"),
        String::from("test-password"),
        false,
    )
    .unwrap();

    assert!(session.server_address.starts_with("https://"));
    assert_eq!(session.port, 2022);

    let session = Session::new(
        String::from("192.168.1.1:2022"),
        None,
        String::from("test"),
        String::from("test-password"),
        false,
    )
    .unwrap();

    assert!(session.server_address.starts_with("https://"));
    assert_eq!(session.port, 2022);
}

#[test]
fn test_jps_error_when_both_inline_and_port_flag_used() {
    let session = Session::new(
        String::from("test.jps.com:2022"),
        Some(2022),
        String::from("test"),
        String::from("test-password"),
        false,
    );

    assert!(session.is_err());
}

#[test]
fn test_jps_inline_proto() {
    let session = Session::new(
        String::from("https://test.jps.com"),
        None,
        String::from("test"),
        String::from("test-password"),
        false,
    )
    .unwrap();

    assert!(session.server_address.starts_with("https://"));

    let session = Session::new(
        String::from("http://test.jps.com"),
        None,
        String::from("test"),
        String::from("test-password"),
        true,
    )
    .unwrap();

    assert!(session.server_address.starts_with("http://"));
}

#[test]
fn test_jamfcloud_mixed_case() {
    // The cloud detection lowercases the address first: a mixed-case cloud
    // address still resolves to the fixed cloud port.
    let session = Session::new(
        String::from("Test.JamfCloud.COM"),
        None,
        String::from("test"),
        String::from("test-password"),
        false,
    )
    .unwrap();

    assert_eq!(session.port, 443);
    assert_eq!(session.server_address, "https://Test.JamfCloud.COM:443");
}

#[test]
fn test_full_normalized_address() {
    let session = Session::new(
        String::from("test.jps.com"),
        None,
        String::from("test"),
        String::from("test-password"),
        false,
    )
    .unwrap();

    assert_eq!(session.server_address, "https://test.jps.com:8443");
    assert!(session.api_token.is_none());
    assert_eq!(session.username, "test");
    assert_eq!(session.password, "test-password");

    let session = Session::new(
        String::from("test.jps.com:2022"),
        None,
        String::from("test"),
        String::from("test-password"),
        false,
    )
    .unwrap();

    assert_eq!(session.server_address, "https://test.jps.com:2022");
}

#[test]
fn test_token_auth_url() {
    let session = Session::new(
        String::from("test.jps.com"),
        None,
        String::from("test"),
        String::from("test-password"),
        false,
    )
    .unwrap();

    assert_eq!(session.token_auth_url(), "https://test.jps.com:8443/api/auth/tokens");
}
