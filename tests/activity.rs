use mullvad_discord::{activity_state, build_activity, EndpointInfo, GeoLocation};

fn located() -> EndpointInfo {
    EndpointInfo {
        endpoint: "wireguard 10.0.0.1:51820".to_string(),
        location: Some(GeoLocation {
            country: "US".to_string(),
            city: "NYC".to_string(),
            hostname: "host1".to_string(),
        }),
    }
}

#[test]
fn status_line_names_exit() {
    assert_eq!(activity_state(&located()), "Exit: host1 (US/NYC)");
}

#[test]
fn status_line_without_location() {
    let bare = EndpointInfo { endpoint: "wireguard 10.0.0.1:51820".to_string(), location: None };
    assert_eq!(activity_state(&bare), "Secure connection");
}

#[test]
fn activity_carries_status_and_start() {
    let a = build_activity(&located(), 1_700_000_000);
    assert_eq!(a.state, "Exit: host1 (US/NYC)");
    assert_eq!(a.details, "Host: 195149233153.lobez.plusnet.pl");
    assert_eq!(a.large_image, "mullvad");
    assert_eq!(a.large_text, "Mullvad VPN");
    assert_eq!(a.start_timestamp, 1_700_000_000);
}
