//! Tests of the discovery handshake's validation chain and of the
//! whole construction sequence over canned responses.

use steelseries_sonar::{
    CoreProps, Sonar, SonarError, SubApp, SubAppMetadata, SubApps, SubAppsResponse,
    base_url_from_config, check_status, interpret_mode_response, resolve_server_address,
    sub_apps_url,
};

fn healthy_response(address: &str) -> SubAppsResponse {
    SubAppsResponse {
        sub_apps: SubApps {
            sonar: SubApp {
                is_enabled: true,
                is_ready: true,
                is_running: true,
                metadata: SubAppMetadata { web_server_address: String::from(address) },
            },
        },
    }
}

#[test]
fn test_missing_config_short_circuits() {
    // Without a configuration file construction stops at once: the
    // error leaves no URL to query.
    let r = base_url_from_config(None);
    assert!(matches!(r, Err(SonarError::EnginePathNotFound)));
}

#[test]
fn test_base_url_from_config() {
    let props = CoreProps { gg_encrypted_address: String::from("127.0.0.1:6327") };
    let url = base_url_from_config(Some(&props.gg_encrypted_address)).unwrap();
    assert_eq!(url, "https://127.0.0.1:6327");
    assert_eq!(sub_apps_url(&url), "https://127.0.0.1:6327/subApps");
}

#[test]
fn test_check_status() {
    assert!(check_status(200).is_ok());
    assert!(check_status(204).is_ok());
    assert!(check_status(299).is_ok());
    assert!(matches!(check_status(199), Err(SonarError::ServerNotAccessible(199))));
    assert!(matches!(check_status(300), Err(SonarError::ServerNotAccessible(300))));
    assert!(matches!(check_status(404), Err(SonarError::ServerNotAccessible(404))));
    assert!(matches!(check_status(500), Err(SonarError::ServerNotAccessible(500))));
}

#[test]
fn test_resolve_server_address_ok() {
    let resp = healthy_response("http://192.168.0.1:10000");
    let addr = resolve_server_address(&resp).unwrap();
    assert_eq!(addr, "http://192.168.0.1:10000");
}

#[test]
fn test_resolve_not_enabled() {
    let mut resp = healthy_response("http://192.168.0.1:10000");
    resp.sub_apps.sonar.is_enabled = false;
    assert!(matches!(resolve_server_address(&resp), Err(SonarError::SonarNotEnabled)));
    // Not enabled wins over every later check.
    resp.sub_apps.sonar.is_ready = false;
    resp.sub_apps.sonar.is_running = false;
    assert!(matches!(resolve_server_address(&resp), Err(SonarError::SonarNotEnabled)));
}

#[test]
fn test_resolve_not_ready() {
    let mut resp = healthy_response("http://192.168.0.1:10000");
    resp.sub_apps.sonar.is_ready = false;
    assert!(matches!(resolve_server_address(&resp), Err(SonarError::ServerNotReady)));
}

#[test]
fn test_resolve_not_running() {
    let mut resp = healthy_response("http://192.168.0.1:10000");
    resp.sub_apps.sonar.is_running = false;
    assert!(matches!(resolve_server_address(&resp), Err(SonarError::ServerNotRunning)));
}

#[test]
fn test_resolve_unusable_address() {
    let empty = healthy_response("");
    assert!(matches!(resolve_server_address(&empty), Err(SonarError::WebServerAddressNotFound)));
    let null = healthy_response("null");
    assert!(matches!(resolve_server_address(&null), Err(SonarError::WebServerAddressNotFound)));
}

#[test]
fn test_end_to_end_request_sequence() {
    // The whole construction sequence over canned responses: config
    // present, discovery healthy, mode query answers classic; the
    // first volume request then takes the classic path.
    let props = CoreProps { gg_encrypted_address: String::from("127.0.0.1:6327") };
    let base = base_url_from_config(Some(&props.gg_encrypted_address)).unwrap();
    assert_eq!(sub_apps_url(&base), "https://127.0.0.1:6327/subApps");
    check_status(200).unwrap();
    let resp = healthy_response("http://192.168.0.1:10000");
    let addr = resolve_server_address(&resp).unwrap();
    let streamer = interpret_mode_response("classic");
    assert!(!streamer);
    let session = Sonar::from_discovery(addr, streamer);
    let req = session.set_volume_request("master", "0.5", None).unwrap();
    assert_eq!(
        req.url,
        "http://192.168.0.1:10000/volumeSettings/classic/master/Volume/0.5"
    );
}
