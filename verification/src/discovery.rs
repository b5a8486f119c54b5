//! The discovery handshake: configuration data, the endpoint it names,
//! and the validation chain over the discovery response.

use vstd::prelude::*;
use vstd::string::StringExecFns;
use crate::error::SonarError;
use crate::text::str_eq;

verus! {

/// The parsed local configuration artifact: the engine's encrypted
/// local address (`host:port`).
#[derive(Debug)]
pub struct CoreProps {
    pub gg_encrypted_address: String,
}

/// Health and address metadata of one sub-application.
#[derive(Debug)]
pub struct SubApp {
    pub is_enabled: bool,
    pub is_ready: bool,
    pub is_running: bool,
    pub metadata: SubAppMetadata,
}

/// Metadata block of a sub-application.
#[derive(Debug)]
pub struct SubAppMetadata {
    pub web_server_address: String,
}

/// The discovery endpoint's response.
#[derive(Debug)]
pub struct SubAppsResponse {
    pub sub_apps: SubApps,
}

/// The sub-applications container of the discovery response.
#[derive(Debug)]
pub struct SubApps {
    pub sonar: SubApp,
}

/// Build the engine's base URL from the configuration's address, or
/// report the missing configuration file.
///
/// Construction short-circuits here: without a configuration file
/// there is no URL, so no request can follow.
pub fn base_url_from_config(encrypted_address: Option<&str>) -> (r: Result<String, SonarError>)
    ensures
        encrypted_address is None <==> (r matches Err(SonarError::EnginePathNotFound)),
        encrypted_address matches Some(a) ==> (r matches Ok(url) && url@ == "https://"@ + a@),
{
    match encrypted_address {
        None => Err(SonarError::EnginePathNotFound),
        Some(a) => {
            let mut url = String::from_str("https://");
            url.append(a);
            Ok(url)
        },
    }
}

/// The discovery endpoint under the engine's base URL.
pub fn sub_apps_url(base_url: &str) -> (r: String)
    ensures
        r@ == base_url@ + "/subApps"@,
{
    let mut url = String::from_str(base_url);
    url.append("/subApps");
    url
}

/// The statuses the service treats as success.
pub open spec fn is_success_status(status: u16) -> bool {
    200 <= status < 300
}

/// Classify an HTTP status code, reporting any non-success status.
pub fn check_status(status: u16) -> (r: Result<(), SonarError>)
    ensures
        r is Ok <==> is_success_status(status),
        !is_success_status(status) ==> (r matches Err(SonarError::ServerNotAccessible(c)) && c
            == status),
{
    if 200 <= status && status < 300 {
        Ok(())
    } else {
        Err(SonarError::ServerNotAccessible(status))
    }
}

/// A web server address is usable when it is neither empty nor the
/// literal text `null`.
pub open spec fn usable_address(a: Seq<char>) -> bool {
    a.len() > 0 && a != "null"@
}

/// Validate the discovery response and extract the audio service's web
/// server address.
///
/// The checks short-circuit in a fixed order: enabled, then ready,
/// then running, then the address itself.
pub fn resolve_server_address(resp: &SubAppsResponse) -> (r: Result<String, SonarError>)
    ensures
        ({
            let sonar = resp.sub_apps.sonar;
            &&& !sonar.is_enabled ==> (r matches Err(SonarError::SonarNotEnabled))
            &&& sonar.is_enabled && !sonar.is_ready ==> (r matches Err(SonarError::ServerNotReady))
            &&& sonar.is_enabled && sonar.is_ready && !sonar.is_running ==> (r matches Err(
                SonarError::ServerNotRunning,
            ))
            &&& sonar.is_enabled && sonar.is_ready && sonar.is_running && !usable_address(
                sonar.metadata.web_server_address@,
            ) ==> (r matches Err(SonarError::WebServerAddressNotFound))
            &&& sonar.is_enabled && sonar.is_ready && sonar.is_running && usable_address(
                sonar.metadata.web_server_address@,
            ) ==> (r matches Ok(addr) && addr@ == sonar.metadata.web_server_address@)
        }),
{
    let sonar = &resp.sub_apps.sonar;
    if !sonar.is_enabled {
        return Err(SonarError::SonarNotEnabled);
    }
    if !sonar.is_ready {
        return Err(SonarError::ServerNotReady);
    }
    if !sonar.is_running {
        return Err(SonarError::ServerNotRunning);
    }
    let addr = &sonar.metadata.web_server_address;
    if addr.as_str().is_empty() || str_eq(addr.as_str(), "null") {
        return Err(SonarError::WebServerAddressNotFound);
    }
    Ok(addr.clone())
}

} // verus!
