use mcp_proxy::cli::{backend_url, parse_override, StartupError};
use mcp_proxy::model::OFFLINE_PROTOCOL_VERSION;

#[test]
fn argument_url_wins_over_the_environment() {
    let a = || Some("http://a".to_string());
    let e = || Some("http://e".to_string());
    assert_eq!(backend_url(a(), e()), Ok("http://a".to_string()));
    assert_eq!(backend_url(a(), None), Ok("http://a".to_string()));
    assert_eq!(backend_url(None, e()), Ok("http://e".to_string()));
    assert_eq!(backend_url(None, None), Err(StartupError::MissingUrl));
}

#[test]
fn supported_versions_are_those_of_the_protocol_crate() {
    let old = rmcp::model::ProtocolVersion::V_2024_11_05.to_string();
    let new = rmcp::model::ProtocolVersion::V_2025_03_26.to_string();
    assert_eq!(new, OFFLINE_PROTOCOL_VERSION);
    assert_eq!(parse_override(Some(old.clone())).unwrap().unwrap().text, old);
    assert_eq!(parse_override(Some(new.clone())).unwrap().unwrap().text, new);
    assert_eq!(parse_override(None), Ok(None));
}

#[test]
fn other_versions_are_refused() {
    let e = parse_override(Some("2025-06-18".to_string())).unwrap_err();
    assert_eq!(e, StartupError::UnsupportedProtocolVersion("2025-06-18".to_string()));
    assert_eq!(
        e.message(),
        "Unsupported protocol version: 2025-06-18. Supported versions are: 2024-11-05, 2025-03-26"
    );
    assert_eq!(
        StartupError::MissingUrl.message(),
        "Either the URL must be passed as the first argument or the SSE_URL environment variable must be set"
    );
}
