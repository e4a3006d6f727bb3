use std::borrow::Cow;

use koharu::mcp::server::{
    get_info, serve, supported_protocol_versions, ProtocolVersion, INSTRUCTIONS, STOPPED,
};
use koharu::DEFAULT_PORT;
use rmcp::model::{ClientCapabilities, Implementation, InitializeRequestParams, ServerConfig};
use rmcp::ServerHandler;

struct Announcing;

fn wire(version: ProtocolVersion) -> rmcp::model::ProtocolVersion {
    serde_json::from_value(serde_json::Value::String(version.as_str().to_string())).unwrap()
}

impl ServerHandler for Announcing {
    fn get_info(&self) -> ServerConfig {
        ServerConfig::default().with_protocol_version(wire(get_info("1").protocol_version))
    }

    fn supported_protocol_versions(&self) -> Cow<'static, [rmcp::model::ProtocolVersion]> {
        Cow::Owned(supported_protocol_versions().into_iter().map(wire).collect())
    }
}

fn negotiated(requested: &str) -> String {
    let version = serde_json::from_value(serde_json::Value::String(requested.to_string())).unwrap();
    let request = InitializeRequestParams::new(
        ClientCapabilities::default(),
        Implementation::new("client", "1"),
    )
    .with_protocol_version(version);
    let info = Announcing.negotiate_initialize(&request).unwrap();
    info.protocol_version.as_str().to_string()
}

#[test]
fn announces_itself() {
    let info = get_info("1.2.3");
    assert_eq!(info.name, "koharu");
    assert_eq!(info.version, "1.2.3");
    assert_eq!(info.protocol_version, ProtocolVersion::V20251125);
    assert!(info.offers_tools);
    assert_eq!(info.instructions, INSTRUCTIONS);
    assert_eq!(
        INSTRUCTIONS,
        "Koharu is an editor for translated typesetting. Inspect the open project with \
         inspect_project, render pages with view_page, then edit text, typography, \
         geometry, and visibility. Run the processing pipeline stages (detection, OCR, \
         translation, inpainting) with run_pipeline."
    );
}

#[test]
fn supports_four_revisions() {
    let dates: Vec<&str> = supported_protocol_versions().iter().map(|v| v.as_str()).collect();
    assert_eq!(dates, ["2024-11-05", "2025-03-26", "2025-06-18", "2025-11-25"]);
    assert!(dates.iter().all(|date| *date < "2026-07-28"));
}

#[test]
fn revisions_are_those_of_the_protocol() {
    let known = [
        rmcp::model::ProtocolVersion::V_2024_11_05,
        rmcp::model::ProtocolVersion::V_2025_03_26,
        rmcp::model::ProtocolVersion::V_2025_06_18,
        rmcp::model::ProtocolVersion::V_2025_11_25,
    ];
    let ours: Vec<_> = supported_protocol_versions().into_iter().map(wire).collect();
    assert_eq!(ours, known);
}

#[test]
fn supported_requests_are_echoed() {
    for date in ["2024-11-05", "2025-03-26", "2025-06-18", "2025-11-25"] {
        assert_eq!(negotiated(date), date);
    }
}

#[test]
fn later_clients_fall_back() {
    for date in ["2026-07-28", "2027-01-01", "2025-01-01", "nonsense"] {
        assert_eq!(negotiated(date), "2025-11-25");
    }
}

#[test]
fn serves_on_the_loopback_address() {
    let place = serve(DEFAULT_PORT).unwrap();
    assert_eq!(place.host, "127.0.0.1");
    assert_eq!(place.port, 41313);
    assert_eq!(place.path, "/mcp");
    assert_eq!(place.url, "http://127.0.0.1:41313/mcp");
    assert_eq!(place.bind_failure, "failed to bind the MCP server on 127.0.0.1:41313");
    assert_eq!(STOPPED, "the MCP server stopped unexpectedly");
}

#[test]
fn writes_every_port_in_decimal() {
    for port in [1, 9, 10, 99, 100, 1024, 8080, 9999, 10000, 65535] {
        assert_eq!(serve(port).unwrap().url, format!("http://127.0.0.1:{port}/mcp"));
    }
}

#[test]
fn port_zero_disables_the_server() {
    assert!(serve(0).is_none());
}
