//! What the server announces of itself, and where it listens.
use vstd::prelude::*;

use crate::text::decimal_text;

verus! {

/// The port that the server listens on unless another one is configured.
pub const DEFAULT_PORT: u16 = 41313;

/// The only address that the server binds: local clients alone can reach it.
pub const LOOPBACK: &'static str = "127.0.0.1";

/// The path under which the server answers.
pub const MOUNT_PATH: &'static str = "/mcp";

/// The failure of a server that stopped by itself.
pub const STOPPED: &'static str = "the MCP server stopped unexpectedly";

/// The name that the server goes by.
pub const SERVER_NAME: &'static str = "koharu";

/// What the server tells a client about its use.
pub const INSTRUCTIONS: &'static str =
    "Koharu is an editor for translated typesetting. Inspect the open project with inspect_project, render pages with view_page, then edit text, typography, geometry, and visibility. Run the processing pipeline stages (detection, OCR, translation, inpainting) with run_pipeline.";

/// A revision of the protocol that the server implements.
#[derive(Clone, Copy, Debug, PartialEq, Eq, Structural)]
pub enum ProtocolVersion {
    V20241105,
    V20250326,
    V20250618,
    V20251125,
}

/// What the server announces of itself.
#[derive(Debug)]
pub struct ServerInfo {
    pub name: String,
    pub version: String,
    pub protocol_version: ProtocolVersion,
    pub offers_tools: bool,
    pub instructions: String,
}

/// Where the server listens. `bind_failure` is the message for the case that
/// the address cannot be bound.
#[derive(Debug)]
pub struct Endpoint {
    pub host: String,
    pub port: u16,
    pub path: String,
    pub url: String,
    pub bind_failure: String,
}

/// The characters of a [`ServerInfo`].
#[verifier::ext_equal]
pub struct ServerInfoView {
    pub name: Seq<char>,
    pub version: Seq<char>,
    pub protocol_version: ProtocolVersion,
    pub offers_tools: bool,
    pub instructions: Seq<char>,
}

impl View for ServerInfo {
    type V = ServerInfoView;

    open spec fn view(&self) -> ServerInfoView {
        ServerInfoView {
            name: self.name@,
            version: self.version@,
            protocol_version: self.protocol_version,
            offers_tools: self.offers_tools,
            instructions: self.instructions@,
        }
    }
}

/// The characters of an [`Endpoint`].
#[verifier::ext_equal]
pub struct EndpointView {
    pub host: Seq<char>,
    pub port: nat,
    pub path: Seq<char>,
    pub url: Seq<char>,
    pub bind_failure: Seq<char>,
}

impl View for Endpoint {
    type V = EndpointView;

    open spec fn view(&self) -> EndpointView {
        EndpointView {
            host: self.host@,
            port: self.port as nat,
            path: self.path@,
            url: self.url@,
            bind_failure: self.bind_failure@,
        }
    }
}

/// The first revision that the server does not implement: it asks for caching
/// hints on results, which the server does not give.
pub open spec fn first_unsupported_revision() -> Seq<char> {
    "2026-07-28"@
}

/// The revisions that the server negotiates, oldest first.
pub open spec fn supported() -> Seq<ProtocolVersion> {
    seq![
        ProtocolVersion::V20241105,
        ProtocolVersion::V20250326,
        ProtocolVersion::V20250618,
        ProtocolVersion::V20251125,
    ]
}

/// What the server of the given version announces.
pub open spec fn announced(version: Seq<char>) -> ServerInfoView {
    ServerInfoView {
        name: SERVER_NAME@,
        version,
        protocol_version: ProtocolVersion::V20251125,
        offers_tools: true,
        instructions: INSTRUCTIONS@,
    }
}

/// The endpoint of a port; none for port 0, which disables the server.
pub open spec fn endpoint(port: nat) -> Option<EndpointView> {
    if port == 0 {
        None
    } else {
        Some(
            EndpointView {
                host: LOOPBACK@,
                port,
                path: MOUNT_PATH@,
                url: "http://127.0.0.1:"@ + crate::text::decimal(port) + "/mcp"@,
                bind_failure: "failed to bind the MCP server on 127.0.0.1:"@
                    + crate::text::decimal(port),
            },
        )
    }
}

impl ProtocolVersion {
    /// The date that names the revision.
    pub open spec fn date(self) -> Seq<char> {
        match self {
            ProtocolVersion::V20241105 => "2024-11-05"@,
            ProtocolVersion::V20250326 => "2025-03-26"@,
            ProtocolVersion::V20250618 => "2025-06-18"@,
            ProtocolVersion::V20251125 => "2025-11-25"@,
        }
    }

    /// The date that names the revision.
    pub fn as_str(self) -> (date: &'static str)
        ensures
            date@ == self.date(),
    {
        match self {
            ProtocolVersion::V20241105 => "2024-11-05",
            ProtocolVersion::V20250326 => "2025-03-26",
            ProtocolVersion::V20250618 => "2025-06-18",
            ProtocolVersion::V20251125 => "2025-11-25",
        }
    }
}

/// Announces the server.
pub fn get_info(version: &str) -> (info: ServerInfo)
    ensures
        info@ == announced(version@),
{
    ServerInfo {
        name: SERVER_NAME.to_owned(),
        version: version.to_owned(),
        protocol_version: ProtocolVersion::V20251125,
        offers_tools: true,
        instructions: INSTRUCTIONS.to_owned(),
    }
}

/// The revisions that the server negotiates. The list is capped, so that a
/// client that asks for a later revision falls back to the newest one in it.
pub fn supported_protocol_versions() -> (versions: Vec<ProtocolVersion>)
    ensures
        versions@ == supported(),
{
    vec![
        ProtocolVersion::V20241105,
        ProtocolVersion::V20250326,
        ProtocolVersion::V20250618,
        ProtocolVersion::V20251125,
    ]
}

/// Where to serve on the given port. A port of `0` disables the server.
pub fn serve(port: u16) -> (place: Option<Endpoint>)
    ensures
        (match place {
            Some(e) => Some(e@),
            None => None,
        }) == endpoint(port as nat),
{
    if port == 0 {
        return None;
    }
    let digits = decimal_text(port);
    let mut url = "http://127.0.0.1:".to_owned();
    url.append(&digits);
    url.append("/mcp");
    let mut bind_failure = "failed to bind the MCP server on 127.0.0.1:".to_owned();
    bind_failure.append(&digits);
    Some(
        Endpoint { host: LOOPBACK.to_owned(), port, path: MOUNT_PATH.to_owned(), url, bind_failure },
    )
}

/// Whether one date comes before another: they agree up to some character,
/// which is smaller in the first.
pub open spec fn before(left: Seq<char>, right: Seq<char>) -> bool {
    exists|i: int|
        0 <= i < left.len() && i < right.len() && left.take(i) == right.take(i) && #[trigger] left[i]
            < right[i]
}

/// The revision that a client ends up with under the rule of the handshake: the
/// one it asks for where the server supports it, and the announced one
/// otherwise.
pub open spec fn settled(requested: Seq<char>) -> Seq<char> {
    if exists|i: int| 0 <= i < supported().len() && #[trigger] supported()[i].date() == requested {
        requested
    } else {
        announced(Seq::empty()).protocol_version.date()
    }
}

proof fn lemma_before(left: Seq<char>, right: Seq<char>, at: int)
    requires
        0 <= at < left.len(),
        at < right.len(),
        forall|i: int| 0 <= i < at ==> left[i] == right[i],
        left[at] < right[at],
    ensures
        before(left, right),
{
    assert(left.take(at) =~= right.take(at));
}

/// The supported revisions are listed oldest first, all of them come before the
/// first one that the server does not implement, and the announced one is the
/// newest of them.
pub proof fn law_protocols_are_capped()
    ensures
        forall|i: int, j: int|
            0 <= i < j < supported().len() ==> before(
                #[trigger] supported()[i].date(),
                #[trigger] supported()[j].date(),
            ),
        forall|i: int|
            0 <= i < supported().len() ==> before(
                #[trigger] supported()[i].date(),
                first_unsupported_revision(),
            ),
        forall|version: Seq<char>| #[trigger]
            announced(version).protocol_version == supported().last(),
{
    reveal_strlit("2024-11-05");
    reveal_strlit("2025-03-26");
    reveal_strlit("2025-06-18");
    reveal_strlit("2025-11-25");
    reveal_strlit("2026-07-28");
    lemma_before("2024-11-05"@, "2025-03-26"@, 3);
    lemma_before("2024-11-05"@, "2025-06-18"@, 3);
    lemma_before("2024-11-05"@, "2025-11-25"@, 3);
    lemma_before("2024-11-05"@, "2026-07-28"@, 3);
    lemma_before("2025-03-26"@, "2025-06-18"@, 6);
    lemma_before("2025-03-26"@, "2025-11-25"@, 5);
    lemma_before("2025-03-26"@, "2026-07-28"@, 3);
    lemma_before("2025-06-18"@, "2025-11-25"@, 5);
    lemma_before("2025-06-18"@, "2026-07-28"@, 3);
    lemma_before("2025-11-25"@, "2026-07-28"@, 3);
}

/// Whatever revision a client asks for, it ends up with one that the server
/// implements. A client that asks for one that is not supported, such as any
/// from the cap on, falls back to the newest supported one.
pub proof fn law_clients_fall_back(requested: Seq<char>)
    ensures
        before(settled(requested), first_unsupported_revision()),
        !before(requested, first_unsupported_revision()) ==> settled(requested) == "2025-11-25"@,
        exists|i: int|
            0 <= i < supported().len() && #[trigger] supported()[i].date() == settled(requested),
{
    law_protocols_are_capped();
    assert(supported()[3].date() == "2025-11-25"@);
}

/// The server listens on the loopback address alone, and does not listen
/// exactly where its port is 0.
pub proof fn law_only_local_clients(port: nat)
    ensures
        endpoint(port) is None <==> port == 0,
        endpoint(port) matches Some(place) ==> place.host == "127.0.0.1"@ && place.port == port,
{
}

} // verus!
