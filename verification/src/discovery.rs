//! The automated test command's data model: per-test verdicts, the table rows
//! it prints, and what protocol revision a transport configuration points at.

use vstd::prelude::*;

verus! {

use crate::json::JsonValue;
use crate::transport::TransportConfig;
use crate::correlation::str_eq;
use vstd::utf8::encode_utf8;

/// One automated test's verdict.
#[derive(Debug, Clone, Copy, PartialEq, Eq, Structural)]
pub enum TestStatus {
    Pass,
    Fail,
    Skip,
    Warning,
}

impl TestStatus {
    /// The icon printed beside this verdict.
    pub fn icon(&self) -> (r: &'static str)
        ensures
            match self {
                TestStatus::Pass => r@ == "[ok]"@,
                TestStatus::Fail => r@ == "[fail]"@,
                TestStatus::Skip => r@ == "[skip]"@,
                TestStatus::Warning => r@ == "[warn]"@,
            },
    {
        match self {
            TestStatus::Pass => "[ok]",
            TestStatus::Fail => "[fail]",
            TestStatus::Skip => "[skip]",
            TestStatus::Warning => "[warn]",
        }
    }

    /// The short name printed for this verdict.
    pub fn name(&self) -> (r: &'static str)
        ensures
            match self {
                TestStatus::Pass => r@ == "PASS"@,
                TestStatus::Fail => r@ == "FAIL"@,
                TestStatus::Skip => r@ == "SKIP"@,
                TestStatus::Warning => r@ == "WARN"@,
            },
    {
        match self {
            TestStatus::Pass => "PASS",
            TestStatus::Fail => "FAIL",
            TestStatus::Skip => "SKIP",
            TestStatus::Warning => "WARN",
        }
    }
}

/// How an endpoint probe ended.
#[derive(Debug, Clone, Copy, PartialEq, Eq, Structural)]
pub enum DiscoveryStatus {
    Available,
    Failed,
    InvalidUrl,
}

impl DiscoveryStatus {
    /// The icon printed beside this outcome.
    pub fn icon(&self) -> (r: &'static str)
        ensures
            match self {
                DiscoveryStatus::Available => r@ == "[ok]"@,
                DiscoveryStatus::Failed => r@ == "[fail]"@,
                DiscoveryStatus::InvalidUrl => r@ == "[bad-url]"@,
            },
    {
        match self {
            DiscoveryStatus::Available => "[ok]",
            DiscoveryStatus::Failed => "[fail]",
            DiscoveryStatus::InvalidUrl => "[bad-url]",
        }
    }

    /// The name printed for this outcome.
    pub fn name(&self) -> (r: &'static str)
        ensures
            match self {
                DiscoveryStatus::Available => r@ == "Available"@,
                DiscoveryStatus::Failed => r@ == "Failed"@,
                DiscoveryStatus::InvalidUrl => r@ == "Invalid URL"@,
            },
    {
        match self {
            DiscoveryStatus::Available => "Available",
            DiscoveryStatus::Failed => "Failed",
            DiscoveryStatus::InvalidUrl => "Invalid URL",
        }
    }
}

/// One automated test's record.
#[derive(Debug)]
pub struct TestResult {
    pub name: String,
    pub status: TestStatus,
    pub message: String,
    pub duration_ms: u64,
    pub details: Option<JsonValue>,
}

/// A printed row of the test table.
#[derive(Debug, PartialEq)]
pub struct TestTableRow {
    pub status: String,
    pub name: String,
    pub duration: String,
    pub message: String,
}

/// A printed row of the summary table.
#[derive(Debug, PartialEq)]
pub struct SummaryTableRow {
    pub icon: String,
    pub metric: String,
    pub value: String,
}

/// A printed row of the protocol table.
#[derive(Debug, PartialEq)]
pub struct ProtocolTableRow {
    pub protocol: String,
    pub spec_version: String,
    pub endpoints: String,
    pub session_type: String,
}

/// A printed row of the method table.
#[derive(Debug, PartialEq)]
pub struct MethodTableRow {
    pub method: String,
    pub description: String,
    pub protocol_support: String,
}

/// A printed row of the example-URL table.
#[derive(Debug, PartialEq)]
pub struct ExampleUrlRow {
    pub protocol: String,
    pub example_url: String,
    pub description: String,
}

/// One protocol revision: its name, its specification date, its endpoints,
/// how sessions are carried, and the methods it serves.
#[derive(Debug)]
pub struct ProtocolInfo {
    pub version: String,
    pub spec_date: String,
    pub endpoints: Vec<String>,
    pub session_management: String,
    pub supported_methods: Vec<String>,
}

/// The methods every revision serves.
fn core_methods() -> (r: Vec<String>)
    ensures
        r@.len() == 9,
{
    let mut r: Vec<String> = Vec::new();
    r.push(String::from_str("initialize"));
    r.push(String::from_str("initialized"));
    r.push(String::from_str("tools/list"));
    r.push(String::from_str("tools/call"));
    r.push(String::from_str("resources/list"));
    r.push(String::from_str("resources/read"));
    r.push(String::from_str("prompts/list"));
    r.push(String::from_str("prompts/get"));
    r.push(String::from_str("logging/setLevel"));
    r
}

/// The three protocol revisions the client knows, newest binding first: the
/// single-endpoint Streamable HTTP revision, the two-endpoint legacy SSE
/// revision, and the stdio binding.
pub fn get_all_protocol_versions() -> (r: Vec<ProtocolInfo>)
    ensures
        r@.len() == 3,
        r@[0].version@ == "Modern Streamable HTTP"@,
        r@[0].spec_date@ == "2025-03-26"@,
        r@[0].session_management@ == "Mcp-Session-Id header"@,
        r@[0].endpoints@.len() == 1 && r@[0].endpoints@[0]@ == "/mcp"@,
        r@[0].supported_methods@.len() == 10,
        r@[1].version@ == "Legacy HTTP+SSE"@,
        r@[1].spec_date@ == "2024-11-05"@,
        r@[1].session_management@ == "sessionId query parameter"@,
        r@[1].endpoints@.len() == 2 && r@[1].endpoints@[0]@ == "/sse"@ && r@[1].endpoints@[1]@
            == "/events"@,
        r@[1].supported_methods@.len() == 9,
        r@[2].version@ == "Standard Transport"@,
        r@[2].spec_date@ == "2025-03-26"@,
        r@[2].session_management@ == "N/A (stdio)"@,
        r@[2].endpoints@.len() == 1 && r@[2].endpoints@[0]@ == "stdio"@,
        r@[2].supported_methods@.len() == 10,
{
    let mut modern_methods = core_methods();
    modern_methods.push(String::from_str("notifications/*"));
    let mut modern_endpoints: Vec<String> = Vec::new();
    modern_endpoints.push(String::from_str("/mcp"));
    let modern = ProtocolInfo {
        version: String::from_str("Modern Streamable HTTP"),
        spec_date: String::from_str("2025-03-26"),
        endpoints: modern_endpoints,
        session_management: String::from_str("Mcp-Session-Id header"),
        supported_methods: modern_methods,
    };
    let mut legacy_endpoints: Vec<String> = Vec::new();
    legacy_endpoints.push(String::from_str("/sse"));
    legacy_endpoints.push(String::from_str("/events"));
    let legacy = ProtocolInfo {
        version: String::from_str("Legacy HTTP+SSE"),
        spec_date: String::from_str("2024-11-05"),
        endpoints: legacy_endpoints,
        session_management: String::from_str("sessionId query parameter"),
        supported_methods: core_methods(),
    };
    let mut stdio_methods = core_methods();
    stdio_methods.push(String::from_str("notifications/*"));
    let mut stdio_endpoints: Vec<String> = Vec::new();
    stdio_endpoints.push(String::from_str("stdio"));
    let stdio = ProtocolInfo {
        version: String::from_str("Standard Transport"),
        spec_date: String::from_str("2025-03-26"),
        endpoints: stdio_endpoints,
        session_management: String::from_str("N/A (stdio)"),
        supported_methods: stdio_methods,
    };
    let mut r: Vec<ProtocolInfo> = Vec::new();
    r.push(modern);
    r.push(legacy);
    r.push(stdio);
    r
}

/// Which protocol revision a transport configuration points at: an HTTP
/// endpoint under `/mcp` is the modern revision, under `/sse` the legacy one,
/// any other HTTP path is taken as found; everything else is the stdio
/// binding.
pub fn detect_protocol_info(config: &TransportConfig) -> (r: ProtocolInfo)
    ensures
        match config {
            TransportConfig::HttpSse(c) => {
                if c.base_url.path@ == "/mcp"@ {
                    r.version@ == "Modern Streamable HTTP"@ && r.spec_date@ == "2025-03-26"@
                        && r.session_management@ == "Mcp-Session-Id header"@
                        && r.endpoints@.len() == 1 && r.endpoints@[0]@ == "/mcp"@
                        && r.supported_methods@.len() == 10
                } else if c.base_url.path@ == "/sse"@ {
                    r.version@ == "Legacy HTTP+SSE"@ && r.spec_date@ == "2024-11-05"@
                        && r.session_management@ == "sessionId query parameter"@
                        && r.endpoints@.len() == 2 && r.endpoints@[0]@ == "/sse"@
                        && r.supported_methods@.len() == 9
                } else {
                    r.version@ == "Auto-detected"@ && r.spec_date@ == "Unknown"@
                        && r.endpoints@.len() == 1 && r.endpoints@[0]@ == c.base_url.path@
                        && r.supported_methods@.len() == 4
                }
            },
            _ => r.version@ == "Standard Transport"@ && r.spec_date@ == "2025-03-26"@
                && r.session_management@ == "N/A (stdio)"@ && r.endpoints@.len() == 1
                && r.endpoints@[0]@ == "stdio"@ && r.supported_methods@.len() == 10,
        },
{
    match config {
        TransportConfig::HttpSse(c) => {
            if str_eq(c.base_url.path.as_str(), "/mcp") {
                let mut endpoints: Vec<String> = Vec::new();
                endpoints.push(String::from_str("/mcp"));
                let mut methods = core_methods();
                methods.push(String::from_str("notifications/*"));
                ProtocolInfo {
                    version: String::from_str("Modern Streamable HTTP"),
                    spec_date: String::from_str("2025-03-26"),
                    endpoints,
                    session_management: String::from_str("Mcp-Session-Id header"),
                    supported_methods: methods,
                }
            } else if str_eq(c.base_url.path.as_str(), "/sse") {
                let mut endpoints: Vec<String> = Vec::new();
                endpoints.push(String::from_str("/sse"));
                endpoints.push(String::from_str("/events"));
                ProtocolInfo {
                    version: String::from_str("Legacy HTTP+SSE"),
                    spec_date: String::from_str("2024-11-05"),
                    endpoints,
                    session_management: String::from_str("sessionId query parameter"),
                    supported_methods: core_methods(),
                }
            } else {
                let mut endpoints: Vec<String> = Vec::new();
                endpoints.push(c.base_url.path.clone());
                let mut methods: Vec<String> = Vec::new();
                methods.push(String::from_str("initialize"));
                methods.push(String::from_str("tools/list"));
                methods.push(String::from_str("resources/list"));
                methods.push(String::from_str("prompts/list"));
                ProtocolInfo {
                    version: String::from_str("Auto-detected"),
                    spec_date: String::from_str("Unknown"),
                    endpoints,
                    session_management: String::from_str("Auto-detected"),
                    supported_methods: methods,
                }
            }
        },
        _ => {
            let mut endpoints: Vec<String> = Vec::new();
            endpoints.push(String::from_str("stdio"));
            let mut methods = core_methods();
            methods.push(String::from_str("notifications/*"));
            ProtocolInfo {
                version: String::from_str("Standard Transport"),
                spec_date: String::from_str("2025-03-26"),
                endpoints,
                session_management: String::from_str("N/A (stdio)"),
                supported_methods: methods,
            }
        },
    }
}

/// One entry covers a method when it names it outright, or ends in a
/// slash-star wildcard whose prefix starts the method.
pub open spec fn entry_covers(entry: Seq<char>, method: Seq<char>) -> bool {
    let e = encode_utf8(entry);
    let m = encode_utf8(method);
    entry == method || (e.len() >= 2 && e[e.len() - 1] == 0x2a && e[e.len() - 2] == 0x2f
        && m.len() >= e.len() - 1 && m.subrange(0, e.len() - 1) == e.subrange(0, e.len() - 1))
}

/// A revision serves a method when some listed entry covers it.
pub open spec fn method_served(entries: Seq<String>, method: Seq<char>) -> bool {
    exists|i: int| 0 <= i < entries.len() && entry_covers(#[trigger] entries[i]@, method)
}

/// Whether a method is served: named outright, or covered by a trailing
/// wildcard entry.
pub fn method_is_supported(supported: &Vec<String>, method: &str) -> (r: bool)
    ensures
        r == method_served(supported@, method@),
{
    let mut i: usize = 0;
    let mb = String::from_str(method);
    while i < supported.len()
        invariant
            i <= supported@.len(),
            mb@ == method@,
            forall|j: int| 0 <= j < i as int ==> !entry_covers(#[trigger] supported@[j]@,
                method@),
        decreases supported@.len() - i,
    {
        let entry = &supported[i];
        if str_eq(entry.as_str(), method) {
            return true;
        }
        let eb = entry.as_str().as_bytes();
        let nb = mb.as_str().as_bytes();
        if eb.len() >= 2 && eb[eb.len() - 1] == 0x2a && eb[eb.len() - 2] == 0x2f {
            let prefix_len = eb.len() - 1;
            if nb.len() >= prefix_len {
                let mut matched = true;
                let mut k: usize = 0;
                while k < prefix_len
                    invariant
                        prefix_len < eb@.len(),
                        prefix_len <= nb@.len(),
                        k <= prefix_len,
                        matched ==> forall|t: int| 0 <= t < k as int ==> eb@[t] == nb@[t],
                        !matched ==> nb@.subrange(0, prefix_len as int) != eb@.subrange(
                            0,
                            prefix_len as int,
                        ),
                    decreases prefix_len - k,
                {
                    if eb[k] != nb[k] {
                        proof {
                            assert(nb@.subrange(0, prefix_len as int)[k as int] != eb@.subrange(
                                0,
                                prefix_len as int,
                            )[k as int]);
                        }
                        matched = false;
                        k = prefix_len;
                    } else {
                        k = k + 1;
                    }
                }
                if matched {
                    proof {
                        assert(nb@.subrange(0, prefix_len as int) =~= eb@.subrange(
                            0,
                            prefix_len as int,
                        ));
                        assert(entry_covers(supported@[i as int]@, method@));
                    }
                    return true;
                }
            }
        }
        proof {
            assert(!entry_covers(supported@[i as int]@, method@));
        }
        i = i + 1;
    }
    false
}

/// The rows of the method table for one protocol revision: only methods the
/// revision serves appear, and every served known method appears.
#[verifier::rlimit(100)]
pub fn get_supported_methods(protocol_info: &ProtocolInfo) -> (r: Vec<MethodTableRow>)
    ensures
        r@.len() <= 10,
        forall|k: int|
            0 <= k < r@.len() ==> method_served(protocol_info.supported_methods@, (
            #[trigger] r@[k]).method@),
        method_served(protocol_info.supported_methods@, "initialize"@) <==> (exists|k: int|
            0 <= k < r@.len() && (#[trigger] r@[k]).method@ == "initialize"@),
        method_served(protocol_info.supported_methods@, "tools/list"@) ==> (exists|k: int|
            0 <= k < r@.len() && (#[trigger] r@[k]).method@ == "tools/list"@),
        method_served(protocol_info.supported_methods@, "tools/call"@) ==> (exists|k: int|
            0 <= k < r@.len() && (#[trigger] r@[k]).method@ == "tools/call"@),
        method_served(protocol_info.supported_methods@, "resources/list"@) ==> (exists|k: int|
            0 <= k < r@.len() && (#[trigger] r@[k]).method@ == "resources/list"@),
        method_served(protocol_info.supported_methods@, "prompts/list"@) ==> (exists|k: int|
            0 <= k < r@.len() && (#[trigger] r@[k]).method@ == "prompts/list"@),
        method_served(protocol_info.supported_methods@, "notifications/*"@) ==> (exists|k: int|
            0 <= k < r@.len() && (#[trigger] r@[k]).method@ == "notifications/*"@),
{
    let mut rows: Vec<MethodTableRow> = Vec::new();
    push_if_supported(&mut rows, protocol_info, "initialize",
        "Initialize the connection and exchange capabilities", "All");
    push_if_supported(&mut rows, protocol_info, "initialized",
        "Confirm successful initialization", "All");
    push_if_supported(&mut rows, protocol_info, "tools/list", "List all available tools", "All");
    push_if_supported(&mut rows, protocol_info, "tools/call",
        "Execute a specific tool with parameters", "All");
    push_if_supported(&mut rows, protocol_info, "resources/list",
        "List all available resources", "All");
    push_if_supported(&mut rows, protocol_info, "resources/read",
        "Read content from a specific resource", "All");
    push_if_supported(&mut rows, protocol_info, "prompts/list",
        "List all available prompt templates", "All");
    push_if_supported(&mut rows, protocol_info, "prompts/get",
        "Get a specific prompt template with arguments", "All");
    push_if_supported(&mut rows, protocol_info, "logging/setLevel",
        "Set the logging level for the session", "All");
    push_if_supported(&mut rows, protocol_info, "notifications/*",
        "Server-to-client notifications", "Modern/stdio");
    rows
}

/// Appends one row exactly when the revision serves the method.
fn push_if_supported(
    rows: &mut Vec<MethodTableRow>,
    protocol_info: &ProtocolInfo,
    method: &str,
    description: &str,
    support: &str,
)
    ensures
        method_served(protocol_info.supported_methods@, method@) ==> {
            &&& final(rows)@.len() == old(rows)@.len() + 1
            &&& final(rows)@.drop_last() == old(rows)@
            &&& final(rows)@.last().method@ == method@
            &&& final(rows)@.last().description@ == description@
            &&& final(rows)@.last().protocol_support@ == support@
        },
        !method_served(protocol_info.supported_methods@, method@) ==> final(rows)@ == old(rows)@,
{
    if method_is_supported(&protocol_info.supported_methods, method) {
        rows.push(MethodTableRow {
            method: String::from_str(method),
            description: String::from_str(description),
            protocol_support: String::from_str(support),
        });
        proof {
            assert(final(rows)@.drop_last() =~= old(rows)@);
        }
    }
}

} // verus!
