//! The conformance validation engine's data model and verdicts.
//!
//! Each check yields one result in a closed category with a closed status.
//! A listing method the server does not provide is recorded as skipped, never
//! as an error; a server that answers an unknown method with the reserved
//! method-not-found code passes the error-handling check; and the summary's
//! compliance figure is the passed share of all checks, in whole percent.

use vstd::prelude::*;

verus! {

use crate::json::{JsonValue, to_json_bytes, json_bytes_of, obj_lookup};
use crate::messages::{JsonRpcMessage, JsonRpcResponse, wf_message};
use crate::transport::TransportInfo;
use crate::search::{is_prefix, starts_with};
use vstd::utf8::encode_utf8;
use crate::client::ListOutcome;
use crate::errors::{METHOD_NOT_FOUND, INVALID_PARAMS};

/// The closed set of areas a check belongs to.
#[derive(Debug, Clone, Copy, PartialEq, Eq, Structural)]
pub enum ValidationCategory {
    Protocol,
    Initialization,
    Tools,
    Resources,
    Prompts,
    ErrorHandling,
    Performance,
    Security,
    Schema,
}

/// The closed set of verdicts a check can reach.
#[derive(Debug, Clone, Copy, PartialEq, Eq, Structural)]
pub enum ValidationStatus {
    Pass,
    Info,
    Warning,
    Error,
    Critical,
    Skipped,
}

impl ValidationStatus {
    /// The short name printed for this verdict.
    pub fn name(&self) -> (r: &'static str)
        ensures
            match self {
                ValidationStatus::Pass => r@ == "PASS"@,
                ValidationStatus::Info => r@ == "INFO"@,
                ValidationStatus::Warning => r@ == "WARN"@,
                ValidationStatus::Error => r@ == "ERROR"@,
                ValidationStatus::Critical => r@ == "CRITICAL"@,
                ValidationStatus::Skipped => r@ == "SKIP"@,
            },
    {
        match self {
            ValidationStatus::Pass => "PASS",
            ValidationStatus::Info => "INFO",
            ValidationStatus::Warning => "WARN",
            ValidationStatus::Error => "ERROR",
            ValidationStatus::Critical => "CRITICAL",
            ValidationStatus::Skipped => "SKIP",
        }
    }

    /// The icon printed for this verdict; plain output uses none.
    pub fn icon(&self) -> (r: &'static str)
        ensures
            r@ == ""@,
    {
        match self {
            ValidationStatus::Pass => "",
            ValidationStatus::Info => "",
            ValidationStatus::Warning => "",
            ValidationStatus::Error => "",
            ValidationStatus::Critical => "",
            ValidationStatus::Skipped => "",
        }
    }
}

/// How the validation engine behaves.
#[derive(Debug)]
pub struct ValidationConfig {
    pub test_timeout_ms: u64,
    pub total_timeout_ms: u64,
    pub strict_schema_validation: bool,
    pub test_error_conditions: bool,
    pub validate_tool_schemas: bool,
    pub test_capability_discovery: bool,
    pub max_tools_to_test: usize,
    pub custom_rules: Vec<String>,
}

impl Default for ValidationConfig {
    /// Thirty seconds per check, five minutes in all, everything switched on,
    /// at most ten tools examined one by one.
    fn default() -> (r: ValidationConfig)
        ensures
            r.test_timeout_ms == 30000,
            r.total_timeout_ms == 300000,
            r.strict_schema_validation,
            r.test_error_conditions,
            r.validate_tool_schemas,
            r.test_capability_discovery,
            r.max_tools_to_test == 10,
            r.custom_rules@.len() == 0,
    {
        ValidationConfig {
            test_timeout_ms: 30000,
            total_timeout_ms: 300000,
            strict_schema_validation: true,
            test_error_conditions: true,
            validate_tool_schemas: true,
            test_capability_discovery: true,
            max_tools_to_test: 10,
            custom_rules: Vec::new(),
        }
    }
}

/// One check's outcome.
#[derive(Debug)]
pub struct ValidationResult {
    pub test_id: String,
    pub test_name: String,
    pub category: ValidationCategory,
    pub status: ValidationStatus,
    pub message: String,
    pub details: Option<JsonValue>,
    pub duration_ms: u64,
    pub timestamp_ms: u64,
}

/// The tally over a whole run.
#[derive(Debug, Clone, Copy, PartialEq, Eq, Structural)]
pub struct ValidationSummary {
    pub total_tests: usize,
    pub passed: usize,
    pub info: usize,
    pub warnings: usize,
    pub errors: usize,
    pub critical: usize,
    pub skipped: usize,
    /// The passed share of all checks, in whole percent, rounded down.
    pub compliance_percentage: u32,
}

/// Aggregate request timings over a run.
#[derive(Debug, Clone, Copy, PartialEq, Eq, Structural)]
pub struct PerformanceMetrics {
    pub initialization_time_ms: u64,
    pub average_request_time_ms: u64,
    pub total_requests: usize,
    pub failed_requests: usize,
    pub timeouts: usize,
}

/// Whether the server declared the logging capability.
#[derive(Debug, Clone, Copy, PartialEq, Eq, Structural)]
pub struct LoggingCapability {
    pub enabled: bool,
}

/// What was learned about the server.
#[derive(Debug)]
pub struct ServerInfo {
    pub name: String,
    pub version: String,
    pub protocol_version: String,
}

/// When and how a run took place.
#[derive(Debug)]
pub struct ReportMetadata {
    pub generated_at_ms: u64,
    pub validator_version: String,
    pub transport_type: String,
    pub total_duration_ms: u64,
    pub config: ValidationConfig,
}

/// Everything a run produced.
#[derive(Debug)]
pub struct ValidationReport {
    pub metadata: ReportMetadata,
    pub summary: ValidationSummary,
    pub results: Vec<ValidationResult>,
    pub server_info: Option<ServerInfo>,
    pub performance: PerformanceMetrics,
}

/// Stamps one check's outcome with the present moment.
pub fn make_result(
    test_id: &str,
    test_name: &str,
    category: ValidationCategory,
    status: ValidationStatus,
    message: &str,
    duration_ms: u64,
) -> (r: ValidationResult)
    ensures
        r.test_id@ == test_id@,
        r.test_name@ == test_name@,
        r.category == category,
        r.status == status,
        r.message@ == message@,
        r.details is None,
        r.duration_ms == duration_ms,
{
    ValidationResult {
        test_id: String::from_str(test_id),
        test_name: String::from_str(test_name),
        category,
        status,
        message: String::from_str(message),
        details: None,
        duration_ms,
        timestamp_ms: crate::paths::now_millis(),
    }
}

/// The server identity an initialize payload stands for, if any: a
/// `server_info` object with `name` and `version` strings, beside a
/// `protocol_version` string.
pub open spec fn init_server_info_of(v: JsonValue) -> Option<ServerInfo> {
    match v {
        JsonValue::Obj(o) => {
            match (obj_lookup(o@, "server_info"@), obj_lookup(o@, "protocol_version"@)) {
                (Some(JsonValue::Obj(si)), Some(JsonValue::Str(pv))) => {
                    match (obj_lookup(si@, "name"@), obj_lookup(si@, "version"@)) {
                        (Some(JsonValue::Str(n)), Some(JsonValue::Str(ver))) => Some(ServerInfo {
                            name: n,
                            version: ver,
                            protocol_version: pv,
                        }),
                        _ => None,
                    }
                },
                _ => None,
            }
        },
        _ => None,
    }
}

/// The verdict on the handshake: a response whose payload carries the
/// server's identity passes and yields it; an error response, or a payload
/// the identity decoder rejects, is an error. A handshake that outruns its
/// deadline is recorded separately, with `timeout_status`.
pub fn classify_init_response(resp: &JsonRpcResponse) -> (r: (
    ValidationStatus,
    Option<ServerInfo>,
))
    requires
        wf_message(JsonRpcMessage::Response(*resp)),
    ensures
        match resp.result {
            Some(v) => {
                match init_server_info_of(v) {
                    Some(info) => r.0 == ValidationStatus::Pass && r.1 == Some(info),
                    None => r.0 == ValidationStatus::Error && r.1 is None,
                }
            },
            None => r.0 == ValidationStatus::Error && r.1 is None,
        },
{
    let v = match &resp.result {
        Some(v) => v,
        None => {
            return (ValidationStatus::Error, None);
        },
    };
    let o = match v {
        JsonValue::Obj(fields) => fields,
        _ => {
            return (ValidationStatus::Error, None);
        },
    };
    let si = match crate::json::obj_get(o, "server_info") {
        Some(JsonValue::Obj(si)) => si,
        _ => {
            return (ValidationStatus::Error, None);
        },
    };
    let protocol_version = match crate::json::obj_get(o, "protocol_version") {
        Some(JsonValue::Str(pv)) => pv.clone(),
        _ => {
            return (ValidationStatus::Error, None);
        },
    };
    let name = match crate::json::obj_get(si, "name") {
        Some(JsonValue::Str(n)) => n.clone(),
        _ => {
            return (ValidationStatus::Error, None);
        },
    };
    let version = match crate::json::obj_get(si, "version") {
        Some(JsonValue::Str(ver)) => ver.clone(),
        _ => {
            return (ValidationStatus::Error, None);
        },
    };
    (ValidationStatus::Pass, Some(ServerInfo { name, version, protocol_version }))
}

/// The session verdict a transport's metadata prescribes: a session id that
/// was assigned passes, a null placeholder warns, and an absent key says the
/// binding has no sessions to check.
pub open spec fn session_verdict(info: TransportInfo) -> Seq<(
    ValidationCategory,
    ValidationStatus,
)> {
    match info.metadata_lookup("session_id"@) {
        Some(JsonValue::Null) => seq![(ValidationCategory::Security, ValidationStatus::Warning)],
        Some(_) => seq![(ValidationCategory::Security, ValidationStatus::Pass)],
        None => Seq::empty(),
    }
}

/// The resumption check: a stream that can resume passes; one that cannot
/// yet resume is recorded as information.
pub open spec fn resume_verdict(info: TransportInfo) -> Seq<(
    ValidationCategory,
    ValidationStatus,
)> {
    match info.metadata_lookup("can_resume"@) {
        Some(JsonValue::Bool(true)) => seq![(ValidationCategory::Protocol, ValidationStatus::Pass)],
        Some(_) => seq![(ValidationCategory::Protocol, ValidationStatus::Info)],
        None => Seq::empty(),
    }
}

/// The security check: recorded only when validation is enabled.
pub open spec fn security_verdict(info: TransportInfo) -> Seq<(
    ValidationCategory,
    ValidationStatus,
)> {
    match info.metadata_lookup("security_enabled"@) {
        Some(JsonValue::Bool(true)) => seq![(ValidationCategory::Security, ValidationStatus::Pass)],
        _ => Seq::empty(),
    }
}

/// The HTTPS check: a secure endpoint passes, plain HTTP to a local host
/// is recorded as information, plain HTTP elsewhere warns.
pub open spec fn https_verdict(info: TransportInfo) -> Seq<(
    ValidationCategory,
    ValidationStatus,
)> {
    match info.metadata_lookup("base_url"@) {
        Some(JsonValue::Str(u)) => {
            if is_prefix(encode_utf8("https://"@), encode_utf8(u@)) {
                seq![(ValidationCategory::Security, ValidationStatus::Pass)]
            } else if is_prefix(encode_utf8("http://localhost"@), encode_utf8(u@)) || is_prefix(
                encode_utf8("http://127.0.0.1"@),
                encode_utf8(u@),
            ) {
                seq![(ValidationCategory::Security, ValidationStatus::Info)]
            } else {
                seq![(ValidationCategory::Security, ValidationStatus::Warning)]
            }
        },
        _ => Seq::empty(),
    }
}

/// The transport-feature verdicts, in the order the suite records them:
/// session handling, resumability, security features, HTTPS posture.
pub open spec fn transport_feature_verdicts(info: TransportInfo) -> Seq<(
    ValidationCategory,
    ValidationStatus,
)> {
    session_verdict(info) + resume_verdict(info) + security_verdict(info) + https_verdict(info)
}

/// Reads the transport-feature verdicts off a transport's metadata: exactly
/// the four checks of the suite's transport step, each verdict fixed by the
/// corresponding metadata member.
pub fn classify_transport_features(info: &TransportInfo) -> (r: Vec<(
    ValidationCategory,
    ValidationStatus,
)>)
    requires
        info.wf(),
    ensures
        r@ == transport_feature_verdicts(*info),
{
    let mut r: Vec<(ValidationCategory, ValidationStatus)> = Vec::new();
    match info.metadata_get("session_id") {
        Some(JsonValue::Null) => {
            r.push((ValidationCategory::Security, ValidationStatus::Warning));
        },
        Some(_) => {
            r.push((ValidationCategory::Security, ValidationStatus::Pass));
        },
        None => {},
    }
    proof {
        assert(r@ =~= session_verdict(*info));
    }
    match info.metadata_get("can_resume") {
        Some(JsonValue::Bool(true)) => {
            r.push((ValidationCategory::Protocol, ValidationStatus::Pass));
        },
        Some(_) => {
            r.push((ValidationCategory::Protocol, ValidationStatus::Info));
        },
        None => {},
    }
    proof {
        assert(r@ =~= session_verdict(*info) + resume_verdict(*info));
    }
    match info.metadata_get("security_enabled") {
        Some(JsonValue::Bool(true)) => {
            r.push((ValidationCategory::Security, ValidationStatus::Pass));
        },
        _ => {},
    }
    proof {
        assert(r@ =~= session_verdict(*info) + resume_verdict(*info) + security_verdict(*info));
    }
    match info.metadata_get("base_url") {
        Some(JsonValue::Str(u)) => {
            if starts_with(u.as_str().as_bytes(), "https://".as_bytes()) {
                r.push((ValidationCategory::Security, ValidationStatus::Pass));
            } else if starts_with(u.as_str().as_bytes(), "http://localhost".as_bytes())
                || starts_with(u.as_str().as_bytes(), "http://127.0.0.1".as_bytes()) {
                r.push((ValidationCategory::Security, ValidationStatus::Info));
            } else {
                r.push((ValidationCategory::Security, ValidationStatus::Warning));
            }
        },
        _ => {},
    }
    proof {
        assert(r@ =~= transport_feature_verdicts(*info));
    }
    r
}

/// The verdict a listing outcome prescribes: an unsupported method is
/// skipped, a listing that arrived passes, any other server error is an
/// error.
pub open spec fn listing_status_spec(outcome: ListOutcome) -> ValidationStatus {
    match outcome {
        ListOutcome::Listed(_) => ValidationStatus::Pass,
        ListOutcome::Unsupported => ValidationStatus::Skipped,
        ListOutcome::Failed(_) => ValidationStatus::Error,
    }
}

/// The verdict on a capability listing: an unsupported method is skipped, a
/// listing that arrived passes, and any other server error is an error.
pub fn listing_status(outcome: &ListOutcome) -> (r: ValidationStatus)
    ensures
        r == listing_status_spec(*outcome),
{
    match outcome {
        ListOutcome::Listed(_) => ValidationStatus::Pass,
        ListOutcome::Unsupported => ValidationStatus::Skipped,
        ListOutcome::Failed(_) => ValidationStatus::Error,
    }
}

/// The verdict on the unknown-method probe: the reserved method-not-found
/// code passes, another error code is a warning, and answering without an
/// error at all is an error.
pub fn invalid_method_status(error_code: Option<i32>) -> (r: ValidationStatus)
    ensures
        match error_code {
            Some(c) => r == (if c == METHOD_NOT_FOUND {
                ValidationStatus::Pass
            } else {
                ValidationStatus::Warning
            }),
            None => r == ValidationStatus::Error,
        },
{
    match error_code {
        Some(c) => {
            if c == METHOD_NOT_FOUND {
                ValidationStatus::Pass
            } else {
                ValidationStatus::Warning
            }
        },
        None => ValidationStatus::Error,
    }
}

/// The verdict on the malformed-parameters probe: the reserved invalid-params
/// code passes, another error code is a warning, and accepting the garbage is
/// an error.
pub fn invalid_params_status(error_code: Option<i32>) -> (r: ValidationStatus)
    ensures
        match error_code {
            Some(c) => r == (if c == INVALID_PARAMS {
                ValidationStatus::Pass
            } else {
                ValidationStatus::Warning
            }),
            None => r == ValidationStatus::Error,
        },
{
    match error_code {
        Some(c) => {
            if c == INVALID_PARAMS {
                ValidationStatus::Pass
            } else {
                ValidationStatus::Warning
            }
        },
        None => ValidationStatus::Error,
    }
}

/// The verdict on one tool's declared schema: it must compile as JSON Schema.
pub fn schema_status(compiled: bool) -> (r: ValidationStatus)
    ensures
        r == (if compiled {
            ValidationStatus::Pass
        } else {
            ValidationStatus::Error
        }),
{
    if compiled {
        ValidationStatus::Pass
    } else {
        ValidationStatus::Error
    }
}

/// The verdict on a check that outran its own deadline.
pub fn timeout_status() -> (r: ValidationStatus)
    ensures
        r == ValidationStatus::Critical,
{
    ValidationStatus::Critical
}

/// Whether these bytes parse as one JSON document that compiles as a JSON
/// Schema. Schema references resolve lazily, so the outcome is a function of
/// the bytes alone.
pub uninterp spec fn schema_ok_of(s: Seq<u8>) -> bool;

/// Relies on serde_json::from_slice and jsonschema::JSONSchema::compile:
/// parses the document and asks the compiler whether it is a usable JSON
/// Schema; the answer depends on the bytes alone.
#[verifier::external_body]
fn schema_compiles(s: &[u8]) -> (r: bool)
    ensures
        r == schema_ok_of(s@),
{
    match serde_json::from_slice::<serde_json::Value>(s) {
        Ok(v) => jsonschema::JSONSchema::compile(&v).is_ok(),
        Err(_) => false,
    }
}

/// Checks one tool's input schema by printing it and handing it to the JSON
/// Schema compiler; the verdict is exactly `schema_status` of the compiler's
/// answer on the printed bytes.
pub fn validate_tool_schema(schema: &JsonValue) -> (r: ValidationStatus)
    ensures
        r == (if schema_ok_of(json_bytes_of(*schema)) {
            ValidationStatus::Pass
        } else {
            ValidationStatus::Error
        }),
{
    let bytes = to_json_bytes(schema);
    schema_status(schema_compiles(bytes.as_slice()))
}

/// Assembles the suite's three capability-listing entries, in suite order:
/// tools, resources, prompts, each in its own category with the status its
/// outcome prescribes — skipped where the server lacks the method, never an
/// error on that account.
pub fn listing_results(
    tools: &ListOutcome,
    resources: &ListOutcome,
    prompts: &ListOutcome,
) -> (r: Vec<ValidationResult>)
    ensures
        r@.len() == 3,
        r@[0].category == ValidationCategory::Tools && r@[0].status == listing_status_spec(
            *tools,
        ) && r@[0].test_id@ == "tools_listing"@,
        r@[1].category == ValidationCategory::Resources && r@[1].status == listing_status_spec(
            *resources,
        ) && r@[1].test_id@ == "resources_listing"@,
        r@[2].category == ValidationCategory::Prompts && r@[2].status == listing_status_spec(
            *prompts,
        ) && r@[2].test_id@ == "prompts_listing"@,
{
    let mut r: Vec<ValidationResult> = Vec::new();
    r.push(make_result(
        "tools_listing",
        "Tools Listing",
        ValidationCategory::Tools,
        listing_status(tools),
        "",
        0,
    ));
    r.push(make_result(
        "resources_listing",
        "Resources Listing",
        ValidationCategory::Resources,
        listing_status(resources),
        "",
        0,
    ));
    r.push(make_result(
        "prompts_listing",
        "Prompts Listing",
        ValidationCategory::Prompts,
        listing_status(prompts),
        "",
        0,
    ));
    r
}

/// How many results carry each verdict.
pub open spec fn count_status(s: Seq<ValidationResult>, st: ValidationStatus) -> nat
    decreases s.len(),
{
    if s.len() == 0 {
        0
    } else {
        count_status(s.drop_last(), st) + (if s.last().status == st {
            1nat
        } else {
            0nat
        })
    }
}

/// No verdict is counted more often than there are results.
pub proof fn lemma_count_status_bound(s: Seq<ValidationResult>, st: ValidationStatus)
    ensures
        count_status(s, st) <= s.len(),
    decreases s.len(),
{
    if s.len() > 0 {
        lemma_count_status_bound(s.drop_last(), st);
    }
}

/// Tallies a run: each verdict's count is exactly how often it occurs, and
/// the compliance figure is the passed share of all checks in whole percent,
/// zero when nothing ran.
pub fn calculate_summary(results: &Vec<ValidationResult>) -> (r: ValidationSummary)
    ensures
        r.total_tests == results@.len(),
        r.passed == count_status(results@, ValidationStatus::Pass),
        r.info == count_status(results@, ValidationStatus::Info),
        r.warnings == count_status(results@, ValidationStatus::Warning),
        r.errors == count_status(results@, ValidationStatus::Error),
        r.critical == count_status(results@, ValidationStatus::Critical),
        r.skipped == count_status(results@, ValidationStatus::Skipped),
        results@.len() == 0 ==> r.compliance_percentage == 0,
        results@.len() > 0 ==> r.compliance_percentage == (100 * count_status(
            results@,
            ValidationStatus::Pass,
        )) as int / (results@.len() as int),
{
    let mut passed: usize = 0;
    let mut info: usize = 0;
    let mut warnings: usize = 0;
    let mut errors: usize = 0;
    let mut critical: usize = 0;
    let mut skipped: usize = 0;
    let mut i: usize = 0;
    while i < results.len()
        invariant
            i <= results@.len(),
            passed == count_status(results@.subrange(0, i as int), ValidationStatus::Pass),
            info == count_status(results@.subrange(0, i as int), ValidationStatus::Info),
            warnings == count_status(results@.subrange(0, i as int), ValidationStatus::Warning),
            errors == count_status(results@.subrange(0, i as int), ValidationStatus::Error),
            critical == count_status(results@.subrange(0, i as int), ValidationStatus::Critical),
            skipped == count_status(results@.subrange(0, i as int), ValidationStatus::Skipped),
            passed <= i && info <= i && warnings <= i && errors <= i && critical <= i && skipped
                <= i,
        decreases results@.len() - i,
    {
        proof {
            let pre = results@.subrange(0, i as int);
            let cur = results@.subrange(0, i + 1int);
            assert(cur.drop_last() =~= pre);
            assert(cur.last() == results@[i as int]);
        }
        match results[i].status {
            ValidationStatus::Pass => {
                passed = passed + 1;
            },
            ValidationStatus::Info => {
                info = info + 1;
            },
            ValidationStatus::Warning => {
                warnings = warnings + 1;
            },
            ValidationStatus::Error => {
                errors = errors + 1;
            },
            ValidationStatus::Critical => {
                critical = critical + 1;
            },
            ValidationStatus::Skipped => {
                skipped = skipped + 1;
            },
        }
        i = i + 1;
    }
    proof {
        assert(results@.subrange(0, results@.len() as int) =~= results@);
        lemma_count_status_bound(results@, ValidationStatus::Pass);
    }
    let total = results.len();
    proof {
        if results@.len() > 0 {
            let p = count_status(results@, ValidationStatus::Pass) as int;
            let t = results@.len() as int;
            vstd::arithmetic::div_mod::lemma_div_is_ordered(100 * p, 100 * t, t);
            vstd::arithmetic::div_mod::lemma_div_multiples_vanish(100, t);
        }
    }
    let compliance_percentage: u32 = if total == 0 {
        0
    } else {
        ((100u128 * (passed as u128)) / (total as u128)) as u32
    };
    ValidationSummary {
        total_tests: total,
        passed,
        info,
        warnings,
        errors,
        critical,
        skipped,
        compliance_percentage,
    }
}

} // verus!
