//! The retryable multi-step negotiation flow.
//!
//! A flow is a sequence of named steps run in order; each step says whether
//! it may be retried and what its own deadline is. On a retryable failure the
//! delay doubles (or grows by the configured factor) from the initial delay
//! up to the cap; a non-retryable failure or exhausted attempts fail the
//! flow. The decision of what to do after an attempt is a function of the
//! attempt count and the policy; running the steps against a live transport
//! belongs to the program around the library.

use vstd::prelude::*;

verus! {

use crate::json::JsonValue;
use crate::tools::Implementation;
use crate::client::NegotiationState;

/// A flow-level failure, with the step it arose in.
#[derive(Debug, PartialEq)]
pub enum FlowError {
    Transport { message: String },
    Protocol { message: String },
    Timeout { step: String, duration_ms: u64 },
    Validation { reason: String },
    Configuration { parameter: String, value: String },
}

/// Per-phase deadlines; the total bounds the whole flow including backoff.
#[derive(Debug, Clone, Copy, PartialEq, Eq, Structural)]
pub struct TimeoutConfig {
    pub connection_ms: u64,
    pub initialization_ms: u64,
    pub response_ms: u64,
    pub total_ms: u64,
}

/// How failures are retried: up to `max_attempts`, with the delay growing by
/// `backoff_multiplier` from `initial_delay_ms`, capped at `max_delay_ms`.
#[derive(Debug, Clone, Copy, PartialEq, Eq, Structural)]
pub struct RetryPolicy {
    pub max_attempts: u32,
    pub initial_delay_ms: u64,
    pub max_delay_ms: u64,
    pub backoff_multiplier: u32,
}

/// What the flow demands of the server's declared capabilities.
#[derive(Debug)]
pub struct ValidationConfig {
    pub strict_protocol_version: bool,
    pub require_capabilities: Vec<String>,
    pub allow_unknown_capabilities: bool,
}

/// What the flow logs while running.
#[derive(Debug, Clone, Copy, PartialEq, Eq, Structural)]
pub struct LoggingConfig {
    pub log_raw_messages: bool,
    pub log_timing: bool,
    pub log_state_transitions: bool,
}

/// All of a flow's settings.
#[derive(Debug)]
pub struct FlowConfig {
    pub timeouts: TimeoutConfig,
    pub retry_policy: RetryPolicy,
    pub validation: ValidationConfig,
    pub logging: LoggingConfig,
}

impl Default for FlowConfig {
    /// Thirty seconds to connect, a minute to initialize, five minutes in
    /// all; three attempts doubling from one second up to thirty.
    fn default() -> (r: FlowConfig)
        ensures
            r.timeouts == (TimeoutConfig {
                connection_ms: 30000,
                initialization_ms: 60000,
                response_ms: 30000,
                total_ms: 300000,
            }),
            r.retry_policy == (RetryPolicy {
                max_attempts: 3,
                initial_delay_ms: 1000,
                max_delay_ms: 30000,
                backoff_multiplier: 2,
            }),
            !r.validation.strict_protocol_version,
            r.validation.require_capabilities@.len() == 0,
            r.validation.allow_unknown_capabilities,
            r.logging == (LoggingConfig {
                log_raw_messages: false,
                log_timing: true,
                log_state_transitions: true,
            }),
    {
        FlowConfig {
            timeouts: TimeoutConfig {
                connection_ms: 30000,
                initialization_ms: 60000,
                response_ms: 30000,
                total_ms: 300000,
            },
            retry_policy: RetryPolicy {
                max_attempts: 3,
                initial_delay_ms: 1000,
                max_delay_ms: 30000,
                backoff_multiplier: 2,
            },
            validation: ValidationConfig {
                strict_protocol_version: false,
                require_capabilities: Vec::new(),
                allow_unknown_capabilities: true,
            },
            logging: LoggingConfig {
                log_raw_messages: false,
                log_timing: true,
                log_state_transitions: true,
            },
        }
    }
}

/// What the server allows for tools.
#[derive(Debug)]
pub struct ToolCapabilities {
    pub list_allowed: bool,
    pub execute_allowed: bool,
    pub available_tools: Vec<String>,
}

/// What the server allows for resources.
#[derive(Debug)]
pub struct ResourceCapabilities {
    pub list_allowed: bool,
    pub read_allowed: bool,
    pub available_resources: Vec<String>,
}

/// What the server allows for prompts.
#[derive(Debug)]
pub struct PromptCapabilities {
    pub list_allowed: bool,
    pub execute_allowed: bool,
    pub available_prompts: Vec<String>,
}

/// What the server allows for logging.
#[derive(Debug)]
pub struct LoggingCapabilities {
    pub enabled: bool,
    pub levels: Vec<String>,
}

/// Everything the server declared it can do.
#[derive(Debug)]
pub struct CapabilitySet {
    pub tools: ToolCapabilities,
    pub resources: ResourceCapabilities,
    pub prompts: PromptCapabilities,
    pub logging: LoggingCapabilities,
    pub extensions: Vec<(String, JsonValue)>,
}

/// Nothing allowed and nothing listed yet.
pub open spec fn capability_set_is_empty(c: CapabilitySet) -> bool {
    &&& !c.tools.list_allowed && !c.tools.execute_allowed
    &&& c.tools.available_tools@.len() == 0
    &&& !c.resources.list_allowed && !c.resources.read_allowed
    &&& c.resources.available_resources@.len() == 0
    &&& !c.prompts.list_allowed && !c.prompts.execute_allowed
    &&& c.prompts.available_prompts@.len() == 0
    &&& !c.logging.enabled && c.logging.levels@.len() == 0
    &&& c.extensions@.len() == 0
}

impl CapabilitySet {
    /// No capabilities yet: nothing allowed, nothing listed.
    pub fn empty() -> (r: CapabilitySet)
        ensures
            capability_set_is_empty(r),
    {
        CapabilitySet {
            tools: ToolCapabilities {
                list_allowed: false,
                execute_allowed: false,
                available_tools: Vec::new(),
            },
            resources: ResourceCapabilities {
                list_allowed: false,
                read_allowed: false,
                available_resources: Vec::new(),
            },
            prompts: PromptCapabilities {
                list_allowed: false,
                execute_allowed: false,
                available_prompts: Vec::new(),
            },
            logging: LoggingCapabilities { enabled: false, levels: Vec::new() },
            extensions: Vec::new(),
        }
    }
}

/// When each step ran and how long the flow has taken.
#[derive(Debug)]
pub struct TimingInfo {
    pub start_ms: u64,
    pub connection_ms: Option<u64>,
    pub negotiation_ms: Option<u64>,
    pub total_ms: u64,
    pub step_timings: Vec<(String, u64)>,
}

/// The state a flow accumulates while it runs.
#[derive(Debug)]
pub struct FlowContext {
    pub state: NegotiationState,
    pub client_info: Implementation,
    pub server_info: Option<Implementation>,
    pub capabilities: CapabilitySet,
    pub timing: TimingInfo,
    pub errors: Vec<FlowError>,
    pub metadata: Vec<(String, JsonValue)>,
}

/// The connect step: establish the transport within its deadline.
#[derive(Debug, Clone, Copy, PartialEq, Eq, Structural)]
pub struct ConnectStep {
    pub timeout_ms: u64,
}

/// The initialize step: send the handshake request.
#[derive(Debug)]
pub struct InitializeStep {
    pub client_info: Implementation,
    pub protocol_version: String,
}

/// The step that awaits and checks the handshake response.
#[derive(Debug, Clone, Copy, PartialEq, Eq, Structural)]
pub struct WaitForResponseStep {
    pub timeout_ms: u64,
    pub validate_response: bool,
}

/// The step that reads the declared capabilities out of the response.
#[derive(Debug, Clone, Copy, PartialEq, Eq, Structural)]
pub struct ProcessCapabilitiesStep {
    pub strict_validation: bool,
}

/// The step that sends the closing notification of the handshake.
#[derive(Debug)]
pub struct SendNotificationStep {
    pub notification_type: String,
}

/// The step that moves the flow into its target state.
#[derive(Debug)]
pub struct TransitionToStep {
    pub target_state: String,
}

/// Any of the six flow steps.
#[derive(Debug)]
pub enum FlowStepEnum {
    Connect(ConnectStep),
    Initialize(InitializeStep),
    WaitForResponse(WaitForResponseStep),
    ProcessCapabilities(ProcessCapabilitiesStep),
    SendNotification(SendNotificationStep),
    TransitionTo(TransitionToStep),
}

impl FlowStepEnum {
    /// The step's name, for logs and step timings.
    pub fn step_name(&self) -> (r: &'static str)
        ensures
            match self {
                FlowStepEnum::Connect(_) => r@ == "connect"@,
                FlowStepEnum::Initialize(_) => r@ == "initialize"@,
                FlowStepEnum::WaitForResponse(_) => r@ == "wait_response"@,
                FlowStepEnum::ProcessCapabilities(_) => r@ == "process_capabilities"@,
                FlowStepEnum::SendNotification(_) => r@ == "send_notification"@,
                FlowStepEnum::TransitionTo(_) => r@ == "transition_ready"@,
            },
    {
        match self {
            FlowStepEnum::Connect(_) => "connect",
            FlowStepEnum::Initialize(_) => "initialize",
            FlowStepEnum::WaitForResponse(_) => "wait_response",
            FlowStepEnum::ProcessCapabilities(_) => "process_capabilities",
            FlowStepEnum::SendNotification(_) => "send_notification",
            FlowStepEnum::TransitionTo(_) => "transition_ready",
        }
    }

    /// Whether a failure of this step may be retried.
    pub fn is_retryable(&self) -> (r: bool)
        ensures
            r,
    {
        match self {
            FlowStepEnum::Connect(_) => true,
            FlowStepEnum::Initialize(_) => true,
            FlowStepEnum::WaitForResponse(_) => true,
            FlowStepEnum::ProcessCapabilities(_) => true,
            FlowStepEnum::SendNotification(_) => true,
            FlowStepEnum::TransitionTo(_) => true,
        }
    }

    /// The step's own deadline, where it has one.
    pub fn timeout_ms(&self) -> (r: Option<u64>)
        ensures
            match self {
                FlowStepEnum::Connect(s) => r == Some(s.timeout_ms),
                FlowStepEnum::WaitForResponse(s) => r == Some(s.timeout_ms),
                _ => r is None,
            },
    {
        match self {
            FlowStepEnum::Connect(s) => Some(s.timeout_ms),
            FlowStepEnum::WaitForResponse(s) => Some(s.timeout_ms),
            _ => None,
        }
    }

    /// The step's deadline as a duration.
    pub fn timeout(&self) -> (r: Option<core::time::Duration>)
        ensures
            (r is Some) == (self matches FlowStepEnum::Connect(_) || self matches
                FlowStepEnum::WaitForResponse(_)),
    {
        match self.timeout_ms() {
            Some(ms) => Some(duration_from_millis(ms)),
            None => None,
        }
    }
}

/// Relies on core::time::Duration::from_millis to carry a millisecond count
/// into the standard duration type.
#[verifier::external_body]
fn duration_from_millis(ms: u64) -> core::time::Duration {
    core::time::Duration::from_millis(ms)
}

/// Relies on core::time::Duration::from_secs to carry a second count into
/// the standard duration type.
#[verifier::external_body]
fn duration_from_secs(s: u64) -> core::time::Duration {
    core::time::Duration::from_secs(s)
}

/// Spells durations directly on integers.
pub trait FlowDurationExt {
    /// This many seconds.
    fn secs(self) -> core::time::Duration;

    /// This many milliseconds.
    fn millis(self) -> core::time::Duration;
}

impl FlowDurationExt for u64 {
    fn secs(self) -> core::time::Duration {
        duration_from_secs(self)
    }

    fn millis(self) -> core::time::Duration {
        duration_from_millis(self)
    }
}

/// Relies on uuid::Uuid::new_v4 and Uuid::to_string: a freshly drawn random
/// session token. The value is random; its hyphenated text form is always 36
/// characters of hexadecimal digits and hyphens.
#[verifier::external_body]
pub fn new_session_token() -> (r: String)
    ensures
        r@.len() == 36,
{
    uuid::Uuid::new_v4().to_string()
}

/// Step constructors, named for how the flow reads.
pub struct Connect;

impl Connect {
    /// A connect step with the given deadline.
    pub fn with_timeout(timeout_ms: u64) -> (r: FlowStepEnum)
        ensures
            r == FlowStepEnum::Connect(ConnectStep { timeout_ms }),
    {
        FlowStepEnum::Connect(ConnectStep { timeout_ms })
    }

    /// A connect step with the usual thirty-second deadline.
    pub fn with_default_timeout() -> (r: FlowStepEnum)
        ensures
            r == FlowStepEnum::Connect(ConnectStep { timeout_ms: 30000 }),
    {
        FlowStepEnum::Connect(ConnectStep { timeout_ms: 30000 })
    }
}

pub struct Initialize;

impl Initialize {
    /// An initialize step declaring this client under the current protocol
    /// revision.
    pub fn with_client_info(client_info: Implementation) -> (r: FlowStepEnum)
        ensures
            r matches FlowStepEnum::Initialize(s) && s.client_info == client_info
                && s.protocol_version@ == "2024-11-05"@,
    {
        FlowStepEnum::Initialize(InitializeStep {
            client_info,
            protocol_version: String::from_str("2024-11-05"),
        })
    }
}

pub struct WaitForResponse;

impl WaitForResponse {
    /// A wait step with the given deadline, checking the response.
    pub fn with_timeout(timeout_ms: u64) -> (r: FlowStepEnum)
        ensures
            r == FlowStepEnum::WaitForResponse(WaitForResponseStep {
                timeout_ms,
                validate_response: true,
            }),
    {
        FlowStepEnum::WaitForResponse(WaitForResponseStep { timeout_ms, validate_response: true })
    }

    /// A wait step with the usual deadline, checking the response.
    pub fn with_validation() -> (r: FlowStepEnum)
        ensures
            r == FlowStepEnum::WaitForResponse(WaitForResponseStep {
                timeout_ms: 30000,
                validate_response: true,
            }),
    {
        FlowStepEnum::WaitForResponse(WaitForResponseStep {
            timeout_ms: 30000,
            validate_response: true,
        })
    }
}

pub struct ProcessCapabilities;

impl ProcessCapabilities {
    /// A capability step that accepts whatever the server declares.
    pub fn extract_all() -> (r: FlowStepEnum)
        ensures
            r == FlowStepEnum::ProcessCapabilities(ProcessCapabilitiesStep {
                strict_validation: false,
            }),
    {
        FlowStepEnum::ProcessCapabilities(ProcessCapabilitiesStep { strict_validation: false })
    }

    /// A capability step that holds the declaration to the flow's demands.
    pub fn with_strict_validation() -> (r: FlowStepEnum)
        ensures
            r == FlowStepEnum::ProcessCapabilities(ProcessCapabilitiesStep {
                strict_validation: true,
            }),
    {
        FlowStepEnum::ProcessCapabilities(ProcessCapabilitiesStep { strict_validation: true })
    }
}

pub struct SendNotification;

impl SendNotification {
    /// The step that sends the `initialized` notification.
    pub fn initialized() -> (r: FlowStepEnum)
        ensures
            r matches FlowStepEnum::SendNotification(s) && s.notification_type@
                == "initialized"@,
    {
        FlowStepEnum::SendNotification(SendNotificationStep {
            notification_type: String::from_str("initialized"),
        })
    }
}

pub struct TransitionTo;

impl TransitionTo {
    /// The ready state itself, under a freshly drawn session token.
    pub fn fresh_ready_state() -> (r: NegotiationState)
        ensures
            r matches NegotiationState::Ready { session_id } && session_id@.len() == 36,
    {
        NegotiationState::Ready { session_id: new_session_token() }
    }

    /// The step that moves the flow into the ready state.
    pub fn ready_state() -> (r: FlowStepEnum)
        ensures
            r matches FlowStepEnum::TransitionTo(s) && s.target_state@ == "ready"@,
    {
        FlowStepEnum::TransitionTo(TransitionToStep { target_state: String::from_str("ready") })
    }
}

/// The entry points of the step-chaining interface.
pub struct FlowStep;

impl FlowStep {
    /// A flow of one step.
    pub fn single(step: FlowStepEnum) -> (r: FlowBuilder)
        ensures
            r.steps@.len() == 1 && r.steps@[0] == step,
    {
        FlowBuilder::new().add_step(step)
    }

    /// The start of a chained flow.
    pub fn chain(step: FlowStepEnum) -> (r: FlowBuilder)
        ensures
            r.steps@.len() == 1 && r.steps@[0] == step,
    {
        FlowStep::single(step)
    }
}

/// Collects steps and settings before the flow runs.
#[derive(Debug)]
pub struct FlowBuilder {
    pub steps: Vec<FlowStepEnum>,
    pub config: FlowConfig,
}

impl FlowBuilder {
    /// An empty builder under the default settings.
    pub fn new() -> (r: FlowBuilder)
        ensures
            r.steps@.len() == 0,
    {
        FlowBuilder { steps: Vec::new(), config: FlowConfig::default() }
    }

    /// Appends one step.
    pub fn add_step(self, step: FlowStepEnum) -> (r: FlowBuilder)
        ensures
            r.steps@ == self.steps@.push(step),
            r.config == self.config,
    {
        let mut steps = self.steps;
        steps.push(step);
        FlowBuilder { steps, config: self.config }
    }

    /// Appends one step, reading as a pipeline.
    pub fn then(self, step: FlowStepEnum) -> (r: FlowBuilder)
        ensures
            r.steps@ == self.steps@.push(step),
            r.config == self.config,
    {
        self.add_step(step)
    }

    /// Replaces the deadlines.
    pub fn with_timeouts(self, timeouts: TimeoutConfig) -> (r: FlowBuilder)
        ensures
            r.steps@ == self.steps@,
            r.config.timeouts == timeouts,
            r.config.retry_policy == self.config.retry_policy,
    {
        FlowBuilder { steps: self.steps, config: FlowConfig { timeouts, ..self.config } }
    }

    /// Replaces the retry policy.
    pub fn with_retry_policy(self, policy: RetryPolicy) -> (r: FlowBuilder)
        ensures
            r.steps@ == self.steps@,
            r.config.retry_policy == policy,
            r.config.timeouts == self.config.timeouts,
    {
        FlowBuilder { steps: self.steps, config: FlowConfig { retry_policy: policy, ..self.config } }
    }

    /// Freezes the flow, starting idle with no server known yet.
    pub fn build(self, client_info: Implementation) -> (r: NegotiationFlow)
        ensures
            r.steps@ == self.steps@,
            r.config == self.config,
            r.context.state == NegotiationState::Idle,
            r.context.client_info == client_info,
            r.context.server_info is None,
            capability_set_is_empty(r.context.capabilities),
            r.context.errors@.len() == 0,
            r.context.metadata@.len() == 0,
            r.context.timing.step_timings@.len() == 0,
    {
        NegotiationFlow {
            steps: self.steps,
            context: FlowContext {
                state: NegotiationState::Idle,
                client_info,
                server_info: None,
                capabilities: CapabilitySet::empty(),
                timing: TimingInfo {
                    start_ms: 0,
                    connection_ms: None,
                    negotiation_ms: None,
                    total_ms: 0,
                    step_timings: Vec::new(),
                },
                errors: Vec::new(),
                metadata: Vec::new(),
            },
            config: self.config,
        }
    }
}

/// A frozen flow: its steps, settings and accumulated context. Running the
/// steps against a live transport is the surrounding program's work; the
/// decisions below say how it must react to each attempt's outcome.
#[derive(Debug)]
pub struct NegotiationFlow {
    pub steps: Vec<FlowStepEnum>,
    pub context: FlowContext,
    pub config: FlowConfig,
}

impl NegotiationFlow {
    /// The accumulated context.
    pub fn context(&self) -> (r: &FlowContext)
        ensures
            r == &self.context,
    {
        &self.context
    }
}

/// What the runner does after a failed attempt of one step.
#[derive(Debug, PartialEq, Eq, Structural)]
pub enum RetryDecision {
    /// Try the step again after this many milliseconds.
    RetryAfter(u64),
    /// Give the flow up: the step is non-retryable or attempts ran out.
    GiveUp,
}

/// The multiplier raised to a power.
pub open spec fn pow_nat(base: nat, e: nat) -> nat
    decreases e,
{
    if e == 0 {
        1
    } else {
        base * pow_nat(base, (e - 1) as nat)
    }
}

/// The backoff the policy prescribes before retry number `attempt` (counting
/// from one): the initial delay grown `attempt - 1` times, capped.
pub open spec fn backoff_ms(policy: RetryPolicy, attempt: u32) -> nat {
    let raw = (policy.initial_delay_ms as nat) * pow_nat(policy.backoff_multiplier as nat, (
    attempt - 1) as nat);
    if raw > policy.max_delay_ms {
        policy.max_delay_ms as nat
    } else {
        raw
    }
}

/// Growing never shrinks the delay when the factor is at least one.
proof fn lemma_pow_grows(base: nat, e: nat)
    requires
        base >= 1,
    ensures
        pow_nat(base, e) >= 1,
    decreases e,
{
    if e > 0 {
        lemma_pow_grows(base, (e - 1) as nat);
        assert(pow_nat(base, e) == base * pow_nat(base, (e - 1) as nat));
        assert(base * pow_nat(base, (e - 1) as nat) >= 1 * 1) by (nonlinear_arith)
            requires
                base >= 1,
                pow_nat(base, (e - 1) as nat) >= 1,
        ;
    }
}

/// Decides what follows a failed attempt: a non-retryable step or the last
/// allowed attempt gives the flow up, otherwise the step is retried after
/// exactly the policy's backoff.
pub fn retry_decision(policy: &RetryPolicy, attempt: u32, retryable: bool) -> (r: RetryDecision)
    requires
        attempt >= 1,
        policy.backoff_multiplier >= 1,
    ensures
        (attempt >= policy.max_attempts || !retryable) ==> r == RetryDecision::GiveUp,
        (attempt < policy.max_attempts && retryable) ==> r == RetryDecision::RetryAfter(
            backoff_ms(*policy, attempt) as u64,
        ),
{
    if attempt >= policy.max_attempts || !retryable {
        return RetryDecision::GiveUp;
    }
    let mut delay: u64 = if policy.initial_delay_ms > policy.max_delay_ms {
        policy.max_delay_ms
    } else {
        policy.initial_delay_ms
    };
    let mut k: u32 = 1;
    proof {
        assert(pow_nat(policy.backoff_multiplier as nat, 0) == 1);
        assert((policy.initial_delay_ms as nat) * pow_nat(policy.backoff_multiplier as nat, 0)
            == policy.initial_delay_ms as nat);
        assert(delay as nat == (if (policy.initial_delay_ms as nat) * pow_nat(
            policy.backoff_multiplier as nat,
            (k - 1) as nat,
        ) > policy.max_delay_ms {
            policy.max_delay_ms as nat
        } else {
            (policy.initial_delay_ms as nat) * pow_nat(
                policy.backoff_multiplier as nat,
                (k - 1) as nat,
            )
        }));
    }
    while k < attempt
        invariant
            1 <= k <= attempt || (attempt < 1 && k == 1),
            policy.backoff_multiplier >= 1,
            delay as nat == (if (policy.initial_delay_ms as nat) * pow_nat(
                policy.backoff_multiplier as nat,
                (k - 1) as nat,
            ) > policy.max_delay_ms {
                policy.max_delay_ms as nat
            } else {
                (policy.initial_delay_ms as nat) * pow_nat(
                    policy.backoff_multiplier as nat,
                    (k - 1) as nat,
                )
            }),
        decreases attempt - k,
    {
        let ghost raw = (policy.initial_delay_ms as nat) * pow_nat(
            policy.backoff_multiplier as nat,
            (k - 1) as nat,
        );
        let ghost raw_next = (policy.initial_delay_ms as nat) * pow_nat(
            policy.backoff_multiplier as nat,
            k as nat,
        );
        proof {
            assert(pow_nat(policy.backoff_multiplier as nat, k as nat) == (
            policy.backoff_multiplier as nat) * pow_nat(
                policy.backoff_multiplier as nat,
                (k - 1) as nat,
            ));
            lemma_pow_grows(policy.backoff_multiplier as nat, (k - 1) as nat);
            assert(raw_next == raw * (policy.backoff_multiplier as nat)) by (nonlinear_arith)
                requires
                    raw == (policy.initial_delay_ms as nat) * pow_nat(
                        policy.backoff_multiplier as nat,
                        (k - 1) as nat,
                    ),
                    raw_next == (policy.initial_delay_ms as nat) * ((
                    policy.backoff_multiplier as nat) * pow_nat(
                        policy.backoff_multiplier as nat,
                        (k - 1) as nat,
                    )),
            ;
            assert(raw_next >= raw) by (nonlinear_arith)
                requires
                    raw_next == raw * (policy.backoff_multiplier as nat),
                    policy.backoff_multiplier >= 1,
            ;
        }
        if delay >= policy.max_delay_ms {
            delay = policy.max_delay_ms;
        } else if delay > policy.max_delay_ms / (policy.backoff_multiplier as u64) {
            proof {
                assert(raw <= policy.max_delay_ms);
                assert(delay as nat == raw);
                assert(raw_next > policy.max_delay_ms) by (nonlinear_arith)
                    requires
                        raw_next == raw * (policy.backoff_multiplier as nat),
                        raw > policy.max_delay_ms as nat / (policy.backoff_multiplier as nat),
                        policy.backoff_multiplier >= 1,
                ;
            }
            delay = policy.max_delay_ms;
        } else {
            proof {
                assert(raw <= policy.max_delay_ms);
                assert(delay as nat == raw);
                assert(raw * (policy.backoff_multiplier as nat) <= (policy.max_delay_ms as nat / (
                policy.backoff_multiplier as nat)) * (policy.backoff_multiplier as nat))
                    by (nonlinear_arith)
                    requires
                        raw <= policy.max_delay_ms as nat / (policy.backoff_multiplier as nat),
                        policy.backoff_multiplier >= 1,
                ;
                assert((policy.max_delay_ms as nat / (policy.backoff_multiplier as nat)) * (
                policy.backoff_multiplier as nat) <= policy.max_delay_ms as nat) by (
                nonlinear_arith)
                    requires
                        policy.backoff_multiplier >= 1,
                ;
            }
            delay = delay * (policy.backoff_multiplier as u64);
        }
        k = k + 1;
    }
    RetryDecision::RetryAfter(delay)
}

} // verus!
