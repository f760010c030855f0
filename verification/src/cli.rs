//! The command surface: argument records, output and template choices, the
//! shared command context, and the configuration templates the init command
//! writes.

use vstd::prelude::*;

verus! {

use crate::transport::TransportConfig;
use crate::errors::{McpError, TransportError};
use crate::validation::{ValidationResult, ValidationStatus};

/// How structured output is rendered.
#[derive(Debug, Clone, Copy, PartialEq, Eq, Structural)]
pub enum OutputFormat {
    Pretty,
    Json,
    Yaml,
    Text,
}

impl OutputFormat {
    /// The name this format goes by on the command line.
    pub fn name(&self) -> (r: &'static str)
        ensures
            match self {
                OutputFormat::Pretty => r@ == "pretty"@,
                OutputFormat::Json => r@ == "json"@,
                OutputFormat::Yaml => r@ == "yaml"@,
                OutputFormat::Text => r@ == "text"@,
            },
    {
        match self {
            OutputFormat::Pretty => "pretty",
            OutputFormat::Json => "json",
            OutputFormat::Yaml => "yaml",
            OutputFormat::Text => "text",
        }
    }
}

/// Which configuration template the init command writes.
#[derive(Debug, Clone, Copy, PartialEq, Eq, Structural)]
pub enum ConfigTemplate {
    Minimal,
    Full,
    Dev,
    Prod,
}

/// The severity floor for displaying validation results.
#[derive(Debug, Clone, Copy, PartialEq, Eq, Structural)]
pub enum Severity {
    Info,
    Warning,
    Error,
    Critical,
}

/// The formats session data can be exported to.
#[derive(Debug, Clone, Copy, PartialEq, Eq, Structural)]
pub enum ExportFormat {
    Json,
    Yaml,
    Markdown,
    Html,
    Csv,
}

/// Arguments of the configuration command.
#[derive(Debug)]
pub struct ConfigArgs {
    pub action: ConfigAction,
}

/// What the configuration command does.
#[derive(Debug)]
pub enum ConfigAction {
    Init { output: Option<String>, template: ConfigTemplate },
    Validate { config: String },
    Show { config: Option<String> },
}

/// Arguments of the export command.
#[derive(Debug)]
pub struct ExportArgs {
    pub session: String,
    pub format: ExportFormat,
    pub output: Option<String>,
    pub include_raw: bool,
    pub include_timing: bool,
}

/// Arguments of the test command.
#[derive(Debug)]
pub struct TestArgs {
    pub suite: Option<String>,
    pub transport: TransportArgs,
    pub config: Option<String>,
    pub report: bool,
    pub output_dir: Option<String>,
    pub fail_fast: bool,
    pub timeout: u64,
}

/// Arguments of the validate command.
#[derive(Debug)]
pub struct ValidateArgs {
    pub transport: TransportArgs,
    pub config: Option<String>,
    pub rules: Vec<String>,
    pub report: Option<String>,
    pub severity: Severity,
}

/// The interactive debugging command's arguments.
#[derive(Debug)]
pub struct DebugCommand {
    pub transport: TransportArgs,
    pub config: Option<String>,
    pub non_interactive: bool,
    pub show_raw: bool,
    pub save_session: Option<String>,
    pub replay_session: Option<String>,
    pub timeout: u64,
    pub max_retries: u32,
}

/// The top-level command line.
#[derive(Debug)]
pub struct Cli {
    pub verbose: u8,
    pub no_color: bool,
    pub output: OutputFormat,
}

/// Which transport the command line asked for: exactly one may be given.
#[derive(Debug)]
pub struct TransportArgs {
    pub stdio: Option<String>,
    pub args: Vec<String>,
    pub working_dir: Option<String>,
    pub http_sse: Option<String>,
    pub http_stream: Option<String>,
    pub auth_header: Option<String>,
    pub headers: Vec<String>,
}

impl TransportArgs {
    /// Turns the arguments into a transport configuration: exactly one
    /// transport must be named; a stdio command always converts, an HTTP URL
    /// converts exactly when it parses.
    pub fn to_transport_config(self) -> (r: Result<TransportConfig, McpError>)
        ensures
            match (self.stdio, self.http_sse, self.http_stream) {
                (Some(cmd), None, None) => r matches Ok(TransportConfig::Stdio(c))
                    && c.command@ == cmd@ && c.args == self.args,
                (None, Some(url), None) => {
                    match r {
                        Ok(c) => c matches TransportConfig::HttpSse(_)
                            && crate::transport::url_parts(url@) is Some,
                        Err(_) => crate::transport::url_parts(url@) is None,
                    }
                },
                (None, None, Some(url)) => {
                    match r {
                        Ok(c) => c matches TransportConfig::HttpStream(_)
                            && crate::transport::url_parts(url@) is Some,
                        Err(_) => crate::transport::url_parts(url@) is None,
                    }
                },
                _ => r is Err,
            },
    {
        match (self.stdio, self.http_sse, self.http_stream) {
            (Some(cmd), None, None) => Ok(TransportConfig::stdio(cmd.as_str(), self.args)),
            (None, Some(url), None) => TransportConfig::http_sse(url.as_str()),
            (None, None, Some(url)) => TransportConfig::http_stream(url.as_str()),
            (None, None, None) => Err(McpError::Transport(TransportError::InvalidConfig {
                transport_type: String::from_str("none"),
                reason: String::from_str("no transport was named"),
            })),
            _ => Err(McpError::Transport(TransportError::InvalidConfig {
                transport_type: String::from_str("none"),
                reason: String::from_str("only one transport may be named"),
            })),
        }
    }
}

/// Settings every command shares.
#[derive(Debug)]
pub struct CommandContext {
    pub use_color: bool,
    pub verbosity: u8,
    pub output_format: OutputFormat,
}

impl CommandContext {
    /// Reads the shared settings off the parsed command line.
    pub fn new(cli: &Cli) -> (r: CommandContext)
        ensures
            r.use_color == !cli.no_color,
            r.verbosity == cli.verbose,
            r.output_format == cli.output,
    {
        CommandContext {
            use_color: !cli.no_color,
            verbosity: cli.verbose,
            output_format: cli.output,
        }
    }

    /// At least one `-v`.
    pub fn is_verbose(&self) -> (r: bool)
        ensures
            r == (self.verbosity > 0),
    {
        self.verbosity > 0
    }

    /// At least two `-v`.
    pub fn is_debug(&self) -> (r: bool)
        ensures
            r == (self.verbosity > 1),
    {
        self.verbosity > 1
    }

    /// At least three `-v`.
    pub fn is_trace(&self) -> (r: bool)
        ensures
            r == (self.verbosity > 2),
    {
        self.verbosity > 2
    }
}

/// Whether a validation result clears the display severity floor: the info
/// floor shows everything, the warning floor hides passes, the error floor
/// shows errors and worse, the critical floor only critical results.
pub fn should_display_result(result: &ValidationResult, severity_filter: &Severity) -> (r: bool)
    ensures
        r == match severity_filter {
            Severity::Info => true,
            Severity::Warning => result.status != ValidationStatus::Pass,
            Severity::Error => result.status == ValidationStatus::Error || result.status
                == ValidationStatus::Critical,
            Severity::Critical => result.status == ValidationStatus::Critical,
        },
{
    match severity_filter {
        Severity::Info => true,
        Severity::Warning => !(result.status == ValidationStatus::Pass),
        Severity::Error => result.status == ValidationStatus::Error || result.status
            == ValidationStatus::Critical,
        Severity::Critical => result.status == ValidationStatus::Critical,
    }
}

/// The smallest usable configuration file: a stdio transport and the client's
/// identity.
pub fn generate_minimal_config() -> (r: String)
    ensures
        r@ == "# Probe configuration (minimal)\n\n[transport]\ntype = \"stdio\"\ncommand = \"python\"\nargs = [\"server.py\"]\n\n[client]\nname = \"mcp-probe\"\nversion = \"0.1.0\"\n\n[timeouts]\nconnection = \"30s\"\nrequest = \"10s\"\n"@,
{
    String::from_str(
        "# Probe configuration (minimal)\n\n[transport]\ntype = \"stdio\"\ncommand = \"python\"\nargs = [\"server.py\"]\n\n[client]\nname = \"mcp-probe\"\nversion = \"0.1.0\"\n\n[timeouts]\nconnection = \"30s\"\nrequest = \"10s\"\n",
    )
}

/// A configuration file naming every recognized table.
pub fn generate_full_config() -> (r: String)
    ensures
        r@ == "# Probe configuration (full)\n\n[transport]\ntype = \"stdio\"\ncommand = \"python\"\nargs = [\"server.py\"]\nworking_dir = \"/path/to/server\"\ntimeout = \"30s\"\n\n[transport.environment]\nPYTHONPATH = \"/usr/local/lib/python3.9/site-packages\"\n\n[client]\nname = \"mcp-probe\"\nversion = \"0.1.0\"\n\n[capabilities]\ntools = true\nresources = true\nprompts = true\nlogging = true\n\n[timeouts]\nconnection = \"30s\"\nrequest = \"10s\"\ninitialization = \"60s\"\n\n[debug]\nshow_raw_messages = false\nsave_session = true\nsession_dir = \"./sessions\"\n\n[logging]\nlevel = \"info\"\nformat = \"pretty\"\nfile = \"mcp-probe.log\"\n"@,
{
    String::from_str(
        "# Probe configuration (full)\n\n[transport]\ntype = \"stdio\"\ncommand = \"python\"\nargs = [\"server.py\"]\nworking_dir = \"/path/to/server\"\ntimeout = \"30s\"\n\n[transport.environment]\nPYTHONPATH = \"/usr/local/lib/python3.9/site-packages\"\n\n[client]\nname = \"mcp-probe\"\nversion = \"0.1.0\"\n\n[capabilities]\ntools = true\nresources = true\nprompts = true\nlogging = true\n\n[timeouts]\nconnection = \"30s\"\nrequest = \"10s\"\ninitialization = \"60s\"\n\n[debug]\nshow_raw_messages = false\nsave_session = true\nsession_dir = \"./sessions\"\n\n[logging]\nlevel = \"info\"\nformat = \"pretty\"\nfile = \"mcp-probe.log\"\n",
    )
}

/// A configuration file tuned for development: raw messages shown, sessions
/// kept, debug logging.
pub fn generate_dev_config() -> (r: String)
    ensures
        r@ == "# Probe configuration (development)\n\n[transport]\ntype = \"stdio\"\ncommand = \"python\"\nargs = [\"server.py\"]\nworking_dir = \"./dev-server\"\ntimeout = \"60s\"\n\n[client]\nname = \"mcp-probe-dev\"\nversion = \"0.1.0-dev\"\n\n[debug]\nshow_raw_messages = true\nsave_session = true\nsession_dir = \"./dev-sessions\"\n\n[logging]\nlevel = \"debug\"\nformat = \"pretty\"\n"@,
{
    String::from_str(
        "# Probe configuration (development)\n\n[transport]\ntype = \"stdio\"\ncommand = \"python\"\nargs = [\"server.py\"]\nworking_dir = \"./dev-server\"\ntimeout = \"60s\"\n\n[client]\nname = \"mcp-probe-dev\"\nversion = \"0.1.0-dev\"\n\n[debug]\nshow_raw_messages = true\nsave_session = true\nsession_dir = \"./dev-sessions\"\n\n[logging]\nlevel = \"debug\"\nformat = \"pretty\"\n",
    )
}

/// A configuration file tuned for production: an HTTPS endpoint, bearer
/// authentication from the environment, JSON logs.
pub fn generate_prod_config() -> (r: String)
    ensures
        r@ == "# Probe configuration (production)\n\n[transport]\ntype = \"http_sse\"\nbase_url = \"https://api.example.com/mcp\"\ntimeout = \"120s\"\n\n[transport.headers]\n\"User-Agent\" = \"mcp-probe/0.1.0\"\n\"Accept\" = \"application/json\"\n\n[transport.auth]\ntype = \"bearer\"\ntoken = \"${MCP_AUTH_TOKEN}\"\n\n[client]\nname = \"mcp-probe\"\nversion = \"0.1.0\"\n\n[timeouts]\nconnection = \"60s\"\nrequest = \"30s\"\ninitialization = \"120s\"\n\n[logging]\nlevel = \"info\"\nformat = \"json\"\nfile = \"/var/log/mcp-probe.log\"\n"@,
{
    String::from_str(
        "# Probe configuration (production)\n\n[transport]\ntype = \"http_sse\"\nbase_url = \"https://api.example.com/mcp\"\ntimeout = \"120s\"\n\n[transport.headers]\n\"User-Agent\" = \"mcp-probe/0.1.0\"\n\"Accept\" = \"application/json\"\n\n[transport.auth]\ntype = \"bearer\"\ntoken = \"${MCP_AUTH_TOKEN}\"\n\n[client]\nname = \"mcp-probe\"\nversion = \"0.1.0\"\n\n[timeouts]\nconnection = \"60s\"\nrequest = \"30s\"\ninitialization = \"120s\"\n\n[logging]\nlevel = \"info\"\nformat = \"json\"\nfile = \"/var/log/mcp-probe.log\"\n",
    )
}

} // verus!
