//! The client's persistent configuration and how two configurations merge.

use vstd::prelude::*;

verus! {

use crate::transport::TransportConfig;
use crate::correlation::str_eq;

/// The client's identity as declared to servers.
#[derive(Debug)]
pub struct ClientConfig {
    pub name: String,
    pub version: String,
    pub metadata: Vec<(String, String)>,
}

impl Default for ClientConfig {
    /// The stock identity.
    fn default() -> (r: ClientConfig)
        ensures
            r.name@ == "mcp-probe"@,
            r.version@ == "0.1.0"@,
            r.metadata@.len() == 0,
    {
        ClientConfig {
            name: String::from_str("mcp-probe"),
            version: String::from_str("0.1.0"),
            metadata: Vec::new(),
        }
    }
}

/// Debug-session behavior.
#[derive(Debug)]
pub struct DebugConfig {
    pub show_raw_messages: bool,
    pub auto_save_sessions: bool,
    pub session_directory: String,
    pub max_saved_sessions: u32,
}

impl Default for DebugConfig {
    /// Raw messages hidden, sessions saved, at most a hundred kept.
    fn default() -> (r: DebugConfig)
        ensures
            !r.show_raw_messages,
            r.auto_save_sessions,
            r.session_directory@ == ".mcp-probe/sessions"@,
            r.max_saved_sessions == 100,
    {
        DebugConfig {
            show_raw_messages: false,
            auto_save_sessions: true,
            session_directory: String::from_str(".mcp-probe/sessions"),
            max_saved_sessions: 100,
        }
    }
}

/// Logging behavior.
#[derive(Debug)]
pub struct LoggingConfig {
    pub level: String,
    pub format: String,
    pub file: Option<String>,
    pub stderr: bool,
}

impl Default for LoggingConfig {
    /// Pretty logs at the info level, to the error stream.
    fn default() -> (r: LoggingConfig)
        ensures
            r.level@ == "info"@,
            r.format@ == "pretty"@,
            r.file is None,
            r.stderr,
    {
        LoggingConfig {
            level: String::from_str("info"),
            format: String::from_str("pretty"),
            file: None,
            stderr: true,
        }
    }
}

/// Terminal interface behavior.
#[derive(Debug)]
pub struct TuiConfig {
    pub color_scheme: String,
    pub key_bindings: Vec<(String, String)>,
    pub refresh_rate_ms: u64,
    pub show_help: bool,
}

impl Default for TuiConfig {
    /// The stock palette, the stock keys, ten refreshes a second.
    fn default() -> (r: TuiConfig)
        ensures
            r.color_scheme@ == "default"@,
            r.key_bindings@.len() == 3,
            r.refresh_rate_ms == 100,
            r.show_help,
    {
        let mut key_bindings: Vec<(String, String)> = Vec::new();
        key_bindings.push((String::from_str("quit"), String::from_str("q")));
        key_bindings.push((String::from_str("help"), String::from_str("h")));
        key_bindings.push((String::from_str("refresh"), String::from_str("r")));
        TuiConfig {
            color_scheme: String::from_str("default"),
            key_bindings,
            refresh_rate_ms: 100,
            show_help: true,
        }
    }
}

/// Everything the client reads from its configuration file.
#[derive(Debug)]
pub struct Config {
    pub transport: Option<TransportConfig>,
    pub client: ClientConfig,
    pub debug: DebugConfig,
    pub logging: LoggingConfig,
    pub tui: TuiConfig,
}

impl Default for Config {
    /// No transport chosen yet; every section at its stock values.
    fn default() -> (r: Config)
        ensures
            r.transport is None,
            r.client.name@ == "mcp-probe"@,
            r.logging.level@ == "info"@,
            r.logging.format@ == "pretty"@,
            r.logging.file is None,
            r.logging.stderr,
            !r.debug.show_raw_messages,
    {
        Config {
            transport: None,
            client: ClientConfig::default(),
            debug: DebugConfig::default(),
            logging: LoggingConfig::default(),
            tui: TuiConfig::default(),
        }
    }
}

impl Config {
    /// Lays `other` over this configuration: its transport wins when set, a
    /// raised raw-message flag sticks, and logging settings win whenever they
    /// differ from their stock values.
    pub fn merge(&mut self, other: Config)
        ensures
            other.transport is Some ==> final(self).transport == other.transport,
            other.transport is None ==> final(self).transport == old(self).transport,
            final(self).debug.show_raw_messages == (old(self).debug.show_raw_messages
                || other.debug.show_raw_messages),
            other.logging.level@ != "info"@ ==> final(self).logging.level == other.logging.level,
            other.logging.level@ == "info"@ ==> final(self).logging.level == old(
                self,
            ).logging.level,
            other.logging.format@ != "pretty"@ ==> final(self).logging.format
                == other.logging.format,
            other.logging.format@ == "pretty"@ ==> final(self).logging.format == old(
                self,
            ).logging.format,
            other.logging.file is Some ==> final(self).logging.file == other.logging.file,
            other.logging.file is None ==> final(self).logging.file == old(self).logging.file,
            final(self).client == old(self).client,
            final(self).tui == old(self).tui,
    {
        if other.transport.is_some() {
            self.transport = other.transport;
        }
        if other.debug.show_raw_messages {
            self.debug.show_raw_messages = true;
        }
        if !str_eq(other.logging.level.as_str(), "info") {
            self.logging.level = other.logging.level;
        }
        if !str_eq(other.logging.format.as_str(), "pretty") {
            self.logging.format = other.logging.format;
        }
        if other.logging.file.is_some() {
            self.logging.file = other.logging.file;
        }
    }
}

} // verus!
