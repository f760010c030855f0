//! Transport session state for the three bindings.
//!
//! The Streamable HTTP binding holds the session id assigned by the server
//! during initialization and the last SSE event id seen. A session id, once
//! assigned, never changes: a response that tries to change it is rejected.
//! Construction enforces the security policy: plain HTTP is refused for
//! non-local hosts, and server-assigned session ids must be at least 16
//! characters of letters, digits and hyphens.

use vstd::prelude::*;

verus! {

use crate::errors::{McpError, TransportError};
use crate::transport::{TransportConfig, HttpSseConfig, TransportInfo, Lifecycle,
    passes_https_policy, is_local_host};
use crate::json::JsonValue;
use crate::sse::SseEvent;
use crate::correlation::str_eq;

/// The security posture of a Streamable HTTP transport.
#[derive(Debug, Clone, Copy, PartialEq, Eq, Structural)]
pub struct SecurityConfig {
    /// Validate Origin headers against DNS rebinding.
    pub validate_origin: bool,
    /// Warn when leaving localhost.
    pub enforce_localhost: bool,
    /// Refuse plain HTTP.
    pub require_https: bool,
    /// Hold server-assigned session ids to the id grammar.
    pub validate_session_ids: bool,
}

impl Default for SecurityConfig {
    /// The development default: origin and session-id validation on, HTTPS
    /// not yet forced (construction forces it for non-local hosts).
    fn default() -> (r: SecurityConfig)
        ensures
            r == (SecurityConfig {
                validate_origin: true,
                enforce_localhost: true,
                require_https: false,
                validate_session_ids: true,
            }),
    {
        SecurityConfig {
            validate_origin: true,
            enforce_localhost: true,
            require_https: false,
            validate_session_ids: true,
        }
    }
}

/// A character allowed in a server-assigned session id: a digit, an ASCII
/// letter, or a hyphen.
pub open spec fn session_id_char(c: char) -> bool {
    (48 <= c as int && c as int <= 57) || (97 <= c as int && c as int <= 122) || (65 <= c as int
        && c as int <= 90) || c as int == 45
}

/// A valid session id: at least 16 characters, all letters, digits or
/// hyphens.
pub open spec fn valid_session_id(s: Seq<char>) -> bool {
    s.len() >= 16 && forall|i: int| 0 <= i < s.len() ==> session_id_char(#[trigger] s[i])
}

/// The Streamable HTTP binding's client-side state: one endpoint, every
/// message POSTed to it, the session id carried in `Mcp-Session-Id` headers,
/// and the last SSE event id for resumption.
#[derive(Debug)]
pub struct HttpSseTransport {
    pub config: HttpSseConfig,
    pub info: TransportInfo,
    pub lifecycle: Lifecycle,
    pub session_id: Option<String>,
    pub last_event_id: Option<String>,
    pub sse_active: bool,
    pub security: SecurityConfig,
}

impl HttpSseTransport {
    /// The bookkeeping invariant: the info record's key set stays usable.
    pub open spec fn wf(self) -> bool {
        &&& self.info.wf()
        &&& self.session_id matches Some(s) ==> (self.security.validate_session_ids
            ==> valid_session_id(s@))
    }

    /// Builds the transport, enforcing the security policy: a configuration
    /// that is not Streamable HTTP, or a plain-HTTP URL to a non-local host,
    /// is refused; otherwise the transport starts with no session, no event
    /// id, and nothing connected.
    pub fn new(config: TransportConfig) -> (r: Result<HttpSseTransport, McpError>)
        ensures
            match r {
                Ok(t) => {
                    &&& config matches TransportConfig::HttpSse(c)
                    &&& passes_https_policy(c.base_url.scheme@, c.base_url.host@)
                    &&& t.wf()
                    &&& t.config == c
                    &&& t.lifecycle == Lifecycle::Created
                    &&& t.session_id is None
                    &&& t.last_event_id is None
                    &&& !t.sse_active
                    &&& !t.info.connected
                    &&& t.info.transport_type@ == "streamable-http"@
                    &&& t.security.require_https == !is_local_host(c.base_url.host@)
                    &&& t.security.validate_session_ids
                    &&& t.security.validate_origin
                    &&& t.security.enforce_localhost
                },
                Err(_) => !(config matches TransportConfig::HttpSse(c) && passes_https_policy(
                    c.base_url.scheme@,
                    c.base_url.host@,
                )),
            },
    {
        let c = match config {
            TransportConfig::HttpSse(c) => c,
            _ => {
                return Err(McpError::Transport(TransportError::InvalidConfig {
                    transport_type: String::from_str("streamable-http"),
                    reason: String::from_str("not a streamable HTTP configuration"),
                }));
            },
        };
        let local = str_eq(c.base_url.host.as_str(), "localhost") || str_eq(
            c.base_url.host.as_str(),
            "127.0.0.1",
        ) || str_eq(c.base_url.host.as_str(), "::1") || str_eq(c.base_url.host.as_str(), "[::1]");
        if !local && !str_eq(c.base_url.scheme.as_str(), "https") {
            return Err(McpError::Transport(TransportError::InvalidConfig {
                transport_type: String::from_str("streamable-http"),
                reason: String::from_str("HTTPS required for non-localhost URL"),
            }));
        }
        let mut security = SecurityConfig::default();
        if !local {
            security.require_https = true;
        }
        Ok(HttpSseTransport {
            config: c,
            info: TransportInfo::new("streamable-http"),
            lifecycle: Lifecycle::Created,
            session_id: None,
            last_event_id: None,
            sse_active: false,
            security,
        })
    }

    /// Whether the transport is connected.
    pub fn is_connected(&self) -> (r: bool)
        ensures
            r == (self.lifecycle == Lifecycle::Connected),
    {
        matches!(self.lifecycle, Lifecycle::Connected)
    }

    /// Records a successful connect. Connecting twice, or connecting a
    /// transport that was already shut down, is an error and changes nothing.
    pub fn connect(&mut self) -> (r: Result<(), McpError>)
        requires
            old(self).wf(),
        ensures
            final(self).wf(),
            old(self).lifecycle == Lifecycle::Created ==> r is Ok && final(self).lifecycle
                == Lifecycle::Connected && final(self).info.connected && final(self).session_id
                == old(self).session_id && final(self).last_event_id == old(self).last_event_id,
            old(self).lifecycle != Lifecycle::Created ==> r is Err && *final(self) == *old(self),
    {
        match self.lifecycle {
            Lifecycle::Created => {
                self.lifecycle = Lifecycle::Connected;
                self.info.mark_connected();
                Ok(())
            },
            Lifecycle::Connected => Err(McpError::Transport(TransportError::ConnectionFailed {
                transport_type: String::from_str("streamable-http"),
                reason: String::from_str("already connected"),
            })),
            Lifecycle::Disconnected => Err(McpError::Transport(TransportError::ConnectionFailed {
                transport_type: String::from_str("streamable-http"),
                reason: String::from_str("a disconnected transport cannot be reused"),
            })),
        }
    }

    /// Holds a server-assigned session id to the id grammar, unless the
    /// security posture switches validation off.
    pub fn validate_session_id(&self, session_id: &str) -> (r: Result<(), McpError>)
        ensures
            r is Ok <==> (!self.security.validate_session_ids || valid_session_id(session_id@)),
    {
        if !self.security.validate_session_ids {
            return Ok(());
        }
        let s = String::from_str(session_id);
        let n = s.as_str().unicode_len();
        if n < 16 {
            return Err(McpError::Transport(TransportError::InvalidConfig {
                transport_type: String::from_str("streamable-http"),
                reason: String::from_str("session id too short"),
            }));
        }
        let mut i: usize = 0;
        while i < n
            invariant
                i <= n,
                n == s@.len(),
                s@ == session_id@,
                self.security.validate_session_ids,
                forall|k: int| 0 <= k < i as int ==> session_id_char(#[trigger] s@[k]),
            decreases n - i,
        {
            let c = s.as_str().get_char(i);
            let u = c as u32;
            let ok = (0x30 <= u && u <= 0x39) || (0x61 <= u && u <= 0x7a) || (0x41 <= u && u
                <= 0x5a) || u == 0x2d;
            if !ok {
                proof {
                    assert(c == s@[i as int]);
                    assert(!session_id_char(session_id@[i as int]));
                    assert(!valid_session_id(session_id@));
                }
                return Err(McpError::Transport(TransportError::InvalidConfig {
                    transport_type: String::from_str("streamable-http"),
                    reason: String::from_str("session id contains invalid characters"),
                }));
            }
            i = i + 1;
        }
        Ok(())
    }

    /// Applies an `Mcp-Session-Id` header seen on a response. The first valid
    /// id is stored and every later response must echo it: an id that fails
    /// the grammar, or differs from the stored one, is rejected and the
    /// transport is disconnected.
    pub fn observe_session_header(&mut self, header: Option<&str>) -> (r: Result<(), McpError>)
        requires
            old(self).wf(),
        ensures
            final(self).wf(),
            match header {
                None => r is Ok && *final(self) == *old(self),
                Some(h) => {
                    match old(self).session_id {
                        None => {
                            if !old(self).security.validate_session_ids || valid_session_id(h@) {
                                &&& r is Ok
                                &&& final(self).session_id matches Some(s) && s@ == h@
                                &&& final(self).last_event_id == old(self).last_event_id
                                &&& final(self).lifecycle == old(self).lifecycle
                            } else {
                                &&& r is Err
                                &&& final(self).lifecycle == Lifecycle::Disconnected
                                &&& final(self).session_id is None
                            }
                        },
                        Some(s) => {
                            if h@ == s@ {
                                r is Ok && *final(self) == *old(self)
                            } else {
                                &&& r is Err
                                &&& final(self).session_id == old(self).session_id
                                &&& final(self).last_event_id == old(self).last_event_id
                                &&& final(self).lifecycle == Lifecycle::Disconnected
                            }
                        },
                    }
                },
            },
    {
        let h = match header {
            None => {
                return Ok(());
            },
            Some(h) => h,
        };
        match &self.session_id {
            None => {
                match self.validate_session_id(h) {
                    Ok(_) => {
                        self.session_id = Some(String::from_str(h));
                        Ok(())
                    },
                    Err(e) => {
                        self.session_id = None;
                        self.lifecycle = Lifecycle::Disconnected;
                        self.info.mark_disconnected();
                        Err(e)
                    },
                }
            },
            Some(s) => {
                if str_eq(s.as_str(), h) {
                    Ok(())
                } else {
                    self.lifecycle = Lifecycle::Disconnected;
                    self.info.mark_disconnected();
                    Err(McpError::Transport(TransportError::InvalidConfig {
                        transport_type: String::from_str("streamable-http"),
                        reason: String::from_str("server attempted to change the session id"),
                    }))
                }
            },
        }
    }

    /// The headers for an outgoing POST: the JSON content type, and the
    /// session id header exactly when a session has been assigned.
    pub fn request_headers(&self) -> (r: Vec<(String, String)>)
        ensures
            r@.len() >= 1,
            r@[0].0@ == "Content-Type"@ && r@[0].1@ == "application/json"@,
            match self.session_id {
                Some(s) => r@.len() == 2 && r@[1].0@ == "Mcp-Session-Id"@ && r@[1].1@ == s@,
                None => r@.len() == 1,
            },
    {
        let mut r: Vec<(String, String)> = Vec::new();
        r.push((String::from_str("Content-Type"), String::from_str("application/json")));
        match &self.session_id {
            Some(s) => {
                r.push((String::from_str("Mcp-Session-Id"), s.clone()));
            },
            None => {},
        }
        r
    }

    /// Notes an SSE event: a non-empty `id` field updates the stored last
    /// event id before anything else happens to the event; an empty one
    /// changes nothing.
    pub fn note_sse_event(&mut self, ev: &SseEvent)
        requires
            old(self).wf(),
        ensures
            final(self).wf(),
            ev.id@.len() > 0 ==> {
                &&& final(self).last_event_id matches Some(l) && l@ == ev.id@
                &&& final(self).session_id == old(self).session_id
                &&& final(self).lifecycle == old(self).lifecycle
                &&& final(self).info == old(self).info
            },
            ev.id@.len() == 0 ==> *final(self) == *old(self),
    {
        if !ev.id.as_str().is_empty() {
            self.last_event_id = Some(ev.id.clone());
        }
    }

    /// Whether a broken stream can be resumed: an event id has been seen.
    pub fn can_resume(&self) -> (r: bool)
        ensures
            r == (self.last_event_id is Some),
    {
        self.last_event_id.is_some()
    }

    /// The headers for the resume GET: the event-stream accept header, the
    /// last event id seen, and the session id when assigned. `None` when
    /// nothing was seen to resume from.
    pub fn resume_headers(&self) -> (r: Option<Vec<(String, String)>>)
        ensures
            match r {
                None => self.last_event_id is None,
                Some(hs) => {
                    &&& self.last_event_id matches Some(l)
                    &&& hs@.len() >= 2
                    &&& hs@[0].0@ == "Accept"@ && hs@[0].1@ == "text/event-stream"@
                    &&& hs@[1].0@ == "Last-Event-ID"@ && hs@[1].1@ == l@
                    &&& match self.session_id {
                        Some(s) => hs@.len() == 3 && hs@[2].0@ == "Mcp-Session-Id"@ && hs@[2].1@
                            == s@,
                        None => hs@.len() == 2,
                    }
                },
            },
    {
        let l = match &self.last_event_id {
            Some(l) => l,
            None => {
                return None;
            },
        };
        let mut hs: Vec<(String, String)> = Vec::new();
        hs.push((String::from_str("Accept"), String::from_str("text/event-stream")));
        hs.push((String::from_str("Last-Event-ID"), l.clone()));
        match &self.session_id {
            Some(s) => {
                hs.push((String::from_str("Mcp-Session-Id"), s.clone()));
            },
            None => {},
        }
        Some(hs)
    }

    /// Shuts the session down: reports whether a DELETE with the session
    /// header should be issued, and leaves the transport terminal.
    pub fn disconnect(&mut self) -> (r: Option<String>)
        requires
            old(self).wf(),
        ensures
            final(self).wf(),
            final(self).lifecycle == Lifecycle::Disconnected,
            !final(self).info.connected,
            final(self).session_id is None,
            final(self).sse_active == false,
            match old(self).session_id {
                Some(s) => r matches Some(rs) && rs@ == s@,
                None => r is None,
            },
    {
        let r = match &self.session_id {
            Some(s) => Some(s.clone()),
            None => None,
        };
        self.session_id = None;
        self.sse_active = false;
        self.lifecycle = Lifecycle::Disconnected;
        self.info.mark_disconnected();
        r
    }

    /// The configuration the transport was built from.
    pub fn get_config(&self) -> (r: &HttpSseConfig)
        ensures
            r == &self.config,
    {
        &self.config
    }

    /// The current session id, if the server has assigned one.
    pub fn session_id(&self) -> (r: Option<&String>)
        ensures
            match r {
                Some(s) => self.session_id == Some(*s),
                None => self.session_id is None,
            },
    {
        self.session_id.as_ref()
    }

    /// The last SSE event id seen, if any.
    pub fn last_event_id(&self) -> (r: Option<&String>)
        ensures
            match r {
                Some(s) => self.last_event_id == Some(*s),
                None => self.last_event_id is None,
            },
    {
        self.last_event_id.as_ref()
    }

    /// The transport's self-description, with the per-binding metadata the
    /// consumers read: the base URL, the session and event-id state, the
    /// resumability flag and the security posture.
    pub fn get_info(&self) -> (r: TransportInfo)
        requires
            self.wf(),
        ensures
            r.wf(),
            r.transport_type == self.info.transport_type,
            r.connected == self.info.connected,
            r.metadata_lookup("base_url"@) matches Some(v) && v matches JsonValue::Str(u) && u@
                == self.config.base_url.text@,
            r.metadata_lookup("session_id"@) == Some(match self.session_id {
                Some(s) => JsonValue::Str(s),
                None => JsonValue::Null,
            }),
            r.metadata_lookup("last_event_id"@) == Some(match self.last_event_id {
                Some(l) => JsonValue::Str(l),
                None => JsonValue::Null,
            }),
            r.metadata_lookup("can_resume"@) == Some(JsonValue::Bool(
                self.last_event_id is Some,
            )),
            r.metadata_lookup("has_sse_stream"@) == Some(JsonValue::Bool(self.sse_active)),
            r.metadata_lookup("security_enabled"@) == Some(JsonValue::Bool(
                self.security.validate_origin,
            )),
            r.metadata_lookup("has_auth"@) == Some(JsonValue::Bool(self.config.auth is Some)),
            r.metadata_lookup("enforce_https"@) == Some(JsonValue::Bool(
                self.security.require_https,
            )),
            r.metadata_lookup("localhost_only"@) == Some(JsonValue::Bool(
                self.security.enforce_localhost,
            )),
    {
        proof {
            reveal_strlit("base_url");
            reveal_strlit("session_id");
            reveal_strlit("last_event_id");
            reveal_strlit("can_resume");
            reveal_strlit("has_sse_stream");
            reveal_strlit("security_enabled");
            reveal_strlit("has_auth");
            reveal_strlit("enforce_https");
            reveal_strlit("localhost_only");
            assert("base_url"@.len() == 8 && "has_auth"@.len() == 8);
            assert("session_id"@.len() == 10 && "can_resume"@.len() == 10);
            assert("last_event_id"@.len() == 13 && "enforce_https"@.len() == 13);
            assert("has_sse_stream"@.len() == 14 && "localhost_only"@.len() == 14);
            assert("security_enabled"@.len() == 16);
            assert("base_url"@[0] == 'b' && "has_auth"@[0] == 'h');
            assert("session_id"@[0] == 's' && "can_resume"@[0] == 'c');
            assert("last_event_id"@[0] == 'l' && "enforce_https"@[0] == 'e');
            assert("has_sse_stream"@[0] == 'h' && "localhost_only"@[0] == 'l');
            assert("base_url"@ != "has_auth"@);
            assert("session_id"@ != "can_resume"@);
            assert("last_event_id"@ != "enforce_https"@);
            assert("has_sse_stream"@ != "localhost_only"@);
        }
        let mut r = TransportInfo {
            transport_type: self.info.transport_type.clone(),
            connected: self.info.connected,
            requests_sent: self.info.requests_sent,
            responses_received: self.info.responses_received,
            notifications_sent: self.info.notifications_sent,
            notifications_received: self.info.notifications_received,
            metadata: Vec::new(),
        };
        r.add_metadata("base_url", JsonValue::Str(self.config.base_url.text.clone()));
        r.add_metadata("session_id", match &self.session_id {
            Some(s) => JsonValue::Str(s.clone()),
            None => JsonValue::Null,
        });
        r.add_metadata("last_event_id", match &self.last_event_id {
            Some(l) => JsonValue::Str(l.clone()),
            None => JsonValue::Null,
        });
        r.add_metadata("can_resume", JsonValue::Bool(self.last_event_id.is_some()));
        r.add_metadata("has_sse_stream", JsonValue::Bool(self.sse_active));
        r.add_metadata("security_enabled", JsonValue::Bool(self.security.validate_origin));
        r.add_metadata("has_auth", JsonValue::Bool(self.config.auth.is_some()));
        r.add_metadata("enforce_https", JsonValue::Bool(self.security.require_https));
        r.add_metadata("localhost_only", JsonValue::Bool(self.security.enforce_localhost));
        r
    }
}

/// Joins a base URL and a suffix path.
fn join_url(base: &str, suffix: &str) -> (r: String)
    ensures
        r@ == base@ + suffix@,
{
    let mut r = String::from_str(base);
    r.append(suffix);
    r
}

/// The SSE endpoint of the legacy HTTP+SSE binding.
pub fn legacy_sse_endpoint(base: &str) -> (r: String)
    ensures
        r@ == base@ + "/sse"@,
{
    join_url(base, "/sse")
}

/// The message endpoint of the legacy HTTP+SSE binding.
pub fn legacy_message_endpoint(base: &str) -> (r: String)
    ensures
        r@ == base@ + "/message"@,
{
    join_url(base, "/message")
}

/// A bounded ring of the most recent stderr lines from a child process.
#[derive(Debug)]
pub struct StderrTail {
    items: std::collections::VecDeque<String>,
    cap: usize,
}

impl StderrTail {
    /// The retained lines, oldest first.
    pub closed spec fn lines(self) -> Seq<String> {
        self.items@
    }

    /// The bound on how many lines are retained.
    pub closed spec fn capacity(self) -> nat {
        self.cap as nat
    }

    /// Never more lines than the bound.
    pub open spec fn wf(self) -> bool {
        self.lines().len() <= self.capacity()
    }

    /// An empty tail bounded at `cap` lines.
    pub fn new(cap: usize) -> (r: StderrTail)
        requires
            cap > 0,
        ensures
            r.wf(),
            r.lines() =~= Seq::empty(),
            r.capacity() == cap as nat,
    {
        StderrTail { items: std::collections::VecDeque::new(), cap }
    }

    /// Appends a line; when the ring is full the oldest line is dropped, so
    /// the bound holds and the newest lines are kept.
    pub fn push(&mut self, line: String)
        requires
            old(self).wf(),
            old(self).capacity() > 0,
        ensures
            final(self).wf(),
            final(self).capacity() == old(self).capacity(),
            old(self).lines().len() < old(self).capacity() ==> final(self).lines() == old(
                self,
            ).lines().push(line),
            old(self).lines().len() == old(self).capacity() ==> final(self).lines() == old(
                self,
            ).lines().drop_first().push(line),
    {
        if self.items.len() == self.cap {
            let _ = self.items.pop_front();
        }
        self.items.push_back(line);
    }

    /// How many lines are retained.
    pub fn len(&self) -> (r: usize)
        ensures
            r == self.lines().len(),
    {
        self.items.len()
    }
}

/// The HTTP streaming binding's client-side state: messages POSTed to the
/// message endpoint, inbound frames read as one JSON document per line from
/// the stream endpoint, and responses correlated by id.
#[derive(Debug)]
pub struct HttpStreamTransport {
    pub base_url: String,
    pub auth_header: Option<String>,
    pub info: TransportInfo,
    pub lifecycle: Lifecycle,
    pub pending: crate::correlation::CorrelationTable,
    pub inbound: crate::correlation::MessageQueue,
}

impl HttpStreamTransport {
    /// The correlation table never holds two waiters for one id.
    pub open spec fn wf(self) -> bool {
        self.info.wf() && self.pending.wf()
    }

    /// A fresh transport for the given base URL: nothing connected, nothing
    /// outstanding.
    pub fn new(base_url: String, auth_header: Option<String>) -> (r: HttpStreamTransport)
        ensures
            r.wf(),
            r.base_url == base_url,
            r.auth_header == auth_header,
            r.lifecycle == Lifecycle::Created,
            !r.info.connected,
            r.info.transport_type@ == "http-stream"@,
            r.pending.entries_seq() =~= Seq::empty(),
            r.inbound.items_seq() =~= Seq::empty(),
    {
        HttpStreamTransport {
            base_url,
            auth_header,
            info: TransportInfo::new("http-stream"),
            lifecycle: Lifecycle::Created,
            pending: crate::correlation::CorrelationTable::new(),
            inbound: crate::correlation::MessageQueue::new(),
        }
    }

    /// Whether the transport is connected.
    pub fn is_connected(&self) -> (r: bool)
        ensures
            r == (self.lifecycle == Lifecycle::Connected),
    {
        matches!(self.lifecycle, Lifecycle::Connected)
    }

    /// Records a successful connect. Connecting twice, or connecting a
    /// transport that was already shut down, is an error and changes nothing.
    pub fn connect(&mut self) -> (r: Result<(), McpError>)
        requires
            old(self).wf(),
        ensures
            final(self).wf(),
            old(self).lifecycle == Lifecycle::Created ==> r is Ok && final(self).lifecycle
                == Lifecycle::Connected && final(self).info.connected,
            old(self).lifecycle != Lifecycle::Created ==> r is Err && *final(self) == *old(self),
    {
        match self.lifecycle {
            Lifecycle::Created => {
                self.lifecycle = Lifecycle::Connected;
                self.info.mark_connected();
                Ok(())
            },
            Lifecycle::Connected => Err(McpError::Transport(TransportError::ConnectionFailed {
                transport_type: String::from_str("http-stream"),
                reason: String::from_str("already connected"),
            })),
            Lifecycle::Disconnected => Err(McpError::Transport(TransportError::ConnectionFailed {
                transport_type: String::from_str("http-stream"),
                reason: String::from_str("a disconnected transport cannot be reused"),
            })),
        }
    }

    /// The URL the long-lived stream is read from.
    pub fn stream_url(&self) -> (r: String)
        ensures
            r@ == self.base_url@ + "/stream"@,
    {
        join_url(self.base_url.as_str(), "/stream")
    }

    /// The URL outbound messages are POSTed to.
    pub fn message_url(&self) -> (r: String)
        ensures
            r@ == self.base_url@ + "/message"@,
    {
        join_url(self.base_url.as_str(), "/message")
    }

    /// Shuts the transport down, resolving every outstanding waiter: the
    /// returned entries are exactly the requests that were outstanding, so
    /// each waiter can be failed with a disconnected error before this
    /// returns to the caller.
    pub fn disconnect(&mut self) -> (r: Vec<crate::correlation::PendingRequest>)
        requires
            old(self).wf(),
        ensures
            final(self).wf(),
            final(self).lifecycle == Lifecycle::Disconnected,
            !final(self).info.connected,
            final(self).pending.entries_seq() =~= Seq::empty(),
            r@ == old(self).pending.entries_seq(),
    {
        self.lifecycle = Lifecycle::Disconnected;
        self.info.mark_disconnected();
        self.pending.fail_all()
    }

    /// The transport's self-description: its base URL, whether credentials
    /// are attached, and how many requests are outstanding.
    pub fn get_info(&self) -> (r: TransportInfo)
        requires
            self.wf(),
            self.pending.entries_seq().len() <= i64::MAX,
        ensures
            r.wf(),
            r.transport_type == self.info.transport_type,
            r.connected == self.info.connected,
            r.metadata_lookup("base_url"@) matches Some(v) && v matches JsonValue::Str(u) && u@
                == self.base_url@,
            r.metadata_lookup("has_auth"@) == Some(JsonValue::Bool(self.auth_header is Some)),
            r.metadata_lookup("pending_requests"@) matches Some(v) && v matches JsonValue::Int(n)
                && n == self.pending.entries_seq().len(),
    {
        proof {
            reveal_strlit("base_url");
            reveal_strlit("has_auth");
            reveal_strlit("pending_requests");
            assert("base_url"@.len() == 8 && "has_auth"@.len() == 8
                && "pending_requests"@.len() == 16);
            assert("base_url"@[0] == 'b' && "has_auth"@[0] == 'h');
            assert("base_url"@ != "has_auth"@);
        }
        let mut r = TransportInfo {
            transport_type: self.info.transport_type.clone(),
            connected: self.info.connected,
            requests_sent: self.info.requests_sent,
            responses_received: self.info.responses_received,
            notifications_sent: self.info.notifications_sent,
            notifications_received: self.info.notifications_received,
            metadata: Vec::new(),
        };
        r.add_metadata("base_url", JsonValue::Str(self.base_url.clone()));
        r.add_metadata("has_auth", JsonValue::Bool(self.auth_header.is_some()));
        let pending_count = self.pending.len();
        r.add_metadata("pending_requests", JsonValue::Int(pending_count as i64));
        r
    }
}

/// The stdio binding's client-side state: a child process whose stdin takes
/// one JSON document per line and whose stdout yields the same framing, with
/// a bounded tail of its stderr kept for diagnostics.
#[derive(Debug)]
pub struct StdioTransport {
    pub config: crate::transport::StdioConfig,
    pub info: TransportInfo,
    pub lifecycle: Lifecycle,
    pub stderr_tail: StderrTail,
    pub pending: crate::correlation::CorrelationTable,
    pub inbound: crate::correlation::MessageQueue,
}

impl StdioTransport {
    /// The bookkeeping invariants of the binding.
    pub open spec fn wf(self) -> bool {
        self.info.wf() && self.pending.wf() && self.stderr_tail.wf()
            && self.stderr_tail.capacity() > 0
    }

    /// A fresh transport for the given child-process configuration.
    pub fn new(config: crate::transport::StdioConfig) -> (r: StdioTransport)
        ensures
            r.wf(),
            r.config == config,
            r.lifecycle == Lifecycle::Created,
            !r.info.connected,
            r.info.transport_type@ == "stdio"@,
            r.pending.entries_seq() =~= Seq::empty(),
            r.stderr_tail.lines() =~= Seq::empty(),
    {
        StdioTransport {
            config,
            info: TransportInfo::new("stdio"),
            lifecycle: Lifecycle::Created,
            stderr_tail: StderrTail::new(100),
            pending: crate::correlation::CorrelationTable::new(),
            inbound: crate::correlation::MessageQueue::new(),
        }
    }

    /// Frames one outbound document: the bytes followed by one newline.
    pub fn frame_outgoing(&self, body: Vec<u8>) -> (r: Vec<u8>)
        ensures
            r@ == body@ + seq![0x0au8],
    {
        let mut r = body;
        r.push(0x0a);
        r
    }

    /// Records a line captured from the child's stderr.
    pub fn note_stderr_line(&mut self, line: String)
        requires
            old(self).wf(),
        ensures
            final(self).wf(),
            final(self).stderr_tail.lines().len() <= final(self).stderr_tail.capacity(),
            final(self).config == old(self).config,
            final(self).lifecycle == old(self).lifecycle,
    {
        self.stderr_tail.push(line);
    }
}


/// The correlation key of a request id: the string itself, or the integer's
/// decimal text.
pub open spec fn id_key_spec(id: crate::messages::JsonRpcId) -> Seq<char> {
    match id {
        crate::messages::JsonRpcId::Str(s) => s@,
        crate::messages::JsonRpcId::Int(n) => int_key_chars(n as int),
    }
}

/// The decimal text of a signed integer.
pub open spec fn int_key_chars(n: int) -> Seq<char> {
    if n < 0 {
        "-"@ + crate::paths::dec_chars((-n) as nat)
    } else {
        crate::paths::dec_chars(n as nat)
    }
}

/// Renders a request id as its correlation key.
pub fn id_key(id: &crate::messages::JsonRpcId) -> (r: String)
    ensures
        r@ == id_key_spec(*id),
{
    match id {
        crate::messages::JsonRpcId::Str(s) => s.clone(),
        crate::messages::JsonRpcId::Int(n) => {
            if *n < 0 {
                let mag: u64 = if *n == i64::MIN {
                    9223372036854775808u64
                } else {
                    (-*n) as u64
                };
                proof {
                    assert(mag as nat == (-(*n as int)) as nat);
                }
                let mut s = String::from_str("-");
                let digits = crate::paths::u64_to_string(mag);
                s.append(digits.as_str());
                s
            } else {
                crate::paths::u64_to_string(*n as u64)
            }
        },
    }
}

impl HttpStreamTransport {
    /// Routes one inbound envelope. A response completes its waiter: the
    /// outstanding entry is handed back with the response, and no other
    /// waiter is touched. A response whose id matches no outstanding waiter
    /// is dropped, changing nothing. Notifications and server-initiated
    /// requests join the inbound queue in arrival order.
    pub fn route_inbound(&mut self, m: crate::messages::JsonRpcMessage) -> (r: Option<
        (crate::correlation::PendingRequest, crate::messages::JsonRpcResponse),
    >)
        requires
            old(self).wf(),
        ensures
            final(self).wf(),
            final(self).lifecycle == old(self).lifecycle,
            match m {
                crate::messages::JsonRpcMessage::Response(p) => {
                    &&& final(self).inbound.items_seq() == old(self).inbound.items_seq()
                    &&& if old(self).pending.contains_id(id_key_spec(p.id)) {
                        r matches Some(pair) && pair.0.id@ == id_key_spec(p.id) && pair.1 == p
                            && !final(self).pending.contains_id(id_key_spec(p.id))
                    } else {
                        r is None && final(self).pending.entries_seq() == old(
                            self,
                        ).pending.entries_seq()
                    }
                },
                _ => r is None && final(self).inbound.items_seq() == old(
                    self,
                ).inbound.items_seq().push(m) && final(self).pending.entries_seq() == old(
                    self,
                ).pending.entries_seq(),
            },
    {
        match m {
            crate::messages::JsonRpcMessage::Response(p) => {
                let key = id_key(&p.id);
                match self.pending.remove(key.as_str()) {
                    Some(entry) => Some((entry, p)),
                    None => None,
                }
            },
            other => {
                self.inbound.push(other);
                None
            },
        }
    }
}

} // verus!
