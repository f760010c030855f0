//! Transport configuration, per-transport bookkeeping, and wire framing
//! shared by the bindings: base-URL parsing, newline-delimited framing for
//! the stdio and streaming bindings, and the info record every transport
//! exposes.

use vstd::prelude::*;

verus! {

use crate::json::{JsonValue, obj_lookup};
use crate::correlation::str_eq;
use crate::errors::{McpError, TransportError};

/// The scheme, host, path and normalized text of an absolute URL, if the
/// characters form one. The outcome is a function of the characters alone.
pub uninterp spec fn url_parts(s: Seq<char>) -> Option<(Seq<char>, Seq<char>, Seq<char>, Seq<char>)>;

/// Relies on url::Url::parse (with Url::scheme, Url::host_str, Url::path and
/// Url::to_string converting the parsed value to plain strings): whether a
/// string is an absolute URL, and its scheme, host, path and normalized text,
/// depend on the string alone.
#[verifier::external_body]
fn parse_url_parts(s: &str) -> (r: Option<(String, String, String, String)>)
    ensures
        match r {
            Some(p) => url_parts(s@) == Some((p.0@, p.1@, p.2@, p.3@)),
            None => url_parts(s@) is None,
        },
{
    match url::Url::parse(s) {
        Ok(u) => Some((
            u.scheme().to_string(),
            u.host_str().unwrap_or("").to_string(),
            u.path().to_string(),
            u.to_string(),
        )),
        Err(_) => None,
    }
}

/// A parsed base URL: the scheme, host and path that the security policy and
/// endpoint derivation read, plus the normalized text sent on the wire.
#[derive(Debug)]
pub struct BaseUrl {
    pub scheme: String,
    pub host: String,
    pub path: String,
    pub text: String,
}

impl BaseUrl {
    /// The parts were produced together by the URL parser from one string.
    pub open spec fn wf(self) -> bool {
        exists|orig: Seq<char>|
            #[trigger] url_parts(orig) == Some((self.scheme@, self.host@, self.path@, self.text@))
    }

    /// Parses an absolute URL; fails exactly on strings the URL grammar
    /// rejects.
    pub fn parse(s: &str) -> (r: Result<BaseUrl, McpError>)
        ensures
            match r {
                Ok(b) => b.wf() && url_parts(s@) == Some((b.scheme@, b.host@, b.path@, b.text@)),
                Err(_) => url_parts(s@) is None,
            },
    {
        match parse_url_parts(s) {
            Some(p) => {
                let (scheme, host, path, text) = p;
                Ok(BaseUrl { scheme, host, path, text })
            },
            None => Err(McpError::Transport(TransportError::InvalidConfig {
                transport_type: String::from_str("streamable-http"),
                reason: String::from_str("not an absolute URL"),
            })),
        }
    }

    /// A deep copy.
    pub fn clone_url(&self) -> (r: BaseUrl)
        ensures
            r == *self,
    {
        BaseUrl {
            scheme: self.scheme.clone(),
            host: self.host.clone(),
            path: self.path.clone(),
            text: self.text.clone(),
        }
    }
}

/// The hosts that count as local: plain HTTP is tolerated only for them.
pub open spec fn is_local_host(h: Seq<char>) -> bool {
    h == "localhost"@ || h == "127.0.0.1"@ || h == "::1"@ || h == "[::1]"@
}

/// Whether a base URL passes the security policy: a non-local host demands
/// the `https` scheme.
pub open spec fn passes_https_policy(scheme: Seq<char>, host: Seq<char>) -> bool {
    is_local_host(host) || scheme == "https"@
}

/// Enforces the security policy at construction: a plain-HTTP URL to a
/// non-local host is refused, HTTPS and local hosts pass.
pub fn check_https_policy(url: &BaseUrl) -> (r: Result<(), McpError>)
    ensures
        r is Ok <==> passes_https_policy(url.scheme@, url.host@),
{
    if str_eq(url.host.as_str(), "localhost") || str_eq(url.host.as_str(), "127.0.0.1") || str_eq(
        url.host.as_str(),
        "::1",
    ) || str_eq(url.host.as_str(), "[::1]") {
        return Ok(());
    }
    if str_eq(url.scheme.as_str(), "https") {
        return Ok(());
    }
    Err(McpError::Transport(TransportError::InvalidConfig {
        transport_type: String::from_str("streamable-http"),
        reason: String::from_str("HTTPS required for non-localhost URL"),
    }))
}

/// Bearer-token authentication for the HTTP bindings.
#[derive(Debug)]
pub enum AuthConfig {
    Bearer(String),
}

impl AuthConfig {
    /// Bearer authentication with the given token.
    pub fn bearer(token: String) -> (r: AuthConfig)
        ensures
            r == AuthConfig::Bearer(token),
    {
        AuthConfig::Bearer(token)
    }
}

/// Configuration of the stdio binding: the child process to run.
#[derive(Debug)]
pub struct StdioConfig {
    pub command: String,
    pub args: Vec<String>,
    pub environment: Vec<(String, String)>,
    pub working_dir: Option<String>,
    pub timeout_ms: u64,
}

/// Configuration of the Streamable HTTP binding.
#[derive(Debug)]
pub struct HttpSseConfig {
    pub base_url: BaseUrl,
    pub timeout_ms: u64,
    pub headers: Vec<(String, String)>,
    pub auth: Option<AuthConfig>,
}

/// Configuration of the HTTP streaming (newline-delimited) binding.
#[derive(Debug)]
pub struct HttpStreamConfig {
    pub base_url: BaseUrl,
    pub timeout_ms: u64,
    pub headers: Vec<(String, String)>,
    pub auth: Option<AuthConfig>,
}

/// Which binding to use, with its settings.
#[derive(Debug)]
pub enum TransportConfig {
    Stdio(StdioConfig),
    HttpSse(HttpSseConfig),
    HttpStream(HttpStreamConfig),
}

impl TransportConfig {
    /// A stdio configuration for the given command line.
    pub fn stdio(command: &str, args: Vec<String>) -> (r: TransportConfig)
        ensures
            r matches TransportConfig::Stdio(c) && c.command@ == command@ && c.args == args
                && c.timeout_ms == 30000,
    {
        TransportConfig::Stdio(StdioConfig {
            command: String::from_str(command),
            args,
            environment: Vec::new(),
            working_dir: None,
            timeout_ms: 30000,
        })
    }

    /// A Streamable HTTP configuration; fails exactly when the URL does not
    /// parse.
    pub fn http_sse(url: &str) -> (r: Result<TransportConfig, McpError>)
        ensures
            match r {
                Ok(c) => c matches TransportConfig::HttpSse(h) && h.base_url.wf() && url_parts(
                    url@,
                ) == Some((
                    h.base_url.scheme@,
                    h.base_url.host@,
                    h.base_url.path@,
                    h.base_url.text@,
                )) && h.timeout_ms == 30000,
                Err(_) => url_parts(url@) is None,
            },
    {
        let base_url = BaseUrl::parse(url)?;
        Ok(TransportConfig::HttpSse(HttpSseConfig {
            base_url,
            timeout_ms: 30000,
            headers: Vec::new(),
            auth: None,
        }))
    }

    /// An HTTP streaming configuration; fails exactly when the URL does not
    /// parse.
    pub fn http_stream(url: &str) -> (r: Result<TransportConfig, McpError>)
        ensures
            match r {
                Ok(c) => c matches TransportConfig::HttpStream(h) && h.base_url.wf() && url_parts(
                    url@,
                ) == Some((
                    h.base_url.scheme@,
                    h.base_url.host@,
                    h.base_url.path@,
                    h.base_url.text@,
                )) && h.timeout_ms == 300000,
                Err(_) => url_parts(url@) is None,
            },
    {
        let base_url = BaseUrl::parse(url)?;
        Ok(TransportConfig::HttpStream(HttpStreamConfig {
            base_url,
            timeout_ms: 300000,
            headers: Vec::new(),
            auth: None,
        }))
    }

    /// The tag naming this binding.
    pub fn transport_type(&self) -> (r: &'static str)
        ensures
            match self {
                TransportConfig::Stdio(_) => r@ == "stdio"@,
                TransportConfig::HttpSse(_) => r@ == "streamable-http"@,
                TransportConfig::HttpStream(_) => r@ == "http-stream"@,
            },
    {
        match self {
            TransportConfig::Stdio(_) => "stdio",
            TransportConfig::HttpSse(_) => "streamable-http",
            TransportConfig::HttpStream(_) => "http-stream",
        }
    }
}

/// Where a transport stands in its life: once disconnected it cannot be
/// reused.
#[derive(Debug, Clone, Copy, PartialEq, Eq, Structural)]
pub enum Lifecycle {
    Created,
    Connected,
    Disconnected,
}

/// Keys are pairwise distinct.
pub open spec fn keys_distinct(s: Seq<(String, JsonValue)>) -> bool {
    forall|i: int, j: int| 0 <= i < j < s.len() ==> s[i].0@ != s[j].0@
}

/// Some member carries this key.
pub open spec fn has_key(s: Seq<(String, JsonValue)>, k: Seq<char>) -> bool {
    exists|i: int| 0 <= i < s.len() && s[i].0@ == k
}

/// Under distinct keys, `obj_lookup` finds each member's value, and misses
/// exactly the keys no member carries.
pub proof fn lemma_obj_lookup_distinct(s: Seq<(String, JsonValue)>)
    requires
        keys_distinct(s),
    ensures
        forall|i: int| 0 <= i < s.len() ==> obj_lookup(s, #[trigger] s[i].0@) == Some(s[i].1),
        forall|k: Seq<char>| !has_key(s, k) ==> #[trigger] obj_lookup(s, k) is None,
    decreases s.len(),
{
    crate::messages::lemma_obj_lookup_unfold(s);
    if s.len() > 0 {
        let rest = s.drop_first();
        assert(keys_distinct(rest)) by {
            assert forall|i: int, j: int| 0 <= i < j < rest.len() implies rest[i].0@
                != rest[j].0@ by {
                assert(rest[i] == s[i + 1]);
                assert(rest[j] == s[j + 1]);
            }
        }
        lemma_obj_lookup_distinct(rest);
        assert forall|i: int| 0 <= i < s.len() implies obj_lookup(s, #[trigger] s[i].0@) == Some(
            s[i].1,
        ) by {
            if i > 0 {
                assert(rest[i - 1] == s[i]);
                assert(s[0].0@ != s[i].0@);
            }
        }
        assert forall|k: Seq<char>| !has_key(s, k) implies #[trigger] obj_lookup(s, k) is None by {
            assert(s[0].0@ != k);
            assert(!has_key(rest, k)) by {
                if has_key(rest, k) {
                    let i = choose|i: int| 0 <= i < rest.len() && rest[i].0@ == k;
                    assert(s[i + 1].0@ == k);
                }
            }
        }
    }
}

/// What a transport reports about itself: its tag, lifecycle, counters and
/// per-binding metadata.
#[derive(Debug)]
pub struct TransportInfo {
    pub transport_type: String,
    pub connected: bool,
    pub requests_sent: u64,
    pub responses_received: u64,
    pub notifications_sent: u64,
    pub notifications_received: u64,
    pub metadata: Vec<(String, JsonValue)>,
}

impl TransportInfo {
    /// The metadata members, with pairwise distinct keys.
    pub open spec fn metadata_seq(self) -> Seq<(String, JsonValue)> {
        self.metadata@
    }

    /// The metadata keys never repeat.
    pub open spec fn wf(self) -> bool {
        keys_distinct(self.metadata@)
    }

    /// What the metadata binds this key to.
    pub open spec fn metadata_lookup(self, k: Seq<char>) -> Option<JsonValue> {
        obj_lookup(self.metadata_seq(), k)
    }

    /// A fresh record for the given transport tag: not connected, all
    /// counters zero, no metadata.
    pub fn new(transport_type: &str) -> (r: TransportInfo)
        ensures
            r.wf(),
            r.transport_type@ == transport_type@,
            !r.connected,
            r.requests_sent == 0 && r.responses_received == 0,
            r.notifications_sent == 0 && r.notifications_received == 0,
            forall|k: Seq<char>| #[trigger] r.metadata_lookup(k) is None,
    {
        let r = TransportInfo {
            transport_type: String::from_str(transport_type),
            connected: false,
            requests_sent: 0,
            responses_received: 0,
            notifications_sent: 0,
            notifications_received: 0,
            metadata: Vec::new(),
        };
        proof {
            crate::messages::lemma_obj_lookup_unfold(r.metadata@);
        }
        r
    }

    /// Marks the transport connected.
    pub fn mark_connected(&mut self)
        ensures
            *final(self) == (TransportInfo { connected: true, ..*old(self) }),
    {
        self.connected = true;
    }

    /// Marks the transport disconnected.
    pub fn mark_disconnected(&mut self)
        ensures
            *final(self) == (TransportInfo { connected: false, ..*old(self) }),
    {
        self.connected = false;
    }

    /// Counts one request handed to the wire; the counter saturates.
    pub fn increment_requests_sent(&mut self)
        ensures
            *final(self) == (TransportInfo {
                requests_sent: if old(self).requests_sent == u64::MAX {
                    u64::MAX
                } else {
                    (old(self).requests_sent + 1) as u64
                },
                ..*old(self)
            }),
    {
        self.requests_sent = saturating_inc(self.requests_sent);
    }

    /// Counts one response received; the counter saturates.
    pub fn increment_responses_received(&mut self)
        ensures
            *final(self) == (TransportInfo {
                responses_received: if old(self).responses_received == u64::MAX {
                    u64::MAX
                } else {
                    (old(self).responses_received + 1) as u64
                },
                ..*old(self)
            }),
    {
        self.responses_received = saturating_inc(self.responses_received);
    }

    /// Counts one notification sent; the counter saturates.
    pub fn increment_notifications_sent(&mut self)
        ensures
            *final(self) == (TransportInfo {
                notifications_sent: if old(self).notifications_sent == u64::MAX {
                    u64::MAX
                } else {
                    (old(self).notifications_sent + 1) as u64
                },
                ..*old(self)
            }),
    {
        self.notifications_sent = saturating_inc(self.notifications_sent);
    }

    /// Counts one notification received; the counter saturates.
    pub fn increment_notifications_received(&mut self)
        ensures
            *final(self) == (TransportInfo {
                notifications_received: if old(self).notifications_received == u64::MAX {
                    u64::MAX
                } else {
                    (old(self).notifications_received + 1) as u64
                },
                ..*old(self)
            }),
    {
        self.notifications_received = saturating_inc(self.notifications_received);
    }

    /// Binds `key` to `value` in the metadata, replacing any earlier binding;
    /// every other key keeps its value.
    pub fn add_metadata(&mut self, key: &str, value: JsonValue)
        requires
            old(self).wf(),
        ensures
            final(self).wf(),
            final(self).metadata_lookup(key@) == Some(value),
            forall|k: Seq<char>|
                k != key@ ==> #[trigger] final(self).metadata_lookup(k) == old(
                    self,
                ).metadata_lookup(k),
            final(self).transport_type == old(self).transport_type,
            final(self).connected == old(self).connected,
            final(self).requests_sent == old(self).requests_sent,
            final(self).responses_received == old(self).responses_received,
            final(self).notifications_sent == old(self).notifications_sent,
            final(self).notifications_received == old(self).notifications_received,
    {
        let ghost s_old = self.metadata@;
        let mut i: usize = 0;
        let mut found: bool = false;
        while i < self.metadata.len() && !found
            invariant
                i <= self.metadata@.len(),
                *self == *old(self),
                old(self).wf(),
                !found ==> forall|j: int| 0 <= j < i as int ==> self.metadata@[j].0@ != key@,
                found ==> i < self.metadata@.len() && self.metadata@[i as int].0@ == key@,
            decreases self.metadata@.len() - i + (if found { 0int } else { 1int }),
        {
            if str_eq(self.metadata[i].0.as_str(), key) {
                found = true;
            } else {
                i = i + 1;
            }
        }
        if found {
            let _ = self.metadata.remove(i);
            proof {
                s_old.remove_ensures(i as int);
                assert(self.metadata@ =~= s_old.remove(i as int));
            }
        }
        let ghost s_mid = self.metadata@;
        proof {
            if found {
                assert forall|a: int, b: int| 0 <= a < b < s_mid.len() implies s_mid[a].0@
                    != s_mid[b].0@ by {
                    let sa: int = if a < i as int { a } else { a + 1 };
                    let sb: int = if b < i as int { b } else { b + 1 };
                    assert(s_mid[a] == s_old[sa]);
                    assert(s_mid[b] == s_old[sb]);
                }
                assert forall|k: int| 0 <= k < s_mid.len() implies s_mid[k].0@ != key@ by {
                    if k < i as int {
                        assert(s_mid[k] == s_old[k]);
                    } else {
                        assert(s_mid[k] == s_old[k + 1]);
                    }
                }
            } else {
                assert(i as int == s_mid.len());
            }
            assert(keys_distinct(s_mid));
            assert(forall|k: int| 0 <= k < s_mid.len() ==> s_mid[k].0@ != key@);
        }
        self.metadata.push((String::from_str(key), value));
        proof {
            let s_new = self.metadata@;
            assert(s_new =~= s_mid.push((s_new.last().0, value)));
            assert(keys_distinct(s_new)) by {
                assert forall|a: int, b: int| 0 <= a < b < s_new.len() implies s_new[a].0@
                    != s_new[b].0@ by {
                    if b < s_new.len() - 1 {
                        assert(s_new[a] == s_mid[a]);
                        assert(s_new[b] == s_mid[b]);
                    } else {
                        assert(s_new[a] == s_mid[a]);
                        assert(s_new[b].0@ == key@);
                    }
                }
            }
            lemma_obj_lookup_distinct(s_new);
            lemma_obj_lookup_distinct(s_old);
            assert(s_new[s_new.len() - 1].0@ == key@ && s_new[s_new.len() - 1].1 == value);
            assert(obj_lookup(s_new, key@) == Some(value));
            assert forall|k: Seq<char>| k != key@ implies #[trigger] obj_lookup(s_new, k)
                == obj_lookup(s_old, k) by {
                if has_key(s_old, k) {
                    let j = choose|j: int| 0 <= j < s_old.len() && s_old[j].0@ == k;
                    assert(obj_lookup(s_old, k) == Some(s_old[j].1));
                    let nj: int = if found {
                        if j < i as int {
                            j
                        } else {
                            j - 1
                        }
                    } else {
                        j
                    };
                    assert(s_new[nj] == s_old[j]);
                    assert(obj_lookup(s_new, k) == Some(s_new[nj].1));
                } else {
                    assert(!has_key(s_new, k)) by {
                        if has_key(s_new, k) {
                            let j = choose|j: int| 0 <= j < s_new.len() && s_new[j].0@ == k;
                            assert(j < s_new.len() - 1);
                            let oj: int = if found && j >= i as int {
                                j + 1
                            } else {
                                j
                            };
                            assert(s_mid[j] == s_old[oj]);
                        }
                    }
                }
            }
        }
    }

    /// Whether the metadata carries this key.
    pub fn metadata_contains_key(&self, key: &str) -> (r: bool)
        ensures
            r == has_key(self.metadata_seq(), key@),
    {
        let mut i: usize = 0;
        while i < self.metadata.len()
            invariant
                i <= self.metadata@.len(),
                forall|j: int| 0 <= j < i as int ==> self.metadata@[j].0@ != key@,
            decreases self.metadata@.len() - i,
        {
            if str_eq(self.metadata[i].0.as_str(), key) {
                return true;
            }
            i = i + 1;
        }
        false
    }

    /// The value bound to this key, if any.
    pub fn metadata_get<'a>(&'a self, key: &str) -> (r: Option<&'a JsonValue>)
        ensures
            match r {
                Some(v) => self.metadata_lookup(key@) == Some(*v),
                None => self.metadata_lookup(key@) is None,
            },
    {
        crate::json::obj_get(&self.metadata, key)
    }
}

/// `n + 1`, stuck at the top of the range.
pub fn saturating_inc(n: u64) -> (r: u64)
    ensures
        r == if n == u64::MAX {
            u64::MAX
        } else {
            (n + 1) as u64
        },
{
    if n == u64::MAX {
        u64::MAX
    } else {
        n + 1
    }
}

/// A buffer over a byte stream that recovers newline-delimited frames, as the
/// stdio and HTTP streaming bindings require: one JSON document per line.
#[derive(Debug)]
pub struct LineBuffer {
    buf: Vec<u8>,
}

impl LineBuffer {
    /// The bytes received and not yet framed.
    pub closed spec fn bytes(self) -> Seq<u8> {
        self.buf@
    }

    /// An empty buffer.
    pub fn new() -> (r: LineBuffer)
        ensures
            r.bytes() =~= Seq::empty(),
    {
        LineBuffer { buf: Vec::new() }
    }

    /// Appends a chunk read from the stream.
    pub fn push_chunk(&mut self, chunk: &[u8])
        ensures
            final(self).bytes() == old(self).bytes() + chunk@,
    {
        let mut i: usize = 0;
        while i < chunk.len()
            invariant
                i <= chunk@.len(),
                self.buf@ == old(self).buf@ + chunk@.subrange(0, i as int),
            decreases chunk@.len() - i,
        {
            self.buf.push(chunk[i]);
            proof {
                assert(chunk@.subrange(0, i + 1int) =~= chunk@.subrange(0, i as int)
                    + seq![chunk@[i as int]]);
            }
            i = i + 1;
        }
        proof {
            assert(chunk@.subrange(0, chunk@.len() as int) =~= chunk@);
        }
    }

    /// Takes the next complete line, if one has arrived: the returned bytes,
    /// the newline after them, and what stays buffered make up exactly what
    /// was buffered, and the returned bytes hold no newline. A frame is never
    /// surfaced before its newline has arrived.
    pub fn pop_line(&mut self) -> (r: Option<Vec<u8>>)
        ensures
            match r {
                None => final(self).bytes() == old(self).bytes() && forall|i: int|
                    0 <= i < old(self).bytes().len() ==> old(self).bytes()[i] != 0x0a,
                Some(line) => {
                    &&& old(self).bytes() == line@ + seq![0x0au8] + final(self).bytes()
                    &&& forall|i: int| 0 <= i < line@.len() ==> line@[i] != 0x0a
                },
            },
    {
        let mut i: usize = 0;
        while i < self.buf.len()
            invariant
                i <= self.buf@.len(),
                *self == *old(self),
                forall|j: int| 0 <= j < i as int ==> self.buf@[j] != 0x0a,
            decreases self.buf@.len() - i,
        {
            if self.buf[i] == 0x0a {
                let ghost whole = self.buf@;
                let mut rest = self.buf.split_off(i + 1);
                core::mem::swap(&mut self.buf, &mut rest);
                let _ = rest.pop();
                proof {
                    assert(rest@ =~= whole.subrange(0, i as int));
                    assert(whole =~= rest@ + seq![0x0au8] + self.buf@);
                }
                return Some(rest);
            }
            i = i + 1;
        }
        None
    }
}

} // verus!
