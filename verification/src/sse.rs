//! The Server-Sent Events field parser: a small state machine over lines.
//!
//! Lines are handed in one at a time (the newline framing lives in
//! `LineBuffer`); an event is dispatched only on a blank line, never from a
//! partial buffer. The `id` buffer persists across events, which is what
//! makes resuming with the last seen event id possible.

use vstd::prelude::*;

verus! {

use crate::json::lossy_utf8;
use crate::json::bytes_to_string;

/// One dispatched event: its id (empty when the stream has not set one), its
/// type (`message` when unnamed), its data with inner newlines restored, and
/// the reconnection delay the server last asked for.
#[derive(Debug, PartialEq)]
pub struct SseEvent {
    pub id: String,
    pub event: String,
    pub data: String,
    pub retry: Option<u64>,
}

/// The field name of an SSE line: the bytes before the first colon.
pub open spec fn field_name(s: Seq<u8>) -> Seq<u8>
    decreases s.len(),
{
    if s.len() == 0 {
        Seq::empty()
    } else if s[0] == 0x3a {
        Seq::empty()
    } else {
        seq![s[0]] + field_name(s.drop_first())
    }
}

/// The raw value of an SSE line: the bytes after the first colon, or nothing
/// when the line has no colon.
pub open spec fn raw_value(s: Seq<u8>) -> Seq<u8>
    decreases s.len(),
{
    if s.len() == 0 {
        Seq::empty()
    } else if s[0] == 0x3a {
        s.drop_first()
    } else {
        raw_value(s.drop_first())
    }
}

/// The bytes of an ASCII string, one per character.
pub open spec fn ascii_bytes(s: Seq<char>) -> Seq<u8> {
    s.map_values(|c: char| c as u8)
}

/// The field value: the raw value with one leading space removed.
pub open spec fn field_value(s: Seq<u8>) -> Seq<u8> {
    let raw = raw_value(s);
    if raw.len() > 0 && raw[0] == 0x20 {
        raw.drop_first()
    } else {
        raw
    }
}

/// The numeric value of a run of decimal digits.
pub open spec fn dec_value(s: Seq<u8>) -> nat
    decreases s.len(),
{
    if s.len() == 0 {
        0
    } else {
        dec_value(s.drop_last()) * 10 + (s.last() - 0x30) as nat
    }
}

/// Whether every byte is a decimal digit.
pub open spec fn all_digits(s: Seq<u8>) -> bool {
    forall|i: int| 0 <= i < s.len() ==> 0x30 <= #[trigger] s[i] <= 0x39
}

/// The accumulating state of the SSE parser. The `id` buffer persists across
/// dispatched events; the data and event-type buffers are cleared by each
/// blank line.
#[derive(Debug)]
pub struct SseParser {
    pub id_buf: Vec<u8>,
    pub event_buf: Vec<u8>,
    pub data_buf: Vec<u8>,
    pub has_data: bool,
    pub retry: Option<u64>,
}

/// What one line does to the parser state, and the event it dispatches, if
/// any. Only a blank line after at least one `data` line dispatches.
pub open spec fn line_step(p: SseParser, line: Seq<u8>, q: SseParser, r: Option<SseEvent>) -> bool {
    if line.len() == 0 {
        &&& q.id_buf == p.id_buf
        &&& q.retry == p.retry
        &&& q.event_buf@ == Seq::<u8>::empty()
        &&& q.data_buf@ == Seq::<u8>::empty()
        &&& !q.has_data
        &&& if p.has_data {
            r matches Some(ev) && ev.id@ == lossy_utf8(p.id_buf@) && ev.event@ == (if p.event_buf@.len() == 0 {
                "message"@
            } else {
                lossy_utf8(p.event_buf@)
            }) && ev.data@ == lossy_utf8(p.data_buf@) && ev.retry == p.retry
        } else {
            r is None
        }
    } else {
        let name = field_name(line);
        let value = field_value(line);
        &&& r is None
        &&& if name == ascii_bytes("id"@) {
            q == (SseParser { id_buf: q.id_buf, ..p }) && q.id_buf@ == value
        } else if name == ascii_bytes("event"@) {
            q == (SseParser { event_buf: q.event_buf, ..p }) && q.event_buf@ == value
        } else if name == ascii_bytes("data"@) {
            q == (SseParser { data_buf: q.data_buf, has_data: true, ..p }) && q.data_buf@ == (if p.has_data {
                p.data_buf@ + seq![0x0au8] + value
            } else {
                value
            })
        } else if name == ascii_bytes("retry"@) {
            q == (SseParser { retry: q.retry, ..p }) && q.retry == (if value.len() > 0
                && all_digits(value) && dec_value(value) <= u64::MAX {
                Some(dec_value(value) as u64)
            } else {
                p.retry
            })
        } else {
            q == p
        }
    }
}

impl SseParser {
    /// A fresh parser: nothing buffered, no id seen, no retry hint.
    pub fn new() -> (r: SseParser)
        ensures
            r.id_buf@ =~= Seq::<u8>::empty(),
            r.event_buf@ =~= Seq::<u8>::empty(),
            r.data_buf@ =~= Seq::<u8>::empty(),
            !r.has_data,
            r.retry is None,
    {
        SseParser {
            id_buf: Vec::new(),
            event_buf: Vec::new(),
            data_buf: Vec::new(),
            has_data: false,
            retry: None,
        }
    }

    /// Consumes one line (without its newline) and dispatches an event
    /// exactly when the line is blank and data had accumulated.
    pub fn process_line(&mut self, line: &[u8]) -> (r: Option<SseEvent>)
        ensures
            line_step(*old(self), line@, *final(self), r),
    {
        if line.len() == 0 {
            let r = if self.has_data {
                Some(SseEvent {
                    id: bytes_to_string(self.id_buf.as_slice()),
                    event: if self.event_buf.len() == 0 {
                        String::from_str("message")
                    } else {
                        bytes_to_string(self.event_buf.as_slice())
                    },
                    data: bytes_to_string(self.data_buf.as_slice()),
                    retry: self.retry,
                })
            } else {
                None
            };
            self.event_buf = Vec::new();
            self.data_buf = Vec::new();
            self.has_data = false;
            return r;
        }
        proof {
            reveal_strlit("id");
            reveal_strlit("event");
            reveal_strlit("data");
            reveal_strlit("retry");
            assert(vstd::utf8::is_ascii_chars("id"@));
            assert(vstd::utf8::is_ascii_chars("event"@));
            assert(vstd::utf8::is_ascii_chars("data"@));
            assert(vstd::utf8::is_ascii_chars("retry"@));
        }
        let (name, value) = split_line(line);
        if bytes_eq(name.as_slice(), "id") {
            self.id_buf = value;
        } else if bytes_eq(name.as_slice(), "event") {
            self.event_buf = value;
        } else if bytes_eq(name.as_slice(), "data") {
            if self.has_data {
                self.data_buf.push(0x0a);
                let mut i: usize = 0;
                let ghost mid = self.data_buf@;
                while i < value.len()
                    invariant
                        i <= value@.len(),
                        self.data_buf@ == mid + value@.subrange(0, i as int),
                        self.id_buf == old(self).id_buf,
                        self.event_buf == old(self).event_buf,
                        self.has_data == old(self).has_data,
                        self.retry == old(self).retry,
                    decreases value@.len() - i,
                {
                    self.data_buf.push(value[i]);
                    proof {
                        assert(value@.subrange(0, i + 1int) =~= value@.subrange(0, i as int)
                            + seq![value@[i as int]]);
                    }
                    i = i + 1;
                }
                proof {
                    assert(value@.subrange(0, value@.len() as int) =~= value@);
                    assert(self.data_buf@ =~= old(self).data_buf@ + seq![0x0au8] + value@);
                }
            } else {
                self.data_buf = value;
                self.has_data = true;
            }
        } else if bytes_eq(name.as_slice(), "retry") {
            match parse_decimal(value.as_slice()) {
                Some(ms) => {
                    self.retry = Some(ms);
                },
                None => {},
            }
        }
        None
    }
}

/// Splits an SSE line into its field name and value.
fn split_line(line: &[u8]) -> (r: (Vec<u8>, Vec<u8>))
    ensures
        r.0@ == field_name(line@),
        r.1@ == field_value(line@),
{
    let mut j: usize = 0;
    while j < line.len() && line[j] != 0x3a
        invariant
            j <= line@.len(),
            forall|k: int| 0 <= k < j as int ==> line@[k] != 0x3a,
        decreases line@.len() - j,
    {
        j = j + 1;
    }
    proof {
        lemma_field_split(line@, j as int);
    }
    let mut name: Vec<u8> = Vec::new();
    let mut i: usize = 0;
    while i < j
        invariant
            i <= j <= line@.len(),
            name@ == line@.subrange(0, i as int),
        decreases j - i,
    {
        name.push(line[i]);
        proof {
            assert(line@.subrange(0, i + 1int) =~= line@.subrange(0, i as int)
                + seq![line@[i as int]]);
        }
        i = i + 1;
    }
    let mut value: Vec<u8> = Vec::new();
    if j < line.len() {
        let mut k: usize = j + 1;
        if k < line.len() && line[k] == 0x20 {
            k = k + 1;
        }
        let ghost start = k as int;
        proof {
            assert(value@ =~= line@.subrange(start, start));
        }
        while k < line.len()
            invariant
                0 <= start <= k as int <= line@.len(),
                value@ == line@.subrange(start, k as int),
            decreases line@.len() - k,
        {
            value.push(line[k]);
            proof {
                assert(line@.subrange(start, k + 1int) =~= line@.subrange(start, k as int)
                    + seq![line@[k as int]]);
            }
            k = k + 1;
        }
        proof {
            let raw = line@.subrange(j as int + 1, line@.len() as int);
            if raw.len() > 0 && raw[0] == 0x20 {
                assert(value@ =~= raw.drop_first());
            } else {
                assert(value@ =~= raw);
            }
        }
    } else {
        proof {
            assert(field_value(line@) =~= Seq::<u8>::empty());
        }
    }
    (name, value)
}

/// Where the first colon sits (at `j`, or absent with `j` the length), the
/// field name is the prefix and the raw value the suffix.
proof fn lemma_field_split(s: Seq<u8>, j: int)
    requires
        0 <= j <= s.len(),
        forall|k: int| 0 <= k < j ==> s[k] != 0x3a,
        j < s.len() ==> s[j] == 0x3a,
    ensures
        field_name(s) == s.subrange(0, j),
        raw_value(s) == (if j < s.len() {
            s.subrange(j + 1, s.len() as int)
        } else {
            Seq::<u8>::empty()
        }),
    decreases s.len(),
{
    if s.len() == 0 {
        assert(field_name(s) =~= s.subrange(0, 0));
    } else if s[0] == 0x3a {
        assert(j == 0);
        assert(field_name(s) =~= s.subrange(0, 0));
        assert(raw_value(s) =~= s.subrange(1, s.len() as int));
    } else {
        assert(j > 0);
        let rest = s.drop_first();
        lemma_field_split(rest, j - 1);
        assert(rest.subrange(0, j - 1) =~= s.subrange(1, j));
        assert(field_name(s) =~= seq![s[0]] + s.subrange(1, j));
        assert(field_name(s) =~= s.subrange(0, j));
        if j < s.len() {
            assert(rest.subrange(j, rest.len() as int) =~= s.subrange(j + 1, s.len() as int));
        }
    }
}

/// Whether a byte slice spells the given ASCII literal.
fn bytes_eq(b: &[u8], lit: &str) -> (r: bool)
    ensures
        lit.is_ascii() ==> r == (b@ == ascii_bytes(lit@)),
{
    let lb = lit.as_bytes();
    proof {
        vstd::string::is_ascii_spec_bytes(lit);
        if vstd::string::is_ascii(lit) {
            assert(lb@ =~= ascii_bytes(lit@));
        }
    }
    if b.len() != lb.len() {
        return false;
    }
    let mut i: usize = 0;
    while i < b.len()
        invariant
            i <= b@.len(),
            b@.len() == lb@.len(),
            vstd::string::is_ascii(lit) ==> lb@ == ascii_bytes(lit@),
            forall|k: int| 0 <= k < i as int ==> b@[k] == lb@[k],
        decreases b@.len() - i,
    {
        if b[i] != lb[i] {
            return false;
        }
        i = i + 1;
    }
    proof {
        assert(b@ =~= lb@);
    }
    true
}

/// Parses a non-empty run of decimal digits; `None` when the bytes are not
/// all digits, are empty, or overflow 64 bits.
pub fn parse_decimal(s: &[u8]) -> (r: Option<u64>)
    ensures
        match r {
            Some(n) => s@.len() > 0 && all_digits(s@) && dec_value(s@) <= u64::MAX && n
                == dec_value(s@),
            None => s@.len() == 0 || !all_digits(s@) || dec_value(s@) > u64::MAX,
        },
{
    if s.len() == 0 {
        return None;
    }
    let mut acc: u64 = 0;
    let mut i: usize = 0;
    while i < s.len()
        invariant
            i <= s@.len(),
            all_digits(s@.subrange(0, i as int)),
            acc == dec_value(s@.subrange(0, i as int)),
        decreases s@.len() - i,
    {
        let b = s[i];
        if b < 0x30 || b > 0x39 {
            proof {
                assert(!all_digits(s@));
            }
            return None;
        }
        let d = (b - 0x30) as u64;
        if acc > (u64::MAX - d) / 10 {
            proof {
                if all_digits(s@) {
                    let pre = s@.subrange(0, i as int);
                    let cur = s@.subrange(0, i + 1int);
                    assert(cur.drop_last() =~= pre);
                    assert(dec_value(cur) == dec_value(pre) * 10 + (cur.last() - 0x30) as nat);
                    assert(acc * 10 + d > u64::MAX) by (nonlinear_arith)
                        requires
                            acc > (u64::MAX - d) / 10,
                            d <= 9,
                            acc <= u64::MAX,
                    ;
                    lemma_dec_value_monotone(s@, i + 1int);
                }
            }
            return None;
        }
        acc = acc * 10 + d;
        proof {
            let pre = s@.subrange(0, i as int);
            let cur = s@.subrange(0, i + 1int);
            assert(cur.drop_last() =~= pre);
        }
        i = i + 1;
    }
    proof {
        assert(s@.subrange(0, s@.len() as int) =~= s@);
    }
    Some(acc)
}

/// A prefix of a digit run never exceeds the whole run's value.
proof fn lemma_dec_value_monotone(s: Seq<u8>, j: int)
    requires
        0 <= j <= s.len(),
        all_digits(s),
    ensures
        dec_value(s.subrange(0, j)) <= dec_value(s),
    decreases s.len() - j,
{
    if j < s.len() {
        lemma_dec_value_monotone(s, j + 1);
        let pre = s.subrange(0, j);
        let cur = s.subrange(0, j + 1);
        assert(cur.drop_last() =~= pre);
        assert(dec_value(cur) == dec_value(pre) * 10 + (cur.last() - 0x30));
        assert(0x30 <= s[j] <= 0x39);
    } else {
        assert(s.subrange(0, j) =~= s);
    }
}

} // verus!
