//! Request correlation: the table that pairs every outstanding request id
//! with its waiter, plus the FIFO queue of server-initiated messages.
//!
//! Ids are unique among outstanding requests: registering a duplicate fails
//! and leaves the table unchanged. Completion, expiry and disconnect each
//! remove entries; a completion for an unknown id (a late response) changes
//! nothing, and failing the whole table hands every outstanding entry back at
//! once so the caller can resolve each waiter before `disconnect` returns.

use vstd::prelude::*;

verus! {

use crate::messages::JsonRpcMessage;

/// One outstanding request: its id, the method it called (kept for
/// diagnostics), and the instant at which it times out.
#[derive(Debug)]
pub struct PendingRequest {
    pub id: String,
    pub method: String,
    pub deadline_ms: u64,
}

/// Why the correlation table refused an operation.
#[derive(Debug, Clone, PartialEq, Eq)]
pub enum CorrelationError {
    /// The id is already bound to an outstanding request.
    DuplicateId,
}

/// The table of outstanding requests.
#[derive(Debug)]
pub struct CorrelationTable {
    entries: Vec<PendingRequest>,
}

impl CorrelationTable {
    /// The outstanding entries, in registration order.
    pub closed spec fn entries_seq(self) -> Seq<PendingRequest> {
        self.entries@
    }

    /// Whether some outstanding entry carries this id.
    pub closed spec fn contains_id(self, id: Seq<char>) -> bool {
        exists|i: int| 0 <= i < self.entries@.len() && self.entries@[i].id@ == id
    }

    /// No two outstanding entries share an id.
    pub closed spec fn wf(self) -> bool {
        forall|i: int, j: int|
            0 <= i < j < self.entries@.len() ==> self.entries@[i].id@ != self.entries@[j].id@
    }

    /// An empty table.
    pub fn new() -> (r: CorrelationTable)
        ensures
            r.wf(),
            r.entries_seq() =~= Seq::empty(),
    {
        CorrelationTable { entries: Vec::new() }
    }

    /// How many requests are outstanding.
    pub fn len(&self) -> (r: usize)
        ensures
            r == self.entries_seq().len(),
    {
        self.entries.len()
    }

    /// Whether this id is outstanding.
    pub fn contains(&self, id: &str) -> (r: bool)
        ensures
            r == self.contains_id(id@),
    {
        let mut i: usize = 0;
        while i < self.entries.len()
            invariant
                i <= self.entries@.len(),
                forall|j: int| 0 <= j < i as int ==> self.entries@[j].id@ != id@,
            decreases self.entries@.len() - i,
        {
            if str_eq(self.entries[i].id.as_str(), id) {
                return true;
            }
            i = i + 1;
        }
        false
    }

    /// Registers a new outstanding request. A duplicate id fails and leaves
    /// the table unchanged; otherwise the entry is appended and every
    /// previously outstanding entry stays outstanding.
    pub fn register(&mut self, id: &str, method: &str, deadline_ms: u64) -> (r: Result<
        (),
        CorrelationError,
    >)
        requires
            old(self).wf(),
        ensures
            final(self).wf(),
            old(self).contains_id(id@) ==> r == Err::<(), CorrelationError>(
                CorrelationError::DuplicateId,
            ) && final(self).entries_seq() == old(self).entries_seq(),
            !old(self).contains_id(id@) ==> {
                &&& r is Ok
                &&& final(self).entries_seq().len() == old(self).entries_seq().len() + 1
                &&& final(self).entries_seq().drop_last() == old(self).entries_seq()
                &&& final(self).entries_seq().last().id@ == id@
                &&& final(self).entries_seq().last().method@ == method@
                &&& final(self).entries_seq().last().deadline_ms == deadline_ms
            },
    {
        if self.contains(id) {
            return Err(CorrelationError::DuplicateId);
        }
        self.entries.push(PendingRequest {
            id: String::from_str(id),
            method: String::from_str(method),
            deadline_ms,
        });
        proof {
            assert(final(self).entries@.drop_last() =~= old(self).entries@);
        }
        Ok(())
    }

    /// Removes and returns the entry bound to `id`, if one is outstanding.
    /// Every other entry is kept in order, so a late or unknown id changes
    /// nothing and never disturbs another waiter.
    pub fn remove(&mut self, id: &str) -> (r: Option<PendingRequest>)
        requires
            old(self).wf(),
        ensures
            final(self).wf(),
            !old(self).contains_id(id@) ==> r is None && final(self).entries_seq() == old(
                self,
            ).entries_seq(),
            old(self).contains_id(id@) ==> {
                &&& r matches Some(e) && e.id@ == id@
                &&& exists|i: int|
                    0 <= i < old(self).entries_seq().len() && old(self).entries_seq()[i].id@
                        == id@ && final(self).entries_seq() == old(self).entries_seq().remove(i)
                &&& !final(self).contains_id(id@)
            },
    {
        let mut i: usize = 0;
        while i < self.entries.len()
            invariant
                i <= self.entries@.len(),
                *self == *old(self),
                old(self).wf(),
                forall|j: int| 0 <= j < i as int ==> self.entries@[j].id@ != id@,
            decreases self.entries@.len() - i,
        {
            if str_eq(self.entries[i].id.as_str(), id) {
                let ghost s = self.entries@;
                let e = self.entries.remove(i);
                proof {
                    assert(self.entries@ =~= s.remove(i as int));
                    s.remove_ensures(i as int);
                    assert forall|k: int|
                        0 <= k < self.entries@.len() implies self.entries@[k].id@ != id@ by {
                        if k < i as int {
                            assert(self.entries@[k] == s[k]);
                        } else {
                            assert(self.entries@[k] == s[k + 1]);
                        }
                    }
                    assert forall|a: int, b: int|
                        0 <= a < b < self.entries@.len() implies self.entries@[a].id@
                        != self.entries@[b].id@ by {
                        let sa: int = if a < i as int { a } else { a + 1 };
                        let sb: int = if b < i as int { b } else { b + 1 };
                        assert(self.entries@[a] == s[sa]);
                        assert(self.entries@[b] == s[sb]);
                    }
                    let gi = i as int;
                    assert(0 <= gi < old(self).entries_seq().len());
                    assert(old(self).entries_seq()[gi].id@ == id@);
                    assert(self.entries_seq() == old(self).entries_seq().remove(gi));
                }
                return Some(e);
            }
            i = i + 1;
        }
        None
    }

    /// Empties the table, handing back every outstanding entry in order, so
    /// that each waiter can be resolved with a transport-closed error before
    /// the disconnect completes. Nothing stays outstanding.
    pub fn fail_all(&mut self) -> (r: Vec<PendingRequest>)
        requires
            old(self).wf(),
        ensures
            final(self).wf(),
            final(self).entries_seq() =~= Seq::empty(),
            r@ == old(self).entries_seq(),
    {
        let mut drained: Vec<PendingRequest> = Vec::new();
        core::mem::swap(&mut drained, &mut self.entries);
        drained
    }

    /// The ids of every entry whose deadline is at or before `now_ms`: the
    /// requests that have timed out. Exactly the expired entries are listed.
    pub fn expired_ids(&self, now_ms: u64) -> (r: Vec<String>)
        ensures
            r@.len() <= self.entries_seq().len(),
            forall|k: int|
                0 <= k < r@.len() ==> #[trigger] has_expired_entry(self.entries_seq(), r@[k]@,
                    now_ms),
            forall|i: int|
                0 <= i < self.entries_seq().len() && #[trigger] self.entries_seq()[i].deadline_ms
                    <= now_ms ==> lists_id(r@, self.entries_seq()[i].id@),
    {
        let mut r: Vec<String> = Vec::new();
        let mut i: usize = 0;
        while i < self.entries.len()
            invariant
                i <= self.entries@.len(),
                r@.len() <= i as int,
                forall|k: int|
                    0 <= k < r@.len() ==> #[trigger] has_expired_entry(self.entries@, r@[k]@,
                        now_ms),
                forall|j: int|
                    0 <= j < i as int && #[trigger] self.entries@[j].deadline_ms <= now_ms
                        ==> lists_id(r@, self.entries@[j].id@),
            decreases self.entries@.len() - i,
        {
            if self.entries[i].deadline_ms <= now_ms {
                let ghost before = r@;
                r.push(self.entries[i].id.clone());
                proof {
                    assert(has_expired_entry(self.entries@, r@[r@.len() - 1]@, now_ms));
                    assert forall|j: int|
                        0 <= j < i as int + 1 && #[trigger] self.entries@[j].deadline_ms
                            <= now_ms implies lists_id(r@, self.entries@[j].id@) by {
                        if j < i as int {
                            assert(lists_id(before, self.entries@[j].id@));
                            let k = choose|k: int|
                                0 <= k < before.len() && before[k]@ == self.entries@[j].id@;
                            assert(r@[k]@ == self.entries@[j].id@);
                        } else {
                            assert(r@[r@.len() - 1]@ == self.entries@[j].id@);
                        }
                    }
                }
            }
            i = i + 1;
        }
        r
    }
}

/// Some entry carries this id and has expired by `now_ms`.
pub open spec fn has_expired_entry(s: Seq<PendingRequest>, id: Seq<char>, now_ms: u64) -> bool {
    exists|i: int| 0 <= i < s.len() && s[i].id@ == id && s[i].deadline_ms <= now_ms
}

/// Some listed string has this view.
pub open spec fn lists_id(ids: Seq<String>, id: Seq<char>) -> bool {
    exists|k: int| 0 <= k < ids.len() && ids[k]@ == id
}

/// The timeout error for a request that outran its deadline: tagged with
/// the transport, naming the request's own method, carrying the deadline.
/// Removing the entry first means a late response finds no waiter, and
/// fresh ids register unhindered.
pub fn timeout_error(transport_type: &str, entry: &PendingRequest, duration_ms: u64) -> (r:
    crate::errors::TransportError)
    ensures
        r matches crate::errors::TransportError::TimeoutError {
            transport_type: t,
            location,
            duration_ms: d,
        } && t@ == transport_type@ && location@ == entry.method@ && d == duration_ms,
{
    crate::errors::TransportError::TimeoutError {
        transport_type: String::from_str(transport_type),
        location: entry.method.clone(),
        duration_ms,
    }
}

/// Whether two string slices hold the same characters.
pub fn str_eq(a: &str, b: &str) -> (r: bool)
    ensures
        r == (a@ == b@),
{
    let sa = String::from_str(a);
    let sb = String::from_str(b);
    sa == sb
}

/// The FIFO of server-initiated messages (notifications and server-to-client
/// requests), delivered in the order the transport surfaced them.
#[derive(Debug)]
pub struct MessageQueue {
    items: std::collections::VecDeque<JsonRpcMessage>,
}

impl MessageQueue {
    /// The queued messages, oldest first.
    pub closed spec fn items_seq(self) -> Seq<JsonRpcMessage> {
        self.items@
    }

    /// An empty queue.
    pub fn new() -> (r: MessageQueue)
        ensures
            r.items_seq() =~= Seq::empty(),
    {
        MessageQueue { items: std::collections::VecDeque::new() }
    }

    /// How many messages wait.
    pub fn len(&self) -> (r: usize)
        ensures
            r == self.items_seq().len(),
    {
        self.items.len()
    }

    /// Appends a message surfaced by the transport.
    pub fn push(&mut self, m: JsonRpcMessage)
        ensures
            final(self).items_seq() == old(self).items_seq().push(m),
    {
        self.items.push_back(m);
    }

    /// Takes the oldest waiting message, preserving arrival order.
    pub fn pop(&mut self) -> (r: Option<JsonRpcMessage>)
        ensures
            old(self).items_seq().len() == 0 ==> r is None
                && final(self).items_seq() == old(self).items_seq(),
            old(self).items_seq().len() > 0 ==> r == Some(old(self).items_seq().first())
                && final(self).items_seq() == old(self).items_seq().drop_first(),
    {
        self.items.pop_front()
    }
}

} // verus!
