//! The table of proxied requests that wait for the agent's reply, keyed by
//! request identifier. Each entry holds the waiter (on the server, the
//! sending half of a one-shot channel) that the reply is handed to.

use std::collections::HashMap;
use vstd::prelude::*;

use crate::request_id::{lemma_uuid_text_injective, parse_uuid, uuid_text, uuid_to_text};

verus! {

broadcast use vstd::std_specs::hash::group_hash_axioms;

/// Requests that were forwarded to the agent and still wait for a reply.
pub struct PendingRequests<W> {
    waiters: HashMap<u128, W>,
}

impl<W> View for PendingRequests<W> {
    type V = Map<u128, W>;

    closed spec fn view(&self) -> Map<u128, W> {
        self.waiters@
    }
}

/// The pending identifier whose text is `text`, if there is one.
pub open spec fn key_for_text<W>(m: Map<u128, W>, text: Seq<char>) -> Option<u128> {
    if exists|x: u128| #[trigger] m.contains_key(x) && uuid_text(x) == text {
        Some(choose|x: u128| #[trigger] m.contains_key(x) && uuid_text(x) == text)
    } else {
        None
    }
}

/// The key that `key_for_text` picks is the unique pending key with that text.
pub proof fn lemma_key_for_text<W>(m: Map<u128, W>, x: u128)
    ensures
        key_for_text(m, uuid_text(x)) == (if m.contains_key(x) {
            Some(x)
        } else {
            None::<u128>
        }),
{
    let t = uuid_text(x);
    if exists|y: u128| #[trigger] m.contains_key(y) && uuid_text(y) == t {
        let y = choose|y: u128| #[trigger] m.contains_key(y) && uuid_text(y) == t;
        lemma_uuid_text_injective(x, y);
    }
}

impl<W> PendingRequests<W> {
    /// An empty table.
    pub fn new() -> (table: Self)
        ensures
            table@ == Map::<u128, W>::empty(),
    {
        PendingRequests { waiters: HashMap::new() }
    }

    /// Number of requests that wait for a reply.
    pub fn len(&self) -> (n: usize)
        ensures
            n == self@.len(),
    {
        self.waiters.len()
    }

    /// Whether `id` waits for a reply.
    pub fn is_pending(&self, id: u128) -> (b: bool)
        ensures
            b == self@.contains_key(id),
    {
        self.waiters.contains_key(&id)
    }

    /// Records that `id` waits for a reply delivered to `waiter`. A waiter
    /// that was already recorded under `id` is replaced and handed back.
    pub fn register(&mut self, id: u128, waiter: W) -> (replaced: Option<W>)
        ensures
            final(self)@ == old(self)@.insert(id, waiter),
            replaced == (if old(self)@.contains_key(id) {
                Some(old(self)@[id])
            } else {
                None::<W>
            }),
    {
        self.waiters.insert(id, waiter)
    }

    /// Removes the entry of `id`, if any, and hands back its waiter.
    pub fn take(&mut self, id: u128) -> (waiter: Option<W>)
        ensures
            final(self)@ == old(self)@.remove(id),
            waiter == (if old(self)@.contains_key(id) {
                Some(old(self)@[id])
            } else {
                None::<W>
            }),
    {
        self.waiters.remove(&id)
    }

    /// Forgets `id`: used when a request gives up waiting.
    pub fn cleanup(&mut self, id: u128)
        ensures
            final(self)@ == old(self)@.remove(id),
    {
        let _ = self.waiters.remove(&id);
    }

    /// Removes the entry whose identifier has the text `id_text` (the form in
    /// which identifiers travel in tunnel messages) and hands back its waiter.
    /// Texts that are not the hyphenated form of a pending identifier match
    /// nothing and leave the table unchanged.
    pub fn take_by_text(&mut self, id_text: &str) -> (waiter: Option<W>)
        ensures
            match key_for_text(old(self)@, id_text@) {
                Some(k) => waiter == Some(old(self)@[k]) && final(self)@ == old(self)@.remove(k),
                None => waiter is None && final(self)@ == old(self)@,
            },
    {
        let ghost m = self@;
        match parse_uuid(id_text) {
            None => {
                assert(key_for_text(m, id_text@) is None) by {
                    if exists|x: u128| #[trigger] m.contains_key(x) && uuid_text(x) == id_text@ {
                        let x = choose|x: u128| #[trigger] m.contains_key(x) && uuid_text(x) == id_text@;
                        assert(uuid_text(x) == id_text@);
                    }
                }
                None
            },
            Some(x) => {
                let canonical = uuid_to_text(x);
                let given = id_text.to_owned();
                if canonical == given {
                    proof {
                        lemma_key_for_text(m, x);
                    }
                    self.take(x)
                } else {
                    assert(key_for_text(m, id_text@) is None) by {
                        if exists|y: u128| #[trigger] m.contains_key(y) && uuid_text(y) == id_text@ {
                            let y = choose|y: u128| #[trigger] m.contains_key(y) && uuid_text(y) == id_text@;
                            assert(uuid_text(y) == id_text@);
                        }
                    }
                    None
                }
            },
        }
    }
}

/// A reply carrying the text of a request's identifier reaches the waiter
/// that was registered for that request, and the request stops waiting.
pub proof fn law_reply_reaches_its_waiter<W>(m: Map<u128, W>, id: u128, waiter: W)
    ensures
        key_for_text(m.insert(id, waiter), uuid_text(id)) == Some(id),
        m.insert(id, waiter)[id] == waiter,
        m.insert(id, waiter).remove(id) == m.remove(id),
{
    lemma_key_for_text(m.insert(id, waiter), id);
    assert(m.insert(id, waiter).remove(id) =~= m.remove(id));
}

/// Once a request's reply has been delivered, or the request has been cleaned
/// up, a further reply with the same identifier finds no waiter.
pub proof fn law_no_second_delivery<W>(m: Map<u128, W>, id: u128)
    ensures
        key_for_text(m.remove(id), uuid_text(id)) is None,
{
    lemma_key_for_text(m.remove(id), id);
}

/// Delivering or cleaning up one request leaves every other request waiting.
pub proof fn law_other_requests_keep_waiting<W>(m: Map<u128, W>, id: u128, other: u128)
    requires
        other != id,
        m.contains_key(other),
    ensures
        key_for_text(m.remove(id), uuid_text(other)) == Some(other),
        m.remove(id)[other] == m[other],
{
    lemma_key_for_text(m.remove(id), other);
}

} // verus!
