//! Exclusive possession of the control link.
//!
//! The link carries one request at a time and has no way to tell two
//! answers apart. Whoever wants to issue a request takes the client out of
//! its slot and puts it back when the answer is in; while the slot is
//! empty nobody else can issue anything.

use vstd::prelude::*;

verus! {

/// The slot that holds the client of the control link while nobody uses
/// it.
#[derive(Debug)]
pub struct ControlLink<C> {
    client: Option<C>,
}

impl<C> ControlLink<C> {
    /// The client in the slot; `None` while somebody holds it.
    pub closed spec fn client(&self) -> Option<C> {
        self.client
    }

    /// Whether somebody holds the client.
    pub open spec fn held(&self) -> bool {
        self.client() is None
    }

    /// A slot with `client` in it.
    pub fn new(client: C) -> (link: ControlLink<C>)
        ensures
            link.client() == Some(client),
    {
        ControlLink { client: Some(client) }
    }

    /// Whether somebody holds the client.
    pub fn is_held(&self) -> (held: bool)
        ensures
            held == self.held(),
    {
        self.client.is_none()
    }

    /// Takes the client out of the slot. Answers `None`, and changes
    /// nothing, while somebody else holds it.
    pub fn acquire(&mut self) -> (client: Option<C>)
        ensures
            client == old(self).client(),
            final(self).held(),
            client is Some <==> link_grants(old(self).held(), LinkAttempt::Acquire),
            final(self).held() == link_after(old(self).held(), LinkAttempt::Acquire),
    {
        self.client.take()
    }

    /// Puts the client back. A slot that is not empty keeps what it has,
    /// and `client` is handed back.
    pub fn release(&mut self, client: C) -> (rejected: Option<C>)
        ensures
            old(self).held() ==> rejected is None && final(self).client() == Some(client),
            !old(self).held() ==> rejected == Some(client) && final(self).client() == old(self).client(),
            !final(self).held(),
            final(self).held() == link_after(old(self).held(), LinkAttempt::Release),
    {
        if self.client.is_none() {
            self.client = Some(client);
            None
        } else {
            Some(client)
        }
    }
}

/// What a caller can try on the slot.
pub enum LinkAttempt {
    Acquire,
    Release,
}

/// Whether the slot is empty after `attempt`.
pub open spec fn link_after(held: bool, attempt: LinkAttempt) -> bool {
    match attempt {
        LinkAttempt::Acquire => true,
        LinkAttempt::Release => false,
    }
}

/// Whether `attempt` hands the client to the caller.
pub open spec fn link_grants(held: bool, attempt: LinkAttempt) -> bool {
    attempt is Acquire && !held
}

/// Whether `attempt` ends a possession.
pub open spec fn link_returns(held: bool, attempt: LinkAttempt) -> bool {
    attempt is Release && held
}

/// Whether the slot is empty after `attempts`, in order, on a slot that
/// was full.
pub open spec fn held_after(attempts: Seq<LinkAttempt>) -> bool
    decreases attempts.len(),
{
    if attempts.len() == 0 {
        false
    } else {
        link_after(held_after(attempts.drop_last()), attempts.last())
    }
}

/// How many callers hold the client after `attempts`: those that were
/// handed it, less those that put it back.
pub open spec fn holders_after(attempts: Seq<LinkAttempt>) -> int
    decreases attempts.len(),
{
    if attempts.len() == 0 {
        0
    } else {
        let before = holders_after(attempts.drop_last());
        let held = held_after(attempts.drop_last());
        if link_grants(held, attempts.last()) {
            before + 1
        } else if link_returns(held, attempts.last()) {
            before - 1
        } else {
            before
        }
    }
}

/// However callers interleave their attempts, at most one of them holds
/// the client at any time, and the client is handed out only when nobody
/// holds it: the requests on the link come one after the other.
pub proof fn law_link_serves_one_caller_at_a_time(attempts: Seq<LinkAttempt>, index: int)
    requires
        0 <= index < attempts.len(),
    ensures
        0 <= holders_after(attempts) <= 1,
        holders_after(attempts) == 1 <==> held_after(attempts),
        link_grants(held_after(attempts.take(index)), attempts[index]) ==> holders_after(
            attempts.take(index),
        ) == 0,
{
    lemma_holders(attempts);
    lemma_holders(attempts.take(index));
}

/// The count of holders is one while the slot is empty and none while it
/// is full.
proof fn lemma_holders(attempts: Seq<LinkAttempt>)
    ensures
        0 <= holders_after(attempts) <= 1,
        holders_after(attempts) == 1 <==> held_after(attempts),
    decreases attempts.len(),
{
    if attempts.len() > 0 {
        lemma_holders(attempts.drop_last());
    }
}

} // verus!
