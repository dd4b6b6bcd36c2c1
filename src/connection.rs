use crate::error::GatewayError;
use vstd::prelude::*;

verus! {

/// The sizing of the store's connection pool.
#[derive(Debug, Clone, Copy, PartialEq, Eq)]
pub struct PoolSettings {
    pub max_connections: u32,
    pub min_connections: u32,
}

impl PoolSettings {
    /// The pool that the application opens: at most twenty connections, and
    /// at least five kept open.
    pub fn standard() -> (p: PoolSettings)
        ensures
            p.max_connections == 20,
            p.min_connections == 5,
    {
        PoolSettings { max_connections: 20, min_connections: 5 }
    }

    /// Settings with the given bounds, when the minimum does not exceed the
    /// maximum and the maximum is not zero.
    pub fn new(max_connections: u32, min_connections: u32) -> (r: Option<PoolSettings>)
        ensures
            match r {
                Some(p) => p.max_connections == max_connections && p.min_connections == min_connections
                    && 0 < max_connections && min_connections <= max_connections,
                None => !(0 < max_connections && min_connections <= max_connections),
            },
    {
        if 0 < max_connections && min_connections <= max_connections {
            Some(PoolSettings { max_connections, min_connections })
        } else {
            None
        }
    }
}

/// The cell that holds the optional store connection.
///
/// It starts empty, is filled at most once, and is never emptied again.
pub struct ConnectionSlot<C> {
    handle: Option<C>,
}

/// What one connection attempt does to the slot: `attempt` is the handle that
/// the attempt produced, or `None` when the store refused it. A failed attempt
/// writes nothing, and a filled slot keeps its first handle.
pub open spec fn publish_step<C>(slot: Option<C>, attempt: Option<C>) -> Option<C> {
    if slot is Some {
        slot
    } else {
        attempt
    }
}

/// The slot's content after a series of connection attempts, in order.
pub open spec fn after_attempts<C>(slot: Option<C>, attempts: Seq<Option<C>>) -> Option<C>
    decreases attempts.len(),
{
    if attempts.len() == 0 {
        slot
    } else {
        after_attempts(publish_step(slot, attempts[0]), attempts.drop_first())
    }
}

/// Once a slot holds a connection, no series of later attempts, successful or
/// not, takes it away or replaces it.
pub proof fn lemma_established_is_permanent<C>(slot: Option<C>, attempts: Seq<Option<C>>)
    requires
        slot is Some,
    ensures
        after_attempts(slot, attempts) == slot,
    decreases attempts.len(),
{
    if attempts.len() > 0 {
        lemma_established_is_permanent(publish_step(slot, attempts[0]), attempts.drop_first());
    }
}

/// Attempts that all fail leave an empty slot empty: until one succeeds, every
/// read reports that there is no connection.
pub proof fn lemma_failed_attempts_leave_empty<C>(attempts: Seq<Option<C>>)
    requires
        forall|i: int| 0 <= i < attempts.len() ==> (#[trigger] attempts[i]) is None,
    ensures
        after_attempts(None, attempts) is None,
    decreases attempts.len(),
{
    if attempts.len() > 0 {
        let rest = attempts.drop_first();
        assert forall|i: int| 0 <= i < rest.len() implies (#[trigger] rest[i]) is None by {
            assert(rest[i] == attempts[i + 1]);
        }
        lemma_failed_attempts_leave_empty(rest);
    }
}

impl<C: Clone> ConnectionSlot<C> {
    /// The handle that the slot holds, if any.
    pub closed spec fn content(&self) -> Option<C> {
        self.handle
    }

    pub open spec fn is_established(&self) -> bool {
        self.content() is Some
    }

    /// An empty slot.
    pub fn initialize() -> (slot: Self)
        ensures
            slot.content() is None,
    {
        ConnectionSlot { handle: None }
    }

    /// Stores a freshly established handle. The first handle stays: on a slot
    /// that is already filled this changes nothing and returns `false`.
    pub fn publish(&mut self, handle: C) -> (stored: bool)
        ensures
            final(self).content() == publish_step(old(self).content(), Some(handle)),
            stored == (old(self).content() is None),
    {
        if self.handle.is_some() {
            false
        } else {
            self.handle = Some(handle);
            true
        }
    }

    /// Whether a connection has been established.
    pub fn has_connection(&self) -> (r: bool)
        ensures
            r == self.is_established(),
    {
        self.handle.is_some()
    }

    /// A clone of the established handle, or `NotEstablished` before there is one.
    pub fn get_connection(&self) -> (r: Result<C, GatewayError>)
        ensures
            self.content() is None ==> r == Err::<C, GatewayError>(GatewayError::NotEstablished),
            self.content() matches Some(h) ==> r matches Ok(c) && cloned(h, c),
    {
        match &self.handle {
            Some(h) => Ok(h.clone()),
            None => Err(GatewayError::NotEstablished),
        }
    }
}

} // verus!
