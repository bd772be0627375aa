//! The lazily-established, shared connection slot.
//!
//! Many concurrent cache operations race to establish the first connection.
//! The slot is guarded by the double-check discipline: a caller that found
//! the slot empty connects and then *publishes* its candidate, and publishing
//! re-checks the slot — if another caller won the race meanwhile, the
//! candidate is discarded and the already-published connection is returned.
//! The published state is therefore singular: it is set exactly once and
//! never reverts or changes identity.

use vstd::prelude::*;

use crate::errors::StorageError;

verus! {

/// A reference to an established connection: a handle to a named database
/// and collection, with an identity distinguishing separate establishments.
pub struct ConnectionRef {
    pub conn_id: u64,
    pub url: String,
    pub database_name: String,
    pub collection_name: String,
}

impl Clone for ConnectionRef {
    fn clone(&self) -> (r: Self)
        ensures
            r == self,
    {
        ConnectionRef {
            conn_id: self.conn_id,
            url: self.url.clone(),
            database_name: self.database_name.clone(),
            collection_name: self.collection_name.clone(),
        }
    }
}

/// What one connection attempt came back with: an established connection,
/// or a failure with its cause.
pub enum ConnectOutcome {
    Connected(ConnectionRef),
    Failed(String),
}

/// The slot after a candidate is published: an already-published connection
/// is kept and the candidate discarded; an empty slot takes the candidate.
pub open spec fn spec_publish(
    slot: Option<ConnectionRef>,
    candidate: ConnectionRef,
) -> Option<ConnectionRef> {
    match slot {
        Some(c) => Some(c),
        None => Some(candidate),
    }
}

/// The slot after one acquisition step: a successful attempt publishes its
/// candidate under the double-check discipline; a failed attempt leaves the
/// slot exactly as it was, eligible for a later retry.
pub open spec fn spec_acquire_state(
    slot: Option<ConnectionRef>,
    outcome: ConnectOutcome,
) -> Option<ConnectionRef> {
    match outcome {
        ConnectOutcome::Connected(c) => spec_publish(slot, c),
        ConnectOutcome::Failed(_) => slot,
    }
}

/// The lazily-initialized shared connection slot.
pub struct ConnectionHandle {
    slot: Option<ConnectionRef>,
}

impl View for ConnectionHandle {
    type V = Option<ConnectionRef>;

    closed spec fn view(&self) -> Option<ConnectionRef> {
        self.slot
    }
}

impl ConnectionHandle {
    /// A fresh handle: no connection has been established.
    pub fn new() -> (h: ConnectionHandle)
        ensures
            h@ is None,
    {
        ConnectionHandle { slot: None }
    }

    /// The read-locked check: the published connection, if any. Does not
    /// connect and does not block other readers.
    pub fn observe(&self) -> (r: Option<ConnectionRef>)
        ensures
            r == self@,
    {
        match &self.slot {
            Some(c) => Some(c.clone()),
            None => None,
        }
    }

    /// Publishes a freshly established connection under the double-check
    /// discipline and returns the connection every caller now observes: the
    /// candidate, unless another caller already published one.
    pub fn publish(&mut self, candidate: ConnectionRef) -> (r: ConnectionRef)
        ensures
            final(self)@ == spec_publish(old(self)@, candidate),
            final(self)@ == Some(r),
    {
        match &self.slot {
            Some(c) => c.clone(),
            None => {
                let r = candidate.clone();
                self.slot = Some(candidate);
                r
            },
        }
    }

    /// One full acquisition step, fed the outcome of the connection attempt
    /// the caller made (if the caller saw an empty slot and connected). A
    /// success publishes; a failure is returned as a `ConnectionError` and
    /// leaves the slot untouched — no poisoning, the next caller retries.
    pub fn acquire_step(&mut self, outcome: ConnectOutcome) -> (r: Result<
        ConnectionRef,
        StorageError,
    >)
        ensures
            final(self)@ == spec_acquire_state(old(self)@, outcome),
            match outcome {
                ConnectOutcome::Connected(_) => r matches Ok(c) && final(self)@ == Some(c),
                ConnectOutcome::Failed(m) => (r matches Err(e) && e matches
                    StorageError::ConnectionError(mm) && mm@ == m@) && final(self)@ == old(self)@,
            },
    {
        match outcome {
            ConnectOutcome::Connected(c) => Ok(self.publish(c)),
            ConnectOutcome::Failed(m) => Err(StorageError::ConnectionError(m)),
        }
    }
}

/// The slot a fresh handle ends in after any series of racing acquisition
/// steps: the candidate of the *first successful* attempt, and nothing else.
pub open spec fn spec_run_acquires(
    slot: Option<ConnectionRef>,
    events: Seq<ConnectOutcome>,
) -> Option<ConnectionRef>
    decreases events.len(),
{
    if events.len() == 0 {
        slot
    } else {
        spec_run_acquires(spec_acquire_state(slot, events[0]), events.drop_first())
    }
}

/// The candidate of the first successful attempt among `events`, if any.
pub open spec fn spec_first_connected(events: Seq<ConnectOutcome>) -> Option<ConnectionRef>
    decreases events.len(),
{
    if events.len() == 0 {
        None
    } else {
        match events[0] {
            ConnectOutcome::Connected(c) => Some(c),
            ConnectOutcome::Failed(_) => spec_first_connected(events.drop_first()),
        }
    }
}

/// Once a connection is published, it is stable: no later acquisition step —
/// successful or failed — replaces it, reverts it, or changes its identity.
/// Every caller from then on observes the same connection.
pub proof fn lemma_ready_is_stable(c: ConnectionRef, events: Seq<ConnectOutcome>)
    ensures
        spec_run_acquires(Some(c), events) == Some(c),
    decreases events.len(),
{
    if events.len() > 0 {
        lemma_ready_is_stable(c, events.drop_first());
    }
}

/// Concurrent first-time acquisition on a fresh handle initializes the slot
/// exactly once: whatever order the racing attempts land in, the slot ends
/// holding the candidate of the first successful attempt — never a later
/// one, never a partial or inconsistent state — and stays there.
pub proof fn lemma_single_initialization(events: Seq<ConnectOutcome>)
    ensures
        spec_run_acquires(None, events) == spec_first_connected(events),
    decreases events.len(),
{
    if events.len() > 0 {
        match events[0] {
            ConnectOutcome::Connected(c) => {
                lemma_ready_is_stable(c, events.drop_first());
            },
            ConnectOutcome::Failed(_) => {
                lemma_single_initialization(events.drop_first());
            },
        }
    }
}

/// A failed attempt leaves no residual state: the handle is as eligible as
/// ever, and a following successful attempt leaves it ready with that
/// connection.
pub proof fn lemma_retry_after_failure(failure: ConnectOutcome, c: ConnectionRef)
    requires
        failure is Failed,
    ensures
        spec_acquire_state(None, failure) == None::<ConnectionRef>,
        spec_acquire_state(
            spec_acquire_state(None, failure),
            ConnectOutcome::Connected(c),
        ) == Some(c),
{
}

} // verus!
