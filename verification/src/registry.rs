//! The cancellation registry: the single source of truth for "is a stream
//! currently running for this conversation".
//!
//! A registry maps conversation ids to the active stream's cancellation
//! handle. At most one entry exists per id, so at most one stream is active
//! per conversation. The handle type is the caller's: the abort capability
//! and shared cancelled flag of whatever task runtime drives the stream.

use vstd::prelude::*;

verus! {

use vstd::string::StringExecFns;
use crate::errors::StreamError;
use crate::strmap::StringMap;

/// Registry of active streams, keyed by conversation id.
pub struct CancelRegistry<H> {
    entries: StringMap<H>,
}

impl<H> View for CancelRegistry<H> {
    type V = Map<Seq<char>, H>;

    closed spec fn view(&self) -> Map<Seq<char>, H> {
        self.entries@
    }
}

impl<H> CancelRegistry<H> {
    /// Established by `new` and preserved by every operation.
    pub closed spec fn wf(&self) -> bool {
        self.entries.wf()
    }

    /// Number of active streams.
    pub closed spec fn spec_len(&self) -> nat {
        self.entries.spec_len()
    }

    pub fn new() -> (r: CancelRegistry<H>)
        ensures
            r.wf(),
            r@ == Map::<Seq<char>, H>::empty(),
            r.spec_len() == 0,
    {
        CancelRegistry { entries: StringMap::new() }
    }

    /// Register the handle of a newly started stream. An entry already held
    /// under the same id is silently overwritten.
    pub fn register(&mut self, id: String, handle: H)
        requires
            old(self).wf(),
        ensures
            final(self).wf(),
            final(self)@ == old(self)@.insert(id@, handle),
    {
        self.entries.insert(id, handle);
    }

    /// Request cancellation of the stream for `id`: the entry is removed and
    /// its handle returned so the caller can set the cancelled flag and
    /// invoke the abort capability. When no stream is active for `id` the
    /// registry error is reported and nothing changes.
    pub fn signal_cancel(&mut self, id: &str) -> (r: Result<H, StreamError>)
        requires
            old(self).wf(),
        ensures
            final(self).wf(),
            r is Ok <==> old(self)@.contains_key(id@),
            r matches Ok(h) ==> h == old(self)@[id@] && final(self)@ == old(self)@.remove(id@),
            r is Err ==> *final(self) == *old(self),
            r matches Err(e) ==> e matches StreamError::Registry(m) && m@
                == "No active stream found for this conversation"@,
            !final(self)@.contains_key(id@),
    {
        match self.entries.remove(id) {
            Option::Some(handle) => Result::Ok(handle),
            Option::None => Result::Err(
                StreamError::Registry(String::from_str("No active stream found for this conversation")),
            ),
        }
    }

    /// Drop the entry for `id` unconditionally; called on every terminal
    /// transition, and a no-op when the entry is already gone.
    pub fn deregister(&mut self, id: &str)
        requires
            old(self).wf(),
        ensures
            final(self).wf(),
            final(self)@ == old(self)@.remove(id@),
            !final(self)@.contains_key(id@),
            !old(self)@.contains_key(id@) ==> *final(self) == *old(self),
    {
        let _ = self.entries.remove(id);
    }

    /// A stream is active for `id`.
    pub fn contains(&self, id: &str) -> (r: bool)
        ensures
            r == self@.contains_key(id@),
    {
        self.entries.contains(id)
    }

    /// Number of active streams.
    pub fn len(&self) -> (r: usize)
        ensures
            r == self.spec_len(),
    {
        self.entries.len()
    }
}

/// Cancellation idempotence: once a cancel for `id` succeeds, the registry
/// no longer holds `id` — by `signal_cancel`'s contract the first call on a
/// registry holding `id` returns the handle and leaves `m.remove(id)`, on
/// which a second call must return the registry error and change nothing;
/// neither call disturbs any other conversation's entry.
pub proof fn lemma_cancel_idempotent<H>(m: Map<Seq<char>, H>, id: Seq<char>)
    requires
        m.contains_key(id),
    ensures
        !m.remove(id).contains_key(id),
        m.remove(id).remove(id) == m.remove(id),
        forall|k: Seq<char>|
            k != id ==> (#[trigger] m.remove(id).contains_key(k) <==> m.contains_key(k)),
{
    assert(m.remove(id).remove(id) =~= m.remove(id));
}

} // verus!
