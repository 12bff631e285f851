//! The stream orchestrator.
//!
//! A [`StreamSession`] is the in-memory state of one active stream: the
//! accumulator of fragments received so far and the time of the last
//! checkpoint write. [`run_stream`] drives a whole stream over a delivered
//! fragment sequence: it polls for cancellation before each fragment, emits
//! every fragment in delivery order, time-gates checkpoint snapshots, and
//! resolves to exactly one terminal outcome. The caller performs the actual
//! store writes and event delivery; a failed checkpoint write never feeds
//! back into the stream.

use vstd::prelude::*;

verus! {

use vstd::string::StringExecFns;
use crate::errors::StreamError;
use crate::strings::{seq_is_prefix, lemma_prefix_extend, lemma_prefix_refl, lemma_prefix_trans};

/// Milliseconds that must elapse between two checkpoint writes.
pub const CHECKPOINT_INTERVAL_MILLIS: u64 = 2000;

/// Concatenation of a fragment sequence, in delivery order.
pub open spec fn concat_frags(fs: Seq<Seq<char>>) -> Seq<char>
    decreases fs.len(),
{
    if fs.len() == 0 {
        Seq::empty()
    } else {
        concat_frags(fs.drop_last()) + fs.last()
    }
}

pub proof fn lemma_concat_push(fs: Seq<Seq<char>>, f: Seq<char>)
    ensures
        concat_frags(fs.push(f)) == concat_frags(fs) + f,
{
    assert(fs.push(f).drop_last() =~= fs);
    assert(fs.push(f).last() == f);
}

/// In-memory orchestration state of one active stream. The ghost history
/// records the fragments absorbed and the checkpoint snapshots taken.
pub struct StreamSession {
    pub conversation_id: String,
    /// Concatenation of all fragments received so far.
    pub accumulated: String,
    pub last_checkpoint_millis: u64,
    pub fragments: Ghost<Seq<Seq<char>>>,
    pub checkpoints: Ghost<Seq<Seq<char>>>,
}

/// The accumulator holds exactly the concatenation of the delivered
/// fragments, and the checkpoint snapshots grow monotonically: each is a
/// prefix of the next and of the accumulator.
pub open spec fn session_wf(s: StreamSession) -> bool {
    &&& s.accumulated@ == concat_frags(s.fragments@)
    &&& forall|i: int|
        0 <= i < s.checkpoints@.len() ==> seq_is_prefix(#[trigger] s.checkpoints@[i], s.accumulated@)
    &&& forall|i: int|
        0 <= i < s.checkpoints@.len() - 1 ==> seq_is_prefix(
            #[trigger] s.checkpoints@[i],
            s.checkpoints@[i + 1],
        )
}

impl StreamSession {
    /// A fresh session: empty accumulator, no checkpoints taken.
    pub fn begin(conversation_id: String, now_millis: u64) -> (s: StreamSession)
        ensures
            session_wf(s),
            s.conversation_id == conversation_id,
            s.accumulated@ == Seq::<char>::empty(),
            s.fragments@ == Seq::<Seq<char>>::empty(),
            s.checkpoints@ == Seq::<Seq<char>>::empty(),
            s.last_checkpoint_millis == now_millis,
    {
        StreamSession {
            conversation_id,
            accumulated: String::new(),
            last_checkpoint_millis: now_millis,
            fragments: Ghost(Seq::empty()),
            checkpoints: Ghost(Seq::empty()),
        }
    }

    /// Per-fragment step: extend the accumulator and decide whether a
    /// checkpoint write is due. The caller emits the fragment unchanged.
    pub fn absorb_fragment(&mut self, fragment: &str, now_millis: u64) -> (checkpoint_due: bool)
        requires
            session_wf(*old(self)),
        ensures
            session_wf(*final(self)),
            final(self).accumulated@ == old(self).accumulated@ + fragment@,
            final(self).fragments@ == old(self).fragments@.push(fragment@),
            final(self).checkpoints@ == old(self).checkpoints@,
            final(self).conversation_id == old(self).conversation_id,
            final(self).last_checkpoint_millis == old(self).last_checkpoint_millis,
            checkpoint_due == (now_millis >= old(self).last_checkpoint_millis && now_millis - old(
                self,
            ).last_checkpoint_millis >= CHECKPOINT_INTERVAL_MILLIS),
    {
        self.accumulated.append(fragment);
        proof {
            lemma_concat_push(old(self).fragments@, fragment@);
            lemma_prefix_extend(old(self).accumulated@, fragment@);
            assert forall|i: int| 0 <= i < old(self).checkpoints@.len() implies seq_is_prefix(
                #[trigger] old(self).checkpoints@[i],
                self.accumulated@,
            ) by {
                lemma_prefix_trans(
                    old(self).checkpoints@[i],
                    old(self).accumulated@,
                    self.accumulated@,
                );
            }
        }
        self.fragments = Ghost(self.fragments@.push(fragment@));
        now_millis >= self.last_checkpoint_millis && now_millis - self.last_checkpoint_millis
            >= CHECKPOINT_INTERVAL_MILLIS
    }

    /// Take a checkpoint snapshot: the content handed to the store write,
    /// and the start of a new checkpoint interval.
    pub fn checkpoint_content(&mut self, now_millis: u64) -> (content: String)
        requires
            session_wf(*old(self)),
        ensures
            session_wf(*final(self)),
            content@ == old(self).accumulated@,
            final(self).checkpoints@ == old(self).checkpoints@.push(old(self).accumulated@),
            final(self).accumulated == old(self).accumulated,
            final(self).fragments@ == old(self).fragments@,
            final(self).conversation_id == old(self).conversation_id,
            final(self).last_checkpoint_millis == now_millis,
    {
        proof {
            lemma_prefix_refl(self.accumulated@);
        }
        let content = self.accumulated.clone();
        self.last_checkpoint_millis = now_millis;
        self.checkpoints = Ghost(self.checkpoints@.push(self.accumulated@));
        content
    }

    /// Outcome of the checkpoint store write. A failure is logged by the
    /// caller and otherwise ignored: the session is untouched either way, so
    /// the rest of the stream proceeds exactly as if the write had succeeded.
    pub fn note_checkpoint_result(&mut self, write_ok: bool)
        ensures
            *final(self) == *old(self),
    {
        let _ = write_ok;
    }
}

/// The conversation-scoped event channel a stream emits on.
pub fn stream_channel_name(conversation_id: &str) -> (r: String)
    ensures
        r@ == "stream-chunk-"@ + conversation_id@,
{
    String::from_str("stream-chunk-").concat(conversation_id)
}

/// Payload of one event on a conversation's stream channel: raw text
/// fragments, then exactly one terminal sentinel.
#[derive(Debug, Clone)]
pub enum StreamEventPayload {
    /// One raw text fragment.
    Chunk(String),
    /// Terminal sentinel of a completed stream.
    Done,
    /// Terminal sentinel of a cancelled stream.
    Cancelled,
}

impl StreamEventPayload {
    /// The literal wire text: fragments travel unchanged, the sentinels are
    /// the reserved values `DONE` and `CANCELLED`.
    pub fn wire_text(&self) -> (r: String)
        ensures
            self matches StreamEventPayload::Chunk(s) ==> r@ == s@,
            self is Done ==> r@ == "DONE"@,
            self is Cancelled ==> r@ == "CANCELLED"@,
    {
        match self {
            StreamEventPayload::Chunk(s) => s.clone(),
            StreamEventPayload::Done => String::from_str("DONE"),
            StreamEventPayload::Cancelled => String::from_str("CANCELLED"),
        }
    }
}

/// Terminal resolution of a stream.
#[derive(Debug, Clone)]
pub enum StreamOutcome {
    Completed,
    Cancelled,
    Failed(StreamError),
}

/// How the provider adapter's fragment sequence ended: the explicit
/// end-of-stream signal, or a mid-stream failure after the last fragment.
#[derive(Debug, Clone)]
pub enum AdapterEnd {
    Finished,
    Failed(StreamError),
}

/// Everything one whole stream produced: the ordered event trace, the
/// checkpoint snapshots handed to the store, the full accumulator, and the
/// terminal outcome.
pub struct StreamRun {
    pub outcome: StreamOutcome,
    pub events: Vec<StreamEventPayload>,
    pub checkpoints: Vec<String>,
    pub accumulated: String,
}

/// The cancellation poll before fragment `idx` observes the request
/// `cancel_at`: the flag is set from fragment `j` onwards.
pub open spec fn spec_cancel_observed(cancel_at: Option<usize>, idx: int) -> bool {
    match cancel_at {
        Option::Some(j) => idx >= j,
        Option::None => false,
    }
}

/// How many of `n` fragments the loop consumes under `cancel_at`.
pub open spec fn spec_consumed(n: int, cancel_at: Option<usize>) -> int {
    match cancel_at {
        Option::Some(j) => if j <= n {
            j as int
        } else {
            n
        },
        Option::None => n,
    }
}

/// Whether the stream resolves as cancelled: the request arrives no later
/// than the final poll.
pub open spec fn spec_cancelled(n: int, cancel_at: Option<usize>) -> bool {
    match cancel_at {
        Option::Some(j) => j <= n,
        Option::None => false,
    }
}

fn cancel_observed(cancel_at: &Option<usize>, idx: usize) -> (r: bool)
    ensures
        r == spec_cancel_observed(*cancel_at, idx as int),
{
    match cancel_at {
        Option::Some(j) => idx >= *j,
        Option::None => false,
    }
}

/// Drive one whole stream over the adapter's delivered fragment sequence.
///
/// `arrival_millis[i]` is the clock at fragment `i`; `cancel_at` is the
/// fragment index from whose poll onwards cancellation is observed (the poll
/// runs before each fragment and once more after the last). The events come
/// back in delivery order: one chunk per consumed fragment, then `Done` on
/// normal completion, `Cancelled` on cancellation, and no sentinel when the
/// adapter failed — the error is the outcome instead, and the caller
/// propagates it with the incomplete message left as it stands.
///
/// The checkpoint snapshots grow monotonically — each is a prefix of the
/// next and of the final accumulator — and the store's success or failure in
/// writing them is not an input: the trace and outcome are fixed by the
/// fragments, the cancellation point and the adapter's end alone.
pub fn run_stream(
    conversation_id: String,
    start_millis: u64,
    fragments: &Vec<String>,
    arrival_millis: &Vec<u64>,
    adapter_end: AdapterEnd,
    cancel_at: Option<usize>,
) -> (r: StreamRun)
    requires
        arrival_millis@.len() == fragments@.len(),
    ensures
        ({
            let n = fragments@.len() as int;
            let k = spec_consumed(n, cancel_at);
            let cancelled = spec_cancelled(n, cancel_at);
            &&& r.accumulated@ == concat_frags(
                fragments@.map_values(|f: String| f@).take(k),
            )
            &&& !cancelled ==> r.accumulated@ == concat_frags(
                fragments@.map_values(|f: String| f@),
            )
            &&& forall|i: int|
                0 <= i < k ==> r.events@[i] == StreamEventPayload::Chunk(fragments@[i])
            &&& cancelled ==> {
                &&& r.outcome is Cancelled
                &&& r.events@.len() == k + 1
                &&& r.events@.last() is Cancelled
            }
            &&& !cancelled && adapter_end is Finished ==> {
                &&& r.outcome is Completed
                &&& r.events@.len() == n + 1
                &&& r.events@.last() is Done
            }
            &&& (!cancelled ==> (adapter_end matches AdapterEnd::Failed(e) ==> {
                &&& r.outcome == StreamOutcome::Failed(e)
                &&& r.events@.len() == n
            }))
            &&& forall|i: int|
                0 <= i < r.checkpoints@.len() ==> seq_is_prefix(
                    (#[trigger] r.checkpoints@[i])@,
                    r.accumulated@,
                )
            &&& forall|i: int|
                0 <= i < r.checkpoints@.len() - 1 ==> seq_is_prefix(
                    (#[trigger] r.checkpoints@[i])@,
                    r.checkpoints@[i + 1]@,
                )
        }),
{
    let ghost views = fragments@.map_values(|f: String| f@);
    let mut session = StreamSession::begin(conversation_id, start_millis);
    let mut events: Vec<StreamEventPayload> = Vec::new();
    let mut checkpoints: Vec<String> = Vec::new();
    let mut idx: usize = 0;

    proof {
        assert(views.take(0) =~= Seq::<Seq<char>>::empty());
        assert(checkpoints@.map_values(|s: String| s@) =~= Seq::<Seq<char>>::empty());
    }

    while idx < fragments.len() && !cancel_observed(&cancel_at, idx)
        invariant
            idx <= fragments@.len(),
            arrival_millis@.len() == fragments@.len(),
            views == fragments@.map_values(|f: String| f@),
            session_wf(session),
            session.fragments@ == views.take(idx as int),
            events@.len() == idx,
            forall|i: int|
                0 <= i < idx ==> events@[i] == StreamEventPayload::Chunk(fragments@[i]),
            checkpoints@.map_values(|s: String| s@) == session.checkpoints@,
            forall|i: int| 0 <= i < idx ==> !spec_cancel_observed(cancel_at, i),
        decreases fragments@.len() - idx,
    {
        let frag = &fragments[idx];
        let due = session.absorb_fragment(frag.as_str(), arrival_millis[idx]);
        proof {
            assert(views.take(idx as int).push(frag@) =~= views.take(idx as int + 1));
        }
        events.push(StreamEventPayload::Chunk(frag.clone()));
        if due {
            let content = session.checkpoint_content(arrival_millis[idx]);
            checkpoints.push(content);
            proof {
                assert(checkpoints@.map_values(|s: String| s@) =~= session.checkpoints@);
            }
            session.note_checkpoint_result(true);
        }
        idx += 1;
    }

    let cancelled = cancel_observed(&cancel_at, idx);
    proof {
        let n = fragments@.len() as int;
        if cancelled {
            if idx > 0 {
                assert(!spec_cancel_observed(cancel_at, idx as int - 1));
            }
            assert(idx as int == spec_consumed(n, cancel_at));
            assert(spec_cancelled(n, cancel_at));
        } else {
            assert(idx as int == n);
            assert(idx as int == spec_consumed(n, cancel_at));
            assert(!spec_cancelled(n, cancel_at));
            assert(views.take(n) =~= views);
        }
        assert forall|i: int| 0 <= i < checkpoints@.len() implies seq_is_prefix(
            (#[trigger] checkpoints@[i])@,
            session.accumulated@,
        ) by {
            assert(checkpoints@.map_values(|s: String| s@)[i] == checkpoints@[i]@);
        }
        assert forall|i: int| 0 <= i < checkpoints@.len() - 1 implies seq_is_prefix(
            (#[trigger] checkpoints@[i])@,
            checkpoints@[i + 1]@,
        ) by {
            assert(checkpoints@.map_values(|s: String| s@)[i] == checkpoints@[i]@);
            assert(checkpoints@.map_values(|s: String| s@)[i + 1] == checkpoints@[i + 1]@);
        }
    }

    if cancelled {
        events.push(StreamEventPayload::Cancelled);
        StreamRun {
            outcome: StreamOutcome::Cancelled,
            events,
            checkpoints,
            accumulated: session.accumulated,
        }
    } else {
        match adapter_end {
            AdapterEnd::Finished => {
                events.push(StreamEventPayload::Done);
                StreamRun {
                    outcome: StreamOutcome::Completed,
                    events,
                    checkpoints,
                    accumulated: session.accumulated,
                }
            },
            AdapterEnd::Failed(e) => StreamRun {
                outcome: StreamOutcome::Failed(e),
                events,
                checkpoints,
                accumulated: session.accumulated,
            },
        }
    }
}

} // verus!
