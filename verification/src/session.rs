//! The download state machine.
//!
//! One [`Session`] drives one download call, whichever variant. The runner
//! performs the outside work — issuing the request, creating the file,
//! pulling and persisting chunks — and hands each outcome to the session,
//! which decides what follows, makes every call into the progress sink, and
//! classifies every failure. A ghost trace records each sink call and the
//! bytes delivered for persistence, so the ordering guarantees of a download
//! are stated and proved here.

use vstd::prelude::*;

use crate::downloader::Downloader;
use crate::error::{classify_fault, Error, IoKind, TransportFault};

verus! {

/// One call the session made into the progress sink.
pub enum SinkCall {
    /// `init`, with the declared total size.
    Init { total: u64 },
    /// `update`, with one chunk's bytes.
    Update { bytes: Seq<u8> },
}

/// The phase a session is in. `Streaming` is re-entered once per chunk;
/// every other phase is visited at most once per session.
#[derive(Clone, Copy, Debug, PartialEq, Eq, Structural)]
pub enum Phase {
    /// No response has been handled yet.
    Start,
    /// The response was accepted and the declared total size is known; the
    /// sink has not been initialized yet.
    SizeKnown,
    /// The sink is initialized and chunks are being delivered.
    Streaming,
    /// The stream ended and the download succeeded.
    Complete,
    /// The download aborted with an error.
    Failed,
}

/// The response metadata the size-discovery step reads: the HTTP status and
/// the declared content length, if the response carried one.
#[derive(Clone, Copy, Debug)]
pub struct ResponseInfo {
    /// The HTTP status code of the response.
    pub status: u16,
    /// The content length the response declared, if any.
    pub content_length: Option<u64>,
}

/// An HTTP status that rejects the download: the client-error and
/// server-error classes.
pub open spec fn is_error_status(code: u16) -> bool {
    400 <= code < 600
}

/// The chunks passed to `update`, in order, read off a trace of sink calls.
pub open spec fn update_payloads(calls: Seq<SinkCall>) -> Seq<Seq<u8>>
    decreases calls.len(),
{
    if calls.len() == 0 {
        Seq::empty()
    } else if calls.last() is Update {
        update_payloads(calls.drop_last()).push(calls.last()->bytes)
    } else {
        update_payloads(calls.drop_last())
    }
}

/// The concatenation of a sequence of chunks, in order.
pub open spec fn concat_chunks(chunks: Seq<Seq<u8>>) -> Seq<u8>
    decreases chunks.len(),
{
    if chunks.len() == 0 {
        Seq::empty()
    } else {
        concat_chunks(chunks.drop_last()) + chunks.last()
    }
}

/// The sum of the lengths of a sequence of chunks.
pub open spec fn sum_of_lens(chunks: Seq<Seq<u8>>) -> nat
    decreases chunks.len(),
{
    if chunks.len() == 0 {
        0
    } else {
        sum_of_lens(chunks.drop_last()) + chunks.last().len()
    }
}

/// Concatenating chunks yields exactly as many bytes as their lengths sum to.
pub proof fn lemma_concat_chunks_len(chunks: Seq<Seq<u8>>)
    ensures
        concat_chunks(chunks).len() == sum_of_lens(chunks),
    decreases chunks.len(),
{
    if chunks.len() > 0 {
        lemma_concat_chunks_len(chunks.drop_last());
    }
}

/// Appending one chunk appends exactly its bytes to the concatenation.
pub proof fn lemma_concat_chunks_push(chunks: Seq<Seq<u8>>, c: Seq<u8>)
    ensures
        concat_chunks(chunks.push(c)) == concat_chunks(chunks) + c,
{
    assert(chunks.push(c).drop_last() =~= chunks);
    assert(chunks.push(c).last() == c);
}

/// Recording one more `update` call appends exactly its chunk to the
/// delivered payloads.
pub proof fn lemma_update_payloads_push(calls: Seq<SinkCall>, bytes: Seq<u8>)
    ensures
        update_payloads(calls.push((SinkCall::Update { bytes }))) == update_payloads(calls).push(
            bytes,
        ),
{
    assert(calls.push((SinkCall::Update { bytes })).drop_last() =~= calls);
}

/// One download call's state: the phase, the declared total size once known,
/// and the ghost history of the call — every call made into the sink, and
/// the bytes handed over for persistence (the model of the destination
/// file's content, in the file variant).
pub struct Session {
    /// The phase of the state machine.
    pub phase: Phase,
    /// The declared total size; meaningful from `SizeKnown` on.
    pub total: u64,
    /// Every call made into the sink through this session, in order.
    pub calls: Ghost<Seq<SinkCall>>,
    /// The bytes delivered for persistence, in arrival order.
    pub written: Ghost<Seq<u8>>,
}

impl Session {
    /// The chunks passed to `update` so far, in order.
    pub open spec fn chunks_delivered(self) -> Seq<Seq<u8>> {
        update_payloads(self.calls@)
    }

    /// The sink has received its `init` call.
    pub open spec fn sink_started(self) -> bool {
        self.calls@.len() > 0
    }

    /// The session's invariant: if the sink was touched at all, its first
    /// call was `init` with the declared total and every later call is an
    /// `update`; no sink call is made before the size is known; a streaming
    /// or complete session has an initialized sink; and the bytes handed
    /// over for persistence are exactly the concatenation of the delivered
    /// chunks, in order.
    pub open spec fn wf(self) -> bool {
        &&& (self.sink_started() ==> self.calls@[0] == (SinkCall::Init { total: self.total }))
        &&& (forall|i: int| 1 <= i < self.calls@.len() ==> self.calls@[i] is Update)
        &&& (self.phase == Phase::Start || self.phase == Phase::SizeKnown ==> self.calls@.len()
            == 0)
        &&& (self.phase == Phase::Streaming || self.phase == Phase::Complete
            ==> self.sink_started())
        &&& self.written@ == concat_chunks(self.chunks_delivered())
    }

    /// Opens a session: nothing has happened yet and the sink is untouched.
    pub fn new() -> (s: Session)
        ensures
            s.wf(),
            s.phase == Phase::Start,
            s.calls@ == Seq::<SinkCall>::empty(),
            s.written@ == Seq::<u8>::empty(),
    {
        Session {
            phase: Phase::Start,
            total: 0,
            calls: Ghost(Seq::empty()),
            written: Ghost(Seq::empty()),
        }
    }

    /// Records a transport-level failure of the request itself and
    /// classifies it. The sink is never touched by a session that fails
    /// here.
    pub fn fail_request(&mut self, fault: TransportFault) -> (e: Error)
        requires
            old(self).wf(),
            old(self).phase == Phase::Start,
        ensures
            final(self).wf(),
            final(self).phase == Phase::Failed,
            final(self).calls@ == old(self).calls@,
            final(self).calls@.len() == 0,
            final(self).written@ == old(self).written@,
            e == classify_fault(fault),
    {
        self.phase = Phase::Failed;
        Error::from(fault)
    }

    /// Handles the response metadata: an error status rejects the download
    /// with that status; an accepted response that declares no content
    /// length rejects it — the size is never defaulted and the stream is
    /// never read until end-of-data instead; otherwise the declared total is
    /// recorded and returned. The sink is not touched either way.
    pub fn on_response(&mut self, info: ResponseInfo) -> (r: Result<u64, Error>)
        requires
            old(self).wf(),
            old(self).phase == Phase::Start,
        ensures
            final(self).wf(),
            final(self).calls@ == old(self).calls@,
            final(self).calls@.len() == 0,
            final(self).written@ == old(self).written@,
            is_error_status(info.status) ==> {
                &&& r == Err::<u64, Error>(Error::Status(Some(info.status)))
                &&& final(self).phase == Phase::Failed
            },
            !is_error_status(info.status) && info.content_length is None ==> {
                &&& r == Err::<u64, Error>(Error::GetTotalSize)
                &&& final(self).phase == Phase::Failed
            },
            !is_error_status(info.status) && info.content_length is Some ==> {
                &&& r == Ok::<u64, Error>(info.content_length->0)
                &&& final(self).phase == Phase::SizeKnown
                &&& final(self).total == info.content_length->0
            },
    {
        if 400 <= info.status && info.status < 600 {
            self.phase = Phase::Failed;
            Err(Error::Status(Some(info.status)))
        } else {
            match info.content_length {
                None => {
                    self.phase = Phase::Failed;
                    Err(Error::GetTotalSize)
                },
                Some(total) => {
                    self.phase = Phase::SizeKnown;
                    self.total = total;
                    Ok(total)
                },
            }
        }
    }

    /// Records that the destination file could not be created. Neither sink
    /// method was invoked before this point, and none will be.
    pub fn on_file_error(&mut self, kind: IoKind) -> (e: Error)
        requires
            old(self).wf(),
            old(self).phase == Phase::SizeKnown,
        ensures
            final(self).wf(),
            final(self).phase == Phase::Failed,
            final(self).calls@ == old(self).calls@,
            final(self).calls@.len() == 0,
            final(self).written@ == old(self).written@,
            e == Error::FileCreation(kind),
    {
        self.phase = Phase::Failed;
        Error::FileCreation(kind)
    }

    /// Initializes the sink with the declared total size: the one `init`
    /// call of the download, made before any chunk is delivered.
    pub fn start<D: Downloader>(&mut self, sink: &mut D)
        requires
            old(self).wf(),
            old(self).phase == Phase::SizeKnown,
        ensures
            final(self).wf(),
            final(self).phase == Phase::Streaming,
            final(self).total == old(self).total,
            final(self).calls@ == seq![(SinkCall::Init { total: old(self).total })],
            final(self).chunks_delivered() == Seq::<Seq<u8>>::empty(),
            final(self).written@ == old(self).written@,
            final(self).written@.len() == 0,
    {
        sink.init(self.total);
        self.phase = Phase::Streaming;
        self.calls = Ghost(self.calls@.push(SinkCall::Init { total: self.total }));
        proof {
            assert(self.calls@ =~= seq![(SinkCall::Init { total: self.total })]);
            assert(self.calls@.drop_last() =~= Seq::<SinkCall>::empty());
            assert(update_payloads(Seq::<SinkCall>::empty()) == Seq::<Seq<u8>>::empty());
            assert(update_payloads(self.calls@) == Seq::<Seq<u8>>::empty());
            assert(concat_chunks(Seq::<Seq<u8>>::empty()) == Seq::<u8>::empty());
            assert(old(self).calls@ =~= Seq::<SinkCall>::empty());
        }
    }

    /// Delivers one received chunk: in the file variant the runner has
    /// already persisted exactly these bytes, and the sink's `update` is
    /// called with them, in arrival order — the chunk is neither split nor
    /// coalesced.
    pub fn on_chunk<D: Downloader>(&mut self, sink: &mut D, chunk: &[u8])
        requires
            old(self).wf(),
            old(self).phase == Phase::Streaming,
        ensures
            final(self).wf(),
            final(self).phase == Phase::Streaming,
            final(self).total == old(self).total,
            final(self).calls@ == old(self).calls@.push((SinkCall::Update { bytes: chunk@ })),
            final(self).chunks_delivered() == old(self).chunks_delivered().push(chunk@),
            final(self).written@ == old(self).written@ + chunk@,
    {
        sink.update(chunk);
        proof {
            lemma_update_payloads_push(self.calls@, chunk@);
            lemma_concat_chunks_push(update_payloads(self.calls@), chunk@);
        }
        self.calls = Ghost(self.calls@.push(SinkCall::Update { bytes: chunk@ }));
        self.written = Ghost(self.written@ + chunk@);
    }

    /// Records a transport-level failure while reading the stream and
    /// classifies it. Everything already delivered stays delivered: the
    /// partially persisted bytes are left as they are, deliberately.
    pub fn fail_stream(&mut self, fault: TransportFault) -> (e: Error)
        requires
            old(self).wf(),
            old(self).phase == Phase::Streaming,
        ensures
            final(self).wf(),
            final(self).phase == Phase::Failed,
            final(self).calls@ == old(self).calls@,
            final(self).written@ == old(self).written@,
            e == classify_fault(fault),
    {
        self.phase = Phase::Failed;
        Error::from(fault)
    }

    /// Records the end of the stream: the download succeeded. Whether the
    /// bytes received match the declared total size is not checked; a server
    /// that under- or over-delivers against its own declaration is not an
    /// error here.
    pub fn complete(&mut self)
        requires
            old(self).wf(),
            old(self).phase == Phase::Streaming,
        ensures
            final(self).wf(),
            final(self).phase == Phase::Complete,
            final(self).total == old(self).total,
            final(self).calls@ == old(self).calls@,
            final(self).written@ == old(self).written@,
    {
        self.phase = Phase::Complete;
    }

    /// Whether the download has completed successfully.
    pub fn is_complete(&self) -> (b: bool)
        ensures
            b == (self.phase == Phase::Complete),
    {
        self.phase == Phase::Complete
    }

    /// Whether the download has aborted with an error.
    pub fn is_failed(&self) -> (b: bool)
        ensures
            b == (self.phase == Phase::Failed),
    {
        self.phase == Phase::Failed
    }
}

/// `init` is called exactly once, with the declared total size, and strictly
/// before every `update` call, in any session whose sink has been started —
/// a download that succeeds, or fails only after the size was known, is such
/// a session.
pub proof fn lemma_init_once_before_updates(s: Session)
    requires
        s.wf(),
        s.sink_started(),
    ensures
        s.calls@[0] == (SinkCall::Init { total: s.total }),
        forall|i: int| 1 <= i < s.calls@.len() ==> s.calls@[i] is Update,
        forall|i: int| 0 <= i < s.calls@.len() && #[trigger] (s.calls@[i]) is Init ==> i == 0,
{
    assert forall|i: int| 0 <= i < s.calls@.len() && #[trigger] (s.calls@[i]) is Init implies i
        == 0 by {
        if i >= 1 {
            assert(s.calls@[i] is Update);
        }
    }
}

/// No chunk is dropped, duplicated or reordered: in any session the bytes
/// handed over for persistence are exactly the concatenation of the chunks
/// passed to `update`, in order, and the lengths of those chunks sum to the
/// number of bytes handed over.
pub proof fn lemma_updates_account_for_written(s: Session)
    requires
        s.wf(),
    ensures
        s.written@ == concat_chunks(s.chunks_delivered()),
        s.written@.len() == sum_of_lens(s.chunks_delivered()),
{
    lemma_concat_chunks_len(s.chunks_delivered());
}

/// The destination's final content is a function of the delivered chunks
/// alone: two downloads that deliver the same chunks persist the same bytes,
/// so repeating a successful download yields the same file content both
/// times.
pub proof fn lemma_same_chunks_same_bytes(a: Session, b: Session)
    requires
        a.wf(),
        b.wf(),
        a.chunks_delivered() == b.chunks_delivered(),
    ensures
        a.written@ == b.written@,
{
}

} // verus!
