//! The resume executor's decision machine.
//!
//! One download run is a `Session`. The caller owns the destination file and
//! the network client; the session owns every decision: how the local length
//! is reconciled against the known total, whether a run is already complete,
//! which request to issue, how a response is classified (true resume, 416
//! backoff, unverifiable resume restart), where each body chunk lands in the
//! file, and that a durable sync precedes success whenever bytes were written.

use vstd::prelude::*;
use crate::text::spec_dec;
use crate::text::u64_to_dec;
use vstd::string::StringExecFns;

verus! {

/// What the caller must do to the destination file before going on.
pub enum FileAction {
    /// Leave the file as it is.
    Keep,
    /// Truncate the file to exactly this length.
    Truncate(u64),
}

/// Where the session stands within one run.
pub enum Phase {
    /// A request must be issued next (`next_request`).
    Request,
    /// A response arrived and must be classified (`on_response`).
    Response,
    /// Body chunks are being consumed (`on_chunk`, then `end_of_body`).
    StreamBody,
    /// All bytes are written; a durable sync is owed (`finalized`).
    Finalize,
    /// The run ended successfully; nothing more may happen.
    Done,
}

/// The headers of the next request.
pub struct RequestPlan {
    /// `Some(o)` asks the server for `Range: bytes=o-`; `None` is a plain GET.
    pub range_start: Option<u64>,
    /// Value for `If-Range`, sent only alongside a `Range` header.
    pub if_range: Option<String>,
}

/// How a classified response is to be handled.
pub enum RespAction {
    /// The file is already complete; the run ends with nothing written.
    Complete,
    /// 416 backoff: reissue the request (`next_request`) one byte earlier;
    /// the leading byte of the retried body will be discarded.
    Retry,
    /// Unverifiable resume: truncate the file to zero, then reissue a plain
    /// request (`next_request`).
    Restart,
    /// Accept the body: stream it (`on_chunk` per chunk, then `end_of_body`).
    Stream,
}

/// Placement of one body chunk.
pub struct ChunkDest {
    /// Write the chunk's bytes from this index on; earlier bytes are the
    /// discarded remainder of a 416 backoff and must not reach the file.
    pub data_from: usize,
    /// File offset at which the first kept byte lands.
    pub file_pos: u64,
}

/// Local length after the shrink guard: a file longer than the known total
/// is cut back to the total.
pub open spec fn spec_shrunk_len(local_len: u64, size: Option<u64>) -> u64 {
    match size {
        Some(t) => if local_len > t { t } else { local_len },
        None => local_len,
    }
}

/// Local length after full reconciliation: a server without range support
/// cannot be asked to continue, so any partial content is discarded.
pub open spec fn spec_resume_len(local_len: u64, size: Option<u64>, accept_ranges: bool) -> u64 {
    if !accept_ranges && spec_shrunk_len(local_len, size) > 0 {
        0
    } else {
        spec_shrunk_len(local_len, size)
    }
}

/// The file adjustment reconciliation asks for.
pub open spec fn spec_reconcile_action(
    local_len: u64,
    size: Option<u64>,
    accept_ranges: bool,
) -> FileAction {
    if spec_resume_len(local_len, size, accept_ranges) == local_len {
        FileAction::Keep
    } else {
        FileAction::Truncate(spec_resume_len(local_len, size, accept_ranges))
    }
}

/// Whether a reconciled offset means the download is already complete.
pub open spec fn spec_already_complete(start_offset: u64, size: Option<u64>) -> bool {
    match size {
        Some(t) => start_offset >= t,
        None => false,
    }
}

/// The validator preferred for `If-Range`: the entity tag when known, else
/// the last-modified stamp, else none.
pub open spec fn spec_validator(
    etag: Option<String>,
    last_modified: Option<String>,
) -> Option<Seq<char>> {
    match etag {
        Some(e) => Some(e@),
        None => match last_modified {
            Some(l) => Some(l@),
            None => None,
        },
    }
}

/// A response proves a true resume when it is partial content, or plain OK
/// with an explicit `Content-Range`, or plain OK whose declared length plus
/// the resume offset lands exactly on the known total.
pub open spec fn spec_resume_ok(
    status: u16,
    has_content_range: bool,
    content_length: Option<u64>,
    total: Option<u64>,
    start_offset: u64,
) -> bool {
    ||| status == 206
    ||| (status == 200 && (has_content_range || match (content_length, total) {
        (Some(l), Some(t)) => l + start_offset == t,
        _ => false,
    }))
}

/// One download run. Fields are readable; methods alone move the run along.
pub struct Session {
    /// Total resource length, when the server disclosed one.
    pub size: Option<u64>,
    /// True only when the server explicitly advertised byte ranges.
    pub accept_ranges: bool,
    /// Entity-tag validator from the probe, if any.
    pub etag: Option<String>,
    /// Last-modified validator from the probe, if any.
    pub last_modified: Option<String>,
    /// Byte position at which writing is to resume.
    pub start_offset: u64,
    /// Offset named in the `Range` header of the next request.
    pub request_offset: u64,
    /// Whether the next range request may carry an `If-Range` validator.
    pub use_validators: bool,
    /// Whether the next response is streamed without classification (set
    /// after the one 416 backoff and the one restart).
    pub unconditional: bool,
    /// Stream bytes still to discard before any byte reaches the file.
    pub skip_remaining: u64,
    /// File offset at which the next kept byte lands.
    pub write_pos: u64,
    /// Whether this run put any byte into the file.
    pub wrote_any: bool,
    /// Whether a durable sync has happened this run.
    pub synced: bool,
    /// Where the run stands.
    pub phase: Phase,
}

impl Session {
    /// Well-formedness: a finished run that wrote bytes has synced them, and
    /// no byte is written before the request/response exchange settles.
    pub open spec fn inv(self) -> bool {
        &&& (self.phase is Done ==> (self.wrote_any ==> self.synced))
        &&& ((self.phase is Request || self.phase is Response) ==> !self.wrote_any)
    }

    /// Open a run: reconcile the local length against the known total and
    /// the server's range capability, and decide whether anything remains to
    /// be downloaded at all.
    ///
    /// The caller applies the returned `FileAction` to the file before doing
    /// anything else. When the reconciled offset already covers the known
    /// total, the session starts in `Done`: no request is issued and nothing
    /// is written — re-running on a finished file is a no-op.
    pub fn begin(
        local_len: u64,
        size: Option<u64>,
        accept_ranges: bool,
        etag: Option<String>,
        last_modified: Option<String>,
    ) -> (r: (Session, FileAction))
        ensures
            r.0.inv(),
            r.1 == spec_reconcile_action(local_len, size, accept_ranges),
            r.0.start_offset == spec_resume_len(local_len, size, accept_ranges),
            r.0.size == size,
            r.0.accept_ranges == accept_ranges,
            r.0.etag == etag,
            r.0.last_modified == last_modified,
            r.0.phase == (if spec_already_complete(r.0.start_offset, size) {
                Phase::Done
            } else {
                Phase::Request
            }),
            !r.0.wrote_any,
            !r.0.synced,
            r.0.request_offset == r.0.start_offset,
            r.0.write_pos == r.0.start_offset,
            r.0.skip_remaining == 0,
            r.0.use_validators,
            !r.0.unconditional,
    {
        let shrunk: u64 = match size {
            Some(t) => if local_len > t { t } else { local_len },
            None => local_len,
        };
        let resumed: u64 = if !accept_ranges && shrunk > 0 { 0 } else { shrunk };
        let action = if resumed == local_len {
            FileAction::Keep
        } else {
            FileAction::Truncate(resumed)
        };
        let complete = match size {
            Some(t) => resumed >= t,
            None => false,
        };
        let s = Session {
            size,
            accept_ranges,
            etag,
            last_modified,
            start_offset: resumed,
            request_offset: resumed,
            use_validators: true,
            unconditional: false,
            skip_remaining: 0,
            write_pos: resumed,
            wrote_any: false,
            synced: false,
            phase: if complete { Phase::Done } else { Phase::Request },
        };
        (s, action)
    }

    /// Hand out the headers of the next request and await its response.
    ///
    /// A range is asked for only when the server supports ranges and the
    /// requested offset is positive; a validator rides along only on the
    /// first attempt (never on the 416 backoff or after a restart).
    pub fn next_request(&mut self) -> (r: RequestPlan)
        requires
            old(self).inv(),
            old(self).phase is Request,
        ensures
            final(self).inv(),
            r.range_start == (if old(self).accept_ranges && old(self).request_offset > 0 {
                Some(old(self).request_offset)
            } else {
                None::<u64>
            }),
            r.if_range.deep_view() == (if r.range_start is Some && old(self).use_validators {
                spec_validator(old(self).etag, old(self).last_modified)
            } else {
                None::<Seq<char>>
            }),
            *final(self) == (Session { phase: Phase::Response, ..*old(self) }),
    {
        let range_start = if self.accept_ranges && self.request_offset > 0 {
            Some(self.request_offset)
        } else {
            None
        };
        let if_range: Option<String> = if range_start.is_some() && self.use_validators {
            match &self.etag {
                Some(e) => Some(e.clone()),
                None => match &self.last_modified {
                    Some(l) => Some(l.clone()),
                    None => None,
                },
            }
        } else {
            None
        };
        self.phase = Phase::Response;
        RequestPlan { range_start, if_range }
    }

    /// Classify the response to the request just issued.
    ///
    /// In order: a response to a backoff or restart is streamed as it is
    /// (each happens at most once per run); a 416 on a file that already
    /// covers the known total means complete; any other 416 asks for the
    /// one-byte-earlier retry whose leading byte will be discarded; a ranged
    /// request whose response proves no true resume forces the restart from
    /// zero; everything else is streamed.
    pub fn on_response(
        &mut self,
        status: u16,
        has_content_range: bool,
        content_length: Option<u64>,
    ) -> (r: RespAction)
        requires
            old(self).inv(),
            old(self).phase is Response,
        ensures
            final(self).inv(),
            old(self).unconditional ==> r is Stream,
            !old(self).unconditional ==> r == (if status == 416 {
                if spec_already_complete(old(self).start_offset, old(self).size) {
                    RespAction::Complete
                } else {
                    RespAction::Retry
                }
            } else if old(self).start_offset > 0
                && old(self).accept_ranges
                && old(self).request_offset > 0
                && !spec_resume_ok(status, has_content_range, content_length, old(self).size,
                    old(self).start_offset) {
                RespAction::Restart
            } else {
                RespAction::Stream
            }),
            r is Stream ==> *final(self) == (Session { phase: Phase::StreamBody, ..*old(self) }),
            r is Complete ==> *final(self) == (Session { phase: Phase::Done, ..*old(self) }),
            r is Retry ==> *final(self) == (Session {
                phase: Phase::Request,
                request_offset: (if old(self).start_offset > 0 {
                    old(self).start_offset - 1
                } else {
                    0
                }) as u64,
                skip_remaining: (if old(self).start_offset > 0 { 1u64 } else { 0u64 }),
                write_pos: old(self).start_offset,
                use_validators: false,
                unconditional: true,
                ..*old(self)
            }),
            r is Restart ==> *final(self) == (Session {
                phase: Phase::Request,
                start_offset: 0u64,
                request_offset: 0u64,
                skip_remaining: 0u64,
                write_pos: 0u64,
                use_validators: false,
                unconditional: true,
                ..*old(self)
            }),
    {
        if self.unconditional {
            self.phase = Phase::StreamBody;
            return RespAction::Stream;
        }
        if status == 416 {
            let complete = match self.size {
                Some(t) => self.start_offset >= t,
                None => false,
            };
            if complete {
                self.phase = Phase::Done;
                return RespAction::Complete;
            }
            // The backoff saturates at zero: the retried body then re-sends
            // exactly as many bytes as will be discarded before the write.
            if self.start_offset > 0 {
                self.request_offset = self.start_offset - 1;
                self.skip_remaining = 1;
            } else {
                self.request_offset = 0;
                self.skip_remaining = 0;
            }
            self.write_pos = self.start_offset;
            self.use_validators = false;
            self.unconditional = true;
            self.phase = Phase::Request;
            return RespAction::Retry;
        }
        if self.start_offset > 0 && self.accept_ranges && self.request_offset > 0 {
            let verified_resume = if status == 206 {
                true
            } else if status == 200 {
                if has_content_range {
                    true
                } else {
                    match (content_length, self.size) {
                        (Some(l), Some(t)) => self.start_offset <= t && l == t - self.start_offset,
                        _ => false,
                    }
                }
            } else {
                false
            };
            if !verified_resume {
                self.start_offset = 0;
                self.request_offset = 0;
                self.skip_remaining = 0;
                self.write_pos = 0;
                self.use_validators = false;
                self.unconditional = true;
                self.phase = Phase::Request;
                return RespAction::Restart;
            }
        }
        self.phase = Phase::StreamBody;
        RespAction::Stream
    }

    /// Place one body chunk: the first `skip_remaining` bytes of the stream
    /// are discarded (the 416 backoff's re-sent byte), every byte after them
    /// goes to the file in arrival order, contiguously from `write_pos`.
    pub fn on_chunk(&mut self, chunk: &[u8]) -> (r: ChunkDest)
        requires
            old(self).inv(),
            old(self).phase is StreamBody,
            old(self).write_pos + chunk@.len() <= u64::MAX,
        ensures
            final(self).inv(),
            r.data_from == (if old(self).skip_remaining <= chunk@.len() {
                old(self).skip_remaining as int
            } else {
                chunk@.len() as int
            }),
            r.file_pos == old(self).write_pos,
            chunk@.skip(r.data_from as int) == spec_kept(old(self).skip_remaining as int, chunk@),
            final(self).skip_remaining == spec_skip_after(
                old(self).skip_remaining as int,
                chunk@,
            ),
            *final(self) == (Session {
                skip_remaining: (old(self).skip_remaining - r.data_from) as u64,
                write_pos: (old(self).write_pos + chunk@.len() - r.data_from) as u64,
                wrote_any: old(self).wrote_any || chunk@.len() > r.data_from,
                ..*old(self)
            }),
    {
        let len = chunk.len();
        let drop_count: usize = if self.skip_remaining <= len as u64 {
            self.skip_remaining as usize
        } else {
            len
        };
        let dest = ChunkDest { data_from: drop_count, file_pos: self.write_pos };
        self.skip_remaining = self.skip_remaining - drop_count as u64;
        self.write_pos = self.write_pos + (len - drop_count) as u64;
        if len > drop_count {
            self.wrote_any = true;
        }
        dest
    }

    /// The body ended: a durable sync is owed before the run may report
    /// success, whether or not this response carried any byte.
    pub fn end_of_body(&mut self)
        requires
            old(self).inv(),
            old(self).phase is StreamBody,
        ensures
            final(self).inv(),
            *final(self) == (Session { phase: Phase::Finalize, ..*old(self) }),
    {
        self.phase = Phase::Finalize;
    }

    /// The caller flushed and forced a durable sync; the run is complete.
    pub fn finalized(&mut self)
        requires
            old(self).inv(),
            old(self).phase is Finalize,
        ensures
            final(self).inv(),
            *final(self) == (Session { phase: Phase::Done, synced: true, ..*old(self) }),
    {
        self.synced = true;
        self.phase = Phase::Done;
    }
}

/// The value of a `Range` header naming an open-ended start.
pub open spec fn spec_range_header(offset: int) -> Seq<char> {
    "bytes="@ + spec_dec(offset) + "-"@
}

/// Render the `Range` header value for a resume at `offset`:
/// `bytes=<offset>-`.
pub fn range_header_value(offset: u64) -> (r: String)
    ensures
        r@ == spec_range_header(offset as int),
{
    let r = String::from_str("bytes=").concat(u64_to_dec(offset).as_str()).concat("-");
    proof {
        assert(r@ =~= spec_range_header(offset as int));
    }
    r
}

/// The length preallocation may extend the file to.
pub open spec fn spec_prealloc_target(
    total_size: Option<u64>,
    existing_len: u64,
    preallocate: bool,
) -> Option<u64> {
    match total_size {
        Some(t) => if preallocate && t > existing_len {
            Some(t)
        } else {
            None
        },
        None => None,
    }
}

/// Whether and how far to preallocate: only when the policy asks for it, the
/// total is known, and it exceeds the current length — never a shrink, and a
/// no-op on an already long enough file.
pub fn preallocation_target(total_size: Option<u64>, existing_len: u64, preallocate: bool) -> (r:
    Option<u64>)
    ensures
        r == spec_prealloc_target(total_size, existing_len, preallocate),
        r matches Some(t) ==> t > existing_len,
{
    match total_size {
        Some(t) => if preallocate && t > existing_len {
            Some(t)
        } else {
            None
        },
        None => None,
    }
}

/// Offset correctness: with range support and a local length short of the
/// known total, reconciliation keeps the file and resumes exactly at the
/// local length, so the plan `Session::next_request` hands out asks for
/// `Range: bytes=<local length>-`.
pub proof fn lemma_offset_correctness(local_len: u64, t: u64)
    requires
        local_len < t,
    ensures
        spec_resume_len(local_len, Some(t), true) == local_len,
        spec_reconcile_action(local_len, Some(t), true) == FileAction::Keep,
        !spec_already_complete(local_len, Some(t)),
        local_len > 0 ==> spec_range_header(local_len as int) == "bytes="@ + spec_dec(
            local_len as int,
        ) + "-"@,
{
}

/// What of a chunk survives when `skip` stream bytes are still to discard.
pub open spec fn spec_kept(skip: int, chunk: Seq<u8>) -> Seq<u8> {
    if skip <= chunk.len() {
        chunk.skip(skip)
    } else {
        Seq::empty()
    }
}

/// Stream bytes still to discard once a chunk has been consumed.
pub open spec fn spec_skip_after(skip: int, chunk: Seq<u8>) -> int {
    if skip <= chunk.len() {
        0
    } else {
        skip - chunk.len()
    }
}

/// The bytes a whole body puts into the file: each chunk's kept part, in
/// arrival order, under a discard budget that the leading chunks use up.
/// This is exactly what repeated `on_chunk` calls emit.
pub open spec fn spec_written_stream(skip: int, chunks: Seq<Seq<u8>>) -> Seq<u8>
    decreases chunks.len(),
{
    if chunks.len() == 0 {
        Seq::empty()
    } else {
        spec_kept(skip, chunks.first()) + spec_written_stream(
            spec_skip_after(skip, chunks.first()),
            chunks.drop_first(),
        )
    }
}

proof fn lemma_kept_concat(skip: int, a: Seq<u8>, b: Seq<u8>)
    requires
        skip >= 0,
    ensures
        spec_kept(skip, a + b) == spec_kept(skip, a) + spec_kept(spec_skip_after(skip, a), b),
{
    if skip <= a.len() {
        assert(spec_kept(skip, a + b) =~= spec_kept(skip, a) + spec_kept(0, b));
    } else if skip <= a.len() + b.len() {
        assert(spec_kept(skip, a + b) =~= spec_kept(skip, a) + spec_kept(skip - a.len(), b));
    } else {
        assert(spec_kept(skip, a + b) =~= spec_kept(skip, a) + spec_kept(skip - a.len(), b));
    }
}

/// However a body is cut into chunks, discarding under a budget of `skip`
/// writes exactly the body minus its first `skip` bytes: the 416 backoff's
/// byte-skip drops stream bytes, never already-kept ones, so no later byte
/// shifts position.
pub proof fn lemma_stream_reassembly(skip: int, chunks: Seq<Seq<u8>>)
    requires
        skip >= 0,
    ensures
        spec_written_stream(skip, chunks) == spec_kept(skip, chunks.flatten()),
    decreases chunks.len(),
{
    if chunks.len() == 0 {
        assert(spec_written_stream(skip, chunks) =~= spec_kept(skip, chunks.flatten()));
    } else {
        lemma_stream_reassembly(spec_skip_after(skip, chunks.first()), chunks.drop_first());
        lemma_kept_concat(skip, chunks.first(), chunks.drop_first().flatten());
    }
}

/// Idempotence on completion: once the local file covers a known total and
/// the server supports ranges, a fresh run reconciles to an offset at the
/// total and `Session::begin` opens in `Done` — no request is issued and no
/// byte is written. (A server without range support instead truncates any
/// nonempty file to zero first, so completion is not recognized there.)
pub proof fn lemma_idempotence_on_completion(local_len: u64, t: u64)
    requires
        local_len >= t,
    ensures
        spec_already_complete(spec_resume_len(local_len, Some(t), true), Some(t)),
        local_len == t ==> spec_reconcile_action(local_len, Some(t), true) == FileAction::Keep,
{
}

/// Non-resumable server: when ranges are unsupported and the file holds
/// anything, reconciliation truncates it to zero — partial content is
/// discarded before any request rather than risked as corrupt.
pub proof fn lemma_non_resumable_truncates(local_len: u64, size: Option<u64>)
    requires
        local_len > 0,
    ensures
        spec_resume_len(local_len, size, false) == 0,
        spec_reconcile_action(local_len, size, false) == FileAction::Truncate(0),
{
}

/// Shrink guard: a file longer than the known total (a corrupted prior run)
/// is truncated to the total before the offset is computed, which makes the
/// run an immediate complete-skip.
pub proof fn lemma_shrink_guard(local_len: u64, t: u64)
    requires
        local_len > t,
    ensures
        spec_reconcile_action(local_len, Some(t), true) == FileAction::Truncate(t),
        spec_resume_len(local_len, Some(t), true) == t,
        spec_already_complete(spec_resume_len(local_len, Some(t), true), Some(t)),
{
}

/// Durability: a run that put bytes into the file can only stand in `Done`
/// after the durable sync — `begin`'s complete-skip writes nothing, and the
/// only other way into `Done` is `finalized`.
pub proof fn lemma_done_implies_synced(s: Session)
    requires
        s.inv(),
        s.phase is Done,
        s.wrote_any,
    ensures
        s.synced,
{
}

} // verus!
