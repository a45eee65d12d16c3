use vstd::prelude::*;
use vstd::slice::slice_subrange;

use crate::error::DbfsError;
use crate::path::{is_invalid_path_error, remote_path, strip_dbfs_prefix};
use crate::read::{assembled, block_at, lemma_whole_read_is_file};

verus! {

/// How many bytes the streaming reader asks for in one block request.
pub const STREAM_BLOCK_SIZE: usize = 4096;

/// The phases of a stream.
#[derive(Clone, Copy, Debug, PartialEq, Eq, Structural)]
pub enum StreamPhase {
    /// The file size is not known yet.
    ResolvingSize,
    /// The size is known and no block request is in flight; the buffer may
    /// hold bytes not yet handed out.
    Idle,
    /// A block request is in flight and the buffer is used up.
    Fetching,
    /// Every byte of the file was handed out.
    Ended,
    /// An operation failed; the stream hands out nothing more.
    Failed,
}

/// The answer of one step of a line read.
pub enum LinePull {
    /// The line is complete: it ends with a newline, or the stream ended.
    Done,
    /// Bytes were added to the line and no newline came yet: pull again.
    More,
    /// No bytes were ready; the answer of the pull, which is neither
    /// `Ready` nor `End`.
    Other(Pull),
}

/// What a stream is, as far as its contracts tell.
pub struct StreamView {
    pub phase: StreamPhase,
    /// Whether the size request was handed out.
    pub requested: bool,
    pub size: nat,
    /// How many bytes were handed out.
    pub offset: nat,
    pub buf: Seq<u8>,
    pub cursor: nat,
    /// The failure that waits to be reported, if any.
    pub error: Option<DbfsError>,
}

/// The kinds of answer of a pull.
pub enum PullKind {
    ResolveSize,
    FetchBlock,
    Waiting,
    Ready,
    End,
    Failed,
}

/// The answer of a pull: what the caller is to do before it pulls again.
pub enum Pull {
    /// Ask for the file's status and hand the outcome to `on_status`.
    ResolveSize,
    /// Read `length` bytes at `offset` and hand the outcome to `on_block`.
    FetchBlock { offset: u64, length: usize },
    /// The request handed out before is still in flight.
    Waiting,
    /// Bytes are buffered: see `available`, `take`, `consume`, `take_line`.
    Ready,
    /// End of stream: no bytes are left.
    End,
    /// The stream failed; the error comes with the first such answer only.
    Failed(Option<DbfsError>),
}

impl Pull {
    pub open spec fn kind(&self) -> PullKind {
        match self {
            Pull::ResolveSize => PullKind::ResolveSize,
            Pull::FetchBlock { .. } => PullKind::FetchBlock,
            Pull::Waiting => PullKind::Waiting,
            Pull::Ready => PullKind::Ready,
            Pull::End => PullKind::End,
            Pull::Failed(_) => PullKind::Failed,
        }
    }
}

/// The bytes buffered and not handed out yet.
pub open spec fn unread(v: StreamView) -> Seq<u8> {
    v.buf.subrange(v.cursor as int, v.buf.len() as int)
}

pub open spec fn view_wf(v: StreamView) -> bool {
    &&& v.cursor <= v.buf.len()
    &&& v.size <= u64::MAX
    &&& (v.phase is Idle || v.phase is Fetching || v.phase is Ended) ==> v.offset + unread(v).len()
        <= v.size
    &&& v.phase is Fetching ==> v.cursor == v.buf.len()
    &&& v.phase is Ended ==> v.offset == v.size
    &&& v.phase is ResolvingSize ==> v.offset == 0 && v.cursor == 0 && v.buf.len() == 0
}

/// The state and answer after a pull.
pub open spec fn pull_spec(v: StreamView) -> (StreamView, PullKind) {
    match v.phase {
        StreamPhase::ResolvingSize => if !v.requested {
            (StreamView { requested: true, ..v }, PullKind::ResolveSize)
        } else {
            (v, PullKind::Waiting)
        },
        StreamPhase::Idle => if v.offset >= v.size {
            (StreamView { phase: StreamPhase::Ended, ..v }, PullKind::End)
        } else if v.cursor < v.buf.len() {
            (v, PullKind::Ready)
        } else {
            (StreamView { phase: StreamPhase::Fetching, ..v }, PullKind::FetchBlock)
        },
        StreamPhase::Fetching => (v, PullKind::Waiting),
        StreamPhase::Ended => (v, PullKind::End),
        StreamPhase::Failed => (StreamView { error: None, ..v }, PullKind::Failed),
    }
}

/// The state after the size request ends, with the size or a failure.
pub open spec fn status_spec(v: StreamView, size: Result<u64, DbfsError>) -> StreamView {
    match size {
        Ok(n) => StreamView {
            phase: StreamPhase::Idle,
            size: n as nat,
            offset: 0,
            buf: Seq::empty(),
            cursor: 0,
            ..v
        },
        Err(e) => StreamView { phase: StreamPhase::Failed, error: Some(e), ..v },
    }
}

/// The state after a block request ends, with the block or a failure. Bytes
/// past the file size are dropped.
pub open spec fn block_spec(v: StreamView, block: Result<Seq<u8>, DbfsError>) -> StreamView {
    match block {
        Ok(b) => StreamView {
            phase: StreamPhase::Idle,
            buf: if v.offset + b.len() <= v.size {
                b
            } else {
                b.take(v.size - v.offset)
            },
            cursor: 0,
            ..v
        },
        Err(e) => StreamView { phase: StreamPhase::Failed, error: Some(e), ..v },
    }
}

/// How many bytes a read of at most `max` bytes hands out.
pub open spec fn take_count(v: StreamView, max: nat) -> nat {
    if v.phase is Idle {
        if unread(v).len() < max {
            unread(v).len()
        } else {
            max
        }
    } else {
        0
    }
}

/// The state after `k` buffered bytes are handed out.
pub open spec fn advance_spec(v: StreamView, k: nat) -> StreamView {
    StreamView { cursor: v.cursor + k, offset: v.offset + k, ..v }
}

/// The length of the first line of `s`: through its first newline, or all
/// of `s` where it has none.
pub open spec fn line_len(s: Seq<u8>) -> nat
    decreases s.len(),
{
    if s.len() == 0 {
        0
    } else if s[0] == 10u8 {
        1
    } else {
        1 + line_len(s.skip(1))
    }
}

/// A pull-based reader of one remote file, which fetches blocks one at a
/// time as its buffer runs out.
pub struct ReadStreamState {
    path: String,
    phase: StreamPhase,
    requested: bool,
    file_size: u64,
    file_offset: u64,
    current_buf: Vec<u8>,
    current_buf_offset: usize,
    error: Option<DbfsError>,
}

impl View for ReadStreamState {
    type V = StreamView;

    closed spec fn view(&self) -> StreamView {
        StreamView {
            phase: self.phase,
            requested: self.requested,
            size: self.file_size as nat,
            offset: self.file_offset as nat,
            buf: self.current_buf@,
            cursor: self.current_buf_offset as nat,
            error: self.error,
        }
    }
}

impl ReadStreamState {
    pub open spec fn wf(&self) -> bool {
        view_wf(self@)
    }

    pub closed spec fn spec_path(&self) -> Seq<char> {
        self.path@
    }

    /// Opens a stream on `path`. A path that names no remote file gives a
    /// stream that has failed, whose first pull reports the error.
    pub fn new(path: &str) -> (r: ReadStreamState)
        ensures
            r.wf(),
            r@.offset == 0,
            match remote_path(path@) {
                Some(p) => {
                    &&& r@.phase is ResolvingSize
                    &&& !r@.requested
                    &&& r@.error is None
                    &&& r.spec_path() == p
                },
                None => {
                    &&& r@.phase is Failed
                    &&& r@.error is Some
                    &&& is_invalid_path_error(r@.error->Some_0, path@)
                },
            },
    {
        match strip_dbfs_prefix(path) {
            Ok(p) => ReadStreamState {
                path: String::from_str(p),
                phase: StreamPhase::ResolvingSize,
                requested: false,
                file_size: 0,
                file_offset: 0,
                current_buf: Vec::new(),
                current_buf_offset: 0,
                error: None,
            },
            Err(e) => ReadStreamState {
                path: String::from_str(path),
                phase: StreamPhase::Failed,
                requested: false,
                file_size: 0,
                file_offset: 0,
                current_buf: Vec::new(),
                current_buf_offset: 0,
                error: Some(e),
            },
        }
    }

    /// The remote path of the stream's requests.
    pub fn path(&self) -> (r: &str)
        ensures
            r@ == self.spec_path(),
    {
        self.path.as_str()
    }

    /// The phase of the stream.
    pub fn phase(&self) -> (r: StreamPhase)
        ensures
            r == self@.phase,
    {
        self.phase
    }

    /// One pull: says whether bytes are ready, the stream has ended or
    /// failed, or which request the caller is to make. Never more than one
    /// request is in flight, and a block is requested only once the buffer
    /// is used up.
    pub fn pull(&mut self) -> (r: Pull)
        requires
            old(self).wf(),
        ensures
            final(self).wf(),
            final(self)@ == pull_spec(old(self)@).0,
            r.kind() == pull_spec(old(self)@).1,
            final(self).spec_path() == old(self).spec_path(),
            r is FetchBlock ==> r->offset == old(self)@.offset && r->length == STREAM_BLOCK_SIZE,
            r is Failed ==> r == Pull::Failed(old(self)@.error),
    {
        match self.phase {
            StreamPhase::ResolvingSize => {
                if !self.requested {
                    self.requested = true;
                    Pull::ResolveSize
                } else {
                    Pull::Waiting
                }
            },
            StreamPhase::Idle => {
                if self.file_offset >= self.file_size {
                    self.phase = StreamPhase::Ended;
                    Pull::End
                } else if self.current_buf_offset < self.current_buf.len() {
                    Pull::Ready
                } else {
                    self.phase = StreamPhase::Fetching;
                    Pull::FetchBlock { offset: self.file_offset, length: STREAM_BLOCK_SIZE }
                }
            },
            StreamPhase::Fetching => Pull::Waiting,
            StreamPhase::Ended => Pull::End,
            StreamPhase::Failed => Pull::Failed(self.error.take()),
        }
    }

    /// Hands the outcome of the size request to the stream.
    pub fn on_status(&mut self, outcome: Result<u64, DbfsError>)
        requires
            old(self).wf(),
            old(self)@.phase is ResolvingSize,
        ensures
            final(self).wf(),
            final(self)@ == status_spec(old(self)@, outcome),
            final(self).spec_path() == old(self).spec_path(),
    {
        match outcome {
            Ok(n) => {
                self.file_size = n;
                self.file_offset = 0;
                self.current_buf = Vec::new();
                self.current_buf_offset = 0;
                self.phase = StreamPhase::Idle;
            },
            Err(e) => {
                self.error = Some(e);
                self.phase = StreamPhase::Failed;
            },
        }
    }

    /// Hands the outcome of the block request in flight to the stream.
    pub fn on_block(&mut self, outcome: Result<Vec<u8>, DbfsError>)
        requires
            old(self).wf(),
            old(self)@.phase is Fetching,
        ensures
            final(self).wf(),
            final(self)@ == block_spec(
                old(self)@,
                match outcome {
                    Ok(b) => Ok(b@),
                    Err(e) => Err(e),
                },
            ),
            final(self).spec_path() == old(self).spec_path(),
    {
        match outcome {
            Ok(b) => {
                let room = self.file_size - self.file_offset;
                let mut b = b;
                if (b.len() as u64) > room {
                    b.truncate(room as usize);
                }
                self.current_buf = b;
                self.current_buf_offset = 0;
                self.phase = StreamPhase::Idle;
                assert(self@.buf =~= block_spec(old(self)@, Ok(b@)).buf) by {
                    let ob = outcome->Ok_0@;
                    if old(self)@.offset + ob.len() > old(self)@.size {
                        assert(b@ =~= ob.take(old(self)@.size - old(self)@.offset));
                    }
                };
            },
            Err(e) => {
                self.error = Some(e);
                self.phase = StreamPhase::Failed;
            },
        }
    }

    /// The buffered bytes not handed out yet; empty unless a pull answered
    /// `Ready`.
    pub fn available(&self) -> (r: &[u8])
        requires
            self.wf(),
        ensures
            self@.phase is Idle ==> r@ == unread(self@),
            !(self@.phase is Idle) ==> r@.len() == 0,
    {
        if self.phase == StreamPhase::Idle {
            slice_subrange(self.current_buf.as_slice(), self.current_buf_offset, self.current_buf.len())
        } else {
            slice_subrange(self.current_buf.as_slice(), 0, 0)
        }
    }

    /// Marks `amount` buffered bytes as handed out, no more than are buffered.
    pub fn consume(&mut self, amount: usize)
        requires
            old(self).wf(),
        ensures
            final(self).wf(),
            final(self)@ == advance_spec(old(self)@, take_count(old(self)@, amount as nat)),
            final(self).spec_path() == old(self).spec_path(),
    {
        if self.phase == StreamPhase::Idle {
            let left = self.current_buf.len() - self.current_buf_offset;
            let k = if left < amount {
                left
            } else {
                amount
            };
            self.current_buf_offset = self.current_buf_offset + k;
            self.file_offset = self.file_offset + k as u64;
        }
    }

    /// Hands out at most `max` buffered bytes: the read of a caller whose
    /// destination holds `max` bytes.
    pub fn take(&mut self, max: usize) -> (r: Vec<u8>)
        requires
            old(self).wf(),
        ensures
            final(self).wf(),
            final(self)@ == advance_spec(old(self)@, take_count(old(self)@, max as nat)),
            r@ == unread(old(self)@).take(take_count(old(self)@, max as nat) as int),
            final(self).spec_path() == old(self).spec_path(),
    {
        let ghost k = take_count(self@, max as nat);
        let mut out: Vec<u8> = Vec::new();
        if self.phase == StreamPhase::Idle {
            let left = self.current_buf.len() - self.current_buf_offset;
            let n = if left < max {
                left
            } else {
                max
            };
            let start = self.current_buf_offset;
            let total = self.current_buf.len();
            let mut i: usize = 0;
            while i < n
                invariant
                    i <= n,
                    total == self.current_buf@.len(),
                    n == k,
                    start == self.current_buf_offset,
                    start + n <= total,
                    out@ == self.current_buf@.subrange(start as int, start + i),
                decreases n - i,
            {
                out.push(self.current_buf[start + i]);
                i = i + 1;
                assert(out@ =~= self.current_buf@.subrange(start as int, start + i));
            }
            self.current_buf_offset = start + n;
            self.file_offset = self.file_offset + n as u64;
        }
        assert(out@ =~= unread(old(self)@).take(k as int));
        out
    }

    /// One step of a line read: a pull, and where bytes are ready, taking
    /// them through the first newline into `line`. The line is complete once
    /// a newline was taken or the stream has ended.
    pub fn pull_line(&mut self, line: &mut Vec<u8>) -> (r: LinePull)
        requires
            old(self).wf(),
        ensures
            final(self).wf(),
            final(self).spec_path() == old(self).spec_path(),
            pull_spec(old(self)@).1 is Ready ==> {
                let k = line_len(unread(old(self)@));
                &&& final(self)@ == advance_spec(old(self)@, k)
                &&& final(line)@ == old(line)@ + unread(old(self)@).take(k as int)
                &&& (r is Done <==> (k > 0 && unread(old(self)@)[k - 1] == 10u8))
                &&& (r is Done || r is More)
            },
            pull_spec(old(self)@).1 is End ==> r is Done && final(self)@ == pull_spec(
                old(self)@,
            ).0 && final(line)@ == old(line)@,
            !(pull_spec(old(self)@).1 is Ready) && !(pull_spec(old(self)@).1 is End) ==> {
                &&& r is Other
                &&& final(self)@ == pull_spec(old(self)@).0
                &&& final(line)@ == old(line)@
                &&& r->Other_0.kind() == pull_spec(old(self)@).1
                &&& r->Other_0 is FetchBlock ==> r->Other_0->offset == old(self)@.offset
                    && r->Other_0->length == STREAM_BLOCK_SIZE
                &&& r->Other_0 is Failed ==> r->Other_0 == Pull::Failed(old(self)@.error)
            },
    {
        let p = self.pull();
        match p {
            Pull::Ready => {
                if self.take_line(line) {
                    LinePull::Done
                } else {
                    LinePull::More
                }
            },
            Pull::End => LinePull::Done,
            other => LinePull::Other(other),
        }
    }

    /// Hands out the buffered bytes through the first newline, or all of
    /// them where there is none, appending them to `line`. Returns whether a
    /// newline ended what was handed out.
    pub fn take_line(&mut self, line: &mut Vec<u8>) -> (r: bool)
        requires
            old(self).wf(),
        ensures
            final(self).wf(),
            final(self).spec_path() == old(self).spec_path(),
            old(self)@.phase is Idle ==> {
                let k = line_len(unread(old(self)@));
                &&& final(self)@ == advance_spec(old(self)@, k)
                &&& final(line)@ == old(line)@ + unread(old(self)@).take(k as int)
                &&& r == (k > 0 && unread(old(self)@)[k - 1] == 10u8)
            },
            !(old(self)@.phase is Idle) ==> final(self)@ == old(self)@ && final(line)@ == old(
                line,
            )@ && !r,
    {
        if self.phase != StreamPhase::Idle {
            return false;
        }
        let ghost s = unread(self@);
        let start = self.current_buf_offset;
        let len = self.current_buf.len();
        let mut i = start;
        while i < len && self.current_buf[i] != 10u8
            invariant
                start <= i <= len,
                len == self.current_buf@.len(),
                start == self.current_buf_offset,
                s == self.current_buf@.subrange(start as int, len as int),
                line_len(s) == (i - start) + line_len(self.current_buf@.subrange(i as int, len as int)),
                forall|j: int| start <= j < i ==> self.current_buf@[j] != 10u8,
            decreases len - i,
        {
            proof {
                let t = self.current_buf@.subrange(i as int, len as int);
                assert(t.skip(1) =~= self.current_buf@.subrange(i + 1, len as int));
            }
            i = i + 1;
        }
        let end = if i < len {
            proof {
                let t = self.current_buf@.subrange(i as int, len as int);
                assert(t[0] == 10u8);
            }
            i + 1
        } else {
            proof {
                assert(self.current_buf@.subrange(i as int, len as int).len() == 0);
            }
            i
        };
        let found = i < len;
        let mut j = start;
        let ghost line0 = line@;
        while j < end
            invariant
                start <= j <= end,
                end <= len,
                len == self.current_buf@.len(),
                line@ == line0 + self.current_buf@.subrange(start as int, j as int),
            decreases end - j,
        {
            line.push(self.current_buf[j]);
            j = j + 1;
            assert(line@ =~= line0 + self.current_buf@.subrange(start as int, j as int));
        }
        proof {
            assert(line_len(s) == end - start);
            assert(s.take((end - start) as int) =~= self.current_buf@.subrange(
                start as int,
                end as int,
            ));
            if found {
                assert(s[end - start - 1] == self.current_buf@[i as int]);
            } else if end > start {
                assert(s[end - start - 1] == self.current_buf@[end - 1]);
            }
        }
        self.file_offset = self.file_offset + (end - start) as u64;
        self.current_buf_offset = end;
        found
    }
}

proof fn lemma_line_len_bound(s: Seq<u8>)
    ensures
        line_len(s) <= s.len(),
    decreases s.len(),
{
    if s.len() > 0 && s[0] != 10u8 {
        lemma_line_len_bound(s.skip(1));
    }
}

/// A line taken from a stream that agrees with a file is the file's next
/// bytes, and the stream still agrees with the file afterwards.
pub proof fn lemma_line_follows_file(v: StreamView, c: Seq<u8>)
    requires
        view_wf(v),
        agrees_with(v, c),
        v.phase is Idle,
    ensures
        line_len(unread(v)) <= unread(v).len(),
        unread(v).take(line_len(unread(v)) as int) == c.subrange(
            v.offset as int,
            (v.offset + line_len(unread(v))) as int,
        ),
        agrees_with(advance_spec(v, line_len(unread(v))), c),
{
    let k = line_len(unread(v));
    lemma_line_len_bound(unread(v));
    assert(unread(v).take(k as int) =~= c.subrange(v.offset as int, (v.offset + k) as int));
    let w = advance_spec(v, k);
    assert(unread(w) =~= unread(v).skip(k as int));
    assert(unread(w) =~= c.subrange(w.offset as int, (w.offset + unread(w).len()) as int));
}

/// Whether a stream agrees with a file that holds `c`: it has the file's
/// size, and its buffered bytes are the file's bytes from its offset on.
pub open spec fn agrees_with(v: StreamView, c: Seq<u8>) -> bool {
    (v.phase is Idle || v.phase is Fetching || v.phase is Ended) ==> {
        &&& v.size == c.len()
        &&& unread(v) == c.subrange(v.offset as int, (v.offset + unread(v).len()) as int)
    }
}

/// A stream on a file that holds `c`, answered as the service answers,
/// hands out the file's bytes in order whatever the sizes of the reads: each
/// read gives the bytes at the offset, every step keeps the stream in
/// agreement with the file, and the stream ends only once all of it was
/// handed out.
pub proof fn lemma_stream_follows_file(v: StreamView, c: Seq<u8>, max: nat)
    requires
        view_wf(v),
        agrees_with(v, c),
        c.len() <= u64::MAX,
    ensures
        agrees_with(pull_spec(v).0, c),
        pull_spec(v).1 is End ==> v.offset == c.len(),
        v.phase is ResolvingSize ==> agrees_with(status_spec(v, Ok(c.len() as u64)), c),
        v.phase is Fetching ==> agrees_with(
            block_spec(v, Ok(block_at(c, v.offset as int, STREAM_BLOCK_SIZE as int))),
            c,
        ),
        v.phase is Idle ==> unread(v).take(take_count(v, max) as int) == c.subrange(
            v.offset as int,
            (v.offset + take_count(v, max)) as int,
        ),
        agrees_with(advance_spec(v, take_count(v, max)), c),
{
    let k = take_count(v, max);
    if v.phase is Idle {
        assert(unread(v).take(k as int) =~= c.subrange(v.offset as int, (v.offset + k) as int));
        let w = advance_spec(v, k);
        assert(unread(w) =~= unread(v).skip(k as int));
        assert(unread(w) =~= c.subrange(w.offset as int, (w.offset + unread(w).len()) as int));
    } else {
        assert(advance_spec(v, 0) =~= v);
    }
    if v.phase is ResolvingSize {
        let w = status_spec(v, Ok(c.len() as u64));
        assert(unread(w) =~= c.subrange(0, 0));
    }
    if v.phase is Fetching {
        let b = block_at(c, v.offset as int, STREAM_BLOCK_SIZE as int);
        let w = block_spec(v, Ok(b));
        assert(unread(w) =~= w.buf);
        assert(w.buf =~= c.subrange(w.offset as int, (w.offset + unread(w).len()) as int));
    }
    if v.phase is Idle && v.offset < v.size && v.cursor >= v.buf.len() {
        let w = pull_spec(v).0;
        assert(unread(w) =~= unread(v));
    }
}

/// On an empty file, the first pull after the size is known ends the
/// stream: no byte is handed out and no block is requested.
pub proof fn lemma_empty_file_ends_at_once(v: StreamView)
    requires
        view_wf(v),
        v.phase is ResolvingSize,
    ensures
        pull_spec(status_spec(v, Ok(0u64))).1 is End,
        pull_spec(status_spec(v, Ok(0u64))).0.offset == 0,
{
}

/// One step of a caller of a stream.
pub enum ReadStep {
    /// A pull; a request that it hands out is answered at once.
    Pull,
    /// A read of at most so many bytes (`take`).
    Take(nat),
    /// Marking at most so many buffered bytes as handed out (`consume`).
    Consume(nat),
    /// A line read (`take_line`).
    Line,
}

/// The state after a pull whose request, if it hands one out, the service
/// answers for a file that holds `c`.
pub open spec fn served_pull(v: StreamView, c: Seq<u8>) -> StreamView {
    let (w, k) = pull_spec(v);
    match k {
        PullKind::ResolveSize => status_spec(w, Ok(c.len() as u64)),
        PullKind::FetchBlock => block_spec(
            w,
            Ok(block_at(c, w.offset as int, STREAM_BLOCK_SIZE as int)),
        ),
        _ => w,
    }
}

/// The state after one step, and the bytes that the step hands out.
pub open spec fn step_spec(v: StreamView, c: Seq<u8>, s: ReadStep) -> (StreamView, Seq<u8>) {
    match s {
        ReadStep::Pull => (served_pull(v, c), Seq::empty()),
        ReadStep::Take(n) => (
            advance_spec(v, take_count(v, n)),
            unread(v).take(take_count(v, n) as int),
        ),
        ReadStep::Consume(n) => (
            advance_spec(v, take_count(v, n)),
            unread(v).take(take_count(v, n) as int),
        ),
        ReadStep::Line => if v.phase is Idle {
            (advance_spec(v, line_len(unread(v))), unread(v).take(line_len(unread(v)) as int))
        } else {
            (v, Seq::empty())
        },
    }
}

/// The state after a run of steps, and the bytes handed out, joined in order.
pub open spec fn run_spec(v: StreamView, c: Seq<u8>, steps: Seq<ReadStep>) -> (
    StreamView,
    Seq<u8>,
)
    decreases steps.len(),
{
    if steps.len() == 0 {
        (v, Seq::empty())
    } else {
        let (w, out) = step_spec(v, c, steps[0]);
        let (z, rest) = run_spec(w, c, steps.skip(1));
        (z, out + rest)
    }
}

spec fn follows(v: StreamView, c: Seq<u8>) -> bool {
    &&& view_wf(v)
    &&& agrees_with(v, c)
    &&& !(v.phase is Failed)
    &&& v.offset <= c.len()
}

proof fn lemma_step_follows(v: StreamView, c: Seq<u8>, s: ReadStep)
    requires
        follows(v, c),
        c.len() <= u64::MAX,
    ensures
        follows(step_spec(v, c, s).0, c),
        v.offset <= step_spec(v, c, s).0.offset,
        step_spec(v, c, s).1 == c.subrange(v.offset as int, step_spec(v, c, s).0.offset as int),
{
    match s {
        ReadStep::Pull => {
            let (w, k) = pull_spec(v);
            lemma_stream_follows_file(v, c, 0);
            lemma_stream_follows_file(w, c, 0);
            if k is FetchBlock {
                let b = block_at(c, w.offset as int, STREAM_BLOCK_SIZE as int);
                let z = block_spec(w, Ok(b));
                if w.offset + b.len() > w.size {
                    assert(z.buf.len() == w.size - w.offset);
                }
            }
            assert(Seq::<u8>::empty() =~= c.subrange(v.offset as int, v.offset as int));
        },
        ReadStep::Take(n) => {
            lemma_stream_follows_file(v, c, n);
            if !(v.phase is Idle) {
                assert(unread(v).take(0) =~= c.subrange(v.offset as int, v.offset as int));
            }
        },
        ReadStep::Consume(n) => {
            lemma_stream_follows_file(v, c, n);
            if !(v.phase is Idle) {
                assert(unread(v).take(0) =~= c.subrange(v.offset as int, v.offset as int));
            }
        },
        ReadStep::Line => {
            if v.phase is Idle {
                lemma_line_follows_file(v, c);
            } else {
                assert(Seq::<u8>::empty() =~= c.subrange(v.offset as int, v.offset as int));
            }
        },
    }
}

proof fn lemma_run_follows(v: StreamView, c: Seq<u8>, steps: Seq<ReadStep>)
    requires
        follows(v, c),
        c.len() <= u64::MAX,
    ensures
        follows(run_spec(v, c, steps).0, c),
        v.offset <= run_spec(v, c, steps).0.offset,
        run_spec(v, c, steps).1 == c.subrange(
            v.offset as int,
            run_spec(v, c, steps).0.offset as int,
        ),
    decreases steps.len(),
{
    if steps.len() > 0 {
        let (w, out) = step_spec(v, c, steps[0]);
        lemma_step_follows(v, c, steps[0]);
        lemma_run_follows(w, c, steps.skip(1));
        let z = run_spec(w, c, steps.skip(1)).0;
        assert(out + c.subrange(w.offset as int, z.offset as int) =~= c.subrange(
            v.offset as int,
            z.offset as int,
        ));
    }
}

/// A new stream on a file that holds `c`, whose requests the service
/// answers, hands out the file's bytes in order and nothing else, whatever
/// sizes its reads ask for and however pulls, reads, consumes and line
/// reads are mixed; once it has ended, it has handed out the whole file,
/// which is what a whole-file read of it gathers.
pub proof fn lemma_stream_reads_file(v: StreamView, c: Seq<u8>, steps: Seq<ReadStep>)
    requires
        view_wf(v),
        v.phase is ResolvingSize,
        c.len() <= u64::MAX,
    ensures
        run_spec(v, c, steps).1 == c.take(run_spec(v, c, steps).0.offset as int),
        run_spec(v, c, steps).0.phase is Ended ==> run_spec(v, c, steps).1 == c,
        run_spec(v, c, steps).0.phase is Ended ==> run_spec(v, c, steps).1 == assembled(c, 0),
{
    lemma_run_follows(v, c, steps);
    let (z, out) = run_spec(v, c, steps);
    assert(c.subrange(0, z.offset as int) =~= c.take(z.offset as int));
    if z.phase is Ended {
        assert(c.take(c.len() as int) =~= c);
    }
    lemma_whole_read_is_file(c);
}

} // verus!
