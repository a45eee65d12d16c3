use vstd::prelude::*;
use vstd::slice::{slice_subrange, slice_to_vec};

use crate::error::DbfsError;
use crate::path::{is_invalid_path_error, remote_path, strip_dbfs_prefix};
use crate::wire::Handle;

verus! {

/// The size of the blocks that a whole-file write appends, and the size from
/// which it appends blocks instead of writing in one request.
pub const CHUNK_SIZE: usize = 1024 * 1024;

/// `b` cut into blocks of `CHUNK_SIZE` bytes, in order; the last may be shorter.
pub open spec fn chunks_of(b: Seq<u8>) -> Seq<Seq<u8>>
    decreases b.len(),
{
    if b.len() == 0 {
        Seq::empty()
    } else if b.len() <= CHUNK_SIZE {
        seq![b]
    } else {
        seq![b.take(CHUNK_SIZE as int)] + chunks_of(b.skip(CHUNK_SIZE as int))
    }
}

/// The blocks of `bs` joined in order.
pub open spec fn concat(bs: Seq<Seq<u8>>) -> Seq<u8>
    decreases bs.len(),
{
    if bs.len() == 0 {
        Seq::empty()
    } else {
        bs[0] + concat(bs.skip(1))
    }
}

/// What the remote file holds after a whole-file write of `b` whose
/// requests all succeeded: the content of the single put, or the appended
/// blocks joined in the order in which they were appended.
pub open spec fn written_content(b: Seq<u8>) -> Seq<u8> {
    if b.len() < CHUNK_SIZE {
        b
    } else {
        concat(chunks_of(b))
    }
}

proof fn lemma_concat_append(a: Seq<Seq<u8>>, b: Seq<Seq<u8>>)
    ensures
        concat(a + b) == concat(a) + concat(b),
    decreases a.len(),
{
    if a.len() == 0 {
        assert(a + b =~= b);
        assert(concat(a) + concat(b) =~= concat(b));
    } else {
        assert((a + b).skip(1) =~= a.skip(1) + b);
        lemma_concat_append(a.skip(1), b);
        assert(concat(a + b) == (a + b)[0] + concat((a + b).skip(1)));
        assert(concat(a + b) =~= concat(a) + concat(b));
    }
}

proof fn lemma_concat_single(b: Seq<u8>)
    ensures
        concat(seq![b]) == b,
{
    let one = seq![b];
    assert(one.skip(1) =~= Seq::<Seq<u8>>::empty());
    assert(concat(one.skip(1)) == Seq::<u8>::empty());
    assert(concat(one) == one[0] + concat(one.skip(1)));
    assert(concat(one) =~= b);
}

/// Cutting a byte sequence into blocks and joining the blocks in order gives
/// it back; every block is non-empty and at most `CHUNK_SIZE` long.
pub proof fn lemma_chunks_rebuild(b: Seq<u8>)
    ensures
        concat(chunks_of(b)) == b,
        forall|i: int|
            0 <= i < chunks_of(b).len() ==> 0 < #[trigger] chunks_of(b)[i].len() <= CHUNK_SIZE,
    decreases b.len(),
{
    if b.len() == 0 {
    } else if b.len() <= CHUNK_SIZE {
        lemma_concat_single(b);
    } else {
        let head = b.take(CHUNK_SIZE as int);
        let tail = b.skip(CHUNK_SIZE as int);
        lemma_chunks_rebuild(tail);
        lemma_concat_append(seq![head], chunks_of(tail));
        lemma_concat_single(head);
        assert(head + tail =~= b);
        assert forall|i: int| 0 <= i < chunks_of(b).len() implies 0 < #[trigger] chunks_of(
            b,
        )[i].len() <= CHUNK_SIZE by {
            if i > 0 {
                assert(chunks_of(b)[i] == chunks_of(tail)[i - 1]);
            }
        }
    }
}

/// A whole-file write stores exactly the bytes written, whichever way it
/// goes.
pub proof fn lemma_write_stores_content(b: Seq<u8>)
    ensures
        written_content(b) == b,
{
    lemma_chunks_rebuild(b);
}

/// How a whole-file write proceeds.
pub enum WritePlan {
    /// One put request with the whole content.
    Single { path: String, data: Vec<u8> },
    /// Create, then append blocks in order, then close.
    Chunked(ChunkedUpload),
}

/// Decides how `data` is written to `path`: in one request below
/// `CHUNK_SIZE` bytes, else in blocks. Fails on an invalid path, before any
/// request.
pub fn plan_write(path: &str, data: Vec<u8>) -> (r: Result<WritePlan, DbfsError>)
    ensures
        match r {
            Err(e) => remote_path(path@) is None && is_invalid_path_error(e, path@),
            Ok(WritePlan::Single { path: p, data: d }) => {
                &&& remote_path(path@) == Some(p@)
                &&& data@.len() < CHUNK_SIZE
                &&& d@ == data@
            },
            Ok(WritePlan::Chunked(u)) => {
                &&& remote_path(path@) == Some(u.path@)
                &&& data@.len() >= CHUNK_SIZE
                &&& u.data@ == data@
            },
        },
{
    let p = strip_dbfs_prefix(path)?;
    if data.len() < CHUNK_SIZE {
        Ok(WritePlan::Single { path: String::from_str(p), data })
    } else {
        Ok(WritePlan::Chunked(ChunkedUpload { path: String::from_str(p), data }))
    }
}

/// A write in blocks whose handle is not created yet.
pub struct ChunkedUpload {
    pub path: String,
    pub data: Vec<u8>,
}

impl ChunkedUpload {
    /// The path of the create request.
    pub fn path(&self) -> (r: &str)
        ensures
            r@ == self.path@,
    {
        self.path.as_str()
    }

    /// Starts appending once create returned `handle`.
    pub fn open(self, handle: Handle) -> (r: OpenUpload)
        ensures
            r.wf(),
            r.handle_value() == handle.0,
            r.data() == self.data@,
            r.appended() == Seq::<Seq<u8>>::empty(),
            r.failure() is None,
    {
        let r = OpenUpload {
            handle,
            data: self.data,
            sent: 0,
            failure: None,
            handed: Ghost(Seq::empty()),
        };
        assert(r.data@.skip(0) =~= r.data@);
        assert(Seq::<Seq<u8>>::empty() + chunks_of(r.data@) =~= chunks_of(r.data@));
        r
    }
}

/// A write in blocks whose handle is open: blocks are handed out in order
/// until all are appended or an append fails.
pub struct OpenUpload {
    handle: Handle,
    data: Vec<u8>,
    sent: usize,
    failure: Option<DbfsError>,
    handed: Ghost<Seq<Seq<u8>>>,
}

impl OpenUpload {
    pub closed spec fn handle_value(&self) -> u64 {
        self.handle.0
    }

    /// The bytes being written.
    pub closed spec fn data(&self) -> Seq<u8> {
        self.data@
    }

    /// The blocks handed out for appending so far, in order.
    pub closed spec fn appended(&self) -> Seq<Seq<u8>> {
        self.handed@
    }

    /// The first append failure, if one was recorded.
    pub closed spec fn failure(&self) -> Option<DbfsError> {
        self.failure
    }

    pub closed spec fn wf(&self) -> bool {
        &&& self.sent <= self.data@.len()
        &&& chunks_of(self.data@) == self.handed@ + chunks_of(self.data@.skip(self.sent as int))
    }

    /// The handle of the append and close requests.
    pub fn handle_id(&self) -> (r: u64)
        ensures
            r == self.handle_value(),
    {
        self.handle.0
    }

    /// The next block to append, or `None` once every block was handed out
    /// or an append failed. Blocks come in the order of `chunks_of`.
    pub fn next_block(&mut self) -> (r: Option<Vec<u8>>)
        requires
            old(self).wf(),
        ensures
            final(self).wf(),
            final(self).handle_value() == old(self).handle_value(),
            final(self).data() == old(self).data(),
            final(self).failure() == old(self).failure(),
            old(self).failure() is None && old(self).appended().len() < chunks_of(
                old(self).data(),
            ).len() ==> r is Some && final(self).appended() == old(self).appended().push(
                r->Some_0@,
            ),
            !(old(self).failure() is None && old(self).appended().len() < chunks_of(
                old(self).data(),
            ).len()) ==> r is None && final(self).appended() == old(self).appended(),
            r is None && final(self).failure() is None ==> final(self).appended() == chunks_of(
                final(self).data(),
            ),
    {
        let ghost rest = self.data@.skip(self.sent as int);
        let n = self.data.len();
        if self.failure.is_some() || self.sent >= n {
            if self.sent >= n {
                assert(rest =~= Seq::<u8>::empty());
                assert(self.handed@ + Seq::<Seq<u8>>::empty() =~= self.handed@);
            } else {
                assert(chunks_of(self.data@).len() == self.handed@.len() + chunks_of(rest).len());
            }
            return None;
        }
        let end = if n - self.sent > CHUNK_SIZE {
            self.sent + CHUNK_SIZE
        } else {
            n
        };
        let block = slice_to_vec(slice_subrange(self.data.as_slice(), self.sent, end));
        proof {
            let next = self.data@.skip(end as int);
            if rest.len() > CHUNK_SIZE {
                assert(rest.take(CHUNK_SIZE as int) =~= block@);
                assert(rest.skip(CHUNK_SIZE as int) =~= next);
                assert(chunks_of(rest) == seq![block@] + chunks_of(next));
            } else {
                assert(rest =~= block@);
                assert(next =~= Seq::<u8>::empty());
                assert(chunks_of(rest) == seq![block@]);
                assert(seq![block@] + chunks_of(next) =~= seq![block@]);
            }
            assert(self.handed@ + chunks_of(rest) =~= self.handed@.push(block@) + chunks_of(next));
        }
        self.sent = end;
        self.handed = Ghost(self.handed@.push(block@));
        Some(block)
    }

    /// Records the outcome of an append. After a failure no further block is
    /// handed out; the first failure is kept.
    pub fn record(&mut self, outcome: Result<(), DbfsError>)
        requires
            old(self).wf(),
        ensures
            final(self).wf(),
            final(self).handle_value() == old(self).handle_value(),
            final(self).data() == old(self).data(),
            final(self).appended() == old(self).appended(),
            old(self).failure() is Some ==> final(self).failure() == old(self).failure(),
            old(self).failure() is None ==> final(self).failure() == match outcome {
                Ok(()) => None,
                Err(e) => Some(e),
            },
    {
        if self.failure.is_none() {
            match outcome {
                Ok(()) => {},
                Err(e) => {
                    self.failure = Some(e);
                },
            }
        }
    }

    /// Whether appending is over: every block was handed out, or an append
    /// failed. Only then is the handle closed.
    pub open spec fn spec_finished(&self) -> bool {
        self.failure() is Some || self.appended() == chunks_of(self.data())
    }

    /// Whether appending is over: every block was handed out, or an append
    /// failed.
    pub fn finished(&self) -> (r: bool)
        requires
            self.wf(),
        ensures
            r == self.spec_finished(),
    {
        proof {
            let rest = self.data@.skip(self.sent as int);
            if self.sent >= self.data@.len() {
                assert(rest =~= Seq::<u8>::empty());
                assert(self.handed@ + Seq::<Seq<u8>>::empty() =~= self.handed@);
            } else {
                assert(chunks_of(rest).len() > 0);
                assert(chunks_of(self.data@).len() == self.handed@.len() + chunks_of(rest).len());
            }
        }
        self.failure.is_some() || self.sent >= self.data.len()
    }

    /// Ends appending, once every block was handed out or an append failed:
    /// the handle is closed whether or not an append failed, and no block
    /// can be appended afterwards.
    pub fn close(self) -> (r: ClosingUpload)
        requires
            self.spec_finished(),
        ensures
            r.wf(),
            r.handle_value() == self.handle_value(),
            r.failure() == self.failure(),
            r.appended() == self.appended(),
            r.data() == self.data(),
    {
        ClosingUpload {
            handle: self.handle.0,
            failure: self.failure,
            handed: self.handed,
            data: Ghost(self.data@),
        }
    }
}

/// How many blocks `n` bytes are cut into: `n / CHUNK_SIZE`, rounded up.
pub open spec fn chunk_count(n: nat) -> nat {
    ((n + CHUNK_SIZE - 1) / (CHUNK_SIZE as int)) as nat
}

/// A byte sequence is cut into `chunk_count` blocks, all of `CHUNK_SIZE`
/// bytes but the last, which has the rest.
pub proof fn lemma_chunk_sizes(b: Seq<u8>)
    ensures
        chunks_of(b).len() == chunk_count(b.len()),
        forall|i: int|
            0 <= i < chunks_of(b).len() - 1 ==> #[trigger] chunks_of(b)[i].len() == CHUNK_SIZE,
        chunks_of(b).len() > 0 ==> 0 < chunks_of(b).last().len() <= CHUNK_SIZE,
    decreases b.len(),
{
    lemma_chunks_rebuild(b);
    if b.len() > CHUNK_SIZE {
        let tail = b.skip(CHUNK_SIZE as int);
        lemma_chunk_sizes(tail);
        assert(chunk_count(b.len()) == 1 + chunk_count(tail.len()));
        assert forall|i: int|
            0 <= i < chunks_of(b).len() - 1 implies #[trigger] chunks_of(b)[i].len()
            == CHUNK_SIZE by {
            if i > 0 {
                assert(chunks_of(b)[i] == chunks_of(tail)[i - 1]);
            }
        }
        assert(chunks_of(b).last() == chunks_of(tail).last());
    }
}


/// Once every block of a write was handed out with no append failing, the
/// blocks joined in the order in which they were handed out are the data.
pub proof fn lemma_appended_blocks_rebuild(u: OpenUpload)
    requires
        u.wf(),
        u.appended() == chunks_of(u.data()),
    ensures
        concat(u.appended()) == u.data(),
{
    lemma_chunks_rebuild(u.data());
}

/// A write in blocks that is closed with no append failing has appended
/// exactly its data: the blocks, joined in the order in which they were
/// appended, are the data; there are `chunk_count` of them, all of
/// `CHUNK_SIZE` bytes but the last.
pub proof fn lemma_closed_write_appended_data(c: ClosingUpload)
    requires
        c.wf(),
        c.failure() is None,
    ensures
        concat(c.appended()) == c.data(),
        c.appended().len() == chunk_count(c.data().len()),
        forall|i: int|
            0 <= i < c.appended().len() - 1 ==> #[trigger] c.appended()[i].len() == CHUNK_SIZE,
        c.appended().len() > 0 ==> 0 < c.appended().last().len() <= CHUNK_SIZE,
{
    lemma_chunks_rebuild(c.data());
    lemma_chunk_sizes(c.data());
}

/// A write in blocks whose close request is to be sent.
pub struct ClosingUpload {
    handle: u64,
    failure: Option<DbfsError>,
    handed: Ghost<Seq<Seq<u8>>>,
    data: Ghost<Seq<u8>>,
}

impl ClosingUpload {
    pub closed spec fn handle_value(&self) -> u64 {
        self.handle
    }

    /// The first append failure, if one was recorded.
    pub closed spec fn failure(&self) -> Option<DbfsError> {
        self.failure
    }

    /// The handle of the close request.
    pub fn handle(&self) -> (r: u64)
        ensures
            r == self.handle_value(),
    {
        self.handle
    }

    /// The blocks that were handed out for appending, in order.
    pub closed spec fn appended(&self) -> Seq<Seq<u8>> {
        self.handed@
    }

    /// The bytes being written.
    pub closed spec fn data(&self) -> Seq<u8> {
        self.data@
    }

    /// Without a failed append, every block of the data was handed out.
    pub open spec fn wf(&self) -> bool {
        self.failure() is None ==> self.appended() == chunks_of(self.data())
    }

    /// The outcome of the whole write, given that of the close request: the
    /// first failure, whether of an append or of the close. Success means
    /// that every block of the data was appended, in order.
    pub fn finish(self, outcome: Result<(), DbfsError>) -> (r: Result<(), DbfsError>)
        requires
            self.wf(),
        ensures
            self.failure() is Some ==> r == Err::<(), DbfsError>(self.failure()->Some_0),
            self.failure() is None ==> r == outcome,
            r is Ok ==> self.appended() == chunks_of(self.data()),
    {
        match self.failure {
            Some(e) => Err(e),
            None => outcome,
        }
    }
}

} // verus!
