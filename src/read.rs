use vstd::prelude::*;

use crate::write::{lemma_write_stores_content, written_content, CHUNK_SIZE};

verus! {

/// What the service returns for a read of `length` bytes at `offset` of a
/// file that holds `c`: at most `length` bytes from `offset` on.
pub open spec fn block_at(c: Seq<u8>, offset: int, length: int) -> Seq<u8> {
    if offset < 0 || offset >= c.len() || length <= 0 {
        Seq::empty()
    } else if offset + length >= c.len() {
        c.subrange(offset, c.len() as int)
    } else {
        c.subrange(offset, offset + length)
    }
}

/// What a whole-file read of a file that holds `c` gathers from `offset`
/// on: the blocks read at increasing offsets, joined in order.
pub open spec fn assembled(c: Seq<u8>, offset: int) -> Seq<u8>
    decreases c.len() - offset,
{
    if offset < 0 || offset >= c.len() {
        Seq::empty()
    } else {
        let blk = block_at(c, offset, CHUNK_SIZE as int);
        blk + assembled(c, offset + blk.len())
    }
}

proof fn lemma_assembled_rest(c: Seq<u8>, offset: int)
    requires
        0 <= offset <= c.len(),
    ensures
        assembled(c, offset) == c.skip(offset),
    decreases c.len() - offset,
{
    if offset < c.len() {
        let blk = block_at(c, offset, CHUNK_SIZE as int);
        lemma_assembled_rest(c, offset + blk.len());
        assert(blk + c.skip(offset + blk.len()) =~= c.skip(offset));
    } else {
        assert(c.skip(offset) =~= Seq::<u8>::empty());
    }
}

/// A whole-file read whose bytes so far are the start of the file, fed the
/// service's blocks from there on, ends with the whole file.
pub proof fn lemma_read_completes(c: Seq<u8>, got: Seq<u8>)
    requires
        got.len() <= c.len(),
        got == c.take(got.len() as int),
    ensures
        got + assembled(c, got.len() as int) == c,
{
    lemma_assembled_rest(c, got.len() as int);
    assert(got + c.skip(got.len() as int) =~= c);
}

/// A whole-file read of a file, fed the service's blocks, gives the file.
pub proof fn lemma_whole_read_is_file(c: Seq<u8>)
    ensures
        assembled(c, 0) == c,
{
    assert(c.take(0) =~= Seq::<u8>::empty());
    lemma_read_completes(c, Seq::empty());
    assert(Seq::<u8>::empty() + assembled(c, 0) =~= assembled(c, 0));
}

/// Reading a file back after a whole-file write of `b` gives `b`, for every
/// `b`, empty or spanning many blocks.
pub proof fn lemma_round_trip(b: Seq<u8>)
    ensures
        assembled(written_content(b), 0) == b,
{
    lemma_write_stores_content(b);
    lemma_whole_read_is_file(b);
}

/// A read request: `length` bytes from `offset` on.
pub struct ReadBlockRequest {
    pub offset: usize,
    pub length: usize,
}

/// A whole-file read in progress: it asks for blocks at increasing offsets
/// until the file size is reached and joins them in order.
pub struct FileReader {
    path: String,
    size: u64,
    content: Vec<u8>,
}

impl FileReader {
    pub closed spec fn spec_path(&self) -> Seq<char> {
        self.path@
    }

    pub closed spec fn spec_size(&self) -> nat {
        self.size as nat
    }

    /// The bytes gathered so far.
    pub closed spec fn content(&self) -> Seq<u8> {
        self.content@
    }

    /// Starts reading the file at `path`, whose size is `size`.
    pub fn new(path: &str, size: u64) -> (r: FileReader)
        ensures
            r.spec_path() == path@,
            r.spec_size() == size,
            r.content() == Seq::<u8>::empty(),
    {
        FileReader { path: String::from_str(path), size, content: Vec::new() }
    }

    pub fn path(&self) -> (r: &str)
        ensures
            r@ == self.spec_path(),
    {
        self.path.as_str()
    }

    /// The next block to read: at the end of what was gathered, `CHUNK_SIZE`
    /// long; `None` once the file size is reached, so that an empty file is
    /// read with no request.
    pub fn next_read(&self) -> (r: Option<ReadBlockRequest>)
        ensures
            self.content().len() < self.spec_size() <==> r is Some,
            r is Some ==> r->Some_0.offset == self.content().len() && r->Some_0.length
                == CHUNK_SIZE,
    {
        let n = self.content.len();
        if (n as u64) < self.size {
            Some(ReadBlockRequest { offset: n, length: CHUNK_SIZE })
        } else {
            None
        }
    }

    /// Adds a block that was read to the end of what was gathered.
    pub fn record(&mut self, block: Vec<u8>)
        ensures
            final(self).content() == old(self).content() + block@,
            final(self).spec_path() == old(self).spec_path(),
            final(self).spec_size() == old(self).spec_size(),
    {
        let mut block = block;
        self.content.append(&mut block);
    }

    /// The bytes gathered.
    pub fn finish(self) -> (r: Vec<u8>)
        ensures
            r@ == self.content(),
    {
        self.content
    }
}

/// A download in progress: like a whole-file read, but the blocks go to a
/// local file as they come, so only the offset is kept.
pub struct DownloadCursor {
    path: String,
    size: u64,
    offset: u64,
}

impl DownloadCursor {
    pub closed spec fn spec_path(&self) -> Seq<char> {
        self.path@
    }

    pub closed spec fn spec_size(&self) -> nat {
        self.size as nat
    }

    /// How many bytes were received so far.
    pub closed spec fn offset(&self) -> nat {
        self.offset as nat
    }

    pub fn new(path: &str, size: u64) -> (r: DownloadCursor)
        ensures
            r.spec_path() == path@,
            r.spec_size() == size,
            r.offset() == 0,
    {
        DownloadCursor { path: String::from_str(path), size, offset: 0 }
    }

    pub fn path(&self) -> (r: &str)
        ensures
            r@ == self.spec_path(),
    {
        self.path.as_str()
    }

    /// The next block to read, or `None` once the file size is reached.
    pub fn next_read(&self) -> (r: Option<(u64, usize)>)
        ensures
            self.offset() < self.spec_size() <==> r is Some,
            r is Some ==> r->Some_0.0 == self.offset() && r->Some_0.1 == CHUNK_SIZE,
    {
        if self.offset < self.size {
            Some((self.offset, CHUNK_SIZE))
        } else {
            None
        }
    }

    /// Moves past a block of `received` bytes that was written out. The
    /// offset stops at `u64::MAX`, which no file reaches.
    pub fn advance(&mut self, received: usize)
        ensures
            final(self).offset() as int == if old(self).offset() + received > u64::MAX {
                u64::MAX as int
            } else {
                old(self).offset() + received
            },
            final(self).spec_path() == old(self).spec_path(),
            final(self).spec_size() == old(self).spec_size(),
    {
        self.offset = self.offset.saturating_add(received as u64);
    }
}

} // verus!
