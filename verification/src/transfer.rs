use vstd::prelude::*;
use crate::progress::ProgressState;

verus! {

/// Chunk size used when the response does not declare a usable length.
pub const DEFAULT_CHUNK_SIZE: u64 = 1024;

/// Chunk size policy: a known total is split into roughly 99 pieces, so the
/// progress bar advances about 99 times whatever the file size; an unknown
/// total, or one so small that the division would give 0, falls back to the
/// fixed default.
pub open spec fn chunk_size_spec(total: Option<u64>) -> u64 {
    match total {
        Some(len) => if len / 99 == 0 {
            DEFAULT_CHUNK_SIZE
        } else {
            len / 99
        },
        None => DEFAULT_CHUNK_SIZE,
    }
}

pub fn chunk_size_for(total: Option<u64>) -> (r: u64)
    ensures
        r == chunk_size_spec(total),
        r >= 1,
{
    match total {
        Some(len) => {
            let c: u64 = len / 99;
            if c == 0 {
                DEFAULT_CHUNK_SIZE
            } else {
                c
            }
        },
        None => DEFAULT_CHUNK_SIZE,
    }
}

/// The chunk size is never 0, whatever the declared length: a total of 0 (or
/// anything under 99) falls back to the default, so no read request is ever
/// for 0 bytes and the drain loop cannot spin on empty reads.
pub proof fn lemma_chunk_size_never_zero(total: Option<u64>)
    ensures
        chunk_size_spec(total) >= 1,
        total is None ==> chunk_size_spec(total) == DEFAULT_CHUNK_SIZE,
        total == Some(0u64) ==> chunk_size_spec(total) == DEFAULT_CHUNK_SIZE,
{
}

/// Number of data-carrying reads needed to exhaust `len` bytes when each read
/// returns up to `chunk` bytes.
pub open spec fn reads_needed(len: nat, chunk: nat) -> nat
    decreases len,
{
    if chunk == 0 {
        0
    } else if len == 0 {
        0
    } else if len <= chunk {
        1
    } else {
        1 + reads_needed((len - chunk) as nat, chunk)
    }
}

/// With a positive chunk size every data-carrying read consumes at least one
/// byte, so no more reads happen than there are bytes.
pub proof fn lemma_reads_needed_le(len: nat, chunk: nat)
    requires
        1 <= chunk,
    ensures
        reads_needed(len, chunk) <= len,
    decreases len,
{
    if len > chunk {
        lemma_reads_needed_le((len - chunk) as nat, chunk);
    }
}

/// Draining `len` bytes in pieces of at most `chunk` takes exactly
/// `ceil(len / chunk)` data-carrying reads.
pub proof fn lemma_reads_needed_is_ceil(len: nat, chunk: nat)
    requires
        1 <= chunk,
    ensures
        reads_needed(len, chunk) == (len + chunk - 1) / (chunk as int),
    decreases len,
{
    if len == 0 {
        vstd::arithmetic::div_mod::lemma_basic_div(chunk as int - 1, chunk as int);
    } else if len <= chunk {
        vstd::arithmetic::div_mod::lemma_basic_div(len as int - 1, chunk as int);
        vstd::arithmetic::div_mod::lemma_div_plus_one(len as int - 1, chunk as int);
    } else {
        lemma_reads_needed_is_ceil((len - chunk) as nat, chunk);
        vstd::arithmetic::div_mod::lemma_div_plus_one(len as int - 1, chunk as int);
    }
}

/// For a response of known length `len >= 99`, the chunk policy gives
/// `len / 99`, and exhausting the body takes exactly
/// `ceil(len / (len / 99))` data-carrying reads.
pub proof fn lemma_read_count_for_known_length(len: u64)
    requires
        99 <= len,
    ensures
        chunk_size_spec(Some(len)) == len / 99,
        reads_needed(len as nat, (len / 99) as nat) == ((len + len / 99 - 1) as int) / ((len
            / 99) as int),
{
    assert(len / 99 >= 1) by {
        vstd::arithmetic::div_mod::lemma_div_by_self(99);
        vstd::arithmetic::div_mod::lemma_div_is_ordered(99, len as int, 99);
    };
    lemma_reads_needed_is_ceil(len as nat, (len / 99) as nat);
}

/// An in-memory byte source read front to back, the model of a response body:
/// each read hands out the next bytes of `data`, up to the requested limit,
/// and a read that returns nothing means the source is exhausted.
pub struct MemSource {
    pub data: Vec<u8>,
    pub pos: usize,
}

impl MemSource {
    pub open spec fn wf(self) -> bool {
        self.pos <= self.data@.len()
    }

    /// Bytes not yet handed out.
    pub open spec fn remaining(self) -> int {
        self.data@.len() - self.pos
    }

    pub fn new(data: Vec<u8>) -> (r: MemSource)
        ensures
            r.wf(),
            r.data@ == data@,
            r.pos == 0,
    {
        MemSource { data, pos: 0 }
    }

    /// Read up to `limit` bytes; fewer only when the source is nearly
    /// exhausted, none exactly when it is.
    pub fn read(&mut self, limit: u64) -> (r: Vec<u8>)
        requires
            old(self).wf(),
        ensures
            final(self).wf(),
            final(self).data == old(self).data,
            r@.len() == (if old(self).remaining() <= limit {
                old(self).remaining()
            } else {
                limit as int
            }),
            r@ == old(self).data@.subrange(
                old(self).pos as int,
                old(self).pos + r@.len(),
            ),
            final(self).pos == old(self).pos + r@.len(),
    {
        let mut take: usize = self.data.len() - self.pos;
        if (take as u64) > limit {
            take = limit as usize;
        }
        let mut out: Vec<u8> = Vec::new();
        let mut i: usize = 0;
        while i < take
            invariant
                i <= take,
                self.pos + take <= self.data@.len(),
                self.pos + take <= usize::MAX,
                self.data == old(self).data,
                self.pos == old(self).pos,
                out@.len() == i,
                out@ == self.data@.subrange(self.pos as int, self.pos + i as int),
            decreases take - i,
        {
            let b: u8 = self.data[self.pos + i];
            out.push(b);
            proof {
                assert(self.data@.subrange(self.pos as int, self.pos + i + 1) =~= self
                    .data@.subrange(self.pos as int, self.pos + i as int).push(b));
            }
            i = i + 1;
        }
        self.pos = self.pos + take;
        out
    }
}

/// State of one chunked drain: the chunk size chosen from the declared
/// length, the bytes accumulated so far, the progress tally, and whether
/// end-of-stream has been observed.
pub struct Drainer {
    pub buf: Vec<u8>,
    pub chunk: u64,
    pub progress: ProgressState,
    pub done: bool,
}

impl Drainer {
    pub open spec fn wf(self) -> bool {
        &&& self.progress.transferred == self.buf@.len()
        &&& self.chunk == chunk_size_spec(self.progress.total)
        &&& self.chunk >= 1
        &&& (self.done <==> self.progress.finished)
    }

    pub fn new(total: Option<u64>, quiet: bool) -> (r: Drainer)
        ensures
            r.wf(),
            r.buf@ == Seq::<u8>::empty(),
            r.chunk == chunk_size_spec(total),
            r.progress.total == total,
            r.progress.quiet == quiet,
            !r.done,
    {
        Drainer {
            buf: Vec::new(),
            chunk: chunk_size_for(total),
            progress: ProgressState::new(total, quiet),
            done: false,
        }
    }

    /// How many bytes the caller should try to read next; `None` once
    /// end-of-stream has been seen.
    pub fn next_request(&self) -> (r: Option<u64>)
        ensures
            r == (if self.done {
                Option::<u64>::None
            } else {
                Option::<u64>::Some(self.chunk)
            }),
    {
        if self.done {
            None
        } else {
            Some(self.chunk)
        }
    }

    /// Hand over the bytes one read produced. An empty read means
    /// end-of-stream: the drain is marked done and the progress tally
    /// finished, exactly once. Anything else is appended to the accumulated
    /// body and counted as progress.
    pub fn feed(&mut self, data: Vec<u8>)
        requires
            old(self).wf(),
            !old(self).done,
            old(self).buf@.len() + data@.len() <= usize::MAX,
        ensures
            final(self).wf(),
            final(self).chunk == old(self).chunk,
            final(self).progress.total == old(self).progress.total,
            final(self).progress.quiet == old(self).progress.quiet,
            data@.len() == 0 ==> final(self).done && final(self).buf@ == old(self).buf@,
            data@.len() > 0 ==> !final(self).done && final(self).buf@ == old(self).buf@
                + data@,
    {
        if data.len() == 0 {
            self.done = true;
            self.progress.finish();
        } else {
            let n: u64 = data.len() as u64;
            let mut d = data;
            self.buf.append(&mut d);
            self.progress.advance(n);
        }
    }
}

/// Drain a source to exhaustion: read chunk after chunk, append each to the
/// accumulated body, stop on the first empty read. Returns how many reads
/// carried data, which is exactly `reads_needed` of the bytes that were left
/// and the chunk size.
pub fn drain(d: &mut Drainer, source: &mut MemSource) -> (updates: u64)
    requires
        old(d).wf(),
        !old(d).done,
        old(source).wf(),
        old(d).buf@.len() + old(source).remaining() <= usize::MAX,
    ensures
        final(d).wf(),
        final(d).done,
        final(d).chunk == old(d).chunk,
        final(d).progress.total == old(d).progress.total,
        final(d).progress.quiet == old(d).progress.quiet,
        final(d).buf@ == old(d).buf@ + old(source).data@.subrange(
            old(source).pos as int,
            old(source).data@.len() as int,
        ),
        final(source).data == old(source).data,
        final(source).pos == final(source).data@.len(),
        updates == reads_needed(old(source).remaining() as nat, old(d).chunk as nat),
{
    let mut updates: u64 = 0;
    proof {
        lemma_reads_needed_le(old(source).remaining() as nat, old(d).chunk as nat);
    }
    while !d.done
        invariant
            d.wf(),
            source.wf(),
            source.data == old(source).data,
            d.chunk == old(d).chunk,
            d.progress.total == old(d).progress.total,
            d.progress.quiet == old(d).progress.quiet,
            source.pos >= old(source).pos,
            !d.done ==> d.buf@ == old(d).buf@ + old(source).data@.subrange(
                old(source).pos as int,
                source.pos as int,
            ),
            !d.done ==> updates + reads_needed(source.remaining() as nat, d.chunk as nat)
                == reads_needed(old(source).remaining() as nat, old(d).chunk as nat),
            !d.done ==> d.buf@.len() + source.remaining() <= usize::MAX,
            d.done ==> d.buf@ == old(d).buf@ + old(source).data@.subrange(
                old(source).pos as int,
                old(source).data@.len() as int,
            ),
            d.done ==> source.pos == source.data@.len(),
            d.done ==> updates == reads_needed(
                old(source).remaining() as nat,
                old(d).chunk as nat,
            ),
            updates <= reads_needed(old(source).remaining() as nat, old(d).chunk as nat),
            reads_needed(old(source).remaining() as nat, old(d).chunk as nat) <= old(
                source,
            ).remaining(),
        decreases source.remaining() + (if d.done {
            0int
        } else {
            1int
        }),
    {
        let ghost rem_before: int = source.remaining();
        let req = d.next_request();
        if let Some(n) = req {
            let piece = source.read(n);
            proof {
                if rem_before > 0 {
                    assert(reads_needed(rem_before as nat, d.chunk as nat) == 1
                        + reads_needed(source.remaining() as nat, d.chunk as nat));
                }
            }
            if piece.len() > 0 {
                updates = updates + 1;
            }
            let ghost buf_before = d.buf@;
            d.feed(piece);
            proof {
                if rem_before == 0 {
                    assert(source.pos == source.data@.len());
                } else {
                    assert(d.buf@ == old(d).buf@ + old(source).data@.subrange(
                        old(source).pos as int,
                        source.pos as int,
                    ));
                }
            }
        }
    }
    updates
}

} // verus!
