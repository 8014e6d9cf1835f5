use vstd::prelude::*;

verus! {

/// Where a seek is measured from.
#[derive(Clone, Copy, Debug, PartialEq, Eq, Structural)]
pub enum SeekFrom {
    Start(u64),
    End(i64),
    Current(i64),
}

/// 2^64, the number of cursor positions.
pub open spec fn cursor_range() -> int {
    0x1_0000_0000_0000_0000
}

/// `t` reduced modulo 2^64, for `t` within one turn of the cursor range.
pub open spec fn wrap_cursor(t: int) -> u64 {
    if t < 0 {
        (t + cursor_range()) as u64
    } else if t >= cursor_range() {
        (t - cursor_range()) as u64
    } else {
        t as u64
    }
}

/// A seekable stream over a module image of known length that the host
/// hands out in chunks. The cursor is not bounds-checked: a position past the
/// end shows only as a short or empty read.
pub struct ModuleReader {
    len: u64,
    pos: u64,
}

impl ModuleReader {
    pub closed spec fn len_spec(&self) -> u64 {
        self.len
    }

    pub closed spec fn pos_spec(&self) -> u64 {
        self.pos
    }

    /// The cursor that `seek(from)` moves to.
    pub open spec fn sought(&self, from: SeekFrom) -> u64 {
        match from {
            SeekFrom::Start(p) => p,
            SeekFrom::End(k) => wrap_cursor(self.len_spec() + k),
            SeekFrom::Current(k) => wrap_cursor(self.pos_spec() + k),
        }
    }

    pub fn new(len: usize) -> (r: ModuleReader)
        ensures
            r.len_spec() == len,
            r.pos_spec() == 0,
    {
        ModuleReader { len: len as u64, pos: 0 }
    }

    pub fn len(&self) -> (r: u64)
        ensures
            r == self.len_spec(),
    {
        self.len
    }

    pub fn position(&self) -> (r: u64)
        ensures
            r == self.pos_spec(),
    {
        self.pos
    }

    /// Moves the cursor and returns its new place.
    pub fn seek(&mut self, from: SeekFrom) -> (r: u64)
        ensures
            r == old(self).sought(from),
            final(self).pos_spec() == r,
            final(self).len_spec() == old(self).len_spec(),
    {
        self.pos = match from {
            SeekFrom::Start(p) => p,
            SeekFrom::End(k) => self.len.wrapping_add_signed(k),
            SeekFrom::Current(k) => self.pos.wrapping_add_signed(k),
        };
        self.pos
    }

    /// Asks `fetch` for `buf.len()` bytes at the cursor, copies what it
    /// delivered (at most `buf.len()` bytes) to the front of `buf`, and moves
    /// the cursor past them. Returns how many bytes were delivered.
    pub fn read<F: Fn(u64, usize) -> Vec<u8>>(&mut self, buf: &mut Vec<u8>, fetch: F) -> (n: usize)
        requires
            fetch.requires((old(self).pos_spec(), old(buf).len())),
        ensures
            exists|chunk: Vec<u8>|
                #![trigger fetch.ensures((old(self).pos_spec(), old(buf).len()), chunk)]
                fetch.ensures((old(self).pos_spec(), old(buf).len()), chunk) && delivered(
                    chunk@,
                    old(buf)@,
                    final(buf)@,
                    n,
                ),
            final(self).pos_spec() == wrap_cursor(old(self).pos_spec() + n),
            final(self).len_spec() == old(self).len_spec(),
    {
        let chunk = fetch(self.pos, buf.len());
        let n: usize = if chunk.len() < buf.len() {
            chunk.len()
        } else {
            buf.len()
        };
        let mut i: usize = 0;
        while i < n
            invariant
                n <= chunk.len(),
                n <= old(buf).len(),
                i <= n,
                buf.len() == old(buf).len(),
                forall|j: int| 0 <= j < i ==> buf@[j] == chunk@[j],
                forall|j: int| n <= j < buf.len() ==> buf@[j] == old(buf)@[j],
            decreases n - i,
        {
            buf.set(i, chunk[i]);
            i = i + 1;
        }
        self.pos = self.pos.wrapping_add(n as u64);
        proof {
            assert(delivered(chunk@, old(buf)@, buf@, n));
        }
        n
    }
}

/// What a read that was handed `chunk` leaves: `n` is the shorter of the
/// chunk and the buffer, the first `n` bytes are the chunk's, and the rest of
/// the buffer is as it was.
pub open spec fn delivered(chunk: Seq<u8>, before: Seq<u8>, after: Seq<u8>, n: usize) -> bool {
    &&& n as int == if chunk.len() < before.len() { chunk.len() as int } else { before.len() as int }
    &&& after.len() == before.len()
    &&& forall|j: int| 0 <= j < n ==> after[j] == chunk[j]
    &&& forall|j: int| n <= j < after.len() ==> after[j] == before[j]
}

/// The byte that an echoing fetch hands out at image offset `p`.
pub open spec fn echo_byte(p: int) -> u8 {
    (p % 256) as u8
}

/// Seeking `k` bytes from the end of an image of length `len` puts the cursor
/// at `len + k` (where that is a position), and a read after it, against a
/// fetch that echoes each offset's byte, fills the buffer with the bytes that
/// start exactly there.
pub proof fn lemma_seek_end_then_read(
    r: ModuleReader,
    k: i64,
    chunk: Seq<u8>,
    before: Seq<u8>,
    after: Seq<u8>,
    n: usize,
)
    requires
        0 <= r.len_spec() + k < cursor_range(),
        forall|j: int|
            0 <= j < chunk.len() ==> chunk[j] == echo_byte(r.sought(SeekFrom::End(k)) + j),
        delivered(chunk, before, after, n),
    ensures
        r.sought(SeekFrom::End(k)) == r.len_spec() + k,
        forall|j: int| 0 <= j < n ==> after[j] == echo_byte(r.len_spec() + k + j),
{
}

} // verus!
