//! A byte buffer that fills from a descriptor and hands out CRLF-terminated lines.
use vstd::prelude::*;
use vstd::slice::slice_subrange;
use crate::sys::{read_fd, write_fd, ReadFault};

verus! {

/// How many bytes one refill asks the descriptor for.
pub const CHUNK: usize = 4096;

/// What one refill attempt found.
#[derive(Debug, Clone, Copy, PartialEq, Eq, Structural)]
pub enum ReadStatus {
    /// This many bytes (at least one) arrived and were appended.
    Data(usize),
    /// Nothing is available now; the stream is still open.
    Empty,
    /// The peer closed its side in order: a read returned zero bytes.
    Eof,
    /// The read failed.
    Failed,
}

/// Whether `s` holds the terminator `\r\n` starting at index `i`.
pub open spec fn crlf_at(s: Seq<u8>, i: int) -> bool {
    0 <= i && i + 1 < s.len() && s[i] == 13u8 && s[i + 1] == 10u8
}

/// The first index at or after `i` where `s` holds `\r\n`, or -1 where there is none.
pub open spec fn crlf_from(s: Seq<u8>, i: int) -> int
    decreases s.len() - i,
{
    if i < 0 || i + 1 >= s.len() {
        -1
    } else if crlf_at(s, i) {
        i
    } else {
        crlf_from(s, i + 1)
    }
}

/// The first index where `s` holds `\r\n`, or -1 where there is none.
pub open spec fn first_crlf(s: Seq<u8>) -> int {
    crlf_from(s, 0)
}

/// The first line of `s` without its terminator, where `s` holds a terminator.
pub open spec fn line_of(s: Seq<u8>) -> Option<Seq<u8>> {
    if first_crlf(s) < 0 {
        None
    } else {
        Some(s.take(first_crlf(s)))
    }
}

/// What stays of `s` once its first line and that line's terminator are taken out.
pub open spec fn rest_of(s: Seq<u8>) -> Seq<u8> {
    if first_crlf(s) < 0 {
        s
    } else {
        s.skip(first_crlf(s) + 2)
    }
}

/// The bytes of an optional line.
pub open spec fn opt_bytes(r: Option<Vec<u8>>) -> Option<Seq<u8>> {
    match r {
        Some(v) => Some(v@),
        None => None,
    }
}

/// What `crlf_from` finds: a terminator at the index it gives, none between `i` and it,
/// and none at all where it gives -1.
pub proof fn lemma_crlf_from(s: Seq<u8>, i: int)
    requires
        0 <= i,
    ensures
        crlf_from(s, i) == -1 || (i <= crlf_from(s, i) && crlf_at(s, crlf_from(s, i))),
        forall|j: int| i <= j && (crlf_from(s, i) == -1 || j < crlf_from(s, i)) ==> !crlf_at(s, j),
    decreases s.len() - i,
{
    if i + 1 < s.len() && !crlf_at(s, i) {
        lemma_crlf_from(s, i + 1);
    }
}

/// The first terminator is the one at `k` when `k` holds one and no index before it does.
pub proof fn lemma_first_crlf_is(s: Seq<u8>, k: int)
    requires
        crlf_at(s, k),
        forall|j: int| 0 <= j < k ==> !crlf_at(s, j),
    ensures
        first_crlf(s) == k,
{
    lemma_crlf_from(s, 0);
}

/// A stream that ends without a terminator yields no line and keeps every byte; once
/// more bytes arrive, the first line found starts with all of the kept bytes (all but a
/// final `\r`, where the terminator is split across the two parts).
pub proof fn lemma_partial_line_kept(s: Seq<u8>, t: Seq<u8>)
    requires
        first_crlf(s) < 0,
    ensures
        line_of(s) is None,
        rest_of(s) == s,
        first_crlf(s + t) >= 0 ==> s.len() <= first_crlf(s + t) + 1,
        first_crlf(s + t) >= 0 ==> line_of(s + t) == Some((s + t).take(first_crlf(s + t))),
{
    lemma_crlf_from(s, 0);
    lemma_crlf_from(s + t, 0);
    let k = first_crlf(s + t);
    if k >= 0 && k + 1 < s.len() {
        assert(crlf_at(s, k));
    }
}

/// Bytes taken from a descriptor and not yet handed out.
pub struct Buffer {
    data: Vec<u8>,
    /// How many refills from a descriptor have been attempted.
    fills: Ghost<nat>,
    /// What the latest refill found.
    last: Ghost<ReadStatus>,
}

impl View for Buffer {
    type V = Seq<u8>;

    closed spec fn view(&self) -> Seq<u8> {
        self.data@
    }
}

impl Buffer {
    /// The number of refill attempts made so far.
    pub closed spec fn fills(&self) -> nat {
        self.fills@
    }

    /// What the latest refill attempt found (`Empty` before the first).
    pub closed spec fn last_status(&self) -> ReadStatus {
        self.last@
    }

    /// An empty buffer.
    pub fn new() -> (r: Buffer)
        ensures
            r@ == Seq::<u8>::empty(),
            r.fills() == 0,
            r.last_status() == ReadStatus::Empty,
    {
        Buffer { data: Vec::new(), fills: Ghost(0), last: Ghost(ReadStatus::Empty) }
    }

    /// The number of bytes held.
    pub fn len(&self) -> (r: usize)
        ensures
            r == self@.len(),
    {
        self.data.len()
    }

    /// Appends `bytes` at the end.
    pub fn extend(&mut self, bytes: &[u8])
        ensures
            final(self)@ == old(self)@ + bytes@,
            final(self).fills() == old(self).fills(),
            final(self).last_status() == old(self).last_status(),
    {
        let mut i: usize = 0;
        while i < bytes.len()
            invariant
                i <= bytes@.len(),
                self@ == old(self)@ + bytes@.take(i as int),
                self.fills() == old(self).fills(),
                self.last_status() == old(self).last_status(),
            decreases bytes@.len() - i,
        {
            self.data.push(bytes[i]);
            i = i + 1;
            assert(bytes@.take(i as int) == bytes@.take(i - 1 as int).push(bytes@[i - 1 as int]));
        }
        assert(bytes@.take(bytes@.len() as int) == bytes@);
    }

    /// Hands out every byte held and leaves the buffer empty.
    pub fn read_buf(&mut self) -> (r: Vec<u8>)
        ensures
            r@ == old(self)@,
            final(self)@ == Seq::<u8>::empty(),
            final(self).fills() == old(self).fills(),
            final(self).last_status() == old(self).last_status(),
    {
        let mut out: Vec<u8> = Vec::new();
        std::mem::swap(&mut out, &mut self.data);
        out
    }

    /// Drops the first `n` bytes.
    pub fn consume(&mut self, n: usize)
        requires
            n <= old(self)@.len(),
        ensures
            final(self)@ == old(self)@.skip(n as int),
            final(self).fills() == old(self).fills(),
            final(self).last_status() == old(self).last_status(),
    {
        let mut rest: Vec<u8> = Vec::new();
        let mut i: usize = n;
        while i < self.data.len()
            invariant
                n <= i <= self@.len(),
                *self == *old(self),
                rest@ == old(self)@.subrange(n as int, i as int),
            decreases self@.len() - i,
        {
            rest.push(self.data[i]);
            i = i + 1;
        }
        self.data = rest;
    }

    /// Takes out the first line ended by `\r\n`: the line comes back without its
    /// terminator, and the buffer keeps what followed it. Where no terminator is
    /// held, nothing comes back and the buffer is left as it was.
    pub fn get_crlf_line(&mut self) -> (r: Option<Vec<u8>>)
        ensures
            final(self).fills() == old(self).fills(),
            final(self).last_status() == old(self).last_status(),
            opt_bytes(r) == line_of(old(self)@),
            final(self)@ == rest_of(old(self)@),
    {
        proof {
            lemma_crlf_from(self@, 0);
        }
        let len = self.data.len();
        let mut i: usize = 0;
        while i < len && i + 1 < len
            invariant
                i <= len,
                len == self@.len(),
                *self == *old(self),
                forall|j: int| 0 <= j < i ==> !crlf_at(self@, j),
            decreases len - i,
        {
            if self.data[i] == 13u8 && self.data[i + 1] == 10u8 {
                proof {
                    lemma_first_crlf_is(self@, i as int);
                }
                let mut line: Vec<u8> = Vec::new();
                let mut k: usize = 0;
                while k < i
                    invariant
                        k <= i,
                        i + 1 < len,
                        len == self@.len(),
                        *self == *old(self),
                        line@ == self@.take(k as int),
                    decreases i - k,
                {
                    line.push(self.data[k]);
                    k = k + 1;
                    assert(self@.take(k as int) == self@.take(k - 1 as int).push(self@[k - 1 as int]));
                }
                self.consume(i + 2);
                return Some(line);
            }
            i = i + 1;
        }
        assert(forall|j: int| 0 <= j ==> !crlf_at(self@, j));
        None
    }

    /// Takes out the next line, given what the refill just before it found: after an
    /// orderly end of stream or a failed read no line comes back and the buffer is
    /// left as it was; otherwise as `get_crlf_line`.
    pub fn line_after(&mut self, status: ReadStatus) -> (r: Option<Vec<u8>>)
        ensures
            final(self).fills() == old(self).fills(),
            final(self).last_status() == old(self).last_status(),
            (status is Eof || status is Failed) ==> r is None && final(self)@ == old(self)@,
            !(status is Eof || status is Failed) ==> opt_bytes(r) == line_of(old(self)@)
                && final(self)@ == rest_of(old(self)@),
    {
        match status {
            ReadStatus::Eof | ReadStatus::Failed => None,
            _ => self.get_crlf_line(),
        }
    }

    /// Takes in the outcome of one read into `chunk`: the bytes read are appended,
    /// and the status says what the read found.
    pub fn absorb(&mut self, got: Result<usize, ReadFault>, chunk: &[u8]) -> (r: ReadStatus)
        requires
            got matches Ok(n) ==> n <= chunk@.len(),
        ensures
            final(self).fills() == old(self).fills(),
            final(self).last_status() == old(self).last_status(),
            got matches Ok(n) ==> (n == 0 ==> r is Eof && final(self)@ == old(self)@) && (n > 0
                ==> r == ReadStatus::Data(n) && final(self)@ == old(self)@ + chunk@.take(
                n as int,
            )),
            got matches Err(ReadFault::WouldBlock) ==> r is Empty && final(self)@ == old(self)@,
            got matches Err(ReadFault::Os(_)) ==> r is Failed && final(self)@ == old(self)@,
    {
        match got {
            Ok(n) => {
                if n == 0 {
                    ReadStatus::Eof
                } else {
                    let part = slice_subrange(chunk, 0, n);
                    assert(part@ == chunk@.take(n as int));
                    self.extend(part);
                    ReadStatus::Data(n)
                }
            },
            Err(ReadFault::WouldBlock) => ReadStatus::Empty,
            Err(ReadFault::Os(_)) => ReadStatus::Failed,
        }
    }

    /// Makes one attempt to read from `fd` and appends what arrives; the status is
    /// also kept as `last_status`.
    pub fn read(&mut self, fd: i32) -> (r: ReadStatus)
        ensures
            final(self).fills() == old(self).fills() + 1,
            final(self).last_status() == r,
            r matches ReadStatus::Data(n) ==> n > 0 && final(self)@.len() == old(self)@.len()
                + n && final(self)@.take(old(self)@.len() as int) == old(self)@,
            !(r is Data) ==> final(self)@ == old(self)@,
    {
        let mut chunk: Vec<u8> = vec![0u8; CHUNK];
        let got = read_fd(fd, &mut chunk);
        let r = self.absorb(got, chunk.as_slice());
        self.fills = Ghost(self.fills@ + 1);
        self.last = Ghost(r);
        assert(r is Data ==> self@.take(old(self)@.len() as int) == old(self)@);
        r
    }

    /// Makes one non-blocking write of the bytes held to `fd` and drops the ones
    /// that the descriptor took, returning how many; the rest wait for the next call.
    pub fn write(&mut self, fd: i32) -> (r: usize)
        ensures
            final(self).fills() == old(self).fills(),
            final(self).last_status() == old(self).last_status(),
            r <= old(self)@.len(),
            final(self)@ == old(self)@.skip(r as int),
    {
        if self.data.len() == 0 {
            assert(self@.skip(0) == self@);
            return 0;
        }
        match write_fd(fd, self.data.as_slice()) {
            Ok(n) => {
                self.consume(n);
                n
            },
            Err(_) => {
                assert(self@.skip(0) == self@);
                0
            },
        }
    }
}

} // verus!
