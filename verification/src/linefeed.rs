//! Incremental framing of the wire stream: bytes arrive in arbitrary chunks,
//! lines leave whole. One JSON object per newline-terminated line is the only
//! framing the protocol has.

use vstd::prelude::*;

verus! {

/// The byte that ends a line.
pub const NEWLINE: u8 = 10;

/// A buffer over an unbounded byte stream that hands out one complete line at
/// a time. Bytes fed in are kept until the newline that completes their line
/// arrives.
pub struct LineBuffer {
    buf: Vec<u8>,
}

impl LineBuffer {
    /// The bytes received and not yet handed out.
    pub closed spec fn view(&self) -> Seq<u8> {
        self.buf@
    }

    /// An empty buffer.
    pub fn new() -> (r: LineBuffer)
        ensures
            r@ == Seq::<u8>::empty(),
    {
        LineBuffer { buf: Vec::new() }
    }

    /// Append one chunk of the stream, as it came off the wire.
    pub fn feed(&mut self, chunk: &[u8])
        ensures
            final(self)@ == old(self)@ + chunk@,
    {
        self.buf.extend_from_slice(chunk);
    }

    /// Take the first complete line off the buffer: the bytes before the
    /// first newline, which leave the buffer together with that newline. With
    /// no newline buffered yet, the buffer is left untouched.
    pub fn next_line(&mut self) -> (r: Option<Vec<u8>>)
        ensures
            match r {
                Some(line) => {
                    let n = line@.len() as int;
                    &&& n < old(self)@.len()
                    &&& old(self)@[n] == NEWLINE
                    &&& line@ == old(self)@.take(n)
                    &&& forall|j: int| 0 <= j < n ==> old(self)@[j] != NEWLINE
                    &&& final(self)@ == old(self)@.skip(n + 1)
                },
                None => {
                    &&& final(self)@ == old(self)@
                    &&& forall|j: int| 0 <= j < old(self)@.len() ==> old(self)@[j] != NEWLINE
                },
            },
    {
        let n = self.buf.len();
        let mut i: usize = 0;
        while i < n && self.buf[i] != NEWLINE
            invariant
                n == self.buf@.len(),
                i <= n,
                forall|j: int| 0 <= j < i ==> self.buf@[j] != NEWLINE,
            decreases n - i,
        {
            i += 1;
        }
        if i == n {
            return None;
        }
        let mut line: Vec<u8> = Vec::new();
        for j in 0..i
            invariant
                i < n,
                n == self.buf@.len(),
                line@ == self.buf@.take(j as int),
        {
            line.push(self.buf[j]);
            proof {
                assert(self.buf@.take(j + 1) =~= self.buf@.take(j as int).push(self.buf@[j as int]));
            }
        }
        let mut rest: Vec<u8> = Vec::new();
        let mut j: usize = i + 1;
        while j < n
            invariant
                i < n,
                i + 1 <= j <= n,
                n == self.buf@.len(),
                rest@ == self.buf@.subrange(i + 1, j as int),
            decreases n - j,
        {
            rest.push(self.buf[j]);
            proof {
                assert(self.buf@.subrange(i + 1, j + 1) =~= self.buf@.subrange(i + 1, j as int).push(
                    self.buf@[j as int],
                ));
            }
            j += 1;
        }
        proof {
            assert(rest@ =~= self.buf@.skip(i + 1));
            assert(line@ =~= self.buf@.take(i as int));
        }
        self.buf = rest;
        Some(line)
    }
}

} // verus!
