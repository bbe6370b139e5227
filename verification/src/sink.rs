//! Model of the shared writer that feeds the child's visible output stream.
//!
//! The write end of the replacement pipe is shared between the forwarder
//! and the injector under a mutual-exclusion lock, and every acquisition
//! performs one complete write before the lock is released. [`WriteLog`]
//! captures what that discipline guarantees about the bytes that reach the
//! visible stream: the byte log is exactly the concatenation of the
//! complete messages written through it, so no message is ever torn.

use vstd::prelude::*;
use vstd::seq_lib::lemma_flatten_concat;

verus! {

/// The byte log of the shared writer, together with the sequence of
/// complete messages that produced it. Each call of [`WriteLog::write_all`]
/// models one full write performed while the writer lock is held.
pub struct WriteLog {
    buf: Vec<u8>,
    writes: Ghost<Seq<Seq<u8>>>,
}

impl WriteLog {
    /// The complete messages written so far, oldest first.
    pub closed spec fn messages(&self) -> Seq<Seq<u8>> {
        self.writes@
    }

    /// Every byte that has reached the visible stream, in order.
    pub closed spec fn bytes(&self) -> Seq<u8> {
        self.buf@
    }

    /// The writer discipline: the byte log is the concatenation of the
    /// complete messages, nothing more and nothing less.
    pub open spec fn wf(&self) -> bool {
        self.bytes() == self.messages().flatten()
    }

    /// An empty log: nothing has been written yet.
    pub fn new() -> (r: Self)
        ensures
            r.wf(),
            r.messages() == Seq::<Seq<u8>>::empty(),
            r.bytes() == Seq::<u8>::empty(),
    {
        let r = WriteLog { buf: Vec::new(), writes: Ghost(Seq::empty()) };
        proof {
            assert(r.messages().flatten() =~= Seq::<u8>::empty());
        }
        r
    }

    /// Appends one complete message to the log: the whole of `data`, with
    /// no other bytes interleaved. Models a full write of the shared
    /// writer performed under the lock.
    pub fn write_all(&mut self, data: &Vec<u8>)
        requires
            old(self).wf(),
        ensures
            final(self).wf(),
            final(self).messages() == old(self).messages().push(data@),
            final(self).bytes() == old(self).bytes() + data@,
    {
        broadcast use Seq::lemma_flatten_push;

        let ghost ms = self.writes@;
        let n = data.len();
        let mut i: usize = 0;
        while i < n
            invariant
                i <= n,
                n == data@.len(),
                self.buf@ == old(self).buf@ + data@.take(i as int),
                self.writes == old(self).writes,
            decreases n - i,
        {
            self.buf.push(data[i]);
            proof {
                assert(old(self).buf@ + data@.take(i as int) + seq![data@[i as int]]
                    =~= old(self).buf@ + data@.take(i + 1));
            }
            i = i + 1;
        }
        proof {
            assert(data@.take(n as int) =~= data@);
        }
        self.writes = Ghost(ms.push(data@));
    }

    /// The bytes of the log, for a consumer outside the verified core.
    pub fn bytes_vec(&self) -> (r: &Vec<u8>)
        ensures
            r@ == self.bytes(),
    {
        &self.buf
    }
}

/// The number of bytes that the first `i` messages contribute to the log:
/// the offset at which message `i` begins.
pub open spec fn prefix_length(ms: Seq<Seq<u8>>, i: int) -> int {
    ms.take(i).flatten().len() as int
}

/// Law: the shared writer never tears a write. In a well-formed log every
/// message appears intact and contiguous in the byte log, starting at the
/// offset given by the lengths of the messages before it.
pub proof fn lemma_no_torn_writes(log: WriteLog, i: int)
    requires
        log.wf(),
        0 <= i < log.messages().len(),
    ensures
        prefix_length(log.messages(), i) + log.messages()[i].len()
            <= log.bytes().len(),
        log.bytes().subrange(
            prefix_length(log.messages(), i),
            prefix_length(log.messages(), i) + log.messages()[i].len() as int,
        ) == log.messages()[i],
{
    let ms = log.messages();
    let a = ms.take(i);
    let b = seq![ms[i]];
    let c = ms.skip(i + 1);
    assert(ms =~= a + b + c);
    lemma_flatten_concat(a + b, c);
    lemma_flatten_concat(a, b);
    b.lemma_flatten_one_element();
    assert(log.bytes() == a.flatten() + ms[i] + c.flatten());
    assert(log.bytes().subrange(
        prefix_length(ms, i),
        prefix_length(ms, i) + ms[i].len() as int,
    ) =~= ms[i]);
}

} // verus!
