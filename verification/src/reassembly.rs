//! Reassembly of fragmented WebSocket messages.
//!
//! A logical WebSocket message either arrives as one standalone Text or
//! Binary frame, or is split across a continuation sequence: a first
//! fragment, any number of middle fragments, and a last fragment. The
//! [`Reassembler`] accumulates the payload bytes and reports when a complete
//! message is available for STOMP decoding.

use vstd::prelude::*;

verus! {

/// One payload-carrying WebSocket frame, tagged with its place in a message.
pub enum Fragment {
    /// A standalone Text or Binary frame: a complete message by itself.
    Standalone(Vec<u8>),
    /// The first fragment of a continuation sequence.
    First(Vec<u8>),
    /// A middle fragment of a continuation sequence.
    Middle(Vec<u8>),
    /// The final fragment of a continuation sequence.
    Last(Vec<u8>),
}

impl Fragment {
    /// The payload bytes the fragment carries.
    pub open spec fn payload(&self) -> Seq<u8> {
        match self {
            Fragment::Standalone(b) => b@,
            Fragment::First(b) => b@,
            Fragment::Middle(b) => b@,
            Fragment::Last(b) => b@,
        }
    }

    /// Whether this fragment completes a message.
    pub open spec fn finishes(&self) -> bool {
        self matches Fragment::Standalone(_) || self matches Fragment::Last(_)
    }

    /// Whether this fragment starts a fresh message, discarding earlier bytes.
    pub open spec fn starts(&self) -> bool {
        self matches Fragment::First(_)
    }
}

/// The buffer contents after one fragment is pushed onto `buf`.
pub open spec fn push_spec(buf: Seq<u8>, f: &Fragment) -> Seq<u8> {
    if f.starts() {
        f.payload()
    } else {
        buf + f.payload()
    }
}

/// Accumulates WebSocket payload fragments into complete messages.
///
/// The buffer grows by appending each fragment's payload; a first fragment
/// clears it beforehand. When a fragment finishes a message, the whole
/// accumulated buffer is the message payload.
pub struct Reassembler {
    buf: Vec<u8>,
}

impl View for Reassembler {
    type V = Seq<u8>;

    closed spec fn view(&self) -> Seq<u8> {
        self.buf@
    }
}

impl Reassembler {
    /// An empty reassembly buffer.
    pub fn new() -> (r: Reassembler)
        ensures
            r@ == Seq::<u8>::empty(),
    {
        Reassembler { buf: Vec::new() }
    }

    /// Accept one fragment; report whether a message is now complete.
    pub fn push(&mut self, f: &Fragment) -> (finished: bool)
        ensures
            final(self)@ == push_spec(old(self)@, f),
            finished == f.finishes(),
    {
        match f {
            Fragment::Standalone(b) => {
                append_bytes(&mut self.buf, b);
                true
            },
            Fragment::First(b) => {
                self.buf.clear();
                append_bytes(&mut self.buf, b);
                false
            },
            Fragment::Middle(b) => {
                append_bytes(&mut self.buf, b);
                false
            },
            Fragment::Last(b) => {
                append_bytes(&mut self.buf, b);
                true
            },
        }
    }

    /// Borrow the accumulated bytes.
    pub fn bytes(&self) -> (r: &Vec<u8>)
        ensures
            r@ == self@,
    {
        &self.buf
    }

    /// Take the accumulated bytes out, leaving the buffer empty.
    pub fn take(&mut self) -> (r: Vec<u8>)
        ensures
            r@ == old(self)@,
            final(self)@ == Seq::<u8>::empty(),
    {
        let mut out: Vec<u8> = Vec::new();
        core::mem::swap(&mut out, &mut self.buf);
        out
    }

    /// Discard the accumulated bytes.
    pub fn clear(&mut self)
        ensures
            final(self)@ == Seq::<u8>::empty(),
    {
        self.buf.clear();
    }
}

/// Append the contents of `src` to `dst`.
fn append_bytes(dst: &mut Vec<u8>, src: &Vec<u8>)
    ensures
        final(dst)@ == old(dst)@ + src@,
{
    let ghost pre = dst@;
    let n = src.len();
    let mut i: usize = 0;
    while i < n
        invariant
            n == src@.len(),
            i <= n,
            dst@ == pre + src@.subrange(0, i as int),
        decreases n - i,
    {
        dst.push(src[i]);
        i = i + 1;
        proof {
            assert(dst@ == pre + src@.subrange(0, i as int));
        }
    }
    proof {
        assert(src@.subrange(0, n as int) == src@);
    }
}

/// Reassembly correctness: a message split into a first fragment `a`, a
/// middle fragment `b`, and a last fragment `c` reassembles to `a ++ b ++ c`,
/// and the last fragment is the one that finishes it; a standalone frame `x`
/// pushed onto an empty buffer reassembles to exactly `x`.
pub proof fn lemma_reassembly_concat(buf: Seq<u8>, a: Vec<u8>, b: Vec<u8>, c: Vec<u8>, x: Vec<u8>)
    ensures
        push_spec(
            push_spec(push_spec(buf, &Fragment::First(a)), &Fragment::Middle(b)),
            &Fragment::Last(c),
        ) == a@ + b@ + c@,
        (&Fragment::Last(c)).finishes(),
        !(&Fragment::First(a)).finishes(),
        !(&Fragment::Middle(b)).finishes(),
        push_spec(Seq::<u8>::empty(), &Fragment::Standalone(x)) == x@,
        (&Fragment::Standalone(x)).finishes(),
{
    assert(push_spec(Seq::<u8>::empty(), &Fragment::Standalone(x)) == x@);
}

} // verus!
