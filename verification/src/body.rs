//! The body of a response: the buffer that takes the chunks which the engine
//! delivers, and the reader that hands them to the caller.

use vstd::prelude::*;

verus! {

/// What the engine pushes bytes into during a transfer.
pub trait Sink {
    /// Whether the sink is fit to take bytes.
    spec fn ready(&self) -> bool;

    /// Takes `chunk` and says how many of its bytes were taken. Fewer than
    /// all tells the engine to end the transfer.
    fn on_bytes(&mut self, chunk: &[u8]) -> (accepted: usize)
        requires
            old(self).ready(),
        ensures
            final(self).ready(),
            accepted <= chunk@.len(),
    ;
}

/// Collects the body of a response, chunk by chunk.
pub struct BodyBuffer {
    data: Vec<u8>,
}

impl View for BodyBuffer {
    type V = Seq<u8>;

    closed spec fn view(&self) -> Seq<u8> {
        self.data@
    }
}

impl Sink for BodyBuffer {
    open spec fn ready(&self) -> bool {
        true
    }

    /// Takes `chunk` at the end of what was collected and says how many of
    /// its bytes were taken: all of them.
    fn on_bytes(&mut self, chunk: &[u8]) -> (accepted: usize)
        ensures
            final(self)@ == old(self)@ + chunk@,
            accepted == chunk@.len(),
    {
        let mut i: usize = 0;
        while i < chunk.len()
            invariant
                0 <= i <= chunk@.len(),
                self.data@ == old(self).data@ + chunk@.subrange(0, i as int),
            decreases chunk@.len() - i,
        {
            self.data.push(chunk[i]);
            i += 1;
            assert(self.data@ =~= old(self).data@ + chunk@.subrange(0, i as int));
        }
        assert(chunk@.subrange(0, i as int) =~= chunk@);
        i
    }
}

impl BodyBuffer {
    /// An empty buffer.
    pub fn new() -> (r: BodyBuffer)
        ensures
            r@ == Seq::<u8>::empty(),
    {
        BodyBuffer { data: Vec::new() }
    }

    /// The number of bytes collected.
    pub fn len(&self) -> (r: usize)
        ensures
            r == self@.len(),
    {
        self.data.len()
    }

    /// Turns the buffer into a reader of what was collected.
    pub fn consume(self) -> (r: BodyReader)
        ensures
            r@ == self@,
    {
        BodyReader::new(self.data)
    }
}

/// Hands out the body of a response from its first byte on. Its view is what
/// is still to be read.
pub struct BodyReader {
    data: Vec<u8>,
    pos: usize,
}

impl View for BodyReader {
    type V = Seq<u8>;

    closed spec fn view(&self) -> Seq<u8> {
        self.data@.skip(self.pos as int)
    }
}

impl BodyReader {
    #[verifier::type_invariant]
    spec fn in_bounds(&self) -> bool {
        self.pos <= self.data@.len()
    }

    /// A reader of `data`.
    pub fn new(data: Vec<u8>) -> (r: BodyReader)
        ensures
            r@ == data@,
    {
        let r = BodyReader { data: data, pos: 0 };
        assert(r@ =~= data@);
        r
    }

    /// The number of bytes still to be read.
    pub fn remaining(&self) -> (r: usize)
        ensures
            r == self@.len(),
    {
        proof {
            use_type_invariant(self);
        }
        self.data.len() - self.pos
    }

    /// Reads the next bytes: `max` of them, or all that are left if they are
    /// fewer.
    pub fn read(&mut self, max: usize) -> (out: Vec<u8>)
        ensures
            out@ == old(self)@.take(
                if max <= old(self)@.len() {
                    max as int
                } else {
                    old(self)@.len() as int
                },
            ),
            final(self)@ == old(self)@.skip(out@.len() as int),
    {
        proof {
            use_type_invariant(&*self);
        }
        let left = self.data.len() - self.pos;
        let count = if max <= left {
            max
        } else {
            left
        };
        let start = self.pos;
        let mut out: Vec<u8> = Vec::new();
        let mut i: usize = 0;
        while i < count
            invariant
                0 <= i <= count,
                start + count <= self.data@.len() <= usize::MAX,
                out@ == self.data@.subrange(start as int, start + i),
            decreases count - i,
        {
            out.push(self.data[start + i]);
            i += 1;
            assert(out@ =~= self.data@.subrange(start as int, start + i));
        }
        self.pos = start + count;
        assert(out@ =~= old(self)@.take(count as int));
        assert(self@ =~= old(self)@.skip(count as int));
        out
    }

    /// Reads all that is left.
    pub fn read_to_end(&mut self) -> (out: Vec<u8>)
        ensures
            out@ == old(self)@,
            final(self)@ == Seq::<u8>::empty(),
    {
        let left = self.remaining();
        let out = self.read(left);
        assert(out@ =~= old(self)@);
        assert(self@ =~= Seq::<u8>::empty());
        out
    }
}

} // verus!
