use vstd::prelude::*;

verus! {

/// `d` after writing `a` at position `p`: the bytes of `a` replace those
/// under them, the sequence grows where `a` runs past its end, and a gap
/// between the end of `d` and `p` reads as zeros.
pub open spec fn overwrite(d: Seq<u8>, p: int, a: Seq<u8>) -> Seq<u8> {
    Seq::new(
        if p + a.len() > d.len() {
            (p + a.len()) as nat
        } else {
            d.len()
        },
        |i: int|
            if p <= i < p + a.len() {
                a[i - p]
            } else if i < d.len() {
                d[i]
            } else {
                0u8
            },
    )
}

/// An in-memory output destination: a byte sequence and a write position
/// that can be moved, so that a header written earlier can be rewritten.
pub struct WavOutBuffer {
    data: Vec<u8>,
    pos: usize,
}

impl WavOutBuffer {
    /// The bytes held.
    pub closed spec fn bytes(&self) -> Seq<u8> {
        self.data@
    }

    /// The position of the next write.
    pub closed spec fn pos(&self) -> nat {
        self.pos as nat
    }

    /// An empty destination, positioned at its start.
    pub fn new() -> (r: WavOutBuffer)
        ensures
            r.bytes() == Seq::<u8>::empty(),
            r.pos() == 0,
    {
        WavOutBuffer { data: Vec::new(), pos: 0 }
    }

    /// A destination holding `data`, positioned at its start.
    pub fn from_bytes(data: Vec<u8>) -> (r: WavOutBuffer)
        ensures
            r.bytes() == data@,
            r.pos() == 0,
    {
        WavOutBuffer { data, pos: 0 }
    }

    /// A copy of this destination, with the same bytes and position.
    pub fn duplicate(&self) -> (r: WavOutBuffer)
        ensures
            r.bytes() == self.bytes(),
            r.pos() == self.pos(),
    {
        WavOutBuffer { data: vstd::slice::slice_to_vec(self.data.as_slice()), pos: self.pos }
    }

    /// The position of the next write.
    pub fn position(&self) -> (r: usize)
        ensures
            r == self.pos(),
    {
        self.pos
    }

    /// Moves the write position.
    pub fn set_position(&mut self, pos: usize)
        ensures
            final(self).bytes() == old(self).bytes(),
            final(self).pos() == pos,
    {
        self.pos = pos;
    }

    /// The bytes held.
    pub fn get_ref(&self) -> (r: &Vec<u8>)
        ensures
            r@ == self.bytes(),
    {
        &self.data
    }

    /// Gives the bytes held back.
    pub fn into_inner(self) -> (r: Vec<u8>)
        ensures
            r@ == self.bytes(),
    {
        self.data
    }

    /// Writes `a` at the write position and moves the position past it.
    pub fn write_all(&mut self, a: &[u8])
        requires
            old(self).pos() + a@.len() <= usize::MAX,
        ensures
            final(self).bytes() == overwrite(old(self).bytes(), old(self).pos() as int, a@),
            final(self).pos() == old(self).pos() + a@.len(),
    {
        let ghost d0 = self.data@;
        let p0 = self.pos;
        while self.data.len() < p0
            invariant
                self.pos == p0,
                d0.len() <= self.data@.len() <= p0 || self.data@.len() == d0.len(),
                self.data@ =~= Seq::new(
                    self.data@.len(),
                    |i: int|
                        if i < d0.len() {
                            d0[i]
                        } else {
                            0u8
                        },
                ),
            decreases p0 - self.data@.len(),
        {
            self.data.push(0);
        }
        assert(self.data@ =~= overwrite(d0, p0 as int, a@.subrange(0, 0)));
        let mut i: usize = 0;
        while i < a.len()
            invariant
                self.pos == p0,
                p0 + a@.len() <= usize::MAX,
                i <= a@.len(),
                self.data@ == overwrite(d0, p0 as int, a@.subrange(0, i as int)),
            decreases a@.len() - i,
        {
            let j = p0 + i;
            if j < self.data.len() {
                self.data.set(j, a[i]);
            } else {
                self.data.push(a[i]);
            }
            assert(self.data@ =~= overwrite(d0, p0 as int, a@.subrange(0, i + 1)));
            i = i + 1;
        }
        assert(a@.subrange(0, a@.len() as int) =~= a@);
        self.pos = p0 + a.len();
    }
}

} // verus!
