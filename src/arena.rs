use vstd::prelude::*;

verus! {

/// Where a payload lies in a frame's byte arena.
#[derive(Clone, Copy, Debug, PartialEq, Eq, Structural)]
pub struct BufRange {
    pub offset: usize,
    pub len: usize,
}

/// Whether `r` lies inside a buffer of `n` bytes.
pub open spec fn range_within(r: BufRange, n: nat) -> bool {
    r.offset + r.len <= n
}

/// Append-only store for the bulk payloads of one frame.
pub struct ByteArena {
    bytes: Vec<u8>,
}

impl View for ByteArena {
    type V = Seq<u8>;

    closed spec fn view(&self) -> Seq<u8> {
        self.bytes@
    }
}

impl ByteArena {
    pub fn new() -> (r: ByteArena)
        ensures
            r@ == Seq::<u8>::empty(),
    {
        ByteArena { bytes: Vec::new() }
    }

    pub fn with_capacity(capacity: usize) -> (r: ByteArena)
        ensures
            r@ == Seq::<u8>::empty(),
    {
        ByteArena { bytes: Vec::with_capacity(capacity) }
    }

    pub fn len(&self) -> (r: usize)
        ensures
            r == self@.len(),
    {
        self.bytes.len()
    }

    /// Appends `data` and returns where it lies; `None`, with nothing appended,
    /// when the arena's length would overflow.
    pub fn extend_from_slice(&mut self, data: &[u8]) -> (r: Option<BufRange>)
        ensures
            match r {
                Some(p) => {
                    &&& old(self)@.len() + data@.len() <= usize::MAX
                    &&& final(self)@ == old(self)@ + data@
                    &&& p.offset == old(self)@.len()
                    &&& p.len == data@.len()
                },
                None => {
                    &&& old(self)@.len() + data@.len() > usize::MAX
                    &&& final(self)@ == old(self)@
                },
            },
    {
        let offset = self.bytes.len();
        if data.len() > usize::MAX - offset {
            return None;
        }
        let mut i: usize = 0;
        while i < data.len()
            invariant
                offset == old(self)@.len(),
                offset + data@.len() <= usize::MAX,
                i <= data@.len(),
                self.bytes@ == old(self)@ + data@.subrange(0, i as int),
            decreases data@.len() - i,
        {
            self.bytes.push(data[i]);
            i = i + 1;
            assert(self.bytes@ =~= old(self)@ + data@.subrange(0, i as int));
        }
        assert(data@.subrange(0, data@.len() as int) =~= data@);
        Some(BufRange { offset, len: data.len() })
    }

    /// The bytes that `r` covers.
    pub fn read(&self, r: BufRange) -> (out: Vec<u8>)
        requires
            range_within(r, self@.len()),
        ensures
            out@ == self@.subrange(r.offset as int, r.offset + r.len),
    {
        let mut out: Vec<u8> = Vec::with_capacity(r.len);
        let n = self.bytes.len();
        let mut i: usize = 0;
        while i < r.len
            invariant
                n == self@.len(),
                range_within(r, self@.len()),
                i <= r.len,
                out@ == self@.subrange(r.offset as int, r.offset + i),
            decreases r.len - i,
        {
            out.push(self.bytes[r.offset + i]);
            i = i + 1;
            assert(out@ =~= self@.subrange(r.offset as int, r.offset + i));
        }
        out
    }

    /// Empties the arena; its storage is kept for the next frame.
    pub fn clear(&mut self)
        ensures
            final(self)@ == Seq::<u8>::empty(),
    {
        self.bytes.clear();
    }
}

} // verus!
