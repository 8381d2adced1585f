//! Owned buffers with a cursor, alone and as an ordered run of regions.
//!
//! The bytes before the cursor are done with (received, or already sent);
//! the bytes from the cursor on are the room a receive may fill, or what a
//! send still has to transfer.

use vstd::prelude::*;

verus! {

/// What a [`Buffer`] stands for.
pub struct BufferView {
    pub bytes: Seq<u8>,
    pub cursor: nat,
}

impl BufferView {
    /// The cursor lies within the bytes.
    pub open spec fn wf(self) -> bool {
        self.cursor <= self.bytes.len()
    }

    /// How many bytes lie from the cursor on.
    pub open spec fn room(self) -> nat {
        (self.bytes.len() - self.cursor) as nat
    }

    /// The bytes from the cursor on.
    pub open spec fn pending(self) -> Seq<u8> {
        self.bytes.subrange(self.cursor as int, self.bytes.len() as int)
    }

    /// The same bytes with the cursor `n` further on.
    pub open spec fn advance(self, n: nat) -> BufferView {
        BufferView { bytes: self.bytes, cursor: self.cursor + n }
    }

    /// `data` written at the cursor, and the cursor moved past it.
    pub open spec fn fill(self, data: Seq<u8>) -> BufferView {
        BufferView {
            bytes: self.bytes.subrange(0, self.cursor as int) + data + self.bytes.subrange(
                (self.cursor + data.len()) as int,
                self.bytes.len() as int,
            ),
            cursor: self.cursor + data.len(),
        }
    }
}

/// An owned, contiguous byte buffer with a cursor.
#[derive(Debug)]
pub struct Buffer {
    bytes: Vec<u8>,
    cursor: usize,
}

impl View for Buffer {
    type V = BufferView;

    closed spec fn view(&self) -> BufferView {
        BufferView { bytes: self.bytes@, cursor: self.cursor as nat }
    }
}

impl Buffer {
    #[verifier::type_invariant]
    spec fn cursor_in_range(self) -> bool {
        self.cursor <= self.bytes@.len()
    }

    /// Takes `bytes` as a buffer with the cursor at its start.
    pub fn new(bytes: Vec<u8>) -> (r: Buffer)
        ensures
            r@ == (BufferView { bytes: bytes@, cursor: 0 }),
            r@.wf(),
    {
        Buffer { bytes, cursor: 0 }
    }

    /// A buffer of `capacity` zero bytes with the cursor at its start.
    pub fn with_capacity(capacity: usize) -> (r: Buffer)
        ensures
            r@ == (BufferView { bytes: Seq::new(capacity as nat, |i: int| 0u8), cursor: 0 }),
            r@.wf(),
    {
        let mut bytes: Vec<u8> = Vec::with_capacity(capacity);
        let mut i: usize = 0;
        while i < capacity
            invariant
                i <= capacity,
                bytes@ == Seq::new(i as nat, |j: int| 0u8),
            decreases capacity - i,
        {
            bytes.push(0u8);
            proof {
                assert(bytes@ =~= Seq::new((i + 1) as nat, |j: int| 0u8));
            }
            i += 1;
        }
        Buffer { bytes, cursor: 0 }
    }

    /// The number of bytes the buffer holds, before and after the cursor.
    pub fn capacity(&self) -> (r: usize)
        ensures
            r == self@.bytes.len(),
    {
        self.bytes.len()
    }

    /// Where the cursor stands.
    pub fn position(&self) -> (r: usize)
        ensures
            r == self@.cursor,
    {
        self.cursor
    }

    /// How many bytes lie from the cursor on. The cursor of a buffer never
    /// lies behind its bytes.
    pub fn room(&self) -> (r: usize)
        ensures
            r == self@.room(),
            self@.wf(),
    {
        proof {
            use_type_invariant(self);
        }
        self.bytes.len() - self.cursor
    }

    /// All bytes of the buffer.
    pub fn as_bytes(&self) -> (r: &Vec<u8>)
        ensures
            r@ == self@.bytes,
    {
        &self.bytes
    }

    /// A copy of the bytes from the cursor on: what a send has to transfer.
    pub fn pending(&self) -> (r: Vec<u8>)
        ensures
            r@ == self@.pending(),
    {
        proof {
            use_type_invariant(self);
        }
        let n: usize = self.bytes.len();
        let start: usize = self.cursor;
        let mut out: Vec<u8> = Vec::with_capacity(n - start);
        let mut i: usize = start;
        while i < n
            invariant
                start <= i <= n,
                n == self.bytes@.len(),
                out@ == self.bytes@.subrange(start as int, i as int),
            decreases n - i,
        {
            out.push(self.bytes[i]);
            proof {
                assert(out@ =~= self.bytes@.subrange(start as int, i + 1));
            }
            i += 1;
        }
        out
    }

    /// Moves the cursor `n` bytes on.
    pub fn advance(&mut self, n: usize)
        requires
            n <= old(self)@.room(),
        ensures
            final(self)@ == old(self)@.advance(n as nat),
            final(self)@.wf(),
    {
        proof {
            use_type_invariant(&*self);
        }
        let end: usize = self.bytes.len();
        proof {
            assert(self.cursor + n <= end);
        }
        self.cursor = self.cursor + n;
    }

    /// Writes `data[from..from + count]` at the cursor and moves the cursor
    /// past it.
    pub fn fill_from(&mut self, data: &Vec<u8>, from: usize, count: usize)
        requires
            from + count <= data@.len(),
            count <= old(self)@.room(),
        ensures
            final(self)@ == old(self)@.fill(data@.subrange(from as int, from + count)),
            final(self)@.wf(),
    {
        proof {
            use_type_invariant(&*self);
        }
        let mut taken = Buffer { bytes: Vec::new(), cursor: 0 };
        std::mem::swap(self, &mut taken);
        let start: usize = taken.cursor;
        let mut bytes: Vec<u8> = taken.bytes;
        let len: usize = bytes.len();
        let limit: usize = data.len();
        let mut i: usize = 0;
        while i < count
            invariant
                i <= count,
                from + count <= limit,
                limit == data@.len(),
                start + count <= len,
                len == bytes@.len(),
                start == old(self).cursor,
                bytes@.len() == old(self).bytes@.len(),
                forall|j: int| 0 <= j < start ==> bytes@[j] == old(self).bytes@[j],
                forall|j: int| start <= j < start + i ==> bytes@[j] == data@[from + j - start],
                forall|j: int| start + i <= j < bytes@.len() ==> bytes@[j] == old(self).bytes@[j],
            decreases count - i,
        {
            bytes.set(start + i, data[from + i]);
            i += 1;
        }
        proof {
            assert(bytes@ =~= old(self)@.fill(data@.subrange(from as int, from + count)).bytes);
        }
        *self = Buffer { bytes, cursor: start + count };
    }

    /// Writes all of `data` at the cursor and moves the cursor past it.
    pub fn fill(&mut self, data: &Vec<u8>)
        requires
            data@.len() <= old(self)@.room(),
        ensures
            final(self)@ == old(self)@.fill(data@),
            final(self)@.wf(),
    {
        proof {
            assert(data@.subrange(0, data@.len() as int) =~= data@);
        }
        self.fill_from(data, 0, data.len());
    }

    /// Gives the bytes and the cursor back.
    pub fn into_parts(self) -> (r: (Vec<u8>, usize))
        ensures
            r.0@ == self@.bytes,
            r.1 == self@.cursor,
    {
        (self.bytes, self.cursor)
    }
}

/// The views of a run of buffers, in order.
pub open spec fn views(bufs: Seq<Buffer>) -> Seq<BufferView> {
    bufs.map_values(|b: Buffer| b@)
}

/// Every region is well formed.
pub open spec fn all_wf(bufs: Seq<BufferView>) -> bool {
    forall|i: int| 0 <= i < bufs.len() ==> (#[trigger] bufs[i]).wf()
}

/// The room of the first `i` regions together.
pub open spec fn room_before(bufs: Seq<BufferView>, i: int) -> nat
    decreases i,
{
    if i <= 0 {
        0
    } else {
        room_before(bufs, i - 1) + bufs[i - 1].room()
    }
}

/// The room of all regions together.
pub open spec fn total_room(bufs: Seq<BufferView>) -> nat {
    room_before(bufs, bufs.len() as int)
}

/// Of a transfer of `n` bytes that takes the regions in order, how many
/// bytes lie in the regions before region `i`.
pub open spec fn offset_at(bufs: Seq<BufferView>, n: nat, i: int) -> nat {
    if room_before(bufs, i) < n {
        room_before(bufs, i)
    } else {
        n
    }
}

/// The regions after a transfer of `n` bytes moved their cursors: each
/// region takes what is left of `n`, up to its room, before the next one
/// takes anything.
pub open spec fn advance_run(bufs: Seq<BufferView>, n: nat) -> Seq<BufferView> {
    Seq::new(
        bufs.len(),
        |i: int| bufs[i].advance((offset_at(bufs, n, i + 1) - offset_at(bufs, n, i)) as nat),
    )
}

/// The regions after `data` was written into them in order.
pub open spec fn fill_run(bufs: Seq<BufferView>, data: Seq<u8>) -> Seq<BufferView> {
    Seq::new(
        bufs.len(),
        |i: int|
            bufs[i].fill(
                data.subrange(
                    offset_at(bufs, data.len(), i) as int,
                    offset_at(bufs, data.len(), i + 1) as int,
                ),
            ),
    )
}

/// Moves the cursors of a run of regions on by `n` bytes in all, in order.
pub fn advance_vectored(bufs: &mut Vec<Buffer>, n: usize)
    requires
        n <= total_room(views(old(bufs)@)),
    ensures
        views(final(bufs)@) == advance_run(views(old(bufs)@), n as nat),
        all_wf(views(final(bufs)@)),
{
    let ghost before = views(bufs@);
    let count: usize = bufs.len();
    let mut off: usize = 0;
    let mut i: usize = 0;
    while i < count
        invariant
            i <= count,
            count == bufs@.len(),
            before.len() == count,
            off <= n,
            off == offset_at(before, n as nat, i as int),
            forall|j: int|
                0 <= j < i ==> (#[trigger] bufs@[j])@ == before[j].advance(
                    (offset_at(before, n as nat, j + 1) - offset_at(before, n as nat, j)) as nat,
                ) && bufs@[j]@.wf(),
            forall|j: int| i <= j < count ==> (#[trigger] bufs@[j])@ == before[j],
        decreases count - i,
    {
        let room: usize = bufs[i].room();
        let left: usize = n - off;
        let take: usize = if room < left {
            room
        } else {
            left
        };
        bufs[i].advance(take);
        off = off + take;
        i += 1;
    }
    proof {
        assert(views(bufs@) =~= advance_run(before, n as nat));
    }
}

/// Writes `data` into a run of regions in order: each region is filled from
/// its cursor before the next one takes anything.
pub fn fill_vectored(bufs: &mut Vec<Buffer>, data: &Vec<u8>)
    requires
        data@.len() <= total_room(views(old(bufs)@)),
    ensures
        views(final(bufs)@) == fill_run(views(old(bufs)@), data@),
        all_wf(views(final(bufs)@)),
{
    let ghost before = views(bufs@);
    let n: usize = data.len();
    let count: usize = bufs.len();
    let mut off: usize = 0;
    let mut i: usize = 0;
    while i < count
        invariant
            i <= count,
            count == bufs@.len(),
            before.len() == count,
            n == data@.len(),
            off <= n,
            off == offset_at(before, n as nat, i as int),
            forall|j: int|
                0 <= j < i ==> (#[trigger] bufs@[j])@ == before[j].fill(
                    data@.subrange(
                        offset_at(before, n as nat, j) as int,
                        offset_at(before, n as nat, j + 1) as int,
                    ),
                ) && bufs@[j]@.wf(),
            forall|j: int| i <= j < count ==> (#[trigger] bufs@[j])@ == before[j],
        decreases count - i,
    {
        let room: usize = bufs[i].room();
        let left: usize = n - off;
        let take: usize = if room < left {
            room
        } else {
            left
        };
        bufs[i].fill_from(data, off, take);
        off = off + take;
        i += 1;
    }
    proof {
        assert(views(bufs@) =~= fill_run(before, data@));
    }
}

} // verus!
