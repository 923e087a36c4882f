//! Streaming adapters that feed the brotli encoder and decoder: a bounded
//! source over a byte slice, a bounded sink over a mutable byte slice, and a
//! growable sink over a vector.
use vstd::prelude::*;

verus! {

/// Push sink over a caller-supplied byte slice of fixed capacity.
///
/// `pos` counts the bytes written so far, all of them at the front of `buf`.
/// The fields are public so that contracts can follow the borrowed slice to
/// the end of the borrow; `write` never moves `pos` past the end of
/// `buf`.
pub struct SliceWriter<'a> {
    pub buf: &'a mut [u8],
    pub pos: usize,
}

/// How many bytes a cursor at `pos` may still move over a buffer of `len` bytes.
pub open spec fn room(len: nat, pos: nat) -> nat {
    if pos <= len {
        (len - pos) as nat
    } else {
        0
    }
}

/// How many bytes one transfer of `want` bytes moves when `room` are left.
pub open spec fn transfer_len(want: nat, room: nat) -> nat {
    if want <= room {
        want
    } else {
        room
    }
}

impl<'a> SliceWriter<'a> {
    pub open spec fn capacity(&self) -> nat {
        self.buf@.len()
    }

    pub open spec fn room(&self) -> nat {
        room(self.buf@.len(), self.pos as nat)
    }

    pub fn new(buf: &'a mut [u8]) -> (w: Self)
        ensures
            w.pos == 0,
            w.buf@ == old(buf)@,
            final(w.buf)@ == final(buf)@,
    {
        SliceWriter { buf, pos: 0 }
    }

    pub fn position(&self) -> (r: usize)
        ensures
            r == self.pos,
    {
        self.pos
    }

    pub fn remaining(&self) -> (r: usize)
        ensures
            r == self.room(),
    {
        self.buf.len().saturating_sub(self.pos)
    }

    /// Copies as much of `data` as fits after the cursor and advances the
    /// cursor by that count; a full sink takes nothing and reports zero.
    pub fn write(&mut self, data: &[u8]) -> (r: usize)
        ensures
            r == transfer_len(data@.len(), old(self).room()),
            final(self).pos == old(self).pos + r,
            final(self).capacity() == old(self).capacity(),
            old(self).pos <= old(self).capacity() ==> final(self).pos <= final(self).capacity(),
            old(self).room() == 0 ==> r == 0,
            r > 0 ==> final(self).buf@ == old(self).buf@.subrange(0, old(self).pos as int)
                + data@.subrange(0, r as int)
                + old(self).buf@.subrange(old(self).pos + r, old(self).capacity() as int),
            r == 0 ==> final(self).buf@ == old(self).buf@,
            final(final(self).buf)@ == final(old(self).buf)@,
    {
        let n: usize = if data.len() < self.remaining() {
            data.len()
        } else {
            self.remaining()
        };
        if n == 0 {
            return 0;
        }
        let len: usize = self.buf.len();
        let mut i: usize = 0;
        while i < n
            invariant
                self.pos + n <= self.buf@.len() == len,
                n <= data@.len(),
                i <= n,
                self.buf@.len() == old(self).buf@.len(),
                self.pos == old(self).pos,
                final(self.buf)@ == final(old(self).buf)@,
                forall|k: int| 0 <= k < self.pos ==> self.buf@[k] == old(self).buf@[k],
                forall|k: int| 0 <= k < i ==> self.buf@[self.pos + k] == data@[k],
                forall|k: int|
                    self.pos + i <= k < self.buf@.len() ==> self.buf@[k] == old(self).buf@[k],
            decreases n - i,
        {
            self.buf[self.pos + i] = data[i];
            i = i + 1;
        }
        self.pos = self.pos + n;
        assert(self.buf@ =~= old(self).buf@.subrange(0, old(self).pos as int) + data@.subrange(
            0,
            n as int,
        ) + old(self).buf@.subrange(old(self).pos + n, old(self).buf@.len() as int));
        n
    }

    /// Nothing is buffered, so there is nothing to flush.
    pub fn flush(&mut self)
        ensures
            *final(self) == *old(self),
    {
    }

    /// Ends the writer and hands back the slice it wrote into.
    pub fn into_inner(self) -> (r: &'a mut [u8])
        ensures
            r@ == old(self.buf)@,
            final(r)@ == final(self.buf)@,
    {
        self.buf
    }
}

/// The encoder and decoder push their output through this impl. A sink that
/// can take no more of a non-empty chunk reports an error, which makes the
/// codec give up rather than offer the same chunk again.
impl<'a> brotli::CustomWrite<()> for SliceWriter<'a> {
    fn write(&mut self, data: &[u8]) -> Result<usize, ()> {
        let n = self.write(data);
        if n == 0 && data.len() > 0 {
            Err(())
        } else {
            Ok(n)
        }
    }

    fn flush(&mut self) -> Result<(), ()> {
        Ok(())
    }
}

/// Pull source over an immutable byte slice.
pub struct SliceReader<'a> {
    buf: &'a [u8],
    pos: usize,
}

impl<'a> SliceReader<'a> {
    /// The whole backing slice.
    pub closed spec fn data(&self) -> Seq<u8> {
        self.buf@
    }

    /// Bytes handed out so far.
    pub closed spec fn pos(&self) -> nat {
        self.pos as nat
    }

    pub open spec fn room(&self) -> nat {
        room(self.data().len(), self.pos())
    }

    /// The bytes that later reads will hand out.
    pub open spec fn unread(&self) -> Seq<u8> {
        if self.pos() <= self.data().len() {
            self.data().subrange(self.pos() as int, self.data().len() as int)
        } else {
            Seq::empty()
        }
    }

    pub fn new(buf: &'a [u8]) -> (r: Self)
        ensures
            r.data() == buf@,
            r.pos() == 0,
    {
        SliceReader { buf, pos: 0 }
    }

    pub fn position(&self) -> (r: usize)
        ensures
            r == self.pos(),
    {
        self.pos
    }

    pub fn remaining(&self) -> (r: usize)
        ensures
            r == self.room(),
    {
        self.buf.len().saturating_sub(self.pos)
    }

    /// Copies the next bytes into the front of `out`, as many as both have,
    /// and advances the cursor by that count; at the end it reports zero.
    pub fn read(&mut self, out: &mut [u8]) -> (r: usize)
        ensures
            r == transfer_len(old(out)@.len(), old(self).room()),
            final(self).data() == old(self).data(),
            final(self).pos() == old(self).pos() + r,
            old(self).pos() <= old(self).data().len() ==> final(self).pos() <= final(self).data().len(),
            old(self).room() == 0 ==> r == 0,
            final(out)@ == old(self).unread().subrange(0, r as int) + old(out)@.subrange(
                r as int,
                old(out)@.len() as int,
            ),
    {
        let n: usize = if out.len() < self.remaining() {
            out.len()
        } else {
            self.remaining()
        };
        if n == 0 {
            assert(final(out)@ =~= old(self).unread().subrange(0, 0) + old(out)@.subrange(
                0,
                old(out)@.len() as int,
            ));
            return 0;
        }
        let len: usize = self.buf.len();
        let mut i: usize = 0;
        while i < n
            invariant
                self.pos + n <= self.buf@.len() == len,
                n <= out@.len(),
                i <= n,
                *self == *old(self),
                out@.len() == old(out)@.len(),
                forall|k: int| 0 <= k < i ==> out@[k] == self.buf@[self.pos + k],
                forall|k: int| i <= k < out@.len() ==> out@[k] == old(out)@[k],
            decreases n - i,
        {
            out[i] = self.buf[self.pos + i];
            i = i + 1;
        }
        self.pos = self.pos + n;
        assert(out@ =~= old(self).unread().subrange(0, n as int) + old(out)@.subrange(
            n as int,
            old(out)@.len() as int,
        ));
        n
    }
}

impl<'a> brotli::CustomRead<()> for SliceReader<'a> {
    fn read(&mut self, data: &mut [u8]) -> Result<usize, ()> {
        Ok(self.read(data))
    }
}

/// Push sink that appends to a vector it owns; it takes every byte offered.
pub struct VecWriter {
    buf: Vec<u8>,
}

impl View for VecWriter {
    type V = Seq<u8>;

    closed spec fn view(&self) -> Seq<u8> {
        self.buf@
    }
}

impl VecWriter {
    pub fn new() -> (r: Self)
        ensures
            r@ == Seq::<u8>::empty(),
    {
        VecWriter { buf: Vec::new() }
    }

    pub fn with_capacity(cap: usize) -> (r: Self)
        ensures
            r@ == Seq::<u8>::empty(),
    {
        VecWriter { buf: Vec::with_capacity(cap) }
    }

    pub fn into_inner(self) -> (r: Vec<u8>)
        ensures
            r@ == self@,
    {
        self.buf
    }

    pub fn as_slice(&self) -> (r: &[u8])
        ensures
            r@ == self@,
    {
        self.buf.as_slice()
    }

    /// Appends all of `data`.
    pub fn write(&mut self, data: &[u8]) -> (r: usize)
        ensures
            r == data@.len(),
            final(self)@ == old(self)@ + data@,
    {
        self.buf.extend_from_slice(data);
        data.len()
    }

    /// Nothing is buffered, so there is nothing to flush.
    pub fn flush(&mut self)
        ensures
            final(self)@ == old(self)@,
    {
    }
}

impl Default for VecWriter {
    fn default() -> (r: Self)
        ensures
            r@ == Seq::<u8>::empty(),
    {
        Self::new()
    }
}

impl brotli::CustomWrite<()> for VecWriter {
    fn write(&mut self, data: &[u8]) -> Result<usize, ()> {
        Ok(self.write(data))
    }

    fn flush(&mut self) -> Result<(), ()> {
        Ok(())
    }
}

} // verus!
