use vstd::prelude::*;

verus! {

/// A fixed-capacity byte region between an engine and a sink.
///
/// Bytes are appended at the back and taken from the front, in order. The
/// bytes not yet taken are `buf[start..end]`; once all are taken both cursors
/// go back to zero, so the region never holds stale bytes.
pub struct Staging {
    buf: Vec<u8>,
    start: usize,
    end: usize,
}

impl View for Staging {
    type V = Seq<u8>;

    /// The bytes waiting to be taken, oldest first.
    closed spec fn view(&self) -> Seq<u8> {
        self.buf@.subrange(self.start as int, self.end as int)
    }
}

impl Staging {
    /// The fixed number of bytes the region can hold.
    pub closed spec fn spec_capacity(&self) -> nat {
        self.buf@.len()
    }

    /// The cursors lie within the region, in order, and rest at zero when
    /// nothing is waiting.
    pub closed spec fn wf(&self) -> bool {
        &&& self.start <= self.end <= self.buf@.len()
        &&& self.start == self.end ==> self.start == 0
        &&& 0 < self.buf@.len() <= usize::MAX
    }

    /// An empty region of `capacity` bytes.
    pub fn new(capacity: usize) -> (r: Staging)
        requires
            capacity > 0,
        ensures
            r.wf(),
            r@ == Seq::<u8>::empty(),
            r.spec_capacity() == capacity,
    {
        let mut buf: Vec<u8> = Vec::with_capacity(capacity);
        let mut i: usize = 0;
        while i < capacity
            invariant
                i <= capacity,
                buf@.len() == i,
            decreases capacity - i,
        {
            buf.push(0);
            i = i + 1;
        }
        let r = Staging { buf, start: 0, end: 0 };
        assert(r@ =~= Seq::<u8>::empty());
        r
    }

    /// The fixed number of bytes the region can hold.
    pub fn capacity(&self) -> (r: usize)
        requires
            self.wf(),
        ensures
            r == self.spec_capacity(),
    {
        self.buf.len()
    }

    /// The number of bytes waiting.
    pub fn len(&self) -> (r: usize)
        requires
            self.wf(),
        ensures
            r == self@.len(),
    {
        self.end - self.start
    }

    /// Whether no byte is waiting.
    pub fn is_empty(&self) -> (r: bool)
        requires
            self.wf(),
        ensures
            r == (self@.len() == 0),
    {
        self.start == self.end
    }

    /// How many more bytes fit.
    pub fn room(&self) -> (r: usize)
        requires
            self.wf(),
        ensures
            r == self.spec_capacity() - self@.len(),
    {
        self.buf.len() - (self.end - self.start)
    }

    /// The bytes waiting, oldest first.
    pub fn pending(&self) -> (r: &[u8])
        requires
            self.wf(),
        ensures
            r@ == self@,
    {
        vstd::slice::slice_subrange(self.buf.as_slice(), self.start, self.end)
    }

    /// Moves the waiting bytes to the front of the region.
    fn compact(&mut self)
        requires
            old(self).wf(),
        ensures
            final(self).wf(),
            final(self).start == 0,
            final(self)@ == old(self)@,
            final(self).spec_capacity() == old(self).spec_capacity(),
    {
        let ghost waiting = self@;
        let n: usize = self.end - self.start;
        let mut i: usize = 0;
        while i < n
            invariant
                self.start <= self.end <= self.buf@.len(),
                self.buf@.len() == old(self).buf@.len(),
                n == self.end - self.start,
                waiting == old(self)@,
                waiting.len() == n,
                i <= n,
                self.start == old(self).start,
                self.end == old(self).end,
                forall|k: int| 0 <= k < i ==> self.buf@[k] == waiting[k],
                forall|k: int| i <= k < n ==> self.buf@[self.start + k] == waiting[k],
            decreases n - i,
        {
            let from: usize = self.start + i;
            let b = self.buf[from];
            self.buf.set(i, b);
            i = i + 1;
        }
        self.start = 0;
        self.end = n;
        assert(self@ =~= waiting);
    }

    /// Appends `data` after the waiting bytes; it must fit.
    pub fn push(&mut self, data: &[u8])
        requires
            old(self).wf(),
            data@.len() <= old(self).spec_capacity() - old(self)@.len(),
        ensures
            final(self).wf(),
            final(self)@ == old(self)@ + data@,
            final(self).spec_capacity() == old(self).spec_capacity(),
    {
        if data.len() == 0 {
            assert(self@ + data@ =~= self@);
            return;
        }
        if data.len() > self.buf.len() - self.end {
            self.compact();
        }
        let ghost before = self@;
        let base: usize = self.end;
        let mut j: usize = 0;
        while j < data.len()
            invariant
                self.start <= base <= self.buf@.len(),
                base + data@.len() <= self.buf@.len() <= usize::MAX,
                self.buf@.len() == old(self).buf@.len(),
                self.end == base,
                before == old(self)@,
                self.buf@.subrange(self.start as int, base as int) == before,
                j <= data@.len(),
                forall|k: int| 0 <= k < j ==> self.buf@[base + k] == data@[k],
            decreases data@.len() - j,
        {
            let at: usize = base + j;
            self.buf.set(at, data[j]);
            assert(self.buf@.subrange(self.start as int, base as int) =~= before);
            j = j + 1;
        }
        self.end = base + data.len();
        assert(self@ =~= before + data@);
    }

    /// Takes the `n` oldest bytes away.
    pub fn consume(&mut self, n: usize)
        requires
            old(self).wf(),
            n <= old(self)@.len(),
        ensures
            final(self).wf(),
            final(self)@ == old(self)@.skip(n as int),
            final(self).spec_capacity() == old(self).spec_capacity(),
    {
        let ghost before = self@;
        self.start = self.start + n;
        if self.start == self.end {
            self.start = 0;
            self.end = 0;
        }
        assert(self@ =~= before.skip(n as int));
    }
}

} // verus!
