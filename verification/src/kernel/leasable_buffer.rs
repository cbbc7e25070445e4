use vstd::prelude::*;

verus! {

/// A buffer lent out with a window onto it: an operation covers only the
/// active bytes, and the window can be narrowed and reset without losing the
/// rest.
pub struct SubSliceMut {
    pub internal: Vec<u8>,
    pub active_start: usize,
    pub active_end: usize,
}

impl SubSliceMut {
    /// The window lies inside the buffer.
    pub open spec fn wf(&self) -> bool {
        self.active_start <= self.active_end <= self.internal@.len()
    }

    /// The active bytes.
    pub open spec fn active(&self) -> Seq<u8> {
        self.internal@.subrange(self.active_start as int, self.active_end as int)
    }

    /// The whole of `buffer`, active.
    pub fn new(buffer: Vec<u8>) -> (s: Self)
        ensures
            s.wf(),
            s.internal == buffer,
            s.active_start == 0,
            s.active_end == buffer@.len(),
    {
        let end = buffer.len();
        SubSliceMut { internal: buffer, active_start: 0, active_end: end }
    }

    /// How many bytes are active.
    pub fn len(&self) -> (n: usize)
        requires
            self.wf(),
        ensures
            n == self.active_end - self.active_start,
    {
        self.active_end - self.active_start
    }

    /// Make the whole buffer active again.
    pub fn reset(&mut self)
        ensures
            final(self).wf(),
            final(self).internal == old(self).internal,
            final(self).active_start == 0,
            final(self).active_end == old(self).internal@.len(),
    {
        self.active_start = 0;
        self.active_end = self.internal.len();
    }

    /// Narrow the window to `start..end` of the active bytes.
    pub fn slice(&mut self, start: usize, end: usize)
        requires
            old(self).wf(),
            start <= end <= old(self).active_end - old(self).active_start,
        ensures
            final(self).wf(),
            final(self).internal == old(self).internal,
            final(self).active_start == old(self).active_start + start,
            final(self).active_end == old(self).active_start + end,
    {
        self.active_end = self.active_start + end;
        self.active_start = self.active_start + start;
    }

    /// Active byte `i`.
    pub fn get(&self, i: usize) -> (b: u8)
        requires
            self.wf(),
            i < self.active_end - self.active_start,
        ensures
            b == self.active()[i as int],
    {
        self.internal[self.active_start + i]
    }

    /// Set active byte `i` to `value`.
    pub fn set(&mut self, i: usize, value: u8)
        requires
            old(self).wf(),
            i < old(self).active_end - old(self).active_start,
        ensures
            final(self).wf(),
            final(self).active_start == old(self).active_start,
            final(self).active_end == old(self).active_end,
            final(self).internal@ == old(self).internal@.update(old(self).active_start + i, value),
    {
        let k = self.active_start + i;
        self.internal.set(k, value);
    }

    /// Give the buffer back, whole.
    pub fn take(self) -> (buffer: Vec<u8>)
        ensures
            buffer == self.internal,
    {
        self.internal
    }
}

} // verus!
