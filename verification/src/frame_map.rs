//! A tiny fixed-size map with one slot per in-flight frame, used to keep
//! per-frame resources (command buffers, fences) apart while the renderer
//! works ahead of the display.

use vstd::prelude::*;

verus! {

/// How many frames may be in flight at once.
pub const MAX_FRAMES_IN_FLIGHT: usize = 2;

/// One value of type `T` per in-flight frame, indexed by frame slot.
#[derive(Clone, Copy, Debug, PartialEq, Eq)]
pub struct FrameMap<T> {
    pub frames: [T; 2],
}

impl<T: Copy> FrameMap<T> {
    /// A map holding `initial` in every slot.
    pub fn new(initial: T) -> (r: FrameMap<T>)
        ensures
            forall|i: int| 0 <= i < 2 ==> r.frames[i] == initial,
    {
        FrameMap { frames: [initial, initial] }
    }

    /// The number of slots.
    pub fn len(&self) -> (r: usize)
        ensures
            r == 2,
    {
        2
    }

    /// Borrows the value in slot `index`.
    pub fn get(&self, index: usize) -> (r: &T)
        requires
            index < 2,
        ensures
            *r == self.frames[index as int],
    {
        &self.frames[index]
    }

    /// Mutably borrows the value in slot `index`; the other slot keeps its
    /// value.
    pub fn get_mut(&mut self, index: usize) -> (r: &mut T)
        requires
            index < 2,
        ensures
            *r == old(self).frames[index as int],
            final(self).frames@ =~= old(self).frames@.update(index as int, *final(r)),
    {
        &mut self.frames[index]
    }

    /// Replaces the value in slot `index`; the other slot keeps its value.
    pub fn set(&mut self, index: usize, value: T)
        requires
            index < 2,
        ensures
            final(self).frames@ =~= old(self).frames@.update(index as int, value),
    {
        self.frames[index] = value;
    }

    /// The slots in order, each paired with its index.
    pub fn iter(&self) -> (r: Vec<(usize, T)>)
        ensures
            r.len() == 2,
            forall|i: int| 0 <= i < 2 ==> #[trigger] r[i] == (i as usize, self.frames[i]),
    {
        let mut out: Vec<(usize, T)> = Vec::new();
        out.push((0, self.frames[0]));
        out.push((1, self.frames[1]));
        out
    }
}

} // verus!
