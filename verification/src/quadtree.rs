//! The adaptive sampler's spatial data types: a quadtree of measurements
//! and the axis-aligned regions its nodes cover.

use vstd::prelude::*;

verus! {

use vstd::pervasive::arbitrary;

/// A quadtree: every node carries a payload, and a branch has exactly four
/// children.
pub enum Quadtree<T> {
    Leaf { payload: T },
    Branch { children: Box<[Quadtree<T>; 4]>, payload: T },
}

impl<T> Quadtree<T> {
    /// The payload at this node.
    pub open spec fn spec_payload(&self) -> T {
        match self {
            Quadtree::Leaf { payload } => *payload,
            Quadtree::Branch { payload, .. } => *payload,
        }
    }

    /// Whether this node is a branch.
    pub open spec fn is_branch(&self) -> bool {
        self is Branch
    }

    /// The four children of a branch.
    pub open spec fn spec_children(&self) -> [Quadtree<T>; 4]
        recommends
            self.is_branch(),
    {
        match self {
            Quadtree::Leaf { .. } => arbitrary(),
            Quadtree::Branch { children, .. } => **children,
        }
    }

    /// Borrows the payload, whichever kind of node this is.
    pub fn payload(&self) -> (r: &T)
        ensures
            *r == self.spec_payload(),
    {
        match self {
            Quadtree::Leaf { payload } => payload,
            Quadtree::Branch { payload, .. } => payload,
        }
    }

    /// Mutably borrows the payload: the tree afterwards is the tree before
    /// with only this node's payload replaced.
    pub fn payload_mut(&mut self) -> (r: &mut T)
        ensures
            *r == old(self).spec_payload(),
            !old(self).is_branch() ==> *final(self) == (Quadtree::Leaf { payload: *final(r) }),
            old(self).is_branch() ==> *final(self) == (Quadtree::Branch {
                children: Box::new(old(self).spec_children()),
                payload: *final(r),
            }),
    {
        match self {
            Quadtree::Leaf { payload } => payload,
            Quadtree::Branch { payload, .. } => payload,
        }
    }

    /// Borrows the four children of a branch; a leaf has none.
    pub fn children(&self) -> (r: Option<&[Quadtree<T>; 4]>)
        ensures
            self.is_branch() <==> (r is Some),
            r matches Some(c) ==> *c == self.spec_children(),
    {
        match self {
            Quadtree::Leaf { .. } => None,
            Quadtree::Branch { children, .. } => Some(&**children),
        }
    }

    /// Mutably borrows the four children of a branch; a leaf has none.
    pub fn children_mut(&mut self) -> (r: Option<&mut [Quadtree<T>; 4]>)
        ensures
            old(self).is_branch() <==> (r is Some),
            !old(self).is_branch() ==> *final(self) == *old(self),
            r matches Some(c) ==> {
                &&& *c == old(self).spec_children()
                &&& *final(self) == (Quadtree::Branch {
                    children: Box::new(*final(c)),
                    payload: old(self).spec_payload(),
                })
            },
    {
        match self {
            Quadtree::Leaf { .. } => None,
            Quadtree::Branch { children, .. } => Some(&mut **children),
        }
    }
}

/// An axis-aligned region of the display field, in pixels: a bottom-left
/// corner and a size.
#[derive(Clone, Copy, Debug, PartialEq, Eq)]
pub struct Rect {
    pub bottom_left: (u32, u32),
    pub size: (u32, u32),
}

impl Rect {
    /// The far corner stays within u32 coordinates.
    pub open spec fn wf(&self) -> bool {
        &&& self.bottom_left.0 + self.size.0 <= u32::MAX
        &&& self.bottom_left.1 + self.size.1 <= u32::MAX
    }

    /// Splits the region into four equal quadrants — bottom-left,
    /// bottom-right, top-left, top-right — when both sides are even, and
    /// refuses otherwise.
    pub fn subdivide(&self) -> (r: Option<[Rect; 4]>)
        requires
            self.wf(),
        ensures
            (r is Some) <==> (self.size.0 % 2 == 0 && self.size.1 % 2 == 0),
            r matches Some(q) ==> {
                let half = ((self.size.0 / 2) as u32, (self.size.1 / 2) as u32);
                &&& q[0] == (Rect { bottom_left: self.bottom_left, size: half })
                &&& q[1] == (Rect {
                    bottom_left: ((self.bottom_left.0 + half.0) as u32, self.bottom_left.1),
                    size: half,
                })
                &&& q[2] == (Rect {
                    bottom_left: (self.bottom_left.0, (self.bottom_left.1 + half.1) as u32),
                    size: half,
                })
                &&& q[3] == (Rect {
                    bottom_left: (
                        (self.bottom_left.0 + half.0) as u32,
                        (self.bottom_left.1 + half.1) as u32,
                    ),
                    size: half,
                })
                &&& forall|i: int| 0 <= i < 4 ==> #[trigger] q[i].wf()
            },
    {
        if (self.size.0 % 2 != 0) || (self.size.1 % 2 != 0) {
            return None;
        }
        let new_size = (self.size.0 / 2, self.size.1 / 2);
        let bottom_left_rect = Rect { bottom_left: self.bottom_left, size: new_size };
        let bottom_right_rect = Rect {
            bottom_left: (self.bottom_left.0 + new_size.0, self.bottom_left.1),
            size: new_size,
        };
        let top_left_rect = Rect {
            bottom_left: (self.bottom_left.0, self.bottom_left.1 + new_size.1),
            size: new_size,
        };
        let top_right_rect = Rect {
            bottom_left: (self.bottom_left.0 + new_size.0, self.bottom_left.1 + new_size.1),
            size: new_size,
        };
        Some([bottom_left_rect, bottom_right_rect, top_left_rect, top_right_rect])
    }

    /// Whether pixel `(x, y)` lies inside the region.
    pub fn contains(&self, x: u32, y: u32) -> (r: bool)
        requires
            self.wf(),
        ensures
            r == (self.bottom_left.0 <= x < self.bottom_left.0 + self.size.0
                && self.bottom_left.1 <= y < self.bottom_left.1 + self.size.1),
    {
        x >= self.bottom_left.0 && x - self.bottom_left.0 < self.size.0 && y >= self.bottom_left.1
            && y - self.bottom_left.1 < self.size.1
    }
}

} // verus!
