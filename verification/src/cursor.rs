//! How far the pointer has moved from the middle of the window.

use vstd::prelude::*;

verus! {

/// The pointer's last move, measured from the point it is put back to after
/// each move.
#[derive(Debug, Clone, Copy)]
pub struct Cursor {
    deltax: i32,
    deltay: i32,
    center: (i32, i32),
}

impl Cursor {
    /// The point that the pointer is put back to.
    pub closed spec fn center(&self) -> (i32, i32) {
        self.center
    }

    /// The last move: to the right, and upwards.
    pub closed spec fn delta(&self) -> (i32, i32) {
        (self.deltax, self.deltay)
    }

    /// A cursor at rest at the given point. The caller puts the pointer
    /// there.
    pub fn new(xcenter: i32, ycenter: i32) -> (cursor: Cursor)
        ensures
            cursor.center() == (xcenter, ycenter),
            cursor.delta() == (0i32, 0i32),
    {
        Cursor { deltax: 0, deltay: 0, center: (xcenter, ycenter) }
    }

    /// Whether a move of the pointer to `(xpos, ypos)` can be measured: both
    /// distances from the center fit the machine's numbers.
    pub open spec fn measures(&self, xpos: i32, ypos: i32) -> bool {
        &&& i32::MIN <= xpos - self.center().0 <= i32::MAX
        &&& i32::MIN <= self.center().1 - ypos <= i32::MAX
    }

    /// Tells whether `update` can take a move of the pointer to this point.
    pub fn can_update(&self, xpos: i32, ypos: i32) -> (fits: bool)
        ensures
            fits == self.measures(xpos, ypos),
    {
        let (xc, yc) = self.center;
        xpos.checked_sub(xc).is_some() && yc.checked_sub(ypos).is_some()
    }

    /// Takes in that the pointer is now at `(xpos, ypos)`, in window
    /// coordinates, which grow to the right and downwards. Hands back the
    /// point to put the pointer back to.
    pub fn update(&mut self, xpos: i32, ypos: i32) -> (back: (i32, i32))
        requires
            old(self).measures(xpos, ypos),
        ensures
            final(self).delta().0 == xpos - old(self).center().0,
            final(self).delta().1 == old(self).center().1 - ypos,
            final(self).center() == old(self).center(),
            back == old(self).center(),
    {
        let (xc, yc) = self.center;
        self.deltax = xpos - xc;
        self.deltay = yc - ypos;
        (xc, yc)
    }

    /// Moves the point that the pointer is put back to. The last move
    /// stays as it is.
    pub fn update_center(&mut self, xcenter: i32, ycenter: i32)
        ensures
            final(self).center() == (xcenter, ycenter),
            final(self).delta() == old(self).delta(),
    {
        self.center = (xcenter, ycenter);
    }

    /// The point that the pointer is put back to.
    pub fn get_center(&self) -> (center: (i32, i32))
        ensures
            center == self.center(),
    {
        self.center
    }

    /// The last move: to the right, and upwards.
    pub fn get_delta(&self) -> (delta: (i32, i32))
        ensures
            delta == self.delta(),
    {
        (self.deltax, self.deltay)
    }
}

} // verus!
