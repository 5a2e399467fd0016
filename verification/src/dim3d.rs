use vstd::prelude::*;

use crate::verletcore::Line;

verus! {

impl<L> Line<L> {
    /// Mutable access to both ends of the stick at once, as the 3D simulation uses it:
    /// the first reference is to point `a`, the second to point `b`.
    pub fn get_points<'a, P>(&self, points: &'a mut [P]) -> (ends: (&'a mut P, &'a mut P))
        requires
            self.a < old(points)@.len(),
            self.b < old(points)@.len(),
            self.a != self.b,
        ensures
            *ends.0 == old(points)@[self.a as int],
            *ends.1 == old(points)@[self.b as int],
            final(points)@ == old(points)@.update(self.a as int, *final(ends.0)).update(
                self.b as int,
                *final(ends.1),
            ),
    {
        self.get_both_points(points)
    }
}

} // verus!
