use vstd::prelude::*;

use crate::verletcore::Line;

verus! {

impl<L> Line<L> {
    /// Mutable access to both ends of the stick at once.
    ///
    /// The first reference is to point `a`, the second to point `b`; what is written
    /// through them lands in those two places and nowhere else.
    pub fn get_both_points<'a, P>(&self, points: &'a mut [P]) -> (ends: (&'a mut P, &'a mut P))
        requires
            self.a < old(points)@.len(),
            self.b < old(points)@.len(),
            self.a != self.b,
        ensures
            *ends.0 == old(points)@[self.a as int],
            *ends.1 == old(points)@[self.b as int],
            final(points)@ == old(points)@.update(self.a as int, *final(ends.0)).update(
                self.b as int,
                *final(ends.1),
            ),
    {
        if self.a < self.b {
            let (first, second) = points.split_at_mut(self.b);
            let (front, middle) = first.split_at_mut(self.a);
            let end_a = middle.first_mut().unwrap();
            let end_b = second.first_mut().unwrap();
            (end_a, end_b)
        } else {
            let (first, second) = points.split_at_mut(self.a);
            let (front, middle) = first.split_at_mut(self.b);
            let end_b = middle.first_mut().unwrap();
            let end_a = second.first_mut().unwrap();
            (end_a, end_b)
        }
    }
}

} // verus!
