use vstd::prelude::*;

verus! {

/// A stick of the simulation: a constraint that keeps the points with indices
/// `a` and `b` at distance `length`.
///
/// The length is carried as it is (the simulation uses a float); the index
/// logic of this crate never looks at it.
#[derive(Clone, Copy, Debug, PartialEq)]
pub struct Line<L> {
    pub a: usize,
    pub b: usize,
    pub length: L,
}

impl<L> Line<L> {
    /// The stick hangs on point `p`.
    pub open spec fn attached_to(self, p: usize) -> bool {
        self.a == p || self.b == p
    }

    /// Both ends name points among the first `n`, and they are two different points.
    pub open spec fn within(self, n: nat) -> bool {
        &&& self.a < n
        &&& self.b < n
        &&& self.a != self.b
    }

    /// The stick after the point with index `removed` was taken out of the point list:
    /// every index above `removed` moves down by one.
    pub open spec fn reindexed_past(self, removed: usize) -> Line<L> {
        Line { a: shifted_index(self.a, removed), b: shifted_index(self.b, removed), length: self.length }
    }

    /// The stick with both indices moved up by `offset`.
    pub open spec fn offset_by(self, offset: usize) -> Line<L> {
        Line { a: (self.a + offset) as usize, b: (self.b + offset) as usize, length: self.length }
    }
}

/// Where the point that had index `i` stands once the point `removed` is gone.
pub open spec fn shifted_index(i: usize, removed: usize) -> usize {
    if i > removed {
        (i - 1) as usize
    } else {
        i
    }
}

/// Every stick joins two different points of a list of `n` points: the shape that
/// the simulation steps rely on to find both ends of each stick.
pub open spec fn lines_within<L>(lines: Seq<Line<L>>, n: nat) -> bool {
    forall|i: int| 0 <= i < lines.len() ==> (#[trigger] lines[i]).within(n)
}

/// The test that a stick survives the deletion of point `removed`.
pub open spec fn stays<L>(removed: usize) -> spec_fn(Line<L>) -> bool {
    |l: Line<L>| !l.attached_to(removed)
}

/// The sticks not attached to point `removed`, in their order and with their old indices.
pub open spec fn kept_lines<L>(lines: Seq<Line<L>>, removed: usize) -> Seq<Line<L>> {
    lines.filter(stays::<L>(removed))
}

/// The sticks that remain when point `removed` is deleted: those not attached to it,
/// in their order, with their indices moved past the gap.
pub open spec fn survivors<L>(lines: Seq<Line<L>>, removed: usize) -> Seq<Line<L>> {
    kept_lines(lines, removed).map_values(|l: Line<L>| l.reindexed_past(removed))
}

/// The pairs of points that the sticks hang on, stick by stick.
pub open spec fn attachments<P, L>(points: Seq<P>, lines: Seq<Line<L>>) -> Seq<(P, P)> {
    lines.map_values(|l: Line<L>| (points[l.a as int], points[l.b as int]))
}

/// Every stick moved up by `offset`.
pub open spec fn offset_lines<L>(lines: Seq<Line<L>>, offset: usize) -> Seq<Line<L>> {
    lines.map_values(|l: Line<L>| l.offset_by(offset))
}

/// Moving every stick up by `offset` stays within `usize`.
pub open spec fn offset_fits<L>(lines: Seq<Line<L>>, offset: usize) -> bool {
    forall|i: int|
        0 <= i < lines.len() ==> (#[trigger] lines[i]).a + offset <= usize::MAX && lines[i].b
            + offset <= usize::MAX
}

/// The sticks of a rope of `count` segments: segment `i` joins point `i` to point `i + 1`.
pub open spec fn is_rope<L>(lines: Seq<Line<L>>, count: nat, length: L) -> bool {
    &&& lines.len() == count
    &&& forall|i: int|
        0 <= i < count ==> (#[trigger] lines[i]).a == i && lines[i].b == i + 1 && lines[i].length
            == length
}

/// The editing tools of the sandbox.
#[derive(Clone, Copy, Debug, PartialEq, Eq, Structural)]
pub enum ToolTypes {
    Point,
    Line,
    LineOtherPoint,
    RemovePoint,
    MovePoint,
    Lock,
    Select,
    AABB,
    AABBOtherPoint,
}

/// The label shown for each tool.
pub open spec fn tool_label(tool: ToolTypes) -> Seq<char> {
    match tool {
        ToolTypes::Select => "Select"@,
        ToolTypes::MovePoint => "Move Point"@,
        ToolTypes::Lock => "Throw away the key"@,
        ToolTypes::Point => "Add point (hold Tab to create chain)"@,
        ToolTypes::RemovePoint => "Murder the point and hide the evidence"@,
        ToolTypes::Line => "Start the creation of entire universes"@,
        ToolTypes::LineOtherPoint => "You are now using a different tool!?!? (line ender)"@,
        ToolTypes::AABB => "Make a purple box thing (or else)"@,
        ToolTypes::AABBOtherPoint => "How big will this box be?"@,
    }
}

impl ToolTypes {
    /// The label of the tool, as the sandbox shows it.
    pub fn to_string(&self) -> (label: &'static str)
        ensures
            label@ == tool_label(*self),
            *self == ToolTypes::Select ==> label@ == "Select"@,
            *self == ToolTypes::MovePoint ==> label@ == "Move Point"@,
            *self == ToolTypes::Lock ==> label@ == "Throw away the key"@,
            *self == ToolTypes::Point ==> label@ == "Add point (hold Tab to create chain)"@,
            *self == ToolTypes::RemovePoint ==> label@ == "Murder the point and hide the evidence"@,
            *self == ToolTypes::Line ==> label@ == "Start the creation of entire universes"@,
            *self == ToolTypes::LineOtherPoint ==> label@
                == "You are now using a different tool!?!? (line ender)"@,
            *self == ToolTypes::AABB ==> label@ == "Make a purple box thing (or else)"@,
            *self == ToolTypes::AABBOtherPoint ==> label@ == "How big will this box be?"@,
    {
        match self {
            ToolTypes::Select => { "Select" },
            ToolTypes::MovePoint => { "Move Point" },
            ToolTypes::Lock => { "Throw away the key" },
            ToolTypes::Point => { "Add point (hold Tab to create chain)" },
            ToolTypes::RemovePoint => { "Murder the point and hide the evidence" },
            ToolTypes::Line => { "Start the creation of entire universes" },
            ToolTypes::LineOtherPoint => { "You are now using a different tool!?!? (line ender)" },
            ToolTypes::AABB => { "Make a purple box thing (or else)" },
            ToolTypes::AABBOtherPoint => { "How big will this box be?" },
        }
    }
}

/// Moves every stick up by `offset`, as when the points the sticks hang on are placed
/// after `offset` other points.
pub fn offset_line_points<L>(lines: &mut Vec<Line<L>>, offset: usize)
    requires
        offset_fits(old(lines)@, offset),
    ensures
        final(lines)@ == offset_lines(old(lines)@, offset),
        final(lines)@.len() == old(lines)@.len(),
        forall|i: int|
            0 <= i < old(lines)@.len() ==> (#[trigger] final(lines)@[i]).a == old(lines)@[i].a
                + offset && final(lines)@[i].b == old(lines)@[i].b + offset
                && final(lines)@[i].length == old(lines)@[i].length,
{
    let n = lines.len();
    let mut i: usize = 0;
    while i < n
        invariant
            n == lines.len(),
            n == old(lines)@.len(),
            0 <= i <= n,
            offset_fits(old(lines)@, offset),
            forall|j: int| 0 <= j < i ==> lines@[j] == old(lines)@[j].offset_by(offset),
            forall|j: int| i <= j < n ==> lines@[j] == old(lines)@[j],
        decreases n - i,
    {
        assert(old(lines)@[i as int].a + offset <= usize::MAX);
        lines[i].a = lines[i].a + offset;
        lines[i].b = lines[i].b + offset;
        i += 1;
    }
    assert(lines@ =~= offset_lines(old(lines)@, offset));
}

/// The sticks of a rope of `lines` segments, each of the given rest length:
/// segment `i` joins point `i` to point `i + 1`.
pub fn rope_lines<L: Copy>(lines: usize, length: L) -> (rope: Vec<Line<L>>)
    ensures
        is_rope(rope@, lines as nat, length),
        rope@.len() == lines,
        forall|i: int|
            0 <= i < lines ==> (#[trigger] rope@[i]).a == i && rope@[i].b == i + 1
                && rope@[i].length == length,
{
    let mut rope: Vec<Line<L>> = Vec::with_capacity(lines);
    let mut i: usize = 0;
    while i < lines
        invariant
            0 <= i <= lines,
            is_rope(rope@, i as nat, length),
        decreases lines - i,
    {
        rope.push(Line { a: i, b: i + 1, length });
        i += 1;
    }
    rope
}

proof fn lemma_survivors_push<L>(lines: Seq<Line<L>>, line: Line<L>, removed: usize)
    ensures
        survivors(lines.push(line), removed) == if line.attached_to(removed) {
            survivors(lines, removed)
        } else {
            survivors(lines, removed).push(line.reindexed_past(removed))
        },
{
    lines.lemma_filter_push(line, stays::<L>(removed));
    assert(survivors(lines.push(line), removed) =~= if line.attached_to(removed) {
        survivors(lines, removed)
    } else {
        survivors(lines, removed).push(line.reindexed_past(removed))
    });
}

/// Deletes the point `selected` together with every stick attached to it; the other
/// sticks keep their order and have their indices moved past the gap, so that they
/// still hang on the same points.
pub fn remove_point<P, L>(points: &mut Vec<P>, lines: &mut Vec<Line<L>>, selected: usize)
    requires
        selected < old(points)@.len(),
    ensures
        final(points)@ == old(points)@.remove(selected as int),
        final(lines)@ == survivors(old(lines)@, selected),
{
    points.remove(selected);
    let ghost start = lines@;
    let n = lines.len();
    let mut i: usize = 0;
    let mut k: usize = 0;
    assert(start.take(0) =~= Seq::<Line<L>>::empty());
    assert(survivors(start.take(0), selected) =~= Seq::<Line<L>>::empty());
    while i < n
        invariant
            start == old(lines)@,
            n == start.len(),
            0 <= k <= i <= n,
            lines@.len() == k + (n - i),
            lines@.subrange(0, k as int) == survivors(start.take(i as int), selected),
            lines@.subrange(k as int, lines@.len() as int) == start.skip(i as int),
        decreases n - i,
    {
        let ghost before = lines@;
        proof {
            assert(start.take(i + 1) =~= start.take(i as int).push(start[i as int]));
            assert(before[k as int] == start.skip(i as int)[0]);
            lemma_survivors_push(start.take(i as int), start[i as int], selected);
        }
        if lines[k].a == selected || lines[k].b == selected {
            lines.remove(k);
            assert(lines@.subrange(0, k as int) =~= before.subrange(0, k as int));
            assert forall|j: int| k <= j < lines@.len() implies lines@[j] == start[i + 1 + j - k] by {
                assert(lines@[j] == before[j + 1]);
                assert(before.subrange(k as int, before.len() as int)[j + 1 - k] == start.skip(
                    i as int,
                )[j + 1 - k]);
            }
            assert(lines@.subrange(k as int, lines@.len() as int) =~= start.skip(i + 1));
        } else {
            if lines[k].a > selected {
                lines[k].a = lines[k].a - 1;
            }
            if lines[k].b > selected {
                lines[k].b = lines[k].b - 1;
            }
            assert(lines@[k as int] == start[i as int].reindexed_past(selected));
            assert(lines@.subrange(0, k + 1) =~= before.subrange(0, k as int).push(
                start[i as int].reindexed_past(selected),
            ));
            assert forall|j: int| k < j < lines@.len() implies lines@[j] == start[i + j - k] by {
                assert(lines@[j] == before[j]);
                assert(before.subrange(k as int, before.len() as int)[j - k] == start.skip(
                    i as int,
                )[j - k]);
            }
            assert(lines@.subrange(k + 1, lines@.len() as int) =~= start.skip(i + 1));
            k += 1;
        }
        i += 1;
    }
    assert(start.take(n as int) =~= start);
    assert(lines@ =~= lines@.subrange(0, k as int));
}

/// Adds a second simulation to the first: its points go after the existing points, and
/// its sticks, moved up by the number of existing points, after the existing sticks.
pub fn combine_simulations<P, L>(
    points: &mut Vec<P>,
    lines: &mut Vec<Line<L>>,
    other_points: Vec<P>,
    other_lines: Vec<Line<L>>,
)
    requires
        offset_fits(other_lines@, old(points)@.len() as usize),
    ensures
        final(points)@ == old(points)@ + other_points@,
        final(lines)@ == old(lines)@ + offset_lines(other_lines@, old(points)@.len() as usize),
        final(lines)@.len() == old(lines)@.len() + other_lines@.len(),
        forall|i: int| 0 <= i < old(lines)@.len() ==> #[trigger] final(lines)@[i] == old(lines)@[i],
        forall|j: int|
            0 <= j < other_lines@.len() ==> (#[trigger] final(lines)@[old(lines)@.len() + j]).a
                == other_lines@[j].a + old(points)@.len() && final(lines)@[old(lines)@.len()
                + j].b == other_lines@[j].b + old(points)@.len() && final(lines)@[old(lines)@.len()
                + j].length == other_lines@[j].length,
{
    let offset = points.len();
    let mut other_points = other_points;
    let mut other_lines = other_lines;
    offset_line_points(&mut other_lines, offset);
    points.append(&mut other_points);
    lines.append(&mut other_lines);
}

} // verus!
