use vstd::prelude::*;

use crate::verletcore::attachments;
use crate::verletcore::is_rope;
use crate::verletcore::kept_lines;
use crate::verletcore::lines_within;
use crate::verletcore::offset_fits;
use crate::verletcore::offset_lines;
use crate::verletcore::stays;
use crate::verletcore::survivors;
use crate::verletcore::tool_label;
use crate::verletcore::Line;
use crate::verletcore::ToolTypes;
use crate::sandbox::click_action;
use crate::sandbox::selection_after;
use crate::sandbox::ClickAction;

verus! {

/// A rope of `count` segments only joins its own `count + 1` points, every segment
/// between two different points.
pub proof fn rope_is_well_formed<L>(lines: Seq<Line<L>>, count: nat, length: L)
    requires
        is_rope(lines, count, length),
    ensures
        lines_within(lines, count + 1),
{
    assert forall|i: int| 0 <= i < lines.len() implies (#[trigger] lines[i]).within(count + 1) by {
        assert(lines[i].a == i && lines[i].b == i + 1);
    }
}

proof fn kept_come_from<L>(lines: Seq<Line<L>>, removed: usize, j: int)
    requires
        0 <= j < kept_lines(lines, removed).len(),
    ensures
        !kept_lines(lines, removed)[j].attached_to(removed),
        exists|i: int| 0 <= i < lines.len() && lines[i] == kept_lines(lines, removed)[j],
{
    let k = kept_lines(lines, removed);
    lines.lemma_filter_pred(stays::<L>(removed), j);
    assert(k.contains(k[j]));
    lines.lemma_filter_contains_rev(stays::<L>(removed), k[j]);
}

/// Deleting a point keeps the simulation well formed: when every stick joined two
/// different points among `n`, every remaining stick joins two different points
/// among the `n - 1` that are left.
pub proof fn removal_keeps_shape<L>(lines: Seq<Line<L>>, n: nat, removed: usize)
    requires
        lines_within(lines, n),
        removed < n,
    ensures
        lines_within(survivors(lines, removed), (n - 1) as nat),
{
    let s = survivors(lines, removed);
    let k = kept_lines(lines, removed);
    assert forall|j: int| 0 <= j < s.len() implies (#[trigger] s[j]).within((n - 1) as nat) by {
        kept_come_from(lines, removed, j);
        let i = choose|i: int| 0 <= i < lines.len() && lines[i] == k[j];
        assert(lines[i].within(n));
    }
}

/// Deleting a point leaves every other stick hanging on the same two points as before,
/// in the same order; exactly the sticks attached to the deleted point are gone.
pub proof fn removal_keeps_attachments<P, L>(points: Seq<P>, lines: Seq<Line<L>>, removed: usize)
    requires
        lines_within(lines, points.len()),
        removed < points.len(),
    ensures
        attachments(points.remove(removed as int), survivors(lines, removed)) == attachments(
            points,
            kept_lines(lines, removed),
        ),
{
    let s = survivors(lines, removed);
    let k = kept_lines(lines, removed);
    let rest = points.remove(removed as int);
    let left = attachments(rest, s);
    let right = attachments(points, k);
    assert forall|j: int| 0 <= j < left.len() implies left[j] == right[j] by {
        kept_come_from(lines, removed, j);
        let i = choose|i: int| 0 <= i < lines.len() && lines[i] == k[j];
        assert(lines[i].within(points.len()));
        let l = k[j];
        if l.a > removed {
            assert(rest[l.a - 1] == points[l.a as int]);
        }
        if l.b > removed {
            assert(rest[l.b - 1] == points[l.b as int]);
        }
    }
    assert(left =~= right);
}

/// Putting a second simulation after a first keeps both well formed: the sticks of the
/// first still join its own points, the moved sticks of the second join points of the
/// second, and none joins a point with itself.
pub proof fn combining_keeps_shape<L>(lines: Seq<Line<L>>, n: usize, other: Seq<Line<L>>, m: nat)
    requires
        lines_within(lines, n as nat),
        lines_within(other, m),
        offset_fits(other, n),
    ensures
        lines_within(lines + offset_lines(other, n), n as nat + m),
{
    let all = lines + offset_lines(other, n);
    assert forall|i: int| 0 <= i < all.len() implies (#[trigger] all[i]).within(n as nat + m) by {
        if i >= lines.len() {
            let j = i - lines.len();
            assert(other[j].within(m));
            assert(other[j].a + n <= usize::MAX);
        } else {
            assert(lines[i].within(n as nat));
        }
    }
}

/// Putting a second simulation after a first leaves every stick of both hanging on the
/// same points as before.
pub proof fn combining_keeps_attachments<P, L>(
    points: Seq<P>,
    lines: Seq<Line<L>>,
    other_points: Seq<P>,
    other_lines: Seq<Line<L>>,
)
    requires
        points.len() <= usize::MAX,
        lines_within(lines, points.len()),
        lines_within(other_lines, other_points.len()),
        offset_fits(other_lines, points.len() as usize),
    ensures
        attachments(
            points + other_points,
            lines + offset_lines(other_lines, points.len() as usize),
        ) == attachments(points, lines) + attachments(other_points, other_lines),
{
    let all = points + other_points;
    let n = points.len() as usize;
    let left = attachments(all, lines + offset_lines(other_lines, n));
    let right = attachments(points, lines) + attachments(other_points, other_lines);
    assert forall|i: int| 0 <= i < left.len() implies left[i] == right[i] by {
        if i >= lines.len() {
            let j = i - lines.len();
            assert(other_lines[j].within(other_points.len()));
            assert(other_lines[j].a + n <= usize::MAX);
            assert(other_lines[j].b + n <= usize::MAX);
        } else {
            assert(lines[i].within(points.len()));
        }
    }
    assert(left =~= right);
}

/// Two tools have the same label exactly when they are the same tool, so comparing
/// labels compares tools.
pub proof fn labels_tell_tools_apart(t1: ToolTypes, t2: ToolTypes)
    ensures
        tool_label(t1) == tool_label(t2) <==> t1 == t2,
{
    reveal_strlit("Select");
    reveal_strlit("Move Point");
    reveal_strlit("Throw away the key");
    reveal_strlit("Add point (hold Tab to create chain)");
    reveal_strlit("Murder the point and hide the evidence");
    reveal_strlit("Start the creation of entire universes");
    reveal_strlit("You are now using a different tool!?!? (line ender)");
    reveal_strlit("Make a purple box thing (or else)");
    reveal_strlit("How big will this box be?");
    if t1 != t2 {
        assert(tool_label(t1).len() != tool_label(t2).len() || tool_label(t1)[0] != tool_label(
            t2,
        )[0]);
    }
}

/// Some stick of `lines` has point `j` as one of its ends.
pub open spec fn some_stick_ends_at<L>(lines: Seq<Line<L>>, j: int) -> bool {
    exists|i: int| 0 <= i < lines.len() && ((#[trigger] lines[i]).a == j || lines[i].b == j)
}

/// A rope is one chain: it starts at point 0, ends at point `count`, each segment starts
/// where the one before ends, every point from 0 to `count` is the end of some segment,
/// and every segment has the rope's rest length.
pub proof fn rope_is_a_chain<L>(lines: Seq<Line<L>>, count: nat, length: L)
    requires
        is_rope(lines, count, length),
    ensures
        lines.len() == count,
        count > 0 ==> lines[0].a == 0 && lines[count - 1].b == count,
        forall|i: int| 0 <= i < count - 1 ==> (#[trigger] lines[i]).b == lines[i + 1].a,
        forall|i: int| 0 <= i < count ==> (#[trigger] lines[i]).b == lines[i].a + 1,
        forall|i: int| 0 <= i < count ==> (#[trigger] lines[i]).length == length,
        count > 0 ==> forall|j: int| 0 <= j <= count ==> #[trigger] some_stick_ends_at(lines, j),
{
    if count > 0 {
        assert forall|j: int| 0 <= j <= count implies #[trigger] some_stick_ends_at(lines, j) by {
            if j < count {
                assert(lines[j].a == j);
            } else {
                assert(lines[j - 1].b == j);
            }
        }
    }
}

/// Deleting a point when there are no sticks leaves no sticks.
pub proof fn removal_from_no_sticks<L>(removed: usize)
    ensures
        survivors(Seq::<Line<L>>::empty(), removed).len() == 0,
{
    reveal(Seq::filter);
}

/// How one more stick at the end fares when point `removed` is deleted: it is dropped
/// exactly when one of its ends is the deleted point; otherwise it stays, after all the
/// earlier survivors, with its rest length, and each of its ends above the deleted point
/// moves down by one.
pub proof fn removal_of_one_more_stick<L>(lines: Seq<Line<L>>, line: Line<L>, removed: usize)
    ensures
        (line.a == removed || line.b == removed) ==> survivors(lines.push(line), removed)
            == survivors(lines, removed),
        (line.a != removed && line.b != removed) ==> survivors(lines.push(line), removed)
            == survivors(lines, removed).push(
            Line {
                a: if line.a > removed {
                    (line.a - 1) as usize
                } else {
                    line.a
                },
                b: if line.b > removed {
                    (line.b - 1) as usize
                } else {
                    line.b
                },
                length: line.length,
            },
        ),
{
    lines.lemma_filter_push(line, stays::<L>(removed));
    let pred = stays::<L>(removed);
    let f = |l: Line<L>| l.reindexed_past(removed);
    assert(lines.push(line).filter(pred) == if pred(line) {
        lines.filter(pred).push(line)
    } else {
        lines.filter(pred)
    });
    if pred(line) {
        assert(lines.filter(pred).push(line).map_values(f) =~= lines.filter(pred).map_values(
            f,
        ).push(f(line)));
    }
}

/// Deleting a point keeps every stick whose ends are both other points: such a stick is
/// found among the survivors, its ends moved down by one where above the deleted point,
/// its rest length unchanged; and the survivors are no more than the old sticks.
pub proof fn removal_keeps_unattached<L>(lines: Seq<Line<L>>, removed: usize, i: int)
    requires
        0 <= i < lines.len(),
        lines[i].a != removed,
        lines[i].b != removed,
    ensures
        survivors(lines, removed).contains(
            Line {
                a: if lines[i].a > removed {
                    (lines[i].a - 1) as usize
                } else {
                    lines[i].a
                },
                b: if lines[i].b > removed {
                    (lines[i].b - 1) as usize
                } else {
                    lines[i].b
                },
                length: lines[i].length,
            },
        ),
        survivors(lines, removed).len() <= lines.len(),
{
    let pred = stays::<L>(removed);
    let k = kept_lines(lines, removed);
    lines.lemma_filter_contains(pred, i);
    lines.lemma_filter_len(pred);
    let j = choose|j: int| 0 <= j < k.len() && k[j] == lines[i];
    assert(survivors(lines, removed)[j] == lines[i].reindexed_past(removed));
}

/// Moving sticks up by `offset` keeps their number, order and rest lengths, and adds
/// `offset` to both ends of each.
pub proof fn offsetting_moves_only_the_ends<L>(lines: Seq<Line<L>>, offset: usize)
    requires
        forall|i: int|
            0 <= i < lines.len() ==> (#[trigger] lines[i]).a + offset <= usize::MAX && lines[i].b
                + offset <= usize::MAX,
    ensures
        offset_lines(lines, offset).len() == lines.len(),
        forall|i: int|
            0 <= i < lines.len() ==> (#[trigger] offset_lines(lines, offset)[i]).a == lines[i].a
                + offset && offset_lines(lines, offset)[i].b == lines[i].b + offset
                && offset_lines(lines, offset)[i].length == lines[i].length,
{
}

/// Joining a second simulation after a first: the first's sticks come unchanged and in
/// order, then the second's, in order, each with `offset` added to both ends and its rest
/// length unchanged.
pub proof fn joined_sticks<L>(lines: Seq<Line<L>>, other: Seq<Line<L>>, offset: usize)
    requires
        forall|i: int|
            0 <= i < other.len() ==> (#[trigger] other[i]).a + offset <= usize::MAX && other[i].b
                + offset <= usize::MAX,
    ensures
        (lines + offset_lines(other, offset)).len() == lines.len() + other.len(),
        forall|i: int|
            0 <= i < lines.len() ==> #[trigger] (lines + offset_lines(other, offset))[i]
                == lines[i],
        forall|j: int|
            0 <= j < other.len() ==> (#[trigger] (lines + offset_lines(other, offset))[lines.len()
                + j]).a == other[j].a + offset && (lines + offset_lines(other, offset))[lines.len()
                + j].b == other[j].b + offset && (lines + offset_lines(other, offset))[lines.len()
                + j].length == other[j].length,
{
    offsetting_moves_only_the_ends(other, offset);
    let all = lines + offset_lines(other, offset);
    assert forall|j: int| 0 <= j < other.len() implies (#[trigger] all[lines.len() + j]).a
        == other[j].a + offset && all[lines.len() + j].b == other[j].b + offset && all[lines.len()
        + j].length == other[j].length by {
        assert(all[lines.len() + j] == offset_lines(other, offset)[j]);
    }
}

/// Hovering a point selects it with every tool but the line tool; the line tool keeps the
/// selection, and so does hovering nothing.
pub proof fn hovering_selects(tool: ToolTypes, selected: usize, p: usize)
    ensures
        tool != ToolTypes::Line ==> selection_after(tool, selected, Some(p)) == p,
        selection_after(ToolTypes::Line, selected, Some(p)) == selected,
        selection_after(tool, selected, None) == selected,
{
}

/// A click while hovering point `p` acts on `p`: moving, locking and deleting take the
/// hovered point, and the line tool joins the hovered point to the one selected before.
pub proof fn clicks_act_on_the_hovered_point(tool: ToolTypes, selected: usize, p: usize, chain: bool)
    ensures
        click_action(ToolTypes::MovePoint, selection_after(ToolTypes::MovePoint, selected, Some(p)), Some(p), chain)
            == ClickAction::MovePoint(p),
        click_action(ToolTypes::Lock, selection_after(ToolTypes::Lock, selected, Some(p)), Some(p), chain)
            == ClickAction::ToggleLock(p),
        click_action(ToolTypes::RemovePoint, selection_after(ToolTypes::RemovePoint, selected, Some(p)), Some(p), chain)
            == ClickAction::RemovePoint(p),
        p != selected ==> click_action(ToolTypes::Line, selection_after(ToolTypes::Line, selected, Some(p)), Some(p), chain)
            == ClickAction::AddLine(p, selected),
        click_action(ToolTypes::Line, selection_after(ToolTypes::Line, p, Some(p)), Some(p), chain)
            == ClickAction::Nothing,
{
}

} // verus!
