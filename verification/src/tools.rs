//! The tools: the pen that places anchors, and the editor that reshapes them
//! once they are placed.

use vstd::prelude::*;
use kurbo::{Point, Vec2};

use crate::doc::{models, Anchor, AnchorKind, Measurement, MeasurementModel, Outline, PathModel, SubPath};
use crate::plane::{between, displacement, is_zero, offset, offset_of, opposite, opposite_of, vanishes, zero};

verus! {

/// Which anchor, of which outline, of which measurement on the page.
#[derive(Clone, Copy, Debug, PartialEq, Eq, Structural)]
pub struct Selection {
    pub measurement: usize,
    pub outline: Outline,
    pub anchor: usize,
}

/// What a drag has hold of.
#[derive(Clone, Copy, Debug, PartialEq, Eq, Structural)]
pub enum Grab {
    Anchor,
    In,
    Out,
}

/// The fewest anchors that can enclose an area.
pub const ENOUGH: usize = 3;

/// Outline `which` of measurement `index`, if both exist.
pub open spec fn path_at(measurements: Seq<MeasurementModel>, index: int, which: Outline) -> Option<PathModel> {
    if 0 <= index < measurements.len() {
        measurements[index].outline(which)
    } else {
        None
    }
}

/// `measurements` with outline `which` of measurement `index` replaced by `path`.
pub open spec fn with_path(
    measurements: Seq<MeasurementModel>,
    index: int,
    which: Outline,
    path: PathModel,
) -> Seq<MeasurementModel> {
    measurements.update(index, measurements[index].with_outline(which, path))
}

/// The anchor `selection` names among `measurements`, if there is one.
pub open spec fn anchor_at(measurements: Seq<MeasurementModel>, selection: Selection) -> Option<Anchor> {
    match path_at(measurements, selection.measurement as int, selection.outline) {
        Some(path) => if selection.anchor < path.anchors.len() {
            Some(path.anchors[selection.anchor as int])
        } else {
            None
        },
        None => None,
    }
}

/// `measurements` with the anchor `selection` names replaced by `anchor`.
pub open spec fn with_anchor(
    measurements: Seq<MeasurementModel>,
    selection: Selection,
    anchor: Anchor,
) -> Seq<MeasurementModel> {
    let index = selection.measurement as int;
    let path = path_at(measurements, index, selection.outline).unwrap();
    with_path(measurements, index, selection.outline, path.with_anchor(selection.anchor as int, anchor))
}

/// Putting an anchor in place and reading it back gives that anchor, and the
/// anchors beside it are where they were.
pub proof fn lemma_with_anchor(measurements: Seq<MeasurementModel>, selection: Selection, anchor: Anchor)
    requires
        anchor_at(measurements, selection) is Some,
    ensures
        anchor_at(with_anchor(measurements, selection, anchor), selection) == Some(anchor),
        path_at(with_anchor(measurements, selection, anchor), selection.measurement as int, selection.outline)
            == Some(path_at(measurements, selection.measurement as int, selection.outline).unwrap().with_anchor(
            selection.anchor as int,
            anchor,
        )),
{
}

/// The anchor `selection` names, read out of `measurements`.
fn anchor(measurements: &Vec<Measurement>, selection: Selection) -> (found: Option<Anchor>)
    ensures
        found == anchor_at(models(measurements@), selection),
{
    if selection.measurement >= measurements.len() {
        return None;
    }
    let measurement = &measurements[selection.measurement];
    let Some(path) = measurement.outline(selection.outline) else {
        return None;
    };
    if selection.anchor < path.anchors.len() {
        Some(path.anchors[selection.anchor])
    } else {
        None
    }
}

/// Puts `anchor` where `selection` names, leaving everything else as it was.
fn put_anchor(measurements: &mut Vec<Measurement>, selection: Selection, anchor: Anchor)
    requires
        anchor_at(models(old(measurements)@), selection) is Some,
    ensures
        models(final(measurements)@) == with_anchor(models(old(measurements)@), selection, anchor),
{
    let index = selection.measurement;
    match selection.outline {
        Outline::Outer => {
            measurements[index].outer.anchors.set(selection.anchor, anchor);
        },
        Outline::Hole(hole) => {
            measurements[index].holes[hole].anchors.set(selection.anchor, anchor);
        },
    }
    assert(models(measurements@) =~= with_anchor(models(old(measurements)@), selection, anchor)) by {
        let after = measurements@[index as int]@;
        let wanted = with_anchor(models(old(measurements)@), selection, anchor)[index as int];
        match selection.outline {
            Outline::Outer => {},
            Outline::Hole(hole) => {
                assert(after.holes =~= wanted.holes);
            },
        }
        assert(after == wanted);
    }
}

/// What deleting the anchor `selection` names leaves, or `None` where it is
/// refused: there is no such anchor, or taking it would leave its outline with
/// too few to enclose anything.
pub open spec fn deleted(measurements: Seq<MeasurementModel>, selection: Selection) -> Option<Seq<MeasurementModel>> {
    let index = selection.measurement as int;
    match path_at(measurements, index, selection.outline) {
        Some(path) => if path.anchors.len() <= ENOUGH || selection.anchor >= path.anchors.len() {
            None
        } else {
            Some(with_path(
                measurements,
                index,
                selection.outline,
                PathModel { anchors: path.anchors.remove(selection.anchor as int), ..path },
            ))
        },
        None => None,
    }
}

/// Removes the selected anchor, unless doing so would leave too few to
/// enclose anything.
pub fn delete(measurements: &mut Vec<Measurement>, selection: Selection) -> (done: Option<()>)
    ensures
        done is Some <==> deleted(models(old(measurements)@), selection) is Some,
        done is Some ==> models(final(measurements)@) == deleted(models(old(measurements)@), selection).unwrap(),
        done is None ==> final(measurements)@ == old(measurements)@,
{
    let index = selection.measurement;
    if index >= measurements.len() {
        return None;
    }
    let count = match measurements[index].outline(selection.outline) {
        Some(path) => path.anchors.len(),
        None => return None,
    };
    if count <= ENOUGH || selection.anchor >= count {
        return None;
    }
    match selection.outline {
        Outline::Outer => {
            measurements[index].outer.anchors.remove(selection.anchor);
        },
        Outline::Hole(hole) => {
            measurements[index].holes[hole].anchors.remove(selection.anchor);
        },
    }
    assert(models(measurements@) =~= deleted(models(old(measurements)@), selection).unwrap()) by {
        let after = measurements@[index as int]@;
        let wanted = deleted(models(old(measurements)@), selection).unwrap()[index as int];
        match selection.outline {
            Outline::Outer => {},
            Outline::Hole(hole) => {
                assert(after.holes =~= wanted.holes);
            },
        }
        assert(after == wanted);
    }
    Some(())
}

/// A delete that goes through takes out the selected anchor and nothing else:
/// the outline keeps every other anchor, in order, and whether it closes;
/// every other outline and every other measurement stays as it was.
pub proof fn deleting_takes_out_the_selected_anchor(measurements: Seq<MeasurementModel>, selection: Selection)
    requires
        deleted(measurements, selection) is Some,
    ensures
        ({
            let after = deleted(measurements, selection).unwrap();
            let index = selection.measurement as int;
            let at = selection.anchor as int;
            let before_path = path_at(measurements, index, selection.outline).unwrap();
            let after_path = path_at(after, index, selection.outline).unwrap();
            &&& after.len() == measurements.len()
            &&& path_at(after, index, selection.outline) is Some
            &&& after_path.closed == before_path.closed
            &&& after_path.anchors.len() + 1 == before_path.anchors.len()
            &&& forall|i: int| 0 <= i < at ==> after_path.anchors[i] == before_path.anchors[i]
            &&& forall|i: int| at <= i < after_path.anchors.len() ==> after_path.anchors[i] == before_path.anchors[i + 1]
            &&& forall|which: Outline| which != selection.outline
                ==> #[trigger] path_at(after, index, which) == path_at(measurements, index, which)
            &&& forall|other: int| 0 <= other < measurements.len() && other != index
                ==> #[trigger] after[other] == measurements[other]
        }),
{
    let after = deleted(measurements, selection).unwrap();
    let index = selection.measurement as int;
    assert forall|which: Outline| which != selection.outline
        implies #[trigger] path_at(after, index, which) == path_at(measurements, index, which) by {
        match (which, selection.outline) {
            (Outline::Hole(a), Outline::Hole(b)) => {
                if a < measurements[index].holes.len() {
                    assert(after[index].holes[a as int] == measurements[index].holes[a as int]);
                }
            },
            _ => {},
        }
    }
}

/// An outline that could enclose something before a deletion still can
/// afterwards: deleting never takes an outline below three anchors, and
/// touches no outline but its own.
pub proof fn deleting_keeps_enough(measurements: Seq<MeasurementModel>, selection: Selection, index: int, which: Outline)
    requires
        deleted(measurements, selection) is Some,
        path_at(measurements, index, which) matches Some(path) && path.anchors.len() >= ENOUGH,
    ensures
        path_at(deleted(measurements, selection).unwrap(), index, which) matches Some(path)
            && path.anchors.len() >= ENOUGH,
{
    let after = deleted(measurements, selection).unwrap();
    if index == selection.measurement as int {
        match (which, selection.outline) {
            (Outline::Hole(a), Outline::Hole(b)) => {
                if a != b {
                    assert(after[index].holes[a as int] == measurements[index].holes[a as int]);
                }
            },
            _ => {},
        }
    }
}

/// Whether toggling can act on the anchor `selection` names: it exists, and
/// its outline has enough anchors to have neighbours either side.
pub open spec fn toggleable(measurements: Seq<MeasurementModel>, selection: Selection) -> bool {
    match path_at(measurements, selection.measurement as int, selection.outline) {
        Some(path) => path.anchors.len() >= ENOUGH && selection.anchor < path.anchors.len(),
        None => false,
    }
}

/// The positions either side of anchor `at` on `path`, wrapping round.
pub open spec fn neighbours(path: PathModel, at: int) -> (Point, Point) {
    let count = path.anchors.len() as int;
    (path.anchors[(at + count - 1) % count].pos, path.anchors[(at + 1) % count].pos)
}

/// What toggling makes of `before`, given where its neighbours are: a corner
/// becomes smooth, with whatever handles `smooth` offers for it, and anything
/// else becomes a plain corner.
pub open spec fn is_toggled<F: Fn(Point, Point, Point) -> (Vec2, Vec2)>(
    before: Anchor,
    after: Anchor,
    around: (Point, Point),
    smooth: F,
) -> bool {
    &&& after.pos == before.pos
    &&& if before.kind == AnchorKind::Corner {
        &&& after.kind == AnchorKind::Smooth
        &&& smooth.ensures((around.0, before.pos, around.1), (after.in_handle, after.out_handle))
    } else {
        after.is_plain_corner()
    }
}

/// What a toggle leaves behind: the one anchor flipped, everything else as it
/// was.
pub open spec fn toggles_to<F: Fn(Point, Point, Point) -> (Vec2, Vec2)>(
    before: Seq<MeasurementModel>,
    after: Seq<MeasurementModel>,
    selection: Selection,
    smooth: F,
) -> bool {
    let path = path_at(before, selection.measurement as int, selection.outline).unwrap();
    &&& toggleable(before, selection)
    &&& anchor_at(after, selection) matches Some(flipped)
    &&& after == with_anchor(before, selection, flipped)
    &&& is_toggled(anchor_at(before, selection).unwrap(), flipped, neighbours(path, selection.anchor as int), smooth)
}

/// Flips the selected anchor between a corner and a smooth point. Smoothing
/// takes its handles from `smooth`, given the neighbours either side and the
/// anchor itself; sharpening collapses them, which leaves both edges
/// straight.
pub fn toggle<F: Fn(Point, Point, Point) -> (Vec2, Vec2)>(
    measurements: &mut Vec<Measurement>,
    selection: Selection,
    smooth: F,
) -> (done: Option<()>)
    requires
        forall|previous: Point, pos: Point, next: Point| smooth.requires((previous, pos, next)),
    ensures
        done is Some <==> toggleable(models(old(measurements)@), selection),
        done is Some ==> toggles_to(models(old(measurements)@), models(final(measurements)@), selection, smooth),
        done is None ==> final(measurements)@ == old(measurements)@,
{
    let index = selection.measurement;
    if index >= measurements.len() {
        return None;
    }
    let (current, previous, next) = match measurements[index].outline(selection.outline) {
        Some(path) => {
            let count = path.anchors.len();
            if count < ENOUGH || selection.anchor >= count {
                return None;
            }
            // The anchor before, wrapping round to the last from the first.
            let before = if selection.anchor == 0 { count - 1 } else { selection.anchor - 1 };
            let after = if selection.anchor + 1 == count { 0 } else { selection.anchor + 1 };
            proof {
                let (a, c) = (selection.anchor as int, count as int);
                assert((a + c - 1) % c == before as int) by (nonlinear_arith)
                    requires
                        0 <= a < c,
                        before as int == if a == 0 { c - 1 } else { a - 1 };
                assert((a + 1) % c == after as int) by (nonlinear_arith)
                    requires
                        0 <= a < c,
                        after as int == if a + 1 == c { 0 } else { a + 1 };
            }
            (path.anchors[selection.anchor], path.anchors[before].pos, path.anchors[after].pos)
        },
        None => return None,
    };
    let flipped = if current.kind == AnchorKind::Corner {
        let (in_handle, out_handle) = smooth(previous, current.pos, next);
        Anchor { in_handle, out_handle, kind: AnchorKind::Smooth, ..current }
    } else {
        Anchor { in_handle: zero(), out_handle: zero(), kind: AnchorKind::Corner, ..current }
    };
    proof {
        lemma_with_anchor(models(measurements@), selection, flipped);
    }
    put_anchor(measurements, selection, flipped);
    Some(())
}

/// Toggling flips the selected anchor and nothing else. It stays where it
/// is; a corner becomes smooth, and anything that is not a corner, smooth or
/// asymmetric alike, becomes a corner with both handles collapsed onto it.
/// Every other anchor on the page is left as it was.
pub proof fn toggling_flips_only_the_selected_anchor<F: Fn(Point, Point, Point) -> (Vec2, Vec2)>(
    before: Seq<MeasurementModel>,
    after: Seq<MeasurementModel>,
    selection: Selection,
    smooth: F,
)
    requires
        toggles_to(before, after, selection, smooth),
    ensures
        anchor_at(after, selection) is Some,
        ({
            let was = anchor_at(before, selection).unwrap();
            let now = anchor_at(after, selection).unwrap();
            &&& now.pos == was.pos
            &&& was.kind == AnchorKind::Corner ==> now.kind == AnchorKind::Smooth
            &&& was.kind != AnchorKind::Corner ==> {
                &&& now.kind == AnchorKind::Corner
                &&& vanishes(now.in_handle)
                &&& vanishes(now.out_handle)
            }
        }),
        after.len() == before.len(),
        forall|other: Selection| other != selection && #[trigger] anchor_at(before, other) is Some
            ==> anchor_at(after, other) == anchor_at(before, other),
{
    let flipped = anchor_at(after, selection).unwrap();
    lemma_with_anchor(before, selection, flipped);
    assert forall|other: Selection| other != selection && #[trigger] anchor_at(before, other) is Some
        implies anchor_at(after, other) == anchor_at(before, other) by {
        let index = selection.measurement as int;
        if other.measurement as int == index {
            match (other.outline, selection.outline) {
                (Outline::Hole(a), Outline::Hole(b)) => {
                    if a != b {
                        assert(after[index].holes[a as int] == before[index].holes[a as int]);
                    }
                },
                _ => {},
            }
        }
    }
}

/// Smoothing an anchor and sharpening it again returns the straight edges it
/// started with: two toggles of a corner leave a plain corner where it was,
/// whatever handles smoothing gave it in between.
pub proof fn toggling_twice_returns_a_corner<F: Fn(Point, Point, Point) -> (Vec2, Vec2)>(
    first: Seq<MeasurementModel>,
    second: Seq<MeasurementModel>,
    third: Seq<MeasurementModel>,
    selection: Selection,
    smooth: F,
)
    requires
        toggles_to(first, second, selection, smooth),
        toggles_to(second, third, selection, smooth),
        anchor_at(first, selection) matches Some(anchor) && anchor.kind == AnchorKind::Corner,
    ensures
        anchor_at(third, selection) matches Some(anchor) && anchor.is_plain_corner()
            && anchor.pos == anchor_at(first, selection).unwrap().pos,
{
    let middle = anchor_at(second, selection).unwrap();
    lemma_with_anchor(first, selection, middle);
}

/// Where a drag leaves the anchor it has hold of.
///
/// Dragging the anchor moves it, handles and all. Dragging a handle puts its
/// end at `point`; while `mirror` holds, a smooth anchor's other handle turns
/// to stay opposite, and once it does not the pair comes apart for good.
pub open spec fn dragged(anchor: Anchor, grab: Grab, point: Point, mirror: bool) -> Anchor {
    match grab {
        Grab::Anchor => Anchor { pos: point, ..anchor },
        Grab::In => {
            let handle = between(point, anchor.pos);
            if !mirror {
                Anchor { in_handle: handle, kind: AnchorKind::Asymmetric, ..anchor }
            } else if anchor.kind == AnchorKind::Smooth {
                Anchor { in_handle: handle, out_handle: opposite_of(handle), ..anchor }
            } else {
                Anchor { in_handle: handle, ..anchor }
            }
        },
        Grab::Out => {
            let handle = between(point, anchor.pos);
            if !mirror {
                Anchor { out_handle: handle, kind: AnchorKind::Asymmetric, ..anchor }
            } else if anchor.kind == AnchorKind::Smooth {
                Anchor { out_handle: handle, in_handle: opposite_of(handle), ..anchor }
            } else {
                Anchor { out_handle: handle, ..anchor }
            }
        },
    }
}

/// Moves whatever is grabbed to `point`. Nothing happens when `selection`
/// names no anchor.
pub fn move_to(
    measurements: &mut Vec<Measurement>,
    selection: Selection,
    grab: Grab,
    point: Point,
    mirror: bool,
)
    ensures
        match anchor_at(models(old(measurements)@), selection) {
            Some(anchor) => models(final(measurements)@) == with_anchor(
                models(old(measurements)@),
                selection,
                dragged(anchor, grab, point, mirror),
            ),
            None => final(measurements)@ == old(measurements)@,
        },
{
    let Some(anchor) = anchor(measurements, selection) else {
        return;
    };
    let moved = match grab {
        Grab::Anchor => Anchor { pos: point, ..anchor },
        Grab::In => {
            let handle = displacement(point, anchor.pos);
            if !mirror {
                Anchor { in_handle: handle, kind: AnchorKind::Asymmetric, ..anchor }
            } else if anchor.kind == AnchorKind::Smooth {
                Anchor { in_handle: handle, out_handle: opposite(handle), ..anchor }
            } else {
                Anchor { in_handle: handle, ..anchor }
            }
        },
        Grab::Out => {
            let handle = displacement(point, anchor.pos);
            if !mirror {
                Anchor { out_handle: handle, kind: AnchorKind::Asymmetric, ..anchor }
            } else if anchor.kind == AnchorKind::Smooth {
                Anchor { out_handle: handle, in_handle: opposite(handle), ..anchor }
            } else {
                Anchor { out_handle: handle, ..anchor }
            }
        },
    };
    put_anchor(measurements, selection, moved);
}

/// What removing outline `which` of measurement `index` leaves: the whole
/// measurement, when it is the outer outline, or just the one hole. `None`
/// where there is no such outline.
pub open spec fn without_outline(measurements: Seq<MeasurementModel>, index: int, which: Outline) -> Option<Seq<MeasurementModel>> {
    match path_at(measurements, index, which) {
        Some(_) => match which {
            Outline::Outer => Some(measurements.remove(index)),
            Outline::Hole(hole) => Some(measurements.update(
                index,
                MeasurementModel { holes: measurements[index].holes.remove(hole as int), ..measurements[index] },
            )),
        },
        None => None,
    }
}

/// What a drag does to the anchor it has hold of. Dragging the anchor carries
/// it, handles and kind unchanged. Dragging a handle puts that handle's end at
/// `point` and leaves the anchor where it is. With `mirror` off (Alt held)
/// only the grabbed handle changes and the pair comes apart, whatever kind
/// the anchor was; with it on, a smooth anchor's other handle turns to stay
/// opposite, and any other anchor keeps its other handle and its kind.
pub proof fn dragging_moves_only_what_is_grabbed(anchor: Anchor, grab: Grab, point: Point, mirror: bool)
    ensures
        ({
            let after = dragged(anchor, grab, point, mirror);
            let handle = between(point, anchor.pos);
            match grab {
                Grab::Anchor => {
                    &&& after.pos == point
                    &&& after.in_handle == anchor.in_handle
                    &&& after.out_handle == anchor.out_handle
                    &&& after.kind == anchor.kind
                },
                Grab::In => {
                    &&& after.pos == anchor.pos
                    &&& after.in_handle == handle
                    &&& !mirror ==> after.out_handle == anchor.out_handle && after.kind == AnchorKind::Asymmetric
                    &&& mirror && anchor.kind == AnchorKind::Smooth
                        ==> after.out_handle == opposite_of(handle) && after.kind == AnchorKind::Smooth
                    &&& mirror && anchor.kind != AnchorKind::Smooth
                        ==> after.out_handle == anchor.out_handle && after.kind == anchor.kind
                },
                Grab::Out => {
                    &&& after.pos == anchor.pos
                    &&& after.out_handle == handle
                    &&& !mirror ==> after.in_handle == anchor.in_handle && after.kind == AnchorKind::Asymmetric
                    &&& mirror && anchor.kind == AnchorKind::Smooth
                        ==> after.in_handle == opposite_of(handle) && after.kind == AnchorKind::Smooth
                    &&& mirror && anchor.kind != AnchorKind::Smooth
                        ==> after.in_handle == anchor.in_handle && after.kind == anchor.kind
                },
            }
        }),
{
}

/// Removing an outline takes out just the one named. Removing the outer
/// outline takes out its whole measurement and keeps every other one, in
/// order. Removing a hole keeps its measurement, outline and every other hole
/// in order, and every other measurement as it was.
pub proof fn removing_takes_out_just_the_named_outline(measurements: Seq<MeasurementModel>, index: int, which: Outline)
    requires
        without_outline(measurements, index, which) is Some,
    ensures
        ({
            let after = without_outline(measurements, index, which).unwrap();
            match which {
                Outline::Outer => {
                    &&& after.len() + 1 == measurements.len()
                    &&& forall|i: int| 0 <= i < index ==> after[i] == measurements[i]
                    &&& forall|i: int| index <= i < after.len() ==> after[i] == measurements[i + 1]
                },
                Outline::Hole(hole) => {
                    let was = measurements[index];
                    let now = after[index];
                    &&& after.len() == measurements.len()
                    &&& forall|other: int| 0 <= other < measurements.len() && other != index
                        ==> after[other] == measurements[other]
                    &&& now.name == was.name
                    &&& now.outer == was.outer
                    &&& now.colour == was.colour
                    &&& now.visible == was.visible
                    &&& now.holes.len() + 1 == was.holes.len()
                    &&& forall|i: int| 0 <= i < hole ==> now.holes[i] == was.holes[i]
                    &&& forall|i: int| hole <= i < now.holes.len() ==> now.holes[i] == was.holes[i + 1]
                },
            }
        }),
{
}

/// Takes an outline off the page: a measurement, outline, holes and all, when
/// it is the outer one that is named, or else just the hole.
pub fn remove_outline(measurements: &mut Vec<Measurement>, index: usize, which: Outline) -> (done: Option<()>)
    ensures
        done is Some <==> without_outline(models(old(measurements)@), index as int, which) is Some,
        done is Some ==> models(final(measurements)@) == without_outline(models(old(measurements)@), index as int, which).unwrap(),
        done is None ==> final(measurements)@ == old(measurements)@,
{
    if index >= measurements.len() {
        return None;
    }
    match which {
        Outline::Outer => {
            measurements.remove(index);
            assert(models(measurements@) =~= models(old(measurements)@).remove(index as int));
        },
        Outline::Hole(hole) => {
            if hole >= measurements[index].holes.len() {
                return None;
            }
            measurements[index].holes.remove(hole);
            assert(models(measurements@) =~= without_outline(models(old(measurements)@), index as int, which).unwrap()) by {
                assert(measurements@[index as int]@.holes =~= models(old(measurements)@)[index as int].holes.remove(hole as int));
            }
        },
    }
    Some(())
}

/// Whether `near` answered `yes` when asked about `at`.
pub open spec fn answers<F: Fn(Point) -> bool>(near: F, at: Point, yes: bool) -> bool {
    near.ensures((at,), yes)
}

/// Where an outline falls in the order a click searches them: the outer
/// outline, then each hole in turn.
pub open spec fn rank(which: Outline) -> int {
    match which {
        Outline::Outer => 0,
        Outline::Hole(hole) => hole + 1,
    }
}

/// Whether `first` is searched before `second`: by measurement, then by
/// outline, then by anchor.
pub open spec fn precedes(first: Selection, second: Selection) -> bool {
    ||| first.measurement < second.measurement
    ||| first.measurement == second.measurement && rank(first.outline) < rank(second.outline)
    ||| first.measurement == second.measurement && first.outline == second.outline && first.anchor < second.anchor
}

/// Whether measurement `index` is one a click can reach: it is visible, and
/// it is the one in hand when there is one in hand.
pub open spec fn in_reach(measurements: Seq<MeasurementModel>, within: Option<usize>, index: int) -> bool {
    &&& 0 <= index < measurements.len()
    &&& measurements[index].visible
    &&& match within {
        Some(only) => only as int == index,
        None => true,
    }
}

/// The measurements among the first `count` that a click can reach, by
/// index, in order.
pub open spec fn reach_list(measurements: Seq<MeasurementModel>, within: Option<usize>, count: int) -> Seq<usize>
    decreases count,
{
    if count <= 0 {
        Seq::empty()
    } else if in_reach(measurements, within, count - 1) {
        reach_list(measurements, within, count - 1).push((count - 1) as usize)
    } else {
        reach_list(measurements, within, count - 1)
    }
}

/// The measurements a click can reach, by index, in order: the visible ones,
/// and of those only the one in hand when there is one in hand.
pub fn reachable_areas(measurements: &Vec<Measurement>, within: Option<usize>) -> (areas: Vec<usize>)
    ensures
        areas@ == reach_list(models(measurements@), within, measurements@.len() as int),
{
    let mut areas: Vec<usize> = Vec::new();
    let mut index: usize = 0;
    while index < measurements.len()
        invariant
            0 <= index <= measurements@.len(),
            areas@ == reach_list(models(measurements@), within, index as int),
        decreases measurements@.len() - index,
    {
        let wanted = match within {
            Some(only) => only == index,
            None => true,
        };
        if measurements[index].visible && wanted {
            areas.push(index);
        }
        index = index + 1;
    }
    areas
}

/// Whether `selection` names an anchor a click can reach.
pub open spec fn reachable(measurements: Seq<MeasurementModel>, within: Option<usize>, selection: Selection) -> bool {
    &&& in_reach(measurements, within, selection.measurement as int)
    &&& anchor_at(measurements, selection) is Some
}

/// Whether the anchor `selection` names was asked about and was not near.
pub open spec fn passed_over<F: Fn(Point) -> bool>(
    measurements: Seq<MeasurementModel>,
    near: F,
    selection: Selection,
) -> bool {
    answers(near, anchor_at(measurements, selection).unwrap().pos, false)
}

/// Whether a handle of `anchor` leads nowhere a click could take hold of: it
/// is collapsed onto its anchor, or its end is not near.
pub open spec fn handle_missed<F: Fn(Point) -> bool>(anchor: Anchor, handle: Vec2, near: F) -> bool {
    vanishes(handle) || answers(near, offset_of(anchor.pos, handle), false)
}

/// Whether a handle of `anchor` is what a click takes hold of.
pub open spec fn handle_hit<F: Fn(Point) -> bool>(anchor: Anchor, handle: Vec2, near: F) -> bool {
    !vanishes(handle) && answers(near, offset_of(anchor.pos, handle), true)
}

/// Whether neither handle of the selected anchor, if there is one, is near.
pub open spec fn handles_missed<F: Fn(Point) -> bool>(
    measurements: Seq<MeasurementModel>,
    selected: Option<Selection>,
    near: F,
) -> bool {
    match selected {
        Some(selection) => match anchor_at(measurements, selection) {
            Some(anchor) => handle_missed(anchor, anchor.in_handle, near) && handle_missed(anchor, anchor.out_handle, near),
            None => true,
        },
        None => true,
    }
}

/// The first anchor of `anchors` that `near` accepts.
fn first_near<F: Fn(Point) -> bool>(anchors: &Vec<Anchor>, near: &F) -> (found: Option<usize>)
    requires
        forall|at: Point| near.requires((at,)),
    ensures
        found matches Some(at) ==> at < anchors@.len() && answers(*near, anchors@[at as int].pos, true),
        forall|earlier: int| 0 <= earlier < (match found { Some(at) => at as int, None => anchors@.len() as int })
            ==> answers(*near, #[trigger] anchors@[earlier].pos, false),
{
    let mut index: usize = 0;
    while index < anchors.len()
        invariant
            0 <= index <= anchors@.len(),
            forall|at: Point| near.requires((at,)),
            forall|earlier: int| 0 <= earlier < index ==> answers(*near, #[trigger] anchors@[earlier].pos, false),
        decreases anchors@.len() - index,
    {
        if near(anchors[index].pos) {
            return Some(index);
        }
        index = index + 1;
    }
    None
}

/// Selecting and reshaping anchors that are already placed.
#[derive(Default)]
pub struct Editor {
    pub selected: Option<Selection>,
    pub grabbed: Option<(Selection, Grab)>,
    /// Where the grabbed anchor sat when the drag began, which is what an
    /// orthogonal constraint holds it against.
    pub origin: Option<Point>,
}

impl Editor {
    /// What lies under a click, `near` saying which points on the page it is
    /// close enough to: the selected anchor's handles first, since they are
    /// the only ones drawn and they sit on top of everything else near them,
    /// then the anchors a click can reach, in order. `within` is the
    /// measurement in hand, which is the only one an anchor tool reaches while
    /// there is one; a hidden outline is not there to be grabbed.
    pub fn hit<F: Fn(Point) -> bool>(
        &self,
        measurements: &Vec<Measurement>,
        within: Option<usize>,
        near: F,
    ) -> (found: Option<(Selection, Grab)>)
        requires
            forall|at: Point| near.requires((at,)),
        ensures
            match found {
                Some((selection, Grab::In)) => self.selected == Some(selection)
                    && (anchor_at(models(measurements@), selection) matches Some(anchor)
                        && handle_hit(anchor, anchor.in_handle, near)),
                Some((selection, Grab::Out)) => self.selected == Some(selection)
                    && (anchor_at(models(measurements@), selection) matches Some(anchor)
                        && handle_missed(anchor, anchor.in_handle, near)
                        && handle_hit(anchor, anchor.out_handle, near)),
                Some((selection, Grab::Anchor)) => {
                    &&& handles_missed(models(measurements@), self.selected, near)
                    &&& reachable(models(measurements@), within, selection)
                    &&& answers(near, anchor_at(models(measurements@), selection).unwrap().pos, true)
                    &&& forall|earlier: Selection| #[trigger] reachable(models(measurements@), within, earlier)
                        && precedes(earlier, selection) ==> passed_over(models(measurements@), near, earlier)
                },
                None => {
                    &&& handles_missed(models(measurements@), self.selected, near)
                    &&& forall|any: Selection| #[trigger] reachable(models(measurements@), within, any)
                        ==> passed_over(models(measurements@), near, any)
                },
            },
    {
        let ghost page = models(measurements@);
        if let Some(selected) = self.selected {
            if let Some(anchor) = anchor(measurements, selected) {
                if !is_zero(anchor.in_handle) && near(offset(anchor.pos, anchor.in_handle)) {
                    return Some((selected, Grab::In));
                }
                if !is_zero(anchor.out_handle) && near(offset(anchor.pos, anchor.out_handle)) {
                    return Some((selected, Grab::Out));
                }
            }
        }

        let mut index: usize = 0;
        while index < measurements.len()
            invariant
                0 <= index <= measurements@.len(),
                page == models(measurements@),
                forall|at: Point| near.requires((at,)),
                handles_missed(page, self.selected, near),
                forall|earlier: Selection| #[trigger] reachable(page, within, earlier)
                    && earlier.measurement < index ==> passed_over(page, near, earlier),
            decreases measurements@.len() - index,
        {
            let measurement = &measurements[index];
            let wanted = match within {
                Some(only) => only == index,
                None => true,
            };
            if measurement.visible && wanted {
                if let Some(at) = first_near(&measurement.outer.anchors, &near) {
                    let found = Selection { measurement: index, outline: Outline::Outer, anchor: at };
                    assert forall|earlier: Selection| #[trigger] reachable(page, within, earlier)
                        && precedes(earlier, found) implies passed_over(page, near, earlier) by {
                        if earlier.measurement == index {
                            assert(earlier.outline == Outline::Outer);
                        }
                    }
                    return Some((found, Grab::Anchor));
                }
                let mut hole: usize = 0;
                while hole < measurement.holes.len()
                    invariant
                        0 <= hole <= measurement.holes@.len(),
                        index < measurements@.len(),
                        *measurement == measurements@[index as int],
                        page == models(measurements@),
                        in_reach(page, within, index as int),
                        forall|at: Point| near.requires((at,)),
                        handles_missed(page, self.selected, near),
                        forall|earlier: Selection| #[trigger] reachable(page, within, earlier)
                            && (earlier.measurement < index
                                || (earlier.measurement == index && rank(earlier.outline) < hole + 1))
                            ==> passed_over(page, near, earlier),
                    decreases measurement.holes@.len() - hole,
                {
                    if let Some(at) = first_near(&measurement.holes[hole].anchors, &near) {
                        let found = Selection { measurement: index, outline: Outline::Hole(hole), anchor: at };
                        assert forall|earlier: Selection| #[trigger] reachable(page, within, earlier)
                            && precedes(earlier, found) implies passed_over(page, near, earlier) by {
                            if earlier.measurement == index && rank(earlier.outline) == hole + 1 {
                                assert(earlier.outline == Outline::Hole(hole));
                            }
                        }
                        return Some((found, Grab::Anchor));
                    }
                    hole = hole + 1;
                }
                assert forall|earlier: Selection| #[trigger] reachable(page, within, earlier)
                    && earlier.measurement < index + 1 implies passed_over(page, near, earlier) by {
                    if earlier.measurement == index {
                        match earlier.outline {
                            Outline::Outer => {},
                            Outline::Hole(h) => { assert(rank(earlier.outline) < hole + 1); },
                        }
                    }
                }
            }
            index = index + 1;
        }
        None
    }
}

/// An outline being drawn, one anchor per click, in page space.
pub struct Pen {
    anchors: Vec<Anchor>,
}

impl View for Pen {
    type V = Seq<Anchor>;

    /// The anchors placed so far, in order.
    closed spec fn view(&self) -> Seq<Anchor> {
        self.anchors@
    }
}

/// What pulling handles out of `anchor` makes of it. While `mirror` holds,
/// the incoming handle is kept equal and opposite to the outgoing one, and
/// the anchor is smooth unless the drag has come back onto it; once it does
/// not, the incoming handle stays where the mirror was broken.
pub open spec fn shaped(anchor: Anchor, out_handle: Vec2, mirror: bool) -> Anchor {
    if mirror {
        Anchor {
            out_handle,
            in_handle: opposite_of(out_handle),
            kind: if vanishes(out_handle) { AnchorKind::Corner } else { AnchorKind::Smooth },
            ..anchor
        }
    } else {
        Anchor { out_handle, kind: AnchorKind::Asymmetric, ..anchor }
    }
}

impl Pen {
    /// A pen with nothing placed.
    pub fn new() -> (pen: Self)
        ensures
            pen@.len() == 0,
    {
        Pen { anchors: Vec::new() }
    }

    /// Puts down an anchor where the button went down. It is a corner until a
    /// drag pulls handles out of it.
    pub fn place(&mut self, point: Point)
        ensures
            final(self)@.len() == old(self)@.len() + 1,
            final(self)@.drop_last() == old(self)@,
            final(self)@.last().pos == point,
            final(self)@.last().is_plain_corner(),
    {
        self.anchors.push(Anchor::corner(point));
        assert(self@.drop_last() =~= old(self)@);
    }

    /// Pulls handles out of the anchor being placed, from the drag away from
    /// it. Nothing happens before the first anchor is down.
    pub fn shape(&mut self, out_handle: Vec2, mirror: bool)
        ensures
            old(self)@.len() == 0 ==> final(self)@ == old(self)@,
            old(self)@.len() > 0 ==> final(self)@ == old(self)@.update(
                old(self)@.len() - 1,
                shaped(old(self)@.last(), out_handle, mirror),
            ),
    {
        let count = self.anchors.len();
        if count == 0 {
            return;
        }
        let anchor = self.anchors[count - 1];
        let shaped = if mirror {
            Anchor {
                out_handle,
                in_handle: opposite(out_handle),
                // Dragging back onto the anchor leaves it as sharp as it started.
                kind: if is_zero(out_handle) { AnchorKind::Corner } else { AnchorKind::Smooth },
                ..anchor
            }
        } else {
            Anchor { out_handle, kind: AnchorKind::Asymmetric, ..anchor }
        };
        self.anchors.set(count - 1, shaped);
    }

    /// The anchors placed so far.
    pub fn anchors(&self) -> (anchors: &[Anchor])
        ensures
            anchors@ == self@,
    {
        self.anchors.as_slice()
    }

    /// Closes the outline back to its first anchor, leaving the pen empty and
    /// ready for the next one. `None` while too few anchors have been placed
    /// to enclose anything, which leaves the outline untouched and still being
    /// drawn.
    pub fn close(&mut self) -> (closed: Option<SubPath>)
        ensures
            old(self)@.len() < ENOUGH ==> closed is None && final(self)@ == old(self)@,
            old(self)@.len() >= ENOUGH ==> (closed matches Some(path) && path.closed
                && path.anchors@ == old(self)@ && final(self)@.len() == 0),
    {
        if self.anchors.len() < ENOUGH {
            return None;
        }
        let mut anchors = Vec::new();
        std::mem::swap(&mut anchors, &mut self.anchors);
        Some(SubPath { anchors, closed: true })
    }

    /// Abandons whatever has been placed so far.
    pub fn clear(&mut self)
        ensures
            final(self)@.len() == 0,
    {
        self.anchors.clear();
    }
}

impl Default for Pen {
    fn default() -> (pen: Self)
        ensures
            pen@.len() == 0,
    {
        Pen::new()
    }
}

} // verus!
