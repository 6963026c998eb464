//! The anchors a placement can be pulled onto. Which of them is nearest is a
//! question of distance, measured in floating point by the caller; which
//! anchors are in the running at all is decided here.

use vstd::prelude::*;
use kurbo::Point;

use crate::doc::{models, Anchor, Measurement, MeasurementModel, Outline, PathModel};
use crate::tools::{Pen, Selection};

verus! {

/// Whether `except` names anchor `at` of outline `which` of measurement `index`.
pub open spec fn names(except: Option<Selection>, index: int, which: Outline, at: int) -> bool {
    except matches Some(selection) && selection.measurement as int == index && selection.outline == which
        && selection.anchor as int == at
}

/// Where `anchors` stand, in order, less the one `except` names, if it names
/// one of them: an anchor being dragged is not a place to pull itself onto.
pub open spec fn path_targets(anchors: Seq<Anchor>, index: int, which: Outline, except: Option<Selection>) -> Seq<Point> {
    let all = anchors.map_values(|anchor: Anchor| anchor.pos);
    match except {
        Some(selection) => if selection.measurement as int == index && selection.outline == which
            && selection.anchor < anchors.len() {
            all.remove(selection.anchor as int)
        } else {
            all
        },
        None => all,
    }
}

/// The targets in the first `count` holes of measurement `index`, hole by hole.
pub open spec fn hole_targets(holes: Seq<PathModel>, index: int, except: Option<Selection>, count: int) -> Seq<Point>
    decreases count,
{
    if count <= 0 {
        Seq::empty()
    } else {
        hole_targets(holes, index, except, count - 1)
            + path_targets(holes[count - 1].anchors, index, Outline::Hole((count - 1) as usize), except)
    }
}

/// The targets in measurement `index`: its outline, then its holes. A hidden
/// measurement offers none.
pub open spec fn measurement_targets(measurement: MeasurementModel, index: int, except: Option<Selection>) -> Seq<Point> {
    if measurement.visible {
        path_targets(measurement.outer.anchors, index, Outline::Outer, except)
            + hole_targets(measurement.holes, index, except, measurement.holes.len() as int)
    } else {
        Seq::empty()
    }
}

/// The targets in the first `count` measurements, in order.
pub open spec fn page_targets(measurements: Seq<MeasurementModel>, except: Option<Selection>, count: int) -> Seq<Point>
    decreases count,
{
    if count <= 0 {
        Seq::empty()
    } else {
        page_targets(measurements, except, count - 1)
            + measurement_targets(measurements[count - 1], count - 1, except)
    }
}

/// Taking one more anchor into `path_targets` adds its position, unless it
/// is the one left out.
proof fn lemma_path_targets_step(anchors: Seq<Anchor>, index: int, which: Outline, except: Option<Selection>, at: int)
    requires
        0 <= at < anchors.len(),
    ensures
        path_targets(anchors.take(at + 1), index, which, except) == path_targets(anchors.take(at), index, which, except)
            + if names(except, index, which, at) { Seq::empty() } else { seq![anchors[at].pos] },
{
    let before = anchors.take(at).map_values(|anchor: Anchor| anchor.pos);
    let after = anchors.take(at + 1).map_values(|anchor: Anchor| anchor.pos);
    assert(after =~= before.push(anchors[at].pos));
    match except {
        Some(selection) => {
            let e = selection.anchor as int;
            if selection.measurement as int == index && selection.outline == which && e <= at {
                if e == at {
                    assert(after.remove(e) =~= before);
                } else {
                    assert(after.remove(e) =~= before.remove(e).push(anchors[at].pos));
                }
            }
        },
        None => {},
    }
}

/// Whatever is in `first` or in `second` is in the two together.
proof fn lemma_contains_either(first: Seq<Point>, second: Seq<Point>, target: Point)
    requires
        first.contains(target) || second.contains(target),
    ensures
        (first + second).contains(target),
{
    if first.contains(target) {
        let k = choose|k: int| 0 <= k < first.len() && first[k] == target;
        assert((first + second)[k] == target);
    } else {
        let k = choose|k: int| 0 <= k < second.len() && second[k] == target;
        assert((first + second)[first.len() + k] == target);
    }
}

/// An anchor of an outline offers its position unless it is the one left out.
proof fn lemma_path_offers(anchors: Seq<Anchor>, index: int, which: Outline, except: Option<Selection>, at: int)
    requires
        0 <= at < anchors.len(),
        !(except matches Some(selection) && selection.measurement as int == index && selection.outline == which
            && selection.anchor as int == at),
    ensures
        path_targets(anchors, index, which, except).contains(anchors[at].pos),
{
    let all = anchors.map_values(|anchor: Anchor| anchor.pos);
    assert(all[at] == anchors[at].pos);
    match except {
        Some(selection) => if selection.measurement as int == index && selection.outline == which
            && selection.anchor < anchors.len() {
            let e = selection.anchor as int;
            if at < e {
                assert(all.remove(e)[at] == anchors[at].pos);
            } else {
                assert(all.remove(e)[at - 1] == anchors[at].pos);
            }
        } else {
            assert(all.contains(anchors[at].pos));
        },
        None => {
            assert(all.contains(anchors[at].pos));
        },
    }
}

/// An anchor of hole `hole` among the first `count` offers its position
/// unless it is the one left out.
proof fn lemma_holes_offer(holes: Seq<PathModel>, index: int, except: Option<Selection>, count: int, hole: int, at: int)
    requires
        0 <= hole < count <= holes.len(),
        0 <= at < holes[hole].anchors.len(),
        !(except matches Some(selection) && selection.measurement as int == index
            && selection.outline == Outline::Hole(hole as usize) && selection.anchor as int == at),
    ensures
        hole_targets(holes, index, except, count).contains(holes[hole].anchors[at].pos),
    decreases count,
{
    let target = holes[hole].anchors[at].pos;
    let last = path_targets(holes[count - 1].anchors, index, Outline::Hole((count - 1) as usize), except);
    if hole == count - 1 {
        lemma_path_offers(holes[hole].anchors, index, Outline::Hole(hole as usize), except, at);
    } else {
        lemma_holes_offer(holes, index, except, count - 1, hole, at);
    }
    lemma_contains_either(hole_targets(holes, index, except, count - 1), last, target);
}

/// An anchor of a visible measurement among the first `count` offers its
/// position unless it is the one left out.
proof fn lemma_page_offers(measurements: Seq<MeasurementModel>, except: Option<Selection>, count: int, index: int, which: Outline, at: int)
    requires
        0 <= index < count <= measurements.len(),
        measurements[index].visible,
        measurements[index].outline(which) matches Some(path) && 0 <= at < path.anchors.len(),
        !(except matches Some(selection) && selection.measurement as int == index && selection.outline == which
            && selection.anchor as int == at),
    ensures
        page_targets(measurements, except, count).contains(measurements[index].outline(which).unwrap().anchors[at].pos),
    decreases count,
{
    let target = measurements[index].outline(which).unwrap().anchors[at].pos;
    let here = measurements[count - 1];
    let own = measurement_targets(here, count - 1, except);
    if index == count - 1 {
        let outer = path_targets(here.outer.anchors, index, Outline::Outer, except);
        let holes = hole_targets(here.holes, index, except, here.holes.len() as int);
        match which {
            Outline::Outer => {
                lemma_path_offers(here.outer.anchors, index, Outline::Outer, except, at);
            },
            Outline::Hole(hole) => {
                lemma_holes_offer(here.holes, index, except, here.holes.len() as int, hole as int, at);
            },
        }
        lemma_contains_either(outer, holes, target);
    } else {
        lemma_page_offers(measurements, except, count - 1, index, which, at);
    }
    lemma_contains_either(page_targets(measurements, except, count - 1), own, target);
}

/// Every anchor of every visible outline on the page is a place to pull a
/// placement onto, except only the one anchor being dragged: the one whose
/// measurement, outline and place in the outline are all the ones `except`
/// names. An anchor of another measurement, or another outline, at the same
/// place in its own outline is still a target.
pub proof fn every_other_anchor_is_a_target(
    measurements: Seq<MeasurementModel>,
    except: Option<Selection>,
    index: int,
    which: Outline,
    at: int,
)
    requires
        0 <= index < measurements.len(),
        measurements[index].visible,
        measurements[index].outline(which) matches Some(path) && 0 <= at < path.anchors.len(),
        !(except matches Some(selection) && selection.measurement as int == index && selection.outline == which
            && selection.anchor as int == at),
    ensures
        page_targets(measurements, except, measurements.len() as int).contains(
            measurements[index].outline(which).unwrap().anchors[at].pos,
        ),
{
    lemma_page_offers(measurements, except, measurements.len() as int, index, which, at);
}

/// Adds the targets among `anchors`, outline `which` of measurement `index`.
fn push_path_targets(
    targets: &mut Vec<Point>,
    anchors: &Vec<Anchor>,
    index: usize,
    which: Outline,
    except: Option<Selection>,
)
    ensures
        final(targets)@ == old(targets)@ + path_targets(anchors@, index as int, which, except),
{
    let mut at: usize = 0;
    while at < anchors.len()
        invariant
            0 <= at <= anchors@.len(),
            targets@ == old(targets)@ + path_targets(anchors@.take(at as int), index as int, which, except),
        decreases anchors@.len() - at,
    {
        proof {
            lemma_path_targets_step(anchors@, index as int, which, except, at as int);
        }
        let left_out = match except {
            Some(selection) => selection.measurement == index && selection.outline == which && selection.anchor == at,
            None => false,
        };
        if !left_out {
            targets.push(anchors[at].pos);
        }
        at = at + 1;
    }
    assert(anchors@.take(anchors@.len() as int) =~= anchors@);
}

/// Every anchor a placement could be pulled onto: those of the visible
/// outlines and their holes, measurement by measurement, less the one
/// `except` names, and then whatever the pen has put down so far.
pub fn snap_targets(measurements: &Vec<Measurement>, pen: &Option<Pen>, except: Option<Selection>) -> (targets: Vec<Point>)
    ensures
        targets@ == page_targets(models(measurements@), except, measurements@.len() as int) + match pen {
            Some(pen) => pen@.map_values(|anchor: Anchor| anchor.pos),
            None => Seq::empty(),
        },
{
    let ghost page = models(measurements@);
    let mut targets: Vec<Point> = Vec::new();
    let mut index: usize = 0;
    while index < measurements.len()
        invariant
            0 <= index <= measurements@.len(),
            page == models(measurements@),
            targets@ == page_targets(page, except, index as int),
        decreases measurements@.len() - index,
    {
        let measurement = &measurements[index];
        let ghost before = targets@;
        if measurement.visible {
            push_path_targets(&mut targets, &measurement.outer.anchors, index, Outline::Outer, except);
            let mut hole: usize = 0;
            while hole < measurement.holes.len()
                invariant
                    0 <= hole <= measurement.holes@.len(),
                    index < measurements@.len(),
                    *measurement == measurements@[index as int],
                    page == models(measurements@),
                    targets@ == before + path_targets(page[index as int].outer.anchors, index as int, Outline::Outer, except)
                        + hole_targets(page[index as int].holes, index as int, except, hole as int),
                decreases measurement.holes@.len() - hole,
            {
                let ghost so_far = targets@;
                push_path_targets(&mut targets, &measurement.holes[hole].anchors, index, Outline::Hole(hole), except);
                assert(targets@ =~= before + path_targets(page[index as int].outer.anchors, index as int, Outline::Outer, except)
                    + hole_targets(page[index as int].holes, index as int, except, hole + 1));
                hole = hole + 1;
            }
        }
        assert(targets@ =~= page_targets(page, except, index + 1));
        index = index + 1;
    }
    if let Some(pen) = pen {
        let placed = pen.anchors();
        let ghost base = targets@;
        let mut at: usize = 0;
        while at < placed.len()
            invariant
                0 <= at <= placed@.len(),
                placed@ == pen@,
                targets@ == base + pen@.take(at as int).map_values(|anchor: Anchor| anchor.pos),
            decreases placed@.len() - at,
        {
            targets.push(placed[at].pos);
            assert(pen@.take(at + 1).map_values(|anchor: Anchor| anchor.pos)
                =~= pen@.take(at as int).map_values(|anchor: Anchor| anchor.pos).push(pen@[at as int].pos));
            at = at + 1;
        }
        assert(pen@.take(pen@.len() as int) =~= pen@);
    }
    targets
}

} // verus!
