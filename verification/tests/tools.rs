use kurbo::{Point, Vec2};
use measure::doc::{Anchor, AnchorKind, Measurement, Outline, SubPath};
use measure::tools::{delete, move_to, remove_outline, toggle, Editor, Grab, Pen, Selection};

/// Whether a point lies within `radius` of `point`, which is what a click
/// reaches.
fn near(point: Point, radius: f64) -> impl Fn(Point) -> bool {
    move |at: Point| (at - point).hypot() <= radius
}

/// Handles for an anchor being smoothed: along the line joining its
/// neighbours, reaching a third of the way towards each.
fn smooth_handles(previous: Point, pos: Point, next: Point) -> (Vec2, Vec2) {
    let along = next - previous;
    let length = along.hypot();

    if length <= f64::EPSILON {
        return (Vec2::ZERO, Vec2::ZERO);
    }

    let direction = along / length;

    (
        direction * -((pos - previous).hypot() / 3.0),
        direction * ((next - pos).hypot() / 3.0),
    )
}

const WHITE: [u8; 4] = [255, 255, 255, 255];

#[test]
fn three_anchors_close_into_an_outline() {
    let mut pen = Pen::default();
    pen.place(Point::new(0.0, 0.0));
    pen.place(Point::new(10.0, 0.0));
    pen.place(Point::new(10.0, 10.0));

    let closed = pen.close().expect("three anchors enclose an area");

    assert!(closed.closed);
    assert_eq!(closed.anchors.len(), 3);
    assert!(
        pen.anchors().is_empty(),
        "the pen is ready for the next one"
    );
}

#[test]
fn dragging_mirrors_the_handles() {
    let mut pen = Pen::default();
    pen.place(Point::new(10.0, 10.0));
    pen.shape(Vec2::new(4.0, 2.0), true);

    let anchor = pen.anchors().last().expect("an anchor was placed");
    assert_eq!(anchor.out_handle, Vec2::new(4.0, 2.0));
    assert_eq!(anchor.in_handle, Vec2::new(-4.0, -2.0));
    assert_eq!(anchor.kind, AnchorKind::Smooth);
}

#[test]
fn breaking_the_mirror_leaves_the_incoming_handle_where_it_was() {
    let mut pen = Pen::default();
    pen.place(Point::new(10.0, 10.0));
    pen.shape(Vec2::new(4.0, 0.0), true);
    pen.shape(Vec2::new(0.0, 6.0), false);

    let anchor = pen.anchors().last().expect("an anchor was placed");
    assert_eq!(anchor.in_handle, Vec2::new(-4.0, 0.0));
    assert_eq!(anchor.out_handle, Vec2::new(0.0, 6.0));
    assert_eq!(anchor.kind, AnchorKind::Asymmetric);
}

#[test]
fn dragging_back_onto_the_anchor_leaves_a_corner() {
    let mut pen = Pen::default();
    pen.place(Point::new(10.0, 10.0));
    pen.shape(Vec2::new(4.0, 2.0), true);
    pen.shape(Vec2::ZERO, true);

    let anchor = pen.anchors().last().expect("an anchor was placed");
    assert_eq!(anchor.kind, AnchorKind::Corner);
}

fn square() -> Vec<Measurement> {
    let mut pen = Pen::default();
    pen.place(Point::new(0.0, 0.0));
    pen.place(Point::new(100.0, 0.0));
    pen.place(Point::new(100.0, 100.0));
    pen.place(Point::new(0.0, 100.0));

    vec![Measurement {
        name: "Area 1".to_owned(),
        outer: pen.close().expect("four anchors enclose an area"),
        holes: Vec::new(),
        colour: WHITE,
        visible: true,
    }]
}

/// A square with a smaller square taken out of the middle of it.
fn square_with_a_hole() -> Vec<Measurement> {
    let mut measurements = square();
    let mut pen = Pen::default();

    pen.place(Point::new(40.0, 40.0));
    pen.place(Point::new(60.0, 40.0));
    pen.place(Point::new(60.0, 60.0));
    pen.place(Point::new(40.0, 60.0));

    let hole = pen.close().expect("four anchors enclose an area");
    measurements[0].holes.push(hole);

    measurements
}

fn at(measurement: usize, anchor: usize) -> Selection {
    Selection {
        measurement,
        outline: Outline::Outer,
        anchor,
    }
}

fn in_hole(measurement: usize, hole: usize, anchor: usize) -> Selection {
    Selection {
        measurement,
        outline: Outline::Hole(hole),
        anchor,
    }
}

#[test]
fn an_anchor_is_hit_within_the_radius_and_not_beyond_it() {
    let measurements = square();
    let editor = Editor::default();

    assert_eq!(
        editor.hit(&measurements, None, near(Point::new(103.0, 2.0), 5.0)),
        Some((at(0, 1), Grab::Anchor))
    );
    assert_eq!(
        editor.hit(&measurements, None, near(Point::new(50.0, 50.0), 5.0)),
        None
    );
}

/// A handle is only reachable once its anchor is selected, because that is
/// the only time it is drawn.
#[test]
fn a_handle_is_hit_only_while_its_anchor_is_selected() {
    let mut measurements = square();
    measurements[0].outer.anchors[0].out_handle = Vec2::new(20.0, 0.0);
    measurements[0].outer.anchors[0].kind = AnchorKind::Smooth;

    let unselected = Editor::default();
    assert_eq!(
        unselected.hit(&measurements, None, near(Point::new(20.0, 0.0), 5.0)),
        None
    );

    let selected = Editor {
        selected: Some(at(0, 0)),
        ..Editor::default()
    };
    assert_eq!(
        selected.hit(&measurements, None, near(Point::new(20.0, 0.0), 5.0)),
        Some((at(0, 0), Grab::Out))
    );
}

#[test]
fn dragging_a_smooth_handle_mirrors_until_the_mirror_is_broken() {
    let mut measurements = square();
    measurements[0].outer.anchors[0].kind = AnchorKind::Smooth;

    move_to(
        &mut measurements,
        at(0, 0),
        Grab::Out,
        Point::new(0.0, 9.0),
        true,
    );
    assert_eq!(
        measurements[0].outer.anchors[0].in_handle,
        Vec2::new(0.0, -9.0)
    );

    move_to(
        &mut measurements,
        at(0, 0),
        Grab::Out,
        Point::new(4.0, 4.0),
        false,
    );
    assert_eq!(
        measurements[0].outer.anchors[0].in_handle,
        Vec2::new(0.0, -9.0)
    );
    assert_eq!(
        measurements[0].outer.anchors[0].kind,
        AnchorKind::Asymmetric
    );
}

#[test]
fn an_area_keeps_the_three_anchors_it_needs() {
    let mut measurements = square();

    assert_eq!(delete(&mut measurements, at(0, 0)), Some(()));
    assert_eq!(measurements[0].outer.anchors.len(), 3);

    assert_eq!(delete(&mut measurements, at(0, 0)), None);
    assert_eq!(measurements[0].outer.anchors.len(), 3);
}

/// Smoothing an anchor and sharpening it again returns the straight edges
/// it started with.
#[test]
fn toggling_twice_returns_the_anchor_to_a_corner() {
    let mut measurements = square();

    toggle(&mut measurements, at(0, 1), smooth_handles).expect("a corner smooths");
    assert_eq!(measurements[0].outer.anchors[1].kind, AnchorKind::Smooth);
    assert_ne!(measurements[0].outer.anchors[1].out_handle, Vec2::ZERO);

    toggle(&mut measurements, at(0, 1), smooth_handles).expect("a smooth anchor sharpens");
    assert_eq!(measurements[0].outer.anchors[1].kind, AnchorKind::Corner);
    assert_eq!(measurements[0].outer.anchors[1].in_handle, Vec2::ZERO);
    assert_eq!(measurements[0].outer.anchors[1].out_handle, Vec2::ZERO);
}

/// A hole's anchors are as reachable as an outline's, and addressed by
/// which hole they belong to.
#[test]
fn a_hole_can_be_reshaped_like_any_other_outline() {
    let mut measurements = square_with_a_hole();
    let editor = Editor::default();

    assert_eq!(
        editor.hit(&measurements, None, near(Point::new(60.0, 40.0), 5.0)),
        Some((in_hole(0, 0, 1), Grab::Anchor))
    );

    move_to(
        &mut measurements,
        in_hole(0, 0, 1),
        Grab::Anchor,
        Point::new(70.0, 40.0),
        true,
    );
    assert_eq!(
        measurements[0].holes[0].anchors[1].pos,
        Point::new(70.0, 40.0)
    );

    assert_eq!(toggle(&mut measurements, in_hole(0, 0, 1), smooth_handles), Some(()));
    assert_eq!(measurements[0].holes[0].anchors[1].kind, AnchorKind::Smooth);

    assert_eq!(delete(&mut measurements, in_hole(0, 0, 1)), Some(()));
    assert_eq!(measurements[0].holes[0].anchors.len(), 3);

    // Three is as few as a hole can have, just as for an outline.
    assert_eq!(delete(&mut measurements, in_hole(0, 0, 0)), None);
    assert_eq!(
        measurements[0].outer.anchors.len(),
        4,
        "the outline is untouched"
    );
}

#[test]
fn two_anchors_enclose_nothing_and_stay_put() {
    let mut pen = Pen::default();
    pen.place(Point::new(0.0, 0.0));
    pen.place(Point::new(10.0, 0.0));

    assert!(pen.close().is_none());
    assert_eq!(pen.anchors().len(), 2, "the outline is still being drawn");
}

/// Two squares side by side, sharing the edge at x = 100.
fn two_squares() -> Vec<Measurement> {
    let mut measurements = square();
    let mut pen = Pen::default();

    pen.place(Point::new(100.0, 0.0));
    pen.place(Point::new(200.0, 0.0));
    pen.place(Point::new(200.0, 100.0));
    pen.place(Point::new(100.0, 100.0));

    measurements.push(Measurement {
        name: "Area 2".to_owned(),
        outer: pen.close().expect("four anchors enclose an area"),
        holes: Vec::new(),
        colour: WHITE,
        visible: true,
    });

    measurements
}

/// With one area in hand, a click by the neighbour's anchor reaches
/// nothing: an anchor tool only takes hold of what it is showing.
#[test]
fn an_anchor_is_only_hit_within_the_area_in_hand() {
    let measurements = two_squares();
    let editor = Editor::default();
    let corner = Point::new(200.0, 0.0);

    assert_eq!(
        editor.hit(&measurements, Some(1), near(corner, 5.0)),
        Some((at(1, 1), Grab::Anchor))
    );
    assert_eq!(editor.hit(&measurements, Some(0), near(corner, 5.0)), None);
    assert_eq!(
        editor.hit(&measurements, None, near(corner, 5.0)),
        Some((at(1, 1), Grab::Anchor))
    );
}

/// A hidden outline is not there to be grabbed.
#[test]
fn a_hidden_area_cannot_be_hit() {
    let mut measurements = square();
    measurements[0].visible = false;

    assert_eq!(
        Editor::default().hit(&measurements, None, near(Point::new(100.0, 0.0), 5.0)),
        None
    );
}

/// The earliest anchor in reach wins: two anchors both within reach, the
/// first one in the outline is the one taken.
#[test]
fn the_first_anchor_in_reach_is_the_one_hit() {
    let measurements = square();

    assert_eq!(
        Editor::default().hit(&measurements, None, near(Point::new(50.0, 0.0), 60.0)),
        Some((at(0, 0), Grab::Anchor))
    );
}

/// A handle lying on its anchor is not drawn, so it cannot be hit, and the
/// anchor itself is hit instead.
#[test]
fn a_collapsed_handle_is_not_hit() {
    let measurements = square();
    let selected = Editor {
        selected: Some(at(0, 0)),
        ..Editor::default()
    };

    assert_eq!(
        selected.hit(&measurements, None, near(Point::new(0.0, 0.0), 5.0)),
        Some((at(0, 0), Grab::Anchor))
    );
}

/// Dragging an anchor moves it, handles and all; dragging the incoming handle
/// of a smooth anchor turns the outgoing one opposite it.
#[test]
fn dragging_an_anchor_moves_it_and_an_incoming_handle_mirrors_too() {
    let mut measurements = square();
    measurements[0].outer.anchors[2].kind = AnchorKind::Smooth;

    move_to(&mut measurements, at(0, 2), Grab::Anchor, Point::new(110.0, 120.0), true);
    assert_eq!(measurements[0].outer.anchors[2].pos, Point::new(110.0, 120.0));
    assert_eq!(measurements[0].outer.anchors[2].in_handle, Vec2::ZERO);

    move_to(&mut measurements, at(0, 2), Grab::In, Point::new(100.0, 120.0), true);
    assert_eq!(measurements[0].outer.anchors[2].in_handle, Vec2::new(-10.0, 0.0));
    assert_eq!(measurements[0].outer.anchors[2].out_handle, Vec2::new(10.0, 0.0));
    assert_eq!(measurements[0].outer.anchors[2].kind, AnchorKind::Smooth);
}

/// A corner's handle is dragged out on its own: mirroring only pairs the
/// handles of a smooth anchor.
#[test]
fn a_corner_handle_drags_out_alone() {
    let mut measurements = square();

    move_to(&mut measurements, at(0, 0), Grab::Out, Point::new(5.0, 5.0), true);
    assert_eq!(measurements[0].outer.anchors[0].out_handle, Vec2::new(5.0, 5.0));
    assert_eq!(measurements[0].outer.anchors[0].in_handle, Vec2::ZERO);
    assert_eq!(measurements[0].outer.anchors[0].kind, AnchorKind::Corner);
}

/// Nothing happens to a selection that names no anchor.
#[test]
fn editing_nothing_changes_nothing() {
    let mut measurements = square();

    move_to(&mut measurements, at(1, 0), Grab::Anchor, Point::new(5.0, 5.0), true);
    move_to(&mut measurements, in_hole(0, 0, 0), Grab::Anchor, Point::new(5.0, 5.0), true);
    assert_eq!(delete(&mut measurements, at(0, 9)), None);
    assert_eq!(toggle(&mut measurements, at(3, 0), smooth_handles), None);
    assert_eq!(measurements[0].outer.anchors.len(), 4);
    assert_eq!(measurements[0].outer.anchors[0].pos, Point::new(0.0, 0.0));
}

/// Smoothing asks for handles from the neighbours either side, wrapping
/// round from the first anchor to the last.
#[test]
fn smoothing_the_first_anchor_looks_at_the_last() {
    let mut measurements = square();
    let asked = std::cell::Cell::new(None);

    toggle(&mut measurements, at(0, 0), |previous, pos, next| {
        asked.set(Some((previous, pos, next)));
        (Vec2::new(-1.0, 0.0), Vec2::new(1.0, 0.0))
    })
    .expect("a corner smooths");

    assert_eq!(
        asked.get(),
        Some((Point::new(0.0, 100.0), Point::new(0.0, 0.0), Point::new(100.0, 0.0)))
    );
    assert_eq!(measurements[0].outer.anchors[0].in_handle, Vec2::new(-1.0, 0.0));
    assert_eq!(measurements[0].outer.anchors[0].out_handle, Vec2::new(1.0, 0.0));
}

/// Removing the outer outline removes the measurement; removing a hole
/// removes only the hole.
#[test]
fn removing_an_outline_takes_off_just_that() {
    let mut measurements = square_with_a_hole();

    assert_eq!(remove_outline(&mut measurements, 0, Outline::Hole(1)), None);
    assert_eq!(remove_outline(&mut measurements, 0, Outline::Hole(0)), Some(()));
    assert_eq!(measurements.len(), 1);
    assert!(measurements[0].holes.is_empty());

    assert_eq!(remove_outline(&mut measurements, 1, Outline::Outer), None);
    assert_eq!(remove_outline(&mut measurements, 0, Outline::Outer), Some(()));
    assert!(measurements.is_empty());
}

/// A whole measurement moves together: outline, holes and all, the handles
/// riding along with their anchors.
#[test]
fn translating_moves_every_anchor_and_keeps_the_handles() {
    let mut measurements = square_with_a_hole();
    measurements[0].outer.anchors[0].out_handle = Vec2::new(3.0, 4.0);

    measurements[0].translate(Vec2::new(10.0, -5.0));

    assert_eq!(measurements[0].outer.anchors[0].pos, Point::new(10.0, -5.0));
    assert_eq!(measurements[0].outer.anchors[0].out_handle, Vec2::new(3.0, 4.0));
    assert_eq!(measurements[0].holes[0].anchors[2].pos, Point::new(70.0, 55.0));
}

/// Every outline in turn, outer first, each with the way to address it.
#[test]
fn the_outlines_come_outer_first() {
    let measurements = square_with_a_hole();
    let outlines = measurements[0].outlines();

    assert_eq!(outlines.len(), 2);
    assert_eq!(outlines[0].0, Outline::Outer);
    assert_eq!(outlines[1].0, Outline::Hole(0));
    assert_eq!(outlines[1].1.anchors[0].pos, Point::new(40.0, 40.0));
    assert!(measurements[0].outline(Outline::Hole(1)).is_none());
    assert_eq!(
        measurements[0].outline(Outline::Outer).map(|path| path.anchors.len()),
        Some(4)
    );
}

/// A corner is a point with its handles collapsed onto it.
#[test]
fn a_corner_has_no_handles() {
    let corner = Anchor::corner(Point::new(3.0, 4.0));

    assert_eq!(corner.pos, Point::new(3.0, 4.0));
    assert_eq!(corner.in_handle, Vec2::ZERO);
    assert_eq!(corner.out_handle, Vec2::ZERO);
    assert_eq!(corner.kind, AnchorKind::Corner);
    assert!(SubPath::default().anchors.is_empty());
}
