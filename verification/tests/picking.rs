use kurbo::Point;
use measure::controls::{Edit, Hand, Pick, Tool};
use measure::doc::{Anchor, Measurement, Outline, SubPath};
use measure::geom::as_hole;
use measure::picking::{elsewhere, shape_at, shape_of};
use measure::snapping::snap_targets;
use measure::tools::{reachable_areas, Grab, Pen, Selection};

const WHITE: [u8; 4] = [255, 255, 255, 255];

/// A closed outline through the corners of the rectangle from `(x0, y0)` to
/// `(x1, y1)`, anticlockwise on the page.
fn square(x0: f64, y0: f64, x1: f64, y1: f64) -> SubPath {
    SubPath {
        anchors: vec![
            Anchor::corner(Point::new(x0, y0)),
            Anchor::corner(Point::new(x1, y0)),
            Anchor::corner(Point::new(x1, y1)),
            Anchor::corner(Point::new(x0, y1)),
        ],
        closed: true,
    }
}

fn area(name: &str, outer: SubPath, holes: Vec<SubPath>) -> Measurement {
    Measurement {
        name: name.to_owned(),
        outer,
        holes,
        colour: WHITE,
        visible: true,
    }
}

/// Whether `point` falls inside the rectangle the outline's corners span.
fn inside(point: Point) -> impl Fn(&SubPath) -> bool {
    move |subpath: &SubPath| {
        let xs = subpath.anchors.iter().map(|anchor| anchor.pos.x);
        let ys = subpath.anchors.iter().map(|anchor| anchor.pos.y);
        let (x0, x1) = (xs.clone().fold(f64::MAX, f64::min), xs.fold(f64::MIN, f64::max));
        let (y0, y1) = (ys.clone().fold(f64::MAX, f64::min), ys.fold(f64::MIN, f64::max));
        x0 <= point.x && point.x <= x1 && y0 <= point.y && point.y <= y1
    }
}

#[test]
fn a_click_in_a_hole_takes_the_hole() {
    let measurement = area("Slab", square(0.0, 0.0, 100.0, 100.0), vec![square(40.0, 40.0, 60.0, 60.0)]);

    assert_eq!(shape_of(&measurement, &inside(Point::new(50.0, 50.0))), Some(Outline::Hole(0)));
    assert_eq!(shape_of(&measurement, &inside(Point::new(10.0, 10.0))), Some(Outline::Outer));
    assert_eq!(shape_of(&measurement, &inside(Point::new(150.0, 10.0))), None);
}

#[test]
fn the_area_drawn_last_is_the_one_clicked() {
    let measurements = vec![
        area("Below", square(0.0, 0.0, 100.0, 100.0), vec![]),
        area("Above", square(50.0, 50.0, 150.0, 150.0), vec![]),
    ];

    assert_eq!(shape_at(&measurements, &inside(Point::new(75.0, 75.0))), Some((1, Outline::Outer)));
    assert_eq!(shape_at(&measurements, &inside(Point::new(25.0, 25.0))), Some((0, Outline::Outer)));
    assert_eq!(shape_at(&measurements, &inside(Point::new(500.0, 500.0))), None);
}

#[test]
fn a_hidden_area_is_not_there_to_be_clicked() {
    let mut measurements = vec![
        area("Below", square(0.0, 0.0, 100.0, 100.0), vec![]),
        area("Above", square(50.0, 50.0, 150.0, 150.0), vec![]),
    ];
    measurements[1].visible = false;

    assert_eq!(shape_at(&measurements, &inside(Point::new(75.0, 75.0))), Some((0, Outline::Outer)));
    assert_eq!(shape_at(&measurements, &inside(Point::new(125.0, 125.0))), None);
}

#[test]
fn a_click_on_the_area_in_hand_stays_with_it() {
    let measurements = vec![
        area("Below", square(0.0, 0.0, 100.0, 100.0), vec![]),
        area("Above", square(50.0, 50.0, 150.0, 150.0), vec![]),
    ];
    let overlap = inside(Point::new(75.0, 75.0));

    // Nothing in hand: every area is within reach already.
    assert_eq!(elsewhere(None, &measurements, &overlap), None);

    // The click lands on the area in hand, even where another lies over it.
    assert_eq!(elsewhere(Some((0, Outline::Outer)), &measurements, &overlap), None);

    // A click on another area only: that one is taken up instead.
    assert_eq!(
        elsewhere(Some((0, Outline::Outer)), &measurements, &inside(Point::new(125.0, 125.0))),
        Some((1, Outline::Outer))
    );

    // A click on nothing at all.
    assert_eq!(elsewhere(Some((0, Outline::Outer)), &measurements, &inside(Point::new(500.0, 5.0))), None);
}

#[test]
fn the_dragged_anchor_is_no_target_for_itself() {
    let measurements = vec![
        area("Slab", square(0.0, 0.0, 10.0, 10.0), vec![square(4.0, 4.0, 6.0, 6.0)]),
        Measurement {
            visible: false,
            ..area("Hidden", square(20.0, 20.0, 30.0, 30.0), vec![])
        },
    ];
    let mut pen = Pen::default();
    pen.place(Point::new(50.0, 50.0));

    let targets = snap_targets(
        &measurements,
        &Some(pen),
        Some(Selection {
            measurement: 0,
            outline: Outline::Outer,
            anchor: 1,
        }),
    );

    assert_eq!(
        targets,
        vec![
            Point::new(0.0, 0.0),
            Point::new(10.0, 10.0),
            Point::new(0.0, 10.0),
            Point::new(4.0, 4.0),
            Point::new(6.0, 4.0),
            Point::new(6.0, 6.0),
            Point::new(4.0, 6.0),
            Point::new(50.0, 50.0),
        ]
    );

    let every = snap_targets(&measurements, &None, None);
    assert_eq!(every.len(), 8, "the hidden area offers nothing");
}

#[test]
fn a_hole_wound_like_its_outline_is_turned_round() {
    let outer = square(0.0, 0.0, 10.0, 10.0);
    let hole = square(4.0, 4.0, 6.0, 6.0);

    let turned = as_hole(&outer, hole.clone(), &|_: &SubPath, _: &SubPath| true);
    let positions: Vec<Point> = turned.anchors.iter().map(|anchor| anchor.pos).collect();
    assert_eq!(
        positions,
        vec![Point::new(4.0, 6.0), Point::new(6.0, 6.0), Point::new(6.0, 4.0), Point::new(4.0, 4.0)]
    );

    let kept = as_hole(&outer, hole.clone(), &|_: &SubPath, _: &SubPath| false);
    assert_eq!(kept.anchors.len(), 4);
    assert_eq!(kept.anchors[0].pos, Point::new(4.0, 4.0));
}

#[test]
fn a_new_outline_becomes_the_next_numbered_area() {
    let mut hand = Hand::default();
    hand.take_up(Tool::Pen);
    let mut measurements = Vec::new();

    let first = hand.add_outline(&mut measurements, square(0.0, 0.0, 10.0, 10.0), WHITE, &|_: &SubPath, _: &SubPath| false);
    let second = hand.add_outline(&mut measurements, square(20.0, 0.0, 30.0, 10.0), WHITE, &|_: &SubPath, _: &SubPath| false);

    assert_eq!(first, (0, Outline::Outer));
    assert_eq!(second, (1, Outline::Outer));
    assert_eq!(measurements[0].name, "Area 1");
    assert_eq!(measurements[1].name, "Area 2");
    assert!(measurements[1].visible);
    assert_eq!(hand.in_hand, Some((1, Outline::Outer)), "what was just traced is in hand");
}

#[test]
fn the_eleventh_area_is_named_with_two_digits() {
    let mut hand = Hand::default();
    let mut measurements: Vec<Measurement> = (0..10).map(|_| area("Earlier", square(0.0, 0.0, 1.0, 1.0), vec![])).collect();

    hand.add_outline(&mut measurements, square(0.0, 0.0, 2.0, 2.0), WHITE, &|_: &SubPath, _: &SubPath| false);

    assert_eq!(measurements[10].name, "Area 11");
}

#[test]
fn one_press_of_h_makes_one_hole() {
    let mut hand = Hand::default();
    let mut measurements = vec![area("Slab", square(0.0, 0.0, 10.0, 10.0), vec![])];

    hand.hole_in(0);
    assert_eq!(hand.tool, Tool::Pen);
    assert_eq!(hand.pen_target, Some(0));

    let traced = hand.add_outline(&mut measurements, square(4.0, 4.0, 6.0, 6.0), WHITE, &|_: &SubPath, _: &SubPath| true);

    assert_eq!(traced, (0, Outline::Hole(0)));
    assert_eq!(measurements.len(), 1);
    assert_eq!(measurements[0].holes.len(), 1);
    assert_eq!(
        measurements[0].holes[0].anchors[0].pos,
        Point::new(4.0, 6.0),
        "wound against the outline"
    );
    assert_eq!(hand.pen_target, None, "the pen goes back to drawing new areas");
    assert_eq!(hand.in_hand, Some((0, Outline::Hole(0))));

    let next = hand.add_outline(&mut measurements, square(20.0, 0.0, 30.0, 10.0), WHITE, &|_: &SubPath, _: &SubPath| true);
    assert_eq!(next, (1, Outline::Outer));
}

#[test]
fn h_with_nothing_in_hand_does_nothing() {
    let mut hand = Hand::default();
    hand.arm_hole();
    assert_eq!(hand.tool, Tool::Select);
    assert!(hand.pen.is_none());

    hand.take_in_hand((2, Outline::Hole(1)));
    hand.arm_hole();
    assert_eq!(hand.tool, Tool::Pen);
    assert_eq!(hand.pen_target, Some(2));
    assert_eq!(hand.in_hand, Some((2, Outline::Hole(1))));
}

#[test]
fn a_second_click_on_the_first_is_a_misfire() {
    let mut hand = Hand::default();
    hand.take_up(Tool::Calibrate);
    let apart = |from: Point, to: Point| (to - from).hypot() >= 3.0;

    assert_eq!(hand.pick_point(Point::new(10.0, 10.0), &apart), None);
    assert!(matches!(hand.pick, Some(Pick::Second { .. })));

    assert_eq!(hand.pick_point(Point::new(11.0, 10.0), &apart), None);
    assert!(matches!(hand.pick, Some(Pick::Second { from }) if from == Point::new(10.0, 10.0)));

    assert_eq!(
        hand.pick_point(Point::new(110.0, 10.0), &apart),
        Some((Point::new(10.0, 10.0), Point::new(110.0, 10.0)))
    );
    assert!(hand.pick.is_none());
}

#[test]
fn the_pen_gives_way_on_a_page_with_no_scale() {
    let mut hand = Hand::default();
    hand.take_up(Tool::Pen);
    hand.take_in_hand((0, Outline::Outer));

    hand.turn_page(true);
    assert_eq!(hand.tool, Tool::Pen);
    assert_eq!(hand.in_hand, None);

    hand.turn_page(false);
    assert_eq!(hand.tool, Tool::Select);
    assert!(hand.pen.is_none());

    hand.take_up(Tool::DirectSelect);
    hand.turn_page(false);
    assert_eq!(hand.tool, Tool::DirectSelect);
    assert!(hand.editor.is_some());
}

#[test]
fn escape_lets_go_of_everything_half_done() {
    let mut hand = Hand::default();
    hand.take_up(Tool::Pen);
    if let Some(pen) = &mut hand.pen {
        pen.place(Point::new(1.0, 1.0));
        pen.place(Point::new(2.0, 1.0));
    }
    hand.take_in_hand((3, Outline::Outer));

    hand.escape();

    assert_eq!(hand.tool, Tool::Pen);
    assert!(hand.pen.as_ref().is_some_and(|pen| pen.anchors().is_empty()));
    assert_eq!(hand.in_hand, None);

    hand.take_up(Tool::Calibrate);
    hand.escape();
    assert!(hand.pick.is_none());
}

#[test]
fn a_click_on_another_area_takes_it_up_instead_of_editing() {
    let mut hand = Hand::default();
    hand.take_up(Tool::DeleteAnchor);
    hand.take_in_hand((0, Outline::Outer));
    let under = Selection {
        measurement: 1,
        outline: Outline::Outer,
        anchor: 2,
    };

    let edit = hand.click(Some((1, Outline::Outer)), Some(under));

    assert_eq!(edit, Edit::Nothing);
    assert_eq!(hand.in_hand, Some((1, Outline::Outer)));
    assert!(hand.editor.as_ref().is_some_and(|e| e.selected.is_none()));
}

#[test]
fn each_anchor_tool_does_its_own_one_thing() {
    let found = Selection {
        measurement: 0,
        outline: Outline::Hole(1),
        anchor: 3,
    };

    let mut hand = Hand::default();
    hand.take_up(Tool::DirectSelect);
    assert_eq!(hand.click(None, Some(found)), Edit::Nothing);
    assert_eq!(hand.editor.as_ref().and_then(|e| e.selected), Some(found));
    assert_eq!(hand.in_hand, Some((0, Outline::Hole(1))));

    hand.take_up(Tool::AnchorPoint);
    assert_eq!(hand.click(None, Some(found)), Edit::Toggle(found));
    assert_eq!(hand.editor.as_ref().and_then(|e| e.selected), Some(found));

    hand.take_up(Tool::DeleteAnchor);
    assert_eq!(hand.click(None, Some(found)), Edit::Delete(found));
    assert_eq!(hand.editor.as_ref().and_then(|e| e.selected), None);
    assert_eq!(hand.in_hand, Some((0, Outline::Hole(1))));

    hand.take_up(Tool::DeleteAnchor);
    hand.let_go();
    assert_eq!(hand.click(None, None), Edit::Nothing);
    assert_eq!(hand.in_hand, None);

    hand.take_up(Tool::AddAnchor);
    assert_eq!(hand.click(None, Some(found)), Edit::Insert);
    let added = Selection {
        measurement: 2,
        outline: Outline::Outer,
        anchor: 5,
    };
    hand.select_inserted(Some(added), Some(found));
    assert_eq!(hand.editor.as_ref().and_then(|e| e.selected), Some(added));
    assert_eq!(hand.in_hand, Some((2, Outline::Outer)));

    hand.select_inserted(None, Some(found));
    assert_eq!(hand.editor.as_ref().and_then(|e| e.selected), None);
    assert_eq!(hand.in_hand, Some((0, Outline::Hole(1))));
}

#[test]
fn a_drag_holds_what_it_started_on_until_it_stops() {
    let mut hand = Hand::default();
    hand.take_up(Tool::DirectSelect);
    let found = Selection {
        measurement: 1,
        outline: Outline::Outer,
        anchor: 0,
    };

    hand.grab((found, Grab::Out), Some(Point::new(3.0, 4.0)));
    let editor = hand.editor.as_ref().expect("the editor is armed");
    assert_eq!(editor.selected, Some(found));
    assert_eq!(editor.grabbed, Some((found, Grab::Out)));
    assert_eq!(editor.origin, Some(Point::new(3.0, 4.0)));
    assert_eq!(hand.in_hand, Some((1, Outline::Outer)));

    hand.release();
    let editor = hand.editor.as_ref().expect("the editor is armed");
    assert_eq!(editor.selected, Some(found), "the selection stays");
    assert_eq!(editor.grabbed, None);
    assert_eq!(editor.origin, None);
}

#[test]
fn only_visible_areas_and_the_one_in_hand_are_reachable() {
    let mut measurements = vec![
        area("A", square(0.0, 0.0, 1.0, 1.0), vec![]),
        area("B", square(0.0, 0.0, 1.0, 1.0), vec![]),
        area("C", square(0.0, 0.0, 1.0, 1.0), vec![]),
    ];
    measurements[1].visible = false;

    assert_eq!(reachable_areas(&measurements, None), vec![0, 2]);
    assert_eq!(reachable_areas(&measurements, Some(2)), vec![2]);
    assert_eq!(reachable_areas(&measurements, Some(1)), Vec::<usize>::new());
}
