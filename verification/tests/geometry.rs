use kurbo::{ParamCurve, PathEl, Point, Shape, Vec2};
use measure::doc::{Anchor, AnchorKind, SubPath};
use measure::geom::{bez_path, reverse, segment, segment_count};

fn corners(points: &[(f64, f64)], closed: bool) -> SubPath {
    SubPath {
        anchors: points
            .iter()
            .map(|&(x, y)| Anchor::corner(Point::new(x, y)))
            .collect(),
        closed,
    }
}

/// The signed area the curve of a closed subpath of three or more anchors
/// encloses, as kurbo computes it from the path.
fn enclosed(subpath: &SubPath) -> f64 {
    bez_path(subpath).area()
}

/// Reversing a subpath negates what it encloses without moving it.
#[test]
fn reversing_negates_the_signed_area_and_nothing_else() {
    const KAPPA: f64 = 0.552_284_749_831;
    let pull = KAPPA * 20.0;

    let curved = SubPath {
        anchors: vec![
            Anchor {
                pos: Point::new(20.0, 0.0),
                in_handle: Vec2::new(0.0, -pull),
                out_handle: Vec2::new(0.0, pull),
                kind: AnchorKind::Smooth,
            },
            Anchor {
                pos: Point::new(0.0, 20.0),
                in_handle: Vec2::new(pull, 0.0),
                out_handle: Vec2::new(-pull, 0.0),
                kind: AnchorKind::Smooth,
            },
            Anchor {
                pos: Point::new(-20.0, 0.0),
                in_handle: Vec2::new(0.0, pull),
                out_handle: Vec2::new(0.0, -pull),
                kind: AnchorKind::Smooth,
            },
        ],
        closed: true,
    };

    let backwards = reverse(&curved);

    assert!((enclosed(&curved) + enclosed(&backwards)).abs() < 1e-9);
    assert!((enclosed(&curved).abs() - enclosed(&backwards).abs()).abs() < 1e-9);
}

/// Reversing puts the anchors the other way round and swaps each one's
/// handles, and reversing again gives back what there was.
#[test]
fn reversing_swaps_the_handles_and_undoes_itself() {
    let path = SubPath {
        anchors: vec![
            Anchor {
                pos: Point::new(0.0, 0.0),
                in_handle: Vec2::new(-1.0, 0.0),
                out_handle: Vec2::new(2.0, 0.0),
                kind: AnchorKind::Asymmetric,
            },
            Anchor::corner(Point::new(10.0, 0.0)),
        ],
        closed: false,
    };

    let backwards = reverse(&path);
    assert_eq!(backwards.anchors[0].pos, Point::new(10.0, 0.0));
    assert_eq!(backwards.anchors[1].pos, Point::new(0.0, 0.0));
    assert_eq!(backwards.anchors[1].in_handle, Vec2::new(2.0, 0.0));
    assert_eq!(backwards.anchors[1].out_handle, Vec2::new(-1.0, 0.0));
    assert_eq!(backwards.anchors[1].kind, AnchorKind::Asymmetric);
    assert!(!backwards.closed);

    let again = reverse(&backwards);
    assert_eq!(again.anchors[0].in_handle, Vec2::new(-1.0, 0.0));
    assert_eq!(again.anchors[0].out_handle, Vec2::new(2.0, 0.0));
}

#[test]
fn a_square_encloses_its_side_squared_along_its_curve() {
    let square = corners(
        &[(10.0, 10.0), (110.0, 10.0), (110.0, 110.0), (10.0, 110.0)],
        true,
    );

    assert!((enclosed(&square).abs() - 10_000.0).abs() < 1e-9);
}

/// Four smooth anchors with the standard handle length trace a circle, and
/// the path drawn through them encloses pi r squared, not the square's area.
#[test]
fn the_path_through_a_traced_circle_is_the_circle() {
    const KAPPA: f64 = 0.552_284_749_831;
    let r: f64 = 50.0;
    let pull = KAPPA * r;
    let smooth = |pos: Point, in_handle: Vec2, out_handle: Vec2| Anchor {
        pos,
        in_handle,
        out_handle,
        kind: AnchorKind::Smooth,
    };

    let circle = SubPath {
        anchors: vec![
            smooth(Point::new(r, 0.0), Vec2::new(0.0, -pull), Vec2::new(0.0, pull)),
            smooth(Point::new(0.0, r), Vec2::new(pull, 0.0), Vec2::new(-pull, 0.0)),
            smooth(Point::new(-r, 0.0), Vec2::new(0.0, pull), Vec2::new(0.0, -pull)),
            smooth(Point::new(0.0, -r), Vec2::new(-pull, 0.0), Vec2::new(pull, 0.0)),
        ],
        closed: true,
    };

    let expected = std::f64::consts::PI * r * r;
    assert!((enclosed(&circle).abs() - expected).abs() / expected < 0.001);
}

/// The path moves to the first anchor, runs a cubic to each anchor after it,
/// and, when the subpath is closed, a cubic back to the first and a close.
#[test]
fn the_path_is_a_move_then_a_cubic_per_segment() {
    let closed = corners(&[(0.0, 0.0), (60.0, 0.0), (0.0, 40.0)], true);
    let elements = bez_path(&closed).elements().to_vec();

    assert_eq!(elements.len(), 5);
    assert_eq!(elements[0], PathEl::MoveTo(Point::new(0.0, 0.0)));
    assert_eq!(
        elements[1],
        PathEl::CurveTo(Point::new(0.0, 0.0), Point::new(60.0, 0.0), Point::new(60.0, 0.0))
    );
    assert_eq!(
        elements[3],
        PathEl::CurveTo(Point::new(0.0, 40.0), Point::new(0.0, 0.0), Point::new(0.0, 0.0))
    );
    assert_eq!(elements[4], PathEl::ClosePath);

    let open = corners(&[(0.0, 0.0), (60.0, 0.0), (0.0, 40.0)], false);
    assert_eq!(bez_path(&open).elements().len(), 3);

    assert!(bez_path(&SubPath::default()).elements().is_empty());
    let lone = corners(&[(5.0, 5.0)], true);
    assert_eq!(bez_path(&lone).elements(), &[PathEl::MoveTo(Point::new(5.0, 5.0))]);
}

/// A handle pulls the cubic's control point off the anchor.
#[test]
fn a_handle_becomes_a_control_point() {
    let mut path = corners(&[(0.0, 0.0), (100.0, 0.0)], false);
    path.anchors[0].out_handle = Vec2::new(10.0, 20.0);
    path.anchors[1].in_handle = Vec2::new(-30.0, 5.0);

    let elements = bez_path(&path).elements().to_vec();
    assert_eq!(
        elements[1],
        PathEl::CurveTo(Point::new(10.0, 20.0), Point::new(70.0, 5.0), Point::new(100.0, 0.0))
    );
}

/// How many segments a subpath has: one per gap between anchors, plus the
/// one back to the start when it is closed.
#[test]
fn a_closed_subpath_has_a_segment_per_anchor() {
    let points = [(0.0, 0.0), (100.0, 0.0), (100.0, 100.0), (0.0, 100.0)];

    assert_eq!(segment_count(&corners(&points, true)), 4);
    assert_eq!(segment_count(&corners(&points, false)), 3);
    assert_eq!(segment_count(&corners(&points[..1], true)), 0);
    assert_eq!(segment_count(&SubPath::default()), 0);
}

/// The segment back to the first anchor is the last one of a closed subpath,
/// and an open one has none there.
#[test]
fn the_closing_segment_runs_back_to_the_start() {
    let points = [(0.0, 0.0), (100.0, 0.0), (100.0, 100.0), (0.0, 100.0)];

    let closing = segment(&corners(&points, true), 3).expect("the closing segment exists");
    assert_eq!(closing.eval(0.0), Point::new(0.0, 100.0));
    assert_eq!(closing.eval(1.0), Point::new(0.0, 0.0));
    assert!((closing.eval(0.5) - Point::new(0.0, 50.0)).hypot() < 1e-9);

    assert!(segment(&corners(&points, false), 3).is_none());
    assert!(segment(&corners(&points, true), 4).is_none());

    let first = segment(&corners(&points, false), 0).expect("segment 0 exists");
    assert_eq!(first.p0, Point::new(0.0, 0.0));
    assert_eq!(first.p3, Point::new(100.0, 0.0));
}
