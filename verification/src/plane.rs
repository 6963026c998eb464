//! The plane the outlines live in. Positions and handles are kurbo's own
//! points and vectors, carried through as they are: the arithmetic on them is
//! kurbo's, called behind the functions here, and what each one gives back is
//! named so that the rest of the library can say where its results came from.

use vstd::prelude::*;
use kurbo::{BezPath, CubicBez, Point, Vec2};

verus! {

/// A position on a page, in PDF points.
#[verifier::external_type_specification]
#[verifier::external_body]
pub struct ExPoint(kurbo::Point);

/// A displacement on a page, in PDF points.
#[verifier::external_type_specification]
#[verifier::external_body]
pub struct ExVec2(kurbo::Vec2);

/// A cubic Bézier segment: a start, two control points, an end.
#[verifier::external_type_specification]
#[verifier::external_body]
pub struct ExCubicBez(kurbo::CubicBez);

/// A Bézier path: a list of drawing commands, kept in the order given.
#[verifier::external_type_specification]
#[verifier::external_body]
pub struct ExBezPath(kurbo::BezPath);

/// One of the commands a path is built from, as this library issues them.
pub enum Element {
    MoveTo(Point),
    CurveTo(Point, Point, Point),
    ClosePath,
}

/// The commands `path` holds, in order.
pub uninterp spec fn elements(path: BezPath) -> Seq<Element>;

/// `CubicBez::new(p0, p1, p2, p3)`: the cubic with those four points.
pub uninterp spec fn cubic_through(p0: Point, p1: Point, p2: Point, p3: Point) -> CubicBez;

/// Whether a path may take another command: kurbo insists, in debug builds,
/// that a path has begun with a move before anything else is pushed.
pub open spec fn begun(path: BezPath) -> bool {
    elements(path).len() > 0 && elements(path)[0] is MoveTo
}

/// Calls `CubicBez::new`. Its result is named, nothing more.
#[verifier::external_body]
pub(crate) fn cubic(p0: Point, p1: Point, p2: Point, p3: Point) -> (c: CubicBez)
    ensures
        c == cubic_through(p0, p1, p2, p3),
{
    CubicBez::new(p0, p1, p2, p3)
}

/// Calls `BezPath::new`, which holds no commands.
#[verifier::external_body]
pub(crate) fn empty_path() -> (path: BezPath)
    ensures
        elements(path).len() == 0,
{
    BezPath::new()
}

/// Calls `BezPath::move_to`, which pushes a move onto the end. Kurbo's debug
/// check then wants the first command to be a move, which it is if the path
/// was empty or had begun.
#[verifier::external_body]
pub(crate) fn move_to(path: &mut BezPath, to: Point)
    requires
        elements(*old(path)).len() == 0 || begun(*old(path)),
    ensures
        elements(*final(path)) == elements(*old(path)).push(Element::MoveTo(to)),
{
    path.move_to(to)
}

/// Calls `BezPath::curve_to`, which pushes a cubic onto the end. Kurbo's
/// debug checks refuse a path that has not begun with a move.
#[verifier::external_body]
pub(crate) fn curve_to(path: &mut BezPath, p1: Point, p2: Point, p3: Point)
    requires
        begun(*old(path)),
    ensures
        elements(*final(path)) == elements(*old(path)).push(Element::CurveTo(p1, p2, p3)),
{
    path.curve_to(p1, p2, p3)
}

/// Calls `BezPath::close_path`, which pushes a close onto the end. Kurbo's
/// debug checks refuse a path that has not begun with a move.
#[verifier::external_body]
pub(crate) fn close_path(path: &mut BezPath)
    requires
        begun(*old(path)),
    ensures
        elements(*final(path)) == elements(*old(path)).push(Element::ClosePath),
{
    path.close_path()
}

/// `point + by`, as kurbo computes it.
pub uninterp spec fn offset_of(point: Point, by: Vec2) -> Point;

/// `to - from`, as kurbo computes it.
pub uninterp spec fn between(to: Point, from: Point) -> Vec2;

/// `-v`, as kurbo computes it.
pub uninterp spec fn opposite_of(v: Vec2) -> Vec2;

/// Whether `v == Vec2::ZERO`, as kurbo's equality decides it.
pub uninterp spec fn vanishes(v: Vec2) -> bool;

/// Calls kurbo's `Point + Vec2`. Its result is named, nothing more.
#[verifier::external_body]
pub(crate) fn offset(point: Point, by: Vec2) -> (r: Point)
    ensures
        r == offset_of(point, by),
{
    point + by
}

/// Calls kurbo's `Point - Point`. Its result is named, nothing more.
#[verifier::external_body]
pub(crate) fn displacement(to: Point, from: Point) -> (r: Vec2)
    ensures
        r == between(to, from),
{
    to - from
}

/// Calls kurbo's `-Vec2`, which negates both components. Negating a number
/// gives zero exactly when the number was zero (either signed zero), so the
/// opposite of a vector vanishes exactly when the vector does.
#[verifier::external_body]
pub(crate) fn opposite(v: Vec2) -> (r: Vec2)
    ensures
        r == opposite_of(v),
        vanishes(r) == vanishes(v),
{
    -v
}

/// Calls kurbo's `Vec2 == Vec2::ZERO`.
#[verifier::external_body]
pub(crate) fn is_zero(v: Vec2) -> (r: bool)
    ensures
        r == vanishes(v),
{
    v == Vec2::ZERO
}

/// Kurbo's `Vec2::ZERO`, which compares equal to itself.
#[verifier::external_body]
pub(crate) fn zero() -> (r: Vec2)
    ensures
        vanishes(r),
{
    Vec2::ZERO
}

} // verus!
