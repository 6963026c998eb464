//! Turning stored anchors into a curve, and the shape of a subpath: how many
//! segments it has, which cubic each is, and the same outline traced the other
//! way round.

use vstd::prelude::*;
use kurbo::{BezPath, CubicBez};

use crate::doc::{Anchor, PathModel, SubPath};
use crate::plane::{
    begun, close_path, cubic, cubic_through, curve_to, elements, empty_path, move_to, offset,
    offset_of, Element,
};

verus! {

/// The cubic from `from` to `to`: out of one along its outgoing handle, into
/// the other along its incoming one. A corner's handles sit on its own point,
/// which makes the cubic a straight line, so straight and curved edges need no
/// distinction here or anywhere downstream.
pub open spec fn curve_between(from: Anchor, to: Anchor) -> Element {
    Element::CurveTo(offset_of(from.pos, from.out_handle), offset_of(to.pos, to.in_handle), to.pos)
}

/// The commands that draw `path`: a move to the first anchor, a cubic to each
/// anchor after it, and, for a closed path of more than one anchor, a cubic
/// back to the first and a close.
pub open spec fn drawn(path: PathModel) -> Seq<Element> {
    let count = path.anchors.len();
    if count == 0 {
        Seq::empty()
    } else {
        let body = seq![Element::MoveTo(path.anchors[0].pos)] + Seq::new(
            (count - 1) as nat,
            |i: int| curve_between(path.anchors[i], path.anchors[i + 1]),
        );
        if path.closed && count > 1 {
            body + seq![curve_between(path.anchors[count - 1], path.anchors[0]), Element::ClosePath]
        } else {
            body
        }
    }
}

fn push_segment(path: &mut BezPath, from: &Anchor, to: &Anchor)
    requires
        begun(*old(path)),
    ensures
        elements(*final(path)) == elements(*old(path)).push(curve_between(*from, *to)),
        begun(*final(path)),
{
    curve_to(path, offset(from.pos, from.out_handle), offset(to.pos, to.in_handle), to.pos);
}

/// The curve a subpath describes, in page space.
pub fn bez_path(subpath: &SubPath) -> (path: BezPath)
    ensures
        elements(path) == drawn(subpath@),
{
    let mut path = empty_path();
    let count = subpath.anchors.len();
    if count == 0 {
        return path;
    }
    let first = &subpath.anchors[0];
    move_to(&mut path, first.pos);

    let mut index: usize = 1;
    while index < count
        invariant
            1 <= index <= count,
            count == subpath.anchors@.len(),
            *first == subpath.anchors@[0],
            begun(path),
            elements(path) == seq![Element::MoveTo(first.pos)] + Seq::new(
                (index - 1) as nat,
                |i: int| curve_between(subpath.anchors@[i], subpath.anchors@[i + 1]),
            ),
        decreases count - index,
    {
        push_segment(&mut path, &subpath.anchors[index - 1], &subpath.anchors[index]);
        index = index + 1;
        assert(elements(path) =~= seq![Element::MoveTo(first.pos)] + Seq::new(
            (index - 1) as nat,
            |i: int| curve_between(subpath.anchors@[i], subpath.anchors@[i + 1]),
        ));
    }

    if subpath.closed && count > 1 {
        push_segment(&mut path, &subpath.anchors[count - 1], first);
        close_path(&mut path);
        assert(elements(path) =~= drawn(subpath@));
    }
    path
}

/// How many segments a subpath has: one per gap between anchors, plus the one
/// back to the start when it is closed.
pub open spec fn segments(path: PathModel) -> nat {
    let count = path.anchors.len();
    if count <= 1 {
        0
    } else if path.closed {
        count
    } else {
        (count - 1) as nat
    }
}

pub fn segment_count(subpath: &SubPath) -> (count: usize)
    ensures
        count == segments(subpath@),
{
    match subpath.anchors.len() {
        0 | 1 => 0,
        count => if subpath.closed { count } else { count - 1 },
    }
}

/// The two anchors segment `index` runs between: from the anchor of that
/// index to the next, wrapping back to the first on the last segment of a
/// closed subpath.
pub open spec fn segment_ends(path: PathModel, index: int) -> Option<(Anchor, Anchor)> {
    if 0 <= index < path.anchors.len() {
        if index + 1 < path.anchors.len() {
            Some((path.anchors[index], path.anchors[index + 1]))
        } else if path.closed {
            Some((path.anchors[index], path.anchors[0]))
        } else {
            None
        }
    } else {
        None
    }
}

/// The cubic leaving anchor `index`.
pub fn segment(subpath: &SubPath, index: usize) -> (curve: Option<CubicBez>)
    ensures
        match segment_ends(subpath@, index as int) {
            Some((from, to)) => curve == Some(cubic_through(
                from.pos,
                offset_of(from.pos, from.out_handle),
                offset_of(to.pos, to.in_handle),
                to.pos,
            )),
            None => curve is None,
        },
{
    let count = subpath.anchors.len();
    if index >= count {
        return None;
    }
    let from = &subpath.anchors[index];
    let to = if index + 1 < count {
        &subpath.anchors[index + 1]
    } else if subpath.closed {
        &subpath.anchors[0]
    } else {
        return None;
    };
    Some(cubic(from.pos, offset(from.pos, from.out_handle), offset(to.pos, to.in_handle), to.pos))
}

/// An anchor as it is met going the other way: the handle that led into it
/// now leads out, and the other way round.
pub open spec fn turned(anchor: Anchor) -> Anchor {
    Anchor { in_handle: anchor.out_handle, out_handle: anchor.in_handle, ..anchor }
}

/// The same outline traced the other way round.
pub open spec fn reversed(path: PathModel) -> PathModel {
    PathModel {
        anchors: Seq::new(path.anchors.len(), |i: int| turned(path.anchors[path.anchors.len() - 1 - i])),
        closed: path.closed,
    }
}

/// The same subpath traced the other way round: the anchors in reverse, each
/// with its handles swapped, which is what makes the reversal geometric rather
/// than just an ordering.
pub fn reverse(subpath: &SubPath) -> (backwards: SubPath)
    ensures
        backwards@ == reversed(subpath@),
{
    let count = subpath.anchors.len();
    let mut anchors: Vec<Anchor> = Vec::new();
    let mut taken: usize = 0;
    while taken < count
        invariant
            0 <= taken <= count,
            count == subpath.anchors@.len(),
            anchors@ =~= Seq::new(taken as nat, |i: int| turned(subpath.anchors@[count - 1 - i])),
        decreases count - taken,
    {
        let anchor = subpath.anchors[count - 1 - taken];
        anchors.push(Anchor { in_handle: anchor.out_handle, out_handle: anchor.in_handle, ..anchor });
        taken = taken + 1;
        assert(anchors@ =~= Seq::new(taken as nat, |i: int| turned(subpath.anchors@[count - 1 - i])));
    }
    SubPath { anchors, closed: subpath.closed }
}

/// Whether `alike` answered `yes` when asked if `first` and `second` are wound
/// the same way round.
pub open spec fn says_alike<F: Fn(&SubPath, &SubPath) -> bool>(alike: F, first: SubPath, second: SubPath, yes: bool) -> bool {
    alike.ensures((&first, &second), yes)
}

/// `hole` wound against `outer`, so the two signed areas subtract instead of
/// adding: whichever way round it was traced, it takes area away. Which way
/// each is wound is a matter of floating point, so `alike` says whether the
/// two are wound the same way; when they are, the hole is reversed.
pub fn as_hole<F: Fn(&SubPath, &SubPath) -> bool>(outer: &SubPath, hole: SubPath, alike: &F) -> (wound: SubPath)
    requires
        forall|first: &SubPath, second: &SubPath| alike.requires((first, second)),
    ensures
        (says_alike(*alike, *outer, hole, true) && wound@ == reversed(hole@))
            || (says_alike(*alike, *outer, hole, false) && wound == hole),
{
    if alike(outer, &hole) {
        reverse(&hole)
    } else {
        hole
    }
}

/// Tracing an outline backwards twice gives back the outline as it was.
pub proof fn reversing_twice_changes_nothing(path: PathModel)
    ensures
        reversed(reversed(path)) == path,
{
    assert(reversed(reversed(path)).anchors =~= path.anchors);
}

/// Reversing keeps every segment: the outline backwards has as many as the
/// outline itself.
pub proof fn reversing_keeps_the_segment_count(path: PathModel)
    ensures
        segments(reversed(path)) == segments(path),
{
}

} // verus!
