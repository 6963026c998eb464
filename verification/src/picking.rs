//! What a click lands on, taken whole: a hole if it is in one, otherwise the
//! area itself. Whether a point is on or in an outline is a question of
//! floating point, so it is asked of the caller, and what is decided here is
//! which outline, and which area, the answers add up to.

use vstd::prelude::*;

use crate::doc::{Measurement, Outline, SubPath};

verus! {

/// Whether `lands` answered `yes` when asked about `path`.
pub open spec fn says<F: Fn(&SubPath) -> bool>(lands: F, path: SubPath, yes: bool) -> bool {
    lands.ensures((&path,), yes)
}

/// Whether every hole of `measurement` before `count` was passed by.
pub open spec fn holes_passed<F: Fn(&SubPath) -> bool>(lands: F, measurement: Measurement, count: int) -> bool {
    forall|k: int| 0 <= k < count ==> says(lands, #[trigger] measurement.holes@[k], false)
}

/// What a click on `measurement` reads as, by what `lands` said of its
/// outlines: the first hole it lands in, or else the area itself, or nothing.
/// Holes come first because a point inside one is inside the outline too,
/// and the hole is the smaller, more particular thing to have meant.
pub open spec fn reads_as<F: Fn(&SubPath) -> bool>(lands: F, measurement: Measurement, found: Option<Outline>) -> bool {
    match found {
        Some(Outline::Hole(hole)) => {
            &&& hole < measurement.holes@.len()
            &&& says(lands, measurement.holes@[hole as int], true)
            &&& holes_passed(lands, measurement, hole as int)
        },
        Some(Outline::Outer) => {
            &&& holes_passed(lands, measurement, measurement.holes@.len() as int)
            &&& says(lands, measurement.outer, true)
        },
        None => {
            &&& holes_passed(lands, measurement, measurement.holes@.len() as int)
            &&& says(lands, measurement.outer, false)
        },
    }
}

/// Whether `found` is what a click reads as among `measurements`: later
/// measurements are drawn over earlier ones, so the last visible one it lands
/// on is the one it means, and a hidden one is not there to be clicked.
pub open spec fn topmost<F: Fn(&SubPath) -> bool>(
    lands: F,
    measurements: Seq<Measurement>,
    found: Option<(usize, Outline)>,
) -> bool {
    let above = match found {
        Some((index, _)) => index as int,
        None => -1,
    };
    &&& found matches Some((index, which)) ==> {
        &&& index < measurements.len()
        &&& measurements[index as int].visible
        &&& reads_as(lands, measurements[index as int], Some(which))
    }
    &&& forall|later: int| above < later < measurements.len() && (#[trigger] measurements[later]).visible
        ==> reads_as(lands, measurements[later], None)
}

/// Which outline of `measurement` a click reads as.
pub fn shape_of<F: Fn(&SubPath) -> bool>(measurement: &Measurement, lands: &F) -> (found: Option<Outline>)
    requires
        forall|path: &SubPath| lands.requires((path,)),
    ensures
        reads_as(*lands, *measurement, found),
{
    let mut hole: usize = 0;
    while hole < measurement.holes.len()
        invariant
            0 <= hole <= measurement.holes@.len(),
            forall|path: &SubPath| lands.requires((path,)),
            holes_passed(*lands, *measurement, hole as int),
        decreases measurement.holes@.len() - hole,
    {
        if lands(&measurement.holes[hole]) {
            return Some(Outline::Hole(hole));
        }
        hole = hole + 1;
    }
    if lands(&measurement.outer) {
        Some(Outline::Outer)
    } else {
        None
    }
}

/// What a click reads as on a page of `measurements`: the outline it lands
/// on of the last visible measurement it lands on at all.
pub fn shape_at<F: Fn(&SubPath) -> bool>(measurements: &Vec<Measurement>, lands: &F) -> (found: Option<(usize, Outline)>)
    requires
        forall|path: &SubPath| lands.requires((path,)),
    ensures
        topmost(*lands, measurements@, found),
{
    let mut remaining: usize = measurements.len();
    while remaining > 0
        invariant
            0 <= remaining <= measurements@.len(),
            forall|path: &SubPath| lands.requires((path,)),
            forall|later: int| remaining <= later < measurements@.len() && (#[trigger] measurements@[later]).visible
                ==> reads_as(*lands, measurements@[later], None),
        decreases remaining,
    {
        let index = remaining - 1;
        let measurement = &measurements[index];
        if measurement.visible {
            if let Some(which) = shape_of(measurement, lands) {
                return Some((index, which));
            }
        }
        remaining = index;
    }
    None
}

/// The area a click lands on when it is not the one in hand: what an anchor
/// tool takes up instead of editing the one it holds at arm's length. There
/// is none when nothing is in hand, since every area is within reach then;
/// when the click still lands on the area in hand, since it belongs to that
/// one even where another overlaps it; and when it lands on nothing else.
pub fn elsewhere<F: Fn(&SubPath) -> bool>(
    in_hand: Option<(usize, Outline)>,
    measurements: &Vec<Measurement>,
    lands: &F,
) -> (found: Option<(usize, Outline)>)
    requires
        forall|path: &SubPath| lands.requires((path,)),
    ensures
        match in_hand {
            None => found is None,
            Some((held, _)) => {
                ||| {
                    &&& held < measurements@.len()
                    &&& exists|which: Outline| reads_as(*lands, measurements@[held as int], Some(which))
                    &&& found is None
                }
                ||| {
                    &&& (held < measurements@.len() ==> reads_as(*lands, measurements@[held as int], None))
                    &&& exists|top: Option<(usize, Outline)>| {
                        &&& #[trigger] topmost(*lands, measurements@, top)
                        &&& found == match top {
                            Some((index, which)) => if index == held { None } else { Some((index, which)) },
                            None => None,
                        }
                    }
                }
            },
        },
{
    let Some((held, _)) = in_hand else {
        return None;
    };
    if held < measurements.len() {
        if let Some(_) = shape_of(&measurements[held], lands) {
            return None;
        }
    }
    let top = shape_at(measurements, lands);
    match top {
        Some((index, which)) => if index == held { None } else { Some((index, which)) },
        None => None,
    }
}

} // verus!
