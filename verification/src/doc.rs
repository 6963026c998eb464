//! What the user builds on top of a drawing: the outlines traced on it, the
//! areas they bound, and the sheets the work is filed under.

use vstd::prelude::*;
use vstd::string::StringExecFns;
use kurbo::{Point, Vec2};

use crate::plane::{offset, offset_of, vanishes, zero};

verus! {

/// The digit `d` stands for.
pub open spec fn digit(d: nat) -> char {
    (48 + d) as char
}

/// `n` written out in decimal, most significant digit first and with no
/// leading zeros, which is how `Display` writes an unsigned integer.
pub open spec fn decimal(n: nat) -> Seq<char>
    decreases n,
{
    if n < 10 {
        seq![digit(n)]
    } else {
        decimal(n / 10).push(digit(n % 10))
    }
}

/// The numeral for the digit `d`.
fn numeral(d: usize) -> (text: &'static str)
    requires
        d < 10,
    ensures
        text@ == seq![digit(d as nat)],
{
    match d {
        0 => {
            proof {
                reveal_strlit("0");
            }
            "0"
        },
        1 => {
            proof {
                reveal_strlit("1");
            }
            "1"
        },
        2 => {
            proof {
                reveal_strlit("2");
            }
            "2"
        },
        3 => {
            proof {
                reveal_strlit("3");
            }
            "3"
        },
        4 => {
            proof {
                reveal_strlit("4");
            }
            "4"
        },
        5 => {
            proof {
                reveal_strlit("5");
            }
            "5"
        },
        6 => {
            proof {
                reveal_strlit("6");
            }
            "6"
        },
        7 => {
            proof {
                reveal_strlit("7");
            }
            "7"
        },
        8 => {
            proof {
                reveal_strlit("8");
            }
            "8"
        },
        _ => {
            proof {
                reveal_strlit("9");
            }
            "9"
        },
    }
}

/// `number` written out in decimal.
fn decimal_text(number: usize) -> (text: String)
    ensures
        text@ == decimal(number as nat),
    decreases number,
{
    if number < 10 {
        String::from_str(numeral(number))
    } else {
        let mut text = decimal_text(number / 10);
        text.append(numeral(number % 10));
        text
    }
}

/// `head` and then `number` in decimal after it.
pub(crate) fn numbered(head: &str, number: usize) -> (text: String)
    ensures
        text@ == head@ + decimal(number as nat),
{
    let mut text = String::from_str(head);
    let digits = decimal_text(number);
    text.append(digits.as_str());
    text
}

/// How an anchor's two handles relate to each other.
#[derive(Clone, Copy, Debug, PartialEq, Eq, Structural)]
pub enum AnchorKind {
    Corner,
    Smooth,
    Asymmetric,
}

/// A point on a path, with the handles that shape the curve either side of it.
#[derive(Clone, Copy, Debug)]
pub struct Anchor {
    /// Page space.
    pub pos: Point,
    /// Relative to `pos`.
    pub in_handle: Vec2,
    /// Relative to `pos`.
    pub out_handle: Vec2,
    pub kind: AnchorKind,
}

impl Anchor {
    /// Whether this is a corner in the sense `corner` makes one: both handles
    /// collapsed onto the point, which leaves the edges either side straight.
    pub open spec fn is_plain_corner(self) -> bool {
        &&& self.kind == AnchorKind::Corner
        &&& vanishes(self.in_handle)
        &&& vanishes(self.out_handle)
    }

    /// A corner at `pos`.
    pub fn corner(pos: Point) -> (anchor: Self)
        ensures
            anchor.pos == pos,
            anchor.is_plain_corner(),
    {
        Self { pos, in_handle: zero(), out_handle: zero(), kind: AnchorKind::Corner }
    }

    /// The same anchor carried by `by`: its handles are held relative to it,
    /// so they go with it unchanged.
    pub open spec fn moved(self, by: Vec2) -> Anchor {
        Anchor { pos: offset_of(self.pos, by), ..self }
    }
}

/// An outline: its anchors in the order they were placed, and whether the
/// last runs back to the first.
#[derive(Clone, Debug)]
pub struct SubPath {
    pub anchors: Vec<Anchor>,
    pub closed: bool,
}

/// What a subpath is, as a value: the anchors in order, and whether it closes.
pub struct PathModel {
    pub anchors: Seq<Anchor>,
    pub closed: bool,
}

impl PathModel {
    /// The same outline with anchor `at` replaced by `anchor`.
    pub open spec fn with_anchor(self, at: int, anchor: Anchor) -> PathModel {
        PathModel { anchors: self.anchors.update(at, anchor), ..self }
    }
}

impl View for SubPath {
    type V = PathModel;

    open spec fn view(&self) -> PathModel {
        PathModel { anchors: self.anchors@, closed: self.closed }
    }
}

impl SubPath {
    /// An open subpath with nothing on it.
    pub fn new() -> (subpath: Self)
        ensures
            subpath.anchors@.len() == 0,
            !subpath.closed,
    {
        SubPath { anchors: Vec::new(), closed: false }
    }

    /// `self` carried bodily by `by`.
    pub open spec fn is_moved_from(self, before: SubPath, by: Vec2) -> bool {
        &&& self.closed == before.closed
        &&& self.anchors@ == before.anchors@.map_values(|anchor: Anchor| anchor.moved(by))
    }

    /// Carries every anchor by `by`.
    pub fn translate(&mut self, by: Vec2)
        ensures
            final(self).is_moved_from(*old(self), by),
    {
        let count = self.anchors.len();
        let mut index: usize = 0;
        while index < count
            invariant
                0 <= index <= count,
                count == old(self).anchors@.len(),
                self.anchors@.len() == count,
                self.closed == old(self).closed,
                forall|i: int| 0 <= i < index ==> self.anchors@[i] == #[trigger] old(self).anchors@[i].moved(by),
                forall|i: int| index <= i < count ==> self.anchors@[i] == old(self).anchors@[i],
            decreases count - index,
        {
            let anchor = self.anchors[index];
            self.anchors.set(index, Anchor { pos: offset(anchor.pos, by), ..anchor });
            index = index + 1;
        }
        assert(self.anchors@ =~= old(self).anchors@.map_values(|anchor: Anchor| anchor.moved(by)));
    }
}

impl Default for SubPath {
    fn default() -> (subpath: Self)
        ensures
            subpath.anchors@.len() == 0,
            !subpath.closed,
    {
        SubPath::new()
    }
}

/// Which outline of a measurement: the one round the outside, or one of the
/// holes punched in it.
#[derive(Clone, Copy, Debug, PartialEq, Eq, Structural)]
pub enum Outline {
    Outer,
    Hole(usize),
}

/// A named area on a page: an outline, and the holes punched in it.
#[derive(Clone, Debug)]
pub struct Measurement {
    pub name: String,
    pub outer: SubPath,
    pub holes: Vec<SubPath>,
    /// Red, green, blue and alpha, premultiplied.
    pub colour: [u8; 4],
    pub visible: bool,
}

/// What a measurement is, as a value.
pub struct MeasurementModel {
    pub name: Seq<char>,
    pub outer: PathModel,
    pub holes: Seq<PathModel>,
    pub colour: [u8; 4],
    pub visible: bool,
}

impl MeasurementModel {
    /// The outline `which` names, if there is one.
    pub open spec fn outline(self, which: Outline) -> Option<PathModel> {
        match which {
            Outline::Outer => Some(self.outer),
            Outline::Hole(index) => if index < self.holes.len() {
                Some(self.holes[index as int])
            } else {
                None
            },
        }
    }

    /// The same measurement with outline `which` replaced by `path`.
    pub open spec fn with_outline(self, which: Outline, path: PathModel) -> MeasurementModel {
        match which {
            Outline::Outer => MeasurementModel { outer: path, ..self },
            Outline::Hole(index) => MeasurementModel {
                holes: self.holes.update(index as int, path),
                ..self
            },
        }
    }
}

impl View for Measurement {
    type V = MeasurementModel;

    open spec fn view(&self) -> MeasurementModel {
        MeasurementModel {
            name: self.name@,
            outer: self.outer@,
            holes: self.holes@.map_values(|hole: SubPath| hole@),
            colour: self.colour,
            visible: self.visible,
        }
    }
}

/// What a page's measurements are, as values.
pub open spec fn models(measurements: Seq<Measurement>) -> Seq<MeasurementModel> {
    measurements.map_values(|measurement: Measurement| measurement@)
}

impl Measurement {
    pub fn outline(&self, which: Outline) -> (found: Option<&SubPath>)
        ensures
            found matches Some(path) ==> self@.outline(which) == Some(path@),
            found is None ==> self@.outline(which) is None,
    {
        match which {
            Outline::Outer => Some(&self.outer),
            Outline::Hole(index) => if index < self.holes.len() {
                Some(&self.holes[index])
            } else {
                None
            },
        }
    }

    /// Every outline in turn, outer first, each with the way to address it.
    pub fn outlines(&self) -> (all: Vec<(Outline, &SubPath)>)
        ensures
            all@.len() == self.holes@.len() + 1,
            all@[0].0 == Outline::Outer,
            all@[0].1@ == self.outer@,
            forall|i: int| 0 <= i < self.holes@.len() ==> {
                &&& (#[trigger] all@[i + 1]).0 == Outline::Hole(i as usize)
                &&& all@[i + 1].1@ == self.holes@[i]@
            },
    {
        let mut all: Vec<(Outline, &SubPath)> = Vec::new();
        all.push((Outline::Outer, &self.outer));
        let mut index: usize = 0;
        while index < self.holes.len()
            invariant
                0 <= index <= self.holes@.len(),
                all@.len() == index + 1,
                all@[0].0 == Outline::Outer,
                all@[0].1@ == self.outer@,
                forall|i: int| 0 <= i < index ==> {
                    &&& (#[trigger] all@[i + 1]).0 == Outline::Hole(i as usize)
                    &&& all@[i + 1].1@ == self.holes@[i]@
                },
            decreases self.holes@.len() - index,
        {
            all.push((Outline::Hole(index), &self.holes[index]));
            index = index + 1;
        }
        all
    }

    /// Moves the whole measurement, outline and holes together. Handles are
    /// held relative to their anchor, so only the anchors move.
    pub fn translate(&mut self, by: Vec2)
        ensures
            final(self)@.name == old(self)@.name,
            final(self)@.colour == old(self)@.colour,
            final(self)@.visible == old(self)@.visible,
            final(self).outer.is_moved_from(old(self).outer, by),
            final(self).holes@.len() == old(self).holes@.len(),
            forall|i: int| 0 <= i < old(self).holes@.len() ==>
                (#[trigger] final(self).holes@[i]).is_moved_from(old(self).holes@[i], by),
    {
        self.outer.translate(by);
        let count = self.holes.len();
        let mut index: usize = 0;
        while index < count
            invariant
                0 <= index <= count,
                count == old(self).holes@.len(),
                self.holes@.len() == count,
                self.name == old(self).name,
                self.colour == old(self).colour,
                self.visible == old(self).visible,
                self.outer.is_moved_from(old(self).outer, by),
                forall|i: int| 0 <= i < index ==>
                    (#[trigger] self.holes@[i]).is_moved_from(old(self).holes@[i], by),
                forall|i: int| index <= i < count ==> self.holes@[i] == old(self).holes@[i],
            decreases count - index,
        {
            self.holes[index].translate(by);
            index = index + 1;
        }
    }
}

} // verus!
