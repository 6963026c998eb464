//! The unit a real distance is given in, and the sheets the work is filed
//! under: which of them carry anything, in what order, and which one the site
//! is measured from.

use vstd::prelude::*;

verus! {

/// The unit a real-world distance was given in.
#[derive(Clone, Copy, Debug, PartialEq, Eq, Structural)]
pub enum Unit {
    Millimetres,
    Centimetres,
    Metres,
    Inches,
    Feet,
}

impl Unit {
    /// Every unit that can be picked, in the order they are offered.
    pub const ALL: [Unit; 5] = [Unit::Millimetres, Unit::Centimetres, Unit::Metres, Unit::Inches, Unit::Feet];

    /// Whether the unit belongs to the metric system.
    pub open spec fn metric(self) -> bool {
        self is Millimetres || self is Centimetres || self is Metres
    }

    /// Metric units read naturally in square metres, imperial ones in square
    /// feet, which is the only thing this distinction is for.
    pub fn is_metric(self) -> (metric: bool)
        ensures
            metric == self.metric(),
    {
        matches!(self, Unit::Millimetres | Unit::Centimetres | Unit::Metres)
    }

    /// The unit's symbol.
    pub open spec fn symbol(self) -> Seq<char> {
        match self {
            Unit::Millimetres => "mm"@,
            Unit::Centimetres => "cm"@,
            Unit::Metres => "m"@,
            Unit::Inches => "in"@,
            Unit::Feet => "ft"@,
        }
    }

    pub fn label(self) -> (label: &'static str)
        ensures
            label@ == self.symbol(),
    {
        match self {
            Unit::Millimetres => "mm",
            Unit::Centimetres => "cm",
            Unit::Metres => "m",
            Unit::Inches => "in",
            Unit::Feet => "ft",
        }
    }
}

/// Which sheet: a page of one of the project's drawings.
///
/// Everything the user builds is filed under one of these. A drawing is
/// referred to by its place in the project's list, so moving the file it came
/// from changes nothing but where the file is looked for.
#[derive(Clone, Copy, Debug, Default, PartialEq, Eq, Hash, PartialOrd, Ord, Structural)]
pub struct Sheet {
    pub drawing: usize,
    pub page: usize,
}

impl Sheet {
    pub fn new(drawing: usize, page: usize) -> (sheet: Self)
        ensures
            sheet.drawing == drawing,
            sheet.page == page,
    {
        Self { drawing, page }
    }

    /// Sheet order: by drawing, then by page.
    pub open spec fn before(self, other: Sheet) -> bool {
        self.drawing < other.drawing || (self.drawing == other.drawing && self.page < other.page)
    }

    /// Whether `self` comes before `other` in sheet order.
    pub fn precedes(&self, other: &Sheet) -> (earlier: bool)
        ensures
            earlier == self.before(*other),
    {
        self.drawing < other.drawing || (self.drawing == other.drawing && self.page < other.page)
    }
}

/// Whether `sheets` runs strictly up the sheet order, so that no sheet is in
/// it twice.
pub open spec fn ascending(sheets: Seq<Sheet>) -> bool {
    forall|i: int, j: int| 0 <= i < j < sheets.len() ==> (#[trigger] sheets[i]).before(#[trigger] sheets[j])
}

/// Puts `sheet` into its place in an ascending list, unless it is there.
fn file(sheets: &mut Vec<Sheet>, sheet: Sheet)
    requires
        ascending(old(sheets)@),
    ensures
        ascending(final(sheets)@),
        final(sheets)@.to_set() == old(sheets)@.to_set().insert(sheet),
{
    let mut at: usize = 0;
    while at < sheets.len() && sheets[at].precedes(&sheet)
        invariant
            0 <= at <= sheets@.len(),
            sheets@ == old(sheets)@,
            ascending(sheets@),
            forall|i: int| 0 <= i < at ==> (#[trigger] sheets@[i]).before(sheet),
        decreases sheets@.len() - at,
    {
        at = at + 1;
    }
    if at < sheets.len() && sheets[at] == sheet {
        assert(sheets@.to_set() =~= old(sheets)@.to_set().insert(sheet)) by {
            assert(sheets@.contains(sheet));
        }
        return;
    }
    sheets.insert(at, sheet);
    assert(sheets@.to_set() =~= old(sheets)@.to_set().insert(sheet)) by {
        assert forall|s: Sheet| #[trigger] sheets@.contains(s) implies old(sheets)@.contains(s) || s == sheet by {
            let i = choose|i: int| 0 <= i < sheets@.len() && sheets@[i] == s;
            if i < at {
                assert(old(sheets)@[i] == s);
            } else if i > at {
                assert(old(sheets)@[i - 1] == s);
            }
        }
        assert forall|s: Sheet| #[trigger] old(sheets)@.contains(s) implies sheets@.contains(s) by {
            let i = choose|i: int| 0 <= i < old(sheets)@.len() && old(sheets)@[i] == s;
            if i < at {
                assert(sheets@[i] == s);
            } else {
                assert(sheets@[i + 1] == s);
            }
        }
        assert(sheets@[at as int] == sheet);
    }
}

/// Every sheet of `more` filed into `sheets`.
fn file_all(sheets: &mut Vec<Sheet>, more: &Vec<Sheet>)
    requires
        ascending(old(sheets)@),
    ensures
        ascending(final(sheets)@),
        final(sheets)@.to_set() == old(sheets)@.to_set() + more@.to_set(),
{
    let mut index: usize = 0;
    while index < more.len()
        invariant
            0 <= index <= more@.len(),
            ascending(sheets@),
            sheets@.to_set() == old(sheets)@.to_set() + more@.subrange(0, index as int).to_set(),
        decreases more@.len() - index,
    {
        file(sheets, more[index]);
        index = index + 1;
        assert(more@.subrange(0, index as int).to_set() =~= more@.subrange(0, index - 1).to_set().insert(more@[index - 1])) by {
            assert(more@.subrange(0, index as int) =~= more@.subrange(0, index - 1).push(more@[index - 1]));
            more@.subrange(0, index - 1).lemma_push_to_set_commute(more@[index - 1]);
        }
        assert(sheets@.to_set() =~= old(sheets)@.to_set() + more@.subrange(0, index as int).to_set());
    }
    assert(more@.subrange(0, more@.len() as int) =~= more@);
}

/// The sheets of `entries` that carry anything, in the order given: each
/// entry is a sheet and how much is on it.
pub open spec fn carrying(entries: Seq<(Sheet, usize)>) -> Seq<Sheet>
    decreases entries.len(),
{
    if entries.len() == 0 {
        Seq::empty()
    } else if entries.last().1 > 0 {
        carrying(entries.drop_last()).push(entries.last().0)
    } else {
        carrying(entries.drop_last())
    }
}

/// The sheets that have something on them, of those `entries` names with
/// how much is on each: a sheet with an empty list of measurements is not
/// worked.
pub fn with_work(entries: &Vec<(Sheet, usize)>) -> (sheets: Vec<Sheet>)
    ensures
        sheets@ == carrying(entries@),
{
    let mut sheets: Vec<Sheet> = Vec::new();
    let mut index: usize = 0;
    while index < entries.len()
        invariant
            0 <= index <= entries@.len(),
            sheets@ == carrying(entries@.take(index as int)),
        decreases entries@.len() - index,
    {
        let (sheet, count) = entries[index];
        assert(entries@.take(index + 1).drop_last() =~= entries@.take(index as int));
        if count > 0 {
            sheets.push(sheet);
        }
        index = index + 1;
    }
    assert(entries@.take(entries@.len() as int) =~= entries@);
    sheets
}

/// Every sheet with anything on it, in order: the ones calibrated, the ones
/// placed and the ones measured on, each once. In order so that two saves of
/// the same work give the same file and an export reads down the sheets.
pub fn worked(calibrated: &Vec<Sheet>, placed: &Vec<Sheet>, measured: &Vec<Sheet>) -> (sheets: Vec<Sheet>)
    ensures
        ascending(sheets@),
        sheets@.to_set() == calibrated@.to_set() + placed@.to_set() + measured@.to_set(),
{
    let mut sheets: Vec<Sheet> = Vec::new();
    assert(sheets@.to_set() =~= Set::empty());
    file_all(&mut sheets, calibrated);
    file_all(&mut sheets, placed);
    file_all(&mut sheets, measured);
    assert(sheets@.to_set() =~= calibrated@.to_set() + placed@.to_set() + measured@.to_set());
    sheets
}

/// The sheet whose calibration establishes the site: the first one
/// calibrated, in sheet order.
pub fn site_sheet(calibrated: &Vec<Sheet>) -> (first: Option<Sheet>)
    ensures
        first is None <==> calibrated@.len() == 0,
        first matches Some(first) ==> calibrated@.contains(first)
            && forall|i: int| 0 <= i < calibrated@.len() ==> !(#[trigger] calibrated@[i]).before(first),
{
    if calibrated.len() == 0 {
        return None;
    }
    let mut first = calibrated[0];
    let mut index: usize = 1;
    while index < calibrated.len()
        invariant
            1 <= index <= calibrated@.len(),
            calibrated@.contains(first),
            forall|i: int| 0 <= i < index ==> !(#[trigger] calibrated@[i]).before(first),
        decreases calibrated@.len() - index,
    {
        if calibrated[index].precedes(&first) {
            first = calibrated[index];
        }
        index = index + 1;
    }
    Some(first)
}

/// Two ascending lists holding the same sheets are the same list.
proof fn ascending_lists_agree(a: Seq<Sheet>, b: Seq<Sheet>)
    requires
        ascending(a),
        ascending(b),
        a.to_set() == b.to_set(),
    ensures
        a == b,
    decreases a.len(),
{
    if a.len() == 0 {
        if b.len() > 0 {
            assert(b.to_set().contains(b[0]));
        }
        assert(b.len() == 0);
    } else {
        assert(b.len() > 0) by {
            assert(a.to_set().contains(a[0]));
        }
        // The least sheet of either list is the first of each.
        assert(a[0] == b[0]) by {
            assert(b.to_set().contains(a[0]));
            assert(a.to_set().contains(b[0]));
            let i = choose|i: int| 0 <= i < b.len() && b[i] == a[0];
            let j = choose|j: int| 0 <= j < a.len() && a[j] == b[0];
            if i > 0 && j > 0 {
                assert(b[0].before(b[i]));
                assert(a[0].before(a[j]));
            }
        }
        let (ra, rb) = (a.drop_first(), b.drop_first());
        assert(ra.to_set() == rb.to_set()) by {
            assert forall|s: Sheet| ra.to_set().contains(s) implies rb.to_set().contains(s) by {
                let i = choose|i: int| 0 <= i < ra.len() && ra[i] == s;
                assert(a[0].before(a[i + 1]));
                assert(b.to_set().contains(s));
                let j = choose|j: int| 0 <= j < b.len() && b[j] == s;
                assert(j != 0);
                assert(rb[j - 1] == s);
            }
            assert forall|s: Sheet| rb.to_set().contains(s) implies ra.to_set().contains(s) by {
                let i = choose|i: int| 0 <= i < rb.len() && rb[i] == s;
                assert(b[0].before(b[i + 1]));
                assert(a.to_set().contains(s));
                let j = choose|j: int| 0 <= j < a.len() && a[j] == s;
                assert(j != 0);
                assert(ra[j - 1] == s);
            }
            assert(ra.to_set() =~= rb.to_set());
        }
        ascending_lists_agree(ra, rb);
        assert(a =~= b) by {
            assert forall|i: int| 0 <= i < a.len() implies a[i] == b[i] by {
                if i > 0 {
                    assert(a[i] == ra[i - 1]);
                    assert(b[i] == rb[i - 1]);
                }
            }
        }
    }
}

/// Which sheets are worked depends only on which sheets carry a calibration,
/// a placement or a measurement, never on the order they were found in: the
/// same work always lists the same sheets in the same order.
pub proof fn the_same_work_lists_the_same_sheets(
    first: Seq<Sheet>,
    second: Seq<Sheet>,
    calibrated: Set<Sheet>,
    placed: Set<Sheet>,
    measured: Set<Sheet>,
)
    requires
        ascending(first),
        ascending(second),
        first.to_set() == calibrated + placed + measured,
        second.to_set() == calibrated + placed + measured,
    ensures
        first == second,
{
    ascending_lists_agree(first, second);
}

} // verus!
