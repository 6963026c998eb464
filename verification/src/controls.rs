//! What the keyboard and the tool strip decide: which tool is in hand and the
//! state that belongs to it, which key means what, what the window says the
//! tool is waiting for, and what the tools may show.

use vstd::prelude::*;
use kurbo::Point;

use crate::doc::{decimal, numbered, Measurement, Outline, SubPath};
use crate::geom::{as_hole, reversed, says_alike};
use crate::tools::{Editor, Grab, Pen, Selection};

verus! {

/// The tools, one of which is always the one in hand. The names and keys
/// follow the drawing applications this is meant to sit beside.
#[derive(Clone, Copy, Debug, Default, PartialEq, Eq, Structural)]
pub enum Tool {
    /// `V`: a whole measurement at a time.
    #[default]
    Select,
    /// `A`: the anchors and handles within one.
    DirectSelect,
    /// `P`: placing anchors to trace an outline.
    Pen,
    /// `Shift+C`: flipping an anchor between a corner and a smooth point.
    AnchorPoint,
    /// `+`: adding an anchor to a segment.
    AddAnchor,
    /// `-`: taking an anchor away.
    DeleteAnchor,
    /// `u`: setting the page scale, once per drawing.
    Calibrate,
}

impl Tool {
    pub open spec fn anchor_tool(self) -> bool {
        self is DirectSelect || self is AnchorPoint || self is AddAnchor || self is DeleteAnchor
    }

    /// Whether this tool works on the anchors of an outline, which is what
    /// decides if the editor's hit-testing and its handles are in play.
    pub fn edits_anchors(self) -> (edits: bool)
        ensures
            edits == self.anchor_tool(),
    {
        matches!(self, Tool::DirectSelect | Tool::AnchorPoint | Tool::AddAnchor | Tool::DeleteAnchor)
    }
}

/// The precision aids, which are toggles rather than tools.
#[derive(Clone, Copy, Debug)]
pub struct Assist {
    pub snap: bool,
    pub magnifier: bool,
}

impl Default for Assist {
    /// Both aids start on.
    fn default() -> (assist: Self)
        ensures
            assist.snap,
            assist.magnifier,
    {
        Self { snap: true, magnifier: true }
    }
}

/// Whose anchors are worth showing.
#[derive(Clone, Copy, Debug, PartialEq, Eq, Structural)]
pub enum Showing {
    Every,
    /// Every outline of one area: what an anchor tool can reach while it has
    /// that area in hand.
    OneArea(usize),
    /// One outline of one area: what the selection tool has hold of.
    JustOne(usize, Outline),
}

impl Showing {
    pub open spec fn shows(self, measurement: usize, outline: Outline) -> bool {
        match self {
            Showing::Every => true,
            Showing::OneArea(index) => index == measurement,
            Showing::JustOne(index, which) => index == measurement && which == outline,
        }
    }

    pub fn includes(&self, measurement: usize, outline: Outline) -> (shown: bool)
        ensures
            shown == self.shows(measurement, outline),
    {
        match self {
            Showing::Every => true,
            Showing::OneArea(index) => *index == measurement,
            Showing::JustOne(index, which) => *index == measurement && *which == outline,
        }
    }
}

/// How far through picking the two ends of a known distance we are.
#[derive(Clone, Copy, Debug)]
pub enum Pick {
    First,
    Second { from: Point },
}

/// What a confirmation is standing in the way of: putting the drawing down,
/// or shutting the window on it.
#[derive(Clone, Copy, Debug, PartialEq, Eq, Structural)]
pub enum Closing {
    Project,
    Window,
}

impl Closing {
    /// Whether this closing has to wait on an answer first: it does while the
    /// work has `unsaved` changes, so that none is thrown away unasked. The
    /// window asks only once: having been given leave to shut, `may_close`,
    /// it shuts.
    pub fn must_ask(self, unsaved: bool, may_close: bool) -> (ask: bool)
        ensures
            ask == match self {
                Closing::Project => unsaved,
                Closing::Window => unsaved && !may_close,
            },
    {
        match self {
            Closing::Project => unsaved,
            Closing::Window => unsaved && !may_close,
        }
    }
}

/// What a click with an anchor tool asks to be done to the outlines.
#[derive(Clone, Copy, Debug, PartialEq, Eq, Structural)]
pub enum Edit {
    Nothing,
    /// Flip this anchor between a corner and a smooth point.
    Toggle(Selection),
    /// Take this anchor away.
    Delete(Selection),
    /// Add an anchor where the click fell on an edge.
    Insert,
}

/// Where a placement is aimed from, before any floating point is done.
#[derive(Clone, Copy, Debug)]
pub enum Aim {
    /// Held square to one axis from this point.
    Hold(Point),
    /// Pulled onto a nearby anchor, if one is in reach.
    Snap,
    /// Where the hand put it.
    Free,
}

/// How a placement is aimed. Shift holds it to one axis from `from`, the
/// anchor it runs from, when there is one; otherwise it is pulled onto a
/// nearby anchor when `snapping` is on. The two would fight each other, so
/// Shift wins.
pub fn aiming(shift: bool, from: Option<Point>, snapping: bool) -> (aim: Aim)
    ensures
        aim == if shift && from is Some {
            Aim::Hold(from.unwrap())
        } else if snapping {
            Aim::Snap
        } else {
            Aim::Free
        },
{
    if shift {
        if let Some(from) = from {
            return Aim::Hold(from);
        }
    }
    if snapping {
        Aim::Snap
    } else {
        Aim::Free
    }
}

/// Keeps a rename to one step of the history rather than one per keystroke.
/// Given the measurement whose name is being typed, `renaming`, and what the
/// name field of measurement `index` did this frame (its text was `edited`,
/// its focus `left`), says whether a step is to be kept now, which is on the
/// first edit of a rename, and whose name is being typed afterwards.
pub fn rename_step(renaming: Option<usize>, index: usize, edited: bool, left: bool) -> (step: (bool, Option<usize>))
    ensures
        step.0 == (edited && renaming != Some(index)),
        step.1 == if left && (step.0 || renaming == Some(index)) {
            None
        } else if step.0 {
            Some(index)
        } else {
            renaming
        },
{
    let mut now = renaming;
    let mut keep = false;
    let same = match renaming {
        Some(at) => at == index,
        None => false,
    };
    if edited && !same {
        keep = true;
        now = Some(index);
    }
    if left && (keep || same) {
        now = None;
    }
    (keep, now)
}

/// The tool in hand, and the state belonging to it, and the area being worked
/// on.
#[derive(Default)]
pub struct Hand {
    pub tool: Tool,
    /// How far a span being calibrated has been picked.
    pub pick: Option<Pick>,
    /// Present while the pen is in hand.
    pub pen: Option<Pen>,
    /// The measurement a traced outline becomes a hole in, when the pen was
    /// armed to punch one rather than to trace a new area.
    pub pen_target: Option<usize>,
    /// Present while an anchor tool is in hand.
    pub editor: Option<Editor>,
    /// The area being worked on, by one of its outlines, whatever tool is in
    /// hand.
    pub in_hand: Option<(usize, Outline)>,
}

impl Hand {
    /// Takes up a tool, putting down whatever was in hand. Each tool's state
    /// starts fresh, so nothing half-done carries across. The area in hand
    /// stays in hand.
    pub fn take_up(&mut self, tool: Tool)
        ensures
            final(self).tool == tool,
            final(self).in_hand == old(self).in_hand,
            final(self).pen_target is None,
            match tool {
                Tool::Pen => final(self).pen matches Some(pen) && pen@.len() == 0,
                _ => final(self).pen is None,
            },
            match tool {
                Tool::Calibrate => final(self).pick matches Some(Pick::First),
                _ => final(self).pick is None,
            },
            if tool.anchor_tool() {
                final(self).editor matches Some(editor) && editor.selected is None && editor.grabbed is None
                    && editor.origin is None
            } else {
                final(self).editor is None
            },
    {
        self.pick = None;
        self.pen = None;
        self.pen_target = None;
        self.editor = None;
        self.tool = tool;

        match tool {
            Tool::Pen => self.pen = Some(Pen::new()),
            Tool::Calibrate => self.pick = Some(Pick::First),
            _ => if tool.edits_anchors() {
                self.editor = Some(Editor { selected: None, grabbed: None, origin: None });
            },
        }
    }

    /// Lets go of the anchor held within the area in hand, the area itself
    /// staying where it is.
    pub fn let_go_of_anchor(&mut self)
        ensures
            final(self).tool == old(self).tool,
            final(self).in_hand == old(self).in_hand,
            final(self).pen == old(self).pen,
            final(self).pen_target == old(self).pen_target,
            final(self).pick == old(self).pick,
            match old(self).editor {
                Some(editor) => final(self).editor matches Some(now) && now.selected is None
                    && now.grabbed is None && now.origin == editor.origin,
                None => final(self).editor is None,
            },
    {
        if let Some(editor) = &mut self.editor {
            editor.selected = None;
            editor.grabbed = None;
        }
    }

    /// Lets go of everything: the area in hand and any anchor within it.
    pub fn let_go(&mut self)
        ensures
            final(self).in_hand is None,
            final(self).tool == old(self).tool,
            final(self).pen == old(self).pen,
            final(self).pen_target == old(self).pen_target,
            final(self).pick == old(self).pick,
            old(self).editor is Some <==> final(self).editor is Some,
            final(self).editor matches Some(editor) ==> editor.selected is None && editor.grabbed is None,
            final(self).editor matches Some(editor) ==> editor.origin == old(self).editor.unwrap().origin,
    {
        self.in_hand = None;
        self.let_go_of_anchor();
    }

    /// Takes an area up: what the tools show and act on from here. Any anchor
    /// held in the last one goes with it.
    pub fn take_in_hand(&mut self, shape: (usize, Outline))
        ensures
            final(self).in_hand == Some(shape),
            final(self).tool == old(self).tool,
            final(self).pen == old(self).pen,
            final(self).pen_target == old(self).pen_target,
            final(self).pick == old(self).pick,
            old(self).editor is Some <==> final(self).editor is Some,
            final(self).editor matches Some(editor) ==> editor.selected is None && editor.grabbed is None,
            final(self).editor matches Some(editor) ==> editor.origin == old(self).editor.unwrap().origin,
    {
        self.in_hand = Some(shape);
        self.let_go_of_anchor();
    }

    /// Records a closed outline: as a hole in the measurement the pen was
    /// armed for, wound against it, or else as a new measurement on the page,
    /// named for its place in the list and drawn in `colour`. What was just
    /// traced is then what is in hand, so `h` punches a hole in it without a
    /// selection step in between. One press of `h`, one hole: the pen goes
    /// back to drawing new areas rather than quietly filling the same one
    /// with holes. `alike` says whether two outlines are wound the same way.
    pub fn add_outline<F: Fn(&SubPath, &SubPath) -> bool>(
        &mut self,
        measurements: &mut Vec<Measurement>,
        outline: SubPath,
        colour: [u8; 4],
        alike: &F,
    ) -> (traced: (usize, Outline))
        requires
            old(measurements)@.len() < usize::MAX,
            forall|first: &SubPath, second: &SubPath| alike.requires((first, second)),
        ensures
            match old(self).pen_target {
                Some(index) if index < old(measurements)@.len() => {
                    let before = old(measurements)@[index as int];
                    let after = final(measurements)@[index as int];
                    &&& traced == (index, Outline::Hole(before.holes@.len() as usize))
                    &&& final(self).pen_target is None
                    &&& final(measurements)@ == old(measurements)@.update(index as int, after)
                    &&& after.name == before.name
                    &&& after.outer == before.outer
                    &&& after.colour == before.colour
                    &&& after.visible == before.visible
                    &&& after.holes@.drop_last() == before.holes@
                    &&& after.holes@.len() == before.holes@.len() + 1
                    &&& {
                        ||| says_alike(*alike, before.outer, outline, true) && after.holes@.last()@ == reversed(outline@)
                        ||| says_alike(*alike, before.outer, outline, false) && after.holes@.last() == outline
                    }
                },
                _ => {
                    let added = final(measurements)@.last();
                    &&& traced == (old(measurements)@.len() as usize, Outline::Outer)
                    &&& final(self).pen_target == old(self).pen_target
                    &&& final(measurements)@.drop_last() == old(measurements)@
                    &&& final(measurements)@.len() == old(measurements)@.len() + 1
                    &&& added.name@ == "Area "@ + decimal(old(measurements)@.len() + 1)
                    &&& added.outer == outline
                    &&& added.holes@.len() == 0
                    &&& added.colour == colour
                    &&& added.visible
                },
            },
            final(self).in_hand == Some(traced),
            final(self).tool == old(self).tool,
            final(self).pen == old(self).pen,
            final(self).pick == old(self).pick,
            old(self).editor is Some <==> final(self).editor is Some,
            final(self).editor matches Some(editor) ==> editor.selected is None && editor.grabbed is None,
    {
        let traced = match self.pen_target {
            Some(index) if index < measurements.len() => {
                let hole = as_hole(&measurements[index].outer, outline, alike);
                measurements[index].holes.push(hole);
                self.pen_target = None;
                (index, Outline::Hole(measurements[index].holes.len() - 1))
            },
            _ => {
                let name = numbered("Area ", measurements.len() + 1);
                measurements.push(Measurement { name, outer: outline, holes: Vec::new(), colour, visible: true });
                (measurements.len() - 1, Outline::Outer)
            },
        };
        self.take_in_hand(traced);
        traced
    }

    /// Lets go of everything half done: a span part-picked, an outline part
    /// traced, and whatever is in hand. Letting go puts every area back within
    /// reach of the tools.
    pub fn escape(&mut self)
        ensures
            final(self).tool == old(self).tool,
            final(self).pick is None,
            match old(self).pen {
                Some(_) => final(self).pen matches Some(pen) && pen@.len() == 0,
                None => final(self).pen is None,
            },
            final(self).pen_target == old(self).pen_target,
            final(self).in_hand is None,
            old(self).editor is Some <==> final(self).editor is Some,
            final(self).editor matches Some(editor) ==> editor.selected is None && editor.grabbed is None,
            final(self).editor matches Some(editor) ==> editor.origin == old(self).editor.unwrap().origin,
    {
        self.pick = None;
        if let Some(pen) = &mut self.pen {
            pen.clear();
        }
        self.let_go();
    }

    /// Arms the pen to trace a hole in whichever area is in hand, however it
    /// came to be in hand. Nothing happens while no area is in hand.
    pub fn arm_hole(&mut self)
        ensures
            match old(self).in_hand {
                Some((index, _)) => {
                    &&& final(self).tool == Tool::Pen
                    &&& final(self).pen matches Some(pen) && pen@.len() == 0
                    &&& final(self).pen_target == Some(index)
                    &&& final(self).pick is None
                    &&& final(self).editor is None
                    &&& final(self).in_hand == old(self).in_hand
                },
                None => *final(self) == *old(self),
            },
    {
        if let Some((index, _)) = self.in_hand {
            self.take_up(Tool::Pen);
            self.pen_target = Some(index);
        }
    }

    /// Takes up measurement `index` and arms the pen to trace a hole in it,
    /// whichever area was in hand before.
    pub fn hole_in(&mut self, index: usize)
        ensures
            final(self).tool == Tool::Pen,
            final(self).pen matches Some(pen) && pen@.len() == 0,
            final(self).pen_target == Some(index),
            final(self).pick is None,
            final(self).editor is None,
            final(self).in_hand == Some((index, Outline::Outer)),
    {
        self.take_in_hand((index, Outline::Outer));
        self.take_up(Tool::Pen);
        self.pen_target = Some(index);
    }

    /// Takes a click while calibrating: the first is one end of the span, and
    /// the second, once it is `apart` from the first, the other, which ends the
    /// picking and hands both ends back to be given a distance. A second click
    /// on top of the first is taken as a misfire, since a span of no length
    /// yields no scale, and picking waits for a usable one. How far apart is
    /// far enough is a matter of floating point, so `apart` says.
    pub fn pick_point<F: Fn(Point, Point) -> bool>(&mut self, point: Point, apart: &F) -> (span: Option<(Point, Point)>)
        requires
            forall|from: Point, to: Point| apart.requires((from, to)),
        ensures
            final(self).tool == old(self).tool,
            final(self).pen == old(self).pen,
            final(self).pen_target == old(self).pen_target,
            final(self).editor == old(self).editor,
            final(self).in_hand == old(self).in_hand,
            match old(self).pick {
                Some(Pick::First) => span is None && final(self).pick == Some(Pick::Second { from: point }),
                Some(Pick::Second { from }) => {
                    ||| apart.ensures((from, point), true) && span == Some((from, point)) && final(self).pick is None
                    ||| apart.ensures((from, point), false) && span is None && final(self).pick == old(self).pick
                },
                None => span is None && final(self).pick is None,
            },
    {
        match self.pick {
            Some(Pick::First) => {
                self.pick = Some(Pick::Second { from: point });
                None
            },
            Some(Pick::Second { from }) => {
                if !apart(from, point) {
                    return None;
                }
                self.pick = None;
                Some((from, point))
            },
            None => None,
        }
    }

    /// Moves to another page. What was in hand indexes one page's
    /// measurements and means nothing on another, so it is let go, and the
    /// tool is taken up afresh: an outline belongs to the page it was traced
    /// on, and there is nothing to trace on a page with no scale, so the pen
    /// gives way to the selection tool on a page that is not `calibrated`.
    pub fn turn_page(&mut self, calibrated: bool)
        ensures
            final(self).tool == if old(self).tool == Tool::Pen && !calibrated { Tool::Select } else { old(self).tool },
            final(self).in_hand is None,
            final(self).pen_target is None,
            final(self).tool == Tool::Pen ==> (final(self).pen matches Some(pen) && pen@.len() == 0),
            final(self).tool != Tool::Pen ==> final(self).pen is None,
            final(self).tool == Tool::Calibrate ==> final(self).pick matches Some(Pick::First),
            final(self).tool != Tool::Calibrate ==> final(self).pick is None,
            final(self).tool.anchor_tool() ==> (final(self).editor matches Some(editor) && editor.selected is None
                && editor.grabbed is None && editor.origin is None),
            !final(self).tool.anchor_tool() ==> final(self).editor is None,
    {
        self.let_go();
        let tool = if self.tool == Tool::Pen && !calibrated { Tool::Select } else { self.tool };
        self.take_up(tool);
    }

    /// Takes a click with an anchor tool, and says what it asks to be done.
    /// `elsewhere` is the area the click landed on when that is not the one
    /// in hand: it is taken up rather than edited at arm's length, since a
    /// tool only ever acts on the anchors it is showing, and the click after
    /// edits it. Otherwise `found` is the anchor under the click. Direct
    /// Selection only selects it; Anchor Point flips it and keeps it
    /// selected; Delete Anchor takes it away and selects nothing; Add Anchor
    /// asks for an anchor on the edge, and `select_inserted` finishes the
    /// click once that is done. Whatever was acted on becomes the area in
    /// hand, which is how the tools come to have one when they had none.
    pub fn click(&mut self, elsewhere: Option<(usize, Outline)>, found: Option<Selection>) -> (edit: Edit)
        requires
            old(self).editor is Some,
        ensures
            elsewhere matches Some(shape) ==> edit == Edit::Nothing && final(self).in_hand == Some(shape)
                && (final(self).editor matches Some(e) && e.selected is None && e.grabbed is None
                    && e.origin == old(self).editor.unwrap().origin),
            elsewhere is None ==> edit == match (old(self).tool, found) {
                (Tool::AnchorPoint, Some(s)) => Edit::Toggle(s),
                (Tool::DeleteAnchor, Some(s)) => Edit::Delete(s),
                (Tool::AddAnchor, _) => Edit::Insert,
                _ => Edit::Nothing,
            },
            elsewhere is None && old(self).tool != Tool::AddAnchor ==> {
                &&& final(self).editor matches Some(e) && e.selected == (if old(self).tool == Tool::DeleteAnchor {
                    None
                } else {
                    found
                }) && e.grabbed == old(self).editor.unwrap().grabbed && e.origin == old(self).editor.unwrap().origin
                &&& final(self).in_hand == match found {
                    Some(s) => Some((s.measurement, s.outline)),
                    None => old(self).in_hand,
                }
            },
            elsewhere is None && old(self).tool == Tool::AddAnchor ==> *final(self) == *old(self),
            final(self).tool == old(self).tool,
            final(self).pen == old(self).pen,
            final(self).pen_target == old(self).pen_target,
            final(self).pick == old(self).pick,
    {
        if let Some(shape) = elsewhere {
            self.take_in_hand(shape);
            return Edit::Nothing;
        }
        let (edit, selected) = match self.tool {
            Tool::AnchorPoint => match found {
                Some(s) => (Edit::Toggle(s), found),
                None => (Edit::Nothing, found),
            },
            Tool::DeleteAnchor => match found {
                Some(s) => (Edit::Delete(s), None),
                None => (Edit::Nothing, None),
            },
            Tool::AddAnchor => {
                return Edit::Insert;
            },
            _ => (Edit::Nothing, found),
        };
        if let Some(s) = found {
            self.in_hand = Some((s.measurement, s.outline));
        }
        if let Some(editor) = &mut self.editor {
            editor.selected = selected;
        }
        edit
    }

    /// Finishes a click with Add Anchor: the anchor `inserted`, if one was,
    /// is selected, and the area of whatever was acted on, the new anchor or
    /// else the one `found` under the click, is in hand.
    pub fn select_inserted(&mut self, inserted: Option<Selection>, found: Option<Selection>)
        ensures
            final(self).in_hand == match (inserted, found) {
                (Some(s), _) => Some((s.measurement, s.outline)),
                (None, Some(s)) => Some((s.measurement, s.outline)),
                (None, None) => old(self).in_hand,
            },
            match old(self).editor {
                Some(editor) => final(self).editor == Some((Editor { selected: inserted, ..editor })),
                None => final(self).editor is None,
            },
            final(self).tool == old(self).tool,
            final(self).pen == old(self).pen,
            final(self).pen_target == old(self).pen_target,
            final(self).pick == old(self).pick,
    {
        let acted = match inserted {
            Some(s) => Some(s),
            None => found,
        };
        if let Some(s) = acted {
            self.in_hand = Some((s.measurement, s.outline));
        }
        if let Some(editor) = &mut self.editor {
            editor.selected = inserted;
        }
    }

    /// Takes hold of what a drag started on: `found` is grabbed and selected,
    /// its area is in hand, the same as clicking one, and `origin` is where
    /// the anchor sat when the drag began.
    pub fn grab(&mut self, found: (Selection, Grab), origin: Option<Point>)
        ensures
            final(self).in_hand == Some((found.0.measurement, found.0.outline)),
            old(self).editor is Some ==> final(self).editor == Some(
                (Editor { selected: Some(found.0), grabbed: Some(found), origin }),
            ),
            old(self).editor is None ==> final(self).editor is None,
            final(self).tool == old(self).tool,
            final(self).pen == old(self).pen,
            final(self).pen_target == old(self).pen_target,
            final(self).pick == old(self).pick,
    {
        self.in_hand = Some((found.0.measurement, found.0.outline));
        if let Some(editor) = &mut self.editor {
            editor.selected = Some(found.0);
            editor.grabbed = Some(found);
            editor.origin = origin;
        }
    }

    /// Lets go at the end of a drag: nothing is grabbed any more, and the
    /// selection stays.
    pub fn release(&mut self)
        ensures
            match old(self).editor {
                Some(editor) => final(self).editor == Some((Editor { grabbed: None, origin: None, ..editor })),
                None => final(self).editor is None,
            },
            final(self).in_hand == old(self).in_hand,
            final(self).tool == old(self).tool,
            final(self).pen == old(self).pen,
            final(self).pen_target == old(self).pen_target,
            final(self).pick == old(self).pick,
    {
        if let Some(editor) = &mut self.editor {
            editor.grabbed = None;
            editor.origin = None;
        }
    }

    /// Which area is in hand, if one is: the only one an anchor tool reaches
    /// into, and the one a hole is punched in.
    pub fn area_in_hand(&self) -> (area: Option<usize>)
        ensures
            area == match self.in_hand {
                Some((index, _)) => Some(index),
                None => None,
            },
    {
        match self.in_hand {
            Some((index, _)) => Some(index),
            None => None,
        }
    }

    /// What the tool in hand is waiting for. `calibrated` says whether the
    /// page on screen has a scale.
    pub fn hint(&self, calibrated: bool) -> (hint: &'static str)
        ensures
            hint@ == hint_for(self.tool, self.pick, calibrated, self.pen_target is Some),
    {
        match self.tool {
            Tool::Calibrate => match self.pick {
                Some(Pick::First) => "Click the first point of a known distance",
                Some(Pick::Second { .. }) => "Click the second point",
                None => "Enter the distance between the two points",
            },
            Tool::Pen => if !calibrated {
                "Calibrate this page before measuring areas on it"
            } else if self.pen_target.is_some() {
                "Tracing a hole; right-click to close"
            } else {
                "Click to place corners, drag to curve, right-click to close"
            },
            Tool::Select => "Click an area to select it, drag to move it, h for a hole in it",
            Tool::DirectSelect => "Drag an anchor or a handle; Alt breaks a smooth pair",
            Tool::AnchorPoint => "Click an anchor to flip it between a corner and a curve",
            Tool::AddAnchor => "Click an edge to add an anchor to it",
            Tool::DeleteAnchor => "Click an anchor to take it away",
        }
    }

    /// Whether the magnifier is worth showing: while something is being
    /// placed or moved, not while the drawing is merely being looked at.
    /// `magnifier` says whether the aid is on, and `moving` whether a whole
    /// measurement is being dragged.
    pub fn magnifying(&self, magnifier: bool, moving: bool) -> (shown: bool)
        ensures
            shown == (magnifier && match self.tool {
                Tool::Pen | Tool::Calibrate | Tool::AnchorPoint | Tool::AddAnchor | Tool::DeleteAnchor => true,
                Tool::DirectSelect => self.editor matches Some(editor) && editor.grabbed is Some,
                Tool::Select => moving,
            }),
    {
        if !magnifier {
            return false;
        }
        match self.tool {
            Tool::Pen | Tool::Calibrate => true,
            Tool::AnchorPoint | Tool::AddAnchor | Tool::DeleteAnchor => true,
            Tool::DirectSelect => match &self.editor {
                Some(editor) => editor.grabbed.is_some(),
                None => false,
            },
            Tool::Select => moving,
        }
    }
}

/// The words the window shows for what the tool in hand is waiting for.
pub open spec fn hint_for(tool: Tool, pick: Option<Pick>, calibrated: bool, tracing_hole: bool) -> Seq<char> {
    match tool {
        Tool::Calibrate => match pick {
            Some(Pick::First) => "Click the first point of a known distance"@,
            Some(Pick::Second { .. }) => "Click the second point"@,
            None => "Enter the distance between the two points"@,
        },
        Tool::Pen => if !calibrated {
            "Calibrate this page before measuring areas on it"@
        } else if tracing_hole {
            "Tracing a hole; right-click to close"@
        } else {
            "Click to place corners, drag to curve, right-click to close"@
        },
        Tool::Select => "Click an area to select it, drag to move it, h for a hole in it"@,
        Tool::DirectSelect => "Drag an anchor or a handle; Alt breaks a smooth pair"@,
        Tool::AnchorPoint => "Click an anchor to flip it between a corner and a curve"@,
        Tool::AddAnchor => "Click an edge to add an anchor to it"@,
        Tool::DeleteAnchor => "Click an anchor to take it away"@,
    }
}

/// The keys anything is bound to.
#[derive(Clone, Copy, Debug, PartialEq, Eq, Structural)]
pub enum Key {
    PageUp,
    PageDown,
    Delete,
    Backspace,
    A,
    C,
    H,
    N,
    P,
    S,
    U,
    V,
    Y,
    Z,
    Plus,
    Equals,
    Minus,
}

/// One key going down, as the window reports it: the key the layout produced,
/// and the key physically pressed. Either is `None` when it is not a key
/// anything is bound to, or, for the physical key, when the window does not
/// know it.
#[derive(Clone, Copy, Debug)]
pub struct Press {
    pub key: Option<Key>,
    pub physical: Option<Key>,
}

/// The modifiers held while the keys went down.
#[derive(Clone, Copy, Debug, Default)]
pub struct Modifiers {
    pub shift: bool,
    /// Ctrl, or Cmd on a Mac.
    pub command: bool,
}

/// What the keys pressed this frame ask for.
#[derive(Clone, Copy, Debug, Default, PartialEq, Eq)]
pub struct Commands {
    pub page_up: bool,
    pub page_down: bool,
    pub delete: bool,
    pub undo: bool,
    pub redo: bool,
    pub save: bool,
    /// The tool a key asked for, if one did.
    pub tool: Option<Tool>,
    pub snap: bool,
    pub hole: bool,
}

/// Whether `key` went down this frame, by the key the layout produced or by
/// the physical key. Matched on both: holding Ctrl and Alt together is AltGr
/// on Windows, and a layout may then produce no letter at all for the key
/// that was pressed.
pub open spec fn went_down(presses: Seq<Press>, key: Key) -> bool {
    exists|i: int| 0 <= i < presses.len() && (#[trigger] presses[i].key == Some(key) || presses[i].physical == Some(key))
}

fn pressed(presses: &Vec<Press>, key: Key) -> (down: bool)
    ensures
        down == went_down(presses@, key),
{
    let mut index: usize = 0;
    while index < presses.len()
        invariant
            0 <= index <= presses@.len(),
            forall|i: int| 0 <= i < index ==> !(#[trigger] presses@[i].key == Some(key) || presses@[i].physical == Some(key)),
        decreases presses@.len() - index,
    {
        let press = presses[index];
        if press.key == Some(key) || press.physical == Some(key) {
            return true;
        }
        index = index + 1;
    }
    false
}

/// The tool a set of presses asks for. A tool's letter is the lower case one:
/// shift makes a different binding, not the same one. `+` is a shifted key on
/// most layouts and a key of its own on the number pad, so shift is not part
/// of the binding for the signs: however the sign was typed, it means the
/// same thing.
pub open spec fn tool_asked(down: spec_fn(Key) -> bool, modifiers: Modifiers) -> Option<Tool> {
    let plain = |key: Key| down(key) && !modifiers.shift && !modifiers.command;
    let shifted = |key: Key| down(key) && modifiers.shift && !modifiers.command;
    let sign = |key: Key| down(key) && !modifiers.command;
    if plain(Key::U) {
        Some(Tool::Calibrate)
    } else if shifted(Key::C) {
        Some(Tool::AnchorPoint)
    } else if plain(Key::V) {
        Some(Tool::Select)
    } else if plain(Key::A) {
        Some(Tool::DirectSelect)
    } else if plain(Key::P) {
        Some(Tool::Pen)
    } else if sign(Key::Plus) || sign(Key::Equals) {
        Some(Tool::AddAnchor)
    } else if sign(Key::Minus) {
        Some(Tool::DeleteAnchor)
    } else {
        None
    }
}

/// What the presses ask for. While a name or a distance is being typed,
/// `typing`, the keyboard belongs to the field, not to the tools.
pub open spec fn asked(presses: Seq<Press>, modifiers: Modifiers, typing: bool) -> Commands {
    let down = |key: Key| !typing && went_down(presses, key);
    let command = !typing && modifiers.command;
    let plain = |key: Key| down(key) && !modifiers.shift && !modifiers.command;
    Commands {
        page_up: down(Key::PageUp),
        page_down: down(Key::PageDown),
        delete: down(Key::Delete) || down(Key::Backspace),
        undo: command && !modifiers.shift && down(Key::Z),
        redo: command && (down(Key::Y) || (modifiers.shift && down(Key::Z))),
        save: command && down(Key::S),
        tool: tool_asked(down, modifiers),
        snap: plain(Key::N),
        hole: plain(Key::H),
    }
}

/// Reads what this frame's presses ask for.
pub fn commands(presses: &Vec<Press>, modifiers: Modifiers, typing: bool) -> (asks: Commands)
    ensures
        asks == asked(presses@, modifiers, typing),
{
    let down = |key: Key| -> (down: bool)
        ensures
            down == (!typing && went_down(presses@, key)),
        { !typing && pressed(presses, key) };
    let command = !typing && modifiers.command;
    let plain = |key: Key| -> (plain: bool)
        ensures
            plain == (!typing && went_down(presses@, key) && !modifiers.shift && !modifiers.command),
        { down(key) && !modifiers.shift && !modifiers.command };
    let shifted = |key: Key| -> (shifted: bool)
        ensures
            shifted == (!typing && went_down(presses@, key) && modifiers.shift && !modifiers.command),
        { down(key) && modifiers.shift && !modifiers.command };
    let sign = |key: Key| -> (sign: bool)
        ensures
            sign == (!typing && went_down(presses@, key) && !modifiers.command),
        { down(key) && !modifiers.command };

    let tool = if plain(Key::U) {
        Some(Tool::Calibrate)
    } else if shifted(Key::C) {
        Some(Tool::AnchorPoint)
    } else if plain(Key::V) {
        Some(Tool::Select)
    } else if plain(Key::A) {
        Some(Tool::DirectSelect)
    } else if plain(Key::P) {
        Some(Tool::Pen)
    } else if sign(Key::Plus) || sign(Key::Equals) {
        Some(Tool::AddAnchor)
    } else if sign(Key::Minus) {
        Some(Tool::DeleteAnchor)
    } else {
        None
    };

    Commands {
        page_up: down(Key::PageUp),
        page_down: down(Key::PageDown),
        delete: down(Key::Delete) || down(Key::Backspace),
        undo: command && !modifiers.shift && down(Key::Z),
        redo: command && (down(Key::Y) || (modifiers.shift && down(Key::Z))),
        save: command && down(Key::S),
        tool,
        snap: plain(Key::N),
        hole: plain(Key::H),
    }
}

/// However `+` was typed (shifted over `=`, on a key of its own, or as `=`
/// alone) it asks for the anchor-adding tool, as long as no command modifier
/// is held and nothing is being typed.
pub proof fn the_plus_sign_always_adds_an_anchor(presses: Seq<Press>, modifiers: Modifiers)
    requires
        !modifiers.command,
        went_down(presses, Key::Plus) || went_down(presses, Key::Equals),
        !went_down(presses, Key::U),
        !went_down(presses, Key::C),
        !went_down(presses, Key::V),
        !went_down(presses, Key::A),
        !went_down(presses, Key::P),
    ensures
        asked(presses, modifiers, false).tool == Some(Tool::AddAnchor),
{
}

/// A shifted letter is not the letter: with shift held, none of the plain
/// letter bindings answers.
pub proof fn a_shifted_letter_is_not_the_letter(presses: Seq<Press>, modifiers: Modifiers, typing: bool)
    requires
        modifiers.shift,
    ensures
        asked(presses, modifiers, typing).tool != Some(Tool::Calibrate),
        asked(presses, modifiers, typing).tool != Some(Tool::Select),
        asked(presses, modifiers, typing).tool != Some(Tool::DirectSelect),
        asked(presses, modifiers, typing).tool != Some(Tool::Pen),
        !asked(presses, modifiers, typing).snap,
        !asked(presses, modifiers, typing).hole,
{
}

/// While a field has the keyboard, no key asks for anything.
pub proof fn typing_takes_the_keyboard(presses: Seq<Press>, modifiers: Modifiers)
    ensures
        asked(presses, modifiers, true) == (Commands {
            page_up: false,
            page_down: false,
            delete: false,
            undo: false,
            redo: false,
            save: false,
            tool: None,
            snap: false,
            hole: false,
        }),
{
}

} // verus!
