//! Undo and redo.
//!
//! The whole of what the user has built is the unit of undo: it is kept whole
//! before each committed operation. The document is small, and a stack of
//! copies is far easier to keep correct than a set of reversible commands.

use vstd::prelude::*;

verus! {

/// The states to go back to, and the ones undone out of.
pub struct History<T> {
    undo: Vec<T>,
    redo: Vec<T>,
}

/// A history as a value: the states to go back to, most recent last, and the
/// states undone out of, most recently undone last.
pub struct Record<T> {
    pub undone: Seq<T>,
    pub redoable: Seq<T>,
}

impl<T> View for History<T> {
    type V = Record<T>;

    closed spec fn view(&self) -> Record<T> {
        Record { undone: self.undo@, redoable: self.redo@ }
    }
}

/// The history after `snapshot` is kept: it is the state to go back to, and
/// anything undone is discarded, since the history is a line rather than a
/// tree.
pub open spec fn kept<T>(record: Record<T>, snapshot: T) -> Record<T> {
    Record { undone: record.undone.push(snapshot), redoable: Seq::empty() }
}

/// Going back from `state`: the history and the state it leaves, or `None`
/// when there is nothing to go back to.
pub open spec fn stepped_back<T>(record: Record<T>, state: T) -> Option<(Record<T>, T)> {
    if record.undone.len() == 0 {
        None
    } else {
        Some((
            Record { undone: record.undone.drop_last(), redoable: record.redoable.push(state) },
            record.undone.last(),
        ))
    }
}

/// Going forward again from `state`: the history and the state it leaves, or
/// `None` when nothing has been undone.
pub open spec fn stepped_forward<T>(record: Record<T>, state: T) -> Option<(Record<T>, T)> {
    if record.redoable.len() == 0 {
        None
    } else {
        Some((
            Record { undone: record.undone.push(state), redoable: record.redoable.drop_last() },
            record.redoable.last(),
        ))
    }
}

impl<T> History<T> {
    /// A history with nothing in it.
    pub fn new() -> (history: Self)
        ensures
            history@.undone.len() == 0,
            history@.redoable.len() == 0,
    {
        History { undo: Vec::new(), redo: Vec::new() }
    }

    /// Keeps `snapshot` as the state to go back to.
    pub fn keep(&mut self, snapshot: T)
        ensures
            final(self)@ == kept(old(self)@, snapshot),
    {
        self.undo.push(snapshot);
        self.redo.clear();
    }

    /// Whether there is anything to go back to.
    pub fn can_undo(&self) -> (can: bool)
        ensures
            can == (self@.undone.len() > 0),
    {
        self.undo.len() > 0
    }

    /// Whether there is anything undone to go forward to.
    pub fn can_redo(&self) -> (can: bool)
        ensures
            can == (self@.redoable.len() > 0),
    {
        self.redo.len() > 0
    }

    /// Puts `state` back to the last state kept, keeping `state` to redo.
    /// Says whether there was anything to go back to; where there was not,
    /// nothing changes.
    pub fn undo(&mut self, state: &mut T) -> (moved: bool)
        ensures
            moved == (old(self)@.undone.len() > 0),
            match stepped_back(old(self)@, *old(state)) {
                Some((record, back)) => final(self)@ == record && *final(state) == back,
                None => final(self)@ == old(self)@ && *final(state) == *old(state),
            },
    {
        match self.undo.pop() {
            Some(mut previous) => {
                std::mem::swap(state, &mut previous);
                self.redo.push(previous);
                true
            },
            None => false,
        }
    }

    /// Puts `state` forward to the last state undone, keeping `state` to go
    /// back to. Says whether anything had been undone; where nothing had,
    /// nothing changes.
    pub fn redo(&mut self, state: &mut T) -> (moved: bool)
        ensures
            moved == (old(self)@.redoable.len() > 0),
            match stepped_forward(old(self)@, *old(state)) {
                Some((record, forward)) => final(self)@ == record && *final(state) == forward,
                None => final(self)@ == old(self)@ && *final(state) == *old(state),
            },
    {
        match self.redo.pop() {
            Some(mut next) => {
                std::mem::swap(state, &mut next);
                self.undo.push(next);
                true
            },
            None => false,
        }
    }

    /// Forgets everything kept and undone.
    pub fn clear(&mut self)
        ensures
            final(self)@.undone.len() == 0,
            final(self)@.redoable.len() == 0,
    {
        self.undo.clear();
        self.redo.clear();
    }
}

impl<T> Default for History<T> {
    fn default() -> (history: Self)
        ensures
            history@.undone.len() == 0,
            history@.redoable.len() == 0,
    {
        History::new()
    }
}

/// Undoing and then redoing puts back both the state and the history as they
/// were.
pub proof fn redo_reverses_undo<T>(record: Record<T>, state: T)
    requires
        stepped_back(record, state) is Some,
    ensures
        ({
            let (back, earlier) = stepped_back(record, state).unwrap();
            stepped_forward(back, earlier) == Some((record, state))
        }),
{
    let (back, earlier) = stepped_back(record, state).unwrap();
    assert(back.undone.push(earlier) =~= record.undone);
    assert(back.redoable.drop_last() =~= record.redoable);
}

/// Redoing and then undoing puts back both the state and the history as they
/// were.
pub proof fn undo_reverses_redo<T>(record: Record<T>, state: T)
    requires
        stepped_forward(record, state) is Some,
    ensures
        ({
            let (forward, later) = stepped_forward(record, state).unwrap();
            stepped_back(forward, later) == Some((record, state))
        }),
{
    let (forward, later) = stepped_forward(record, state).unwrap();
    assert(forward.redoable.push(later) =~= record.redoable);
    assert(forward.undone.drop_last() =~= record.undone);
}

/// Undoing straight after keeping a snapshot goes back to that snapshot, and
/// leaves the state it came from as the one thing there is to redo.
pub proof fn undo_returns_what_was_kept<T>(record: Record<T>, snapshot: T, state: T)
    ensures
        stepped_back(kept(record, snapshot), state) == Some((
            Record { undone: record.undone, redoable: seq![state] },
            snapshot,
        )),
{
    assert(kept(record, snapshot).undone.drop_last() =~= record.undone);
    assert(Seq::<T>::empty().push(state) =~= seq![state]);
}

/// Once something new is kept, there is nothing to redo.
pub proof fn keeping_discards_what_was_undone<T>(record: Record<T>, snapshot: T, state: T)
    ensures
        stepped_forward(kept(record, snapshot), state) is None,
{
}

} // verus!
