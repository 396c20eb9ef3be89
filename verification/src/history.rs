//! The undo and redo stacks.

use vstd::prelude::*;
use crate::action::{Action, ActionView};

verus! {

/// The views of a sequence of actions, in the same order.
pub open spec fn views(actions: Seq<Action>) -> Seq<ActionView> {
    Seq::new(actions.len(), |i: int| actions[i]@)
}

/// Two stacks of actions. `undone` holds what is drawn, oldest first;
/// `redone` holds what was taken back, most recently taken back last.
#[derive(Clone, Debug, PartialEq)]
pub struct History {
    pub undone: Vec<Action>,
    pub redone: Vec<Action>,
}

/// What a [`History`] holds, as sequences of action views.
pub struct HistoryView {
    pub undone: Seq<ActionView>,
    pub redone: Seq<ActionView>,
}

impl View for History {
    type V = HistoryView;

    open spec fn view(&self) -> HistoryView {
        HistoryView { undone: views(self.undone@), redone: views(self.redone@) }
    }
}

impl HistoryView {
    /// The history with nothing drawn and nothing taken back.
    pub open spec fn empty() -> HistoryView {
        HistoryView { undone: Seq::empty(), redone: Seq::empty() }
    }

    /// A new action goes on top of what is drawn, and what was taken back
    /// is forgotten.
    pub open spec fn record(self, action: ActionView) -> HistoryView {
        HistoryView { undone: self.undone.push(action), redone: Seq::empty() }
    }

    /// The newest drawn action moves to the taken-back stack. Nothing
    /// changes where nothing is drawn.
    pub open spec fn undo(self) -> HistoryView {
        if self.undone.len() == 0 {
            self
        } else {
            HistoryView {
                undone: self.undone.drop_last(),
                redone: self.redone.push(self.undone.last()),
            }
        }
    }

    /// The action taken back last is drawn again. Nothing changes where
    /// nothing was taken back.
    pub open spec fn redo(self) -> HistoryView {
        if self.redone.len() == 0 {
            self
        } else {
            HistoryView {
                undone: self.undone.push(self.redone.last()),
                redone: self.redone.drop_last(),
            }
        }
    }

    pub open spec fn can_undo(self) -> bool {
        self.undone.len() > 0
    }

    pub open spec fn can_redo(self) -> bool {
        self.redone.len() > 0
    }

    /// The newest drawn action is replaced; the taken-back stack stays.
    pub open spec fn amend(self, action: ActionView) -> HistoryView {
        HistoryView { undone: self.undone.drop_last().push(action), redone: self.redone }
    }
}

impl History {
    /// The empty history.
    pub fn new() -> (h: History)
        ensures
            h@ == HistoryView::empty(),
    {
        let h = History { undone: Vec::new(), redone: Vec::new() };
        assert(h@.undone =~= Seq::empty());
        assert(h@.redone =~= Seq::empty());
        h
    }

    /// Puts a new action on top of what is drawn and forgets what was
    /// taken back.
    pub fn record(&mut self, action: Action)
        ensures
            final(self)@ == old(self)@.record(action@),
    {
        self.undone.push(action);
        self.redone.clear();
        assert(self@.undone =~= old(self)@.undone.push(action@));
        assert(self@.redone =~= Seq::empty());
    }

    /// Takes the newest drawn action back, if there is one.
    pub fn undo(&mut self)
        ensures
            final(self)@ == old(self)@.undo(),
    {
        match self.undone.pop() {
            Some(action) => {
                self.redone.push(action);
                assert(self@.undone =~= old(self)@.undone.drop_last());
                assert(self@.redone =~= old(self)@.redone.push(old(self)@.undone.last()));
            },
            None => {
                assert(self@.undone =~= old(self)@.undone);
            },
        }
    }

    /// Draws the action taken back last again, if there is one.
    pub fn redo(&mut self)
        ensures
            final(self)@ == old(self)@.redo(),
    {
        match self.redone.pop() {
            Some(action) => {
                self.undone.push(action);
                assert(self@.redone =~= old(self)@.redone.drop_last());
                assert(self@.undone =~= old(self)@.undone.push(old(self)@.redone.last()));
            },
            None => {
                assert(self@.redone =~= old(self)@.redone);
            },
        }
    }

    /// Whether anything is drawn that could be taken back.
    pub fn can_undo(&self) -> (r: bool)
        ensures
            r == self@.can_undo(),
    {
        self.undone.len() > 0
    }

    /// Whether anything was taken back that could be drawn again.
    pub fn can_redo(&self) -> (r: bool)
        ensures
            r == self@.can_redo(),
    {
        self.redone.len() > 0
    }

    /// Empties both stacks.
    pub fn clear(&mut self)
        ensures
            final(self)@ == HistoryView::empty(),
    {
        self.undone.clear();
        self.redone.clear();
        assert(self@.undone =~= Seq::empty());
        assert(self@.redone =~= Seq::empty());
    }

    /// The tool of the newest drawn action.
    pub fn undo_kind(&self) -> (r: Option<crate::action::Selection>)
        ensures
            r == if self@.can_undo() {
                Some(self@.undone.last().kind())
            } else {
                None
            },
    {
        let n = self.undone.len();
        if n == 0 {
            None
        } else {
            Some(self.undone[n - 1].kind())
        }
    }

    /// The tool of the action taken back last.
    pub fn redo_kind(&self) -> (r: Option<crate::action::Selection>)
        ensures
            r == if self@.can_redo() {
                Some(self@.redone.last().kind())
            } else {
                None
            },
    {
        let n = self.redone.len();
        if n == 0 {
            None
        } else {
            Some(self.redone[n - 1].kind())
        }
    }

    /// Removes the newest drawn action and hands it out; the taken-back
    /// stack stays.
    pub(crate) fn take_top(&mut self) -> (top: Option<Action>)
        ensures
            final(self)@.redone == old(self)@.redone,
            match top {
                Some(action) => old(self)@.can_undo() && action@ == old(self)@.undone.last()
                    && final(self)@.undone == old(self)@.undone.drop_last(),
                None => !old(self)@.can_undo() && final(self)@ == old(self)@,
            },
    {
        let top = self.undone.pop();
        proof {
            if top.is_some() {
                assert(self@.undone =~= old(self)@.undone.drop_last());
            } else {
                assert(self@.undone =~= old(self)@.undone);
            }
        }
        top
    }

    /// Puts an action on top of what is drawn; the taken-back stack stays.
    pub(crate) fn put_top(&mut self, action: Action)
        ensures
            final(self)@.undone == old(self)@.undone.push(action@),
            final(self)@.redone == old(self)@.redone,
    {
        self.undone.push(action);
        assert(self@.undone =~= old(self)@.undone.push(action@));
    }
}

/// Taking an action back and drawing it again restores the history, unless
/// nothing is drawn while something was taken back.
pub proof fn lemma_undo_then_redo(h: HistoryView)
    requires
        h.can_undo() || !h.can_redo(),
    ensures
        h.undo().redo() == h,
{
    if h.can_undo() {
        let u = h.undo();
        assert(u.redone.drop_last() =~= h.redone);
        assert(u.undone.push(u.redone.last()) =~= h.undone);
    }
}

/// Drawing a taken-back action again and taking it back once more restores
/// the history, wherever something was taken back.
pub proof fn lemma_redo_then_undo(h: HistoryView)
    requires
        h.can_redo() || !h.can_undo(),
    ensures
        h.redo().undo() == h,
{
    if h.can_redo() {
        let r = h.redo();
        assert(r.undone.drop_last() =~= h.undone);
        assert(r.redone.push(r.undone.last()) =~= h.redone);
    }
}

/// A recording after an undo forgets what was taken back: after recording
/// `a` and `b`, taking `b` back and recording `c`, what is drawn is what was
/// drawn before, then `a`, then `c`, and nothing can be redone.
pub proof fn lemma_record_after_undo(h: HistoryView, a: ActionView, b: ActionView, c: ActionView)
    ensures
        h.record(a).record(b).undo().record(c).undone == h.undone.push(a).push(c),
        h.record(a).record(b).undo().record(c).redone == Seq::<ActionView>::empty(),
{
    assert(h.record(a).record(b).undone.drop_last() =~= h.undone.push(a));
}

/// Every recording leaves nothing to redo and one more action drawn.
pub proof fn lemma_record_grows(h: HistoryView, a: ActionView)
    ensures
        h.record(a).undone.len() == h.undone.len() + 1,
        h.record(a).undone.last() == a,
        !h.record(a).can_redo(),
{
}

/// Undo and redo only move actions between the stacks: the number of
/// actions held in both together never changes.
pub proof fn lemma_moves_preserve_total(h: HistoryView)
    ensures
        h.undo().undone.len() + h.undo().redone.len() == h.undone.len() + h.redone.len(),
        h.redo().undone.len() + h.redo().redone.len() == h.undone.len() + h.redone.len(),
{
}

} // verus!
