//! The keyboard focus cycle over the three regions of the window.

use vstd::prelude::*;

verus! {

/// Number of regions that the focus cycles through.
pub const PANEL_COUNT: usize = 3;

/// A region of the window that can hold the keyboard focus.
///
/// The regions stand in the fixed order `Editor`, `Command`, `Files`.
#[derive(Clone, Copy, Debug, PartialEq, Eq, Structural)]
pub enum Panel {
    Editor,
    Command,
    Files,
}

/// The direction in which a chord moves the focus.
#[derive(Clone, Copy, Debug, PartialEq, Eq, Structural)]
pub enum FocusMove {
    Forward,
    Backward,
}

impl Panel {
    /// Position of the panel in the fixed order.
    pub open spec fn index(self) -> int {
        match self {
            Panel::Editor => 0,
            Panel::Command => 1,
            Panel::Files => 2,
        }
    }

    /// The panel that stands at position `i` of the fixed order.
    pub open spec fn at(i: int) -> Panel {
        if i == 0 {
            Panel::Editor
        } else if i == 1 {
            Panel::Command
        } else {
            Panel::Files
        }
    }

    /// The panel after `self`, wrapping from the last to the first.
    pub open spec fn next(self) -> Panel {
        Panel::at((self.index() + 1) % 3)
    }

    /// The panel before `self`, wrapping from the first to the last.
    pub open spec fn previous(self) -> Panel {
        Panel::at((self.index() + 3 - 1) % 3)
    }

    /// The panel reached from `self` by one move in direction `m`.
    pub open spec fn moved(self, m: FocusMove) -> Panel {
        match m {
            FocusMove::Forward => self.next(),
            FocusMove::Backward => self.previous(),
        }
    }

    /// The panel that holds the focus when a session starts.
    pub fn initial() -> (p: Panel)
        ensures
            p == Panel::Editor,
            p.index() == 0,
    {
        Panel::Editor
    }

    /// Position of the panel in the fixed order, as a machine integer.
    pub fn position(self) -> (i: usize)
        ensures
            i == self.index(),
            i < PANEL_COUNT,
    {
        match self {
            Panel::Editor => 0,
            Panel::Command => 1,
            Panel::Files => 2,
        }
    }

    /// The panel at position `i`, or `None` where `i` is past the last one.
    pub fn from_position(i: usize) -> (p: Option<Panel>)
        ensures
            i < PANEL_COUNT ==> p == Some(Panel::at(i as int)),
            i >= PANEL_COUNT ==> p is None,
    {
        if i == 0 {
            Some(Panel::Editor)
        } else if i == 1 {
            Some(Panel::Command)
        } else if i == 2 {
            Some(Panel::Files)
        } else {
            None
        }
    }

    /// Advances the focus by one position, modulo the number of panels.
    pub fn forward(self) -> (p: Panel)
        ensures
            p == self.next(),
            p.index() == (self.index() + 1) % 3,
    {
        match self {
            Panel::Editor => Panel::Command,
            Panel::Command => Panel::Files,
            Panel::Files => Panel::Editor,
        }
    }

    /// Retreats the focus by one position, modulo the number of panels.
    pub fn backward(self) -> (p: Panel)
        ensures
            p == self.previous(),
            p.index() == (self.index() + 3 - 1) % 3,
    {
        match self {
            Panel::Editor => Panel::Files,
            Panel::Command => Panel::Editor,
            Panel::Files => Panel::Command,
        }
    }

    /// Moves the focus one position in direction `m`.
    pub fn step(self, m: FocusMove) -> (p: Panel)
        ensures
            p == self.moved(m),
    {
        match m {
            FocusMove::Forward => self.forward(),
            FocusMove::Backward => self.backward(),
        }
    }
}

/// Three consecutive forward moves lead back to the panel they started from,
/// and so do three backward moves.
pub proof fn lemma_three_moves_close_the_cycle(p: Panel)
    ensures
        p.next().next().next() == p,
        p.previous().previous().previous() == p,
        Panel::Editor.next().next().next() == Panel::Editor,
{
}

/// A forward move followed by a backward move, or a backward move followed
/// by a forward move, leaves the focus where it was.
pub proof fn lemma_opposite_moves_cancel(p: Panel)
    ensures
        p.next().previous() == p,
        p.previous().next() == p,
        Panel::Editor.next().previous() == Panel::Editor,
{
}

/// Every panel is reached from `Editor` by at most two forward moves, and
/// every panel has a successor: the cycle has no terminal state.
pub proof fn lemma_cycle_reaches_every_panel(p: Panel)
    ensures
        p == Panel::Editor || p == Panel::Editor.next() || p == Panel::Editor.next().next(),
        p.next() != p,
        p.previous() != p,
        Panel::at(p.index()) == p,
{
}

} // verus!
