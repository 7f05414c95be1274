//! The UI regions, exactly one of which owns keyboard input at a time.

use vstd::prelude::*;

verus! {

/// A UI region that can hold the input focus.
#[derive(Clone, Copy, Debug, PartialEq, Eq, Structural, Hash)]
pub enum Focus {
    Menu,
    Editor,
    History,
    Data,
    Favorites,
}

/// The position of a region in the cycling order.
pub open spec fn focus_index(f: Focus) -> int {
    match f {
        Focus::Menu => 0,
        Focus::Editor => 1,
        Focus::History => 2,
        Focus::Data => 3,
        Focus::Favorites => 4,
    }
}

impl Focus {
    /// The next region in the order Menu, Editor, History, Data, Favorites,
    /// wrapping from the last to the first.
    pub fn next(self) -> (r: Focus)
        ensures
            focus_index(r) == (focus_index(self) + 1) % 5,
    {
        match self {
            Focus::Menu => Focus::Editor,
            Focus::Editor => Focus::History,
            Focus::History => Focus::Data,
            Focus::Data => Focus::Favorites,
            Focus::Favorites => Focus::Menu,
        }
    }

    /// The previous region in that order, wrapping from the first to the last.
    pub fn prev(self) -> (r: Focus)
        ensures
            focus_index(r) == (focus_index(self) + 4) % 5,
    {
        match self {
            Focus::Menu => Focus::Favorites,
            Focus::Editor => Focus::Menu,
            Focus::History => Focus::Editor,
            Focus::Data => Focus::History,
            Focus::Favorites => Focus::Data,
        }
    }
}

} // verus!
