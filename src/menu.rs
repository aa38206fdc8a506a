use vstd::prelude::*;

use crate::state::Request;

verus! {

/// Number of menu entries: the armed toggle, the smallest key, the largest
/// key, and saving to file.
pub const MENU_LEN: usize = 4;

/// The dashboard's cursor over its menu entries.
#[derive(Clone, Copy, Debug, PartialEq, Eq, Structural)]
pub struct Menu {
    pub index: usize,
}

/// A key pressed in the terminal, as the menu reads it.
#[derive(Clone, Copy, Debug, PartialEq, Eq, Structural)]
pub enum Key {
    Quit,
    Next,
    Prev,
    Left,
    Right,
    Confirm,
}

/// What the control loop has to do after a key.
#[derive(Clone, Copy, Debug, PartialEq, Eq, Structural)]
pub enum Outcome {
    /// Nothing beyond redrawing.
    Stay,
    /// Hand this change to the shared state.
    Change(Request),
    /// Persist the current range.
    Save,
    /// Leave the loop and the program.
    Quit,
}

/// The entry after `index`, wrapping from the last to the first.
pub open spec fn next_index(index: int) -> int {
    (index + 1) % (MENU_LEN as int)
}

/// The entry before `index`, wrapping from the first to the last.
pub open spec fn prev_index(index: int) -> int {
    (index - 1) % (MENU_LEN as int)
}

/// Where the cursor stands after `key`.
pub open spec fn moved(index: int, key: Key) -> int {
    match key {
        Key::Next => next_index(index),
        Key::Prev => prev_index(index),
        _ => index,
    }
}

/// What `key` asks for with the cursor on entry `index`. Left and right edit
/// the selected entry; on the armed toggle both flip it, like confirm does.
pub open spec fn outcome_of(index: int, key: Key) -> Outcome {
    match key {
        Key::Quit => Outcome::Quit,
        Key::Next | Key::Prev => Outcome::Stay,
        Key::Left => if index == 0 {
            Outcome::Change(Request::Toggle)
        } else if index == 1 {
            Outcome::Change(Request::MinDown)
        } else if index == 2 {
            Outcome::Change(Request::MaxDown)
        } else {
            Outcome::Stay
        },
        Key::Right => if index == 0 {
            Outcome::Change(Request::Toggle)
        } else if index == 1 {
            Outcome::Change(Request::MinUp)
        } else if index == 2 {
            Outcome::Change(Request::MaxUp)
        } else {
            Outcome::Stay
        },
        Key::Confirm => if index == 0 {
            Outcome::Change(Request::Toggle)
        } else if index == 3 {
            Outcome::Save
        } else {
            Outcome::Stay
        },
    }
}

impl Menu {
    pub open spec fn valid(self) -> bool {
        self.index < MENU_LEN
    }

    /// A menu with the armed toggle selected.
    pub fn new() -> (r: Menu)
        ensures
            r.index == 0,
            r.valid(),
    {
        Menu { index: 0 }
    }

    /// Selects the next entry; the last one is followed by the first.
    pub fn next(&mut self)
        requires
            old(self).valid(),
        ensures
            final(self).index == next_index(old(self).index as int),
            final(self).valid(),
    {
        self.index = (self.index + 1) % MENU_LEN;
    }

    /// Selects the previous entry; the first one is preceded by the last.
    pub fn prev(&mut self)
        requires
            old(self).valid(),
        ensures
            final(self).index == prev_index(old(self).index as int),
            final(self).valid(),
    {
        self.index = (self.index + MENU_LEN - 1) % MENU_LEN;
    }

    /// Handles one key: moves the cursor for next and previous, and reports
    /// what else the key asks for on the selected entry.
    pub fn handle(&mut self, key: Key) -> (r: Outcome)
        requires
            old(self).valid(),
        ensures
            final(self).index == moved(old(self).index as int, key),
            final(self).valid(),
            r == outcome_of(old(self).index as int, key),
    {
        match key {
            Key::Quit => Outcome::Quit,
            Key::Next => {
                self.next();
                Outcome::Stay
            },
            Key::Prev => {
                self.prev();
                Outcome::Stay
            },
            Key::Left => {
                if self.index == 0 {
                    Outcome::Change(Request::Toggle)
                } else if self.index == 1 {
                    Outcome::Change(Request::MinDown)
                } else if self.index == 2 {
                    Outcome::Change(Request::MaxDown)
                } else {
                    Outcome::Stay
                }
            },
            Key::Right => {
                if self.index == 0 {
                    Outcome::Change(Request::Toggle)
                } else if self.index == 1 {
                    Outcome::Change(Request::MinUp)
                } else if self.index == 2 {
                    Outcome::Change(Request::MaxUp)
                } else {
                    Outcome::Stay
                }
            },
            Key::Confirm => {
                if self.index == 0 {
                    Outcome::Change(Request::Toggle)
                } else if self.index == 3 {
                    Outcome::Save
                } else {
                    Outcome::Stay
                }
            },
        }
    }
}

/// On the armed toggle, confirm and both directional edits ask for the same
/// single flip.
pub proof fn lemma_toggle_entry_keys_agree()
    ensures
        outcome_of(0, Key::Confirm) == Outcome::Change(Request::Toggle),
        outcome_of(0, Key::Left) == outcome_of(0, Key::Confirm),
        outcome_of(0, Key::Right) == outcome_of(0, Key::Confirm),
{
}

/// The cursor wraps both ways: after the last entry comes the first, and
/// before the first comes the last.
pub proof fn lemma_cursor_wraps()
    ensures
        next_index(3) == 0,
        prev_index(0) == 3,
        forall|i: int| 0 <= i < MENU_LEN ==> 0 <= #[trigger] next_index(i) < MENU_LEN,
        forall|i: int| 0 <= i < MENU_LEN ==> 0 <= #[trigger] prev_index(i) < MENU_LEN,
        forall|i: int| 0 <= i < MENU_LEN ==> prev_index(#[trigger] next_index(i)) == i,
{
}

} // verus!
