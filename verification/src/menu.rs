//! The game-selection menu: a fixed list of entries and a cursor that wraps around it.
use vstd::prelude::*;

verus! {

/// One entry of the menu.
#[derive(Clone, Copy, Debug, PartialEq, Eq, Structural)]
pub enum MenuItem {
    Pong,
    Arkanoid,
    Asteroids,
    Shooter,
    Room,
    Quit,
}

/// How many entries the menu lists.
pub const ITEM_COUNT: usize = 6;

/// The entries, top to bottom. The list is written out by hand.
pub const ITEMS: [MenuItem; 6] = [
    MenuItem::Pong,
    MenuItem::Arkanoid,
    MenuItem::Asteroids,
    MenuItem::Shooter,
    MenuItem::Room,
    MenuItem::Quit,
];

/// The entry shown at position `index` of the list (top is 0).
pub open spec fn item_at(index: int) -> MenuItem {
    if index == 0 {
        MenuItem::Pong
    } else if index == 1 {
        MenuItem::Arkanoid
    } else if index == 2 {
        MenuItem::Asteroids
    } else if index == 3 {
        MenuItem::Shooter
    } else if index == 4 {
        MenuItem::Room
    } else {
        MenuItem::Quit
    }
}

/// Cursor position after one step down: the last entry wraps to the first.
pub open spec fn step_down(cursor: nat) -> nat {
    (cursor + 1) % (ITEM_COUNT as nat)
}

/// Cursor position after one step up: the first entry wraps to the last.
pub open spec fn step_up(cursor: nat) -> nat {
    ((cursor + ITEM_COUNT - 1) % (ITEM_COUNT as int)) as nat
}

impl MenuItem {
    /// The caption of the entry, in Latin capitals.
    pub open spec fn caption(self) -> Seq<char> {
        match self {
            MenuItem::Pong => "PONG"@,
            MenuItem::Arkanoid => "ARKANOID"@,
            MenuItem::Asteroids => "ASTEROIDS"@,
            MenuItem::Shooter => "SHOOTER"@,
            MenuItem::Room => "ROOM"@,
            MenuItem::Quit => "QUIT"@,
        }
    }

    /// Caption of the entry as drawn in the list.
    pub fn label(self) -> (text: &'static str)
        ensures
            text@ == self.caption(),
    {
        match self {
            MenuItem::Pong => "PONG",
            MenuItem::Arkanoid => "ARKANOID",
            MenuItem::Asteroids => "ASTEROIDS",
            MenuItem::Shooter => "SHOOTER",
            MenuItem::Room => "ROOM",
            MenuItem::Quit => "QUIT",
        }
    }
}

/// The cursor of the menu. Only the index is kept; the list itself is `ITEMS`.
pub struct Selection {
    cursor: usize,
}

impl View for Selection {
    type V = nat;

    closed spec fn view(&self) -> nat {
        self.cursor as nat
    }
}

impl Selection {
    #[verifier::type_invariant]
    spec fn within_list(self) -> bool {
        self.cursor < ITEM_COUNT
    }

    /// A fresh cursor on the first entry.
    pub fn new() -> (selection: Self)
        ensures
            selection@ == 0,
    {
        Self { cursor: 0 }
    }

    /// Index of the highlighted entry; always inside the list.
    pub fn cursor(&self) -> (index: usize)
        ensures
            index == self@,
            index < ITEM_COUNT,
    {
        proof {
            use_type_invariant(self);
        }
        self.cursor
    }

    /// Moves the cursor one entry down, from the last entry back to the first.
    pub fn move_down(&mut self)
        ensures
            final(self)@ == step_down(old(self)@),
    {
        proof {
            use_type_invariant(&*self);
        }
        self.cursor = (self.cursor + 1) % ITEM_COUNT;
    }

    /// Moves the cursor one entry up, from the first entry round to the last.
    pub fn move_up(&mut self)
        ensures
            final(self)@ == step_up(old(self)@),
    {
        proof {
            use_type_invariant(&*self);
        }
        self.cursor = (self.cursor + ITEM_COUNT - 1) % ITEM_COUNT;
    }

    /// The entry under the cursor: what pressing Enter asks for.
    pub fn confirm(&self) -> (item: MenuItem)
        ensures
            item == item_at(self@ as int),
    {
        proof {
            use_type_invariant(self);
        }
        ITEMS[self.cursor]
    }

    /// Escape asks for the same thing as the QUIT entry, wherever the cursor is.
    pub fn escape(&self) -> (item: MenuItem)
        ensures
            item == MenuItem::Quit,
    {
        MenuItem::Quit
    }

    /// What the keys of a frame ask for: Escape means quitting and wins over Enter, Enter picks
    /// the entry under the cursor, and otherwise nothing is asked.
    pub fn intent(&self, confirmed: bool, escaped: bool) -> (item: Option<MenuItem>)
        ensures
            item == (if escaped {
                Some(MenuItem::Quit)
            } else if confirmed {
                Some(item_at(self@ as int))
            } else {
                None
            }),
    {
        if escaped {
            Some(self.escape())
        } else if confirmed {
            Some(self.confirm())
        } else {
            None
        }
    }
}

impl Default for Selection {
    fn default() -> (selection: Self)
        ensures
            selection@ == 0,
    {
        Self::new()
    }
}

/// The cursor never leaves the list: one step in either direction from an entry lands on an entry.
pub proof fn steps_stay_in_list(cursor: nat)
    requires
        cursor < ITEM_COUNT,
    ensures
        step_down(cursor) < ITEM_COUNT,
        step_up(cursor) < ITEM_COUNT,
{
}

/// A step up undoes a step down, and a step down undoes a step up.
pub proof fn steps_undo_each_other(cursor: nat)
    requires
        cursor < ITEM_COUNT,
    ensures
        step_up(step_down(cursor)) == cursor,
        step_down(step_up(cursor)) == cursor,
{
}

/// Going down once per entry brings the cursor back where it started.
pub proof fn full_lap_down_returns(cursor: nat)
    requires
        cursor < ITEM_COUNT,
    ensures
        step_down(step_down(step_down(step_down(step_down(step_down(cursor)))))) == cursor,
{
}

/// The list holds each entry once, from PONG at the top to QUIT at the bottom, so Escape asks for
/// the same thing as the bottom entry.
pub proof fn entries_listed_once(i: int, j: int)
    requires
        0 <= i < ITEM_COUNT,
        0 <= j < ITEM_COUNT,
        i != j,
    ensures
        item_at(i) != item_at(j),
        item_at(0) == MenuItem::Pong,
        item_at(ITEM_COUNT - 1) == MenuItem::Quit,
{
}

} // verus!
