use vstd::prelude::*;

verus! {

/// Number of menu entries.
pub const MENU_ITEMS_TOTAL: isize = 5;

/// The menu entries, in display order. The selectable index runs over the
/// first five variants; `ItemsTotal` only names their count.
#[derive(Clone, Copy, Debug, PartialEq, Eq, Structural)]
pub enum MenuChoices {
    Resume,
    ToggleSounds,
    ToggleParticles,
    Restart,
    Quit,
    ItemsTotal,
}

impl MenuChoices {
    /// How many selectable menu entries there are.
    pub fn items_total() -> (n: isize)
        ensures
            n == MENU_ITEMS_TOTAL,
    {
        MENU_ITEMS_TOTAL
    }
}

/// The menu state: the currently selected index, in `[0, MENU_ITEMS_TOTAL)`.
#[derive(Clone, Copy, Debug)]
pub struct Menu {
    pub current_menu_choice: isize,
}

/// `advance_menu_choice` subtracts the delta and wraps the result back into
/// `[0, MENU_ITEMS_TOTAL)`: once upward at the bottom, once downward at the
/// top.
pub open spec fn wrapped_choice(c: int, delta: int) -> int {
    let c1 = c - delta;
    let c2 = if c1 < 0 {
        c1 + MENU_ITEMS_TOTAL
    } else {
        c1
    };
    if c2 >= MENU_ITEMS_TOTAL {
        c2 - MENU_ITEMS_TOTAL
    } else {
        c2
    }
}

impl Menu {
    pub fn new(current_menu_choice: isize) -> (m: Menu)
        ensures
            m.current_menu_choice == current_menu_choice,
    {
        Menu { current_menu_choice }
    }

    /// Moves the selection `delta` entries up (or down, for a negative
    /// delta), wrapping around at either end.
    pub fn advance_menu_choice(&mut self, delta: isize)
        requires
            0 <= old(self).current_menu_choice < MENU_ITEMS_TOTAL,
            -MENU_ITEMS_TOTAL <= delta <= MENU_ITEMS_TOTAL,
        ensures
            final(self).current_menu_choice == wrapped_choice(
                old(self).current_menu_choice as int,
                delta as int,
            ),
            0 <= final(self).current_menu_choice < MENU_ITEMS_TOTAL,
    {
        self.current_menu_choice -= delta;

        if self.current_menu_choice < 0 {
            self.current_menu_choice += MENU_ITEMS_TOTAL;
        }

        if self.current_menu_choice >= MENU_ITEMS_TOTAL {
            self.current_menu_choice -= MENU_ITEMS_TOTAL;
        }
    }
}

} // verus!
