use vstd::prelude::*;

use crate::sht31::SHT31Reading;

verus! {

/// A navigation direction of the side bar.
#[derive(Clone, Copy, PartialEq, Eq, Structural, Debug)]
pub enum InputDirection {
    Up,
    Down,
}

/// Number of side bar entries.
pub const MENU_ITEM_LEN: u8 = 3;

/// A main screen whose side bar is navigated by direction, with the highlighted entry
/// held as its position.
pub struct MainMenu {
    selected_side_menu_id: u8,
    changed: bool,
    climate: Option<SHT31Reading>,
}

impl MainMenu {
    #[verifier::type_invariant]
    spec fn inv(&self) -> bool {
        self.selected_side_menu_id < MENU_ITEM_LEN
    }

    /// Position of the highlighted entry.
    pub closed spec fn selected_id(&self) -> u8 {
        self.selected_side_menu_id
    }

    /// Whether the screen must be drawn again.
    pub closed spec fn changed(&self) -> bool {
        self.changed
    }

    /// The climate reading shown, if one arrived.
    pub closed spec fn climate(&self) -> Option<SHT31Reading> {
        self.climate
    }

    /// The screen with the first entry highlighted and no climate reading.
    pub fn new() -> (r: Self)
        ensures
            r.selected_id() == 0,
            r.changed(),
            r.climate() is None,
    {
        Self { selected_side_menu_id: 0, changed: true, climate: None }
    }

    /// Shows a new climate reading.
    pub fn set_climate(&mut self, climate: SHT31Reading)
        ensures
            final(self).climate() == Some(climate),
            final(self).changed(),
            final(self).selected_id() == old(self).selected_id(),
    {
        proof {
            use_type_invariant(&*self);
        }
        self.climate = Some(climate);
        self.changed = true;
    }

    /// Position of the highlighted entry.
    pub fn selected(&self) -> (r: u8)
        ensures
            r == self.selected_id(),
            r < MENU_ITEM_LEN,
    {
        proof {
            use_type_invariant(self);
        }
        self.selected_side_menu_id
    }

    /// Moves the highlight one entry up or down, stopping at both ends. Returns whether
    /// the side bar animation restarts, from the old position (or the animation's
    /// current position) to the new one: whenever the screen is marked as changed.
    pub fn menu_set(&mut self, dir: InputDirection) -> (r: bool)
        ensures
            final(self).climate() == old(self).climate(),
            final(self).selected_id() < MENU_ITEM_LEN,
            match dir {
                InputDirection::Up => if old(self).selected_id() > 0 {
                    final(self).selected_id() == old(self).selected_id() - 1 && final(self).changed()
                } else {
                    final(self).selected_id() == 0 && final(self).changed() == old(self).changed()
                },
                InputDirection::Down => if old(self).selected_id() < MENU_ITEM_LEN - 1 {
                    final(self).selected_id() == old(self).selected_id() + 1 && final(self).changed()
                } else {
                    final(self).selected_id() == old(self).selected_id() && final(self).changed()
                        == old(self).changed()
                },
            },
            r == final(self).changed(),
    {
        proof {
            use_type_invariant(&*self);
        }
        match dir {
            InputDirection::Up => {
                if self.selected_side_menu_id > 0 {
                    self.selected_side_menu_id -= 1;
                    self.changed = true;
                }
            },
            InputDirection::Down => {
                if self.selected_side_menu_id < MENU_ITEM_LEN - 1 {
                    self.selected_side_menu_id += 1;
                    self.changed = true;
                }
            },
        }
        self.changed
    }

    /// The start of a display tick: the screen is drawn when it changed or the side bar
    /// is animating, and is then up to date.
    pub fn tick_begin(&mut self, lerp_active: bool) -> (r: bool)
        ensures
            r == (old(self).changed() || lerp_active),
            final(self).changed() == (old(self).changed() && !r),
            final(self).selected_id() == old(self).selected_id(),
            final(self).climate() == old(self).climate(),
    {
        proof {
            use_type_invariant(&*self);
        }
        if !self.changed && !lerp_active {
            return false;
        }
        self.changed = false;
        true
    }

    /// The end of a display tick that drew the screen: while the side bar was animating
    /// the screen is drawn again on the next tick.
    pub fn tick_end(&mut self, lerp_was_active: bool)
        ensures
            final(self).changed() == (old(self).changed() || lerp_was_active),
            final(self).selected_id() == old(self).selected_id(),
            final(self).climate() == old(self).climate(),
    {
        proof {
            use_type_invariant(&*self);
        }
        if lerp_was_active {
            self.changed = true;
        }
    }
}

} // verus!
