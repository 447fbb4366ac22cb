use vstd::prelude::*;

use crate::sht31::SHT31Reading;
use crate::InputEvt;

verus! {

/// The entries of the main menu's side bar, from top to bottom.
#[derive(Clone, Copy, PartialEq, Eq, Structural, Debug)]
pub enum Selection {
    Fan,
    Wifi,
    Sensor,
}

/// Number of side bar entries.
pub const SELECTION_LEN: u8 = 3;

impl Selection {
    /// Position of the entry, from the top.
    pub open spec fn index(self) -> u8 {
        match self {
            Selection::Fan => 0,
            Selection::Wifi => 1,
            Selection::Sensor => 2,
        }
    }

    /// The entry at position `i` (positions past the last give the last).
    pub open spec fn from_index(i: u8) -> Selection {
        if i == 0 {
            Selection::Fan
        } else if i == 1 {
            Selection::Wifi
        } else {
            Selection::Sensor
        }
    }

    /// Position of the entry, from the top.
    pub fn as_u8(self) -> (r: u8)
        ensures
            r == self.index(),
    {
        match self {
            Selection::Fan => 0,
            Selection::Wifi => 1,
            Selection::Sensor => 2,
        }
    }

    /// The entry at position `value`.
    pub fn from_u8(value: u8) -> (r: Self)
        requires
            value < SELECTION_LEN,
        ensures
            r == Selection::from_index(value),
    {
        match value {
            0 => Self::Fan,
            1 => Self::Wifi,
            _ => Self::Sensor,
        }
    }
}

impl core::ops::Add<u8> for Selection {
    type Output = Selection;

    /// Moves `rhs` entries down, stopping at the last.
    fn add(self, rhs: u8) -> (r: Self::Output) {
        let mut v = self.as_u8() + rhs;
        if v > SELECTION_LEN - 1 {
            v = SELECTION_LEN - 1
        };
        Selection::from_u8(v)
    }
}

impl vstd::std_specs::ops::AddSpecImpl<u8> for Selection {
    open spec fn obeys_add_spec() -> bool {
        true
    }

    open spec fn add_req(self, rhs: u8) -> bool {
        self.index() + rhs <= u8::MAX
    }

    open spec fn add_spec(self, rhs: u8) -> Self {
        Selection::from_index(vstd::math::min(self.index() + rhs, 2) as u8)
    }
}

impl core::ops::Sub<u8> for Selection {
    type Output = Selection;

    /// Moves `rhs` entries up; the first entry stays.
    fn sub(self, rhs: u8) -> (r: Self::Output) {
        let v = if self.as_u8() > 0 {
            self.as_u8() - rhs
        } else {
            0
        };
        Selection::from_u8(v)
    }
}

impl vstd::std_specs::ops::SubSpecImpl<u8> for Selection {
    open spec fn obeys_sub_spec() -> bool {
        true
    }

    open spec fn sub_req(self, rhs: u8) -> bool {
        self.index() == 0 || rhs <= self.index()
    }

    open spec fn sub_spec(self, rhs: u8) -> Self {
        if self.index() > 0 {
            Selection::from_index((self.index() - rhs) as u8)
        } else {
            Selection::Fan
        }
    }
}

/// What the main menu asks of its owner after an input.
#[derive(Clone, Copy, PartialEq, Eq, Structural, Debug)]
pub enum OnInputFlag {
    ToSensorMenu,
    ToFanMenu,
    Nothing,
}

/// The main screen: the latest climate reading and a side bar of sub-menus.
pub struct MainMenu {
    selected: Selection,
    changed: bool,
    climate: Option<SHT31Reading>,
}

impl MainMenu {
    pub closed spec fn selected(&self) -> Selection {
        self.selected
    }

    /// Whether the screen must be drawn again.
    pub closed spec fn changed(&self) -> bool {
        self.changed
    }

    /// The climate reading shown, if one arrived.
    pub closed spec fn climate(&self) -> Option<SHT31Reading> {
        self.climate
    }

    /// The main screen with `selected` highlighted (the first entry if none is given)
    /// and no climate reading yet.
    pub fn new(selected: Option<Selection>) -> (r: Self)
        ensures
            r.selected() == (match selected {
                Some(s) => s,
                None => Selection::Fan,
            }),
            r.changed(),
            r.climate() is None,
    {
        Self {
            selected: match selected {
                Some(s) => s,
                None => Selection::from_u8(0),
            },
            changed: true,
            climate: None,
        }
    }

    /// Shows a new climate reading.
    pub fn set_climate(&mut self, climate: SHT31Reading)
        ensures
            final(self).climate() == Some(climate),
            final(self).changed(),
            final(self).selected() == old(self).selected(),
    {
        self.climate = Some(climate);
        self.changed = true;
    }

    /// The highlighted entry.
    pub fn selection(&self) -> (r: Selection)
        ensures
            r == self.selected(),
    {
        self.selected
    }

    /// The climate reading shown.
    pub fn climate_reading(&self) -> (r: Option<SHT31Reading>)
        ensures
            r == self.climate(),
    {
        self.climate
    }

    /// Turning moves the highlight one entry, stopping at both ends; the button opens the
    /// highlighted sub-menu (the WiFi entry opens nothing).
    pub fn on_input(&mut self, evt: InputEvt) -> (r: OnInputFlag)
        ensures
            final(self).climate() == old(self).climate(),
            (final(self).selected(), final(self).changed(), r) == main_menu_input(
                old(self).selected(),
                old(self).changed(),
                evt,
            ),
    {
        match evt {
            InputEvt::CounterClockwise => {
                if self.selected.as_u8() > 0 {
                    self.selected = self.selected - 1;
                    self.changed = true;
                }
            },
            InputEvt::Clockwise => {
                if self.selected.as_u8() < SELECTION_LEN - 1 {
                    self.selected = self.selected + 1;
                    self.changed = true;
                }
            },
            InputEvt::Enter => {
                return match self.selected {
                    Selection::Sensor => OnInputFlag::ToSensorMenu,
                    Selection::Fan => OnInputFlag::ToFanMenu,
                    Selection::Wifi => OnInputFlag::Nothing,
                };
            },
        }
        OnInputFlag::Nothing
    }

    /// Whether the side bar animation restarts after `on_input(evt)`: after a turn, when
    /// the screen is marked as changed.
    pub fn restarts_side_lerp(&self, evt: InputEvt) -> (r: bool)
        ensures
            r == (evt != InputEvt::Enter && self.changed()),
    {
        evt != InputEvt::Enter && self.changed
    }

    /// The start of a display tick: the screen is drawn when it changed or the side bar
    /// is animating, and is then up to date.
    pub fn tick_begin(&mut self, lerp_active: bool) -> (r: bool)
        ensures
            r == (old(self).changed() || lerp_active),
            final(self).changed() == (old(self).changed() && !r),
            final(self).selected() == old(self).selected(),
            final(self).climate() == old(self).climate(),
    {
        if !self.changed && !lerp_active {
            return false;
        }
        self.changed = false;
        true
    }

    /// The end of a display tick that drew the screen: while the side bar was animating
    /// the screen is drawn again on the next tick.
    pub fn tick_end(&mut self, lerp_was_active: bool)
        ensures
            final(self).changed() == (old(self).changed() || lerp_was_active),
            final(self).selected() == old(self).selected(),
            final(self).climate() == old(self).climate(),
    {
        if lerp_was_active {
            self.changed = true;
        }
    }
}

/// The highlighted entry, the changed mark and the request after input `evt`, with
/// `selected` highlighted and the changed mark `changed`.
pub open spec fn main_menu_input(selected: Selection, changed: bool, evt: InputEvt) -> (
    Selection,
    bool,
    OnInputFlag,
) {
    match evt {
        InputEvt::CounterClockwise => if selected.index() > 0 {
            (Selection::from_index((selected.index() - 1) as u8), true, OnInputFlag::Nothing)
        } else {
            (selected, changed, OnInputFlag::Nothing)
        },
        InputEvt::Clockwise => if selected.index() < 2 {
            (Selection::from_index((selected.index() + 1) as u8), true, OnInputFlag::Nothing)
        } else {
            (selected, changed, OnInputFlag::Nothing)
        },
        InputEvt::Enter => (
            selected,
            changed,
            match selected {
                Selection::Sensor => OnInputFlag::ToSensorMenu,
                Selection::Fan => OnInputFlag::ToFanMenu,
                Selection::Wifi => OnInputFlag::Nothing,
            },
        ),
    }
}

/// The highlight never leaves the side bar: turning stops at the first and the last
/// entry.
pub proof fn lemma_main_menu_saturates(changed: bool)
    ensures
        main_menu_input(Selection::Fan, changed, InputEvt::CounterClockwise).0 == Selection::Fan,
        main_menu_input(Selection::Sensor, changed, InputEvt::Clockwise).0 == Selection::Sensor,
{
}

/// Turning moves the highlight exactly one entry along the side bar Fan, WiFi, Sensor:
/// clockwise one entry down, counter-clockwise one entry up, stopping at the ends; a turn
/// that moves is undone by the opposite turn, and turning never opens a sub-menu.
pub proof fn lemma_main_menu_moves_one_entry(selected: Selection, changed: bool)
    ensures
        ({
            let down = main_menu_input(selected, changed, InputEvt::Clockwise);
            let up = main_menu_input(selected, changed, InputEvt::CounterClockwise);
            &&& down.0 == match selected {
                Selection::Fan => Selection::Wifi,
                Selection::Wifi => Selection::Sensor,
                Selection::Sensor => Selection::Sensor,
            }
            &&& up.0 == match selected {
                Selection::Fan => Selection::Fan,
                Selection::Wifi => Selection::Fan,
                Selection::Sensor => Selection::Wifi,
            }
            &&& selected.index() < 2 ==> down.0.index() == selected.index() + 1 && down.1
                && main_menu_input(down.0, down.1, InputEvt::CounterClockwise).0 == selected
            &&& selected.index() > 0 ==> up.0.index() == selected.index() - 1 && up.1
                && main_menu_input(up.0, up.1, InputEvt::Clockwise).0 == selected
            &&& down.2 == OnInputFlag::Nothing && up.2 == OnInputFlag::Nothing
        }),
{
}

} // verus!
