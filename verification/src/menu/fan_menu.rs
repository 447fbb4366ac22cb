use vstd::prelude::*;

use crate::InputEvt;

verus! {

/// The fan speeds, in increasing order.
#[derive(Clone, Copy, PartialEq, Eq, Structural, Debug)]
pub enum FanSpeed {
    Low,
    Medium,
    High,
    Max,
}

/// Number of fan speeds.
pub const FAN_SPEED_LEN: u8 = 4;

impl FanSpeed {
    /// Position of the speed in increasing order.
    pub open spec fn index(self) -> u8 {
        match self {
            FanSpeed::Low => 0,
            FanSpeed::Medium => 1,
            FanSpeed::High => 2,
            FanSpeed::Max => 3,
        }
    }

    /// The speed at position `i` (positions past the last give the last).
    pub open spec fn from_index(i: u8) -> FanSpeed {
        if i == 0 {
            FanSpeed::Low
        } else if i == 1 {
            FanSpeed::Medium
        } else if i == 2 {
            FanSpeed::High
        } else {
            FanSpeed::Max
        }
    }

    /// Position of the speed in increasing order.
    pub fn as_u8(self) -> (r: u8)
        ensures
            r == self.index(),
    {
        match self {
            FanSpeed::Low => 0,
            FanSpeed::Medium => 1,
            FanSpeed::High => 2,
            FanSpeed::Max => 3,
        }
    }

    /// The PWM duty cycle of the speed, in percent: the speeds are spread evenly up to
    /// full duty, 25 % per step (Low 25, Medium 50, High 75, Max 100).
    pub fn as_percent(self) -> (r: u8)
        ensures
            r == (self.index() + 1) * 25,
            0 < r <= 100,
    {
        (self.as_u8() + 1) * (100 / FAN_SPEED_LEN)
    }
}

impl TryFrom<u8> for FanSpeed {
    type Error = ();

    fn try_from(value: u8) -> (r: Result<Self, Self::Error>) {
        match value {
            0 => Ok(Self::Low),
            1 => Ok(Self::Medium),
            2 => Ok(Self::High),
            3 => Ok(Self::Max),
            _ => Err(()),
        }
    }
}

impl vstd::std_specs::convert::TryFromSpecImpl<u8> for FanSpeed {
    open spec fn obeys_try_from_spec() -> bool {
        true
    }

    open spec fn try_from_spec(v: u8) -> Result<Self, Self::Error> {
        if v < 4 {
            Ok(FanSpeed::from_index(v))
        } else {
            Err(())
        }
    }
}

impl core::ops::Add<u8> for FanSpeed {
    type Output = Self;

    /// Moves `rhs` speeds up, stopping at the highest.
    fn add(self, rhs: u8) -> (r: Self::Output) {
        let mut v = self.as_u8() + rhs;
        if v > FAN_SPEED_LEN - 1 {
            v = FAN_SPEED_LEN - 1
        };
        Self::try_from(v).unwrap()
    }
}

impl vstd::std_specs::ops::AddSpecImpl<u8> for FanSpeed {
    open spec fn obeys_add_spec() -> bool {
        true
    }

    open spec fn add_req(self, rhs: u8) -> bool {
        self.index() + rhs <= u8::MAX
    }

    open spec fn add_spec(self, rhs: u8) -> Self {
        FanSpeed::from_index(vstd::math::min(self.index() + rhs, 3) as u8)
    }
}

impl core::ops::Sub<u8> for FanSpeed {
    type Output = Self;

    /// Moves `rhs` speeds down; the lowest speed stays.
    fn sub(self, rhs: u8) -> (r: Self::Output) {
        let v = if self.as_u8() > 0 {
            self.as_u8() - rhs
        } else {
            0
        };
        Self::try_from(v).unwrap()
    }
}

impl vstd::std_specs::ops::SubSpecImpl<u8> for FanSpeed {
    open spec fn obeys_sub_spec() -> bool {
        true
    }

    open spec fn sub_req(self, rhs: u8) -> bool {
        self.index() == 0 || rhs <= self.index()
    }

    open spec fn sub_spec(self, rhs: u8) -> Self {
        if self.index() > 0 {
            FanSpeed::from_index((self.index() - rhs) as u8)
        } else {
            FanSpeed::Low
        }
    }
}

impl From<FanSpeed> for &'static str {
    /// The label shown for the speed.
    fn from(speed: FanSpeed) -> (r: &'static str) {
        match speed {
            FanSpeed::Low => "Low",
            FanSpeed::Medium => "Medium",
            FanSpeed::High => "High",
            FanSpeed::Max => "Max",
        }
    }
}

impl vstd::std_specs::convert::FromSpecImpl<FanSpeed> for &'static str {
    open spec fn obeys_from_spec() -> bool {
        true
    }

    open spec fn from_spec(speed: FanSpeed) -> &'static str {
        match speed {
            FanSpeed::Low => "Low",
            FanSpeed::Medium => "Medium",
            FanSpeed::High => "High",
            FanSpeed::Max => "Max",
        }
    }
}

/// What the fan menu asks of its owner after an input.
#[derive(Clone, Copy, PartialEq, Eq, Structural, Debug)]
pub enum OnInputFlag {
    BackToMenu,
    Save(FanSpeed),
    Nothing,
}

/// How a row of the fan menu is drawn.
#[derive(Clone, Copy, PartialEq, Eq, Structural, Debug)]
pub enum RowStyle {
    /// The stored speed: filled box, inverted text.
    Saved,
    /// The highlighted speed: outlined box.
    Selected,
    /// Any other speed: text only.
    Plain,
}

/// The fan speed selection screen.
pub struct FanMenu {
    saved_fan_speed: FanSpeed,
    selected: FanSpeed,
    changed: bool,
}

impl FanMenu {
    pub closed spec fn saved(&self) -> FanSpeed {
        self.saved_fan_speed
    }

    pub closed spec fn selected(&self) -> FanSpeed {
        self.selected
    }

    /// Whether the screen must be drawn again.
    pub closed spec fn changed(&self) -> bool {
        self.changed
    }

    /// The menu opened with `saved_fan_speed` stored: the lowest speed is highlighted.
    pub fn new(saved_fan_speed: FanSpeed) -> (r: Self)
        ensures
            r.saved() == saved_fan_speed,
            r.selected() == FanSpeed::Low,
            r.changed(),
    {
        Self { selected: FanSpeed::try_from(0u8).unwrap(), saved_fan_speed, changed: true }
    }

    /// How row `i` (the speed at position `i`) is drawn.
    pub fn row_style(&self, i: u8) -> (r: RowStyle)
        requires
            i < FAN_SPEED_LEN,
        ensures
            r == (if self.saved().index() == i {
                RowStyle::Saved
            } else if self.selected().index() == i {
                RowStyle::Selected
            } else {
                RowStyle::Plain
            }),
    {
        let speed = FanSpeed::try_from(i).unwrap();
        if self.saved_fan_speed == speed {
            RowStyle::Saved
        } else if self.selected == speed {
            RowStyle::Selected
        } else {
            RowStyle::Plain
        }
    }

    /// The stored speed.
    pub fn saved_fan_speed(&self) -> (r: FanSpeed)
        ensures
            r == self.saved(),
    {
        self.saved_fan_speed
    }

    /// The decision of a display tick: the screen is drawn when it changed, and is then
    /// up to date.
    pub fn take_changed(&mut self) -> (r: bool)
        ensures
            r == old(self).changed(),
            !final(self).changed(),
            final(self).saved() == old(self).saved(),
            final(self).selected() == old(self).selected(),
    {
        let r = self.changed;
        self.changed = false;
        r
    }

    /// Turning moves the highlight one speed, wrapping around at both ends; the button
    /// saves the highlighted speed, or goes back when it is the stored one.
    pub fn on_input(&mut self, evt: InputEvt) -> (r: OnInputFlag)
        ensures
            final(self).changed(),
            final(self).saved() == old(self).saved(),
            (final(self).selected(), r) == fan_menu_input(old(self).saved(), old(self).selected(), evt),
    {
        self.changed = true;
        match evt {
            InputEvt::CounterClockwise => {
                if self.selected.as_u8() == 0 {
                    self.selected = FanSpeed::try_from(FAN_SPEED_LEN - 1).unwrap();
                } else {
                    self.selected = self.selected - 1;
                }
            },
            InputEvt::Clockwise => {
                if self.selected.as_u8() >= FAN_SPEED_LEN - 1 {
                    self.selected = FanSpeed::try_from(0u8).unwrap();
                } else {
                    self.selected = self.selected + 1;
                }
            },
            InputEvt::Enter => {
                if self.selected != self.saved_fan_speed {
                    return OnInputFlag::Save(self.selected);
                } else {
                    return OnInputFlag::BackToMenu;
                }
            },
        };
        OnInputFlag::Nothing
    }
}

/// The highlighted speed and the request after input `evt`, with `saved` stored and
/// `selected` highlighted.
pub open spec fn fan_menu_input(saved: FanSpeed, selected: FanSpeed, evt: InputEvt) -> (
    FanSpeed,
    OnInputFlag,
) {
    match evt {
        InputEvt::CounterClockwise => (
            FanSpeed::from_index(((selected.index() + 3) % 4) as u8),
            OnInputFlag::Nothing,
        ),
        InputEvt::Clockwise => (
            FanSpeed::from_index(((selected.index() + 1) % 4) as u8),
            OnInputFlag::Nothing,
        ),
        InputEvt::Enter => (
            selected,
            if selected != saved {
                OnInputFlag::Save(selected)
            } else {
                OnInputFlag::BackToMenu
            },
        ),
    }
}

/// Turning back undoes turning forward, and four turns in one direction come back to
/// the start.
pub proof fn lemma_fan_menu_turns(saved: FanSpeed, selected: FanSpeed)
    ensures
        ({
            let cw = fan_menu_input(saved, selected, InputEvt::Clockwise).0;
            fan_menu_input(saved, cw, InputEvt::CounterClockwise).0 == selected
        }),
        ({
            let ccw = fan_menu_input(saved, selected, InputEvt::CounterClockwise).0;
            fan_menu_input(saved, ccw, InputEvt::Clockwise).0 == selected
        }),
        ({
            let s1 = fan_menu_input(saved, selected, InputEvt::Clockwise).0;
            let s2 = fan_menu_input(saved, s1, InputEvt::Clockwise).0;
            let s3 = fan_menu_input(saved, s2, InputEvt::Clockwise).0;
            fan_menu_input(saved, s3, InputEvt::Clockwise).0 == selected
        }),
{
}

/// The button saves the highlighted speed whenever it differs from the stored one,
/// whatever the speed, and otherwise goes back to the menu without saving; it never moves
/// the highlight.
pub proof fn lemma_fan_menu_enter(saved: FanSpeed, selected: FanSpeed)
    ensures
        ({
            let (s, flag) = fan_menu_input(saved, selected, InputEvt::Enter);
            &&& s == selected
            &&& selected != saved ==> flag == OnInputFlag::Save(selected)
            &&& selected == saved ==> flag == OnInputFlag::BackToMenu
        }),
{
}

} // verus!
