use vstd::prelude::*;

use crate::sht31::SHT31Reading;
use crate::InputEvt;

verus! {

/// The items of the calibration screen, in order.
#[derive(Clone, Copy, PartialEq, Eq, Structural, Debug)]
pub enum Selection {
    Temperature,
    Humidity,
    Done,
    Cancel,
}

/// Number of items of the calibration screen.
pub const SELECTION_LEN: u8 = 4;

impl Selection {
    /// Position of the item.
    pub open spec fn index(self) -> u8 {
        match self {
            Selection::Temperature => 0,
            Selection::Humidity => 1,
            Selection::Done => 2,
            Selection::Cancel => 3,
        }
    }

    /// The item at position `i` (positions past the last give the last).
    pub open spec fn from_index(i: u8) -> Selection {
        if i == 0 {
            Selection::Temperature
        } else if i == 1 {
            Selection::Humidity
        } else if i == 2 {
            Selection::Done
        } else {
            Selection::Cancel
        }
    }

    /// Position of the item.
    pub fn as_u8(self) -> (r: u8)
        ensures
            r == self.index(),
    {
        match self {
            Selection::Temperature => 0,
            Selection::Humidity => 1,
            Selection::Done => 2,
            Selection::Cancel => 3,
        }
    }

    /// The item at position `value`.
    pub fn from_u8(value: u8) -> (r: Self)
        requires
            value < SELECTION_LEN,
        ensures
            r == Selection::from_index(value),
    {
        match value {
            0 => Self::Temperature,
            1 => Self::Humidity,
            2 => Self::Done,
            _ => Self::Cancel,
        }
    }
}

impl core::ops::Add<u8> for Selection {
    type Output = Self;

    /// Moves `rhs` items on, stopping at the last.
    fn add(self, rhs: u8) -> (r: Self::Output) {
        let mut v = self.as_u8() + rhs;
        if v > SELECTION_LEN - 1 {
            v = SELECTION_LEN - 1
        };
        Selection::from_u8(v)
    }
}

impl vstd::std_specs::ops::AddSpecImpl<u8> for Selection {
    open spec fn obeys_add_spec() -> bool {
        true
    }

    open spec fn add_req(self, rhs: u8) -> bool {
        self.index() + rhs <= u8::MAX
    }

    open spec fn add_spec(self, rhs: u8) -> Self {
        Selection::from_index(vstd::math::min(self.index() + rhs, 3) as u8)
    }
}

impl core::ops::Sub<u8> for Selection {
    type Output = Self;

    /// Moves `rhs` items back; the first item stays.
    fn sub(self, rhs: u8) -> (r: Self::Output) {
        let v = if self.as_u8() > 0 {
            self.as_u8() - rhs
        } else {
            0
        };
        Selection::from_u8(v)
    }
}

impl vstd::std_specs::ops::SubSpecImpl<u8> for Selection {
    open spec fn obeys_sub_spec() -> bool {
        true
    }

    open spec fn sub_req(self, rhs: u8) -> bool {
        self.index() == 0 || rhs <= self.index()
    }

    open spec fn sub_spec(self, rhs: u8) -> Self {
        if self.index() > 0 {
            Selection::from_index((self.index() - rhs) as u8)
        } else {
            Selection::Temperature
        }
    }
}

/// Whether turning the knob moves between items or edits the highlighted value.
#[derive(Clone, Copy, PartialEq, Eq, Structural, Debug)]
pub enum Mode {
    Selection,
    Editing,
}

/// What the calibration screen asks of its owner after an input.
#[derive(Clone, Copy, PartialEq, Eq, Structural, Debug)]
pub enum OnInputFlag {
    Save(SHT31Reading),
    BackToMain,
    Nothing,
}

/// The calibration value being edited.
#[derive(Clone, Copy, PartialEq, Eq, Structural, Debug)]
pub enum CalibrationField {
    Temperature,
    Humidity,
}

/// The direction of an edit step.
#[derive(Clone, Copy, PartialEq, Eq, Structural, Debug)]
pub enum EditDirection {
    Increase,
    Decrease,
}

/// One edit step of a calibration value.
#[derive(Clone, Copy, PartialEq, Eq, Structural, Debug)]
pub struct CalibrationEdit {
    pub field: CalibrationField,
    pub direction: EditDirection,
}

/// What happens to the rapid-turn acceleration state on an input.
#[derive(Clone, Copy, PartialEq, Eq, Structural, Debug)]
pub enum HoldUpdate {
    /// Cleared (every input while selecting).
    Reset,
    /// Cleared if it is older than the hold expiry (every input while editing).
    Expire,
}

/// The outcome of an input on the calibration screen. The value step itself (0.1 plus
/// the acceleration of rapid turns, clamped to +-9.9) is floating-point arithmetic done
/// by the owner, which then stores the new calibration with `set_calibration`.
#[derive(Clone, Copy, PartialEq, Eq, Structural, Debug)]
pub struct SensorInput {
    pub flag: OnInputFlag,
    pub hold: HoldUpdate,
    pub edit: Option<CalibrationEdit>,
}

/// The calibration screen for the sensor offsets.
pub struct SensorMenu {
    selection: Selection,
    calibration: SHT31Reading,
    changed: bool,
    mode: Mode,
}

impl SensorMenu {
    /// Only the temperature and humidity items can be edited.
    #[verifier::type_invariant]
    spec fn inv(&self) -> bool {
        self.mode == Mode::Editing ==> (self.selection == Selection::Temperature
            || self.selection == Selection::Humidity)
    }

    pub closed spec fn selection(&self) -> Selection {
        self.selection
    }

    pub closed spec fn calibration(&self) -> SHT31Reading {
        self.calibration
    }

    /// Whether the screen must be drawn again.
    pub closed spec fn changed(&self) -> bool {
        self.changed
    }

    pub closed spec fn mode(&self) -> Mode {
        self.mode
    }

    /// The screen opened on the calibration `calibration`, selecting, with the
    /// temperature highlighted.
    pub fn new(calibration: SHT31Reading) -> (r: Self)
        ensures
            r.selection() == Selection::Temperature,
            r.calibration() == calibration,
            r.changed(),
            r.mode() == Mode::Selection,
    {
        Self { selection: Selection::from_u8(0), calibration, changed: true, mode: Mode::Selection }
    }

    /// While editing, only the temperature or the humidity is highlighted.
    pub fn editing_field(&self) -> (r: Option<CalibrationField>)
        ensures
            self.mode() == Mode::Editing ==> r is Some,
            r == (if self.mode() == Mode::Editing {
                Some(
                    if self.selection() == Selection::Temperature {
                        CalibrationField::Temperature
                    } else {
                        CalibrationField::Humidity
                    },
                )
            } else {
                None
            }),
    {
        proof {
            use_type_invariant(self);
        }
        match self.mode {
            Mode::Editing => match self.selection {
                Selection::Temperature => Some(CalibrationField::Temperature),
                _ => Some(CalibrationField::Humidity),
            },
            Mode::Selection => None,
        }
    }

    /// The highlighted item.
    pub fn selected(&self) -> (r: Selection)
        ensures
            r == self.selection(),
    {
        self.selection
    }

    /// The current mode.
    pub fn current_mode(&self) -> (r: Mode)
        ensures
            r == self.mode(),
    {
        self.mode
    }

    /// The calibration being edited.
    pub fn current_calibration(&self) -> (r: SHT31Reading)
        ensures
            r == self.calibration(),
    {
        self.calibration
    }

    /// Stores the edited calibration.
    pub fn set_calibration(&mut self, calibration: SHT31Reading)
        ensures
            final(self).calibration() == calibration,
            final(self).selection() == old(self).selection(),
            final(self).mode() == old(self).mode(),
            final(self).changed() == old(self).changed(),
    {
        proof {
            use_type_invariant(&*self);
        }
        self.calibration = calibration;
    }

    /// The decision of a display tick: the screen is drawn when it changed, and is then
    /// up to date.
    pub fn take_changed(&mut self) -> (r: bool)
        ensures
            r == old(self).changed(),
            !final(self).changed(),
            final(self).selection() == old(self).selection(),
            final(self).mode() == old(self).mode(),
            final(self).calibration() == old(self).calibration(),
    {
        proof {
            use_type_invariant(&*self);
        }
        let r = self.changed;
        self.changed = false;
        r
    }

    /// While selecting, turning moves the highlight one item (wrapping around) and the
    /// button edits the highlighted value, saves (Done) or leaves (Cancel). While
    /// editing, turning steps the edited value up or down and the button stops editing.
    pub fn on_input(&mut self, evt: InputEvt) -> (r: SensorInput)
        ensures
            final(self).changed(),
            final(self).calibration() == old(self).calibration(),
            (final(self).selection(), final(self).mode(), r) == sensor_menu_input(
                old(self).selection(),
                old(self).mode(),
                old(self).calibration(),
                evt,
            ),
    {
        proof {
            use_type_invariant(&*self);
        }
        self.changed = true;
        match self.mode {
            Mode::Selection => {
                let hold = HoldUpdate::Reset;
                match evt {
                    InputEvt::CounterClockwise => {
                        if self.selection.as_u8() == 0 {
                            self.selection = Selection::from_u8(SELECTION_LEN - 1);
                        } else {
                            self.selection = self.selection - 1;
                        }
                    },
                    InputEvt::Clockwise => {
                        if self.selection.as_u8() >= SELECTION_LEN - 1 {
                            self.selection = Selection::from_u8(0);
                        } else {
                            self.selection = self.selection + 1;
                        }
                    },
                    InputEvt::Enter => match self.selection {
                        Selection::Temperature | Selection::Humidity => self.mode = Mode::Editing,
                        Selection::Done => {
                            return SensorInput {
                                flag: OnInputFlag::Save(self.calibration),
                                hold,
                                edit: None,
                            };
                        },
                        Selection::Cancel => {
                            return SensorInput { flag: OnInputFlag::BackToMain, hold, edit: None };
                        },
                    },
                }
                SensorInput { flag: OnInputFlag::Nothing, hold, edit: None }
            },
            Mode::Editing => {
                let hold = HoldUpdate::Expire;
                let field = match self.selection {
                    Selection::Temperature => CalibrationField::Temperature,
                    _ => CalibrationField::Humidity,
                };
                let edit = match evt {
                    InputEvt::Clockwise => Some(CalibrationEdit { field, direction: EditDirection::Increase }),
                    InputEvt::CounterClockwise => Some(CalibrationEdit { field, direction: EditDirection::Decrease }),
                    InputEvt::Enter => {
                        self.mode = Mode::Selection;
                        None
                    },
                };
                SensorInput { flag: OnInputFlag::Nothing, hold, edit }
            },
        }
    }
}

/// The highlighted item, the mode and the outcome after input `evt`, with `selection`
/// highlighted in mode `mode` and the calibration `calibration`.
pub open spec fn sensor_menu_input(
    selection: Selection,
    mode: Mode,
    calibration: SHT31Reading,
    evt: InputEvt,
) -> (Selection, Mode, SensorInput) {
    match mode {
        Mode::Selection => {
            let nothing = SensorInput {
                flag: OnInputFlag::Nothing,
                hold: HoldUpdate::Reset,
                edit: None,
            };
            match evt {
                InputEvt::CounterClockwise => (
                    Selection::from_index(((selection.index() + 3) % 4) as u8),
                    Mode::Selection,
                    nothing,
                ),
                InputEvt::Clockwise => (
                    Selection::from_index(((selection.index() + 1) % 4) as u8),
                    Mode::Selection,
                    nothing,
                ),
                InputEvt::Enter => match selection {
                    Selection::Temperature | Selection::Humidity => (
                        selection,
                        Mode::Editing,
                        nothing,
                    ),
                    Selection::Done => (
                        selection,
                        Mode::Selection,
                        SensorInput { flag: OnInputFlag::Save(calibration), ..nothing },
                    ),
                    Selection::Cancel => (
                        selection,
                        Mode::Selection,
                        SensorInput { flag: OnInputFlag::BackToMain, ..nothing },
                    ),
                },
            }
        },
        Mode::Editing => {
            let field = if selection == Selection::Temperature {
                CalibrationField::Temperature
            } else {
                CalibrationField::Humidity
            };
            let edit = |direction: EditDirection|
                SensorInput {
                    flag: OnInputFlag::Nothing,
                    hold: HoldUpdate::Expire,
                    edit: Some(CalibrationEdit { field, direction }),
                };
            match evt {
                InputEvt::Clockwise => (selection, Mode::Editing, edit(EditDirection::Increase)),
                InputEvt::CounterClockwise => (
                    selection,
                    Mode::Editing,
                    edit(EditDirection::Decrease),
                ),
                InputEvt::Enter => (
                    selection,
                    Mode::Selection,
                    SensorInput { flag: OnInputFlag::Nothing, hold: HoldUpdate::Expire, edit: None },
                ),
            }
        },
    }
}

/// Editing only ever concerns the temperature or the humidity: from a state where that
/// holds, every input leads to a state where it holds, and an edit step names the
/// highlighted value.
pub proof fn lemma_sensor_menu_edits_values(
    selection: Selection,
    mode: Mode,
    calibration: SHT31Reading,
    evt: InputEvt,
)
    requires
        mode == Mode::Editing ==> (selection == Selection::Temperature || selection
            == Selection::Humidity),
    ensures
        ({
            let (s2, m2, out) = sensor_menu_input(selection, mode, calibration, evt);
            &&& m2 == Mode::Editing ==> (s2 == Selection::Temperature || s2 == Selection::Humidity)
            &&& out.edit matches Some(e) ==> (mode == Mode::Editing && (e.field
                == CalibrationField::Temperature <==> selection == Selection::Temperature))
        }),
{
}

/// Done saves the calibration unchanged and Cancel leaves without saving.
pub proof fn lemma_sensor_menu_done_cancel(calibration: SHT31Reading)
    ensures
        sensor_menu_input(Selection::Done, Mode::Selection, calibration, InputEvt::Enter).2.flag
            == OnInputFlag::Save(calibration),
        sensor_menu_input(Selection::Cancel, Mode::Selection, calibration, InputEvt::Enter).2.flag
            == OnInputFlag::BackToMain,
{
}

/// While selecting, turning moves the highlight exactly one item around the ring
/// Temperature, Humidity, Done, Cancel: clockwise to the next item, counter-clockwise to
/// the previous one, so each turn undoes the other. Turning keeps the selecting mode,
/// asks nothing of the owner and edits nothing.
pub proof fn lemma_sensor_menu_selection_ring(selection: Selection, calibration: SHT31Reading)
    ensures
        ({
            let next = sensor_menu_input(selection, Mode::Selection, calibration, InputEvt::Clockwise);
            let prev = sensor_menu_input(
                selection,
                Mode::Selection,
                calibration,
                InputEvt::CounterClockwise,
            );
            &&& next.0 == match selection {
                Selection::Temperature => Selection::Humidity,
                Selection::Humidity => Selection::Done,
                Selection::Done => Selection::Cancel,
                Selection::Cancel => Selection::Temperature,
            }
            &&& prev.0 == match selection {
                Selection::Temperature => Selection::Cancel,
                Selection::Humidity => Selection::Temperature,
                Selection::Done => Selection::Humidity,
                Selection::Cancel => Selection::Done,
            }
            &&& next.0.index() == (selection.index() + 1) % 4
            &&& prev.0.index() == (selection.index() + 3) % 4
            &&& sensor_menu_input(next.0, Mode::Selection, calibration, InputEvt::CounterClockwise).0
                == selection
            &&& sensor_menu_input(prev.0, Mode::Selection, calibration, InputEvt::Clockwise).0
                == selection
            &&& next.1 == Mode::Selection && prev.1 == Mode::Selection
            &&& next.2.flag == OnInputFlag::Nothing && prev.2.flag == OnInputFlag::Nothing
            &&& next.2.edit is None && prev.2.edit is None
        }),
{
}

/// While editing the temperature or the humidity, a clockwise turn steps the edited value
/// up and a counter-clockwise turn steps it down, whichever of the two is edited; the
/// button stops editing without a step. The highlight stays on the edited item.
pub proof fn lemma_sensor_menu_edit_direction(selection: Selection, calibration: SHT31Reading)
    requires
        selection == Selection::Temperature || selection == Selection::Humidity,
    ensures
        ({
            let field = if selection == Selection::Temperature {
                CalibrationField::Temperature
            } else {
                CalibrationField::Humidity
            };
            let up = sensor_menu_input(selection, Mode::Editing, calibration, InputEvt::Clockwise);
            let down = sensor_menu_input(
                selection,
                Mode::Editing,
                calibration,
                InputEvt::CounterClockwise,
            );
            let done = sensor_menu_input(selection, Mode::Editing, calibration, InputEvt::Enter);
            &&& up.0 == selection && up.1 == Mode::Editing
            &&& up.2.edit == Some(CalibrationEdit { field, direction: EditDirection::Increase })
            &&& up.2.flag == OnInputFlag::Nothing
            &&& down.0 == selection && down.1 == Mode::Editing
            &&& down.2.edit == Some(CalibrationEdit { field, direction: EditDirection::Decrease })
            &&& down.2.flag == OnInputFlag::Nothing
            &&& done.0 == selection && done.1 == Mode::Selection && done.2.edit is None
            &&& done.2.flag == OnInputFlag::Nothing
        }),
{
}

} // verus!
