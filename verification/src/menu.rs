use vstd::prelude::*;

pub mod fan_menu;
pub mod main_menu;
pub mod sensor_menu;

use crate::menu::fan_menu::{fan_menu_input, FanMenu, FanSpeed};
use crate::menu::main_menu::{main_menu_input, MainMenu, Selection};
use crate::menu::sensor_menu::{sensor_menu_input, Mode, SensorInput, SensorMenu};
use crate::sht31::SHT31Reading;
use crate::InputEvt;

verus! {

/// The screen shown.
pub enum Menu {
    MainMenu(MainMenu),
    SensorMenu(SensorMenu),
    FanMenu(FanMenu),
}

/// Work the menu task asks for after a step.
#[derive(Clone, Copy, PartialEq, Eq, Structural, Debug)]
pub enum MenuAction {
    /// Store the fan speed in the EEPROM and drive the fan at it.
    SaveFanSpeed(FanSpeed),
    /// Store the calibration in the EEPROM and hand it to the sensor task.
    SaveCalibration(SHT31Reading),
}

/// The outcome of one step of the menu task.
pub struct MenuStep {
    pub action: Option<MenuAction>,
    /// Another screen is now shown: its animation and editing state start afresh.
    pub switched: bool,
    /// The main screen's side bar animation restarts.
    pub restart_side_lerp: bool,
    /// What the calibration screen made of the input, when it was shown.
    pub sensor: Option<SensorInput>,
}

/// The state of the menu task: the screen shown, the latest climate reading, and the
/// stored calibration and fan speed.
pub struct MenuTask {
    menu: Menu,
    saved_climate: Option<SHT31Reading>,
    calibration: SHT31Reading,
    fan_speed: FanSpeed,
}

/// A main screen opened on `selected` that shows `climate`.
pub open spec fn is_main_screen(m: MainMenu, selected: Selection, climate: Option<SHT31Reading>) -> bool {
    &&& m.selected() == selected
    &&& m.changed()
    &&& m.climate() == climate
}

fn main_screen(selected: Selection, climate: Option<SHT31Reading>) -> (r: MainMenu)
    ensures
        is_main_screen(r, selected, climate),
{
    let mut m = MainMenu::new(Some(selected));
    if let Some(c) = climate {
        m.set_climate(c);
    }
    m
}

impl MenuTask {
    pub closed spec fn menu(&self) -> Menu {
        self.menu
    }

    pub closed spec fn saved_climate(&self) -> Option<SHT31Reading> {
        self.saved_climate
    }

    pub closed spec fn calibration(&self) -> SHT31Reading {
        self.calibration
    }

    pub closed spec fn fan_speed(&self) -> FanSpeed {
        self.fan_speed
    }

    /// The task started with the stored calibration and fan speed, on the main screen.
    pub fn new(calibration: SHT31Reading, fan_speed: FanSpeed) -> (r: Self)
        ensures
            r.menu() matches Menu::MainMenu(m) && m.selected() == Selection::Fan && m.changed()
                && m.climate() is None,
            r.saved_climate() is None,
            r.calibration() == calibration,
            r.fan_speed() == fan_speed,
    {
        MenuTask {
            menu: Menu::MainMenu(MainMenu::new(None)),
            saved_climate: None,
            calibration,
            fan_speed,
        }
    }

    /// Whether this step receives a climate reading: only the main screen does.
    pub fn reads_climate(&self) -> (r: bool)
        ensures
            r == self.menu() is MainMenu,
    {
        match &self.menu {
            Menu::MainMenu(_) => true,
            _ => false,
        }
    }

    /// Whether this step receives the input a second time and uses that one: the
    /// calibration screen does.
    pub fn rereads_input(&self) -> (r: bool)
        ensures
            r == self.menu() is SensorMenu,
    {
        match &self.menu {
            Menu::SensorMenu(_) => true,
            _ => false,
        }
    }

    /// The screen shown.
    pub fn current_menu(&self) -> (r: &Menu)
        ensures
            *r == self.menu(),
    {
        &self.menu
    }

    /// Stores an edited calibration in the calibration screen; other screens are left
    /// unchanged.
    pub fn set_sensor_calibration(&mut self, calibration: SHT31Reading)
        ensures
            final(self).saved_climate() == old(self).saved_climate(),
            final(self).calibration() == old(self).calibration(),
            final(self).fan_speed() == old(self).fan_speed(),
            match old(self).menu() {
                Menu::SensorMenu(s) => final(self).menu() matches Menu::SensorMenu(s2)
                    && s2.calibration() == calibration && s2.selection() == s.selection()
                    && s2.mode() == s.mode() && s2.changed() == s.changed(),
                _ => final(self).menu() == old(self).menu(),
            },
    {
        match &mut self.menu {
            Menu::SensorMenu(s) => s.set_calibration(calibration),
            _ => {},
        }
    }

    /// The decision of a display tick: whether the screen is drawn (the main screen also
    /// while its side bar animates), after which it is up to date.
    pub fn tick_begin(&mut self, lerp_active: bool) -> (r: bool)
        ensures
            final(self).saved_climate() == old(self).saved_climate(),
            final(self).calibration() == old(self).calibration(),
            final(self).fan_speed() == old(self).fan_speed(),
            match old(self).menu() {
                Menu::MainMenu(m) => {
                    &&& r == (m.changed() || lerp_active)
                    &&& final(self).menu() matches Menu::MainMenu(m2) && m2.selected()
                        == m.selected() && m2.climate() == m.climate() && m2.changed() == (
                    m.changed() && !r)
                },
                Menu::FanMenu(f) => {
                    &&& r == f.changed()
                    &&& final(self).menu() matches Menu::FanMenu(f2) && f2.saved() == f.saved()
                        && f2.selected() == f.selected() && !f2.changed()
                },
                Menu::SensorMenu(s) => {
                    &&& r == s.changed()
                    &&& final(self).menu() matches Menu::SensorMenu(s2) && s2.selection()
                        == s.selection() && s2.mode() == s.mode() && s2.calibration()
                        == s.calibration() && !s2.changed()
                },
            },
    {
        match &mut self.menu {
            Menu::MainMenu(m) => m.tick_begin(lerp_active),
            Menu::FanMenu(f) => f.take_changed(),
            Menu::SensorMenu(s) => s.take_changed(),
        }
    }

    /// The end of a display tick that drew the main screen while its side bar was
    /// animating: it is drawn again on the next tick.
    pub fn tick_end(&mut self, lerp_was_active: bool)
        ensures
            final(self).saved_climate() == old(self).saved_climate(),
            final(self).calibration() == old(self).calibration(),
            final(self).fan_speed() == old(self).fan_speed(),
            match old(self).menu() {
                Menu::MainMenu(m) => final(self).menu() matches Menu::MainMenu(m2)
                    && m2.selected() == m.selected() && m2.climate() == m.climate()
                    && m2.changed() == (m.changed() || lerp_was_active),
                _ => final(self).menu() == old(self).menu(),
            },
    {
        match &mut self.menu {
            Menu::MainMenu(m) => m.tick_end(lerp_was_active),
            _ => {},
        }
    }

    /// One step of the menu task: the main screen takes the climate reading, then the
    /// screen shown handles the input. Opening a sub-menu, saving and leaving switch
    /// screens; the sub-menus return to the main screen with their entry highlighted and
    /// the latest climate reading shown.
    ///
    /// A climate reading is shown on the main screen as soon as it arrives, and the
    /// screen is drawn again, so that the display always carries the latest temperature
    /// and humidity; it is also kept for the main screen that a sub-menu returns to.
    pub fn step(&mut self, input: Option<InputEvt>, climate: Option<SHT31Reading>) -> (r:
        MenuStep)
        requires
            climate is Some ==> old(self).menu() is MainMenu,
        ensures
            match old(self).menu() {
                Menu::MainMenu(m) => {
                    let saved = if climate is Some {
                        climate
                    } else {
                        old(self).saved_climate()
                    };
                    let shown = if climate is Some {
                        climate
                    } else {
                        m.climate()
                    };
                    let changed = climate is Some || m.changed();
                    &&& final(self).saved_climate() == saved
                    &&& final(self).calibration() == old(self).calibration()
                    &&& final(self).fan_speed() == old(self).fan_speed()
                    &&& r.action is None
                    &&& r.sensor is None
                    &&& match input {
                        None => {
                            &&& final(self).menu() matches Menu::MainMenu(m2) && m2.selected()
                                == m.selected() && m2.changed() == changed && m2.climate()
                                == shown
                            &&& !r.switched
                            &&& !r.restart_side_lerp
                        },
                        Some(e) => {
                            let (sel, ch, flag) = main_menu_input(m.selected(), changed, e);
                            match flag {
                                main_menu::OnInputFlag::ToSensorMenu => {
                                    &&& final(self).menu() matches Menu::SensorMenu(s)
                                        && s.selection() == sensor_menu::Selection::Temperature
                                        && s.calibration() == old(self).calibration()
                                        && s.mode() == Mode::Selection && s.changed()
                                    &&& r.switched
                                    &&& !r.restart_side_lerp
                                },
                                main_menu::OnInputFlag::ToFanMenu => {
                                    &&& final(self).menu() matches Menu::FanMenu(f) && f.saved()
                                        == old(self).fan_speed() && f.selected() == FanSpeed::Low
                                        && f.changed()
                                    &&& r.switched
                                    &&& !r.restart_side_lerp
                                },
                                main_menu::OnInputFlag::Nothing => {
                                    &&& final(self).menu() matches Menu::MainMenu(m2)
                                        && m2.selected() == sel && m2.changed() == ch
                                        && m2.climate() == shown
                                    &&& !r.switched
                                    &&& r.restart_side_lerp == (e != InputEvt::Enter && ch)
                                },
                            }
                        },
                    }
                },
                Menu::FanMenu(f) => {
                    &&& final(self).saved_climate() == old(self).saved_climate()
                    &&& final(self).calibration() == old(self).calibration()
                    &&& r.sensor is None
                    &&& !r.restart_side_lerp
                    &&& match input {
                        None => {
                            &&& final(self).menu() == old(self).menu()
                            &&& final(self).fan_speed() == old(self).fan_speed()
                            &&& r.action is None
                            &&& !r.switched
                        },
                        Some(e) => {
                            let (sel, flag) = fan_menu_input(f.saved(), f.selected(), e);
                            match flag {
                                fan_menu::OnInputFlag::BackToMenu => {
                                    &&& final(self).menu() matches Menu::MainMenu(m2)
                                        && is_main_screen(
                                        m2,
                                        Selection::Fan,
                                        old(self).saved_climate(),
                                    )
                                    &&& final(self).fan_speed() == old(self).fan_speed()
                                    &&& r.action is None
                                    &&& r.switched
                                },
                                fan_menu::OnInputFlag::Save(s) => {
                                    &&& final(self).menu() matches Menu::MainMenu(m2)
                                        && is_main_screen(
                                        m2,
                                        Selection::Fan,
                                        old(self).saved_climate(),
                                    )
                                    &&& final(self).fan_speed() == s
                                    &&& r.action == Some(MenuAction::SaveFanSpeed(s))
                                    &&& r.switched
                                },
                                fan_menu::OnInputFlag::Nothing => {
                                    &&& final(self).menu() matches Menu::FanMenu(f2) && f2.saved()
                                        == f.saved() && f2.selected() == sel && f2.changed()
                                    &&& final(self).fan_speed() == old(self).fan_speed()
                                    &&& r.action is None
                                    &&& !r.switched
                                },
                            }
                        },
                    }
                },
                Menu::SensorMenu(s) => {
                    &&& final(self).saved_climate() == old(self).saved_climate()
                    &&& final(self).fan_speed() == old(self).fan_speed()
                    &&& !r.restart_side_lerp
                    &&& match input {
                        None => {
                            &&& final(self).menu() == old(self).menu()
                            &&& final(self).calibration() == old(self).calibration()
                            &&& r.action is None
                            &&& r.sensor is None
                            &&& !r.switched
                        },
                        Some(e) => {
                            let (sel, mode, out) = sensor_menu_input(
                                s.selection(),
                                s.mode(),
                                s.calibration(),
                                e,
                            );
                            &&& r.sensor == Some(out)
                            &&& match out.flag {
                                sensor_menu::OnInputFlag::Save(c) => {
                                    &&& final(self).menu() matches Menu::MainMenu(m2)
                                        && is_main_screen(
                                        m2,
                                        Selection::Sensor,
                                        old(self).saved_climate(),
                                    )
                                    &&& final(self).calibration() == c
                                    &&& r.action == Some(MenuAction::SaveCalibration(c))
                                    &&& r.switched
                                },
                                sensor_menu::OnInputFlag::BackToMain => {
                                    &&& final(self).menu() matches Menu::MainMenu(m2)
                                        && is_main_screen(
                                        m2,
                                        Selection::Sensor,
                                        old(self).saved_climate(),
                                    )
                                    &&& final(self).calibration() == old(self).calibration()
                                    &&& r.action is None
                                    &&& r.switched
                                },
                                sensor_menu::OnInputFlag::Nothing => {
                                    &&& final(self).menu() matches Menu::SensorMenu(s2)
                                        && s2.selection() == sel && s2.mode() == mode
                                        && s2.calibration() == s.calibration() && s2.changed()
                                    &&& final(self).calibration() == old(self).calibration()
                                    &&& r.action is None
                                    &&& !r.switched
                                },
                            }
                        },
                    }
                },
            },
    {
        let mut out = MenuStep {
            action: None,
            switched: false,
            restart_side_lerp: false,
            sensor: None,
        };
        let mut next: Option<Menu> = None;
        match &mut self.menu {
            Menu::MainMenu(m) => {
                if let Some(c) = climate {
                    m.set_climate(c);
                    self.saved_climate = Some(c);
                }
                if let Some(e) = input {
                    match m.on_input(e) {
                        main_menu::OnInputFlag::ToSensorMenu => {
                            next = Some(Menu::SensorMenu(SensorMenu::new(self.calibration)));
                        },
                        main_menu::OnInputFlag::ToFanMenu => {
                            next = Some(Menu::FanMenu(FanMenu::new(self.fan_speed)));
                        },
                        main_menu::OnInputFlag::Nothing => {
                            out.restart_side_lerp = m.restarts_side_lerp(e);
                        },
                    }
                }
            },
            Menu::FanMenu(f) => {
                if let Some(e) = input {
                    match f.on_input(e) {
                        fan_menu::OnInputFlag::BackToMenu => {
                            next = Some(
                                Menu::MainMenu(main_screen(Selection::Fan, self.saved_climate)),
                            );
                        },
                        fan_menu::OnInputFlag::Save(new_fan_speed) => {
                            out.action = Some(MenuAction::SaveFanSpeed(new_fan_speed));
                            self.fan_speed = new_fan_speed;
                            next = Some(
                                Menu::MainMenu(main_screen(Selection::Fan, self.saved_climate)),
                            );
                        },
                        fan_menu::OnInputFlag::Nothing => {},
                    }
                }
            },
            Menu::SensorMenu(s) => {
                if let Some(e) = input {
                    let result = s.on_input(e);
                    out.sensor = Some(result);
                    match result.flag {
                        sensor_menu::OnInputFlag::Save(new_calibration) => {
                            out.action = Some(MenuAction::SaveCalibration(new_calibration));
                            self.calibration = new_calibration;
                            next = Some(
                                Menu::MainMenu(
                                    main_screen(Selection::Sensor, self.saved_climate),
                                ),
                            );
                        },
                        sensor_menu::OnInputFlag::BackToMain => {
                            next = Some(
                                Menu::MainMenu(
                                    main_screen(Selection::Sensor, self.saved_climate),
                                ),
                            );
                        },
                        sensor_menu::OnInputFlag::Nothing => {},
                    }
                }
            },
        }
        if let Some(menu) = next {
            self.menu = menu;
            out.switched = true;
        }
        out
    }
}

} // verus!
