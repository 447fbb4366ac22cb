use solar_dehydrator::main_menu::{InputDirection, MainMenu as DirectionMenu};
use solar_dehydrator::menu::fan_menu::{FanMenu, FanSpeed, OnInputFlag as FanFlag, RowStyle};
use solar_dehydrator::menu::main_menu::{MainMenu, OnInputFlag as MainFlag, Selection};
use solar_dehydrator::menu::sensor_menu::{
    CalibrationEdit, CalibrationField, EditDirection, HoldUpdate, Mode,
    OnInputFlag as SensorFlag, SensorMenu, Selection as SensorSelection,
};
use solar_dehydrator::menu::{Menu, MenuAction, MenuTask};
use solar_dehydrator::sht31::SHT31Reading;
use solar_dehydrator::InputEvt;

fn selected_row(m: &FanMenu) -> Option<u8> {
    (0..4).find(|i| m.row_style(*i) == RowStyle::Selected)
}

#[test]
fn fan_speed_arithmetic_saturates() {
    assert_eq!(FanSpeed::Low + 1, FanSpeed::Medium);
    assert_eq!(FanSpeed::High + 5, FanSpeed::Max);
    assert_eq!(FanSpeed::Medium - 1, FanSpeed::Low);
    assert_eq!(FanSpeed::Low - 3, FanSpeed::Low);
    assert_eq!(FanSpeed::try_from(2u8), Ok(FanSpeed::High));
    assert_eq!(FanSpeed::try_from(4u8), Err(()));
    let label: &str = FanSpeed::Medium.into();
    assert_eq!(label, "Medium");
}

#[test]
fn fan_menu_wraps_and_saves() {
    let mut m = FanMenu::new(FanSpeed::Max);
    assert_eq!(m.row_style(3), RowStyle::Saved);
    assert_eq!(m.row_style(0), RowStyle::Selected);
    assert_eq!(m.on_input(InputEvt::CounterClockwise), FanFlag::Nothing);
    // wrapped to Max, which is the saved speed: drawn as saved, no other row selected
    assert_eq!(selected_row(&m), None);
    assert_eq!(m.on_input(InputEvt::Enter), FanFlag::BackToMenu);
    assert_eq!(m.on_input(InputEvt::Clockwise), FanFlag::Nothing);
    assert_eq!(selected_row(&m), Some(0));
    assert_eq!(m.on_input(InputEvt::Clockwise), FanFlag::Nothing);
    assert_eq!(m.on_input(InputEvt::Enter), FanFlag::Save(FanSpeed::Medium));
}

#[test]
fn fan_menu_turns_cancel_out() {
    let mut m = FanMenu::new(FanSpeed::Low);
    m.on_input(InputEvt::Clockwise);
    m.on_input(InputEvt::CounterClockwise);
    assert_eq!(m.on_input(InputEvt::Enter), FanFlag::BackToMenu);
    for _ in 0..4 {
        m.on_input(InputEvt::Clockwise);
    }
    assert_eq!(m.on_input(InputEvt::Enter), FanFlag::BackToMenu);
    assert!(m.take_changed());
    assert!(!m.take_changed());
}

#[test]
fn main_menu_navigation_stops_at_ends() {
    let mut m = MainMenu::new(None);
    assert_eq!(m.selection(), Selection::Fan);
    assert!(m.tick_begin(false));
    assert!(!m.tick_begin(false));
    assert_eq!(m.on_input(InputEvt::CounterClockwise), MainFlag::Nothing);
    assert_eq!(m.selection(), Selection::Fan);
    assert!(!m.restarts_side_lerp(InputEvt::CounterClockwise));
    m.on_input(InputEvt::Clockwise);
    m.on_input(InputEvt::Clockwise);
    m.on_input(InputEvt::Clockwise);
    assert_eq!(m.selection(), Selection::Sensor);
    assert!(m.restarts_side_lerp(InputEvt::Clockwise));
    assert_eq!(m.on_input(InputEvt::Enter), MainFlag::ToSensorMenu);
    m.on_input(InputEvt::CounterClockwise);
    assert_eq!(m.on_input(InputEvt::Enter), MainFlag::Nothing);
    m.on_input(InputEvt::CounterClockwise);
    assert_eq!(m.on_input(InputEvt::Enter), MainFlag::ToFanMenu);
    assert_eq!(Selection::Fan + 9, Selection::Sensor);
    assert_eq!(Selection::Wifi - 1, Selection::Fan);
}

#[test]
fn main_menu_shows_climate() {
    let mut m = MainMenu::new(Some(Selection::Wifi));
    let c = SHT31Reading { temp_bits: 1, humid_bits: 2 };
    assert_eq!(m.climate_reading(), None);
    m.tick_begin(false);
    m.set_climate(c);
    assert_eq!(m.climate_reading(), Some(c));
    assert!(m.tick_begin(false));
    m.tick_end(true);
    assert!(m.tick_begin(false));
}

#[test]
fn sensor_menu_selection_and_editing() {
    let cal = SHT31Reading { temp_bits: 3, humid_bits: 4 };
    let mut m = SensorMenu::new(cal);
    assert_eq!(m.selected(), SensorSelection::Temperature);
    let out = m.on_input(InputEvt::CounterClockwise);
    assert_eq!(out.flag, SensorFlag::Nothing);
    assert_eq!(out.hold, HoldUpdate::Reset);
    assert_eq!(m.selected(), SensorSelection::Cancel);
    m.on_input(InputEvt::Clockwise);
    m.on_input(InputEvt::Clockwise);
    assert_eq!(m.selected(), SensorSelection::Humidity);
    m.on_input(InputEvt::Enter);
    assert_eq!(m.current_mode(), Mode::Editing);
    assert_eq!(m.editing_field(), Some(CalibrationField::Humidity));
    let out = m.on_input(InputEvt::Clockwise);
    assert_eq!(out.hold, HoldUpdate::Expire);
    assert_eq!(
        out.edit,
        Some(CalibrationEdit { field: CalibrationField::Humidity, direction: EditDirection::Increase })
    );
    let out = m.on_input(InputEvt::CounterClockwise);
    assert_eq!(out.edit.unwrap().direction, EditDirection::Decrease);
    let edited = SHT31Reading { temp_bits: 3, humid_bits: 99 };
    m.set_calibration(edited);
    let out = m.on_input(InputEvt::Enter);
    assert_eq!(out.edit, None);
    assert_eq!(m.current_mode(), Mode::Selection);
    m.on_input(InputEvt::Clockwise);
    assert_eq!(m.on_input(InputEvt::Enter).flag, SensorFlag::Save(edited));
    m.on_input(InputEvt::Clockwise);
    assert_eq!(m.on_input(InputEvt::Enter).flag, SensorFlag::BackToMain);
}

#[test]
fn menu_task_opens_fan_menu_and_saves() {
    let cal = SHT31Reading { temp_bits: 0, humid_bits: 0 };
    let mut t = MenuTask::new(cal, FanSpeed::Medium);
    assert!(t.reads_climate());
    let climate = SHT31Reading { temp_bits: 10, humid_bits: 20 };
    let s = t.step(Some(InputEvt::Enter), Some(climate));
    assert!(s.switched);
    assert!(matches!(t.current_menu(), Menu::FanMenu(_)));
    assert!(!t.reads_climate());
    // highlight moves from Low to Medium (the stored speed), then to High
    t.step(Some(InputEvt::Clockwise), None);
    t.step(Some(InputEvt::Clockwise), None);
    let s = t.step(Some(InputEvt::Enter), None);
    assert_eq!(s.action, Some(MenuAction::SaveFanSpeed(FanSpeed::High)));
    assert!(s.switched);
    match t.current_menu() {
        Menu::MainMenu(m) => {
            assert_eq!(m.selection(), Selection::Fan);
            assert_eq!(m.climate_reading(), Some(climate));
        }
        _ => panic!("saving returns to the main screen"),
    }
}

#[test]
fn menu_task_calibration_flow() {
    let cal = SHT31Reading { temp_bits: 5, humid_bits: 6 };
    let mut t = MenuTask::new(cal, FanSpeed::Low);
    t.step(Some(InputEvt::Clockwise), None);
    let s = t.step(Some(InputEvt::Clockwise), None);
    assert!(s.restart_side_lerp);
    t.step(Some(InputEvt::Enter), None);
    assert!(t.rereads_input());
    let s = t.step(Some(InputEvt::Enter), None);
    assert_eq!(s.sensor.unwrap().flag, SensorFlag::Nothing);
    let s = t.step(Some(InputEvt::Clockwise), None);
    let edit = s.sensor.unwrap().edit.unwrap();
    assert_eq!(edit.field, CalibrationField::Temperature);
    let edited = SHT31Reading { temp_bits: 0x3DCC_CCCD, humid_bits: 6 };
    t.set_sensor_calibration(edited);
    t.step(Some(InputEvt::Enter), None);
    t.step(Some(InputEvt::Clockwise), None);
    t.step(Some(InputEvt::Clockwise), None);
    let s = t.step(Some(InputEvt::Enter), None);
    assert_eq!(s.action, Some(MenuAction::SaveCalibration(edited)));
    match t.current_menu() {
        Menu::MainMenu(m) => assert_eq!(m.selection(), Selection::Sensor),
        _ => panic!("saving returns to the main screen"),
    }
    // reopening the calibration screen starts from the saved calibration
    t.step(Some(InputEvt::Enter), None);
    match t.current_menu() {
        Menu::SensorMenu(m) => assert_eq!(m.current_calibration(), edited),
        _ => panic!("the sensor entry opens the calibration screen"),
    }
}

#[test]
fn menu_task_without_input_keeps_screen() {
    let cal = SHT31Reading { temp_bits: 0, humid_bits: 0 };
    let mut t = MenuTask::new(cal, FanSpeed::Low);
    assert!(t.tick_begin(false));
    assert!(!t.tick_begin(false));
    let s = t.step(None, Some(cal));
    assert!(!s.switched);
    assert!(s.action.is_none());
    assert!(t.tick_begin(false));
}

#[test]
fn direction_main_menu_stops_at_ends() {
    let mut m = DirectionMenu::new();
    assert_eq!(m.selected(), 0);
    assert!(m.tick_begin(false));
    assert!(!m.menu_set(InputDirection::Up));
    assert_eq!(m.selected(), 0);
    assert!(m.menu_set(InputDirection::Down));
    assert!(m.menu_set(InputDirection::Down));
    assert_eq!(m.selected(), 2);
    m.tick_begin(false);
    assert!(!m.menu_set(InputDirection::Down));
    assert_eq!(m.selected(), 2);
    m.set_climate(SHT31Reading { temp_bits: 0, humid_bits: 0 });
    assert!(m.menu_set(InputDirection::Down));
    m.tick_end(true);
    assert!(m.tick_begin(false));
}

#[test]
fn fan_speed_duty_cycle() {
    assert_eq!(FanSpeed::Low.as_percent(), 25);
    assert_eq!(FanSpeed::Medium.as_percent(), 50);
    assert_eq!(FanSpeed::High.as_percent(), 75);
    assert_eq!(FanSpeed::Max.as_percent(), 100);
}
