use solar_dehydrator::at24c08::configs::WifiConfig;
use solar_dehydrator::at24c08::registered_addresses::{
    fan_speed_address, has_initiated_address, sht_calibration_address, wifi_config_address,
};
use solar_dehydrator::at24c08::{AT24C08, AT24C08Error, Addresses, ConvRawBytes, PageWrite, ReadOrDefault, RWBit};
use solar_dehydrator::menu::fan_menu::FanSpeed;
use solar_dehydrator::sht31::SHT31Reading;
use solar_dehydrator::rotary_encoder::{Direction, RotaryEncoder};

#[test]
fn clockwise_cycle_reports_clockwise_steps() {
    let mut enc = RotaryEncoder::new(false, false);
    // 00 -> 01 -> 11 -> 10 -> 00
    assert_eq!(enc.on_edge(false, true), Some(Direction::Clockwise));
    assert_eq!(enc.on_edge(true, true), Some(Direction::Clockwise));
    assert_eq!(enc.on_edge(true, false), Some(Direction::Clockwise));
    assert_eq!(enc.on_edge(false, false), Some(Direction::Clockwise));
}

#[test]
fn counter_clockwise_cycle_reports_counter_clockwise_steps() {
    let mut enc = RotaryEncoder::new(false, false);
    assert_eq!(enc.on_edge(true, false), Some(Direction::CounterClockwise));
    assert_eq!(enc.on_edge(true, true), Some(Direction::CounterClockwise));
    assert_eq!(enc.on_edge(false, true), Some(Direction::CounterClockwise));
    assert_eq!(enc.on_edge(false, false), Some(Direction::CounterClockwise));
}

#[test]
fn no_change_or_double_change_reports_nothing() {
    let mut enc = RotaryEncoder::new(false, true);
    assert_eq!(enc.on_edge(false, true), None);
    assert_eq!(enc.on_edge(true, false), None);
    // after the bounce the state is 10; 10 -> 00 is clockwise
    assert_eq!(enc.on_edge(false, false), Some(Direction::Clockwise));
}

#[test]
fn reversed_transition_reverses_direction() {
    let mut a = RotaryEncoder::new(true, true);
    assert_eq!(a.on_edge(true, false), Some(Direction::Clockwise));
    let mut b = RotaryEncoder::new(true, false);
    assert_eq!(b.on_edge(true, true), Some(Direction::CounterClockwise));
}

#[test]
fn device_address_carries_block_bits_and_direction() {
    let a: Addresses<1, bool> = Addresses::new(0, 9);
    assert_eq!(a.device(RWBit::Write), 0x50);
    assert_eq!(a.device(RWBit::Read), 0x51);
    assert_eq!(a.word_address(), 9);
    let high: Addresses<1, bool> = Addresses::new(63, 15);
    assert_eq!(high.absolute_address(), 1023);
    assert_eq!(high.word_address(), 0xFF);
    assert_eq!(high.device(RWBit::Write), 0x56);
    assert_eq!(high.device(RWBit::Read), 0x57);
    let block1: Addresses<1, bool> = Addresses::new(16, 0);
    assert_eq!(block1.absolute_address(), 256);
    assert_eq!(block1.word_address(), 0);
    assert_eq!(block1.device(RWBit::Write), 0x52);
}

#[test]
fn registered_addresses() {
    assert_eq!(wifi_config_address().absolute_address(), 0);
    assert_eq!(sht_calibration_address().absolute_address(), 104);
    assert_eq!(fan_speed_address().absolute_address(), 112);
    assert_eq!(has_initiated_address().absolute_address(), 113);
}

fn store<const LEN: usize>(memory: &mut [u8; 1024], at: u16, bytes: [u8; LEN]) {
    memory[at as usize..at as usize + LEN].copy_from_slice(&bytes);
}

fn load<const LEN: usize>(memory: &[u8; 1024], at: u16) -> [u8; LEN] {
    let mut r = [0u8; LEN];
    r.copy_from_slice(&memory[at as usize..at as usize + LEN]);
    r
}

#[test]
fn registered_values_read_back_after_all_are_stored() {
    let mut memory = [0xAAu8; 1024];
    let calibration = SHT31Reading { temp_bits: 1.5f32.to_bits(), humid_bits: (-0.5f32).to_bits() };
    let wifi = WifiConfig::default();
    store(&mut memory, has_initiated_address().absolute_address(), true.to_raw_bytes());
    store(&mut memory, sht_calibration_address().absolute_address(), calibration.to_raw_bytes());
    store(&mut memory, fan_speed_address().absolute_address(), FanSpeed::High.to_raw_bytes());
    store(&mut memory, wifi_config_address().absolute_address(), wifi.to_raw_bytes());
    assert_eq!(bool::from_raw_bytes(load(&memory, has_initiated_address().absolute_address())), Ok(true));
    assert_eq!(
        SHT31Reading::from_raw_bytes(load(&memory, sht_calibration_address().absolute_address())),
        Ok(calibration)
    );
    assert_eq!(
        FanSpeed::from_raw_bytes(load(&memory, fan_speed_address().absolute_address())),
        Ok(FanSpeed::High)
    );
    let back = WifiConfig::from_raw_bytes(load(&memory, wifi_config_address().absolute_address())).unwrap();
    assert!(back.wifi.is_none());
    assert_eq!(back.interval.as_millis(), 15000);
}

/// The page writes of a `LEN`-byte value, found as the firmware walks them.
fn page_writes<const LEN: usize, T: ConvRawBytes<LEN>>(addr: &Addresses<LEN, T>) -> Vec<PageWrite> {
    let eeprom = AT24C08::new();
    let mut writes = Vec::new();
    let mut pos = 0;
    while pos < LEN {
        let w = eeprom.page_write_at(addr, pos);
        assert_eq!(w.start, pos);
        pos += w.len;
        writes.push(w);
    }
    writes
}

#[test]
fn short_write_is_one_page_write() {
    let writes = page_writes(&sht_calibration_address());
    assert_eq!(writes.len(), 1);
    assert_eq!(writes[0].device, 0x50);
    assert_eq!(writes[0].word, 104);
    assert_eq!((writes[0].start, writes[0].len), (0, 8));
}

#[test]
fn long_write_is_split_at_page_boundaries() {
    let writes = page_writes(&wifi_config_address());
    assert_eq!(writes.len(), 7);
    for (k, w) in writes.iter().enumerate() {
        assert_eq!(w.device, 0x50);
        // every page write carries the word address of the start of the value
        assert_eq!(w.word, 0);
        assert_eq!(w.start, 16 * k);
        if k < 6 {
            assert_eq!(w.len, 16);
        } else {
            assert_eq!(w.len, 8);
        }
    }
}

#[test]
fn unaligned_write_first_chunk_ends_at_page_end() {
    let addr: Addresses<8, SHT31Reading> = Addresses::new(2, 12);
    let writes = page_writes(&addr);
    assert_eq!(writes.len(), 2);
    assert_eq!((writes[0].start, writes[0].len), (0, 4));
    assert_eq!((writes[1].start, writes[1].len), (4, 4));
    assert_eq!(writes[0].word, 44);
    assert_eq!(writes[1].word, 44);
}

#[test]
fn read_or_default_decisions() {
    assert!(matches!(AT24C08::read_or_default_step::<u8>(Ok(5)), ReadOrDefault::Value(5)));
    assert!(matches!(
        AT24C08::read_or_default_step::<u8>(Err(AT24C08Error::DataCorrupted)),
        ReadOrDefault::StoreDefault
    ));
    assert!(matches!(
        AT24C08::read_or_default_step::<u8>(Err(AT24C08Error::I2CError)),
        ReadOrDefault::Retry
    ));
}
