use solar_dehydrator::at24c08::configs::WifiConfig;
use solar_dehydrator::at24c08::registered_addresses::{LoadStep, Settings};
use solar_dehydrator::at24c08::{AT24C08Error, ConvRawBytes};
use solar_dehydrator::menu::fan_menu::FanSpeed;
use solar_dehydrator::sht31::{is_nan_bits, SHT31Reading, SHT31};

#[test]
fn calibration_roundtrip() {
    let r = SHT31Reading { temp_bits: 1.5f32.to_bits(), humid_bits: (-2.25f32).to_bits() };
    let bytes = r.to_raw_bytes();
    assert_eq!(bytes, [0x3F, 0xC0, 0x00, 0x00, 0xC0, 0x10, 0x00, 0x00]);
    assert_eq!(SHT31Reading::from_raw_bytes(bytes), Ok(r));
}

#[test]
fn calibration_with_nan_is_corrupted() {
    let nan = f32::NAN.to_bits();
    assert!(is_nan_bits(nan));
    assert!(!is_nan_bits(f32::INFINITY.to_bits()));
    assert!(!is_nan_bits(0));
    let mut bytes = [0u8; 8];
    bytes[4..8].copy_from_slice(&nan.to_be_bytes());
    assert_eq!(SHT31Reading::from_raw_bytes(bytes), Err(AT24C08Error::DataCorrupted));
    // an erased EEPROM reads 0xFF, which is a NaN
    assert_eq!(SHT31Reading::from_raw_bytes([0xFF; 8]), Err(AT24C08Error::DataCorrupted));
}

#[test]
fn default_calibration_is_zero() {
    let r = SHT31Reading::default();
    assert_eq!(f32::from_bits(r.temp_bits), 0.0);
    assert_eq!(f32::from_bits(r.humid_bits), 0.0);
    assert_eq!(r.to_raw_bytes(), [0u8; 8]);
}

#[test]
fn fan_speed_roundtrip_and_corruption() {
    for s in [FanSpeed::Low, FanSpeed::Medium, FanSpeed::High, FanSpeed::Max] {
        assert_eq!(FanSpeed::from_raw_bytes(s.to_raw_bytes()), Ok(s));
    }
    assert_eq!(FanSpeed::Max.to_raw_bytes(), [3]);
    assert_eq!(FanSpeed::from_raw_bytes([4]), Err(AT24C08Error::DataCorrupted));
    assert_eq!(FanSpeed::from_raw_bytes([0xFF]), Err(AT24C08Error::DataCorrupted));
}

#[test]
fn flag_roundtrip() {
    assert_eq!(true.to_raw_bytes(), [1]);
    assert_eq!(false.to_raw_bytes(), [0]);
    assert_eq!(bool::from_raw_bytes([1]), Ok(true));
    assert_eq!(bool::from_raw_bytes([0]), Ok(false));
    assert_eq!(bool::from_raw_bytes([2]), Ok(false));
}

#[test]
fn wifi_config_default_and_roundtrip() {
    let c = WifiConfig::default();
    assert!(c.wifi.is_none());
    assert_eq!(c.interval.as_millis(), 15000);
    let bytes = c.to_raw_bytes();
    assert!(bytes[..96].iter().all(|b| *b == 0));
    assert_eq!(&bytes[96..], &15000u64.to_be_bytes());
    let back = WifiConfig::from_raw_bytes(bytes).unwrap();
    assert!(back.wifi.is_none());
    assert_eq!(back.interval.as_millis(), 15000);
}

#[test]
fn wifi_config_with_network_decodes() {
    let mut b = [0u8; 104];
    b[0] = 1;
    b[1..5].copy_from_slice(b"home");
    b[33..39].copy_from_slice(b"secret");
    b[96..].copy_from_slice(&60_000u64.to_be_bytes());
    let c = WifiConfig::from_raw_bytes(b).unwrap();
    let copy = c.clone();
    let w = c.wifi.unwrap();
    assert_eq!(w.ssid.len(), 32);
    assert_eq!(&w.ssid.as_bytes()[..4], b"home");
    assert!(w.ssid.as_bytes()[4..].iter().all(|x| *x == 0));
    assert_eq!(w.password.len(), 63);
    assert_eq!(&w.password.as_bytes()[..6], b"secret");
    assert_eq!(copy.wifi.unwrap().ssid.as_bytes(), w.ssid.as_bytes());
    assert_eq!(c.interval.as_millis(), 60_000);
}

#[test]
fn wifi_config_with_bad_password_is_corrupted() {
    let mut b = [0u8; 104];
    b[0] = 1;
    b[40] = 0xC3; // a lead byte without its continuation byte
    assert!(matches!(WifiConfig::from_raw_bytes(b), Err(AT24C08Error::DataCorrupted)));
}

#[test]
fn wifi_config_with_bad_password_is_corrupted_whatever_the_interval() {
    let mut b = [0u8; 104];
    b[0] = 1;
    b[40] = 0xC3;
    b[96..].copy_from_slice(&u64::MAX.to_be_bytes());
    assert!(WifiConfig::is_decodable(&b));
    assert!(matches!(WifiConfig::from_raw_bytes(b), Err(AT24C08Error::DataCorrupted)));
    b[0] = 0;
    assert!(!WifiConfig::is_decodable(&b));
}

#[test]
fn wifi_flag_other_than_one_means_no_network() {
    let mut b = [0u8; 104];
    b[0] = 2;
    b[40] = 0xC3;
    let c = WifiConfig::from_raw_bytes(b).unwrap();
    assert!(c.wifi.is_none());
    assert_eq!(c.interval.as_millis(), 0);
}

#[test]
fn settings_defaults_and_load_step() {
    let s = Settings::defaults();
    assert_eq!(s.fan_speed, FanSpeed::Medium);
    assert_eq!(s.calibration, SHT31Reading { temp_bits: 0, humid_bits: 0 });
    assert_eq!(s.wifi_config.interval.as_millis(), 15000);
    match Settings::load_step(false) {
        LoadStep::InitializeWith(s) => assert_eq!(s.fan_speed, FanSpeed::Medium),
        LoadStep::ReadStored => panic!("a fresh EEPROM must be initialised"),
    }
    assert!(matches!(Settings::load_step(true), LoadStep::ReadStored));
}

#[test]
fn sht31_raw_measurement() {
    let frame = [0x66, 0x66, 0x93, 0x80, 0x00, 0xA2];
    assert_eq!(SHT31::raw_measurement(&frame), (0x6666, 0x8000));
    let c = SHT31Reading { temp_bits: 7, humid_bits: 9 };
    assert_eq!(SHT31::new(c).calibration(), c);
}
