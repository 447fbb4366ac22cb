use solar_dehydrator::esp12f::task::{idle_action, immediate_result, ESP12Command, ESP12FResult, IdleAction};
use solar_dehydrator::esp12f::{
    check_response_length, connect_frame, connect_result, parse_scan, parse_status,
    read_chunk_len, read_data_frame, scan_response_parsable, status_read_frame, status_ready, status_write_frame,
    status_write_waits, write_data_packet, Commands, ConnWifi, Error, InvalidResponseLength,
    RawError,
};
use solar_dehydrator::sht31::SHT31Reading;

#[test]
fn status_frames() {
    assert_eq!(status_write_frame(0x0102_0304), [0x1, 0x04, 0x03, 0x02, 0x01]);
    assert_eq!(status_write_frame(98), [0x1, 98, 0, 0, 0]);
    assert!(status_write_waits(98));
    assert!(!status_write_waits(0));
    assert_eq!(status_read_frame(), [0x4, 0, 0, 0, 0]);
    assert_eq!(parse_status(&[0xAA, 0x22, 0x01, 0x00, 0x00]), 0x0122);
}

#[test]
fn booting_status_values_are_polled_again() {
    assert!(!status_ready(0));
    assert!(!status_ready(0xffff_ffff));
    assert!(status_ready(34));
}

#[test]
fn response_length_that_fits_is_refused() {
    assert_eq!(
        check_response_length(34, 2048),
        Err(RawError::InvalidResponseLength(InvalidResponseLength { length: 34, expected: 2048 }))
    );
    assert_eq!(
        Error::from(RawError::InvalidResponseLength(InvalidResponseLength {
            length: 1,
            expected: 2
        })),
        Error::InvalidResponseLength(InvalidResponseLength { length: 1, expected: 2 })
    );
    assert_eq!(Error::from(RawError::TimeoutError), Error::TimeoutError);
    assert_eq!(RawError::from(embassy_time::TimeoutError), RawError::TimeoutError);
}

#[test]
fn read_is_split_into_64_byte_transfers() {
    assert_eq!(read_chunk_len(64, 0), 64);
    assert_eq!(read_chunk_len(150, 0), 64);
    assert_eq!(read_chunk_len(150, 64), 64);
    assert_eq!(read_chunk_len(150, 128), 22);
    let frame = read_data_frame();
    assert_eq!(&frame[..2], &[0x03, 0x00]);
    assert!(frame[2..].iter().all(|b| *b == 0));
}

#[test]
fn write_packets() {
    let data: Vec<u8> = (0..100).collect();
    let (first, n) = write_data_packet(&data, 0);
    assert_eq!(n, 66);
    assert_eq!(&first[..2], &[0x02, 0x00]);
    assert_eq!(&first[2..], &data[..64]);
    let (second, n) = write_data_packet(&data, 64);
    assert_eq!(n, 38);
    assert_eq!(&second[..2], &[0x02, 0x00]);
    assert_eq!(&second[2..38], &data[64..]);
    assert!(second[38..].iter().all(|b| *b == 0));
    let (scan, n) = write_data_packet(&[Commands::Scan.code()], 0);
    assert_eq!(&scan[..n], &[0x02, 0x00, 0x00]);
}

fn record(ssid: &[u8], rssi: u8) -> Vec<u8> {
    let mut r = vec![0u8; 34];
    r[..ssid.len()].copy_from_slice(ssid);
    r[33] = rssi;
    r
}

#[test]
fn scan_response_parsing() {
    let mut parsed = record(b"home", 40);
    parsed.extend(record(&[0xFF, 0xFE], 7)); // not UTF-8: skipped
    parsed.extend(record(b"cafe-wifi", 80));
    let found = parse_scan(&parsed);
    assert_eq!(found.len(), 2);
    assert_eq!(found[0].ssid.as_str(), "home");
    assert_eq!(found[0].rssi, 40);
    assert_eq!(found[1].ssid.as_str(), "cafe-wifi");
    assert_eq!(found[1].rssi, 80);
}

#[test]
fn scan_ssid_of_32_bytes_has_no_terminator() {
    let ssid = [b'a'; 32];
    let found = parse_scan(&record(&ssid, 1));
    assert_eq!(found[0].ssid.as_bytes(), &ssid[..]);
}

#[test]
fn connect_frame_pads_credentials() {
    let wifi = ConnWifi {
        ssid: heapless::String::try_from("home").unwrap(),
        password: heapless::String::try_from("pw").unwrap(),
    };
    let f = connect_frame(&wifi);
    assert_eq!(f.len(), 98);
    assert_eq!(f[0], 0x1);
    assert_eq!(&f[1..5], b"home");
    assert!(f[5..34].iter().all(|b| *b == 0));
    assert_eq!(&f[34..36], b"pw");
    assert!(f[36..].iter().all(|b| *b == 0));
}

#[test]
fn connect_results() {
    assert_eq!(connect_result(&[0]), Ok(()));
    assert_eq!(connect_result(&[3, 9]), Err(Error::SpiSuccessButESPFail));
    assert_eq!(connect_result(&[7]), Err(Error::UnexpectedResponse(7)));
}

#[test]
fn command_codes_and_task_answers() {
    assert_eq!(Commands::Scan.code(), 0);
    assert_eq!(Commands::Connect.code(), 1);
    assert_eq!(Commands::SendClimate.code(), 2);
    assert_eq!(Commands::Sleep.code(), 3);
    let reading = SHT31Reading { temp_bits: 0, humid_bits: 0 };
    assert!(matches!(
        immediate_result(&ESP12Command::SendClimate(reading)),
        Some(ESP12FResult::SendClimate(Ok(())))
    ));
    assert!(immediate_result(&ESP12Command::Scan).is_none());
    assert_eq!(ESP12FResult::Connect(Err(Error::TimeoutError)).into_connect(), Err(Error::TimeoutError));
    assert_eq!(ESP12FResult::Scan(Ok(heapless::Vec::new())).into_scan().unwrap().len(), 0);
}

#[test]
fn scan_response_parsability() {
    let mut parsed = Vec::new();
    for _ in 0..10 {
        parsed.extend(record(b"net", 1));
    }
    assert!(scan_response_parsable(&parsed));
    parsed.extend(record(&[0xFF], 1));
    assert!(scan_response_parsable(&parsed));
    parsed.extend(record(b"eleventh", 1));
    assert!(!scan_response_parsable(&parsed));
    // a truncated record
    assert!(!scan_response_parsable(&[b'a'; 20]));
    // 33 bytes: the SSID is complete but the signal strength is missing
    assert!(!scan_response_parsable(&[b'a'; 33]));
    // ... which is harmless when the SSID is skipped
    assert!(scan_response_parsable(&[0xFF; 33]));
    assert!(parse_scan(&[0xFF; 33]).is_empty());
}

#[test]
fn idle_module_is_put_to_sleep_after_100_ms() {
    assert_eq!(idle_action(true, 1_000_000), IdleAction::Serve);
    assert_eq!(idle_action(false, 100_000), IdleAction::Wait);
    assert_eq!(idle_action(false, 100_001), IdleAction::TurnOff);
    assert_eq!(idle_action(false, 0), IdleAction::Wait);
}
