use embassy_time::TimeoutError;
use vstd::prelude::*;
use vstd::utf8::valid_utf8;

use crate::bytes::{le_u32, read_be_u32};

pub mod task;

verus! {

#[verifier::external_type_specification]
#[verifier::external_body]
pub struct ExTimeoutError(TimeoutError);

#[verifier::external_type_specification]
#[verifier::external_body]
#[verifier::reject_recursive_types(T)]
pub struct ExHeaplessVec<T, const N: usize>(heapless::Vec<T, N>);

#[verifier::external_type_specification]
#[verifier::external_body]
pub struct ExHeaplessString<const N: usize>(heapless::String<N>);

/// The UTF-8 bytes that an SSID string holds.
pub uninterp spec fn ssid_bytes(s: heapless::String<32>) -> Seq<u8>;

/// The UTF-8 bytes that a password string holds.
pub uninterp spec fn password_bytes(s: heapless::String<63>) -> Seq<u8>;

/// The networks that a list of scan results holds, in order, each by its view.
pub uninterp spec fn scan_results(v: heapless::Vec<WifiScan, 10>) -> Seq<(Seq<u8>, u8)>;

/// heapless `Vec::<u8, 32>::from_slice` (which copies `bytes`, at most 32 of them) and
/// `String::<32>::from_utf8`, which accepts exactly the byte strings that are valid
/// UTF-8 (it checks them with `core::str::from_utf8`).
#[verifier::external_body]
pub(crate) fn ssid_from_bytes(bytes: &[u8]) -> (r: Option<heapless::String<32>>)
    requires
        bytes@.len() <= 32,
    ensures
        r is Some <==> valid_utf8(bytes@),
        r matches Some(s) ==> ssid_bytes(s) == bytes@,
{
    let v = heapless::Vec::<u8, 32>::from_slice(bytes).unwrap();
    heapless::String::from_utf8(v).ok()
}

/// heapless `Vec::<u8, 63>::from_slice` and `String::<63>::from_utf8`, as for an SSID.
#[verifier::external_body]
pub(crate) fn password_from_bytes(bytes: &[u8]) -> (r: Option<heapless::String<63>>)
    requires
        bytes@.len() <= 63,
    ensures
        r is Some <==> valid_utf8(bytes@),
        r matches Some(s) ==> password_bytes(s) == bytes@,
{
    let v = heapless::Vec::<u8, 63>::from_slice(bytes).unwrap();
    heapless::String::from_utf8(v).ok()
}

/// The bytes of a heapless `String<32>` (its `Deref` to `str`): at most 32 of them, and
/// valid UTF-8, since every way to fill the string checks both or requires them.
#[verifier::external_body]
pub(crate) fn ssid_as_bytes(s: &heapless::String<32>) -> (r: &[u8])
    ensures
        r@ == ssid_bytes(*s),
        r@.len() <= 32,
        valid_utf8(r@),
{
    s.as_bytes()
}

/// The bytes of a heapless `String<63>`: at most 63 of them, and valid UTF-8.
#[verifier::external_body]
pub(crate) fn password_as_bytes(s: &heapless::String<63>) -> (r: &[u8])
    ensures
        r@ == password_bytes(*s),
        r@.len() <= 63,
        valid_utf8(r@),
{
    s.as_bytes()
}

/// heapless `String::<32>::clone`: a string with the same bytes (it clones the byte
/// vector inside).
#[verifier::external_body]
fn ssid_clone(s: &heapless::String<32>) -> (r: heapless::String<32>)
    ensures
        ssid_bytes(r) == ssid_bytes(*s),
{
    s.clone()
}

/// heapless `String::<63>::clone`: a string with the same bytes.
#[verifier::external_body]
fn password_clone(s: &heapless::String<63>) -> (r: heapless::String<63>)
    ensures
        password_bytes(r) == password_bytes(*s),
{
    s.clone()
}

/// heapless `Vec::<WifiScan, 10>::new`: an empty list.
#[verifier::external_body]
fn scan_results_new() -> (r: heapless::Vec<WifiScan, 10>)
    ensures
        scan_results(r) == Seq::<(Seq<u8>, u8)>::empty(),
{
    heapless::Vec::new()
}

/// heapless `Vec::<WifiScan, 10>::push`: appends `item` while fewer than 10 are held;
/// on a full list it changes nothing and hands `item` back.
#[verifier::external_body]
fn scan_results_push(v: &mut heapless::Vec<WifiScan, 10>, item: WifiScan) -> (r: Result<(), WifiScan>)
    ensures
        scan_results(*old(v)).len() < 10 ==> r is Ok,
        scan_results(*old(v)).len() >= 10 ==> (r matches Err(back) && back == item),
        scan_results(*old(v)).len() < 10 ==> scan_results(*final(v)) == scan_results(
            *old(v),
        ).push(item@),
        scan_results(*old(v)).len() >= 10 ==> scan_results(*final(v)) == scan_results(*old(v)),
{
    v.push(item)
}

/// Capacity of the receive buffer of a scan.
pub const READ_BUFFER_LEN: usize = 2048;

/// Largest payload of one SPI data transfer.
pub const SPI_CHUNK_LEN: usize = 64;

/// A response whose announced length was refused.
#[derive(Clone, Copy, PartialEq, Eq, Structural, Debug)]
pub struct InvalidResponseLength {
    pub length: usize,
    pub expected: usize,
}

/// Errors of the SPI exchange with the ESP8266.
#[derive(Clone, Copy, PartialEq, Eq, Structural, Debug)]
pub enum RawError {
    TimeoutError,
    InvalidResponseLength(InvalidResponseLength),
}

impl From<TimeoutError> for RawError {
    fn from(_value: TimeoutError) -> (r: Self) {
        Self::TimeoutError
    }
}

impl vstd::std_specs::convert::FromSpecImpl<TimeoutError> for RawError {
    open spec fn obeys_from_spec() -> bool {
        true
    }

    open spec fn from_spec(_value: TimeoutError) -> Self {
        RawError::TimeoutError
    }
}

/// Errors of an ESP8266 command.
#[derive(Clone, Copy, PartialEq, Eq, Structural, Debug)]
pub enum Error {
    TimeoutError,
    /// The transfer succeeded but the ESP8266 failed to carry out the command.
    SpiSuccessButESPFail,
    InvalidResponseLength(InvalidResponseLength),
    UnexpectedResponse(u8),
}

impl From<RawError> for Error {
    fn from(value: RawError) -> (r: Self) {
        match value {
            RawError::TimeoutError => Self::TimeoutError,
            RawError::InvalidResponseLength(r) => Self::InvalidResponseLength(r),
        }
    }
}

impl vstd::std_specs::convert::FromSpecImpl<RawError> for Error {
    open spec fn obeys_from_spec() -> bool {
        true
    }

    open spec fn from_spec(value: RawError) -> Self {
        match value {
            RawError::TimeoutError => Error::TimeoutError,
            RawError::InvalidResponseLength(r) => Error::InvalidResponseLength(r),
        }
    }
}

/// The commands the ESP8266 firmware understands.
#[derive(Clone, Copy, PartialEq, Eq, Structural, Debug)]
pub enum Commands {
    Scan,
    Connect,
    SendClimate,
    Sleep,
}

impl Commands {
    pub open spec fn spec_code(self) -> u8 {
        match self {
            Commands::Scan => 0x0,
            Commands::Connect => 0x1,
            Commands::SendClimate => 0x2,
            Commands::Sleep => 0x3,
        }
    }

    /// The command byte.
    pub fn code(self) -> (r: u8)
        ensures
            r == self.spec_code(),
    {
        match self {
            Commands::Scan => 0x0,
            Commands::Connect => 0x1,
            Commands::SendClimate => 0x2,
            Commands::Sleep => 0x3,
        }
    }
}

/// Credentials of a WiFi network.
pub struct ConnWifi {
    pub ssid: heapless::String<32>,
    pub password: heapless::String<63>,
}

impl View for ConnWifi {
    /// The bytes of the SSID and of the password.
    type V = (Seq<u8>, Seq<u8>);

    open spec fn view(&self) -> (Seq<u8>, Seq<u8>) {
        (ssid_bytes(self.ssid), password_bytes(self.password))
    }
}

impl Clone for ConnWifi {
    fn clone(&self) -> (r: Self)
        ensures
            r@ == self@,
    {
        ConnWifi { ssid: ssid_clone(&self.ssid), password: password_clone(&self.password) }
    }
}

/// A network found by a scan: its SSID and its signal strength.
pub struct WifiScan {
    pub ssid: heapless::String<32>,
    pub rssi: u8,
}

impl View for WifiScan {
    /// The bytes of the SSID, and the signal strength.
    type V = (Seq<u8>, u8);

    open spec fn view(&self) -> (Seq<u8>, u8) {
        (ssid_bytes(self.ssid), self.rssi)
    }
}

/// The frame that writes `length` to the status register: the write-status command
/// and the length in little-endian order.
pub fn status_write_frame(length: u32) -> (r: [u8; 5])
    ensures
        r@.len() == 5,
        r@[0] == 0x1,
        le_u32(r@[1], r@[2], r@[3], r@[4]) == length,
{
    let bytes = crate::bytes::write_be_u32(length);
    proof {
        crate::bytes::lemma_be_u32_roundtrip(length);
    }
    [0x1, bytes[3], bytes[2], bytes[1], bytes[0]]
}

/// Whether writing `length` to the status register waits for the handshake line: a
/// zero length ends a transfer and does not.
pub fn status_write_waits(length: u32) -> (r: bool)
    ensures
        r == (length != 0),
{
    length != 0
}

/// The frame that reads the status register.
pub fn status_read_frame() -> (r: [u8; 5])
    ensures
        r@ == seq![0x4u8, 0x0u8, 0x0u8, 0x0u8, 0x0u8],
{
    let r: [u8; 5] = [0x4, 0x0, 0x0, 0x0, 0x0];
    assert(r@ =~= seq![0x4u8, 0x0u8, 0x0u8, 0x0u8, 0x0u8]);
    r
}

/// The status register value answered to a status read: bytes 1 to 4, little-endian.
pub fn parse_status(frame: &[u8; 5]) -> (r: u32)
    ensures
        r == le_u32(frame@[1], frame@[2], frame@[3], frame@[4]),
{
    read_be_u32(frame[4], frame[3], frame[2], frame[1])
}

/// Whether a status value announces a response: 0 and `0xffff_ffff` are what the
/// ESP8266 answers while still booting, and are polled again.
pub fn status_ready(data_len: u32) -> (r: bool)
    ensures
        r == (data_len != 0 && data_len != 0xffff_ffff),
{
    data_len != 0 && data_len != 0xffff_ffff
}

/// The length check of a response of `data_len` bytes into a buffer of `capacity`
/// bytes. A length that fits is refused with `InvalidResponseLength`; a longer one fails
/// the assertion that follows the check and is left out by `requires`.
pub fn check_response_length(data_len: usize, capacity: usize) -> (r: Result<(), RawError>)
    requires
        data_len <= capacity,
    ensures
        r == Err::<(), RawError>(
            RawError::InvalidResponseLength(
                InvalidResponseLength { length: data_len, expected: capacity },
            ),
        ),
{
    if data_len <= capacity {
        return Err(
            RawError::InvalidResponseLength(
                InvalidResponseLength { length: data_len, expected: capacity },
            ),
        );
    }
    Ok(())
}

/// The length of the SPI transfer that reads the bytes of a `data_len`-byte response
/// from byte `offset` on: 64 bytes, or what is left when that is less.
pub fn read_chunk_len(data_len: usize, offset: usize) -> (r: usize)
    requires
        offset < data_len,
    ensures
        r == vstd::math::min(data_len - offset, 64),
        0 < r <= SPI_CHUNK_LEN,
{
    let remaining = data_len - offset;
    if remaining < SPI_CHUNK_LEN {
        remaining
    } else {
        SPI_CHUNK_LEN
    }
}

/// The transmit buffer of a data read: the read-data command, the address 0, and 64
/// filler bytes (a transfer of `n` bytes sends its first `n + 2`).
pub fn read_data_frame() -> (r: [u8; 66])
    ensures
        r@ == seq![0x03u8, 0x00u8] + Seq::new(64, |i: int| 0u8),
{
    let mut r: [u8; 66] = [0u8; 66];
    r[0] = 0x03;
    r[1] = 0x00;
    assert(r@ =~= seq![0x03u8, 0x00u8] + Seq::new(64, |i: int| 0u8));
    r
}

/// The data packet that sends the bytes of `data` from byte `start` on, and how many of
/// its bytes are sent: the write-data command, the address 0, and the next 64 bytes of
/// the data (fewer at its end), followed by zero bytes up to the buffer's 66.
pub fn write_data_packet(data: &[u8], start: usize) -> (r: ([u8; 66], usize))
    requires
        start < data@.len(),
    ensures
        ({
            let n = vstd::math::min(data@.len() - start, 64);
            &&& r.1 == n + 2
            &&& r.0@ == seq![0x02u8, 0x00u8] + data@.subrange(start as int, start + n)
                + Seq::new((64 - n) as nat, |i: int| 0u8)
        }),
{
    let len = data.len();
    let n = read_chunk_len(len, start);
    let mut packet: [u8; 66] = [0u8; 66];
    packet[0] = 0x02;
    packet[1] = 0x00;
    let mut j: usize = 0;
    while j < n
        invariant
            j <= n,
            n == vstd::math::min(data@.len() - start, 64),
            len == data@.len(),
            start + n <= len,
            packet@.len() == 66,
            packet@[0] == 0x02u8,
            packet@[1] == 0x00u8,
            forall|k: int| 0 <= k < j ==> #[trigger] packet@[2 + k] == data@[start + k],
            forall|k: int| 2 + j <= k < 66 ==> #[trigger] packet@[k] == 0u8,
        decreases n - j,
    {
        packet[2 + j] = data[start + j];
        j += 1;
    }
    let ghost expected = seq![0x02u8, 0x00u8] + data@.subrange(start as int, start + n) + Seq::new(
        (64 - n) as nat,
        |i: int| 0u8,
    );
    assert(packet@ =~= expected) by {
        assert forall|k: int| 0 <= k < 66 implies packet@[k] == expected[k] by {
            if 2 <= k < 2 + n {
                assert(packet@[2 + (k - 2)] == data@[start + (k - 2)]);
            }
        }
    }
    (packet, n + 2)
}

/// `s` up to its first zero byte.
pub open spec fn nul_terminated(s: Seq<u8>) -> Seq<u8>
    decreases s.len(),
{
    if s.len() == 0 || s[0] == 0 {
        seq![]
    } else {
        seq![s[0]] + nul_terminated(s.drop_first())
    }
}

/// Cutting `s` at its first zero byte gives a prefix of `s` that holds no zero byte and
/// ends where `s` ends or just before a zero byte.
proof fn lemma_nul_terminated(s: Seq<u8>)
    ensures
        nul_terminated(s).len() <= s.len(),
        nul_terminated(s) == s.take(nul_terminated(s).len() as int),
        forall|i: int| 0 <= i < nul_terminated(s).len() ==> #[trigger] nul_terminated(s)[i] != 0,
        nul_terminated(s).len() == s.len() || s[nul_terminated(s).len() as int] == 0,
    decreases s.len(),
{
    if s.len() == 0 || s[0] == 0 {
        assert(s.take(0) =~= seq![]);
    } else {
        let t = s.drop_first();
        lemma_nul_terminated(t);
        let r = nul_terminated(s);
        assert(r == seq![s[0]] + nul_terminated(t));
        assert(r =~= s.take(r.len() as int)) by {
            assert forall|i: int| 0 <= i < r.len() implies r[i] == s[i] by {
                if i > 0 {
                    assert(r[i] == nul_terminated(t)[i - 1]);
                    assert(nul_terminated(t)[i - 1] == t.take(nul_terminated(t).len() as int)[i - 1]);
                }
            }
        }
        assert forall|i: int| 0 <= i < r.len() implies #[trigger] r[i] != 0 by {
            if i > 0 {
                assert(r[i] == nul_terminated(t)[i - 1]);
            }
        }
        if r.len() < s.len() {
            assert(s[r.len() as int] == t[nul_terminated(t).len() as int]);
        }
    }
}

/// The SSID of a scan record is its first 32 bytes up to the first zero byte, and
/// nothing shorter: it is a prefix of those bytes, every byte of it is non-zero (a space
/// or any other non-zero byte belongs to it), and it ends after 32 bytes or just before
/// a zero byte.
pub proof fn lemma_scan_ssid_up_to_first_zero(record: Seq<u8>)
    requires
        record.len() >= 32,
    ensures
        ({
            let r = scan_ssid(record);
            &&& r.len() <= 32
            &&& r == record.take(r.len() as int)
            &&& forall|i: int| 0 <= i < r.len() ==> #[trigger] r[i] != 0
            &&& r.len() == 32 || record[r.len() as int] == 0
        }),
{
    let head = record.take(32);
    lemma_nul_terminated(head);
    let r = scan_ssid(record);
    assert(r =~= record.take(r.len() as int)) by {
        assert forall|i: int| 0 <= i < r.len() implies r[i] == record[i] by {
            assert(r[i] == head.take(r.len() as int)[i]);
        }
    }
    if r.len() < 32 {
        assert(head[r.len() as int] == record[r.len() as int]);
    }
}

/// A scan response whose first 34-byte record names a network with a valid SSID lists
/// that network first: with that SSID and the record's byte 33 as its signal strength;
/// the rest of the list comes from the records that follow.
pub proof fn lemma_scan_first_entry(parsed: Seq<u8>)
    requires
        parsed.len() >= 34,
        valid_utf8(scan_ssid(parsed.take(34))),
    ensures
        spec_scan_entries(parsed).len() >= 1,
        spec_scan_entries(parsed)[0] == (scan_ssid(parsed.take(34)), parsed[33]),
        spec_scan_entries(parsed).drop_first() == spec_scan_entries(parsed.skip(34)),
{
    let rec = scan_record(parsed);
    assert(rec == parsed.take(34));
    let rest = spec_scan_entries(parsed.skip(34));
    assert(spec_scan_entries(parsed) == seq![(scan_ssid(rec), rec[33])] + rest);
    assert((seq![(scan_ssid(rec), rec[33])] + rest).drop_first() =~= rest);
}

/// The first 34-byte record of a scan response (all of it when shorter).
pub open spec fn scan_record(parsed: Seq<u8>) -> Seq<u8> {
    parsed.take(vstd::math::min(34, parsed.len() as int))
}

/// The SSID of a scan record: its first 32 bytes up to the first zero byte.
pub open spec fn scan_ssid(record: Seq<u8>) -> Seq<u8> {
    nul_terminated(record.take(32))
}

/// The networks of a scan response: one per 34-byte record whose SSID is valid UTF-8,
/// with the record's byte 33 as its signal strength.
pub open spec fn spec_scan_entries(parsed: Seq<u8>) -> Seq<(Seq<u8>, u8)>
    decreases parsed.len(),
{
    if parsed.len() == 0 {
        seq![]
    } else {
        let record = scan_record(parsed);
        let rest = parsed.skip(record.len() as int);
        if valid_utf8(scan_ssid(record)) {
            seq![(scan_ssid(record), record[33])] + spec_scan_entries(rest)
        } else {
            spec_scan_entries(rest)
        }
    }
}

/// The scan responses that parse without a fault: every record has its 32 SSID bytes,
/// and every record with a valid SSID also has its signal strength byte.
pub open spec fn scan_records_complete(parsed: Seq<u8>) -> bool
    decreases parsed.len(),
{
    if parsed.len() == 0 {
        true
    } else {
        let record = scan_record(parsed);
        &&& record.len() >= 32
        &&& valid_utf8(scan_ssid(record)) ==> record.len() >= 34
        &&& scan_records_complete(parsed.skip(record.len() as int))
    }
}

/// The SSID of the record at `start`: the record's first 32 bytes up to the first zero
/// byte.
fn ssid_of_record(parsed: &[u8], start: usize) -> (r: &[u8])
    requires
        start + 32 <= parsed@.len(),
    ensures
        r@ == scan_ssid(scan_record(parsed@.skip(start as int))),
        r@.len() <= 32,
{
    let ghost rec = scan_record(parsed@.skip(start as int));
    assert(rec.take(32) =~= parsed@.subrange(start as int, start + 32));
    let mut j: usize = 0;
    let n = parsed.len();
    assert(rec.take(32).skip(0) =~= rec.take(32));
    assert(parsed@.subrange(start as int, start as int) =~= seq![]);
    while j < 32 && parsed[start + j] != 0
        invariant
            j <= 32,
            n == parsed@.len(),
            start + 32 <= n,
            nul_terminated(rec.take(32)) == parsed@.subrange(start as int, start + j)
                + nul_terminated(rec.take(32).skip(j as int)),
            rec.take(32) == parsed@.subrange(start as int, start + 32),
        decreases 32 - j,
    {
        let ghost tail = rec.take(32).skip(j as int);
        assert(tail.drop_first() =~= rec.take(32).skip(j + 1));
        j += 1;
        assert(nul_terminated(rec.take(32)) =~= parsed@.subrange(start as int, start + j)
            + nul_terminated(rec.take(32).skip(j as int)));
    }
    assert(nul_terminated(rec.take(32).skip(j as int)) =~= seq![]);
    let r = &parsed[start..start + j];
    assert(r@ =~= nul_terminated(rec.take(32)));
    r
}

/// The networks listed by a scan response. The response is read as consecutive 34-byte
/// records; a record whose SSID is not valid UTF-8 is skipped.
pub fn parse_scan(parsed: &[u8]) -> (r: heapless::Vec<WifiScan, 10>)
    requires
        scan_records_complete(parsed@),
        spec_scan_entries(parsed@).len() <= 10,
    ensures
        scan_results(r) == spec_scan_entries(parsed@),
{
    let mut result = scan_results_new();
    let mut start: usize = 0;
    assert(parsed@.skip(0) =~= parsed@);
    while start < parsed.len()
        invariant
            start <= parsed@.len(),
            scan_records_complete(parsed@.skip(start as int)),
            spec_scan_entries(parsed@).len() <= 10,
            scan_results(result) + spec_scan_entries(parsed@.skip(start as int))
                == spec_scan_entries(parsed@),
        decreases parsed@.len() - start,
    {
        let ghost rest = parsed@.skip(start as int);
        let ghost record = scan_record(rest);
        let len = if parsed.len() - start < 34 {
            parsed.len() - start
        } else {
            34
        };
        assert(record.len() == len);
        assert(rest.skip(len as int) =~= parsed@.skip(start + len));
        match ssid_from_bytes(ssid_of_record(parsed, start)) {
            Some(ssid) => {
                assert(record[33] == parsed@[start + 33]);
                let rssi = parsed[start + 33];
                let ghost before = scan_results(result);
                assert(spec_scan_entries(rest) == seq![(scan_ssid(record), record[33])]
                    + spec_scan_entries(rest.skip(len as int)));
                let pushed = scan_results_push(&mut result, WifiScan { ssid, rssi });
                assert(pushed is Ok);
                assert(scan_results(result) + spec_scan_entries(parsed@.skip(start + len))
                    =~= spec_scan_entries(parsed@));
            },
            None => {},
        }
        start = start + len;
    }
    assert(parsed@.skip(start as int) =~= seq![]);
    assert(scan_results(result) =~= spec_scan_entries(parsed@));
    result
}

/// Whether `parse_scan` is defined on a scan response: every record is complete and at
/// most 10 of them name a network.
pub fn scan_response_parsable(parsed: &[u8]) -> (r: bool)
    ensures
        r == (scan_records_complete(parsed@) && spec_scan_entries(parsed@).len() <= 10),
{
    let mut count: usize = 0;
    let mut start: usize = 0;
    assert(parsed@.skip(0) =~= parsed@);
    while start < parsed.len()
        invariant
            start <= parsed@.len(),
            count <= 10,
            scan_records_complete(parsed@) == scan_records_complete(parsed@.skip(start as int)),
            count + spec_scan_entries(parsed@.skip(start as int)).len() == spec_scan_entries(
                parsed@,
            ).len(),
        decreases parsed@.len() - start,
    {
        let ghost rest = parsed@.skip(start as int);
        let ghost record = scan_record(rest);
        let len = if parsed.len() - start < 34 {
            parsed.len() - start
        } else {
            34
        };
        assert(record.len() == len);
        assert(rest.skip(len as int) =~= parsed@.skip(start + len));
        if len < 32 {
            return false;
        }
        if ssid_from_bytes(ssid_of_record(parsed, start)).is_some() {
            if len < 34 {
                return false;
            }
            if count == 10 {
                proof {
                    lemma_scan_entries_bounded(parsed@, start as int);
                }
                return false;
            }
            count += 1;
        }
        start = start + len;
    }
    assert(parsed@.skip(start as int) =~= seq![]);
    true
}

proof fn lemma_scan_entries_bounded(parsed: Seq<u8>, start: int)
    requires
        0 <= start < parsed.len(),
        valid_utf8(scan_ssid(scan_record(parsed.skip(start)))),
    ensures
        spec_scan_entries(parsed.skip(start)).len() >= 1,
{
}

/// `s` cut or padded with zero bytes to `n` bytes.
pub open spec fn zero_padded(s: Seq<u8>, n: nat) -> Seq<u8> {
    Seq::new(n, |i: int| if i < s.len() { s[i] } else { 0u8 })
}

/// The connect command: the command byte, the SSID in 33 bytes and the password in 64
/// bytes, each cut or padded with zero bytes.
pub fn connect_frame(wifi: &ConnWifi) -> (r: [u8; 98])
    ensures
        r@ == seq![Commands::Connect.spec_code()] + zero_padded(wifi@.0, 33) + zero_padded(
            wifi@.1,
            64,
        ),
{
    let ssid = ssid_as_bytes(&wifi.ssid);
    let password = password_as_bytes(&wifi.password);
    let mut r: [u8; 98] = [0u8; 98];
    r[0] = Commands::Connect.code();
    let mut i: usize = 0;
    while i < 33
        invariant
            i <= 33,
            ssid@ == wifi@.0,
            r@.len() == 98,
            r@[0] == Commands::Connect.spec_code(),
            forall|k: int| 0 <= k < i ==> #[trigger] r@[1 + k] == zero_padded(wifi@.0, 33)[k],
            forall|k: int| 1 + i <= k < 98 ==> #[trigger] r@[k] == 0,
        decreases 33 - i,
    {
        if i < ssid.len() {
            r[1 + i] = ssid[i];
        }
        i += 1;
    }
    let mut i: usize = 0;
    while i < 64
        invariant
            i <= 64,
            password@ == wifi@.1,
            r@.len() == 98,
            r@[0] == Commands::Connect.spec_code(),
            forall|k: int| 0 <= k < 33 ==> #[trigger] r@[1 + k] == zero_padded(wifi@.0, 33)[k],
            forall|k: int|
                0 <= k < i ==> #[trigger] r@[34 + k] == zero_padded(wifi@.1, 64)[k],
            forall|k: int| 34 + i <= k < 98 ==> #[trigger] r@[k] == 0,
        decreases 64 - i,
    {
        if i < password.len() {
            r[34 + i] = password[i];
        }
        i += 1;
    }
    assert(r@ =~= seq![Commands::Connect.spec_code()] + zero_padded(wifi@.0, 33)
        + zero_padded(wifi@.1, 64)) by {
        let s = seq![Commands::Connect.spec_code()] + zero_padded(wifi@.0, 33) + zero_padded(
            wifi@.1,
            64,
        );
        assert forall|k: int| 0 <= k < 98 implies r@[k] == s[k] by {
            if 1 <= k < 34 {
                assert(r@[1 + (k - 1)] == zero_padded(wifi@.0, 33)[k - 1]);
            } else if k >= 34 {
                assert(r@[34 + (k - 34)] == zero_padded(wifi@.1, 64)[k - 34]);
            }
        }
    }
    r
}

/// The outcome of a connect command from the first byte of its response: 0 is success,
/// 3 is a failure of the ESP8266, anything else is unexpected.
pub fn connect_result(status: &[u8]) -> (r: Result<(), Error>)
    requires
        status@.len() > 0,
    ensures
        r == (if status@[0] == 0 {
            Ok(())
        } else if status@[0] == 3 {
            Err(Error::SpiSuccessButESPFail)
        } else {
            Err(Error::UnexpectedResponse(status@[0]))
        }),
{
    match status[0] {
        0x0 => Ok(()),
        0x3 => Err(Error::SpiSuccessButESPFail),
        any => Err(Error::UnexpectedResponse(any)),
    }
}

} // verus!
