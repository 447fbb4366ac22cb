use vstd::prelude::*;
use vstd::utf8::valid_utf8;

use crate::at24c08::configs::{as_millis, duration_as_millis, duration_from_millis, from_millis, WifiConfig};
use crate::at24c08::{AT24C08Error, Addresses, ConvRawBytes};
use crate::bytes::{be_u32, be_u32_bytes, be_u64_at, be_u64_bytes, read_be_u32, read_be_u64, write_be_u32, write_be_u64};
use crate::esp12f::{password_from_bytes, ssid_from_bytes, ConnWifi};
use crate::menu::fan_menu::FanSpeed;
use crate::sht31::{f32_bits_is_nan, is_nan_bits, SHT31Reading};

verus! {

/// The byte ranges `[start, end)` of the stored values, in the order WiFi settings,
/// sensor calibration, fan speed, initialisation flag.
pub open spec fn registered_range(k: int) -> (int, int) {
    if k == 0 {
        (0, 104)
    } else if k == 1 {
        (104, 112)
    } else if k == 2 {
        (112, 113)
    } else {
        (113, 114)
    }
}

/// Where the WiFi settings are stored: 104 bytes from page 0, offset 0.
pub fn wifi_config_address() -> (r: Addresses<104, WifiConfig>)
    ensures
        r.page() == 0,
        r.offset() == 0,
        (r.absolute() as int, r.absolute() + 104) == registered_range(0),
{
    Addresses::new(0, 0)
}

/// Where the sensor calibration is stored: 8 bytes from page 6, offset 8.
pub fn sht_calibration_address() -> (r: Addresses<8, SHT31Reading>)
    ensures
        r.page() == 6,
        r.offset() == 8,
        (r.absolute() as int, r.absolute() + 8) == registered_range(1),
{
    Addresses::new(6, 8)
}

/// Where the fan speed is stored: 1 byte at page 7, offset 0.
pub fn fan_speed_address() -> (r: Addresses<1, FanSpeed>)
    ensures
        r.page() == 7,
        r.offset() == 0,
        (r.absolute() as int, r.absolute() + 1) == registered_range(2),
{
    Addresses::new(7, 0)
}

/// Where the flag that the EEPROM holds settings is stored: 1 byte at page 7, offset 1.
pub fn has_initiated_address() -> (r: Addresses<1, bool>)
    ensures
        r.page() == 7,
        r.offset() == 1,
        (r.absolute() as int, r.absolute() + 1) == registered_range(3),
{
    Addresses::new(7, 1)
}

/// No stored value overwrites another, and none runs past the last byte of the
/// 1024-byte EEPROM: the four registered ranges are non-empty, pairwise disjoint and
/// lie within `[0, 1024)`.
pub proof fn lemma_registered_ranges_disjoint()
    ensures
        forall|k: int|
            0 <= k < 4 ==> 0 <= (#[trigger] registered_range(k)).0 < registered_range(k).1
                <= 1024,
        forall|i: int, j: int|
            0 <= i < 4 && 0 <= j < 4 && i != j ==> (#[trigger] registered_range(i)).1
                <= (#[trigger] registered_range(j)).0 || registered_range(j).1
                <= registered_range(i).0,
{
}

/// The settings kept in the EEPROM.
pub struct Settings {
    pub calibration: SHT31Reading,
    pub fan_speed: FanSpeed,
    pub wifi_config: WifiConfig,
}

/// What loading the settings does after reading the initialisation flag.
pub enum LoadStep {
    /// The EEPROM holds no settings yet: write these (the flag, the calibration, the fan
    /// speed, the WiFi settings, in that order) and use them.
    InitializeWith(Settings),
    /// Read the calibration, the fan speed and the WiFi settings, each falling back to
    /// its default when its bytes are corrupted.
    ReadStored,
}

impl Settings {
    /// The settings of a fresh device: zero calibration, medium fan speed, default WiFi
    /// settings.
    pub fn defaults() -> (r: Settings)
        ensures
            r.calibration == SHT31Reading::default_spec(),
            r.fan_speed == FanSpeed::Medium,
            r.wifi_config.wifi is None,
            duration_as_millis(r.wifi_config.interval) == 15000,
    {
        Settings {
            calibration: SHT31Reading::default(),
            fan_speed: FanSpeed::Medium,
            wifi_config: WifiConfig::default(),
        }
    }

    /// The decision of `load` on the initialisation flag.
    pub fn load_step(has_initiated: bool) -> (r: LoadStep)
        ensures
            !has_initiated ==> (r matches LoadStep::InitializeWith(s) && s.calibration
                == SHT31Reading::default_spec() && s.fan_speed == FanSpeed::Medium
                && s.wifi_config.wifi is None && duration_as_millis(s.wifi_config.interval)
                == 15000),
            has_initiated ==> r is ReadStored,
    {
        if !has_initiated {
            LoadStep::InitializeWith(Settings::defaults())
        } else {
            LoadStep::ReadStored
        }
    }
}

impl SHT31Reading {
    /// The value `default` returns.
    pub open spec fn default_spec() -> SHT31Reading {
        SHT31Reading { temp_bits: 0, humid_bits: 0 }
    }

    /// The stored image: the temperature bits, then the humidity bits, big-endian.
    pub open spec fn spec_to_bytes(self) -> Seq<u8> {
        be_u32_bytes(self.temp_bits) + be_u32_bytes(self.humid_bits)
    }

    /// Decoding a stored image: a NaN in either value means the bytes are corrupted.
    pub open spec fn spec_from_bytes(b: Seq<u8>) -> Result<SHT31Reading, AT24C08Error> {
        let temp = be_u32(b[0], b[1], b[2], b[3]);
        let humid = be_u32(b[4], b[5], b[6], b[7]);
        if f32_bits_is_nan(temp) || f32_bits_is_nan(humid) {
            Err(AT24C08Error::DataCorrupted)
        } else {
            Ok(SHT31Reading { temp_bits: temp, humid_bits: humid })
        }
    }
}

impl ConvRawBytes<8> for SHT31Reading {
    open spec fn decodable(bytes: Seq<u8>) -> bool {
        true
    }

    open spec fn encodable(&self) -> bool {
        true
    }

    fn is_decodable(b: &[u8; 8]) -> (r: bool) {
        true
    }

    fn is_encodable(&self) -> (r: bool) {
        true
    }

    fn from_raw_bytes(bytes: [u8; 8]) -> (r: Result<Self, AT24C08Error>)
        ensures
            r == SHT31Reading::spec_from_bytes(bytes@),
    {
        let temp = read_be_u32(bytes[0], bytes[1], bytes[2], bytes[3]);
        let humid = read_be_u32(bytes[4], bytes[5], bytes[6], bytes[7]);
        let temp_nan = is_nan_bits(temp);
        let humid_nan = is_nan_bits(humid);
        if temp_nan || humid_nan {
            Err(AT24C08Error::DataCorrupted)
        } else {
            Ok(Self { temp_bits: temp, humid_bits: humid })
        }
    }

    fn to_raw_bytes(&self) -> (r: [u8; 8])
        ensures
            r@ == self.spec_to_bytes(),
    {
        let t = write_be_u32(self.temp_bits);
        let h = write_be_u32(self.humid_bits);
        let r: [u8; 8] = [t[0], t[1], t[2], t[3], h[0], h[1], h[2], h[3]];
        assert(r@ =~= self.spec_to_bytes());
        r
    }
}

impl FanSpeed {
    /// The stored image: the speed's position.
    pub open spec fn spec_to_bytes(self) -> Seq<u8> {
        seq![self.index()]
    }

    /// Decoding a stored image: positions past the last speed mean corrupted bytes.
    pub open spec fn spec_from_bytes(b: Seq<u8>) -> Result<FanSpeed, AT24C08Error> {
        if b[0] < 4 {
            Ok(FanSpeed::from_index(b[0]))
        } else {
            Err(AT24C08Error::DataCorrupted)
        }
    }
}

impl ConvRawBytes<1> for FanSpeed {
    open spec fn decodable(bytes: Seq<u8>) -> bool {
        true
    }

    open spec fn encodable(&self) -> bool {
        true
    }

    fn is_decodable(b: &[u8; 1]) -> (r: bool) {
        true
    }

    fn is_encodable(&self) -> (r: bool) {
        true
    }

    fn from_raw_bytes(b: [u8; 1]) -> (r: Result<Self, AT24C08Error>)
        ensures
            r == FanSpeed::spec_from_bytes(b@),
    {
        match FanSpeed::try_from(b[0]) {
            Ok(v) => Ok(v),
            Err(_) => Err(AT24C08Error::DataCorrupted),
        }
    }

    fn to_raw_bytes(&self) -> (r: [u8; 1])
        ensures
            r@ == self.spec_to_bytes(),
    {
        let r: [u8; 1] = [self.as_u8()];
        assert(r@ =~= self.spec_to_bytes());
        r
    }
}

/// The stored image of a flag: 1 for true, 0 for false.
pub open spec fn bool_to_bytes(v: bool) -> Seq<u8> {
    seq![if v { 1u8 } else { 0u8 }]
}

/// Decoding a stored flag: true exactly when the byte is 1.
pub open spec fn bool_from_bytes(b: Seq<u8>) -> Result<bool, AT24C08Error> {
    Ok(b[0] == 1)
}

impl ConvRawBytes<1> for bool {
    open spec fn decodable(bytes: Seq<u8>) -> bool {
        true
    }

    open spec fn encodable(&self) -> bool {
        true
    }

    fn is_decodable(b: &[u8; 1]) -> (r: bool) {
        true
    }

    fn is_encodable(&self) -> (r: bool) {
        true
    }

    fn from_raw_bytes(b: [u8; 1]) -> (r: Result<Self, AT24C08Error>)
        ensures
            r == bool_from_bytes(b@),
    {
        Ok(b[0] == 1)
    }

    fn to_raw_bytes(&self) -> (r: [u8; 1])
        ensures
            r@ == bool_to_bytes(*self),
    {
        let r: [u8; 1] = [if *self { 1 } else { 0 }];
        assert(r@ =~= bool_to_bytes(*self));
        r
    }
}

impl WifiConfig {
    /// The stored image of settings without a network: a zero flag byte, zero bytes, and
    /// the interval in milliseconds, big-endian, in the last 8 bytes.
    pub open spec fn spec_to_bytes(self) -> Seq<u8> {
        Seq::new(96, |i: int| 0u8) + be_u64_bytes(duration_as_millis(self.interval))
    }

    /// Decoding a stored image: byte 0 equal to 1 marks a network, whose SSID is bytes
    /// 1 to 32 and password bytes 33 to 95; a password that is not valid UTF-8 means
    /// corrupted bytes. The interval is the big-endian value of bytes 96 to 103.
    pub open spec fn spec_from_bytes(b: Seq<u8>) -> Result<
        (Option<(Seq<u8>, Seq<u8>)>, u64),
        AT24C08Error,
    > {
        if b[0] == 1 && !valid_utf8(b.subrange(33, 96)) {
            Err(AT24C08Error::DataCorrupted)
        } else {
            Ok(
                (
                    if b[0] == 1 {
                        Some((b.subrange(1, 33), b.subrange(33, 96)))
                    } else {
                        None
                    },
                    be_u64_at(b, 96),
                ),
            )
        }
    }
}

impl ConvRawBytes<104> for WifiConfig {
    /// The SSID of a stored network must be valid UTF-8, and the interval must fit a
    /// `Duration` whenever one is built: always, except when a stored network's password
    /// is not valid UTF-8 (the bytes are then refused before the interval is read).
    open spec fn decodable(bytes: Seq<u8>) -> bool {
        &&& bytes[0] == 1 ==> valid_utf8(bytes.subrange(1, 33))
        &&& (bytes[0] == 1 && !valid_utf8(bytes.subrange(33, 96))) || be_u64_at(bytes, 96)
            <= u64::MAX / 1000
    }

    /// Only settings without a network can be stored: storing a network's credentials
    /// copies them into a slice of the wrong length.
    open spec fn encodable(&self) -> bool {
        self.wifi is None
    }

    fn is_decodable(b: &[u8; 104]) -> (r: bool) {
        let ssid_ok = ssid_from_bytes(&b[1..33]).is_some();
        let password_refused = b[0] == 1 && password_from_bytes(&b[33..96]).is_none();
        let interval = read_be_u64(b.as_slice(), 96);
        (b[0] != 1 || ssid_ok) && (password_refused || interval <= u64::MAX / 1000)
    }

    fn is_encodable(&self) -> (r: bool) {
        self.wifi.is_none()
    }

    fn from_raw_bytes(b: [u8; 104]) -> (r: Result<Self, AT24C08Error>)
        ensures
            match r {
                Ok(c) => {
                    &&& WifiConfig::spec_from_bytes(b@) == Ok::<_, AT24C08Error>(c@)
                    &&& c.interval == duration_from_millis(be_u64_at(b@, 96))
                },
                Err(e) => WifiConfig::spec_from_bytes(b@) == Err::<
                    (Option<(Seq<u8>, Seq<u8>)>, u64),
                    _,
                >(e),
            },
    {
        let has_conn = b[0] == 1;
        let wifi = if has_conn {
            let ssid = match ssid_from_bytes(&b[1..33]) {
                Some(s) => s,
                None => vstd::pervasive::unreached(),
            };
            let password = match password_from_bytes(&b[33..96]) {
                Some(p) => p,
                None => return Err(AT24C08Error::DataCorrupted),
            };
            Some(ConnWifi { ssid, password })
        } else {
            None
        };
        let interval = read_be_u64(b.as_slice(), 96);
        let interval = from_millis(interval);
        Ok(Self { interval, wifi })
    }

    /// The image is decodable and is read back as these settings.
    fn to_raw_bytes(&self) -> (r: [u8; 104])
        ensures
            r@ == self.spec_to_bytes(),
            WifiConfig::decodable(r@),
            WifiConfig::spec_from_bytes(r@) == Ok::<_, AT24C08Error>(self@),
    {
        let mut buf = [0u8; 104];
        buf[0] = 0;
        let ms = as_millis(&self.interval);
        proof {
            lemma_wifi_config_roundtrip(*self);
        }
        let millis = write_be_u64(ms);
        let mut i: usize = 0;
        while i < 8
            invariant
                i <= 8,
                buf@.len() == 104,
                millis@ == be_u64_bytes(duration_as_millis(self.interval)),
                forall|k: int| 0 <= k < 96 ==> #[trigger] buf@[k] == 0,
                forall|k: int| 0 <= k < i ==> #[trigger] buf@[96 + k] == millis@[k],
            decreases 8 - i,
        {
            buf[96 + i] = millis[i];
            i += 1;
        }
        assert(buf@ =~= self.spec_to_bytes()) by {
            assert forall|k: int| 96 <= k < 104 implies buf@[k] == self.spec_to_bytes()[k] by {
                assert(buf@[96 + (k - 96)] == millis@[k - 96]);
            }
        }
        buf
    }
}

/// A calibration that holds no NaN is read back as written.
pub proof fn lemma_calibration_roundtrip(r: SHT31Reading)
    requires
        !f32_bits_is_nan(r.temp_bits),
        !f32_bits_is_nan(r.humid_bits),
    ensures
        SHT31Reading::spec_from_bytes(r.spec_to_bytes()) == Ok::<_, AT24C08Error>(r),
{
    let b = r.spec_to_bytes();
    crate::bytes::lemma_be_u32_roundtrip(r.temp_bits);
    crate::bytes::lemma_be_u32_roundtrip(r.humid_bits);
    assert(b[0] == be_u32_bytes(r.temp_bits)[0]);
    assert(b[4] == be_u32_bytes(r.humid_bits)[0]);
}

/// Decoded calibration bytes are written back unchanged.
pub proof fn lemma_calibration_bytes_roundtrip(b: Seq<u8>)
    requires
        b.len() == 8,
        SHT31Reading::spec_from_bytes(b) is Ok,
    ensures
        SHT31Reading::spec_from_bytes(b).unwrap().spec_to_bytes() == b,
{
    crate::bytes::lemma_be_u32_bytes_roundtrip(b[0], b[1], b[2], b[3]);
    crate::bytes::lemma_be_u32_bytes_roundtrip(b[4], b[5], b[6], b[7]);
    assert(SHT31Reading::spec_from_bytes(b).unwrap().spec_to_bytes() =~= b);
}

/// Every fan speed is read back as written.
pub proof fn lemma_fan_speed_roundtrip(s: FanSpeed)
    ensures
        FanSpeed::spec_from_bytes(s.spec_to_bytes()) == Ok::<_, AT24C08Error>(s),
{
}

/// Every flag is read back as written.
pub proof fn lemma_flag_roundtrip(v: bool)
    ensures
        bool_from_bytes(bool_to_bytes(v)) == Ok::<_, AT24C08Error>(v),
{
}

/// WiFi settings without a network are read back with the same interval, as long as the
/// interval fits a `Duration` again.
pub proof fn lemma_wifi_config_roundtrip(c: WifiConfig)
    requires
        c.wifi is None,
        duration_as_millis(c.interval) <= u64::MAX / 1000,
    ensures
        WifiConfig::decodable(c.spec_to_bytes()),
        WifiConfig::spec_from_bytes(c.spec_to_bytes()) == Ok::<_, AT24C08Error>(c@),
{
    lemma_wifi_image_roundtrip(duration_as_millis(c.interval));
}

/// The stored image of WiFi settings without a network and with an interval of `ms`
/// milliseconds.
pub open spec fn wifi_image(ms: u64) -> Seq<u8> {
    Seq::new(96, |i: int| 0u8) + be_u64_bytes(ms)
}

proof fn lemma_wifi_image_roundtrip(m: u64)
    requires
        m <= u64::MAX / 1000,
    ensures
        WifiConfig::decodable(wifi_image(m)),
        WifiConfig::spec_from_bytes(wifi_image(m)) == Ok::<_, AT24C08Error>(
            (None::<(Seq<u8>, Seq<u8>)>, m),
        ),
{
    let b = wifi_image(m);
    lemma_be_u64_roundtrip(m);
    assert(b.subrange(96, 104) =~= be_u64_bytes(m));
    assert(be_u64_at(b, 96) == m) by {
        assert forall|i: int| 0 <= i < 8 implies b[96 + i] == be_u64_bytes(m)[i] by {}
    }
}

/// Reading back eight written bytes gives the value that was written.
pub proof fn lemma_be_u64_roundtrip(x: u64)
    ensures
        be_u64_at(be_u64_bytes(x), 0) == x,
{
    let s = be_u64_bytes(x);
    let hi = (x / 0x1_0000_0000) as u32;
    let lo = (x % 0x1_0000_0000) as u32;
    assert(s[0] == ((x as int / 0x100_0000_0000_0000) % 0x100) as u8);
    assert(s[0] == x / 0x100_0000_0000_0000 && s[1] == (x / 0x1_0000_0000_0000) % 0x100 && s[2]
        == (x / 0x100_0000_0000) % 0x100 && s[3] == (x / 0x1_0000_0000) % 0x100 && s[4] == (x
        / 0x100_0000) % 0x100 && s[5] == (x / 0x1_0000) % 0x100 && s[6] == (x / 0x100) % 0x100
        && s[7] == x % 0x100);
    let (b0, b1, b2, b3, b4, b5, b6, b7) = (s[0], s[1], s[2], s[3], s[4], s[5], s[6], s[7]);
    assert((b0 as u64) * 0x100_0000_0000_0000 + (b1 as u64) * 0x1_0000_0000_0000 + (b2 as u64)
        * 0x100_0000_0000 + (b3 as u64) * 0x1_0000_0000 + (b4 as u64) * 0x100_0000 + (b5 as u64)
        * 0x1_0000 + (b6 as u64) * 0x100 + (b7 as u64) == x) by (bit_vector)
        requires
            b0 == x / 0x100_0000_0000_0000,
            b1 == (x / 0x1_0000_0000_0000) % 0x100,
            b2 == (x / 0x100_0000_0000) % 0x100,
            b3 == (x / 0x1_0000_0000) % 0x100,
            b4 == (x / 0x100_0000) % 0x100,
            b5 == (x / 0x1_0000) % 0x100,
            b6 == (x / 0x100) % 0x100,
            b7 == x % 0x100,
    ;
}

/// The 1024 EEPROM bytes `mem` after `bytes` are stored from address `start` on.
pub open spec fn stored(mem: Seq<u8>, start: int, bytes: Seq<u8>) -> Seq<u8> {
    Seq::new(
        mem.len(),
        |i: int|
            if start <= i < start + bytes.len() {
                bytes[i - start]
            } else {
                mem[i]
            },
    )
}

/// The EEPROM after a fresh device is initialised with `s`, in the order the firmware
/// writes: the flag, the calibration, the fan speed, the WiFi settings.
pub open spec fn initialised(mem: Seq<u8>, s: Settings) -> Seq<u8> {
    stored(
        stored(
            stored(
                stored(mem, registered_range(3).0, bool_to_bytes(true)),
                registered_range(1).0,
                s.calibration.spec_to_bytes(),
            ),
            registered_range(2).0,
            s.fan_speed.spec_to_bytes(),
        ),
        registered_range(0).0,
        s.wifi_config.spec_to_bytes(),
    )
}

/// After the settings are stored, whatever the EEPROM held before, each registered range
/// reads back as its value: the flag as set, the calibration, the fan speed and the WiFi
/// settings as written (for values that round-trip: a calibration without NaN, WiFi
/// settings without a network and with an interval that fits a `Duration`).
pub proof fn lemma_settings_read_back(mem: Seq<u8>, s: Settings)
    requires
        mem.len() == 1024,
        !f32_bits_is_nan(s.calibration.temp_bits),
        !f32_bits_is_nan(s.calibration.humid_bits),
        s.wifi_config.wifi is None,
        duration_as_millis(s.wifi_config.interval) <= u64::MAX / 1000,
    ensures
        ({
            let m = initialised(mem, s);
            &&& bool_from_bytes(m.subrange(113, 114)) == Ok::<_, AT24C08Error>(true)
            &&& SHT31Reading::spec_from_bytes(m.subrange(104, 112)) == Ok::<_, AT24C08Error>(
                s.calibration,
            )
            &&& FanSpeed::spec_from_bytes(m.subrange(112, 113)) == Ok::<_, AT24C08Error>(
                s.fan_speed,
            )
            &&& WifiConfig::spec_from_bytes(m.subrange(0, 104)) == Ok::<_, AT24C08Error>(
                s.wifi_config@,
            )
        }),
{
    let m = initialised(mem, s);
    lemma_registered_ranges_disjoint();
    assert(m.subrange(113, 114) =~= bool_to_bytes(true));
    assert(m.subrange(104, 112) =~= s.calibration.spec_to_bytes());
    assert(m.subrange(112, 113) =~= s.fan_speed.spec_to_bytes());
    assert(m.subrange(0, 104) =~= s.wifi_config.spec_to_bytes());
    lemma_calibration_roundtrip(s.calibration);
    lemma_fan_speed_roundtrip(s.fan_speed);
    lemma_flag_roundtrip(true);
    lemma_wifi_config_roundtrip(s.wifi_config);
}

/// Storing bytes in one range leaves every byte outside it as it was.
proof fn lemma_stored_elsewhere(mem: Seq<u8>, start: int, bytes: Seq<u8>, a: int, b: int)
    requires
        0 <= a <= b <= mem.len(),
        b <= start || start + bytes.len() <= a,
    ensures
        stored(mem, start, bytes).subrange(a, b) == mem.subrange(a, b),
{
    assert(stored(mem, start, bytes).subrange(a, b) =~= mem.subrange(a, b));
}

/// Storing bytes in a range that lies on the memory makes the range read as them.
proof fn lemma_stored_here(mem: Seq<u8>, start: int, bytes: Seq<u8>)
    requires
        0 <= start,
        start + bytes.len() <= mem.len(),
    ensures
        stored(mem, start, bytes).subrange(start, start + bytes.len()) == bytes,
        stored(mem, start, bytes).len() == mem.len(),
{
    assert(stored(mem, start, bytes).subrange(start, start + bytes.len()) =~= bytes);
}

/// `read_or_default` of the calibration on the EEPROM `mem`: the stored calibration,
/// or, when its bytes are corrupted, the default, which is then stored. Gives the
/// EEPROM afterwards and the calibration.
pub open spec fn load_calibration(mem: Seq<u8>) -> (Seq<u8>, SHT31Reading) {
    match SHT31Reading::spec_from_bytes(mem.subrange(104, 112)) {
        Ok(c) => (mem, c),
        Err(_) => (
            stored(mem, 104, SHT31Reading::default_spec().spec_to_bytes()),
            SHT31Reading::default_spec(),
        ),
    }
}

/// `read_or_default` of the fan speed on the EEPROM `mem`, whose default is `Medium`.
pub open spec fn load_fan_speed(mem: Seq<u8>) -> (Seq<u8>, FanSpeed) {
    match FanSpeed::spec_from_bytes(mem.subrange(112, 113)) {
        Ok(f) => (mem, f),
        Err(_) => (stored(mem, 112, FanSpeed::Medium.spec_to_bytes()), FanSpeed::Medium),
    }
}

/// `read_or_default` of the WiFi settings on the EEPROM `mem`, by their view; the
/// default has no network and a 15 second interval.
pub open spec fn load_wifi_config(mem: Seq<u8>) -> (Seq<u8>, (Option<(Seq<u8>, Seq<u8>)>, u64)) {
    match WifiConfig::spec_from_bytes(mem.subrange(0, 104)) {
        Ok(w) => (mem, w),
        Err(_) => (stored(mem, 0, wifi_image(15000)), (None, 15000)),
    }
}

/// Loading stored settings from the EEPROM `mem`, in the firmware's order (calibration,
/// fan speed, WiFi settings): the EEPROM afterwards and the three values.
pub open spec fn load_stored(mem: Seq<u8>) -> (
    Seq<u8>,
    SHT31Reading,
    FanSpeed,
    (Option<(Seq<u8>, Seq<u8>)>, u64),
) {
    let (m1, c) = load_calibration(mem);
    let (m2, f) = load_fan_speed(m1);
    let (m3, w) = load_wifi_config(m2);
    (m3, c, f, w)
}

/// After settings already stored are loaded (every value read, corrupted ones replaced
/// by their default, which is stored), each registered range reads back as the value
/// loaded, and the initialisation flag is left as it was. This holds for every EEPROM
/// content that loading accepts (a stored network's SSID must be valid UTF-8).
pub proof fn lemma_stored_settings_read_back(mem: Seq<u8>)
    requires
        mem.len() == 1024,
        WifiConfig::decodable(mem.subrange(0, 104)),
    ensures
        ({
            let (m, c, f, w) = load_stored(mem);
            &&& m.len() == 1024
            &&& m.subrange(113, 114) == mem.subrange(113, 114)
            &&& SHT31Reading::spec_from_bytes(m.subrange(104, 112)) == Ok::<_, AT24C08Error>(c)
            &&& FanSpeed::spec_from_bytes(m.subrange(112, 113)) == Ok::<_, AT24C08Error>(f)
            &&& WifiConfig::spec_from_bytes(m.subrange(0, 104)) == Ok::<_, AT24C08Error>(w)
        }),
{
    let (m1, c) = load_calibration(mem);
    let (m2, f) = load_fan_speed(m1);
    let (m3, w) = load_wifi_config(m2);
    // the calibration step
    let cal_default = SHT31Reading::default_spec().spec_to_bytes();
    assert(cal_default.len() == 8);
    if SHT31Reading::spec_from_bytes(mem.subrange(104, 112)) is Err {
        lemma_stored_here(mem, 104, cal_default);
        lemma_stored_elsewhere(mem, 104, cal_default, 0, 104);
        lemma_stored_elsewhere(mem, 104, cal_default, 112, 113);
        lemma_stored_elsewhere(mem, 104, cal_default, 113, 114);
        lemma_calibration_roundtrip(SHT31Reading::default_spec());
    }
    assert(m1.len() == 1024);
    assert(SHT31Reading::spec_from_bytes(m1.subrange(104, 112)) == Ok::<_, AT24C08Error>(c));
    assert(m1.subrange(0, 104) == mem.subrange(0, 104));
    assert(m1.subrange(113, 114) == mem.subrange(113, 114));
    // the fan speed step
    let fan_default = FanSpeed::Medium.spec_to_bytes();
    assert(fan_default.len() == 1);
    if FanSpeed::spec_from_bytes(m1.subrange(112, 113)) is Err {
        lemma_stored_here(m1, 112, fan_default);
        lemma_stored_elsewhere(m1, 112, fan_default, 0, 104);
        lemma_stored_elsewhere(m1, 112, fan_default, 104, 112);
        lemma_stored_elsewhere(m1, 112, fan_default, 113, 114);
        lemma_fan_speed_roundtrip(FanSpeed::Medium);
    }
    assert(m2.len() == 1024);
    assert(FanSpeed::spec_from_bytes(m2.subrange(112, 113)) == Ok::<_, AT24C08Error>(f));
    assert(SHT31Reading::spec_from_bytes(m2.subrange(104, 112)) == Ok::<_, AT24C08Error>(c));
    assert(m2.subrange(0, 104) == mem.subrange(0, 104));
    assert(m2.subrange(113, 114) == mem.subrange(113, 114));
    // the WiFi settings step
    let wifi_default = wifi_image(15000);
    assert(wifi_default.len() == 104);
    if WifiConfig::spec_from_bytes(m2.subrange(0, 104)) is Err {
        lemma_stored_here(m2, 0, wifi_default);
        lemma_stored_elsewhere(m2, 0, wifi_default, 104, 112);
        lemma_stored_elsewhere(m2, 0, wifi_default, 112, 113);
        lemma_stored_elsewhere(m2, 0, wifi_default, 113, 114);
        lemma_wifi_image_roundtrip(15000);
    }
    assert(m3.len() == 1024);
}

} // verus!
