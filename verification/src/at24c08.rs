use core::marker::PhantomData;
use vstd::prelude::*;

pub mod configs;
pub mod registered_addresses;

verus! {

/// Conversion of a stored value to and from its fixed-size byte image in the EEPROM.
pub trait ConvRawBytes<const LEN: usize> where Self: Sized {
    /// The byte images that decoding is defined on.
    spec fn decodable(bytes: Seq<u8>) -> bool;

    /// The values that encoding is defined on.
    spec fn encodable(&self) -> bool;

    fn from_raw_bytes(b: [u8; LEN]) -> Result<Self, AT24C08Error>
        requires
            Self::decodable(b@),
    ;

    /// Whether `from_raw_bytes` is defined on `b`.
    fn is_decodable(b: &[u8; LEN]) -> (r: bool)
        ensures
            r == Self::decodable(b@),
    ;

    /// Whether `to_raw_bytes` is defined on this value.
    fn is_encodable(&self) -> (r: bool)
        ensures
            r == self.encodable(),
    ;

    fn to_raw_bytes(&self) -> [u8; LEN]
        requires
            self.encodable(),
    ;
}

/// Direction bit of the device address byte.
#[derive(Clone, Copy, PartialEq, Eq, Structural, Debug)]
pub enum RWBit {
    Read,
    Write,
}

impl RWBit {
    /// The value of the direction bit: 1 to read, 0 to write.
    pub open spec fn bit(self) -> u8 {
        match self {
            RWBit::Read => 1,
            RWBit::Write => 0,
        }
    }

    pub fn as_u8(self) -> (r: u8)
        ensures
            r == self.bit(),
    {
        match self {
            RWBit::Read => 1,
            RWBit::Write => 0,
        }
    }
}

/// Errors of the EEPROM driver.
#[derive(Clone, Copy, PartialEq, Eq, Structural, Debug)]
pub enum AT24C08Error {
    I2CError,
    DataCorrupted,
}

/// 7-bit I2C base address of the AT24C08.
pub const AT24C08_ADDRESS: u8 = 0b1010000;

/// Write cycle time of the EEPROM in milliseconds, waited after each page write.
pub const T_WRITE_CYCLE_MS: u64 = 5;

/// Location of a value of type `T`, `LEN` bytes long, in the 1024-byte EEPROM.
pub struct Addresses<const LEN: usize, T: ConvRawBytes<LEN>> {
    page: u8,
    offset: u8,
    absolute: u16,
    word: u8,
    phantom: PhantomData<T>,
}

impl<const LEN: usize, T: ConvRawBytes<LEN>> Addresses<LEN, T> {
    #[verifier::type_invariant]
    spec fn inv(&self) -> bool {
        &&& self.page < 64
        &&& self.offset < 16
        &&& LEN > 0
        &&& self.absolute + LEN <= 1024
        &&& self.absolute == self.page * 16 + self.offset
        &&& self.word == self.absolute % 256
    }

    pub closed spec fn page(&self) -> u8 {
        self.page
    }

    pub closed spec fn offset(&self) -> u8 {
        self.offset
    }

    /// The 10-bit address of the first byte.
    pub closed spec fn absolute(&self) -> u16 {
        self.absolute
    }

    /// The low 8 bits of the absolute address, sent as the word address.
    pub closed spec fn word(&self) -> u8 {
        self.word
    }

    /// The address of byte `offset` of page `page`. Every byte of the value must lie on
    /// the 1024-byte EEPROM.
    pub fn new(page: u8, offset: u8) -> (r: Self)
        requires
            page < 64,
            offset < 16,
            LEN > 0,
            page * 16 + offset + LEN <= 1024,
        ensures
            r.page() == page,
            r.offset() == offset,
            r.absolute() == page * 16 + offset,
            r.absolute() + LEN <= 1024,
            r.word() == (page * 16 + offset) % 256,
    {
        let absolute: u16 = page as u16 * 16 + offset as u16;
        Self { page, offset, absolute, word: (absolute % 256) as u8, phantom: PhantomData }
    }

    /// The device address byte: the base address, the two high bits of the absolute
    /// address as the block select bits, and the direction bit.
    pub fn device(&self, rw: RWBit) -> (r: u8)
        ensures
            r == AT24C08_ADDRESS + 2 * (self.absolute() / 256) + rw.bit(),
    {
        proof {
            use_type_invariant(self);
        }
        let abs = self.absolute;
        let bit = rw.as_u8();
        assert(abs < 1024 && bit <= 1 ==> (0b1010000u8 | (((abs >> 8u16) as u8) << 1u8) | bit)
            == 0b1010000u8 + 2 * (abs / 256) + bit) by (bit_vector);
        AT24C08_ADDRESS | ((self.absolute >> 8) as u8) << 1 | bit
    }

    /// The word address byte.
    pub fn word_address(&self) -> (r: u8)
        ensures
            r == self.word(),
    {
        self.word
    }

    /// The absolute address.
    pub fn absolute_address(&self) -> (r: u16)
        ensures
            r == self.absolute(),
    {
        self.absolute
    }
}

/// One page write: the device address byte, the word address byte, then `len` bytes
/// of the data from byte `start` on.
#[derive(Clone, Copy, PartialEq, Eq, Structural, Debug)]
pub struct PageWrite {
    pub device: u8,
    pub word: u8,
    pub start: usize,
    pub len: usize,
}

/// The chunks a write of `total` bytes starting at EEPROM address `address` is split
/// into, from byte `pos` of the data on: each chunk is `(start in the data, length)` and
/// runs to the end of the EEPROM page it starts in, or to the end of the data.
pub open spec fn spec_chunks(address: int, pos: int, total: int) -> Seq<(int, int)>
    decreases total - pos,
{
    if pos >= total {
        seq![]
    } else {
        let c = vstd::math::min(16 - (address + pos) % 16, total - pos);
        seq![(pos, c)] + spec_chunks(address, pos + c, total)
    }
}

/// What to do after a read attempt in `read_or_default`.
pub enum ReadOrDefault<T> {
    /// The value was read: return it.
    Value(T),
    /// The stored bytes are corrupted: write the default value and return it.
    StoreDefault,
    /// The bus failed: wait and read again.
    Retry,
}

/// The EEPROM driver.
pub struct AT24C08 {}

impl AT24C08 {
    pub fn new() -> (r: Self) {
        AT24C08 {  }
    }

    /// The decision of `read_or_default` on the result of one read.
    pub fn read_or_default_step<T>(result: Result<T, AT24C08Error>) -> (r: ReadOrDefault<T>)
        ensures
            match result {
                Ok(v) => r == ReadOrDefault::Value(v),
                Err(AT24C08Error::DataCorrupted) => r is StoreDefault,
                Err(AT24C08Error::I2CError) => r is Retry,
            },
    {
        match result {
            Ok(v) => ReadOrDefault::Value(v),
            Err(AT24C08Error::DataCorrupted) => ReadOrDefault::StoreDefault,
            Err(AT24C08Error::I2CError) => ReadOrDefault::Retry,
        }
    }

    /// The page write that stores the bytes of a `LEN`-byte value at `address` from
    /// byte `pos` of the value on: the chunk runs to the end of the EEPROM page it starts
    /// in, or to the end of the value, and, as every page write of a value, carries the
    /// device and word address of `address` itself. Starting at 0 and moving on by each
    /// write's length, the writes are exactly the chunks of `spec_chunks`.
    pub fn page_write_at<const LEN: usize, T: ConvRawBytes<LEN>>(
        &self,
        address: &Addresses<LEN, T>,
        pos: usize,
    ) -> (r: PageWrite)
        requires
            pos < LEN,
        ensures
            (r.start as int, r.len as int) == spec_chunks(address.absolute() as int, pos as int, LEN as int)[0],
            spec_chunks(address.absolute() as int, pos as int, LEN as int) == seq![(r.start as int, r.len as int)]
                + spec_chunks(address.absolute() as int, pos + r.len, LEN as int),
            r.start == pos,
            1 <= r.len <= 16,
            pos + r.len <= LEN,
            r.device == address.device_spec(RWBit::Write),
            r.word == address.word(),
    {
        proof {
            use_type_invariant(address);
        }
        let write_address: u16 = address.absolute + pos as u16;
        let page_offset = (write_address & 0x0F) as usize;
        assert(write_address & 0x0F == write_address % 16) by (bit_vector);
        let room = 16 - page_offset;
        let remaining = LEN - pos;
        let len = if room < remaining { room } else { remaining };
        PageWrite { device: address.device(RWBit::Write), word: address.word, start: pos, len }
    }
}

impl<const LEN: usize, T: ConvRawBytes<LEN>> Addresses<LEN, T> {
    /// The device address byte, as `device` computes it.
    pub open spec fn device_spec(&self, rw: RWBit) -> u8 {
        (AT24C08_ADDRESS + 2 * (self.absolute() / 256) + rw.bit()) as u8
    }
}

/// The chunks of a write cover the data in order, each chunk is 1 to 16 bytes long, and
/// no chunk crosses an EEPROM page boundary.
pub proof fn lemma_chunks_partition(address: int, pos: int, total: int)
    requires
        0 <= pos <= total,
    ensures
        ({
            let c = spec_chunks(address, pos, total);
            &&& pos < total ==> c.len() > 0 && c[0].0 == pos
            &&& c.len() > 0 ==> c.last().0 + c.last().1 == total
            &&& forall|k: int|
                0 <= k < c.len() ==> 1 <= #[trigger] c[k].1 <= 16 && (address + c[k].0) % 16
                    + c[k].1 <= 16
            &&& forall|k: int| 0 < k < c.len() ==> #[trigger] c[k].0 == c[k - 1].0 + c[k - 1].1
        }),
    decreases total - pos,
{
    if pos < total {
        let c = vstd::math::min(16 - (address + pos) % 16, total - pos);
        lemma_chunks_partition(address, pos + c, total);
        let rest = spec_chunks(address, pos + c, total);
        let all = spec_chunks(address, pos, total);
        assert(all == seq![(pos, c)] + rest);
        if pos + c >= total {
            assert(rest.len() == 0);
        } else {
            assert(rest[0].0 == pos + c);
        }
        assert forall|k: int| 0 < k < all.len() implies #[trigger] all[k].0 == all[k - 1].0 + all[
            k - 1].1 by {
            assert(all[k] == rest[k - 1]);
            if k > 1 {
                assert(all[k - 1] == rest[k - 2]);
            }
        }
        assert forall|k: int| 0 <= k < all.len() implies 1 <= #[trigger] all[k].1 <= 16 && (address
            + all[k].0) % 16 + all[k].1 <= 16 by {
            if k > 0 {
                assert(all[k] == rest[k - 1]);
            }
        }
    }
}

/// The data of the chunks `chunks` of `data`, one after the other.
pub open spec fn chunks_data(data: Seq<u8>, chunks: Seq<(int, int)>) -> Seq<u8>
    decreases chunks.len(),
{
    if chunks.len() == 0 {
        seq![]
    } else {
        data.subrange(chunks[0].0, chunks[0].0 + chunks[0].1) + chunks_data(
            data,
            chunks.drop_first(),
        )
    }
}

/// The page writes of a value carry its bytes, in order: their data, one after the
/// other, is the value's byte image.
pub proof fn lemma_chunks_rebuild_data(address: int, data: Seq<u8>)
    ensures
        chunks_data(data, spec_chunks(address, 0, data.len() as int)) == data,
{
    lemma_chunks_rebuild_from(address, data, 0);
    assert(data.subrange(0, data.len() as int) =~= data);
}

proof fn lemma_chunks_rebuild_from(address: int, data: Seq<u8>, pos: int)
    requires
        0 <= pos <= data.len(),
    ensures
        chunks_data(data, spec_chunks(address, pos, data.len() as int)) == data.subrange(
            pos,
            data.len() as int,
        ),
    decreases data.len() - pos,
{
    let n = data.len() as int;
    if pos < n {
        let c = vstd::math::min(16 - (address + pos) % 16, n - pos);
        lemma_chunks_rebuild_from(address, data, pos + c);
        let all = spec_chunks(address, pos, n);
        assert(all.drop_first() =~= spec_chunks(address, pos + c, n));
        assert(data.subrange(pos, n) =~= data.subrange(pos, pos + c) + data.subrange(pos + c, n));
    } else {
        assert(data.subrange(pos, n) =~= seq![]);
    }
}

} // verus!
