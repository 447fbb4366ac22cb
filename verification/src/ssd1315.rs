use vstd::prelude::*;

verus! {

/// 7-bit I2C address of the SSD1315 display controller.
pub const ADDRESS: u8 = 0x3C;

/// The command that turns the display off.
pub const DISPLAY_OFF: u8 = 0xAE;

/// The command that turns the display on.
pub const DISPLAY_ON: u8 = 0xAF;

/// Size of the frame buffer: 8 pages of 128 columns, one byte per column and page.
pub const FRAMEBUFFER_LEN: usize = 1024;

/// An address window command.
#[derive(Clone, Copy, PartialEq, Eq, Structural, Debug)]
pub enum SetAddress {
    Page { start: u8, end: u8 },
    Column { start: u8, end: u8 },
}

/// What a transfer to the controller carries.
#[derive(Clone, Copy, PartialEq, Eq, Structural, Debug)]
pub enum WriteType {
    Command,
    Data,
}

/// The control byte that precedes a transfer.
pub fn control_byte(t: WriteType) -> (r: u8)
    ensures
        r == (match t {
            WriteType::Command => 0x00u8,
            WriteType::Data => 0x40u8,
        }),
{
    match t {
        WriteType::Command => 0x00,
        WriteType::Data => 0x40,
    }
}

/// The command that sets the page (3 bits) or column (7 bits) address window.
pub fn set_addr_command(address: SetAddress) -> (r: [u8; 3])
    ensures
        r@ == (match address {
            SetAddress::Page { start, end } => seq![0x22u8, start % 8, end % 8],
            SetAddress::Column { start, end } => seq![0x21u8, start % 128, end % 128],
        }),
{
    let r: [u8; 3] = match address {
        SetAddress::Page { start, end } => [0x22, start & 0x07, end & 0x07],
        SetAddress::Column { start, end } => [0x21, start & 0x7F, end & 0x7F],
    };
    proof {
        match address {
            SetAddress::Page { start, end } => {
                assert(start & 0x07 == start % 8 && end & 0x07 == end % 8) by (bit_vector);
            },
            SetAddress::Column { start, end } => {
                assert(start & 0x7F == start % 128 && end & 0x7F == end % 128) by (bit_vector);
            },
        }
    }
    assert(r@ =~= match address {
        SetAddress::Page { start, end } => seq![0x22u8, start % 8, end % 8],
        SetAddress::Column { start, end } => seq![0x21u8, start % 128, end % 128],
    });
    r
}

/// The start-up command sequence: 64-line multiplex, no offset, addressing mode 0,
/// start line 0, remapped segments and COM scan, alternative COM pins, contrast 0x7F,
/// display follows RAM, default oscillator, charge pump on, display on.
pub fn init_commands() -> (r: [u8; 19])
    ensures
        r@ == seq![
            0xA8u8, 0x3Fu8, 0xD3u8, 0x00u8, 0x20u8, 0x00u8, 0x40u8, 0xA1u8, 0xC8u8, 0xDAu8,
            0x12u8, 0x81u8, 0x7Fu8, 0xA4u8, 0xD5u8, 0x80u8, 0x8Du8, 0x14u8, 0xAFu8,
        ],
{
    let r: [u8; 19] = [
        0xA8, 0x3F, 0xD3, 0x00, 0x20, 0x00, 0x40, 0xA1, 0xC8, 0xDA, 0x12, 0x81, 0x7F, 0xA4, 0xD5,
        0x80, 0x8D, 0x14, 0xAF,
    ];
    assert(r@ =~= seq![
        0xA8u8, 0x3Fu8, 0xD3u8, 0x00u8, 0x20u8, 0x00u8, 0x40u8, 0xA1u8, 0xC8u8, 0xDAu8,
        0x12u8, 0x81u8, 0x7Fu8, 0xA4u8, 0xD5u8, 0x80u8, 0x8Du8, 0x14u8, 0xAFu8,
    ]);
    r
}

/// Whether bit `k` (`k < 8`) of `b` is set.
pub open spec fn bit_set(b: u8, k: u8) -> bool {
    (b >> k) & 1u8 == 1u8
}

/// The byte of the frame buffer that holds pixel `(x, y)`.
pub open spec fn pixel_index(x: int, y: int) -> int {
    (y / 8) * 128 + x
}

/// Whether pixel `(x, y)` is on in the frame buffer `fb`.
pub open spec fn pixel(fb: Seq<u8>, x: int, y: int) -> bool {
    bit_set(fb[pixel_index(x, y)], (y % 8) as u8)
}

proof fn lemma_bits(b: u8, k: u8, j: u8)
    requires
        k < 8,
        j < 8,
    ensures
        bit_set(b | (1u8 << k), j) == (j == k || bit_set(b, j)),
        bit_set(b & !(1u8 << k), j) == (j != k && bit_set(b, j)),
{
    assert(((b | (1u8 << k)) >> j) & 1u8 == 1u8 <==> (j == k || (b >> j) & 1u8 == 1u8))
        by (bit_vector)
        requires
            k < 8,
            j < 8,
    ;
    assert(((b & !(1u8 << k)) >> j) & 1u8 == 1u8 <==> (j != k && (b >> j) & 1u8 == 1u8))
        by (bit_vector)
        requires
            k < 8,
            j < 8,
    ;
}

proof fn lemma_pixel_index_unique(x1: int, y1: int, x2: int, y2: int)
    requires
        0 <= x1 < 128,
        0 <= y1 < 64,
        0 <= x2 < 128,
        0 <= y2 < 64,
        pixel_index(x1, y1) == pixel_index(x2, y2),
    ensures
        x1 == x2,
        y1 / 8 == y2 / 8,
        0 <= pixel_index(x1, y1) < 1024,
{
    let i = pixel_index(x1, y1);
    vstd::arithmetic::div_mod::lemma_fundamental_div_mod_converse(i, 128, y1 / 8, x1);
    vstd::arithmetic::div_mod::lemma_fundamental_div_mod_converse(i, 128, y2 / 8, x2);
}

/// The SSD1315 128x64 monochrome OLED display: its frame buffer.
pub struct SSD1315 {
    framebuffer: [u8; 1024],
}

impl SSD1315 {
    /// The frame buffer.
    pub closed spec fn fb(&self) -> Seq<u8> {
        self.framebuffer@
    }

    /// A display with every pixel off.
    pub fn new() -> (r: Self)
        ensures
            r.fb().len() == FRAMEBUFFER_LEN,
            forall|i: int| 0 <= i < FRAMEBUFFER_LEN ==> r.fb()[i] == 0,
    {
        Self { framebuffer: [0u8; 1024] }
    }

    /// The frame buffer, as it is sent to the controller.
    pub fn framebuffer(&self) -> (r: &[u8; 1024])
        ensures
            r@ == self.fb(),
    {
        &self.framebuffer
    }

    /// The display size in pixels: width and height.
    pub fn size(&self) -> (r: (u32, u32))
        ensures
            r == (128u32, 64u32),
    {
        (128, 64)
    }

    /// Turns pixel `(x, y)` on or off; every other pixel keeps its value.
    pub fn set_pixel(&mut self, x: u8, y: u8, value: bool)
        requires
            x < 128,
            y < 64,
        ensures
            final(self).fb().len() == FRAMEBUFFER_LEN,
            pixel(final(self).fb(), x as int, y as int) == value,
            forall|x2: int, y2: int|
                0 <= x2 < 128 && 0 <= y2 < 64 && (x2 != x || y2 != y) ==> #[trigger] pixel(
                    final(self).fb(),
                    x2,
                    y2,
                ) == pixel(old(self).fb(), x2, y2),
            forall|i: int|
                0 <= i < FRAMEBUFFER_LEN && i != pixel_index(x as int, y as int)
                    ==> #[trigger] final(self).fb()[i] == old(self).fb()[i],
    {
        let target: usize = (y as usize / 8) * 128 + x as usize;
        let bit: u8 = y % 8;
        let old_byte = self.framebuffer[target];
        let new_byte = if value {
            old_byte | (1u8 << bit)
        } else {
            old_byte & !(1u8 << bit)
        };
        self.framebuffer[target] = new_byte;
        proof {
            let ghost old_fb = old(self).framebuffer@;
            let ghost fb = self.framebuffer@;
            lemma_bits(old_byte, bit, bit);
            assert forall|x2: int, y2: int|
                0 <= x2 < 128 && 0 <= y2 < 64 && (x2 != x || y2 != y) implies #[trigger] pixel(
                fb,
                x2,
                y2,
            ) == pixel(old_fb, x2, y2) by {
                let i2 = pixel_index(x2, y2);
                assert(0 <= i2 < 1024) by {
                    assert(y2 / 8 <= 7);
                }
                if i2 == target as int {
                    lemma_pixel_index_unique(x2, y2, x as int, y as int);
                    assert(y2 % 8 != y % 8);
                    lemma_bits(old_byte, bit, (y2 % 8) as u8);
                }
            }
        }
    }

    /// Sets the pixel at the signed coordinates `(x, y)`; coordinates outside the display
    /// are ignored.
    pub fn draw_point(&mut self, x: i32, y: i32, on: bool)
        ensures
            final(self).fb().len() == FRAMEBUFFER_LEN,
            0 <= x < 128 && 0 <= y < 64 ==> {
                &&& pixel(final(self).fb(), x as int, y as int) == on
                &&& forall|x2: int, y2: int|
                    0 <= x2 < 128 && 0 <= y2 < 64 && (x2 != x || y2 != y) ==> #[trigger] pixel(
                        final(self).fb(),
                        x2,
                        y2,
                    ) == pixel(old(self).fb(), x2, y2)
            },
            !(0 <= x < 128 && 0 <= y < 64) ==> final(self).fb() == old(self).fb(),
    {
        if 0 <= x && x < 128 && 0 <= y && y < 64 {
            self.set_pixel(x as u8, y as u8, on);
        }
    }

    /// Turns every pixel on or off.
    pub fn clear(&mut self, on: bool)
        ensures
            final(self).fb().len() == FRAMEBUFFER_LEN,
            forall|i: int|
                0 <= i < FRAMEBUFFER_LEN ==> #[trigger] final(self).fb()[i] == (if on {
                    0xffu8
                } else {
                    0u8
                }),
    {
        let value: u8 = if on {
            0xff
        } else {
            0
        };
        let mut i: usize = 0;
        while i < FRAMEBUFFER_LEN
            invariant
                i <= FRAMEBUFFER_LEN,
                self.framebuffer@.len() == FRAMEBUFFER_LEN,
                forall|k: int| 0 <= k < i ==> #[trigger] self.framebuffer@[k] == value,
            decreases FRAMEBUFFER_LEN - i,
        {
            self.framebuffer[i] = value;
            i += 1;
        }
    }
}

/// After clearing, every pixel has the clearing value.
pub proof fn lemma_clear_sets_all_pixels(fb: Seq<u8>, on: bool, x: int, y: int)
    requires
        fb.len() == FRAMEBUFFER_LEN,
        forall|i: int| 0 <= i < FRAMEBUFFER_LEN ==> #[trigger] fb[i] == (if on {
            0xffu8
        } else {
            0u8
        }),
        0 <= x < 128,
        0 <= y < 64,
    ensures
        pixel(fb, x, y) == on,
{
    assert(0 <= pixel_index(x, y) < 1024) by {
        assert(y / 8 <= 7);
    }
    let k = (y % 8) as u8;
    assert(((0xffu8 >> k) & 1u8 == 1u8) && ((0u8 >> k) & 1u8 != 1u8)) by (bit_vector)
        requires
            k < 8,
    ;
}

} // verus!
