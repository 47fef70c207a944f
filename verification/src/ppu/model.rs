//! What the picture processor does, stated on its plain state: the dot
//! counter, the scroll registers, the register interface, the memory port
//! and the pixel pipeline.

use vstd::array::{spec_array_fill_for_copy_type, spec_array_update};
use vstd::prelude::*;

use super::PpuLines;
use crate::cpu::PinState;

verus! {

/// Dots in a scanline.
pub const DOTS_PER_LINE: u32 = 341;

/// Scanlines in a frame.
pub const LINES_PER_FRAME: u32 = 262;

/// Dots in a frame that skips none.
pub const DOTS_PER_FRAME: u32 = 89342;

/// The dot at which vertical blank begins: dot 1 of line 241.
pub const SET_VBLANK: u32 = 82182;

/// The dot at which vertical blank ends: dot 1 of line 261.
pub const CLEAR_VBLANK: u32 = 89002;

/// The last dot of a frame that skips none.
pub const LAST_EVEN_DOT: u32 = 89341;

/// The last dot of an odd frame with rendering on, which skips one.
pub const LAST_ODD_DOT: u32 = 89340;

/// The control register, written through `$2000`. Its two low bits are not
/// kept here: they live in the scroll register `t`.
#[derive(Copy, Clone, Debug, PartialEq, Eq)]
pub struct Ctrl(pub u8);

/// The mask register, written through `$2001`.
#[derive(Copy, Clone, Debug, PartialEq, Eq)]
pub struct Mask(pub u8);

impl Ctrl {
    /// Whether `$2007` accesses move `v` by 32 and not by 1.
    pub open spec fn increment_down(self) -> bool {
        (self.0 / 4) % 2 == 1
    }

    /// Whether sprites take their patterns from the upper table.
    pub open spec fn sprite_table(self) -> bool {
        (self.0 / 8) % 2 == 1
    }

    /// Whether the background takes its patterns from the upper table.
    pub open spec fn background_table(self) -> bool {
        (self.0 / 16) % 2 == 1
    }

    /// Whether sprites are sixteen lines tall.
    pub open spec fn tall_sprites(self) -> bool {
        (self.0 / 32) % 2 == 1
    }

    /// The master/slave select bit.
    pub open spec fn slave(self) -> bool {
        (self.0 / 64) % 2 == 1
    }

    /// Whether vertical blank raises NMI.
    pub open spec fn nmi_enable(self) -> bool {
        self.0 / 128 == 1
    }

    /// The height of a sprite in lines: 8 or 16.
    pub open spec fn sprite_height(self) -> u8 {
        if self.tall_sprites() {
            16
        } else {
            8
        }
    }
}

impl Mask {
    /// Whether colours are shown as greys.
    pub open spec fn is_greyscale(self) -> bool {
        self.0 % 2 == 1
    }

    /// Whether the background shows in the eight leftmost pixels.
    pub open spec fn shows_left_background(self) -> bool {
        (self.0 / 2) % 2 == 1
    }

    /// Whether sprites show in the eight leftmost pixels.
    pub open spec fn shows_left_sprites(self) -> bool {
        (self.0 / 4) % 2 == 1
    }

    /// Whether the background is shown.
    pub open spec fn shows_background(self) -> bool {
        (self.0 / 8) % 2 == 1
    }

    /// Whether sprites are shown.
    pub open spec fn shows_sprites(self) -> bool {
        (self.0 / 16) % 2 == 1
    }

    /// Whether red is emphasized.
    pub open spec fn emphasizes_red(self) -> bool {
        (self.0 / 32) % 2 == 1
    }

    /// Whether green is emphasized.
    pub open spec fn emphasizes_green(self) -> bool {
        (self.0 / 64) % 2 == 1
    }

    /// Whether blue is emphasized.
    pub open spec fn emphasizes_blue(self) -> bool {
        self.0 / 128 == 1
    }

    /// Whether background or sprites are shown.
    pub open spec fn rendering(self) -> bool {
        self.shows_background() || self.shows_sprites()
    }
}

/// What the memory port does at the next dot.
#[derive(Copy, Clone, Debug, PartialEq, Eq, Structural)]
pub enum Mem {
    /// Nothing.
    Idle,
    /// A read of the address; the flag tells that the byte is meant for the
    /// `$2007` read buffer.
    Read(u16, bool),
    /// The byte on the bus goes into the `$2007` read buffer.
    UpdatePpuData,
    /// A write of the byte to the address.
    Write(u16, u8),
}

/// The background unit: the tile being fetched and the shift registers that
/// the pixels come out of. Index 0 holds the low plane, index 1 the high.
#[derive(Copy, Clone, Debug, PartialEq, Eq)]
pub struct Shifters {
    pub name: u8,
    pub pattern: [u16; 2],
    pub next_pattern: [u8; 2],
    pub palette: [u8; 2],
    pub curr_palette: [bool; 2],
    pub next_palette: u8,
}

/// One of the eight sprites fetched for a scanline.
#[derive(Copy, Clone, Debug, PartialEq, Eq)]
pub struct Sprite {
    pub valid: bool,
    pub sp_0: bool,
    pub x: u8,
    pub y: u8,
    pub name: u8,
    pub palette: u8,
    pub priority: bool,
    pub flip_x: bool,
    pub flip_y: bool,
    pub pattern: [u8; 2],
}

/// The complete state of the picture processor between two dots.
#[derive(Copy, Clone, Debug, PartialEq, Eq)]
pub struct PpuState {
    pub dot: u32,
    pub odd_frame: bool,
    pub ctrl: Ctrl,
    pub mask: Mask,
    pub sprite_overflow: bool,
    pub sprite_0_hit: bool,
    pub vblank: bool,
    pub oam_addr: u8,
    pub data: u8,
    pub t: u16,
    pub v: u16,
    pub w: bool,
    pub x: u8,
    pub oam: [u8; 256],
    pub palette: [u8; 32],
    pub mem: Mem,
    pub shifters: Shifters,
    pub sprites: [Sprite; 8],
    pub sprite: usize,
    pub pixel: u8,
    pub pixel_coord: [u32; 2],
}

/// Bit `index` of a byte.
pub open spec fn bit_of_u8(byte: u8, index: u8) -> bool {
    (byte >> index) & 1 == 1
}

/// Bit `index` of a word.
pub open spec fn bit_of_u16(word: u16, index: u16) -> bool {
    (word >> index) & 1 == 1
}

/// The coarse X field of a scroll register: bits 0 to 4.
pub open spec fn coarse_x(v: u16) -> u8 {
    (v % 32) as u8
}

/// The coarse Y field of a scroll register: bits 5 to 9.
pub open spec fn coarse_y(v: u16) -> u8 {
    ((v / 32) % 32) as u8
}

/// The nametable field of a scroll register: bits 10 and 11.
pub open spec fn nametable(v: u16) -> u8 {
    ((v / 1024) % 4) as u8
}

/// The fine Y field of a scroll register: bits 12 to 14.
pub open spec fn fine_y(v: u16) -> u8 {
    ((v / 4096) % 8) as u8
}

/// Bit 15 of a scroll register, which belongs to no field.
pub open spec fn spare_bit(v: u16) -> u8 {
    (v / 32768) as u8
}

/// The scroll register with the given fields: fine Y in bits 12 to 14, the
/// nametable in bits 10 and 11, coarse Y in bits 5 to 9 and coarse X in bits
/// 0 to 4.
pub open spec fn compose(spare: u8, fine_y: u8, nametable: u8, coarse_y: u8, coarse_x: u8) -> u16 {
    (32768 * (spare % 2) + 4096 * (fine_y % 8) + 1024 * (nametable % 4) + 32 * (coarse_y % 32)
        + coarse_x % 32) as u16
}

/// A scroll register with the nametable field replaced by the two low bits
/// of `to`.
pub open spec fn set_nametable_select(v: u16, to: u8) -> u16 {
    compose(spare_bit(v), fine_y(v), to, coarse_y(v), coarse_x(v))
}

/// A scroll register with the coarse X field replaced by the five low bits
/// of `to`.
pub open spec fn set_coarse_x(v: u16, to: u8) -> u16 {
    compose(spare_bit(v), fine_y(v), nametable(v), coarse_y(v), to)
}

/// A scroll register with the coarse Y field replaced by the five low bits
/// of `to`.
pub open spec fn set_coarse_y(v: u16, to: u8) -> u16 {
    compose(spare_bit(v), fine_y(v), nametable(v), to, coarse_x(v))
}

/// A scroll register with the fine Y field replaced by the three low bits of
/// `to`.
pub open spec fn set_fine_y(v: u16, to: u8) -> u16 {
    compose(spare_bit(v), to, nametable(v), coarse_y(v), coarse_x(v))
}

/// The address of the nametable byte that `v` points at.
pub open spec fn name_addr(v: u16) -> u16 {
    (0x2000 + v % 0x1000) as u16
}

/// The address of the attribute byte for the tile that `v` points at: one
/// byte serves a block of four by four tiles.
pub open spec fn attr_addr(v: u16) -> u16 {
    (0x23C0 + 1024 * nametable(v) + 8 * (coarse_y(v) / 4) + coarse_x(v) / 4) as u16
}

/// One tile further right: coarse X counts up, and on leaving the last
/// column it wraps and the horizontal nametable bit flips.
pub open spec fn inc_hori(v: u16) -> u16 {
    if coarse_x(v) == 31 {
        if nametable(v) % 2 == 1 {
            (v - 31 - 1024) as u16
        } else {
            (v - 31 + 1024) as u16
        }
    } else {
        (v + 1) as u16
    }
}

/// One line further down: fine Y counts up and carries into coarse Y, which
/// on leaving row 29 wraps and flips the vertical nametable bit, and on
/// leaving row 31 wraps without flipping.
pub open spec fn inc_vert(v: u16) -> u16 {
    if fine_y(v) != 7 {
        (v + 0x1000) as u16
    } else if coarse_y(v) == 29 {
        if nametable(v) >= 2 {
            (v - 0x7000 - 32 * 29 - 2048) as u16
        } else {
            (v - 0x7000 - 32 * 29 + 2048) as u16
        }
    } else if coarse_y(v) == 31 {
        (v - 0x7000 - 32 * 31) as u16
    } else {
        (v - 0x7000 + 32) as u16
    }
}

/// `v` with the horizontal fields of `t`: coarse X and the low nametable
/// bit.
pub open spec fn copy_hori(v: u16, t: u16) -> u16 {
    compose(
        spare_bit(v),
        fine_y(v),
        (2 * (nametable(v) / 2) + nametable(t) % 2) as u8,
        coarse_y(v),
        coarse_x(t),
    )
}

/// `v` with the vertical fields of `t`: fine Y, the high nametable bit and
/// coarse Y.
pub open spec fn copy_vert(v: u16, t: u16) -> u16 {
    compose(
        spare_bit(v),
        fine_y(t),
        (2 * (nametable(t) / 2) + nametable(v) % 2) as u8,
        coarse_y(t),
        coarse_x(v),
    )
}

/// The palette entry behind an offset: the entries `$10`, `$14`, `$18` and
/// `$1C` are the entries `$00`, `$04`, `$08` and `$0C`.
pub open spec fn mirror_palette_offset(offset: u8) -> u8 {
    if offset == 0x10 || offset == 0x14 || offset == 0x18 || offset == 0x1C {
        (offset - 0x10) as u8
    } else {
        offset
    }
}

/// Whether an address lies in palette memory.
pub open spec fn is_palette_address(v: u16) -> bool {
    0x3F00 <= v < 0x4000
}

/// The two palette bits that an attribute byte holds for the tile at the
/// given coarse position: one pair of bits per quadrant of two by two
/// tiles.
pub open spec fn attribute_palette(attribute: u8, coarse_x: u8, coarse_y: u8) -> u8 {
    let right = (coarse_x / 2) % 2 == 1;
    let bottom = (coarse_y / 2) % 2 == 1;
    if !right && !bottom {
        attribute % 4
    } else if right && !bottom {
        (attribute / 4) % 4
    } else if !right && bottom {
        (attribute / 16) % 4
    } else {
        attribute / 64
    }
}

impl Shifters {
    /// Empty registers.
    pub open spec fn empty() -> Shifters {
        Shifters {
            name: 0,
            pattern: spec_array_fill_for_copy_type::<u16, 2>(0u16),
            next_pattern: spec_array_fill_for_copy_type::<u8, 2>(0u8),
            palette: spec_array_fill_for_copy_type::<u8, 2>(0u8),
            curr_palette: spec_array_fill_for_copy_type::<bool, 2>(false),
            next_palette: 0,
        }
    }

    /// The tile that was fetched enters: its pattern bytes fill the low
    /// halves of the pattern registers, and its two palette bits are
    /// latched for the palette registers to take in.
    #[verifier::opaque]
    pub open spec fn with_next_tile(self, coarse_x: u8, coarse_y: u8) -> Shifters {
        let palette = attribute_palette(self.next_palette, coarse_x, coarse_y);
        Shifters {
            pattern: spec_array_update(
                spec_array_update(
                    self.pattern,
                    0,
                    ((self.pattern[0] / 256) * 256 + self.next_pattern[0]) as u16,
                ),
                1,
                ((self.pattern[1] / 256) * 256 + self.next_pattern[1]) as u16,
            ),
            curr_palette: spec_array_update(
                spec_array_update(self.curr_palette, 0, palette % 2 == 1),
                1,
                palette / 2 == 1,
            ),
            ..self
        }
    }

    /// One pixel leaves: every register moves left by one bit, the palette
    /// registers taking the latched bits in at the right.
    #[verifier::opaque]
    pub open spec fn shifted(self) -> Shifters {
        Shifters {
            pattern: spec_array_update(
                spec_array_update(self.pattern, 0, ((self.pattern[0] % 0x8000) * 2) as u16),
                1,
                ((self.pattern[1] % 0x8000) * 2) as u16,
            ),
            palette: spec_array_update(
                spec_array_update(
                    self.palette,
                    0,
                    ((self.palette[0] % 128) * 2 + if self.curr_palette[0] {
                        1int
                    } else {
                        0
                    }) as u8,
                ),
                1,
                ((self.palette[1] % 128) * 2 + if self.curr_palette[1] {
                    1int
                } else {
                    0
                }) as u8,
            ),
            ..self
        }
    }

    /// The two-bit pattern of the pixel that fine X selects.
    pub open spec fn pattern_at(self, fine_x: u8) -> u8 {
        ((if bit_of_u16(self.pattern[0], (15 - fine_x % 8) as u16) {
            1int
        } else {
            0
        }) + (if bit_of_u16(self.pattern[1], (15 - fine_x % 8) as u16) {
            2int
        } else {
            0
        })) as u8
    }

    /// The two-bit palette of the pixel that fine X selects.
    pub open spec fn palette_at(self, fine_x: u8) -> u8 {
        ((if bit_of_u8(self.palette[0], (7 - fine_x % 8) as u8) {
            1int
        } else {
            0
        }) + (if bit_of_u8(self.palette[1], (7 - fine_x % 8) as u8) {
            2int
        } else {
            0
        })) as u8
    }
}

impl Sprite {
    /// A slot that holds no sprite.
    pub open spec fn empty() -> Sprite {
        Sprite {
            valid: false,
            sp_0: false,
            x: 0,
            y: 0,
            name: 0,
            palette: 0,
            priority: false,
            flip_x: false,
            flip_y: false,
            pattern: spec_array_fill_for_copy_type::<u8, 2>(0u8),
        }
    }

    /// The slot after the four bytes of an object entry were loaded into
    /// it. The attribute byte holds the palette in bits 0 and 1, the
    /// priority in bit 5 and the flips in bits 6 and 7.
    pub open spec fn loaded(self, x: u8, y: u8, name: u8, attr: u8) -> Sprite {
        Sprite {
            x,
            y,
            name,
            palette: attr % 4,
            priority: (attr / 32) % 2 == 1,
            flip_x: (attr / 64) % 2 == 1,
            flip_y: attr / 128 == 1,
            valid: true,
            ..self
        }
    }

    /// Whether the sprite covers scanline `line`, being `height` lines
    /// tall.
    pub open spec fn covers_line(self, line: u32, height: u8) -> bool {
        self.y <= line && line - self.y < height
    }

    /// The row of the sprite that scanline `line` shows: counted from the
    /// top, or from the bottom if the sprite is flipped. A line that the
    /// sprite does not cover shows row zero.
    pub open spec fn row(self, line: u32, height: u8) -> u8 {
        if !self.covers_line(line, height) {
            0
        } else if self.flip_y {
            (height - 1 - (line - self.y)) as u8
        } else {
            (line - self.y) as u8
        }
    }

    /// Whether the sprite covers the pixel column `dot`.
    pub open spec fn covers_dot(self, dot: u32) -> bool {
        self.x <= dot && dot - self.x < 8
    }

    /// The bit of the pattern bytes that column `dot` shows: bit 7 is the
    /// leftmost pixel unless the sprite is flipped.
    pub open spec fn column_bit(self, dot: u32) -> u8 {
        if !self.covers_dot(dot) {
            0
        } else if self.flip_x {
            (dot - self.x) as u8
        } else {
            (7 - (dot - self.x)) as u8
        }
    }

    /// The two-bit pattern that the sprite shows in column `dot`.
    pub open spec fn pattern_at(self, dot: u32) -> u8 {
        ((if bit_of_u8(self.pattern[0], self.column_bit(dot)) {
            1int
        } else {
            0
        }) + (if bit_of_u8(self.pattern[1], self.column_bit(dot)) {
            2int
        } else {
            0
        })) as u8
    }

    /// The tile to fetch for the slot: an empty slot fetches tile `$FF`.
    pub open spec fn tile_to_fetch(self) -> u8 {
        if self.valid {
            self.name
        } else {
            0xFF
        }
    }
}

/// The address of the low pattern byte of a background tile row.
pub open spec fn background_pattern_addr(name: u8, row: u8, upper_table: bool) -> u16 {
    (name * 16 + row % 8 + if upper_table {
        0x1000int
    } else {
        0
    }) as u16
}

/// The address of the low pattern byte of a sprite row. A tall sprite
/// takes its table from bit 0 of its tile number and spans two tiles.
pub open spec fn sprite_pattern_addr(name: u8, row: u8, tall: bool, upper_table: bool) -> u16 {
    if tall {
        ((name % 2) * 0x1000 + ((name / 2) * 2 + (row % 16) / 8) * 16 + row % 8) as u16
    } else {
        background_pattern_addr(name, row, upper_table)
    }
}

/// What a sprite contributes to a pixel: its colour, whether it is sprite
/// zero, and whether it lies in front of the background.
pub struct SpritePixel {
    pub color: u8,
    pub sp_0: bool,
    pub in_front: bool,
}

impl PpuState {
    /// The state at power-on.
    pub open spec fn power_on() -> PpuState {
        PpuState {
            dot: 0,
            odd_frame: false,
            ctrl: Ctrl(0),
            mask: Mask(0),
            sprite_overflow: false,
            sprite_0_hit: false,
            vblank: false,
            oam_addr: 0,
            data: 0,
            t: 0,
            v: 0,
            w: false,
            x: 0,
            oam: spec_array_fill_for_copy_type::<u8, 256>(0u8),
            palette: spec_array_fill_for_copy_type::<u8, 32>(0u8),
            mem: Mem::Idle,
            shifters: Shifters::empty(),
            sprites: spec_array_fill_for_copy_type::<Sprite, 8>(Sprite::empty()),
            sprite: 0,
            pixel: 0,
            pixel_coord: spec_array_fill_for_copy_type::<u32, 2>(0u32),
        }
    }

    /// The dot within the scanline.
    pub open spec fn dot_x(self) -> u32 {
        self.dot % DOTS_PER_LINE
    }

    /// The scanline.
    pub open spec fn dot_y(self) -> u32 {
        self.dot / DOTS_PER_LINE
    }

    /// The last dot of the frame in progress: an odd frame with rendering on
    /// is one dot shorter.
    pub open spec fn last_dot(self) -> u32 {
        if self.mask.rendering() && self.odd_frame {
            LAST_ODD_DOT
        } else {
            LAST_EVEN_DOT
        }
    }

    /// The end of a dot: vertical blank begins at dot 1 of line 241 and ends,
    /// together with the sprite flags, at dot 1 of line 261; then the dot
    /// counter moves on, wrapping at the end of the frame.
    #[verifier::opaque]
    pub open spec fn tick_dot(self) -> PpuState {
        let flagged = if self.dot == SET_VBLANK {
            PpuState { vblank: true, ..self }
        } else if self.dot == CLEAR_VBLANK {
            PpuState { vblank: false, sprite_0_hit: false, sprite_overflow: false, ..self }
        } else {
            self
        };
        if self.dot >= self.last_dot() {
            PpuState { dot: 0, odd_frame: !self.odd_frame, ..flagged }
        } else {
            PpuState { dot: (self.dot + 1) as u32, ..flagged }
        }
    }

    /// The level that the picture processor puts on the NMI line.
    pub open spec fn nmi_level(self) -> bool {
        self.ctrl.nmi_enable() && self.vblank
    }

    /// The memory port acts on what was scheduled at the dot before.
    #[verifier::opaque]
    pub open spec fn do_mem_access(self, bus: PpuLines) -> (PpuState, PpuLines) {
        match self.mem {
            Mem::Idle => (PpuState { mem: Mem::Idle, ..self }, bus.io()),
            Mem::Read(addr, for_buffer) => (
                PpuState {
                    mem: if for_buffer {
                        Mem::UpdatePpuData
                    } else {
                        Mem::Idle
                    },
                    ..self
                },
                bus.read(addr),
            ),
            Mem::UpdatePpuData => (PpuState { mem: Mem::Idle, data: bus.data, ..self }, bus),
            Mem::Write(addr, data) => (PpuState { mem: Mem::Idle, ..self }, bus.write(addr, data)),
        }
    }

    /// `v` after a `$2007` access: up by 1 or by 32, within fourteen bits.
    #[verifier::opaque]
    pub open spec fn increment_v(self) -> PpuState {
        PpuState {
            v: ((self.v + if self.ctrl.increment_down() {
                32int
            } else {
                1
            }) % 0x4000) as u16,
            ..self
        }
    }

    /// A write to `$2000`: the control bits, and the nametable select into
    /// `t`.
    #[verifier::opaque]
    pub open spec fn write_ctrl(self, data: u8) -> PpuState {
        PpuState {
            ctrl: Ctrl((data - data % 4) as u8),
            t: set_nametable_select(self.t, data),
            ..self
        }
    }

    /// The byte that a read of `$2002` returns: the three status bits above
    /// the five low bits that the data lines held.
    pub open spec fn status_byte(self, bus_data: u8) -> u8 {
        (bus_data % 32 + (if self.sprite_overflow {
            32int
        } else {
            0
        }) + (if self.sprite_0_hit {
            64int
        } else {
            0
        }) + (if self.vblank {
            128int
        } else {
            0
        })) as u8
    }

    /// A read of `$2002`: vertical blank and the write toggle are cleared.
    #[verifier::opaque]
    pub open spec fn read_status(self) -> PpuState {
        PpuState { vblank: false, w: false, ..self }
    }

    /// A write to `$2004`: the byte goes to object memory and the object
    /// address moves on.
    #[verifier::opaque]
    pub open spec fn write_oam(self, data: u8) -> PpuState {
        PpuState {
            oam: spec_array_update(self.oam, self.oam_addr as int, data),
            oam_addr: ((self.oam_addr + 1) % 256) as u8,
            ..self
        }
    }

    /// A write to `$2005`: the first sets fine X and coarse X, the second
    /// fine Y and coarse Y.
    #[verifier::opaque]
    pub open spec fn write_scroll(self, data: u8) -> PpuState {
        if !self.w {
            PpuState { w: true, x: data % 8, t: set_coarse_x(self.t, data / 8), ..self }
        } else {
            PpuState {
                w: false,
                t: set_fine_y(set_coarse_y(self.t, data / 8), data % 8),
                ..self
            }
        }
    }

    /// A write to `$2006`: the first sets the high byte of `t` from six bits
    /// of the data, the second the low byte, and then `v` becomes `t`.
    #[verifier::opaque]
    pub open spec fn write_addr(self, data: u8) -> PpuState {
        if !self.w {
            PpuState { w: true, t: (self.t % 256 + 256 * (data % 64)) as u16, ..self }
        } else {
            let t = ((self.t / 256) * 256 + data) as u16;
            PpuState { w: false, t, v: t, ..self }
        }
    }

    /// A read of `$2007`. Below the palette the processor gets the read
    /// buffer, and a read of `v` is scheduled to refill it. In the palette
    /// it gets the palette entry at once, and the buffer is refilled from
    /// the memory that lies under the palette.
    #[verifier::opaque]
    pub open spec fn read_data(self) -> (PpuState, u8) {
        if is_palette_address(self.v) {
            (
                PpuState {
                    mem: Mem::Read((self.v - 0x1000) as u16, true),
                    ..self
                }.increment_v(),
                self.palette[mirror_palette_offset((self.v % 32) as u8) as int],
            )
        } else {
            (PpuState { mem: Mem::Read(self.v, true), ..self }.increment_v(), self.data)
        }
    }

    /// A write to `$2007`: into the palette at once, elsewhere through the
    /// memory port at the next dot.
    #[verifier::opaque]
    pub open spec fn write_data(self, data: u8) -> PpuState {
        if is_palette_address(self.v) {
            PpuState {
                palette: spec_array_update(
                    self.palette,
                    mirror_palette_offset((self.v % 32) as u8) as int,
                    data,
                ),
                ..self
            }.increment_v()
        } else {
            PpuState { mem: Mem::Write(self.v, data), ..self }.increment_v()
        }
    }

    /// Whether the processor bus addresses one of the eight registers, which
    /// repeat through `$2000` to `$3FFF`.
    pub open spec fn selected(cpu: PinState) -> bool {
        0x2000 <= cpu.address < 0x4000
    }

    /// The register interface. A register answers only the kind of access
    /// it supports; any other access leaves state and data lines alone.
    #[verifier::opaque]
    pub open spec fn handle_cpu(self, cpu: PinState) -> (PpuState, PinState) {
        if !Self::selected(cpu) {
            (self, cpu)
        } else {
            let reg = cpu.address % 8;
            if reg == 0 && !cpu.read {
                (self.write_ctrl(cpu.data), cpu)
            } else if reg == 1 && !cpu.read {
                (PpuState { mask: Mask(cpu.data), ..self }, cpu)
            } else if reg == 2 && cpu.read {
                (self.read_status(), PinState { data: self.status_byte(cpu.data), ..cpu })
            } else if reg == 3 && !cpu.read {
                (PpuState { oam_addr: cpu.data, ..self }, cpu)
            } else if reg == 4 && cpu.read {
                (self, PinState { data: self.oam[self.oam_addr as int], ..cpu })
            } else if reg == 4 {
                (self.write_oam(cpu.data), cpu)
            } else if reg == 5 && !cpu.read {
                (self.write_scroll(cpu.data), cpu)
            } else if reg == 6 && !cpu.read {
                (self.write_addr(cpu.data), cpu)
            } else if reg == 7 && cpu.read {
                (self.read_data().0, PinState { data: self.read_data().1, ..cpu })
            } else if reg == 7 {
                (self.write_data(cpu.data), cpu)
            } else {
                (self, cpu)
            }
        }
    }

    /// A read scheduled for the next dot.
    pub open spec fn read(self, addr: u16) -> PpuState {
        PpuState { mem: Mem::Read(addr, false), ..self }
    }

    /// The sprite slot that the sprite fetches are working on, if any.
    pub open spec fn current_sprite(self) -> Sprite {
        if self.sprite < 8 {
            self.sprites[self.sprite as int]
        } else {
            Sprite::empty()
        }
    }

    /// The address of the low pattern byte to fetch, for the background tile
    /// or for the current sprite slot.
    #[verifier::opaque]
    pub open spec fn pattern_addr(self, y: u32, sprite: bool) -> u16 {
        if sprite {
            sprite_pattern_addr(
                self.current_sprite().tile_to_fetch(),
                self.current_sprite().row(y, self.ctrl.sprite_height()),
                self.ctrl.tall_sprites(),
                self.ctrl.sprite_table(),
            )
        } else {
            background_pattern_addr(self.shifters.name, fine_y(self.v), self.ctrl.background_table())
        }
    }

    /// The low pattern byte arrives.
    #[verifier::opaque]
    pub open spec fn latch_lo_pattern(self, sprite: bool, data: u8) -> PpuState {
        if sprite {
            if self.sprite < 8 {
                PpuState {
                    sprites: spec_array_update(
                        self.sprites,
                        self.sprite as int,
                        Sprite {
                            pattern: spec_array_update(
                                self.sprites[self.sprite as int].pattern,
                                0,
                                data,
                            ),
                            ..self.sprites[self.sprite as int]
                        },
                    ),
                    ..self
                }
            } else {
                self
            }
        } else {
            PpuState {
                shifters: Shifters {
                    next_pattern: spec_array_update(self.shifters.next_pattern, 0, data),
                    ..self.shifters
                },
                ..self
            }
        }
    }

    /// The high pattern byte arrives. For a sprite that completes the slot
    /// and the next slot is worked on; for the background the tile enters
    /// the shifters and `v` moves one tile to the right.
    #[verifier::opaque]
    pub open spec fn latch_hi_pattern(self, sprite: bool, data: u8) -> PpuState {
        if sprite {
            if self.sprite < 8 {
                PpuState {
                    sprites: spec_array_update(
                        self.sprites,
                        self.sprite as int,
                        Sprite {
                            pattern: spec_array_update(
                                self.sprites[self.sprite as int].pattern,
                                1,
                                data,
                            ),
                            ..self.sprites[self.sprite as int]
                        },
                    ),
                    sprite: (self.sprite + 1) as usize,
                    ..self
                }
            } else {
                self
            }
        } else {
            PpuState {
                shifters: Shifters {
                    next_pattern: spec_array_update(self.shifters.next_pattern, 1, data),
                    ..self.shifters
                }.with_next_tile(coarse_x(self.v), coarse_y(self.v)),
                v: inc_hori(self.v),
                ..self
            }
        }
    }

    /// One step of the eight-dot fetch cycle: nametable byte, attribute
    /// byte, low and high pattern byte, each taking two dots. The byte that
    /// a fetch asked for is on the bus two dots later, when the next fetch
    /// is set up.
    #[verifier::opaque]
    pub open spec fn fetch_tiles(self, step: u32, y: u32, sprite: bool, data: u8) -> PpuState {
        let phase = step % 8;
        if phase == 0 {
            (if step != 0 {
                self.latch_hi_pattern(sprite, data)
            } else {
                self
            }).fetch_name()
        } else if phase == 2 {
            PpuState { shifters: Shifters { name: data, ..self.shifters }, ..self }.fetch_attr()
        } else if phase == 4 {
            let latched = PpuState {
                shifters: Shifters { next_palette: data, ..self.shifters },
                ..self
            };
            latched.read(latched.pattern_addr(y, sprite))
        } else if phase == 6 {
            let latched = self.latch_lo_pattern(sprite, data);
            latched.read((latched.pattern_addr(y, sprite) + 8) as u16)
        } else {
            self
        }
    }

    /// A fetch of the nametable byte at `v`.
    pub open spec fn fetch_name(self) -> PpuState {
        self.read(name_addr(self.v))
    }

    /// A fetch of the attribute byte for the tile at `v`.
    pub open spec fn fetch_attr(self) -> PpuState {
        self.read(attr_addr(self.v))
    }

    /// The background's share of the pixel in column `x`: its colour and
    /// whether it is transparent. A transparent pixel shows the universal
    /// background colour.
    #[verifier::opaque]
    pub open spec fn produce_background(self, x: u32) -> (u8, bool) {
        let pattern = self.shifters.pattern_at(self.x);
        if pattern == 0 || (!self.mask.shows_left_background() && x < 8) {
            (self.palette[0], true)
        } else {
            (
                self.palette[mirror_palette_offset(
                    (pattern + 4 * self.shifters.palette_at(self.x)) as u8,
                ) as int],
                false,
            )
        }
    }

    /// The first of the slots from `from` on that holds a sprite covering
    /// column `x` with an opaque pixel there. The slots are filled from the
    /// front, so the search ends at the first empty one.
    pub open spec fn sprite_from(self, x: u32, from: nat) -> Option<SpritePixel>
        decreases 8 - from,
    {
        if from >= 8 || !self.sprites[from as int].valid {
            None
        } else {
            let sprite = self.sprites[from as int];
            if sprite.covers_dot(x) && sprite.pattern_at(x) != 0 {
                Some(
                    SpritePixel {
                        color: self.palette[mirror_palette_offset(
                            (sprite.pattern_at(x) + 4 * (sprite.palette % 4 + 4)) as u8,
                        ) as int],
                        sp_0: sprite.sp_0,
                        in_front: !sprite.priority,
                    },
                )
            } else {
                self.sprite_from(x, from + 1)
            }
        }
    }

    /// The sprites' share of the pixel in column `x`.
    pub open spec fn produce_sprite(self, x: u32) -> Option<SpritePixel> {
        if !self.mask.shows_left_sprites() && x < 8 {
            None
        } else {
            self.sprite_from(x, 0)
        }
    }

    /// The pixel multiplexer. With both opaque the sprite wins if it lies in
    /// front; with one opaque that one shows; with none the universal
    /// background colour. Sprite zero over an opaque background pixel left
    /// of column 255 sets the sprite-zero flag.
    #[verifier::opaque]
    pub open spec fn produce_pixel(self, x: u32, y: u32) -> PpuState {
        let (bg, bg_transparent) = self.produce_background(x);
        match self.produce_sprite(x) {
            Some(sp) => PpuState {
                pixel: if bg_transparent || sp.in_front {
                    sp.color
                } else {
                    bg
                },
                sprite_0_hit: self.sprite_0_hit || (!bg_transparent && sp.sp_0 && x < 255),
                pixel_coord: [x, y],
                ..self
            },
            None => PpuState { pixel: bg, pixel_coord: [x, y], ..self },
        }
    }

    /// Whether object entry `index` lies on scanline `line`.
    pub open spec fn entry_in_range(self, index: int, line: u8) -> bool {
        self.oam[4 * index] <= line && line - self.oam[4 * index] < self.ctrl.sprite_height()
    }

    /// Sprite evaluation from object entry `index` on. Entries in range
    /// fill the slots in order; once eight are filled, one more entry in
    /// range sets the overflow flag and ends the search.
    pub open spec fn evaluate_from(self, line: u8, index: nat) -> PpuState
        decreases 64 - index,
    {
        if index >= 64 {
            self
        } else if !self.entry_in_range(index as int, line) {
            self.evaluate_from(line, index + 1)
        } else if self.sprite >= 8 {
            PpuState { sprite_overflow: true, ..self }
        } else {
            PpuState {
                sprites: spec_array_update(
                    self.sprites,
                    self.sprite as int,
                    Sprite {
                        sp_0: index == 0,
                        ..self.sprites[self.sprite as int].loaded(
                            self.oam[(4 * index + 3) as int],
                            self.oam[(4 * index) as int],
                            self.oam[(4 * index + 1) as int],
                            self.oam[(4 * index + 2) as int],
                        )
                    },
                ),
                sprite: (self.sprite + 1) as usize,
                ..self
            }.evaluate_from(line, index + 1)
        }
    }

    /// The slots with every sprite marked as absent, from slot `from` on.
    pub open spec fn cleared_from(self, from: nat) -> PpuState
        decreases 8 - from,
    {
        if from >= 8 {
            self
        } else {
            PpuState {
                sprites: spec_array_update(
                    self.sprites,
                    from as int,
                    Sprite { valid: false, ..self.sprites[from as int] },
                ),
                ..self
            }.cleared_from(from + 1)
        }
    }

    /// Sprite evaluation for scanline `y`: the slots are emptied and, on a
    /// visible line with sprites shown, filled from object memory.
    pub open spec fn eval_sprites(self, y: u32, prerender: bool) -> PpuState {
        let cleared = PpuState { sprite: 0, ..self }.cleared_from(0);
        if prerender || !self.mask.shows_sprites() {
            cleared
        } else {
            PpuState { sprite: 0, ..cleared.evaluate_from((y % 256) as u8, 0) }
        }
    }

    /// What the pipeline does at dot `x` of a scanline that fetches: a
    /// visible line or the pre-render line.
    #[verifier::opaque]
    pub open spec fn visible_scanline(self, x: u32, y: u32, prerender: bool, data: u8) -> PpuState {
        if x == 0 {
            self
        } else if x < 257 {
            let fetched = self.fetch_tiles((x - 1) as u32, y, false, data);
            if !prerender {
                let drawn = fetched.produce_pixel((x - 1) as u32, y);
                PpuState { shifters: drawn.shifters.shifted(), ..drawn }
            } else {
                fetched
            }
        } else if x == 257 {
            let evaluated = self.latch_hi_pattern(false, data).eval_sprites(y, prerender);
            PpuState { v: copy_hori(inc_vert(evaluated.v), evaluated.t), ..evaluated }.fetch_tiles(
                0,
                y,
                true,
                data,
            )
        } else if x < 321 {
            self.fetch_tiles((x - 257) as u32, y, true, data)
        } else if x == 321 {
            let latched = self.latch_hi_pattern(true, data);
            let copied = if prerender {
                PpuState { v: copy_vert(latched.v, latched.t), ..latched }
            } else {
                latched
            };
            PpuState { shifters: copied.shifters.shifted(), ..copied }.fetch_tiles(
                0,
                y,
                false,
                data,
            )
        } else if x < 337 {
            PpuState { shifters: self.shifters.shifted(), ..self }.fetch_tiles(
                (x - 321) as u32,
                y,
                false,
                data,
            )
        } else if x == 337 {
            PpuState { shifters: self.shifters.shifted(), ..self }.latch_hi_pattern(
                false,
                data,
            ).fetch_name()
        } else if x == 339 {
            self.fetch_name()
        } else {
            self
        }
    }

    /// The pixel pipeline for the dot at hand. With rendering off, and on
    /// the lines 240 to 260, it rests.
    #[verifier::opaque]
    pub open spec fn render(self, data: u8) -> PpuState {
        if !self.mask.rendering() {
            self
        } else if self.dot_y() < 240 {
            self.visible_scanline(self.dot_x(), self.dot_y(), false, data)
        } else if self.dot_y() == 261 {
            self.visible_scanline(self.dot_x(), self.dot_y(), true, data)
        } else {
            self
        }
    }

    /// One dot. The memory port acts; on the dot that coincides with a
    /// processor cycle the register interface acts; the pipeline acts; the
    /// dot counter moves on; and the NMI line takes its level.
    #[verifier::opaque]
    pub open spec fn clock(self, bus: PpuLines, cpu: PinState, cpu_clock: bool) -> (
        PpuState,
        PpuLines,
        PinState,
    ) {
        let (accessed, bus) = self.do_mem_access(bus);
        let (handled, cpu) = if cpu_clock {
            accessed.handle_cpu(cpu)
        } else {
            (accessed, cpu)
        };
        let ticked = handled.render(bus.data).tick_dot();
        (ticked, bus, PinState { nmi: ticked.nmi_level(), ..cpu })
    }
}

} // verus!
