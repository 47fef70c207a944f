//! The picture processor: its bus, its registers as the processor sees them
//! at `$2000` to `$2007`, and the pipeline that turns tiles and sprites into
//! one pixel per dot.

use vstd::prelude::*;

use self::model::{
    attr_addr, bit_of_u16, bit_of_u8, coarse_x, coarse_y, compose, copy_hori, copy_vert, fine_y,
    inc_hori, inc_vert, mirror_palette_offset, name_addr, nametable, set_coarse_x, set_coarse_y,
    set_fine_y, set_nametable_select, spare_bit, Ctrl, Mask, Mem, PpuState, Shifters, Sprite,
    SpritePixel, CLEAR_VBLANK, DOTS_PER_LINE, LAST_EVEN_DOT, LAST_ODD_DOT, SET_VBLANK,
};
use crate::nesbus::CpuBus;
use crate::util::{
    bit_u8, get_flag_u8, lemma_bit_with_bit_u8, lemma_no_bit_in_zero, set_flag_u8,
};

pub mod laws;
pub mod model;
pub mod pixel_buffer;
pub mod renderer;

verus! {

broadcast use lemma_bit_with_bit_u8;

const RD: u8 = 0;
const WR: u8 = 1;

/// The levels on the picture bus: fourteen address lines in use, eight data
/// lines, and the read and write strobes.
pub struct PpuLines {
    pub addr: u16,
    pub data: u8,
    pub rd: bool,
    pub wr: bool,
}

/// The bus between the picture processor, the cartridge and video memory.
#[derive(Copy, Clone, Debug, PartialEq, Eq)]
pub struct Bus {
    pub addr: u16,
    pub data: u8,
    flags: u8,
}

/// The levels that the fields of a [`Bus`] stand for.
#[verifier::opaque]
spec fn bus_lines(bus: Bus) -> PpuLines {
    PpuLines {
        addr: bus.addr,
        data: bus.data,
        rd: bit_u8(bus.flags, RD),
        wr: bit_u8(bus.flags, WR),
    }
}

impl View for Bus {
    type V = PpuLines;

    closed spec fn view(&self) -> PpuLines {
        bus_lines(*self)
    }
}

impl PpuLines {
    /// Nothing on the bus, both strobes low.
    pub open spec fn idle() -> PpuLines {
        PpuLines { addr: 0, data: 0, rd: false, wr: false }
    }

    /// The bus with both strobes low: no transfer this dot.
    pub open spec fn io(self) -> PpuLines {
        PpuLines { rd: false, wr: false, ..self }
    }

    /// The bus set up for a read of `addr`.
    pub open spec fn read(self, addr: u16) -> PpuLines {
        PpuLines { addr, rd: true, wr: false, ..self }
    }

    /// The bus set up for a write of `data` to `addr`.
    pub open spec fn write(self, addr: u16, data: u8) -> PpuLines {
        PpuLines { addr, data, rd: false, wr: true }
    }
}

impl Bus {
    /// A bus with nothing on it.
    pub fn new() -> (bus: Self)
        ensures
            bus@ == PpuLines::idle(),
    {
        proof {
            reveal(bus_lines);
            lemma_no_bit_in_zero();
        }
        Self { addr: 0, data: 0, flags: 0 }
    }

    /// Releases both strobes.
    pub fn io(&mut self)
        ensures
            final(self)@ == old(self)@.io(),
    {
        self.set_rd(false);
        self.set_wr(false);
    }

    /// Sets the bus up for a read of `addr`.
    pub fn read(&mut self, addr: u16)
        ensures
            final(self)@ == old(self)@.read(addr),
    {
        proof {
            reveal(bus_lines);
        }
        self.addr = addr;
        self.set_rd(true);
        self.set_wr(false);
    }

    /// Sets the bus up for a write of `data` to `addr`.
    pub fn write(&mut self, addr: u16, data: u8)
        ensures
            final(self)@ == old(self)@.write(addr, data),
    {
        proof {
            reveal(bus_lines);
        }
        self.addr = addr;
        self.data = data;
        self.set_rd(false);
        self.set_wr(true);
    }

    /// The address lines.
    pub fn address(self) -> (addr: u16)
        ensures
            addr == self@.addr,
    {
        proof {
            reveal(bus_lines);
        }
        self.addr
    }

    /// The data lines.
    pub fn data(self) -> (data: u8)
        ensures
            data == self@.data,
    {
        proof {
            reveal(bus_lines);
        }
        self.data
    }

    /// Drives the data lines.
    pub fn set_data(&mut self, data: u8)
        ensures
            final(self)@ == (PpuLines { data, ..old(self)@ }),
    {
        proof {
            reveal(bus_lines);
        }
        self.data = data;
    }

    /// Level of the read strobe.
    pub fn rd(self) -> (level: bool)
        ensures
            level == self@.rd,
    {
        proof {
            reveal(bus_lines);
        }
        get_flag_u8(self.flags, RD)
    }

    /// Level of the write strobe.
    pub fn wr(self) -> (level: bool)
        ensures
            level == self@.wr,
    {
        proof {
            reveal(bus_lines);
        }
        get_flag_u8(self.flags, WR)
    }

    /// Drives the read strobe.
    pub fn set_rd(&mut self, to: bool)
        ensures
            final(self)@ == (PpuLines { rd: to, ..old(self)@ }),
    {
        proof {
            reveal(bus_lines);
        }
        set_flag_u8(&mut self.flags, RD, to)
    }

    /// Drives the write strobe.
    pub fn set_wr(&mut self, to: bool)
        ensures
            final(self)@ == (PpuLines { wr: to, ..old(self)@ }),
    {
        proof {
            reveal(bus_lines);
        }
        set_flag_u8(&mut self.flags, WR, to)
    }
}

/// A scroll position: each coordinate as a low and a high byte.
#[derive(Copy, Clone, Debug, PartialEq, Eq)]
pub struct Scroll {
    pub x: (u8, u8),
    pub y: (u8, u8),
}

/// The picture processor.
#[derive(Copy, Clone, Debug, PartialEq, Eq)]
pub struct Ppu {
    state: PpuState,
}

impl View for Ppu {
    type V = PpuState;

    closed spec fn view(&self) -> PpuState {
        self.state
    }
}

impl Ppu {
    /// A picture processor at power-on.
    pub fn start() -> (ppu: Ppu)
        ensures
            ppu@ == PpuState::power_on(),
    {
        Self {
            state: PpuState {
                dot: 0,
                odd_frame: false,
                ctrl: Ctrl(0),
                mask: Mask(0),
                sprite_overflow: false,
                sprite_0_hit: false,
                vblank: false,
                data: 0,
                oam_addr: 0,
                t: 0,
                v: 0,
                w: false,
                x: 0,
                oam: [0; 256],
                palette: [0; 32],
                mem: Mem::Idle,
                shifters: Shifters::new(),
                sprites: [Sprite::new(); 8],
                sprite: 0,
                pixel: 0,
                pixel_coord: [0; 2],
            },
        }
    }

    /// The pixel that the last visible dot produced, with its column and
    /// line.
    pub fn output(&self) -> (pixel: (u8, u32, u32))
        ensures
            pixel == (self@.pixel, self@.pixel_coord[0], self@.pixel_coord[1]),
    {
        (self.state.pixel, self.state.pixel_coord[0], self.state.pixel_coord[1])
    }

    /// Whether the vertical blank flag is up.
    pub fn is_vblank(&self) -> (vblank: bool)
        ensures
            vblank == self@.vblank,
    {
        self.state.vblank
    }

    /// The dot to come: its place in the scanline, and the scanline.
    pub fn dot(&self) -> (place: [u32; 2])
        ensures
            place[0] == self@.dot_x(),
            place[1] == self@.dot_y(),
    {
        [self.state.dot % DOTS_PER_LINE, self.state.dot / DOTS_PER_LINE]
    }

    /// Object memory.
    pub fn oam(&self) -> (oam: &[u8; 256])
        ensures
            *oam == self@.oam,
    {
        &self.state.oam
    }

    /// Palette memory.
    pub fn palette(&self) -> (palette: &[u8; 32])
        ensures
            *palette == self@.palette,
    {
        &self.state.palette
    }

    /// Advances the picture processor by one dot. `cpu_clock` tells whether
    /// the dot coincides with a processor cycle, in which the registers can
    /// be accessed.
    pub fn clock(&mut self, bus: &mut Bus, cpu: &mut CpuBus, cpu_clock: bool)
        ensures
            (final(self)@, final(bus)@, final(cpu)@) == old(self)@.clock(
                old(bus)@,
                old(cpu)@,
                cpu_clock,
            ),
    {
        proof {
            reveal(PpuState::clock);
        }
        self.do_mem_access(bus);
        if cpu_clock {
            self.handle_cpu(cpu);
        }
        self.render(bus);
        self.tick_dot();
        self.set_nmi(cpu);
    }

    fn do_mem_access(&mut self, bus: &mut Bus)
        ensures
            (final(self)@, final(bus)@) == old(self)@.do_mem_access(old(bus)@),
    {
        proof {
            reveal(PpuState::do_mem_access);
        }
        let mem = self.state.mem;
        self.state.mem = Mem::Idle;
        match mem {
            Mem::Idle => bus.io(),
            Mem::Read(addr, d) => {
                bus.read(addr);
                if d {
                    self.state.mem = Mem::UpdatePpuData
                }
            },
            Mem::UpdatePpuData => self.state.data = bus.data(),
            Mem::Write(addr, data) => bus.write(addr, data),
        }
    }

    fn handle_cpu(&mut self, cpu: &mut CpuBus)
        ensures
            (final(self)@, final(cpu)@) == old(self)@.handle_cpu(old(cpu)@),
    {
        proof {
            reveal(PpuState::handle_cpu);
        }
        let addr = cpu.address();
        if addr < 0x2000 || addr >= 0x4000 {
            return ;
        }
        let reg = addr % 8;
        let rw = cpu.read();

        match reg {
            0 if !rw => self.write_ctrl(cpu.data()),
            1 if !rw => self.state.mask = Mask(cpu.data()),
            2 if rw => {
                let status = self.read_status(cpu.data());
                cpu.set_data(status);
            },
            3 if !rw => self.state.oam_addr = cpu.data(),
            4 => {
                if rw {
                    cpu.set_data(self.state.oam[self.state.oam_addr as usize]);
                } else {
                    self.write_oam(cpu.data());
                }
            },
            5 if !rw => self.write_scroll(cpu.data()),
            6 if !rw => self.write_addr(cpu.data()),
            7 => {
                if rw {
                    let data = self.read_data();
                    cpu.set_data(data);
                } else {
                    self.write_data(cpu.data());
                }
            },
            _ => (),
        }
    }

    fn write_ctrl(&mut self, data: u8)
        ensures
            final(self)@ == old(self)@.write_ctrl(data),
    {
        proof {
            reveal(PpuState::write_ctrl);
        }
        self.state.ctrl = Ctrl(data - data % 4);
        self.state.t = set_nametable_select_of(self.state.t, data);
    }

    fn read_status(&mut self, bus_data: u8) -> (status: u8)
        ensures
            final(self)@ == old(self)@.read_status(),
            status == old(self)@.status_byte(bus_data),
    {
        proof {
            reveal(PpuState::read_status);
        }
        let o: u8 = if self.state.sprite_overflow {
            32
        } else {
            0
        };
        let s: u8 = if self.state.sprite_0_hit {
            64
        } else {
            0
        };
        let v: u8 = if self.state.vblank {
            128
        } else {
            0
        };
        self.state.vblank = false;
        self.state.w = false;
        bus_data % 32 + o + s + v
    }

    fn write_oam(&mut self, data: u8)
        ensures
            final(self)@ == old(self)@.write_oam(data),
    {
        proof {
            reveal(PpuState::write_oam);
        }
        self.state.oam[self.state.oam_addr as usize] = data;
        self.state.oam_addr = self.state.oam_addr.wrapping_add(1);
    }

    fn write_scroll(&mut self, data: u8)
        ensures
            final(self)@ == old(self)@.write_scroll(data),
    {
        proof {
            reveal(PpuState::write_scroll);
        }
        if !self.state.w {
            self.state.w = true;

            self.state.x = data % 8;
            self.state.t = set_coarse_x_of(self.state.t, data / 8);
        } else {
            self.state.w = false;

            self.state.t = set_coarse_y_of(self.state.t, data / 8);
            self.state.t = set_fine_y_of(self.state.t, data % 8);
        }
    }

    fn write_addr(&mut self, data: u8)
        ensures
            final(self)@ == old(self)@.write_addr(data),
    {
        proof {
            reveal(PpuState::write_addr);
        }
        if !self.state.w {
            self.state.w = true;

            self.state.t = self.state.t % 256 + 256 * (data % 64) as u16;
        } else {
            self.state.w = false;

            self.state.t = (self.state.t / 256) * 256 + data as u16;
            self.state.v = self.state.t;
        }
    }

    fn read_data(&mut self) -> (data: u8)
        ensures
            (final(self)@, data) == old(self)@.read_data(),
    {
        proof {
            reveal(PpuState::read_data);
        }
        let v = self.state.v;
        let data = if v >= 0x3F00 && v < 0x4000 {
            let offset = mirror_palette_offset_of((v % 32) as u8) as usize;
            self.read_ppu_data(v - 0x1000);
            self.state.palette[offset]
        } else {
            self.read_ppu_data(v);
            self.state.data
        };
        self.increment_v();
        data
    }

    fn write_data(&mut self, data: u8)
        ensures
            final(self)@ == old(self)@.write_data(data),
    {
        proof {
            reveal(PpuState::write_data);
        }
        let v = self.state.v;
        if v >= 0x3F00 && v < 0x4000 {
            let offset = mirror_palette_offset_of((v % 32) as u8) as usize;
            self.state.palette[offset] = data;
        } else {
            self.write(v, data);
        }
        self.increment_v();
    }

    fn tick_dot(&mut self)
        ensures
            final(self)@ == old(self)@.tick_dot(),
    {
        proof {
            reveal(PpuState::tick_dot);
        }
        let render = self.state.mask.enable_bg() || self.state.mask.enable_sp();
        let last_dot = if render && self.state.odd_frame {
            LAST_ODD_DOT
        } else {
            LAST_EVEN_DOT
        };

        if self.state.dot == SET_VBLANK {
            self.state.vblank = true;
        } else if self.state.dot == CLEAR_VBLANK {
            self.state.vblank = false;
            self.state.sprite_0_hit = false;
            self.state.sprite_overflow = false;
        }
        if self.state.dot >= last_dot {
            self.state.dot = 0;
            self.state.odd_frame = !self.state.odd_frame;
        } else {
            self.state.dot += 1;
        }
    }

    fn set_nmi(&self, cpu: &mut CpuBus)
        ensures
            final(cpu)@ == (crate::cpu::PinState { nmi: self@.nmi_level(), ..old(cpu)@ }),
    {
        cpu.set_nmi(self.state.ctrl.v() && self.state.vblank);
    }

    fn render(&mut self, bus: &Bus)
        ensures
            final(self)@ == old(self)@.render(bus@.data),
    {
        proof {
            reveal(PpuState::render);
        }
        if !self.state.mask.enable_bg() && !self.state.mask.enable_sp() {
            return ;
        }
        let x = self.state.dot % DOTS_PER_LINE;
        let y = self.state.dot / DOTS_PER_LINE;

        if y < 240 {
            self.visible_scanline(x, y, false, bus)
        } else if y == 261 {
            self.visible_scanline(x, y, true, bus)
        }
    }

    fn visible_scanline(&mut self, x: u32, y: u32, prerender: bool, bus: &Bus)
        ensures
            final(self)@ == old(self)@.visible_scanline(x, y, prerender, bus@.data),
    {
        proof {
            reveal(PpuState::visible_scanline);
        }
        if x == 0 {
        } else if x < 257 {
            let step = x - 1;
            self.fetch_tiles(step, y, false, bus);
            if !prerender {
                self.produce_pixel(x - 1, y);
                self.state.shifters.shift_next_pixel();
            }
        } else if x == 257 {
            self.latch_hi_pattern(false, bus);
            self.eval_sprites(y, prerender);
            self.state.v = inc_vert_of(self.state.v);
            self.state.v = copy_hori_of(self.state.v, self.state.t);
            self.fetch_tiles(0, y, true, bus);
        } else if x < 321 {
            let step = x - 257;
            self.fetch_tiles(step, y, true, bus);
        } else if x == 321 {
            self.latch_hi_pattern(true, bus);
            if prerender {
                self.state.v = copy_vert_of(self.state.v, self.state.t);
            }
            self.state.shifters.shift_next_pixel();
            self.fetch_tiles(x - 321, y, false, bus);
        } else if x < 337 {
            self.state.shifters.shift_next_pixel();
            self.fetch_tiles(x - 321, y, false, bus);
        } else if x == 337 {
            self.state.shifters.shift_next_pixel();
            self.latch_hi_pattern(false, bus);
            self.fetch_name();
        } else if x == 339 {
            self.fetch_name()
        }
    }

    fn fetch_tiles(&mut self, step: u32, y: u32, sprite: bool, bus: &Bus)
        ensures
            final(self)@ == old(self)@.fetch_tiles(step, y, sprite, bus@.data),
    {
        proof {
            reveal(PpuState::fetch_tiles);
        }
        match step % 8 {
            0 => {
                if step != 0 {
                    self.latch_hi_pattern(sprite, bus);
                }
                self.fetch_name();
            },
            2 => {
                self.state.shifters.name = bus.data();
                self.fetch_attr();
            },
            4 => {
                self.state.shifters.next_palette = bus.data();
                self.fetch_pattern_lo(y, sprite);
            },
            6 => {
                self.latch_lo_pattern(sprite, bus);
                self.fetch_pattern_hi(y, sprite);
            },
            _ => (),
        }
    }

    fn latch_hi_pattern(&mut self, sprite: bool, bus: &Bus)
        ensures
            final(self)@ == old(self)@.latch_hi_pattern(sprite, bus@.data),
    {
        proof {
            reveal(PpuState::latch_hi_pattern);
        }
        if sprite {
            if self.state.sprite < 8 {
                self.state.sprites[self.state.sprite].pattern[1] = bus.data();
                self.state.sprite += 1;
            }
        } else {
            self.state.shifters.next_pattern[1] = bus.data();
            self.state.shifters.shift_next_tile(
                coarse_x_of(self.state.v),
                coarse_y_of(self.state.v),
            );
            self.state.v = inc_hori_of(self.state.v);
        }
    }

    fn latch_lo_pattern(&mut self, sprite: bool, bus: &Bus)
        ensures
            final(self)@ == old(self)@.latch_lo_pattern(sprite, bus@.data),
    {
        proof {
            reveal(PpuState::latch_lo_pattern);
        }
        if sprite {
            if self.state.sprite < 8 {
                self.state.sprites[self.state.sprite].pattern[0] = bus.data();
            }
        } else {
            self.state.shifters.next_pattern[0] = bus.data();
        }
    }

    fn fetch_name(&mut self)
        ensures
            final(self)@ == old(self)@.fetch_name(),
    {
        self.read(name_addr_of(self.state.v))
    }

    fn fetch_attr(&mut self)
        ensures
            final(self)@ == old(self)@.fetch_attr(),
    {
        self.read(attr_addr_of(self.state.v));
    }

    fn fetch_pattern_lo(&mut self, y: u32, sprite: bool)
        ensures
            final(self)@ == old(self)@.read(old(self)@.pattern_addr(y, sprite)),
    {
        self.read(self.pattern_addr(y, sprite));
    }

    fn fetch_pattern_hi(&mut self, y: u32, sprite: bool)
        ensures
            final(self)@ == old(self)@.read((old(self)@.pattern_addr(y, sprite) + 8) as u16),
    {
        self.read(self.pattern_addr(y, sprite) + 8);
    }

    fn pattern_addr(&self, y: u32, sprite: bool) -> (addr: u16)
        ensures
            addr == self@.pattern_addr(y, sprite),
            addr < 0x2000 - 8,
    {
        proof {
            reveal(PpuState::pattern_addr);
        }
        if sprite {
            let slot = if self.state.sprite < 8 {
                self.state.sprites[self.state.sprite]
            } else {
                Sprite::new()
            };
            let tall = self.state.ctrl.h();
            let height: u8 = if tall {
                16
            } else {
                8
            };
            let name = slot.fetch_name();
            let row = slot.fine_y(y, height);
            if tall {
                (name % 2) as u16 * 0x1000 + ((name / 2) as u16 * 2 + (row as u16 % 16) / 8) * 16
                    + row as u16 % 8
            } else {
                let h: u16 = if self.state.ctrl.s() {
                    0x1000
                } else {
                    0
                };
                name as u16 * 16 + row as u16 % 8 + h
            }
        } else {
            let h: u16 = if self.state.ctrl.b() {
                0x1000
            } else {
                0
            };
            self.state.shifters.name as u16 * 16 + fine_y_of(self.state.v) as u16 % 8 + h
        }
    }

    fn produce_pixel(&mut self, x: u32, y: u32)
        ensures
            final(self)@ == old(self)@.produce_pixel(x, y),
    {
        proof {
            reveal(PpuState::produce_pixel);
        }
        let (bg, bg_transpi) = self.produce_background(x);
        let sp = self.produce_sprite(x, y);

        match sp {
            Some((sp, sp_0, sp_priority)) => {
                self.state.pixel = if bg_transpi || sp_priority {
                    sp
                } else {
                    bg
                };
                if !bg_transpi && sp_0 && x < 255 {
                    self.state.sprite_0_hit = true;
                }
            },
            None => {
                self.state.pixel = bg;
            },
        }
        self.state.pixel_coord = [x, y];
    }

    fn produce_background(&self, x: u32) -> (pixel: (u8, bool))
        ensures
            pixel == self@.produce_background(x),
    {
        proof {
            reveal(PpuState::produce_background);
        }
        let fine_x = self.state.x % 8;
        let pattern_lo = bit_of_word(self.state.shifters.pattern[0], 15 - fine_x as u16);
        let pattern_hi = bit_of_word(self.state.shifters.pattern[1], 15 - fine_x as u16);
        let pattern: u8 = (if pattern_lo {
            1
        } else {
            0
        }) + (if pattern_hi {
            2
        } else {
            0
        });

        if pattern == 0 || (!self.state.mask.left_bg() && x < 8) {
            (self.state.palette[0], true)
        } else {
            let palette_lo = bit_of_byte(self.state.shifters.palette[0], 7 - fine_x);
            let palette_hi = bit_of_byte(self.state.shifters.palette[1], 7 - fine_x);
            let palette: u8 = (if palette_lo {
                1
            } else {
                0
            }) + (if palette_hi {
                2
            } else {
                0
            });

            let color_idx = pattern + palette * 4;
            let color_idx = mirror_palette_offset_of(color_idx);
            let color = self.state.palette[color_idx as usize];

            (color, false)
        }
    }

    fn produce_sprite(&self, x: u32, _y: u32) -> (pixel: Option<(u8, bool, bool)>)
        ensures
            match self@.produce_sprite(x) {
                Some(sp) => pixel == Some((sp.color, sp.sp_0, sp.in_front)),
                None => pixel is None,
            },
    {
        if !self.state.mask.left_sp() && x < 8 {
            return None;
        }
        let mut slot: usize = 0;
        while slot < 8
            invariant
                slot <= 8,
                self@.mask.shows_left_sprites() || x >= 8,
                self@.sprite_from(x, slot as nat) == self@.sprite_from(x, 0),
            decreases 8 - slot,
        {
            let sprite = self.state.sprites[slot];
            if !sprite.valid {
                assert(self@.sprite_from(x, slot as nat) is None);
                return None;
            }
            let sp_x = sprite.x as u32;
            if x >= sp_x && x - sp_x < 8 {
                let fine_x = sprite.fine_x(x);
                let pattern_lo = bit_of_byte(sprite.pattern[0], fine_x);
                let pattern_hi = bit_of_byte(sprite.pattern[1], fine_x);
                let pattern: u8 = (if pattern_lo {
                    1
                } else {
                    0
                }) + (if pattern_hi {
                    2
                } else {
                    0
                });

                assert(pattern == sprite.pattern_at(x));
                if pattern != 0 {
                    let palette = sprite.palette % 4 + 4;
                    let color_idx = pattern + palette * 4;
                    let color_idx = mirror_palette_offset_of(color_idx);
                    let color = self.state.palette[color_idx as usize];

                    let sp_0 = sprite.sp_0;
                    let priority = sprite.priority;

                    assert(self@.sprite_from(x, slot as nat) == Some(
                        SpritePixel { color, sp_0, in_front: !priority },
                    ));
                    return Some((color, sp_0, !priority));
                }
            }
            assert(self@.sprite_from(x, slot as nat) == self@.sprite_from(x, (slot + 1) as nat));
            slot += 1;
        }
        assert(self@.sprite_from(x, 8) is None);
        None
    }

    fn increment_v(&mut self)
        ensures
            final(self)@ == old(self)@.increment_v(),
    {
        proof {
            reveal(PpuState::increment_v);
        }
        let by: u32 = if self.state.ctrl.i() {
            32
        } else {
            1
        };
        self.state.v = ((self.state.v as u32 + by) % 0x4000) as u16;
    }

    fn read(&mut self, addr: u16)
        ensures
            final(self)@ == old(self)@.read(addr),
    {
        self.state.mem = Mem::Read(addr, false);
    }

    fn read_ppu_data(&mut self, addr: u16)
        ensures
            final(self)@ == (PpuState { mem: Mem::Read(addr, true), ..old(self)@ }),
    {
        self.state.mem = Mem::Read(addr, true);
    }

    fn write(&mut self, addr: u16, data: u8)
        ensures
            final(self)@ == (PpuState { mem: Mem::Write(addr, data), ..old(self)@ }),
    {
        self.state.mem = Mem::Write(addr, data);
    }

    fn eval_sprites(&mut self, y: u32, prerender: bool)
        ensures
            final(self)@ == old(self)@.eval_sprites(y, prerender),
    {
        let line = (y % 256) as u8;
        self.state.sprite = 0;
        let mut slot: usize = 0;
        while slot < 8
            invariant
                slot <= 8,
                self@ == (PpuState { sprites: self@.sprites, sprite: 0, ..old(self)@ }),
                self@.cleared_from(slot as nat) == (PpuState { sprite: 0, ..old(self)@ }).cleared_from(
                    0,
                ),
            decreases 8 - slot,
        {
            self.state.sprites[slot].valid = false;
            slot += 1;
        }
        assert(self@.cleared_from(8) == self@);

        if prerender {
            return ;
        }
        if !self.state.mask.enable_sp() {
            return ;
        }
        let height: u8 = if self.state.ctrl.h() {
            16
        } else {
            8
        };
        let ghost cleared = self@;
        assert(cleared.mask == old(self)@.mask);
        let mut i: usize = 0;
        while i < 64
            invariant_except_break
                self@.evaluate_from(line, i as nat) == cleared.evaluate_from(line, 0),
            invariant
                i <= 64,
                height == self@.ctrl.sprite_height(),
            ensures
                self@ == cleared.evaluate_from(line, 0),
            decreases 64 - i,
        {
            let ghost before = self@;
            let base = i * 4;
            let sp_y = self.state.oam[base];
            let name = self.state.oam[base + 1];
            let attr = self.state.oam[base + 2];
            let x = self.state.oam[base + 3];

            if sp_y <= line && line - sp_y < height {
                if self.state.sprite >= 8 {
                    self.state.sprite_overflow = true;
                    assert(self@ == before.evaluate_from(line, i as nat));
                    break ;
                }
                let mut slot = self.state.sprites[self.state.sprite];
                slot.load(x, sp_y, name, attr);
                slot.sp_0 = i == 0;
                self.state.sprites[self.state.sprite] = slot;
                self.state.sprite += 1;
            }
            i += 1;
            assert(self@.evaluate_from(line, i as nat) == before.evaluate_from(
                line,
                (i - 1) as nat,
            ));
        }
        assert(self@.evaluate_from(line, 64) == self@);

        self.state.sprite = 0;
    }
}

fn coarse_x_of(v: u16) -> (field: u8)
    ensures
        field == coarse_x(v),
{
    (v % 32) as u8
}

fn coarse_y_of(v: u16) -> (field: u8)
    ensures
        field == coarse_y(v),
{
    ((v / 32) % 32) as u8
}

fn fine_y_of(v: u16) -> (field: u8)
    ensures
        field == fine_y(v),
{
    ((v / 4096) % 8) as u8
}

fn nametable_of(v: u16) -> (field: u8)
    ensures
        field == nametable(v),
{
    ((v / 1024) % 4) as u8
}

fn spare_bit_of(v: u16) -> (bit: u8)
    ensures
        bit == spare_bit(v),
{
    (v / 32768) as u8
}

fn compose_of(spare: u8, fine_y: u8, nametable: u8, coarse_y: u8, coarse_x: u8) -> (v: u16)
    ensures
        v == compose(spare, fine_y, nametable, coarse_y, coarse_x),
{
    32768 * (spare % 2) as u16 + 4096 * (fine_y % 8) as u16 + 1024 * (nametable % 4) as u16 + 32
        * (coarse_y % 32) as u16 + (coarse_x % 32) as u16
}

fn set_nametable_select_of(v: u16, to: u8) -> (set: u16)
    ensures
        set == set_nametable_select(v, to),
{
    compose_of(spare_bit_of(v), fine_y_of(v), to, coarse_y_of(v), coarse_x_of(v))
}

fn set_coarse_x_of(v: u16, to: u8) -> (set: u16)
    ensures
        set == set_coarse_x(v, to),
{
    compose_of(spare_bit_of(v), fine_y_of(v), nametable_of(v), coarse_y_of(v), to)
}

fn set_coarse_y_of(v: u16, to: u8) -> (set: u16)
    ensures
        set == set_coarse_y(v, to),
{
    compose_of(spare_bit_of(v), fine_y_of(v), nametable_of(v), to, coarse_x_of(v))
}

fn set_fine_y_of(v: u16, to: u8) -> (set: u16)
    ensures
        set == set_fine_y(v, to),
{
    compose_of(spare_bit_of(v), to, nametable_of(v), coarse_y_of(v), coarse_x_of(v))
}

fn name_addr_of(v: u16) -> (addr: u16)
    ensures
        addr == name_addr(v),
{
    0x2000 + v % 0x1000
}

fn attr_addr_of(v: u16) -> (addr: u16)
    ensures
        addr == attr_addr(v),
{
    0x23C0 + 1024 * nametable_of(v) as u16 + 8 * (coarse_y_of(v) / 4) as u16 + (coarse_x_of(v)
        / 4) as u16
}

fn inc_hori_of(v: u16) -> (moved: u16)
    ensures
        moved == inc_hori(v),
{
    if coarse_x_of(v) == 31 {
        if nametable_of(v) % 2 == 1 {
            v - 31 - 1024
        } else {
            v - 31 + 1024
        }
    } else {
        v + 1
    }
}

fn inc_vert_of(v: u16) -> (moved: u16)
    ensures
        moved == inc_vert(v),
{
    if fine_y_of(v) != 7 {
        v + 0x1000
    } else if coarse_y_of(v) == 29 {
        if nametable_of(v) >= 2 {
            v - 0x7000 - 32 * 29 - 2048
        } else {
            v - 0x7000 - 32 * 29 + 2048
        }
    } else if coarse_y_of(v) == 31 {
        v - 0x7000 - 32 * 31
    } else {
        v - 0x7000 + 32
    }
}

fn copy_hori_of(v: u16, t: u16) -> (copied: u16)
    ensures
        copied == copy_hori(v, t),
{
    compose_of(
        spare_bit_of(v),
        fine_y_of(v),
        2 * (nametable_of(v) / 2) + nametable_of(t) % 2,
        coarse_y_of(v),
        coarse_x_of(t),
    )
}

fn copy_vert_of(v: u16, t: u16) -> (copied: u16)
    ensures
        copied == copy_vert(v, t),
{
    compose_of(
        spare_bit_of(v),
        fine_y_of(t),
        2 * (nametable_of(t) / 2) + nametable_of(v) % 2,
        coarse_y_of(t),
        coarse_x_of(v),
    )
}

fn mirror_palette_offset_of(offset: u8) -> (entry: u8)
    ensures
        entry == mirror_palette_offset(offset),
{
    if offset == 0x10 || offset == 0x14 || offset == 0x18 || offset == 0x1C {
        offset - 0x10
    } else {
        offset
    }
}

fn bit_of_byte(byte: u8, index: u8) -> (set: bool)
    requires
        index < 8,
    ensures
        set == bit_of_u8(byte, index),
{
    (byte >> index) & 1 == 1
}

fn bit_of_word(word: u16, index: u16) -> (set: bool)
    requires
        index < 16,
    ensures
        set == bit_of_u16(word, index),
{
    (word >> index) & 1 == 1
}

impl Ctrl {
    fn i(self) -> (set: bool)
        ensures
            set == self.increment_down(),
    {
        (self.0 / 4) % 2 == 1
    }

    fn s(self) -> (set: bool)
        ensures
            set == self.sprite_table(),
    {
        (self.0 / 8) % 2 == 1
    }

    fn b(self) -> (set: bool)
        ensures
            set == self.background_table(),
    {
        (self.0 / 16) % 2 == 1
    }

    fn h(self) -> (set: bool)
        ensures
            set == self.tall_sprites(),
    {
        (self.0 / 32) % 2 == 1
    }

    fn p(self) -> (set: bool)
        ensures
            set == self.slave(),
    {
        (self.0 / 64) % 2 == 1
    }

    fn v(self) -> (set: bool)
        ensures
            set == self.nmi_enable(),
    {
        self.0 / 128 == 1
    }
}

impl Mask {
    fn greyscale(self) -> (set: bool)
        ensures
            set == self.is_greyscale(),
    {
        self.0 % 2 == 1
    }

    fn left_bg(self) -> (set: bool)
        ensures
            set == self.shows_left_background(),
    {
        (self.0 / 2) % 2 == 1
    }

    fn left_sp(self) -> (set: bool)
        ensures
            set == self.shows_left_sprites(),
    {
        (self.0 / 4) % 2 == 1
    }

    fn enable_bg(self) -> (set: bool)
        ensures
            set == self.shows_background(),
    {
        (self.0 / 8) % 2 == 1
    }

    fn enable_sp(self) -> (set: bool)
        ensures
            set == self.shows_sprites(),
    {
        (self.0 / 16) % 2 == 1
    }

    fn emph_red(self) -> (set: bool)
        ensures
            set == self.emphasizes_red(),
    {
        (self.0 / 32) % 2 == 1
    }

    fn emph_green(self) -> (set: bool)
        ensures
            set == self.emphasizes_green(),
    {
        (self.0 / 64) % 2 == 1
    }

    fn emph_blue(self) -> (set: bool)
        ensures
            set == self.emphasizes_blue(),
    {
        self.0 / 128 == 1
    }
}

impl Shifters {
    fn new() -> (shifters: Self)
        ensures
            shifters == Shifters::empty(),
    {
        Self {
            name: 0,
            pattern: [0; 2],
            next_pattern: [0; 2],
            palette: [0; 2],
            curr_palette: [false; 2],
            next_palette: 0,
        }
    }

    fn shift_next_tile(&mut self, coarse_x: u8, coarse_y: u8)
        ensures
            *final(self) == old(self).with_next_tile(coarse_x, coarse_y),
    {
        proof {
            reveal(Shifters::with_next_tile);
        }
        self.pattern[0] = (self.pattern[0] / 256) * 256 + self.next_pattern[0] as u16;
        self.pattern[1] = (self.pattern[1] / 256) * 256 + self.next_pattern[1] as u16;
        let right = (coarse_x / 2) % 2 == 1;
        let bottom = (coarse_y / 2) % 2 == 1;
        let palette = if !right && !bottom {
            self.next_palette % 4
        } else if right && !bottom {
            (self.next_palette / 4) % 4
        } else if !right && bottom {
            (self.next_palette / 16) % 4
        } else {
            self.next_palette / 64
        };
        self.curr_palette[0] = palette % 2 == 1;
        self.curr_palette[1] = palette / 2 == 1;
    }

    fn shift_next_pixel(&mut self)
        ensures
            *final(self) == old(self).shifted(),
    {
        proof {
            reveal(Shifters::shifted);
        }
        self.pattern[0] = (self.pattern[0] % 0x8000) * 2;
        self.pattern[1] = (self.pattern[1] % 0x8000) * 2;
        let in_lo: u8 = if self.curr_palette[0] {
            1
        } else {
            0
        };
        let in_hi: u8 = if self.curr_palette[1] {
            1
        } else {
            0
        };
        self.palette[0] = (self.palette[0] % 128) * 2 + in_lo;
        self.palette[1] = (self.palette[1] % 128) * 2 + in_hi;
    }
}

impl Sprite {
    fn new() -> (sprite: Self)
        ensures
            sprite == Sprite::empty(),
    {
        Self {
            valid: false,
            sp_0: false,
            x: 0,
            y: 0,
            name: 0,
            palette: 0,
            priority: false,
            flip_x: false,
            flip_y: false,
            pattern: [0; 2],
        }
    }

    fn load(&mut self, x: u8, y: u8, name: u8, attr: u8)
        ensures
            *final(self) == old(self).loaded(x, y, name, attr),
    {
        self.x = x;
        self.y = y;
        self.name = name;
        self.palette = attr % 4;
        self.priority = (attr / 32) % 2 == 1;
        self.flip_x = (attr / 64) % 2 == 1;
        self.flip_y = attr / 128 == 1;
        self.valid = true;
    }

    fn fine_y(&self, line: u32, height: u8) -> (row: u8)
        requires
            height == 8 || height == 16,
        ensures
            row == self.row(line, height),
            row < height,
    {
        let y = self.y as u32;
        if !(y <= line && line - y < height as u32) {
            0
        } else if self.flip_y {
            (height as u32 - 1 - (line - y)) as u8
        } else {
            (line - y) as u8
        }
    }

    fn fine_x(&self, dot: u32) -> (bit: u8)
        ensures
            bit == self.column_bit(dot),
            bit < 8,
    {
        let x = self.x as u32;
        if !(x <= dot && dot - x < 8) {
            0
        } else if !self.flip_x {
            (7 - (dot - x)) as u8
        } else {
            (dot - x) as u8
        }
    }

    fn fetch_name(&self) -> (name: u8)
        ensures
            name == self.tile_to_fetch(),
    {
        if self.valid {
            self.name
        } else {
            0xFF
        }
    }
}

} // verus!
