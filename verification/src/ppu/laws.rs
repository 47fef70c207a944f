//! What holds of the picture processor: the length of a frame, the timing
//! of vertical blank, and what the processor gets back through the
//! registers after it has written through them.

use vstd::prelude::*;

use super::model::{
    is_palette_address, mirror_palette_offset, PpuState, CLEAR_VBLANK, DOTS_PER_LINE, SET_VBLANK,
};
use super::PpuLines;
use crate::cpu::PinState;

verus! {

/// The state after `n` dots have ended.
pub open spec fn ticks(s: PpuState, n: nat) -> PpuState
    decreases n,
{
    if n == 0 {
        s
    } else {
        ticks(s, (n - 1) as nat).tick_dot()
    }
}

/// The number of dots in the frame in progress: 89 342, or 89 341 for an odd
/// frame with rendering on.
pub open spec fn frame_length(s: PpuState) -> nat {
    (s.last_dot() + 1) as nat
}

/// Within a frame the dot counter goes up by one with every dot: first along
/// the scanline, then on to the next scanline.
pub proof fn lemma_dot_counts_up(s: PpuState)
    requires
        s.dot < s.last_dot(),
    ensures
        s.tick_dot().dot == s.dot + 1,
        s.tick_dot().odd_frame == s.odd_frame,
        s.tick_dot().dot_y() == s.dot_y() && s.tick_dot().dot_x() == s.dot_x() + 1
            || s.tick_dot().dot_y() == s.dot_y() + 1 && s.tick_dot().dot_x() == 0,
{
    reveal(PpuState::tick_dot);
}

/// From the first dot of a frame, `k` dots lead to dot `k` of the same
/// frame, as long as the frame lasts.
pub proof fn lemma_dots_within_frame(s: PpuState, k: nat)
    requires
        s.dot == 0,
        k < frame_length(s),
    ensures
        ticks(s, k).dot == k,
        ticks(s, k).odd_frame == s.odd_frame,
        ticks(s, k).mask == s.mask,
    decreases k,
{
    reveal(PpuState::tick_dot);
    if k > 0 {
        lemma_dots_within_frame(s, (k - 1) as nat);
    }
}

/// A frame is 89 342 dots long, and 89 341 if it is an odd frame with
/// rendering on: after that many dots, and not before, the dot counter is
/// back at zero, and the next frame has the other parity.
pub proof fn lemma_frame_length(s: PpuState)
    requires
        s.dot == 0,
    ensures
        frame_length(s) == (if s.mask.rendering() && s.odd_frame {
            89341nat
        } else {
            89342nat
        }),
        ticks(s, frame_length(s)).dot == 0,
        ticks(s, frame_length(s)).odd_frame == !s.odd_frame,
        forall|k: nat| 0 < k < frame_length(s) ==> (#[trigger] ticks(s, k)).dot != 0,
{
    reveal(PpuState::tick_dot);
    lemma_dots_within_frame(s, (frame_length(s) - 1) as nat);
    assert forall|k: nat| 0 < k < frame_length(s) implies (#[trigger] ticks(s, k)).dot != 0 by {
        lemma_dots_within_frame(s, k);
    }
}

/// Clearing the sprite slots touches nothing but the slots.
pub proof fn lemma_cleared_frame(s: PpuState, from: nat)
    ensures
        s.cleared_from(from) == (PpuState { sprites: s.cleared_from(from).sprites, ..s }),
    decreases 8 - from,
{
    if from < 8 {
        let next = PpuState {
            sprites: vstd::array::spec_array_update(
                s.sprites,
                from as int,
                super::model::Sprite { valid: false, ..s.sprites[from as int] },
            ),
            ..s
        };
        lemma_cleared_frame(next, from + 1);
    }
}

/// Sprite evaluation touches nothing but the slots, the slot counter and the
/// overflow flag.
pub proof fn lemma_evaluated_frame(s: PpuState, line: u8, index: nat)
    ensures
        s.evaluate_from(line, index) == (PpuState {
            sprites: s.evaluate_from(line, index).sprites,
            sprite: s.evaluate_from(line, index).sprite,
            sprite_overflow: s.evaluate_from(line, index).sprite_overflow,
            ..s
        }),
    decreases 64 - index,
{
    if index < 64 {
        if !s.entry_in_range(index as int, line) {
            lemma_evaluated_frame(s, line, index + 1);
        } else if s.sprite < 8 {
            let next = PpuState {
                sprites: vstd::array::spec_array_update(
                    s.sprites,
                    s.sprite as int,
                    super::model::Sprite {
                        sp_0: index == 0,
                        ..s.sprites[s.sprite as int].loaded(
                            s.oam[(4 * index + 3) as int],
                            s.oam[(4 * index) as int],
                            s.oam[(4 * index + 1) as int],
                            s.oam[(4 * index + 2) as int],
                        )
                    },
                ),
                sprite: (s.sprite + 1) as usize,
                ..s
            };
            lemma_evaluated_frame(next, line, index + 1);
        }
    }
}

/// The pixel pipeline leaves the registers that the processor and the dot
/// counter own alone: the dot counter, the frame parity, the vertical blank
/// flag, control and mask, the scroll latch, and object and palette memory.
pub proof fn lemma_render_frame(s: PpuState, data: u8)
    ensures
        same_registers(s, s.render(data)),
{
    reveal(PpuState::render);
    lemma_scanline_frame(s, s.dot_x(), s.dot_y(), false, data);
    lemma_scanline_frame(s, s.dot_x(), s.dot_y(), true, data);
}

/// Whether `after` differs from `before` at most in what the pixel pipeline
/// owns: `v`, the memory port, the shifters, the sprite slots, the two
/// sprite flags and the pixel.
pub open spec fn same_registers(before: PpuState, after: PpuState) -> bool {
    after == (PpuState {
        v: after.v,
        mem: after.mem,
        shifters: after.shifters,
        sprites: after.sprites,
        sprite: after.sprite,
        sprite_0_hit: after.sprite_0_hit,
        sprite_overflow: after.sprite_overflow,
        pixel: after.pixel,
        pixel_coord: after.pixel_coord,
        ..before
    })
}

/// The fetch cycle stays within what the pipeline owns.
pub proof fn lemma_fetch_frame(s: PpuState, step: u32, y: u32, sprite: bool, data: u8)
    ensures
        same_registers(s, s.fetch_tiles(step, y, sprite, data)),
        same_registers(s, s.latch_hi_pattern(sprite, data)),
        same_registers(s, s.latch_hi_pattern(sprite, data).fetch_name()),
{
    reveal(PpuState::fetch_tiles);
    reveal(PpuState::latch_hi_pattern);
    reveal(PpuState::latch_lo_pattern);
}

/// Sprite evaluation stays within what the pipeline owns.
pub proof fn lemma_eval_frame(s: PpuState, y: u32, prerender: bool)
    ensures
        same_registers(s, s.eval_sprites(y, prerender)),
{
    let reset = PpuState { sprite: 0, ..s };
    lemma_cleared_frame(reset, 0);
    lemma_evaluated_frame(reset.cleared_from(0), (y % 256) as u8, 0);
}

/// The pixel multiplexer stays within what the pipeline owns.
pub proof fn lemma_pixel_frame(s: PpuState, x: u32, y: u32)
    ensures
        same_registers(s, s.produce_pixel(x, y)),
{
    reveal(PpuState::produce_pixel);
}

/// The frame of [`lemma_render_frame`] for one dot of a scanline.
pub proof fn lemma_scanline_frame(s: PpuState, x: u32, y: u32, prerender: bool, data: u8)
    ensures
        same_registers(s, s.visible_scanline(x, y, prerender, data)),
{
    reveal(PpuState::visible_scanline);
    if 0 < x < 257 {
        let fetched = s.fetch_tiles((x - 1) as u32, y, false, data);
        lemma_fetch_frame(s, (x - 1) as u32, y, false, data);
        lemma_pixel_frame(fetched, (x - 1) as u32, y);
    } else if x == 257 {
        let latched = s.latch_hi_pattern(false, data);
        lemma_fetch_frame(s, 0, y, false, data);
        let evaluated = latched.eval_sprites(y, prerender);
        lemma_eval_frame(latched, y, prerender);
        let moved = PpuState {
            v: super::model::copy_hori(super::model::inc_vert(evaluated.v), evaluated.t),
            ..evaluated
        };
        lemma_fetch_frame(moved, 0, y, true, data);
    } else if x < 321 {
        lemma_fetch_frame(s, (x - 257) as u32, y, true, data);
    } else if x == 321 {
        let latched = s.latch_hi_pattern(true, data);
        lemma_fetch_frame(s, 0, y, true, data);
        let copied = if prerender {
            PpuState { v: super::model::copy_vert(latched.v, latched.t), ..latched }
        } else {
            latched
        };
        let shifted = PpuState { shifters: copied.shifters.shifted(), ..copied };
        lemma_fetch_frame(shifted, 0, y, false, data);
    } else if x < 337 {
        let shifted = PpuState { shifters: s.shifters.shifted(), ..s };
        lemma_fetch_frame(shifted, (x - 321) as u32, y, false, data);
    } else if x == 337 {
        let shifted = PpuState { shifters: s.shifters.shifted(), ..s };
        lemma_fetch_frame(shifted, 0, y, false, data);
    }
}

/// Whether a processor cycle reads the status register.
pub open spec fn reads_status(cpu: PinState) -> bool {
    PpuState::selected(cpu) && cpu.address % 8 == 2 && cpu.read
}

/// Vertical blank begins at dot 1 of line 241 and ends at dot 1 of line
/// 261, whatever else happens in those dots. At any other dot the flag
/// stays as it is, unless the processor reads the status register, which
/// clears it. The NMI line follows in the same dot: it is high exactly
/// while the flag is up and the control register enables NMI.
pub proof fn lemma_vblank_timing(s: PpuState, bus: PpuLines, cpu: PinState, cpu_clock: bool)
    ensures
        s.clock(bus, cpu, cpu_clock).0.vblank == (if s.dot == SET_VBLANK {
            true
        } else if s.dot == CLEAR_VBLANK {
            false
        } else {
            s.vblank && !(cpu_clock && reads_status(cpu))
        }),
        s.clock(bus, cpu, cpu_clock).2.nmi == (s.clock(bus, cpu, cpu_clock).0.ctrl.nmi_enable()
            && s.clock(bus, cpu, cpu_clock).0.vblank),
        SET_VBLANK == 241 * DOTS_PER_LINE + 1,
        CLEAR_VBLANK == 261 * DOTS_PER_LINE + 1,
{
    reveal(PpuState::clock);
    reveal(PpuState::do_mem_access);
    reveal(PpuState::tick_dot);
    let accessed = s.do_mem_access(bus);
    lemma_registers_keep_clock(accessed.0, cpu);
    let handled = if cpu_clock {
        accessed.0.handle_cpu(cpu)
    } else {
        (accessed.0, cpu)
    };
    lemma_render_frame(handled.0, accessed.1.data);
}

/// The register interface touches neither the dot counter nor the frame
/// parity, and the vertical blank flag only by a read of the status
/// register, which clears it.
pub proof fn lemma_registers_keep_clock(s: PpuState, cpu: PinState)
    ensures
        s.handle_cpu(cpu).0.dot == s.dot,
        s.handle_cpu(cpu).0.odd_frame == s.odd_frame,
        s.handle_cpu(cpu).0.vblank == (s.vblank && !reads_status(cpu)),
{
    reveal(PpuState::handle_cpu);
    reveal(PpuState::write_ctrl);
    reveal(PpuState::read_status);
    reveal(PpuState::write_oam);
    reveal(PpuState::write_scroll);
    reveal(PpuState::write_addr);
    reveal(PpuState::read_data);
    reveal(PpuState::write_data);
    reveal(PpuState::increment_v);
}

/// The register interface drives nothing but the data lines, and those only
/// when a register is read.
pub proof fn lemma_registers_drive_data_only(s: PpuState, cpu: PinState)
    ensures
        s.handle_cpu(cpu).1 == (PinState { data: s.handle_cpu(cpu).1.data, ..cpu }),
        !cpu.read ==> s.handle_cpu(cpu).1 == cpu,
{
    reveal(PpuState::handle_cpu);
}

/// The processor bus during a write of `data` to register `reg`, one of the
/// eight at `$2000`.
pub open spec fn register_write(reg: u16, data: u8) -> PinState {
    PinState { address: (0x2000 + reg % 8) as u16, data, read: false, ..PinState::idle() }
}

/// The processor bus during a read of register `reg`, with `data` still on
/// the data lines.
pub open spec fn register_read(reg: u16, data: u8) -> PinState {
    PinState { address: (0x2000 + reg % 8) as u16, data, read: true, ..PinState::idle() }
}

impl PpuState {
    /// The state after the processor wrote `data` to register `reg`.
    pub open spec fn poke(self, reg: u16, data: u8) -> PpuState {
        self.handle_cpu(register_write(reg, data)).0
    }

    /// The state after the processor read register `reg`.
    pub open spec fn peeked(self, reg: u16) -> PpuState {
        self.handle_cpu(register_read(reg, 0)).0
    }

    /// The byte that the processor gets when it reads register `reg`.
    pub open spec fn peek(self, reg: u16) -> u8 {
        self.handle_cpu(register_read(reg, 0)).1.data
    }

    /// The state after the processor pointed `v` at `addr` through two
    /// writes to `$2006`.
    pub open spec fn point_at(self, addr: u16) -> PpuState {
        self.poke(6, (addr / 256) as u8).poke(6, (addr % 256) as u8)
    }
}

/// What a write to each of the eight registers comes to. The status register
/// takes no write.
pub proof fn lemma_poke(s: PpuState, reg: u16, data: u8)
    ensures
        reg % 8 == 0 ==> s.poke(reg, data) == s.write_ctrl(data),
        reg % 8 == 1 ==> s.poke(reg, data) == (PpuState { mask: super::model::Mask(data), ..s }),
        reg % 8 == 2 ==> s.poke(reg, data) == s,
        reg % 8 == 3 ==> s.poke(reg, data) == (PpuState { oam_addr: data, ..s }),
        reg % 8 == 4 ==> s.poke(reg, data) == s.write_oam(data),
        reg % 8 == 5 ==> s.poke(reg, data) == s.write_scroll(data),
        reg % 8 == 6 ==> s.poke(reg, data) == s.write_addr(data),
        reg % 8 == 7 ==> s.poke(reg, data) == s.write_data(data),
{
    reveal(PpuState::handle_cpu);
}

/// What a read of each of the eight registers comes to. Only the status
/// register, the object data register and the data port answer.
pub proof fn lemma_peek(s: PpuState, reg: u16)
    ensures
        reg % 8 == 2 ==> s.peek(reg) == s.status_byte(0) && s.peeked(reg) == s.read_status(),
        reg % 8 == 4 ==> s.peek(reg) == s.oam[s.oam_addr as int] && s.peeked(reg) == s,
        reg % 8 == 7 ==> s.peek(reg) == s.read_data().1 && s.peeked(reg) == s.read_data().0,
        reg % 8 != 2 && reg % 8 != 4 && reg % 8 != 7 ==> s.peek(reg) == 0 && s.peeked(reg) == s,
{
    reveal(PpuState::handle_cpu);
}

/// Two writes to `$2006` point `v` at the address written, within fourteen
/// bits, and leave the write toggle where it was.
pub proof fn lemma_point_at(s: PpuState, addr: u16)
    requires
        !s.w,
    ensures
        s.point_at(addr).v == addr % 0x4000,
        s.point_at(addr).t == addr % 0x4000,
        !s.point_at(addr).w,
        s.point_at(addr) == (PpuState { v: s.point_at(addr).v, t: s.point_at(addr).t, ..s }),
{
    lemma_addr_pair(s, (addr / 256) as u8, (addr % 256) as u8);
    lemma_fourteen_bits(addr);
}

/// Six bits of the high byte and the whole low byte of an address make up
/// its fourteen low bits.
proof fn lemma_fourteen_bits(addr: u16)
    ensures
        (((addr / 256) as u8) % 64) * 256 + ((addr % 256) as u8) == addr % 0x4000,
{
}

/// Object memory gives back what was written to it: a byte written through
/// `$2003` and `$2004` is what a read through `$2003` and `$2004` returns,
/// and the write changes no other byte of object memory.
pub proof fn lemma_oam_round_trip(s: PpuState, index: u8, data: u8)
    ensures
        s.poke(3, index).poke(4, data).poke(3, index).peek(4) == data,
        s.poke(3, index).poke(4, data).oam == vstd::array::spec_array_update(
            s.oam,
            index as int,
            data,
        ),
        s.poke(3, index).poke(4, data).poke(3, index).peeked(4).oam == s.poke(3, index).poke(
            4,
            data,
        ).oam,
{
    let pointed = s.poke(3, index);
    lemma_poke(s, 3, index);
    lemma_poke(pointed, 4, data);
    lemma_poke(pointed.poke(4, data), 3, index);
    lemma_peek(pointed.poke(4, data).poke(3, index), 4);
    reveal(PpuState::write_oam);
}

/// The four palette entries `$3F10`, `$3F14`, `$3F18` and `$3F1C` are the
/// entries `$3F00`, `$3F04`, `$3F08` and `$3F0C`: a byte written to one
/// through `$2006` and `$2007` is read back from the other, without the
/// delay of the read buffer.
pub proof fn lemma_palette_mirroring(s: PpuState, entry: u16, data: u8)
    requires
        !s.w,
        entry == 0x00 || entry == 0x04 || entry == 0x08 || entry == 0x0C,
    ensures
        s.point_at((0x3F10 + entry) as u16).poke(7, data).point_at((0x3F00 + entry) as u16).peek(7)
            == data,
        s.point_at((0x3F00 + entry) as u16).poke(7, data).point_at((0x3F10 + entry) as u16).peek(7)
            == data,
{
    let high = (0x3F10 + entry) as u16;
    let low = (0x3F00 + entry) as u16;
    lemma_point_at(s, high);
    lemma_point_at(s, low);
    lemma_palette_write(s.point_at(high), data);
    lemma_palette_write(s.point_at(low), data);
    lemma_point_at(s.point_at(high).poke(7, data), low);
    lemma_point_at(s.point_at(low).poke(7, data), high);
    lemma_palette_read(s.point_at(high).poke(7, data).point_at(low));
    lemma_palette_read(s.point_at(low).poke(7, data).point_at(high));
}

/// Every palette entry gives back what was written to it.
pub proof fn lemma_palette_round_trip(s: PpuState, addr: u16, data: u8)
    requires
        !s.w,
        is_palette_address(addr),
    ensures
        s.point_at(addr).poke(7, data).point_at(addr).peek(7) == data,
{
    lemma_point_at(s, addr);
    lemma_palette_write(s.point_at(addr), data);
    lemma_point_at(s.point_at(addr).poke(7, data), addr);
    lemma_palette_read(s.point_at(addr).poke(7, data).point_at(addr));
}

/// A write through `$2007` with `v` in the palette changes the palette
/// entry behind `v` and nothing else but `v`.
pub proof fn lemma_palette_write(s: PpuState, data: u8)
    requires
        is_palette_address(s.v),
    ensures
        s.poke(7, data) == (PpuState {
            palette: vstd::array::spec_array_update(
                s.palette,
                mirror_palette_offset((s.v % 32) as u8) as int,
                data,
            ),
            v: s.poke(7, data).v,
            ..s
        }),
{
    lemma_poke(s, 7, data);
    reveal(PpuState::write_data);
    reveal(PpuState::increment_v);
}

/// A read through `$2007` with `v` in the palette returns the palette entry
/// behind `v` at once.
pub proof fn lemma_palette_read(s: PpuState)
    requires
        is_palette_address(s.v),
    ensures
        s.peek(7) == s.palette[mirror_palette_offset((s.v % 32) as u8) as int],
{
    lemma_peek(s, 7);
    reveal(PpuState::read_data);
}

/// Two writes to `$2005` set fine X from the first byte and leave the write
/// toggle where it was; besides, they change only `t`.
pub proof fn lemma_scroll_pair(s: PpuState, b1: u8, b2: u8)
    requires
        !s.w,
    ensures
        s.poke(5, b1).poke(5, b2) == (PpuState {
            t: s.poke(5, b1).poke(5, b2).t,
            x: (b1 % 8) as u8,
            ..s
        }),
{
    lemma_poke(s, 5, b1);
    lemma_poke(s.poke(5, b1), 5, b2);
    reveal(PpuState::write_scroll);
}

/// Two writes to `$2006` set `t` and `v` from six bits of the first byte and
/// the whole second byte, and leave the write toggle where it was; besides,
/// they change nothing.
pub proof fn lemma_addr_pair(s: PpuState, b3: u8, b4: u8)
    requires
        !s.w,
    ensures
        s.poke(6, b3).poke(6, b4) == (PpuState {
            t: ((b3 % 64) * 256 + b4) as u16,
            v: ((b3 % 64) * 256 + b4) as u16,
            ..s
        }),
{
    lemma_poke(s, 6, b3);
    lemma_poke(s.poke(6, b3), 6, b4);
    reveal(PpuState::write_addr);
}

/// The scroll latch keeps nothing of what it held: whatever the state
/// before, two writes to `$2005` and two to `$2006` leave `v`, `t` and fine
/// X as the four bytes alone determine them.
pub proof fn lemma_scroll_latch(s1: PpuState, s2: PpuState, b1: u8, b2: u8, b3: u8, b4: u8)
    requires
        !s1.w,
        !s2.w,
    ensures
        s1.poke(5, b1).poke(5, b2).poke(6, b3).poke(6, b4).v == s2.poke(5, b1).poke(5, b2).poke(
            6,
            b3,
        ).poke(6, b4).v,
        s1.poke(5, b1).poke(5, b2).poke(6, b3).poke(6, b4).t == s2.poke(5, b1).poke(5, b2).poke(
            6,
            b3,
        ).poke(6, b4).t,
        s1.poke(5, b1).poke(5, b2).poke(6, b3).poke(6, b4).x == s2.poke(5, b1).poke(5, b2).poke(
            6,
            b3,
        ).poke(6, b4).x,
        s1.poke(5, b1).poke(5, b2).poke(6, b3).poke(6, b4).v == (b3 % 64) * 256 + b4,
        s1.poke(5, b1).poke(5, b2).poke(6, b3).poke(6, b4).x == b1 % 8,
        !s1.poke(5, b1).poke(5, b2).poke(6, b3).poke(6, b4).w,
{
    lemma_scroll_pair(s1, b1, b2);
    lemma_scroll_pair(s2, b1, b2);
    lemma_addr_pair(s1.poke(5, b1).poke(5, b2), b3, b4);
    lemma_addr_pair(s2.poke(5, b1).poke(5, b2), b3, b4);
}

/// The way of a byte through the data port, below the palette. A write
/// through `$2007` goes out on the picture bus at the next dot, to the
/// address that `v` held. A read through `$2007` puts a read of that address
/// on the picture bus at the next dot; the byte that memory answers with
/// enters the read buffer at the dot after; and the read buffer is what the
/// next read through `$2007` returns.
pub proof fn lemma_data_port(s: PpuState, data: u8, bus: PpuLines, answer: PpuLines)
    requires
        !is_palette_address(s.v),
    ensures
        s.poke(7, data).do_mem_access(bus).1 == bus.write(s.v, data),
        s.peeked(7).do_mem_access(bus).1 == bus.read(s.v),
        s.peeked(7).do_mem_access(bus).0.do_mem_access(answer).0.data == answer.data,
        s.peek(7) == s.data,
{
    lemma_poke(s, 7, data);
    lemma_peek(s, 7);
    reveal(PpuState::write_data);
    reveal(PpuState::read_data);
    reveal(PpuState::increment_v);
    reveal(PpuState::do_mem_access);
}

/// Object memory and the object address after an access of the processor:
/// a write to `$2003` sets the address; a write to `$2004` stores the byte
/// at the address and moves the address on; nothing else touches them.
pub open spec fn oam_after_access(oam: [u8; 256], oam_addr: u8, cpu: PinState) -> ([u8; 256], u8) {
    if PpuState::selected(cpu) && !cpu.read && cpu.address % 8 == 3 {
        (oam, cpu.data)
    } else if PpuState::selected(cpu) && !cpu.read && cpu.address % 8 == 4 {
        (vstd::array::spec_array_update(oam, oam_addr as int, cpu.data), ((oam_addr + 1) % 256) as u8)
    } else {
        (oam, oam_addr)
    }
}

/// The register interface treats object memory as [`oam_after_access`]
/// says, whatever else the state holds.
pub proof fn lemma_registers_oam(s: PpuState, cpu: PinState)
    ensures
        (s.handle_cpu(cpu).0.oam, s.handle_cpu(cpu).0.oam_addr) == oam_after_access(
            s.oam,
            s.oam_addr,
            cpu,
        ),
{
    reveal(PpuState::handle_cpu);
    reveal(PpuState::write_ctrl);
    reveal(PpuState::read_status);
    reveal(PpuState::write_oam);
    reveal(PpuState::write_scroll);
    reveal(PpuState::write_addr);
    reveal(PpuState::read_data);
    reveal(PpuState::write_data);
    reveal(PpuState::increment_v);
}

/// In a whole dot nothing touches object memory but the register
/// interface: not the memory port, not the pixel pipeline, not the dot
/// counter.
pub proof fn lemma_clock_oam(s: PpuState, bus: PpuLines, cpu: PinState, cpu_clock: bool)
    ensures
        (s.clock(bus, cpu, cpu_clock).0.oam, s.clock(bus, cpu, cpu_clock).0.oam_addr) == (
        if cpu_clock {
            oam_after_access(s.oam, s.oam_addr, cpu)
        } else {
            (s.oam, s.oam_addr)
        }),
{
    reveal(PpuState::clock);
    reveal(PpuState::do_mem_access);
    reveal(PpuState::tick_dot);
    let accessed = s.do_mem_access(bus);
    lemma_registers_oam(accessed.0, cpu);
    let handled = if cpu_clock {
        accessed.0.handle_cpu(cpu)
    } else {
        (accessed.0, cpu)
    };
    lemma_render_frame(handled.0, accessed.1.data);
}

} // verus!
