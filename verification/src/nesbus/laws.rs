//! What holds of the console as a whole: what work memory and video memory
//! give back, whatever the rest of the machine does in the same cycles.

use vstd::prelude::*;

use super::{
    cpu_cycle, driven, lemma_stall, master_cycle, next_state, ppu_cycle, ram_access, reply_pins,
    vram_access, vram_offset, Console, NesBus, NesState,
};
use crate::apu::laws::{
    lead, lemma_dma_progress, lemma_dma_request, lemma_dma_step, lemma_oam_dma, run,
};
use crate::ppu::laws::{lemma_clock_oam, lemma_registers_drive_data_only, oam_after_access};
use crate::cpu::laws::{holds, is_held, lemma_held_cycles, release_step, sampled};
use crate::cpu::model::advance_cycle;
use crate::apu::laws::dmc_silent;
use crate::apu::{ApuState, Dma};
use crate::cpu::PinState;
use crate::mapper::mapper0::{Cartridge0, Mapper0};
use crate::mapper::steer;
use crate::ppu::model::{is_palette_address, Mem};
use crate::mapper::mapper2::Mapper2;
use crate::mapper::{DynMapper, Mapper, MapperLines};
use crate::ppu::model::PpuState;
use crate::ppu::PpuLines;

verus! {

/// Whether cartridges of kind `M` leave the processor bus alone below
/// `$8000`, where the console's own devices live.
pub open spec fn quiet_below_8000<M: Mapper>() -> bool {
    forall|cart: M::V, bus: MapperLines, cpu: PinState, ppu: PpuLines|
        cpu.address < 0x8000 ==> (#[trigger] M::with_cpu(cart, bus, cpu, ppu)).2 == cpu
}

/// The supported cartridges leave the processor bus alone below `$8000`.
pub proof fn lemma_supported_mappers_are_quiet()
    ensures
        quiet_below_8000::<Mapper0>(),
        quiet_below_8000::<Mapper2>(),
        quiet_below_8000::<DynMapper>(),
{
}

/// The pins of the processor during a write of `data` to `address`.
pub open spec fn write_pins(address: u16, data: u8) -> PinState {
    PinState { address, data, read: false, ..PinState::idle() }
}

/// The pins of the processor during a read of `address`.
pub open spec fn read_pins(address: u16) -> PinState {
    PinState { address, read: true, ..PinState::idle() }
}

/// A cycle that accesses work memory while no DMA is asked for or due: the
/// access reaches work memory as the processor set it up, and nothing else
/// touches work memory or asks for a DMA.
pub proof fn lemma_ram_cycle<M: Mapper>(s: NesState<M::V>, pins: PinState)
    requires
        quiet_below_8000::<M>(),
        s.apu.oam_dma == Dma::Idle,
        dmc_silent(s.apu),
        pins.address < 0x2000,
    ensures
        next_state::<M>(s, pins).apu.oam_dma == Dma::Idle,
        dmc_silent(next_state::<M>(s, pins).apu),
        next_state::<M>(s, pins).ram == ram_access(s.ram, driven(s.cpu_bus, pins)).0,
        pins.read ==> reply_pins::<M>(s, pins).data == s.ram[(pins.address % 0x800) as int],
        !reply_pins::<M>(s, pins).not_ready,
{
    reveal(master_cycle);
    reveal(cpu_cycle);
    reveal(ppu_cycle);
    reveal(PpuState::clock);
    reveal(PpuState::handle_cpu);
    reveal(ApuState::clock);
    reveal(ApuState::strobe_controllers);
    reveal(ApuState::clock_cpu);
    reveal(ApuState::clock_oam);
    reveal(ApuState::clock_dmc_dma);
    reveal(ApuState::handle_cpu);
    reveal(ApuState::write_dmc);
    reveal(ApuState::clock_dmc);
    reveal(ApuState::clock_apu);
    reveal(ApuState::tick_counters);
    let started = NesState {
        cpu_bus: PinState { irq: false, ..driven(s.cpu_bus, pins) },
        ..s
    };
    let first = cpu_cycle::<M>(started);
    let apu_out = started.apu.clock(started.cpu_bus);
    let ppu_out = started.ppu.clock(started.ppu_bus, apu_out.1, true);
    assert(ppu_out.2.address == pins.address);
    let mapped = M::with_cpu(started.mapper, started.mapper_bus, ppu_out.2, ppu_out.1);
    assert(mapped.2 == ppu_out.2);
    let second = ppu_cycle::<M>(first);
    let third = ppu_cycle::<M>(second);
    assert(third.ram == first.ram);
    assert(third.cpu_bus.data == first.cpu_bus.data);
}

/// Work memory gives back what was written to it. A byte that the processor
/// writes below `$2000` is what it reads from the same address in the next
/// cycle, and from each of the three other addresses that 2 KiB apart reach
/// the same byte. This is what makes a pull return the byte of the push
/// before it.
pub proof fn lemma_ram_round_trip<M: Mapper>(
    s: NesState<M::V>,
    address: u16,
    data: u8,
    again: u16,
)
    requires
        quiet_below_8000::<M>(),
        s.apu.oam_dma == Dma::Idle,
        dmc_silent(s.apu),
        address < 0x2000,
        again < 0x2000,
        again % 0x800 == address % 0x800,
    ensures
        reply_pins::<M>(next_state::<M>(s, write_pins(address, data)), read_pins(again)).data
            == data,
{
    lemma_ram_cycle::<M>(s, write_pins(address, data));
    lemma_ram_cycle::<M>(next_state::<M>(s, write_pins(address, data)), read_pins(again));
}

/// Video memory gives back what was written to it: a byte written while the
/// cartridge enables video memory is read back from every address that the
/// cartridge steers to the same place.
pub proof fn lemma_vram_round_trip(
    vram: [u8; 2048],
    lines: MapperLines,
    addr: u16,
    data: u8,
    lines_again: MapperLines,
    again: u16,
    bus: PpuLines,
)
    requires
        lines.ciram_ce,
        lines_again.ciram_ce,
        vram_offset(lines, addr) == vram_offset(lines_again, again),
    ensures
        vram_access(
            vram_access(vram, lines, bus.write(addr, data)).0,
            lines_again,
            bus.read(again),
        ).1.data == data,
{
}

/// Whether a picture bus address lies in the nametables, which the
/// console's video memory holds.
pub open spec fn in_nametables(addr: u16) -> bool {
    0x2000 <= addr < 0x3000
}

/// Whether the machine is at rest as far as the data port goes: no DMA, the
/// pixel pipeline off, and nothing waiting at the picture processor's
/// memory port.
pub open spec fn port_at_rest(s: NesState<Cartridge0>) -> bool {
    s.apu.oam_dma == Dma::Idle && dmc_silent(s.apu) && !s.ppu.mask.rendering() && s.ppu.mem
        == Mem::Idle
}

/// The processor bus as the picture processor sees it in a cycle in which
/// the processor accesses one of its registers.
pub open spec fn seen(s: NesState<Cartridge0>, pins: PinState) -> PinState {
    PinState { irq: s.apu.status.irq_active(), not_ready: false, ..driven(s.cpu_bus, pins) }
}

/// One master cycle in which the processor accesses the address register or
/// the data port while the machine is at rest. The registers change as the
/// register interface says. What the access left at the memory port goes
/// through in the two dots that follow: a write reaches video memory, and a
/// read brings the byte from video memory into the read buffer. At the end
/// the machine is at rest again.
pub proof fn lemma_port_cycle(s: NesState<Cartridge0>, pins: PinState)
    requires
        port_at_rest(s),
        0x2000 <= pins.address < 0x4000,
        pins.address % 8 == 6 || pins.address % 8 == 7,
    ensures
        ({
            let handled = s.ppu.handle_cpu(seen(s, pins));
            let next = next_state::<Mapper0>(s, pins);
            &&& port_at_rest(next)
            &&& next.mapper == s.mapper
            &&& next.ppu.v == handled.0.v
            &&& next.ppu.t == handled.0.t
            &&& next.ppu.w == handled.0.w
            &&& next.ppu.ctrl == handled.0.ctrl
            &&& next.ppu.palette == handled.0.palette
            &&& pins.read ==> reply_pins::<Mapper0>(s, pins).data == handled.1.data
            &&& match handled.0.mem {
                Mem::Write(addr, data) => in_nametables(addr) ==> next.vram == vstd::array::spec_array_update(
                    s.vram,
                    vram_offset(steer(s.mapper.vertical_mirroring, addr), addr),
                    data,
                ) && next.ppu.data == s.ppu.data,
                Mem::Read(addr, for_buffer) => in_nametables(addr) && for_buffer ==> next.vram
                    == s.vram && next.ppu.data == s.vram[vram_offset(
                    steer(s.mapper.vertical_mirroring, addr),
                    addr,
                )],
                _ => next.vram == s.vram && next.ppu.data == handled.0.data,
            }
        }),
{
    reveal(master_cycle);
    reveal(ApuState::clock);
    reveal(ApuState::strobe_controllers);
    reveal(ApuState::clock_cpu);
    reveal(ApuState::clock_oam);
    reveal(ApuState::clock_dmc_dma);
    reveal(ApuState::handle_cpu);
    reveal(ApuState::write_dmc);
    reveal(ApuState::clock_dmc);
    reveal(ApuState::clock_apu);
    reveal(ApuState::tick_counters);
    let started = NesState {
        cpu_bus: PinState { irq: false, ..driven(s.cpu_bus, pins) },
        ..s
    };
    let apu_out = started.apu.clock(started.cpu_bus);
    assert(apu_out.1 == seen(s, pins));
    let first = cpu_cycle::<Mapper0>(started);
    lemma_port_registers(s.ppu, apu_out.1);
    lemma_port_first_dot(started, apu_out.1);
    let second = ppu_cycle::<Mapper0>(first);
    lemma_port_later_dot(first);
    let third = ppu_cycle::<Mapper0>(second);
    lemma_port_later_dot(second);
}

/// The registers of the picture processor that the dot counter and an idle
/// pipeline leave alone.
pub open spec fn same_port(before: PpuState, after: PpuState) -> bool {
    &&& after.v == before.v
    &&& after.t == before.t
    &&& after.w == before.w
    &&& after.x == before.x
    &&& after.ctrl == before.ctrl
    &&& after.mask == before.mask
    &&& after.palette == before.palette
    &&& after.oam == before.oam
}

/// The first dot of a master cycle in which a register is accessed while
/// nothing waits at the memory port: the register interface acts, and what
/// it leaves at the memory port is not yet under way.
pub proof fn lemma_port_first_dot(s: NesState<Cartridge0>, cpu: PinState)
    requires
        !s.ppu.mask.rendering(),
        s.ppu.mem == Mem::Idle,
        s.apu.clock(s.cpu_bus).1 == cpu,
        0x2000 <= cpu.address < 0x4000,
        cpu.address % 8 == 6 || cpu.address % 8 == 7,
    ensures
        ({
            let handled = s.ppu.handle_cpu(cpu);
            let next = cpu_cycle::<Mapper0>(s);
            &&& same_port(handled.0, next.ppu)
            &&& next.ppu.mem == handled.0.mem
            &&& next.ppu.data == handled.0.data
            &&& next.vram == s.vram
            &&& next.mapper == s.mapper
            &&& next.apu == s.apu.clock(s.cpu_bus).0
            &&& next.cpu_bus.data == handled.1.data
            &&& next.cpu_bus.not_ready == cpu.not_ready
            &&& !next.ppu_bus.rd
            &&& !next.ppu_bus.wr
        }),
{
    reveal(cpu_cycle);
    reveal(PpuState::clock);
    reveal(PpuState::do_mem_access);
    reveal(PpuState::tick_dot);
    let accessed = s.ppu.do_mem_access(s.ppu_bus);
    let handled = accessed.0.handle_cpu(cpu);
    assert(accessed.0 == s.ppu);
    lemma_port_registers(s.ppu, cpu);
    reveal(PpuState::render);
}

/// What an access to the address register or the data port does to the
/// mask: nothing.
pub proof fn lemma_port_registers(ppu: PpuState, cpu: PinState)
    requires
        0x2000 <= cpu.address < 0x4000,
        cpu.address % 8 == 6 || cpu.address % 8 == 7,
    ensures
        ppu.handle_cpu(cpu).0.mask == ppu.mask,
        ppu.handle_cpu(cpu).0.oam == ppu.oam,
        ppu.handle_cpu(cpu).0.dot == ppu.dot,
        ppu.handle_cpu(cpu).0.data == ppu.data,
        ppu.handle_cpu(cpu).1 == (PinState { data: ppu.handle_cpu(cpu).1.data, ..cpu }),
        ppu.mem == Mem::Idle ==> (match ppu.handle_cpu(cpu).0.mem {
            Mem::Read(_, for_buffer) => for_buffer,
            Mem::UpdatePpuData => false,
            _ => true,
        }),
{
    reveal(PpuState::handle_cpu);
    reveal(PpuState::write_addr);
    reveal(PpuState::read_data);
    reveal(PpuState::write_data);
    reveal(PpuState::increment_v);
}

/// A dot without a processor cycle while the pipeline is off: what waits
/// at the memory port goes out on the picture bus, and video memory
/// answers where the cartridge steers the address to it.
pub proof fn lemma_port_later_dot(s: NesState<Cartridge0>)
    requires
        !s.ppu.mask.rendering(),
    ensures
        ({
            let next = ppu_cycle::<Mapper0>(s);
            &&& same_port(s.ppu, next.ppu)
            &&& next.apu == s.apu
            &&& next.mapper == s.mapper
            &&& next.cpu_bus.data == s.cpu_bus.data
            &&& next.cpu_bus.not_ready == s.cpu_bus.not_ready
            &&& match s.ppu.mem {
                Mem::Idle => next.ppu.mem == Mem::Idle && next.vram == s.vram && next.ppu.data
                    == s.ppu.data && !next.ppu_bus.rd && !next.ppu_bus.wr,
                Mem::Write(addr, data) => next.ppu.mem == Mem::Idle && next.ppu.data == s.ppu.data
                    && (in_nametables(addr) ==> next.vram == vstd::array::spec_array_update(
                    s.vram,
                    vram_offset(steer(s.mapper.vertical_mirroring, addr), addr),
                    data,
                )),
                Mem::Read(addr, for_buffer) => next.ppu.mem == (if for_buffer {
                    Mem::UpdatePpuData
                } else {
                    Mem::Idle
                }) && next.vram == s.vram && next.ppu.data == s.ppu.data && !next.ppu_bus.wr
                    && (in_nametables(addr) ==> next.ppu_bus.data == s.vram[vram_offset(
                    steer(s.mapper.vertical_mirroring, addr),
                    addr,
                )]),
                Mem::UpdatePpuData => next.ppu.mem == Mem::Idle && next.ppu.data
                    == s.ppu_bus.data && (!s.ppu_bus.wr ==> next.vram == s.vram),
            }
        }),
{
    reveal(ppu_cycle);
    reveal(PpuState::clock);
    reveal(PpuState::do_mem_access);
    reveal(PpuState::tick_dot);
    reveal(PpuState::render);
}

/// What a write to the address register does, field by field: the first
/// write of a pair sets the high byte of `t` from six bits of the data, the
/// second sets the low byte and copies `t` to `v`.
pub proof fn lemma_address_write(ppu: PpuState, cpu: PinState)
    requires
        0x2000 <= cpu.address < 0x4000,
        cpu.address % 8 == 6,
        !cpu.read,
    ensures
        ({
            let after = ppu.handle_cpu(cpu).0;
            &&& after.w == !ppu.w
            &&& after.mem == ppu.mem
            &&& after.ctrl == ppu.ctrl
            &&& !ppu.w ==> after.t == ppu.t % 256 + 256 * (cpu.data % 64) && after.v == ppu.v
            &&& ppu.w ==> after.t == (ppu.t / 256) * 256 + cpu.data && after.v == after.t
        }),
{
    reveal(PpuState::handle_cpu);
    reveal(PpuState::write_addr);
}

/// What an access to the data port does below the palette, field by field:
/// a write leaves the byte at the memory port, bound for the address that
/// `v` held; a read returns the read buffer and leaves a read of that
/// address at the memory port; either moves `v` on.
pub proof fn lemma_data_access(ppu: PpuState, cpu: PinState)
    requires
        0x2000 <= cpu.address < 0x4000,
        cpu.address % 8 == 7,
        !is_palette_address(ppu.v),
    ensures
        ({
            let after = ppu.handle_cpu(cpu);
            &&& after.0.w == ppu.w
            &&& after.0.t == ppu.t
            &&& after.0.ctrl == ppu.ctrl
            &&& after.0.v as int == (ppu.v + if ppu.ctrl.increment_down() {
                32int
            } else {
                1
            }) % 0x4000
            &&& !cpu.read ==> after.0.mem == Mem::Write(ppu.v, cpu.data)
            &&& cpu.read ==> after.0.mem == Mem::Read(ppu.v, true) && after.1.data == ppu.data
        }),
{
    reveal(PpuState::handle_cpu);
    reveal(PpuState::read_data);
    reveal(PpuState::write_data);
    reveal(PpuState::increment_v);
}

/// The machine after the processor pointed `v` at `addr` through two writes
/// to `$2006`.
pub open spec fn pointed(s: NesState<Cartridge0>, addr: u16) -> NesState<Cartridge0> {
    next_state::<Mapper0>(
        next_state::<Mapper0>(s, write_pins(0x2006, (addr / 256) as u8)),
        write_pins(0x2006, (addr % 256) as u8),
    )
}

/// Two writes to `$2006` at rest point `v` at the address and touch neither
/// video memory nor the read buffer.
pub proof fn lemma_pointed(s: NesState<Cartridge0>, addr: u16)
    requires
        port_at_rest(s),
        !s.ppu.w,
        addr < 0x4000,
    ensures
        port_at_rest(pointed(s, addr)),
        !pointed(s, addr).ppu.w,
        pointed(s, addr).ppu.v == addr,
        pointed(s, addr).ppu.ctrl == s.ppu.ctrl,
        pointed(s, addr).ppu.data == s.ppu.data,
        pointed(s, addr).vram == s.vram,
        pointed(s, addr).mapper == s.mapper,
{
    let high = write_pins(0x2006, (addr / 256) as u8);
    let low = write_pins(0x2006, (addr % 256) as u8);
    lemma_port_cycle(s, high);
    lemma_address_write(s.ppu, seen(s, high));
    lemma_port_registers(s.ppu, seen(s, high));
    let half = next_state::<Mapper0>(s, high);
    lemma_port_cycle(half, low);
    lemma_address_write(half.ppu, seen(half, low));
    lemma_port_registers(half.ppu, seen(half, low));
}

/// Video memory gives back through the data port what was written through
/// it. At rest, with `v` pointed at a nametable address through `$2006`, a
/// byte written through `$2007` lands in video memory; and with `v` pointed
/// at the address again, the second read through `$2007` returns it. The
/// first read returns what the read buffer held before.
pub proof fn lemma_vram_data_port_round_trip(s: NesState<Cartridge0>, addr: u16, data: u8)
    requires
        port_at_rest(s),
        !s.ppu.w,
        in_nametables(addr),
    ensures
        ({
            let written = next_state::<Mapper0>(pointed(s, addr), write_pins(0x2007, data));
            let primed = next_state::<Mapper0>(pointed(written, addr), read_pins(0x2007));
            &&& written.vram[vram_offset(steer(s.mapper.vertical_mirroring, addr), addr)] == data
            &&& reply_pins::<Mapper0>(pointed(written, addr), read_pins(0x2007)).data
                == written.ppu.data
            &&& reply_pins::<Mapper0>(primed, read_pins(0x2007)).data == data
        }),
{
    let write = write_pins(0x2007, data);
    let read = read_pins(0x2007);
    lemma_pointed(s, addr);
    let aimed = pointed(s, addr);
    lemma_port_cycle(aimed, write);
    lemma_data_access(aimed.ppu, seen(aimed, write));
    let written = next_state::<Mapper0>(aimed, write);
    lemma_pointed(written, addr);
    let aimed_again = pointed(written, addr);
    lemma_port_cycle(aimed_again, read);
    lemma_data_access(aimed_again.ppu, seen(aimed_again, read));
    let primed = next_state::<Mapper0>(aimed_again, read);
    lemma_port_cycle(primed, read);
    lemma_data_access(primed.ppu, seen(primed, read));
}

/// The processor bus as the DMA units see it in a cycle in which the
/// processor shows `pins`.
pub open spec fn apu_bus<M: Mapper>(s: NesState<M::V>, pins: PinState) -> PinState {
    PinState { irq: false, ..driven(s.cpu_bus, pins) }
}

/// What a master cycle does to the DMA units and what of it the processor
/// gets to see: the units make their cycle on the bus as the processor set
/// it up, NOT_READY reaches the processor as they leave it, and the
/// direction of the processor's access is not touched. The cycle is
/// counted.
pub proof fn lemma_apu_cycle<M: Mapper>(s: NesState<M::V>, pins: PinState)
    ensures
        next_state::<M>(s, pins).apu == s.apu.clock(apu_bus::<M>(s, pins)).0,
        reply_pins::<M>(s, pins).not_ready == s.apu.clock(apu_bus::<M>(s, pins)).1.not_ready,
        reply_pins::<M>(s, pins).read == pins.read,
        reply_pins::<M>(s, pins).address == pins.address,
        reply_pins::<M>(s, pins).sync == pins.sync,
        next_state::<M>(s, pins).cycle as int == (s.cycle + 1) % 0x1_0000_0000_0000_0000,
{
    reveal(master_cycle);
    reveal(cpu_cycle);
    reveal(ppu_cycle);
    reveal(PpuState::clock);
    let started = NesState { cpu_bus: apu_bus::<M>(s, pins), ..s };
    let apu_out = s.apu.clock(started.cpu_bus);
    crate::ppu::laws::lemma_registers_drive_data_only(
        s.ppu.do_mem_access(s.ppu_bus).0,
        apu_out.1,
    );
    let first = cpu_cycle::<M>(started);
    assert(first.apu == s.apu.clock(started.cpu_bus).0);
    assert(first.cpu_bus.not_ready == s.apu.clock(started.cpu_bus).1.not_ready);
    let second = ppu_cycle::<M>(first);
    assert(second.apu == first.apu && second.cpu_bus.not_ready == first.cpu_bus.not_ready);
    let third = ppu_cycle::<M>(second);
    assert(third.apu == first.apu && third.cpu_bus.not_ready == first.cpu_bus.not_ready);
}

/// The processor bus as the DMA units see it in the cycle that follows `i`
/// cycles in which the processor was held.
pub open spec fn held_bus<M: Mapper>(m: Console<M::V>, poll: bool, i: nat) -> PinState {
    apu_bus::<M>(
        holds::<NesBus<M>>(m, poll, i).bus,
        sampled(holds::<NesBus<M>>(m, poll, i).cpu, poll).pins,
    )
}

/// While the processor is held, it goes on showing the access that it was
/// held in, the DMA units make one cycle for each of its cycles, and every
/// cycle is counted.
pub proof fn lemma_held_console<M: Mapper>(m: Console<M::V>, poll: bool, i: nat)
    ensures
        sampled(holds::<NesBus<M>>(m, poll, i).cpu, poll).pins.read == m.cpu.pins.read,
        holds::<NesBus<M>>(m, poll, i).bus.apu == run(
            m.bus.apu,
            |k: nat| held_bus::<M>(m, poll, k),
            i,
        ),
        holds::<NesBus<M>>(m, poll, i).bus.cycle as int == (m.bus.cycle + i)
            % 0x1_0000_0000_0000_0000,
    decreases i,
{
    let buses = |k: nat| held_bus::<M>(m, poll, k);
    if i > 0 {
        let before = holds::<NesBus<M>>(m, poll, (i - 1) as nat);
        lemma_held_console::<M>(m, poll, (i - 1) as nat);
        lemma_apu_cycle::<M>(before.bus, sampled(before.cpu, poll).pins);
        assert(buses((i - 1) as nat) == held_bus::<M>(m, poll, (i - 1) as nat));
        assert(run(m.bus.apu, buses, i) == run(m.bus.apu, buses, (i - 1) as nat).clock(
            buses((i - 1) as nat),
        ).0);
    }
}

/// A sprite DMA as the processor lives through it. The processor is in a
/// read when the DMA unit, asked for a transfer by a write to `$4014`,
/// waits for it to stop, and the sample channel keeps still.
///
/// The read takes 514 cycles if its first cycle is a put cycle and 515
/// if it is a get cycle: 513 or 514 cycles in which the processor is held,
/// and the one in which the read goes through. After it the DMA unit is at
/// rest, and the processor goes on with what that last cycle brought.
#[verifier::rlimit(50)]
pub proof fn lemma_oam_dma_holds_processor<M: Mapper>(m: Console<M::V>, poll: bool)
    requires
        m.cpu.pins.read,
        m.bus.apu.oam_dma == Dma::Halt,
        m.bus.apu.oam_cycle == 0,
        dmc_silent(m.bus.apu),
    ensures
        ({
            let held = lead(m.bus.apu) + 512;
            let done = advance_cycle::<NesBus<M>>(m, poll);
            &&& held == (if m.bus.apu.put_cycle {
                513nat
            } else {
                514nat
            })
            &&& done == release_step::<NesBus<M>>(holds::<NesBus<M>>(m, poll, held), poll)
            &&& done.bus.cycle as int == (m.bus.cycle + held + 1) % 0x1_0000_0000_0000_0000
            &&& done.bus.apu.oam_dma == Dma::Idle
            &&& !done.cpu.pins.not_ready
            &&& !done.cpu.pins.halt
        }),
{
    let held = lead(m.bus.apu) + 512;
    let buses = |k: nat| held_bus::<M>(m, poll, k);
    assert forall|i: nat| (#[trigger] buses(i)).read by {
        lemma_held_console::<M>(m, poll, i);
    }
    lemma_oam_dma(m.bus.apu, buses);
    assert forall|i: nat| i <= held implies is_held::<NesBus<M>>(
        #[trigger] holds::<NesBus<M>>(m, poll, i),
        poll,
    ) == (i < held) by {
        let at = holds::<NesBus<M>>(m, poll, i);
        let pins = sampled(at.cpu, poll).pins;
        lemma_held_console::<M>(m, poll, i);
        lemma_apu_cycle::<M>(at.bus, pins);
        lemma_stall::<M>(at.bus, pins);
        assert(buses(i) == held_bus::<M>(m, poll, i));
        assert(crate::apu::laws::driven(m.bus.apu, buses, i) == at.bus.apu.clock(buses(i)).1);
    }
    lemma_held_cycles::<NesBus<M>>(m, poll, held);
    let last = holds::<NesBus<M>>(m, poll, held);
    lemma_held_console::<M>(m, poll, held);
    lemma_held_console::<M>(m, poll, held + 1);
    lemma_apu_cycle::<M>(last.bus, sampled(last.cpu, poll).pins);
    assert(buses(held) == held_bus::<M>(m, poll, held));
    assert(run(m.bus.apu, buses, held + 1) == run(m.bus.apu, buses, held).clock(buses(held)).0);
}

/// Whether cartridges of kind `M` drive nothing on the processor bus but
/// the data lines, and those only from `$8000` up.
pub open spec fn drives_data_only<M: Mapper>() -> bool {
    &&& quiet_below_8000::<M>()
    &&& forall|cart: M::V, bus: MapperLines, cpu: PinState, ppu: PpuLines|
        (#[trigger] M::with_cpu(cart, bus, cpu, ppu)).2 == (PinState {
            data: M::with_cpu(cart, bus, cpu, ppu).2.data,
            ..cpu
        })
}

/// The supported cartridges drive nothing but the data lines.
pub proof fn lemma_supported_mappers_drive_data_only()
    ensures
        drives_data_only::<Mapper0>(),
        drives_data_only::<Mapper2>(),
        drives_data_only::<DynMapper>(),
{
}

/// What a master cycle does to work memory and to object memory, given the
/// bus as the DMA units leave it. Object memory sees that bus through the
/// register interface of the picture processor and nothing else. Work
/// memory answers a read below `$2000`, and the byte is on the data lines
/// when the cycle ends; no read and no access from `$2000` up changes it.
pub proof fn lemma_memory_cycle<M: Mapper>(s: NesState<M::V>, pins: PinState)
    requires
        drives_data_only::<M>(),
    ensures
        ({
            let seen = s.apu.clock(apu_bus::<M>(s, pins)).1;
            let next = next_state::<M>(s, pins);
            &&& (next.ppu.oam, next.ppu.oam_addr) == oam_after_access(
                s.ppu.oam,
                s.ppu.oam_addr,
                seen,
            )
            &&& seen.read || seen.address >= 0x2000 ==> next.ram == s.ram
            &&& seen.read && seen.address < 0x2000 ==> next.cpu_bus.data == s.ram[(seen.address
                % 0x800) as int]
        }),
{
    reveal(master_cycle);
    reveal(cpu_cycle);
    reveal(ppu_cycle);
    let started = NesState { cpu_bus: apu_bus::<M>(s, pins), ..s };
    let apu_out = s.apu.clock(started.cpu_bus);
    let ppu_out = s.ppu.clock(s.ppu_bus, apu_out.1, true);
    lemma_clock_oam(s.ppu, s.ppu_bus, apu_out.1, true);
    lemma_ppu_lines(s.ppu, s.ppu_bus, apu_out.1, true);
    let mapped = M::with_cpu(s.mapper, s.mapper_bus, ppu_out.2, ppu_out.1);
    assert(mapped.2.address == apu_out.1.address && mapped.2.read == apu_out.1.read);
    let first = cpu_cycle::<M>(started);
    lemma_clock_oam(first.ppu, first.ppu_bus, first.cpu_bus, false);
    lemma_ppu_lines(first.ppu, first.ppu_bus, first.cpu_bus, false);
    let second = ppu_cycle::<M>(first);
    lemma_clock_oam(second.ppu, second.ppu_bus, second.cpu_bus, false);
    lemma_ppu_lines(second.ppu, second.ppu_bus, second.cpu_bus, false);
}

/// Of the lines of the processor bus, a dot of the picture processor moves
/// the NMI line, and the data lines when a register is read: nothing
/// else, and nothing but NMI in a dot without a processor cycle, on a
/// write, or on an access that is not to a register.
pub proof fn lemma_ppu_lines(ppu: PpuState, bus: PpuLines, cpu: PinState, cpu_clock: bool)
    ensures
        ppu.clock(bus, cpu, cpu_clock).2 == (PinState {
            nmi: ppu.clock(bus, cpu, cpu_clock).2.nmi,
            data: ppu.clock(bus, cpu, cpu_clock).2.data,
            ..cpu
        }),
        !cpu_clock || !cpu.read || !PpuState::selected(cpu) ==> ppu.clock(
            bus,
            cpu,
            cpu_clock,
        ).2.data == cpu.data,
{
    reveal(PpuState::clock);
    lemma_registers_drive_data_only(ppu.do_mem_access(bus).0, cpu);
    if !PpuState::selected(cpu) {
        lemma_unselected(ppu.do_mem_access(bus).0, cpu);
    }
}

/// An access outside `$2000` to `$3FFF` does not reach the picture
/// processor.
pub proof fn lemma_unselected(ppu: PpuState, cpu: PinState)
    requires
        !PpuState::selected(cpu),
    ensures
        ppu.handle_cpu(cpu) == (ppu, cpu),
{
    reveal(PpuState::handle_cpu);
}

/// Object memory after the first `k` bytes of page `bank` of work memory
/// went through `$2004`, the first of them to `start`.
pub open spec fn copied(oam: [u8; 256], start: u8, ram: [u8; 2048], bank: u8, k: nat) -> [
    u8;
    256
]
    decreases k,
{
    if k == 0 {
        oam
    } else {
        vstd::array::spec_array_update(
            copied(oam, start, ram, bank, (k - 1) as nat),
            (start + k - 1) % 256,
            ram[(bank * 256 + k - 1) % 0x800],
        )
    }
}

/// After `k` bytes, byte `j` of the page stands `j` places after `start`,
/// for each `j` below `k`; the places wrap within the 256 of object
/// memory.
pub proof fn lemma_copied(oam: [u8; 256], start: u8, ram: [u8; 2048], bank: u8, k: nat, j: nat)
    requires
        j < k <= 256,
    ensures
        copied(oam, start, ram, bank, k)[(start + j) % 256] == ram[(bank * 256 + j) % 0x800],
    decreases k,
{
    let here = (start + j) % 256;
    let last = (start + k - 1) % 256;
    let earlier = copied(oam, start, ram, bank, (k - 1) as nat);
    let byte = ram[(bank * 256 + k - 1) % 0x800];
    assert(copied(oam, start, ram, bank, k) == vstd::array::spec_array_update(
        earlier,
        last,
        byte,
    ));
    if j + 1 < k {
        lemma_copied(oam, start, ram, bank, (k - 1) as nat, j);
        assert(here != last) by {
            lemma_places_differ(start as int, j as int, k - 1);
        }
    }
}

/// Two places less than 256 apart differ after wrapping.
proof fn lemma_places_differ(start: int, a: int, b: int)
    requires
        0 <= start < 256,
        0 <= a < b < 256,
    ensures
        (start + a) % 256 != (start + b) % 256,
{
}

/// A cycle in which the DMA units leave a read on the bus changes neither
/// work memory nor object memory.
pub proof fn lemma_read_cycle<M: Mapper>(s: NesState<M::V>, pins: PinState)
    requires
        drives_data_only::<M>(),
        s.apu.clock(apu_bus::<M>(s, pins)).1.read,
    ensures
        next_state::<M>(s, pins).ram == s.ram,
        next_state::<M>(s, pins).ppu.oam == s.ppu.oam,
        next_state::<M>(s, pins).ppu.oam_addr == s.ppu.oam_addr,
{
    lemma_memory_cycle::<M>(s, pins);
}

/// One byte of a sprite DMA from work memory: the get cycle reads it, the
/// put cycle writes it to object memory where the object address points,
/// and the address moves on. Work memory stays as it is.
pub proof fn lemma_copy_pair<M: Mapper>(s: NesState<M::V>, get: PinState, put: PinState)
    requires
        drives_data_only::<M>(),
        get.read,
        put.read,
        s.apu.oam_dma == Dma::Get,
        !s.apu.put_cycle,
        dmc_silent(s.apu),
        s.apu.oam_bank < 0x20,
    ensures
        ({
            let after = next_state::<M>(next_state::<M>(s, get), put);
            &&& after.ram == s.ram
            &&& after.ppu.oam == vstd::array::spec_array_update(
                s.ppu.oam,
                s.ppu.oam_addr as int,
                s.ram[(s.apu.dma_address() % 0x800) as int],
            )
            &&& after.ppu.oam_addr as int == (s.ppu.oam_addr + 1) % 256
        }),
{
    let mid = next_state::<M>(s, get);
    lemma_dma_step(s.apu, apu_bus::<M>(s, get));
    lemma_apu_cycle::<M>(s, get);
    lemma_memory_cycle::<M>(s, get);
    lemma_dma_step(mid.apu, apu_bus::<M>(mid, put));
    lemma_memory_cycle::<M>(mid, put);
}

/// The lead of a sprite DMA, in which the processor stops and the unit
/// waits for a get cycle, changes neither work memory nor object memory.
pub proof fn lemma_dma_lead<M: Mapper>(m: Console<M::V>, poll: bool)
    requires
        drives_data_only::<M>(),
        m.cpu.pins.read,
        m.bus.apu.oam_dma == Dma::Halt,
        dmc_silent(m.bus.apu),
    ensures
        ({
            let at = holds::<NesBus<M>>(m, poll, lead(m.bus.apu)).bus;
            &&& at.ram == m.bus.ram
            &&& at.ppu.oam == m.bus.ppu.oam
            &&& at.ppu.oam_addr == m.bus.ppu.oam_addr
        }),
{
    let first = holds::<NesBus<M>>(m, poll, 0);
    assert(first == m);
    lemma_held_console::<M>(m, poll, 0);
    lemma_dma_step(m.bus.apu, held_bus::<M>(m, poll, 0));
    lemma_read_cycle::<M>(m.bus, sampled(m.cpu, poll).pins);
    let second = holds::<NesBus<M>>(m, poll, 1);
    assert(second.bus == next_state::<M>(m.bus, sampled(m.cpu, poll).pins));
    if !m.bus.apu.put_cycle {
        lemma_held_console::<M>(m, poll, 1);
        lemma_apu_cycle::<M>(m.bus, sampled(m.cpu, poll).pins);
        lemma_dma_step(second.bus.apu, held_bus::<M>(m, poll, 1));
        lemma_read_cycle::<M>(second.bus, sampled(second.cpu, poll).pins);
        assert(holds::<NesBus<M>>(m, poll, 2).bus == next_state::<M>(
            second.bus,
            sampled(second.cpu, poll).pins,
        ));
    }
}

/// Where a sprite DMA from work memory stands after the lead and `k` pairs
/// of cycles: the first `k` bytes of the page are in object memory, the
/// object address has moved by `k`, and work memory is as it was.
pub proof fn lemma_dma_copies<M: Mapper>(m: Console<M::V>, poll: bool, k: nat)
    requires
        drives_data_only::<M>(),
        m.cpu.pins.read,
        m.bus.apu.oam_dma == Dma::Halt,
        m.bus.apu.oam_cycle == 0,
        m.bus.apu.oam_bank < 0x20,
        dmc_silent(m.bus.apu),
        k <= 256,
    ensures
        ({
            let at = holds::<NesBus<M>>(m, poll, lead(m.bus.apu) + 2 * k).bus;
            &&& at.ram == m.bus.ram
            &&& at.ppu.oam == copied(
                m.bus.ppu.oam,
                m.bus.ppu.oam_addr,
                m.bus.ram,
                m.bus.apu.oam_bank,
                k,
            )
            &&& at.ppu.oam_addr as int == (m.bus.ppu.oam_addr + k) % 256
        }),
    decreases k,
{
    if k == 0 {
        lemma_dma_lead::<M>(m, poll);
    } else {
        lemma_dma_copies::<M>(m, poll, (k - 1) as nat);
        lemma_dma_pair::<M>(m, poll, (k - 1) as nat);
        lemma_next_place(m.bus.ppu.oam_addr as int, k - 1);
    }
}

/// Pair `k` of a sprite DMA from work memory: its two cycles put byte `k`
/// of the page where the object address points and move the address on.
pub proof fn lemma_dma_pair<M: Mapper>(m: Console<M::V>, poll: bool, k: nat)
    requires
        drives_data_only::<M>(),
        m.cpu.pins.read,
        m.bus.apu.oam_dma == Dma::Halt,
        m.bus.apu.oam_cycle == 0,
        m.bus.apu.oam_bank < 0x20,
        dmc_silent(m.bus.apu),
        k < 256,
    ensures
        ({
            let before = holds::<NesBus<M>>(m, poll, lead(m.bus.apu) + 2 * k).bus;
            let after = holds::<NesBus<M>>(m, poll, lead(m.bus.apu) + 2 * (k + 1)).bus;
            &&& after.ram == before.ram
            &&& after.ppu.oam == vstd::array::spec_array_update(
                before.ppu.oam,
                before.ppu.oam_addr as int,
                before.ram[(m.bus.apu.oam_bank * 256 + k) % 0x800],
            )
            &&& after.ppu.oam_addr as int == (before.ppu.oam_addr + 1) % 256
        }),
{
    let buses = |i: nat| held_bus::<M>(m, poll, i);
    assert forall|i: nat| (#[trigger] buses(i)).read by {
        lemma_held_console::<M>(m, poll, i);
    }
    lemma_dma_progress(m.bus.apu, buses, k);
    let at = lead(m.bus.apu) + 2 * k;
    let before = holds::<NesBus<M>>(m, poll, at);
    let between = holds::<NesBus<M>>(m, poll, at + 1);
    let after = holds::<NesBus<M>>(m, poll, at + 2);
    lemma_held_console::<M>(m, poll, at);
    lemma_held_console::<M>(m, poll, at + 1);
    let get = sampled(before.cpu, poll).pins;
    let put = sampled(between.cpu, poll).pins;
    assert(between.bus == next_state::<M>(before.bus, get));
    assert(after.bus == next_state::<M>(between.bus, put));
    lemma_copy_pair::<M>(before.bus, get, put);
    assert(before.bus.apu.oam_cycle == k);
    assert(before.bus.apu.dma_address() == m.bus.apu.oam_bank * 256 + k);
}

/// The place after the one `n` places on is the one `n + 1` places on.
proof fn lemma_next_place(start: int, n: int)
    requires
        0 <= start < 256,
        0 <= n < 256,
    ensures
        ((start + n) % 256 + 1) % 256 == (start + n + 1) % 256,
{
}

/// A sprite DMA from work memory, as the machine lives through it. The
/// processor is in a read when the DMA unit, asked for a transfer from a
/// page below `$2000` by a write to `$4014`, waits for it to stop, and the
/// sample channel keeps still.
///
/// When the read has gone through, byte `j` of the page stands in object
/// memory `j` places after the place where the object address pointed, for
/// each of the 256; the object address is where it was; and work memory
/// has not changed.
pub proof fn lemma_oam_dma_copies_page<M: Mapper>(m: Console<M::V>, poll: bool)
    requires
        drives_data_only::<M>(),
        m.cpu.pins.read,
        m.bus.apu.oam_dma == Dma::Halt,
        m.bus.apu.oam_cycle == 0,
        m.bus.apu.oam_bank < 0x20,
        dmc_silent(m.bus.apu),
    ensures
        ({
            let done = advance_cycle::<NesBus<M>>(m, poll).bus;
            &&& done.ram == m.bus.ram
            &&& done.ppu.oam_addr == m.bus.ppu.oam_addr
            &&& forall|j: nat|
                j < 256 ==> done.ppu.oam[(m.bus.ppu.oam_addr + j) % 256] == #[trigger] m.bus.ram[(
                m.bus.apu.oam_bank * 256 + j) % 0x800]
        }),
{
    let held = lead(m.bus.apu) + 512;
    let buses = |i: nat| held_bus::<M>(m, poll, i);
    assert forall|i: nat| (#[trigger] buses(i)).read by {
        lemma_held_console::<M>(m, poll, i);
    }
    lemma_oam_dma_holds_processor::<M>(m, poll);
    lemma_dma_copies::<M>(m, poll, 256);
    lemma_dma_progress(m.bus.apu, buses, 256);
    let last = holds::<NesBus<M>>(m, poll, held);
    lemma_held_console::<M>(m, poll, held);
    lemma_dma_step(last.bus.apu, held_bus::<M>(m, poll, held));
    lemma_read_cycle::<M>(last.bus, sampled(last.cpu, poll).pins);
    assert forall|j: nat| j < 256 implies advance_cycle::<NesBus<M>>(m, poll).bus.ppu.oam[(
    m.bus.ppu.oam_addr + j) % 256] == #[trigger] m.bus.ram[(m.bus.apu.oam_bank * 256 + j)
        % 0x800] by {
        lemma_copied(m.bus.ppu.oam, m.bus.ppu.oam_addr, m.bus.ram, m.bus.apu.oam_bank, 256, j);
    }
}

/// A write to `$4014` as the machine sees it: the DMA unit takes the page
/// and waits for the processor to stop, NOT_READY reaches the processor in
/// the same cycle, and neither work memory nor object memory changes.
pub proof fn lemma_dma_requested<M: Mapper>(s: NesState<M::V>, pins: PinState)
    requires
        drives_data_only::<M>(),
        s.apu.oam_dma == Dma::Idle,
        dmc_silent(s.apu),
        pins.address == 0x4014,
        !pins.read,
    ensures
        ({
            let next = next_state::<M>(s, pins);
            &&& next.apu.oam_dma == Dma::Halt
            &&& next.apu.oam_bank == pins.data
            &&& next.apu.oam_cycle == 0
            &&& dmc_silent(next.apu)
            &&& reply_pins::<M>(s, pins).not_ready
            &&& next.ram == s.ram
            &&& next.ppu.oam == s.ppu.oam
            &&& next.ppu.oam_addr == s.ppu.oam_addr
        }),
{
    lemma_dma_request(s.apu, apu_bus::<M>(s, pins));
    lemma_apu_cycle::<M>(s, pins);
    lemma_memory_cycle::<M>(s, pins);
}

} // verus!
