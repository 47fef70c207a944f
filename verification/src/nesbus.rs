//! The bus that couples the processor to everything else, and the record of
//! the lines that run between them.

use vstd::array::spec_array_update;
use vstd::prelude::*;

use crate::apu::{Apu, ApuState, Controller};
use crate::cpu::model::Machine;
use crate::cpu::{machine, Bus6502, Cpu6502, PinState};
use crate::mapper::Bus as MapperBus;
use crate::mapper::{Mapper, MapperLines};
use crate::ppu::model::PpuState;
use crate::ppu::Bus as PpuBus;
use crate::ppu::{Ppu, PpuLines};
use crate::util::{
    bit_u8, get_flag_u8, lemma_bit_with_bit_u8, lemma_no_bit_in_zero, set_flag_u8,
};

pub mod laws;

verus! {

broadcast use lemma_bit_with_bit_u8;

const FLAG_RST: u8 = 0;
const FLAG_NMI: u8 = 1;
const FLAG_IRQ: u8 = 2;
const FLAG_READ: u8 = 3;
const FLAG_SYNC: u8 = 4;
const FLAG_NOT_READY: u8 = 5;
const FLAG_HALT: u8 = 6;

/// The processor bus: sixteen address lines, eight data lines and the
/// control lines RST, NMI, IRQ, READ, SYNC, NOT_READY and HALT.
#[derive(Copy, Clone, Debug, PartialEq, Eq, Hash)]
pub struct CpuBus {
    address: u16,
    data: u8,
    flags: u8,
}

/// The levels that the fields of a [`CpuBus`] stand for.
#[verifier::opaque]
spec fn bus_state(bus: CpuBus) -> PinState {
    PinState {
        address: bus.address,
        data: bus.data,
        read: bit_u8(bus.flags, FLAG_READ),
        not_ready: bit_u8(bus.flags, FLAG_NOT_READY),
        halt: bit_u8(bus.flags, FLAG_HALT),
        irq: bit_u8(bus.flags, FLAG_IRQ),
        nmi: bit_u8(bus.flags, FLAG_NMI),
        rst: bit_u8(bus.flags, FLAG_RST),
        sync: bit_u8(bus.flags, FLAG_SYNC),
    }
}

impl View for CpuBus {
    type V = PinState;

    closed spec fn view(&self) -> PinState {
        bus_state(*self)
    }
}

impl CpuBus {
    /// A bus with every line low.
    pub fn init() -> (bus: Self)
        ensures
            bus@ == PinState::idle(),
    {
        proof {
            reveal(bus_state);
            lemma_no_bit_in_zero();
        }
        Self { address: 0, data: 0, flags: 0 }
    }

    /// The address lines.
    pub fn address(self) -> (address: u16)
        ensures
            address == self@.address,
    {
        proof {
            reveal(bus_state);
        }
        self.address
    }

    /// The data lines.
    pub fn data(self) -> (data: u8)
        ensures
            data == self@.data,
    {
        proof {
            reveal(bus_state);
        }
        self.data
    }

    /// Drives the address lines.
    pub fn set_address(&mut self, addr: u16)
        ensures
            final(self)@ == (PinState { address: addr, ..old(self)@ }),
    {
        proof {
            reveal(bus_state);
        }
        self.address = addr;
    }

    /// Drives the data lines.
    pub fn set_data(&mut self, data: u8)
        ensures
            final(self)@ == (PinState { data, ..old(self)@ }),
    {
        proof {
            reveal(bus_state);
        }
        self.data = data;
    }

    /// Level of the reset line.
    pub fn rst(self) -> (level: bool)
        ensures
            level == self@.rst,
    {
        proof {
            reveal(bus_state);
        }
        get_flag_u8(self.flags, FLAG_RST)
    }

    /// Level of the non-maskable interrupt line.
    pub fn nmi(self) -> (level: bool)
        ensures
            level == self@.nmi,
    {
        proof {
            reveal(bus_state);
        }
        get_flag_u8(self.flags, FLAG_NMI)
    }

    /// Level of the interrupt request line.
    pub fn irq(self) -> (level: bool)
        ensures
            level == self@.irq,
    {
        proof {
            reveal(bus_state);
        }
        get_flag_u8(self.flags, FLAG_IRQ)
    }

    /// Level of the read line.
    pub fn read(self) -> (level: bool)
        ensures
            level == self@.read,
    {
        proof {
            reveal(bus_state);
        }
        get_flag_u8(self.flags, FLAG_READ)
    }

    /// Level of the opcode fetch line.
    pub fn sync(self) -> (level: bool)
        ensures
            level == self@.sync,
    {
        proof {
            reveal(bus_state);
        }
        get_flag_u8(self.flags, FLAG_SYNC)
    }

    /// Level of the not-ready line.
    pub fn not_ready(self) -> (level: bool)
        ensures
            level == self@.not_ready,
    {
        proof {
            reveal(bus_state);
        }
        get_flag_u8(self.flags, FLAG_NOT_READY)
    }

    /// Level of the halt line.
    pub fn halt(self) -> (level: bool)
        ensures
            level == self@.halt,
    {
        proof {
            reveal(bus_state);
        }
        get_flag_u8(self.flags, FLAG_HALT)
    }

    /// Drives the reset line.
    pub fn set_rst(&mut self, rst: bool)
        ensures
            final(self)@ == (PinState { rst, ..old(self)@ }),
    {
        proof {
            reveal(bus_state);
        }
        set_flag_u8(&mut self.flags, FLAG_RST, rst)
    }

    /// Drives the non-maskable interrupt line.
    pub fn set_nmi(&mut self, nmi: bool)
        ensures
            final(self)@ == (PinState { nmi, ..old(self)@ }),
    {
        proof {
            reveal(bus_state);
        }
        set_flag_u8(&mut self.flags, FLAG_NMI, nmi)
    }

    /// Drives the interrupt request line.
    pub fn set_irq(&mut self, irq: bool)
        ensures
            final(self)@ == (PinState { irq, ..old(self)@ }),
    {
        proof {
            reveal(bus_state);
        }
        set_flag_u8(&mut self.flags, FLAG_IRQ, irq)
    }

    /// Drives the read line.
    pub fn set_read(&mut self, read: bool)
        ensures
            final(self)@ == (PinState { read, ..old(self)@ }),
    {
        proof {
            reveal(bus_state);
        }
        set_flag_u8(&mut self.flags, FLAG_READ, read)
    }

    /// Drives the opcode fetch line.
    pub fn set_sync(&mut self, sync: bool)
        ensures
            final(self)@ == (PinState { sync, ..old(self)@ }),
    {
        proof {
            reveal(bus_state);
        }
        set_flag_u8(&mut self.flags, FLAG_SYNC, sync)
    }

    /// Drives the not-ready line.
    pub fn set_not_ready(&mut self, not_ready: bool)
        ensures
            final(self)@ == (PinState { not_ready, ..old(self)@ }),
    {
        proof {
            reveal(bus_state);
        }
        set_flag_u8(&mut self.flags, FLAG_NOT_READY, not_ready)
    }

    /// Drives the halt line.
    pub fn set_halt(&mut self, halt: bool)
        ensures
            final(self)@ == (PinState { halt, ..old(self)@ }),
    {
        proof {
            reveal(bus_state);
        }
        set_flag_u8(&mut self.flags, FLAG_HALT, halt)
    }

    /// Pulls the interrupt request line high if `irq` holds; never releases
    /// it.
    pub fn or_irq(&mut self, irq: bool)
        ensures
            final(self)@ == (PinState { irq: old(self)@.irq || irq, ..old(self)@ }),
    {
        let level = self.irq();
        self.set_irq(level || irq);
    }
}

/// Pixels in a frame: 256 columns by 240 lines.
pub const SCREEN_PIXELS: usize = 61440;

/// The most instructions that [`NesBus::run_until_vblank`] executes before
/// it gives up: two frames' worth of processor cycles.
pub const FRAME_BUDGET: u32 = 59562;

/// The complete state of the machine around the processor core. `C` is the
/// view of the cartridge.
pub struct NesState<C> {
    pub cycle: u64,
    pub cpu_bus: PinState,
    pub ppu_bus: PpuLines,
    pub mapper_bus: MapperLines,
    pub apu: ApuState,
    pub ppu: PpuState,
    pub mapper: C,
    pub ram: [u8; 2048],
    pub vram: [u8; 2048],
    pub frame: [u8; 61440],
}

/// The processor bus and work memory after memory acted: an access below
/// `$2000` reaches the 2 KiB of work memory, which repeat four times.
pub open spec fn ram_access(ram: [u8; 2048], bus: PinState) -> ([u8; 2048], PinState) {
    if bus.address >= 0x2000 {
        (ram, bus)
    } else if bus.read {
        (ram, PinState { data: ram[(bus.address % 0x800) as int], ..bus })
    } else {
        (spec_array_update(ram, (bus.address % 0x800) as int, bus.data), bus)
    }
}

/// The place in video memory that a picture bus address reaches: the
/// cartridge supplies address line 10.
pub open spec fn vram_offset(lines: MapperLines, addr: u16) -> int {
    (if lines.ciram_a10 {
        1024int
    } else {
        0
    }) + addr % 1024
}

/// The picture bus and video memory after memory acted: it answers only
/// while the cartridge enables it.
pub open spec fn vram_access(vram: [u8; 2048], lines: MapperLines, bus: PpuLines) -> (
    [u8; 2048],
    PpuLines,
) {
    if !lines.ciram_ce {
        (vram, bus)
    } else if bus.rd {
        (vram, PpuLines { data: vram[vram_offset(lines, bus.addr)], ..bus })
    } else if bus.wr {
        (spec_array_update(vram, vram_offset(lines, bus.addr), bus.data), bus)
    } else {
        (vram, bus)
    }
}

/// The frame after the picture processor's pixel was put into it.
pub open spec fn emitted(frame: [u8; 61440], ppu: PpuState) -> [u8; 61440] {
    if ppu.pixel_coord[0] < 256 && ppu.pixel_coord[1] < 240 {
        spec_array_update(
            frame,
            (ppu.pixel_coord[1] * 256 + ppu.pixel_coord[0]) as int,
            ppu.pixel,
        )
    } else {
        frame
    }
}

/// The first of the three parts of a master cycle, the one in which the
/// processor bus is live: the DMA and input unit acts, then the picture
/// processor with its registers open, then the cartridge, then work memory
/// and video memory. NOT_READY is a line within the processor package: the
/// cartridge cannot move it.
#[verifier::opaque]
pub open spec fn cpu_cycle<M: Mapper>(s: NesState<M::V>) -> NesState<M::V> {
    let (apu, cpu_bus) = s.apu.clock(s.cpu_bus);
    let (ppu, ppu_bus, cpu_bus) = s.ppu.clock(s.ppu_bus, cpu_bus, true);
    let (mapper, mapper_bus, mapped, ppu_bus) = M::with_cpu(
        s.mapper,
        s.mapper_bus,
        cpu_bus,
        ppu_bus,
    );
    let (ram, cpu_bus) = ram_access(s.ram, PinState { not_ready: cpu_bus.not_ready, ..mapped });
    let (vram, ppu_bus) = vram_access(s.vram, mapper_bus, ppu_bus);
    NesState {
        cycle: s.cycle,
        cpu_bus,
        ppu_bus,
        mapper_bus,
        apu,
        ppu,
        mapper,
        ram,
        vram,
        frame: emitted(s.frame, ppu),
    }
}

/// Each of the two further parts of a master cycle: the picture processor
/// acts with its registers closed, then the cartridge, then video memory.
#[verifier::opaque]
pub open spec fn ppu_cycle<M: Mapper>(s: NesState<M::V>) -> NesState<M::V> {
    let (ppu, ppu_bus, cpu_bus) = s.ppu.clock(s.ppu_bus, s.cpu_bus, false);
    let (mapper, mapper_bus, ppu_bus) = M::with_ppu(s.mapper, s.mapper_bus, ppu_bus);
    let (vram, ppu_bus) = vram_access(s.vram, mapper_bus, ppu_bus);
    NesState {
        cycle: s.cycle,
        cpu_bus,
        ppu_bus,
        mapper_bus,
        apu: s.apu,
        ppu,
        mapper,
        ram: s.ram,
        vram,
        frame: emitted(s.frame, ppu),
        ..s
    }
}

/// One master cycle with the processor bus as it stands: the interrupt
/// request line is released, the three parts run, and the cycle is counted.
#[verifier::opaque]
pub open spec fn master_cycle<M: Mapper>(s: NesState<M::V>) -> NesState<M::V> {
    let started = NesState { cpu_bus: PinState { irq: false, ..s.cpu_bus }, ..s };
    let done = ppu_cycle::<M>(ppu_cycle::<M>(cpu_cycle::<M>(started)));
    NesState { cycle: ((s.cycle + 1) % 0x1_0000_0000_0000_0000) as u64, ..done }
}

/// The processor bus as the processor sets it up for a cycle: address,
/// direction, SYNC and HALT are the processor's; the data lines are the
/// processor's on a write and keep their last level on a read.
pub open spec fn driven(bus: PinState, pins: PinState) -> PinState {
    PinState {
        address: pins.address,
        data: if pins.read {
            bus.data
        } else {
            pins.data
        },
        read: pins.read,
        sync: pins.read && pins.sync,
        halt: pins.read && pins.halt,
        ..bus
    }
}

/// The machine after a cycle in which the processor showed `pins`.
pub open spec fn next_state<M: Mapper>(s: NesState<M::V>, pins: PinState) -> NesState<M::V> {
    master_cycle::<M>(NesState { cpu_bus: driven(s.cpu_bus, pins), ..s })
}

/// The processor's pins after that cycle. The lines that the processor
/// drives stay as they were; on a read the data lines bring what the bus
/// holds; NOT_READY and the interrupt lines take the levels on the bus.
pub open spec fn reply_pins<M: Mapper>(s: NesState<M::V>, pins: PinState) -> PinState {
    let bus = next_state::<M>(s, pins).cpu_bus;
    PinState {
        data: if pins.read {
            bus.data
        } else {
            pins.data
        },
        not_ready: bus.not_ready,
        irq: bus.irq,
        nmi: bus.nmi,
        rst: bus.rst,
        ..pins
    }
}

/// A processor and the machine around it.
pub type Console<C> = Machine<NesState<C>>;

/// What [`NesBus::run_until_vblank`] does with at most `budget` more
/// instructions: it executes instructions until it finds, between two of
/// them, the vertical blank flag up where it was down before. The result
/// tells whether that happened.
pub open spec fn run_to_vblank<M: Mapper>(
    console: Console<M::V>,
    last_blank: bool,
    budget: nat,
) -> (Console<M::V>, bool)
    decreases budget,
{
    if console.bus.ppu.vblank && !last_blank {
        (console, true)
    } else if budget == 0 {
        (console, false)
    } else {
        run_to_vblank::<M>(
            crate::cpu::model::exec::<NesBus<M>>(console),
            console.bus.ppu.vblank,
            (budget - 1) as nat,
        )
    }
}

/// The bus of the console: it owns everything but the processor core and
/// connects it all, one master cycle per processor cycle.
pub struct NesBus<M> {
    cycle: u64,
    cpu_bus: CpuBus,
    ppu_bus: PpuBus,
    mapper_bus: MapperBus,
    apu: Apu,
    ppu: Ppu,
    mapper: M,
    ram: [u8; 2048],
    vram: [u8; 2048],
    frame: [u8; 61440],
}

impl<M: Mapper> View for NesBus<M> {
    type V = NesState<M::V>;

    closed spec fn view(&self) -> NesState<M::V> {
        NesState {
            cycle: self.cycle,
            cpu_bus: self.cpu_bus@,
            ppu_bus: self.ppu_bus@,
            mapper_bus: self.mapper_bus@,
            apu: self.apu@,
            ppu: self.ppu@,
            mapper: self.mapper@,
            ram: self.ram,
            vram: self.vram,
            frame: self.frame,
        }
    }
}

impl<M: Mapper> NesBus<M> {
    /// Whether the cartridge is in order.
    pub closed spec fn wf(&self) -> bool {
        self.mapper.inv()
    }

    /// A console at power-on around the given cartridge, with the given
    /// frame to draw into and the given controller ports.
    pub fn new(mapper: M, framebuffer: [u8; 61440], controller_inputs: [Controller; 2]) -> (bus:
        Self)
        requires
            mapper.inv(),
        ensures
            bus.wf(),
            bus@.cycle == 0,
            bus@.cpu_bus == PinState::idle(),
            bus@.ppu_bus == PpuLines::idle(),
            bus@.apu == (ApuState { controllers: controller_inputs, ..ApuState::power_on() }),
            bus@.ppu == PpuState::power_on(),
            bus@.mapper == mapper@,
            bus@.frame == framebuffer,
            forall|i: int| 0 <= i < 2048 ==> bus@.ram[i] == 0 && bus@.vram[i] == 0,
    {
        let mut apu = Apu::start();
        *apu.controllers() = controller_inputs;
        Self {
            cycle: 0,
            cpu_bus: CpuBus::init(),
            ppu_bus: PpuBus::new(),
            mapper_bus: MapperBus::new(),
            apu,
            ppu: Ppu::start(),
            mapper,
            ram: [0; 2048],
            vram: [0; 2048],
            frame: framebuffer,
        }
    }

    /// The picture processor.
    pub fn ppu(&self) -> (ppu: &Ppu)
        ensures
            ppu@ == self@.ppu,
    {
        &self.ppu
    }

    /// The DMA and input unit.
    pub fn apu(&self) -> (apu: &Apu)
        ensures
            apu@ == self@.apu,
    {
        &self.apu
    }

    /// The two controller ports, for the driver to set the buttons.
    pub fn input_mut(&mut self) -> (ports: &mut [Controller; 2])
        ensures
            *ports == old(self)@.apu.controllers,
            final(self)@ == (NesState {
                apu: ApuState { controllers: *final(ports), ..old(self)@.apu },
                ..old(self)@
            }),
            final(self).wf() == old(self).wf(),
    {
        self.apu.controllers()
    }

    /// Work memory.
    pub fn ram(&self) -> (ram: &[u8; 2048])
        ensures
            *ram == self@.ram,
    {
        &self.ram
    }

    /// Video memory.
    pub fn vram(&self) -> (vram: &[u8; 2048])
        ensures
            *vram == self@.vram,
    {
        &self.vram
    }

    /// The frame: one palette index per pixel, line after line.
    pub fn pixels(&self) -> (frame: &[u8; 61440])
        ensures
            *frame == self@.frame,
    {
        &self.frame
    }

    /// The number of master cycles since power-on, modulo two to the 64.
    pub fn cycles(&self) -> (cycles: u64)
        ensures
            cycles == self@.cycle,
    {
        self.cycle
    }

    /// The lines of the processor bus as the last cycle left them.
    pub fn cpu_bus(&self) -> (bus: CpuBus)
        ensures
            bus@ == self@.cpu_bus,
    {
        self.cpu_bus
    }

    /// Pulls the reset line high or releases it.
    pub fn set_reset(&mut self, rst: bool)
        ensures
            final(self)@ == (NesState {
                cpu_bus: PinState { rst, ..old(self)@.cpu_bus },
                ..old(self)@
            }),
            final(self).wf() == old(self).wf(),
    {
        self.cpu_bus.set_rst(rst);
    }

    /// One master cycle with the processor bus as it stands.
    pub fn step(&mut self)
        requires
            old(self).wf(),
        ensures
            final(self).wf(),
            final(self)@ == master_cycle::<M>(old(self)@),
    {
        self.cycle();
    }

    fn cycle(&mut self)
        requires
            old(self).wf(),
        ensures
            final(self).wf(),
            final(self)@ == master_cycle::<M>(old(self)@),
    {
        proof {
            reveal(master_cycle);
            reveal(cpu_cycle);
            reveal(ppu_cycle);
        }
        self.cpu_bus.set_irq(false);
        let ghost started = self@;
        self.cpu_cycle();
        self.ppu_cycle();
        self.ppu_cycle();
        assert(self@ == ppu_cycle::<M>(ppu_cycle::<M>(cpu_cycle::<M>(started))));

        self.cycle = self.cycle.wrapping_add(1);
    }

    fn cpu_cycle(&mut self)
        requires
            old(self).wf(),
        ensures
            final(self).wf(),
            final(self)@ == cpu_cycle::<M>(old(self)@),
    {
        proof {
            reveal(cpu_cycle);
        }
        self.apu.clock(&mut self.cpu_bus);
        self.ppu.clock(&mut self.ppu_bus, &mut self.cpu_bus, true);
        let not_ready = self.cpu_bus.not_ready();
        self.mapper.clock_with_cpu(&mut self.mapper_bus, &mut self.cpu_bus, &mut self.ppu_bus);
        self.cpu_bus.set_not_ready(not_ready);
        self.update_ram();
        self.update_vram();
        self.emit_pixel();
    }

    fn ppu_cycle(&mut self)
        requires
            old(self).wf(),
        ensures
            final(self).wf(),
            final(self)@ == ppu_cycle::<M>(old(self)@),
    {
        proof {
            reveal(ppu_cycle);
        }
        self.ppu.clock(&mut self.ppu_bus, &mut self.cpu_bus, false);
        self.mapper.clock_with_ppu(&mut self.mapper_bus, &mut self.ppu_bus);
        self.update_vram();
        self.emit_pixel();
    }

    fn update_ram(&mut self)
        ensures
            final(self).wf() == old(self).wf(),
            final(self)@ == (NesState {
                ram: ram_access(old(self)@.ram, old(self)@.cpu_bus).0,
                cpu_bus: ram_access(old(self)@.ram, old(self)@.cpu_bus).1,
                ..old(self)@
            }),
    {
        let addr = self.cpu_bus.address() as usize;
        if addr < 0x2000 {
            let offset = addr % 0x800;
            if self.cpu_bus.read() {
                self.cpu_bus.set_data(self.ram[offset]);
            } else {
                self.ram[offset] = self.cpu_bus.data();
            }
        }
    }

    fn update_vram(&mut self)
        ensures
            final(self).wf() == old(self).wf(),
            final(self)@ == (NesState {
                vram: vram_access(old(self)@.vram, old(self)@.mapper_bus, old(self)@.ppu_bus).0,
                ppu_bus: vram_access(old(self)@.vram, old(self)@.mapper_bus, old(self)@.ppu_bus).1,
                ..old(self)@
            }),
    {
        if !self.mapper_bus.ciram_ce() {
            return ;
        }
        let a10: usize = if self.mapper_bus.ciram_a10() {
            1024
        } else {
            0
        };
        let addr = a10 + self.ppu_bus.address() as usize % 1024;

        if self.ppu_bus.rd() {
            self.ppu_bus.set_data(self.vram[addr]);
        } else if self.ppu_bus.wr() {
            self.vram[addr] = self.ppu_bus.data();
        }
    }

    /// Puts the picture processor's pixel into the frame.
    fn emit_pixel(&mut self)
        ensures
            final(self).wf() == old(self).wf(),
            final(self)@ == (NesState {
                frame: emitted(old(self)@.frame, old(self)@.ppu),
                ..old(self)@
            }),
    {
        let (pixel, x, y) = self.ppu.output();
        if x < 256 && y < 240 {
            self.frame[(y * 256 + x) as usize] = pixel;
        }
    }

    /// A read cycle of the processor: the byte that the bus holds at its end
    /// and the level of NOT_READY.
    pub fn read(&mut self, addr: u16, sync: bool, halt: bool) -> (answer: (u8, bool))
        requires
            old(self).wf(),
        ensures
            final(self).wf(),
            final(self)@ == next_state::<M>(
                old(self)@,
                PinState { address: addr, read: true, sync, halt, ..PinState::idle() },
            ),
            answer == (final(self)@.cpu_bus.data, final(self)@.cpu_bus.not_ready),
    {
        self.cpu_bus.set_sync(sync);
        self.cpu_bus.set_halt(halt);
        self.cpu_bus.set_address(addr);
        self.cpu_bus.set_read(true);
        self.cycle();
        let data = self.cpu_bus.data();
        let not_ready = self.cpu_bus.not_ready();
        (data, not_ready)
    }

    /// A write cycle of the processor.
    pub fn write(&mut self, addr: u16, data: u8)
        requires
            old(self).wf(),
        ensures
            final(self).wf(),
            final(self)@ == next_state::<M>(
                old(self)@,
                PinState { address: addr, data, read: false, ..PinState::idle() },
            ),
    {
        self.cpu_bus.set_address(addr);
        self.cpu_bus.set_data(data);
        self.cpu_bus.set_sync(false);
        self.cpu_bus.set_halt(false);
        self.cpu_bus.set_read(false);
        self.cycle();
    }

    /// Runs the processor until vertical blank begins: until the flag is up
    /// between two instructions where it was down before. It gives up after
    /// [`FRAME_BUDGET`] instructions, as it must for a program that keeps
    /// clearing the flag before an instruction ends. The result tells
    /// whether vertical blank was reached.
    pub fn run_until_vblank(&mut self, cpu: &mut Cpu6502) -> (reached: bool)
        requires
            old(self).wf(),
        ensures
            final(self).wf(),
            (machine(*final(cpu), *final(self)), reached) == run_to_vblank::<M>(
                machine(*old(cpu), *old(self)),
                old(self)@.ppu.vblank,
                FRAME_BUDGET as nat,
            ),
    {
        let mut last_blank = self.ppu.is_vblank();
        let mut budget: u32 = FRAME_BUDGET;
        loop
            invariant_except_break
                run_to_vblank::<M>(machine(*cpu, *self), last_blank, budget as nat)
                    == run_to_vblank::<M>(
                    machine(*old(cpu), *old(self)),
                    old(self)@.ppu.vblank,
                    FRAME_BUDGET as nat,
                ),
            invariant
                self.wf(),
            ensures
                self.wf(),
                (machine(*cpu, *self), budget > 0) == run_to_vblank::<M>(
                    machine(*old(cpu), *old(self)),
                    old(self)@.ppu.vblank,
                    FRAME_BUDGET as nat,
                ) || (budget == 0 && (machine(*cpu, *self), self@.ppu.vblank && !last_blank)
                    == run_to_vblank::<M>(
                    machine(*old(cpu), *old(self)),
                    old(self)@.ppu.vblank,
                    FRAME_BUDGET as nat,
                )),
            decreases budget,
        {
            let blank = self.ppu.is_vblank();
            let pos_edge = blank && !last_blank;
            if pos_edge {
                return true;
            }
            if budget == 0 {
                return false;
            }
            last_blank = blank;
            cpu.exec(self);
            budget = budget - 1;
        }
    }
}

/// For as long as the DMA unit answers the processor's reads with
/// NOT_READY, its budget shrinks: the processor is never held for ever.
pub proof fn lemma_stall<M: Mapper>(s: NesState<M::V>, pins: PinState)
    requires
        pins.read,
    ensures
        reply_pins::<M>(s, pins).not_ready ==> next_state::<M>(s, pins).apu.dma_budget()
            < s.apu.dma_budget(),
{
    reveal(master_cycle);
    reveal(cpu_cycle);
    reveal(ppu_cycle);
    reveal(PpuState::clock);
    let started = NesState {
        cpu_bus: PinState { irq: false, ..driven(s.cpu_bus, pins) },
        ..s
    };
    crate::apu::laws::lemma_dma_budget(s.apu, started.cpu_bus);
    crate::ppu::laws::lemma_registers_drive_data_only(
        s.ppu.do_mem_access(s.ppu_bus).0,
        s.apu.clock(started.cpu_bus).1,
    );
    let first = cpu_cycle::<M>(started);
    assert(first.apu == s.apu.clock(started.cpu_bus).0);
    assert(first.cpu_bus.not_ready == s.apu.clock(started.cpu_bus).1.not_ready);
    let second = ppu_cycle::<M>(first);
    assert(second.apu == first.apu && second.cpu_bus.not_ready == first.cpu_bus.not_ready);
    let third = ppu_cycle::<M>(second);
    assert(third.apu == first.apu && third.cpu_bus.not_ready == first.cpu_bus.not_ready);
}

impl<M: Mapper> Bus6502 for NesBus<M> {
    open spec fn inv(&self) -> bool {
        self.wf()
    }

    open spec fn next(bus: NesState<M::V>, pins: PinState) -> NesState<M::V> {
        next_state::<M>(bus, pins)
    }

    open spec fn reply(bus: NesState<M::V>, pins: PinState) -> PinState {
        reply_pins::<M>(bus, pins)
    }

    open spec fn stall(bus: NesState<M::V>) -> nat {
        bus.apu.dma_budget()
    }

    fn cycle(&mut self, cpu: &mut Cpu6502) {
        let pins = cpu.pins();
        if pins.read() {
            proof {
                lemma_stall::<M>(self@, cpu@.pins);
            }
            let (data, not_ready) = self.read(pins.address(), pins.sync(), pins.halt());
            let pins = cpu.pins_mut();
            pins.set_data(data);
            pins.set_not_ready(not_ready);
        } else {
            self.write(pins.address(), pins.data());
            let not_ready = self.cpu_bus.not_ready();
            cpu.pins_mut().set_not_ready(not_ready);
        }
        let pins = cpu.pins_mut();
        pins.set_irq(self.cpu_bus.irq());
        pins.set_nmi(self.cpu_bus.nmi());
        pins.set_rst(self.cpu_bus.rst());
    }
}

} // verus!
