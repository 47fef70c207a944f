//! The console as a whole, and the bus lines as the units that work at the
//! pace of the master clock see them.

use vstd::prelude::*;

use crate::cpu::model::{exec, CpuState};
use crate::cpu::{machine, Cpu6502};
use crate::mapper::{DynMapper, Mapper};
use crate::nesbus::{run_to_vblank, NesBus, FRAME_BUDGET};
use crate::apu::{ApuState, Controller};
use crate::ppu::model::PpuState;

verus! {

/// The lines of the processor bus at one tick of the master clock.
#[derive(Copy, Clone, Debug, PartialEq, Eq, Structural)]
pub struct NesLines {
    /// The processor's clock output: high in the second half of its cycle.
    pub cpu_m2: bool,
    pub cpu_address: u16,
    pub cpu_data: u8,
    /// Whether the processor reads.
    pub cpu_read: bool,
    /// Whether the processor has stopped for a DMA.
    pub cpu_halted: bool,
    /// Whether the sprite DMA unit asks the processor to stop.
    pub oam_dma_halts_cpu: bool,
    /// Whether the sprite DMA unit drives a write.
    pub oam_dma_writes: bool,
}

impl NesLines {
    /// Whether the cycle under way is a read for everybody: the processor
    /// reads and the DMA unit does not write.
    pub open spec fn spec_everyone_reads_cpu_bus(&self) -> bool {
        self.cpu_read && !self.oam_dma_writes
    }

    /// All lines low but for the read line.
    pub fn new() -> (lines: Self)
        ensures
            lines == (NesLines {
                cpu_m2: false,
                cpu_address: 0,
                cpu_data: 0,
                cpu_read: true,
                cpu_halted: false,
                oam_dma_halts_cpu: false,
                oam_dma_writes: false,
            }),
    {
        Self {
            cpu_m2: false,
            cpu_address: 0,
            cpu_data: 0,
            cpu_read: true,
            cpu_halted: false,
            oam_dma_halts_cpu: false,
            oam_dma_writes: false,
        }
    }

    /// Whether the cycle under way is a read for everybody.
    #[verifier::when_used_as_spec(spec_everyone_reads_cpu_bus)]
    pub fn everyone_reads_cpu_bus(&self) -> (reads: bool)
        ensures
            reads == self.spec_everyone_reads_cpu_bus(),
    {
        self.cpu_read && !self.oam_dma_writes
    }
}

/// A console: the processor and the bus with everything else on it.
pub struct Nes {
    pub cpu: Cpu6502,
    pub bus: NesBus<DynMapper>,
}

impl Nes {
    /// A console at power-on around the given cartridge, with a black frame
    /// and no button held.
    pub fn new(mapper: DynMapper) -> (nes: Self)
        requires
            mapper.inv(),
        ensures
            nes.bus.wf(),
            nes.cpu@ == CpuState::power_on(),
            nes.bus@.cycle == 0,
            nes.bus@.apu == ApuState::power_on(),
            nes.bus@.ppu == PpuState::power_on(),
            nes.bus@.mapper == mapper@,
    {
        Self { cpu: Cpu6502::init(), bus: NesBus::new(mapper, [0; 61440], [Controller::new(); 2]) }
    }

    /// Executes one instruction.
    pub fn clock(&mut self)
        requires
            old(self).bus.wf(),
        ensures
            final(self).bus.wf(),
            machine(final(self).cpu, final(self).bus) == exec::<NesBus<DynMapper>>(
                machine(old(self).cpu, old(self).bus),
            ),
    {
        self.cpu.exec(&mut self.bus);
    }

    /// Runs until vertical blank begins; see [`NesBus::run_until_vblank`].
    pub fn run_frame(&mut self) -> (reached: bool)
        requires
            old(self).bus.wf(),
        ensures
            final(self).bus.wf(),
            (machine(final(self).cpu, final(self).bus), reached) == run_to_vblank::<DynMapper>(
                machine(old(self).cpu, old(self).bus),
                old(self).bus@.ppu.vblank,
                FRAME_BUDGET as nat,
            ),
    {
        self.bus.run_until_vblank(&mut self.cpu)
    }
}

} // verus!
