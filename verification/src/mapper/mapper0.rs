//! Mapper 0: program memory that repeats through the upper half of the
//! processor's address space, character memory in the lower quarter of the
//! picture processor's, and a fixed mirroring.

use vstd::prelude::*;

use super::{steer, steer_video_memory, Bus, Mapper, MapperLines};
use crate::cpu::PinState;
use crate::nesbus::CpuBus;
use crate::ppu::Bus as PpuBus;
use crate::ppu::PpuLines;
use crate::rom::Rom;

verus! {

/// What a mapper 0 cartridge holds.
pub struct Cartridge0 {
    pub prg: Seq<u8>,
    pub chr: Seq<u8>,
    pub vertical_mirroring: bool,
}

impl Cartridge0 {
    /// The cartridge that an image describes.
    pub open spec fn of(rom: Rom) -> Cartridge0 {
        Cartridge0 {
            prg: rom.bytes@.subrange(rom.prg_rom.start as int, rom.prg_rom.end as int),
            chr: rom.bytes@.subrange(rom.chr_rom.start as int, rom.chr_rom.end as int),
            vertical_mirroring: rom.header.vertical_mirroring,
        }
    }

    /// The processor bus after the cartridge saw it: a read from `$8000` up
    /// is answered from program memory, which repeats as often as it fits.
    pub open spec fn cpu_side(self, cpu: PinState) -> PinState {
        if cpu.address >= 0x8000 && cpu.read && self.prg.len() > 0 {
            PinState { data: self.prg[(cpu.address - 0x8000) % (self.prg.len() as int)], ..cpu }
        } else {
            cpu
        }
    }

    /// The picture bus after the cartridge saw it: a read below `$2000` is
    /// answered from character memory.
    pub open spec fn ppu_side(self, ppu: PpuLines) -> PpuLines {
        if ppu.addr < 0x2000 && ppu.rd && ppu.addr < self.chr.len() {
            PpuLines { data: self.chr[ppu.addr as int], ..ppu }
        } else {
            ppu
        }
    }
}

/// A mapper 0 cartridge.
pub struct Mapper0 {
    rom: Rom,
}

impl View for Mapper0 {
    type V = Cartridge0;

    closed spec fn view(&self) -> Cartridge0 {
        Cartridge0::of(self.rom)
    }
}

impl Mapper0 {
    /// The cartridge that `rom` describes.
    pub fn new(rom: Rom) -> (mapper: Self)
        requires
            rom.wf(),
        ensures
            mapper.inv(),
            mapper@ == Cartridge0::of(rom),
    {
        Self { rom }
    }

    fn handle_cpu(&mut self, cpu: &mut CpuBus)
        requires
            old(self).inv(),
        ensures
            final(self).inv(),
            final(self)@ == old(self)@,
            final(cpu)@ == old(self)@.cpu_side(old(cpu)@),
    {
        let addr = cpu.address() as usize;
        if addr < 0x8000 || !cpu.read() {
            return ;
        }
        let len = self.rom.prg_rom.end - self.rom.prg_rom.start;
        if len == 0 {
            return ;
        }
        let offset = (addr - 0x8000) % len;
        cpu.set_data(self.rom.bytes[self.rom.prg_rom.start + offset]);
    }

    fn handle_ppu(&mut self, bus: &mut Bus, ppu: &mut PpuBus)
        requires
            old(self).inv(),
        ensures
            final(self).inv(),
            final(self)@ == old(self)@,
            final(bus)@ == steer(old(self)@.vertical_mirroring, old(ppu)@.addr),
            final(ppu)@ == old(self)@.ppu_side(old(ppu)@),
    {
        let addr = ppu.address();
        steer_video_memory(bus, self.rom.header.vertical_mirroring, addr);
        let offset = addr as usize;
        if addr < 0x2000 && ppu.rd() && offset < self.rom.chr_rom.end - self.rom.chr_rom.start {
            ppu.set_data(self.rom.bytes[self.rom.chr_rom.start + offset]);
        }
    }
}

impl Mapper for Mapper0 {
    closed spec fn inv(&self) -> bool {
        self.rom.wf()
    }

    open spec fn with_cpu(cart: Cartridge0, bus: MapperLines, cpu: PinState, ppu: PpuLines) -> (
        Cartridge0,
        MapperLines,
        PinState,
        PpuLines,
    ) {
        (cart, steer(cart.vertical_mirroring, ppu.addr), cart.cpu_side(cpu), cart.ppu_side(ppu))
    }

    open spec fn with_ppu(cart: Cartridge0, bus: MapperLines, ppu: PpuLines) -> (
        Cartridge0,
        MapperLines,
        PpuLines,
    ) {
        (cart, steer(cart.vertical_mirroring, ppu.addr), cart.ppu_side(ppu))
    }

    fn clock_with_cpu(&mut self, bus: &mut Bus, cpu: &mut CpuBus, ppu: &mut PpuBus) {
        self.handle_cpu(cpu);
        self.handle_ppu(bus, ppu);
    }

    fn clock_with_ppu(&mut self, bus: &mut Bus, ppu: &mut PpuBus) {
        self.handle_ppu(bus, ppu);
    }
}

} // verus!
