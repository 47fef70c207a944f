//! Mapper 2: program memory in banks of 16 KiB, the lower window switched
//! by writes, the upper window fixed to the last bank; character memory is
//! RAM.

use vstd::prelude::*;

use super::{steer, steer_video_memory, Bus, Mapper, MapperLines};
use crate::cpu::PinState;
use crate::nesbus::CpuBus;
use crate::ppu::Bus as PpuBus;
use crate::ppu::PpuLines;
use crate::rom::Rom;

verus! {

/// Bytes in one bank of program memory.
pub const BANK_SIZE: usize = 16384;

/// What a mapper 2 cartridge holds.
pub struct Cartridge2 {
    pub prg: Seq<u8>,
    pub chr: Seq<u8>,
    pub banks: u8,
    pub bank: u8,
    pub vertical_mirror: bool,
    pub bank_conflicts: bool,
}

/// The number of whole banks in `len` bytes, at most 255.
pub open spec fn bank_count(len: nat) -> u8 {
    if len / 16384 > 255 {
        255
    } else {
        (len / 16384) as u8
    }
}

/// The size of character RAM that a header declares; a header that
/// declares none gets the customary 8 KiB.
pub open spec fn chr_ram_len(rom: Rom) -> nat {
    if rom.header.chr_ram_size == 0 {
        8192
    } else {
        rom.header.chr_ram_size as nat
    }
}

impl Cartridge2 {
    /// The cartridge that an image describes, as it is when power comes on:
    /// bank 0 selected, character RAM cleared. Submapper 2 has bus
    /// conflicts.
    pub open spec fn of(rom: Rom) -> Cartridge2 {
        Cartridge2 {
            prg: rom.bytes@.subrange(rom.prg_rom.start as int, rom.prg_rom.end as int),
            chr: Seq::new(chr_ram_len(rom), |i: int| 0u8),
            banks: bank_count((rom.prg_rom.end - rom.prg_rom.start) as nat),
            bank: 0,
            vertical_mirror: rom.header.vertical_mirroring,
            bank_conflicts: rom.header.submapper == 2,
        }
    }

    /// Whether the banks counted are all there.
    pub open spec fn wf(self) -> bool {
        self.banks * 16384 <= self.prg.len()
    }

    /// Where in program memory a processor address from `$8000` up lands:
    /// the upper window shows the last bank, the lower window the selected
    /// one, counted modulo the number of banks.
    pub open spec fn prg_index(self, addr: u16) -> int
        recommends
            self.banks > 0,
    {
        (if addr >= 0xC000 {
            self.banks - 1
        } else {
            self.bank as int % self.banks as int
        }) * 16384 + addr % 16384
    }

    /// The cartridge after the processor cycle: a write from `$8000` up
    /// selects the bank, after an AND with the byte in program memory where
    /// the cartridge has bus conflicts.
    pub open spec fn after_cpu(self, cpu: PinState) -> Cartridge2 {
        if cpu.address >= 0x8000 && !cpu.read && self.banks > 0 {
            Cartridge2 {
                bank: if self.bank_conflicts {
                    self.prg[self.prg_index(cpu.address)] & cpu.data
                } else {
                    cpu.data
                },
                ..self
            }
        } else {
            self
        }
    }

    /// The processor bus after the cartridge saw it: a read from `$8000` up
    /// is answered from program memory.
    pub open spec fn cpu_side(self, cpu: PinState) -> PinState {
        if cpu.address >= 0x8000 && cpu.read && self.banks > 0 {
            PinState { data: self.prg[self.prg_index(cpu.address)], ..cpu }
        } else {
            cpu
        }
    }

    /// Character RAM after the picture dot: a write below `$2000` is taken.
    pub open spec fn after_ppu(self, ppu: PpuLines) -> Cartridge2 {
        if ppu.addr < 0x2000 && ppu.addr < self.chr.len() && ppu.wr && !ppu.rd {
            Cartridge2 { chr: self.chr.update(ppu.addr as int, ppu.data), ..self }
        } else {
            self
        }
    }

    /// The picture bus after the cartridge saw it: a read below `$2000` is
    /// answered from character RAM.
    pub open spec fn ppu_side(self, ppu: PpuLines) -> PpuLines {
        if ppu.addr < 0x2000 && ppu.addr < self.chr.len() && ppu.rd {
            PpuLines { data: self.chr[ppu.addr as int], ..ppu }
        } else {
            ppu
        }
    }
}

/// A mapper 2 cartridge.
pub struct Mapper2 {
    prg: Vec<u8>,
    chr: Vec<u8>,
    banks: u8,
    bank: u8,
    vertical_mirror: bool,
    bank_conflicts: bool,
}

impl View for Mapper2 {
    type V = Cartridge2;

    closed spec fn view(&self) -> Cartridge2 {
        Cartridge2 {
            prg: self.prg@,
            chr: self.chr@,
            banks: self.banks,
            bank: self.bank,
            vertical_mirror: self.vertical_mirror,
            bank_conflicts: self.bank_conflicts,
        }
    }
}

impl Mapper2 {
    /// The cartridge that `rom` describes.
    pub fn new(rom: &Rom) -> (mapper: Self)
        requires
            rom.wf(),
        ensures
            mapper.inv(),
            mapper@ == Cartridge2::of(*rom),
    {
        let len = rom.prg_rom.end - rom.prg_rom.start;
        let banks: u8 = if len / BANK_SIZE > 255 {
            255
        } else {
            (len / BANK_SIZE) as u8
        };
        let bank: u8 = 0;

        let bank_conflicts = rom.header.submapper == 2;

        let mut prg: Vec<u8> = Vec::new();
        let mut i: usize = rom.prg_rom.start;
        while i < rom.prg_rom.end
            invariant
                rom.wf(),
                rom.prg_rom.start <= i <= rom.prg_rom.end,
                prg@ == rom.bytes@.subrange(rom.prg_rom.start as int, i as int),
            decreases rom.prg_rom.end - i,
        {
            prg.push(rom.bytes[i]);
            i += 1;
            assert(prg@ =~= rom.bytes@.subrange(rom.prg_rom.start as int, i as int));
        }

        let chr_len: u32 = if rom.header.chr_ram_size == 0 {
            8192
        } else {
            rom.header.chr_ram_size
        };
        let mut chr: Vec<u8> = Vec::new();
        let mut k: u32 = 0;
        while k < chr_len
            invariant
                k <= chr_len,
                chr@ == Seq::new(k as nat, |i: int| 0u8),
            decreases chr_len - k,
        {
            chr.push(0);
            k += 1;
            assert(chr@ =~= Seq::new(k as nat, |i: int| 0u8));
        }

        Self {
            prg,
            chr,
            banks,
            bank,
            vertical_mirror: rom.header.vertical_mirroring,
            bank_conflicts,
        }
    }

    fn handle_cpu(&mut self, cpu: &mut CpuBus)
        requires
            old(self).inv(),
        ensures
            final(self).inv(),
            final(self)@ == old(self)@.after_cpu(old(cpu)@),
            final(cpu)@ == old(self)@.cpu_side(old(cpu)@),
    {
        if cpu.address() < 0x8000 || self.banks == 0 {
            return ;
        }
        if cpu.read() {
            let addr = self.prg_rom_address(cpu.address());
            cpu.set_data(self.prg[addr]);
        } else {
            if self.bank_conflicts {
                let addr = self.prg_rom_address(cpu.address());
                let rom_data = self.prg[addr];
                self.bank = rom_data & cpu.data();
            } else {
                self.bank = cpu.data();
            }
        }
    }

    fn handle_ppu(&mut self, bus: &mut Bus, ppu: &mut PpuBus)
        requires
            old(self).inv(),
        ensures
            final(self).inv(),
            final(self)@ == old(self)@.after_ppu(old(ppu)@),
            final(bus)@ == steer(old(self)@.vertical_mirror, old(ppu)@.addr),
            final(ppu)@ == old(self)@.ppu_side(old(ppu)@),
    {
        let addr = ppu.address();
        if addr < 0x2000 && (addr as usize) < self.chr.len() {
            if ppu.rd() {
                ppu.set_data(self.chr[addr as usize]);
            } else if ppu.wr() {
                self.chr[addr as usize] = ppu.data();
            }
        }
        steer_video_memory(bus, self.vertical_mirror, addr);
    }

    fn prg_rom_address(&self, addr: u16) -> (index: usize)
        requires
            self.inv(),
            self@.banks > 0,
        ensures
            index == self@.prg_index(addr),
            index < self@.prg.len(),
    {
        let high = addr >= 0xC000;
        let offset = addr as usize % BANK_SIZE;

        let bank = if high {
            self.banks - 1
        } else {
            self.bank % self.banks
        };
        let bank_start = (bank as usize) * BANK_SIZE;

        bank_start + offset
    }
}

impl Mapper for Mapper2 {
    closed spec fn inv(&self) -> bool {
        self@.wf()
    }

    open spec fn with_cpu(cart: Cartridge2, bus: MapperLines, cpu: PinState, ppu: PpuLines) -> (
        Cartridge2,
        MapperLines,
        PinState,
        PpuLines,
    ) {
        let selected = cart.after_cpu(cpu);
        (
            selected.after_ppu(ppu),
            steer(cart.vertical_mirror, ppu.addr),
            cart.cpu_side(cpu),
            selected.ppu_side(ppu),
        )
    }

    open spec fn with_ppu(cart: Cartridge2, bus: MapperLines, ppu: PpuLines) -> (
        Cartridge2,
        MapperLines,
        PpuLines,
    ) {
        (cart.after_ppu(ppu), steer(cart.vertical_mirror, ppu.addr), cart.ppu_side(ppu))
    }

    fn clock_with_cpu(&mut self, bus: &mut Bus, cpu: &mut CpuBus, ppu: &mut PpuBus) {
        self.handle_cpu(cpu);
        self.handle_ppu(bus, ppu);
    }

    fn clock_with_ppu(&mut self, bus: &mut Bus, ppu: &mut PpuBus) {
        self.handle_ppu(bus, ppu);
    }
}

} // verus!
