//! Program memory wired straight to the processor's pins: the smallest bus
//! a 6502 can run on.

use vstd::prelude::*;

use crate::cpu::{Bus6502, Cpu6502, CpuPins, PinState};
use crate::rom::Rom;

verus! {

/// Program memory that answers reads from `$8000` up and nothing else.
pub struct NRom {
    prg: Vec<u8>,
}

impl View for NRom {
    type V = Seq<u8>;

    closed spec fn view(&self) -> Seq<u8> {
        self.prg@
    }
}

/// Where in program memory of length `len` an address from `$8000` up
/// lands: program memory repeats as often as it fits.
pub open spec fn prg_offset(address: int, len: int) -> int
    recommends
        address >= 0x8000,
        len > 0,
{
    (address - 0x8000) % len
}

/// The pins after program memory saw them: a read from `$8000` up is
/// answered.
pub open spec fn answered(prg: Seq<u8>, pins: PinState) -> PinState {
    if pins.address >= 0x8000 && pins.read && prg.len() > 0 {
        PinState { data: prg[prg_offset(pins.address as int, prg.len() as int)], ..pins }
    } else {
        pins
    }
}

impl NRom {
    /// The program memory of `rom`.
    pub fn new(rom: &Rom) -> (nrom: Self)
        requires
            rom.wf(),
        ensures
            nrom@ == rom.bytes@.subrange(rom.prg_rom.start as int, rom.prg_rom.end as int),
    {
        let mut prg: Vec<u8> = Vec::new();
        let mut i: usize = rom.prg_rom.start;
        while i < rom.prg_rom.end
            invariant
                rom.wf(),
                rom.prg_rom.start <= i <= rom.prg_rom.end,
                prg@ == rom.bytes@.subrange(rom.prg_rom.start as int, i as int),
            decreases rom.prg_rom.end - i,
        {
            prg.push(rom.bytes[i]);
            i += 1;
            assert(prg@ =~= rom.bytes@.subrange(rom.prg_rom.start as int, i as int));
        }
        Self { prg }
    }

    /// Answers a read from `$8000` up.
    pub fn handle_cpu(&self, cpu: &mut CpuPins)
        ensures
            final(cpu)@ == answered(self@, old(cpu)@),
    {
        let address = cpu.address() as usize;
        if address < 0x8000 || self.prg.len() == 0 {
            return ;
        }
        let address = (address - 0x8000) % self.prg.len();

        if cpu.read() {
            cpu.set_data(self.prg[address]);
        }
    }

    /// Replaces the byte that the processor sees at `address`. Addresses
    /// below `$8000` hold no program memory and are left alone.
    pub fn overwrite(&mut self, address: usize, value: u8)
        ensures
            final(self)@ == (if address >= 0x8000 && old(self)@.len() > 0 {
                old(self)@.update(prg_offset(address as int, old(self)@.len() as int), value)
            } else {
                old(self)@
            }),
    {
        if address < 0x8000 || self.prg.len() == 0 {
            return ;
        }
        let address = (address - 0x8000) % self.prg.len();

        self.prg[address] = value;
    }
}

impl Bus6502 for NRom {
    open spec fn inv(&self) -> bool {
        true
    }

    open spec fn next(bus: Seq<u8>, pins: PinState) -> Seq<u8> {
        bus
    }

    open spec fn reply(bus: Seq<u8>, pins: PinState) -> PinState {
        PinState { not_ready: false, ..answered(bus, pins) }
    }

    open spec fn stall(bus: Seq<u8>) -> nat {
        0
    }

    fn cycle(&mut self, cpu: &mut Cpu6502) {
        let mut pins = cpu.pins();
        self.handle_cpu(&mut pins);
        pins.set_not_ready(false);
        *cpu.pins_mut() = pins;
    }
}

} // verus!
