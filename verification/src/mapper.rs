//! The cartridge side of the machine: the lines a mapper drives besides the
//! two buses, and what every mapper has to provide.

use vstd::prelude::*;

use self::mapper0::{Cartridge0, Mapper0};
use self::mapper2::{Cartridge2, Mapper2};
use crate::cpu::PinState;
use crate::nesbus::CpuBus;
use crate::ppu::Bus as PpuBus;
use crate::ppu::PpuLines;
use crate::rom::{ConsoleType, Header, Rom, RomErr};
use crate::util::{
    bit_u8, get_flag_u8, lemma_bit_with_bit_u8, lemma_no_bit_in_zero, set_flag_u8,
};

pub mod mapper0;
pub mod mapper2;
pub mod nrom;

verus! {

broadcast use lemma_bit_with_bit_u8;

const CIRAM_A10: u8 = 0;
const CIRAM_CE: u8 = 1;

/// The lines by which the cartridge steers the console's video memory:
/// address line 10 and the chip enable.
pub struct MapperLines {
    pub ciram_a10: bool,
    pub ciram_ce: bool,
}

/// The lines from the cartridge to the console's video memory.
#[derive(Copy, Clone, Debug, PartialEq, Eq)]
pub struct Bus {
    flags: u8,
}

/// The levels that the byte of a [`Bus`] stands for.
#[verifier::opaque]
spec fn mapper_lines(bus: Bus) -> MapperLines {
    MapperLines { ciram_a10: bit_u8(bus.flags, CIRAM_A10), ciram_ce: bit_u8(bus.flags, CIRAM_CE) }
}

impl View for Bus {
    type V = MapperLines;

    closed spec fn view(&self) -> MapperLines {
        mapper_lines(*self)
    }
}

impl Bus {
    /// Both lines low.
    pub fn new() -> (bus: Self)
        ensures
            bus@ == (MapperLines { ciram_a10: false, ciram_ce: false }),
    {
        proof {
            reveal(mapper_lines);
            lemma_no_bit_in_zero();
        }
        Self { flags: 0 }
    }

    /// Level of the video memory address line 10.
    pub fn ciram_a10(self) -> (level: bool)
        ensures
            level == self@.ciram_a10,
    {
        proof {
            reveal(mapper_lines);
        }
        get_flag_u8(self.flags, CIRAM_A10)
    }

    /// Level of the video memory enable line.
    pub fn ciram_ce(self) -> (level: bool)
        ensures
            level == self@.ciram_ce,
    {
        proof {
            reveal(mapper_lines);
        }
        get_flag_u8(self.flags, CIRAM_CE)
    }

    /// Drives the video memory address line 10.
    pub fn set_ciram_a10(&mut self, to: bool)
        ensures
            final(self)@ == (MapperLines { ciram_a10: to, ..old(self)@ }),
    {
        proof {
            reveal(mapper_lines);
        }
        set_flag_u8(&mut self.flags, CIRAM_A10, to)
    }

    /// Drives the video memory enable line.
    pub fn set_ciram_ce(&mut self, to: bool)
        ensures
            final(self)@ == (MapperLines { ciram_ce: to, ..old(self)@ }),
    {
        proof {
            reveal(mapper_lines);
        }
        set_flag_u8(&mut self.flags, CIRAM_CE, to)
    }
}

/// The level of video memory address line 10 for a picture bus address:
/// with vertical mirroring it follows address bit 10, with horizontal
/// mirroring address bit 11.
pub open spec fn mirroring_a10(vertical: bool, addr: u16) -> bool {
    if vertical {
        (addr / 1024) % 2 == 1
    } else {
        (addr / 2048) % 2 == 1
    }
}

/// Whether a picture bus address selects the console's video memory.
pub open spec fn nametable_selected(addr: u16) -> bool {
    0x2000 <= addr < 0x3000
}

/// The lines that a cartridge with fixed mirroring drives for a picture bus
/// address.
pub open spec fn steer(vertical: bool, addr: u16) -> MapperLines {
    MapperLines { ciram_a10: mirroring_a10(vertical, addr), ciram_ce: nametable_selected(addr) }
}

/// Drives the video memory lines for the address on the picture bus.
pub fn steer_video_memory(bus: &mut Bus, vertical: bool, addr: u16)
    ensures
        final(bus)@ == steer(vertical, addr),
{
    let a10 = (addr / 1024) % 2 == 1;
    let a11 = (addr / 2048) % 2 == 1;
    bus.set_ciram_a10(if vertical {
        a10
    } else {
        a11
    });
    bus.set_ciram_ce(0x2000 <= addr && addr < 0x3000);
}

/// What a cartridge provides. It sees every processor cycle together with
/// the picture dot that coincides with it, and the two picture dots in
/// between on their own.
///
/// A cartridge is described by its view: the two spec functions say what a
/// cycle does to it and to the lines it is wired to.
pub trait Mapper: View + Sized {
    /// What the cartridge needs to hold between cycles.
    spec fn inv(&self) -> bool;

    /// The cartridge and the three buses after a processor cycle.
    spec fn with_cpu(cart: Self::V, bus: MapperLines, cpu: PinState, ppu: PpuLines) -> (
        Self::V,
        MapperLines,
        PinState,
        PpuLines,
    );

    /// The cartridge and the two buses after a picture dot without a
    /// processor cycle.
    spec fn with_ppu(cart: Self::V, bus: MapperLines, ppu: PpuLines) -> (
        Self::V,
        MapperLines,
        PpuLines,
    );

    /// One processor cycle, with the picture dot that coincides with it.
    fn clock_with_cpu(&mut self, bus: &mut Bus, cpu: &mut CpuBus, ppu: &mut PpuBus)
        requires
            old(self).inv(),
        ensures
            final(self).inv(),
            (final(self)@, final(bus)@, final(cpu)@, final(ppu)@) == Self::with_cpu(
                old(self)@,
                old(bus)@,
                old(cpu)@,
                old(ppu)@,
            ),
    ;

    /// One picture dot without a processor cycle.
    fn clock_with_ppu(&mut self, bus: &mut Bus, ppu: &mut PpuBus)
        requires
            old(self).inv(),
        ensures
            final(self).inv(),
            (final(self)@, final(bus)@, final(ppu)@) == Self::with_ppu(
                old(self)@,
                old(bus)@,
                old(ppu)@,
            ),
    ;
}

/// The view of whichever cartridge a [`DynMapper`] holds.
pub enum DynCartridge {
    Nrom(Cartridge0),
    Uxrom(Cartridge2),
}

/// A cartridge of any supported kind: mapper 0 or mapper 2.
pub enum DynMapper {
    Nrom(Mapper0),
    Uxrom(Mapper2),
}

impl View for DynMapper {
    type V = DynCartridge;

    open spec fn view(&self) -> DynCartridge {
        match self {
            DynMapper::Nrom(mapper) => DynCartridge::Nrom(mapper@),
            DynMapper::Uxrom(mapper) => DynCartridge::Uxrom(mapper@),
        }
    }
}

impl Mapper for DynMapper {
    open spec fn inv(&self) -> bool {
        match self {
            DynMapper::Nrom(mapper) => mapper.inv(),
            DynMapper::Uxrom(mapper) => mapper.inv(),
        }
    }

    open spec fn with_cpu(cart: DynCartridge, bus: MapperLines, cpu: PinState, ppu: PpuLines) -> (
        DynCartridge,
        MapperLines,
        PinState,
        PpuLines,
    ) {
        match cart {
            DynCartridge::Nrom(cart) => {
                let (cart, bus, cpu, ppu) = Mapper0::with_cpu(cart, bus, cpu, ppu);
                (DynCartridge::Nrom(cart), bus, cpu, ppu)
            },
            DynCartridge::Uxrom(cart) => {
                let (cart, bus, cpu, ppu) = Mapper2::with_cpu(cart, bus, cpu, ppu);
                (DynCartridge::Uxrom(cart), bus, cpu, ppu)
            },
        }
    }

    open spec fn with_ppu(cart: DynCartridge, bus: MapperLines, ppu: PpuLines) -> (
        DynCartridge,
        MapperLines,
        PpuLines,
    ) {
        match cart {
            DynCartridge::Nrom(cart) => {
                let (cart, bus, ppu) = Mapper0::with_ppu(cart, bus, ppu);
                (DynCartridge::Nrom(cart), bus, ppu)
            },
            DynCartridge::Uxrom(cart) => {
                let (cart, bus, ppu) = Mapper2::with_ppu(cart, bus, ppu);
                (DynCartridge::Uxrom(cart), bus, ppu)
            },
        }
    }

    fn clock_with_cpu(&mut self, bus: &mut Bus, cpu: &mut CpuBus, ppu: &mut PpuBus) {
        match self {
            DynMapper::Nrom(mapper) => mapper.clock_with_cpu(bus, cpu, ppu),
            DynMapper::Uxrom(mapper) => mapper.clock_with_cpu(bus, cpu, ppu),
        }
    }

    fn clock_with_ppu(&mut self, bus: &mut Bus, ppu: &mut PpuBus) {
        match self {
            DynMapper::Nrom(mapper) => mapper.clock_with_ppu(bus, ppu),
            DynMapper::Uxrom(mapper) => mapper.clock_with_ppu(bus, ppu),
        }
    }
}

/// Whether the core emulates a cartridge with this header: a plain console
/// with mapper 0 or 2.
pub open spec fn supported(header: Header) -> Result<(), RomErr> {
    if !(header.console_type is Nes) {
        Err(RomErr::WrongConsoleType)
    } else if header.mapper != 0 && header.mapper != 2 {
        Err(RomErr::UnsupportedMapper(header.mapper))
    } else {
        Ok(())
    }
}

/// Builds the mapper that the header of `rom` asks for. A cartridge for
/// another console is turned down, and so is one with a mapper other than
/// 0 and 2.
pub fn get_mapper(rom: Rom) -> (result: Result<DynMapper, RomErr>)
    requires
        rom.wf(),
    ensures
        match supported(rom.header) {
            Err(e) => result == Err::<DynMapper, RomErr>(e),
            Ok(()) => result is Ok && result->Ok_0.inv() && (if rom.header.mapper == 0 {
                result->Ok_0@ == DynCartridge::Nrom(Cartridge0::of(rom))
            } else {
                result->Ok_0@ == DynCartridge::Uxrom(Cartridge2::of(rom))
            }),
        },
{
    match rom.header.console_type {
        ConsoleType::Nes => {},
        _ => {
            return Err(RomErr::WrongConsoleType);
        },
    }
    if rom.header.mapper == 0 {
        Ok(DynMapper::Nrom(Mapper0::new(rom)))
    } else if rom.header.mapper == 2 {
        Ok(DynMapper::Uxrom(Mapper2::new(&rom)))
    } else {
        Err(RomErr::UnsupportedMapper(rom.header.mapper))
    }
}

} // verus!
