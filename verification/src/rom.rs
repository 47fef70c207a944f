//! Cartridge images in the iNES and NES 2.0 formats: the sixteen-byte header
//! and the sections that follow it.

use std::ops::Range;
use vstd::prelude::*;

verus! {

/// A cartridge image together with the places of its sections.
#[derive(Debug)]
pub struct Rom {
    pub bytes: Vec<u8>,
    pub header: Header,
    pub trainer: Range<usize>,
    pub prg_rom: Range<usize>,
    pub chr_rom: Range<usize>,
    pub msc_rom: Range<usize>,
}

/// What the header of a cartridge image declares.
#[derive(Copy, Clone, Debug)]
pub struct Header {
    pub nes2: bool,
    pub prg_rom_size: u64,
    pub prg_ram_size: u32,
    pub prg_nvram_size: u32,
    pub chr_rom_size: u64,
    pub chr_ram_size: u32,
    pub chr_nvram_size: u32,
    pub mapper: u16,
    pub submapper: u8,
    pub vertical_mirroring: bool,
    pub battery_present: bool,
    pub trainer_present: bool,
    pub four_screen_mode: bool,
    pub console_type: ConsoleType,
    pub timing: Timing,
    pub misc_roms: u8,
}

/// The console a cartridge was made for.
#[derive(Copy, Clone, Debug)]
pub enum ConsoleType {
    Nes,
    Vs(VsPpu, VsHardware),
    Playchoice,
    Famiclone,
    NesEPSM,
    VT01,
    VT02,
    VT03,
    VT09,
    VT32,
    VT369,
    UMC,
    FamicomNetworkSystem,
}

/// The picture processor of a Vs. System board.
#[allow(non_camel_case_types)]
#[derive(Copy, Clone, Debug)]
pub enum VsPpu {
    RP2C03B,
    RP2C03G,
    RP2C04_0001,
    RP2C04_0002,
    RP2C04_0003,
    RP2C04_0004,
    RC2C03B,
    RC2C03C,
    RC2C05_01,
    RC2C05_02,
    RC2C05_03,
    RC2C05_04,
    RC2C05_05,
}

/// The kind of a Vs. System board.
#[derive(Copy, Clone, Debug)]
pub enum VsHardware {
    Uni,
    UniRBI,
    UniTKO,
    UniSuperXevious,
    UniIceClimber,
    Dual,
    DualRaidOnBungelingBay,
}

/// The television system a cartridge expects.
#[derive(Copy, Clone, Debug)]
pub enum Timing {
    Ntsc,
    Pal,
    Multi,
    Dendy,
}

/// Why a cartridge image was turned down.
#[derive(Copy, Clone, Debug, PartialEq, Eq, Structural)]
pub enum RomErr {
    /// The image is shorter than the sixteen bytes of a header.
    HeaderIncomplete,
    /// The image does not start with `'N' 'E' 'S' 0x1A`.
    WrongMagicNumber,
    /// The header names a console type that does not exist, or one that the
    /// core does not emulate.
    WrongConsoleType,
    /// The image ends within the trainer.
    TrainerIncomplete,
    /// The image ends within the program memory.
    PrgRomIncomplete,
    /// The image ends within the character memory.
    ChrRomIncomplete,
    /// The header asks for a mapper other than 0 and 2.
    UnsupportedMapper(u16),
}

impl RomErr {
    /// A sentence that says what is wrong with the image.
    pub open spec fn message_text(self) -> Seq<char> {
        match self {
            Self::HeaderIncomplete => "the rom is too small to fit the full INES header"@,
            Self::WrongMagicNumber => {
                "the rom does not start with the INes magic number 'NES', 0x1A"@
            },
            Self::WrongConsoleType => "the rom specifies an invalid or unsupported console type"@,
            Self::TrainerIncomplete => {
                "the rom is smaller than specified by the header, starting within the trainer"@
            },
            Self::PrgRomIncomplete => {
                "the rom is smaller than specified by the header, starting within the program rom"@
            },
            Self::ChrRomIncomplete => {
                "the rom is smaller than specified by the header, starting within the character rom"@
            },
            Self::UnsupportedMapper(_) => "the rom needs a mapper that is not supported"@,
        }
    }

    /// That sentence as text.
    pub fn message(&self) -> (text: &'static str)
        ensures
            text@ == self.message_text(),
    {
        match self {
            Self::HeaderIncomplete => "the rom is too small to fit the full INES header",
            Self::WrongMagicNumber => {
                "the rom does not start with the INes magic number 'NES', 0x1A"
            },
            Self::WrongConsoleType => "the rom specifies an invalid or unsupported console type",
            Self::TrainerIncomplete => {
                "the rom is smaller than specified by the header, starting within the trainer"
            },
            Self::PrgRomIncomplete => {
                "the rom is smaller than specified by the header, starting within the program rom"
            },
            Self::ChrRomIncomplete => {
                "the rom is smaller than specified by the header, starting within the character rom"
            },
            Self::UnsupportedMapper(_) => "the rom needs a mapper that is not supported",
        }
    }
}

/// Two to the power `n`.
pub open spec fn two_to(n: nat) -> nat
    decreases n,
{
    if n == 0 {
        1
    } else {
        2 * two_to((n - 1) as nat)
    }
}

/// The size in bytes that a pair of size bytes declares, counted in `unit`s.
/// A high nibble of fifteen switches to the exponent form: the low byte then
/// holds an exponent in its upper six bits and a multiplier in its lower two.
pub open spec fn declared_size(low: u8, high: u8, unit: nat) -> nat {
    if high < 15 {
        (low as nat + 256 * high as nat) * unit
    } else {
        two_to((low / 4) as nat) * (2 * (low % 4) as nat + 1)
    }
}

/// `size`, or the largest `u64` if it does not fit.
pub open spec fn saturated(size: nat) -> u64 {
    if size > u64::MAX {
        u64::MAX
    } else {
        size as u64
    }
}

/// The number of bytes that a RAM shift count declares: none for zero, else
/// 64 shifted left by the count.
pub open spec fn ram_size(shift_count: u8) -> nat {
    if shift_count == 0 {
        0
    } else {
        64 * two_to(shift_count as nat)
    }
}

/// The picture processor that the low nibble of byte 13 names on a Vs.
/// System cartridge.
pub open spec fn vs_ppu(nibble: u8) -> Option<VsPpu> {
    match nibble {
        0 => Some(VsPpu::RP2C03B),
        1 => Some(VsPpu::RP2C03G),
        2 => Some(VsPpu::RP2C04_0001),
        3 => Some(VsPpu::RP2C04_0002),
        4 => Some(VsPpu::RP2C04_0003),
        5 => Some(VsPpu::RP2C04_0004),
        6 => Some(VsPpu::RC2C03B),
        7 => Some(VsPpu::RC2C03C),
        8 => Some(VsPpu::RC2C05_01),
        9 => Some(VsPpu::RC2C05_02),
        10 => Some(VsPpu::RC2C05_03),
        11 => Some(VsPpu::RC2C05_04),
        12 => Some(VsPpu::RC2C05_05),
        _ => None,
    }
}

/// The board that the high nibble of byte 13 names on a Vs. System
/// cartridge.
pub open spec fn vs_hardware(nibble: u8) -> Option<VsHardware> {
    match nibble {
        0 => Some(VsHardware::Uni),
        1 => Some(VsHardware::UniRBI),
        2 => Some(VsHardware::UniTKO),
        3 => Some(VsHardware::UniSuperXevious),
        4 => Some(VsHardware::UniIceClimber),
        5 => Some(VsHardware::Dual),
        6 => Some(VsHardware::DualRaidOnBungelingBay),
        _ => None,
    }
}

/// The console that an extended type in the low nibble of byte 13 names.
pub open spec fn extended_console(nibble: u8) -> Option<ConsoleType> {
    match nibble {
        3 => Some(ConsoleType::Famiclone),
        4 => Some(ConsoleType::NesEPSM),
        5 => Some(ConsoleType::VT01),
        6 => Some(ConsoleType::VT02),
        7 => Some(ConsoleType::VT03),
        8 => Some(ConsoleType::VT09),
        9 => Some(ConsoleType::VT32),
        10 => Some(ConsoleType::VT369),
        11 => Some(ConsoleType::UMC),
        12 => Some(ConsoleType::FamicomNetworkSystem),
        _ => None,
    }
}

/// The console type of a NES 2.0 header, from the two low bits of byte 7 and
/// from byte 13. `None` where the bytes name nothing.
pub open spec fn nes2_console_type(b7: u8, b13: u8) -> Option<ConsoleType> {
    if b7 == 0 {
        Some(ConsoleType::Nes)
    } else if b7 == 1 {
        match (vs_ppu(b13 % 16), vs_hardware(b13 / 16)) {
            (Some(ppu), Some(hardware)) => Some(ConsoleType::Vs(ppu, hardware)),
            _ => None,
        }
    } else if b7 == 2 {
        Some(ConsoleType::Playchoice)
    } else {
        extended_console(b13 % 16)
    }
}

/// The console type of a legacy iNES header, from the two low bits of
/// byte 7.
pub open spec fn ines_console_type(n: u8) -> Option<ConsoleType> {
    match n {
        0 => Some(ConsoleType::Nes),
        1 => Some(ConsoleType::Vs(VsPpu::RP2C03B, VsHardware::Uni)),
        2 => Some(ConsoleType::Playchoice),
        _ => None,
    }
}

/// The timing that the two low bits of byte 12 name.
pub open spec fn timing_of(bits: u8) -> Timing {
    match bits {
        1 => Timing::Pal,
        2 => Timing::Multi,
        _ => Timing::Ntsc,
    }
}

/// Whether the sixteen header bytes carry the NES 2.0 signature: bits 2 and
/// 3 of byte 7 read `10`.
pub open spec fn is_nes2(src: Seq<u8>) -> bool {
    (src[7] / 4) % 4 == 2
}

/// The header that a legacy iNES image declares, apart from the console.
pub open spec fn ines_header(src: Seq<u8>, console_type: ConsoleType) -> Header {
    Header {
        nes2: false,
        prg_rom_size: (src[4] as u64 * 16384) as u64,
        prg_ram_size: 0,
        prg_nvram_size: 0,
        chr_rom_size: (src[5] as u64 * 8192) as u64,
        chr_ram_size: if src[5] == 0 {
            8192
        } else {
            0
        },
        chr_nvram_size: 0,
        mapper: (src[6] / 16 + (src[7] / 16) * 16) as u16,
        submapper: 0,
        vertical_mirroring: src[6] % 2 == 1,
        battery_present: (src[6] / 2) % 2 == 1,
        trainer_present: (src[6] / 4) % 2 == 1,
        four_screen_mode: (src[6] / 8) % 2 == 1,
        console_type,
        timing: Timing::Ntsc,
        misc_roms: 0,
    }
}

/// The header that a NES 2.0 image declares, apart from the console.
pub open spec fn nes2_header(src: Seq<u8>, console_type: ConsoleType) -> Header {
    Header {
        nes2: true,
        prg_rom_size: saturated(declared_size(src[4], src[9] % 16, 16384)),
        prg_ram_size: ram_size(src[10] % 16) as u32,
        prg_nvram_size: ram_size(src[10] / 16) as u32,
        chr_rom_size: saturated(declared_size(src[5], src[9] / 16, 8192)),
        chr_ram_size: ram_size(src[11] % 16) as u32,
        chr_nvram_size: ram_size(src[11] / 16) as u32,
        mapper: (src[6] / 16 + (src[7] / 16) * 16 + (src[8] % 16) * 256) as u16,
        submapper: src[8] / 16,
        vertical_mirroring: src[6] % 2 == 1,
        battery_present: (src[6] / 2) % 2 == 1,
        trainer_present: (src[6] / 4) % 2 == 1,
        four_screen_mode: (src[6] / 8) % 2 == 1,
        console_type,
        timing: timing_of(src[12] % 4),
        misc_roms: src[14] % 4,
    }
}

/// What the first bytes of an image declare, or why they declare nothing.
pub open spec fn parse_header(src: Seq<u8>) -> Result<Header, RomErr> {
    if src.len() < 16 {
        Err(RomErr::HeaderIncomplete)
    } else if !(src[0] == 0x4E && src[1] == 0x45 && src[2] == 0x53 && src[3] == 0x1A) {
        Err(RomErr::WrongMagicNumber)
    } else if !is_nes2(src) {
        match ines_console_type(src[7] % 4) {
            Some(console_type) => Ok(ines_header(src, console_type)),
            None => Err(RomErr::WrongConsoleType),
        }
    } else {
        match nes2_console_type(src[7] % 4, src[13]) {
            Some(console_type) => Ok(nes2_header(src, console_type)),
            None => Err(RomErr::WrongConsoleType),
        }
    }
}

/// Where the sections of an image lie: each as the offsets of its first
/// byte and of the byte after its last.
pub struct Layout {
    pub header: Header,
    pub trainer: (nat, nat),
    pub prg_rom: (nat, nat),
    pub chr_rom: (nat, nat),
    pub msc_rom: (nat, nat),
}

/// The layout of an image: the header, then the trainer if the header
/// declares one, the program memory, the character memory, and whatever is
/// left. An image that ends within a section is turned down with that
/// section's error.
pub open spec fn parse_layout(src: Seq<u8>) -> Result<Layout, RomErr> {
    match parse_header(src) {
        Err(e) => Err(e),
        Ok(header) => {
            let trainer_end: nat = if header.trainer_present {
                528
            } else {
                16
            };
            let prg_end = trainer_end + header.prg_rom_size as nat;
            let chr_end = prg_end + header.chr_rom_size as nat;
            if trainer_end > src.len() {
                Err(RomErr::TrainerIncomplete)
            } else if prg_end > src.len() {
                Err(RomErr::PrgRomIncomplete)
            } else if chr_end > src.len() {
                Err(RomErr::ChrRomIncomplete)
            } else {
                Ok(
                    Layout {
                        header,
                        trainer: (16, trainer_end),
                        prg_rom: (trainer_end, prg_end),
                        chr_rom: (prg_end, chr_end),
                        msc_rom: (chr_end, src.len()),
                    },
                )
            }
        },
    }
}

impl Clone for Rom {
    fn clone(&self) -> (copy: Self)
        ensures
            copy.bytes@ == self.bytes@,
            copy.header == self.header,
            copy.trainer == self.trainer,
            copy.prg_rom == self.prg_rom,
            copy.chr_rom == self.chr_rom,
            copy.msc_rom == self.msc_rom,
    {
        Self {
            bytes: self.bytes.clone(),
            header: self.header,
            trainer: self.trainer.start..self.trainer.end,
            prg_rom: self.prg_rom.start..self.prg_rom.end,
            chr_rom: self.chr_rom.start..self.chr_rom.end,
            msc_rom: self.msc_rom.start..self.msc_rom.end,
        }
    }
}

impl Rom {
    /// Whether the section offsets lie within the image, in order.
    pub open spec fn wf(&self) -> bool {
        &&& self.trainer.start == 16
        &&& self.trainer.start <= self.trainer.end
        &&& self.trainer.end == self.prg_rom.start
        &&& self.prg_rom.start <= self.prg_rom.end
        &&& self.prg_rom.end == self.chr_rom.start
        &&& self.chr_rom.start <= self.chr_rom.end
        &&& self.chr_rom.end == self.msc_rom.start
        &&& self.msc_rom.start <= self.msc_rom.end
        &&& self.msc_rom.end == self.bytes@.len()
        &&& self.prg_rom.end - self.prg_rom.start == self.header.prg_rom_size
        &&& self.chr_rom.end - self.chr_rom.start == self.header.chr_rom_size
    }

    /// Whether the image is laid out as `layout` says.
    pub open spec fn laid_out(&self, layout: Layout) -> bool {
        &&& self.header == layout.header
        &&& (self.trainer.start as nat, self.trainer.end as nat) == layout.trainer
        &&& (self.prg_rom.start as nat, self.prg_rom.end as nat) == layout.prg_rom
        &&& (self.chr_rom.start as nat, self.chr_rom.end as nat) == layout.chr_rom
        &&& (self.msc_rom.start as nat, self.msc_rom.end as nat) == layout.msc_rom
    }

    /// Takes an image apart. The bytes are kept as they are; the result
    /// says where the sections lie.
    pub fn parse(src: Vec<u8>) -> (result: Result<Self, RomErr>)
        ensures
            match parse_layout(src@) {
                Ok(layout) => result is Ok && result->Ok_0.bytes@ == src@
                    && result->Ok_0.laid_out(layout) && result->Ok_0.wf(),
                Err(e) => result is Err && result->Err_0 == e,
            },
    {
        let header = match Header::parse(src.as_slice()) {
            Ok(header) => header,
            Err(e) => {
                return Err(e);
            },
        };

        let trainer_start: usize = 16;
        let trainer_len: usize = if header.trainer_present {
            512
        } else {
            0
        };
        let trainer_end = trainer_start + trainer_len;
        if trainer_end > src.len() {
            return Err(RomErr::TrainerIncomplete);
        }
        let trainer = trainer_start..trainer_end;

        let prg_rom_start = trainer_end;
        if header.prg_rom_size > (src.len() - prg_rom_start) as u64 {
            return Err(RomErr::PrgRomIncomplete);
        }
        let prg_rom_end = prg_rom_start + header.prg_rom_size as usize;
        let prg_rom = prg_rom_start..prg_rom_end;

        let chr_rom_start = prg_rom_end;
        if header.chr_rom_size > (src.len() - chr_rom_start) as u64 {
            return Err(RomErr::ChrRomIncomplete);
        }
        let chr_rom_end = chr_rom_start + header.chr_rom_size as usize;
        let chr_rom = chr_rom_start..chr_rom_end;

        let msc_rom = chr_rom_end..src.len();

        Ok(Self { bytes: src, header, trainer, prg_rom, chr_rom, msc_rom })
    }
}

impl Header {
    /// Reads the header at the start of an image.
    pub fn parse(src: &[u8]) -> (result: Result<Self, RomErr>)
        ensures
            result == parse_header(src@),
    {
        if src.len() < 16 {
            return Err(RomErr::HeaderIncomplete);
        }
        if !(src[0] == 0x4E && src[1] == 0x45 && src[2] == 0x53 && src[3] == 0x1A) {
            return Err(RomErr::WrongMagicNumber);
        }
        let is_nes2 = (src[7] / 4) % 4 == 2;

        let prg_rom_size_low = src[4];
        let chr_rom_size_low = src[5];

        let vertical_mirroring = src[6] % 2 == 1;
        let battery_present = (src[6] / 2) % 2 == 1;
        let trainer_present = (src[6] / 4) % 2 == 1;
        let four_screen_mode = (src[6] / 8) % 2 == 1;

        let mapper_low = src[6] / 16;
        let console_type = src[7] % 4;
        let mapper: u16 = mapper_low as u16 + (src[7] / 16) as u16 * 16;

        if !is_nes2 {
            let console_type = match ConsoleType::from_ines(console_type) {
                Ok(console_type) => console_type,
                Err(e) => {
                    return Err(e);
                },
            };
            return Ok(
                Self {
                    nes2: false,
                    prg_rom_size: (prg_rom_size_low as u64) * 16384,
                    prg_ram_size: 0,
                    prg_nvram_size: 0,
                    chr_rom_size: (chr_rom_size_low as u64) * 8192,
                    chr_ram_size: if chr_rom_size_low == 0 {
                        8192
                    } else {
                        0
                    },
                    chr_nvram_size: 0,
                    mapper,
                    submapper: 0,
                    vertical_mirroring,
                    battery_present,
                    trainer_present,
                    four_screen_mode,
                    console_type,
                    timing: Timing::Ntsc,
                    misc_roms: 0,
                },
            );
        }
        let mapper_high: u16 = (src[8] % 16) as u16 * 256;
        let mapper = mapper + mapper_high;
        let submapper = src[8] / 16;

        let prg_rom_size_high = src[9] % 16;
        let chr_rom_size_high = src[9] / 16;
        let prg_rom_size = calc_size(prg_rom_size_low, prg_rom_size_high, 16384);
        let chr_rom_size = calc_size(chr_rom_size_low, chr_rom_size_high, 8192);

        let prg_ram_size = calc_ram_size(src[10] % 16);
        let prg_nvram_size = calc_ram_size(src[10] / 16);
        let chr_ram_size = calc_ram_size(src[11] % 16);
        let chr_nvram_size = calc_ram_size(src[11] / 16);

        let timing = match src[12] % 4 {
            1 => Timing::Pal,
            2 => Timing::Multi,
            _ => Timing::Ntsc,
        };

        let console_type = match parse_console_type(console_type, src[13]) {
            Some(console_type) => console_type,
            None => {
                return Err(RomErr::WrongConsoleType);
            },
        };
        let misc_roms = src[14] % 4;

        Ok(
            Self {
                nes2: true,
                prg_rom_size,
                prg_ram_size,
                prg_nvram_size,
                chr_rom_size,
                chr_ram_size,
                chr_nvram_size,
                mapper,
                submapper,
                vertical_mirroring,
                battery_present,
                trainer_present,
                four_screen_mode,
                console_type,
                timing,
                misc_roms,
            },
        )
    }
}

/// `factor` times two to the power `exponent`.
fn scaled_power(factor: u8, exponent: u8) -> (product: u128)
    requires
        factor <= 64,
        exponent <= 63,
    ensures
        product == factor * two_to(exponent as nat),
{
    let mut product: u128 = factor as u128;
    let mut done: u8 = 0;
    assert(two_to(0) == 1);
    assert(product == factor * two_to(0)) by (nonlinear_arith)
        requires
            product == factor,
            two_to(0) == 1,
    ;
    while done < exponent
        invariant
            done <= exponent <= 63,
            factor <= 64,
            product == factor * two_to(done as nat),
            product <= 64 * two_to(done as nat),
            two_to(done as nat) <= 0x8000_0000_0000_0000,
        decreases exponent - done,
    {
        proof {
            lemma_two_to_bound(done as nat + 1);
            assert(factor * (2 * two_to(done as nat)) == 2 * (factor * two_to(done as nat)))
                by (nonlinear_arith);
        }
        product = product * 2;
        done = done + 1;
    }
    product
}

/// Two to a power of at most 63 fits in 64 bits, and the powers grow.
proof fn lemma_two_to_bound(n: nat)
    requires
        n <= 63,
    ensures
        0 < two_to(n) <= 0x8000_0000_0000_0000,
    decreases 63 - n,
{
    lemma_two_to_positive(n);
    if n < 63 {
        lemma_two_to_bound(n + 1);
    } else {
        assert(two_to(63) == 0x8000_0000_0000_0000) by {
            lemma_two_to_values();
        }
    }
}

/// Two to any power is positive.
proof fn lemma_two_to_positive(n: nat)
    ensures
        0 < two_to(n),
    decreases n,
{
    if n > 0 {
        lemma_two_to_positive((n - 1) as nat);
    }
}

/// The value of two to the power 63, by doubling.
proof fn lemma_two_to_values()
    ensures
        two_to(63) == 0x8000_0000_0000_0000,
{
    reveal_with_fuel(two_to, 64);
}

#[verifier::rlimit(40)]
fn calc_size(low: u8, high: u8, unit: u64) -> (size: u64)
    requires
        high < 16,
        unit <= 16384,
    ensures
        size == saturated(declared_size(low, high, unit as nat)),
{
    if high < 15 {
        assert((low as nat + 256 * high as nat) * (unit as nat) <= 3839 * 16384) by (nonlinear_arith)
            requires
                low <= 255,
                high < 15,
                unit <= 16384,
        ;
        (low as u64 + (high as u64) * 256) * unit
    } else {
        let mul = low % 4;
        let exp = low / 4;
        let size = scaled_power(2 * mul + 1, exp);
        assert(two_to(exp as nat) * (2 * mul as nat + 1) == (2 * mul + 1) * two_to(exp as nat))
            by (nonlinear_arith);
        if size > u64::MAX as u128 {
            u64::MAX
        } else {
            size as u64
        }
    }
}

/// The number of bytes that a RAM shift count declares.
fn calc_ram_size(shift_count: u8) -> (size: u32)
    requires
        shift_count < 16,
    ensures
        size == ram_size(shift_count),
{
    if shift_count == 0 {
        0
    } else {
        let size = scaled_power(64, shift_count);
        proof {
            lemma_two_to_small(shift_count as nat);
        }
        size as u32
    }
}

/// Two to a power below sixteen is below 65536.
proof fn lemma_two_to_small(n: nat)
    requires
        n < 16,
    ensures
        two_to(n) <= 32768,
{
    reveal_with_fuel(two_to, 17);
}

fn parse_console_type(b7: u8, b13: u8) -> (console_type: Option<ConsoleType>)
    requires
        b7 < 4,
    ensures
        console_type == nes2_console_type(b7, b13),
{
    match b7 {
        0 => Some(ConsoleType::Nes),
        1 => {
            let ppu = match b13 % 16 {
                0 => VsPpu::RP2C03B,
                1 => VsPpu::RP2C03G,
                2 => VsPpu::RP2C04_0001,
                3 => VsPpu::RP2C04_0002,
                4 => VsPpu::RP2C04_0003,
                5 => VsPpu::RP2C04_0004,
                6 => VsPpu::RC2C03B,
                7 => VsPpu::RC2C03C,
                8 => VsPpu::RC2C05_01,
                9 => VsPpu::RC2C05_02,
                10 => VsPpu::RC2C05_03,
                11 => VsPpu::RC2C05_04,
                12 => VsPpu::RC2C05_05,
                _ => {
                    return None;
                },
            };
            let hardware = match b13 / 16 {
                0 => VsHardware::Uni,
                1 => VsHardware::UniRBI,
                2 => VsHardware::UniTKO,
                3 => VsHardware::UniSuperXevious,
                4 => VsHardware::UniIceClimber,
                5 => VsHardware::Dual,
                6 => VsHardware::DualRaidOnBungelingBay,
                _ => {
                    return None;
                },
            };
            Some(ConsoleType::Vs(ppu, hardware))
        },
        2 => Some(ConsoleType::Playchoice),
        _ => match b13 % 16 {
            3 => Some(ConsoleType::Famiclone),
            4 => Some(ConsoleType::NesEPSM),
            5 => Some(ConsoleType::VT01),
            6 => Some(ConsoleType::VT02),
            7 => Some(ConsoleType::VT03),
            8 => Some(ConsoleType::VT09),
            9 => Some(ConsoleType::VT32),
            10 => Some(ConsoleType::VT369),
            11 => Some(ConsoleType::UMC),
            12 => Some(ConsoleType::FamicomNetworkSystem),
            _ => None,
        },
    }
}

impl ConsoleType {
    /// The console type that the two low bits of byte 7 name in a legacy
    /// iNES header. The value three names none.
    pub fn from_ines(n: u8) -> (result: Result<Self, RomErr>)
        requires
            n < 4,
        ensures
            match ines_console_type(n) {
                Some(console_type) => result == Ok::<ConsoleType, RomErr>(console_type),
                None => result == Err::<ConsoleType, RomErr>(RomErr::WrongConsoleType),
            },
    {
        match n {
            0 => Ok(Self::Nes),
            1 => Ok(Self::Vs(VsPpu::RP2C03B, VsHardware::Uni)),
            2 => Ok(Self::Playchoice),
            _ => Err(RomErr::WrongConsoleType),
        }
    }
}

} // verus!
