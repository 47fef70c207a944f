use nessy::cpu::{CpuPins, PinState};
use nessy::mapper::mapper0::Mapper0;
use nessy::mapper::mapper2::Mapper2;
use nessy::mapper::nrom::NRom;
use nessy::mapper::Bus as MapperBus;
use nessy::mapper::{get_mapper, DynMapper, Mapper};
use nessy::nesbus::CpuBus;
use nessy::ppu::Bus as PpuBus;
use nessy::rom::{ConsoleType, Header, Rom, RomErr, Timing, VsHardware, VsPpu};

fn header(prg: u8, chr: u8, flags6: u8, flags7: u8) -> Vec<u8> {
    let mut bytes = vec![0x4E, 0x45, 0x53, 0x1A, prg, chr, flags6, flags7];
    bytes.extend_from_slice(&[0; 8]);
    bytes
}

fn ines(prg_banks: u8, chr_banks: u8, flags6: u8, flags7: u8) -> Vec<u8> {
    let mut bytes = header(prg_banks, chr_banks, flags6, flags7);
    if flags6 & 4 != 0 {
        bytes.extend((0..512u32).map(|i| (i % 7) as u8));
    }
    bytes.extend((0..prg_banks as u32 * 16384).map(|i| (i % 251) as u8));
    bytes.extend((0..chr_banks as u32 * 8192).map(|i| (i % 241) as u8));
    bytes
}

#[test]
fn header_too_short() {
    assert_eq!(Header::parse(&[0x4E, 0x45, 0x53, 0x1A, 1, 1]).unwrap_err(), RomErr::HeaderIncomplete);
    assert_eq!(Rom::parse(vec![]).unwrap_err(), RomErr::HeaderIncomplete);
    assert_eq!(Rom::parse(header(1, 1, 0, 0)[..15].to_vec()).unwrap_err(), RomErr::HeaderIncomplete);
}

#[test]
fn wrong_magic_number() {
    let mut bytes = ines(1, 1, 0, 0);
    bytes[3] = 0x1B;
    assert_eq!(Rom::parse(bytes).unwrap_err(), RomErr::WrongMagicNumber);
    let mut bytes = ines(1, 1, 0, 0);
    bytes[0] = b'M';
    assert_eq!(Header::parse(&bytes).unwrap_err(), RomErr::WrongMagicNumber);
}

#[test]
fn sections_incomplete() {
    let bytes = ines(1, 1, 4, 0);
    assert_eq!(Rom::parse(bytes[..16 + 511].to_vec()).unwrap_err(), RomErr::TrainerIncomplete);
    assert_eq!(
        Rom::parse(bytes[..16 + 512 + 16383].to_vec()).unwrap_err(),
        RomErr::PrgRomIncomplete
    );
    assert_eq!(
        Rom::parse(bytes[..16 + 512 + 16384 + 8191].to_vec()).unwrap_err(),
        RomErr::ChrRomIncomplete
    );
    assert!(Rom::parse(bytes).is_ok());
}

#[test]
fn wrong_console_type() {
    assert_eq!(Rom::parse(ines(1, 1, 0, 3)).unwrap_err(), RomErr::WrongConsoleType);
    assert_eq!(ConsoleType::from_ines(3).unwrap_err(), RomErr::WrongConsoleType);
    assert!(matches!(ConsoleType::from_ines(0), Ok(ConsoleType::Nes)));
    assert!(matches!(
        ConsoleType::from_ines(1),
        Ok(ConsoleType::Vs(VsPpu::RP2C03B, VsHardware::Uni))
    ));
    assert!(matches!(ConsoleType::from_ines(2), Ok(ConsoleType::Playchoice)));
    // NES 2.0 with an extended console type that names nothing.
    let mut bytes = ines(1, 1, 0, 0x0B);
    bytes[13] = 0x0F;
    assert_eq!(Rom::parse(bytes).unwrap_err(), RomErr::WrongConsoleType);
    // A Vs. System cartridge with an unknown picture processor.
    let mut bytes = ines(1, 1, 0, 0x09);
    bytes[13] = 0x0D;
    assert_eq!(Rom::parse(bytes).unwrap_err(), RomErr::WrongConsoleType);
}

#[test]
fn legacy_header_fields() {
    let rom = Rom::parse(ines(2, 1, 0x2F, 0x10)).unwrap();
    let header = rom.header;
    assert!(!header.nes2);
    assert_eq!(header.prg_rom_size, 32768);
    assert_eq!(header.chr_rom_size, 8192);
    assert_eq!(header.chr_ram_size, 0);
    assert_eq!(header.mapper, 0x12);
    assert_eq!(header.submapper, 0);
    assert!(header.vertical_mirroring);
    assert!(header.battery_present);
    assert!(header.trainer_present);
    assert!(header.four_screen_mode);
    assert!(matches!(header.console_type, ConsoleType::Nes));
    assert!(matches!(header.timing, Timing::Ntsc));
    assert_eq!(rom.trainer, 16..528);
    assert_eq!(rom.prg_rom, 528..528 + 32768);
    assert_eq!(rom.chr_rom, 528 + 32768..528 + 32768 + 8192);
    assert_eq!(rom.msc_rom, rom.bytes.len()..rom.bytes.len());
    assert_eq!(rom.bytes[rom.prg_rom.start], 0);
    assert_eq!(rom.bytes[rom.prg_rom.start + 252], 1);
}

#[test]
fn legacy_header_without_character_memory_gets_ram() {
    let rom = Rom::parse(ines(1, 0, 0, 0)).unwrap();
    assert_eq!(rom.header.chr_rom_size, 0);
    assert_eq!(rom.header.chr_ram_size, 8192);
    assert_eq!(rom.chr_rom, 16 + 16384..16 + 16384);
    let copy = rom.clone();
    assert_eq!(copy.bytes, rom.bytes);
    assert_eq!(copy.prg_rom, rom.prg_rom);
}

#[test]
fn nes2_header_fields() {
    let mut bytes = ines(1, 1, 0x20, 0x08);
    bytes[8] = 0x21;
    bytes[10] = 0x07;
    bytes[11] = 0x90;
    bytes[12] = 0x02;
    bytes[14] = 0x03;
    bytes.extend_from_slice(&[1, 2, 3]);
    let rom = Rom::parse(bytes).unwrap();
    let header = rom.header;
    assert!(header.nes2);
    assert_eq!(header.mapper, 0x102);
    assert_eq!(header.submapper, 2);
    assert_eq!(header.prg_rom_size, 16384);
    assert_eq!(header.chr_rom_size, 8192);
    assert_eq!(header.prg_ram_size, 64 << 7);
    assert_eq!(header.prg_nvram_size, 0);
    assert_eq!(header.chr_ram_size, 0);
    assert_eq!(header.chr_nvram_size, 64 << 9);
    assert!(matches!(header.timing, Timing::Multi));
    assert_eq!(header.misc_roms, 3);
    assert_eq!(rom.msc_rom.end - rom.msc_rom.start, 3);
}

#[test]
fn nes2_sizes_in_exponent_form() {
    // Program memory: high nibble 15, exponent 3, multiplier 2: 8 * 5.
    let mut bytes = header(0x0E, 0, 0, 0x08);
    bytes[9] = 0x0F;
    bytes.extend_from_slice(&[0xAA; 40]);
    let rom = Rom::parse(bytes).unwrap();
    assert_eq!(rom.header.prg_rom_size, 40);
    assert_eq!(rom.prg_rom, 16..56);
    // High nibble 2: 512 + low units.
    let mut bytes = header(0x01, 0, 0, 0x08);
    bytes[9] = 0x02;
    let parsed = Header::parse(&bytes).unwrap();
    assert_eq!(parsed.prg_rom_size, (0x201) * 16384);
    // An exponent of 63 with multiplier 7 does not fit: the size saturates
    // and the image is always too short for it.
    let mut bytes = header(0xFF, 0, 0, 0x08);
    bytes[9] = 0x0F;
    assert_eq!(Header::parse(&bytes).unwrap().prg_rom_size, u64::MAX);
    assert_eq!(Rom::parse(bytes).unwrap_err(), RomErr::PrgRomIncomplete);
}

#[test]
fn nes2_console_types_and_timing() {
    let mut bytes = header(0, 0, 0, 0x09);
    bytes[13] = 0x62;
    assert!(matches!(
        Header::parse(&bytes).unwrap().console_type,
        ConsoleType::Vs(VsPpu::RP2C04_0001, VsHardware::DualRaidOnBungelingBay)
    ));
    let mut bytes = header(0, 0, 0, 0x0B);
    bytes[13] = 0x04;
    bytes[12] = 0x01;
    let parsed = Header::parse(&bytes).unwrap();
    assert!(matches!(parsed.console_type, ConsoleType::NesEPSM));
    assert!(matches!(parsed.timing, Timing::Pal));
    let bytes = header(0, 0, 0, 0x0A);
    assert!(matches!(Header::parse(&bytes).unwrap().console_type, ConsoleType::Playchoice));
}

#[test]
fn error_messages_differ() {
    let all = [
        RomErr::HeaderIncomplete,
        RomErr::WrongMagicNumber,
        RomErr::WrongConsoleType,
        RomErr::TrainerIncomplete,
        RomErr::PrgRomIncomplete,
        RomErr::ChrRomIncomplete,
        RomErr::UnsupportedMapper(4),
    ];
    for (i, a) in all.iter().enumerate() {
        assert!(!a.message().is_empty());
        for b in &all[i + 1..] {
            assert_ne!(a.message(), b.message());
        }
    }
}

#[test]
fn unsupported_mapper_and_console() {
    let rom = Rom::parse(ines(1, 1, 0x10, 0)).unwrap();
    assert!(matches!(get_mapper(rom), Err(RomErr::UnsupportedMapper(1))));
    let rom = Rom::parse(ines(1, 1, 0x40, 0)).unwrap();
    assert!(matches!(get_mapper(rom), Err(RomErr::UnsupportedMapper(4))));
    let rom = Rom::parse(ines(1, 1, 0, 1)).unwrap();
    assert!(matches!(get_mapper(rom), Err(RomErr::WrongConsoleType)));
    let rom = Rom::parse(ines(1, 1, 0, 0)).unwrap();
    assert!(matches!(get_mapper(rom), Ok(DynMapper::Nrom(_))));
    let rom = Rom::parse(ines(2, 0, 0x20, 0)).unwrap();
    assert!(matches!(get_mapper(rom), Ok(DynMapper::Uxrom(_))));
}

fn cpu_read(mapper: &mut impl Mapper, address: u16) -> u8 {
    let mut lines = MapperBus::new();
    let mut cpu = CpuBus::init();
    let mut ppu = PpuBus::new();
    cpu.set_address(address);
    cpu.set_read(true);
    cpu.set_data(0xEE);
    mapper.clock_with_cpu(&mut lines, &mut cpu, &mut ppu);
    cpu.data()
}

fn cpu_write(mapper: &mut impl Mapper, address: u16, data: u8) {
    let mut lines = MapperBus::new();
    let mut cpu = CpuBus::init();
    let mut ppu = PpuBus::new();
    cpu.set_address(address);
    cpu.set_read(false);
    cpu.set_data(data);
    mapper.clock_with_cpu(&mut lines, &mut cpu, &mut ppu);
    assert_eq!(cpu.data(), data);
}

fn ppu_read(mapper: &mut impl Mapper, address: u16) -> (u8, bool, bool) {
    let mut lines = MapperBus::new();
    let mut ppu = PpuBus::new();
    ppu.set_data(0xEE);
    ppu.read(address);
    mapper.clock_with_ppu(&mut lines, &mut ppu);
    (ppu.data(), lines.ciram_ce(), lines.ciram_a10())
}

#[test]
fn mapper0_repeats_program_memory() {
    let mut mapper = Mapper0::new(Rom::parse(ines(1, 1, 0, 0)).unwrap());
    assert_eq!(cpu_read(&mut mapper, 0x8000), 0);
    assert_eq!(cpu_read(&mut mapper, 0x8005), 5);
    assert_eq!(cpu_read(&mut mapper, 0xC005), 5);
    assert_eq!(cpu_read(&mut mapper, 0xFFFF), (16383 % 251) as u8);
    // Below $8000 the cartridge does not answer.
    assert_eq!(cpu_read(&mut mapper, 0x7FFF), 0xEE);
    // Writes change nothing.
    cpu_write(&mut mapper, 0x8005, 0x77);
    assert_eq!(cpu_read(&mut mapper, 0x8005), 5);
    let mut mapper = Mapper0::new(Rom::parse(ines(2, 1, 0, 0)).unwrap());
    assert_eq!(cpu_read(&mut mapper, 0xC005), ((16384 + 5) % 251) as u8);
}

#[test]
fn mapper0_character_memory_and_mirroring() {
    let mut horizontal = Mapper0::new(Rom::parse(ines(1, 1, 0, 0)).unwrap());
    assert_eq!(ppu_read(&mut horizontal, 0x0003), (3, false, false));
    assert_eq!(ppu_read(&mut horizontal, 0x1FFF).0, (0x1FFF % 241) as u8);
    assert_eq!(ppu_read(&mut horizontal, 0x2000), (0xEE, true, false));
    assert_eq!(ppu_read(&mut horizontal, 0x2400), (0xEE, true, false));
    assert_eq!(ppu_read(&mut horizontal, 0x2800), (0xEE, true, true));
    assert_eq!(ppu_read(&mut horizontal, 0x2C00), (0xEE, true, true));
    assert!(!ppu_read(&mut horizontal, 0x3000).1);
    assert!(!ppu_read(&mut horizontal, 0x1FFF).1);
    let mut vertical = Mapper0::new(Rom::parse(ines(1, 1, 1, 0)).unwrap());
    assert_eq!(ppu_read(&mut vertical, 0x2000), (0xEE, true, false));
    assert_eq!(ppu_read(&mut vertical, 0x2400), (0xEE, true, true));
    assert_eq!(ppu_read(&mut vertical, 0x2800), (0xEE, true, false));
    assert_eq!(ppu_read(&mut vertical, 0x2C00), (0xEE, true, true));
}

#[test]
fn mapper2_switches_the_lower_bank() {
    let rom = Rom::parse(ines(4, 0, 0x20, 0)).unwrap();
    let mut mapper = Mapper2::new(&rom);
    let byte = |bank: u32, offset: u32| ((bank * 16384 + offset) % 251) as u8;
    assert_eq!(cpu_read(&mut mapper, 0x8010), byte(0, 0x10));
    assert_eq!(cpu_read(&mut mapper, 0xC010), byte(3, 0x10));
    assert_eq!(cpu_read(&mut mapper, 0xC000), byte(3, 0));
    cpu_write(&mut mapper, 0x8000, 2);
    assert_eq!(cpu_read(&mut mapper, 0x8010), byte(2, 0x10));
    assert_eq!(cpu_read(&mut mapper, 0xC010), byte(3, 0x10));
    // A bank number beyond the last bank wraps.
    cpu_write(&mut mapper, 0xFFFF, 5);
    assert_eq!(cpu_read(&mut mapper, 0x8010), byte(1, 0x10));
}

#[test]
fn mapper2_bus_conflicts() {
    let mut bytes = ines(4, 0, 0x20, 0x08);
    bytes[8] = 0x20;
    let rom = Rom::parse(bytes).unwrap();
    assert_eq!(rom.header.submapper, 2);
    let mut mapper = Mapper2::new(&rom);
    let byte = |bank: u32, offset: u32| ((bank * 16384 + offset) % 251) as u8;
    // The byte at $8003 is 3: a write of 2 there selects bank 2 & 3.
    cpu_write(&mut mapper, 0x8003, 2);
    assert_eq!(cpu_read(&mut mapper, 0x8010), byte(2, 0x10));
    // The byte at $8001 of bank 2 is (2 * 16384 + 1) % 251 = 139: a write of
    // 3 there selects bank 3 & 139 = 3.
    assert_eq!(byte(2, 1), 139);
    cpu_write(&mut mapper, 0x8001, 3);
    assert_eq!(cpu_read(&mut mapper, 0x8010), byte(3, 0x10));
    // The byte at $8004 of bank 3 is (3 * 16384 + 4) % 251 = 211, which has
    // bit 0 and bit 1 set but the write of 4 has neither: bank 0.
    cpu_write(&mut mapper, 0x8004, 4);
    assert_eq!(cpu_read(&mut mapper, 0x8010), byte(0, 0x10));
}

#[test]
fn mapper2_character_ram() {
    let rom = Rom::parse(ines(2, 0, 0x21, 0)).unwrap();
    let mut mapper = Mapper2::new(&rom);
    assert_eq!(ppu_read(&mut mapper, 0x0123).0, 0);
    let mut lines = MapperBus::new();
    let mut ppu = PpuBus::new();
    ppu.write(0x0123, 0x9C);
    mapper.clock_with_ppu(&mut lines, &mut ppu);
    assert!(!lines.ciram_ce());
    assert_eq!(ppu_read(&mut mapper, 0x0123), (0x9C, false, false));
    assert_eq!(ppu_read(&mut mapper, 0x2400), (0xEE, true, true));
}

#[test]
fn dyn_mapper_forwards() {
    let mut mapper = get_mapper(Rom::parse(ines(2, 0, 0x20, 0)).unwrap()).unwrap();
    cpu_write(&mut mapper, 0x8000, 1);
    assert_eq!(cpu_read(&mut mapper, 0x8000), (16384 % 251) as u8);
    let mut mapper = get_mapper(Rom::parse(ines(1, 1, 0, 0)).unwrap()).unwrap();
    assert_eq!(cpu_read(&mut mapper, 0xC001), 1);
    assert_eq!(ppu_read(&mut mapper, 0x0002).0, 2);
}

#[test]
fn nrom_answers_reads_and_takes_overwrites() {
    let rom = Rom::parse(ines(1, 0, 0, 0)).unwrap();
    let mut nrom = NRom::new(&rom);
    let mut pins = CpuPins::init();
    pins.set_read(true);
    pins.set_address(0xC010);
    nrom.handle_cpu(&mut pins);
    assert_eq!(pins.data(), 0x10);
    nrom.overwrite(0xFFFC, 0x34);
    nrom.overwrite(0x7FFF, 0x99);
    pins.set_address(0xBFFC);
    nrom.handle_cpu(&mut pins);
    assert_eq!(pins.data(), 0x34);
    pins.set_address(0x7FFF);
    pins.set_data(0x01);
    nrom.handle_cpu(&mut pins);
    assert_eq!(pins.data(), 0x01);
    // A write is not answered.
    pins.set_address(0xFFFC);
    pins.set_read(false);
    pins.set_data(0x02);
    nrom.handle_cpu(&mut pins);
    assert_eq!(pins.data(), 0x02);
    let _: Option<PinState> = None;
}
