use nessy::apu::Controller;
use nessy::cpu::instruction::{AddrMode, Op};
use nessy::cpu::Cpu6502;
use nessy::mapper::get_mapper;
use nessy::mapper::mapper0::Mapper0;
use nessy::mapper::nrom::NRom;
use nessy::nes::Nes;
use nessy::nesbus::NesBus;
use nessy::rom::Rom;

/// An image with 16 KiB of program memory that holds `program` at `$8000`
/// and the reset vector `$8000`, and with 8 KiB of character memory.
fn image(program: &[u8]) -> Vec<u8> {
    let mut prg = vec![0xEA; 16384];
    prg[..program.len()].copy_from_slice(program);
    prg[0x3FFA] = 0x00;
    prg[0x3FFB] = 0x90;
    prg[0x3FFC] = 0x00;
    prg[0x3FFD] = 0x80;
    prg[0x3FFE] = 0x00;
    prg[0x3FFF] = 0xA0;
    let mut bytes = vec![0x4E, 0x45, 0x53, 0x1A, 1, 1, 0, 0];
    bytes.extend_from_slice(&[0; 8]);
    bytes.extend_from_slice(&prg);
    bytes.extend_from_slice(&[0; 8192]);
    bytes
}

/// A console that has just gone through its reset sequence.
fn console(program: &[u8]) -> (Cpu6502, NesBus<Mapper0>) {
    let rom = Rom::parse(image(program)).unwrap();
    let mapper = Mapper0::new(rom);
    let mut bus = NesBus::new(mapper, [0; 61440], [Controller::new(); 2]);
    let mut cpu = Cpu6502::init();
    cpu.exec(&mut bus);
    (cpu, bus)
}

fn run(cpu: &mut Cpu6502, bus: &mut NesBus<Mapper0>, instructions: usize) {
    for _ in 0..instructions {
        cpu.exec(bus);
    }
}

#[test]
fn reset_vector_on_program_memory_alone() {
    let mut prg = vec![0xEA; 16384];
    prg[0x3FFC] = 0x00;
    prg[0x3FFD] = 0xC0;
    let mut bytes = vec![0x4E, 0x45, 0x53, 0x1A, 1, 0, 0, 0];
    bytes.extend_from_slice(&[0; 8]);
    bytes.extend_from_slice(&prg);
    let rom = Rom::parse(bytes).unwrap();
    let mut bus = NRom::new(&rom);
    let mut cpu = Cpu6502::init();
    cpu.exec(&mut bus);
    assert_eq!(cpu.pc(), 0xC000);
    assert_eq!(cpu.sp(), 0xFD);
    assert!(cpu.status().irq_disable());
    assert!(cpu.is_doing_interrupt());
    assert_eq!(cpu.instruction(), (Op::BRK, AddrMode::Implied));
}

#[test]
fn reset_vector_on_the_console() {
    let mut program = vec![0xEA; 16384];
    program[0x3FFC] = 0x00;
    program[0x3FFD] = 0xC0;
    let mut bytes = vec![0x4E, 0x45, 0x53, 0x1A, 1, 1, 0, 0];
    bytes.extend_from_slice(&[0; 8]);
    bytes.extend_from_slice(&program);
    bytes.extend_from_slice(&[0; 8192]);
    let rom = Rom::parse(bytes).unwrap();
    let mut bus = NesBus::new(Mapper0::new(rom), [0; 61440], [Controller::new(); 2]);
    let mut cpu = Cpu6502::init();
    cpu.exec(&mut bus);
    assert_eq!(cpu.pc(), 0xC000);
    assert_eq!(cpu.sp(), 0xFD);
    assert!(cpu.status().irq_disable());
    // The reset sequence takes seven cycles; the eighth is the first fetch.
    assert_eq!(bus.cycles(), 7);
    assert_eq!(bus.ppu().dot(), [21, 0]);
    // The three pushes of a reset go out as reads: the stack is untouched.
    assert_eq!(bus.ram()[0x100], 0);
    assert_eq!(bus.ram()[0x1FF], 0);
    cpu.exec(&mut bus);
    assert_eq!(cpu.pc(), 0xC001);
    assert_eq!(bus.cycles(), 9);
}

#[test]
fn adc_overflow() {
    // CLC; LDA #$50; ADC #$50
    let (mut cpu, mut bus) = console(&[0x18, 0xA9, 0x50, 0x69, 0x50]);
    run(&mut cpu, &mut bus, 3);
    assert_eq!(cpu.a(), 0xA0);
    let status = cpu.status();
    assert!(status.negative());
    assert!(status.overflow());
    assert!(!status.carry());
    assert!(!status.zero());
}

#[test]
fn sbc_borrow() {
    // SEC; LDA #$50; SBC #$F0
    let (mut cpu, mut bus) = console(&[0x38, 0xA9, 0x50, 0xE9, 0xF0]);
    run(&mut cpu, &mut bus, 3);
    assert_eq!(cpu.a(), 0x60);
    let status = cpu.status();
    assert!(!status.negative());
    assert!(!status.overflow());
    assert!(!status.carry());
    assert!(!status.zero());
}

#[test]
fn adc_with_carry_in_overflows_at_the_boundary() {
    // SEC; LDA #$7F; ADC #$00
    let (mut cpu, mut bus) = console(&[0x38, 0xA9, 0x7F, 0x69, 0x00]);
    run(&mut cpu, &mut bus, 3);
    assert_eq!(cpu.a(), 0x80);
    assert!(cpu.status().overflow());
    assert!(cpu.status().negative());
    assert!(!cpu.status().carry());
}

#[test]
fn adc_unsigned_carry() {
    // CLC; LDA #$FF; ADC #$01
    let (mut cpu, mut bus) = console(&[0x18, 0xA9, 0xFF, 0x69, 0x01]);
    run(&mut cpu, &mut bus, 3);
    assert_eq!(cpu.a(), 0x00);
    assert!(cpu.status().carry());
    assert!(cpu.status().zero());
    assert!(!cpu.status().overflow());
}

#[test]
fn decimal_flag_does_not_change_arithmetic() {
    // SED; CLC; LDA #$09; ADC #$01
    let (mut cpu, mut bus) = console(&[0xF8, 0x18, 0xA9, 0x09, 0x69, 0x01]);
    run(&mut cpu, &mut bus, 4);
    assert!(cpu.status().decimal());
    assert_eq!(cpu.a(), 0x0A);
}

#[test]
fn branch_not_taken_takes_two_cycles() {
    // CLC; BCS +2
    let (mut cpu, mut bus) = console(&[0x18, 0xB0, 0x02]);
    run(&mut cpu, &mut bus, 1);
    let before = bus.cycles();
    run(&mut cpu, &mut bus, 1);
    assert_eq!(bus.cycles() - before, 2);
    assert_eq!(cpu.pc(), 0x8003);
}

#[test]
fn branch_taken_within_the_page_takes_three_cycles() {
    // CLC; BCC +2
    let (mut cpu, mut bus) = console(&[0x18, 0x90, 0x02]);
    run(&mut cpu, &mut bus, 1);
    let before = bus.cycles();
    run(&mut cpu, &mut bus, 1);
    assert_eq!(bus.cycles() - before, 3);
    assert_eq!(cpu.pc(), 0x8005);
}

#[test]
fn branch_taken_across_a_page_takes_four_cycles() {
    // CLC; BCC -4: from $8003 back to $7FFF
    let (mut cpu, mut bus) = console(&[0x18, 0x90, 0xFC]);
    run(&mut cpu, &mut bus, 1);
    let before = bus.cycles();
    run(&mut cpu, &mut bus, 1);
    assert_eq!(bus.cycles() - before, 4);
    assert_eq!(cpu.pc(), 0x7FFF);
}

#[test]
fn branch_forward_across_a_page() {
    // JMP $80F0; ... at $80F0: CLC; BCC +$20 -> $8113
    let mut program = vec![0xEA; 0x100];
    program[0] = 0x4C;
    program[1] = 0xF0;
    program[2] = 0x80;
    program[0xF0] = 0x18;
    program[0xF1] = 0x90;
    program[0xF2] = 0x20;
    let (mut cpu, mut bus) = console(&program);
    run(&mut cpu, &mut bus, 2);
    let before = bus.cycles();
    run(&mut cpu, &mut bus, 1);
    assert_eq!(bus.cycles() - before, 4);
    assert_eq!(cpu.pc(), 0x8113);
}

#[test]
fn absolute_x_read_pays_for_a_page_crossing() {
    // LDX #$01; LDA $80FF,X; LDA $8010,X
    let mut program = vec![0xEA; 0x101];
    program[..8].copy_from_slice(&[0xA2, 0x01, 0xBD, 0xFF, 0x80, 0xBD, 0x10, 0x80]);
    program[0x100] = 0x77;
    program[0x11] = 0x55;
    let (mut cpu, mut bus) = console(&program);
    run(&mut cpu, &mut bus, 1);
    let before = bus.cycles();
    run(&mut cpu, &mut bus, 1);
    assert_eq!(bus.cycles() - before, 5);
    assert_eq!(cpu.a(), 0x77);
    let before = bus.cycles();
    run(&mut cpu, &mut bus, 1);
    assert_eq!(bus.cycles() - before, 4);
    assert_eq!(cpu.a(), 0x55);
}

#[test]
fn absolute_x_store_always_takes_five_cycles() {
    // LDX #$01; LDA #$33; STA $0010,X
    let (mut cpu, mut bus) = console(&[0xA2, 0x01, 0xA9, 0x33, 0x9D, 0x10, 0x00]);
    run(&mut cpu, &mut bus, 2);
    let before = bus.cycles();
    run(&mut cpu, &mut bus, 1);
    assert_eq!(bus.cycles() - before, 5);
    assert_eq!(bus.ram()[0x11], 0x33);
}

#[test]
fn read_modify_write_takes_its_double_write() {
    // LDA #$7F; STA $10; INC $10; ASL $10
    let (mut cpu, mut bus) = console(&[0xA9, 0x7F, 0x85, 0x10, 0xE6, 0x10, 0x06, 0x10]);
    run(&mut cpu, &mut bus, 2);
    let before = bus.cycles();
    run(&mut cpu, &mut bus, 1);
    assert_eq!(bus.cycles() - before, 5);
    assert_eq!(bus.ram()[0x10], 0x80);
    assert!(cpu.status().negative());
    run(&mut cpu, &mut bus, 1);
    assert_eq!(bus.ram()[0x10], 0x00);
    assert!(cpu.status().carry());
    assert!(cpu.status().zero());
}

#[test]
fn push_then_pull_returns_the_byte() {
    // LDX #$FF; TXS; LDA #$42; PHA; LDA #$00; PLA
    let (mut cpu, mut bus) = console(&[0xA2, 0xFF, 0x9A, 0xA9, 0x42, 0x48, 0xA9, 0x00, 0x68]);
    run(&mut cpu, &mut bus, 4);
    assert_eq!(cpu.sp(), 0xFE);
    assert_eq!(bus.ram()[0x1FF], 0x42);
    run(&mut cpu, &mut bus, 1);
    assert_eq!(cpu.a(), 0);
    run(&mut cpu, &mut bus, 1);
    assert_eq!(cpu.a(), 0x42);
    assert_eq!(cpu.sp(), 0xFF);
}

#[test]
fn stack_pointer_wraps_within_page_one() {
    // LDX #$00; TXS; LDA #$99; PHA; PLA
    let (mut cpu, mut bus) = console(&[0xA2, 0x00, 0x9A, 0xA9, 0x99, 0x48, 0x68]);
    run(&mut cpu, &mut bus, 4);
    assert_eq!(cpu.sp(), 0xFF);
    assert_eq!(bus.ram()[0x100], 0x99);
    run(&mut cpu, &mut bus, 1);
    assert_eq!(cpu.sp(), 0x00);
    assert_eq!(cpu.a(), 0x99);
}

#[test]
fn jsr_and_rts_return_behind_the_call() {
    // JSR $8010; LDA #$01 ... at $8010: LDX #$05; RTS
    let mut program = vec![0xEA; 0x20];
    program[..5].copy_from_slice(&[0x20, 0x10, 0x80, 0xA9, 0x01]);
    program[0x10..0x13].copy_from_slice(&[0xA2, 0x05, 0x60]);
    let (mut cpu, mut bus) = console(&program);
    let before = bus.cycles();
    run(&mut cpu, &mut bus, 1);
    assert_eq!(bus.cycles() - before, 6);
    assert_eq!(cpu.pc(), 0x8010);
    run(&mut cpu, &mut bus, 1);
    let before = bus.cycles();
    run(&mut cpu, &mut bus, 1);
    assert_eq!(bus.cycles() - before, 6);
    assert_eq!(cpu.pc(), 0x8003);
    assert_eq!(cpu.x(), 5);
}

#[test]
fn brk_pushes_the_break_flag_and_rti_returns() {
    // at $8000: CLI; BRK; (pad); NOP   handler at $A000: RTI
    let mut program = vec![0xEA; 0x2001];
    program[0] = 0x58;
    program[1] = 0x00;
    program[0x2000] = 0x40;
    let (mut cpu, mut bus) = console(&program);
    cpu.poke_pc(0x8000);
    run(&mut cpu, &mut bus, 1);
    assert!(!cpu.status().irq_disable());
    let sp = cpu.sp();
    let before = bus.cycles();
    run(&mut cpu, &mut bus, 1);
    assert_eq!(bus.cycles() - before, 7);
    assert_eq!(cpu.pc(), 0xA000);
    assert!(!cpu.is_doing_interrupt());
    assert!(cpu.status().irq_disable());
    // Pushed: the address two behind the opcode, then the status with B
    // and bit 5 set.
    assert_eq!(bus.ram()[0x100 + sp as usize], 0x80);
    assert_eq!(bus.ram()[0x100 + sp.wrapping_sub(1) as usize], 0x03);
    assert_eq!(bus.ram()[0x100 + sp.wrapping_sub(2) as usize], 0x30);
    run(&mut cpu, &mut bus, 1);
    assert_eq!(cpu.pc(), 0x8003);
    assert!(!cpu.status().irq_disable());
    assert_eq!(cpu.sp(), sp);
}

#[test]
fn jam_stops_the_processor_until_reset() {
    let (mut cpu, mut bus) = console(&[0x02, 0xA9, 0x01]);
    run(&mut cpu, &mut bus, 1);
    assert!(cpu.jammed());
    let pc = cpu.pc();
    let before = bus.cycles();
    run(&mut cpu, &mut bus, 3);
    assert!(cpu.jammed());
    assert_eq!(cpu.pc(), pc);
    assert_eq!(bus.cycles() - before, 3);
    bus.set_reset(true);
    run(&mut cpu, &mut bus, 2);
    assert!(!cpu.jammed());
    bus.set_reset(false);
    // The line is sampled at the end of every cycle: the sequence under way
    // has seen it high once more and is followed by one last reset.
    run(&mut cpu, &mut bus, 2);
    assert!(cpu.is_doing_interrupt());
    assert!(!cpu.jammed());
    assert_eq!(cpu.pc(), 0x8000);
    run(&mut cpu, &mut bus, 1);
    assert!(!cpu.is_doing_interrupt());
    assert!(cpu.jammed());
}

#[test]
fn undocumented_operations_execute() {
    // LDA #$F0; LDX #$3C; SAX $20; LAX $20; DCP $20; ALR #$FF; ANC #$80; SBX #$01
    let (mut cpu, mut bus) = console(&[
        0xA9, 0xF0, 0xA2, 0x3C, 0x87, 0x20, 0xA7, 0x20, 0xC7, 0x20, 0x4B, 0xFF, 0x0B, 0x80, 0xCB,
        0x01,
    ]);
    run(&mut cpu, &mut bus, 3);
    assert_eq!(bus.ram()[0x20], 0x30);
    run(&mut cpu, &mut bus, 1);
    assert_eq!((cpu.a(), cpu.x()), (0x30, 0x30));
    run(&mut cpu, &mut bus, 1);
    assert_eq!(bus.ram()[0x20], 0x2F);
    assert!(cpu.status().carry());
    assert!(!cpu.status().zero());
    run(&mut cpu, &mut bus, 1);
    assert_eq!(cpu.a(), 0x18);
    assert!(!cpu.status().carry());
    run(&mut cpu, &mut bus, 1);
    assert_eq!(cpu.a(), 0x00);
    assert!(cpu.status().zero());
    assert!(!cpu.status().carry());
    run(&mut cpu, &mut bus, 1);
    // A & X = 0, minus 1.
    assert_eq!(cpu.x(), 0xFF);
    assert!(!cpu.status().carry());
}

#[test]
fn work_memory_repeats_every_two_kilobytes() {
    // LDA #$5A; STA $0801; LDA $1801; LDX $0001
    let (mut cpu, mut bus) =
        console(&[0xA9, 0x5A, 0x8D, 0x01, 0x08, 0xAD, 0x01, 0x18, 0xA6, 0x01]);
    run(&mut cpu, &mut bus, 2);
    assert_eq!(bus.ram()[1], 0x5A);
    cpu.poke_pc(0x8005);
    run(&mut cpu, &mut bus, 2);
    assert_eq!(cpu.a(), 0x5A);
    assert_eq!(cpu.x(), 0x5A);
}

/// Fills the page at `$0200` with a pattern, then starts a sprite DMA from
/// it after `padding` cycles of delay, and returns the number of cycles for
/// which the processor was held.
fn dma_hold(delay: &[u8]) -> (u64, bool, NesBus<Mapper0>) {
    let mut program: Vec<u8> = Vec::new();
    program.extend_from_slice(delay);
    // LDA #$02; STA $4014; NOP
    program.extend_from_slice(&[0xA9, 0x02, 0x8D, 0x14, 0x40, 0xEA]);
    let (mut cpu, mut bus) = console(&program);
    for i in 0..256u16 {
        bus.write(0x0200 + i, (i as u8) ^ 0xA5);
    }
    let instructions = if delay.is_empty() { 1 } else { 2 };
    run(&mut cpu, &mut bus, instructions);
    run(&mut cpu, &mut bus, 1);
    // The write to $4014 was the cycle before this one.
    let written_on_put = (bus.cycles() - 1) % 2 == 1;
    let before = bus.cycles();
    run(&mut cpu, &mut bus, 1);
    // The NOP itself takes two cycles.
    (bus.cycles() - before - 2, written_on_put, bus)
}

#[test]
fn oam_dma_copies_the_page_and_holds_the_processor() {
    let (held, on_put, bus) = dma_hold(&[]);
    assert_eq!(held, if on_put { 514 } else { 513 });
    for i in 0..256usize {
        assert_eq!(bus.ppu().oam()[i], (i as u8) ^ 0xA5);
        assert_eq!(bus.ppu().oam()[i], bus.ram()[0x200 + i]);
    }
    // LDA $00 takes three cycles and so turns the alignment around.
    let (held_shifted, on_put_shifted, bus) = dma_hold(&[0xA5, 0x00]);
    assert_ne!(on_put, on_put_shifted);
    assert_eq!(held_shifted, if on_put_shifted { 514 } else { 513 });
    assert_eq!(held + held_shifted, 513 + 514);
    for i in 0..256usize {
        assert_eq!(bus.ppu().oam()[i], bus.ram()[0x200 + i]);
    }
}

#[test]
fn oam_dma_starts_where_the_object_address_points() {
    // LDA #$10; STA $2003; LDA #$03; STA $4014; NOP
    let (mut cpu, mut bus) =
        console(&[0xA9, 0x10, 0x8D, 0x03, 0x20, 0xA9, 0x03, 0x8D, 0x14, 0x40, 0xEA]);
    for i in 0..256u16 {
        bus.write(0x0300 + i, (i as u8).wrapping_mul(3).wrapping_add(1));
    }
    run(&mut cpu, &mut bus, 5);
    for j in 0..256usize {
        assert_eq!(bus.ppu().oam()[(0x10 + j) % 256], (j as u8).wrapping_mul(3).wrapping_add(1));
        assert_eq!(bus.ram()[0x300 + j], (j as u8).wrapping_mul(3).wrapping_add(1));
    }
    // A further write through $2004 lands where the transfer began.
    bus.write(0x2004, 0x77);
    assert_eq!(bus.ppu().oam()[0x10], 0x77);
}

#[test]
fn nmi_handshake() {
    // LDA #$80; STA $2000; JMP $8005    NMI handler at $9000
    let (mut cpu, mut bus) = console(&[0xA9, 0x80, 0x8D, 0x00, 0x20, 0x4C, 0x05, 0x80]);
    run(&mut cpu, &mut bus, 2);
    let mut guard = 0;
    while !bus.ppu().is_vblank() {
        cpu.exec(&mut bus);
        guard += 1;
        assert!(guard < 40000);
    }
    assert!(bus.cpu_bus().nmi());
    let dot = bus.ppu().dot();
    assert_eq!(dot[1], 241);
    assert!(dot[0] >= 2 && dot[0] < 2 + 9);
    let sp = cpu.sp();
    // The instruction under way ends, then the interrupt sequence runs.
    let mut interrupted = false;
    for _ in 0..3 {
        cpu.exec(&mut bus);
        if cpu.is_doing_interrupt() {
            interrupted = true;
            break;
        }
    }
    assert!(interrupted);
    assert_eq!(cpu.pc(), 0x9000);
    assert_eq!(cpu.sp(), sp.wrapping_sub(3));
    let pushed_status = bus.ram()[0x100 + sp.wrapping_sub(2) as usize];
    assert_eq!(pushed_status & 0x10, 0);
    assert_eq!(pushed_status & 0x20, 0x20);
    assert_eq!(bus.ram()[0x100 + sp as usize], 0x80);
}

#[test]
fn run_until_vblank_stops_at_the_edge() {
    // JMP $8000
    let (mut cpu, mut bus) = console(&[0x4C, 0x00, 0x80]);
    assert!(bus.run_until_vblank(&mut cpu));
    assert!(bus.ppu().is_vblank());
    assert_eq!(bus.ppu().dot()[1], 241);
    let first = bus.cycles();
    assert!(bus.run_until_vblank(&mut cpu));
    let frame = bus.cycles() - first;
    // 89 342 dots are 29 780 cycles and two dots.
    assert!((29778..=29784).contains(&frame), "{frame}");
}

#[test]
fn vram_round_trip_through_the_data_port() {
    let (_cpu, mut bus) = console(&[0x4C, 0x00, 0x80]);
    bus.read(0x2002, false, false);
    bus.write(0x2006, 0x21);
    bus.write(0x2006, 0x08);
    bus.write(0x2007, 0xAB);
    bus.write(0x2007, 0xCD);
    bus.write(0x2006, 0x21);
    bus.write(0x2006, 0x08);
    // The first read returns the stale buffer, the next ones the bytes.
    bus.read(0x2007, false, false);
    assert_eq!(bus.read(0x2007, false, false).0, 0xAB);
    assert_eq!(bus.read(0x2007, false, false).0, 0xCD);
    // Horizontal mirroring: $2108 and $2508 are the same byte.
    assert_eq!(bus.vram()[0x108], 0xAB);
    bus.write(0x2006, 0x25);
    bus.write(0x2006, 0x08);
    bus.read(0x2007, false, false);
    assert_eq!(bus.read(0x2007, false, false).0, 0xAB);
}

#[test]
fn vram_increment_by_thirty_two() {
    let (_cpu, mut bus) = console(&[0x4C, 0x00, 0x80]);
    bus.write(0x2000, 0x04);
    bus.write(0x2006, 0x20);
    bus.write(0x2006, 0x00);
    bus.write(0x2007, 0x11);
    bus.write(0x2007, 0x22);
    assert_eq!(bus.vram()[0x000], 0x11);
    assert_eq!(bus.vram()[0x020], 0x22);
}

#[test]
fn palette_mirroring_through_the_console() {
    let (_cpu, mut bus) = console(&[0x4C, 0x00, 0x80]);
    for (high, low) in [(0x10u8, 0x00u8), (0x14, 0x04), (0x18, 0x08), (0x1C, 0x0C)] {
        bus.write(0x2006, 0x3F);
        bus.write(0x2006, high);
        bus.write(0x2007, 0x20 + high);
        bus.write(0x2006, 0x3F);
        bus.write(0x2006, low);
        assert_eq!(bus.read(0x2007, false, false).0, 0x20 + high);
        assert_eq!(bus.ppu().palette()[low as usize], 0x20 + high);
    }
}

#[test]
fn oam_round_trip_through_the_console() {
    let (_cpu, mut bus) = console(&[0x4C, 0x00, 0x80]);
    bus.write(0x2003, 0x10);
    bus.write(0x2004, 0x12);
    bus.write(0x2004, 0x34);
    bus.write(0x2003, 0x10);
    assert_eq!(bus.read(0x2004, false, false).0, 0x12);
    // A read does not move the object address.
    assert_eq!(bus.read(0x2004, false, false).0, 0x12);
    bus.write(0x2003, 0x11);
    assert_eq!(bus.read(0x2004, false, false).0, 0x34);
    // The registers repeat every eight bytes.
    bus.write(0x3FF3, 0x10);
    assert_eq!(bus.read(0x200C, false, false).0, 0x12);
}

#[test]
fn controller_ports_shift_out_the_buttons() {
    let (_cpu, mut bus) = console(&[0x4C, 0x00, 0x80]);
    {
        let ports = bus.input_mut();
        ports[0].set_a(true);
        ports[0].set_start(true);
        ports[0].set_right(true);
        ports[1].set_b(true);
    }
    bus.write(0x4016, 1);
    bus.write(0x4016, 0);
    let expected = [1, 0, 0, 1, 0, 0, 0, 1];
    // The data lines hold $40 before each read, as after `LDA $4016`.
    for bit in expected {
        bus.write(0x00FF, 0x40);
        assert_eq!(bus.read(0x4016, false, false).0, 0x40 | bit);
    }
    for _ in 0..3 {
        bus.write(0x00FF, 0x40);
        assert_eq!(bus.read(0x4016, false, false).0, 0x41);
    }
    let expected = [0, 1, 0, 0, 0, 0, 0, 0];
    for bit in expected {
        bus.write(0x00FF, 0x40);
        assert_eq!(bus.read(0x4017, false, false).0, 0x40 | bit);
    }
}

#[test]
fn open_bus_returns_the_last_byte() {
    let (_cpu, mut bus) = console(&[0x4C, 0x00, 0x80]);
    bus.write(0x5000, 0x6B);
    assert_eq!(bus.read(0x5001, false, false).0, 0x6B);
    // A write-only register leaves the data lines alone as well.
    assert_eq!(bus.read(0x2000, false, false).0, 0x6B);
}

#[test]
fn status_read_clears_vblank_and_the_write_toggle() {
    let (mut cpu, mut bus) = console(&[0x4C, 0x00, 0x80]);
    assert!(bus.run_until_vblank(&mut cpu));
    bus.write(0x2006, 0x3F);
    let status = bus.read(0x2002, false, false).0;
    assert_eq!(status & 0x80, 0x80);
    assert!(!bus.ppu().is_vblank());
    assert_eq!(bus.read(0x2002, false, false).0 & 0x80, 0);
    // The toggle is back at the first write.
    bus.write(0x2006, 0x3F);
    bus.write(0x2006, 0x01);
    bus.write(0x2007, 0x2A);
    assert_eq!(bus.ppu().palette()[1], 0x2A);
}

#[test]
fn frame_buffer_takes_the_background_colour() {
    let (mut cpu, mut bus) = console(&[0x4C, 0x00, 0x80]);
    bus.write(0x2006, 0x3F);
    bus.write(0x2006, 0x00);
    bus.write(0x2007, 0x21);
    bus.write(0x2006, 0x00);
    bus.write(0x2006, 0x00);
    // Show the background: with empty pattern memory every pixel is
    // transparent and takes the universal background colour.
    bus.write(0x2001, 0x0A);
    assert!(bus.run_until_vblank(&mut cpu));
    assert!(bus.run_until_vblank(&mut cpu));
    assert_eq!(bus.pixels()[0], 0x21);
    assert_eq!(bus.pixels()[256 * 120 + 128], 0x21);
    assert_eq!(bus.pixels()[61439], 0x21);
}

/// Sets up a sample of `length` bytes at `$C000` and starts it.
fn start_sample(bus: &mut NesBus<Mapper0>, control: u8, length_register: u8) {
    bus.write(0x4010, control);
    bus.write(0x4012, 0x00);
    bus.write(0x4013, length_register);
    bus.write(0x4015, 0x10);
}

/// Lets the processor read at `address` the way the core does: while the
/// bus answers NOT_READY the read is repeated with HALT high. Returns the
/// byte and the number of cycles for which the read was held.
fn held_read(bus: &mut NesBus<Mapper0>, address: u16) -> (u8, u64) {
    let mut held = 0;
    let mut answer = bus.read(address, false, false);
    while answer.1 {
        held += 1;
        assert!(held < 2000);
        answer = bus.read(address, false, true);
    }
    (answer.0, held)
}

#[test]
fn sample_fetch_holds_the_processor_three_or_four_cycles() {
    for padding in [0u16, 1] {
        let mut program = vec![0xEA; 0x4000];
        program[0x0000] = 0x4C;
        program[0x0001] = 0x00;
        program[0x0002] = 0x80;
        program[0x3000] = 0x5D;
        let (_cpu, mut bus) = console(&program[..0x3001]);
        for _ in 0..padding {
            bus.write(0x0000, 0);
        }
        // One byte, interrupt at the end, fastest rate.
        start_sample(&mut bus, 0x8F, 0x00);
        assert_eq!(bus.apu().sample_bytes_remaining(), 1);
        assert_eq!(bus.apu().sample_buffer(), None);
        // The write to $4015 was the last cycle; the fetch waits for the
        // processor to stop on a read.
        let due_on_put = bus.cycles() % 2 == 1;
        let (byte, held) = held_read(&mut bus, 0x8005);
        assert_eq!(byte, 0xEA);
        assert_eq!(held, if due_on_put { 4 } else { 3 });
        // The byte came from $C000, which mirrors program offset $0000.
        assert_eq!(bus.apu().sample_buffer(), Some(0x4C));
        assert_eq!(bus.apu().sample_bytes_remaining(), 0);
        // The sample is over: the interrupt is up and shows in $4015.
        bus.read(0x0000, false, false);
        assert!(bus.cpu_bus().irq());
        assert_eq!(bus.read(0x4015, false, false).0 & 0x90, 0x80);
        // Writing $4015 clears the interrupt.
        bus.write(0x4015, 0x00);
        bus.read(0x0000, false, false);
        assert!(!bus.cpu_bus().irq());
    }
}

#[test]
fn sample_fetches_follow_the_rate() {
    let (_cpu, mut bus) = console(&[0x4C, 0x00, 0x80]);
    // Seventeen bytes, no loop, fastest rate: a byte every 432 cycles.
    start_sample(&mut bus, 0x0F, 0x01);
    assert_eq!(bus.apu().sample_bytes_remaining(), 17);
    let mut fetches = Vec::new();
    let mut last = bus.apu().sample_bytes_remaining();
    for _ in 0..17 * 432 + 3424 + 100 {
        held_read(&mut bus, 0x8000);
        let now = bus.apu().sample_bytes_remaining();
        if now != last {
            fetches.push(bus.cycles());
            last = now;
        }
    }
    assert_eq!(fetches.len(), 17);
    assert_eq!(bus.read(0x4015, false, false).0 & 0x10, 0);
    for pair in fetches.windows(2).skip(1) {
        let gap = pair[1] - pair[0];
        assert!((430..=434).contains(&gap), "{gap}");
    }
}

#[test]
fn looping_sample_starts_over() {
    let (_cpu, mut bus) = console(&[0x4C, 0x00, 0x80]);
    start_sample(&mut bus, 0x4F, 0x00);
    for _ in 0..5000 {
        held_read(&mut bus, 0x8000);
    }
    // A looping sample never runs out and never interrupts.
    assert_eq!(bus.apu().sample_bytes_remaining(), 1);
    assert_eq!(bus.read(0x4015, false, false).0 & 0x90, 0x10);
    // Clearing bit 4 of $4015 stops it.
    bus.write(0x4015, 0x00);
    assert_eq!(bus.apu().sample_bytes_remaining(), 0);
    let before = bus.cycles();
    for _ in 0..1000 {
        assert_eq!(held_read(&mut bus, 0x8000).1, 0);
    }
    assert_eq!(bus.cycles() - before, 1000);
}

#[test]
fn sample_fetch_interleaves_with_sprite_dma() {
    // LDA #$02; STA $4014; NOP
    let (mut cpu, mut bus) = console(&[0xA9, 0x02, 0x8D, 0x14, 0x40, 0xEA]);
    for i in 0..256u16 {
        bus.write(0x0200 + i, (i as u8).wrapping_mul(3));
    }
    // A looping sample at the fastest rate: at least one fetch comes due
    // during the 513 cycles of the sprite DMA.
    start_sample(&mut bus, 0x4F, 0x10);
    // The output unit takes its first byte 3424 cycles after power-on and
    // one every 432 cycles from then on.
    for _ in 0..3500 {
        held_read(&mut bus, 0x8000);
    }
    run(&mut cpu, &mut bus, 2);
    let before = bus.cycles();
    run(&mut cpu, &mut bus, 1);
    let held = bus.cycles() - before - 2;
    // The transfer is complete and in order, and it took the cycles of the
    // fetches on top of its own.
    for i in 0..256usize {
        assert_eq!(bus.ppu().oam()[i], (i as u8).wrapping_mul(3));
    }
    assert!(held > 514, "{held}");
    assert!(held <= 514 + 2 * 4, "{held}");
}

#[test]
fn frame_interrupt_reaches_the_processor() {
    // LDA #$00; STA $4017; CLI; JMP $8006      IRQ handler at $A000: SEI ...
    let mut program = vec![0xEA; 0x2001];
    program[..9].copy_from_slice(&[0xA9, 0x00, 0x8D, 0x17, 0x40, 0x58, 0x4C, 0x06, 0x80]);
    program[0x2000] = 0x78;
    let (mut cpu, mut bus) = console(&program);
    run(&mut cpu, &mut bus, 3);
    assert!(!cpu.status().irq_disable());
    let mut guard = 0;
    while !cpu.is_doing_interrupt() {
        cpu.exec(&mut bus);
        guard += 1;
        assert!(guard < 40000);
    }
    assert_eq!(cpu.pc(), 0xA000);
    assert!(cpu.status().irq_disable());
    // The status was pushed with B clear.
    let pushed = bus.ram()[0x100 + cpu.sp().wrapping_add(1) as usize];
    assert_eq!(pushed & 0x34, 0x20);
    // The line stays high, but I masks it now.
    assert!(bus.cpu_bus().irq());
    run(&mut cpu, &mut bus, 3);
    assert!(!cpu.is_doing_interrupt());
    assert_eq!(cpu.pc(), 0xA003);
}

#[test]
fn interrupt_disable_masks_the_request() {
    // LDA #$00; STA $4017; JMP $8005
    let (mut cpu, mut bus) = console(&[0xA9, 0x00, 0x8D, 0x17, 0x40, 0x4C, 0x05, 0x80]);
    let mut raised = false;
    for _ in 0..40000 {
        cpu.exec(&mut bus);
        raised |= bus.cpu_bus().irq();
        assert!(!cpu.is_doing_interrupt());
    }
    assert!(raised);
    assert_eq!(cpu.pc() & 0xFFF0, 0x8000);
}

#[test]
fn whole_console() {
    let rom = Rom::parse(image(&[0xA9, 0x07, 0x85, 0x00, 0x4C, 0x04, 0x80])).unwrap();
    let mut nes = Nes::new(get_mapper(rom).unwrap());
    nes.clock();
    assert_eq!(nes.cpu.pc(), 0x8000);
    nes.clock();
    nes.clock();
    assert_eq!(nes.bus.ram()[0], 0x07);
    assert!(nes.run_frame());
    assert!(nes.bus.ppu().is_vblank());
    assert!(nes.run_frame());
}

#[test]
fn indirect_jump_wraps_within_the_page() {
    // JMP ($80FF): the high byte comes from $8000, not from $8100.
    let mut program = vec![0xEA; 0x101];
    program[0] = 0x6C;
    program[1] = 0xFF;
    program[2] = 0x80;
    program[0xFF] = 0x34;
    program[0x100] = 0x12;
    let (mut cpu, mut bus) = console(&program);
    let before = bus.cycles();
    run(&mut cpu, &mut bus, 1);
    assert_eq!(bus.cycles() - before, 5);
    assert_eq!(cpu.pc(), 0x6C34);
}

#[test]
fn indexed_indirect_and_indirect_indexed() {
    // LDA #$10; STA $04; LDA #$02; STA $05; LDA #$9A; STA $0210;
    // LDX #$02; LDA #$00; LDA ($02,X); LDY #$10; LDA #$00; STA $04;
    // LDA ($04),Y
    let (mut cpu, mut bus) = console(&[
        0xA9, 0x10, 0x85, 0x04, 0xA9, 0x02, 0x85, 0x05, 0xA9, 0x9A, 0x8D, 0x10, 0x02, 0xA2, 0x02,
        0xA9, 0x00, 0xA1, 0x02, 0xA0, 0x10, 0xA9, 0x00, 0x85, 0x04, 0xB1, 0x04,
    ]);
    run(&mut cpu, &mut bus, 8);
    let before = bus.cycles();
    run(&mut cpu, &mut bus, 1);
    assert_eq!(bus.cycles() - before, 6);
    assert_eq!(cpu.a(), 0x9A);
    run(&mut cpu, &mut bus, 3);
    let before = bus.cycles();
    run(&mut cpu, &mut bus, 1);
    // No page crossing: five cycles.
    assert_eq!(bus.cycles() - before, 5);
    assert_eq!(cpu.a(), 0x9A);
}

#[test]
fn compare_and_bit_set_their_flags() {
    // LDA #$40; CMP #$41; CMP #$40; BIT $10 (zero); LDX #$FF; CPX #$01
    let (mut cpu, mut bus) =
        console(&[0xA9, 0x40, 0xC9, 0x41, 0xC9, 0x40, 0x24, 0x10, 0xA2, 0xFF, 0xE0, 0x01]);
    run(&mut cpu, &mut bus, 2);
    let status = cpu.status();
    assert!(!status.carry() && !status.zero() && status.negative());
    run(&mut cpu, &mut bus, 1);
    let status = cpu.status();
    assert!(status.carry() && status.zero() && !status.negative());
    bus.write(0x0010, 0xC0);
    run(&mut cpu, &mut bus, 1);
    let status = cpu.status();
    assert!(status.negative() && status.overflow() && !status.zero());
    run(&mut cpu, &mut bus, 2);
    let status = cpu.status();
    assert!(status.carry() && !status.zero() && status.negative());
}

#[test]
fn rotates_go_through_the_carry() {
    // SEC; LDA #$80; ROL A; ROL A; ROR A; ROR A; LSR A
    let (mut cpu, mut bus) = console(&[0x38, 0xA9, 0x80, 0x2A, 0x2A, 0x6A, 0x6A, 0x4A]);
    run(&mut cpu, &mut bus, 3);
    assert_eq!(cpu.a(), 0x01);
    assert!(cpu.status().carry());
    run(&mut cpu, &mut bus, 1);
    assert_eq!(cpu.a(), 0x03);
    assert!(!cpu.status().carry());
    run(&mut cpu, &mut bus, 1);
    assert_eq!(cpu.a(), 0x01);
    assert!(cpu.status().carry());
    run(&mut cpu, &mut bus, 1);
    assert_eq!(cpu.a(), 0x80);
    assert!(cpu.status().carry() && cpu.status().negative());
    run(&mut cpu, &mut bus, 1);
    assert_eq!(cpu.a(), 0x40);
    assert!(!cpu.status().carry());
}
