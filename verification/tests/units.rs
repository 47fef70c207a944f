use nessy::apu::Bus as ApuPins;
use nessy::apu::{Apu, Controller};
use nessy::cpu::instruction::{decode, decode_addr_mode, decode_op, AddrMode, Op};
use nessy::cpu::{Cpu6502, CpuPins, Interrupts, Meta, Status};
use nessy::dma::Dma;
use nessy::input::Controller as Buttons;
use nessy::input::Input;
use nessy::joystick::Joystick;
use nessy::nes::NesLines;
use nessy::nesbus::CpuBus;
use nessy::ppu::pixel_buffer::{PixelBuffer, HEIGHT, PIXELS, WIDTH};
use nessy::ppu::renderer::{color_to_rgb, Renderer};
use nessy::ppu::Bus as PpuBus;
use nessy::ppu::{Ppu, Scroll};
use nessy::processor::apu::AInPins;
use nessy::processor::apu::Apu as SoundUnit;
use nessy::processor::dma::InPins as DmaPins;
use nessy::processor::dma::OamDma;
use nessy::processor::{CoreOut, InPins, Processor};
use nessy::util::{get_flag_u16, get_flag_u8, set_flag_u16, set_flag_u8};

#[test]
fn flag_helpers() {
    let mut byte = 0b0101_0000u8;
    assert!(get_flag_u8(byte, 4));
    assert!(!get_flag_u8(byte, 5));
    set_flag_u8(&mut byte, 0, true);
    set_flag_u8(&mut byte, 4, false);
    set_flag_u8(&mut byte, 7, true);
    assert_eq!(byte, 0b1100_0001);
    let mut short = 0x8000u16;
    assert!(get_flag_u16(short, 15));
    set_flag_u16(&mut short, 15, false);
    set_flag_u16(&mut short, 9, true);
    assert_eq!(short, 0x0200);
}

#[test]
fn every_opcode_decodes() {
    let mut jams = Vec::new();
    for opcode in 0..=255u8 {
        let (op, mode) = decode(opcode);
        assert_eq!(op, decode_op(opcode >> 5, (opcode >> 2) & 7, opcode & 3));
        assert_eq!(mode, decode_addr_mode(opcode >> 5, (opcode >> 2) & 7, opcode & 3));
        if op == Op::JAM {
            jams.push(opcode);
            assert_eq!(mode, AddrMode::Implied);
        }
    }
    assert_eq!(
        jams,
        vec![0x02, 0x12, 0x22, 0x32, 0x42, 0x52, 0x62, 0x72, 0x92, 0xB2, 0xD2, 0xF2]
    );
}

#[test]
fn well_known_opcodes() {
    assert_eq!(decode(0x00), (Op::BRK, AddrMode::Implied));
    assert_eq!(decode(0xA9), (Op::LDA, AddrMode::Immediate));
    assert_eq!(decode(0xAD), (Op::LDA, AddrMode::Absolute));
    assert_eq!(decode(0xBD), (Op::LDA, AddrMode::AbsoluteX));
    assert_eq!(decode(0xB9), (Op::LDA, AddrMode::AbsoluteY));
    assert_eq!(decode(0xA1), (Op::LDA, AddrMode::XIndirect));
    assert_eq!(decode(0xB1), (Op::LDA, AddrMode::IndirectY));
    assert_eq!(decode(0xB5), (Op::LDA, AddrMode::ZeroX));
    assert_eq!(decode(0xB6), (Op::LDX, AddrMode::ZeroY));
    assert_eq!(decode(0x4C), (Op::JMP, AddrMode::Absolute));
    assert_eq!(decode(0x6C), (Op::JMP, AddrMode::Indirect));
    assert_eq!(decode(0x20), (Op::JSR, AddrMode::Absolute));
    assert_eq!(decode(0x0A), (Op::ASL, AddrMode::Accumulator));
    assert_eq!(decode(0x58), (Op::CLI, AddrMode::Implied));
    assert_eq!(decode(0x90), (Op::BCC, AddrMode::Relative));
    assert_eq!(decode(0xEA), (Op::NOP, AddrMode::Implied));
    assert_eq!(decode(0xEB), (Op::SBC, AddrMode::Immediate));
    assert_eq!(decode(0x9B), (Op::TAS, AddrMode::AbsoluteY));
    assert_eq!(decode(0xBB), (Op::LAS, AddrMode::AbsoluteY));
    assert_eq!(decode(0x9F), (Op::SHA, AddrMode::AbsoluteY));
    assert_eq!(decode(0x9E), (Op::SHX, AddrMode::AbsoluteY));
    assert_eq!(decode(0x9C), (Op::SHY, AddrMode::AbsoluteX));
    assert_eq!(decode(0x8B), (Op::ANE, AddrMode::Immediate));
    assert_eq!(decode(0xAB), (Op::LXA, AddrMode::Immediate));
    assert_eq!(decode(0x4B), (Op::ALR, AddrMode::Immediate));
    assert_eq!(decode(0x0B), (Op::ANC, AddrMode::Immediate));
    assert_eq!(decode(0x6B), (Op::ARR, AddrMode::Immediate));
    assert_eq!(decode(0xCB), (Op::SBX, AddrMode::Immediate));
    assert_eq!(decode(0xC7), (Op::DCP, AddrMode::Zero));
    assert_eq!(decode(0xE3), (Op::ISC, AddrMode::XIndirect));
    assert_eq!(decode(0xA7), (Op::LAX, AddrMode::Zero));
    assert_eq!(decode(0x87), (Op::SAX, AddrMode::Zero));
    assert_eq!(decode(0x27), (Op::RLA, AddrMode::Zero));
    assert_eq!(decode(0x67), (Op::RRA, AddrMode::Zero));
    assert_eq!(decode(0x07), (Op::SLO, AddrMode::Zero));
    assert_eq!(decode(0x47), (Op::SRE, AddrMode::Zero));
}

#[test]
fn operation_classes() {
    for op in [Op::ASL, Op::LSR, Op::ROL, Op::ROR, Op::INC, Op::DEC, Op::SLO, Op::RLA, Op::SRE,
        Op::RRA, Op::ISC, Op::DCP]
    {
        assert!(op.is_rmw());
        assert!(op.reads_operand());
        assert!(op.writes_operand());
    }
    for op in [Op::STA, Op::STX, Op::STY, Op::SAX, Op::SHA, Op::SHX, Op::SHY, Op::TAS] {
        assert!(!op.is_rmw());
        assert!(!op.reads_operand());
        assert!(op.writes_operand());
    }
    for op in [Op::LDA, Op::ADC, Op::CMP, Op::BIT, Op::LAX, Op::NOP, Op::LAS] {
        assert!(op.reads_operand());
        assert!(!op.writes_operand());
    }
    assert!(!Op::JMP.reads_operand());
    assert_eq!(AddrMode::IndirectY.notation(), "[[#] + Y]");
    assert_eq!(AddrMode::Implied.notation(), "");
}

#[test]
fn status_register_bits() {
    let mut status = Status::init();
    assert_eq!(status.bits(), 0x04);
    assert!(status.irq_disable());
    status.set_carry(true);
    status.set_negative(true);
    status.set_overflow(true);
    status.set_irq_disable(false);
    assert_eq!(status.bits(), 0xC1);
    assert_eq!(status.to_pushable_bits(false), 0xE1);
    assert_eq!(status.to_pushable_bits(true), 0xF1);
    status.set_zero(true);
    status.set_decimal(true);
    status.set_carry(false);
    assert!(status.zero() && status.decimal() && status.overflow() && status.negative());
    assert!(!status.carry());
    let pulled = Status::from_pushable_bits(0xFF);
    assert_eq!(pulled.bits(), 0xCF);
    let pulled = Status::from_pushable_bits(0x30);
    assert_eq!(pulled.bits(), 0x00);
    assert_eq!(Status::from_pushable_bits(status.to_pushable_bits(true)), status);
}

#[test]
fn processor_latches() {
    let mut meta = Meta::init();
    assert!(!meta.jammed() && !meta.last_nmi() && !meta.last_rst());
    meta.set_last_nmi(true);
    meta.set_jammed(true);
    assert!(meta.jammed() && meta.last_nmi() && !meta.last_rst());
    meta.set_last_rst(true);
    meta.set_last_nmi(false);
    assert!(meta.jammed() && !meta.last_nmi() && meta.last_rst());
    let mut pending = Interrupts::init();
    assert!(pending.reset() && !pending.nmi() && !pending.irq());
    pending.or_nmi(false);
    assert!(!pending.nmi());
    pending.or_nmi(true);
    pending.or_nmi(false);
    pending.set_irq(true);
    assert!(pending.nmi() && pending.irq());
    pending.clear_nmi();
    pending.set_irq(false);
    pending.or_reset(false);
    assert!(pending.reset() && !pending.nmi() && !pending.irq());
    pending.clear();
    assert!(!pending.reset());
    pending.or_reset(true);
    assert!(pending.reset());
}

#[test]
fn processor_pins() {
    let mut pins = CpuPins::init();
    pins.set_address(0xBEEF);
    pins.set_data(0x5A);
    pins.set_halt(true);
    assert!(pins.halt());
    assert!(!pins.not_ready());
    pins.set_not_ready(true);
    pins.set_halt(false);
    assert!(pins.not_ready());
    assert!(!pins.halt());
    pins.set_read(true);
    pins.set_sync(true);
    pins.set_irq(true);
    pins.set_nmi(true);
    pins.set_rst(true);
    assert!(pins.read() && pins.sync() && pins.irq() && pins.nmi() && pins.rst());
    pins.set_not_ready(false);
    assert_eq!((pins.address(), pins.data()), (0xBEEF, 0x5A));
    assert!(pins.read() && pins.sync() && pins.irq() && pins.nmi() && pins.rst());
    assert!(!pins.not_ready());
    let mut cpu = Cpu6502::init();
    cpu.pins_mut().set_data(7);
    assert_eq!(cpu.pins().data(), 7);
    cpu.poke_pc(0x1234);
    assert_eq!(cpu.pc(), 0x1234);
    assert_eq!((cpu.a(), cpu.x(), cpu.y(), cpu.sp()), (0, 0, 0, 0));
    assert!(!cpu.jammed());
}

#[test]
fn bus_records() {
    let mut bus = CpuBus::init();
    bus.set_address(0x4014);
    bus.set_data(9);
    bus.set_rst(true);
    bus.set_halt(true);
    bus.set_not_ready(true);
    bus.set_sync(true);
    bus.set_read(true);
    bus.or_irq(false);
    assert!(!bus.irq());
    bus.or_irq(true);
    bus.or_irq(false);
    assert!(bus.irq() && bus.rst() && bus.halt() && bus.not_ready() && bus.sync() && bus.read());
    assert!(!bus.nmi());
    bus.set_nmi(true);
    bus.set_irq(false);
    assert!(bus.nmi() && !bus.irq());
    let pins = ApuPins::from_cpu_bus(bus);
    assert_eq!((pins.addr, pins.data), (0x4014, 9));
    assert!(pins.nmi() && !pins.irq() && pins.rw() && pins.sync());
    let mut pins = ApuPins::new();
    pins.set_irq(true);
    pins.set_rw(true);
    assert!(pins.irq() && pins.rw() && !pins.nmi() && !pins.sync());
    pins.set_nmi(true);
    pins.set_sync(true);
    pins.set_irq(false);
    assert!(!pins.irq() && pins.rw() && pins.nmi() && pins.sync());
    let mut ppu = PpuBus::new();
    ppu.write(0x2001, 0x44);
    assert!(ppu.wr() && !ppu.rd());
    assert_eq!((ppu.address(), ppu.data()), (0x2001, 0x44));
    ppu.read(0x0FFF);
    assert!(!ppu.wr() && ppu.rd());
    assert_eq!((ppu.address(), ppu.data()), (0x0FFF, 0x44));
    ppu.io();
    assert!(!ppu.wr() && !ppu.rd());
    ppu.set_wr(true);
    ppu.set_rd(true);
    assert!(ppu.wr() && ppu.rd());
}

/// Clocks the picture processor alone for one dot.
fn dot(ppu: &mut Ppu, bus: &mut PpuBus, cpu: &mut CpuBus) {
    cpu.set_address(0);
    cpu.set_read(true);
    ppu.clock(bus, cpu, true);
}

fn poke(ppu: &mut Ppu, bus: &mut PpuBus, cpu: &mut CpuBus, register: u16, data: u8) {
    cpu.set_address(0x2000 + register);
    cpu.set_data(data);
    cpu.set_read(false);
    ppu.clock(bus, cpu, true);
}

fn peek(ppu: &mut Ppu, bus: &mut PpuBus, cpu: &mut CpuBus, register: u16) -> u8 {
    cpu.set_address(0x2000 + register);
    cpu.set_read(true);
    ppu.clock(bus, cpu, true);
    cpu.data()
}

#[test]
fn frame_is_89342_dots_long() {
    let mut ppu = Ppu::start();
    let mut bus = PpuBus::new();
    let mut cpu = CpuBus::init();
    let mut last = [0, 0];
    for n in 1..=89342u32 {
        dot(&mut ppu, &mut bus, &mut cpu);
        let now = ppu.dot();
        if n < 89342 {
            assert!(now[1] > last[1] || (now[1] == last[1] && now[0] == last[0] + 1));
            assert_eq!(now, [n % 341, n / 341]);
        }
        last = now;
    }
    assert_eq!(ppu.dot(), [0, 0]);
    // The second frame is odd, but without rendering it is as long.
    for _ in 0..89341 {
        dot(&mut ppu, &mut bus, &mut cpu);
    }
    assert_eq!(ppu.dot(), [340, 261]);
    dot(&mut ppu, &mut bus, &mut cpu);
    assert_eq!(ppu.dot(), [0, 0]);
}

#[test]
fn odd_frame_with_rendering_skips_a_dot() {
    let mut ppu = Ppu::start();
    let mut bus = PpuBus::new();
    let mut cpu = CpuBus::init();
    poke(&mut ppu, &mut bus, &mut cpu, 1, 0x08);
    for _ in 1..89342 {
        dot(&mut ppu, &mut bus, &mut cpu);
    }
    assert_eq!(ppu.dot(), [0, 0]);
    for _ in 0..89340 {
        dot(&mut ppu, &mut bus, &mut cpu);
    }
    assert_eq!(ppu.dot(), [339, 261]);
    dot(&mut ppu, &mut bus, &mut cpu);
    assert_eq!(ppu.dot(), [0, 0]);
    for _ in 0..89341 {
        dot(&mut ppu, &mut bus, &mut cpu);
    }
    assert_eq!(ppu.dot(), [340, 261]);
}

#[test]
fn vblank_is_set_and_cleared_at_dot_one() {
    let mut ppu = Ppu::start();
    let mut bus = PpuBus::new();
    let mut cpu = CpuBus::init();
    poke(&mut ppu, &mut bus, &mut cpu, 0, 0x80);
    while ppu.dot() != [1, 241] {
        assert!(!ppu.is_vblank());
        assert!(!cpu.nmi());
        dot(&mut ppu, &mut bus, &mut cpu);
    }
    assert!(!ppu.is_vblank());
    dot(&mut ppu, &mut bus, &mut cpu);
    assert!(ppu.is_vblank());
    assert!(cpu.nmi());
    while ppu.dot() != [1, 261] {
        assert!(ppu.is_vblank());
        dot(&mut ppu, &mut bus, &mut cpu);
    }
    assert!(ppu.is_vblank());
    dot(&mut ppu, &mut bus, &mut cpu);
    assert!(!ppu.is_vblank());
    assert!(!cpu.nmi());
}

#[test]
fn nmi_line_stays_low_when_not_enabled() {
    let mut ppu = Ppu::start();
    let mut bus = PpuBus::new();
    let mut cpu = CpuBus::init();
    while !ppu.is_vblank() {
        dot(&mut ppu, &mut bus, &mut cpu);
    }
    assert!(!cpu.nmi());
    // Enabling NMI during vertical blank raises the line at once.
    poke(&mut ppu, &mut bus, &mut cpu, 0, 0x80);
    assert!(cpu.nmi());
    // Reading the status clears the flag and with it the line.
    cpu.set_data(0x1F);
    assert_eq!(peek(&mut ppu, &mut bus, &mut cpu, 2), 0x9F);
    assert!(!ppu.is_vblank());
    assert!(!cpu.nmi());
}

#[test]
fn palette_entries_mirror() {
    let mut ppu = Ppu::start();
    let mut bus = PpuBus::new();
    let mut cpu = CpuBus::init();
    for (i, entry) in [0x00u8, 0x04, 0x08, 0x0C].into_iter().enumerate() {
        poke(&mut ppu, &mut bus, &mut cpu, 6, 0x3F);
        poke(&mut ppu, &mut bus, &mut cpu, 6, 0x10 + entry);
        poke(&mut ppu, &mut bus, &mut cpu, 7, 0x30 + i as u8);
        poke(&mut ppu, &mut bus, &mut cpu, 6, 0x3F);
        poke(&mut ppu, &mut bus, &mut cpu, 6, entry);
        assert_eq!(peek(&mut ppu, &mut bus, &mut cpu, 7), 0x30 + i as u8);
        // And the other way round.
        poke(&mut ppu, &mut bus, &mut cpu, 6, 0x3F);
        poke(&mut ppu, &mut bus, &mut cpu, 6, entry);
        poke(&mut ppu, &mut bus, &mut cpu, 7, 0x10 + i as u8);
        poke(&mut ppu, &mut bus, &mut cpu, 6, 0x3F);
        poke(&mut ppu, &mut bus, &mut cpu, 6, 0x10 + entry);
        assert_eq!(peek(&mut ppu, &mut bus, &mut cpu, 7), 0x10 + i as u8);
    }
    // The other entries do not mirror.
    poke(&mut ppu, &mut bus, &mut cpu, 6, 0x3F);
    poke(&mut ppu, &mut bus, &mut cpu, 6, 0x01);
    poke(&mut ppu, &mut bus, &mut cpu, 7, 0x05);
    poke(&mut ppu, &mut bus, &mut cpu, 6, 0x3F);
    poke(&mut ppu, &mut bus, &mut cpu, 6, 0x11);
    assert_eq!(peek(&mut ppu, &mut bus, &mut cpu, 7), 0);
    assert_eq!(ppu.palette()[0x01], 0x05);
}

#[test]
fn object_memory_round_trip() {
    let mut ppu = Ppu::start();
    let mut bus = PpuBus::new();
    let mut cpu = CpuBus::init();
    poke(&mut ppu, &mut bus, &mut cpu, 3, 0xFE);
    for byte in [0x11, 0x22, 0x33] {
        poke(&mut ppu, &mut bus, &mut cpu, 4, byte);
    }
    // The object address wrapped from $FF to $00.
    assert_eq!(ppu.oam()[0xFE], 0x11);
    assert_eq!(ppu.oam()[0xFF], 0x22);
    assert_eq!(ppu.oam()[0x00], 0x33);
    poke(&mut ppu, &mut bus, &mut cpu, 3, 0xFF);
    assert_eq!(peek(&mut ppu, &mut bus, &mut cpu, 4), 0x22);
    assert_eq!(peek(&mut ppu, &mut bus, &mut cpu, 4), 0x22);
}

#[test]
fn scroll_latch_is_determined_by_the_bytes() {
    let run = |preset: &[(u16, u8)]| {
        let mut ppu = Ppu::start();
        let mut bus = PpuBus::new();
        let mut cpu = CpuBus::init();
        for &(register, data) in preset {
            poke(&mut ppu, &mut bus, &mut cpu, register, data);
        }
        for (register, data) in [(5, 0x7D), (5, 0x5E), (6, 0x2D), (6, 0xF0)] {
            poke(&mut ppu, &mut bus, &mut cpu, register, data);
        }
        // `v` shows in where a write through the data port lands.
        poke(&mut ppu, &mut bus, &mut cpu, 7, 0x66);
        dot(&mut ppu, &mut bus, &mut cpu);
        (bus.address(), bus.data(), bus.wr())
    };
    let plain = run(&[]);
    assert_eq!(plain, (0x2DF0, 0x66, true));
    assert_eq!(run(&[(6, 0x3F), (6, 0xFF), (5, 0xFF), (5, 0xFF), (0, 0x03)]), plain);
    assert_eq!(run(&[(5, 0x12), (5, 0x34)]), plain);
}

#[test]
fn data_port_increment() {
    let mut ppu = Ppu::start();
    let mut bus = PpuBus::new();
    let mut cpu = CpuBus::init();
    poke(&mut ppu, &mut bus, &mut cpu, 0, 0x04);
    poke(&mut ppu, &mut bus, &mut cpu, 6, 0x3F);
    poke(&mut ppu, &mut bus, &mut cpu, 6, 0xF0);
    poke(&mut ppu, &mut bus, &mut cpu, 7, 0x01);
    // $3FF0 + 32 wraps within fourteen bits to $0010.
    poke(&mut ppu, &mut bus, &mut cpu, 7, 0x02);
    dot(&mut ppu, &mut bus, &mut cpu);
    assert_eq!((bus.address(), bus.data(), bus.wr()), (0x0010, 0x02, true));
    dot(&mut ppu, &mut bus, &mut cpu);
    assert!(!bus.wr() && !bus.rd());
}

#[test]
fn sprite_overflow_and_sprite_pixels() {
    let mut ppu = Ppu::start();
    let mut bus = PpuBus::new();
    let mut cpu = CpuBus::init();
    // Nine sprites on line 20, the rest far below.
    poke(&mut ppu, &mut bus, &mut cpu, 3, 0);
    for i in 0..64u8 {
        poke(&mut ppu, &mut bus, &mut cpu, 4, if i < 9 { 20 } else { 0xF0 });
        poke(&mut ppu, &mut bus, &mut cpu, 4, 1);
        poke(&mut ppu, &mut bus, &mut cpu, 4, 0);
        poke(&mut ppu, &mut bus, &mut cpu, 4, i.wrapping_mul(8));
    }
    poke(&mut ppu, &mut bus, &mut cpu, 1, 0x18);
    let overflow = |ppu: &mut Ppu, bus: &mut PpuBus, cpu: &mut CpuBus| {
        cpu.set_data(0);
        peek(ppu, bus, cpu, 2) & 0x20 != 0
    };
    while ppu.dot() != [257, 19] {
        dot(&mut ppu, &mut bus, &mut cpu);
    }
    dot(&mut ppu, &mut bus, &mut cpu);
    assert!(!overflow(&mut ppu, &mut bus, &mut cpu));
    while ppu.dot() != [257, 20] {
        dot(&mut ppu, &mut bus, &mut cpu);
    }
    dot(&mut ppu, &mut bus, &mut cpu);
    assert!(overflow(&mut ppu, &mut bus, &mut cpu));
    // The flag stays until the pre-render line.
    while ppu.dot() != [1, 261] {
        dot(&mut ppu, &mut bus, &mut cpu);
    }
    assert!(overflow(&mut ppu, &mut bus, &mut cpu));
    dot(&mut ppu, &mut bus, &mut cpu);
    assert!(!overflow(&mut ppu, &mut bus, &mut cpu));
}

#[test]
fn input_ports_give_out_the_buttons() {
    let mut input = Input::init();
    input.controller_mut(0).set_a(true);
    input.controller_mut(0).set_select(true);
    input.controller_mut(0).set_a(false);
    input.controller_mut(0).set_b(true);
    input.controller_mut(1).set_right(true);
    input.controller_mut(1).set_start(true);
    input.controller_mut(1).set_up(true);
    input.controller_mut(1).set_down(true);
    input.controller_mut(1).set_left(true);
    input.controller_mut(1).set_up(false);
    assert_eq!(*input.controller_mut(0), Buttons(0b0000_0110));
    assert_eq!(*input.controller_mut(1), Buttons(0b1110_1000));
    let mut cpu = CpuBus::init();
    let write = |input: &mut Input, cpu: &mut CpuBus, address: u16, data: u8| {
        cpu.set_address(address);
        cpu.set_data(data);
        cpu.set_read(false);
        input.cycle(cpu);
    };
    let read = |input: &mut Input, cpu: &mut CpuBus, address: u16| {
        cpu.set_address(address);
        cpu.set_read(true);
        input.cycle(cpu);
        cpu.data()
    };
    write(&mut input, &mut cpu, 0x4016, 1);
    // While the strobe is high the first button is given out again and
    // again.
    assert_eq!(read(&mut input, &mut cpu, 0x4016), 0x40);
    assert_eq!(read(&mut input, &mut cpu, 0x4016), 0x40);
    write(&mut input, &mut cpu, 0x4016, 0);
    let first: Vec<u8> = (0..10).map(|_| read(&mut input, &mut cpu, 0x4016)).collect();
    assert_eq!(first, vec![0x40, 0x41, 0x41, 0x40, 0x40, 0x40, 0x40, 0x40, 0x41, 0x41]);
    let second: Vec<u8> = (0..9).map(|_| read(&mut input, &mut cpu, 0x4017)).collect();
    assert_eq!(second, vec![0x40, 0x40, 0x40, 0x41, 0x40, 0x41, 0x41, 0x41, 0x41]);
    // A write to $4017 is no strobe, another address is not a port.
    write(&mut input, &mut cpu, 0x4017, 1);
    assert_eq!(read(&mut input, &mut cpu, 0x4016), 0x41);
    cpu.set_data(0x12);
    assert_eq!(read(&mut input, &mut cpu, 0x4018), 0x12);
}

#[test]
fn controller_latches() {
    let mut port = Controller::new();
    port.set_a(true);
    port.set_b(true);
    port.set_select(true);
    port.set_start(true);
    port.set_up(true);
    port.set_down(true);
    port.set_left(true);
    port.set_right(true);
    assert_eq!(port.latch, 0xFF);
    port.set_b(false);
    port.set_left(false);
    assert_eq!(port.latch, 0b1011_1101);
    assert_eq!(port.shift, 0xFF);
}

#[test]
fn frame_counter_raises_its_interrupt() {
    let mut apu = Apu::start();
    let mut bus = CpuBus::init();
    let mut clock = |apu: &mut Apu, bus: &mut CpuBus, address: u16, read: bool, data: u8| {
        bus.set_irq(false);
        bus.set_address(address);
        bus.set_read(read);
        bus.set_data(data);
        apu.clock(bus);
        (bus.irq(), bus.data())
    };
    // The interrupt is inhibited at power-on: a whole sequence passes
    // without it.
    for _ in 0..2 * 14915 {
        assert!(!clock(&mut apu, &mut bus, 0, true, 0).0);
    }
    // Mode 0 with the interrupt allowed.
    clock(&mut apu, &mut bus, 0x4017, false, 0x00);
    let mut waited = 0;
    while !clock(&mut apu, &mut bus, 0, true, 0).0 {
        waited += 1;
        assert!(waited < 4 * 29830);
    }
    // The flag shows in bit 6 of $4015, and reading clears it.
    assert_eq!(clock(&mut apu, &mut bus, 0x4015, true, 0).1, 0x40);
    assert_eq!(clock(&mut apu, &mut bus, 0x4015, true, 0), (false, 0x00));
}

#[test]
fn joystick_at_the_master_clock() {
    let mut joystick = Joystick::new();
    joystick.set_button(0, 0, true);
    joystick.set_button(0, 2, true);
    joystick.set_button(1, 7, true);
    let mut lines = NesLines::new();
    let mut access = |joystick: &mut Joystick, address: u16, read: bool, data: u8| {
        lines.cpu_address = address;
        lines.cpu_read = read;
        lines.cpu_data = data;
        lines.cpu_m2 = false;
        joystick.master_cycle(&mut lines);
        lines.cpu_m2 = true;
        joystick.master_cycle(&mut lines);
        // Nothing happens while M2 stays high.
        let data = lines.cpu_data;
        joystick.master_cycle(&mut lines);
        assert_eq!(lines.cpu_data, data);
        data
    };
    access(&mut joystick, 0x4016, false, 1);
    access(&mut joystick, 0x4016, false, 0);
    let first: Vec<u8> = (0..9).map(|_| access(&mut joystick, 0x4016, true, 0)).collect();
    assert_eq!(first, vec![0x41, 0x40, 0x41, 0x40, 0x40, 0x40, 0x40, 0x40, 0x41]);
    let second: Vec<u8> = (0..9).map(|_| access(&mut joystick, 0x4017, true, 0)).collect();
    assert_eq!(second, vec![0x40, 0x40, 0x40, 0x40, 0x40, 0x40, 0x40, 0x41, 0x41]);
    assert!(NesLines::new().everyone_reads_cpu_bus());
}

#[test]
fn dma_at_the_master_clock() {
    let mut dma = Dma::new();
    let mut lines = NesLines::new();
    lines.cpu_address = 0x4014;
    lines.cpu_data = 0x03;
    lines.cpu_read = false;
    lines.cpu_m2 = true;
    dma.master_cycle(&mut lines);
    assert!(lines.oam_dma_halts_cpu);
    lines.cpu_read = true;
    lines.cpu_halted = true;
    let mut reads = Vec::new();
    let mut writes = 0;
    let mut ticks = 0;
    while lines.oam_dma_halts_cpu {
        lines.cpu_m2 = !lines.cpu_m2;
        let before = lines.cpu_address;
        dma.master_cycle(&mut lines);
        if lines.cpu_address != before {
            if lines.oam_dma_writes {
                assert_eq!(lines.cpu_address, 0x2004);
                writes += 1;
            } else {
                reads.push(lines.cpu_address);
            }
        }
        ticks += 1;
        assert!(ticks < 12 * 600);
    }
    assert_eq!(writes, 256);
    assert_eq!(reads.len(), 256);
    assert_eq!(reads[0], 0x0300);
    assert_eq!(reads[255], 0x03FF);
    assert!(!lines.oam_dma_writes);
}

#[test]
fn oam_dma_unit_of_the_package() {
    let mut dma = OamDma::init();
    let mut pins = DmaPins::init();
    assert!(!dma.out().halt_cpu);
    pins.address = 0x4014;
    pins.data = 0x07;
    pins.read = false;
    pins.m2 = true;
    dma.master_cycle(pins);
    assert!(dma.out().halt_cpu);
    assert_eq!(dma.out().address, None);
    pins.read = true;
    pins.cpu_halted = true;
    pins.address = 0;
    let mut reads = Vec::new();
    let mut writes = 0;
    let mut ticks = 0;
    loop {
        pins.m2 = !pins.m2;
        pins.data = ticks as u8;
        let before = dma.out();
        dma.master_cycle(pins);
        let after = dma.out();
        if after != before {
            match (after.address, after.read) {
                (Some(0x2004), false) => {
                    writes += 1;
                    assert_eq!(after.data, Some(ticks as u8));
                }
                (Some(address), true) => reads.push(address),
                (None, true) => break,
                other => panic!("{other:?}"),
            }
        }
        ticks += 1;
        assert!(ticks < 2000);
    }
    assert_eq!(writes, 256);
    assert_eq!(reads.len(), 256);
    assert_eq!((reads[0], reads[255]), (0x0700, 0x07FF));
    assert!(!dma.out().halt_cpu);
}

#[test]
fn sound_unit_registers() {
    let mut apu = SoundUnit::init();
    let mut pins = AInPins::init();
    let mut access = |apu: &mut SoundUnit, address: u16, read: bool, data: u8| {
        pins.address = address;
        pins.read = read;
        pins.data = data;
        pins.m2 = false;
        apu.master_cycle(pins);
        pins.m2 = true;
        apu.master_cycle(pins);
        apu.out()
    };
    // The frame interrupt flag is up while the sequence is at its first
    // tick, as at power-on.
    assert!(access(&mut apu, 0x4000, true, 0).irq);
    let out = access(&mut apu, 0x4015, true, 0);
    assert_eq!(out.data, Some(0x40));
    assert!(!out.irq);
    assert!(!access(&mut apu, 0x4017, false, 0xC0).irq);
    assert_eq!(access(&mut apu, 0x4015, true, 0).data, Some(0x00));
}

#[test]
fn processor_package_arbitrates_the_buses() {
    let mut processor = Processor::new();
    let pins = InPins { data: 0x99, reset: false, irq: true, nmi: false };
    let core_pins = processor.master_cycle(pins).unwrap();
    assert!(core_pins.irq && core_pins.ready && !core_pins.nmi);
    assert_eq!(processor.cpu_pins(), core_pins);
    // The core writes.
    processor.finish_cycle(
        pins,
        CoreOut { address: 0x0123, data: 0x45, read: false, sync: false, halted: false },
    );
    let out = processor.out();
    assert_eq!((out.address, out.data, out.read, out.m2), (0x0123, 0x45, false, false));
    assert_eq!(processor.cpu_cycle(), 1);
    assert_eq!(processor.cpu().address, 0x0123);
    // For the next eleven ticks the core is not clocked; M2 rises half way.
    for tick in 1..12 {
        assert!(processor.master_cycle(pins).is_none());
        assert_eq!(processor.out().m2, tick >= 6);
        processor.finish_cycle(
            pins,
            CoreOut { address: 0x0123, data: 0x45, read: true, sync: true, halted: false },
        );
    }
    assert_eq!(processor.cpu_cycle(), 0);
    let out = processor.out();
    // The core reads: the data bus takes what comes from outside.
    assert_eq!((out.data, out.read, out.sync), (0x99, true, true));
    assert_eq!(processor.master_cycle(pins).unwrap().data, 0x99);
    let idle = InPins::init();
    assert!(!idle.irq && !idle.nmi && !idle.reset);
}

#[test]
fn pixel_buffer_sets_pixels() {
    let mut buffer = PixelBuffer::new();
    assert_eq!(PIXELS, WIDTH * HEIGHT);
    buffer.set_color(0, 0, 7);
    buffer.set_color(255, 239, 9);
    buffer.set_color(3, 2, 0x3F);
    assert_eq!(buffer.0[0], 7);
    assert_eq!(buffer.0[PIXELS - 1], 9);
    assert_eq!(buffer.0[2 * 256 + 3], 0x3F);
    assert_eq!(buffer.0.iter().filter(|&&p| p != 0).count(), 3);
}

#[test]
fn palette_colours() {
    assert_eq!(color_to_rgb(0x00), [84, 84, 84]);
    assert_eq!(color_to_rgb(0x01), [0, 30, 116]);
    assert_eq!(color_to_rgb(0x20), [236, 238, 236]);
    assert_eq!(color_to_rgb(0x3C), [160, 214, 228]);
    assert_eq!(color_to_rgb(0x3F), [0, 0, 0]);
    assert_eq!(color_to_rgb(0x41), color_to_rgb(0x01));
}

#[test]
fn renderer_draws_background_and_sprites() {
    let mut pattern_table = [0u8; 8192];
    // Tile 1: a full block of pattern 1. Tile 2: left half pattern 2.
    for row in 0..8 {
        pattern_table[16 + row] = 0xFF;
        pattern_table[32 + 8 + row] = 0xF0;
    }
    let mut nametable = [0u8; 4096];
    // The tile at column 2, row 1 of the first table is tile 1.
    nametable[32 + 2] = 1;
    // Its attribute byte gives the upper right quadrant palette 2.
    nametable[960] = 0x08;
    let mut oam = [0xF0u8; 256];
    // Sprite 0: tile 2 at (16, 8), in front, over the background tile.
    oam[0..4].copy_from_slice(&[7, 2, 0x01, 16]);
    // Sprite 1: tile 2 at (100, 100), behind the background.
    oam[4..8].copy_from_slice(&[99, 2, 0x23, 100]);
    let mut palettes = [[0u8; 3]; 8];
    palettes[2] = [0x11, 0x12, 0x13];
    palettes[5] = [0x21, 0x22, 0x23];
    palettes[7] = [0x31, 0x32, 0x33];
    let renderer = Renderer::new(
        &pattern_table,
        &nametable,
        &oam,
        false,
        false,
        false,
        0x0F,
        palettes,
        Scroll { x: (0, 0), y: (0, 0) },
    );
    let mut frame = vec![[1u8; 3]; 61440];
    let frame: &mut [[u8; 3]; 61440] = frame.as_mut_slice().try_into().unwrap();
    let (hit, overflow) = renderer.render(frame);
    assert!(hit);
    assert!(!overflow);
    // Universal background colour.
    assert_eq!(frame[0], color_to_rgb(0x0F));
    // The background tile, right half, not covered by the sprite.
    assert_eq!(frame[8 * 256 + 20], color_to_rgb(0x11));
    // The sprite's left half over the tile: palette 5, pattern 2.
    assert_eq!(frame[8 * 256 + 16], color_to_rgb(0x22));
    assert_eq!(frame[15 * 256 + 19], color_to_rgb(0x22));
    // Sprite 1 lies behind, but the background is transparent there.
    assert_eq!(frame[100 * 256 + 100], color_to_rgb(0x32));
    assert_eq!(frame[100 * 256 + 104], color_to_rgb(0x0F));
}

#[test]
fn renderer_scrolls_over_the_nametables() {
    let mut pattern_table = [0u8; 8192];
    for row in 0..8 {
        pattern_table[0x1000 + 16 + row] = 0x80;
        pattern_table[0x1000 + 16 + 8 + row] = 0x80;
    }
    let mut nametable = [0u8; 4096];
    // The first tile of the second table.
    nametable[1024] = 1;
    let oam = [0xF0u8; 256];
    let mut palettes = [[0u8; 3]; 8];
    palettes[0] = [0x01, 0x02, 0x03];
    let renderer = Renderer::new(
        &pattern_table,
        &nametable,
        &oam,
        false,
        false,
        true,
        0x0F,
        palettes,
        Scroll { x: (0xF8, 0), y: (0, 0) },
    );
    let mut frame = vec![[0u8; 3]; 61440];
    let frame: &mut [[u8; 3]; 61440] = frame.as_mut_slice().try_into().unwrap();
    let (hit, _) = renderer.render(frame);
    assert!(!hit);
    // The tile shows eight pixels in from the left; its leftmost pixel has
    // pattern 3.
    assert_eq!(frame[8], color_to_rgb(0x03));
    assert_eq!(frame[9], color_to_rgb(0x0F));
    assert_eq!(frame[7], color_to_rgb(0x0F));
}
