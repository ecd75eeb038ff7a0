use gmbr::cpu::{parse_destination_register, parse_source_register_index, MBCType, UnimplementedOpcode, CPU};
use gmbr::mbc::LoadError;
use gmbr::registers::CpuFlags;

fn image_with(program_at: usize, program: &[u8]) -> Vec<u8> {
    let mut rom = vec![0u8; 32768];
    rom[0x0100] = 0x00;
    rom[0x0101] = 0xC3;
    rom[program_at..program_at + program.len()].copy_from_slice(program);
    rom
}

fn machine(program: &[u8]) -> CPU {
    let mut cpu = CPU::new();
    for (i, byte) in program.iter().enumerate() {
        cpu.write_byte(0xC000 + i as u16, *byte);
    }
    cpu.registers.pc = 0xC000;
    cpu
}

fn run(cpu: &mut CPU, instructions: usize) -> u32 {
    let mut cycles = 0;
    for _ in 0..instructions {
        cycles += cpu.do_cycle().unwrap() as u32;
    }
    cycles
}

#[test]
fn power_on_machine() {
    let cpu = CPU::new();
    assert_eq!(cpu.registers.a, 0x01);
    assert_eq!(cpu.registers.flags(), 0xB0);
    assert_eq!(cpu.registers.sp, 0xFFFE);
    assert_eq!(cpu.registers.pc, 0x0100);
    assert!(!cpu.cb_prefix);
    assert!(!cpu.interrupt_controller.ime());
    CPU::swap_mbc(MBCType::MBC0);
}

#[test]
fn nop_costs_one_cycle_and_changes_nothing() {
    let mut cpu = CPU::new();
    assert_eq!(cpu.open_rom(image_with(0x0100, &[0x00])), Ok(()));
    let before = cpu.registers;
    assert_eq!(cpu.do_cycle(), Ok(1));
    assert_eq!(cpu.registers.pc, 0x0101);
    let mut expected = before;
    expected.pc = 0x0101;
    assert_eq!(cpu.registers, expected);
}

#[test]
fn relative_jump_back_by_two() {
    let mut cpu = CPU::new();
    assert_eq!(cpu.open_rom(image_with(0x014F, &[0x18, 0xFE])), Ok(()));
    cpu.registers.pc = 0x014F;
    assert_eq!(cpu.do_cycle(), Ok(3));
    assert_eq!(cpu.registers.pc, 0x014F);
    cpu.registers.pc = 0x0150;
    assert_eq!(cpu.calculate_jr_address(), 0x014F);
    assert_eq!(cpu.registers.pc, 0x0151);
}

#[test]
fn relative_jumps_forward_and_conditional() {
    let mut cpu = machine(&[0x18, 0x05, 0, 0, 0, 0, 0, 0x20, 0x02, 0x28, 0x10, 0x30, 0x7F, 0x38, 0x80]);
    assert_eq!(cpu.do_cycle(), Ok(3));
    assert_eq!(cpu.registers.pc, 0xC007);
    cpu.registers.setaf(0x0080);
    assert_eq!(cpu.do_cycle(), Ok(2));
    assert_eq!(cpu.registers.pc, 0xC009);
    assert_eq!(cpu.do_cycle(), Ok(3));
    assert_eq!(cpu.registers.pc, 0xC01B);
    cpu.registers.pc = 0xC00B;
    assert_eq!(cpu.do_cycle(), Ok(3));
    assert_eq!(cpu.registers.pc, 0xC08C);
    cpu.registers.pc = 0xC00D;
    assert_eq!(cpu.do_cycle(), Ok(2));
    assert_eq!(cpu.registers.pc, 0xC00F);
    cpu.registers.pc = 0xC00D;
    cpu.registers.set_flags(CpuFlags::C, true);
    assert_eq!(cpu.do_cycle(), Ok(3));
    assert_eq!(cpu.registers.pc, 0xBF8F);
}

#[test]
fn loads_of_immediates() {
    let mut cpu = machine(&[
        0x01, 0x34, 0x12, 0x11, 0x78, 0x56, 0x21, 0x00, 0xC1, 0x31, 0xF0, 0xDF, 0x06, 1, 0x0E, 2, 0x16, 3, 0x1E, 4, 0x26,
        0xC2, 0x2E, 6, 0x3E, 7, 0x36, 0x99,
    ]);
    assert_eq!(run(&mut cpu, 4), 12);
    assert_eq!(cpu.registers.bc(), 0x1234);
    assert_eq!(cpu.registers.de(), 0x5678);
    assert_eq!(cpu.registers.hl(), 0xC100);
    assert_eq!(cpu.registers.sp, 0xDFF0);
    assert_eq!(run(&mut cpu, 7), 14);
    assert_eq!(cpu.registers.bc(), 0x0102);
    assert_eq!(cpu.registers.de(), 0x0304);
    assert_eq!(cpu.registers.hl(), 0xC206);
    assert_eq!(cpu.registers.a, 7);
    assert_eq!(cpu.do_cycle(), Ok(3));
    assert_eq!(cpu.read_byte(0xC206), 0x99);
    assert_eq!(cpu.registers.pc, 0xC000 + 28);
}

#[test]
fn register_moves() {
    let mut cpu = machine(&[0x41, 0x7B, 0x70, 0x5E, 0x6C, 0x7F, 0x66]);
    cpu.registers.setbc(0x1122);
    cpu.registers.setde(0x3344);
    cpu.registers.sethl(0xC800);
    assert_eq!(cpu.do_cycle(), Ok(1));
    assert_eq!(cpu.registers.b, 0x22);
    assert_eq!(cpu.do_cycle(), Ok(1));
    assert_eq!(cpu.registers.a, 0x44);
    assert_eq!(cpu.do_cycle(), Ok(2));
    assert_eq!(cpu.read_byte(0xC800), 0x22);
    assert_eq!(cpu.do_cycle(), Ok(2));
    assert_eq!(cpu.registers.e, 0x22);
    assert_eq!(cpu.do_cycle(), Ok(1));
    assert_eq!(cpu.registers.l, 0xC8);
    assert_eq!(cpu.do_cycle(), Ok(1));
    assert_eq!(cpu.registers.a, 0x44);
    cpu.write_byte(0xC8C8, 0xD0);
    assert_eq!(cpu.do_cycle(), Ok(2));
    assert_eq!(cpu.registers.hl(), 0xD0C8);
}

#[test]
fn arithmetic_on_registers_and_memory() {
    let mut cpu = machine(&[0x80, 0x8E, 0x96, 0x9F, 0xA1, 0xA8, 0xB6, 0xE6, 0x0F, 0xFE, 0x0A]);
    cpu.registers.setaf(0x1000);
    cpu.registers.setbc(0xF00F);
    cpu.registers.sethl(0xC900);
    cpu.write_byte(0xC900, 0x01);
    assert_eq!(cpu.do_cycle(), Ok(1));
    assert_eq!(cpu.registers.af(), 0x0090);
    assert_eq!(cpu.do_cycle(), Ok(2));
    assert_eq!(cpu.registers.af(), 0x0200);
    assert_eq!(cpu.do_cycle(), Ok(2));
    assert_eq!(cpu.registers.af(), 0x0140);
    assert_eq!(cpu.do_cycle(), Ok(1));
    assert_eq!(cpu.registers.af(), 0x00C0);
    cpu.registers.a = 0xFF;
    assert_eq!(cpu.do_cycle(), Ok(1));
    assert_eq!(cpu.registers.af(), 0x0F20);
    assert_eq!(cpu.do_cycle(), Ok(1));
    assert_eq!(cpu.registers.af(), 0xFF00);
    assert_eq!(cpu.do_cycle(), Ok(2));
    assert_eq!(cpu.registers.af(), 0xFF00);
    assert_eq!(cpu.do_cycle(), Ok(2));
    assert_eq!(cpu.registers.af(), 0x0F20);
    assert_eq!(cpu.do_cycle(), Ok(2));
    assert_eq!(cpu.registers.af(), 0x0F40);
}

#[test]
fn increments_and_decrements() {
    let mut cpu = machine(&[0x04, 0x0D, 0x34, 0x35, 0x35, 0x03, 0x1B, 0x23, 0x2B, 0x33, 0x3B, 0x3C, 0x3D]);
    cpu.registers.setaf(0x0010);
    cpu.registers.setbc(0xFF00);
    cpu.registers.setde(0x0000);
    cpu.registers.sethl(0xC900);
    cpu.registers.sp = 0xFFFF;
    assert_eq!(cpu.do_cycle(), Ok(1));
    assert_eq!(cpu.registers.b, 0x00);
    assert_eq!(cpu.registers.flags(), 0xB0);
    assert_eq!(cpu.do_cycle(), Ok(1));
    assert_eq!(cpu.registers.c, 0xFF);
    assert_eq!(cpu.registers.flags(), 0x70);
    assert_eq!(cpu.do_cycle(), Ok(3));
    assert_eq!(cpu.read_byte(0xC900), 0x01);
    assert_eq!(cpu.registers.flags(), 0x10);
    assert_eq!(cpu.do_cycle(), Ok(3));
    assert_eq!(cpu.read_byte(0xC900), 0x00);
    assert_eq!(cpu.registers.flags(), 0xD0);
    assert_eq!(cpu.do_cycle(), Ok(3));
    assert_eq!(cpu.read_byte(0xC900), 0xFF);
    assert_eq!(cpu.registers.flags(), 0x70);
    assert_eq!(run(&mut cpu, 6), 12);
    assert_eq!(cpu.registers.bc(), 0x0100);
    assert_eq!(cpu.registers.de(), 0xFFFF);
    assert_eq!(cpu.registers.hl(), 0xC900);
    assert_eq!(cpu.registers.sp, 0xFFFF);
    assert_eq!(cpu.registers.flags(), 0x70);
    assert_eq!(run(&mut cpu, 2), 2);
    assert_eq!(cpu.registers.a, 0x00);
    assert_eq!(cpu.registers.flags(), 0xD0);
}

#[test]
fn memory_through_register_pairs() {
    let mut cpu = machine(&[0x02, 0x12, 0x22, 0x32, 0x0A, 0x1A, 0x2A, 0x3A, 0x08, 0x00, 0xCA, 0xEA, 0x10, 0xCA, 0xFA, 0x00, 0xCA]);
    cpu.registers.a = 0x5A;
    cpu.registers.setbc(0xC900);
    cpu.registers.setde(0xC901);
    cpu.registers.sethl(0xC902);
    cpu.registers.sp = 0xBEEF;
    assert_eq!(run(&mut cpu, 4), 8);
    assert_eq!(cpu.read_byte(0xC900), 0x5A);
    assert_eq!(cpu.read_byte(0xC901), 0x5A);
    assert_eq!(cpu.read_byte(0xC902), 0x5A);
    assert_eq!(cpu.read_byte(0xC903), 0x5A);
    assert_eq!(cpu.registers.hl(), 0xC902);
    cpu.write_byte(0xC900, 1);
    cpu.write_byte(0xC901, 2);
    cpu.write_byte(0xC902, 3);
    cpu.write_byte(0xC903, 4);
    assert_eq!(cpu.do_cycle(), Ok(2));
    assert_eq!(cpu.registers.a, 1);
    assert_eq!(cpu.do_cycle(), Ok(2));
    assert_eq!(cpu.registers.a, 2);
    assert_eq!(cpu.do_cycle(), Ok(2));
    assert_eq!(cpu.registers.a, 3);
    assert_eq!(cpu.registers.hl(), 0xC903);
    assert_eq!(cpu.do_cycle(), Ok(2));
    assert_eq!(cpu.registers.a, 4);
    assert_eq!(cpu.registers.hl(), 0xC902);
    assert_eq!(cpu.do_cycle(), Ok(5));
    assert_eq!(cpu.read_word(0xCA00), 0xBEEF);
    assert_eq!(cpu.do_cycle(), Ok(4));
    assert_eq!(cpu.read_byte(0xCA10), 4);
    assert_eq!(cpu.do_cycle(), Ok(4));
    assert_eq!(cpu.registers.a, 0xEF);
}

#[test]
fn sixteen_bit_add_and_rotates() {
    let mut cpu = machine(&[0x09, 0x19, 0x29, 0x39, 0x07, 0x0F, 0x17, 0x1F, 0x2F, 0x3F]);
    cpu.registers.setaf(0x8580);
    cpu.registers.setbc(0x0001);
    cpu.registers.setde(0x0FFF);
    cpu.registers.sethl(0x0000);
    cpu.registers.sp = 0xE000;
    assert_eq!(cpu.do_cycle(), Ok(2));
    assert_eq!(cpu.registers.hl(), 0x0001);
    assert_eq!(cpu.registers.flags(), 0x80);
    assert_eq!(cpu.do_cycle(), Ok(2));
    assert_eq!(cpu.registers.hl(), 0x1000);
    assert_eq!(cpu.registers.flags(), 0xA0);
    assert_eq!(cpu.do_cycle(), Ok(2));
    assert_eq!(cpu.registers.hl(), 0x2000);
    assert_eq!(cpu.registers.flags(), 0x80);
    assert_eq!(cpu.do_cycle(), Ok(2));
    assert_eq!(cpu.registers.hl(), 0x0000);
    assert_eq!(cpu.registers.flags(), 0x90);
    assert_eq!(cpu.do_cycle(), Ok(1));
    assert_eq!(cpu.registers.af(), 0x0B10);
    assert_eq!(cpu.do_cycle(), Ok(1));
    assert_eq!(cpu.registers.af(), 0x8510);
    assert_eq!(cpu.do_cycle(), Ok(1));
    assert_eq!(cpu.registers.af(), 0x0B10);
    assert_eq!(cpu.do_cycle(), Ok(1));
    assert_eq!(cpu.registers.af(), 0x8510);
    assert_eq!(cpu.do_cycle(), Ok(1));
    assert_eq!(cpu.registers.af(), 0x7A70);
    assert_eq!(cpu.do_cycle(), Ok(1));
    assert_eq!(cpu.registers.af(), 0x7A00);
}

#[test]
fn stack_calls_and_returns() {
    let mut cpu = machine(&[0xCD, 0x10, 0xC0, 0xC5, 0xF5, 0xD1, 0xE1, 0xEF]);
    cpu.write_byte(0xC010, 0xC9);
    cpu.registers.sp = 0xD000;
    cpu.registers.setaf(0x12F0);
    cpu.registers.setbc(0x3456);
    assert_eq!(cpu.do_cycle(), Ok(6));
    assert_eq!(cpu.registers.pc, 0xC010);
    assert_eq!(cpu.registers.sp, 0xCFFE);
    assert_eq!(cpu.read_byte(0xCFFE), 0x03);
    assert_eq!(cpu.read_byte(0xCFFF), 0xC0);
    assert_eq!(cpu.do_cycle(), Ok(4));
    assert_eq!(cpu.registers.pc, 0xC003);
    assert_eq!(cpu.registers.sp, 0xD000);
    assert_eq!(run(&mut cpu, 2), 8);
    assert_eq!(cpu.registers.sp, 0xCFFC);
    assert_eq!(cpu.read_word(0xCFFE), 0x3456);
    assert_eq!(cpu.read_word(0xCFFC), 0x12F0);
    assert_eq!(run(&mut cpu, 2), 6);
    assert_eq!(cpu.registers.de(), 0x12F0);
    assert_eq!(cpu.registers.hl(), 0x3456);
    assert_eq!(cpu.registers.sp, 0xD000);
    assert_eq!(cpu.do_cycle(), Ok(4));
    assert_eq!(cpu.registers.pc, 0x0028);
    assert_eq!(cpu.read_word(0xCFFE), 0xC008);
    cpu.push_to_stack(0xABCD);
    assert_eq!(cpu.pop_from_stack(), 0xABCD);
    cpu.write_word(0xCF00, 0x12FF);
    cpu.registers.sp = 0xCF00;
    cpu.write_byte(0x0028, 0);
    cpu.registers.pc = 0xC100;
    cpu.write_byte(0xC100, 0xF1);
    assert_eq!(cpu.do_cycle(), Ok(3));
    assert_eq!(cpu.registers.af(), 0x12F0);
}

#[test]
fn conditional_returns_and_jumps() {
    let mut cpu = machine(&[0xC0, 0xC8, 0xCA, 0x00, 0xC1, 0xC3, 0x00, 0xC2, 0xE9, 0xD9]);
    cpu.registers.sp = 0xD000;
    cpu.push_to_stack(0xC001);
    cpu.registers.setaf(0x0080);
    assert_eq!(cpu.do_cycle(), Ok(2));
    assert_eq!(cpu.registers.pc, 0xC001);
    assert_eq!(cpu.do_cycle(), Ok(5));
    assert_eq!(cpu.registers.pc, 0xC001);
    assert_eq!(cpu.registers.sp, 0xD000);
    cpu.registers.setaf(0x0000);
    assert_eq!(cpu.do_cycle(), Ok(2));
    assert_eq!(cpu.do_cycle(), Ok(3));
    assert_eq!(cpu.registers.pc, 0xC005);
    cpu.registers.pc = 0xC002;
    cpu.registers.setaf(0x0080);
    assert_eq!(cpu.do_cycle(), Ok(4));
    assert_eq!(cpu.registers.pc, 0xC100);
    cpu.registers.pc = 0xC005;
    assert_eq!(cpu.do_cycle(), Ok(4));
    assert_eq!(cpu.registers.pc, 0xC200);
    cpu.registers.pc = 0xC008;
    cpu.registers.sethl(0x1234);
    assert_eq!(cpu.do_cycle(), Ok(1));
    assert_eq!(cpu.registers.pc, 0x1234);
    cpu.registers.pc = 0xC000;
    cpu.registers.setaf(0x0000);
    cpu.push_to_stack(0xC009);
    assert_eq!(cpu.do_cycle(), Ok(5));
    assert_eq!(cpu.registers.pc, 0xC009);
    cpu.push_to_stack(0x4321);
    assert!(!cpu.interrupt_controller.ime());
    assert_eq!(cpu.do_cycle(), Ok(4));
    assert_eq!(cpu.registers.pc, 0x4321);
    assert!(cpu.interrupt_controller.ime());
}

#[test]
fn interrupt_latch_instructions() {
    let mut cpu = machine(&[0xFB, 0xF3]);
    assert_eq!(cpu.do_cycle(), Ok(1));
    assert!(cpu.interrupt_controller.ime());
    assert_eq!(cpu.do_cycle(), Ok(1));
    assert!(!cpu.interrupt_controller.ime());
}

#[test]
fn extended_table() {
    let mut cpu = machine(&[0xCB, 0x00, 0xCB, 0x09, 0xCB, 0x37, 0xCB, 0x87, 0xCB, 0xBE, 0xCB, 0x06, 0xCB, 0x36, 0xCB, 0x40]);
    cpu.registers.setaf(0xF100);
    cpu.registers.setbc(0x8001);
    cpu.registers.sethl(0xC900);
    cpu.write_byte(0xC900, 0xFF);
    assert_eq!(cpu.do_cycle(), Ok(1));
    assert!(cpu.cb_prefix);
    assert_eq!(cpu.do_cycle(), Ok(1));
    assert!(!cpu.cb_prefix);
    assert_eq!(cpu.registers.b, 0x01);
    assert_eq!(cpu.registers.flags(), 0x10);
    assert_eq!(run(&mut cpu, 2), 2);
    assert_eq!(cpu.registers.c, 0x80);
    assert_eq!(cpu.registers.flags(), 0x10);
    assert_eq!(run(&mut cpu, 2), 2);
    assert_eq!(cpu.registers.a, 0x1F);
    assert_eq!(cpu.registers.flags(), 0x10);
    assert_eq!(run(&mut cpu, 2), 2);
    assert_eq!(cpu.registers.a, 0x1E);
    assert_eq!(run(&mut cpu, 2), 4);
    assert_eq!(cpu.read_byte(0xC900), 0x7F);
    assert_eq!(run(&mut cpu, 2), 4);
    assert_eq!(cpu.read_byte(0xC900), 0xFE);
    assert_eq!(cpu.registers.flags(), 0x00);
    assert_eq!(run(&mut cpu, 2), 4);
    assert_eq!(cpu.read_byte(0xC900), 0xEF);
    assert_eq!(cpu.do_cycle(), Ok(1));
    assert_eq!(cpu.do_cycle(), Err(UnimplementedOpcode { opcode: 0x40, prefixed: true }));
    assert!(!cpu.cb_prefix);
    assert_eq!(cpu.registers.pc, 0xC010);
}

#[test]
fn opcodes_that_are_not_executed() {
    let missing = [
        0x10u8, 0x27, 0x37, 0x76, 0xB8, 0xBF, 0xC2, 0xC4, 0xC6, 0xC7, 0xCC, 0xCE, 0xCF, 0xD0, 0xD2, 0xD3, 0xD4, 0xD6,
        0xD7, 0xD8, 0xDA, 0xDB, 0xDC, 0xDD, 0xDE, 0xDF, 0xE3, 0xE4, 0xE7, 0xE8, 0xEB, 0xEC, 0xED, 0xEE, 0xF2, 0xF4,
        0xF6, 0xF7, 0xF8, 0xF9, 0xFC, 0xFD, 0xFF,
    ];
    let mut reported = 0;
    for opcode in 0..=255u8 {
        let mut cpu = machine(&[opcode, 0x00, 0xC9]);
        cpu.registers.sp = 0xD000;
        cpu.registers.sethl(0xC900);
        let before = cpu.registers;
        let outcome = cpu.do_cycle();
        if missing.contains(&opcode) || (0xB8..=0xBF).contains(&opcode) {
            assert_eq!(outcome, Err(UnimplementedOpcode { opcode, prefixed: false }));
            let mut expected = before;
            expected.pc = 0xC001;
            assert_eq!(cpu.registers, expected);
            reported += 1;
        } else {
            let cycles = outcome.unwrap();
            assert!((1..=6).contains(&cycles));
        }
    }
    assert_eq!(reported, 49);
    let mut reported = 0;
    for opcode in 0..=255u8 {
        let mut cpu = machine(&[0xCB, opcode]);
        cpu.registers.sethl(0xC900);
        assert_eq!(cpu.do_cycle(), Ok(1));
        let implemented = opcode < 0x10 || (0x30..0x38).contains(&opcode) || (0x80..0xC0).contains(&opcode);
        match cpu.do_cycle() {
            Ok(cycles) => {
                assert!(implemented);
                assert_eq!(cycles, if opcode & 7 == 6 { 3 } else { 1 });
            }
            Err(e) => {
                assert!(!implemented);
                assert_eq!(e, UnimplementedOpcode { opcode, prefixed: true });
                reported += 1;
            }
        }
    }
    assert_eq!(reported, 256 - 16 - 8 - 64);
}

#[test]
fn an_empty_machine_reports_the_open_bus() {
    let mut cpu = CPU::new();
    assert_eq!(cpu.do_cycle(), Err(UnimplementedOpcode { opcode: 0xFF, prefixed: false }));
    assert_eq!(cpu.registers.pc, 0x0101);
    assert_eq!(cpu.open_rom(vec![0u8; 16384]), Err(LoadError::BadMagic));
}

#[test]
fn bus_routing() {
    let mut cpu = CPU::new();
    cpu.write_byte(0x8000, 0x11);
    assert_eq!(cpu.gpu.vram[0], 0x11);
    assert_eq!(cpu.read_byte(0x8000), 0x11);
    cpu.write_byte(0x9FFF, 0x12);
    assert_eq!(cpu.gpu.vram[0x1FFF], 0x12);
    cpu.write_byte(0xFE00, 0x13);
    cpu.write_byte(0xFE9F, 0x14);
    assert_eq!(cpu.gpu.oam[0], 0x13);
    assert_eq!(cpu.read_byte(0xFE9F), 0x14);
    cpu.write_byte(0xFEA0, 0x15);
    assert_eq!(cpu.read_byte(0xFEA0), 0xFF);
    assert_eq!(cpu.read_byte(0xFEFF), 0xFF);
    cpu.write_byte(0xFF40, 0x91);
    assert_eq!(cpu.read_byte(0xFF40), 0x91);
    assert_eq!(cpu.gpu.lcdc(), 0x91);
    cpu.write_byte(0xFF41, 0xFF);
    assert_eq!(cpu.read_byte(0xFF41), 0x7E);
    cpu.write_byte(0xFF45, 0x07);
    assert_eq!(cpu.read_byte(0xFF41), 0x7A);
    assert_eq!(cpu.read_byte(0xFF44), 0x00);
    cpu.write_byte(0xFF44, 0x55);
    assert_eq!(cpu.read_byte(0xFF44), 0x00);
    cpu.write_byte(0xFF47, 0xE4);
    cpu.write_byte(0xFF48, 0xD2);
    cpu.write_byte(0xFF49, 0xC1);
    cpu.write_byte(0xFF4A, 0x10);
    cpu.write_byte(0xFF4B, 0x20);
    assert_eq!(
        (cpu.gpu.bgp(), cpu.gpu.obp0(), cpu.gpu.obp1(), cpu.gpu.wy(), cpu.gpu.wx()),
        (0xE4, 0xD2, 0xC1, 0x10, 0x20)
    );
    assert_eq!(cpu.read_byte(0xFF47), 0xFF);
    cpu.write_byte(0xFF0F, 0x1F);
    cpu.write_byte(0xFFFF, 0x15);
    assert_eq!(cpu.interrupt_controller.iflag(), 0x1F);
    assert_eq!(cpu.interrupt_controller.ie(), 0x15);
    assert_eq!(cpu.read_byte(0xFFFF), 0x15);
    assert_eq!(cpu.read_byte(0xFF0F), 0xFF);
    assert_eq!(cpu.read_byte(0xFF00), 0x0F);
    cpu.write_byte(0xFF00, 0xFF);
    assert_eq!(cpu.joypad.joyp, 0x30);
    cpu.write_byte(0xFF46, 0xC2);
    assert!(cpu.mmu.dma_transfer);
    assert_eq!(cpu.mmu.dma_address, 0xC200);
    cpu.write_byte(0xFF10, 0x77);
    cpu.write_byte(0xFF30, 0x77);
    assert_eq!(cpu.read_byte(0xFF10), 0xFF);
    cpu.write_byte(0xFF01, 0x42);
    cpu.write_byte(0xFF02, 0x81);
    assert_eq!(cpu.read_byte(0xFF01), 0xFF);
    cpu.write_byte(0xC000, 0x21);
    cpu.write_byte(0xFF80, 0x22);
    assert_eq!(cpu.mmu.read_byte(0xC000), 0x21);
    assert_eq!(cpu.read_byte(0xFF80), 0x22);
    cpu.write_word(0x9FFF, 0xABCD);
    assert_eq!(cpu.read_word(0x9FFF), 0xFFCD);
    cpu.write_word(0x8010, 0xABCD);
    assert_eq!(cpu.read_word(0x8010), 0xABCD);
    cpu.write_word(0xFFFE, 0x0312);
    assert_eq!(cpu.read_word(0xFFFE), 0x0312);
    assert_eq!(cpu.interrupt_controller.ie(), 0x03);
}

#[test]
fn high_page_loads() {
    let mut cpu = machine(&[0xE0, 0x80, 0xE2, 0xF0, 0x81, 0xE0, 0x47]);
    cpu.registers.a = 0x3C;
    cpu.registers.c = 0x81;
    assert_eq!(cpu.do_cycle(), Ok(3));
    assert_eq!(cpu.read_byte(0xFF80), 0x3C);
    cpu.registers.a = 0x4D;
    assert_eq!(cpu.do_cycle(), Ok(2));
    assert_eq!(cpu.read_byte(0xFF81), 0x4D);
    cpu.registers.a = 0;
    assert_eq!(cpu.do_cycle(), Ok(3));
    assert_eq!(cpu.registers.a, 0x4D);
    assert_eq!(cpu.do_cycle(), Ok(3));
    assert_eq!(cpu.gpu.bgp(), 0x4D);
}

#[test]
fn operand_fields_and_helpers() {
    assert_eq!(parse_source_register_index(0x7E), 6);
    assert_eq!(parse_source_register_index(0x47), 7);
    assert_eq!(parse_destination_register(0x40, 0x04), 0);
    assert_eq!(parse_destination_register(0x7F, 0x04), 7);
    assert_eq!(parse_destination_register(0x5C, 0x04), 3);
    assert_eq!(parse_destination_register(0x80, 0x08), 0);
    assert_eq!(parse_destination_register(0xBE, 0x08), 7);
    let mut cpu = CPU::new();
    cpu.registers.sethl(0xC900);
    cpu.set_word_at_hl(0x1234);
    assert_eq!(cpu.get_word_at_hl(), 0x1234);
    assert_eq!(cpu.get_byte_at_hl(), 0x34);
    cpu.set_byte_at_hl(0x56);
    assert_eq!(cpu.get_operand_and_cycles(0x06), (0x56, 2));
    assert_eq!(cpu.get_operand_and_cycles(0x07), (0x01, 1));
    assert_eq!(cpu.write_to_register(0x06, 0x99), 1);
    assert_eq!(cpu.get_byte_at_hl(), 0x99);
    assert_eq!(cpu.write_to_register(0x00, 0x98), 0);
    assert_eq!(cpu.registers.b, 0x98);
    cpu.write_operand(5, 0x01);
    assert_eq!(cpu.registers.hl(), 0xC901);
}
