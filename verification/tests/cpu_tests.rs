use nesboy::bus::Bus;
use nesboy::cpu::{Cpu, FLAGS6502};
use nesboy::opcodes::{decode, Instr, Mode, Reg};
use nesboy::rom_loader::RomLoader;

/// A CPU whose one PRG bank holds `program` at $8000 (mirrored at $C000),
/// with the reset vector at $8000 and `nmi` as the NMI vector.
fn cpu_with(program: &[u8], extra: &[(usize, u8)], nmi: u16) -> Cpu {
    let mut prg = vec![0xEAu8; 16384];
    prg[..program.len()].copy_from_slice(program);
    for (i, b) in extra {
        prg[*i] = *b;
    }
    prg[0x3ffa] = (nmi & 0xff) as u8;
    prg[0x3ffb] = (nmi >> 8) as u8;
    prg[0x3ffc] = 0x00;
    prg[0x3ffd] = 0x80;
    let mut image = vec![0x4e, 0x45, 0x53, 0x1a, 1, 1, 0, 0, 0, 0, 0, 0, 0, 0, 0, 0];
    image.extend(prg);
    image.extend(vec![0u8; 8192]);
    let rom = RomLoader::from_bytes(&image).ok().unwrap();
    let mut cpu = Cpu::new(Bus::new(rom));
    cpu.reset();
    cpu
}

fn steps(cpu: &mut Cpu, n: usize) {
    for _ in 0..n {
        cpu.step().ok().unwrap();
    }
}

#[test]
fn new_cpu_power_on_state() {
    let mut image = vec![0x4e, 0x45, 0x53, 0x1a, 1, 0, 0, 0, 0, 0, 0, 0, 0, 0, 0, 0];
    image.extend(vec![0u8; 16384]);
    let rom = RomLoader::from_bytes(&image).ok().unwrap();
    let cpu = Cpu::new(Bus::new(rom));
    assert_eq!(cpu.program_counter, 0xc000);
    assert_eq!(cpu.stack_pointer, 0xfd);
    assert_eq!(cpu.p, 0x24);
    assert_eq!(cpu.status.bits(), 0x24);
    assert_eq!(cpu.memory.len(), 0x10000);
}

#[test]
fn reset_jumps_through_the_vector() {
    let mut cpu = cpu_with(&[], &[], 0x8000);
    cpu.a = 9;
    cpu.stack_pointer = 0x10;
    cpu.reset();
    assert_eq!(cpu.program_counter, 0x8000);
    assert_eq!(cpu.a, 0);
    assert_eq!(cpu.stack_pointer, 0xfd);
    assert_eq!(cpu.p, 0x24);
}

#[test]
fn load_store_round_trip() {
    // LDA #$05; STA $10; LDX $10; LDY #$00
    let mut cpu = cpu_with(&[0xa9, 0x05, 0x85, 0x10, 0xa6, 0x10, 0xa0, 0x00], &[], 0x8000);
    steps(&mut cpu, 4);
    assert_eq!(cpu.a, 5);
    assert_eq!(cpu.x, 5);
    assert_eq!(cpu.bus.cpu_vram[0x10], 5);
    assert!(cpu.get_flag(FLAGS6502::Z));
    assert!(!cpu.get_flag(FLAGS6502::N));
    assert_eq!(cpu.program_counter, 0x8008);
}

#[test]
fn adc_sets_overflow_and_negative() {
    // CLC; LDA #$50; ADC #$50
    let mut cpu = cpu_with(&[0x18, 0xa9, 0x50, 0x69, 0x50], &[], 0x8000);
    steps(&mut cpu, 3);
    assert_eq!(cpu.a, 0xa0);
    assert!(cpu.get_flag(FLAGS6502::V));
    assert!(cpu.get_flag(FLAGS6502::N));
    assert!(!cpu.get_flag(FLAGS6502::C));
    assert!(!cpu.get_flag(FLAGS6502::Z));
}

#[test]
fn adc_carries_out() {
    // SEC; LDA #$FF; ADC #$00
    let mut cpu = cpu_with(&[0x38, 0xa9, 0xff, 0x69, 0x00], &[], 0x8000);
    steps(&mut cpu, 3);
    assert_eq!(cpu.a, 0);
    assert!(cpu.get_flag(FLAGS6502::C));
    assert!(cpu.get_flag(FLAGS6502::Z));
}

#[test]
fn sbc_borrows() {
    // SEC; LDA #$05; SBC #$06
    let mut cpu = cpu_with(&[0x38, 0xa9, 0x05, 0xe9, 0x06], &[], 0x8000);
    steps(&mut cpu, 3);
    assert_eq!(cpu.a, 0xff);
    assert!(!cpu.get_flag(FLAGS6502::C));
    assert!(cpu.get_flag(FLAGS6502::N));
    // SEC; LDA #$07; SBC #$02
    let mut cpu = cpu_with(&[0x38, 0xa9, 0x07, 0xe9, 0x02], &[], 0x8000);
    steps(&mut cpu, 3);
    assert_eq!(cpu.a, 5);
    assert!(cpu.get_flag(FLAGS6502::C));
}

#[test]
fn compare_sets_carry_and_zero() {
    // LDA #$10; CMP #$10; 
    let mut cpu = cpu_with(&[0xa9, 0x10, 0xc9, 0x10], &[], 0x8000);
    steps(&mut cpu, 2);
    assert!(cpu.get_flag(FLAGS6502::C));
    assert!(cpu.get_flag(FLAGS6502::Z));
    // LDX #$01; CPX #$02
    let mut cpu = cpu_with(&[0xa2, 0x01, 0xe0, 0x02], &[], 0x8000);
    steps(&mut cpu, 2);
    assert!(!cpu.get_flag(FLAGS6502::C));
    assert!(!cpu.get_flag(FLAGS6502::Z));
    assert!(cpu.get_flag(FLAGS6502::N));
}

#[test]
fn jsr_then_rts_returns_after_the_call() {
    // $8000: JSR $8010; LDA #$07
    // $8010: LDX #$09; RTS
    let mut cpu = cpu_with(&[0x20, 0x10, 0x80, 0xa9, 0x07], &[(0x10, 0xa2), (0x11, 0x09), (0x12, 0x60)], 0x8000);
    steps(&mut cpu, 1);
    assert_eq!(cpu.program_counter, 0x8010);
    assert_eq!(cpu.stack_pointer, 0xfb);
    assert_eq!(cpu.bus.cpu_vram[0x1fd], 0x80);
    assert_eq!(cpu.bus.cpu_vram[0x1fc], 0x02);
    steps(&mut cpu, 2);
    assert_eq!(cpu.program_counter, 0x8003);
    assert_eq!(cpu.stack_pointer, 0xfd);
    steps(&mut cpu, 1);
    assert_eq!(cpu.a, 7);
    assert_eq!(cpu.x, 9);
}

#[test]
fn pha_pla_restores_accumulator() {
    // LDA #$33; PHA; LDA #$00; PLA
    let mut cpu = cpu_with(&[0xa9, 0x33, 0x48, 0xa9, 0x00, 0x68], &[], 0x8000);
    steps(&mut cpu, 3);
    assert!(cpu.get_flag(FLAGS6502::Z));
    steps(&mut cpu, 1);
    assert_eq!(cpu.a, 0x33);
    assert!(!cpu.get_flag(FLAGS6502::Z));
    assert_eq!(cpu.stack_pointer, 0xfd);
}

#[test]
fn php_plp_clears_break() {
    // SEC; PHP; CLC; PLP
    let mut cpu = cpu_with(&[0x38, 0x08, 0x18, 0x28], &[], 0x8000);
    steps(&mut cpu, 2);
    assert_eq!(cpu.bus.cpu_vram[0x1fd], 0x24 | 0x01 | 0x10);
    steps(&mut cpu, 2);
    assert_eq!(cpu.p, 0x25);
}

#[test]
fn ror_undoes_rol() {
    // LDA #$81; SEC; ROL A; ROR A
    let mut cpu = cpu_with(&[0xa9, 0x81, 0x38, 0x2a, 0x6a], &[], 0x8000);
    steps(&mut cpu, 3);
    assert_eq!(cpu.a, 0x03);
    assert!(cpu.get_flag(FLAGS6502::C));
    steps(&mut cpu, 1);
    assert_eq!(cpu.a, 0x81);
    assert!(cpu.get_flag(FLAGS6502::C));
    assert!(cpu.get_flag(FLAGS6502::N));
}

#[test]
fn branch_loop_counts_down() {
    // LDX #$03; DEX; BNE -3; LDY #$01
    let mut cpu = cpu_with(&[0xa2, 0x03, 0xca, 0xd0, 0xfd, 0xa0, 0x01], &[], 0x8000);
    steps(&mut cpu, 1 + 3 * 2 + 1);
    assert_eq!(cpu.x, 0);
    assert_eq!(cpu.y, 1);
    assert_eq!(cpu.program_counter, 0x8007);
}

#[test]
fn branch_cycles() {
    // LDA #$01; BNE +2 (taken); 
    let mut cpu = cpu_with(&[0xa9, 0x01, 0xd0, 0x02], &[], 0x8000);
    steps(&mut cpu, 1);
    let before = cpu.bus.cycles;
    steps(&mut cpu, 1);
    assert_eq!(cpu.bus.cycles - before, 3);
    assert_eq!(cpu.program_counter, 0x8006);
    // BEQ not taken costs 2
    let before = cpu.bus.cycles;
    cpu.program_counter = 0x8002;
    let c = cpu.execute(0xf0).ok().unwrap();
    assert_eq!(c, 2);
    assert_eq!(cpu.bus.cycles, before);
}

#[test]
fn execute_reports_cycles() {
    let mut cpu = cpu_with(&[0x00, 0x00, 0x00], &[], 0x8000);
    assert_eq!(cpu.execute(0xea).ok(), Some(2));
    assert_eq!(cpu.execute(0x02).ok(), Some(2));
    cpu.program_counter = 0x8000;
    assert_eq!(cpu.execute(0xad).ok(), Some(4));
    assert_eq!(cpu.program_counter, 0x8002);
}

#[test]
fn brk_pushes_and_jumps_through_irq_vector() {
    let mut cpu = cpu_with(&[0x00], &[(0x3ffe, 0x34), (0x3fff, 0x92)], 0x8000);
    steps(&mut cpu, 1);
    assert_eq!(cpu.program_counter, 0x9234);
    assert_eq!(cpu.stack_pointer, 0xfa);
    assert_eq!(cpu.bus.cpu_vram[0x1fd], 0x80);
    assert_eq!(cpu.bus.cpu_vram[0x1fc], 0x02);
    assert_eq!(cpu.bus.cpu_vram[0x1fb], 0x24 | 0x30);
    assert!(cpu.get_flag(FLAGS6502::I));
}

#[test]
fn flags_by_name() {
    let mut cpu = cpu_with(&[], &[], 0x8000);
    cpu.set_flag(FLAGS6502::C, true);
    cpu.set_flag(FLAGS6502::N, true);
    assert_eq!(cpu.p, 0x24 | 0x81);
    assert!(cpu.get_flag(FLAGS6502::C));
    cpu.set_flag(FLAGS6502::C, false);
    assert!(!cpu.get_flag(FLAGS6502::C));
    assert!(cpu.get_flag(FLAGS6502::U));
}

#[test]
fn private_memory_reads_back() {
    let mut cpu = cpu_with(&[], &[], 0x8000);
    cpu.write(0xbeef, 0x42);
    assert_eq!(cpu.read(0xbeef), 0x42);
    assert_eq!(cpu.read(0xbeee), 0);
}

#[test]
fn run_stops_at_the_end_of_a_frame() {
    // JMP $8000
    let mut cpu = cpu_with(&[0x4c, 0x00, 0x80], &[], 0x8000);
    assert!(cpu.run().is_ok());
    assert_eq!(cpu.bus.ppu.scanline, 0);
    // 262 * 341 PPU cycles, three per CPU cycle, three CPU cycles per JMP
    assert!(cpu.bus.cycles * 3 >= 262 * 341);
    assert!((cpu.bus.cycles - 3) * 3 < 262 * 341);
    assert!(cpu.run().is_ok());
    assert!(cpu.bus.cycles * 3 >= 2 * 262 * 341);
}

#[test]
fn nmi_runs_the_handler_once_per_frame() {
    // $8000: LDA #$80; STA $2000; JMP $8005
    // $8100: INX; RTI
    let mut cpu = cpu_with(&[0xa9, 0x80, 0x8d, 0x00, 0x20, 0x4c, 0x05, 0x80], &[(0x100, 0xe8), (0x101, 0x40)], 0x8100);
    assert!(cpu.run().is_ok());
    assert_eq!(cpu.x, 1);
    assert!(cpu.run().is_ok());
    assert_eq!(cpu.x, 2);
    assert_eq!(cpu.stack_pointer, 0xfd);
}

#[test]
fn nmi_pushes_p_and_sets_interrupt_disable() {
    // $8000: SEC; JMP $8001 with the NMI pending; $8100: JMP $8100
    let mut cpu = cpu_with(&[0x38, 0x4c, 0x01, 0x80], &[(0x100, 0x4c), (0x101, 0x00), (0x102, 0x81)], 0x8100);
    steps(&mut cpu, 1);
    let pc = cpu.program_counter;
    cpu.bus.ppu.nmi_interrupt = Some(1);
    let cycles = cpu.bus.cycles;
    steps(&mut cpu, 1);
    assert_eq!(cpu.stack_pointer, 0xfa);
    assert_eq!(cpu.bus.cpu_vram[0x1fd], (pc >> 8) as u8);
    assert_eq!(cpu.bus.cpu_vram[0x1fc], (pc & 0xff) as u8);
    assert_eq!(cpu.bus.cpu_vram[0x1fb], (0x25 & !0x10) | 0x20);
    assert!(cpu.get_flag(FLAGS6502::I));
    assert!(cpu.get_flag(FLAGS6502::C));
    // the handler's first instruction ran: JMP $8100 takes 3 cycles, NMI entry 2
    assert_eq!(cpu.program_counter, 0x8100);
    assert_eq!(cpu.bus.cycles, cycles + 2 + 3);
}

#[test]
fn step_reports_unknown_opcodes() {
    // $02 is not an instruction; NOP is
    let mut cpu = cpu_with(&[0x02, 0xea], &[], 0x8000);
    let st = cpu.step().ok().unwrap();
    assert_eq!(st.unknown_opcode, Some(0x02));
    assert!(!st.frame);
    assert_eq!(cpu.program_counter, 0x8001);
    let st = cpu.step().ok().unwrap();
    assert_eq!(st.unknown_opcode, None);
}

#[test]
fn undefined_ppu_access_is_an_error() {
    // LDA #$00; STA $2006; STA $2006; LDA $2007 with no pattern data
    let mut cpu = cpu_with(&[0xa9, 0x00, 0x8d, 0x06, 0x20, 0x8d, 0x06, 0x20, 0xad, 0x07, 0x20], &[], 0x8000);
    cpu.bus.ppu.chr_rom.clear();
    steps(&mut cpu, 3);
    assert_eq!(cpu.step().err().map(|e| e.addr), Some(0x0000));
}

#[test]
fn decode_table() {
    let op = decode(0xa9);
    assert_eq!(op.instr, Instr::Load(Reg::A));
    assert_eq!(op.mode, Mode::Immediate);
    assert_eq!(op.cycles, 2);
    let op = decode(0x6c);
    assert_eq!(op.instr, Instr::JmpIndirect);
    assert_eq!(op.cycles, 5);
    let op = decode(0x20);
    assert_eq!(op.instr, Instr::Jsr);
    assert_eq!(op.cycles, 6);
    let op = decode(0x02);
    assert_eq!(op.instr, Instr::Unknown);
    assert_eq!(op.cycles, 2);
    let op = decode(0xfe);
    assert_eq!(op.instr, Instr::Inc);
    assert_eq!(op.mode, Mode::AbsoluteX);
    assert_eq!(op.cycles, 7);
}
