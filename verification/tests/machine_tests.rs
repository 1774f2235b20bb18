use gbcore::cartridge::Cartridge;
use gbcore::cpu::{CPU, Ime};
use gbcore::mmu::MMU;
use gbcore::opcodes::{Opcode, Op8};
use gbcore::registers::{Reg8, Reg16};
use gbcore::rom::Rom;
use gbcore::EmuError;

/// A machine whose ROM holds `program` from the entry point 0x0100 on.
fn boot(program: &[u8]) -> CPU {
    let mut image = vec![0u8; 0x148];
    for (i, b) in program.iter().enumerate() {
        image[0x100 + i] = *b;
    }
    let cart = Cartridge::new(Rom::from_bytes(image)).unwrap();
    CPU::new(MMU::new(cart))
}

#[test]
fn nop_jump_then_xor_clears_the_accumulator() {
    // NOP; JP 0x0104; two NOPs; XOR A
    let mut cpu = boot(&[0x00, 0xC3, 0x04, 0x01, 0x00, 0x00, 0xAF]);
    cpu.step().unwrap();
    assert_eq!(cpu.regs.pc, 0x0101);
    cpu.step().unwrap();
    assert_eq!(cpu.regs.pc, 0x0104);
    cpu.step().unwrap();
    cpu.step().unwrap();
    assert_eq!(cpu.regs.pc, 0x0106);
    cpu.step().unwrap();
    assert_eq!(cpu.regs.a, 0x00);
    assert!(cpu.regs.f.z);
    assert!(!cpu.regs.f.n && !cpu.regs.f.h && !cpu.regs.f.c);
    assert_eq!(cpu.regs.pc, 0x0107);
}

#[test]
fn hl_indirect_decrement_store() {
    // LD A,0x5A; LD HL,0x1234; LD (HL-),A
    let mut cpu = boot(&[0x3E, 0x5A, 0x21, 0x34, 0x12, 0x32]);
    cpu.step().unwrap();
    assert_eq!(cpu.regs.a, 0x5A);
    cpu.step().unwrap();
    assert_eq!(cpu.regs.get16(Reg16::HL), 0x1234);
    cpu.step().unwrap();
    assert_eq!(cpu.regs.get16(Reg16::HL), 0x1233);
    // 0x1234 lies in the read-only ROM region: the store was dropped there
    assert_eq!(cpu.mmu.read(0x1234), Err(EmuError::UnmappedAddress(0x1234)));
}

#[test]
fn hl_indirect_decrement_store_lands_in_work_ram() {
    // LD A,0x5A; LD HL,0xC234; LD (HL-),A
    let mut cpu = boot(&[0x3E, 0x5A, 0x21, 0x34, 0xC2, 0x32]);
    cpu.step().unwrap();
    cpu.step().unwrap();
    cpu.step().unwrap();
    assert_eq!(cpu.mmu.read(0xC234).unwrap(), 0x5A);
    assert_eq!(cpu.regs.get16(Reg16::HL), 0xC233);
}

#[test]
fn hl_indirect_increment_load() {
    // LD HL,0xC100; LD (HL+),A; LD A,(HL-)
    let mut cpu = boot(&[0x21, 0x00, 0xC1, 0x22, 0x3A]);
    cpu.step().unwrap();
    cpu.step().unwrap();
    assert_eq!(cpu.regs.get16(Reg16::HL), 0xC101);
    assert_eq!(cpu.mmu.read(0xC100).unwrap(), 0x01);
    cpu.step().unwrap();
    assert_eq!(cpu.regs.get16(Reg16::HL), 0xC100);
}

#[test]
fn enabling_interrupts_takes_effect_one_instruction_late() {
    // EI; NOP; NOP — with the VBlank source enabled and requested throughout
    let mut cpu = boot(&[0xF8, 0x00, 0x00]);
    cpu.mmu.write(0xFFFF, 0x01).unwrap();
    cpu.mmu.write(0xFF0F, 0x01).unwrap();
    cpu.step().unwrap();
    assert!(matches!(cpu.ime, Ime::Enabling));
    assert_eq!(cpu.regs.pc, 0x0101);
    // the instruction after EI still runs with dispatch held off
    cpu.step().unwrap();
    assert!(matches!(cpu.ime, Ime::Enabled));
    assert_eq!(cpu.regs.pc, 0x0102);
    // only now does the pending interrupt dispatch
    cpu.step().unwrap();
    assert!(matches!(cpu.ime, Ime::Disabled));
    assert_eq!(cpu.regs.pc, 0x0040);
    // the return address 0x0102 went onto the stack, high byte first
    assert_eq!(cpu.regs.sp, 0xFFFC);
    assert_eq!(cpu.mmu.read(0xFFFD).unwrap(), 0x01);
    assert_eq!(cpu.mmu.read(0xFFFC).unwrap(), 0x02);
    // acknowledging cleared the request bit, not the enable bit
    assert_eq!(cpu.mmu.read(0xFF0F).unwrap(), 0x00);
    assert_eq!(cpu.mmu.read(0xFFFF).unwrap(), 0x01);
}

#[test]
fn disabled_master_enable_never_dispatches() {
    let mut cpu = boot(&[0x00, 0x00]);
    cpu.mmu.write(0xFFFF, 0x1F).unwrap();
    cpu.mmu.write(0xFF0F, 0x1F).unwrap();
    cpu.step().unwrap();
    cpu.step().unwrap();
    assert_eq!(cpu.regs.pc, 0x0102);
    assert!(matches!(cpu.ime, Ime::Disabled));
}

#[test]
fn di_drops_the_master_enable_at_once() {
    // EI; DI; NOP
    let mut cpu = boot(&[0xF8, 0xF3, 0x00]);
    cpu.mmu.write(0xFFFF, 0x01).unwrap();
    cpu.mmu.write(0xFF0F, 0x01).unwrap();
    cpu.step().unwrap();
    cpu.step().unwrap();
    assert!(matches!(cpu.ime, Ime::Disabled));
    cpu.step().unwrap();
    assert_eq!(cpu.regs.pc, 0x0103);
}

#[test]
fn unknown_opcode_is_an_illegal_operation() {
    let mut cpu = boot(&[0xD3]);
    assert_eq!(cpu.step(), Err(EmuError::IllegalOperation));
}

#[test]
fn prefix_table_is_not_implemented() {
    let mut cpu = boot(&[0xCB, 0x37]);
    assert_eq!(cpu.step(), Err(EmuError::IllegalOperation));
}

#[test]
fn load_from_unmapped_port_reports_the_address() {
    // LD A,(0xFF00+0x03): 0xFF03 belongs to no device
    let mut cpu = boot(&[0xF0, 0x03]);
    assert_eq!(cpu.step(), Err(EmuError::UnmappedAddress(0xFF03)));
}

#[test]
fn zero_page_store_and_load() {
    // LD A,0x7E; LDH (0x80),A; LD A,0x00; LDH A,(0x80)
    let mut cpu = boot(&[0x3E, 0x7E, 0xE0, 0x80, 0x3E, 0x00, 0xF0, 0x80]);
    for _ in 0..4 {
        cpu.step().unwrap();
    }
    assert_eq!(cpu.regs.a, 0x7E);
    assert_eq!(cpu.mmu.read(0xFF80).unwrap(), 0x7E);
}

#[test]
fn call_pushes_and_ret_pops_the_return_address() {
    let mut program = vec![0xCD, 0x10, 0x01];  // CALL 0x0110
    while program.len() < 0x10 {
        program.push(0x00);
    }
    program.push(0xC9);  // RET at 0x0110
    let mut cpu = boot(&program);
    cpu.step().unwrap();
    assert_eq!(cpu.regs.pc, 0x0110);
    assert_eq!(cpu.regs.sp, 0xFFFC);
    assert_eq!(cpu.mmu.read(0xFFFD).unwrap(), 0x01);
    assert_eq!(cpu.mmu.read(0xFFFC).unwrap(), 0x03);
    cpu.step().unwrap();
    assert_eq!(cpu.regs.pc, 0x0103);
    assert_eq!(cpu.regs.sp, 0xFFFE);
}

#[test]
fn conditional_call_not_taken_only_consumes_the_operand() {
    // CP 0 leaves Z set on A=0; CALL NZ skips
    let mut cpu = boot(&[0x3E, 0x00, 0xFE, 0x00, 0xC4, 0x10, 0x01]);
    cpu.step().unwrap();
    cpu.step().unwrap();
    assert!(cpu.regs.f.z);
    cpu.step().unwrap();
    assert_eq!(cpu.regs.pc, 0x0107);
    assert_eq!(cpu.regs.sp, 0xFFFE);
}

#[test]
fn push_and_pop_round_trip_a_pair() {
    // LD BC,0x1234; PUSH BC; LD BC,0x0000; POP BC
    let mut cpu = boot(&[0x01, 0x34, 0x12, 0xC5, 0x01, 0x00, 0x00, 0xC1]);
    for _ in 0..4 {
        cpu.step().unwrap();
    }
    assert_eq!(cpu.regs.get16(Reg16::BC), 0x1234);
    assert_eq!(cpu.regs.sp, 0xFFFE);
}

#[test]
fn pop_into_af_masks_the_flag_nibble() {
    let mut cpu = boot(&[0xF2]);
    cpu.mmu.write(0xFF80, 0xBF).unwrap();  // low byte: would-be flag bits
    cpu.mmu.write(0xFF81, 0x12).unwrap();  // high byte: accumulator
    cpu.regs.sp = 0xFF80;
    cpu.step().unwrap();
    assert_eq!(cpu.regs.a, 0x12);
    // only the four defined flag positions survive
    assert_eq!(cpu.regs.f.bits(), 0xB0);
    assert_eq!(cpu.regs.sp, 0xFF82);
    assert_eq!(cpu.regs.get16(Reg16::AF), 0x12B0);
}

#[test]
fn relative_jump_goes_backward() {
    // JR -2 loops onto itself
    let mut cpu = boot(&[0x18, 0xFE]);
    cpu.step().unwrap();
    assert_eq!(cpu.regs.pc, 0x0100);
}

#[test]
fn conditional_relative_jump_not_taken_falls_through() {
    // LD A,0x01; CP 0x02 clears Z; JR Z,+5 not taken
    let mut cpu = boot(&[0x3E, 0x01, 0xFE, 0x02, 0x28, 0x05]);
    cpu.step().unwrap();
    cpu.step().unwrap();
    assert!(!cpu.regs.f.z && cpu.regs.f.c && cpu.regs.f.n);
    cpu.step().unwrap();
    assert_eq!(cpu.regs.pc, 0x0106);
}

#[test]
fn increment_sets_half_carry_out_of_the_low_nibble() {
    // LD A,0x0F; INC A
    let mut cpu = boot(&[0x3E, 0x0F, 0x3C]);
    cpu.step().unwrap();
    cpu.step().unwrap();
    assert_eq!(cpu.regs.a, 0x10);
    assert!(!cpu.regs.f.z && !cpu.regs.f.n && cpu.regs.f.h);
    // carry is untouched: the post-boot flags carry in a set C
    assert!(cpu.regs.f.c);
}

#[test]
fn decrement_flags() {
    // LD A,0x10; DEC A
    let mut cpu = boot(&[0x3E, 0x10, 0x3D]);
    cpu.step().unwrap();
    cpu.step().unwrap();
    assert_eq!(cpu.regs.a, 0x0F);
    assert!(!cpu.regs.f.z && cpu.regs.f.n && cpu.regs.f.h && cpu.regs.f.c);
    // DEC from 1 reaches zero
    let mut cpu = boot(&[0x3E, 0x01, 0x3D]);
    cpu.step().unwrap();
    cpu.step().unwrap();
    assert_eq!(cpu.regs.a, 0x00);
    assert!(cpu.regs.f.z && cpu.regs.f.n && !cpu.regs.f.h);
}

#[test]
fn add_instruction_applies_the_reference_flags() {
    // LD A,0x3A; LD B,0xC6; ADD A,B — a textbook full carry and half carry
    let mut cpu = boot(&[0x3E, 0x3A, 0x06, 0xC6, 0x80]);
    cpu.step().unwrap();
    cpu.step().unwrap();
    cpu.step().unwrap();
    assert_eq!(cpu.regs.a, 0x00);
    assert!(cpu.regs.f.z && !cpu.regs.f.n && cpu.regs.f.h && cpu.regs.f.c);
}

#[test]
fn adc_adds_the_carry_bit() {
    // LD A,0xFF; ADD A,0x01 sets carry; LD A,0x00; ADC A,0x00 takes it in
    let mut cpu = boot(&[0x3E, 0xFF, 0xC6, 0x01, 0x3E, 0x00, 0xCE, 0x00]);
    for _ in 0..4 {
        cpu.step().unwrap();
    }
    assert_eq!(cpu.regs.a, 0x01);
    assert!(!cpu.regs.f.c && !cpu.regs.f.z);
}

#[test]
fn sixteen_bit_add_sets_carry_out_of_bit_15() {
    // LD HL,0x8800; LD BC,0x8800; ADD HL,BC
    let mut cpu = boot(&[0x21, 0x00, 0x88, 0x01, 0x00, 0x88, 0x09]);
    cpu.step().unwrap();
    cpu.step().unwrap();
    cpu.step().unwrap();
    assert_eq!(cpu.regs.get16(Reg16::HL), 0x1000);
    assert!(cpu.regs.f.c && !cpu.regs.f.n);
    // zero is kept from before, and the post-boot flags have it set
    assert!(cpu.regs.f.z);
}

#[test]
fn sixteen_bit_increment_and_decrement_wrap() {
    // LD BC,0xFFFF; INC BC; DEC BC; DEC BC
    let mut cpu = boot(&[0x01, 0xFF, 0xFF, 0x03, 0x0B, 0x0B]);
    cpu.step().unwrap();
    cpu.step().unwrap();
    assert_eq!(cpu.regs.get16(Reg16::BC), 0x0000);
    cpu.step().unwrap();
    assert_eq!(cpu.regs.get16(Reg16::BC), 0xFFFF);
    cpu.step().unwrap();
    assert_eq!(cpu.regs.get16(Reg16::BC), 0xFFFE);
}

#[test]
fn logic_instructions_set_their_documented_flags() {
    // LD A,0xF0; LD B,0x0F; AND B
    let mut cpu = boot(&[0x3E, 0xF0, 0x06, 0x0F, 0xA0]);
    for _ in 0..3 {
        cpu.step().unwrap();
    }
    assert_eq!(cpu.regs.a, 0x00);
    assert!(cpu.regs.f.z && cpu.regs.f.h && !cpu.regs.f.n && !cpu.regs.f.c);
    // LD A,0xF0; LD B,0x0F; OR B
    let mut cpu = boot(&[0x3E, 0xF0, 0x06, 0x0F, 0xB0]);
    for _ in 0..3 {
        cpu.step().unwrap();
    }
    assert_eq!(cpu.regs.a, 0xFF);
    assert!(!cpu.regs.f.z && !cpu.regs.f.h && !cpu.regs.f.n && !cpu.regs.f.c);
}

#[test]
fn accumulator_rotate_complement_and_carry_ops() {
    let mut cpu = boot(&[0x00]);
    cpu.regs.a = 0x01;
    cpu.regs.f = gbcore::registers::Flags::empty();
    cpu.execute(Opcode::Rra).unwrap();
    assert_eq!(cpu.regs.a, 0x00);
    assert!(cpu.regs.f.c && !cpu.regs.f.z);
    cpu.execute(Opcode::Rra).unwrap();
    assert_eq!(cpu.regs.a, 0x80);
    assert!(!cpu.regs.f.c);
    cpu.execute(Opcode::Cpl).unwrap();
    assert_eq!(cpu.regs.a, 0x7F);
    assert!(cpu.regs.f.n && cpu.regs.f.h);
    cpu.execute(Opcode::Scf).unwrap();
    assert!(cpu.regs.f.c && !cpu.regs.f.n && !cpu.regs.f.h);
}

#[test]
fn swap_exchanges_the_nibbles() {
    let mut cpu = boot(&[0x00]);
    cpu.regs.a = 0xAB;
    cpu.execute(Opcode::Swap(Op8::Register(Reg8::A))).unwrap();
    assert_eq!(cpu.regs.a, 0xBA);
    assert!(!cpu.regs.f.z);
    cpu.regs.a = 0x00;
    cpu.execute(Opcode::Swap(Op8::Register(Reg8::A))).unwrap();
    assert!(cpu.regs.f.z);
}

#[test]
fn bit_reset_clears_one_bit() {
    let mut cpu = boot(&[0x00]);
    cpu.regs.a = 0xFF;
    cpu.execute(Opcode::Res(3, Op8::Register(Reg8::A))).unwrap();
    assert_eq!(cpu.regs.a, 0xF7);
    assert_eq!(
        cpu.execute(Opcode::Res(8, Op8::Register(Reg8::A))),
        Err(EmuError::IllegalOperation)
    );
}

#[test]
fn writing_an_immediate_operand_is_illegal() {
    let mut cpu = boot(&[0x00]);
    let r = cpu.execute(Opcode::Ld(Op8::Immediate(0x12), Op8::Register(Reg8::A)));
    assert_eq!(r, Err(EmuError::IllegalOperation));
}

#[test]
fn unimplemented_operations_are_illegal() {
    let mut cpu = boot(&[0x00]);
    assert_eq!(cpu.execute(Opcode::Daa), Err(EmuError::IllegalOperation));
    assert_eq!(cpu.execute(Opcode::Halt), Err(EmuError::IllegalOperation));
    assert_eq!(
        cpu.execute(Opcode::Sub(Op8::Register(Reg8::B))),
        Err(EmuError::IllegalOperation)
    );
}

#[test]
fn store_stack_pointer_at_an_absolute_address() {
    // LD (0xC000),SP
    let mut cpu = boot(&[0x08, 0x00, 0xC0]);
    cpu.step().unwrap();
    assert_eq!(cpu.mmu.read(0xC000).unwrap(), 0xFE);
    assert_eq!(cpu.mmu.read(0xC001).unwrap(), 0xFF);
    assert_eq!(cpu.regs.pc, 0x0103);
}

#[test]
fn conditional_absolute_jump() {
    // LD A,0x01; CP 0x01 sets Z; JP NZ,0x0180 not taken; JP Z,0x0180 taken
    let mut cpu = boot(&[0x3E, 0x01, 0xFE, 0x01, 0xC2, 0x80, 0x01, 0xCA, 0x80, 0x01]);
    for _ in 0..3 {
        cpu.step().unwrap();
    }
    assert_eq!(cpu.regs.pc, 0x0107);
    cpu.step().unwrap();
    assert_eq!(cpu.regs.pc, 0x0180);
}

#[test]
fn conditional_return_taken() {
    // CALL 0x0110; at 0x0110: CP 0x01 on A=0x01 sets Z; RET Z
    let mut program = vec![0x3E, 0x01, 0xCD, 0x10, 0x01];
    while program.len() < 0x10 {
        program.push(0x00);
    }
    program.push(0xFE);
    program.push(0x01);
    program.push(0xC8);
    let mut cpu = boot(&program);
    for _ in 0..4 {
        cpu.step().unwrap();
    }
    assert_eq!(cpu.regs.pc, 0x0105);
    assert_eq!(cpu.regs.sp, 0xFFFE);
}

#[test]
fn restart_jumps_through_a_fixed_vector() {
    // RST 0x08
    let mut cpu = boot(&[0xCF]);
    cpu.step().unwrap();
    assert_eq!(cpu.regs.pc, 0x0008);
    assert_eq!(cpu.regs.sp, 0xFFFC);
    assert_eq!(cpu.mmu.read(0xFFFC).unwrap(), 0x01);
}

#[test]
fn dispatch_falls_back_to_address_zero_when_the_push_clears_the_enable_mask() {
    // with SP at 0x0001 the push lands on 0x0000 (ROM, dropped) and 0xFFFF —
    // the enable register itself. The pushed low byte 0x00 wipes the mask, so
    // acknowledge finds nothing and the documented fallback takes over.
    let mut cpu = boot(&[0x00, 0x00]);
    cpu.ime = Ime::Enabled;
    cpu.regs.sp = 0x0001;
    cpu.mmu.write(0xFFFF, 0x01).unwrap();
    cpu.mmu.write(0xFF0F, 0x01).unwrap();
    cpu.step().unwrap();
    assert_eq!(cpu.regs.pc, 0x0000);
    assert_eq!(cpu.mmu.read(0xFFFF).unwrap(), 0x00);
    assert!(matches!(cpu.ime, Ime::Disabled));
}

#[test]
fn program_counter_wraps_at_the_top_of_the_address_space() {
    let mut cpu = boot(&[0x00]);
    // 0xFFFF holds the interrupt-enable register, which reads as 0: a NOP
    cpu.regs.pc = 0xFFFF;
    cpu.step().unwrap();
    assert_eq!(cpu.regs.pc, 0x0000);
}

#[test]
fn control_transfers_spend_their_internal_cycles() {
    // taken JR: opcode fetch, operand fetch, one internal cycle
    let mut cpu = boot(&[0x18, 0x02]);
    cpu.mmu.write(0xFF40, 0x80).unwrap();
    cpu.step().unwrap();
    assert_eq!(cpu.mmu.gpu.cycles, 3);
    // JR NZ not taken (the post-boot flags carry Z set): no internal cycle
    let mut cpu = boot(&[0x20, 0x02]);
    cpu.mmu.write(0xFF40, 0x80).unwrap();
    cpu.step().unwrap();
    assert_eq!(cpu.mmu.gpu.cycles, 2);
    // taken JP: opcode fetch, two operand fetches, one internal cycle
    let mut cpu = boot(&[0xC3, 0x10, 0x01]);
    cpu.mmu.write(0xFF40, 0x80).unwrap();
    cpu.step().unwrap();
    assert_eq!(cpu.mmu.gpu.cycles, 4);
    // ADD HL,BC: opcode fetch plus one internal cycle
    let mut cpu = boot(&[0x09]);
    cpu.mmu.write(0xFF40, 0x80).unwrap();
    cpu.step().unwrap();
    assert_eq!(cpu.mmu.gpu.cycles, 2);
}

#[test]
fn interrupt_dispatch_spends_five_cycles_and_fetches_nothing() {
    let mut cpu = boot(&[0x00]);
    cpu.mmu.write(0xFF40, 0x80).unwrap();
    cpu.ime = Ime::Enabled;
    cpu.mmu.write(0xFFFF, 0x01).unwrap();
    cpu.mmu.write(0xFF0F, 0x01).unwrap();
    cpu.step().unwrap();
    // one internal cycle stands in for the fetch, two dispatch cycles,
    // two stack pushes
    assert_eq!(cpu.mmu.gpu.cycles, 5);
    assert_eq!(cpu.regs.pc, 0x0040);
}

#[test]
fn dispatch_is_not_aborted_by_an_unfetchable_opcode() {
    let mut cpu = boot(&[0x00]);
    cpu.ime = Ime::Enabled;
    // the program counter sits in the unmapped cartridge-RAM region, yet
    // the owed dispatch still goes through: nothing is fetched
    cpu.regs.pc = 0xA000;
    cpu.mmu.write(0xFFFF, 0x02).unwrap();
    cpu.mmu.write(0xFF0F, 0x02).unwrap();
    cpu.step().unwrap();
    assert_eq!(cpu.regs.pc, 0x0048);
    assert!(matches!(cpu.ime, Ime::Disabled));
    assert_eq!(cpu.mmu.read(0xFFFD).unwrap(), 0xA0);
    assert_eq!(cpu.mmu.read(0xFFFC).unwrap(), 0x00);
}

#[test]
fn every_cpu_memory_access_ticks_the_ppu() {
    // with the LCD on, a NOP step costs exactly one bus cycle
    let mut cpu = boot(&[0x00, 0x00, 0x00]);
    cpu.mmu.write(0xFF40, 0x80).unwrap();
    let before = cpu.mmu.gpu.cycles;
    cpu.step().unwrap();
    assert_eq!(cpu.mmu.gpu.cycles, before + 1);
    // an immediate load costs two: opcode fetch plus operand fetch
    let mut cpu = boot(&[0x3E, 0x11]);
    cpu.mmu.write(0xFF40, 0x80).unwrap();
    let before = cpu.mmu.gpu.cycles;
    cpu.step().unwrap();
    assert_eq!(cpu.mmu.gpu.cycles, before + 2);
}
