use std::collections::HashMap;

use emu8080::assembler::{Instruction, InstructionCommand, InstructionRegister, InstructionRegisterPair};
use emu8080::cpu::{initialize_cpu, Flag, StepOutcome};

fn program(items: &[(u16, Instruction)]) -> HashMap<u16, Instruction> {
    items.iter().cloned().collect()
}

#[test]
fn fresh_cpu_is_all_zero() {
    let cpu = initialize_cpu();
    for r in [
        InstructionRegister::A,
        InstructionRegister::B,
        InstructionRegister::C,
        InstructionRegister::D,
        InstructionRegister::E,
        InstructionRegister::H,
        InstructionRegister::L,
    ] {
        assert_eq!(cpu.get_register(r), 0);
    }
    for f in [Flag::S, Flag::Z, Flag::A, Flag::P, Flag::C] {
        assert!(!cpu.get_flag(f));
    }
    assert_eq!(cpu.get_stack_pointer(), 0);
    assert_eq!(cpu.get_program_counter(), 0);
    assert_eq!(cpu.get_memory(0), 0);
    assert_eq!(cpu.get_memory(65535), 0);
}

#[test]
fn step_runs_a_program_to_its_halt() {
    let mut cpu = initialize_cpu();
    let code = program(&[
        (0, Instruction::IntermediateRegister(InstructionCommand::Mvi, 5, InstructionRegister::A)),
        (2, Instruction::SingleRegister(InstructionCommand::Add, InstructionRegister::A)),
        (3, Instruction::NoRegister(InstructionCommand::Hlt)),
    ]);
    assert_eq!(cpu.step(&code), StepOutcome::Continued);
    assert_eq!(cpu.get_program_counter(), 2);
    assert_eq!(cpu.get_register(InstructionRegister::A), 5);
    assert_eq!(cpu.step(&code), StepOutcome::Continued);
    assert_eq!(cpu.get_program_counter(), 3);
    assert_eq!(cpu.get_register(InstructionRegister::A), 10);
    assert_eq!(cpu.step(&code), StepOutcome::Halted);
    assert_eq!(cpu.get_program_counter(), 4);
}

#[test]
fn step_jumps_to_the_target() {
    let mut cpu = initialize_cpu();
    let code = program(&[
        (0, Instruction::Label(InstructionCommand::Jmp, 10)),
        (10, Instruction::NoRegister(InstructionCommand::Hlt)),
    ]);
    assert_eq!(cpu.step(&code), StepOutcome::Continued);
    assert_eq!(cpu.get_program_counter(), 10);
    assert_eq!(cpu.step(&code), StepOutcome::Halted);
}

#[test]
fn step_without_instruction_changes_nothing() {
    let mut cpu = initialize_cpu();
    cpu.set_program_counter(7);
    let code = program(&[(0, Instruction::NoRegister(InstructionCommand::Hlt))]);
    assert_eq!(cpu.step(&code), StepOutcome::MissingInstruction);
    assert_eq!(cpu.get_program_counter(), 7);
}

#[test]
fn step_refuses_what_cannot_be_executed() {
    let mut cpu = initialize_cpu();
    let code = program(&[(0, Instruction::Label(InstructionCommand::Jc, 5))]);
    assert_eq!(cpu.step(&code), StepOutcome::InvalidInstruction);
    assert_eq!(cpu.get_program_counter(), 0);

    let code = program(&[(0, Instruction::SingleRegister(InstructionCommand::Mvi, InstructionRegister::B))]);
    assert_eq!(cpu.step(&code), StepOutcome::InvalidInstruction);
    assert_eq!(cpu.get_program_counter(), 0);
}

#[test]
fn arithmetic_wraps_and_flags_follow_the_result() {
    let mut cpu = initialize_cpu();
    cpu.change_register(InstructionRegister::A, 127);
    cpu.change_register(InstructionRegister::B, 1);
    cpu.set_flag(Flag::C, true);
    cpu.execute_adc(&InstructionRegister::B);
    assert_eq!(cpu.get_register(InstructionRegister::A), -127);
    assert!(cpu.get_flag(Flag::S));
    assert!(!cpu.get_flag(Flag::C));

    cpu.change_register(InstructionRegister::A, -64);
    cpu.execute_adi(64);
    assert_eq!(cpu.get_register(InstructionRegister::A), 0);
    assert!(cpu.get_flag(Flag::Z));
    assert!(!cpu.get_flag(Flag::S));
    assert!(cpu.get_flag(Flag::C));

    cpu.change_register(InstructionRegister::A, -1);
    cpu.set_flag(Flag::C, true);
    cpu.execute_aci(0);
    assert_eq!(cpu.get_register(InstructionRegister::A), 0);
    assert!(cpu.get_flag(Flag::Z));

    cpu.change_register(InstructionRegister::A, 0);
    cpu.change_register(InstructionRegister::B, 5);
    cpu.execute_inr(&InstructionRegister::B);
    assert_eq!(cpu.get_register(InstructionRegister::B), 6);
    assert!(!cpu.get_flag(Flag::Z));

    cpu.change_register(InstructionRegister::C, 127);
    cpu.execute_inr(&InstructionRegister::C);
    assert_eq!(cpu.get_register(InstructionRegister::C), -128);
    assert!(cpu.get_flag(Flag::S));

    cpu.change_register(InstructionRegister::D, -128);
    cpu.execute_dcr(&InstructionRegister::D);
    assert_eq!(cpu.get_register(InstructionRegister::D), 127);
    assert!(!cpu.get_flag(Flag::S));
    cpu.change_register(InstructionRegister::E, 1);
    cpu.execute_dcr(&InstructionRegister::E);
    assert!(cpu.get_flag(Flag::Z));

    cpu.change_register(InstructionRegister::A, 0);
    cpu.change_register(InstructionRegister::L, 127);
    cpu.set_flag(Flag::C, true);
    cpu.execute_sbb(&InstructionRegister::L);
    assert_eq!(cpu.get_register(InstructionRegister::A), -128);
    assert!(cpu.get_flag(Flag::C));

    cpu.change_register(InstructionRegister::A, 5);
    cpu.set_flag(Flag::C, true);
    cpu.execute_sbi(127);
    assert_eq!(cpu.get_register(InstructionRegister::A), -123);
}

#[test]
fn step_stops_where_the_counter_would_overflow() {
    let mut cpu = initialize_cpu();
    cpu.set_program_counter(65535);
    let code = program(&[(65535, Instruction::NoRegister(InstructionCommand::Hlt))]);
    assert_eq!(cpu.step(&code), StepOutcome::CounterOverflow);
    assert_eq!(cpu.get_program_counter(), 65535);

    let mut cpu = initialize_cpu();
    cpu.set_program_counter(65534);
    let code = program(&[(65534, Instruction::IntermediateRegister(InstructionCommand::Mvi, 9, InstructionRegister::B))]);
    assert_eq!(cpu.step(&code), StepOutcome::CounterOverflow);
    assert_eq!(cpu.get_register(InstructionRegister::B), 9);
    assert_eq!(cpu.get_program_counter(), 65534);
}

#[test]
fn can_execute_follows_the_operands() {
    let mut cpu = initialize_cpu();
    assert!(cpu.can_execute(&Instruction::NoRegister(InstructionCommand::Stc)));
    assert!(!cpu.can_execute(&Instruction::NoRegister(InstructionCommand::Hlt)));
    assert!(!cpu.can_execute(&Instruction::PairRegister(InstructionCommand::Push, InstructionRegisterPair::SP)));
    assert!(!cpu.can_execute(&Instruction::PairRegister(InstructionCommand::Stax, InstructionRegisterPair::SP)));
    assert!(cpu.can_execute(&Instruction::PairRegister(InstructionCommand::Stax, InstructionRegisterPair::DE)));
    assert!(!cpu.can_execute(&Instruction::Intermediate16Bit(InstructionCommand::Lxi, InstructionRegisterPair::FA, 1)));
    assert!(!cpu.can_execute(&Instruction::Intermediate16BitNoReg(InstructionCommand::Shld, -1)));
    assert!(cpu.can_execute(&Instruction::Intermediate16BitNoReg(InstructionCommand::Shld, 100)));
    cpu.change_register(InstructionRegister::C, 127);
    assert!(cpu.can_execute(&Instruction::SingleRegister(InstructionCommand::Inr, InstructionRegister::C)));
    assert!(!cpu.can_execute(&Instruction::SingleRegister(InstructionCommand::Mvi, InstructionRegister::C)));
    cpu.set_stack_pointer(65535);
    assert!(!cpu.can_execute(&Instruction::NoRegister(InstructionCommand::Xthl)));
}

#[test]
fn ral_then_rar_restores_accumulator_and_carry() {
    let mut cpu = initialize_cpu();
    cpu.change_register(InstructionRegister::A, -75);
    cpu.set_flag(Flag::C, true);
    cpu.execute_ral();
    cpu.execute_rar();
    assert_eq!(cpu.get_register(InstructionRegister::A), -75);
    assert!(cpu.get_flag(Flag::C));
}

#[test]
fn rlc_then_rrc_restores_accumulator() {
    let mut cpu = initialize_cpu();
    cpu.change_register(InstructionRegister::A, -126);
    cpu.execute_rlc();
    cpu.execute_rrc();
    assert_eq!(cpu.get_register(InstructionRegister::A), -126);
}

#[test]
fn push_then_pop_restores_the_pair() {
    let mut cpu = initialize_cpu();
    cpu.set_stack_pointer(100);
    cpu.change_register(InstructionRegister::B, 12);
    cpu.change_register(InstructionRegister::C, -34);
    cpu.execute_push(&InstructionRegisterPair::BC);
    assert_eq!(cpu.get_stack_pointer(), 98);
    cpu.change_register(InstructionRegister::B, 0);
    cpu.change_register(InstructionRegister::C, 0);
    cpu.execute_pop(&InstructionRegisterPair::BC);
    assert_eq!(cpu.get_register(InstructionRegister::B), 12);
    assert_eq!(cpu.get_register(InstructionRegister::C), -34);
    assert_eq!(cpu.get_stack_pointer(), 100);
}

#[test]
fn inx_then_dcx_restores_the_pair() {
    let mut cpu = initialize_cpu();
    cpu.change_register(InstructionRegister::D, -1);
    cpu.change_register(InstructionRegister::E, -1);
    cpu.execute_inx(&InstructionRegisterPair::DE);
    assert_eq!(cpu.get_register(InstructionRegister::D), 0);
    assert_eq!(cpu.get_register(InstructionRegister::E), 0);
    cpu.execute_dcx(&InstructionRegisterPair::DE);
    assert_eq!(cpu.get_register(InstructionRegister::D), -1);
    assert_eq!(cpu.get_register(InstructionRegister::E), -1);
}

#[test]
fn xchg_cma_cmc_twice_change_nothing() {
    let mut cpu = initialize_cpu();
    cpu.change_register(InstructionRegister::D, 1);
    cpu.change_register(InstructionRegister::E, 2);
    cpu.change_register(InstructionRegister::H, 3);
    cpu.change_register(InstructionRegister::L, 4);
    cpu.change_register(InstructionRegister::A, 77);
    cpu.execute_xchg();
    assert_eq!(cpu.get_register(InstructionRegister::H), 1);
    cpu.execute_xchg();
    cpu.execute_cma();
    assert_eq!(cpu.get_register(InstructionRegister::A), -78);
    cpu.execute_cma();
    cpu.execute_cmc();
    assert!(cpu.get_flag(Flag::C));
    cpu.execute_cmc();
    assert_eq!(cpu.get_register(InstructionRegister::D), 1);
    assert_eq!(cpu.get_register(InstructionRegister::E), 2);
    assert_eq!(cpu.get_register(InstructionRegister::H), 3);
    assert_eq!(cpu.get_register(InstructionRegister::L), 4);
    assert_eq!(cpu.get_register(InstructionRegister::A), 77);
    assert!(!cpu.get_flag(Flag::C));
}

#[test]
fn sta_then_lda_and_shld_then_lhld_read_back() {
    let mut cpu = initialize_cpu();
    cpu.change_register(InstructionRegister::A, -9);
    cpu.execute_sta(4000);
    cpu.change_register(InstructionRegister::A, 0);
    cpu.execute_lda(4000);
    assert_eq!(cpu.get_register(InstructionRegister::A), -9);

    cpu.change_register(InstructionRegister::H, 5);
    cpu.change_register(InstructionRegister::L, 6);
    cpu.execute_shld(300);
    cpu.change_register(InstructionRegister::H, 0);
    cpu.change_register(InstructionRegister::L, 0);
    cpu.execute_lhld(300);
    assert_eq!(cpu.get_register(InstructionRegister::H), 5);
    assert_eq!(cpu.get_register(InstructionRegister::L), 6);
}

#[test]
fn adi_then_sui_restores_the_accumulator() {
    let mut cpu = initialize_cpu();
    cpu.change_register(InstructionRegister::A, 120);
    cpu.execute_adi(100);
    cpu.execute_sui(100);
    assert_eq!(cpu.get_register(InstructionRegister::A), 120);
}

#[test]
fn register_write_then_read_gives_the_value() {
    let mut cpu = initialize_cpu();
    cpu.change_register(InstructionRegister::E, -100);
    cpu.set_memory(65535, 42);
    assert_eq!(cpu.get_register(InstructionRegister::E), -100);
    assert_eq!(cpu.get_memory(65535), 42);
    assert_eq!(cpu.get_register(InstructionRegister::D), 0);
}

#[test]
fn run_stops_at_the_first_halt() {
    let code = program(&[
        (0, Instruction::IntermediateRegister(InstructionCommand::Mvi, 3, InstructionRegister::C)),
        (2, Instruction::SingleRegister(InstructionCommand::Dcr, InstructionRegister::C)),
        (3, Instruction::NoRegister(InstructionCommand::Hlt)),
        (4, Instruction::SingleRegister(InstructionCommand::Inr, InstructionRegister::C)),
    ]);
    let mut cpu = initialize_cpu();
    assert_eq!(cpu.run(&code, 100), StepOutcome::Halted);
    assert_eq!(cpu.get_register(InstructionRegister::C), 2);
    assert_eq!(cpu.get_program_counter(), 4);

    let mut again = initialize_cpu();
    assert_eq!(again.run(&code, 3), StepOutcome::Halted);
    assert_eq!(again.get_register(InstructionRegister::C), 2);
    assert_eq!(again.get_program_counter(), 4);
}

#[test]
fn run_without_budget_left_reports_continued() {
    let code = program(&[(0, Instruction::Label(InstructionCommand::Jmp, 0))]);
    let mut cpu = initialize_cpu();
    assert_eq!(cpu.run(&code, 10), StepOutcome::Continued);
    assert_eq!(cpu.get_program_counter(), 0);

    let code = program(&[
        (0, Instruction::NoRegister(InstructionCommand::Stc)),
        (1, Instruction::NoRegister(InstructionCommand::Hlt)),
    ]);
    let mut cpu = initialize_cpu();
    assert_eq!(cpu.run(&code, 0), StepOutcome::Continued);
    assert_eq!(cpu.get_program_counter(), 0);
    assert!(!cpu.get_flag(Flag::C));
    assert_eq!(cpu.run(&code, 1), StepOutcome::Continued);
    assert_eq!(cpu.get_program_counter(), 1);
    assert!(cpu.get_flag(Flag::C));
}

#[test]
fn run_reports_a_step_that_cannot_be_taken() {
    let code = program(&[(0, Instruction::NoRegister(InstructionCommand::Stc))]);
    let mut cpu = initialize_cpu();
    assert_eq!(cpu.run(&code, 5), StepOutcome::MissingInstruction);
    assert_eq!(cpu.get_program_counter(), 1);
    assert!(cpu.get_flag(Flag::C));
}

#[test]
fn print_step_moves_past_every_instruction_and_refuses_hlt() {
    let code = program(&[
        (0, Instruction::Label(InstructionCommand::Jmp, 10)),
        (13, Instruction::NoRegister(InstructionCommand::Stc)),
        (14, Instruction::NoRegister(InstructionCommand::Hlt)),
    ]);
    let mut cpu = initialize_cpu();
    assert_eq!(cpu.print_step(&code), StepOutcome::Continued);
    assert_eq!(cpu.get_program_counter(), 13);
    assert_eq!(cpu.print_step(&code), StepOutcome::Continued);
    assert_eq!(cpu.get_program_counter(), 14);
    assert!(cpu.get_flag(Flag::C));
    assert_eq!(cpu.print_step(&code), StepOutcome::InvalidInstruction);
    assert_eq!(cpu.get_program_counter(), 14);
}
