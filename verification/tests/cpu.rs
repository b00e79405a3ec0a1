use emu8080::cpu::{initialize_cpu, Flag};
use emu8080::assembler::{InstructionRegister, InstructionRegisterPair};

#[test]
fn test_execute_mvi() {
    let mut cpu = initialize_cpu();

    cpu.execute_mvi(&InstructionRegister::A, 14);
    assert_eq!(cpu.get_register(InstructionRegister::A), 14);
}

#[test]
fn test_execute_mov() {
    let mut cpu = initialize_cpu();
    cpu.change_register(InstructionRegister::A, 10);

    cpu.execute_mov(&(InstructionRegister::A, InstructionRegister::B));
    assert_eq!(cpu.get_register(InstructionRegister::B), 10);
}

#[test]
fn test_execute_add() {
    let mut cpu = initialize_cpu();
    cpu.change_register(InstructionRegister::A, 5);
    cpu.set_flag(Flag::Z, true);

    cpu.execute_add(&InstructionRegister::A);
    assert_eq!(cpu.get_register(InstructionRegister::A), 10);
    assert_eq!(cpu.get_flag(Flag::Z), false);

    cpu.change_register(InstructionRegister::A, -5);
    cpu.execute_add(&InstructionRegister::A);
    assert_eq!(cpu.get_register(InstructionRegister::A), -10);
    assert_eq!(cpu.get_flag(Flag::S), true);

    cpu.change_register(InstructionRegister::A, 127);
    cpu.change_register(InstructionRegister::B, 127);
    cpu.set_flag(Flag::C, true);
    cpu.execute_add(&InstructionRegister::B);
    assert_eq!(cpu.get_register(InstructionRegister::A), -2);
    assert_eq!(cpu.get_flag(Flag::C), false);

    cpu.change_register(InstructionRegister::A, -64);
    cpu.change_register(InstructionRegister::B, 64);
    cpu.execute_add(&InstructionRegister::B);
    assert_eq!(cpu.get_register(InstructionRegister::A), 0);
    assert_eq!(cpu.get_flag(Flag::C), true);
}

#[test]
fn test_execute_adc() {
    let mut cpu = initialize_cpu();
    cpu.change_register(InstructionRegister::A, 5);
    cpu.set_flag(Flag::Z, true);

    cpu.change_register(InstructionRegister::A, 10);
    cpu.set_flag(Flag::C, false);
    cpu.execute_adc(&InstructionRegister::A);
    assert_eq!(cpu.get_register(InstructionRegister::A), 20);

    cpu.change_register(InstructionRegister::A, 10);
    cpu.set_flag(Flag::C, true);
    cpu.execute_adc(&InstructionRegister::A);
    assert_eq!(cpu.get_register(InstructionRegister::A), 21);

    cpu.change_register(InstructionRegister::A, -64);
    cpu.change_register(InstructionRegister::B, 63);
    cpu.set_flag(Flag::C, true);
    cpu.execute_adc(&InstructionRegister::B);
    assert_eq!(cpu.get_register(InstructionRegister::A), 0);
    assert_eq!(cpu.get_flag(Flag::C), true);

    cpu.change_register(InstructionRegister::A, 15);
    cpu.change_register(InstructionRegister::B, 63);
    cpu.set_flag(Flag::C, true);
    cpu.execute_adc(&InstructionRegister::B);
    assert_eq!(cpu.get_register(InstructionRegister::A), 79);
    assert_eq!(cpu.get_flag(Flag::C), false);
}

#[test]
fn test_execute_adi() {
    let mut cpu = initialize_cpu();
    cpu.change_register(InstructionRegister::A, 5);
    cpu.set_flag(Flag::Z, true);

    cpu.execute_adi(5);
    assert_eq!(cpu.get_register(InstructionRegister::A), 10);
    assert_eq!(cpu.get_flag(Flag::Z), false);

    cpu.change_register(InstructionRegister::A, -5);
    cpu.execute_adi(-5);
    assert_eq!(cpu.get_register(InstructionRegister::A), -10);
    assert_eq!(cpu.get_flag(Flag::S), true);

    cpu.change_register(InstructionRegister::A, -64);
    cpu.set_flag(Flag::C, true);
    cpu.execute_adi(64);
    assert_eq!(cpu.get_register(InstructionRegister::A), 0);
    assert_eq!(cpu.get_flag(Flag::C), true);

    cpu.change_register(InstructionRegister::A, 127);
    cpu.execute_adi(127);
    assert_eq!(cpu.get_register(InstructionRegister::A), -2);
    assert_eq!(cpu.get_flag(Flag::C), false);
}

#[test]
fn test_execute_aci() {
    let mut cpu = initialize_cpu();
    cpu.change_register(InstructionRegister::A, 5);
    cpu.set_flag(Flag::Z, true);

    cpu.execute_aci(5);
    assert_eq!(cpu.get_register(InstructionRegister::A), 10);
    assert_eq!(cpu.get_flag(Flag::Z), false);

    cpu.change_register(InstructionRegister::A, -5);
    cpu.execute_aci(-5);
    assert_eq!(cpu.get_register(InstructionRegister::A), -10);
    assert_eq!(cpu.get_flag(Flag::S), true);

    cpu.change_register(InstructionRegister::A, -64);
    cpu.set_flag(Flag::C, true);
    cpu.execute_aci(64);
    assert_eq!(cpu.get_register(InstructionRegister::A), 1);
    assert_eq!(cpu.get_flag(Flag::C), true);

    cpu.change_register(InstructionRegister::A, 127);
    cpu.set_flag(Flag::C, false);
    cpu.execute_aci(127);
    assert_eq!(cpu.get_register(InstructionRegister::A), -2);
    assert_eq!(cpu.get_flag(Flag::C), false);

    cpu.set_flag(Flag::C, true);
    cpu.change_register(InstructionRegister::A, 0);
    cpu.execute_aci(4);
    assert_eq!(cpu.get_register(InstructionRegister::A), 5);

    cpu.set_flag(Flag::C, false);
    cpu.change_register(InstructionRegister::A, 0);
    cpu.execute_aci(4);
    assert_eq!(cpu.get_register(InstructionRegister::A), 4);
}

#[test]
fn test_excute_sui() {
    let mut cpu = initialize_cpu();

    cpu.set_flag(Flag::Z, false);
    cpu.change_register(InstructionRegister::A, 5);
    cpu.execute_sui(5);
    assert_eq!(cpu.get_register(InstructionRegister::A), 0);
    assert_eq!(cpu.get_flag(Flag::Z), true);

    cpu.set_flag(Flag::Z, true);
    cpu.change_register(InstructionRegister::A, -5);
    cpu.execute_sui(8);
    assert_eq!(cpu.get_register(InstructionRegister::A), -13);
    assert_eq!(cpu.get_flag(Flag::Z), false);

    cpu.set_flag(Flag::S, false);
    cpu.change_register(InstructionRegister::A, 10);
    cpu.execute_sui(16);
    assert_eq!(cpu.get_register(InstructionRegister::A), -6);
    assert_eq!(cpu.get_flag(Flag::S), true);

    cpu.set_flag(Flag::S, true);
    cpu.change_register(InstructionRegister::A, 10);
    cpu.execute_sui(1);
    assert_eq!(cpu.get_register(InstructionRegister::A), 9);
    assert_eq!(cpu.get_flag(Flag::S), false);

    cpu.change_register(InstructionRegister::A, 127);
    cpu.execute_sui(-1);
    assert_eq!(cpu.get_register(InstructionRegister::A), -128);
    assert_eq!(cpu.get_flag(Flag::C), true);

    cpu.set_flag(Flag::C, true);
    cpu.change_register(InstructionRegister::A, 10);
    cpu.execute_sui(1);
    assert_eq!(cpu.get_register(InstructionRegister::A), 9);
    assert_eq!(cpu.get_flag(Flag::C), false);
}

#[test]
fn test_execute_sub() {
    let mut cpu = initialize_cpu();
    cpu.change_register(InstructionRegister::A, 5);

    cpu.execute_sub(&InstructionRegister::A);
    assert_eq!(cpu.get_register(InstructionRegister::A), 0);
    assert_eq!(cpu.get_flag(Flag::Z), true);

    cpu.change_register(InstructionRegister::A, -5);
    cpu.execute_sub(&InstructionRegister::A);
    assert_eq!(cpu.get_register(InstructionRegister::A), 0);

    cpu.change_register(InstructionRegister::A, 127);
    cpu.change_register(InstructionRegister::B, -1);
    cpu.execute_sub(&InstructionRegister::B);
    assert_eq!(cpu.get_register(InstructionRegister::A), -128);
    assert_eq!(cpu.get_flag(Flag::C), true);

    cpu.change_register(InstructionRegister::A, -59);
    cpu.change_register(InstructionRegister::B, -98);
    cpu.set_flag(Flag::C, true);
    cpu.execute_sub(&InstructionRegister::B);
    assert_eq!(cpu.get_register(InstructionRegister::A), 39);
    assert_eq!(cpu.get_flag(Flag::C), false);

    cpu.change_register(InstructionRegister::A, 12);
    cpu.change_register(InstructionRegister::B, -15);
    cpu.set_flag(Flag::C, false);
    cpu.execute_sub(&InstructionRegister::B);
    assert_eq!(cpu.get_register(InstructionRegister::A), 27);
    assert_eq!(cpu.get_flag(Flag::C), true);
}

#[test]
fn test_execute_inr() {
    let mut cpu = initialize_cpu();

    cpu.execute_inr(&InstructionRegister::A);
    assert_eq!(cpu.get_register(InstructionRegister::A), 1);

    cpu.change_register(InstructionRegister::A, -2);
    cpu.execute_inr(&InstructionRegister::A);
    assert_eq!(cpu.get_register(InstructionRegister::A), -1);
    assert_eq!(cpu.get_flag(Flag::S), true);
}

#[test]
fn test_execute_dcr() {
    let mut cpu = initialize_cpu();
    cpu.change_register(InstructionRegister::A, 1);

    cpu.execute_dcr(&InstructionRegister::A);
    assert_eq!(cpu.get_register(InstructionRegister::A), 0);
    assert_eq!(cpu.get_flag(Flag::Z), true);

    cpu.change_register(InstructionRegister::A, -1);

    cpu.execute_dcr(&InstructionRegister::A);
    assert_eq!(cpu.get_register(InstructionRegister::A), -2);
    assert_eq!(cpu.get_flag(Flag::S), true);
}

#[test]
fn test_execute_ana() {
    let mut cpu = initialize_cpu();
    cpu.change_register(InstructionRegister::A, -10);
    cpu.change_register(InstructionRegister::B, -10);

    cpu.execute_ana(&InstructionRegister::B);
    assert_eq!(cpu.get_register(InstructionRegister::A), -10);

    // -15 11110001
    // -10 11110110
    // ANA 11110000

    cpu.change_register(InstructionRegister::A, -15);
    cpu.execute_ana(&InstructionRegister::B);
    assert_eq!(cpu.get_register(InstructionRegister::A), -16);
}

#[test]
fn test_execute_stc() {
    let mut cpu = initialize_cpu();

    cpu.execute_stc();
    assert_eq!(cpu.get_flag(Flag::C), true);
}

#[test]
fn test_execute_cmc() {
    let mut cpu = initialize_cpu();

    cpu.execute_cmc();
    assert_eq!(cpu.get_flag(Flag::C), true);

    cpu.execute_cmc();
    assert_eq!(cpu.get_flag(Flag::C), false);
}

#[test]
fn test_execute_cma() {
    let mut cpu = initialize_cpu();

    cpu.change_register(InstructionRegister::A, 74);
    cpu.execute_cma();
    assert_eq!(cpu.get_register(InstructionRegister::A), -75);

    cpu.change_register(InstructionRegister::A, -45);
    cpu.execute_cma();
    assert_eq!(cpu.get_register(InstructionRegister::A), 44);
}

#[test]
fn test_execute_rlc() {
    let mut cpu = initialize_cpu();

    // negative with carry
    cpu.set_flag(Flag::C, false);
    cpu.change_register(InstructionRegister::A, -14);
    cpu.execute_rlc();
    assert_eq!(cpu.get_flag(Flag::C), true);
    assert_eq!(cpu.get_register(InstructionRegister::A), -27);
    // negative without carry
    cpu.set_flag(Flag::C, false);
    cpu.change_register(InstructionRegister::A, -128);
    cpu.execute_rlc();
    assert_eq!(cpu.get_flag(Flag::C), true);
    assert_eq!(cpu.get_register(InstructionRegister::A), 1);

    // positive
    cpu.set_flag(Flag::C, true);
    cpu.change_register(InstructionRegister::A, 24);
    cpu.execute_rlc();
    assert_eq!(cpu.get_flag(Flag::C), false);
    assert_eq!(cpu.get_register(InstructionRegister::A), 48);
}

#[test]
fn test_execute_rrc() {
    let mut cpu = initialize_cpu();

    // negative without carry
    cpu.set_flag(Flag::C, true);
    cpu.change_register(InstructionRegister::A, -14);
    cpu.execute_rrc();
    assert_eq!(cpu.get_flag(Flag::C), false);
    assert_eq!(cpu.get_register(InstructionRegister::A), 121);

    // negative with carry
    cpu.set_flag(Flag::C, false);
    cpu.change_register(InstructionRegister::A, -13);
    cpu.execute_rrc();
    assert_eq!(cpu.get_flag(Flag::C), true);
    assert_eq!(cpu.get_register(InstructionRegister::A), -7);

    // positive without carry
    cpu.set_flag(Flag::C, true);
    cpu.change_register(InstructionRegister::A, 12);
    cpu.execute_rrc();
    assert_eq!(cpu.get_flag(Flag::C), false);
    assert_eq!(cpu.get_register(InstructionRegister::A), 6);

    // positive with carry
    cpu.set_flag(Flag::C, false);
    cpu.change_register(InstructionRegister::A, 13);
    cpu.execute_rrc();
    assert_eq!(cpu.get_flag(Flag::C), true);
    assert_eq!(cpu.get_register(InstructionRegister::A), -122);
}

#[test]
fn test_execute_ral() {
    let mut cpu = initialize_cpu();

    // false -> true
    cpu.set_flag(Flag::C, false);
    cpu.change_register(InstructionRegister::A, -75);
    cpu.execute_ral();
    assert_eq!(cpu.get_flag(Flag::C), true);
    assert_eq!(cpu.get_register(InstructionRegister::A), 106);

    // true -> true
    cpu.set_flag(Flag::C, true);
    cpu.change_register(InstructionRegister::A, -75);
    cpu.execute_ral();
    assert_eq!(cpu.get_flag(Flag::C), true);
    assert_eq!(cpu.get_register(InstructionRegister::A), 107);

    // false -> false
    cpu.set_flag(Flag::C, false);
    cpu.change_register(InstructionRegister::A, 12);
    cpu.execute_ral();
    assert_eq!(cpu.get_flag(Flag::C), false);
    assert_eq!(cpu.get_register(InstructionRegister::A), 24);

    // true -> false
    cpu.set_flag(Flag::C, true);
    cpu.change_register(InstructionRegister::A, 12);
    cpu.execute_ral();
    assert_eq!(cpu.get_flag(Flag::C), false);
    assert_eq!(cpu.get_register(InstructionRegister::A), 25);
}

#[test]
fn test_execute_rar() {
    let mut cpu = initialize_cpu();

    // true -> false
    cpu.set_flag(Flag::C, true);
    cpu.change_register(InstructionRegister::A, 106);
    cpu.execute_rar();
    assert_eq!(cpu.get_flag(Flag::C), false);
    assert_eq!(cpu.get_register(InstructionRegister::A), -75);

    // false -> false
    cpu.set_flag(Flag::C, false);
    cpu.change_register(InstructionRegister::A, 106);
    cpu.execute_rar();
    assert_eq!(cpu.get_flag(Flag::C), false);
    assert_eq!(cpu.get_register(InstructionRegister::A), 53);

    // false -> true
    cpu.set_flag(Flag::C, false);
    cpu.change_register(InstructionRegister::A, 53);
    cpu.execute_rar();
    assert_eq!(cpu.get_flag(Flag::C), true);
    assert_eq!(cpu.get_register(InstructionRegister::A), 26);

    // true -> true
    cpu.set_flag(Flag::C, true);
    cpu.change_register(InstructionRegister::A, 53);
    cpu.execute_rar();
    assert_eq!(cpu.get_flag(Flag::C), true);
    assert_eq!(cpu.get_register(InstructionRegister::A), -102);
}

#[test]
fn test_execute_ora() {
    let mut cpu = initialize_cpu();

    cpu.set_flag(Flag::C, true);
    cpu.change_register(InstructionRegister::A, 51);
    cpu.change_register(InstructionRegister::B, 15);
    cpu.execute_ora(&InstructionRegister::B);
    assert_eq!(cpu.get_flag(Flag::C), false);
    assert_eq!(cpu.get_register(InstructionRegister::A), 63);

    cpu.set_flag(Flag::C, false);
    cpu.change_register(InstructionRegister::A, -1);
    cpu.change_register(InstructionRegister::B, 0);
    cpu.execute_ora(&InstructionRegister::B);
    assert_eq!(cpu.get_flag(Flag::C), false);
    assert_eq!(cpu.get_register(InstructionRegister::A), -1);
}

#[test]
fn test_execute_daa() {
    let mut cpu = initialize_cpu();

    // neither carry bit are set
    cpu.set_flag(Flag::A, true);
    cpu.change_register(InstructionRegister::A, -101);
    cpu.execute_daa();
    assert_eq!(cpu.get_register(InstructionRegister::A), 1);
    assert_eq!(cpu.get_flag(Flag::C), true);
    assert_eq!(cpu.get_flag(Flag::A), true);
}

#[test]
fn test_execute_stax() {
    let mut cpu = initialize_cpu();

    cpu.change_register(InstructionRegister::A, 42);
    cpu.change_register(InstructionRegister::B, 123);
    cpu.change_register(InstructionRegister::C, 17);

    cpu.execute_stax(&InstructionRegisterPair::BC);
    assert_eq!(cpu.get_memory(31505), 42);
}

#[test]
fn test_execute_ldax() {
    let mut cpu = initialize_cpu();

    cpu.change_register(InstructionRegister::D, -109);
    cpu.change_register(InstructionRegister::E, -117);
    cpu.set_memory(37771, 42);
    cpu.execute_ldax(&InstructionRegisterPair::DE);
    assert_eq!(cpu.get_register(InstructionRegister::A), 42);
}

#[test]
fn test_execute_cmp() {
    let mut cpu = initialize_cpu();

    cpu.set_flag(Flag::C, true);
    cpu.set_flag(Flag::Z, true);
    cpu.change_register(InstructionRegister::A, 10);
    cpu.change_register(InstructionRegister::E, -5);
    cpu.execute_cmp(&InstructionRegister::E);
    assert_eq!(cpu.get_flag(Flag::C), false);
    assert_eq!(cpu.get_flag(Flag::Z), false);

    cpu.set_flag(Flag::C, false);
    cpu.set_flag(Flag::Z, true);
    cpu.change_register(InstructionRegister::A, 2);
    cpu.change_register(InstructionRegister::E, -5);
    cpu.execute_cmp(&InstructionRegister::E);
    assert_eq!(cpu.get_flag(Flag::C), true);
    assert_eq!(cpu.get_flag(Flag::Z), false);

    cpu.set_flag(Flag::C, true);
    cpu.set_flag(Flag::Z, true);
    cpu.change_register(InstructionRegister::A, -27);
    cpu.change_register(InstructionRegister::E, -5);
    cpu.execute_cmp(&InstructionRegister::E);
    assert_eq!(cpu.get_flag(Flag::C), false);
    assert_eq!(cpu.get_flag(Flag::Z), false);
}

#[test]
fn test_execute_xra() {
    let mut cpu = initialize_cpu();

    cpu.set_flag(Flag::Z, false);
    cpu.change_register(InstructionRegister::A, 123);
    cpu.execute_xra(&InstructionRegister::A);
    assert_eq!(cpu.get_register(InstructionRegister::A), 0);
    assert_eq!(cpu.get_flag(Flag::Z), true);

    cpu.set_flag(Flag::Z, true);
    cpu.change_register(InstructionRegister::A, 92);
    cpu.change_register(InstructionRegister::B, 120);
    cpu.execute_xra(&InstructionRegister::B);
    assert_eq!(cpu.get_register(InstructionRegister::B), 36);
    assert_eq!(cpu.get_flag(Flag::Z), false);
}

#[test]
fn test_execute_sbb() {
    let mut cpu = initialize_cpu();

    cpu.set_flag(Flag::Z, true);
    cpu.set_flag(Flag::C, true);
    cpu.change_register(InstructionRegister::A, 4);
    cpu.change_register(InstructionRegister::L, 2);
    cpu.execute_sbb(&InstructionRegister::L);
    assert_eq!(cpu.get_register(InstructionRegister::A), 1);
    assert_eq!(cpu.get_flag(Flag::Z), false);
    assert_eq!(cpu.get_flag(Flag::C), false);
}

#[test]
fn test_execute_xchg() {
    let mut cpu = initialize_cpu();

    cpu.change_register(InstructionRegister::D, 51);
    cpu.change_register(InstructionRegister::E, 85);
    cpu.change_register(InstructionRegister::H, 0);
    cpu.change_register(InstructionRegister::L, -128);
    cpu.execute_xchg();

    assert_eq!(cpu.get_register(InstructionRegister::H), 51);
    assert_eq!(cpu.get_register(InstructionRegister::L), 85);
    assert_eq!(cpu.get_register(InstructionRegister::D), 0);
    assert_eq!(cpu.get_register(InstructionRegister::E), -128);
}

#[test]
fn test_execute_sphl() {
    let mut cpu = initialize_cpu();

    cpu.change_register(InstructionRegister::H, 80);
    cpu.change_register(InstructionRegister::L, 108);
    cpu.execute_sphl();

    assert_eq!(cpu.get_stack_pointer(), 20588);
}

#[test]
fn test_execute_xthl() {
    let mut cpu = initialize_cpu();

    cpu.set_stack_pointer(4269);
    cpu.change_register(InstructionRegister::H, 11);
    cpu.change_register(InstructionRegister::L, 60);
    cpu.set_memory(4269, -16);
    cpu.set_memory(4270, 13);
    cpu.execute_xthl();

    assert_eq!(cpu.get_register(InstructionRegister::H), 13);
    assert_eq!(cpu.get_register(InstructionRegister::L), -16);
    assert_eq!(cpu.get_memory(4269), 60);
    assert_eq!(cpu.get_memory(4270), 11);
}

#[test]
fn test_execute_dcx() {
    let mut cpu = initialize_cpu();

    cpu.execute_dcx(&InstructionRegisterPair::BC);
    assert_eq!(cpu.get_register(InstructionRegister::B), -1);
    assert_eq!(cpu.get_register(InstructionRegister::C), -1);

    cpu.change_register(InstructionRegister::H, -104);
    cpu.change_register(InstructionRegister::L, 0);
    cpu.execute_dcx(&InstructionRegisterPair::HL);
    assert_eq!(cpu.get_register(InstructionRegister::H), -105);
    assert_eq!(cpu.get_register(InstructionRegister::L), -1);

    cpu.execute_dcx(&InstructionRegisterPair::SP);
    assert_eq!(cpu.get_stack_pointer(), 65535);
}

#[test]
fn test_execute_inx() {
    let mut cpu = initialize_cpu();

    cpu.execute_inx(&InstructionRegisterPair::BC);
    assert_eq!(cpu.get_register(InstructionRegister::B), 0);
    assert_eq!(cpu.get_register(InstructionRegister::C), 1);

    cpu.change_register(InstructionRegister::D, 56);
    cpu.change_register(InstructionRegister::E, -1);
    cpu.execute_inx(&InstructionRegisterPair::DE);
    assert_eq!(cpu.get_register(InstructionRegister::D), 57);
    assert_eq!(cpu.get_register(InstructionRegister::E), 0);

    cpu.set_stack_pointer(65535);
    cpu.execute_inx(&InstructionRegisterPair::SP);
    assert_eq!(cpu.get_stack_pointer(), 0);
}

#[test]
fn test_execute_dad() {
    let mut cpu = initialize_cpu();

    cpu.set_flag(Flag::C, true);
    cpu.change_register(InstructionRegister::B, 51);
    cpu.change_register(InstructionRegister::C, -97);
    cpu.change_register(InstructionRegister::H, -95);
    cpu.change_register(InstructionRegister::L, 123);
    cpu.execute_dad(&InstructionRegisterPair::BC);

    assert_eq!(cpu.get_register(InstructionRegister::H), -43);
    assert_eq!(cpu.get_register(InstructionRegister::L), 26);
    assert_eq!(cpu.get_flag(Flag::C), false);

    cpu.set_flag(Flag::C, false);
    cpu.set_stack_pointer(1);
    cpu.change_register(InstructionRegister::H, -1);
    cpu.change_register(InstructionRegister::L, -1);
    cpu.execute_dad(&InstructionRegisterPair::SP);

    assert_eq!(cpu.get_register(InstructionRegister::H), 0);
    assert_eq!(cpu.get_register(InstructionRegister::L), 0);
    assert_eq!(cpu.get_flag(Flag::C), true);
}

#[test]
fn test_execute_push() {
    let mut cpu = initialize_cpu();

    cpu.change_register(InstructionRegister::D, -113);
    cpu.change_register(InstructionRegister::E, -99);
    cpu.set_stack_pointer(14892);
    cpu.execute_push(&InstructionRegisterPair::DE);

    assert_eq!(cpu.get_memory(14891), -113);
    assert_eq!(cpu.get_memory(14890), -99);
    assert_eq!(cpu.get_stack_pointer(), 14890);

    cpu.change_register(InstructionRegister::A, 31);
    cpu.set_flag(Flag::C, true);
    cpu.set_flag(Flag::Z, true);
    cpu.set_flag(Flag::P, true);
    cpu.set_flag(Flag::S, false);
    cpu.set_flag(Flag::A, false);
    cpu.set_stack_pointer(20522);
    cpu.execute_push(&InstructionRegisterPair::FA);

    assert_eq!(cpu.get_memory(20521), 31);
    assert_eq!(cpu.get_memory(20520), 71);
    assert_eq!(cpu.get_stack_pointer(), 20520);
}

#[test]
fn test_execute_pop() {
    let mut cpu = initialize_cpu();

    cpu.set_memory(4665, 61);
    cpu.set_memory(4666, -109);
    cpu.set_stack_pointer(4665);
    cpu.execute_pop(&InstructionRegisterPair::HL);

    assert_eq!(cpu.get_register(InstructionRegister::L), 61);
    assert_eq!(cpu.get_register(InstructionRegister::H), -109);
    assert_eq!(cpu.get_stack_pointer(), 4667);

    cpu.set_memory(11264, -61);
    cpu.set_memory(11265, -1);
    cpu.set_stack_pointer(11264);
    cpu.execute_pop(&InstructionRegisterPair::FA);

    assert_eq!(cpu.get_register(InstructionRegister::A), -1);
    assert_eq!(cpu.get_flag(Flag::S), true);
    assert_eq!(cpu.get_flag(Flag::Z), true);
    assert_eq!(cpu.get_flag(Flag::A), false);
    assert_eq!(cpu.get_flag(Flag::P), false);
    assert_eq!(cpu.get_flag(Flag::C), true);
    assert_eq!(cpu.get_stack_pointer(), 11266);
}

#[test]
fn test_execute_ori() {
    let mut cpu = initialize_cpu();

    cpu.change_register(InstructionRegister::A, -75);
    cpu.execute_ori(15);
    assert_eq!(cpu.get_register(InstructionRegister::A), -65);

    cpu.change_register(InstructionRegister::A, 0);
    cpu.set_flag(Flag::C, true);
    cpu.execute_ori(0);
    assert_eq!(cpu.get_register(InstructionRegister::A), 0);
    assert_eq!(cpu.get_flag(Flag::Z), true);
    assert_eq!(cpu.get_flag(Flag::C), false);
}

#[test]
fn test_execute_xri() {
    let mut cpu = initialize_cpu();

    cpu.change_register(InstructionRegister::A, 59);
    cpu.execute_xri(-127);
    assert_eq!(cpu.get_register(InstructionRegister::A), -70);

    cpu.change_register(InstructionRegister::A, 1);
    cpu.set_flag(Flag::C, true);
    cpu.execute_xri(1);
    assert_eq!(cpu.get_register(InstructionRegister::A), 0);
    assert_eq!(cpu.get_flag(Flag::Z), true);
    assert_eq!(cpu.get_flag(Flag::C), false);
}

#[test]
fn test_execute_ani() {
    let mut cpu = initialize_cpu();

    cpu.change_register(InstructionRegister::A, 58);
    cpu.execute_ani(15);
    assert_eq!(cpu.get_register(InstructionRegister::A), 10);

    cpu.change_register(InstructionRegister::A, -1);
    cpu.set_flag(Flag::C, true);
    cpu.execute_ani(0);
    assert_eq!(cpu.get_register(InstructionRegister::A), 0);
    assert_eq!(cpu.get_flag(Flag::Z), true);
    assert_eq!(cpu.get_flag(Flag::C), false);
}

#[test]
fn test_execute_cpi() {
    let mut cpu = initialize_cpu();

    cpu.set_flag(Flag::C, true);
    cpu.set_flag(Flag::Z, true);
    cpu.change_register(InstructionRegister::A, 74);
    cpu.execute_cpi(64);
    assert_eq!(cpu.get_flag(Flag::C), false);
    assert_eq!(cpu.get_flag(Flag::Z), false);

    cpu.set_flag(Flag::C, true);
    cpu.set_flag(Flag::Z, true);
    cpu.change_register(InstructionRegister::A, 74);
    cpu.execute_cpi(-64);
    assert_eq!(cpu.get_flag(Flag::C), false);
    assert_eq!(cpu.get_flag(Flag::Z), false);
}

#[test]
fn test_execute_sbi() {
    let mut cpu = initialize_cpu();

    cpu.change_register(InstructionRegister::A, 0);
    cpu.set_flag(Flag::C, false);
    cpu.set_flag(Flag::Z, true);
    cpu.execute_sbi(1);
    assert_eq!(cpu.get_register(InstructionRegister::A), -1);
    assert_eq!(cpu.get_flag(Flag::C), true);
    assert_eq!(cpu.get_flag(Flag::Z), false);

    cpu.change_register(InstructionRegister::A, 0);
    cpu.set_flag(Flag::C, true);
    cpu.set_flag(Flag::Z, true);
    cpu.execute_sbi(1);
    assert_eq!(cpu.get_register(InstructionRegister::A), -2);
    assert_eq!(cpu.get_flag(Flag::C), true);
    assert_eq!(cpu.get_flag(Flag::Z), false);
}

#[test]
fn test_execute_lxi() {
    let mut cpu = initialize_cpu();

    cpu.execute_lxi(&InstructionRegisterPair::BC, 4080);
    assert_eq!(cpu.get_register(InstructionRegister::B), 15);
    assert_eq!(cpu.get_register(InstructionRegister::C), -16);

    cpu.execute_lxi(&InstructionRegisterPair::SP, 4080);
    assert_eq!(cpu.get_stack_pointer(), 4080);
}

#[test]
fn test_execute_sta() {
    let mut cpu = initialize_cpu();

    cpu.change_register(InstructionRegister::A, 15);
    cpu.execute_sta(123);

    assert_eq!(cpu.get_memory(123), 15);
}

#[test]
fn test_execute_lda() {
    let mut cpu = initialize_cpu();

    cpu.set_memory(42, 123);
    cpu.execute_lda(42);

    assert_eq!(cpu.get_memory(42), 123);
}

#[test]
fn test_execute_shld() {
    let mut cpu = initialize_cpu();

    cpu.change_register(InstructionRegister::H, 70);
    cpu.change_register(InstructionRegister::L, 7);
    cpu.execute_shld(123);

    assert_eq!(cpu.get_memory(123), 7);
    assert_eq!(cpu.get_memory(124), 70);
}

#[test]
fn test_execute_lhld() {
    let mut cpu = initialize_cpu();

    cpu.set_memory(300, 15);
    cpu.set_memory(301, 1);
    cpu.execute_lhld(300);

    assert_eq!(cpu.get_register(InstructionRegister::H), 1);
    assert_eq!(cpu.get_register(InstructionRegister::L), 15);
}

#[test]
fn test_execute_pchl() {
    let mut cpu = initialize_cpu();

    cpu.change_register(InstructionRegister::H, 65);
    cpu.change_register(InstructionRegister::L, 62);
    cpu.execute_pchl();

    assert_eq!(cpu.get_program_counter(), 16702);
}

#[test]
fn test_execute_jmp() {
    let mut cpu = initialize_cpu();

    cpu.set_program_counter(10);
    cpu.execute_jmp(1234);

    assert_eq!(cpu.get_program_counter(), 1234);
}

#[test]
fn test_memory() {
    let mut cpu = initialize_cpu();

    cpu.set_memory(65535, 42);
    assert_eq!(cpu.get_memory(65535), 42);
}

#[test]
fn test_flag_get_index() {
    assert_eq!(Flag::S.get_index(), 0);
    assert_eq!(Flag::Z.get_index(), 1);
    assert_eq!(Flag::A.get_index(), 3);
    assert_eq!(Flag::P.get_index(), 5);
    assert_eq!(Flag::C.get_index(), 7);
}
