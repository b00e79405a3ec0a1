pub mod laws;
pub mod state;

use vstd::prelude::*;
use crate::bits::{from_byte, to_byte, to_word, wrap_small};
use crate::assembler::parser::{
    is_register_pair, pair_registers, reg_index, Instruction, InstructionCommand,
    InstructionRegister, InstructionRegisterPair,
};
pub use self::state::{CpuState, Flag, StepOutcome};
use self::state::flag_index;
use self::laws::lemma_step;
use std::collections::HashMap;

verus! {

broadcast use vstd::std_specs::hash::group_hash_axioms;

/// The processor: eight registers, 64 KiB of memory, stack pointer, flags and program counter.
#[derive(Debug)]
pub struct Cpu {
    registers: Vec<i8>,
    memory: Vec<i8>,
    stack_pointer: u16,
    flags: Vec<bool>,
    program_counter: u16,
}

/// A processor with every register, memory cell, flag and counter zero or clear.
pub fn initialize_cpu() -> (cpu: Cpu)
    ensures
        cpu@ == CpuState::initial(),
{
    let cpu = Cpu {
        registers: vec![0; 8],
        memory: vec![0; 65536],
        stack_pointer: 0,
        flags: vec![false; 8],
        program_counter: 0,
    };
    assert(cpu@ =~= CpuState::initial());
    cpu
}

impl View for Cpu {
    type V = CpuState;

    closed spec fn view(&self) -> CpuState {
        CpuState {
            registers: self.registers@,
            memory: self.memory@,
            stack_pointer: self.stack_pointer,
            flags: self.flags@,
            program_counter: self.program_counter,
        }
    }
}

impl Flag {
    /// The slot of this flag in the flag byte.
    pub fn get_index(&self) -> (i: usize)
        ensures
            i == flag_index(*self),
    {
        match self {
            Flag::S => 0,
            Flag::Z => 1,
            Flag::A => 3,
            Flag::P => 5,
            Flag::C => 7,
        }
    }
}

impl Cpu {
    /// The value held by a register.
    pub fn get_register(&self, register: InstructionRegister) -> (value: i8)
        requires
            self@.wf(),
        ensures
            value == self@.reg(register),
    {
        self.registers[register.to_index() as usize]
    }

    /// Stores a value in a register.
    pub fn change_register(&mut self, register: InstructionRegister, value: i8)
        requires
            old(self)@.wf(),
        ensures
            final(self)@ == old(self)@.with_reg(register, value),
    {
        self.registers.set(register.to_index() as usize, value);
        assert(self@ =~= old(self)@.with_reg(register, value));
    }

    /// Stores a value in memory.
    pub fn set_memory(&mut self, address: u16, value: i8)
        requires
            old(self)@.wf(),
        ensures
            final(self)@ == old(self)@.with_mem(address as int, value),
    {
        self.memory.set(address as usize, value);
        assert(self@ =~= old(self)@.with_mem(address as int, value));
    }

    /// The value held by a memory cell.
    pub fn get_memory(&self, address: u16) -> (value: i8)
        requires
            self@.wf(),
        ensures
            value == self@.mem(address as int),
    {
        self.memory[address as usize]
    }

    /// Sets the stack pointer.
    pub fn set_stack_pointer(&mut self, value: u16)
        ensures
            final(self)@ == old(self)@.with_sp(value),
    {
        self.stack_pointer = value;
        assert(self@ =~= old(self)@.with_sp(value));
    }

    /// The stack pointer.
    pub fn get_stack_pointer(&self) -> (sp: u16)
        ensures
            sp == self@.stack_pointer,
    {
        self.stack_pointer
    }

    /// The program counter.
    pub fn get_program_counter(&self) -> (pc: u16)
        ensures
            pc == self@.program_counter,
    {
        self.program_counter
    }

    /// Sets the program counter.
    pub fn set_program_counter(&mut self, value: u16)
        ensures
            final(self)@ == old(self)@.with_pc(value),
    {
        self.program_counter = value;
        assert(self@ =~= old(self)@.with_pc(value));
    }

    /// Moves the program counter past `instruction`.
    pub fn incr_program_counter(&mut self, instruction: &Instruction)
        requires
            old(self)@.program_counter + instruction.spec_size() <= 65535,
        ensures
            final(self)@ == old(self)@.with_pc((old(self)@.program_counter + instruction.spec_size()) as u16),
    {
        self.set_program_counter(self.get_program_counter() + instruction.get_size() as u16);
    }

    /// Sets or clears a flag.
    pub fn set_flag(&mut self, flag: Flag, value: bool)
        requires
            old(self)@.wf(),
        ensures
            final(self)@ == old(self)@.with_flag(flag, value),
    {
        self.flags.set(flag.get_index(), value);
        assert(self@ =~= old(self)@.with_flag(flag, value));
    }

    /// Whether a flag is set.
    pub fn get_flag(&self, flag: Flag) -> (value: bool)
        requires
            self@.wf(),
        ensures
            value == self@.flag(flag),
    {
        self.flags[flag.get_index()]
    }

    /// The 16-bit value held by the registers of BC, DE or HL.
    fn pair_word(&self, register_pair: &InstructionRegisterPair) -> (w: u16)
        requires
            self@.wf(),
            is_register_pair(*register_pair),
        ensures
            w == self@.pair_value(*register_pair),
    {
        let registers = register_pair.get_registers();
        let high = to_byte(self.get_register(registers.0)) as u16;
        let low = to_byte(self.get_register(registers.1)) as u16;
        high * 256 + low
    }

    /// Stores the 16-bit value `w` in the registers of BC, DE or HL.
    fn set_pair(&mut self, register_pair: &InstructionRegisterPair, w: u16)
        requires
            old(self)@.wf(),
            is_register_pair(*register_pair),
        ensures
            final(self)@ == old(self)@.with_pair(*register_pair, w as int),
    {
        let registers = register_pair.get_registers();
        self.change_register(registers.0, from_byte((w / 256) as u8));
        self.change_register(registers.1, from_byte((w % 256) as u8));
    }

    /// Sets Z and S from the value now in the accumulator.
    fn set_zs_of_acc(&mut self)
        requires
            old(self)@.wf(),
        ensures
            final(self)@ == old(self)@.with_zs_of_acc(),
    {
        let a = self.get_register(InstructionRegister::A);
        self.set_flag(Flag::Z, a == 0);
        self.set_flag(Flag::S, a < 0);
    }

    /// Executes MVI: see `CpuState::mvi`.
    pub fn execute_mvi(&mut self, arg: &InstructionRegister, intermediate: i8)
        requires
            old(self)@.wf(),
        ensures
            final(self)@ == old(self)@.mvi(*arg, intermediate),
    {
        self.change_register(*arg, intermediate);
    }

    /// Executes ADI: see `CpuState::adi`.
    pub fn execute_adi(&mut self, intermediate: i8)
        requires
            old(self)@.wf(),
        ensures
            final(self)@ == old(self)@.adi(intermediate),
    {
        let current_a = self.get_register(InstructionRegister::A);
        self.change_register(InstructionRegister::A, wrap_small(current_a as i16 + intermediate as i16));
        self.set_zs_of_acc();
        self.set_flag(Flag::C, to_byte(intermediate) as u16 + to_byte(current_a) as u16 > 255);
    }

    /// Executes ACI: see `CpuState::aci`.
    pub fn execute_aci(&mut self, intermediate: i8)
        requires
            old(self)@.wf(),
        ensures
            final(self)@ == old(self)@.aci(intermediate),
    {
        let current_a = self.get_register(InstructionRegister::A);
        let carry: i16 = if self.get_flag(Flag::C) { 1 } else { 0 };
        let sum = wrap_small(current_a as i16 + intermediate as i16);
        self.change_register(InstructionRegister::A, wrap_small(sum as i16 + carry));
        self.set_zs_of_acc();
        self.set_flag(Flag::C, to_byte(intermediate) as i16 + to_byte(current_a) as i16 + carry > 255);
    }

    /// Executes SUI: see `CpuState::sui`.
    pub fn execute_sui(&mut self, intermediate: i8)
        requires
            old(self)@.wf(),
        ensures
            final(self)@ == old(self)@.sui(intermediate),
    {
        let current_a = self.get_register(InstructionRegister::A);
        self.change_register(InstructionRegister::A, wrap_small(current_a as i16 - intermediate as i16));
        self.set_zs_of_acc();
        self.set_flag(Flag::C, to_byte(current_a) < to_byte(intermediate));
    }

    /// Executes MOV: see `CpuState::mov`.
    pub fn execute_mov(&mut self, args: &(InstructionRegister, InstructionRegister))
        requires
            old(self)@.wf(),
        ensures
            final(self)@ == old(self)@.mov(args.0, args.1),
    {
        let source_value = self.get_register(args.0);
        self.change_register(args.1, source_value);
    }

    /// Executes ADD: see `CpuState::add`.
    pub fn execute_add(&mut self, arg: &InstructionRegister)
        requires
            old(self)@.wf(),
        ensures
            final(self)@ == old(self)@.add(*arg),
    {
        let source_value = self.get_register(*arg);
        let current_a = self.get_register(InstructionRegister::A);
        self.change_register(InstructionRegister::A, wrap_small(current_a as i16 + source_value as i16));
        self.set_zs_of_acc();
        self.set_flag(Flag::C, to_byte(source_value) as u16 + to_byte(current_a) as u16 > 255);
    }

    /// Executes ADC: see `CpuState::adc`.
    pub fn execute_adc(&mut self, arg: &InstructionRegister)
        requires
            old(self)@.wf(),
        ensures
            final(self)@ == old(self)@.adc(*arg),
    {
        let source_value = self.get_register(*arg);
        let current_a = self.get_register(InstructionRegister::A);
        let carry: i16 = if self.get_flag(Flag::C) { 1 } else { 0 };
        self.change_register(InstructionRegister::A, wrap_small(current_a as i16 + source_value as i16 + carry));
        self.set_zs_of_acc();
        self.set_flag(Flag::C, to_byte(source_value) as i16 + to_byte(current_a) as i16 + carry > 255);
    }

    /// Executes SUB: see `CpuState::sub`.
    pub fn execute_sub(&mut self, args: &InstructionRegister)
        requires
            old(self)@.wf(),
        ensures
            final(self)@ == old(self)@.sub(*args),
    {
        let source_value = self.get_register(*args);
        let current_a = self.get_register(InstructionRegister::A);
        self.change_register(InstructionRegister::A, wrap_small(current_a as i16 - source_value as i16));
        self.set_zs_of_acc();
        self.set_flag(Flag::C, to_byte(current_a) < to_byte(source_value));
    }

    /// Executes INR: see `CpuState::inr`.
    pub fn execute_inr(&mut self, arg: &InstructionRegister)
        requires
            old(self)@.wf(),
        ensures
            final(self)@ == old(self)@.inr(*arg),
    {
        let new_value = wrap_small(self.get_register(*arg) as i16 + 1);
        self.change_register(*arg, new_value);
        self.set_flag(Flag::Z, new_value == 0);
        self.set_flag(Flag::S, new_value < 0);
    }

    /// Executes DCR: see `CpuState::dcr`.
    pub fn execute_dcr(&mut self, arg: &InstructionRegister)
        requires
            old(self)@.wf(),
        ensures
            final(self)@ == old(self)@.dcr(*arg),
    {
        let new_value = wrap_small(self.get_register(*arg) as i16 - 1);
        self.change_register(*arg, new_value);
        self.set_flag(Flag::Z, new_value == 0);
        self.set_flag(Flag::S, new_value < 0);
    }

    /// Executes ANA: see `CpuState::ana`.
    pub fn execute_ana(&mut self, arg: &InstructionRegister)
        requires
            old(self)@.wf(),
        ensures
            final(self)@ == old(self)@.ana(*arg),
    {
        let acc = self.get_register(InstructionRegister::A);
        let reg = self.get_register(*arg);
        self.change_register(InstructionRegister::A, acc & reg);
    }

    /// Executes STC: see `CpuState::stc`.
    pub fn execute_stc(&mut self)
        requires
            old(self)@.wf(),
        ensures
            final(self)@ == old(self)@.stc(),
    {
        self.set_flag(Flag::C, true);
    }

    /// Executes CMC: see `CpuState::cmc`.
    pub fn execute_cmc(&mut self)
        requires
            old(self)@.wf(),
        ensures
            final(self)@ == old(self)@.cmc(),
    {
        let c = self.get_flag(Flag::C);
        self.set_flag(Flag::C, !c);
    }

    /// Executes CMA: see `CpuState::cma`.
    pub fn execute_cma(&mut self)
        requires
            old(self)@.wf(),
        ensures
            final(self)@ == old(self)@.cma(),
    {
        let acc = self.get_register(InstructionRegister::A);
        self.change_register(InstructionRegister::A, -1 - acc);
    }

    /// Executes RLC: see `CpuState::rlc`.
    pub fn execute_rlc(&mut self)
        requires
            old(self)@.wf(),
        ensures
            final(self)@ == old(self)@.rlc(),
    {
        let acc = to_byte(self.get_register(InstructionRegister::A)) as u16;
        let carry = acc >= 128;
        self.set_flag(Flag::C, carry);
        let low: u16 = if carry { 1 } else { 0 };
        self.change_register(InstructionRegister::A, from_byte(((2 * acc) % 256 + low) as u8));
    }

    /// Executes RRC: see `CpuState::rrc`.
    pub fn execute_rrc(&mut self)
        requires
            old(self)@.wf(),
        ensures
            final(self)@ == old(self)@.rrc(),
    {
        let acc = to_byte(self.get_register(InstructionRegister::A)) as u16;
        let carry = acc % 2 == 1;
        self.set_flag(Flag::C, carry);
        let high: u16 = if carry { 128 } else { 0 };
        self.change_register(InstructionRegister::A, from_byte((acc / 2 + high) as u8));
    }

    /// Executes RAL: see `CpuState::ral`.
    pub fn execute_ral(&mut self)
        requires
            old(self)@.wf(),
        ensures
            final(self)@ == old(self)@.ral(),
    {
        let acc = to_byte(self.get_register(InstructionRegister::A)) as u16;
        let flag = self.get_flag(Flag::C);
        self.set_flag(Flag::C, acc >= 128);
        let low: u16 = if flag { 1 } else { 0 };
        self.change_register(InstructionRegister::A, from_byte(((2 * acc) % 256 + low) as u8));
    }

    /// Executes RAR: see `CpuState::rar`.
    pub fn execute_rar(&mut self)
        requires
            old(self)@.wf(),
        ensures
            final(self)@ == old(self)@.rar(),
    {
        let acc = to_byte(self.get_register(InstructionRegister::A)) as u16;
        let flag = self.get_flag(Flag::C);
        self.set_flag(Flag::C, acc % 2 == 1);
        let high: u16 = if flag { 128 } else { 0 };
        self.change_register(InstructionRegister::A, from_byte((acc / 2 + high) as u8));
    }

    /// Executes ORA: see `CpuState::ora`.
    pub fn execute_ora(&mut self, arg: &InstructionRegister)
        requires
            old(self)@.wf(),
        ensures
            final(self)@ == old(self)@.ora(*arg),
    {
        let acc = self.get_register(InstructionRegister::A) | self.get_register(*arg);
        self.change_register(InstructionRegister::A, acc);
        self.set_flag(Flag::C, false);
    }

    /// Executes DAA: see `CpuState::daa`.
    pub fn execute_daa(&mut self)
        requires
            old(self)@.wf(),
        ensures
            final(self)@ == old(self)@.daa(),
    {
        let u = to_byte(self.get_register(InstructionRegister::A)) as u16;
        let aux = self.get_flag(Flag::A);
        let carry = self.get_flag(Flag::C);
        let low = u % 16 > 9 || aux;
        let u1 = if low { (u + 6) % 256 } else { u };
        let new_aux = if low { u / 16 != u1 / 16 } else { aux };
        let high = u1 / 16 > 9 || carry;
        let u2 = if high { (u1 + 96) % 256 } else { u1 };
        let new_carry = if high { u1 + 96 > 255 } else { carry };
        self.set_flag(Flag::A, new_aux);
        self.set_flag(Flag::C, new_carry);
        self.change_register(InstructionRegister::A, from_byte(u2 as u8));
    }

    /// Executes STAX: see `CpuState::stax`.
    pub fn execute_stax(&mut self, register_pair: &InstructionRegisterPair)
        requires
            old(self)@.wf(),
            is_register_pair(*register_pair),
        ensures
            final(self)@ == old(self)@.stax(*register_pair),
    {
        let address = self.pair_word(register_pair);
        let acc = self.get_register(InstructionRegister::A);
        self.set_memory(address, acc);
    }

    /// Executes LDAX: see `CpuState::ldax`.
    pub fn execute_ldax(&mut self, register_pair: &InstructionRegisterPair)
        requires
            old(self)@.wf(),
            is_register_pair(*register_pair),
        ensures
            final(self)@ == old(self)@.ldax(*register_pair),
    {
        let address = self.pair_word(register_pair);
        let value = self.get_memory(address);
        self.change_register(InstructionRegister::A, value);
    }

    /// Executes CMP: see `CpuState::compare`.
    pub fn execute_cmp(&mut self, register: &InstructionRegister)
        requires
            old(self)@.wf(),
        ensures
            final(self)@ == old(self)@.compare(*register),
    {
        let acc = self.get_register(InstructionRegister::A);
        let reg = self.get_register(*register);
        let result = sub_wrapped(acc, reg);
        self.set_flag(Flag::Z, result == 0);
        self.set_flag(Flag::C, compare_carry(acc, reg));
    }

    /// Executes XRA: see `CpuState::xra`.
    pub fn execute_xra(&mut self, register: &InstructionRegister)
        requires
            old(self)@.wf(),
        ensures
            final(self)@ == old(self)@.xra(*register),
    {
        let result = self.get_register(InstructionRegister::A) ^ self.get_register(*register);
        self.set_flag(Flag::Z, result == 0);
        self.change_register(*register, result);
    }

    /// Executes SBB: see `CpuState::sbb`.
    pub fn execute_sbb(&mut self, register: &InstructionRegister)
        requires
            old(self)@.wf(),
        ensures
            final(self)@ == old(self)@.sbb(*register),
    {
        let acc = self.get_register(InstructionRegister::A);
        let carry: i16 = if self.get_flag(Flag::C) { 1 } else { 0 };
        let reg = wrap_small(self.get_register(*register) as i16 + carry);
        let result = wrap_small(acc as i16 - reg as i16);
        self.set_flag(Flag::Z, result == 0);
        self.set_flag(Flag::C, to_byte(acc) as u16 + to_byte(wrap_small(-(reg as i16))) as u16 <= 255);
        self.change_register(InstructionRegister::A, result);
    }

    /// Executes XCHG: see `CpuState::xchg`.
    pub fn execute_xchg(&mut self)
        requires
            old(self)@.wf(),
        ensures
            final(self)@ == old(self)@.xchg(),
    {
        let reg_d = self.get_register(InstructionRegister::D);
        let reg_e = self.get_register(InstructionRegister::E);
        let reg_h = self.get_register(InstructionRegister::H);
        let reg_l = self.get_register(InstructionRegister::L);
        self.change_register(InstructionRegister::D, reg_h);
        self.change_register(InstructionRegister::E, reg_l);
        self.change_register(InstructionRegister::H, reg_d);
        self.change_register(InstructionRegister::L, reg_e);
    }

    /// Executes SPHL: see `CpuState::sphl`.
    pub fn execute_sphl(&mut self)
        requires
            old(self)@.wf(),
        ensures
            final(self)@ == old(self)@.sphl(),
    {
        let hl = self.pair_word(&InstructionRegisterPair::HL);
        self.set_stack_pointer(hl);
    }

    /// Executes XTHL: see `CpuState::xthl`.
    pub fn execute_xthl(&mut self)
        requires
            old(self)@.wf(),
            old(self)@.stack_pointer < 65535,
        ensures
            final(self)@ == old(self)@.xthl(),
    {
        let reg_l = self.get_register(InstructionRegister::L);
        let reg_h = self.get_register(InstructionRegister::H);
        let sp = self.get_stack_pointer();
        let memory = self.get_memory(sp);
        let memory_incr = self.get_memory(sp + 1);
        self.change_register(InstructionRegister::L, memory);
        self.change_register(InstructionRegister::H, memory_incr);
        self.set_memory(sp, reg_l);
        self.set_memory(sp + 1, reg_h);
    }

    /// Executes DCX: see `CpuState::dcx`.
    pub fn execute_dcx(&mut self, register_pair: &InstructionRegisterPair)
        requires
            old(self)@.wf(),
            *register_pair != InstructionRegisterPair::FA,
        ensures
            final(self)@ == old(self)@.dcx(*register_pair),
    {
        if let InstructionRegisterPair::SP = register_pair {
            let sp = self.get_stack_pointer();
            self.set_stack_pointer(((sp as u32 + 65535) % 65536) as u16);
            return;
        }
        let value = self.pair_word(register_pair);
        self.set_pair(register_pair, ((value as u32 + 65535) % 65536) as u16);
    }

    /// Executes INX: see `CpuState::inx`.
    pub fn execute_inx(&mut self, register_pair: &InstructionRegisterPair)
        requires
            old(self)@.wf(),
            *register_pair != InstructionRegisterPair::FA,
        ensures
            final(self)@ == old(self)@.inx(*register_pair),
    {
        if let InstructionRegisterPair::SP = register_pair {
            let sp = self.get_stack_pointer();
            self.set_stack_pointer(((sp as u32 + 1) % 65536) as u16);
            return;
        }
        let value = self.pair_word(register_pair);
        self.set_pair(register_pair, ((value as u32 + 1) % 65536) as u16);
    }

    /// Executes DAD: see `CpuState::dad`.
    pub fn execute_dad(&mut self, register_pair: &InstructionRegisterPair)
        requires
            old(self)@.wf(),
            *register_pair != InstructionRegisterPair::FA,
        ensures
            final(self)@ == old(self)@.dad(*register_pair),
    {
        let value: u16 = if let InstructionRegisterPair::SP = register_pair {
            self.get_stack_pointer()
        } else {
            self.pair_word(register_pair)
        };
        let hl_value = self.pair_word(&InstructionRegisterPair::HL);
        let sum = value as u32 + hl_value as u32;
        self.set_pair(&InstructionRegisterPair::HL, (sum % 65536) as u16);
        self.set_flag(Flag::C, sum > 65535);
    }

    /// Executes PUSH: see `CpuState::push`.
    pub fn execute_push(&mut self, register_pair: &InstructionRegisterPair)
        requires
            old(self)@.wf(),
            *register_pair != InstructionRegisterPair::SP,
        ensures
            final(self)@ == old(self)@.push(*register_pair),
    {
        let first_register: i8;
        let second_register: i8;
        if let InstructionRegisterPair::FA = register_pair {
            first_register = self.get_register(InstructionRegister::A);
            let s: u16 = if self.get_flag(Flag::S) { 128 } else { 0 };
            let z: u16 = if self.get_flag(Flag::Z) { 64 } else { 0 };
            let a: u16 = if self.get_flag(Flag::A) { 16 } else { 0 };
            let p: u16 = if self.get_flag(Flag::P) { 4 } else { 0 };
            let c: u16 = if self.get_flag(Flag::C) { 1 } else { 0 };
            second_register = from_byte((s + z + a + p + 2 + c) as u8);
        } else {
            let registers = register_pair.get_registers();
            first_register = self.get_register(registers.0);
            second_register = self.get_register(registers.1);
        }
        let stack_pointer = self.get_stack_pointer() as u32;
        self.set_memory(((stack_pointer + 65535) % 65536) as u16, first_register);
        self.set_memory(((stack_pointer + 65534) % 65536) as u16, second_register);
        self.set_stack_pointer(((stack_pointer + 65534) % 65536) as u16);
    }

    /// Executes POP: see `CpuState::pop`.
    pub fn execute_pop(&mut self, register_pair: &InstructionRegisterPair)
        requires
            old(self)@.wf(),
            *register_pair != InstructionRegisterPair::SP,
        ensures
            final(self)@ == old(self)@.pop(*register_pair),
    {
        let stack_pointer = self.get_stack_pointer() as u32;
        let low = self.get_memory(stack_pointer as u16);
        let high = self.get_memory(((stack_pointer + 1) % 65536) as u16);
        if let InstructionRegisterPair::FA = register_pair {
            let f = to_byte(low);
            self.change_register(InstructionRegister::A, high);
            self.set_flag(Flag::S, low < 0);
            self.set_flag(Flag::Z, (f / 64) % 2 == 1);
            self.set_flag(Flag::A, (f / 16) % 2 == 1);
            self.set_flag(Flag::P, (f / 4) % 2 == 1);
            self.set_flag(Flag::C, f % 2 == 1);
        } else {
            let registers = register_pair.get_registers();
            self.change_register(registers.1, low);
            self.change_register(registers.0, high);
        }
        self.set_stack_pointer(((stack_pointer + 2) % 65536) as u16);
    }

    /// Executes ORI: see `CpuState::ori`.
    pub fn execute_ori(&mut self, intermediate: i8)
        requires
            old(self)@.wf(),
        ensures
            final(self)@ == old(self)@.ori(intermediate),
    {
        let result = self.get_register(InstructionRegister::A) | intermediate;
        self.change_register(InstructionRegister::A, result);
        self.set_flag(Flag::C, false);
        self.set_flag(Flag::Z, result == 0);
    }

    /// Executes XRI: see `CpuState::xri`.
    pub fn execute_xri(&mut self, intermediate: i8)
        requires
            old(self)@.wf(),
        ensures
            final(self)@ == old(self)@.xri(intermediate),
    {
        let result = self.get_register(InstructionRegister::A) ^ intermediate;
        self.change_register(InstructionRegister::A, result);
        self.set_flag(Flag::C, false);
        self.set_flag(Flag::Z, result == 0);
    }

    /// Executes ANI: see `CpuState::ani`.
    pub fn execute_ani(&mut self, intermediate: i8)
        requires
            old(self)@.wf(),
        ensures
            final(self)@ == old(self)@.ani(intermediate),
    {
        let result = self.get_register(InstructionRegister::A) & intermediate;
        self.change_register(InstructionRegister::A, result);
        self.set_flag(Flag::C, false);
        self.set_flag(Flag::Z, result == 0);
    }

    /// Executes CPI: see `CpuState::cpi`.
    pub fn execute_cpi(&mut self, intermediate: i8)
        requires
            old(self)@.wf(),
        ensures
            final(self)@ == old(self)@.cpi(intermediate),
    {
        let acc = self.get_register(InstructionRegister::A);
        let result = wrap_small(acc as i16 - intermediate as i16);
        self.set_flag(Flag::Z, result == 0);
        if (intermediate < 0 && acc >= 0) || (intermediate >= 0 && acc < 0) {
            let c = self.get_flag(Flag::C);
            self.set_flag(Flag::C, !c);
            return;
        }
        self.set_flag(Flag::C, intermediate > acc);
    }

    /// Executes SBI: see `CpuState::sbi`.
    pub fn execute_sbi(&mut self, intermediate: i8)
        requires
            old(self)@.wf(),
        ensures
            final(self)@ == old(self)@.sbi(intermediate),
    {
        let acc = self.get_register(InstructionRegister::A);
        let carry: i16 = if self.get_flag(Flag::C) { 1 } else { 0 };
        let subtrahend = wrap_small(intermediate as i16 + carry);
        let result = wrap_small(acc as i16 - subtrahend as i16);
        self.set_flag(Flag::Z, result == 0);
        self.set_flag(Flag::C, to_byte(acc) as u16 + to_byte(wrap_small(-(subtrahend as i16))) as u16 <= 255);
        self.change_register(InstructionRegister::A, result);
    }

    /// Executes LXI: see `CpuState::lxi`.
    pub fn execute_lxi(&mut self, register_pair: &InstructionRegisterPair, intermediate: i16)
        requires
            old(self)@.wf(),
            *register_pair != InstructionRegisterPair::FA,
        ensures
            final(self)@ == old(self)@.lxi(*register_pair, intermediate),
    {
        let w = to_word(intermediate);
        if let InstructionRegisterPair::SP = register_pair {
            self.set_stack_pointer(w);
            return;
        }
        self.set_pair(register_pair, w);
    }

    /// Executes STA: see `CpuState::sta`.
    pub fn execute_sta(&mut self, intermediate: i16)
        requires
            old(self)@.wf(),
        ensures
            final(self)@ == old(self)@.sta(intermediate),
    {
        let acc = self.get_register(InstructionRegister::A);
        self.set_memory(to_word(intermediate), acc);
    }

    /// Executes LDA: see `CpuState::lda`.
    pub fn execute_lda(&mut self, intermediate: i16)
        requires
            old(self)@.wf(),
        ensures
            final(self)@ == old(self)@.lda(intermediate),
    {
        let value = self.get_memory(to_word(intermediate));
        self.change_register(InstructionRegister::A, value);
    }

    /// Executes SHLD: see `CpuState::shld`.
    pub fn execute_shld(&mut self, intermediate: i16)
        requires
            old(self)@.wf(),
            crate::bits::word_of(intermediate) < 65535,
        ensures
            final(self)@ == old(self)@.shld(intermediate),
    {
        let address = to_word(intermediate);
        let l = self.get_register(InstructionRegister::L);
        let h = self.get_register(InstructionRegister::H);
        self.set_memory(address, l);
        self.set_memory(address + 1, h);
    }

    /// Executes LHLD: see `CpuState::lhld`.
    pub fn execute_lhld(&mut self, intermediate: i16)
        requires
            old(self)@.wf(),
            crate::bits::word_of(intermediate) < 65535,
        ensures
            final(self)@ == old(self)@.lhld(intermediate),
    {
        let address = to_word(intermediate);
        let l = self.get_memory(address);
        let h = self.get_memory(address + 1);
        self.change_register(InstructionRegister::L, l);
        self.change_register(InstructionRegister::H, h);
    }

    /// Executes PCHL: see `CpuState::pchl`.
    pub fn execute_pchl(&mut self)
        requires
            old(self)@.wf(),
        ensures
            final(self)@ == old(self)@.pchl(),
    {
        let hl = self.pair_word(&InstructionRegisterPair::HL);
        self.set_program_counter(hl);
    }

    /// Executes JMP: see `CpuState::jmp`.
    pub fn execute_jmp(&mut self, address: u16)
        requires
            old(self)@.wf(),
        ensures
            final(self)@ == old(self)@.jmp(address),
    {
        self.set_program_counter(address);
    }

    /// Whether `instruction` can be executed in the current state.
    pub fn can_execute(&self, instruction: &Instruction) -> (ok: bool)
        requires
            self@.wf(),
        ensures
            ok == self@.executable(*instruction),
    {
        match *instruction {
            Instruction::NoRegister(c) => match c {
                InstructionCommand::Stc | InstructionCommand::Cmc | InstructionCommand::Cma
                | InstructionCommand::Rlc | InstructionCommand::Rrc | InstructionCommand::Ral
                | InstructionCommand::Rar | InstructionCommand::Daa | InstructionCommand::Xchg
                | InstructionCommand::Sphl | InstructionCommand::Pchl => true,
                InstructionCommand::Xthl => self.get_stack_pointer() < 65535,
                _ => false,
            },
            Instruction::SingleRegister(c, r) => match c {
                InstructionCommand::Add | InstructionCommand::Adc | InstructionCommand::Sub
                | InstructionCommand::Sbb | InstructionCommand::Inr | InstructionCommand::Dcr
                | InstructionCommand::Ana | InstructionCommand::Ora | InstructionCommand::Cmp
                | InstructionCommand::Xra => true,
                _ => false,
            },
            Instruction::DoubleRegister(c, _) => match c {
                InstructionCommand::Mov => true,
                _ => false,
            },
            Instruction::Intermediate(c, _) => match c {
                InstructionCommand::Adi | InstructionCommand::Aci | InstructionCommand::Sui
                | InstructionCommand::Ori | InstructionCommand::Xri | InstructionCommand::Ani
                | InstructionCommand::Cpi | InstructionCommand::Sbi => true,
                _ => false,
            },
            Instruction::Intermediate16Bit(c, p, _) => match (c, p) {
                (InstructionCommand::Lxi, InstructionRegisterPair::FA) => false,
                (InstructionCommand::Lxi, _) => true,
                _ => false,
            },
            Instruction::Intermediate16BitNoReg(c, address) => match c {
                InstructionCommand::Sta | InstructionCommand::Lda => true,
                InstructionCommand::Shld | InstructionCommand::Lhld => to_word(address) < 65535,
                _ => false,
            },
            Instruction::IntermediateRegister(c, _, _) => match c {
                InstructionCommand::Mvi => true,
                _ => false,
            },
            Instruction::PairRegister(c, p) => match c {
                InstructionCommand::Stax | InstructionCommand::Ldax => match p {
                    InstructionRegisterPair::BC | InstructionRegisterPair::DE | InstructionRegisterPair::HL => true,
                    _ => false,
                },
                InstructionCommand::Dcx | InstructionCommand::Inx | InstructionCommand::Dad => match p {
                    InstructionRegisterPair::FA => false,
                    _ => true,
                },
                InstructionCommand::Push | InstructionCommand::Pop => match p {
                    InstructionRegisterPair::SP => false,
                    _ => true,
                },
                _ => false,
            },
            Instruction::Label(c, _) => match c {
                InstructionCommand::Jmp => true,
                _ => false,
            },
        }
    }

    /// Executes one instruction.
    pub fn execute(&mut self, instruction: &Instruction)
        requires
            old(self)@.wf(),
            old(self)@.executable(*instruction),
        ensures
            final(self)@ == old(self)@.execute(*instruction),
    {
        match instruction {
            Instruction::NoRegister(command) => self.execute_no_reg_instruction(command),
            Instruction::SingleRegister(command, register) => {
                self.execute_single_reg_instruction(command, register)
            },
            Instruction::DoubleRegister(command, registers) => {
                self.execute_double_reg_instruction(command, registers)
            },
            Instruction::Intermediate(command, intermediate) => {
                self.execute_intermediate_instruction(command, *intermediate)
            },
            Instruction::Intermediate16Bit(command, register_pair, intermediate) => {
                self.execute_intermediate_16_bit_instruction(command, register_pair, *intermediate)
            },
            Instruction::Intermediate16BitNoReg(command, intermediate) => {
                self.execute_intermediate_16_bit_instruction_no_reg(command, *intermediate)
            },
            Instruction::IntermediateRegister(command, intermediate, register) => {
                self.execute_intermediate_reg_instruction(command, register, *intermediate)
            },
            Instruction::PairRegister(command, register_pair) => {
                self.execute_pair_reg_instruction(command, register_pair)
            },
            Instruction::Label(command, address) => {
                self.execute_label_instruction(command, *address)
            },
        }
    }

    /// Executes an instruction without operands.
    pub fn execute_no_reg_instruction(&mut self, command: &InstructionCommand)
        requires
            old(self)@.wf(),
            old(self)@.executable(Instruction::NoRegister(*command)),
        ensures
            final(self)@ == old(self)@.execute(Instruction::NoRegister(*command)),
    {
        match command {
            InstructionCommand::Stc => self.execute_stc(),
            InstructionCommand::Cmc => self.execute_cmc(),
            InstructionCommand::Cma => self.execute_cma(),
            InstructionCommand::Rlc => self.execute_rlc(),
            InstructionCommand::Rrc => self.execute_rrc(),
            InstructionCommand::Ral => self.execute_ral(),
            InstructionCommand::Rar => self.execute_rar(),
            InstructionCommand::Daa => self.execute_daa(),
            InstructionCommand::Xchg => self.execute_xchg(),
            InstructionCommand::Sphl => self.execute_sphl(),
            InstructionCommand::Xthl => self.execute_xthl(),
            _ => self.execute_pchl(),
        }
    }

    /// Executes an instruction on one register.
    pub fn execute_single_reg_instruction(&mut self, command: &InstructionCommand, register: &InstructionRegister)
        requires
            old(self)@.wf(),
            old(self)@.executable(Instruction::SingleRegister(*command, *register)),
        ensures
            final(self)@ == old(self)@.execute(Instruction::SingleRegister(*command, *register)),
    {
        match command {
            InstructionCommand::Add => self.execute_add(register),
            InstructionCommand::Adc => self.execute_adc(register),
            InstructionCommand::Sub => self.execute_sub(register),
            InstructionCommand::Inr => self.execute_inr(register),
            InstructionCommand::Dcr => self.execute_dcr(register),
            InstructionCommand::Ana => self.execute_ana(register),
            InstructionCommand::Ora => self.execute_ora(register),
            InstructionCommand::Cmp => self.execute_cmp(register),
            InstructionCommand::Xra => self.execute_xra(register),
            _ => self.execute_sbb(register),
        }
    }

    /// Executes an instruction on two registers (MOV).
    pub fn execute_double_reg_instruction(
        &mut self,
        command: &InstructionCommand,
        registers: &(InstructionRegister, InstructionRegister),
    )
        requires
            old(self)@.wf(),
            old(self)@.executable(Instruction::DoubleRegister(*command, *registers)),
        ensures
            final(self)@ == old(self)@.execute(Instruction::DoubleRegister(*command, *registers)),
    {
        self.execute_mov(registers);
    }

    /// Executes an instruction with an 8-bit immediate.
    pub fn execute_intermediate_instruction(&mut self, command: &InstructionCommand, intermediate: i8)
        requires
            old(self)@.wf(),
            old(self)@.executable(Instruction::Intermediate(*command, intermediate)),
        ensures
            final(self)@ == old(self)@.execute(Instruction::Intermediate(*command, intermediate)),
    {
        match command {
            InstructionCommand::Adi => self.execute_adi(intermediate),
            InstructionCommand::Aci => self.execute_aci(intermediate),
            InstructionCommand::Sui => self.execute_sui(intermediate),
            InstructionCommand::Ori => self.execute_ori(intermediate),
            InstructionCommand::Xri => self.execute_xri(intermediate),
            InstructionCommand::Ani => self.execute_ani(intermediate),
            InstructionCommand::Cpi => self.execute_cpi(intermediate),
            _ => self.execute_sbi(intermediate),
        }
    }

    /// Executes an instruction with a register pair and a 16-bit immediate (LXI).
    pub fn execute_intermediate_16_bit_instruction(
        &mut self,
        command: &InstructionCommand,
        register_pair: &InstructionRegisterPair,
        intermediate: i16,
    )
        requires
            old(self)@.wf(),
            old(self)@.executable(Instruction::Intermediate16Bit(*command, *register_pair, intermediate)),
        ensures
            final(self)@ == old(self)@.execute(Instruction::Intermediate16Bit(*command, *register_pair, intermediate)),
    {
        self.execute_lxi(register_pair, intermediate);
    }

    /// Executes an instruction with a 16-bit address (STA, LDA, SHLD, LHLD).
    pub fn execute_intermediate_16_bit_instruction_no_reg(&mut self, command: &InstructionCommand, intermediate: i16)
        requires
            old(self)@.wf(),
            old(self)@.executable(Instruction::Intermediate16BitNoReg(*command, intermediate)),
        ensures
            final(self)@ == old(self)@.execute(Instruction::Intermediate16BitNoReg(*command, intermediate)),
    {
        match command {
            InstructionCommand::Sta => self.execute_sta(intermediate),
            InstructionCommand::Lda => self.execute_lda(intermediate),
            InstructionCommand::Shld => self.execute_shld(intermediate),
            _ => self.execute_lhld(intermediate),
        }
    }

    /// Executes an instruction with a register and an 8-bit immediate (MVI).
    pub fn execute_intermediate_reg_instruction(
        &mut self,
        command: &InstructionCommand,
        register: &InstructionRegister,
        intermediate: i8,
    )
        requires
            old(self)@.wf(),
            old(self)@.executable(Instruction::IntermediateRegister(*command, intermediate, *register)),
        ensures
            final(self)@ == old(self)@.execute(Instruction::IntermediateRegister(*command, intermediate, *register)),
    {
        self.execute_mvi(register, intermediate);
    }

    /// Executes an instruction on a register pair.
    pub fn execute_pair_reg_instruction(&mut self, command: &InstructionCommand, register_pair: &InstructionRegisterPair)
        requires
            old(self)@.wf(),
            old(self)@.executable(Instruction::PairRegister(*command, *register_pair)),
        ensures
            final(self)@ == old(self)@.execute(Instruction::PairRegister(*command, *register_pair)),
    {
        match command {
            InstructionCommand::Stax => self.execute_stax(register_pair),
            InstructionCommand::Ldax => self.execute_ldax(register_pair),
            InstructionCommand::Dcx => self.execute_dcx(register_pair),
            InstructionCommand::Inx => self.execute_inx(register_pair),
            InstructionCommand::Dad => self.execute_dad(register_pair),
            InstructionCommand::Push => self.execute_push(register_pair),
            _ => self.execute_pop(register_pair),
        }
    }

    /// Executes a jump.
    pub fn execute_label_instruction(&mut self, command: &InstructionCommand, address: u16)
        requires
            old(self)@.wf(),
            old(self)@.executable(Instruction::Label(*command, address)),
        ensures
            final(self)@ == old(self)@.execute(Instruction::Label(*command, address)),
    {
        self.execute_jmp(address);
    }

    /// Takes one step of a run of `instructions` (keyed by address): see `CpuState::step`.
    pub fn step(&mut self, instructions: &HashMap<u16, Instruction>) -> (outcome: StepOutcome)
        requires
            old(self)@.wf(),
        ensures
            final(self)@ == old(self)@.step(instructions@).0,
            outcome == old(self)@.step(instructions@).1,
    {
        let pc = self.get_program_counter();
        let instruction = match instructions.get(&pc) {
            Some(i) => *i,
            None => return StepOutcome::MissingInstruction,
        };
        if let Instruction::NoRegister(InstructionCommand::Hlt) = instruction {
            if pc == 65535 {
                return StepOutcome::CounterOverflow;
            }
            self.incr_program_counter(&instruction);
            return StepOutcome::Halted;
        }
        if !self.can_execute(&instruction) {
            return StepOutcome::InvalidInstruction;
        }
        self.execute(&instruction);
        if let Instruction::Label(_, _) = instruction {
            return StepOutcome::Continued;
        }
        if self.get_program_counter() as u32 + instruction.get_size() as u32 > 65535 {
            return StepOutcome::CounterOverflow;
        }
        self.incr_program_counter(&instruction);
        StepOutcome::Continued
    }

    /// Takes one step of a printed run of `instructions`: see `CpuState::print_step`.
    pub fn print_step(&mut self, instructions: &HashMap<u16, Instruction>) -> (outcome: StepOutcome)
        requires
            old(self)@.wf(),
        ensures
            final(self)@ == old(self)@.print_step(instructions@).0,
            outcome == old(self)@.print_step(instructions@).1,
    {
        let pc = self.get_program_counter();
        let instruction = match instructions.get(&pc) {
            Some(i) => *i,
            None => return StepOutcome::MissingInstruction,
        };
        if !self.can_execute(&instruction) {
            return StepOutcome::InvalidInstruction;
        }
        self.execute(&instruction);
        if self.get_program_counter() as u32 + instruction.get_size() as u32 > 65535 {
            return StepOutcome::CounterOverflow;
        }
        self.incr_program_counter(&instruction);
        StepOutcome::Continued
    }

    /// Runs `instructions` (keyed by address) from the current state, one `step` at a
    /// time, until a step does not continue or `max_steps` steps have been taken: see
    /// `CpuState::run`. The outcome is that of the last step; `Continued` means that the
    /// budget ran out while the program was still running.
    pub fn run(&mut self, instructions: &HashMap<u16, Instruction>, max_steps: u64) -> (outcome: StepOutcome)
        requires
            old(self)@.wf(),
        ensures
            final(self)@ == old(self)@.run(instructions@, max_steps as nat).0,
            outcome == old(self)@.run(instructions@, max_steps as nat).1,
    {
        let ghost start = self@;
        let mut taken: u64 = 0;
        while taken < max_steps
            invariant
                taken <= max_steps,
                self@.wf(),
                start == old(self)@,
                start.run(instructions@, max_steps as nat) == self@.run(instructions@, (max_steps - taken) as nat),
            decreases max_steps - taken,
        {
            proof {
                lemma_step(self@, instructions@);
            }
            let outcome = self.step(instructions);
            if outcome != StepOutcome::Continued {
                return outcome;
            }
            taken = taken + 1;
        }
        StepOutcome::Continued
    }
}

/// `a - b` modulo 256.
fn sub_wrapped(a: i8, b: i8) -> (r: i8)
    ensures
        r == crate::bits::wrap8(a - b),
{
    wrap_small(a as i16 - b as i16)
}

/// The carry that comparing `acc` with `reg` leaves: for a negative `reg`, whether the
/// unsigned sum of the two stays within a byte; else whether `acc` is at least `reg` unsigned.
fn compare_carry(acc: i8, reg: i8) -> (c: bool)
    ensures
        c == if reg < 0 {
            crate::bits::byte_of(acc) + crate::bits::byte_of(reg) <= 255
        } else {
            crate::bits::byte_of(acc) >= crate::bits::byte_of(reg)
        },
{
    if reg < 0 {
        to_byte(acc) as u16 + to_byte(reg) as u16 <= 255
    } else {
        to_byte(acc) >= to_byte(reg)
    }
}

} // verus!
