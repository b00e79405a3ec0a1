use vstd::prelude::*;
use crate::bits::{byte_of, i8_of, word_of, wrap16, wrap8};
use crate::assembler::parser::{
    is_register_pair, pair_registers, reg_index, Instruction, InstructionCommand,
    InstructionRegister, InstructionRegisterPair,
};

verus! {

/// One of the five condition flags: sign, zero, auxiliary carry, parity, carry.
#[derive(Debug, Clone, Copy, PartialEq, Eq, Structural)]
pub enum Flag {
    S,
    Z,
    A,
    P,
    C,
}

/// The slot of a flag in the flag byte (S Z x A x P x C).
pub open spec fn flag_index(f: Flag) -> int {
    match f {
        Flag::S => 0,
        Flag::Z => 1,
        Flag::A => 3,
        Flag::P => 5,
        Flag::C => 7,
    }
}

/// The abstract state of the processor.
#[verifier::ext_equal]
pub struct CpuState {
    /// The eight register slots, indexed by `reg_index`.
    pub registers: Seq<i8>,
    /// The 64 KiB of memory.
    pub memory: Seq<i8>,
    /// The stack pointer.
    pub stack_pointer: u16,
    /// Eight flag slots, indexed by `flag_index`.
    pub flags: Seq<bool>,
    /// The address of the next instruction.
    pub program_counter: u16,
}

/// 1 where `b` holds, else 0.
pub open spec fn bit_of(b: bool) -> int {
    if b {
        1
    } else {
        0
    }
}

impl CpuState {
    /// The shape every state has: eight registers, 65536 memory cells, eight flag slots.
    pub open spec fn wf(self) -> bool {
        &&& self.registers.len() == 8
        &&& self.memory.len() == 65536
        &&& self.flags.len() == 8
    }

    /// The state every processor starts in: everything zero or clear.
    pub open spec fn initial() -> CpuState {
        CpuState {
            registers: Seq::new(8, |i: int| 0i8),
            memory: Seq::new(65536, |i: int| 0i8),
            stack_pointer: 0,
            flags: Seq::new(8, |i: int| false),
            program_counter: 0,
        }
    }

    /// The value in a register.
    pub open spec fn reg(self, r: InstructionRegister) -> i8 {
        self.registers[reg_index(r)]
    }

    /// Whether a flag is set.
    pub open spec fn flag(self, f: Flag) -> bool {
        self.flags[flag_index(f)]
    }

    /// The value in a memory cell.
    pub open spec fn mem(self, address: int) -> i8 {
        self.memory[address]
    }

    /// The state with a register changed.
    pub open spec fn with_reg(self, r: InstructionRegister, v: i8) -> CpuState {
        CpuState { registers: self.registers.update(reg_index(r), v), ..self }
    }

    /// The state with a flag changed.
    pub open spec fn with_flag(self, f: Flag, b: bool) -> CpuState {
        CpuState { flags: self.flags.update(flag_index(f), b), ..self }
    }

    /// The state with a memory cell changed.
    pub open spec fn with_mem(self, address: int, v: i8) -> CpuState {
        CpuState { memory: self.memory.update(address, v), ..self }
    }

    /// The state with another stack pointer.
    pub open spec fn with_sp(self, sp: u16) -> CpuState {
        CpuState { stack_pointer: sp, ..self }
    }

    /// The state with another program counter.
    pub open spec fn with_pc(self, pc: u16) -> CpuState {
        CpuState { program_counter: pc, ..self }
    }

    /// The accumulator.
    pub open spec fn acc(self) -> i8 {
        self.reg(InstructionRegister::A)
    }

    /// 1 where the carry flag is set, else 0.
    pub open spec fn carry(self) -> int {
        bit_of(self.flag(Flag::C))
    }

    /// The 16-bit value held by the registers of BC, DE or HL (high register first).
    pub open spec fn pair_value(self, p: InstructionRegisterPair) -> int {
        byte_of(self.reg(pair_registers(p).0)) * 256 + byte_of(self.reg(pair_registers(p).1))
    }

    /// Stores the 16-bit value `w` in the registers of BC, DE or HL.
    pub open spec fn with_pair(self, p: InstructionRegisterPair, w: int) -> CpuState {
        self.with_reg(pair_registers(p).0, i8_of(w / 256)).with_reg(pair_registers(p).1, i8_of(w % 256))
    }

    /// Sets Z and S from the value now in the accumulator.
    pub open spec fn with_zs_of_acc(self) -> CpuState {
        self.with_flag(Flag::Z, self.acc() == 0).with_flag(Flag::S, self.acc() < 0)
    }

    /// The flag byte as PUSH PSW stores it: S Z 0 A 0 P 1 C.
    pub open spec fn psw_byte(self) -> int {
        128 * bit_of(self.flag(Flag::S)) + 64 * bit_of(self.flag(Flag::Z)) + 16 * bit_of(self.flag(Flag::A))
            + 4 * bit_of(self.flag(Flag::P)) + 2 + bit_of(self.flag(Flag::C))
    }

    // ---- data transfer ----

    /// MVI: the register gets the immediate.
    pub open spec fn mvi(self, r: InstructionRegister, imm: i8) -> CpuState {
        self.with_reg(r, imm)
    }

    /// MOV: the second register gets the value of the first.
    pub open spec fn mov(self, src: InstructionRegister, dst: InstructionRegister) -> CpuState {
        self.with_reg(dst, self.reg(src))
    }

    /// STAX: memory at the pair's address gets the accumulator.
    pub open spec fn stax(self, p: InstructionRegisterPair) -> CpuState {
        self.with_mem(self.pair_value(p), self.acc())
    }

    /// LDAX: the accumulator gets memory at the pair's address.
    pub open spec fn ldax(self, p: InstructionRegisterPair) -> CpuState {
        self.with_reg(InstructionRegister::A, self.mem(self.pair_value(p)))
    }

    /// XCHG: D and H trade values, and so do E and L.
    pub open spec fn xchg(self) -> CpuState {
        self.with_reg(InstructionRegister::D, self.reg(InstructionRegister::H))
            .with_reg(InstructionRegister::E, self.reg(InstructionRegister::L))
            .with_reg(InstructionRegister::H, self.reg(InstructionRegister::D))
            .with_reg(InstructionRegister::L, self.reg(InstructionRegister::E))
    }

    /// SPHL: the stack pointer gets HL.
    pub open spec fn sphl(self) -> CpuState {
        self.with_sp(self.pair_value(InstructionRegisterPair::HL) as u16)
    }

    /// XTHL: L and H trade values with memory at SP and SP + 1.
    pub open spec fn xthl(self) -> CpuState {
        let sp = self.stack_pointer as int;
        self.with_reg(InstructionRegister::L, self.mem(sp))
            .with_reg(InstructionRegister::H, self.mem(sp + 1))
            .with_mem(sp, self.reg(InstructionRegister::L))
            .with_mem(sp + 1, self.reg(InstructionRegister::H))
    }

    /// LXI: the pair (or SP) gets the 16-bit immediate.
    pub open spec fn lxi(self, p: InstructionRegisterPair, imm: i16) -> CpuState {
        if p == InstructionRegisterPair::SP {
            self.with_sp(word_of(imm) as u16)
        } else {
            self.with_pair(p, word_of(imm))
        }
    }

    /// STA: memory at the address gets the accumulator.
    pub open spec fn sta(self, address: i16) -> CpuState {
        self.with_mem(word_of(address), self.acc())
    }

    /// LDA: the accumulator gets memory at the address.
    pub open spec fn lda(self, address: i16) -> CpuState {
        self.with_reg(InstructionRegister::A, self.mem(word_of(address)))
    }

    /// SHLD: memory at the address gets L, and at the next address H.
    pub open spec fn shld(self, address: i16) -> CpuState {
        let w = word_of(address);
        self.with_mem(w, self.reg(InstructionRegister::L)).with_mem(w + 1, self.reg(InstructionRegister::H))
    }

    /// LHLD: L gets memory at the address, and H memory at the next address.
    pub open spec fn lhld(self, address: i16) -> CpuState {
        let w = word_of(address);
        self.with_reg(InstructionRegister::L, self.mem(w)).with_reg(InstructionRegister::H, self.mem(w + 1))
    }

    // ---- arithmetic ----

    /// ADD: A gets A + r (mod 256); Z and S follow the new A; C is the unsigned carry out.
    pub open spec fn add(self, r: InstructionRegister) -> CpuState {
        let a = self.acc();
        let v = self.reg(r);
        self.with_reg(InstructionRegister::A, wrap8(a + v)).with_zs_of_acc().with_flag(
            Flag::C,
            byte_of(v) + byte_of(a) > 255,
        )
    }

    /// ADC: A gets A + r + carry (mod 256); Z and S follow the new A; C is the unsigned
    /// carry out.
    pub open spec fn adc(self, r: InstructionRegister) -> CpuState {
        let a = self.acc();
        let v = self.reg(r);
        self.with_reg(InstructionRegister::A, wrap8(a + v + self.carry())).with_zs_of_acc().with_flag(
            Flag::C,
            byte_of(v) + byte_of(a) + self.carry() > 255,
        )
    }

    /// ADI: A gets A + imm (mod 256); Z and S follow the new A; C is the unsigned carry out.
    pub open spec fn adi(self, imm: i8) -> CpuState {
        let a = self.acc();
        self.with_reg(InstructionRegister::A, wrap8(a + imm)).with_zs_of_acc().with_flag(
            Flag::C,
            byte_of(imm) + byte_of(a) > 255,
        )
    }

    /// ACI: A gets A + imm + carry (mod 256); Z and S follow the new A; C is the carry out.
    pub open spec fn aci(self, imm: i8) -> CpuState {
        let a = self.acc();
        self.with_reg(InstructionRegister::A, wrap8(a + imm + self.carry())).with_zs_of_acc().with_flag(
            Flag::C,
            byte_of(imm) + byte_of(a) + self.carry() > 255,
        )
    }

    /// SUI: A gets A - imm (mod 256); Z and S follow the new A; C is the unsigned borrow.
    pub open spec fn sui(self, imm: i8) -> CpuState {
        let a = self.acc();
        self.with_reg(InstructionRegister::A, wrap8(a - imm)).with_zs_of_acc().with_flag(
            Flag::C,
            byte_of(a) < byte_of(imm),
        )
    }

    /// SUB: A gets A - r (mod 256); Z and S follow the new A; C is the unsigned borrow.
    pub open spec fn sub(self, r: InstructionRegister) -> CpuState {
        let a = self.acc();
        let v = self.reg(r);
        self.with_reg(InstructionRegister::A, wrap8(a - v)).with_zs_of_acc().with_flag(
            Flag::C,
            byte_of(a) < byte_of(v),
        )
    }

    /// INR: the register grows by one (mod 256); Z and S follow its new value.
    pub open spec fn inr(self, r: InstructionRegister) -> CpuState {
        let v = wrap8(self.reg(r) + 1);
        self.with_reg(r, v).with_flag(Flag::Z, v == 0).with_flag(Flag::S, v < 0)
    }

    /// DCR: the register shrinks by one (mod 256); Z and S follow its new value.
    pub open spec fn dcr(self, r: InstructionRegister) -> CpuState {
        let v = wrap8(self.reg(r) - 1);
        self.with_reg(r, v).with_flag(Flag::Z, v == 0).with_flag(Flag::S, v < 0)
    }

    /// SBB: A gets A - (r + carry) (mod 256); Z follows the result; C is set unless the
    /// unsigned A plus the unsigned negation (mod 256) of (r + carry) exceeds 255.
    pub open spec fn sbb(self, r: InstructionRegister) -> CpuState {
        let a = self.acc();
        let v = wrap8(self.reg(r) + self.carry());
        let result = wrap8(a - v);
        self.with_flag(Flag::Z, result == 0).with_flag(Flag::C, byte_of(a) + byte_of(wrap8(-v)) <= 255)
            .with_reg(InstructionRegister::A, result)
    }

    /// SBI: A gets A - (imm + carry), flags as for SBB.
    pub open spec fn sbi(self, imm: i8) -> CpuState {
        let a = self.acc();
        let v = wrap8(imm + self.carry());
        let result = wrap8(a - v);
        self.with_flag(Flag::Z, result == 0).with_flag(Flag::C, byte_of(a) + byte_of(wrap8(-v)) <= 255)
            .with_reg(InstructionRegister::A, result)
    }

    /// DAA: the decimal adjustment of the accumulator.
    pub open spec fn daa(self) -> CpuState {
        let u = byte_of(self.acc());
        let low = u % 16 > 9 || self.flag(Flag::A);
        let u1 = if low {
            (u + 6) % 256
        } else {
            u
        };
        let aux = if low {
            u / 16 != u1 / 16
        } else {
            self.flag(Flag::A)
        };
        let high = u1 / 16 > 9 || self.flag(Flag::C);
        let u2 = if high {
            (u1 + 96) % 256
        } else {
            u1
        };
        let carry = if high {
            u1 + 96 > 255
        } else {
            self.flag(Flag::C)
        };
        self.with_flag(Flag::A, aux).with_flag(Flag::C, carry).with_reg(InstructionRegister::A, i8_of(u2))
    }

    /// DCX: the pair (or SP) shrinks by one, modulo 65536.
    pub open spec fn dcx(self, p: InstructionRegisterPair) -> CpuState {
        if p == InstructionRegisterPair::SP {
            self.with_sp(wrap16(self.stack_pointer - 1))
        } else {
            self.with_pair(p, (self.pair_value(p) + 65535) % 65536)
        }
    }

    /// INX: the pair (or SP) grows by one, modulo 65536.
    pub open spec fn inx(self, p: InstructionRegisterPair) -> CpuState {
        if p == InstructionRegisterPair::SP {
            self.with_sp(wrap16(self.stack_pointer + 1))
        } else {
            self.with_pair(p, (self.pair_value(p) + 1) % 65536)
        }
    }

    /// DAD: HL gets HL plus the pair (or SP), modulo 65536; C is the carry out.
    pub open spec fn dad(self, p: InstructionRegisterPair) -> CpuState {
        let value = if p == InstructionRegisterPair::SP {
            self.stack_pointer as int
        } else {
            self.pair_value(p)
        };
        let hl = self.pair_value(InstructionRegisterPair::HL);
        self.with_pair(InstructionRegisterPair::HL, (value + hl) % 65536).with_flag(Flag::C, value + hl > 65535)
    }

    // ---- logic ----

    /// ANA: A gets A and r.
    pub open spec fn ana(self, r: InstructionRegister) -> CpuState {
        self.with_reg(InstructionRegister::A, self.acc() & self.reg(r))
    }

    /// ORA: A gets A or r; C is cleared.
    pub open spec fn ora(self, r: InstructionRegister) -> CpuState {
        self.with_reg(InstructionRegister::A, self.acc() | self.reg(r)).with_flag(Flag::C, false)
    }

    /// XRA: the register gets A xor r; Z follows the result.
    pub open spec fn xra(self, r: InstructionRegister) -> CpuState {
        let result = self.acc() ^ self.reg(r);
        self.with_flag(Flag::Z, result == 0).with_reg(r, result)
    }

    /// CMP: compares A with r: Z is whether A - r is 0 (mod 256); C is, for a negative r,
    /// whether the unsigned A + r stays within a byte, and else whether A >= r unsigned.
    pub open spec fn compare(self, r: InstructionRegister) -> CpuState {
        let a = self.acc();
        let v = self.reg(r);
        let carry = if v < 0 {
            byte_of(a) + byte_of(v) <= 255
        } else {
            byte_of(a) >= byte_of(v)
        };
        self.with_flag(Flag::Z, wrap8(a - v) == 0).with_flag(Flag::C, carry)
    }

    /// ORI: A gets A or imm; C is cleared; Z follows the result.
    pub open spec fn ori(self, imm: i8) -> CpuState {
        let result = self.acc() | imm;
        self.with_reg(InstructionRegister::A, result).with_flag(Flag::C, false).with_flag(Flag::Z, result == 0)
    }

    /// XRI: A gets A xor imm; C is cleared; Z follows the result.
    pub open spec fn xri(self, imm: i8) -> CpuState {
        let result = self.acc() ^ imm;
        self.with_reg(InstructionRegister::A, result).with_flag(Flag::C, false).with_flag(Flag::Z, result == 0)
    }

    /// ANI: A gets A and imm; C is cleared; Z follows the result.
    pub open spec fn ani(self, imm: i8) -> CpuState {
        let result = self.acc() & imm;
        self.with_reg(InstructionRegister::A, result).with_flag(Flag::C, false).with_flag(Flag::Z, result == 0)
    }

    /// CPI: Z is whether A - imm is 0 (mod 256); where the signs of A and imm differ C is
    /// toggled, else C is whether imm > A.
    pub open spec fn cpi(self, imm: i8) -> CpuState {
        let a = self.acc();
        let z = self.with_flag(Flag::Z, wrap8(a - imm) == 0);
        if (imm < 0) != (a < 0) {
            z.with_flag(Flag::C, !self.flag(Flag::C))
        } else {
            z.with_flag(Flag::C, imm > a)
        }
    }

    /// STC: C is set.
    pub open spec fn stc(self) -> CpuState {
        self.with_flag(Flag::C, true)
    }

    /// CMC: C is complemented.
    pub open spec fn cmc(self) -> CpuState {
        self.with_flag(Flag::C, !self.flag(Flag::C))
    }

    /// CMA: A gets its bitwise complement, -(A + 1).
    pub open spec fn cma(self) -> CpuState {
        self.with_reg(InstructionRegister::A, (-1 - self.acc()) as i8)
    }

    /// RLC: A rotates left; C gets the bit that left at the top.
    pub open spec fn rlc(self) -> CpuState {
        let u = byte_of(self.acc());
        let c = u >= 128;
        self.with_flag(Flag::C, c).with_reg(InstructionRegister::A, i8_of((2 * u) % 256 + bit_of(c)))
    }

    /// RRC: A rotates right; C gets the bit that left at the bottom.
    pub open spec fn rrc(self) -> CpuState {
        let u = byte_of(self.acc());
        let c = u % 2 == 1;
        self.with_flag(Flag::C, c).with_reg(InstructionRegister::A, i8_of(u / 2 + 128 * bit_of(c)))
    }

    /// RAL: A and C rotate left together as nine bits.
    pub open spec fn ral(self) -> CpuState {
        let u = byte_of(self.acc());
        self.with_flag(Flag::C, u >= 128).with_reg(
            InstructionRegister::A,
            i8_of((2 * u) % 256 + self.carry()),
        )
    }

    /// RAR: A and C rotate right together as nine bits.
    pub open spec fn rar(self) -> CpuState {
        let u = byte_of(self.acc());
        self.with_flag(Flag::C, u % 2 == 1).with_reg(
            InstructionRegister::A,
            i8_of(u / 2 + 128 * self.carry()),
        )
    }

    // ---- stack and jumps ----

    /// PUSH: the pair (or A with the flag byte) goes to SP - 1 and SP - 2; SP drops by 2.
    pub open spec fn push(self, p: InstructionRegisterPair) -> CpuState {
        let first = if p == InstructionRegisterPair::FA {
            self.acc()
        } else {
            self.reg(pair_registers(p).0)
        };
        let second = if p == InstructionRegisterPair::FA {
            i8_of(self.psw_byte())
        } else {
            self.reg(pair_registers(p).1)
        };
        let sp = self.stack_pointer as int;
        self.with_mem(wrap16(sp - 1) as int, first).with_mem(wrap16(sp - 2) as int, second).with_sp(
            wrap16(sp - 2),
        )
    }

    /// POP: the pair (or A with the flags) gets memory at SP + 1 and SP; SP grows by 2.
    pub open spec fn pop(self, p: InstructionRegisterPair) -> CpuState {
        let sp = self.stack_pointer as int;
        let low = self.mem(sp);
        let high = self.mem(wrap16(sp + 1) as int);
        if p == InstructionRegisterPair::FA {
            let f = byte_of(low);
            self.with_reg(InstructionRegister::A, high).with_flag(Flag::S, low < 0).with_flag(
                Flag::Z,
                (f / 64) % 2 == 1,
            ).with_flag(Flag::A, (f / 16) % 2 == 1).with_flag(Flag::P, (f / 4) % 2 == 1).with_flag(
                Flag::C,
                f % 2 == 1,
            ).with_sp(wrap16(sp + 2))
        } else {
            self.with_reg(pair_registers(p).1, low).with_reg(pair_registers(p).0, high).with_sp(
                wrap16(sp + 2),
            )
        }
    }

    /// PCHL: the program counter gets HL.
    pub open spec fn pchl(self) -> CpuState {
        self.with_pc(self.pair_value(InstructionRegisterPair::HL) as u16)
    }

    /// JMP: the program counter gets the address.
    pub open spec fn jmp(self, address: u16) -> CpuState {
        self.with_pc(address)
    }

    // ---- instructions as a whole ----

    /// Whether `instr` can be executed in this state: its command fits its shape, and its
    /// operands keep every signed byte and address computation in range.
    pub open spec fn executable(self, instr: Instruction) -> bool {
        match instr {
            Instruction::NoRegister(c) => match c {
                InstructionCommand::Stc | InstructionCommand::Cmc | InstructionCommand::Cma
                | InstructionCommand::Rlc | InstructionCommand::Rrc | InstructionCommand::Ral
                | InstructionCommand::Rar | InstructionCommand::Daa | InstructionCommand::Xchg
                | InstructionCommand::Sphl | InstructionCommand::Pchl => true,
                InstructionCommand::Xthl => self.stack_pointer < 65535,
                _ => false,
            },
            Instruction::SingleRegister(c, r) => match c {
                InstructionCommand::Add | InstructionCommand::Adc | InstructionCommand::Sub
                | InstructionCommand::Sbb | InstructionCommand::Inr | InstructionCommand::Dcr
                | InstructionCommand::Ana | InstructionCommand::Ora | InstructionCommand::Cmp
                | InstructionCommand::Xra => true,
                _ => false,
            },
            Instruction::DoubleRegister(c, _) => c == InstructionCommand::Mov,
            Instruction::Intermediate(c, _) => match c {
                InstructionCommand::Adi | InstructionCommand::Aci | InstructionCommand::Sui
                | InstructionCommand::Ori | InstructionCommand::Xri | InstructionCommand::Ani
                | InstructionCommand::Cpi | InstructionCommand::Sbi => true,
                _ => false,
            },
            Instruction::Intermediate16Bit(c, p, _) => c == InstructionCommand::Lxi && p
                != InstructionRegisterPair::FA,
            Instruction::Intermediate16BitNoReg(c, address) => match c {
                InstructionCommand::Sta | InstructionCommand::Lda => true,
                InstructionCommand::Shld | InstructionCommand::Lhld => word_of(address) < 65535,
                _ => false,
            },
            Instruction::IntermediateRegister(c, _, _) => c == InstructionCommand::Mvi,
            Instruction::PairRegister(c, p) => match c {
                InstructionCommand::Stax | InstructionCommand::Ldax => is_register_pair(p),
                InstructionCommand::Dcx | InstructionCommand::Inx | InstructionCommand::Dad => p
                    != InstructionRegisterPair::FA,
                InstructionCommand::Push | InstructionCommand::Pop => p != InstructionRegisterPair::SP,
                _ => false,
            },
            Instruction::Label(c, _) => c == InstructionCommand::Jmp,
        }
    }

    /// The state after executing `instr` (where it is executable).
    pub open spec fn execute(self, instr: Instruction) -> CpuState {
        match instr {
            Instruction::NoRegister(c) => match c {
                InstructionCommand::Stc => self.stc(),
                InstructionCommand::Cmc => self.cmc(),
                InstructionCommand::Cma => self.cma(),
                InstructionCommand::Rlc => self.rlc(),
                InstructionCommand::Rrc => self.rrc(),
                InstructionCommand::Ral => self.ral(),
                InstructionCommand::Rar => self.rar(),
                InstructionCommand::Daa => self.daa(),
                InstructionCommand::Xchg => self.xchg(),
                InstructionCommand::Sphl => self.sphl(),
                InstructionCommand::Xthl => self.xthl(),
                _ => self.pchl(),
            },
            Instruction::SingleRegister(c, r) => match c {
                InstructionCommand::Add => self.add(r),
                InstructionCommand::Adc => self.adc(r),
                InstructionCommand::Sub => self.sub(r),
                InstructionCommand::Inr => self.inr(r),
                InstructionCommand::Dcr => self.dcr(r),
                InstructionCommand::Ana => self.ana(r),
                InstructionCommand::Ora => self.ora(r),
                InstructionCommand::Cmp => self.compare(r),
                InstructionCommand::Xra => self.xra(r),
                _ => self.sbb(r),
            },
            Instruction::DoubleRegister(_, (src, dst)) => self.mov(src, dst),
            Instruction::Intermediate(c, imm) => match c {
                InstructionCommand::Adi => self.adi(imm),
                InstructionCommand::Aci => self.aci(imm),
                InstructionCommand::Sui => self.sui(imm),
                InstructionCommand::Ori => self.ori(imm),
                InstructionCommand::Xri => self.xri(imm),
                InstructionCommand::Ani => self.ani(imm),
                InstructionCommand::Cpi => self.cpi(imm),
                _ => self.sbi(imm),
            },
            Instruction::Intermediate16Bit(_, p, imm) => self.lxi(p, imm),
            Instruction::Intermediate16BitNoReg(c, address) => match c {
                InstructionCommand::Sta => self.sta(address),
                InstructionCommand::Lda => self.lda(address),
                InstructionCommand::Shld => self.shld(address),
                _ => self.lhld(address),
            },
            Instruction::IntermediateRegister(_, imm, r) => self.mvi(r, imm),
            Instruction::PairRegister(c, p) => match c {
                InstructionCommand::Stax => self.stax(p),
                InstructionCommand::Ldax => self.ldax(p),
                InstructionCommand::Dcx => self.dcx(p),
                InstructionCommand::Inx => self.inx(p),
                InstructionCommand::Dad => self.dad(p),
                InstructionCommand::Push => self.push(p),
                _ => self.pop(p),
            },
            Instruction::Label(_, address) => self.jmp(address),
        }
    }

    /// One step of a run: the instruction at the program counter is executed and the
    /// counter moves past it (a jump sets it instead); HLT only moves the counter past
    /// itself and ends the run. The outcome names why a step could not be taken: no
    /// instruction at the counter, one that cannot be executed here, or a counter that
    /// would pass 65535.
    pub open spec fn step(self, program: Map<u16, Instruction>) -> (CpuState, StepOutcome) {
        let pc = self.program_counter;
        if !program.contains_key(pc) {
            (self, StepOutcome::MissingInstruction)
        } else {
            let instr = program[pc];
            if instr == Instruction::NoRegister(InstructionCommand::Hlt) {
                if pc < 65535 {
                    (self.with_pc((pc + 1) as u16), StepOutcome::Halted)
                } else {
                    (self, StepOutcome::CounterOverflow)
                }
            } else if !self.executable(instr) {
                (self, StepOutcome::InvalidInstruction)
            } else {
                let next = self.execute(instr);
                if instr is Label {
                    (next, StepOutcome::Continued)
                } else if next.program_counter + instr.spec_size() > 65535 {
                    (next, StepOutcome::CounterOverflow)
                } else {
                    (next.with_pc((next.program_counter + instr.spec_size()) as u16), StepOutcome::Continued)
                }
            }
        }
    }
}

impl CpuState {
    /// One step of a printed run: the instruction at the program counter is executed and
    /// the counter then moves past it, a jump's target included. Unlike `step`, HLT is not
    /// treated apart: it cannot be executed, so the step reports `InvalidInstruction`.
    pub open spec fn print_step(self, program: Map<u16, Instruction>) -> (CpuState, StepOutcome) {
        let pc = self.program_counter;
        if !program.contains_key(pc) {
            (self, StepOutcome::MissingInstruction)
        } else {
            let instr = program[pc];
            if !self.executable(instr) {
                (self, StepOutcome::InvalidInstruction)
            } else {
                let next = self.execute(instr);
                if next.program_counter + instr.spec_size() > 65535 {
                    (next, StepOutcome::CounterOverflow)
                } else {
                    (next.with_pc((next.program_counter + instr.spec_size()) as u16), StepOutcome::Continued)
                }
            }
        }
    }

    /// A run of at most `fuel` steps: steps are taken while they continue. The result is
    /// the state and outcome of the first step that does not continue (HLT, or a step
    /// that cannot be taken), or, where all `fuel` steps continue, the state after them
    /// with the outcome `Continued`.
    pub open spec fn run(self, program: Map<u16, Instruction>, fuel: nat) -> (CpuState, StepOutcome)
        decreases fuel,
    {
        if fuel == 0 {
            (self, StepOutcome::Continued)
        } else {
            let (next, outcome) = self.step(program);
            if outcome == StepOutcome::Continued {
                next.run(program, (fuel - 1) as nat)
            } else {
                (next, outcome)
            }
        }
    }
}

/// How one step of a run ended.
#[derive(Debug, Clone, Copy, PartialEq, Eq, Structural)]
pub enum StepOutcome {
    /// The instruction was executed and the run goes on.
    Continued,
    /// HLT was reached.
    Halted,
    /// No instruction starts at the program counter.
    MissingInstruction,
    /// The instruction's command does not fit its shape, or its operands are out of range.
    InvalidInstruction,
    /// Moving past the instruction would take the program counter beyond 65535.
    CounterOverflow,
}

} // verus!
