use vstd::prelude::*;
use crate::bits::{byte_of, i8_of, wrap16, wrap8};
use crate::assembler::parser::{
    pair_registers, reg_index, Instruction, InstructionCommand, InstructionRegister,
    InstructionRegisterPair,
};
use super::state::{flag_index, CpuState, Flag, StepOutcome};

verus! {

/// A byte's unsigned value read back as a signed byte is the byte.
pub proof fn lemma_byte_roundtrip(x: i8)
    ensures
        0 <= byte_of(x) < 256,
        i8_of(byte_of(x)) == x,
{
}

/// A 16-bit value stored in two registers reads back as itself.
pub proof fn lemma_word_split(w: int)
    requires
        0 <= w < 65536,
    ensures
        byte_of(i8_of(w / 256)) * 256 + byte_of(i8_of(w % 256)) == w,
{
}

/// Writing a register and reading it gives the value written; other registers keep theirs.
pub proof fn lemma_register_write_read(s: CpuState, r: InstructionRegister, other: InstructionRegister, v: i8)
    requires
        s.wf(),
    ensures
        s.with_reg(r, v).reg(r) == v,
        other != r ==> s.with_reg(r, v).reg(other) == s.reg(other),
{
}

/// Writing memory and reading it gives the value written; other cells keep theirs.
pub proof fn lemma_memory_write_read(s: CpuState, address: int, other: int, v: i8)
    requires
        s.wf(),
        0 <= address < 65536,
        0 <= other < 65536,
    ensures
        s.with_mem(address, v).mem(address) == v,
        other != address ==> s.with_mem(address, v).mem(other) == s.mem(other),
{
}

/// RAR undoes RAL: rotating the accumulator and carry left and then right restores both.
pub proof fn lemma_ral_then_rar(s: CpuState)
    requires
        s.wf(),
    ensures
        s.ral().rar() == s,
{
    let t = s.ral();
    assert(t.acc() == i8_of((2 * byte_of(s.acc())) % 256 + s.carry()));
    assert(t.flags =~= s.flags.update(flag_index(Flag::C), byte_of(s.acc()) >= 128));
    let u = t.rar();
    assert(u.registers =~= s.registers);
    assert(u.flags =~= s.flags);
    assert(u =~= s);
}

/// RAL undoes RAR.
pub proof fn lemma_rar_then_ral(s: CpuState)
    requires
        s.wf(),
    ensures
        s.rar().ral() == s,
{
    let u = s.rar().ral();
    assert(u.registers =~= s.registers);
    assert(u.flags =~= s.flags);
    assert(u =~= s);
}

/// RRC undoes RLC on the registers, and the carry holds the accumulator's top bit.
pub proof fn lemma_rlc_then_rrc(s: CpuState)
    requires
        s.wf(),
    ensures
        s.rlc().rrc().registers == s.registers,
        s.rlc().rrc().flag(Flag::C) == (byte_of(s.acc()) >= 128),
{
    let u = s.rlc().rrc();
    assert(u.registers =~= s.registers);
}

/// RLC undoes RRC on the registers, and the carry holds the accumulator's low bit.
pub proof fn lemma_rrc_then_rlc(s: CpuState)
    requires
        s.wf(),
    ensures
        s.rrc().rlc().registers == s.registers,
        s.rrc().rlc().flag(Flag::C) == (byte_of(s.acc()) % 2 == 1),
{
    let u = s.rrc().rlc();
    assert(u.registers =~= s.registers);
}

/// XCHG twice changes nothing.
pub proof fn lemma_xchg_twice(s: CpuState)
    requires
        s.wf(),
    ensures
        s.xchg().xchg() == s,
{
    let u = s.xchg().xchg();
    assert(u.registers =~= s.registers);
    assert(u =~= s);
}

/// CMA twice changes nothing.
pub proof fn lemma_cma_twice(s: CpuState)
    requires
        s.wf(),
    ensures
        s.cma().cma() == s,
{
    let u = s.cma().cma();
    assert(u.registers =~= s.registers);
    assert(u =~= s);
}

/// CMC twice changes nothing.
pub proof fn lemma_cmc_twice(s: CpuState)
    requires
        s.wf(),
    ensures
        s.cmc().cmc() == s,
{
    let u = s.cmc().cmc();
    assert(u.flags =~= s.flags);
    assert(u =~= s);
}

/// XTHL twice changes nothing.
pub proof fn lemma_xthl_twice(s: CpuState)
    requires
        s.wf(),
        s.stack_pointer < 65535,
    ensures
        s.xthl().xthl() == s,
{
    let u = s.xthl().xthl();
    assert(u.registers =~= s.registers);
    assert(u.memory =~= s.memory);
    assert(u =~= s);
}

/// POP undoes PUSH on the registers, the flags and the stack pointer; the memory keeps
/// what PUSH wrote.
pub proof fn lemma_push_then_pop(s: CpuState, p: InstructionRegisterPair)
    requires
        s.wf(),
        p != InstructionRegisterPair::SP,
    ensures
        s.push(p).pop(p) == (CpuState { memory: s.push(p).memory, ..s }),
{
    let t = s.push(p);
    let u = t.pop(p);
    let sp = s.stack_pointer as int;
    assert(wrap16(sp - 2) as int + 1 < 65536 ==> wrap16(wrap16(sp - 2) as int + 1) == wrap16(sp - 1));
    assert(wrap16(wrap16(sp - 2) as int + 1) == wrap16(sp - 1));
    assert(wrap16(wrap16(sp - 2) as int + 2) == s.stack_pointer);
    assert(wrap16(sp - 1) != wrap16(sp - 2));
    if p == InstructionRegisterPair::FA {
        let f = s.psw_byte();
        assert(0 <= f < 256);
        assert(byte_of(i8_of(f)) == f);
        assert(u.flags =~= s.flags);
    } else {
        assert(u.flags =~= s.flags);
    }
    assert(u.registers =~= s.registers);
    assert(u =~= CpuState { memory: t.memory, ..s });
}

/// DCX undoes INX.
pub proof fn lemma_inx_then_dcx(s: CpuState, p: InstructionRegisterPair)
    requires
        s.wf(),
        p != InstructionRegisterPair::FA,
    ensures
        s.inx(p).dcx(p) == s,
{
    let u = s.inx(p).dcx(p);
    if p != InstructionRegisterPair::SP {
        let v = s.pair_value(p);
        let w = (v + 1) % 65536;
        lemma_word_split(w);
        lemma_word_split(v);
        lemma_byte_roundtrip(s.reg(pair_registers(p).0));
        lemma_byte_roundtrip(s.reg(pair_registers(p).1));
        assert(s.inx(p).pair_value(p) == w);
        assert((w + 65535) % 65536 == v);
        assert(v / 256 == byte_of(s.reg(pair_registers(p).0)));
        assert(v % 256 == byte_of(s.reg(pair_registers(p).1)));
        assert(u.registers =~= s.registers);
    }
    assert(u =~= s);
}

/// INX undoes DCX.
pub proof fn lemma_dcx_then_inx(s: CpuState, p: InstructionRegisterPair)
    requires
        s.wf(),
        p != InstructionRegisterPair::FA,
    ensures
        s.dcx(p).inx(p) == s,
{
    let u = s.dcx(p).inx(p);
    if p != InstructionRegisterPair::SP {
        let v = s.pair_value(p);
        let w = (v + 65535) % 65536;
        lemma_word_split(w);
        lemma_byte_roundtrip(s.reg(pair_registers(p).0));
        lemma_byte_roundtrip(s.reg(pair_registers(p).1));
        assert(s.dcx(p).pair_value(p) == w);
        assert((w + 1) % 65536 == v);
        assert(v / 256 == byte_of(s.reg(pair_registers(p).0)));
        assert(v % 256 == byte_of(s.reg(pair_registers(p).1)));
        assert(u.registers =~= s.registers);
    }
    assert(u =~= s);
}

/// Loading from the address just stored to gives back the accumulator: STA then LDA
/// leaves the state as STA left it.
pub proof fn lemma_sta_then_lda(s: CpuState, address: i16)
    requires
        s.wf(),
    ensures
        s.sta(address).lda(address) == s.sta(address),
{
    let t = s.sta(address);
    assert(t.lda(address).registers =~= t.registers);
    assert(t.lda(address) =~= t);
}

/// SHLD then LHLD at the same address leaves the state as SHLD left it.
pub proof fn lemma_shld_then_lhld(s: CpuState, address: i16)
    requires
        s.wf(),
        crate::bits::word_of(address) < 65535,
    ensures
        s.shld(address).lhld(address) == s.shld(address),
{
    let t = s.shld(address);
    assert(t.lhld(address).registers =~= t.registers);
    assert(t.lhld(address) =~= t);
}

/// STAX then LDAX through the same pair leaves the state as STAX left it.
pub proof fn lemma_stax_then_ldax(s: CpuState, p: InstructionRegisterPair)
    requires
        s.wf(),
        p == InstructionRegisterPair::BC || p == InstructionRegisterPair::DE || p
            == InstructionRegisterPair::HL,
    ensures
        s.stax(p).ldax(p) == s.stax(p),
{
    let t = s.stax(p);
    assert(0 <= s.pair_value(p) < 65536);
    assert(t.pair_value(p) == s.pair_value(p));
    assert(t.ldax(p).registers =~= t.registers);
    assert(t.ldax(p) =~= t);
}

/// SUI undoes ADI on the accumulator (both wrap modulo 256).
pub proof fn lemma_adi_then_sui(s: CpuState, imm: i8)
    requires
        s.wf(),
    ensures
        s.adi(imm).sui(imm).acc() == s.acc(),
{
    let a = s.acc();
    let t = s.adi(imm);
    assert(t.acc() == wrap8(a + imm));
    assert(wrap8(wrap8(a + imm) - imm) == a);
}

proof fn lemma_shape_no_reg(s: CpuState, c: InstructionCommand)
    requires
        s.wf(),
        s.executable(Instruction::NoRegister(c)),
    ensures
        s.execute(Instruction::NoRegister(c)).wf(),
{
    match c {
        InstructionCommand::Stc => {},
        InstructionCommand::Cmc => {},
        InstructionCommand::Cma => {},
        InstructionCommand::Rlc => {},
        InstructionCommand::Rrc => {},
        InstructionCommand::Ral => {},
        InstructionCommand::Rar => {},
        InstructionCommand::Daa => {},
        InstructionCommand::Xchg => {},
        InstructionCommand::Sphl => {},
        InstructionCommand::Xthl => {},
        _ => {},
    }
}

proof fn lemma_shape_single(s: CpuState, c: InstructionCommand, r: InstructionRegister)
    requires
        s.wf(),
        s.executable(Instruction::SingleRegister(c, r)),
    ensures
        s.execute(Instruction::SingleRegister(c, r)).wf(),
{
    match c {
        InstructionCommand::Add => {},
        InstructionCommand::Adc => {},
        InstructionCommand::Sub => {},
        InstructionCommand::Inr => {},
        InstructionCommand::Dcr => {},
        InstructionCommand::Ana => {},
        InstructionCommand::Ora => {},
        InstructionCommand::Cmp => {},
        InstructionCommand::Xra => {},
        _ => {},
    }
}

proof fn lemma_shape_immediate(s: CpuState, c: InstructionCommand, v: i8)
    requires
        s.wf(),
        s.executable(Instruction::Intermediate(c, v)),
    ensures
        s.execute(Instruction::Intermediate(c, v)).wf(),
{
    match c {
        InstructionCommand::Adi => {},
        InstructionCommand::Aci => {},
        InstructionCommand::Sui => {},
        InstructionCommand::Ori => {},
        InstructionCommand::Xri => {},
        InstructionCommand::Ani => {},
        InstructionCommand::Cpi => {},
        _ => {},
    }
}

proof fn lemma_shape_pair(s: CpuState, c: InstructionCommand, p: InstructionRegisterPair)
    requires
        s.wf(),
        s.executable(Instruction::PairRegister(c, p)),
    ensures
        s.execute(Instruction::PairRegister(c, p)).wf(),
{
    match c {
        InstructionCommand::Stax => {},
        InstructionCommand::Ldax => {},
        InstructionCommand::Dcx => {},
        InstructionCommand::Inx => {},
        InstructionCommand::Dad => {},
        InstructionCommand::Push => {},
        _ => {},
    }
}

/// Executing an instruction keeps the shape of the state.
pub proof fn lemma_execute_keeps_shape(s: CpuState, i: Instruction)
    requires
        s.wf(),
        s.executable(i),
    ensures
        s.execute(i).wf(),
{
    match i {
        Instruction::NoRegister(c) => lemma_shape_no_reg(s, c),
        Instruction::SingleRegister(c, r) => lemma_shape_single(s, c, r),
        Instruction::Intermediate(c, v) => lemma_shape_immediate(s, c, v),
        Instruction::PairRegister(c, p) => lemma_shape_pair(s, c, p),
        _ => {},
    }
}

/// A step keeps the shape of the state; where it cannot be taken (no instruction, one that
/// cannot be executed) the state is unchanged; HLT moves the counter past itself; any other
/// instruction but a jump leaves the counter just past itself.
pub proof fn lemma_step(s: CpuState, program: Map<u16, Instruction>)
    requires
        s.wf(),
    ensures
        s.step(program).0.wf(),
        s.step(program).1 == StepOutcome::MissingInstruction ==> s.step(program).0 == s,
        s.step(program).1 == StepOutcome::InvalidInstruction ==> s.step(program).0 == s,
        s.step(program).1 == StepOutcome::Halted ==> s.step(program).0 == s.with_pc(
            (s.program_counter + 1) as u16,
        ),
        s.step(program).1 == StepOutcome::Continued && !(program[s.program_counter] is Label)
            ==> s.step(program).0 == s.execute(program[s.program_counter]).with_pc(
            (s.execute(program[s.program_counter]).program_counter
                + program[s.program_counter].spec_size()) as u16,
        ),
{
    if program.contains_key(s.program_counter) {
        let i = program[s.program_counter];
        if s.executable(i) {
            lemma_execute_keeps_shape(s, i);
        }
    }
}

/// A larger budget does not change a run that stopped within its budget: once a step does
/// not continue (HLT, or a step that cannot be taken), the run's end is fixed.
pub proof fn lemma_run_more_steps(s: CpuState, program: Map<u16, Instruction>, n: nat, m: nat)
    requires
        n <= m,
        s.run(program, n).1 != StepOutcome::Continued,
    ensures
        s.run(program, m) == s.run(program, n),
    decreases n,
{
    let (next, outcome) = s.step(program);
    if outcome == StepOutcome::Continued {
        lemma_run_more_steps(next, program, (n - 1) as nat, (m - 1) as nat);
    }
}

/// DAA works on the unsigned value u of the accumulator. Where the low nibble exceeds 9 or
/// the auxiliary carry is set, 6 is added first (mod 256); then, where the high nibble of
/// that sum exceeds 9 or the carry is set, 0x60 is added too (mod 256), and the carry
/// becomes whether that second addition passes 255. Nothing but A and the flags A and C
/// changes.
pub proof fn lemma_daa_adjusts(s: CpuState)
    requires
        s.wf(),
    ensures
        ({
            let u = byte_of(s.acc());
            let n = s.daa();
            let low = u % 16 > 9 || s.flag(Flag::A);
            let first = if low { (u + 6) % 256 } else { u };
            let high = first >= 160 || s.flag(Flag::C);
            &&& low ==> (byte_of(n.acc()) == (u + 6) % 256 || byte_of(n.acc()) == (u + 102) % 256)
            &&& !low ==> (byte_of(n.acc()) == u || byte_of(n.acc()) == (u + 96) % 256)
            &&& byte_of(n.acc()) == if high { (first + 96) % 256 } else { first }
            &&& n.flag(Flag::C) == if high { first >= 160 } else { s.flag(Flag::C) }
            &&& forall|r: InstructionRegister| r != InstructionRegister::A ==> #[trigger] n.reg(r) == s.reg(r)
            &&& n.memory == s.memory
            &&& n.stack_pointer == s.stack_pointer
            &&& n.program_counter == s.program_counter
            &&& n.flag(Flag::S) == s.flag(Flag::S) && n.flag(Flag::Z) == s.flag(Flag::Z)
                && n.flag(Flag::P) == s.flag(Flag::P)
        }),
{
    let u = byte_of(s.acc());
    let low = u % 16 > 9 || s.flag(Flag::A);
    let first = if low { (u + 6) % 256 } else { u };
    assert(first / 16 > 9 <==> first >= 160);
    let second = if first >= 160 || s.flag(Flag::C) { (first + 96) % 256 } else { first };
    assert(0 <= second < 256);
    assert(byte_of(i8_of(second)) == second);
    assert forall|r: InstructionRegister| r != InstructionRegister::A implies #[trigger] s.daa().reg(r) == s.reg(r) by {
        assert(reg_index(r) != reg_index(InstructionRegister::A));
    }
}

/// CMP compares A with a register and changes nothing but Z and C: Z is set exactly when
/// the two are equal; for a register value of 0 or more, C is set exactly when A, read
/// unsigned, is at least that value; for a negative register value, C is set exactly when
/// the unsigned sum of the two bytes stays below 256.
pub proof fn lemma_compare_flags(s: CpuState, r: InstructionRegister)
    requires
        s.wf(),
    ensures
        ({
            let a = s.acc();
            let v = s.reg(r);
            let n = s.compare(r);
            &&& n.flag(Flag::Z) == (a == v)
            &&& v >= 0 ==> (n.flag(Flag::C) <==> byte_of(a) >= v)
            &&& v < 0 ==> (n.flag(Flag::C) <==> byte_of(a) + (v + 256) < 256)
            &&& n.registers == s.registers
            &&& n.memory == s.memory
            &&& n.stack_pointer == s.stack_pointer
            &&& n.program_counter == s.program_counter
            &&& n.flag(Flag::S) == s.flag(Flag::S) && n.flag(Flag::A) == s.flag(Flag::A)
                && n.flag(Flag::P) == s.flag(Flag::P)
        }),
{
    let a = s.acc();
    let v = s.reg(r);
    let d = a - v;
    assert(-255 <= d <= 255);
    assert((wrap8(d) == 0) <==> (d == 0)) by {
        if d != 0 {
            assert(d % 256 != 0);
        }
    }
}

/// CPI compares A with an immediate: Z is set exactly when the two are equal; where their
/// signs agree, C is set exactly when the immediate is the greater; where they differ, C
/// flips. Nothing else changes.
pub proof fn lemma_cpi_flags(s: CpuState, imm: i8)
    requires
        s.wf(),
    ensures
        ({
            let a = s.acc();
            let n = s.cpi(imm);
            &&& n.flag(Flag::Z) == (a == imm)
            &&& (imm < 0) == (a < 0) ==> (n.flag(Flag::C) <==> imm > a)
            &&& (imm < 0) != (a < 0) ==> n.flag(Flag::C) == !s.flag(Flag::C)
            &&& n.registers == s.registers
            &&& n.memory == s.memory
        }),
{
    let d = s.acc() - imm;
    assert((wrap8(d) == 0) <==> (d == 0)) by {
        if d != 0 {
            assert(d % 256 != 0);
        }
    }
}

/// The immediate logic instructions: ORI, ANI and XRI leave A | imm, A & imm and A ^ imm
/// in the accumulator, clear C, set Z exactly when that new accumulator is 0, and change
/// nothing else.
pub proof fn lemma_logic_immediates(s: CpuState, imm: i8)
    requires
        s.wf(),
    ensures
        s.ori(imm).acc() == s.acc() | imm,
        s.ori(imm).flag(Flag::Z) == (s.ori(imm).acc() == 0),
        !s.ori(imm).flag(Flag::C),
        s.ani(imm).acc() == s.acc() & imm,
        s.ani(imm).flag(Flag::Z) == (s.ani(imm).acc() == 0),
        !s.ani(imm).flag(Flag::C),
        s.xri(imm).acc() == s.acc() ^ imm,
        s.xri(imm).flag(Flag::Z) == (s.xri(imm).acc() == 0),
        !s.xri(imm).flag(Flag::C),
        forall|r: InstructionRegister| r != InstructionRegister::A ==> {
            &&& #[trigger] s.ori(imm).reg(r) == s.reg(r)
            &&& s.ani(imm).reg(r) == s.reg(r)
            &&& s.xri(imm).reg(r) == s.reg(r)
        },
        s.ori(imm).memory == s.memory && s.ani(imm).memory == s.memory && s.xri(imm).memory == s.memory,
        s.ori(imm).flag(Flag::S) == s.flag(Flag::S) && s.ani(imm).flag(Flag::S) == s.flag(Flag::S)
            && s.xri(imm).flag(Flag::S) == s.flag(Flag::S),
{
    assert forall|r: InstructionRegister| r != InstructionRegister::A implies {
        &&& #[trigger] s.ori(imm).reg(r) == s.reg(r)
        &&& s.ani(imm).reg(r) == s.reg(r)
        &&& s.xri(imm).reg(r) == s.reg(r)
    } by {
        assert(reg_index(r) != reg_index(InstructionRegister::A));
    }
}

/// The register logic instructions: ANA leaves A & r in the accumulator and changes no
/// flag; ORA leaves A | r there and clears C; XRA leaves A ^ r in the named register and
/// sets Z exactly when that value is 0.
pub proof fn lemma_logic_registers(s: CpuState, r: InstructionRegister)
    requires
        s.wf(),
    ensures
        s.ana(r).acc() == s.acc() & s.reg(r),
        s.ana(r).flags == s.flags,
        s.ora(r).acc() == s.acc() | s.reg(r),
        !s.ora(r).flag(Flag::C),
        s.ora(r).flag(Flag::Z) == s.flag(Flag::Z),
        s.xra(r).reg(r) == s.acc() ^ s.reg(r),
        s.xra(r).flag(Flag::Z) == (s.acc() ^ s.reg(r) == 0),
        s.ana(r).memory == s.memory && s.ora(r).memory == s.memory && s.xra(r).memory == s.memory,
{
}

/// STA stores the accumulator in the cell at the operand's unsigned 16-bit value (the
/// operand plus 65536 where it is negative) and changes no other cell, register or flag;
/// LDA loads the accumulator from that same cell and changes nothing else.
pub proof fn lemma_sta_lda_address(s: CpuState, address: i16, k: int)
    requires
        s.wf(),
        0 <= k < 65536,
    ensures
        ({
            let cell = if address < 0 { address + 65536 } else { address as int };
            &&& s.sta(address).mem(cell) == s.acc()
            &&& k != cell ==> s.sta(address).mem(k) == s.mem(k)
            &&& s.sta(address).registers == s.registers
            &&& s.sta(address).flags == s.flags
            &&& s.lda(address).acc() == s.mem(cell)
            &&& s.lda(address).memory == s.memory
            &&& s.lda(address).flags == s.flags
            &&& forall|r: InstructionRegister| r != InstructionRegister::A ==> #[trigger] s.lda(address).reg(r) == s.reg(r)
        }),
{
    assert forall|r: InstructionRegister| r != InstructionRegister::A implies #[trigger] s.lda(address).reg(r) == s.reg(r) by {
        assert(reg_index(r) != reg_index(InstructionRegister::A));
    }
}

} // verus!
