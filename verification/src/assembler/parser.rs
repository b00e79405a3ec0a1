use vstd::prelude::*;
use crate::bits::{
    bits8, bits16, byte_of, i8_of, is_bit_octet, octet_value, word_of, push_bits8, to_byte, to_word,
    from_byte,
};

verus! {

/// A mnemonic of the 8080 instruction set.
#[derive(Debug, Clone, Copy, PartialEq, Eq, Structural)]
pub enum InstructionCommand {
    Mvi,
    Mov,
    Add,
    Adc,
    Adi,
    Aci,
    Sui,
    Sub,
    Inr,
    Dcr,
    Ana,
    Stc,
    Cmc,
    Cma,
    Rlc,
    Rrc,
    Ral,
    Rar,
    Ora,
    Daa,
    Stax,
    Ldax,
    Cmp,
    Xra,
    Sbb,
    Xchg,
    Sphl,
    Xthl,
    Dcx,
    Inx,
    Dad,
    Push,
    Pop,
    Ori,
    Xri,
    Ani,
    Cpi,
    Sbi,
    Lxi,
    Sta,
    Lda,
    Shld,
    Lhld,
    Pchl,
    Jmp,
    Jc,
    Jnc,
    Jz,
    Hlt,
}

/// An argument of an instruction that is written as a bit field inside the opcode.
pub trait InstructionArgument: Sized {
    /// The bits (each 0 or 1, most significant first) that stand for this argument.
    spec fn spec_encode(&self) -> Seq<u8>;

    /// Whether `raw` is the bit field of some argument.
    spec fn spec_decodable(raw: Seq<u8>) -> bool;

    /// The argument whose bit field is `raw`.
    spec fn spec_decode(raw: Seq<u8>) -> Self;

    fn encode(&self) -> (bits: Vec<u8>)
        ensures
            bits@ == self.spec_encode(),
    ;

    fn decode(raw_bits: &[u8]) -> (arg: Self)
        requires
            Self::spec_decodable(raw_bits@),
        ensures
            arg == Self::spec_decode(raw_bits@),
    ;
}

/// One of the eight 8-bit registers (M names the eighth slot).
#[derive(Debug, Clone, Copy, PartialEq, Eq, Structural)]
pub enum InstructionRegister {
    A,
    B,
    C,
    D,
    E,
    H,
    L,
    M,
}

/// The three-bit code of a register inside an opcode.
pub open spec fn reg_code(r: InstructionRegister) -> int {
    match r {
        InstructionRegister::A => 7,
        InstructionRegister::B => 0,
        InstructionRegister::C => 1,
        InstructionRegister::D => 2,
        InstructionRegister::E => 3,
        InstructionRegister::H => 4,
        InstructionRegister::L => 5,
        InstructionRegister::M => 6,
    }
}

/// The register whose three-bit code is `c` (0..=7).
pub open spec fn reg_of_code(c: int) -> InstructionRegister {
    if c == 0 {
        InstructionRegister::B
    } else if c == 1 {
        InstructionRegister::C
    } else if c == 2 {
        InstructionRegister::D
    } else if c == 3 {
        InstructionRegister::E
    } else if c == 4 {
        InstructionRegister::H
    } else if c == 5 {
        InstructionRegister::L
    } else if c == 6 {
        InstructionRegister::M
    } else {
        InstructionRegister::A
    }
}

/// The slot of a register in the register file.
pub open spec fn reg_index(r: InstructionRegister) -> int {
    match r {
        InstructionRegister::A => 0,
        InstructionRegister::B => 1,
        InstructionRegister::C => 2,
        InstructionRegister::D => 3,
        InstructionRegister::E => 4,
        InstructionRegister::H => 5,
        InstructionRegister::L => 6,
        InstructionRegister::M => 7,
    }
}

/// The register in slot `i` (0..=7) of the register file.
pub open spec fn reg_of_index(i: int) -> InstructionRegister {
    if i == 0 {
        InstructionRegister::A
    } else if i == 1 {
        InstructionRegister::B
    } else if i == 2 {
        InstructionRegister::C
    } else if i == 3 {
        InstructionRegister::D
    } else if i == 4 {
        InstructionRegister::E
    } else if i == 5 {
        InstructionRegister::H
    } else if i == 6 {
        InstructionRegister::L
    } else {
        InstructionRegister::M
    }
}

/// Whether every entry of `s` is 0 or 1.
pub open spec fn all_bits(s: Seq<u8>) -> bool {
    forall|k: int| 0 <= k < s.len() ==> #[trigger] s[k] <= 1
}

impl InstructionArgument for InstructionRegister {
    open spec fn spec_encode(&self) -> Seq<u8> {
        let c = reg_code(*self);
        seq![((c / 4) % 2) as u8, ((c / 2) % 2) as u8, (c % 2) as u8]
    }

    open spec fn spec_decodable(raw: Seq<u8>) -> bool {
        raw.len() == 3 && all_bits(raw)
    }

    open spec fn spec_decode(raw: Seq<u8>) -> InstructionRegister {
        reg_of_code(raw[0] * 4 + raw[1] * 2 + raw[2])
    }

    fn encode(&self) -> (bits: Vec<u8>) {
        match self {
            InstructionRegister::A => vec![1, 1, 1],
            InstructionRegister::B => vec![0, 0, 0],
            InstructionRegister::C => vec![0, 0, 1],
            InstructionRegister::D => vec![0, 1, 0],
            InstructionRegister::E => vec![0, 1, 1],
            InstructionRegister::H => vec![1, 0, 0],
            InstructionRegister::L => vec![1, 0, 1],
            InstructionRegister::M => vec![1, 1, 0],
        }
    }

    fn decode(raw_bits: &[u8]) -> (arg: InstructionRegister) {
        assert(raw_bits@[0] <= 1 && raw_bits@[1] <= 1 && raw_bits@[2] <= 1);
        let code = raw_bits[0] * 4 + raw_bits[1] * 2 + raw_bits[2];
        reg_from_code(code)
    }
}

/// The register whose three-bit code is `code`.
pub fn reg_from_code(code: u8) -> (r: InstructionRegister)
    requires
        code < 8,
    ensures
        r == reg_of_code(code as int),
        reg_code(r) == code,
{
    if code == 0 {
        InstructionRegister::B
    } else if code == 1 {
        InstructionRegister::C
    } else if code == 2 {
        InstructionRegister::D
    } else if code == 3 {
        InstructionRegister::E
    } else if code == 4 {
        InstructionRegister::H
    } else if code == 5 {
        InstructionRegister::L
    } else if code == 6 {
        InstructionRegister::M
    } else {
        InstructionRegister::A
    }
}

/// The three-bit code of `r`.
pub fn reg_code_of(r: InstructionRegister) -> (code: u8)
    ensures
        code == reg_code(r),
        code < 8,
{
    match r {
        InstructionRegister::A => 7,
        InstructionRegister::B => 0,
        InstructionRegister::C => 1,
        InstructionRegister::D => 2,
        InstructionRegister::E => 3,
        InstructionRegister::H => 4,
        InstructionRegister::L => 5,
        InstructionRegister::M => 6,
    }
}

impl InstructionRegister {
    /// The slot of this register in the register file.
    pub fn to_index(self) -> (i: u8)
        ensures
            i == reg_index(self),
            i < 8,
    {
        match self {
            InstructionRegister::A => 0,
            InstructionRegister::B => 1,
            InstructionRegister::C => 2,
            InstructionRegister::D => 3,
            InstructionRegister::E => 4,
            InstructionRegister::H => 5,
            InstructionRegister::L => 6,
            InstructionRegister::M => 7,
        }
    }

    /// The register in slot `index` of the register file.
    pub fn from_index(index: i32) -> (r: InstructionRegister)
        requires
            0 <= index < 8,
        ensures
            r == reg_of_index(index as int),
            reg_index(r) == index,
    {
        match index {
            0 => InstructionRegister::A,
            1 => InstructionRegister::B,
            2 => InstructionRegister::C,
            3 => InstructionRegister::D,
            4 => InstructionRegister::E,
            5 => InstructionRegister::H,
            6 => InstructionRegister::L,
            _ => InstructionRegister::M,
        }
    }
}

/// A register pair, the stack pointer, or the accumulator with the flags (FA, written PSW).
#[derive(Debug, Clone, Copy, PartialEq, Eq, Structural)]
pub enum InstructionRegisterPair {
    BC,
    DE,
    HL,
    SP,
    FA,
}

/// The two-bit code of a register pair inside an opcode; SP and FA share a code.
pub open spec fn pair_code(p: InstructionRegisterPair) -> int {
    match p {
        InstructionRegisterPair::BC => 0,
        InstructionRegisterPair::DE => 1,
        InstructionRegisterPair::HL => 2,
        InstructionRegisterPair::SP => 3,
        InstructionRegisterPair::FA => 3,
    }
}

/// The pair whose two-bit code is `c` (0..=3), reading 3 as SP.
pub open spec fn pair_of_code(c: int) -> InstructionRegisterPair {
    if c == 0 {
        InstructionRegisterPair::BC
    } else if c == 1 {
        InstructionRegisterPair::DE
    } else if c == 2 {
        InstructionRegisterPair::HL
    } else {
        InstructionRegisterPair::SP
    }
}

/// The high and low registers of a pair made of two registers.
pub open spec fn pair_registers(p: InstructionRegisterPair) -> (InstructionRegister, InstructionRegister) {
    match p {
        InstructionRegisterPair::BC => (InstructionRegister::B, InstructionRegister::C),
        InstructionRegisterPair::DE => (InstructionRegister::D, InstructionRegister::E),
        _ => (InstructionRegister::H, InstructionRegister::L),
    }
}

/// Whether `p` is made of two registers (BC, DE or HL).
pub open spec fn is_register_pair(p: InstructionRegisterPair) -> bool {
    p == InstructionRegisterPair::BC || p == InstructionRegisterPair::DE || p
        == InstructionRegisterPair::HL
}

impl InstructionArgument for InstructionRegisterPair {
    open spec fn spec_encode(&self) -> Seq<u8> {
        let c = pair_code(*self);
        seq![((c / 2) % 2) as u8, (c % 2) as u8]
    }

    open spec fn spec_decodable(raw: Seq<u8>) -> bool {
        raw.len() == 2 && all_bits(raw)
    }

    open spec fn spec_decode(raw: Seq<u8>) -> InstructionRegisterPair {
        pair_of_code(raw[0] * 2 + raw[1])
    }

    fn encode(&self) -> (bits: Vec<u8>) {
        match self {
            InstructionRegisterPair::BC => vec![0, 0],
            InstructionRegisterPair::DE => vec![0, 1],
            InstructionRegisterPair::HL => vec![1, 0],
            InstructionRegisterPair::SP => vec![1, 1],
            InstructionRegisterPair::FA => vec![1, 1],
        }
    }

    fn decode(raw_bits: &[u8]) -> (arg: InstructionRegisterPair) {
        assert(raw_bits@[0] <= 1 && raw_bits@[1] <= 1);
        let code = raw_bits[0] * 2 + raw_bits[1];
        pair_from_code(code)
    }
}

/// The pair whose two-bit code is `code`, reading 3 as SP.
pub fn pair_from_code(code: u8) -> (p: InstructionRegisterPair)
    requires
        code < 4,
    ensures
        p == pair_of_code(code as int),
{
    if code == 0 {
        InstructionRegisterPair::BC
    } else if code == 1 {
        InstructionRegisterPair::DE
    } else if code == 2 {
        InstructionRegisterPair::HL
    } else {
        InstructionRegisterPair::SP
    }
}

/// The two-bit code of `p`.
pub fn pair_code_of(p: InstructionRegisterPair) -> (code: u8)
    ensures
        code == pair_code(p),
        code < 4,
{
    match p {
        InstructionRegisterPair::BC => 0,
        InstructionRegisterPair::DE => 1,
        InstructionRegisterPair::HL => 2,
        InstructionRegisterPair::SP => 3,
        InstructionRegisterPair::FA => 3,
    }
}

impl InstructionRegisterPair {
    /// The high and low registers of BC, DE or HL.
    pub fn get_registers(&self) -> (regs: (InstructionRegister, InstructionRegister))
        requires
            is_register_pair(*self),
        ensures
            regs == pair_registers(*self),
    {
        match self {
            InstructionRegisterPair::BC => (InstructionRegister::B, InstructionRegister::C),
            InstructionRegisterPair::DE => (InstructionRegister::D, InstructionRegister::E),
            _ => (InstructionRegister::H, InstructionRegister::L),
        }
    }
}

/// A register's slot in the register file leads back to the register, and every slot
/// 0..=7 is some register's.
pub proof fn lemma_index_roundtrip(r: InstructionRegister, i: int)
    ensures
        reg_of_index(reg_index(r)) == r,
        0 <= i < 8 ==> reg_index(reg_of_index(i)) == i,
{
}

/// Decoding the bit field of a register gives the register back.
pub proof fn lemma_register_decode_encode(r: InstructionRegister)
    ensures
        InstructionRegister::spec_decodable(r.spec_encode()),
        InstructionRegister::spec_decode(r.spec_encode()) == r,
{
    let s = r.spec_encode();
    assert(all_bits(s)) by {
        assert forall|k: int| 0 <= k < s.len() implies #[trigger] s[k] <= 1 by {}
    }
}

/// Decoding the bit field of a pair gives the pair back, but for FA, whose code is that
/// of SP and reads back as SP.
pub proof fn lemma_pair_decode_encode(p: InstructionRegisterPair)
    ensures
        InstructionRegisterPair::spec_decodable(p.spec_encode()),
        InstructionRegisterPair::spec_decode(p.spec_encode()) == if p == InstructionRegisterPair::FA {
            InstructionRegisterPair::SP
        } else {
            p
        },
{
    let s = p.spec_encode();
    assert(all_bits(s)) by {
        assert forall|k: int| 0 <= k < s.len() implies #[trigger] s[k] <= 1 by {}
    }
}

/// One decoded or assembled 8080 instruction with its operands.
#[derive(Debug, Clone, Copy, PartialEq, Eq)]
pub enum Instruction {
    NoRegister(InstructionCommand),
    SingleRegister(InstructionCommand, InstructionRegister),
    DoubleRegister(InstructionCommand, (InstructionRegister, InstructionRegister)),
    Intermediate(InstructionCommand, i8),
    Intermediate16Bit(InstructionCommand, InstructionRegisterPair, i16),
    Intermediate16BitNoReg(InstructionCommand, i16),
    IntermediateRegister(InstructionCommand, i8, InstructionRegister),
    PairRegister(InstructionCommand, InstructionRegisterPair),
    Label(InstructionCommand, u16),
}

/// The opcode of an instruction without operands, or -1 where the command takes operands.
pub open spec fn no_reg_opcode(c: InstructionCommand) -> int {
    match c {
        InstructionCommand::Stc => 0x37,
        InstructionCommand::Cmc => 0x3f,
        InstructionCommand::Cma => 0x2f,
        InstructionCommand::Rlc => 0x07,
        InstructionCommand::Rrc => 0x0f,
        InstructionCommand::Ral => 0x17,
        InstructionCommand::Rar => 0x1f,
        InstructionCommand::Daa => 0x27,
        InstructionCommand::Xchg => 0xeb,
        InstructionCommand::Sphl => 0xf9,
        InstructionCommand::Xthl => 0xe3,
        InstructionCommand::Pchl => 0xe9,
        InstructionCommand::Hlt => 0x76,
        _ => -1,
    }
}

/// The opcode of a one-register instruction, or -1 where the command is not one.
pub open spec fn single_reg_opcode(c: InstructionCommand, r: InstructionRegister) -> int {
    let rc = reg_code(r);
    match c {
        InstructionCommand::Add => 0x80 + rc,
        InstructionCommand::Adc => 0x88 + rc,
        InstructionCommand::Sub => 0x90 + rc,
        InstructionCommand::Sbb => 0x98 + rc,
        InstructionCommand::Ana => 0xa0 + rc,
        InstructionCommand::Xra => 0xa8 + rc,
        InstructionCommand::Ora => 0xb0 + rc,
        InstructionCommand::Cmp => 0xb8 + rc,
        InstructionCommand::Inr => rc * 8 + 4,
        InstructionCommand::Dcr => rc * 8 + 5,
        _ => -1,
    }
}

/// The opcode of an instruction with an 8-bit immediate, or -1.
pub open spec fn immediate_opcode(c: InstructionCommand) -> int {
    match c {
        InstructionCommand::Adi => 0xc6,
        InstructionCommand::Aci => 0xce,
        InstructionCommand::Sui => 0xd6,
        InstructionCommand::Sbi => 0xde,
        InstructionCommand::Ani => 0xe6,
        InstructionCommand::Xri => 0xee,
        InstructionCommand::Ori => 0xf6,
        InstructionCommand::Cpi => 0xfe,
        _ => -1,
    }
}

/// The opcode of an instruction with a 16-bit address and no register, or -1.
pub open spec fn direct_opcode(c: InstructionCommand) -> int {
    match c {
        InstructionCommand::Shld => 0x22,
        InstructionCommand::Lhld => 0x2a,
        InstructionCommand::Sta => 0x32,
        InstructionCommand::Lda => 0x3a,
        _ => -1,
    }
}

/// The opcode of a jump, or -1.
pub open spec fn jump_opcode(c: InstructionCommand) -> int {
    match c {
        InstructionCommand::Jmp => 0xc3,
        InstructionCommand::Jnc => 0xd2,
        InstructionCommand::Jc => 0xda,
        InstructionCommand::Jz => 0xca,
        _ => -1,
    }
}

/// The opcode of a register-pair instruction, or -1 (PUSH and POP do not take SP).
pub open spec fn pair_opcode(c: InstructionCommand, p: InstructionRegisterPair) -> int {
    let pc = pair_code(p) * 16;
    match c {
        InstructionCommand::Stax => pc + 0x02,
        InstructionCommand::Inx => pc + 0x03,
        InstructionCommand::Dad => pc + 0x09,
        InstructionCommand::Ldax => pc + 0x0a,
        InstructionCommand::Dcx => pc + 0x0b,
        InstructionCommand::Push => if p == InstructionRegisterPair::SP {
            -1
        } else {
            0xc5 + pc
        },
        InstructionCommand::Pop => if p == InstructionRegisterPair::SP {
            -1
        } else {
            0xc1 + pc
        },
        _ => -1,
    }
}

impl Instruction {
    /// The opcode byte of the instruction, or -1 where its command does not fit its shape.
    pub open spec fn spec_opcode(self) -> int {
        match self {
            Instruction::NoRegister(c) => no_reg_opcode(c),
            Instruction::SingleRegister(c, r) => single_reg_opcode(c, r),
            Instruction::DoubleRegister(c, (s, d)) => if c == InstructionCommand::Mov {
                0x40 + reg_code(s) * 8 + reg_code(d)
            } else {
                -1
            },
            Instruction::Intermediate(c, _) => immediate_opcode(c),
            Instruction::Intermediate16Bit(c, p, _) => if c == InstructionCommand::Lxi {
                pair_code(p) * 16 + 1
            } else {
                -1
            },
            Instruction::Intermediate16BitNoReg(c, _) => direct_opcode(c),
            Instruction::IntermediateRegister(c, _, r) => if c == InstructionCommand::Mvi {
                reg_code(r) * 8 + 6
            } else {
                -1
            },
            Instruction::PairRegister(c, p) => pair_opcode(c, p),
            Instruction::Label(c, _) => jump_opcode(c),
        }
    }

    /// Whether the instruction has an encoding (its command fits its shape).
    pub open spec fn encodable(self) -> bool {
        self.spec_opcode() >= 0
    }

    /// The number of bytes the instruction occupies.
    pub open spec fn spec_size(self) -> int {
        match self {
            Instruction::Intermediate(..) => 2,
            Instruction::IntermediateRegister(..) => 2,
            Instruction::Intermediate16Bit(..) => 3,
            Instruction::Intermediate16BitNoReg(..) => 3,
            Instruction::Label(..) => 3,
            _ => 1,
        }
    }

    /// The bits of the operand bytes that follow the opcode.
    pub open spec fn operand_bits(self) -> Seq<u8> {
        match self {
            Instruction::Intermediate(_, v) => bits8(byte_of(v)),
            Instruction::IntermediateRegister(_, v, _) => bits8(byte_of(v)),
            Instruction::Intermediate16Bit(_, _, v) => bits16(word_of(v)),
            Instruction::Intermediate16BitNoReg(_, v) => bits16(word_of(v)),
            Instruction::Label(_, a) => bits16(a as int),
            _ => Seq::empty(),
        }
    }

    /// The binary form of the instruction: the opcode's bits, then the operands' bits.
    pub open spec fn spec_encode(self) -> Seq<u8> {
        bits8(self.spec_opcode()) + self.operand_bits()
    }

    /// The number of bytes the instruction occupies.
    pub fn get_size(&self) -> (size: u8)
        ensures
            size == self.spec_size(),
    {
        match self {
            Instruction::Intermediate(..) => 2,
            Instruction::IntermediateRegister(..) => 2,
            Instruction::Intermediate16Bit(..) => 3,
            Instruction::Intermediate16BitNoReg(..) => 3,
            Instruction::Label(..) => 3,
            _ => 1,
        }
    }

    /// Whether the instruction has an encoding.
    pub fn is_encodable(&self) -> (ok: bool)
        ensures
            ok == self.encodable(),
    {
        opcode_of(self).is_some()
    }

    /// The binary form of the instruction, one entry (0 or 1) per bit, most significant first.
    pub fn encode(&self) -> (bits: Vec<u8>)
        requires
            self.encodable(),
        ensures
            bits@ == self.spec_encode(),
    {
        let op = opcode_of(self).unwrap();
        let mut bits = Vec::new();
        push_bits8(&mut bits, op);
        match *self {
            Instruction::Intermediate(_, v) => {
                let mut operand = int_to_binary(v);
                bits.append(&mut operand);
            },
            Instruction::IntermediateRegister(_, v, _) => {
                let mut operand = int_to_binary(v);
                bits.append(&mut operand);
            },
            Instruction::Intermediate16Bit(_, _, v) => {
                let mut operand = int_to_binary_16_bit(v);
                bits.append(&mut operand);
            },
            Instruction::Intermediate16BitNoReg(_, v) => {
                let mut operand = int_to_binary_16_bit(v);
                bits.append(&mut operand);
            },
            Instruction::Label(_, a) => {
                push_bits8(&mut bits, (a / 256) as u8);
                push_bits8(&mut bits, (a % 256) as u8);
                assert(bits@ =~= self.spec_encode());
            },
            _ => {
                assert(bits@ =~= self.spec_encode());
            },
        }
        bits
    }
}

/// The opcode byte of `instr`, or `None` where its command does not fit its shape.
pub fn opcode_of(instr: &Instruction) -> (op: Option<u8>)
    ensures
        op.is_some() == instr.encodable(),
        op matches Some(b) ==> b as int == instr.spec_opcode(),
{
    match *instr {
        Instruction::NoRegister(c) => match c {
            InstructionCommand::Stc => Some(0x37),
            InstructionCommand::Cmc => Some(0x3f),
            InstructionCommand::Cma => Some(0x2f),
            InstructionCommand::Rlc => Some(0x07),
            InstructionCommand::Rrc => Some(0x0f),
            InstructionCommand::Ral => Some(0x17),
            InstructionCommand::Rar => Some(0x1f),
            InstructionCommand::Daa => Some(0x27),
            InstructionCommand::Xchg => Some(0xeb),
            InstructionCommand::Sphl => Some(0xf9),
            InstructionCommand::Xthl => Some(0xe3),
            InstructionCommand::Pchl => Some(0xe9),
            InstructionCommand::Hlt => Some(0x76),
            _ => None,
        },
        Instruction::SingleRegister(c, r) => {
            let rc = reg_code_of(r);
            match c {
                InstructionCommand::Add => Some(0x80 + rc),
                InstructionCommand::Adc => Some(0x88 + rc),
                InstructionCommand::Sub => Some(0x90 + rc),
                InstructionCommand::Sbb => Some(0x98 + rc),
                InstructionCommand::Ana => Some(0xa0 + rc),
                InstructionCommand::Xra => Some(0xa8 + rc),
                InstructionCommand::Ora => Some(0xb0 + rc),
                InstructionCommand::Cmp => Some(0xb8 + rc),
                InstructionCommand::Inr => Some(rc * 8 + 4),
                InstructionCommand::Dcr => Some(rc * 8 + 5),
                _ => None,
            }
        },
        Instruction::DoubleRegister(c, (s, d)) => match c {
            InstructionCommand::Mov => Some(0x40 + reg_code_of(s) * 8 + reg_code_of(d)),
            _ => None,
        },
        Instruction::Intermediate(c, _) => match c {
            InstructionCommand::Adi => Some(0xc6),
            InstructionCommand::Aci => Some(0xce),
            InstructionCommand::Sui => Some(0xd6),
            InstructionCommand::Sbi => Some(0xde),
            InstructionCommand::Ani => Some(0xe6),
            InstructionCommand::Xri => Some(0xee),
            InstructionCommand::Ori => Some(0xf6),
            InstructionCommand::Cpi => Some(0xfe),
            _ => None,
        },
        Instruction::Intermediate16Bit(c, p, _) => match c {
            InstructionCommand::Lxi => Some(pair_code_of(p) * 16 + 1),
            _ => None,
        },
        Instruction::Intermediate16BitNoReg(c, _) => match c {
            InstructionCommand::Shld => Some(0x22),
            InstructionCommand::Lhld => Some(0x2a),
            InstructionCommand::Sta => Some(0x32),
            InstructionCommand::Lda => Some(0x3a),
            _ => None,
        },
        Instruction::IntermediateRegister(c, _, r) => match c {
            InstructionCommand::Mvi => Some(reg_code_of(r) * 8 + 6),
            _ => None,
        },
        Instruction::PairRegister(c, p) => {
            let pc = pair_code_of(p) * 16;
            let is_sp = match p {
                InstructionRegisterPair::SP => true,
                _ => false,
            };
            match c {
                InstructionCommand::Stax => Some(pc + 0x02),
                InstructionCommand::Inx => Some(pc + 0x03),
                InstructionCommand::Dad => Some(pc + 0x09),
                InstructionCommand::Ldax => Some(pc + 0x0a),
                InstructionCommand::Dcx => Some(pc + 0x0b),
                InstructionCommand::Push => if is_sp {
                    None
                } else {
                    Some(0xc5 + pc)
                },
                InstructionCommand::Pop => if is_sp {
                    None
                } else {
                    Some(0xc1 + pc)
                },
                _ => None,
            }
        },
        Instruction::Label(c, _) => match c {
            InstructionCommand::Jmp => Some(0xc3),
            InstructionCommand::Jnc => Some(0xd2),
            InstructionCommand::Jc => Some(0xda),
            InstructionCommand::Jz => Some(0xca),
            _ => None,
        },
    }
}

/// The eight bits of the two's-complement byte `value`, most significant first.
pub fn int_to_binary(value: i8) -> (bits: Vec<u8>)
    ensures
        bits@ == bits8(byte_of(value)),
{
    let mut bits = Vec::new();
    push_bits8(&mut bits, to_byte(value));
    assert(bits@ =~= bits8(byte_of(value)));
    bits
}

/// The sixteen bits of the two's-complement word `value`, most significant first.
pub fn int_to_binary_16_bit(value: i16) -> (bits: Vec<u8>)
    ensures
        bits@ == bits16(word_of(value)),
{
    let w = to_word(value);
    let mut bits = Vec::new();
    push_bits8(&mut bits, (w / 256) as u8);
    push_bits8(&mut bits, (w % 256) as u8);
    assert(bits@ =~= bits16(word_of(value)));
    bits
}

/// The byte that `binary_to_int` has built after reading the first `n` entries of `s`:
/// each entry is or-ed into the low bit, and every entry but the one at position 7 is
/// followed by a shift left by one.
pub open spec fn binary_prefix(s: Seq<u8>, n: int) -> u8
    decreases n,
{
    if n <= 0 {
        0
    } else {
        let r = binary_prefix(s, n - 1) | s[n - 1];
        if n - 1 != 7 {
            ((r as int * 2) % 256) as u8
        } else {
            r
        }
    }
}

/// Reads a sequence of bits, most significant first, as a two's-complement byte. Eight
/// bits, each 0 or 1, read as the signed byte whose unsigned value is the sum of each bit
/// times its power of two.
pub fn binary_to_int(intermediate: &[u8]) -> (value: i8)
    ensures
        value == i8_of(binary_prefix(intermediate@, intermediate@.len() as int) as int),
        is_bit_octet(intermediate@) ==> value == i8_of(octet_value(intermediate@)),
{
    proof {
        if is_bit_octet(intermediate@) {
            super::roundtrip::lemma_binary_prefix_octet(intermediate@);
        }
    }
    let mut result: u8 = 0;
    let mut i: usize = 0;
    while i < intermediate.len()
        invariant
            i <= intermediate@.len(),
            result == binary_prefix(intermediate@, i as int),
        decreases intermediate@.len() - i,
    {
        result = result | intermediate[i];
        if i != 7 {
            result = ((result as u16 * 2) % 256) as u8;
        }
        i = i + 1;
    }
    from_byte(result)
}

} // verus!
