use vstd::prelude::*;
use crate::bits::{byte_of, i8_of, is_bit_octet, octet_value, word_of};
use super::roundtrip::lemma_binary_prefix_octet;
use super::parser::{binary_prefix, binary_to_int, Instruction, InstructionCommand, InstructionRegister, InstructionRegisterPair};

verus! {

/// A label of the source: its name and the index of the instruction it stands before.
#[derive(Debug)]
pub struct Label {
    pub name: Vec<u8>,
    pub position: usize,
}

impl View for Label {
    type V = (Seq<u8>, usize);

    open spec fn view(&self) -> (Seq<u8>, usize) {
        (self.name@, self.position)
    }
}

/// Whether two byte strings are equal.
pub fn bytes_equal(a: &[u8], b: &[u8]) -> (same: bool)
    ensures
        same == (a@ == b@),
{
    if a.len() != b.len() {
        return false;
    }
    let mut k: usize = 0;
    while k < a.len()
        invariant
            a@.len() == b@.len(),
            k <= a@.len(),
            forall|j: int| 0 <= j < k ==> a@[j] == b@[j],
        decreases a@.len() - k,
    {
        if a[k] != b[k] {
            return false;
        }
        k = k + 1;
    }
    assert(a@ =~= b@);
    true
}

impl PartialEq for Label {
    /// Two labels are equal where their names are.
    fn eq(&self, other: &Self) -> (same: bool) {
        bytes_equal(self.name.as_slice(), other.name.as_slice())
    }
}

impl vstd::std_specs::cmp::PartialEqSpecImpl for Label {
    open spec fn obeys_eq_spec() -> bool {
        true
    }

    open spec fn eq_spec(&self, other: &Label) -> bool {
        self.name@ == other.name@
    }
}

/// Why a source text does not assemble.
#[derive(Debug, Clone, Copy, PartialEq, Eq, Structural)]
pub enum AssembleError {
    /// A label's name is already taken by an earlier label.
    DuplicateLabel,
    /// A label is named like a mnemonic or a register.
    ReservedLabel,
    /// A label stands without an instruction after it.
    MissingCommand,
    /// The command is not a mnemonic.
    UnknownCommand,
    /// An operand that should name a register does not.
    UnknownRegister,
    /// An operand that should name a register pair names another register.
    InvalidRegisterPair,
    /// The command has too few or too many operands.
    WrongOperandCount,
    /// A 16-bit immediate has fewer than sixteen digits.
    ShortImmediate,
}

/// The operands a command takes.
#[derive(Debug, Clone, Copy, PartialEq, Eq, Structural)]
pub enum OperandShape {
    /// None (STC, CMC, CMA, RLC, RRC, RAL, RAR, DAA, XCHG, SPHL, XTHL, PCHL, HLT).
    NoRegister,
    /// One register (ADD, ADC, SUB, SBB, ANA, XRA, ORA, CMP, INR, DCR).
    SingleRegister,
    /// Two registers (MOV).
    DoubleRegister,
    /// An 8-bit immediate (ADI, ACI, SUI, SBI, ANI, XRI, ORI, CPI).
    Intermediate,
    /// A register pair and a 16-bit immediate (LXI).
    Intermediate16Bit,
    /// A 16-bit address (STA, LDA, SHLD, LHLD).
    Intermediate16BitNoReg,
    /// A register and an 8-bit immediate (MVI).
    IntermediateRegister,
    /// A register pair (STAX, LDAX, DCX, INX, DAD, PUSH, POP).
    PairRegister,
    /// A 16-bit jump target (JMP, JC, JNC, JZ).
    Label,
}

/// The operands `c` takes.
pub open spec fn shape_of(c: InstructionCommand) -> OperandShape {
    match c {
        InstructionCommand::Mvi => OperandShape::IntermediateRegister,
        InstructionCommand::Mov => OperandShape::DoubleRegister,
        InstructionCommand::Lxi => OperandShape::Intermediate16Bit,
        InstructionCommand::Add | InstructionCommand::Adc | InstructionCommand::Sub
        | InstructionCommand::Sbb | InstructionCommand::Ana | InstructionCommand::Xra
        | InstructionCommand::Ora | InstructionCommand::Cmp | InstructionCommand::Inr
        | InstructionCommand::Dcr => OperandShape::SingleRegister,
        InstructionCommand::Adi | InstructionCommand::Aci | InstructionCommand::Sui
        | InstructionCommand::Sbi | InstructionCommand::Ani | InstructionCommand::Xri
        | InstructionCommand::Ori | InstructionCommand::Cpi => OperandShape::Intermediate,
        InstructionCommand::Stax | InstructionCommand::Ldax | InstructionCommand::Dcx
        | InstructionCommand::Inx | InstructionCommand::Dad | InstructionCommand::Push
        | InstructionCommand::Pop => OperandShape::PairRegister,
        InstructionCommand::Sta | InstructionCommand::Lda | InstructionCommand::Shld
        | InstructionCommand::Lhld => OperandShape::Intermediate16BitNoReg,
        InstructionCommand::Jmp | InstructionCommand::Jc | InstructionCommand::Jnc
        | InstructionCommand::Jz => OperandShape::Label,
        _ => OperandShape::NoRegister,
    }
}

/// The number of operands a shape has.
pub open spec fn operand_count(s: OperandShape) -> int {
    match s {
        OperandShape::NoRegister => 0,
        OperandShape::SingleRegister => 1,
        OperandShape::Intermediate => 1,
        OperandShape::PairRegister => 1,
        OperandShape::Intermediate16BitNoReg => 1,
        OperandShape::Label => 1,
        _ => 2,
    }
}

/// The operands `c` takes.
pub fn shape_of_command(c: InstructionCommand) -> (s: OperandShape)
    ensures
        s == shape_of(c),
{
    match c {
        InstructionCommand::Mvi => OperandShape::IntermediateRegister,
        InstructionCommand::Mov => OperandShape::DoubleRegister,
        InstructionCommand::Lxi => OperandShape::Intermediate16Bit,
        InstructionCommand::Add | InstructionCommand::Adc | InstructionCommand::Sub
        | InstructionCommand::Sbb | InstructionCommand::Ana | InstructionCommand::Xra
        | InstructionCommand::Ora | InstructionCommand::Cmp | InstructionCommand::Inr
        | InstructionCommand::Dcr => OperandShape::SingleRegister,
        InstructionCommand::Adi | InstructionCommand::Aci | InstructionCommand::Sui
        | InstructionCommand::Sbi | InstructionCommand::Ani | InstructionCommand::Xri
        | InstructionCommand::Ori | InstructionCommand::Cpi => OperandShape::Intermediate,
        InstructionCommand::Stax | InstructionCommand::Ldax | InstructionCommand::Dcx
        | InstructionCommand::Inx | InstructionCommand::Dad | InstructionCommand::Push
        | InstructionCommand::Pop => OperandShape::PairRegister,
        InstructionCommand::Sta | InstructionCommand::Lda | InstructionCommand::Shld
        | InstructionCommand::Lhld => OperandShape::Intermediate16BitNoReg,
        InstructionCommand::Jmp | InstructionCommand::Jc | InstructionCommand::Jnc
        | InstructionCommand::Jz => OperandShape::Label,
        _ => OperandShape::NoRegister,
    }
}

/// The mnemonic of a command, in upper-case ASCII.
pub open spec fn spec_mnemonic(c: InstructionCommand) -> Seq<u8> {
    match c {
        InstructionCommand::Mvi => seq!['M' as u8, 'V' as u8, 'I' as u8],
        InstructionCommand::Mov => seq!['M' as u8, 'O' as u8, 'V' as u8],
        InstructionCommand::Add => seq!['A' as u8, 'D' as u8, 'D' as u8],
        InstructionCommand::Adc => seq!['A' as u8, 'D' as u8, 'C' as u8],
        InstructionCommand::Adi => seq!['A' as u8, 'D' as u8, 'I' as u8],
        InstructionCommand::Aci => seq!['A' as u8, 'C' as u8, 'I' as u8],
        InstructionCommand::Sui => seq!['S' as u8, 'U' as u8, 'I' as u8],
        InstructionCommand::Sub => seq!['S' as u8, 'U' as u8, 'B' as u8],
        InstructionCommand::Inr => seq!['I' as u8, 'N' as u8, 'R' as u8],
        InstructionCommand::Dcr => seq!['D' as u8, 'C' as u8, 'R' as u8],
        InstructionCommand::Ana => seq!['A' as u8, 'N' as u8, 'A' as u8],
        InstructionCommand::Stc => seq!['S' as u8, 'T' as u8, 'C' as u8],
        InstructionCommand::Cmc => seq!['C' as u8, 'M' as u8, 'C' as u8],
        InstructionCommand::Cma => seq!['C' as u8, 'M' as u8, 'A' as u8],
        InstructionCommand::Rlc => seq!['R' as u8, 'L' as u8, 'C' as u8],
        InstructionCommand::Rrc => seq!['R' as u8, 'R' as u8, 'C' as u8],
        InstructionCommand::Ral => seq!['R' as u8, 'A' as u8, 'L' as u8],
        InstructionCommand::Rar => seq!['R' as u8, 'A' as u8, 'R' as u8],
        InstructionCommand::Ora => seq!['O' as u8, 'R' as u8, 'A' as u8],
        InstructionCommand::Daa => seq!['D' as u8, 'A' as u8, 'A' as u8],
        InstructionCommand::Stax => seq!['S' as u8, 'T' as u8, 'A' as u8, 'X' as u8],
        InstructionCommand::Ldax => seq!['L' as u8, 'D' as u8, 'A' as u8, 'X' as u8],
        InstructionCommand::Cmp => seq!['C' as u8, 'M' as u8, 'P' as u8],
        InstructionCommand::Xra => seq!['X' as u8, 'R' as u8, 'A' as u8],
        InstructionCommand::Sbb => seq!['S' as u8, 'B' as u8, 'B' as u8],
        InstructionCommand::Xchg => seq!['X' as u8, 'C' as u8, 'H' as u8, 'G' as u8],
        InstructionCommand::Sphl => seq!['S' as u8, 'P' as u8, 'H' as u8, 'L' as u8],
        InstructionCommand::Xthl => seq!['X' as u8, 'T' as u8, 'H' as u8, 'L' as u8],
        InstructionCommand::Dcx => seq!['D' as u8, 'C' as u8, 'X' as u8],
        InstructionCommand::Inx => seq!['I' as u8, 'N' as u8, 'X' as u8],
        InstructionCommand::Dad => seq!['D' as u8, 'A' as u8, 'D' as u8],
        InstructionCommand::Push => seq!['P' as u8, 'U' as u8, 'S' as u8, 'H' as u8],
        InstructionCommand::Pop => seq!['P' as u8, 'O' as u8, 'P' as u8],
        InstructionCommand::Ori => seq!['O' as u8, 'R' as u8, 'I' as u8],
        InstructionCommand::Xri => seq!['X' as u8, 'R' as u8, 'I' as u8],
        InstructionCommand::Ani => seq!['A' as u8, 'N' as u8, 'I' as u8],
        InstructionCommand::Cpi => seq!['C' as u8, 'P' as u8, 'I' as u8],
        InstructionCommand::Sbi => seq!['S' as u8, 'B' as u8, 'I' as u8],
        InstructionCommand::Lxi => seq!['L' as u8, 'X' as u8, 'I' as u8],
        InstructionCommand::Sta => seq!['S' as u8, 'T' as u8, 'A' as u8],
        InstructionCommand::Lda => seq!['L' as u8, 'D' as u8, 'A' as u8],
        InstructionCommand::Shld => seq!['S' as u8, 'H' as u8, 'L' as u8, 'D' as u8],
        InstructionCommand::Lhld => seq!['L' as u8, 'H' as u8, 'L' as u8, 'D' as u8],
        InstructionCommand::Pchl => seq!['P' as u8, 'C' as u8, 'H' as u8, 'L' as u8],
        InstructionCommand::Jmp => seq!['J' as u8, 'M' as u8, 'P' as u8],
        InstructionCommand::Jc => seq!['J' as u8, 'C' as u8],
        InstructionCommand::Jnc => seq!['J' as u8, 'N' as u8, 'C' as u8],
        InstructionCommand::Jz => seq!['J' as u8, 'Z' as u8],
        InstructionCommand::Hlt => seq!['H' as u8, 'L' as u8, 'T' as u8],
    }
}

/// The mnemonic of a command, in upper-case ASCII.
pub fn mnemonic(c: InstructionCommand) -> (text: Vec<u8>)
    ensures
        text@ == spec_mnemonic(c),
{
    match c {
        InstructionCommand::Mvi => vec!['M' as u8, 'V' as u8, 'I' as u8],
        InstructionCommand::Mov => vec!['M' as u8, 'O' as u8, 'V' as u8],
        InstructionCommand::Add => vec!['A' as u8, 'D' as u8, 'D' as u8],
        InstructionCommand::Adc => vec!['A' as u8, 'D' as u8, 'C' as u8],
        InstructionCommand::Adi => vec!['A' as u8, 'D' as u8, 'I' as u8],
        InstructionCommand::Aci => vec!['A' as u8, 'C' as u8, 'I' as u8],
        InstructionCommand::Sui => vec!['S' as u8, 'U' as u8, 'I' as u8],
        InstructionCommand::Sub => vec!['S' as u8, 'U' as u8, 'B' as u8],
        InstructionCommand::Inr => vec!['I' as u8, 'N' as u8, 'R' as u8],
        InstructionCommand::Dcr => vec!['D' as u8, 'C' as u8, 'R' as u8],
        InstructionCommand::Ana => vec!['A' as u8, 'N' as u8, 'A' as u8],
        InstructionCommand::Stc => vec!['S' as u8, 'T' as u8, 'C' as u8],
        InstructionCommand::Cmc => vec!['C' as u8, 'M' as u8, 'C' as u8],
        InstructionCommand::Cma => vec!['C' as u8, 'M' as u8, 'A' as u8],
        InstructionCommand::Rlc => vec!['R' as u8, 'L' as u8, 'C' as u8],
        InstructionCommand::Rrc => vec!['R' as u8, 'R' as u8, 'C' as u8],
        InstructionCommand::Ral => vec!['R' as u8, 'A' as u8, 'L' as u8],
        InstructionCommand::Rar => vec!['R' as u8, 'A' as u8, 'R' as u8],
        InstructionCommand::Ora => vec!['O' as u8, 'R' as u8, 'A' as u8],
        InstructionCommand::Daa => vec!['D' as u8, 'A' as u8, 'A' as u8],
        InstructionCommand::Stax => vec!['S' as u8, 'T' as u8, 'A' as u8, 'X' as u8],
        InstructionCommand::Ldax => vec!['L' as u8, 'D' as u8, 'A' as u8, 'X' as u8],
        InstructionCommand::Cmp => vec!['C' as u8, 'M' as u8, 'P' as u8],
        InstructionCommand::Xra => vec!['X' as u8, 'R' as u8, 'A' as u8],
        InstructionCommand::Sbb => vec!['S' as u8, 'B' as u8, 'B' as u8],
        InstructionCommand::Xchg => vec!['X' as u8, 'C' as u8, 'H' as u8, 'G' as u8],
        InstructionCommand::Sphl => vec!['S' as u8, 'P' as u8, 'H' as u8, 'L' as u8],
        InstructionCommand::Xthl => vec!['X' as u8, 'T' as u8, 'H' as u8, 'L' as u8],
        InstructionCommand::Dcx => vec!['D' as u8, 'C' as u8, 'X' as u8],
        InstructionCommand::Inx => vec!['I' as u8, 'N' as u8, 'X' as u8],
        InstructionCommand::Dad => vec!['D' as u8, 'A' as u8, 'D' as u8],
        InstructionCommand::Push => vec!['P' as u8, 'U' as u8, 'S' as u8, 'H' as u8],
        InstructionCommand::Pop => vec!['P' as u8, 'O' as u8, 'P' as u8],
        InstructionCommand::Ori => vec!['O' as u8, 'R' as u8, 'I' as u8],
        InstructionCommand::Xri => vec!['X' as u8, 'R' as u8, 'I' as u8],
        InstructionCommand::Ani => vec!['A' as u8, 'N' as u8, 'I' as u8],
        InstructionCommand::Cpi => vec!['C' as u8, 'P' as u8, 'I' as u8],
        InstructionCommand::Sbi => vec!['S' as u8, 'B' as u8, 'I' as u8],
        InstructionCommand::Lxi => vec!['L' as u8, 'X' as u8, 'I' as u8],
        InstructionCommand::Sta => vec!['S' as u8, 'T' as u8, 'A' as u8],
        InstructionCommand::Lda => vec!['L' as u8, 'D' as u8, 'A' as u8],
        InstructionCommand::Shld => vec!['S' as u8, 'H' as u8, 'L' as u8, 'D' as u8],
        InstructionCommand::Lhld => vec!['L' as u8, 'H' as u8, 'L' as u8, 'D' as u8],
        InstructionCommand::Pchl => vec!['P' as u8, 'C' as u8, 'H' as u8, 'L' as u8],
        InstructionCommand::Jmp => vec!['J' as u8, 'M' as u8, 'P' as u8],
        InstructionCommand::Jc => vec!['J' as u8, 'C' as u8],
        InstructionCommand::Jnc => vec!['J' as u8, 'N' as u8, 'C' as u8],
        InstructionCommand::Jz => vec!['J' as u8, 'Z' as u8],
        InstructionCommand::Hlt => vec!['H' as u8, 'L' as u8, 'T' as u8],
    }
}

/// Every command, in one list.
fn all_commands() -> (cs: Vec<InstructionCommand>)
    ensures
        forall|c: InstructionCommand| #[trigger] cs@.contains(c),
{
    let cs = vec![
        InstructionCommand::Mvi, InstructionCommand::Mov, InstructionCommand::Add,
        InstructionCommand::Adc, InstructionCommand::Adi, InstructionCommand::Aci,
        InstructionCommand::Sui, InstructionCommand::Sub, InstructionCommand::Inr,
        InstructionCommand::Dcr, InstructionCommand::Ana, InstructionCommand::Stc,
        InstructionCommand::Cmc, InstructionCommand::Cma, InstructionCommand::Rlc,
        InstructionCommand::Rrc, InstructionCommand::Ral, InstructionCommand::Rar,
        InstructionCommand::Ora, InstructionCommand::Daa, InstructionCommand::Stax,
        InstructionCommand::Ldax, InstructionCommand::Cmp, InstructionCommand::Xra,
        InstructionCommand::Sbb, InstructionCommand::Xchg, InstructionCommand::Sphl,
        InstructionCommand::Xthl, InstructionCommand::Dcx, InstructionCommand::Inx,
        InstructionCommand::Dad, InstructionCommand::Push, InstructionCommand::Pop,
        InstructionCommand::Ori, InstructionCommand::Xri, InstructionCommand::Ani,
        InstructionCommand::Cpi, InstructionCommand::Sbi, InstructionCommand::Lxi,
        InstructionCommand::Sta, InstructionCommand::Lda, InstructionCommand::Shld,
        InstructionCommand::Lhld, InstructionCommand::Pchl, InstructionCommand::Jmp,
        InstructionCommand::Jc, InstructionCommand::Jnc, InstructionCommand::Jz,
        InstructionCommand::Hlt,
    ];
    assert forall|c: InstructionCommand| #[trigger] cs@.contains(c) by {
        let k: int = match c {
            InstructionCommand::Mvi => 0,
            InstructionCommand::Mov => 1,
            InstructionCommand::Add => 2,
            InstructionCommand::Adc => 3,
            InstructionCommand::Adi => 4,
            InstructionCommand::Aci => 5,
            InstructionCommand::Sui => 6,
            InstructionCommand::Sub => 7,
            InstructionCommand::Inr => 8,
            InstructionCommand::Dcr => 9,
            InstructionCommand::Ana => 10,
            InstructionCommand::Stc => 11,
            InstructionCommand::Cmc => 12,
            InstructionCommand::Cma => 13,
            InstructionCommand::Rlc => 14,
            InstructionCommand::Rrc => 15,
            InstructionCommand::Ral => 16,
            InstructionCommand::Rar => 17,
            InstructionCommand::Ora => 18,
            InstructionCommand::Daa => 19,
            InstructionCommand::Stax => 20,
            InstructionCommand::Ldax => 21,
            InstructionCommand::Cmp => 22,
            InstructionCommand::Xra => 23,
            InstructionCommand::Sbb => 24,
            InstructionCommand::Xchg => 25,
            InstructionCommand::Sphl => 26,
            InstructionCommand::Xthl => 27,
            InstructionCommand::Dcx => 28,
            InstructionCommand::Inx => 29,
            InstructionCommand::Dad => 30,
            InstructionCommand::Push => 31,
            InstructionCommand::Pop => 32,
            InstructionCommand::Ori => 33,
            InstructionCommand::Xri => 34,
            InstructionCommand::Ani => 35,
            InstructionCommand::Cpi => 36,
            InstructionCommand::Sbi => 37,
            InstructionCommand::Lxi => 38,
            InstructionCommand::Sta => 39,
            InstructionCommand::Lda => 40,
            InstructionCommand::Shld => 41,
            InstructionCommand::Lhld => 42,
            InstructionCommand::Pchl => 43,
            InstructionCommand::Jmp => 44,
            InstructionCommand::Jc => 45,
            InstructionCommand::Jnc => 46,
            InstructionCommand::Jz => 47,
            InstructionCommand::Hlt => 48,
        };
        assert(cs@[k] == c);
    }
    cs
}

/// Whether `t` is the mnemonic of some command.
pub open spec fn is_mnemonic(t: Seq<u8>) -> bool {
    exists|c: InstructionCommand| spec_mnemonic(c) == t
}

/// The command whose mnemonic is `token`, if any.
pub fn command_from_token(token: &[u8]) -> (c: Option<InstructionCommand>)
    ensures
        c matches Some(x) ==> spec_mnemonic(x) == token@,
        c is None <==> !is_mnemonic(token@),
{
    let cs = all_commands();
    let mut k: usize = 0;
    while k < cs.len()
        invariant
            k <= cs@.len(),
            forall|c: InstructionCommand| #[trigger] cs@.contains(c),
            forall|j: int| 0 <= j < k ==> spec_mnemonic(#[trigger] cs@[j]) != token@,
        decreases cs@.len() - k,
    {
        let text = mnemonic(cs[k]);
        if bytes_equal(text.as_slice(), token) {
            return Some(cs[k]);
        }
        k = k + 1;
    }
    assert forall|c: InstructionCommand| spec_mnemonic(c) != token@ by {
        assert(cs@.contains(c));
        let j = choose|j: int| 0 <= j < cs@.len() && cs@[j] == c;
        assert(spec_mnemonic(cs@[j]) != token@);
    }
    None
}

/// The name of a register: its letter.
pub open spec fn register_name(r: InstructionRegister) -> Seq<u8> {
    match r {
        InstructionRegister::A => seq!['A' as u8],
        InstructionRegister::B => seq!['B' as u8],
        InstructionRegister::C => seq!['C' as u8],
        InstructionRegister::D => seq!['D' as u8],
        InstructionRegister::E => seq!['E' as u8],
        InstructionRegister::H => seq!['H' as u8],
        InstructionRegister::L => seq!['L' as u8],
        InstructionRegister::M => seq!['M' as u8],
    }
}

/// The register named by `t`, if any.
pub open spec fn register_of_name(t: Seq<u8>) -> Option<InstructionRegister> {
    if t.len() != 1 {
        None
    } else if t[0] == 'A' as u8 {
        Some(InstructionRegister::A)
    } else if t[0] == 'B' as u8 {
        Some(InstructionRegister::B)
    } else if t[0] == 'C' as u8 {
        Some(InstructionRegister::C)
    } else if t[0] == 'D' as u8 {
        Some(InstructionRegister::D)
    } else if t[0] == 'E' as u8 {
        Some(InstructionRegister::E)
    } else if t[0] == 'H' as u8 {
        Some(InstructionRegister::H)
    } else if t[0] == 'L' as u8 {
        Some(InstructionRegister::L)
    } else if t[0] == 'M' as u8 {
        Some(InstructionRegister::M)
    } else {
        None
    }
}

/// The register named by `token`, if any.
pub fn register_from_token(token: &[u8]) -> (r: Option<InstructionRegister>)
    ensures
        r == register_of_name(token@),
        r matches Some(x) ==> register_name(x) == token@,
{
    if token.len() != 1 {
        return None;
    }
    let b = token[0];
    let r = if b == 'A' as u8 {
        Some(InstructionRegister::A)
    } else if b == 'B' as u8 {
        Some(InstructionRegister::B)
    } else if b == 'C' as u8 {
        Some(InstructionRegister::C)
    } else if b == 'D' as u8 {
        Some(InstructionRegister::D)
    } else if b == 'E' as u8 {
        Some(InstructionRegister::E)
    } else if b == 'H' as u8 {
        Some(InstructionRegister::H)
    } else if b == 'L' as u8 {
        Some(InstructionRegister::L)
    } else if b == 'M' as u8 {
        Some(InstructionRegister::M)
    } else {
        None
    };
    proof {
        if let Some(x) = r {
            assert(register_name(x) =~= token@);
        }
    }
    r
}

/// The register pair named by `t`: SP, PSW (for FA), or the register B, D or H naming BC,
/// DE or HL. Another register is refused, and so is anything else.
pub open spec fn pair_of_name(t: Seq<u8>) -> Result<InstructionRegisterPair, AssembleError> {
    if t == seq!['S' as u8, 'P' as u8] {
        Ok(InstructionRegisterPair::SP)
    } else if t == seq!['P' as u8, 'S' as u8, 'W' as u8] {
        Ok(InstructionRegisterPair::FA)
    } else {
        match register_of_name(t) {
            Some(InstructionRegister::B) => Ok(InstructionRegisterPair::BC),
            Some(InstructionRegister::D) => Ok(InstructionRegisterPair::DE),
            Some(InstructionRegister::H) => Ok(InstructionRegisterPair::HL),
            Some(_) => Err(AssembleError::InvalidRegisterPair),
            None => Err(AssembleError::UnknownRegister),
        }
    }
}

/// The register pair named by `token`.
pub fn pair_from_token(token: &[u8]) -> (p: Result<InstructionRegisterPair, AssembleError>)
    ensures
        p == pair_of_name(token@),
{
    if token.len() == 2 && token[0] == 'S' as u8 && token[1] == 'P' as u8 {
        assert(token@ =~= seq!['S' as u8, 'P' as u8]);
        return Ok(InstructionRegisterPair::SP);
    }
    assert(token@ != seq!['S' as u8, 'P' as u8]);
    if token.len() == 3 && token[0] == 'P' as u8 && token[1] == 'S' as u8 && token[2] == 'W' as u8 {
        assert(token@ =~= seq!['P' as u8, 'S' as u8, 'W' as u8]);
        return Ok(InstructionRegisterPair::FA);
    }
    assert(token@ != seq!['P' as u8, 'S' as u8, 'W' as u8]);
    match register_from_token(token) {
        Some(InstructionRegister::B) => Ok(InstructionRegisterPair::BC),
        Some(InstructionRegister::D) => Ok(InstructionRegisterPair::DE),
        Some(InstructionRegister::H) => Ok(InstructionRegisterPair::HL),
        Some(_) => Err(AssembleError::InvalidRegisterPair),
        None => Err(AssembleError::UnknownRegister),
    }
}

/// The bits an immediate operand's digits stand for: '0' is 0, any other byte is 1.
pub open spec fn digit_bits(t: Seq<u8>) -> Seq<u8> {
    t.map_values(|b: u8| if b == '0' as u8 { 0u8 } else { 1u8 })
}

/// The bits an immediate operand's digits stand for.
pub fn digits_to_bits(token: &[u8]) -> (bits: Vec<u8>)
    ensures
        bits@ == digit_bits(token@),
{
    let mut bits: Vec<u8> = Vec::new();
    let mut k: usize = 0;
    while k < token.len()
        invariant
            k <= token@.len(),
            bits@ == digit_bits(token@.subrange(0, k as int)),
        decreases token@.len() - k,
    {
        if token[k] == '0' as u8 {
            bits.push(0);
        } else {
            bits.push(1);
        }
        k = k + 1;
        assert(bits@ =~= digit_bits(token@.subrange(0, k as int)));
    }
    assert(token@.subrange(0, token@.len() as int) =~= token@);
    bits
}

/// The signed byte that the bits read, as `binary_to_int` reads them.
pub open spec fn bits_byte(bits: Seq<u8>) -> i8 {
    i8_of(binary_prefix(bits, bits.len() as int) as int)
}

/// The instruction a line's command and operand tokens stand for.
pub open spec fn line_instruction(command: InstructionCommand, operands: Seq<Seq<u8>>) -> Result<Instruction, AssembleError> {
    let shape = shape_of(command);
    if operands.len() != operand_count(shape) {
        Err(AssembleError::WrongOperandCount)
    } else {
        match shape {
            OperandShape::NoRegister => Ok(Instruction::NoRegister(command)),
            OperandShape::SingleRegister => match register_of_name(operands[0]) {
                Some(r) => Ok(Instruction::SingleRegister(command, r)),
                None => Err(AssembleError::UnknownRegister),
            },
            OperandShape::DoubleRegister => match (register_of_name(operands[0]), register_of_name(operands[1])) {
                (Some(r0), Some(r1)) => Ok(Instruction::DoubleRegister(command, (r0, r1))),
                _ => Err(AssembleError::UnknownRegister),
            },
            OperandShape::Intermediate => Ok(Instruction::Intermediate(command, bits_byte(digit_bits(operands[0])))),
            OperandShape::IntermediateRegister => match register_of_name(operands[0]) {
                Some(r) => Ok(Instruction::IntermediateRegister(command, bits_byte(digit_bits(operands[1])), r)),
                None => Err(AssembleError::UnknownRegister),
            },
            OperandShape::PairRegister => match pair_of_name(operands[0]) {
                Ok(p) => Ok(Instruction::PairRegister(command, p)),
                Err(e) => Err(e),
            },
            OperandShape::Intermediate16Bit => match pair_of_name(operands[0]) {
                Err(e) => Err(e),
                Ok(p) => {
                    let bits = digit_bits(operands[1]);
                    if bits.len() < 16 {
                        Err(AssembleError::ShortImmediate)
                    } else {
                        let hi = bits_byte(bits.subrange(0, 8));
                        let lo = bits_byte(bits.subrange(8, 16));
                        Ok(Instruction::Intermediate16Bit(command, p, (hi * 256 + byte_of(lo)) as i16))
                    }
                },
            },
            OperandShape::Intermediate16BitNoReg => {
                let bits = digit_bits(operands[0]);
                if bits.len() < 16 {
                    Err(AssembleError::ShortImmediate)
                } else {
                    let hi = bits_byte(bits.subrange(0, 8));
                    let lo = bits_byte(bits.subrange(8, 16));
                    Ok(Instruction::Intermediate16BitNoReg(command, (hi * 256 + byte_of(lo)) as i16))
                }
            },
            OperandShape::Label => {
                let bits = digit_bits(operands[0]);
                if bits.len() < 16 {
                    Err(AssembleError::ShortImmediate)
                } else {
                    let hi = bits_byte(bits.subrange(0, 8));
                    let lo = bits_byte(bits.subrange(8, 16));
                    Ok(Instruction::Label(command, (byte_of(hi) * 256 + byte_of(lo)) as u16))
                }
            },
        }
    }
}

/// The unsigned value of the first sixteen bits of `b`, most significant first.
pub open spec fn sixteen_bit_value(b: Seq<u8>) -> int {
    256 * octet_value(b.subrange(0, 8)) + octet_value(b.subrange(8, 16))
}

/// Eight digit bits read as the signed byte of their unsigned value.
proof fn lemma_digit_octet(b: Seq<u8>, from: int)
    requires
        0 <= from,
        from + 8 <= b.len(),
        forall|k: int| 0 <= k < b.len() ==> #[trigger] b[k] <= 1,
    ensures
        0 <= octet_value(b.subrange(from, from + 8)) < 256,
        bits_byte(b.subrange(from, from + 8)) == i8_of(octet_value(b.subrange(from, from + 8))),
        byte_of(bits_byte(b.subrange(from, from + 8))) == octet_value(b.subrange(from, from + 8)),
{
    let o = b.subrange(from, from + 8);
    assert(is_bit_octet(o)) by {
        assert forall|k: int| 0 <= k < 8 implies #[trigger] o[k] <= 1 by {
            assert(o[k] == b[from + k]);
        }
    }
    assert(o[0] <= 1 && o[1] <= 1 && o[2] <= 1 && o[3] <= 1);
    assert(o[4] <= 1 && o[5] <= 1 && o[6] <= 1 && o[7] <= 1);
    lemma_binary_prefix_octet(o);
}

/// A 16-bit operand is the unsigned binary number of its first sixteen digits (each digit
/// other than '0' a one), high byte first: a jump with such an operand assembles to that
/// address; STA, LDA, SHLD and LHLD, and LXI with a register pair it accepts, assemble to
/// a word whose unsigned value is that number.
pub proof fn lemma_sixteen_bit_operand(c: InstructionCommand, operands: Seq<Seq<u8>>)
    requires
        operands.len() == operand_count(shape_of(c)),
        digit_bits(operands[operands.len() - 1]).len() >= 16,
    ensures
        ({
            let value = sixteen_bit_value(digit_bits(operands[operands.len() - 1]));
            &&& 0 <= value < 65536
            &&& shape_of(c) == OperandShape::Label ==> line_instruction(c, operands) == Ok::<Instruction, AssembleError>(
                Instruction::Label(c, value as u16),
            )
            &&& shape_of(c) == OperandShape::Intermediate16BitNoReg ==> (line_instruction(c, operands) matches Ok(
                Instruction::Intermediate16BitNoReg(c2, v),
            ) && c2 == c && word_of(v) == value)
            &&& shape_of(c) == OperandShape::Intermediate16Bit && pair_of_name(operands[0]) is Ok
                ==> (line_instruction(c, operands) matches Ok(Instruction::Intermediate16Bit(c2, p, v)) && c2 == c
                && Ok::<InstructionRegisterPair, AssembleError>(p) == pair_of_name(operands[0]) && word_of(v) == value)
        }),
{
    let b = digit_bits(operands[operands.len() - 1]);
    assert forall|k: int| 0 <= k < b.len() implies #[trigger] b[k] <= 1 by {}
    lemma_digit_octet(b, 0);
    lemma_digit_octet(b, 8);
    assert(b.subrange(0, 16).subrange(0, 8) =~= b.subrange(0, 8));
    assert(b.subrange(0, 16).subrange(8, 16) =~= b.subrange(8, 16));
}

/// The signed byte read from the bits `bits[from..to]`.
fn bits_slice_byte(bits: &Vec<u8>, from: usize, to: usize) -> (v: i8)
    requires
        from <= to <= bits@.len(),
    ensures
        v == bits_byte(bits@.subrange(from as int, to as int)),
{
    let mut part: Vec<u8> = Vec::new();
    let mut k: usize = from;
    while k < to
        invariant
            from <= k <= to,
            to <= bits@.len(),
            part@ == bits@.subrange(from as int, k as int),
        decreases to - k,
    {
        part.push(bits[k]);
        k = k + 1;
        assert(part@ =~= bits@.subrange(from as int, k as int));
    }
    binary_to_int(part.as_slice())
}

/// The instruction a line's command and operand tokens stand for.
pub fn build_instruction(command: InstructionCommand, operands: &[Vec<u8>]) -> (instr: Result<Instruction, AssembleError>)
    ensures
        instr == line_instruction(command, operands@.map_values(|t: Vec<u8>| t@)),
{
    let ghost ops = operands@.map_values(|t: Vec<u8>| t@);
    let shape = shape_of_command(command);
    let count: usize = match shape {
        OperandShape::NoRegister => 0,
        OperandShape::SingleRegister => 1,
        OperandShape::Intermediate => 1,
        OperandShape::PairRegister => 1,
        OperandShape::Intermediate16BitNoReg => 1,
        OperandShape::Label => 1,
        _ => 2,
    };
    if operands.len() != count {
        return Err(AssembleError::WrongOperandCount);
    }
    proof {
        if operands@.len() >= 1 {
            assert(ops[0] == operands@[0]@);
        }
        if operands@.len() >= 2 {
            assert(ops[1] == operands@[1]@);
        }
    }
    match shape {
        OperandShape::NoRegister => Ok(Instruction::NoRegister(command)),
        OperandShape::SingleRegister => match register_from_token(operands[0].as_slice()) {
            Some(r) => Ok(Instruction::SingleRegister(command, r)),
            None => Err(AssembleError::UnknownRegister),
        },
        OperandShape::DoubleRegister => {
            let r0 = register_from_token(operands[0].as_slice());
            let r1 = register_from_token(operands[1].as_slice());
            match (r0, r1) {
                (Some(r0), Some(r1)) => Ok(Instruction::DoubleRegister(command, (r0, r1))),
                _ => Err(AssembleError::UnknownRegister),
            }
        },
        OperandShape::Intermediate => {
            let bits = digits_to_bits(operands[0].as_slice());
            Ok(Instruction::Intermediate(command, binary_to_int(bits.as_slice())))
        },
        OperandShape::IntermediateRegister => match register_from_token(operands[0].as_slice()) {
            Some(r) => {
                let bits = digits_to_bits(operands[1].as_slice());
                Ok(Instruction::IntermediateRegister(command, binary_to_int(bits.as_slice()), r))
            },
            None => Err(AssembleError::UnknownRegister),
        },
        OperandShape::PairRegister => match pair_from_token(operands[0].as_slice()) {
            Ok(p) => Ok(Instruction::PairRegister(command, p)),
            Err(e) => Err(e),
        },
        OperandShape::Intermediate16Bit => match pair_from_token(operands[0].as_slice()) {
            Err(e) => Err(e),
            Ok(p) => {
                let bits = digits_to_bits(operands[1].as_slice());
                if bits.len() < 16 {
                    Err(AssembleError::ShortImmediate)
                } else {
                    let hi = bits_slice_byte(&bits, 0, 8);
                    let lo = bits_slice_byte(&bits, 8, 16);
                    let low = crate::bits::to_byte(lo);
                    Ok(Instruction::Intermediate16Bit(command, p, (hi as i16) * 256 + low as i16))
                }
            },
        },
        OperandShape::Intermediate16BitNoReg => {
            let bits = digits_to_bits(operands[0].as_slice());
            if bits.len() < 16 {
                Err(AssembleError::ShortImmediate)
            } else {
                let hi = bits_slice_byte(&bits, 0, 8);
                let lo = bits_slice_byte(&bits, 8, 16);
                let low = crate::bits::to_byte(lo);
                Ok(Instruction::Intermediate16BitNoReg(command, (hi as i16) * 256 + low as i16))
            }
        },
        OperandShape::Label => {
            let bits = digits_to_bits(operands[0].as_slice());
            if bits.len() < 16 {
                Err(AssembleError::ShortImmediate)
            } else {
                let hi = crate::bits::to_byte(bits_slice_byte(&bits, 0, 8));
                let lo = crate::bits::to_byte(bits_slice_byte(&bits, 8, 16));
                Ok(Instruction::Label(command, (hi as u16) * 256 + lo as u16))
            }
        },
    }
}

/// A number that tells mnemonics apart: the length and the first four bytes.
pub open spec fn token_key(t: Seq<u8>) -> int {
    t.len() * 4294967296 + (if t.len() > 0 { t[0] as int } else { 0 }) + 256 * (if t.len() > 1 {
        t[1] as int
    } else {
        0
    }) + 65536 * (if t.len() > 2 { t[2] as int } else { 0 }) + 16777216 * (if t.len() > 3 {
        t[3] as int
    } else {
        0
    })
}

/// The command whose mnemonic has the key `k`.
pub open spec fn command_of_key(k: int) -> Option<InstructionCommand> {
    if k == 12889708109 {
        Some(InstructionCommand::Mvi)
    } else if k == 12890558285 {
        Some(InstructionCommand::Mov)
    } else if k == 12889375809 {
        Some(InstructionCommand::Add)
    } else if k == 12889310273 {
        Some(InstructionCommand::Adc)
    } else if k == 12889703489 {
        Some(InstructionCommand::Adi)
    } else if k == 12889703233 {
        Some(InstructionCommand::Aci)
    } else if k == 12889707859 {
        Some(InstructionCommand::Sui)
    } else if k == 12889249107 {
        Some(InstructionCommand::Sub)
    } else if k == 12890295881 {
        Some(InstructionCommand::Inr)
    } else if k == 12890293060 {
        Some(InstructionCommand::Dcr)
    } else if k == 12889181761 {
        Some(InstructionCommand::Ana)
    } else if k == 12889314387 {
        Some(InstructionCommand::Stc)
    } else if k == 12889312579 {
        Some(InstructionCommand::Cmc)
    } else if k == 12889181507 {
        Some(InstructionCommand::Cma)
    } else if k == 12889312338 {
        Some(InstructionCommand::Rlc)
    } else if k == 12889313874 {
        Some(InstructionCommand::Rrc)
    } else if k == 12889899346 {
        Some(InstructionCommand::Ral)
    } else if k == 12890292562 {
        Some(InstructionCommand::Rar)
    } else if k == 12889182799 {
        Some(InstructionCommand::Ora)
    } else if k == 12889178436 {
        Some(InstructionCommand::Daa)
    } else if k == 18660545619 {
        Some(InstructionCommand::Stax)
    } else if k == 18660541516 {
        Some(InstructionCommand::Ldax)
    } else if k == 12890164547 {
        Some(InstructionCommand::Cmp)
    } else if k == 12889182808 {
        Some(InstructionCommand::Xra)
    } else if k == 12889244243 {
        Some(InstructionCommand::Sbb)
    } else if k == 18375787352 {
        Some(InstructionCommand::Xchg)
    } else if k == 18459676755 {
        Some(InstructionCommand::Sphl)
    } else if k == 18459677784 {
        Some(InstructionCommand::Xthl)
    } else if k == 12890686276 {
        Some(InstructionCommand::Dcx)
    } else if k == 12890689097 {
        Some(InstructionCommand::Inx)
    } else if k == 12889375044 {
        Some(InstructionCommand::Dad)
    } else if k == 18393290064 {
        Some(InstructionCommand::Push)
    } else if k == 12890165072 {
        Some(InstructionCommand::Pop)
    } else if k == 12889707087 {
        Some(InstructionCommand::Ori)
    } else if k == 12889707096 {
        Some(InstructionCommand::Xri)
    } else if k == 12889706049 {
        Some(InstructionCommand::Ani)
    } else if k == 12889706563 {
        Some(InstructionCommand::Cpi)
    } else if k == 12889702995 {
        Some(InstructionCommand::Sbi)
    } else if k == 12889708620 {
        Some(InstructionCommand::Lxi)
    } else if k == 12889183315 {
        Some(InstructionCommand::Sta)
    } else if k == 12889179212 {
        Some(InstructionCommand::Lda)
    } else if k == 18325719123 {
        Some(InstructionCommand::Shld)
    } else if k == 18325719116 {
        Some(InstructionCommand::Lhld)
    } else if k == 18459673424 {
        Some(InstructionCommand::Pchl)
    } else if k == 12890164554 {
        Some(InstructionCommand::Jmp)
    } else if k == 8589951818 {
        Some(InstructionCommand::Jc)
    } else if k == 12889312842 {
        Some(InstructionCommand::Jnc)
    } else if k == 8589957706 {
        Some(InstructionCommand::Jz)
    } else if k == 12890426440 {
        Some(InstructionCommand::Hlt)
    } else {
        None
    }
}

/// Each mnemonic's key leads back to its command.
proof fn lemma_key_of_mnemonic(c: InstructionCommand)
    ensures
        command_of_key(token_key(spec_mnemonic(c))) == Some(c),
{
    match c {
        InstructionCommand::Mvi => {},
        InstructionCommand::Mov => {},
        InstructionCommand::Add => {},
        InstructionCommand::Adc => {},
        InstructionCommand::Adi => {},
        InstructionCommand::Aci => {},
        InstructionCommand::Sui => {},
        InstructionCommand::Sub => {},
        InstructionCommand::Inr => {},
        InstructionCommand::Dcr => {},
        InstructionCommand::Ana => {},
        InstructionCommand::Stc => {},
        InstructionCommand::Cmc => {},
        InstructionCommand::Cma => {},
        InstructionCommand::Rlc => {},
        InstructionCommand::Rrc => {},
        InstructionCommand::Ral => {},
        InstructionCommand::Rar => {},
        InstructionCommand::Ora => {},
        InstructionCommand::Daa => {},
        InstructionCommand::Stax => {},
        InstructionCommand::Ldax => {},
        InstructionCommand::Cmp => {},
        InstructionCommand::Xra => {},
        InstructionCommand::Sbb => {},
        InstructionCommand::Xchg => {},
        InstructionCommand::Sphl => {},
        InstructionCommand::Xthl => {},
        InstructionCommand::Dcx => {},
        InstructionCommand::Inx => {},
        InstructionCommand::Dad => {},
        InstructionCommand::Push => {},
        InstructionCommand::Pop => {},
        InstructionCommand::Ori => {},
        InstructionCommand::Xri => {},
        InstructionCommand::Ani => {},
        InstructionCommand::Cpi => {},
        InstructionCommand::Sbi => {},
        InstructionCommand::Lxi => {},
        InstructionCommand::Sta => {},
        InstructionCommand::Lda => {},
        InstructionCommand::Shld => {},
        InstructionCommand::Lhld => {},
        InstructionCommand::Pchl => {},
        InstructionCommand::Jmp => {},
        InstructionCommand::Jc => {},
        InstructionCommand::Jnc => {},
        InstructionCommand::Jz => {},
        InstructionCommand::Hlt => {},
    }
}

/// No two commands share a mnemonic.
pub proof fn lemma_mnemonic_injective(c1: InstructionCommand, c2: InstructionCommand)
    requires
        spec_mnemonic(c1) == spec_mnemonic(c2),
    ensures
        c1 == c2,
{
    lemma_key_of_mnemonic(c1);
    lemma_key_of_mnemonic(c2);
}

/// The command whose mnemonic is `t`, if any.
pub open spec fn command_of(t: Seq<u8>) -> Option<InstructionCommand> {
    if is_mnemonic(t) {
        Some(choose|c: InstructionCommand| spec_mnemonic(c) == t)
    } else {
        None
    }
}

/// Bytes that separate tokens: space, tab, carriage return and comma.
pub open spec fn is_separator(b: u8) -> bool {
    b == 32 || b == 9 || b == 13 || b == 44
}

/// The tokens of a line with the token being read added, where it is not empty.
pub open spec fn flush(line: Seq<Seq<u8>>, tok: Seq<u8>) -> Seq<Seq<u8>> {
    if tok.len() > 0 {
        line.push(tok)
    } else {
        line
    }
}

/// Reads the source from byte `i` on: lines end at a newline; a semicolon starts a comment
/// that runs to the end of the line; tokens are the runs of bytes between separators.
/// `lines` holds the token lists of the lines read, `line` the tokens of the current line,
/// `tok` the token being read and `comment` whether a comment is being skipped.
pub open spec fn scan(t: Seq<u8>, i: int, lines: Seq<Seq<Seq<u8>>>, line: Seq<Seq<u8>>, tok: Seq<u8>, comment: bool) -> Seq<Seq<Seq<u8>>>
    decreases t.len() - i,
{
    if i >= t.len() {
        lines.push(flush(line, tok))
    } else if t[i] == 10 {
        scan(t, i + 1, lines.push(flush(line, tok)), Seq::empty(), Seq::empty(), false)
    } else if comment {
        scan(t, i + 1, lines, line, tok, true)
    } else if t[i] == 59 {
        scan(t, i + 1, lines, flush(line, tok), Seq::empty(), true)
    } else if is_separator(t[i]) {
        scan(t, i + 1, lines, flush(line, tok), Seq::empty(), false)
    } else {
        scan(t, i + 1, lines, line, tok.push(t[i]), false)
    }
}

/// The token lists of the lines of a source text.
pub open spec fn source_lines(t: Seq<u8>) -> Seq<Seq<Seq<u8>>> {
    scan(t, 0, Seq::empty(), Seq::empty(), Seq::empty(), false)
}

/// The views of a list of tokens.
pub open spec fn tokens_view(v: Seq<Vec<u8>>) -> Seq<Seq<u8>> {
    v.map_values(|t: Vec<u8>| t@)
}

/// The views of a list of token lists.
pub open spec fn lines_view(v: Seq<Vec<Vec<u8>>>) -> Seq<Seq<Seq<u8>>> {
    v.map_values(|l: Vec<Vec<u8>>| tokens_view(l@))
}

/// The grammar of the assembly syntax: lines end at a newline, a semicolon starts a
/// comment that runs to the end of its line, and tokens are the runs of bytes between
/// separators (space, tab, carriage return, comma).
pub struct AssemblyParser;

impl AssemblyParser {
    /// Splits a source text into lines of tokens (see `scan`).
    pub fn tokenize(text: &[u8]) -> (lines: Vec<Vec<Vec<u8>>>)
        ensures
            lines_view(lines@) == source_lines(text@),
    {
        let mut lines: Vec<Vec<Vec<u8>>> = Vec::new();
        let mut line: Vec<Vec<u8>> = Vec::new();
        let mut tok: Vec<u8> = Vec::new();
        let mut comment = false;
        let mut i: usize = 0;
        assert(lines_view(lines@) =~= Seq::<Seq<Seq<u8>>>::empty());
        assert(tokens_view(line@) =~= Seq::<Seq<u8>>::empty());
        while i < text.len()
            invariant
                i <= text@.len(),
                source_lines(text@) == scan(text@, i as int, lines_view(lines@), tokens_view(line@), tok@, comment),
            decreases text@.len() - i,
        {
            let b = text[i];
            let ghost old_lines = lines_view(lines@);
            let ghost old_line = tokens_view(line@);
            let ghost old_tok = tok@;
            let ghost old_comment = comment;
            if b == 10 {
                if tok.len() > 0 {
                    line.push(tok);
                    tok = Vec::new();
                }
                assert(tokens_view(line@) =~= flush(old_line, old_tok));
                assert(tok@ =~= Seq::<u8>::empty());
                lines.push(line);
                line = Vec::new();
                comment = false;
                assert(lines_view(lines@) =~= old_lines.push(flush(old_line, old_tok)));
                assert(tokens_view(line@) =~= Seq::<Seq<u8>>::empty());
            } else if comment {
            } else if b == 59 {
                if tok.len() > 0 {
                    line.push(tok);
                    tok = Vec::new();
                }
                comment = true;
                assert(tokens_view(line@) =~= flush(old_line, old_tok));
                assert(tok@ =~= Seq::<u8>::empty());
            } else if b == 32 || b == 9 || b == 13 || b == 44 {
                if tok.len() > 0 {
                    line.push(tok);
                    tok = Vec::new();
                }
                assert(tokens_view(line@) =~= flush(old_line, old_tok));
                assert(tok@ =~= Seq::<u8>::empty());
            } else {
                tok.push(b);
            }
            assert(scan(text@, i as int, old_lines, old_line, old_tok, old_comment) == scan(text@, i + 1, lines_view(lines@), tokens_view(line@), tok@, comment));
            i = i + 1;
        }
        let ghost old_lines = lines_view(lines@);
        let ghost old_line = tokens_view(line@);
        let ghost old_tok = tok@;
        if tok.len() > 0 {
            line.push(tok);
        }
        assert(tokens_view(line@) =~= flush(old_line, old_tok));
        lines.push(line);
        assert(lines_view(lines@) =~= old_lines.push(flush(old_line, old_tok)));
        lines
    }
}

/// Whether a token declares a label (it ends in a colon).
pub open spec fn is_label_token(t: Seq<u8>) -> bool {
    t.len() > 0 && t.last() == 58
}

/// Whether some label of `labels` has the name `name`.
pub open spec fn label_taken(labels: Seq<(Seq<u8>, usize)>, name: Seq<u8>) -> bool {
    exists|j: int| 0 <= j < labels.len() && (#[trigger] labels[j]).0 == name
}

/// Assembles one line of tokens (not empty) after the instructions and labels so far.
pub open spec fn assemble_line(toks: Seq<Seq<u8>>, instrs: Seq<Instruction>, labels: Seq<(Seq<u8>, usize)>) -> Result<(Seq<Instruction>, Seq<(Seq<u8>, usize)>), AssembleError> {
    let has_label = is_label_token(toks[0]);
    let name = toks[0].drop_last();
    let rest = if has_label {
        toks.drop_first()
    } else {
        toks
    };
    if has_label && label_taken(labels, name) {
        Err(AssembleError::DuplicateLabel)
    } else if has_label && (is_mnemonic(name) || register_of_name(name) is Some) {
        Err(AssembleError::ReservedLabel)
    } else if rest.len() == 0 {
        Err(AssembleError::MissingCommand)
    } else {
        let new_labels = if has_label {
            labels.push((name, instrs.len() as usize))
        } else {
            labels
        };
        match command_of(rest[0]) {
            None => Err(AssembleError::UnknownCommand),
            Some(c) => match line_instruction(c, rest.drop_first()) {
                Err(e) => Err(e),
                Ok(i) => Ok((instrs.push(i), new_labels)),
            },
        }
    }
}

/// Assembles the lines from `k` on after the instructions and labels so far; empty lines
/// are skipped.
pub open spec fn assemble_from(lines: Seq<Seq<Seq<u8>>>, k: int, instrs: Seq<Instruction>, labels: Seq<(Seq<u8>, usize)>) -> Result<(Seq<Instruction>, Seq<(Seq<u8>, usize)>), AssembleError>
    decreases lines.len() - k,
{
    if k >= lines.len() {
        Ok((instrs, labels))
    } else if lines[k].len() == 0 {
        assemble_from(lines, k + 1, instrs, labels)
    } else {
        match assemble_line(lines[k], instrs, labels) {
            Err(e) => Err(e),
            Ok((i2, l2)) => assemble_from(lines, k + 1, i2, l2),
        }
    }
}

/// The instructions and labels of a source text, or why it does not assemble.
pub open spec fn assemble_text(t: Seq<u8>) -> Result<(Seq<Instruction>, Seq<(Seq<u8>, usize)>), AssembleError> {
    assemble_from(source_lines(t), 0, Seq::empty(), Seq::empty())
}

/// The views of a list of labels.
pub open spec fn labels_view(v: Seq<Label>) -> Seq<(Seq<u8>, usize)> {
    v.map_values(|l: Label| l@)
}

/// Whether some label in `labels` is named `name`.
fn has_label_named(labels: &Vec<Label>, name: &[u8]) -> (found: bool)
    ensures
        found == label_taken(labels_view(labels@), name@),
{
    let mut j: usize = 0;
    while j < labels.len()
        invariant
            j <= labels@.len(),
            forall|m: int| 0 <= m < j ==> labels@[m].name@ != name@,
        decreases labels@.len() - j,
    {
        if bytes_equal(labels[j].name.as_slice(), name) {
            assert(labels_view(labels@)[j as int].0 == name@);
            return true;
        }
        j = j + 1;
    }
    assert forall|m: int| 0 <= m < labels_view(labels@).len() implies (#[trigger] labels_view(labels@)[m]).0 != name@ by {
        assert(labels_view(labels@)[m] == labels@[m]@);
    }
    false
}

/// A copy of the bytes of `t`.
fn copy_bytes(t: &[u8]) -> (r: Vec<u8>)
    ensures
        r@ == t@,
{
    let mut r: Vec<u8> = Vec::new();
    let mut k: usize = 0;
    while k < t.len()
        invariant
            k <= t@.len(),
            r@ == t@.subrange(0, k as int),
        decreases t@.len() - k,
    {
        r.push(t[k]);
        k = k + 1;
        assert(r@ =~= t@.subrange(0, k as int));
    }
    assert(r@ =~= t@);
    r
}

/// The bytes of `t` without the last one.
fn drop_last_byte(t: &Vec<u8>) -> (r: Vec<u8>)
    requires
        t@.len() > 0,
    ensures
        r@ == t@.drop_last(),
{
    let mut r: Vec<u8> = Vec::new();
    let mut k: usize = 0;
    while k < t.len() - 1
        invariant
            t@.len() > 0,
            k <= t@.len() - 1,
            r@ == t@.subrange(0, k as int),
        decreases t@.len() - 1 - k,
    {
        r.push(t[k]);
        k = k + 1;
        assert(r@ =~= t@.subrange(0, k as int));
    }
    assert(r@ =~= t@.drop_last());
    r
}

/// The command whose mnemonic is `token`, if any (as `command_of` says).
fn command_of_token(token: &[u8]) -> (c: Option<InstructionCommand>)
    ensures
        c == command_of(token@),
{
    let c = command_from_token(token);
    proof {
        if let Some(x) = c {
            let y = choose|y: InstructionCommand| spec_mnemonic(y) == token@;
            lemma_mnemonic_injective(x, y);
        }
    }
    c
}

/// Assembles one line of tokens (not empty), adding to the instructions and labels.
fn assemble_tokens(toks: &Vec<Vec<u8>>, instrs: &mut Vec<Instruction>, labels: &mut Vec<Label>) -> (r: Result<(), AssembleError>)
    requires
        toks@.len() > 0,
        old(instrs)@.len() < usize::MAX,
    ensures
        match assemble_line(tokens_view(toks@), old(instrs)@, labels_view(old(labels)@)) {
            Ok((i2, l2)) => r is Ok && final(instrs)@ == i2 && labels_view(final(labels)@) == l2,
            Err(e) => r == Err::<(), AssembleError>(e),
        },
{
    let ghost tv = tokens_view(toks@);
    assert(tv[0] == toks@[0]@);
    let first = &toks[0];
    let has_label = first.len() > 0 && first[first.len() - 1] == 58;
    let mut start: usize = 0;
    if has_label {
        let name = drop_last_byte(first);
        if has_label_named(labels, name.as_slice()) {
            return Err(AssembleError::DuplicateLabel);
        }
        let reserved_command = command_from_token(name.as_slice()).is_some();
        let reserved_register = register_from_token(name.as_slice()).is_some();
        if reserved_command || reserved_register {
            return Err(AssembleError::ReservedLabel);
        }
        if toks.len() < 2 {
            return Err(AssembleError::MissingCommand);
        }
        let position = instrs.len();
        let ghost before = labels_view(labels@);
        labels.push(Label { name, position });
        assert(labels_view(labels@) =~= before.push((tv[0].drop_last(), position)));
        start = 1;
    }
    let ghost rest = if has_label { tv.drop_first() } else { tv };
    assert(rest[0] == toks@[start as int]@);
    let command = match command_of_token(toks[start].as_slice()) {
        Some(c) => c,
        None => {
            return Err(AssembleError::UnknownCommand);
        },
    };
    let mut operands: Vec<Vec<u8>> = Vec::new();
    let mut k: usize = start + 1;
    let ghost ops = rest.drop_first();
    assert(ops.len() == toks@.len() - start - 1);
    assert forall|j: int| 0 <= j < ops.len() implies ops[j] == toks@[j + start + 1]@ by {
        assert(tv[j + start + 1] == toks@[j + start + 1]@);
    }
    while k < toks.len()
        invariant
            start + 1 <= k <= toks@.len(),
            ops.len() == toks@.len() - start - 1,
            forall|j: int| 0 <= j < ops.len() ==> ops[j] == toks@[j + start + 1]@,
            tokens_view(operands@) == ops.subrange(0, k - start - 1),
        decreases toks@.len() - k,
    {
        let ghost before = tokens_view(operands@);
        let copy = copy_bytes(toks[k].as_slice());
        assert(ops[k - start - 1] == toks@[k as int]@);
        operands.push(copy);
        assert(tokens_view(operands@) =~= before.push(copy@));
        k = k + 1;
        assert(tokens_view(operands@) =~= ops.subrange(0, k - start - 1));
    }
    assert(tokens_view(operands@) =~= ops);
    match build_instruction(command, operands.as_slice()) {
        Ok(i) => {
            instrs.push(i);
            Ok(())
        },
        Err(e) => Err(e),
    }
}

/// Parses a source text: its instructions in order, and its labels with the index of the
/// instruction each stands before; or why it does not assemble (see `assemble_text`).
pub fn parse(text: &[u8]) -> (r: Result<(Vec<Instruction>, Vec<Label>), AssembleError>)
    ensures
        match assemble_text(text@) {
            Ok((i2, l2)) => r matches Ok((is, ls)) && is@ == i2 && labels_view(ls@) == l2,
            Err(e) => r matches Err(e2) && e2 == e,
        },
{
    let lines = AssemblyParser::tokenize(text);
    let ghost lv = lines_view(lines@);
    let mut instrs: Vec<Instruction> = Vec::new();
    let mut labels: Vec<Label> = Vec::new();
    let mut k: usize = 0;
    assert(labels_view(labels@) =~= Seq::<(Seq<u8>, usize)>::empty());
    while k < lines.len()
        invariant
            lv == lines_view(lines@),
            lv == source_lines(text@),
            k <= lines@.len(),
            instrs@.len() <= k,
            assemble_text(text@) == assemble_from(lv, k as int, instrs@, labels_view(labels@)),
        decreases lines@.len() - k,
    {
        assert(lv[k as int] == tokens_view(lines@[k as int]@));
        if lines[k].len() > 0 {
            match assemble_tokens(&lines[k], &mut instrs, &mut labels) {
                Ok(()) => {},
                Err(e) => {
                    return Err(e);
                },
            }
        }
        k = k + 1;
    }
    Ok((instrs, labels))
}

/// Whether the labels have pairwise distinct names, each names an instruction (its
/// position is below `count`), and the positions do not decrease.
pub open spec fn labels_sound(labels: Seq<(Seq<u8>, usize)>, count: int) -> bool {
    &&& forall|a: int, b: int| 0 <= a < b < labels.len() ==> (#[trigger] labels[a]).0 != (#[trigger] labels[b]).0
    &&& forall|a: int| 0 <= a < labels.len() ==> (#[trigger] labels[a]).1 < count
    &&& forall|a: int, b: int| 0 <= a < b < labels.len() ==> (#[trigger] labels[a]).1 <= (#[trigger] labels[b]).1
}

/// Whether an instruction that the assembler produced has a binary form: it does unless
/// it is PUSH or POP naming SP.
pub open spec fn assembled_encodable(i: Instruction) -> bool {
    i.encodable() || i == Instruction::PairRegister(InstructionCommand::Push, InstructionRegisterPair::SP)
        || i == Instruction::PairRegister(InstructionCommand::Pop, InstructionRegisterPair::SP)
}

proof fn lemma_line_instruction_encodable(c: InstructionCommand, operands: Seq<Seq<u8>>)
    ensures
        line_instruction(c, operands) matches Ok(i) ==> assembled_encodable(i),
{
}

/// Reading from byte `i` on adds at most one line per byte left, and one more.
proof fn lemma_scan_len(t: Seq<u8>, i: int, lines: Seq<Seq<Seq<u8>>>, line: Seq<Seq<u8>>, tok: Seq<u8>, comment: bool)
    requires
        0 <= i <= t.len(),
    ensures
        scan(t, i, lines, line, tok, comment).len() <= lines.len() + t.len() - i + 1,
    decreases t.len() - i,
{
    if i < t.len() {
        if t[i] == 10 {
            lemma_scan_len(t, i + 1, lines.push(flush(line, tok)), Seq::empty(), Seq::empty(), false);
        } else if comment {
            lemma_scan_len(t, i + 1, lines, line, tok, true);
        } else if t[i] == 59 {
            lemma_scan_len(t, i + 1, lines, flush(line, tok), Seq::empty(), true);
        } else if is_separator(t[i]) {
            lemma_scan_len(t, i + 1, lines, flush(line, tok), Seq::empty(), false);
        } else {
            lemma_scan_len(t, i + 1, lines, line, tok.push(t[i]), false);
        }
    }
}

/// One line keeps the labels sound: a new label is distinct from the earlier ones and
/// names the instruction its line adds.
proof fn lemma_line_labels_sound(toks: Seq<Seq<u8>>, instrs: Seq<Instruction>, labels: Seq<(Seq<u8>, usize)>)
    requires
        toks.len() > 0,
        instrs.len() < usize::MAX,
        labels_sound(labels, instrs.len() as int),
    ensures
        assemble_line(toks, instrs, labels) matches Ok((i2, l2)) ==> labels_sound(l2, i2.len() as int),
{
    if let Ok((i2, l2)) = assemble_line(toks, instrs, labels) {
        assert(i2.len() == instrs.len() + 1);
        if is_label_token(toks[0]) {
            let name = toks[0].drop_last();
            assert(l2 == labels.push((name, instrs.len() as usize)));
            assert(!label_taken(labels, name));
            assert forall|a: int, b: int| 0 <= a < b < l2.len() implies (#[trigger] l2[a]).0 != (#[trigger] l2[b]).0 by {
                if b == labels.len() {
                    assert(l2[a] == labels[a]);
                    assert(labels[a].0 != name);
                } else {
                    assert(l2[a] == labels[a] && l2[b] == labels[b]);
                }
            }
            assert forall|a: int, b: int| 0 <= a < b < l2.len() implies (#[trigger] l2[a]).1 <= (#[trigger] l2[b]).1 by {
                assert(l2[a] == labels[a]);
                if b < labels.len() {
                    assert(l2[b] == labels[b]);
                }
            }
            assert forall|a: int| 0 <= a < l2.len() implies (#[trigger] l2[a]).1 < i2.len() by {
                if a < labels.len() {
                    assert(l2[a] == labels[a]);
                }
            }
        } else {
            assert(l2 == labels);
        }
    }
}

proof fn lemma_assemble_from_sound(lines: Seq<Seq<Seq<u8>>>, k: int, instrs: Seq<Instruction>, labels: Seq<(Seq<u8>, usize)>)
    requires
        0 <= k,
        instrs.len() + lines.len() - k <= usize::MAX,
        labels_sound(labels, instrs.len() as int),
        forall|j: int| 0 <= j < instrs.len() ==> assembled_encodable(#[trigger] instrs[j]),
    ensures
        assemble_from(lines, k, instrs, labels) matches Ok((i2, l2)) ==> {
            &&& labels_sound(l2, i2.len() as int)
            &&& forall|j: int| 0 <= j < i2.len() ==> assembled_encodable(#[trigger] i2[j])
        },
    decreases lines.len() - k,
{
    if k < lines.len() {
        if lines[k].len() == 0 {
            lemma_assemble_from_sound(lines, k + 1, instrs, labels);
        } else {
            let toks = lines[k];
            let rest = if is_label_token(toks[0]) { toks.drop_first() } else { toks };
            if rest.len() > 0 {
                if let Some(c) = command_of(rest[0]) {
                    lemma_line_instruction_encodable(c, rest.drop_first());
                }
            }
            lemma_line_labels_sound(toks, instrs, labels);
            if let Ok((i2, l2)) = assemble_line(toks, instrs, labels) {
                assert(forall|j: int| 0 <= j < i2.len() ==> assembled_encodable(#[trigger] i2[j])) by {
                    assert forall|j: int| 0 <= j < i2.len() implies assembled_encodable(#[trigger] i2[j]) by {
                        if j < instrs.len() {
                            assert(i2[j] == instrs[j]);
                        }
                    }
                }
                lemma_assemble_from_sound(lines, k + 1, i2, l2);
            }
        }
    }
}

/// What the assembler returns has labels with pairwise distinct names, in the order of
/// the instructions they name, each naming one of the instructions returned; and the
/// instructions all have a binary form but for PUSH or POP naming SP.
pub proof fn lemma_assembled_program_sound(text: Seq<u8>)
    requires
        text.len() < usize::MAX,
    ensures
        assemble_text(text) matches Ok((instrs, labels)) ==> {
            &&& labels_sound(labels, instrs.len() as int)
            &&& forall|j: int| 0 <= j < instrs.len() ==> assembled_encodable(#[trigger] instrs[j])
        },
{
    lemma_scan_len(text, 0, Seq::empty(), Seq::empty(), Seq::empty(), false);
    lemma_assemble_from_sound(source_lines(text), 0, Seq::empty(), Seq::empty());
}

} // verus!
