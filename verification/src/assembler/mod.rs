pub mod parser;
pub mod roundtrip;
pub mod source;

use std::collections::HashMap;
use vstd::prelude::*;
use crate::bits::{byte_of, i8_of, is_bit_octet, octet_value, to_byte};
pub use self::parser::{
    Instruction, InstructionArgument, InstructionCommand, InstructionRegister,
    InstructionRegisterPair,
};
use self::parser::{
    binary_prefix, binary_to_int, pair_from_code, pair_of_code, reg_from_code, reg_of_code,
};

verus! {

broadcast use vstd::std_specs::hash::group_hash_axioms;



/// The instructions of a program, and where its binary form is read from and written to.
pub struct Assembler {
    pub input_asm: String,
    pub output_bin: String,
}

/// The bit rows of a binary program, one row per byte.
pub open spec fn rows_view(raw: &[Vec<u8>]) -> Seq<Seq<u8>> {
    raw@.map_values(|v: Vec<u8>| v@)
}

/// The signed byte read from row `j` of a binary program.
pub open spec fn operand_at(raw: Seq<Seq<u8>>, j: int) -> i8 {
    i8_of(binary_prefix(raw[j], raw[j].len() as int) as int)
}

/// The command of an opcode with an 8-bit immediate operand.
pub open spec fn immediate_command(b: int) -> Option<InstructionCommand> {
    if b == 0xc6 {
        Some(InstructionCommand::Adi)
    } else if b == 0xce {
        Some(InstructionCommand::Aci)
    } else if b == 0xd6 {
        Some(InstructionCommand::Sui)
    } else if b == 0xf6 {
        Some(InstructionCommand::Ori)
    } else if b == 0xee {
        Some(InstructionCommand::Xri)
    } else if b == 0xe6 {
        Some(InstructionCommand::Ani)
    } else if b == 0xfe {
        Some(InstructionCommand::Cpi)
    } else if b == 0xde {
        Some(InstructionCommand::Sbi)
    } else {
        None
    }
}

/// The command of an opcode without operands.
pub open spec fn no_reg_command(b: int) -> Option<InstructionCommand> {
    if b == 0x76 {
        Some(InstructionCommand::Hlt)
    } else if b == 0x37 {
        Some(InstructionCommand::Stc)
    } else if b == 0x3f {
        Some(InstructionCommand::Cmc)
    } else if b == 0x2f {
        Some(InstructionCommand::Cma)
    } else if b == 0x07 {
        Some(InstructionCommand::Rlc)
    } else if b == 0x0f {
        Some(InstructionCommand::Rrc)
    } else if b == 0x17 {
        Some(InstructionCommand::Ral)
    } else if b == 0x1f {
        Some(InstructionCommand::Rar)
    } else if b == 0x27 {
        Some(InstructionCommand::Daa)
    } else if b == 0xeb {
        Some(InstructionCommand::Xchg)
    } else if b == 0xf9 {
        Some(InstructionCommand::Sphl)
    } else if b == 0xe3 {
        Some(InstructionCommand::Xthl)
    } else if b == 0xe9 {
        Some(InstructionCommand::Pchl)
    } else {
        None
    }
}

/// The command of an opcode with a 16-bit address and no register.
pub open spec fn direct_command(b: int) -> Option<InstructionCommand> {
    if b == 0x32 {
        Some(InstructionCommand::Sta)
    } else if b == 0x3a {
        Some(InstructionCommand::Lda)
    } else if b == 0x22 {
        Some(InstructionCommand::Shld)
    } else if b == 0x2a {
        Some(InstructionCommand::Lhld)
    } else {
        None
    }
}

/// The command of a jump opcode.
pub open spec fn jump_command(b: int) -> Option<InstructionCommand> {
    if b == 0xc3 {
        Some(InstructionCommand::Jmp)
    } else if b == 0xda {
        Some(InstructionCommand::Jc)
    } else if b == 0xd2 {
        Some(InstructionCommand::Jnc)
    } else if b == 0xca {
        Some(InstructionCommand::Jz)
    } else {
        None
    }
}

/// The command of an opcode `10 ccc rrr` (`g` is the top five bits, 16..=23).
pub open spec fn alu_command(g: int) -> InstructionCommand {
    if g == 16 {
        InstructionCommand::Add
    } else if g == 17 {
        InstructionCommand::Adc
    } else if g == 18 {
        InstructionCommand::Sub
    } else if g == 19 {
        InstructionCommand::Sbb
    } else if g == 20 {
        InstructionCommand::Ana
    } else if g == 21 {
        InstructionCommand::Xra
    } else if g == 22 {
        InstructionCommand::Ora
    } else {
        InstructionCommand::Cmp
    }
}

/// The pair named by the code of a PUSH or POP, where code 3 is FA (PSW).
pub open spec fn stack_pair_of_code(c: int) -> InstructionRegisterPair {
    if c == 3 {
        InstructionRegisterPair::FA
    } else {
        pair_of_code(c)
    }
}

/// Whether the opcode `b` is followed by operand rows (MVI, LXI, the immediate
/// instructions, the direct-address instructions and the jumps).
pub open spec fn takes_operands(b: int) -> bool {
    ||| b / 64 == 0 && b % 8 == 6
    ||| b / 64 == 0 && b % 16 == 1
    ||| immediate_command(b) is Some
    ||| direct_command(b) is Some
    ||| jump_command(b) is Some
}

/// The instruction with opcode `b` and operand bytes `hi` and `lo`; `has1` and `has2` say
/// whether the first and the second operand rows exist.
pub open spec fn decode_with_operands(b: int, has1: bool, has2: bool, hi: i8, lo: i8) -> Option<Instruction> {
    if b / 64 == 0 && b % 8 == 6 {
        if has1 {
            Some(Instruction::IntermediateRegister(InstructionCommand::Mvi, hi, reg_of_code((b / 8) % 8)))
        } else {
            None
        }
    } else if b / 64 == 0 && b % 16 == 1 {
        if has2 {
            Some(Instruction::Intermediate16Bit(InstructionCommand::Lxi, pair_of_code((b / 16) % 4), (hi * 256 + byte_of(lo)) as i16))
        } else {
            None
        }
    } else if immediate_command(b) is Some {
        if has1 {
            Some(Instruction::Intermediate(immediate_command(b).unwrap(), hi))
        } else {
            None
        }
    } else if direct_command(b) is Some {
        if has2 {
            Some(Instruction::Intermediate16BitNoReg(direct_command(b).unwrap(), (hi * 256 + byte_of(lo)) as i16))
        } else {
            None
        }
    } else if has2 {
        Some(Instruction::Label(jump_command(b).unwrap(), (byte_of(hi) * 256 + byte_of(lo)) as u16))
    } else {
        None
    }
}

/// The instruction with opcode `b` where `b` takes no operand rows, or `None` for an
/// unknown opcode (or STAX/LDAX naming HL or SP).
pub open spec fn decode_plain(b: int) -> Option<Instruction> {
    if no_reg_command(b) is Some {
        Some(Instruction::NoRegister(no_reg_command(b).unwrap()))
    } else if 16 <= b / 8 < 24 {
        Some(Instruction::SingleRegister(alu_command(b / 8), reg_of_code(b % 8)))
    } else if b / 64 == 0 && (b % 16 == 2 || b % 16 == 10) {
        let p = pair_of_code((b / 16) % 4);
        if p == InstructionRegisterPair::HL || p == InstructionRegisterPair::SP {
            None
        } else if b % 16 == 2 {
            Some(Instruction::PairRegister(InstructionCommand::Stax, p))
        } else {
            Some(Instruction::PairRegister(InstructionCommand::Ldax, p))
        }
    } else if b / 64 == 0 && b % 16 == 11 {
        Some(Instruction::PairRegister(InstructionCommand::Dcx, pair_of_code((b / 16) % 4)))
    } else if b / 64 == 0 && b % 16 == 3 {
        Some(Instruction::PairRegister(InstructionCommand::Inx, pair_of_code((b / 16) % 4)))
    } else if b / 64 == 0 && b % 16 == 9 {
        Some(Instruction::PairRegister(InstructionCommand::Dad, pair_of_code((b / 16) % 4)))
    } else if b / 64 == 3 && b % 16 == 5 {
        Some(Instruction::PairRegister(InstructionCommand::Push, stack_pair_of_code((b / 16) % 4)))
    } else if b / 64 == 3 && b % 16 == 1 {
        Some(Instruction::PairRegister(InstructionCommand::Pop, stack_pair_of_code((b / 16) % 4)))
    } else if b / 64 == 0 && b % 8 == 4 {
        Some(Instruction::SingleRegister(InstructionCommand::Inr, reg_of_code((b / 8) % 8)))
    } else if b / 64 == 0 && b % 8 == 5 {
        Some(Instruction::SingleRegister(InstructionCommand::Dcr, reg_of_code((b / 8) % 8)))
    } else if b / 64 == 1 {
        Some(Instruction::DoubleRegister(InstructionCommand::Mov, (reg_of_code((b / 8) % 8), reg_of_code(b % 8))))
    } else {
        None
    }
}

/// The instruction that starts at row `i` of a binary program, or `None` where no
/// instruction can be read there (the row is not eight bits, the opcode is unknown,
/// or operand rows are missing).
pub open spec fn decode_at(raw: Seq<Seq<u8>>, i: int) -> Option<Instruction> {
    if !(0 <= i < raw.len()) || !is_bit_octet(raw[i]) {
        None
    } else {
        let b = octet_value(raw[i]);
        if takes_operands(b) {
            decode_with_operands(b, i + 1 < raw.len(), i + 2 < raw.len(), operand_at(raw, i + 1), operand_at(raw, i + 2))
        } else {
            decode_plain(b)
        }
    }
}

/// Decodes the rows from `i` on, adding each instruction to `m` under its row number
/// (taken modulo 65536); `None` where some instruction cannot be read.
pub open spec fn decode_from(raw: Seq<Seq<u8>>, i: int, m: Map<u16, Instruction>) -> Option<Map<u16, Instruction>>
    decreases raw.len() - i,
{
    if i >= raw.len() {
        Some(m)
    } else {
        match decode_at(raw, i) {
            None => None,
            Some(instr) => decode_from(raw, i + instr.spec_size(), m.insert((i % 65536) as u16, instr)),
        }
    }
}

/// The instructions of a binary program, keyed by the row each starts at.
pub open spec fn decode_program(raw: Seq<Seq<u8>>) -> Option<Map<u16, Instruction>> {
    decode_from(raw, 0, Map::empty())
}

/// The byte value of a row of eight bits, or `None` where it is not such a row.
fn octet_of(row: &Vec<u8>) -> (b: Option<u8>)
    ensures
        b is Some <==> is_bit_octet(row@),
        b matches Some(v) ==> v as int == octet_value(row@),
{
    if row.len() != 8 {
        return None;
    }
    let mut k: usize = 0;
    while k < 8
        invariant
            row@.len() == 8,
            k <= 8,
            forall|j: int| 0 <= j < k ==> #[trigger] row@[j] <= 1,
        decreases 8 - k,
    {
        if row[k] > 1 {
            return None;
        }
        k = k + 1;
    }
    Some(row[0] * 128 + row[1] * 64 + row[2] * 32 + row[3] * 16 + row[4] * 8 + row[5] * 4 + row[6] * 2 + row[7])
}

/// Whether the opcode `b` is followed by operand rows.
fn has_operands(b: u8) -> (r: bool)
    ensures
        r == takes_operands(b as int),
{
    (b / 64 == 0 && b % 8 == 6) || (b / 64 == 0 && b % 16 == 1) || b == 0xc6 || b == 0xce || b
        == 0xd6 || b == 0xf6 || b == 0xee || b == 0xe6 || b == 0xfe || b == 0xde || b == 0x32 || b
        == 0x3a || b == 0x22 || b == 0x2a || b == 0xc3 || b == 0xda || b == 0xd2 || b == 0xca
}

/// The instruction with opcode `b` and operand bytes `hi` and `lo`.
fn decode_operand_opcode(b: u8, has1: bool, has2: bool, hi: i8, lo: i8) -> (instr: Option<Instruction>)
    requires
        takes_operands(b as int),
    ensures
        instr == decode_with_operands(b as int, has1, has2, hi, lo),
{
    if b / 64 == 0 && b % 8 == 6 {
        if has1 {
            Some(Instruction::IntermediateRegister(InstructionCommand::Mvi, hi, reg_from_code((b / 8) % 8)))
        } else {
            None
        }
    } else if b / 64 == 0 && b % 16 == 1 {
        if has2 {
            let low = to_byte(lo);
            Some(Instruction::Intermediate16Bit(InstructionCommand::Lxi, pair_from_code((b / 16) % 4), (hi as i16) * 256 + low as i16))
        } else {
            None
        }
    } else if b == 0xc6 || b == 0xce || b == 0xd6 || b == 0xf6 || b == 0xee || b == 0xe6 || b == 0xfe || b == 0xde {
        if has1 {
            let c = if b == 0xc6 {
                InstructionCommand::Adi
            } else if b == 0xce {
                InstructionCommand::Aci
            } else if b == 0xd6 {
                InstructionCommand::Sui
            } else if b == 0xf6 {
                InstructionCommand::Ori
            } else if b == 0xee {
                InstructionCommand::Xri
            } else if b == 0xe6 {
                InstructionCommand::Ani
            } else if b == 0xfe {
                InstructionCommand::Cpi
            } else {
                InstructionCommand::Sbi
            };
            Some(Instruction::Intermediate(c, hi))
        } else {
            None
        }
    } else if b == 0x32 || b == 0x3a || b == 0x22 || b == 0x2a {
        if has2 {
            let c = if b == 0x32 {
                InstructionCommand::Sta
            } else if b == 0x3a {
                InstructionCommand::Lda
            } else if b == 0x22 {
                InstructionCommand::Shld
            } else {
                InstructionCommand::Lhld
            };
            let low = to_byte(lo);
            Some(Instruction::Intermediate16BitNoReg(c, (hi as i16) * 256 + low as i16))
        } else {
            None
        }
    } else if has2 {
        let c = if b == 0xc3 {
            InstructionCommand::Jmp
        } else if b == 0xda {
            InstructionCommand::Jc
        } else if b == 0xd2 {
            InstructionCommand::Jnc
        } else {
            InstructionCommand::Jz
        };
        let high = to_byte(hi);
        let low = to_byte(lo);
        Some(Instruction::Label(c, (high as u16) * 256 + low as u16))
    } else {
        None
    }
}

/// The command of an opcode without operands.
fn no_reg_command_of(b: u8) -> (c: Option<InstructionCommand>)
    ensures
        c == no_reg_command(b as int),
{
    if b == 0x76 {
        Some(InstructionCommand::Hlt)
    } else if b == 0x37 {
        Some(InstructionCommand::Stc)
    } else if b == 0x3f {
        Some(InstructionCommand::Cmc)
    } else if b == 0x2f {
        Some(InstructionCommand::Cma)
    } else if b == 0x07 {
        Some(InstructionCommand::Rlc)
    } else if b == 0x0f {
        Some(InstructionCommand::Rrc)
    } else if b == 0x17 {
        Some(InstructionCommand::Ral)
    } else if b == 0x1f {
        Some(InstructionCommand::Rar)
    } else if b == 0x27 {
        Some(InstructionCommand::Daa)
    } else if b == 0xeb {
        Some(InstructionCommand::Xchg)
    } else if b == 0xf9 {
        Some(InstructionCommand::Sphl)
    } else if b == 0xe3 {
        Some(InstructionCommand::Xthl)
    } else if b == 0xe9 {
        Some(InstructionCommand::Pchl)
    } else {
        None
    }
}

/// The instruction with opcode `b`, which takes no operand rows.
fn decode_plain_opcode(b: u8) -> (instr: Option<Instruction>)
    ensures
        instr == decode_plain(b as int),
{
    if let Some(c) = no_reg_command_of(b) {
        return Some(Instruction::NoRegister(c));
    }
    if 16 <= b / 8 && b / 8 < 24 {
        let g = b / 8;
        let c = if g == 16 {
            InstructionCommand::Add
        } else if g == 17 {
            InstructionCommand::Adc
        } else if g == 18 {
            InstructionCommand::Sub
        } else if g == 19 {
            InstructionCommand::Sbb
        } else if g == 20 {
            InstructionCommand::Ana
        } else if g == 21 {
            InstructionCommand::Xra
        } else if g == 22 {
            InstructionCommand::Ora
        } else {
            InstructionCommand::Cmp
        };
        Some(Instruction::SingleRegister(c, reg_from_code(b % 8)))
    } else if b / 64 == 0 && (b % 16 == 2 || b % 16 == 10) {
        let code = (b / 16) % 4;
        if code >= 2 {
            None
        } else if b % 16 == 2 {
            Some(Instruction::PairRegister(InstructionCommand::Stax, pair_from_code(code)))
        } else {
            Some(Instruction::PairRegister(InstructionCommand::Ldax, pair_from_code(code)))
        }
    } else if b / 64 == 0 && b % 16 == 11 {
        Some(Instruction::PairRegister(InstructionCommand::Dcx, pair_from_code((b / 16) % 4)))
    } else if b / 64 == 0 && b % 16 == 3 {
        Some(Instruction::PairRegister(InstructionCommand::Inx, pair_from_code((b / 16) % 4)))
    } else if b / 64 == 0 && b % 16 == 9 {
        Some(Instruction::PairRegister(InstructionCommand::Dad, pair_from_code((b / 16) % 4)))
    } else if b / 64 == 3 && (b % 16 == 5 || b % 16 == 1) {
        let code = (b / 16) % 4;
        let p = if code == 3 {
            InstructionRegisterPair::FA
        } else {
            pair_from_code(code)
        };
        if b % 16 == 5 {
            Some(Instruction::PairRegister(InstructionCommand::Push, p))
        } else {
            Some(Instruction::PairRegister(InstructionCommand::Pop, p))
        }
    } else if b / 64 == 0 && b % 8 == 4 {
        Some(Instruction::SingleRegister(InstructionCommand::Inr, reg_from_code((b / 8) % 8)))
    } else if b / 64 == 0 && b % 8 == 5 {
        Some(Instruction::SingleRegister(InstructionCommand::Dcr, reg_from_code((b / 8) % 8)))
    } else if b / 64 == 1 {
        Some(Instruction::DoubleRegister(InstructionCommand::Mov, (reg_from_code((b / 8) % 8), reg_from_code(b % 8))))
    } else {
        None
    }
}

/// The instruction that starts at row `index`, or `None` where none can be read there.
pub fn decode_instruction_at(raw: &[Vec<u8>], index: usize) -> (instr: Option<Instruction>)
    ensures
        instr == decode_at(rows_view(raw), index as int),
{
    let ghost rv = rows_view(raw);
    if index >= raw.len() {
        return None;
    }
    proof {
        assert(rv[index as int] == raw@[index as int]@);
    }
    let b = match octet_of(&raw[index]) {
        Some(b) => b,
        None => return None,
    };
    if !has_operands(b) {
        return decode_plain_opcode(b);
    }
    let has1 = index < raw.len() - 1;
    let has2 = raw.len() >= 2 && index < raw.len() - 2;
    let hi: i8 = if has1 {
        proof {
            assert(rv[index + 1] == raw@[index + 1]@);
        }
        binary_to_int(raw[index + 1].as_slice())
    } else {
        0
    };
    let lo: i8 = if has2 {
        proof {
            assert(rv[index + 2] == raw@[index + 2]@);
        }
        binary_to_int(raw[index + 2].as_slice())
    } else {
        0
    };
    let instr = decode_operand_opcode(b, has1, has2, hi, lo);
    proof {
        let spec_hi = operand_at(rv, index + 1);
        let spec_lo = operand_at(rv, index + 2);
        assert(decode_with_operands(b as int, has1, has2, hi, lo) == decode_with_operands(b as int, has1, has2, spec_hi, spec_lo));
    }
    instr
}

/// Decodes a binary program given as rows of bits (one row per byte): each instruction
/// is keyed by the row it starts at, taken modulo 65536. `None` where some instruction
/// cannot be read.
pub fn decode_instructions(raw_instructions: &[Vec<u8>]) -> (decoded: Option<HashMap<u16, Instruction>>)
    ensures
        decoded is Some <==> decode_program(rows_view(raw_instructions)) is Some,
        decoded matches Some(m) ==> decode_program(rows_view(raw_instructions)) == Some(m@),
{
    let ghost rv = rows_view(raw_instructions);
    let mut instructions: HashMap<u16, Instruction> = HashMap::new();
    let mut index: usize = 0;
    while index < raw_instructions.len()
        invariant
            rv == rows_view(raw_instructions),
            decode_program(rv) == decode_from(rv, index as int, instructions@),
        decreases raw_instructions@.len() - index,
    {
        let instruction = match decode_instruction_at(raw_instructions, index) {
            Some(i) => i,
            None => return None,
        };
        instructions.insert((index % 65536) as u16, instruction);
        let size = instruction.get_size();
        if index > raw_instructions.len() - size as usize {
            proof {
                let m = instructions@;
                assert(decode_from(rv, index + size as int, m) == Some(m));
            }
            return Some(instructions);
        }
        index = index + size as usize;
    }
    Some(instructions)
}

/// The binary form of a program: the bits of its instructions one after another.
pub open spec fn encode_all(p: Seq<Instruction>) -> Seq<u8>
    decreases p.len(),
{
    if p.len() == 0 {
        Seq::empty()
    } else {
        encode_all(p.drop_last()) + p.last().spec_encode()
    }
}

/// The rows of eight entries that a bit sequence splits into.
pub open spec fn rows_of(bits: Seq<u8>) -> Seq<Seq<u8>> {
    Seq::new(bits.len() / 8, |k: int| bits.subrange(8 * k, 8 * k + 8))
}

/// The binary form of a program, one entry (0 or 1) per bit, instruction after instruction.
pub fn encode_program(instructions: &[Instruction]) -> (bits: Vec<u8>)
    requires
        forall|k: int| 0 <= k < instructions@.len() ==> (#[trigger] instructions@[k]).encodable(),
    ensures
        bits@ == encode_all(instructions@),
{
    let mut bits: Vec<u8> = Vec::new();
    let mut k: usize = 0;
    while k < instructions.len()
        invariant
            k <= instructions@.len(),
            forall|j: int| 0 <= j < instructions@.len() ==> (#[trigger] instructions@[j]).encodable(),
            bits@ == encode_all(instructions@.subrange(0, k as int)),
        decreases instructions@.len() - k,
    {
        let mut encoding = instructions[k].encode();
        proof {
            let p = instructions@.subrange(0, k + 1);
            assert(p.drop_last() =~= instructions@.subrange(0, k as int));
        }
        bits.append(&mut encoding);
        k = k + 1;
    }
    assert(instructions@.subrange(0, instructions@.len() as int) =~= instructions@);
    bits
}

/// Splits binary data whose length is a multiple of eight into rows of eight entries.
pub fn split_rows(binary_data: &[u8]) -> (rows: Vec<Vec<u8>>)
    requires
        binary_data@.len() % 8 == 0,
    ensures
        rows@.map_values(|v: Vec<u8>| v@) == rows_of(binary_data@),
{
    let mut rows: Vec<Vec<u8>> = Vec::new();
    let count = binary_data.len() / 8;
    let mut k: usize = 0;
    while k < count
        invariant
            count == binary_data@.len() / 8,
            k <= count,
            rows@.len() == k,
            forall|j: int| 0 <= j < k ==> (#[trigger] rows@[j])@ == binary_data@.subrange(8 * j, 8 * j + 8),
        decreases count - k,
    {
        assert(8 * k + 8 <= binary_data@.len()) by (nonlinear_arith)
            requires
                k < count,
                count == binary_data@.len() / 8,
        ;
        let mut row: Vec<u8> = Vec::new();
        let mut j: usize = 0;
        assert(binary_data@.len() == binary_data.len());
        while j < 8
            invariant
                8 * k + 8 <= binary_data@.len(),
                binary_data@.len() <= usize::MAX,
                j <= 8,
                row@ == binary_data@.subrange(8 * k, 8 * k + j),
            decreases 8 - j,
        {
            row.push(binary_data[8 * k + j]);
            j = j + 1;
            assert(row@ =~= binary_data@.subrange(8 * k, 8 * k + j));
        }
        rows.push(row);
        k = k + 1;
    }
    assert(rows@.map_values(|v: Vec<u8>| v@) =~= rows_of(binary_data@));
    rows
}

impl Assembler {
    /// An assembler that reads `input_asm` and writes `output_bin`.
    pub fn new(input_asm: String, output_bin: String) -> (assembler: Assembler)
        ensures
            assembler.input_asm@ == input_asm@,
            assembler.output_bin@ == output_bin@,
    {
        Assembler { input_asm, output_bin }
    }

    /// Decodes a binary program given as rows of bits (one row per byte) into its
    /// instructions, keyed by the row each starts at (modulo 65536).
    pub fn parse_binary_instructions(&self, raw_instructions: &[Vec<u8>]) -> (instructions: HashMap<u16, Instruction>)
        requires
            decode_program(rows_view(raw_instructions)) is Some,
        ensures
            decode_program(rows_view(raw_instructions)) == Some(instructions@),
    {
        decode_instructions(raw_instructions).unwrap()
    }
}

} // verus!
