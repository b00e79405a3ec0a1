use vstd::prelude::*;
use crate::bits::{
    bits16, bits8, byte_of, i8_of, is_bit_octet, lemma_bits8_of_octet, lemma_octet_of_bits8,
    octet_value, word_of,
};
use super::parser::{
    binary_prefix, reg_code, reg_of_code, pair_code, pair_of_code, Instruction,
    InstructionCommand, InstructionRegister, InstructionRegisterPair,
};
use super::{
    decode_at, decode_from, decode_plain, decode_program, decode_with_operands, encode_all,
    operand_at, rows_of, takes_operands,
};

verus! {

/// Whether the binary form of `i` reads back as `i`. It does unless: the command does not
/// fit the shape (no binary form); STAX or LDAX name HL or SP (their codes are SHLD, LHLD,
/// STA and LDA); DCX, INX, DAD or LXI name FA (its code reads back as SP); or MOV names
/// M twice (its code is HLT).
pub open spec fn canonical(i: Instruction) -> bool {
    &&& i.encodable()
    &&& match i {
        Instruction::DoubleRegister(_, (s, d)) => !(s == InstructionRegister::M && d
            == InstructionRegister::M),
        Instruction::Intermediate16Bit(_, p, _) => p != InstructionRegisterPair::FA,
        Instruction::PairRegister(c, p) => match c {
            InstructionCommand::Stax | InstructionCommand::Ldax => p == InstructionRegisterPair::BC
                || p == InstructionRegisterPair::DE,
            InstructionCommand::Dcx | InstructionCommand::Inx | InstructionCommand::Dad => p
                != InstructionRegisterPair::FA,
            _ => true,
        },
        _ => true,
    }
}

/// The rows (bytes, as eight bits each) of the binary form of `i`.
pub open spec fn instr_rows(i: Instruction) -> Seq<Seq<u8>> {
    seq![bits8(i.spec_opcode())] + match i {
        Instruction::Intermediate(_, v) => seq![bits8(byte_of(v))],
        Instruction::IntermediateRegister(_, v, _) => seq![bits8(byte_of(v))],
        Instruction::Intermediate16Bit(_, _, v) => seq![bits8(word_of(v) / 256), bits8(word_of(v) % 256)],
        Instruction::Intermediate16BitNoReg(_, v) => seq![bits8(word_of(v) / 256), bits8(word_of(v) % 256)],
        Instruction::Label(_, a) => seq![bits8(a as int / 256), bits8(a as int % 256)],
        _ => Seq::empty(),
    }
}

/// The rows of a program: those of its instructions one after another.
pub open spec fn program_rows(p: Seq<Instruction>) -> Seq<Seq<u8>>
    decreases p.len(),
{
    if p.len() == 0 {
        Seq::empty()
    } else {
        program_rows(p.drop_last()) + instr_rows(p.last())
    }
}

/// The rows laid end to end.
pub open spec fn rows_bits(rows: Seq<Seq<u8>>) -> Seq<u8>
    decreases rows.len(),
{
    if rows.len() == 0 {
        Seq::empty()
    } else {
        rows_bits(rows.drop_last()) + rows.last()
    }
}

/// The address (row) at which instruction `k` of program `p` starts.
pub open spec fn address(p: Seq<Instruction>, k: int) -> int
    decreases k,
{
    if k <= 0 {
        0
    } else {
        address(p, k - 1) + p[k - 1].spec_size()
    }
}

/// The first `k` instructions of `p`, each under its address modulo 65536 (a later one
/// replaces an earlier one under the same key).
pub open spec fn layout_prefix(p: Seq<Instruction>, k: int) -> Map<u16, Instruction>
    decreases k,
{
    if k <= 0 {
        Map::empty()
    } else {
        layout_prefix(p, k - 1).insert((address(p, k - 1) % 65536) as u16, p[k - 1])
    }
}

/// The instructions of `p` under their addresses.
pub open spec fn layout(p: Seq<Instruction>) -> Map<u16, Instruction> {
    layout_prefix(p, p.len() as int)
}

proof fn lemma_or_low_bit(r: u8, c: u8)
    requires
        r % 2 == 0,
        c <= 1,
    ensures
        r | c == r + c,
{
    assert(r % 2 == 0 && c <= 1 ==> r | c == r + c) by (bit_vector);
}

/// The value of the first `n` entries of `s` read as bits, most significant first.
pub open spec fn bits_value(s: Seq<u8>, n: int) -> int
    decreases n,
{
    if n <= 0 {
        0
    } else {
        2 * bits_value(s, n - 1) + s[n - 1]
    }
}

/// Before its last step, `binary_prefix` holds twice the value of the bits read so far.
proof fn lemma_binary_prefix_doubles(s: Seq<u8>, n: int)
    requires
        0 <= n <= 7,
        s.len() >= n,
        forall|k: int| 0 <= k < s.len() ==> #[trigger] s[k] <= 1,
    ensures
        binary_prefix(s, n) == 2 * bits_value(s, n),
        0 <= bits_value(s, n) < pow2_of(n),
    decreases n,
{
    lemma_pow2_small(n);
    if n > 0 {
        lemma_binary_prefix_doubles(s, n - 1);
        let r = binary_prefix(s, n - 1);
        assert(s[n - 1] <= 1);
        lemma_or_low_bit(r, s[n - 1]);
        assert(pow2_of(n) == 2 * pow2_of(n - 1));
        assert(bits_value(s, n) == 2 * bits_value(s, n - 1) + s[n - 1]);
        assert((r | s[n - 1]) as int == bits_value(s, n));
    }
}

proof fn lemma_pow2_small(n: int)
    requires
        0 <= n <= 7,
    ensures
        1 <= pow2_of(n) <= 128,
{
    reveal_with_fuel(pow2_of, 8);
    if n == 0 {
    } else if n == 1 {
    } else if n == 2 {
    } else if n == 3 {
    } else if n == 4 {
    } else if n == 5 {
    } else if n == 6 {
    } else {
    }
}

/// 2 to the power `n`, for small `n`.
pub open spec fn pow2_of(n: int) -> int
    decreases n,
{
    if n <= 0 {
        1
    } else {
        2 * pow2_of(n - 1)
    }
}

/// Reading the eight bits of a byte gives the byte.
pub proof fn lemma_binary_prefix_bits8(b: u8)
    ensures
        binary_prefix(bits8(b as int), 8) == b,
{
    let s = bits8(b as int);
    lemma_octet_of_bits8(b);
    assert(is_bit_octet(s));
    lemma_binary_prefix_doubles(s, 7);
    assert(pow2_of(7) == 128) by {
        reveal_with_fuel(pow2_of, 8);
    }
    lemma_or_low_bit(binary_prefix(s, 7), s[7]);
    assert(bits_value(s, 8) == octet_value(s)) by {
        reveal_with_fuel(bits_value, 9);
    }
}

/// Reading a bit octet gives its value.
pub proof fn lemma_binary_prefix_octet(s: Seq<u8>)
    requires
        is_bit_octet(s),
    ensures
        binary_prefix(s, 8) == octet_value(s),
{
    lemma_bits8_of_octet(s);
    lemma_binary_prefix_bits8(octet_value(s) as u8);
}

/// `binary_to_int` reads back what `int_to_binary` writes: the eight bits of a signed byte
/// give the byte.
pub proof fn lemma_binary_to_int_of_int_to_binary(v: i8)
    ensures
        i8_of(binary_prefix(bits8(byte_of(v)), bits8(byte_of(v)).len() as int) as int) == v,
{
    let b = if v < 0 {
        (v + 256) as u8
    } else {
        v as u8
    };
    assert(b == byte_of(v));
    lemma_binary_prefix_bits8(b);
}

proof fn lemma_rows_bits_concat(x: Seq<Seq<u8>>, y: Seq<Seq<u8>>)
    ensures
        rows_bits(x + y) == rows_bits(x) + rows_bits(y),
    decreases y.len(),
{
    if y.len() == 0 {
        assert(x + y =~= x);
        assert(rows_bits(x) + rows_bits(y) =~= rows_bits(x));
    } else {
        assert((x + y).drop_last() =~= x + y.drop_last());
        lemma_rows_bits_concat(x, y.drop_last());
        assert(rows_bits(x + y) =~= rows_bits(x) + rows_bits(y));
    }
}

/// Laying rows of eight end to end and splitting the result gives the rows back.
proof fn lemma_rows_of_rows_bits(rs: Seq<Seq<u8>>)
    requires
        forall|k: int| 0 <= k < rs.len() ==> (#[trigger] rs[k]).len() == 8,
    ensures
        rows_bits(rs).len() == 8 * rs.len(),
        rows_of(rows_bits(rs)) == rs,
    decreases rs.len(),
{
    if rs.len() == 0 {
        assert(rows_of(rows_bits(rs)) =~= rs);
    } else {
        let front = rs.drop_last();
        lemma_rows_of_rows_bits(front);
        let x = rows_bits(front);
        let last = rs.last();
        let whole = rows_bits(rs);
        assert(whole == x + last);
        assert(whole.len() / 8 == rs.len());
        assert forall|k: int| 0 <= k < rs.len() implies #[trigger] rows_of(whole)[k] == rs[k] by {
            if k < rs.len() - 1 {
                assert(whole.subrange(8 * k, 8 * k + 8) =~= x.subrange(8 * k, 8 * k + 8));
                assert(rows_of(x)[k] == front[k]);
            } else {
                assert(whole.subrange(8 * k, 8 * k + 8) =~= last);
            }
        }
        assert(rows_of(whole) =~= rs);
    }
}

/// The opcode of an instruction with a binary form is a byte.
proof fn lemma_opcode_range(i: Instruction)
    requires
        i.encodable(),
    ensures
        0 <= i.spec_opcode() < 256,
{
}

/// The binary form of `i` is its rows laid end to end, one row per byte.
proof fn lemma_encode_rows(i: Instruction)
    requires
        i.encodable(),
    ensures
        i.spec_encode() == rows_bits(instr_rows(i)),
        instr_rows(i).len() == i.spec_size(),
        forall|k: int| 0 <= k < instr_rows(i).len() ==> (#[trigger] instr_rows(i)[k]).len() == 8,
{
    let r = instr_rows(i);
    reveal_with_fuel(rows_bits, 4);
    assert(r.drop_last().drop_last().drop_last() =~= Seq::<Seq<u8>>::empty() || r.len() < 3);
    if r.len() == 1 {
        assert(r.drop_last() =~= Seq::<Seq<u8>>::empty());
    } else if r.len() == 2 {
        assert(r.drop_last().drop_last() =~= Seq::<Seq<u8>>::empty());
    }
    assert(i.spec_encode() =~= rows_bits(r));
}

/// The binary form of a program is its rows laid end to end.
proof fn lemma_encode_all_rows(p: Seq<Instruction>)
    requires
        forall|k: int| 0 <= k < p.len() ==> (#[trigger] p[k]).encodable(),
    ensures
        encode_all(p) == rows_bits(program_rows(p)),
        program_rows(p).len() == address(p, p.len() as int),
        forall|k: int| 0 <= k < program_rows(p).len() ==> (#[trigger] program_rows(p)[k]).len() == 8,
    decreases p.len(),
{
    if p.len() > 0 {
        let front = p.drop_last();
        assert forall|k: int| 0 <= k < front.len() implies (#[trigger] front[k]).encodable() by {
            assert(front[k] == p[k]);
        }
        lemma_encode_all_rows(front);
        lemma_address_prefix(p, front, front.len() as int);
        assert(p[p.len() - 1] == p.last());
        lemma_encode_rows(p.last());
        lemma_rows_bits_concat(program_rows(front), instr_rows(p.last()));
        let rows = program_rows(p);
        assert forall|k: int| 0 <= k < rows.len() implies (#[trigger] rows[k]).len() == 8 by {
            if k < program_rows(front).len() {
                assert(rows[k] == program_rows(front)[k]);
            } else {
                assert(rows[k] == instr_rows(p.last())[k - program_rows(front).len()]);
            }
        }
    }
}

/// The addresses of the first `k` instructions depend on those instructions only.
proof fn lemma_address_prefix(p: Seq<Instruction>, q: Seq<Instruction>, k: int)
    requires
        0 <= k <= p.len(),
        k <= q.len(),
        forall|j: int| 0 <= j < k ==> p[j] == q[j],
    ensures
        address(p, k) == address(q, k),
        layout_prefix(p, k) == layout_prefix(q, k),
    decreases k,
{
    if k > 0 {
        lemma_address_prefix(p, q, k - 1);
    }
}

/// Addresses grow by the size of each instruction.
proof fn lemma_address_monotone(p: Seq<Instruction>, k: int)
    requires
        0 <= k <= p.len(),
    ensures
        address(p, k) <= address(p, p.len() as int),
        k < p.len() ==> address(p, k) + p[k].spec_size() <= address(p, p.len() as int),
    decreases p.len() - k,
{
    if k < p.len() {
        lemma_address_monotone(p, k + 1);
    }
}

/// Addresses are never negative.
proof fn lemma_address_nonneg(p: Seq<Instruction>, k: int)
    ensures
        0 <= address(p, k),
    decreases k,
{
    if k > 0 {
        lemma_address_nonneg(p, k - 1);
    }
}

/// Instruction `k`'s rows stand at its address in the program's rows.
proof fn lemma_program_rows_at(p: Seq<Instruction>, k: int, j: int)
    requires
        0 <= k < p.len(),
        0 <= j < p[k].spec_size(),
        forall|m: int| 0 <= m < p.len() ==> (#[trigger] p[m]).encodable(),
    ensures
        address(p, k) + j < program_rows(p).len(),
        program_rows(p)[address(p, k) + j] == instr_rows(p[k])[j],
    decreases p.len(),
{
    let front = p.drop_last();
    let last = p.last();
    assert forall|m: int| 0 <= m < front.len() implies (#[trigger] front[m]).encodable() by {
        assert(front[m] == p[m]);
    }
    assert(p[p.len() - 1] == last);
    lemma_encode_all_rows(front);
    lemma_address_prefix(p, front, front.len() as int);
    lemma_encode_rows(last);
    let base = program_rows(front);
    assert(program_rows(p) == base + instr_rows(last));
    assert(base.len() == address(p, p.len() - 1));
    if k < p.len() - 1 {
        assert(front[k] == p[k]);
        lemma_address_prefix(p, front, k);
        lemma_program_rows_at(front, k, j);
        lemma_address_nonneg(p, k);
        assert(address(p, k) + j < base.len());
        assert(program_rows(p)[address(p, k) + j] == base[address(p, k) + j]);
    } else {
        assert(k == p.len() - 1);
        assert(program_rows(p)[base.len() + j] == instr_rows(last)[j]);
    }
}

/// The operand byte `x` written as a row reads back as the signed byte with its pattern.
proof fn lemma_operand_row(raw: Seq<Seq<u8>>, j: int, x: int)
    requires
        0 <= x < 256,
        0 <= j < raw.len(),
        raw[j] == bits8(x),
    ensures
        operand_at(raw, j) == i8_of(x),
{
    lemma_binary_prefix_bits8(x as u8);
}

/// The opcode of a one-register instruction decodes to it.
proof fn lemma_decode_single(c: InstructionCommand, r: InstructionRegister)
    requires
        canonical(Instruction::SingleRegister(c, r)),
    ensures
        !takes_operands(Instruction::SingleRegister(c, r).spec_opcode()),
        decode_plain(Instruction::SingleRegister(c, r).spec_opcode()) == Some(Instruction::SingleRegister(c, r)),
{
    match r {
        InstructionRegister::A => {},
        InstructionRegister::B => {},
        InstructionRegister::C => {},
        InstructionRegister::D => {},
        InstructionRegister::E => {},
        InstructionRegister::H => {},
        InstructionRegister::L => {},
        InstructionRegister::M => {},
    }
}

/// The opcode of a MOV decodes to it.
proof fn lemma_decode_mov(c: InstructionCommand, src: InstructionRegister, dst: InstructionRegister)
    requires
        canonical(Instruction::DoubleRegister(c, (src, dst))),
    ensures
        !takes_operands(Instruction::DoubleRegister(c, (src, dst)).spec_opcode()),
        decode_plain(Instruction::DoubleRegister(c, (src, dst)).spec_opcode()) == Some(Instruction::DoubleRegister(c, (src, dst))),
{
    let op = Instruction::DoubleRegister(c, (src, dst)).spec_opcode();
    assert(reg_of_code(reg_code(src)) == src);
    assert(reg_of_code(reg_code(dst)) == dst);
    assert(op == 64 + reg_code(src) * 8 + reg_code(dst));
    assert(op / 64 == 1 && op / 8 % 8 == reg_code(src) && op % 8 == reg_code(dst));
    assert(op != 0x76);
}

/// The opcode of a register-pair instruction decodes to it.
proof fn lemma_decode_pair(c: InstructionCommand, p: InstructionRegisterPair)
    requires
        canonical(Instruction::PairRegister(c, p)),
    ensures
        !takes_operands(Instruction::PairRegister(c, p).spec_opcode()),
        decode_plain(Instruction::PairRegister(c, p).spec_opcode()) == Some(Instruction::PairRegister(c, p)),
{
    match p {
        InstructionRegisterPair::BC => {},
        InstructionRegisterPair::DE => {},
        InstructionRegisterPair::HL => {},
        InstructionRegisterPair::SP => {},
        InstructionRegisterPair::FA => {},
    }
}

/// The opcode of a canonical instruction without operands decodes to it.
proof fn lemma_decode_plain_opcode(i: Instruction)
    requires
        canonical(i),
        i.spec_size() == 1,
    ensures
        !takes_operands(i.spec_opcode()),
        decode_plain(i.spec_opcode()) == Some(i),
{
    match i {
        Instruction::SingleRegister(c, r) => lemma_decode_single(c, r),
        Instruction::DoubleRegister(c, (s, d)) => lemma_decode_mov(c, s, d),
        Instruction::PairRegister(c, p) => lemma_decode_pair(c, p),
        _ => {},
    }
}

/// The opcode of a canonical instruction with operands decodes to it, given its operands.
proof fn lemma_decode_operand_opcode(i: Instruction, has2: bool, hi: i8, lo: i8)
    requires
        canonical(i),
        i.spec_size() > 1,
        i.spec_size() == 3 ==> has2,
        i.spec_size() == 2 ==> hi == match i {
            Instruction::Intermediate(_, v) => v,
            Instruction::IntermediateRegister(_, v, _) => v,
            _ => 0i8,
        },
        i.spec_size() == 3 ==> hi == i8_of(match i {
            Instruction::Label(_, a) => a as int,
            Instruction::Intermediate16Bit(_, _, v) => word_of(v),
            Instruction::Intermediate16BitNoReg(_, v) => word_of(v),
            _ => 0,
        } / 256) && lo == i8_of(match i {
            Instruction::Label(_, a) => a as int,
            Instruction::Intermediate16Bit(_, _, v) => word_of(v),
            Instruction::Intermediate16BitNoReg(_, v) => word_of(v),
            _ => 0,
        } % 256),
    ensures
        takes_operands(i.spec_opcode()),
        decode_with_operands(i.spec_opcode(), true, has2, hi, lo) == Some(i),
{
    match i {
        Instruction::IntermediateRegister(c, v, r) => {
            assert(reg_of_code(reg_code(r)) == r);
        },
        Instruction::Intermediate16Bit(c, p, v) => {
            let op = i.spec_opcode();
            assert(pair_of_code(pair_code(p)) == p);
            assert((hi * 256 + byte_of(lo)) as i16 == v);
        },
        Instruction::Intermediate16BitNoReg(c, v) => {
            assert((hi * 256 + byte_of(lo)) as i16 == v);
        },
        Instruction::Label(c, a) => {
            assert((byte_of(hi) * 256 + byte_of(lo)) as u16 == a);
        },
        _ => {},
    }
}

/// A canonical instruction whose rows stand at row `a` decodes there.
proof fn lemma_decode_instr_at(raw: Seq<Seq<u8>>, a: int, i: Instruction)
    requires
        canonical(i),
        0 <= a,
        a + i.spec_size() <= raw.len(),
        forall|j: int| 0 <= j < i.spec_size() ==> raw[a + j] == #[trigger] instr_rows(i)[j],
    ensures
        decode_at(raw, a) == Some(i),
{
    lemma_opcode_range(i);
    let op = i.spec_opcode();
    lemma_octet_of_bits8(op as u8);
    assert(raw[a + 0] == instr_rows(i)[0]);
    assert(raw[a] == bits8(op));
    if i.spec_size() == 1 {
        lemma_decode_plain_opcode(i);
    } else if i.spec_size() == 2 {
        assert(raw[a + 1] == instr_rows(i)[1]);
        let v = match i {
            Instruction::Intermediate(_, v) => v,
            Instruction::IntermediateRegister(_, v, _) => v,
            _ => 0i8,
        };
        lemma_operand_row(raw, a + 1, byte_of(v));
        lemma_decode_operand_opcode(i, a + 2 < raw.len(), operand_at(raw, a + 1), operand_at(raw, a + 2));
    } else {
        assert(raw[a + 1] == instr_rows(i)[1]);
        assert(raw[a + 2] == instr_rows(i)[2]);
        let w = match i {
            Instruction::Label(_, a) => a as int,
            Instruction::Intermediate16Bit(_, _, v) => word_of(v),
            Instruction::Intermediate16BitNoReg(_, v) => word_of(v),
            _ => 0,
        };
        lemma_operand_row(raw, a + 1, w / 256);
        lemma_operand_row(raw, a + 2, w % 256);
        lemma_decode_operand_opcode(i, true, operand_at(raw, a + 1), operand_at(raw, a + 2));
    }
}

/// Decoding the program's rows from instruction `k` on finishes the layout.
proof fn lemma_decode_suffix(p: Seq<Instruction>, rows: Seq<Seq<u8>>, k: int)
    requires
        0 <= k <= p.len(),
        forall|m: int| 0 <= m < p.len() ==> canonical(#[trigger] p[m]),
        rows.len() == address(p, p.len() as int),
        forall|m: int, j: int|
            0 <= m < p.len() && 0 <= j < p[m].spec_size() ==> rows[address(p, m) + j]
                == #[trigger] instr_rows(p[m])[j],
    ensures
        decode_from(rows, address(p, k), layout_prefix(p, k)) == Some(layout(p)),
    decreases p.len() - k,
{
    if k < p.len() {
        let i = p[k];
        assert forall|j: int| 0 <= j < i.spec_size() implies rows[address(p, k) + j] == #[trigger] instr_rows(i)[j] by {
            assert(rows[address(p, k) + j] == instr_rows(p[k])[j]);
        }
        lemma_address_monotone(p, k);
        lemma_address_nonneg(p, k);
        lemma_decode_instr_at(rows, address(p, k), i);
        lemma_decode_suffix(p, rows, k + 1);
    }
}

/// Encoding a program and reading the binary back gives every instruction under its
/// address (taken modulo 65536, a later instruction replacing an earlier one), for programs
/// of instructions whose binary form reads back as themselves.
pub proof fn lemma_decode_encode_program(p: Seq<Instruction>)
    requires
        forall|m: int| 0 <= m < p.len() ==> canonical(#[trigger] p[m]),
    ensures
        encode_all(p).len() % 8 == 0,
        decode_program(rows_of(encode_all(p))) == Some(layout(p)),
{
    assert forall|m: int| 0 <= m < p.len() implies (#[trigger] p[m]).encodable() by {
        assert(canonical(p[m]));
    }
    lemma_encode_all_rows(p);
    let rows = program_rows(p);
    lemma_rows_of_rows_bits(rows);
    assert forall|m: int, j: int| 0 <= m < p.len() && 0 <= j < p[m].spec_size() implies rows[address(p, m) + j]
        == #[trigger] instr_rows(p[m])[j] by {
        lemma_program_rows_at(p, m, j);
    }
    lemma_decode_suffix(p, rows, 0);
}

} // verus!
