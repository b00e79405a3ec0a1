use emu8080::assembler::parser::{binary_to_int, int_to_binary, int_to_binary_16_bit};
use emu8080::assembler::{
    decode_instruction_at, decode_instructions, encode_program, split_rows, Instruction,
    InstructionCommand, InstructionRegister, InstructionRegisterPair,
};

fn bits(byte: u8) -> Vec<u8> {
    (0..8).map(|k| (byte >> (7 - k)) & 1).collect()
}

#[test]
fn int_to_binary_gives_twos_complement_bits() {
    assert_eq!(int_to_binary(28), vec![0, 0, 0, 1, 1, 1, 0, 0]);
    assert_eq!(int_to_binary(-1), vec![1, 1, 1, 1, 1, 1, 1, 1]);
    assert_eq!(int_to_binary(-128), vec![1, 0, 0, 0, 0, 0, 0, 0]);
    assert_eq!(
        int_to_binary_16_bit(12345),
        vec![0, 0, 1, 1, 0, 0, 0, 0, 0, 0, 1, 1, 1, 0, 0, 1]
    );
    assert_eq!(int_to_binary_16_bit(-2), [vec![1; 15], vec![0]].concat());
}

#[test]
fn binary_to_int_reads_back_every_byte() {
    for v in i8::MIN..=i8::MAX {
        assert_eq!(binary_to_int(&int_to_binary(v)), v);
    }
    assert_eq!(binary_to_int(&[]), 0);
    assert_eq!(binary_to_int(&[1]), 2);
    assert_eq!(binary_to_int(&[1, 0, 0, 0, 0, 0, 0, 1, 1]), 2);
}

#[test]
fn encode_matches_the_opcode_table() {
    assert_eq!(
        Instruction::IntermediateRegister(InstructionCommand::Mvi, 28, InstructionRegister::A).encode(),
        [bits(0x3e), bits(28)].concat()
    );
    assert_eq!(
        Instruction::DoubleRegister(InstructionCommand::Mov, (InstructionRegister::A, InstructionRegister::B)).encode(),
        bits(0x78)
    );
    assert_eq!(
        Instruction::PairRegister(InstructionCommand::Push, InstructionRegisterPair::FA).encode(),
        bits(0xf5)
    );
    assert_eq!(
        Instruction::Intermediate16Bit(InstructionCommand::Lxi, InstructionRegisterPair::SP, 12345).encode(),
        [bits(0x31), bits(0x30), bits(0x39)].concat()
    );
    assert_eq!(
        Instruction::Intermediate16BitNoReg(InstructionCommand::Sta, 42).encode(),
        [bits(0x32), bits(0), bits(42)].concat()
    );
    assert_eq!(
        Instruction::Label(InstructionCommand::Jz, 75).encode(),
        [bits(0xca), bits(0), bits(75)].concat()
    );
    assert_eq!(Instruction::NoRegister(InstructionCommand::Pchl).encode(), bits(0xe9));
    assert_eq!(Instruction::NoRegister(InstructionCommand::Hlt).encode(), bits(0x76));
}

#[test]
fn encodable_only_where_the_command_fits() {
    assert!(Instruction::NoRegister(InstructionCommand::Stc).is_encodable());
    assert!(!Instruction::NoRegister(InstructionCommand::Add).is_encodable());
    assert!(!Instruction::PairRegister(InstructionCommand::Push, InstructionRegisterPair::SP).is_encodable());
    assert!(Instruction::PairRegister(InstructionCommand::Dad, InstructionRegisterPair::SP).is_encodable());
    assert!(!Instruction::Label(InstructionCommand::Sta, 3).is_encodable());
}

#[test]
fn get_size_counts_operand_bytes() {
    assert_eq!(Instruction::NoRegister(InstructionCommand::Hlt).get_size(), 1);
    assert_eq!(Instruction::Intermediate(InstructionCommand::Adi, 1).get_size(), 2);
    assert_eq!(Instruction::IntermediateRegister(InstructionCommand::Mvi, 1, InstructionRegister::B).get_size(), 2);
    assert_eq!(Instruction::Label(InstructionCommand::Jmp, 1).get_size(), 3);
    assert_eq!(Instruction::Intermediate16BitNoReg(InstructionCommand::Lda, 1).get_size(), 3);
}

#[test]
fn split_rows_cuts_eight_at_a_time() {
    let data: Vec<u8> = (0..16).map(|k| (k % 2) as u8).collect();
    let rows = split_rows(&data);
    assert_eq!(rows.len(), 2);
    assert_eq!(rows[0], vec![0, 1, 0, 1, 0, 1, 0, 1]);
    assert_eq!(rows[1], vec![0, 1, 0, 1, 0, 1, 0, 1]);
    assert!(split_rows(&[]).is_empty());
}

#[test]
fn encoded_program_decodes_at_its_addresses() {
    let program = vec![
        Instruction::IntermediateRegister(InstructionCommand::Mvi, 28, InstructionRegister::A),
        Instruction::DoubleRegister(InstructionCommand::Mov, (InstructionRegister::A, InstructionRegister::B)),
        Instruction::SingleRegister(InstructionCommand::Ana, InstructionRegister::B),
        Instruction::Intermediate(InstructionCommand::Adi, -103),
        Instruction::NoRegister(InstructionCommand::Stc),
        Instruction::PairRegister(InstructionCommand::Stax, InstructionRegisterPair::BC),
        Instruction::PairRegister(InstructionCommand::Ldax, InstructionRegisterPair::DE),
        Instruction::PairRegister(InstructionCommand::Inx, InstructionRegisterPair::SP),
        Instruction::PairRegister(InstructionCommand::Push, InstructionRegisterPair::FA),
        Instruction::PairRegister(InstructionCommand::Pop, InstructionRegisterPair::FA),
        Instruction::Intermediate(InstructionCommand::Ani, -128),
        Instruction::Intermediate16Bit(InstructionCommand::Lxi, InstructionRegisterPair::SP, 12345),
        Instruction::Intermediate16BitNoReg(InstructionCommand::Sta, 42),
        Instruction::Intermediate16BitNoReg(InstructionCommand::Lhld, 4000),
        Instruction::Label(InstructionCommand::Jmp, 75),
        Instruction::Label(InstructionCommand::Jc, 75),
        Instruction::SingleRegister(InstructionCommand::Inr, InstructionRegister::M),
        Instruction::NoRegister(InstructionCommand::Hlt),
    ];
    let binary = encode_program(&program);
    assert_eq!(binary.len() % 8, 0);
    let decoded = decode_instructions(&split_rows(&binary)).unwrap();
    assert_eq!(decoded.len(), program.len());
    let mut address: u16 = 0;
    for instruction in &program {
        assert_eq!(decoded.get(&address), Some(instruction));
        address += instruction.get_size() as u16;
    }
    assert_eq!(decoded.get(&2), Some(&program[1]));
    assert_eq!(decoded.get(&1), None);
}

#[test]
fn lxi_reads_its_low_byte_unsigned() {
    for value in [128i16, 240, 255, -1, -32768, 32767] {
        let instruction = Instruction::Intermediate16Bit(InstructionCommand::Lxi, InstructionRegisterPair::BC, value);
        let decoded = decode_instructions(&split_rows(&instruction.encode())).unwrap();
        assert_eq!(decoded.get(&0), Some(&instruction));
    }
}

#[test]
fn lxi_with_both_bytes_high_decodes() {
    let rows = vec![bits(0x01), bits(0x80), bits(0xff)];
    assert_eq!(
        decode_instruction_at(&rows, 0),
        Some(Instruction::Intermediate16Bit(InstructionCommand::Lxi, InstructionRegisterPair::BC, -32513))
    );
}

#[test]
fn lxi_without_its_operand_rows_does_not_decode() {
    let rows = vec![bits(0x01), bits(0x80)];
    assert_eq!(decode_instruction_at(&rows, 0), None);
    assert!(decode_instructions(&rows).is_none());
}

#[test]
fn mov_m_m_reads_back_as_hlt() {
    let instruction = Instruction::DoubleRegister(InstructionCommand::Mov, (InstructionRegister::M, InstructionRegister::M));
    let decoded = decode_instructions(&split_rows(&instruction.encode())).unwrap();
    assert_eq!(decoded.get(&0), Some(&Instruction::NoRegister(InstructionCommand::Hlt)));
}

#[test]
fn undecodable_rows_are_refused() {
    // an opcode without a meaning
    assert!(decode_instructions(&[bits(0x00)]).is_none());
    // an immediate instruction without its operand
    assert!(decode_instructions(&[bits(0xc6)]).is_none());
    // a jump with one operand row of two
    assert!(decode_instructions(&[bits(0xc3), bits(1)]).is_none());
    // a row that is not eight bits
    assert!(decode_instructions(&[vec![0, 1, 1, 1, 0, 1, 1]]).is_none());
    assert!(decode_instructions(&[vec![0, 1, 1, 1, 0, 1, 1, 2]]).is_none());
    // STAX naming HL is SHLD, which needs two operand rows
    assert!(decode_instructions(&[bits(0x22)]).is_none());
    // an empty program decodes to nothing
    assert!(decode_instructions(&[]).unwrap().is_empty());
}

#[test]
fn decode_reads_push_and_pop_of_psw() {
    let decoded = decode_instructions(&[bits(0xf5), bits(0xc1)]).unwrap();
    assert_eq!(
        decoded.get(&0),
        Some(&Instruction::PairRegister(InstructionCommand::Push, InstructionRegisterPair::FA))
    );
    assert_eq!(
        decoded.get(&1),
        Some(&Instruction::PairRegister(InstructionCommand::Pop, InstructionRegisterPair::BC))
    );
}

#[test]
fn operand_rows_of_any_length_are_read_as_binary_to_int_reads_them() {
    let rows = vec![bits(0xc6), vec![1, 1]];
    let decoded = decode_instructions(&rows).unwrap();
    assert_eq!(decoded.get(&0), Some(&Instruction::Intermediate(InstructionCommand::Adi, binary_to_int(&[1, 1]))));
}
