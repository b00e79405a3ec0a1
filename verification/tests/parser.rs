use emu8080::assembler::parser::binary_to_int;
use emu8080::assembler::{InstructionArgument, InstructionRegister, InstructionRegisterPair};

#[test]
fn test_register_encoding() {
    assert_eq!(*InstructionRegister::A.encode(), vec![1, 1, 1]);
    assert_eq!(*InstructionRegister::B.encode(), vec![0, 0, 0]);
    assert_eq!(*InstructionRegister::C.encode(), vec![0, 0, 1]);
    assert_eq!(*InstructionRegister::D.encode(), vec![0, 1, 0]);
    assert_eq!(*InstructionRegister::E.encode(), vec![0, 1, 1]);
    assert_eq!(*InstructionRegister::H.encode(), vec![1, 0, 0]);
    assert_eq!(*InstructionRegister::L.encode(), vec![1, 0, 1]);
    assert_eq!(*InstructionRegister::M.encode(), vec![1, 1, 0]);
}

#[test]
fn test_register_decoding() {
    assert!(matches!(
        InstructionRegister::decode(&[1, 1, 1]),
        InstructionRegister::A
    ));
    assert!(matches!(
        InstructionRegister::decode(&[0, 0, 0]),
        InstructionRegister::B
    ));
    assert!(matches!(
        InstructionRegister::decode(&[0, 0, 1]),
        InstructionRegister::C
    ));
    assert!(matches!(
        InstructionRegister::decode(&[0, 1, 0]),
        InstructionRegister::D
    ));
    assert!(matches!(
        InstructionRegister::decode(&[0, 1, 1]),
        InstructionRegister::E
    ));
    assert!(matches!(
        InstructionRegister::decode(&[1, 0, 0]),
        InstructionRegister::H
    ));
    assert!(matches!(
        InstructionRegister::decode(&[1, 0, 1]),
        InstructionRegister::L
    ));
    assert!(matches!(
        InstructionRegister::decode(&[1, 1, 0]),
        InstructionRegister::M
    ));
}

#[test]
fn test_register_pair_encoding() {
    assert_eq!(InstructionRegisterPair::BC.encode(), &[0, 0]);
    assert_eq!(InstructionRegisterPair::DE.encode(), &[0, 1]);
    assert_eq!(InstructionRegisterPair::HL.encode(), &[1, 0]);
    assert_eq!(InstructionRegisterPair::SP.encode(), &[1, 1]);
}

#[test]
fn test_register_pair_decoding() {
    assert!(matches!(
        InstructionRegisterPair::decode(&[0, 0]),
        InstructionRegisterPair::BC
    ));
    assert!(matches!(
        InstructionRegisterPair::decode(&[0, 1]),
        InstructionRegisterPair::DE
    ));
    assert!(matches!(
        InstructionRegisterPair::decode(&[1, 0]),
        InstructionRegisterPair::HL
    ));
    assert!(matches!(
        InstructionRegisterPair::decode(&[1, 1]),
        InstructionRegisterPair::SP
    ));
}

#[test]
fn test_to_index() {
    assert_eq!(InstructionRegister::A.to_index(), 0);
    assert_eq!(InstructionRegister::B.to_index(), 1);
    assert_eq!(InstructionRegister::C.to_index(), 2);
    assert_eq!(InstructionRegister::D.to_index(), 3);
    assert_eq!(InstructionRegister::E.to_index(), 4);
    assert_eq!(InstructionRegister::H.to_index(), 5);
    assert_eq!(InstructionRegister::L.to_index(), 6);
    assert_eq!(InstructionRegister::M.to_index(), 7);
}

#[test]
fn test_from_index() {
    assert!(matches!(
        InstructionRegister::from_index(0),
        InstructionRegister::A
    ));
    assert!(matches!(
        InstructionRegister::from_index(1),
        InstructionRegister::B
    ));
    assert!(matches!(
        InstructionRegister::from_index(2),
        InstructionRegister::C
    ));
    assert!(matches!(
        InstructionRegister::from_index(3),
        InstructionRegister::D
    ));
    assert!(matches!(
        InstructionRegister::from_index(4),
        InstructionRegister::E
    ));
    assert!(matches!(
        InstructionRegister::from_index(5),
        InstructionRegister::H
    ));
    assert!(matches!(
        InstructionRegister::from_index(6),
        InstructionRegister::L
    ));
    assert!(matches!(
        InstructionRegister::from_index(7),
        InstructionRegister::M
    ));
}

#[test]
fn test_binary_to_int() {
    assert_eq!(binary_to_int(&mut vec![0, 0, 0, 0, 1, 1, 1, 1]), 15);
    assert_eq!(binary_to_int(&mut vec![1, 0, 0, 0, 0, 0, 0, 0]), -128);
}
