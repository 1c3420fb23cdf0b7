use cpu16_emu::decoder::{BitRangeError, InstructionWord, Opcode};
use cpu16_emu::ir::{
    BinaryOp, JumpCondition, JumpTarget, LoadSource, Operation, TernaryOp, UnaryOp,
};

const BYTES1: [u8; 3] = [0x03, 0x6f, 0x66];
const BUFFER1: u32 = 0x03_6f_66u32;
const BYTES2: [u8; 3] = [0x0f, 0x0f, 0x0f];
const BUFFER2: u32 = 0x0f_0f_0fu32;
const BYTES3: [u8; 3] = [0x07, 0x23, 0xf7];
const BUFFER3: u32 = 0x07_23_f7u32;
const BYTES4: [u8; 3] = [0b0000_1010, 0b0010_1001, 0b0011_0011];
const BUFFER4: u32 = 0b0000_1010_0010_1001_0011_0011;

#[test]
fn instructionword_construction_test() {
    let word1 = InstructionWord::from(BYTES1);
    assert_eq!(word1.buffer, BUFFER1);

    let word2 = InstructionWord::from(BYTES2);
    assert_eq!(word2.buffer, BUFFER2);

    let word3 = InstructionWord::from(BYTES3);
    assert_eq!(word3.buffer, BUFFER3);

    let word4 = InstructionWord::from(BYTES4);
    assert_eq!(word4.buffer, BUFFER4);

    assert_eq!(word1.get_bits(0, 3).unwrap(), 0x6);
    assert_eq!(word2.get_bits(8, 11).unwrap(), 0xf);
    assert_eq!(word3.get_bits(4, 4).unwrap(), 0x1);
    assert_eq!(word1.get_bits(0, 0).unwrap(), 0x0);
    assert_eq!(word4.get_bits(10, 12).unwrap(), 0b010);
}

const INSTR1: u32 = 0x800a1; // ldc %reg2 0x8001
const INSTR2: u32 = 0x00005; // inc %reg0
const INSTR3: u32 = 0x01100; // add %reg0 %reg1 %reg2
const INSTR4: u32 = 0x6ac01; // add3 %reg3 %reg4 %reg5 %reg2
const INSTR5: u32 = 0x02c03; // sub %reg0 %reg4 %reg5
const INSTR6: u32 = 0x42104; // subc %reg2 %reg1 %reg4
const INSTR7: u32 = 0x783d2; // ldc %reg5 0x7832
const INSTR8: u32 = 0x0210a; // or $reg0 %reg1 %reg4
const INSTR9: u32 = 0x0006c; // nop
const INSTR10: u32 = 0x00251; // jz %reg2
const INSTR11: u32 = 0x00350; // jmp %reg3
const INSTR12: u32 = 0x0045b; // jcr 5
const INSTR13: u32 = 0x01968; // st %reg3 %reg1
const INSTR14: u32 = 0x42869; // ld %reg2 %reg5
const INSTRH: u32 = 0x0007f; // halt

#[test]
fn instructionword_getter_test() {
    let word1 = InstructionWord::from(INSTR1);
    assert_eq!(word1.get_opcode(), Opcode::LDC);
    assert_eq!(word1.get_load_address(), 2);
    assert_eq!(word1.get_constant16(), 0x8001);

    let op1 = Operation::from(word1);
    assert_eq!(
        op1,
        Operation::Load {
            target_register: 0x2,
            source: LoadSource::Constant(0x8001),
        }
    );

    let word2 = InstructionWord::from(INSTR2);
    assert_eq!(word2.get_opcode(), Opcode::INC);
    assert_eq!(word2.get_target(), 0x0);
    assert_eq!(word2.get_op_a(), 0x0);

    let op2 = Operation::from(word2);
    assert_eq!(
        op2,
        Operation::Inc(UnaryOp {
            target: 0x0,
            source_a: 0x0
        }),
    );

    let word3 = InstructionWord::from(INSTR3);
    assert_eq!(word3.get_opcode(), Opcode::ADD);
    assert_eq!(word3.get_target(), 0x0);
    assert_eq!(word3.get_op_a(), 0x1);
    assert_eq!(word3.get_op_b(), 0x2);

    let op3 = Operation::from(word3);
    assert_eq!(
        op3,
        Operation::Add(BinaryOp {
            target: 0x0,
            source_a: 0x1,
            source_b: 0x2
        })
    );

    let word4 = InstructionWord::from(INSTR4);
    assert_eq!(word4.get_opcode(), Opcode::ADD3);
    assert_eq!(word4.get_target(), 0x3);
    assert_eq!(word4.get_op_a(), 0x4);
    assert_eq!(word4.get_op_b(), 0x5);
    assert_eq!(word4.get_op_c(), 0x2);

    let op4 = Operation::from(word4);
    assert_eq!(
        op4,
        Operation::Add3(TernaryOp {
            target: 0x3,
            source_a: 0x4,
            source_b: 0x5,
            source_c: 0x2
        })
    );

    let word5 = InstructionWord::from(INSTR5);
    assert_eq!(word5.get_opcode(), Opcode::SUB);
    assert_eq!(word5.get_target(), 0x0);
    assert_eq!(word5.get_op_a(), 0x4);
    assert_eq!(word5.get_op_b(), 0x5);

    let op5 = Operation::from(word5);
    assert_eq!(
        op5,
        Operation::Sub(BinaryOp {
            target: 0x0,
            source_a: 0x4,
            source_b: 0x5
        })
    );

    let word6 = InstructionWord::from(INSTR6);
    assert_eq!(word6.get_opcode(), Opcode::SUBC);
    assert_eq!(word6.get_target(), 0x2);
    assert_eq!(word6.get_op_a(), 0x1);
    assert_eq!(word6.get_op_b(), 0x4);

    let op6 = Operation::from(word6);
    assert_eq!(
        op6,
        Operation::SubCarry(BinaryOp {
            target: 0x2,
            source_a: 0x1,
            source_b: 0x4
        })
    );

    let word7 = InstructionWord::from(INSTR7);
    assert_eq!(word7.get_opcode(), Opcode::LDC);
    assert_eq!(word7.get_load_address(), 0x5);
    assert_eq!(word7.get_constant16(), 0x7832);

    let op7 = Operation::from(word7);
    assert_eq!(
        op7,
        Operation::Load {
            target_register: 0x5,
            source: LoadSource::Constant(0x7832),
        }
    );

    let word8 = InstructionWord::from(INSTR8);
    assert_eq!(word8.get_opcode(), Opcode::OR);
    assert_eq!(word8.get_target(), 0x0);
    assert_eq!(word8.get_op_a(), 0x1);
    assert_eq!(word8.get_op_b(), 0x4);

    let op8 = Operation::from(word8);
    assert_eq!(
        op8,
        Operation::Or(BinaryOp {
            target: 0x0,
            source_a: 0x1,
            source_b: 0x4
        })
    );

    let word9 = InstructionWord::from(INSTR9);
    assert_eq!(word9.get_opcode(), Opcode::NOP);

    let op9 = Operation::from(word9);
    assert_eq!(op9, Operation::Noop);

    let word10 = InstructionWord::from(INSTR10);
    assert_eq!(word10.get_opcode(), Opcode::JZ);
    assert_eq!(word10.get_op_a(), 0x2);

    let op10 = Operation::from(word10);
    assert_eq!(
        op10,
        Operation::Jump {
            target: JumpTarget::AbsoluteAdressRegister(0x2),
            condition: JumpCondition::Zero,
        }
    );

    let word11 = InstructionWord::from(INSTR11);
    assert_eq!(word11.get_opcode(), Opcode::JMP);
    assert_eq!(word11.get_op_a(), 0x3);

    let op11 = Operation::from(word11);
    assert_eq!(
        op11,
        Operation::Jump {
            target: JumpTarget::AbsoluteAdressRegister(0x3),
            condition: JumpCondition::Always
        }
    );

    let word12 = InstructionWord::from(INSTR12);
    assert_eq!(word12.get_opcode(), Opcode::JCR);
    assert_eq!(word12.get_constant12(), 4);
    // The argument is 5, but actually we only jump
    // 4 steps due to program counter incrementing anyway

    let op12 = Operation::from(word12);
    assert_eq!(
        op12,
        Operation::Jump {
            target: JumpTarget::AddressOffsetConstant(0x4),
            condition: JumpCondition::Carry
        }
    );

    let word13 = InstructionWord::from(INSTR13);
    assert_eq!(word13.get_opcode(), Opcode::ST);
    assert_eq!(word13.get_op_a(), 0x1); // Data register
    assert_eq!(word13.get_op_b(), 0x3); // Address register

    let op13 = Operation::from(word13);
    assert_eq!(
        op13,
        Operation::Store {
            address_register: 0x3,
            data_register: 0x1
        }
    );

    let word14 = InstructionWord::from(INSTR14);
    assert_eq!(word14.get_opcode(), Opcode::LD);
    assert_eq!(word14.get_target(), 0x2); // Target register
    assert_eq!(word14.get_op_b(), 0x5); // Source address register

    let op14 = Operation::from(word14);
    assert_eq!(
        op14,
        Operation::Load {
            target_register: 0x2,
            source: LoadSource::RAM {
                address_register: 0x5
            }
        }
    );

    let wordh = InstructionWord::from(INSTRH);
    assert_eq!(wordh.get_opcode(), Opcode::HLT);

    let oph = Operation::from(wordh);
    assert_eq!(oph, Operation::Halt);
}

#[test]
fn get_bits_rejects_ranges_outside_the_word() {
    let word = InstructionWord::from_u32(0xfffff);
    assert_eq!(word.get_bits(0, 20), Err(BitRangeError::InvalidBounds));
    assert_eq!(word.get_bits(20, 20), Err(BitRangeError::InvalidBounds));
    assert_eq!(word.get_bits(5, 4), Err(BitRangeError::InvalidBounds));
    assert_eq!(word.get_bits(0, u32::MAX), Err(BitRangeError::InvalidBounds));
    assert_eq!(word.get_bits(0, 19), Ok(0xfffff));
    assert_eq!(word.get_bits(19, 19), Ok(1));
}

#[test]
fn get_bits_with_equal_bounds_reads_one_bit() {
    let word = InstructionWord::from_u32(0b1010_0000_0000_0000_0101);
    assert_eq!(word.get_bits(0, 0), Ok(1));
    assert_eq!(word.get_bits(1, 1), Ok(0));
    assert_eq!(word.get_bits(2, 2), Ok(1));
    assert_eq!(word.get_bits(17, 17), Ok(1));
    assert_eq!(word.get_bits(18, 18), Ok(0));
    assert_eq!(word.get_bits(19, 19), Ok(1));
}

#[test]
fn from_u32_keeps_the_low_twenty_bits() {
    assert_eq!(InstructionWord::from_u32(0xfff_fffff).buffer, 0xfffff);
    assert_eq!(InstructionWord::from_u32(0x0010_0000).buffer, 0);
    assert_eq!(InstructionWord::from(0x1234_5678u32).buffer, 0x45678);
    assert_eq!(InstructionWord::from_u32(0x800a1).buffer, 0x800a1);
}

#[test]
fn from_bytes_joins_big_endian_modulo_two_to_the_twenty() {
    assert_eq!(InstructionWord::from_bytes([0xff, 0xff, 0xff]).buffer, 0xfffff);
    assert_eq!(InstructionWord::from_bytes([0xf0, 0x00, 0x01]).buffer, 0x00001);
    assert_eq!(InstructionWord::from_bytes([0x12, 0x34, 0x56]).buffer, 0x23456);
    assert_eq!(
        InstructionWord::from([0xab, 0xcd, 0xef]).buffer,
        ((0xabu32 << 16) | (0xcdu32 << 8) | 0xefu32) % (1 << 20)
    );
}

#[test]
fn opcode_byte_is_clamped_to_0x80() {
    assert_eq!(InstructionWord::from_u32(0x800a1).opcode(), 0x80);
    assert_eq!(InstructionWord::from_u32(0x000ff).opcode(), 0x80);
    assert_eq!(InstructionWord::from_u32(0x00080).opcode(), 0x80);
    assert_eq!(InstructionWord::from_u32(0x0007f).opcode(), 0x7f);
    assert_eq!(InstructionWord::from_u32(0xfff00).opcode(), 0x00);
    let mut w: u32 = 0;
    while w < (1 << 20) {
        let code = InstructionWord::from_u32(w).opcode();
        assert!(code <= 0x80);
        if w & 0xff >= 0x80 {
            assert_eq!(code, 0x80);
        } else {
            assert_eq!(code as u32, w & 0xff);
        }
        w += 37;
    }
}

#[test]
fn opcode_codes_round_trip() {
    let all = [
        (Opcode::ADD, 0x00u8),
        (Opcode::ADD3, 0x01),
        (Opcode::ADC, 0x02),
        (Opcode::SUB, 0x03),
        (Opcode::SUBC, 0x04),
        (Opcode::INC, 0x05),
        (Opcode::DEC, 0x06),
        (Opcode::MUL, 0x07),
        (Opcode::TST, 0x08),
        (Opcode::AND, 0x09),
        (Opcode::OR, 0x0a),
        (Opcode::NOT, 0x0b),
        (Opcode::NEG, 0x0c),
        (Opcode::XOR, 0x0d),
        (Opcode::XNOR, 0x0e),
        (Opcode::SHL, 0x0f),
        (Opcode::SHR, 0x10),
        (Opcode::MOV, 0x48),
        (Opcode::JMP, 0x50),
        (Opcode::JZ, 0x51),
        (Opcode::JNZ, 0x52),
        (Opcode::JC, 0x53),
        (Opcode::JNC, 0x54),
        (Opcode::JRCON, 0x58),
        (Opcode::JZR, 0x59),
        (Opcode::JNZR, 0x5a),
        (Opcode::JCR, 0x5b),
        (Opcode::JNCR, 0x5c),
        (Opcode::ST, 0x68),
        (Opcode::LD, 0x69),
        (Opcode::NOP, 0x6c),
        (Opcode::DBG, 0x7e),
        (Opcode::HLT, 0x7f),
        (Opcode::LDC, 0x80),
    ];
    for (opcode, code) in all {
        assert_eq!(opcode.to_code(), code);
        assert_eq!(Opcode::from_code(code), Some(opcode));
    }
    let mut known = 0;
    for code in 0..=255u8 {
        if Opcode::from_code(code).is_some() {
            known += 1;
        }
    }
    assert_eq!(known, 34);
    assert_eq!(Opcode::from_code(0x11), None);
    assert_eq!(Opcode::from_code(0x81), None);
}

#[test]
fn unknown_opcode_decodes_to_noop() {
    let word = InstructionWord::from_u32(0x12311);
    assert!(!word.has_known_opcode());
    assert_eq!(word.get_opcode(), Opcode::NOP);
    assert_eq!(word.decode(), Operation::Noop);
    assert_eq!(Operation::from(0x0004fu32), Operation::Noop);
    assert!(InstructionWord::from_u32(0x0006c).has_known_opcode());
}

#[test]
fn debug_opcode_decodes_to_noop() {
    let word = InstructionWord::from_u32(0x0007e);
    assert!(word.has_known_opcode());
    assert_eq!(word.get_opcode(), Opcode::DBG);
    assert_eq!(word.decode(), Operation::Noop);
}

#[test]
fn relative_jump_offsets_are_sign_extended() {
    assert_eq!(InstructionWord::from_u32(0xff85a).get_constant12(), 0xff8);
    assert_eq!(InstructionWord::from_u32(0xff85a).get_jump_offset(), -8);
    assert_eq!(InstructionWord::from_u32(0x7ff58).get_jump_offset(), 0x7ff);
    assert_eq!(InstructionWord::from_u32(0x80058).get_jump_offset(), -0x800);
    assert_eq!(InstructionWord::from_u32(0xfff58).get_jump_offset(), -1);
    assert_eq!(InstructionWord::from_u32(0x00058).get_jump_offset(), 0);
    assert_eq!(
        Operation::from(0xff85au32),
        Operation::Jump {
            target: JumpTarget::AddressOffsetConstant(-8),
            condition: JumpCondition::NotZero
        }
    );
}

#[test]
fn every_opcode_decodes_to_its_variant() {
    let b = BinaryOp { target: 5, source_a: 3, source_b: 6 };
    let u = UnaryOp { target: 5, source_a: 3 };
    // target 5, op_c 1, op_b 6, op_a 3
    let fields: u32 = (5 << 17) | (1 << 14) | (6 << 11) | (3 << 8);
    let rel = |condition| Operation::Jump {
        target: JumpTarget::AddressOffsetConstant(
            ((fields >> 8) as i32 - 0x1000) as i16,
        ),
        condition,
    };
    let abs = |condition| Operation::Jump {
        target: JumpTarget::AbsoluteAdressRegister(3),
        condition,
    };
    let expected = [
        (0x00u32, Operation::Add(b)),
        (0x01, Operation::Add3(TernaryOp { target: 5, source_a: 3, source_b: 6, source_c: 1 })),
        (0x02, Operation::AddCarry(b)),
        (0x03, Operation::Sub(b)),
        (0x04, Operation::SubCarry(b)),
        (0x05, Operation::Inc(u)),
        (0x06, Operation::Dec(u)),
        (0x07, Operation::Multiply(b)),
        (0x08, Operation::Test(b)),
        (0x09, Operation::And(b)),
        (0x0a, Operation::Or(b)),
        (0x0b, Operation::Not(u)),
        (0x0c, Operation::Neg(u)),
        (0x0d, Operation::Xor(b)),
        (0x0e, Operation::Xnor(b)),
        (0x0f, Operation::ShiftLeft(b)),
        (0x10, Operation::ShiftRight(b)),
        (0x48, Operation::Move(u)),
        (0x50, abs(JumpCondition::Always)),
        (0x51, abs(JumpCondition::Zero)),
        (0x52, abs(JumpCondition::NotZero)),
        (0x53, abs(JumpCondition::Carry)),
        (0x54, abs(JumpCondition::NotCarry)),
        (0x58, rel(JumpCondition::Always)),
        (0x59, rel(JumpCondition::Zero)),
        (0x5a, rel(JumpCondition::NotZero)),
        (0x5b, rel(JumpCondition::Carry)),
        (0x5c, rel(JumpCondition::NotCarry)),
        (0x68, Operation::Store { address_register: 6, data_register: 3 }),
        (
            0x69,
            Operation::Load { target_register: 5, source: LoadSource::RAM { address_register: 6 } },
        ),
        (0x6c, Operation::Noop),
        (0x7e, Operation::Noop),
        (0x7f, Operation::Halt),
    ];
    for (code, operation) in expected {
        let decoded = InstructionWord::from_u32(fields | code).decode();
        assert_eq!(decoded, operation);
        assert!(decoded.is_well_formed());
    }
}

#[test]
fn load_constant_takes_its_low_bits_from_the_opcode_byte() {
    // 0xfffdf: constant 0xffff into register 5
    let word = InstructionWord::from_u32(0xfffdf);
    assert!(word.get_load());
    assert_eq!(word.get_load_address(), 5);
    assert_eq!(word.get_constant16(), 0xffff);
    assert_eq!(
        word.decode(),
        Operation::Load { target_register: 5, source: LoadSource::Constant(0xffff) }
    );
    let word = InstructionWord::from_u32(0x1238c);
    assert_eq!(word.get_constant16(), 0x123c);
    assert_eq!(word.get_load_address(), 0);
    assert!(!InstructionWord::from_u32(0x0007f).get_load());
}

#[test]
fn operand_groups_read_their_fields() {
    let word = InstructionWord::from_u32(0x6ac01);
    assert_eq!(word.get_unary_op(), UnaryOp { target: 3, source_a: 4 });
    assert_eq!(word.get_binary_op(), BinaryOp { target: 3, source_a: 4, source_b: 5 });
    assert_eq!(
        word.get_ternary_op(),
        TernaryOp { target: 3, source_a: 4, source_b: 5, source_c: 2 }
    );
}

#[test]
fn instruction_word_in_binary() {
    for value in [0u32, 1, 2, 5, 0x800a1, 0xfffff] {
        assert_eq!(InstructionWord::from_u32(value).to_string(), format!("{:#b}", value));
    }
    assert_eq!(InstructionWord::from_u32(0x800a1).to_string(), "0b10000000000010100001");
}
