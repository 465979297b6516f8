use jitbuff::emitter::{EncodeError, Emitter, Jmp, Opcode, Operand, Reg64, Register, JE, JG, JNE};

fn reg(r: Reg64) -> Operand {
    Operand::Register(Register::Reg64(r))
}

#[test]
fn ret_without_operand() {
    assert_eq!(Emitter::encode(Opcode::Ret, Operand::Empty), Ok(vec![0xC3]));
}

#[test]
fn ret_with_operand_is_invalid() {
    assert_eq!(Emitter::encode(Opcode::Ret, Operand::Imm8(1)), Err(EncodeError::InvalidOperand));
    assert_eq!(Emitter::encode(Opcode::Ret, reg(Reg64::Rax)), Err(EncodeError::InvalidOperand));
}

#[test]
fn mov_rax_imm3() {
    assert_eq!(
        Emitter::encode(Opcode::Mov, Operand::Reg64Imm32 { r: Reg64::Rax, i: 3 }),
        Ok(vec![0x48, 0xC7, 0xC0, 0x03, 0x00, 0x00, 0x00])
    );
}

#[test]
fn mov_imm_little_endian() {
    assert_eq!(
        Emitter::encode(Opcode::Mov, Operand::Reg64Imm32 { r: Reg64::R9, i: 0x1234_5678 }),
        Ok(vec![0x49, 0xC7, 0xC1, 0x78, 0x56, 0x34, 0x12])
    );
}

#[test]
fn mov_rax_from_rcx() {
    assert_eq!(
        Emitter::encode(Opcode::Mov, Operand::Reg64Reg64 { d: Reg64::Rax, s: Reg64::Rcx }),
        Ok(vec![0x48, 0x89, 0xC8])
    );
}

#[test]
fn mov_extended_registers() {
    assert_eq!(
        Emitter::encode(Opcode::Mov, Operand::Reg64Reg64 { d: Reg64::R8, s: Reg64::R15 }),
        Ok(vec![0x4D, 0x89, 0xF8])
    );
    assert_eq!(
        Emitter::encode(Opcode::Mov, Operand::Reg64Reg64 { d: Reg64::Rax, s: Reg64::R10 }),
        Ok(vec![0x4C, 0x89, 0xD0])
    );
}

#[test]
fn inc_rax() {
    assert_eq!(Emitter::encode(Opcode::Inc, reg(Reg64::Rax)), Ok(vec![0x48, 0xFF, 0xC0]));
}

#[test]
fn inc_r8() {
    assert_eq!(Emitter::encode(Opcode::Inc, reg(Reg64::R8)), Ok(vec![0x49, 0xFF, 0xC0]));
}

#[test]
fn dec_rbx() {
    assert_eq!(Emitter::encode(Opcode::Dec, reg(Reg64::Rbx)), Ok(vec![0x48, 0xFF, 0xCB]));
}

#[test]
fn inc_dec_byte_pointer() {
    assert_eq!(Emitter::encode(Opcode::Inc, Operand::BytePtr(Reg64::Rdi)), Ok(vec![0xFE, 0x07]));
    assert_eq!(Emitter::encode(Opcode::Dec, Operand::BytePtr(Reg64::Rcx)), Ok(vec![0xFE, 0x09]));
    assert_eq!(
        Emitter::encode(Opcode::Inc, Operand::BytePtr(Reg64::R11)),
        Ok(vec![0x41, 0xFE, 0x03])
    );
}

#[test]
fn cmp_register_imm8() {
    assert_eq!(
        Emitter::encode(Opcode::Cmp, Operand::BytePtrImm8 { d: Reg64::Rdx, s: 0x7F }),
        Ok(vec![0x80, 0xC2, 0x7F])
    );
    assert_eq!(
        Emitter::emit_cmp(Operand::BytePtrImm8 { d: Reg64::R12, s: 5 }),
        Ok(vec![0x41, 0x80, 0xC4, 0x05])
    );
}

#[test]
fn unsupported_pairs() {
    assert_eq!(Emitter::encode(Opcode::Mov, Operand::Empty), Err(EncodeError::UnsupportedEncoding));
    assert_eq!(Emitter::encode(Opcode::Inc, Operand::Imm32(4)), Err(EncodeError::UnsupportedEncoding));
    assert_eq!(Emitter::encode(Opcode::Cmp, reg(Reg64::Rax)), Err(EncodeError::UnsupportedEncoding));
    assert_eq!(Emitter::emit_mov(Operand::BytePtr(Reg64::Rax)), Err(EncodeError::UnsupportedEncoding));
    assert_eq!(Emitter::emit_inc_dec(Operand::Imm8(1), true), Err(EncodeError::UnsupportedEncoding));
}

#[test]
fn encoding_is_deterministic() {
    let pairs = [
        (Opcode::Mov, Operand::Reg64Imm32 { r: Reg64::R13, i: 0xDEAD_BEEF }),
        (Opcode::Dec, Operand::BytePtr(Reg64::R9)),
        (Opcode::Ret, Operand::Empty),
        (Opcode::Cmp, Operand::Imm8(0)),
    ];
    for (op, o) in pairs {
        assert_eq!(Emitter::encode(op, o), Emitter::encode(op, o));
    }
}

#[test]
fn modrm_round_trip() {
    for m in 0u8..4 {
        for r in 0u8..8 {
            for rm in 0u8..8 {
                let b = Emitter::ModRM(m, r, rm);
                assert_eq!((b >> 6, (b >> 3) & 7, b & 7), (m, r, rm));
            }
        }
    }
    assert_eq!(Emitter::ModRM(0b11, 1, 3), 0xCB);
    assert_eq!(Emitter::ModRM(7, 15, 15), 0xFF);
}

#[test]
fn rex_bits() {
    assert_eq!(Emitter::REX(false, false, false, false), 0x40);
    assert_eq!(Emitter::REX(true, false, false, false), 0x48);
    assert_eq!(Emitter::REX(false, true, false, false), 0x44);
    assert_eq!(Emitter::REX(false, false, true, false), 0x42);
    assert_eq!(Emitter::REX(false, false, false, true), 0x41);
    assert_eq!(Emitter::REX(true, true, true, true), 0x4F);
}

#[test]
fn argument_registers() {
    assert_eq!(Emitter::ArgReg(0), Reg64::Rdi);
    assert_eq!(Emitter::ArgReg(3), Reg64::Rcx);
    assert_eq!(Emitter::ArgReg(5), Reg64::R9);
}

#[test]
fn register_numbers_and_jump_codes() {
    assert_eq!(Reg64::Rsp.number(), 4);
    assert_eq!(Reg64::R15.number(), 15);
    assert_eq!(Jmp::JO.code(), 0x0);
    assert_eq!(JE.code(), 0x4);
    assert_eq!(JNE.code(), 0x5);
    assert_eq!(JG.code(), 0xF);
}
