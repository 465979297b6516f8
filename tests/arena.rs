use jitbuff::arena::{ArenaError, CodeBuff, Protection};
use jitbuff::emitter::{Emitter, Opcode, Operand, Reg64};

fn region(size: u32) -> CodeBuff {
    CodeBuff::new(size, 1, Ok(0x10_0000)).unwrap()
}

#[test]
fn new_region_is_zeroed_and_writable() {
    let cb = CodeBuff::new(4096, 2, Ok(0x7000_0000)).unwrap();
    assert_eq!(cb.get_size(), 8192);
    assert_eq!(cb.position(), 0);
    assert_eq!(cb.protection(), Protection::ReadWrite);
    assert!(!cb.is_released());
    assert_eq!(cb.index(8191), Ok(0));
}

#[test]
fn allocation_failure_carries_code() {
    assert_eq!(CodeBuff::new(4096, 1, Err(12)).err(), Some(ArenaError::AllocationFailure(12)));
}

#[test]
fn region_size_overflow() {
    assert_eq!(CodeBuff::region_size(4096, 3), Some(12288));
    assert_eq!(CodeBuff::region_size(0x1_0000, 0x1_0000), None);
}

#[test]
fn append_past_capacity() {
    let mut cb = region(4);
    assert_eq!(cb.write_bytes(&[1, 2]), Ok(2));
    assert_eq!(cb.write_bytes(&[3, 4, 5]), Err(ArenaError::BufferExhausted));
    assert_eq!(cb.position(), 4);
    assert_eq!(cb.index(0), Ok(1));
    assert_eq!(cb.index(1), Ok(2));
    assert_eq!(cb.index(2), Ok(3));
    assert_eq!(cb.index(3), Ok(4));
    assert_eq!(cb.write_u8(9), Err(ArenaError::BufferExhausted));
    assert_eq!(cb.position(), 4);
    assert_eq!(cb.index(3), Ok(4));
}

#[test]
fn typed_writes_are_little_endian() {
    let mut cb = region(16);
    assert_eq!(cb.write_u16(0xBEEF), Ok(2));
    assert_eq!(cb.write_u32(0x0102_0304), Ok(4));
    assert_eq!(cb.write_u64(0x1122_3344_5566_7788), Ok(8));
    let bytes: Vec<u8> = (0..14).map(|i| cb.index(i).unwrap()).collect();
    assert_eq!(
        bytes,
        vec![0xEF, 0xBE, 0x04, 0x03, 0x02, 0x01, 0x88, 0x77, 0x66, 0x55, 0x44, 0x33, 0x22, 0x11]
    );
    assert_eq!(cb.position(), 14);
}

#[test]
fn index_out_of_range() {
    let mut cb = region(8);
    assert_eq!(cb.index(8), Err(ArenaError::BoundsViolation));
    assert_eq!(cb.store(8, 1), Err(ArenaError::BoundsViolation));
    assert_eq!(cb.store(7, 0xC3), Ok(()));
    assert_eq!(cb.index(7), Ok(0xC3));
    assert_eq!(cb.position(), 0);
}

#[test]
fn cursor_snapshot_and_addresses() {
    let mut cb = region(64);
    cb.write_bytes(&[0x90; 10]).unwrap();
    let pos = cb.position();
    assert_eq!(pos, 10);
    assert_eq!(cb.get_address(pos), 0x10_0000 + 10);
    cb.set_position(2);
    assert_eq!(cb.write_u8(0xCC), Ok(1));
    assert_eq!(cb.position(), 3);
    assert_eq!(cb.index(2), Ok(0xCC));
}

#[test]
fn protection_transitions() {
    let mut cb = region(16);
    assert_eq!(CodeBuff::protection_for(false, false), Protection::ReadOnly);
    assert_eq!(CodeBuff::protection_for(true, false), Protection::ReadExecute);
    assert_eq!(cb.entry_point(0), None);
    assert_eq!(cb.protect(true, true, Err(13)), Err(ArenaError::ProtectionFailure(13)));
    assert_eq!(cb.protection(), Protection::ReadWrite);
    assert_eq!(cb.protect(true, true, Ok(())), Ok(()));
    assert_eq!(cb.protection(), Protection::ReadWriteExecute);
    assert_eq!(cb.entry_point(4), Some(0x10_0004));
    assert_eq!(cb.entry_point(16), None);
    assert_eq!(cb.protect(false, true, Ok(())), Ok(()));
    assert_eq!(cb.entry_point(4), None);
}

#[test]
fn release_twice() {
    let mut cb = region(16);
    assert!(cb.release());
    assert!(cb.is_released());
    assert!(!cb.release());
    assert!(cb.is_released());
}

#[test]
fn emit_appends_encodings() {
    let e = Emitter::new();
    let mut cb = region(32);
    assert_eq!(e.emit(Opcode::Mov, Operand::Reg64Imm32 { r: Reg64::Rax, i: 3 }, &mut cb), 7);
    assert_eq!(e.emit(Opcode::Ret, Operand::Empty, &mut cb), 1);
    assert_eq!(e.emit(Opcode::Ret, Operand::Imm32(0), &mut cb), -1);
    assert_eq!(cb.position(), 8);
    let bytes: Vec<u8> = (0..8).map(|i| cb.index(i).unwrap()).collect();
    assert_eq!(bytes, vec![0x48, 0xC7, 0xC0, 0x03, 0x00, 0x00, 0x00, 0xC3]);
}

#[test]
fn emit_into_full_buffer() {
    let e = Emitter::new();
    let mut cb = region(2);
    assert_eq!(e.emit(Opcode::Inc, Operand::Register(jitbuff::emitter::Register::Reg64(Reg64::Rax)), &mut cb), -2);
    assert_eq!(cb.position(), 2);
    assert_eq!(cb.index(0), Ok(0x48));
    assert_eq!(cb.index(1), Ok(0xFF));
    assert_eq!(e.emit(Opcode::Ret, Operand::Empty, &mut cb), -2);
    assert_eq!(e.emit(Opcode::Ret, Operand::Imm8(0), &mut cb), -1);
    assert_eq!(cb.position(), 2);
}

#[test]
fn emit_exactly_filling_buffer() {
    let e = Emitter::new();
    let mut cb = region(4);
    assert_eq!(e.emit(Opcode::Mov, Operand::Reg64Reg64 { d: Reg64::Rax, s: Reg64::Rcx }, &mut cb), 3);
    assert_eq!(e.emit(Opcode::Ret, Operand::Empty, &mut cb), 1);
    assert_eq!(cb.position(), 4);
    assert_eq!(cb.index(3), Ok(0xC3));
}
