//! The instruction encoder: a pure map from an (opcode, operand) pair to the
//! bytes of one x86-64 instruction, and the emitter that appends them to a
//! code buffer.

use vstd::prelude::*;
use crate::arena::CodeBuff;
use crate::le::{le32, le_bytes_u32};

verus! {

/// The sixteen 64-bit general-purpose registers.
#[derive(PartialEq, Eq, Structural, Debug, Clone, Copy)]
pub enum Reg64 {
    Rax,
    Rcx,
    Rdx,
    Rbx,
    Rsp,
    Rbp,
    Rsi,
    Rdi,
    R8,
    R9,
    R10,
    R11,
    R12,
    R13,
    R14,
    R15,
}

impl Reg64 {
    /// The architectural number of the register, 0 through 15.
    pub open spec fn id(self) -> u8 {
        match self {
            Reg64::Rax => 0,
            Reg64::Rcx => 1,
            Reg64::Rdx => 2,
            Reg64::Rbx => 3,
            Reg64::Rsp => 4,
            Reg64::Rbp => 5,
            Reg64::Rsi => 6,
            Reg64::Rdi => 7,
            Reg64::R8 => 8,
            Reg64::R9 => 9,
            Reg64::R10 => 10,
            Reg64::R11 => 11,
            Reg64::R12 => 12,
            Reg64::R13 => 13,
            Reg64::R14 => 14,
            Reg64::R15 => 15,
        }
    }

    /// The low three bits of the number, as they stand in a ModRM field.
    pub open spec fn low3(self) -> u8 {
        (self.id() % 8) as u8
    }

    /// Whether the register needs the REX extension bit (R8 to R15).
    pub open spec fn ext(self) -> bool {
        self.id() >= 8
    }

    /// The architectural number of the register.
    pub fn number(self) -> (r: u8)
        ensures
            r == self.id(),
    {
        match self {
            Reg64::Rax => 0,
            Reg64::Rcx => 1,
            Reg64::Rdx => 2,
            Reg64::Rbx => 3,
            Reg64::Rsp => 4,
            Reg64::Rbp => 5,
            Reg64::Rsi => 6,
            Reg64::Rdi => 7,
            Reg64::R8 => 8,
            Reg64::R9 => 9,
            Reg64::R10 => 10,
            Reg64::R11 => 11,
            Reg64::R12 => 12,
            Reg64::R13 => 13,
            Reg64::R14 => 14,
            Reg64::R15 => 15,
        }
    }
}

/// Condition codes of the conditional jumps, each its own mnemonic.
#[derive(PartialEq, Eq, Structural, Debug, Clone, Copy)]
pub enum Jmp {
    JO,
    JNO,
    JB,
    JNB,
    JZ,
    JNZ,
    JBE,
    JNBE,
    JS,
    JNS,
    JP,
    JNP,
    JL,
    JNL,
    JLE,
    JNLE,
}

impl Jmp {
    /// The four-bit condition code, the low nibble of the `Jcc` opcode.
    pub fn code(self) -> (r: u8)
        ensures
            r < 16,
            self == Jmp::JO ==> r == 0x0,
            self == Jmp::JNO ==> r == 0x1,
            self == Jmp::JB ==> r == 0x2,
            self == Jmp::JNB ==> r == 0x3,
            self == Jmp::JZ ==> r == 0x4,
            self == Jmp::JNZ ==> r == 0x5,
            self == Jmp::JBE ==> r == 0x6,
            self == Jmp::JNBE ==> r == 0x7,
            self == Jmp::JS ==> r == 0x8,
            self == Jmp::JNS ==> r == 0x9,
            self == Jmp::JP ==> r == 0xA,
            self == Jmp::JNP ==> r == 0xB,
            self == Jmp::JL ==> r == 0xC,
            self == Jmp::JNL ==> r == 0xD,
            self == Jmp::JLE ==> r == 0xE,
            self == Jmp::JNLE ==> r == 0xF,
    {
        match self {
            Jmp::JO => 0x0,
            Jmp::JNO => 0x1,
            Jmp::JB => 0x2,
            Jmp::JNB => 0x3,
            Jmp::JZ => 0x4,
            Jmp::JNZ => 0x5,
            Jmp::JBE => 0x6,
            Jmp::JNBE => 0x7,
            Jmp::JS => 0x8,
            Jmp::JNS => 0x9,
            Jmp::JP => 0xA,
            Jmp::JNP => 0xB,
            Jmp::JL => 0xC,
            Jmp::JNL => 0xD,
            Jmp::JLE => 0xE,
            Jmp::JNLE => 0xF,
        }
    }
}

pub const JNAE: Jmp = Jmp::JB;
pub const JC: Jmp = Jmp::JB;
pub const JAE: Jmp = Jmp::JNB;
pub const JNC: Jmp = Jmp::JNB;
pub const JE: Jmp = Jmp::JZ;
pub const JNE: Jmp = Jmp::JNZ;
pub const JNA: Jmp = Jmp::JBE;
pub const JA: Jmp = Jmp::JNBE;
pub const JPE: Jmp = Jmp::JP;
pub const JPO: Jmp = Jmp::JNP;
pub const JNGE: Jmp = Jmp::JL;
pub const JGE: Jmp = Jmp::JNL;
pub const JNG: Jmp = Jmp::JLE;
pub const JG: Jmp = Jmp::JNLE;

/// A register operand.
#[derive(PartialEq, Eq, Structural, Debug, Clone, Copy)]
pub enum Register {
    Reg64(Reg64),
}

/// The mnemonics the encoder knows.
#[derive(PartialEq, Eq, Structural, Debug, Clone, Copy)]
pub enum Opcode {
    Cmp,
    Dec,
    Inc,
    Mov,
    Ret,
}

/// The operand of one instruction.
#[derive(PartialEq, Eq, Structural, Debug, Clone, Copy)]
#[allow(inconsistent_fields)]
pub enum Operand {
    /// No operand at all.
    Empty,
    Register(Register),
    Imm8(u8),
    Imm32(u32),
    /// A destination register and a 32-bit immediate.
    Reg64Imm32 { r: Reg64, i: u32 },
    /// A destination register `d` and a source register `s`.
    Reg64Reg64 { d: Reg64, s: Reg64 },
    /// The byte that a base register points to.
    BytePtr(Reg64),
    /// A register and an 8-bit immediate.
    BytePtrImm8 { d: Reg64, s: u8 },
}

/// Why an (opcode, operand) pair has no encoding.
#[derive(PartialEq, Eq, Structural, Debug, Clone, Copy)]
pub enum EncodeError {
    /// The opcode has no encoding for this kind of operand.
    UnsupportedEncoding,
    /// The opcode takes no operand of this kind at all.
    InvalidOperand,
}

pub open spec fn bit(b: bool) -> u8 {
    if b { 1 } else { 0 }
}

/// The REX prefix `0x40 | W<<3 | R<<2 | X<<1 | B`.
pub open spec fn rex_byte(w: bool, r: bool, x: bool, b: bool) -> u8 {
    (0x40 + 8 * bit(w) + 4 * bit(r) + 2 * bit(x) + bit(b)) as u8
}

/// The ModRM byte `(mod & 3) << 6 | (reg & 7) << 3 | (rm & 7)`.
pub open spec fn modrm_byte(m: u8, reg: u8, rm: u8) -> u8 {
    (64 * (m % 4) + 8 * (reg % 8) + rm % 8) as u8
}

/// The addressing-mode field of a ModRM byte.
pub open spec fn modrm_mod(b: u8) -> u8 {
    b / 64
}

/// The reg field of a ModRM byte.
pub open spec fn modrm_reg(b: u8) -> u8 {
    (b / 8 % 8) as u8
}

/// The rm field of a ModRM byte.
pub open spec fn modrm_rm(b: u8) -> u8 {
    b % 8
}

/// The bytes of `inc`/`dec` (ModRM reg field `field`: 0 for `inc`, 1 for
/// `dec`) on a register or on the byte that a register points to.
pub open spec fn inc_dec_encoding(o: Operand, field: u8) -> Result<Seq<u8>, EncodeError> {
    match o {
        Operand::Register(Register::Reg64(r)) => Ok(
            seq![rex_byte(true, false, false, r.ext()), 0xFFu8, modrm_byte(3, field, r.low3())],
        ),
        Operand::BytePtr(r) => if r.ext() {
            Ok(seq![rex_byte(false, false, false, true), 0xFEu8, modrm_byte(0, field, r.low3())])
        } else {
            Ok(seq![0xFEu8, modrm_byte(0, field, r.low3())])
        },
        _ => Err(EncodeError::UnsupportedEncoding),
    }
}

/// The bytes of `mov` from a 32-bit immediate or from another register.
pub open spec fn mov_encoding(o: Operand) -> Result<Seq<u8>, EncodeError> {
    match o {
        Operand::Reg64Imm32 { r, i } => Ok(
            seq![rex_byte(true, false, false, r.ext()), 0xC7u8, modrm_byte(3, 0, r.low3())] + le32(i),
        ),
        Operand::Reg64Reg64 { d, s } => Ok(
            seq![rex_byte(true, s.ext(), false, d.ext()), 0x89u8, modrm_byte(3, s.low3(), d.low3())],
        ),
        _ => Err(EncodeError::UnsupportedEncoding),
    }
}

/// The bytes of `cmp` of a register's low byte against an 8-bit immediate.
pub open spec fn cmp_encoding(o: Operand) -> Result<Seq<u8>, EncodeError> {
    match o {
        Operand::BytePtrImm8 { d, s } => {
            let body = seq![0x80u8, modrm_byte(3, 0, d.low3()), s];
            if d.ext() {
                Ok(seq![rex_byte(false, false, false, true)] + body)
            } else {
                Ok(body)
            }
        },
        _ => Err(EncodeError::UnsupportedEncoding),
    }
}

/// The encoding of one instruction, or why it has none.
pub open spec fn encoding(op: Opcode, o: Operand) -> Result<Seq<u8>, EncodeError> {
    match op {
        Opcode::Ret => if o == Operand::Empty {
            Ok(seq![0xC3u8])
        } else {
            Err(EncodeError::InvalidOperand)
        },
        Opcode::Inc => inc_dec_encoding(o, 0),
        Opcode::Dec => inc_dec_encoding(o, 1),
        Opcode::Mov => mov_encoding(o),
        Opcode::Cmp => cmp_encoding(o),
    }
}

/// The register that carries argument `i` of a call under the System V
/// AMD64 calling convention.
pub open spec fn arg_reg(i: u8) -> Reg64 {
    if i == 0 {
        Reg64::Rdi
    } else if i == 1 {
        Reg64::Rsi
    } else if i == 2 {
        Reg64::Rdx
    } else if i == 3 {
        Reg64::Rcx
    } else if i == 4 {
        Reg64::R8
    } else {
        Reg64::R9
    }
}

/// Every encoding is one to seven bytes long.
pub proof fn lemma_encoding_len(op: Opcode, o: Operand)
    ensures
        encoding(op, o) matches Ok(bytes) ==> 1 <= bytes.len() <= 7,
{
}

/// Encoding is deterministic: the same opcode and operand always give the
/// same bytes, or the same error.
pub proof fn lemma_encoding_deterministic(op1: Opcode, o1: Operand, op2: Opcode, o2: Operand)
    requires
        op1 == op2,
        o1 == o2,
    ensures
        encoding(op1, o1) == encoding(op2, o2),
{
}

/// A ModRM byte built from an addressing mode (0 to 3) and two register
/// fields (0 to 7) gives back all three when decoded.
pub proof fn lemma_modrm_round_trip(m: u8, reg: u8, rm: u8)
    requires
        m < 4,
        reg < 8,
        rm < 8,
    ensures
        modrm_mod(modrm_byte(m, reg, rm)) == m,
        modrm_reg(modrm_byte(m, reg, rm)) == reg,
        modrm_rm(modrm_byte(m, reg, rm)) == rm,
{
    assert(modrm_mod(((64 * (m % 4) + 8 * (reg % 8) + rm % 8) as u8)) == m
        && modrm_reg(((64 * (m % 4) + 8 * (reg % 8) + rm % 8) as u8)) == reg
        && modrm_rm(((64 * (m % 4) + 8 * (reg % 8) + rm % 8) as u8)) == rm) by (bit_vector)
        requires
            m < 4,
            reg < 8,
            rm < 8,
    ;
}

/// Encodes instructions; it holds no state, so every encoding depends on
/// the opcode and operand alone.
pub struct Emitter {}

impl Emitter {
    pub fn new() -> (r: Emitter) {
        Emitter {}
    }

    /// The ModRM byte of an addressing mode and two register fields; each
    /// is cut to its width first.
    #[allow(non_snake_case)]
    pub fn ModRM(m: u8, reg: u8, rm: u8) -> (r: u8)
        ensures
            r == modrm_byte(m, reg, rm),
    {
        let r = (m & 3) << 6 | (reg & 7) << 3 | (rm & 7);
        assert(r == modrm_byte(m, reg, rm)) by (bit_vector)
            requires
                r == (m & 3) << 6 | (reg & 7) << 3 | (rm & 7),
        ;
        r
    }

    /// The REX prefix with the given W, R, X and B bits.
    #[allow(non_snake_case)]
    pub fn REX(w: bool, r: bool, x: bool, b: bool) -> (rex: u8)
        ensures
            rex == rex_byte(w, r, x, b),
    {
        let wb: u8 = if w { 1 } else { 0 };
        let rb: u8 = if r { 1 } else { 0 };
        let xb: u8 = if x { 1 } else { 0 };
        let bb: u8 = if b { 1 } else { 0 };
        let rex = 0x40 | (wb << 3) | (rb << 2) | (xb << 1) | bb;
        assert(rex == (0x40 + 8 * wb + 4 * rb + 2 * xb + bb) as u8) by (bit_vector)
            requires
                rex == 0x40 | (wb << 3) | (rb << 2) | (xb << 1) | bb,
                wb < 2,
                rb < 2,
                xb < 2,
                bb < 2,
        ;
        rex
    }

    /// `cmp` of a register's low byte against an immediate.
    pub fn emit_cmp(oprnd: Operand) -> (r: Result<Vec<u8>, EncodeError>)
        ensures
            r matches Ok(v) ==> cmp_encoding(oprnd) == Ok::<Seq<u8>, EncodeError>(v@),
            r matches Err(e) ==> cmp_encoding(oprnd) == Err::<Seq<u8>, EncodeError>(e),
    {
        match oprnd {
            Operand::BytePtrImm8 { d, s: imm8 } => {
                let n = d.number();
                let reg = n & 7;
                assert(reg == n % 8) by (bit_vector)
                    requires
                        reg == n & 7,
                    ;
                let mut temp = vec![0x80u8, Emitter::ModRM(0b11, 0, reg), imm8];
                if n >= 8 {
                    temp.insert(0, Emitter::REX(false, false, false, true));
                }
                assert(temp@ =~= cmp_encoding(oprnd)->Ok_0);
                Ok(temp)
            },
            _ => Err(EncodeError::UnsupportedEncoding),
        }
    }

    /// `inc` (with `inc` set) or `dec` on a register or on the byte a
    /// register points to.
    pub fn emit_inc_dec(oprnd: Operand, inc: bool) -> (r: Result<Vec<u8>, EncodeError>)
        ensures
            r matches Ok(v) ==> inc_dec_encoding(oprnd, if inc { 0 } else { 1 }) == Ok::<
                Seq<u8>,
                EncodeError,
            >(v@),
            r matches Err(e) ==> inc_dec_encoding(oprnd, if inc { 0 } else { 1 }) == Err::<
                Seq<u8>,
                EncodeError,
            >(e),
    {
        let reg: u8 = if inc { 0 } else { 1 };
        match oprnd {
            Operand::Register(Register::Reg64(r64)) => {
                let n = r64.number();
                let rm = n & 7;
                assert(rm == n % 8) by (bit_vector)
                    requires
                        rm == n & 7,
                    ;
                let v = vec![Emitter::REX(true, false, false, n >= 8), 0xff, Emitter::ModRM(0b11, reg, rm)];
                assert(v@ =~= inc_dec_encoding(oprnd, reg)->Ok_0);
                Ok(v)
            },
            Operand::BytePtr(r) => {
                let n = r.number();
                let rm = n & 7;
                assert(rm == n % 8) by (bit_vector)
                    requires
                        rm == n & 7,
                    ;
                if n >= 8 {
                    let v = vec![Emitter::REX(false, false, false, true), 0xfe, Emitter::ModRM(0, reg, rm)];
                    assert(v@ =~= inc_dec_encoding(oprnd, reg)->Ok_0);
                    Ok(v)
                } else {
                    let v = vec![0xfe, Emitter::ModRM(0, reg, rm)];
                    assert(v@ =~= inc_dec_encoding(oprnd, reg)->Ok_0);
                    Ok(v)
                }
            },
            _ => Err(EncodeError::UnsupportedEncoding),
        }
    }

    /// `mov` of an immediate or of another register into a register.
    pub fn emit_mov(oprnd: Operand) -> (r: Result<Vec<u8>, EncodeError>)
        ensures
            r matches Ok(v) ==> mov_encoding(oprnd) == Ok::<Seq<u8>, EncodeError>(v@),
            r matches Err(e) ==> mov_encoding(oprnd) == Err::<Seq<u8>, EncodeError>(e),
    {
        match oprnd {
            Operand::Reg64Imm32 { r, i } => {
                let n = r.number();
                let rm = n & 7;
                assert(rm == n % 8) by (bit_vector)
                    requires
                        rm == n & 7,
                    ;
                let mut v = vec![Emitter::REX(true, false, false, n >= 8), 0xc7, Emitter::ModRM(0b11, 0, rm)];
                let mut le = le_bytes_u32(i);
                v.append(&mut le);
                assert(v@ =~= mov_encoding(oprnd)->Ok_0);
                Ok(v)
            },
            Operand::Reg64Reg64 { d, s } => {
                let dn = d.number();
                let sn = s.number();
                let rm = dn & 7;
                let reg = sn & 7;
                assert(rm == dn % 8 && reg == sn % 8) by (bit_vector)
                    requires
                        rm == dn & 7,
                        reg == sn & 7,
                ;
                let v = vec![Emitter::REX(true, sn >= 8, false, dn >= 8), 0x89, Emitter::ModRM(0b11, reg, rm)];
                assert(v@ =~= mov_encoding(oprnd)->Ok_0);
                Ok(v)
            },
            _ => Err(EncodeError::UnsupportedEncoding),
        }
    }

    /// The register that carries argument `i` (0 to 5) of a native call.
    #[allow(non_snake_case)]
    pub fn ArgReg(i: u8) -> (r: Reg64)
        requires
            i < 6,
        ensures
            r == arg_reg(i),
    {
        match i {
            0 => Reg64::Rdi,
            1 => Reg64::Rsi,
            2 => Reg64::Rdx,
            3 => Reg64::Rcx,
            4 => Reg64::R8,
            _ => Reg64::R9,
        }
    }

    /// The bytes of one instruction, or why the pair has no encoding. The
    /// result depends on the two arguments alone.
    pub fn encode(op: Opcode, oprnd: Operand) -> (r: Result<Vec<u8>, EncodeError>)
        ensures
            r matches Ok(v) ==> encoding(op, oprnd) == Ok::<Seq<u8>, EncodeError>(v@),
            r matches Err(e) ==> encoding(op, oprnd) == Err::<Seq<u8>, EncodeError>(e),
    {
        match op {
            Opcode::Ret => match oprnd {
                Operand::Empty => {
                    let v = vec![0xc3u8];
                    assert(v@ =~= seq![0xC3u8]);
                    Ok(v)
                },
                _ => Err(EncodeError::InvalidOperand),
            },
            Opcode::Inc => Emitter::emit_inc_dec(oprnd, true),
            Opcode::Dec => Emitter::emit_inc_dec(oprnd, false),
            Opcode::Mov => Emitter::emit_mov(oprnd),
            Opcode::Cmp => Emitter::emit_cmp(oprnd),
        }
    }

    /// Encodes one instruction and appends it to `cb`. Returns the length
    /// of the encoding when it was written whole; -2 when the buffer ran
    /// out of room part-way (as much of it as fits is then written and the
    /// cursor stands at the end of the region); -1, with `cb` unchanged,
    /// when the pair has no encoding.
    pub fn emit(&self, op: Opcode, oprnd: Operand, cb: &mut CodeBuff) -> (size: i32)
        requires
            old(cb)@.wf(),
            !old(cb)@.released,
            old(cb)@.prot.writable(),
        ensures
            final(cb)@.wf(),
            encoding(op, oprnd) matches Ok(bytes) ==> final(cb)@ == old(cb)@.after_write(bytes),
            encoding(op, oprnd) matches Ok(bytes) ==> size == if old(cb)@.write_result(bytes) is Ok {
                bytes.len() as i32
            } else {
                -2i32
            },
            encoding(op, oprnd) is Err ==> size == -1 && final(cb)@ == old(cb)@,
    {
        match Emitter::encode(op, oprnd) {
            Ok(bytes) => {
                proof {
                    lemma_encoding_len(op, oprnd);
                }
                match cb.write_bytes(bytes.as_slice()) {
                    Ok(n) => n as i32,
                    Err(_) => -2,
                }
            },
            Err(_) => -1,
        }
    }
}


} // verus!
