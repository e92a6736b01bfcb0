//! Method bodies and the instruction stream of the tiny body format.
use vstd::prelude::*;
use crate::bytes::{le32, read_u32};
use crate::error::Error;
use crate::token::{token_of, MetadataToken};
use vstd::slice::slice_subrange;

verus! {

/// A decoded instruction of the supported subset.
#[derive(Debug, Clone, Copy, PartialEq, Eq, Structural)]
pub enum Instruction {
    Nop,
    Break,
    Ret,
    Add,
    Sub,
    Mul,
    Div,
    DivUn,
    Rem,
    RemUn,
    And,
    Or,
    Xor,
    Shl,
    Shr,
    ShrUn,
    Neg,
    Not,
    AddOvf,
    AddOvfUn,
    MulOvf,
    MulOvfUn,
    SubOvf,
    SubOvfUn,
    LdArg(u32),
    LdStr(MetadataToken),
    Call(MetadataToken),
    Br(i32),
    BrFalse(i32),
    BrTrue(i32),
    Beq(i32),
    Bge(i32),
    Bgt(i32),
    Ble(i32),
    Blt(i32),
    BneUn(i32),
    BgeUn(i32),
    BgtUn(i32),
    BleUn(i32),
    BltUn(i32),
}

/// The instruction that a one-byte opcode without operand denotes.
pub open spec fn simple_instr(op: u8) -> Option<Instruction> {
    if op == 0x00 {
        Some(Instruction::Nop)
    } else if op == 0x01 {
        Some(Instruction::Break)
    } else if op == 0x2a {
        Some(Instruction::Ret)
    } else if op == 0x58 {
        Some(Instruction::Add)
    } else if op == 0x59 {
        Some(Instruction::Sub)
    } else if op == 0x5a {
        Some(Instruction::Mul)
    } else if op == 0x5b {
        Some(Instruction::Div)
    } else if op == 0x5c {
        Some(Instruction::DivUn)
    } else if op == 0x5d {
        Some(Instruction::Rem)
    } else if op == 0x5e {
        Some(Instruction::RemUn)
    } else if op == 0x5f {
        Some(Instruction::And)
    } else if op == 0x60 {
        Some(Instruction::Or)
    } else if op == 0x61 {
        Some(Instruction::Xor)
    } else if op == 0x62 {
        Some(Instruction::Shl)
    } else if op == 0x63 {
        Some(Instruction::Shr)
    } else if op == 0x64 {
        Some(Instruction::ShrUn)
    } else if op == 0x65 {
        Some(Instruction::Neg)
    } else if op == 0x66 {
        Some(Instruction::Not)
    } else if op == 0xd6 {
        Some(Instruction::AddOvf)
    } else if op == 0xd7 {
        Some(Instruction::AddOvfUn)
    } else if op == 0xd8 {
        Some(Instruction::MulOvf)
    } else if op == 0xd9 {
        Some(Instruction::MulOvfUn)
    } else if op == 0xda {
        Some(Instruction::SubOvf)
    } else if op == 0xdb {
        Some(Instruction::SubOvfUn)
    } else if op == 0x02 {
        Some(Instruction::LdArg(0))
    } else if op == 0x03 {
        Some(Instruction::LdArg(1))
    } else if op == 0x04 {
        Some(Instruction::LdArg(2))
    } else if op == 0x05 {
        Some(Instruction::LdArg(3))
    } else {
        None
    }
}

fn simple_instr_exec(op: u8) -> (r: Option<Instruction>)
    ensures
        r == simple_instr(op),
{
    if op == 0x00 {
        Some(Instruction::Nop)
    } else if op == 0x01 {
        Some(Instruction::Break)
    } else if op == 0x2a {
        Some(Instruction::Ret)
    } else if op == 0x58 {
        Some(Instruction::Add)
    } else if op == 0x59 {
        Some(Instruction::Sub)
    } else if op == 0x5a {
        Some(Instruction::Mul)
    } else if op == 0x5b {
        Some(Instruction::Div)
    } else if op == 0x5c {
        Some(Instruction::DivUn)
    } else if op == 0x5d {
        Some(Instruction::Rem)
    } else if op == 0x5e {
        Some(Instruction::RemUn)
    } else if op == 0x5f {
        Some(Instruction::And)
    } else if op == 0x60 {
        Some(Instruction::Or)
    } else if op == 0x61 {
        Some(Instruction::Xor)
    } else if op == 0x62 {
        Some(Instruction::Shl)
    } else if op == 0x63 {
        Some(Instruction::Shr)
    } else if op == 0x64 {
        Some(Instruction::ShrUn)
    } else if op == 0x65 {
        Some(Instruction::Neg)
    } else if op == 0x66 {
        Some(Instruction::Not)
    } else if op == 0xd6 {
        Some(Instruction::AddOvf)
    } else if op == 0xd7 {
        Some(Instruction::AddOvfUn)
    } else if op == 0xd8 {
        Some(Instruction::MulOvf)
    } else if op == 0xd9 {
        Some(Instruction::MulOvfUn)
    } else if op == 0xda {
        Some(Instruction::SubOvf)
    } else if op == 0xdb {
        Some(Instruction::SubOvfUn)
    } else if op == 0x02 {
        Some(Instruction::LdArg(0))
    } else if op == 0x03 {
        Some(Instruction::LdArg(1))
    } else if op == 0x04 {
        Some(Instruction::LdArg(2))
    } else if op == 0x05 {
        Some(Instruction::LdArg(3))
    } else {
        None
    }
}

/// The branch that an opcode with a 32-bit displacement `d` denotes.
pub open spec fn branch_instr(op: u8, d: i32) -> Option<Instruction> {
    if op == 0x38 {
        Some(Instruction::Br(d))
    } else if op == 0x39 {
        Some(Instruction::BrFalse(d))
    } else if op == 0x3a {
        Some(Instruction::BrTrue(d))
    } else if op == 0x3b {
        Some(Instruction::Beq(d))
    } else if op == 0x3c {
        Some(Instruction::Bge(d))
    } else if op == 0x3d {
        Some(Instruction::Bgt(d))
    } else if op == 0x3e {
        Some(Instruction::Ble(d))
    } else if op == 0x3f {
        Some(Instruction::Blt(d))
    } else if op == 0x40 {
        Some(Instruction::BneUn(d))
    } else if op == 0x41 {
        Some(Instruction::BgeUn(d))
    } else if op == 0x42 {
        Some(Instruction::BgtUn(d))
    } else if op == 0x43 {
        Some(Instruction::BleUn(d))
    } else if op == 0x44 {
        Some(Instruction::BltUn(d))
    } else {
        None
    }
}

fn branch_instr_exec(op: u8, d: i32) -> (r: Option<Instruction>)
    ensures
        r == branch_instr(op, d),
{
    if op == 0x38 {
        Some(Instruction::Br(d))
    } else if op == 0x39 {
        Some(Instruction::BrFalse(d))
    } else if op == 0x3a {
        Some(Instruction::BrTrue(d))
    } else if op == 0x3b {
        Some(Instruction::Beq(d))
    } else if op == 0x3c {
        Some(Instruction::Bge(d))
    } else if op == 0x3d {
        Some(Instruction::Bgt(d))
    } else if op == 0x3e {
        Some(Instruction::Ble(d))
    } else if op == 0x3f {
        Some(Instruction::Blt(d))
    } else if op == 0x40 {
        Some(Instruction::BneUn(d))
    } else if op == 0x41 {
        Some(Instruction::BgeUn(d))
    } else if op == 0x42 {
        Some(Instruction::BgtUn(d))
    } else if op == 0x43 {
        Some(Instruction::BleUn(d))
    } else if op == 0x44 {
        Some(Instruction::BltUn(d))
    } else {
        None
    }
}

/// The opcode of `LdStr`.
pub const OP_LDSTR: u8 = 0x72;
/// The opcode of `Call`.
pub const OP_CALL: u8 = 0x28;
/// The prefix of two-byte opcodes.
pub const OP_EXTENDED: u8 = 0xFE;

/// The instruction that starts at `p` of `code`, and the position after it.
pub open spec fn instr_at(code: Seq<u8>, p: usize) -> Result<(Instruction, usize), Error> {
    if p >= code.len() || code.len() > usize::MAX {
        Err(Error::BadInput)
    } else {
        let op = code[p as int];
        if simple_instr(op) is Some {
            Ok((simple_instr(op)->0, (p + 1) as usize))
        } else if op == OP_LDSTR || op == OP_CALL || branch_instr(op, 0) is Some {
            if p + 5 > code.len() {
                Err(Error::BadInput)
            } else {
                let v = le32(code, p + 1) as u32;
                if op == OP_LDSTR || op == OP_CALL {
                    match token_of(v) {
                        Some(t) => Ok((
                            if op == OP_LDSTR {
                                Instruction::LdStr(t)
                            } else {
                                Instruction::Call(t)
                            },
                            (p + 5) as usize,
                        )),
                        None => Err(Error::BadToken),
                    }
                } else {
                    Ok((branch_instr(op, v as i32)->0, (p + 5) as usize))
                }
            }
        } else {
            Err(Error::UnsupportedOpcode)
        }
    }
}

/// The instructions from `p` to the end of `code`.
pub open spec fn instrs_from(code: Seq<u8>, p: usize) -> Result<Seq<Instruction>, Error>
    decreases code.len() - p,
    via instrs_from_decreases
{
    if p >= code.len() {
        Ok(Seq::empty())
    } else {
        match instr_at(code, p) {
            Ok((i, q)) => match instrs_from(code, q) {
                Ok(rest) => Ok(seq![i].add(rest)),
                Err(e) => Err(e),
            },
            Err(e) => Err(e),
        }
    }
}

#[via_fn]
proof fn instrs_from_decreases(code: Seq<u8>, p: usize) {
    if p < code.len() {
        if let Ok((i, q)) = instr_at(code, p) {
            assert(q > p);
        }
    }
}

impl Instruction {
    /// Decodes the instruction at `p` of `code`.
    pub fn parse(code: &[u8], p: usize) -> (r: Result<(Instruction, usize), Error>)
        ensures
            r == instr_at(code@, p),
    {
        let n = code.len();
        if p >= n {
            return Err(Error::BadInput);
        }
        let op = code[p];
        match simple_instr_exec(op) {
            Some(i) => {
                return Ok((i, p + 1));
            },
            None => {},
        }
        if op == OP_LDSTR || op == OP_CALL || branch_instr_exec(op, 0).is_some() {
            let v = match read_u32(code, p + 1) {
                Some(v) => v,
                None => {
                    return Err(Error::BadInput);
                },
            };
            if op == OP_LDSTR || op == OP_CALL {
                let t = MetadataToken::decode(v)?;
                if op == OP_LDSTR {
                    Ok((Instruction::LdStr(t), p + 5))
                } else {
                    Ok((Instruction::Call(t), p + 5))
                }
            } else {
                Ok((branch_instr_exec(op, v as i32).unwrap(), p + 5))
            }
        } else {
            Err(Error::UnsupportedOpcode)
        }
    }
}

/// The header format bits of a tiny method body.
pub const TINY_FORMAT: u8 = 0x02;

/// The decoded instructions of a method body.
#[derive(Debug)]
pub struct MethodBody {
    pub instructions: Vec<Instruction>,
}

/// The instructions of the body whose header is at `p`: a tiny header holds
/// the code length in its upper six bits, and the code follows it.
pub open spec fn body_at(s: Seq<u8>, p: usize) -> Result<Seq<Instruction>, Error> {
    if p >= s.len() || s.len() > usize::MAX {
        Err(Error::BadInput)
    } else {
        let header = s[p as int];
        let len = (header / 4) as int;
        if header % 4 != TINY_FORMAT || p + 1 + len > s.len() {
            Err(Error::BadInput)
        } else {
            instrs_from(s.subrange(p + 1, p + 1 + len), 0)
        }
    }
}

impl MethodBody {
    /// Decodes the method body whose header is at `p`.
    pub fn parse(s: &[u8], p: usize) -> (r: Result<MethodBody, Error>)
        ensures
            match r {
                Ok(b) => body_at(s@, p) == Ok::<Seq<Instruction>, Error>(b.instructions@),
                Err(e) => body_at(s@, p) == Err::<Seq<Instruction>, Error>(e),
            },
    {
        let n = s.len();
        if p >= n {
            return Err(Error::BadInput);
        }
        let header = s[p];
        let len = (header / 4) as usize;
        if header % 4 != TINY_FORMAT || len > n - p - 1 {
            return Err(Error::BadInput);
        }
        let code = slice_subrange(s, p + 1, p + 1 + len);
        let mut instructions: Vec<Instruction> = Vec::new();
        let mut pos: usize = 0;
        proof {
            if let Ok(rest) = instrs_from(code@, 0) {
                assert(instructions@.add(rest) =~= rest);
            }
        }
        while pos < code.len()
            invariant
                p < s@.len() == n,
                header == s@[p as int],
                len == header / 4,
                header % 4 == TINY_FORMAT,
                p + 1 + len <= n,
                code@ == s@.subrange(p + 1, p + 1 + len),
                instrs_from(code@, 0) == (match instrs_from(code@, pos) {
                    Ok(rest) => Ok(instructions@.add(rest)),
                    Err(e) => Err(e),
                }),
            decreases code@.len() - pos,
        {
            let (i, q) = match Instruction::parse(code, pos) {
                Ok(x) => x,
                Err(e) => {
                    assert(instrs_from(code@, pos) == Err::<Seq<Instruction>, Error>(e));
                    return Err(e);
                },
            };
            proof {
                if let Ok(rest) = instrs_from(code@, q) {
                    assert(instructions@.add(seq![i].add(rest)) =~= instructions@.push(i).add(rest));
                }
            }
            instructions.push(i);
            pos = q;
        }
        proof {
            assert(instructions@.add(Seq::<Instruction>::empty()) =~= instructions@);
        }
        Ok(MethodBody { instructions })
    }
}

} // verus!
