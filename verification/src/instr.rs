//! Instruction decoding. One instruction occupies an 8-byte slot: the
//! opcode byte (for MOV, combined with an operand-layout tag), register
//! operand bytes, a 32-bit address or offset field at byte four, and for
//! fat instructions an inline 64-bit immediate in the following slot.

use vstd::prelude::*;

use crate::errors::VmError;
use crate::op_codes::{
    INTRINSIC_DEBUG, INTRINSIC_RESTART, INTRINSIC_SLEEP, INTRINSIC_THROW, LAYOUT_RO_I, LAYOUT_RO_R,
    LAYOUT_R_I, LAYOUT_R_R, LAYOUT_R_RO, OP_ADD, OP_ADD32, OP_CALL, OP_CMP, OP_DIV, OP_DROP,
    OP_ELEM, OP_END, OP_ENV, OP_ENVJ, OP_IDIV, OP_INT, OP_JMP, OP_JT, OP_LSTR, OP_MOV, OP_MUL,
    OP_POP, OP_PUSHI, OP_PUSHR, OP_REM, OP_RET, OP_SPAWN, OP_SUB, OP_SUB32,
};
use crate::wordio::{le32, le64, read_u32, read_u64, read_u8};

verus! {

/// A binary arithmetic operation dispatched through the dynamic value
/// model's coercion rules.
#[derive(Clone, Copy, PartialEq, Eq, Structural, Debug)]
pub enum BinOp {
    Add,
    Sub,
    Mul,
    Div,
    IDiv,
    Rem,
}

/// A comparison kind of the CMP instruction.
#[derive(Clone, Copy, PartialEq, Eq, Structural, Debug)]
pub enum CmpKind {
    Eq,
    Ne,
    Lt,
    Lte,
    Gt,
    Gte,
}

/// One decoded instruction.
#[derive(Clone, Copy, PartialEq, Eq, Structural, Debug)]
pub enum Instr {
    /// Request graceful shutdown of the whole generation.
    End,
    /// Register to register move.
    MovRR { dest: u8, src: u8 },
    /// Indexed-memory to register move: read the word at the base
    /// register's address plus the offset scaled by eight.
    MovRRo { dest: u8, base: u8, offset: u32 },
    /// Register to indexed-memory move.
    MovRoR { base: u8, src: u8, offset: u32 },
    /// Immediate to register move (fat).
    MovRI { dest: u8, imm: u64 },
    /// Immediate to indexed-memory move (fat).
    MovRoI { base: u8, offset: u32, imm: u64 },
    /// Build a constant-string value from a base register plus a scaled
    /// offset.
    Lstr { dest: u8, base: u8, offset: u32 },
    /// Arithmetic through the value model's coercion rules.
    Arith { op: BinOp, dest: u8, src: u8 },
    /// Push the ten callee-saved registers and the return address, then
    /// jump into the called function.
    Call { addr: u32 },
    /// Branch if flag bit zero is set.
    Jt { addr: u32 },
    /// Unconditional branch.
    Jmp { addr: u32 },
    /// Compare two registers through the value model; flag bit zero
    /// receives the result.
    Cmp { kind: CmpKind, lhs: u8, rhs: u8 },
    /// Push a register's word.
    PushR { src: u8 },
    /// Push an immediate word (fat).
    PushI { imm: u64 },
    /// Pop one word into a register.
    Pop { dest: u8 },
    /// Dispatch to the intrinsic table.
    Int { id: u8 },
    /// Dispatch to an extension's function-call handler.
    Env { ext: u32, func: u32 },
    /// Dispatch to an extension's interrupt-call handler.
    Envj { ext: u32, func: u32 },
    /// Create a new thread at the code base plus the scaled address.
    Spawn { addr: u32 },
    /// Pop the calling convention's frame and resume the caller.
    Ret,
    /// Atomic wrapping subtract on one register.
    Sub32 { reg: u8, amount: u32 },
    /// Atomic wrapping add on one register.
    Add32 { reg: u8, amount: u32 },
    /// Release a variable string and poison its register.
    DropStr { reg: u8 },
    /// Bounds-checked, 1-based array element load.
    Elem { dest: u8, arr: u8, idx: u8 },
}

/// The comparison kind a CMP kind byte selects, if any.
pub open spec fn spec_cmp_kind(b: u8) -> Option<CmpKind> {
    if b == 0 {
        Option::Some(CmpKind::Eq)
    } else if b == 1 {
        Option::Some(CmpKind::Ne)
    } else if b == 2 {
        Option::Some(CmpKind::Lt)
    } else if b == 3 {
        Option::Some(CmpKind::Lte)
    } else if b == 4 {
        Option::Some(CmpKind::Gt)
    } else if b == 5 {
        Option::Some(CmpKind::Gte)
    } else {
        Option::None
    }
}

/// The instruction encoded at `ip` in image `m`. A slot that runs off the
/// image is a fault; a register operand byte outside the file, an unknown
/// opcode or an unknown comparison kind are unrecoverable encoding
/// errors.
pub open spec fn spec_decode(m: Seq<u8>, ip: u64) -> Result<Instr, VmError> {
    if ip + 8 > m.len() {
        Result::Err(VmError::MemFault(ip))
    } else {
        let op = m[ip as int];
        if op == OP_END {
            Result::Ok(Instr::End)
        } else if op == (OP_MOV | LAYOUT_R_R) {
            let dest = m[ip + 1];
            let src = m[ip + 2];
            if dest < 16 && src < 16 {
                Result::Ok(Instr::MovRR { dest, src })
            } else {
                Result::Err(VmError::BadRegister)
            }
        } else if op == (OP_MOV | LAYOUT_R_RO) {
            let dest = m[ip + 1];
            let base = m[ip + 2];
            if dest < 16 && base < 16 {
                Result::Ok(Instr::MovRRo { dest, base, offset: le32(m, ip + 4) })
            } else {
                Result::Err(VmError::BadRegister)
            }
        } else if op == (OP_MOV | LAYOUT_RO_R) {
            let base = m[ip + 1];
            let src = m[ip + 2];
            if base < 16 && src < 16 {
                Result::Ok(Instr::MovRoR { base, src, offset: le32(m, ip + 4) })
            } else {
                Result::Err(VmError::BadRegister)
            }
        } else if op == (OP_MOV | LAYOUT_R_I) {
            if ip + 16 > m.len() {
                Result::Err(VmError::MemFault(ip))
            } else if m[ip + 1] < 16 {
                Result::Ok(Instr::MovRI { dest: m[ip + 1], imm: le64(m, ip + 8) })
            } else {
                Result::Err(VmError::BadRegister)
            }
        } else if op == (OP_MOV | LAYOUT_RO_I) {
            if ip + 16 > m.len() {
                Result::Err(VmError::MemFault(ip))
            } else if m[ip + 1] < 16 {
                Result::Ok(
                    Instr::MovRoI {
                        base: m[ip + 1],
                        offset: le32(m, ip + 4),
                        imm: le64(m, ip + 8),
                    },
                )
            } else {
                Result::Err(VmError::BadRegister)
            }
        } else if op == OP_LSTR {
            let dest = m[ip + 1];
            let base = m[ip + 2];
            if dest < 16 && base < 16 {
                Result::Ok(Instr::Lstr { dest, base, offset: le32(m, ip + 4) })
            } else {
                Result::Err(VmError::BadRegister)
            }
        } else if OP_ADD <= op <= OP_REM {
            let dest = m[ip + 1];
            let src = m[ip + 2];
            if dest < 16 && src < 16 {
                let binop = if op == OP_ADD {
                    BinOp::Add
                } else if op == OP_SUB {
                    BinOp::Sub
                } else if op == OP_MUL {
                    BinOp::Mul
                } else if op == OP_DIV {
                    BinOp::Div
                } else if op == OP_IDIV {
                    BinOp::IDiv
                } else {
                    BinOp::Rem
                };
                Result::Ok(Instr::Arith { op: binop, dest, src })
            } else {
                Result::Err(VmError::BadRegister)
            }
        } else if op == OP_CALL {
            Result::Ok(Instr::Call { addr: le32(m, ip + 4) })
        } else if op == OP_JT {
            Result::Ok(Instr::Jt { addr: le32(m, ip + 4) })
        } else if op == OP_JMP {
            Result::Ok(Instr::Jmp { addr: le32(m, ip + 4) })
        } else if op == OP_CMP {
            let lhs = m[ip + 1];
            let rhs = m[ip + 2];
            if lhs < 16 && rhs < 16 {
                match spec_cmp_kind(m[ip + 3]) {
                    Option::Some(kind) => Result::Ok(Instr::Cmp { kind, lhs, rhs }),
                    Option::None => Result::Err(VmError::UnsupportedOperation),
                }
            } else {
                Result::Err(VmError::BadRegister)
            }
        } else if op == OP_PUSHR {
            if m[ip + 1] < 16 {
                Result::Ok(Instr::PushR { src: m[ip + 1] })
            } else {
                Result::Err(VmError::BadRegister)
            }
        } else if op == OP_PUSHI {
            if ip + 16 > m.len() {
                Result::Err(VmError::MemFault(ip))
            } else {
                Result::Ok(Instr::PushI { imm: le64(m, ip + 8) })
            }
        } else if op == OP_POP {
            if m[ip + 1] < 16 {
                Result::Ok(Instr::Pop { dest: m[ip + 1] })
            } else {
                Result::Err(VmError::BadRegister)
            }
        } else if op == OP_INT {
            Result::Ok(Instr::Int { id: m[ip + 1] })
        } else if op == OP_ENV {
            Result::Ok(Instr::Env { ext: le32(m, ip as int) & 0x00FFFFFF, func: le32(m, ip + 4) })
        } else if op == OP_ENVJ {
            Result::Ok(Instr::Envj { ext: le32(m, ip as int) & 0x00FFFFFF, func: le32(m, ip + 4) })
        } else if op == OP_SPAWN {
            Result::Ok(Instr::Spawn { addr: le32(m, ip + 4) })
        } else if op == OP_RET {
            Result::Ok(Instr::Ret)
        } else if op == OP_SUB32 {
            if m[ip + 1] < 16 {
                Result::Ok(Instr::Sub32 { reg: m[ip + 1], amount: le32(m, ip + 4) })
            } else {
                Result::Err(VmError::BadRegister)
            }
        } else if op == OP_ADD32 {
            if m[ip + 1] < 16 {
                Result::Ok(Instr::Add32 { reg: m[ip + 1], amount: le32(m, ip + 4) })
            } else {
                Result::Err(VmError::BadRegister)
            }
        } else if op == OP_DROP {
            if m[ip + 1] < 16 {
                Result::Ok(Instr::DropStr { reg: m[ip + 1] })
            } else {
                Result::Err(VmError::BadRegister)
            }
        } else if op == OP_ELEM {
            let dest = m[ip + 1];
            let arr = m[ip + 2];
            let idx = m[ip + 3];
            if dest < 16 && arr < 16 && idx < 16 {
                Result::Ok(Instr::Elem { dest, arr, idx })
            } else {
                Result::Err(VmError::BadRegister)
            }
        } else {
            Result::Err(VmError::UnsupportedInstruction)
        }
    }
}

/// Decode the instruction at `ip` in the shared image.
pub fn decode(mem: &Vec<u8>, ip: u64) -> (r: Result<Instr, VmError>)
    ensures
        r == spec_decode(mem@, ip),
{
    let mlen = mem.len();
    if ip >= mlen as u64 || mlen as u64 - ip < 8 {
        return Result::Err(VmError::MemFault(ip));
    }
    let base = ip as usize;
    let op = read_u8(mem, base);
    if op == OP_END {
        Result::Ok(Instr::End)
    } else if op == (OP_MOV | LAYOUT_R_R) {
        let dest = read_u8(mem, base + 1);
        let src = read_u8(mem, base + 2);
        if dest < 16 && src < 16 {
            Result::Ok(Instr::MovRR { dest, src })
        } else {
            Result::Err(VmError::BadRegister)
        }
    } else if op == (OP_MOV | LAYOUT_R_RO) {
        let dest = read_u8(mem, base + 1);
        let breg = read_u8(mem, base + 2);
        if dest < 16 && breg < 16 {
            Result::Ok(Instr::MovRRo { dest, base: breg, offset: read_u32(mem, base + 4) })
        } else {
            Result::Err(VmError::BadRegister)
        }
    } else if op == (OP_MOV | LAYOUT_RO_R) {
        let breg = read_u8(mem, base + 1);
        let src = read_u8(mem, base + 2);
        if breg < 16 && src < 16 {
            Result::Ok(Instr::MovRoR { base: breg, src, offset: read_u32(mem, base + 4) })
        } else {
            Result::Err(VmError::BadRegister)
        }
    } else if op == (OP_MOV | LAYOUT_R_I) {
        if mlen as u64 - ip < 16 {
            Result::Err(VmError::MemFault(ip))
        } else {
            let dest = read_u8(mem, base + 1);
            if dest < 16 {
                Result::Ok(Instr::MovRI { dest, imm: read_u64(mem, base + 8) })
            } else {
                Result::Err(VmError::BadRegister)
            }
        }
    } else if op == (OP_MOV | LAYOUT_RO_I) {
        if mlen as u64 - ip < 16 {
            Result::Err(VmError::MemFault(ip))
        } else {
            let breg = read_u8(mem, base + 1);
            if breg < 16 {
                Result::Ok(
                    Instr::MovRoI {
                        base: breg,
                        offset: read_u32(mem, base + 4),
                        imm: read_u64(mem, base + 8),
                    },
                )
            } else {
                Result::Err(VmError::BadRegister)
            }
        }
    } else if op == OP_LSTR {
        let dest = read_u8(mem, base + 1);
        let breg = read_u8(mem, base + 2);
        if dest < 16 && breg < 16 {
            Result::Ok(Instr::Lstr { dest, base: breg, offset: read_u32(mem, base + 4) })
        } else {
            Result::Err(VmError::BadRegister)
        }
    } else if OP_ADD <= op && op <= OP_REM {
        let dest = read_u8(mem, base + 1);
        let src = read_u8(mem, base + 2);
        if dest < 16 && src < 16 {
            let binop = if op == OP_ADD {
                BinOp::Add
            } else if op == OP_SUB {
                BinOp::Sub
            } else if op == OP_MUL {
                BinOp::Mul
            } else if op == OP_DIV {
                BinOp::Div
            } else if op == OP_IDIV {
                BinOp::IDiv
            } else {
                BinOp::Rem
            };
            Result::Ok(Instr::Arith { op: binop, dest, src })
        } else {
            Result::Err(VmError::BadRegister)
        }
    } else if op == OP_CALL {
        Result::Ok(Instr::Call { addr: read_u32(mem, base + 4) })
    } else if op == OP_JT {
        Result::Ok(Instr::Jt { addr: read_u32(mem, base + 4) })
    } else if op == OP_JMP {
        Result::Ok(Instr::Jmp { addr: read_u32(mem, base + 4) })
    } else if op == OP_CMP {
        let lhs = read_u8(mem, base + 1);
        let rhs = read_u8(mem, base + 2);
        if lhs < 16 && rhs < 16 {
            let kind = match read_u8(mem, base + 3) {
                0 => CmpKind::Eq,
                1 => CmpKind::Ne,
                2 => CmpKind::Lt,
                3 => CmpKind::Lte,
                4 => CmpKind::Gt,
                5 => CmpKind::Gte,
                _ => {
                    return Result::Err(VmError::UnsupportedOperation);
                },
            };
            Result::Ok(Instr::Cmp { kind, lhs, rhs })
        } else {
            Result::Err(VmError::BadRegister)
        }
    } else if op == OP_PUSHR {
        let src = read_u8(mem, base + 1);
        if src < 16 {
            Result::Ok(Instr::PushR { src })
        } else {
            Result::Err(VmError::BadRegister)
        }
    } else if op == OP_PUSHI {
        if mlen as u64 - ip < 16 {
            Result::Err(VmError::MemFault(ip))
        } else {
            Result::Ok(Instr::PushI { imm: read_u64(mem, base + 8) })
        }
    } else if op == OP_POP {
        let dest = read_u8(mem, base + 1);
        if dest < 16 {
            Result::Ok(Instr::Pop { dest })
        } else {
            Result::Err(VmError::BadRegister)
        }
    } else if op == OP_INT {
        Result::Ok(Instr::Int { id: read_u8(mem, base + 1) })
    } else if op == OP_ENV {
        Result::Ok(
            Instr::Env { ext: read_u32(mem, base) & 0x00FFFFFF, func: read_u32(mem, base + 4) },
        )
    } else if op == OP_ENVJ {
        Result::Ok(
            Instr::Envj { ext: read_u32(mem, base) & 0x00FFFFFF, func: read_u32(mem, base + 4) },
        )
    } else if op == OP_SPAWN {
        Result::Ok(Instr::Spawn { addr: read_u32(mem, base + 4) })
    } else if op == OP_RET {
        Result::Ok(Instr::Ret)
    } else if op == OP_SUB32 {
        let reg = read_u8(mem, base + 1);
        if reg < 16 {
            Result::Ok(Instr::Sub32 { reg, amount: read_u32(mem, base + 4) })
        } else {
            Result::Err(VmError::BadRegister)
        }
    } else if op == OP_ADD32 {
        let reg = read_u8(mem, base + 1);
        if reg < 16 {
            Result::Ok(Instr::Add32 { reg, amount: read_u32(mem, base + 4) })
        } else {
            Result::Err(VmError::BadRegister)
        }
    } else if op == OP_DROP {
        let reg = read_u8(mem, base + 1);
        if reg < 16 {
            Result::Ok(Instr::DropStr { reg })
        } else {
            Result::Err(VmError::BadRegister)
        }
    } else if op == OP_ELEM {
        let dest = read_u8(mem, base + 1);
        let arr = read_u8(mem, base + 2);
        let idx = read_u8(mem, base + 3);
        if dest < 16 && arr < 16 && idx < 16 {
            Result::Ok(Instr::Elem { dest, arr, idx })
        } else {
            Result::Err(VmError::BadRegister)
        }
    } else {
        Result::Err(VmError::UnsupportedInstruction)
    }
}

} // verus!
