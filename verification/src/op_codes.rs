//! The instruction encoding: opcode bytes, operand-layout tags and
//! intrinsic ids. Each instruction occupies one 8-byte slot; fat
//! instructions carry an inline 64-bit immediate in one extra slot.

use vstd::prelude::*;

verus! {

pub const OP_END: u8 = 0x00;
pub const OP_MOV: u8 = 0x01;
pub const OP_LSTR: u8 = 0x02;
pub const OP_ADD: u8 = 0x03;
pub const OP_SUB: u8 = 0x04;
pub const OP_MUL: u8 = 0x05;
pub const OP_DIV: u8 = 0x06;
pub const OP_IDIV: u8 = 0x07;
pub const OP_REM: u8 = 0x08;
pub const OP_CALL: u8 = 0x09;
pub const OP_JT: u8 = 0x0A;
pub const OP_JMP: u8 = 0x0B;
pub const OP_CMP: u8 = 0x0C;
pub const OP_PUSHR: u8 = 0x0D;
pub const OP_PUSHI: u8 = 0x0E;
pub const OP_POP: u8 = 0x0F;
pub const OP_INT: u8 = 0x10;
pub const OP_ENV: u8 = 0x11;
pub const OP_ENVJ: u8 = 0x12;
pub const OP_SPAWN: u8 = 0x13;
pub const OP_RET: u8 = 0x14;
pub const OP_SUB32: u8 = 0x15;
pub const OP_ADD32: u8 = 0x16;
pub const OP_DROP: u8 = 0x17;
pub const OP_ELEM: u8 = 0x18;

/// Operand-layout tags, combined with `OP_MOV` by bitwise or.
pub const LAYOUT_R_R: u8 = 0x80;
pub const LAYOUT_R_RO: u8 = 0x90;
pub const LAYOUT_RO_R: u8 = 0xA0;
pub const LAYOUT_R_I: u8 = 0xB0;
pub const LAYOUT_RO_I: u8 = 0xC0;

/// Intrinsic ids dispatched by the INT instruction.
pub const INTRINSIC_DEBUG: u8 = 0x00;
pub const INTRINSIC_SLEEP: u8 = 0x01;
pub const INTRINSIC_RESTART: u8 = 0xFE;
pub const INTRINSIC_THROW: u8 = 0xFF;

} // verus!
