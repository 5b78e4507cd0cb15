//! The dynamic value model's arithmetic and comparison rules.
//!
//! ADD concatenates whenever either operand is a non-numeric string and
//! otherwise adds numerically; the other arithmetic operations always
//! coerce to numbers, yielding the canonical NaN when an operand does not
//! parse; comparisons compare numerically when both operands parse, fall
//! back to byte-wise equality for equality kinds, and are false for
//! ordering kinds when a side does not parse.
//!
//! Doubles cannot be computed here, so every numeric question — does this
//! text parse as a number, what are the bits of the operation's result,
//! how does a number print, how do two doubles compare — arrives in a
//! `NumReply` computed by the embedder. Everything these functions decide
//! from a reply (which registers change, which strings are released and
//! which registers are poisoned) is verified for every possible reply.
//!
//! A variable string consumed as an operand is released right after its
//! value is read and its register is poisoned to the canonical empty
//! string, which can never be released; releases are no-ops on anything
//! not live, so nothing is ever freed twice.

use vstd::prelude::*;

use crate::errors::VmError;
use crate::instr::{BinOp, CmpKind};
use crate::machine::ThreadState;
use crate::string_heap::{spec_read, StrHeap};
use crate::values::{spec_var_str_word, var_str_word, NAN, STR_SIGNATURE};

verus! {

/// One operand as the value model sees it: a double's bits, or a string
/// with its payload bytes, its origin (constant or variable) and the
/// payload id its word carried (a code-image address for a constant
/// string, a heap handle for a variable one).
pub enum Value {
    Num(u64),
    Str { id: u64, is_const: bool, text: Vec<u8> },
}


/// The specification-level view of an operand: what the value model's
/// transition functions are stated over.
pub ghost struct GValue {
    /// Whether the operand is a string.
    pub is_str: bool,
    /// The payload id of a string operand (zero otherwise).
    pub id: u64,
    /// Whether a string operand is a constant string.
    pub is_const: bool,
    /// The payload bytes of a string operand (empty otherwise).
    pub text: Seq<u8>,
    /// The bits of a numeric operand (zero otherwise).
    pub num: u64,
}

impl GValue {
    /// Whether releasing this operand touches the heap: variable strings
    /// own their allocation, except the canonical empty string.
    pub open spec fn owns_heap(self) -> bool {
        self.is_str && !self.is_const && self.id != 0
    }
}

impl View for Value {
    type V = GValue;

    open spec fn view(&self) -> GValue {
        match *self {
            Value::Num(n) => GValue {
                is_str: false,
                id: 0,
                is_const: false,
                text: Seq::empty(),
                num: n,
            },
            Value::Str { id, is_const, text } => GValue {
                is_str: true,
                id,
                is_const,
                text: text@,
                num: 0,
            },
        }
    }
}

/// The operand value a register word denotes against the current image
/// and heap.
pub open spec fn word_value(
    ts: crate::machine::ThreadState,
    mem: Seq<u8>,
    heap: Seq<Option<Seq<u8>>>,
    word: u64,
) -> GValue {
    match crate::values::spec_classify(word) {
        crate::values::WordClass::Number => GValue {
            is_str: false,
            id: 0,
            is_const: false,
            text: Seq::empty(),
            num: word,
        },
        crate::values::WordClass::ConstStr(a) => GValue {
            is_str: true,
            id: a,
            is_const: true,
            text: ts.spec_abs_bytes(mem, (a + 8) as u64, ts.spec_abs64(mem, a)),
            num: 0,
        },
        crate::values::WordClass::VarStr(h) => GValue {
            is_str: true,
            id: h,
            is_const: false,
            text: spec_read(heap, h)->0,
            num: 0,
        },
    }
}

/// Whether a register word's operand can be resolved at all: a constant
/// string's payload must lie in the address space, a variable string's
/// handle must be live.
pub open spec fn word_resolvable(
    ts: crate::machine::ThreadState,
    mem: Seq<u8>,
    heap: Seq<Option<Seq<u8>>>,
    word: u64,
) -> bool {
    match crate::values::spec_classify(word) {
        crate::values::WordClass::Number => true,
        crate::values::WordClass::ConstStr(a) => ts.can_access(mem.len(), a, 8) && ts.can_access(
            mem.len(),
            (a + 8) as u64,
            ts.spec_abs64(mem, a) as nat,
        ),
        crate::values::WordClass::VarStr(h) => spec_read(heap, h) is Some,
    }
}

/// An operand as handed to the embedder: the bits of a double, or the
/// bytes of a string to be parsed.
pub enum Operand {
    Num(u64),
    Text(Vec<u8>),
}

/// The numeric work one instruction needs.
pub enum NumOp {
    Arith(BinOp),
    Cmp(CmpKind),
}

/// A request for numeric work. The embedder parses each `Text` operand as
/// a double (recording whether it parses at all), computes the requested
/// operation on the two doubles when both are available, and renders a
/// numeric operand as text when the other side is a non-numeric string.
/// A `Cmp` request always asks for the plain comparison of that kind;
/// not-equal is requested as equality and negated by the machine.
pub struct NumRequest {
    pub op: NumOp,
    pub lhs: Operand,
    pub rhs: Operand,
}

/// The embedder's answers. Only the fields the operand shapes call for
/// are read: `lhs_num` and `rhs_num` are the parse results of `Text`
/// operands (`None` when the text is not numeric); `result` is the bits
/// of the arithmetic result when both sides are numeric; `cmp` is the
/// comparison result when both sides are numeric; `lhs_text` and
/// `rhs_text` are the decimal renderings of numeric operands, used when
/// the other side is a non-numeric string.
pub struct NumReply {
    pub lhs_num: Option<u64>,
    pub rhs_num: Option<u64>,
    pub result: u64,
    pub cmp: bool,
    pub lhs_text: Vec<u8>,
    pub rhs_text: Vec<u8>,
}

/// The heap after releasing handle `h`, when that releases anything.
pub open spec fn free_if(s: Seq<Option<Seq<u8>>>, cond: bool, h: u64) -> Seq<Option<Seq<u8>>> {
    if cond && h >= 1 && spec_read(s, h) is Some {
        s.update(h - 1, Option::<Seq<u8>>::None)
    } else {
        s
    }
}

/// The heap after growing live handle `h` in place to `bytes`.
pub open spec fn replace_at(s: Seq<Option<Seq<u8>>>, h: u64, bytes: Seq<u8>) -> Seq<
    Option<Seq<u8>>,
> {
    if 1 <= h <= s.len() && s[h - 1] is Some {
        s.update(h - 1, Option::Some(bytes))
    } else {
        s
    }
}

/// The registers after poisoning slot `i` to the canonical empty string,
/// when a variable string was released out of it.
pub open spec fn poison_if(r: Seq<u64>, cond: bool, i: int) -> Seq<u64> {
    if cond {
        r.update(i, STR_SIGNATURE)
    } else {
        r
    }
}

/// The result of an equality comparison: numeric when both sides parse,
/// byte-wise text equality otherwise, with a numeric side rendered to
/// text against a non-numeric string.
pub open spec fn eq_value(lhs: GValue, rhs: GValue, reply: NumReply) -> bool {
    if lhs.is_str && rhs.is_str {
        if reply.lhs_num is Some && reply.rhs_num is Some {
            reply.cmp
        } else {
            lhs.text == rhs.text
        }
    } else if lhs.is_str {
        if reply.lhs_num is Some {
            reply.cmp
        } else {
            lhs.text == reply.rhs_text@
        }
    } else if rhs.is_str {
        if reply.rhs_num is Some {
            reply.cmp
        } else {
            reply.lhs_text@ == rhs.text
        }
    } else {
        reply.cmp
    }
}

/// The heap after an equality comparison released its consumed operands.
pub open spec fn eq_heap(h: Seq<Option<Seq<u8>>>, lhs: GValue, rhs: GValue, reply: NumReply) -> Seq<
    Option<Seq<u8>>,
> {
    if lhs.is_str && rhs.is_str {
        if reply.lhs_num is Some && reply.rhs_num is Some {
            free_if(
                free_if(h, !rhs.is_const, rhs.id),
                !lhs.is_const,
                lhs.id,
            )
        } else {
            free_if(h, !rhs.is_const, rhs.id)
        }
    } else if lhs.is_str {
        if reply.lhs_num is Some {
            free_if(h, !lhs.is_const, lhs.id)
        } else {
            h
        }
    } else if rhs.is_str {
        free_if(h, !rhs.is_const, rhs.id)
    } else {
        h
    }
}

/// The registers after an equality comparison poisoned the slots whose
/// variable strings it released.
pub open spec fn eq_regs(
    r: Seq<u64>,
    dest: int,
    src: int,
    lhs: GValue,
    rhs: GValue,
    reply: NumReply,
) -> Seq<u64> {
    if lhs.is_str && rhs.is_str {
        if reply.lhs_num is Some && reply.rhs_num is Some {
            poison_if(poison_if(r, !rhs.is_const, src), !lhs.is_const, dest)
        } else {
            poison_if(r, !rhs.is_const, src)
        }
    } else if lhs.is_str {
        if reply.lhs_num is Some {
            poison_if(r, !lhs.is_const, dest)
        } else {
            r
        }
    } else if rhs.is_str {
        poison_if(r, !rhs.is_const, src)
    } else {
        r
    }
}

/// The result of an ordering comparison: numeric when both sides parse,
/// false as soon as either side does not.
pub open spec fn ord_value(lhs: GValue, rhs: GValue, reply: NumReply) -> bool {
    if lhs.is_str && rhs.is_str {
        if reply.lhs_num is Some && reply.rhs_num is Some {
            reply.cmp
        } else {
            false
        }
    } else if lhs.is_str {
        if reply.lhs_num is Some {
            reply.cmp
        } else {
            false
        }
    } else if rhs.is_str {
        if reply.rhs_num is Some {
            reply.cmp
        } else {
            false
        }
    } else {
        reply.cmp
    }
}

/// The heap after an ordering comparison released its consumed operands.
pub open spec fn ord_heap(h: Seq<Option<Seq<u8>>>, lhs: GValue, rhs: GValue, reply: NumReply) -> Seq<
    Option<Seq<u8>>,
> {
    if lhs.is_str && rhs.is_str {
        if reply.lhs_num is Some && reply.rhs_num is Some {
            free_if(
                free_if(h, !rhs.is_const, rhs.id),
                !lhs.is_const,
                lhs.id,
            )
        } else {
            free_if(h, !rhs.is_const, rhs.id)
        }
    } else if lhs.is_str {
        if reply.lhs_num is Some {
            free_if(h, !lhs.is_const, lhs.id)
        } else {
            h
        }
    } else if rhs.is_str {
        free_if(h, !rhs.is_const, rhs.id)
    } else {
        h
    }
}

/// The registers after an ordering comparison poisoned the slots whose
/// variable strings it released.
pub open spec fn ord_regs(
    r: Seq<u64>,
    dest: int,
    src: int,
    lhs: GValue,
    rhs: GValue,
    reply: NumReply,
) -> Seq<u64> {
    if lhs.is_str && rhs.is_str {
        if reply.lhs_num is Some && reply.rhs_num is Some {
            poison_if(poison_if(r, !rhs.is_const, src), !lhs.is_const, dest)
        } else {
            poison_if(r, !rhs.is_const, src)
        }
    } else if lhs.is_str {
        if reply.lhs_num is Some {
            poison_if(r, !lhs.is_const, dest)
        } else {
            r
        }
    } else if rhs.is_str {
        poison_if(r, !rhs.is_const, src)
    } else {
        r
    }
}

/// The heap after arithmetic other than ADD: the left string is released
/// only when its numeric value was consumed; a right variable string is
/// always released.
pub open spec fn arith_heap(h: Seq<Option<Seq<u8>>>, lhs: GValue, rhs: GValue, reply: NumReply) -> Seq<
    Option<Seq<u8>>,
> {
    if lhs.is_str && rhs.is_str {
        if reply.lhs_num is Some && reply.rhs_num is Some {
            free_if(
                free_if(h, !lhs.is_const, lhs.id),
                !rhs.is_const,
                rhs.id,
            )
        } else {
            free_if(h, !rhs.is_const, rhs.id)
        }
    } else if lhs.is_str {
        if reply.lhs_num is Some {
            free_if(h, !lhs.is_const, lhs.id)
        } else {
            h
        }
    } else if rhs.is_str {
        free_if(h, !rhs.is_const, rhs.id)
    } else {
        h
    }
}

/// The registers after arithmetic other than ADD: the destination gets
/// the reply's result, or the canonical NaN when a side did not parse.
pub open spec fn arith_regs(
    r: Seq<u64>,
    dest: int,
    src: int,
    lhs: GValue,
    rhs: GValue,
    reply: NumReply,
) -> Seq<u64> {
    if lhs.is_str && rhs.is_str {
        if reply.lhs_num is Some && reply.rhs_num is Some {
            poison_if(r.update(dest, reply.result), !rhs.is_const, src)
        } else {
            poison_if(r.update(dest, NAN), !rhs.is_const, src)
        }
    } else if lhs.is_str {
        if reply.lhs_num is Some {
            r.update(dest, reply.result)
        } else {
            r.update(dest, NAN)
        }
    } else if rhs.is_str {
        poison_if(
            r.update(
                dest,
                if reply.rhs_num is Some {
                    reply.result
                } else {
                    NAN
                },
            ),
            !rhs.is_const,
            src,
        )
    } else {
        r.update(dest, reply.result)
    }
}

/// Release a consumed variable-string operand and, for the right-hand
/// source register, poison it first so the string cannot be released
/// again through it.
fn release_operand(heap: &mut StrHeap, ts: &mut ThreadState, v: &Value, poison: Option<u8>)
    requires
        old(ts).regs@.len() == 16,
        poison is Some ==> poison->0 < 16,
    ensures
        final(ts).regs@.len() == 16,
        v@.is_str && !v@.is_const ==> {
            &&& final(heap)@ == free_if(old(heap)@, true, v@.id)
            &&& final(ts).regs@ == (if poison is Some {
                old(ts).regs@.update(poison->0 as int, STR_SIGNATURE)
            } else {
                old(ts).regs@
            })
        },
        !(v@.is_str && !v@.is_const) ==> *final(heap) == *old(heap) && final(ts).regs@ == old(
            ts,
        ).regs@,
        final(ts).flags == old(ts).flags,
        final(ts).stack == old(ts).stack,
        final(heap)@.len() == old(heap)@.len(),
{
    match v {
        Value::Str { id, is_const, .. } => {
            if !*is_const {
                match poison {
                    Option::Some(reg) => {
                        ts.set_reg(reg, STR_SIGNATURE);
                    },
                    Option::None => {},
                }
                heap.free(*id);
            }
        },
        Value::Num(_) => {},
    }
}

/// Byte-wise equality of two payloads.
fn bytes_eq(a: &Vec<u8>, b: &Vec<u8>) -> (r: bool)
    ensures
        r <==> a@ == b@,
{
    if a.len() != b.len() {
        proof {
            assert(a@.len() != b@.len());
        }
        return false;
    }
    let mut i: usize = 0;
    while i < a.len()
        invariant
            i <= a@.len(),
            a@.len() == b@.len(),
            forall|j: int| 0 <= j < i ==> a@[j] == b@[j],
        decreases a@.len() - i,
    {
        if a[i] != b[i] {
            return false;
        }
        i = i + 1;
    }
    proof {
        assert(a@ =~= b@);
    }
    true
}

/// Equality under the value model. Numeric when both operands parse as
/// doubles (the reply's comparison), byte-wise otherwise, with a numeric
/// side rendered to text against a non-numeric string. Consumed variable
/// strings are released; the right operand's register is poisoned first,
/// and for a numeric comparison of two strings the left one too.
pub fn eq(
    heap: &mut StrHeap,
    ts: &mut ThreadState,
    dest_reg: u8,
    src_reg: u8,
    lhs: &Value,
    rhs: &Value,
    reply: &NumReply,
) -> (r: bool)
    requires
        old(ts).regs@.len() == 16,
        dest_reg < 16,
        src_reg < 16,
    ensures
        final(ts).regs@.len() == 16,
        final(ts).flags == old(ts).flags,
        final(ts).stack == old(ts).stack,
        final(heap)@.len() == old(heap)@.len(),
        r == eq_value(lhs@, rhs@, *reply),
        final(heap)@ == eq_heap(old(heap)@, lhs@, rhs@, *reply),
        final(ts).regs@ == eq_regs(
            old(ts).regs@,
            dest_reg as int,
            src_reg as int,
            lhs@,
            rhs@,
            *reply,
        ),
{
    match (lhs, rhs) {
        (Value::Str { text: l_text, .. }, Value::Str { text: r_text, .. }) => {
            if reply.lhs_num.is_some() && reply.rhs_num.is_some() {
                release_operand(heap, ts, rhs, Option::Some(src_reg));
                release_operand(heap, ts, lhs, Option::Some(dest_reg));
                reply.cmp
            } else {
                let value = bytes_eq(l_text, r_text);
                release_operand(heap, ts, rhs, Option::Some(src_reg));
                value
            }
        },
        (Value::Str { text: l_text, .. }, Value::Num(_)) => {
            if reply.lhs_num.is_some() {
                release_operand(heap, ts, lhs, Option::Some(dest_reg));
                reply.cmp
            } else {
                bytes_eq(l_text, &reply.rhs_text)
            }
        },
        (Value::Num(_), Value::Str { text: r_text, .. }) => {
            if reply.rhs_num.is_some() {
                release_operand(heap, ts, rhs, Option::Some(src_reg));
                reply.cmp
            } else {
                let value = bytes_eq(&reply.lhs_text, r_text);
                release_operand(heap, ts, rhs, Option::Some(src_reg));
                value
            }
        },
        (Value::Num(_), Value::Num(_)) => reply.cmp,
    }
}

/// An ordering comparison (less, less-or-equal, greater or
/// greater-or-equal) under the value model: the reply's comparison when
/// both operands parse as doubles, false as soon as either side does
/// not. Consumed variable strings are released and their registers
/// poisoned. One function serves all four kinds; the reply's comparison
/// carries the kind.
pub fn order_cmp(
    heap: &mut StrHeap,
    ts: &mut ThreadState,
    dest_reg: u8,
    src_reg: u8,
    lhs: &Value,
    rhs: &Value,
    reply: &NumReply,
) -> (r: bool)
    requires
        old(ts).regs@.len() == 16,
        dest_reg < 16,
        src_reg < 16,
    ensures
        final(ts).regs@.len() == 16,
        final(ts).flags == old(ts).flags,
        final(ts).stack == old(ts).stack,
        final(heap)@.len() == old(heap)@.len(),
        r == ord_value(lhs@, rhs@, *reply),
        final(heap)@ == ord_heap(old(heap)@, lhs@, rhs@, *reply),
        final(ts).regs@ == ord_regs(
            old(ts).regs@,
            dest_reg as int,
            src_reg as int,
            lhs@,
            rhs@,
            *reply,
        ),
{
    match (lhs, rhs) {
        (Value::Str { .. }, Value::Str { .. }) => {
            if reply.lhs_num.is_some() && reply.rhs_num.is_some() {
                release_operand(heap, ts, rhs, Option::Some(src_reg));
                release_operand(heap, ts, lhs, Option::Some(dest_reg));
                reply.cmp
            } else {
                release_operand(heap, ts, rhs, Option::Some(src_reg));
                false
            }
        },
        (Value::Str { .. }, Value::Num(_)) => {
            if reply.lhs_num.is_some() {
                release_operand(heap, ts, lhs, Option::Some(dest_reg));
                reply.cmp
            } else {
                false
            }
        },
        (Value::Num(_), Value::Str { .. }) => {
            if reply.rhs_num.is_some() {
                release_operand(heap, ts, rhs, Option::Some(src_reg));
                reply.cmp
            } else {
                release_operand(heap, ts, rhs, Option::Some(src_reg));
                false
            }
        },
        (Value::Num(_), Value::Num(_)) => reply.cmp,
    }
}

/// Arithmetic other than ADD: both operands are coerced to numbers and
/// the destination register receives the reply's result; when either
/// side does not parse, it receives the canonical NaN. The left string
/// is released only when it parsed; a consumed right variable string is
/// always released and its register poisoned.
pub fn arith(
    heap: &mut StrHeap,
    ts: &mut ThreadState,
    dest_reg: u8,
    src_reg: u8,
    lhs: &Value,
    rhs: &Value,
    reply: &NumReply,
)
    requires
        old(ts).regs@.len() == 16,
        dest_reg < 16,
        src_reg < 16,
    ensures
        final(ts).regs@.len() == 16,
        final(ts).flags == old(ts).flags,
        final(ts).stack == old(ts).stack,
        final(heap)@.len() == old(heap)@.len(),
        final(heap)@ == arith_heap(old(heap)@, lhs@, rhs@, *reply),
        final(ts).regs@ == arith_regs(
            old(ts).regs@,
            dest_reg as int,
            src_reg as int,
            lhs@,
            rhs@,
            *reply,
        ),
{
    match (lhs, rhs) {
        (Value::Str { .. }, Value::Str { .. }) => {
            if reply.lhs_num.is_some() && reply.rhs_num.is_some() {
                ts.set_reg(dest_reg, reply.result);
                release_operand(heap, ts, lhs, Option::None);
                release_operand(heap, ts, rhs, Option::Some(src_reg));
            } else {
                ts.set_reg(dest_reg, NAN);
                release_operand(heap, ts, rhs, Option::Some(src_reg));
            }
        },
        (Value::Str { .. }, Value::Num(_)) => {
            if reply.lhs_num.is_some() {
                ts.set_reg(dest_reg, reply.result);
                release_operand(heap, ts, lhs, Option::None);
            } else {
                ts.set_reg(dest_reg, NAN);
            }
        },
        (Value::Num(_), Value::Str { .. }) => {
            if reply.rhs_num.is_some() {
                ts.set_reg(dest_reg, reply.result);
            } else {
                ts.set_reg(dest_reg, NAN);
            }
            release_operand(heap, ts, rhs, Option::Some(src_reg));
        },
        (Value::Num(_), Value::Num(_)) => {
            ts.set_reg(dest_reg, reply.result);
        },
    }
}

/// The concatenation of two payloads.
fn concat_bytes(a: &Vec<u8>, b: &Vec<u8>) -> (r: Vec<u8>)
    ensures
        r@ == a@ + b@,
{
    let mut r: Vec<u8> = Vec::new();
    let mut i: usize = 0;
    while i < a.len()
        invariant
            i <= a@.len(),
            r@ =~= a@.take(i as int),
        decreases a@.len() - i,
    {
        r.push(a[i]);
        proof {
            assert(r@ =~= a@.take(i + 1));
        }
        i = i + 1;
    }
    let mut j: usize = 0;
    while j < b.len()
        invariant
            j <= b@.len(),
            r@ =~= a@ + b@.take(j as int),
        decreases b@.len() - j,
    {
        r.push(b[j]);
        proof {
            assert(r@ =~= a@ + b@.take(j + 1));
        }
        j = j + 1;
    }
    proof {
        assert(a@ + b@.take(b@.len() as int) =~= a@ + b@);
    }
    r
}

/// Whether an ADD with these operands and this reply must allocate a new
/// variable string: some side is a non-numeric string and the left side
/// owns no growable allocation to extend in place.
pub open spec fn add_allocates(lhs: GValue, rhs: GValue, reply: NumReply) -> bool {
    if lhs.is_str && rhs.is_str {
        !(reply.lhs_num is Some && reply.rhs_num is Some) && !lhs.owns_heap()
    } else if lhs.is_str {
        reply.lhs_num is None && !lhs.owns_heap()
    } else if rhs.is_str {
        reply.rhs_num is None
    } else {
        false
    }
}

/// The heap after a successful ADD.
pub open spec fn add_heap(h: Seq<Option<Seq<u8>>>, lhs: GValue, rhs: GValue, reply: NumReply) -> Seq<
    Option<Seq<u8>>,
> {
    if lhs.is_str && rhs.is_str {
        if reply.lhs_num is Some && reply.rhs_num is Some {
            free_if(
                free_if(h, !lhs.is_const, lhs.id),
                !rhs.is_const,
                rhs.id,
            )
        } else if lhs.owns_heap() {
            free_if(
                replace_at(h, lhs.id, lhs.text + rhs.text),
                !rhs.is_const,
                rhs.id,
            )
        } else {
            free_if(
                h.push(Option::Some(lhs.text + rhs.text)),
                !rhs.is_const,
                rhs.id,
            )
        }
    } else if lhs.is_str {
        if reply.lhs_num is Some {
            free_if(h, !lhs.is_const, lhs.id)
        } else if lhs.owns_heap() {
            replace_at(h, lhs.id, lhs.text + reply.rhs_text@)
        } else {
            h.push(Option::Some(lhs.text + reply.rhs_text@))
        }
    } else if rhs.is_str {
        if reply.rhs_num is Some {
            free_if(h, !rhs.is_const, rhs.id)
        } else {
            free_if(
                h.push(Option::Some(reply.lhs_text@ + rhs.text)),
                !rhs.is_const,
                rhs.id,
            )
        }
    } else {
        h
    }
}

/// The registers after a successful ADD against pre-state heap `h`: the
/// destination receives the numeric result, the grown left string's
/// word, or the word of the freshly allocated concatenation.
pub open spec fn add_regs(
    r: Seq<u64>,
    dest: int,
    src: int,
    lhs: GValue,
    rhs: GValue,
    reply: NumReply,
    h: Seq<Option<Seq<u8>>>,
) -> Seq<u64> {
    if lhs.is_str && rhs.is_str {
        if reply.lhs_num is Some && reply.rhs_num is Some {
            poison_if(r.update(dest, reply.result), !rhs.is_const, src)
        } else if lhs.owns_heap() {
            poison_if(
                r.update(dest, spec_var_str_word(lhs.id)),
                !rhs.is_const,
                src,
            )
        } else {
            poison_if(
                r.update(dest, spec_var_str_word((h.len() + 1) as u64)),
                !rhs.is_const,
                src,
            )
        }
    } else if lhs.is_str {
        if reply.lhs_num is Some {
            r.update(dest, reply.result)
        } else if lhs.owns_heap() {
            r.update(dest, spec_var_str_word(lhs.id))
        } else {
            r.update(dest, spec_var_str_word((h.len() + 1) as u64))
        }
    } else if rhs.is_str {
        if reply.rhs_num is Some {
            poison_if(r.update(dest, reply.result), !rhs.is_const, src)
        } else {
            poison_if(
                r.update(dest, spec_var_str_word((h.len() + 1) as u64)),
                !rhs.is_const,
                src,
            )
        }
    } else {
        r.update(dest, reply.result)
    }
}

/// ADD under the value model: numeric addition when both operands parse
/// as doubles, string concatenation otherwise (a numeric side is first
/// rendered to text). The concatenation grows the left string in place
/// when the left operand owns its allocation, and allocates a fresh
/// variable string when it does not; a consumed right variable string is
/// released and its register poisoned, and a left variable string is
/// released when its numeric value was consumed. Fails only when a fresh
/// allocation is needed and the heap's handle space is exhausted, in
/// which case nothing changes.
pub fn add(
    heap: &mut StrHeap,
    ts: &mut ThreadState,
    dest_reg: u8,
    src_reg: u8,
    lhs: &Value,
    rhs: &Value,
    reply: &NumReply,
) -> (r: Result<(), VmError>)
    requires
        old(ts).regs@.len() == 16,
        dest_reg < 16,
        src_reg < 16,
        old(heap)@.len() <= crate::values::STR_PAYLOAD_MASK,
        lhs@.owns_heap() ==> lhs@.id <= crate::values::STR_PAYLOAD_MASK,
    ensures
        final(ts).regs@.len() == 16,
        final(ts).flags == old(ts).flags,
        final(ts).stack == old(ts).stack,
        r is Ok <==> !(add_allocates(lhs@, rhs@, *reply) && old(heap)@.len()
            >= crate::values::STR_PAYLOAD_MASK),
        r is Err ==> *final(ts) == *old(ts) && *final(heap) == *old(heap) && r == Result::<
            (),
            VmError,
        >::Err(VmError::HeapExhausted),
        r is Ok ==> final(heap)@ == add_heap(old(heap)@, lhs@, rhs@, *reply),
        r is Ok ==> final(ts).regs@ == add_regs(
            old(ts).regs@,
            dest_reg as int,
            src_reg as int,
            lhs@,
            rhs@,
            *reply,
            old(heap)@,
        ),
{
    match (lhs, rhs) {
        (Value::Str { id, is_const, text: l_text }, Value::Str { text: r_text, .. }) => {
            if reply.lhs_num.is_some() && reply.rhs_num.is_some() {
                ts.set_reg(dest_reg, reply.result);
                release_operand(heap, ts, lhs, Option::None);
                release_operand(heap, ts, rhs, Option::Some(src_reg));
            } else {
                let cat = concat_bytes(l_text, r_text);
                if !*is_const && *id != 0 {
                    heap.replace(*id, cat);
                    ts.set_reg(dest_reg, var_str_word(*id));
                } else {
                    let h = match heap.allocate(cat) {
                        Result::Ok(h) => h,
                        Result::Err(e) => {
                            return Result::Err(e);
                        },
                    };
                    ts.set_reg(dest_reg, var_str_word(h));
                }
                release_operand(heap, ts, rhs, Option::Some(src_reg));
            }
        },
        (Value::Str { id, is_const, text: l_text }, Value::Num(_)) => {
            if reply.lhs_num.is_some() {
                ts.set_reg(dest_reg, reply.result);
                release_operand(heap, ts, lhs, Option::None);
            } else {
                let cat = concat_bytes(l_text, &reply.rhs_text);
                if !*is_const && *id != 0 {
                    heap.replace(*id, cat);
                    ts.set_reg(dest_reg, var_str_word(*id));
                } else {
                    let h = match heap.allocate(cat) {
                        Result::Ok(h) => h,
                        Result::Err(e) => {
                            return Result::Err(e);
                        },
                    };
                    ts.set_reg(dest_reg, var_str_word(h));
                }
            }
        },
        (Value::Num(_), Value::Str { text: r_text, .. }) => {
            if reply.rhs_num.is_some() {
                ts.set_reg(dest_reg, reply.result);
                release_operand(heap, ts, rhs, Option::Some(src_reg));
            } else {
                let cat = concat_bytes(&reply.lhs_text, r_text);
                let h = match heap.allocate(cat) {
                    Result::Ok(h) => h,
                    Result::Err(e) => {
                        return Result::Err(e);
                    },
                };
                ts.set_reg(dest_reg, var_str_word(h));
                release_operand(heap, ts, rhs, Option::Some(src_reg));
            }
        },
        (Value::Num(_), Value::Num(_)) => {
            ts.set_reg(dest_reg, reply.result);
        },
    }
    Result::Ok(())
}

/// Interpret the word of one register operand: a double stays bits; a
/// constant string's payload is read from its address (an 8-byte length,
/// then that many bytes); a variable string's payload is read from the
/// heap. A constant string whose payload runs outside the address space
/// is a fault, and a variable-string word whose handle is not live is an
/// invalid operation: the checked form of what would otherwise be a read
/// through a dangling reference.
pub fn resolve_value(
    ts: &crate::machine::ThreadState,
    mem: &crate::machine::Memory,
    heap: &StrHeap,
    word: u64,
) -> (r: Result<Value, VmError>)
    requires
        ts.wf(mem.bytes@.len()),
    ensures
        r is Ok <==> word_resolvable(*ts, mem.bytes@, heap@, word),
        r matches Result::Ok(v) ==> v@ == word_value(*ts, mem.bytes@, heap@, word),
        r is Err ==> (crate::values::spec_classify(word) is ConstStr && r->Err_0 is MemFault) || (
        crate::values::spec_classify(word) is VarStr && r == Result::<Value, VmError>::Err(
            VmError::InvalidOperation,
        )),
        r is Ok && r->Ok_0@.owns_heap() ==> r->Ok_0@.id <= heap@.len(),
{
    match crate::values::classify(word) {
        crate::values::WordClass::Number => Result::Ok(Value::Num(word)),
        crate::values::WordClass::ConstStr(addr) => {
            proof {
                assert(word & crate::values::STR_PAYLOAD_MASK
                    <= crate::values::STR_PAYLOAD_MASK) by (bit_vector);
            }
            let len = match ts.get_mem_absolute(mem, addr) {
                Result::Ok(l) => l,
                Result::Err(e) => {
                    return Result::Err(e);
                },
            };
            let text = match ts.read_abs_bytes(mem, addr + 8, len) {
                Result::Ok(t) => t,
                Result::Err(e) => {
                    return Result::Err(e);
                },
            };
            Result::Ok(Value::Str { id: addr, is_const: true, text })
        },
        crate::values::WordClass::VarStr(h) => {
            match heap.read(h) {
                Option::Some(text) => Result::Ok(Value::Str { id: h, is_const: false, text }),
                Option::None => Result::Err(VmError::InvalidOperation),
            }
        },
    }
}

} // verus!
