//! The dynamic value model: a 64-bit word is either an IEEE-754 double or a
//! tagged string reference, distinguished by a reserved bit pattern in the
//! NaN space ("NaN boxing").

use vstd::prelude::*;

verus! {

/// Words whose bits match this signature (and are not the canonical quiet
/// NaN) are string references. The pattern sets every exponent bit and
/// bit 50 of the mantissa, so it is itself a NaN when read as a double.
pub const STR_SIGNATURE: u64 = 0x7FF4000000000000;

/// The canonical quiet NaN. Reserved: a word equal to it (up to sign) is a
/// number, never a string reference. It is also the numeric result of
/// arithmetic on operands that do not parse as numbers.
pub const NAN: u64 = 0x7FF8000000000000;

/// Bit 51 of a string-reference word distinguishes constant strings (set),
/// which live in the immutable code image, from variable strings (clear),
/// which are owned heap allocations.
pub const CONST_STR_BIT: u64 = 0x0008000000000000;

/// The low 50 bits of a string-reference word carry its payload: an address
/// into the code image for a constant string, a heap handle for a variable
/// one.
pub const STR_PAYLOAD_MASK: u64 = 0x0003FFFFFFFFFFFF;

/// How a 64-bit word is interpreted by the value model.
#[derive(Clone, Copy, PartialEq, Eq, Structural, Debug)]
pub enum WordClass {
    /// An IEEE-754 double, carried as its raw bits.
    Number,
    /// A constant string stored in the code image at the payload address.
    ConstStr(u64),
    /// A variable string owned by the heap under the payload handle.
    VarStr(u64),
}

/// Whether the word is a tagged string reference rather than a double.
pub open spec fn spec_is_str(w: u64) -> bool {
    &&& w & STR_SIGNATURE == STR_SIGNATURE
    &&& w & 0x7FFFFFFFFFFFFFFF != NAN
}

/// Whether a string-reference word refers to a constant string.
pub open spec fn spec_is_const_str(w: u64) -> bool {
    spec_is_str(w) && w & CONST_STR_BIT != 0
}

/// The payload bits of a string-reference word.
pub open spec fn spec_str_payload(w: u64) -> u64 {
    w & STR_PAYLOAD_MASK
}

/// The interpretation of a word.
pub open spec fn spec_classify(w: u64) -> WordClass {
    if spec_is_str(w) {
        if spec_is_const_str(w) {
            WordClass::ConstStr(spec_str_payload(w))
        } else {
            WordClass::VarStr(spec_str_payload(w))
        }
    } else {
        WordClass::Number
    }
}

/// Interpret a word as a double or as a tagged string reference.
pub fn classify(w: u64) -> (c: WordClass)
    ensures
        c == spec_classify(w),
{
    if (w & STR_SIGNATURE) == STR_SIGNATURE && (w & 0x7FFFFFFFFFFFFFFF) != NAN {
        if (w & CONST_STR_BIT) != 0 {
            WordClass::ConstStr(w & STR_PAYLOAD_MASK)
        } else {
            WordClass::VarStr(w & STR_PAYLOAD_MASK)
        }
    } else {
        WordClass::Number
    }
}

/// The word for a constant string stored at `addr` in the code image.
/// Used by the LSTR instruction. The address must fit in the payload bits.
pub open spec fn spec_const_str_word(addr: u64) -> u64 {
    addr | STR_SIGNATURE | CONST_STR_BIT
}

/// Build a constant-string word from a code-image address.
pub fn const_str_word(addr: u64) -> (w: u64)
    ensures
        w == spec_const_str_word(addr),
        addr <= STR_PAYLOAD_MASK ==> spec_classify(w) == WordClass::ConstStr(addr),
{
    proof {
        lemma_const_str_word_classify(addr);
    }
    addr | STR_SIGNATURE | CONST_STR_BIT
}

/// The word for the variable string held by the heap under `handle`.
pub open spec fn spec_var_str_word(handle: u64) -> u64 {
    handle | STR_SIGNATURE
}

/// Build a variable-string word from a heap handle. The handle must fit in
/// the payload bits, which also keeps it clear of the constant tag bit.
pub fn var_str_word(handle: u64) -> (w: u64)
    requires
        handle <= STR_PAYLOAD_MASK,
    ensures
        w == spec_var_str_word(handle),
        spec_classify(w) == WordClass::VarStr(handle),
{
    proof {
        lemma_var_str_word_classify(handle);
    }
    handle | STR_SIGNATURE
}

proof fn lemma_const_str_word_classify(addr: u64)
    by (bit_vector)
    ensures
        addr <= 0x0003FFFFFFFFFFFFu64 ==> {
            let w = addr | 0x7FF4000000000000u64 | 0x0008000000000000u64;
            &&& w & 0x7FF4000000000000u64 == 0x7FF4000000000000u64
            &&& w & 0x7FFFFFFFFFFFFFFFu64 != 0x7FF8000000000000u64
            &&& w & 0x0008000000000000u64 != 0
            &&& w & 0x0003FFFFFFFFFFFFu64 == addr
        },
{
}

proof fn lemma_var_str_word_classify(handle: u64)
    by (bit_vector)
    ensures
        handle <= 0x0003FFFFFFFFFFFFu64 ==> {
            let w = handle | 0x7FF4000000000000u64;
            &&& w & 0x7FF4000000000000u64 == 0x7FF4000000000000u64
            &&& w & 0x7FFFFFFFFFFFFFFFu64 != 0x7FF8000000000000u64
            &&& w & 0x0008000000000000u64 == 0
            &&& w & 0x0003FFFFFFFFFFFFu64 == handle
        },
{
}

/// The canonical empty-string value: a variable-string reference with
/// payload zero. Registers whose variable string was released are poisoned
/// to it so the string cannot be released twice.
pub fn empty_str_word() -> (w: u64)
    ensures
        w == STR_SIGNATURE,
        spec_classify(w) == WordClass::VarStr(0),
{
    proof {
        lemma_var_str_word_classify(0);
        assert(0u64 | 0x7FF4000000000000u64 == 0x7FF4000000000000u64) by (bit_vector);
    }
    STR_SIGNATURE
}

} // verus!
