//! Unrecoverable machine faults, and decimal rendering for the messages
//! that carry numbers.

use vstd::prelude::*;

verus! {

/// An unrecoverable fault: a malformed or unsupported encoding, or an
//  access outside the machine's address space. The run aborts on these.
#[derive(Clone, Copy, PartialEq, Eq, Structural, Debug)]
pub enum VmError {
    /// The opcode or operand-layout byte names no instruction.
    UnsupportedInstruction,
    /// The comparison-kind byte names no comparison.
    UnsupportedOperation,
    /// The intrinsic id names no intrinsic.
    UnsupportedIntrinsic,
    /// DROP applied to a register that holds no variable string.
    InvalidOperation,
    /// A register operand byte outside the register file.
    BadRegister,
    /// A read or write outside shared memory and this thread's stack; the
    /// offending address is carried.
    MemFault(u64),
    /// No free handle remained for a variable string.
    HeapExhausted,
    /// No address range remained for a new thread's stack.
    AddressSpaceExhausted,
    /// The code image is too short to carry an entry address, or too
    /// large for the address space below the stack region.
    BadImage,
    /// The configured stack size is too small for one word, or beyond
    /// this machine's address width.
    BadStackSize,
    /// A per-block locking policy was configured without a block lock
    /// map.
    MissingBlockInfo,
}

/// The decimal digit characters of `n`, most significant first.
pub open spec fn dec_digits(n: nat) -> Seq<char>
    decreases n,
{
    if n < 10 {
        seq![digit_char(n)]
    } else {
        dec_digits(n / 10).push(digit_char(n % 10))
    }
}

/// The character for one decimal digit.
pub open spec fn digit_char(d: nat) -> char {
    if d == 0 {
        '0'
    } else if d == 1 {
        '1'
    } else if d == 2 {
        '2'
    } else if d == 3 {
        '3'
    } else if d == 4 {
        '4'
    } else if d == 5 {
        '5'
    } else if d == 6 {
        '6'
    } else if d == 7 {
        '7'
    } else if d == 8 {
        '8'
    } else {
        '9'
    }
}

fn digit_str(d: u64) -> (r: &'static str)
    requires
        d < 10,
    ensures
        r@ == seq![digit_char(d as nat)],
{
    proof {
        reveal_strlit("0");
        reveal_strlit("1");
        reveal_strlit("2");
        reveal_strlit("3");
        reveal_strlit("4");
        reveal_strlit("5");
        reveal_strlit("6");
        reveal_strlit("7");
        reveal_strlit("8");
        reveal_strlit("9");
    }
    match d {
        0 => "0",
        1 => "1",
        2 => "2",
        3 => "3",
        4 => "4",
        5 => "5",
        6 => "6",
        7 => "7",
        8 => "8",
        _ => "9",
    }
}

/// Render `n` in decimal.
pub fn u64_to_string(n: u64) -> (r: String)
    ensures
        r@ == dec_digits(n as nat),
    decreases n,
{
    if n < 10 {
        digit_str(n).to_owned()
    } else {
        let mut s = u64_to_string(n / 10);
        s.append(digit_str(n % 10));
        proof {
            assert(s@ == dec_digits((n / 10) as nat) + seq![digit_char((n % 10) as nat)]);
            assert(dec_digits((n / 10) as nat) + seq![digit_char((n % 10) as nat)] == dec_digits(
                (n / 10) as nat,
            ).push(digit_char((n % 10) as nat)));
        }
        s
    }
}

} // verus!
