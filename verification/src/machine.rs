//! The register, stack and memory model of one virtual thread.
//!
//! The machine has one flat address space per generation: the shared code
//! image occupies addresses zero up to its length, and each thread's stack
//! occupies its own range above the image. Register slot 0 is the
//! instruction pointer, 1 the code base, 2 the frame pointer, 3 the
//! call-context pointer, 4 the stack pointer, 5 the return-value slot and
//! 6 through 15 are general-purpose callee-saved slots. Every access
//! outside the image and the thread's own stack is a fault: the machine
//! takes the checked path rather than leaving such accesses undefined.

use vstd::prelude::*;

use crate::errors::VmError;
use crate::wordio::{le64, read_u64, store64, write_u64};

verus! {

/// The shared memory image of one generation: the executable code, at
/// address zero of the machine's address space. All threads of a
/// generation share one image; instructions may write to it under the
/// configured locking policy.
pub struct Memory {
    pub bytes: Vec<u8>,
}

impl Memory {
    /// A fresh image holding `code`.
    pub fn from_code(code: Vec<u8>) -> (r: Memory)
        ensures
            r.bytes@ == code@,
    {
        Memory { bytes: code }
    }

    /// The base address of the image in the machine's address space.
    pub fn ptr(&self) -> (r: u64)
        ensures
            r == 0,
    {
        0
    }

    /// The image size in bytes.
    pub fn len(&self) -> (r: usize)
        ensures
            r == self.bytes@.len(),
    {
        self.bytes.len()
    }
}

/// One thread's stack allocation: a byte range of the address space
/// starting at `base`. The stack grows downward from its top.
pub struct Stack {
    pub base: u64,
    pub bytes: Vec<u8>,
}

impl Stack {
    /// The base address of the allocation.
    pub fn ptr(&self) -> (r: u64)
        ensures
            r == self.base,
    {
        self.base
    }
}

/// Number of register slots in the file.
pub const REG_COUNT: usize = 16;

/// The private state of one virtual thread: sixteen word registers, a
/// flags word (bit 0 holds the last comparison result) and its stack.
pub struct ThreadState {
    pub regs: Vec<u64>,
    pub flags: u64,
    pub stack: Stack,
}

/// Whether an `n`-byte access at `addr` lies inside the shared image.
pub open spec fn in_mem(mlen: nat, addr: u64, n: nat) -> bool {
    addr + n <= mlen
}

/// Whether an `n`-byte access at `addr` lies inside a stack whose range
/// starts at `base` and holds `slen` bytes.
pub open spec fn in_stack(base: u64, slen: nat, addr: u64, n: nat) -> bool {
    base <= addr && addr + n <= base + slen
}

impl ThreadState {
    /// A thread's state is well formed against an image of `mlen` bytes
    /// when its register file is full-sized and its stack range lies
    /// above the image and within the address space.
    pub open spec fn wf(self, mlen: nat) -> bool {
        &&& self.regs@.len() == REG_COUNT
        &&& mlen <= self.stack.base
        &&& self.stack.base + self.stack.bytes@.len() <= u64::MAX
    }

    /// Whether this thread may read or write `n` bytes at `addr`.
    pub open spec fn can_access(self, mlen: nat, addr: u64, n: nat) -> bool {
        in_mem(mlen, addr, n) || in_stack(self.stack.base, self.stack.bytes@.len(), addr, n)
    }

    /// The 64-bit word this thread sees at absolute address `addr`.
    pub open spec fn spec_abs64(self, mem: Seq<u8>, addr: u64) -> u64 {
        if in_mem(mem.len(), addr, 8) {
            le64(mem, addr as int)
        } else {
            le64(self.stack.bytes@, addr - self.stack.base)
        }
    }

    /// A fresh thread poised at entry address `addr`: instruction pointer
    /// set to it, code-base register set to the image base, stack pointer
    /// one word below the top of a zeroed stack of `stack_size` bytes at
    /// `stack_base`, everything else zero.
    pub fn new(stack_base: u64, stack_size: usize, addr: u64, code_base: u64) -> (r: ThreadState)
        requires
            stack_size >= 8,
            stack_base + stack_size <= u64::MAX,
        ensures
            r.regs@.len() == REG_COUNT,
            r.regs@[0] == addr,
            r.regs@[1] == code_base,
            r.regs@[4] == stack_base + stack_size - 8,
            forall|i: int| 2 <= i < REG_COUNT && i != 4 ==> r.regs@[i] == 0,
            r.flags == 0,
            r.stack.base == stack_base,
            r.stack.bytes@ =~= Seq::new(stack_size as nat, |i: int| 0u8),
    {
        let mut regs: Vec<u64> = vec![0; 16];
        regs.set(0, addr);
        regs.set(1, code_base);
        regs.set(4, stack_base + stack_size as u64 - 8);
        ThreadState { regs, flags: 0, stack: Stack { base: stack_base, bytes: vec![0; stack_size] } }
    }

    /// Read register `idx`.
    pub fn get_reg(&self, idx: u8) -> (r: u64)
        requires
            (idx as int) < self.regs@.len(),
        ensures
            r == self.regs@[idx as int],
    {
        self.regs[idx as usize]
    }

    /// Write register `idx`.
    pub fn set_reg(&mut self, idx: u8, value: u64)
        requires
            (idx as int) < old(self).regs@.len(),
        ensures
            final(self).regs@ == old(self).regs@.update(idx as int, value),
            final(self).flags == old(self).flags,
            final(self).stack == old(self).stack,
    {
        self.regs.set(idx as usize, value);
    }

    /// Write the low 32 bits of register `idx`, leaving the high bits:
    /// the register file is a little-endian byte overlay, so a 32-bit
    /// store touches only the low half of the slot.
    pub fn set_reg32(&mut self, idx: u8, value: u32)
        requires
            (idx as int) < old(self).regs@.len(),
        ensures
            final(self).regs@ == old(self).regs@.update(
                idx as int,
                (old(self).regs@[idx as int] & 0xFFFFFFFF00000000) | (value as u64),
            ),
            final(self).flags == old(self).flags,
            final(self).stack == old(self).stack,
    {
        let prev = self.regs[idx as usize];
        self.regs.set(idx as usize, (prev & 0xFFFFFFFF00000000) | (value as u64));
    }

    /// Flag bit `id`.
    pub fn get_flag(&self, id: u64) -> (r: bool)
        requires
            id < 64,
        ensures
            r == ((self.flags >> id) & 1 == 1),
    {
        (self.flags >> id) & 1 == 1
    }

    /// Set flag bit `id`.
    pub fn set_flag(&mut self, id: u64, value: bool)
        requires
            id < 64,
        ensures
            final(self).flags == (old(self).flags & !(1u64 << id)) | ((value as u64) << id),
            final(self).regs == old(self).regs,
            final(self).stack == old(self).stack,
    {
        self.flags = (self.flags & !(1u64 << id)) | ((value as u64) << id);
    }

    /// Atomically subtract `amount` from register `reg`, wrapping on
    /// underflow as the machine word does.
    pub fn sub32(&mut self, reg: u8, amount: u32)
        requires
            (reg as int) < old(self).regs@.len(),
        ensures
            final(self).regs@ == old(self).regs@.update(
                reg as int,
                old(self).regs@[reg as int].wrapping_sub(amount as u64),
            ),
            final(self).flags == old(self).flags,
            final(self).stack == old(self).stack,
    {
        let prev = self.regs[reg as usize];
        self.regs.set(reg as usize, prev.wrapping_sub(amount as u64));
    }

    /// Atomically add `amount` to register `reg`, wrapping on overflow.
    pub fn add32(&mut self, reg: u8, amount: u32)
        requires
            (reg as int) < old(self).regs@.len(),
        ensures
            final(self).regs@ == old(self).regs@.update(
                reg as int,
                old(self).regs@[reg as int].wrapping_add(amount as u64),
            ),
            final(self).flags == old(self).flags,
            final(self).stack == old(self).stack,
    {
        let prev = self.regs[reg as usize];
        self.regs.set(reg as usize, prev.wrapping_add(amount as u64));
    }

    /// Advance the instruction pointer by `amount` bytes.
    pub fn inc_inst(&mut self, amount: u64)
        requires
            old(self).regs@.len() == REG_COUNT,
        ensures
            final(self).regs@ == old(self).regs@.update(
                0,
                old(self).regs@[0].wrapping_add(amount),
            ),
            final(self).flags == old(self).flags,
            final(self).stack == old(self).stack,
    {
        let prev = self.regs[0];
        self.regs.set(0, prev.wrapping_add(amount));
    }

    /// Read the 64-bit word at absolute address `addr`, from the shared
    /// image or from this thread's stack; anything else is a fault.
    pub fn get_mem_absolute(&self, mem: &Memory, addr: u64) -> (r: Result<u64, VmError>)
        requires
            self.wf(mem.bytes@.len()),
        ensures
            r is Ok <==> self.can_access(mem.bytes@.len(), addr, 8),
            r is Ok ==> r->Ok_0 == self.spec_abs64(mem.bytes@, addr),
            r is Err ==> r == Result::<u64, VmError>::Err(VmError::MemFault(addr)),
    {
        let mlen = mem.bytes.len();
        if addr < mlen as u64 && mlen as u64 - addr >= 8 {
            Result::Ok(read_u64(&mem.bytes, addr as usize))
        } else {
            let slen = self.stack.bytes.len();
            if addr >= self.stack.base && slen as u64 >= 8 && addr - self.stack.base <= slen
                as u64 - 8 {
                Result::Ok(read_u64(&self.stack.bytes, (addr - self.stack.base) as usize))
            } else {
                Result::Err(VmError::MemFault(addr))
            }
        }
    }

    /// Store a 64-bit word at absolute address `addr`, into the shared
    /// image or this thread's stack; anything else is a fault and changes
    /// nothing.
    pub fn set_mem_absolute(&mut self, mem: &mut Memory, addr: u64, value: u64) -> (r: Result<
        (),
        VmError,
    >)
        requires
            old(self).wf(old(mem).bytes@.len()),
        ensures
            r is Ok <==> old(self).can_access(old(mem).bytes@.len(), addr, 8),
            r is Err ==> *final(self) == *old(self) && *final(mem) == *old(mem) && r == Result::<
                (),
                VmError,
            >::Err(VmError::MemFault(addr)),
            r is Ok && in_mem(old(mem).bytes@.len(), addr, 8) ==> {
                &&& final(mem).bytes@ == store64(old(mem).bytes@, addr as int, value)
                &&& *final(self) == *old(self)
            },
            r is Ok && !in_mem(old(mem).bytes@.len(), addr, 8) ==> {
                &&& *final(mem) == *old(mem)
                &&& final(self).stack.bytes@ == store64(
                    old(self).stack.bytes@,
                    addr - old(self).stack.base,
                    value,
                )
                &&& final(self).stack.base == old(self).stack.base
                &&& final(self).regs == old(self).regs
                &&& final(self).flags == old(self).flags
            },
            final(self).wf(final(mem).bytes@.len()),
            final(mem).bytes@.len() == old(mem).bytes@.len(),
            final(self).stack.bytes@.len() == old(self).stack.bytes@.len(),
            final(self).regs == old(self).regs,
            final(self).flags == old(self).flags,
            final(self).stack.base == old(self).stack.base,
    {
        let mlen = mem.bytes.len();
        if addr < mlen as u64 && mlen as u64 - addr >= 8 {
            write_u64(&mut mem.bytes, addr as usize, value);
            Result::Ok(())
        } else {
            let slen = self.stack.bytes.len();
            if addr >= self.stack.base && slen as u64 >= 8 && addr - self.stack.base <= slen
                as u64 - 8 {
                write_u64(&mut self.stack.bytes, (addr - self.stack.base) as usize, value);
                Result::Ok(())
            } else {
                Result::Err(VmError::MemFault(addr))
            }
        }
    }

    /// Push one word: store it at the stack-pointer address, then move
    /// the pointer one word down.
    pub fn push(&mut self, mem: &mut Memory, data: u64) -> (r: Result<(), VmError>)
        requires
            old(self).wf(old(mem).bytes@.len()),
        ensures
            r is Ok <==> old(self).can_access(old(mem).bytes@.len(), old(self).regs@[4], 8),
            r is Err ==> *final(self) == *old(self) && *final(mem) == *old(mem) && r == Result::<
                (),
                VmError,
            >::Err(VmError::MemFault(old(self).regs@[4])),
            r is Ok ==> {
                let sp = old(self).regs@[4];
                &&& final(self).regs@ == old(self).regs@.update(4, sp.wrapping_sub(8))
                &&& final(self).flags == old(self).flags
                &&& final(self).stack.base == old(self).stack.base
                &&& (if in_mem(old(mem).bytes@.len(), sp, 8) {
                    final(mem).bytes@ == store64(old(mem).bytes@, sp as int, data)
                        && final(self).stack.bytes@ == old(self).stack.bytes@
                } else {
                    *final(mem) == *old(mem) && final(self).stack.bytes@ == store64(
                        old(self).stack.bytes@,
                        sp - old(self).stack.base,
                        data,
                    )
                })
            },
            final(self).wf(final(mem).bytes@.len()),
            final(mem).bytes@.len() == old(mem).bytes@.len(),
            final(self).stack.bytes@.len() == old(self).stack.bytes@.len(),
    {
        let sp = self.regs[4];
        match self.set_mem_absolute(mem, sp, data) {
            Result::Ok(_) => {
                self.regs.set(4, sp.wrapping_sub(8));
                Result::Ok(())
            },
            Result::Err(e) => Result::Err(e),
        }
    }

    /// Pop one word: move the stack pointer one word up, then read the
    /// word it now addresses.
    pub fn pop(&mut self, mem: &Memory) -> (r: Result<u64, VmError>)
        requires
            old(self).wf(mem.bytes@.len()),
        ensures
            r is Ok <==> old(self).can_access(
                mem.bytes@.len(),
                old(self).regs@[4].wrapping_add(8),
                8,
            ),
            r is Err ==> *final(self) == *old(self) && r == Result::<u64, VmError>::Err(
                VmError::MemFault(old(self).regs@[4].wrapping_add(8)),
            ),
            r is Ok ==> {
                let sp = old(self).regs@[4].wrapping_add(8);
                &&& final(self).regs@ == old(self).regs@.update(4, sp)
                &&& final(self).flags == old(self).flags
                &&& final(self).stack == old(self).stack
                &&& r->Ok_0 == old(self).spec_abs64(mem.bytes@, sp)
            },
            final(self).wf(mem.bytes@.len()),
    {
        let sp = self.regs[4].wrapping_add(8);
        match self.get_mem_absolute(mem, sp) {
            Result::Ok(v) => {
                self.regs.set(4, sp);
                Result::Ok(v)
            },
            Result::Err(e) => Result::Err(e),
        }
    }

    /// Read the byte at absolute address `addr`.
    pub fn get_mem_absolute_u8(&self, mem: &Memory, addr: u64) -> (r: Result<u8, VmError>)
        requires
            self.wf(mem.bytes@.len()),
        ensures
            r is Ok <==> self.can_access(mem.bytes@.len(), addr, 1),
            r is Ok ==> r->Ok_0 == (if in_mem(mem.bytes@.len(), addr, 1) {
                mem.bytes@[addr as int]
            } else {
                self.stack.bytes@[addr - self.stack.base]
            }),
            r is Err ==> r == Result::<u8, VmError>::Err(VmError::MemFault(addr)),
    {
        let mlen = mem.bytes.len();
        if addr < mlen as u64 {
            Result::Ok(mem.bytes[addr as usize])
        } else {
            let slen = self.stack.bytes.len();
            if addr >= self.stack.base && addr - self.stack.base < slen as u64 {
                Result::Ok(self.stack.bytes[(addr - self.stack.base) as usize])
            } else {
                Result::Err(VmError::MemFault(addr))
            }
        }
    }

    /// The `n` bytes this thread sees at absolute address `addr`, when the
    /// whole range lies in one region.
    pub open spec fn spec_abs_bytes(self, mem: Seq<u8>, addr: u64, n: u64) -> Seq<u8> {
        if in_mem(mem.len(), addr, n as nat) {
            mem.subrange(addr as int, addr + n)
        } else {
            self.stack.bytes@.subrange(addr - self.stack.base, addr - self.stack.base + n)
        }
    }

    /// Read `n` bytes at absolute address `addr`. The whole range must lie
    /// inside the shared image, or inside this thread's stack.
    pub fn read_abs_bytes(&self, mem: &Memory, addr: u64, n: u64) -> (r: Result<Vec<u8>, VmError>)
        requires
            self.wf(mem.bytes@.len()),
        ensures
            r is Ok <==> self.can_access(mem.bytes@.len(), addr, n as nat),
            r is Ok ==> r->Ok_0@ == self.spec_abs_bytes(mem.bytes@, addr, n),
            r is Err ==> r == Result::<Vec<u8>, VmError>::Err(VmError::MemFault(addr)),
    {
        let mlen = mem.bytes.len();
        if addr <= mlen as u64 && mlen as u64 - addr >= n {
            let mut out: Vec<u8> = Vec::new();
            let mut i: u64 = 0;
            while i < n
                invariant
                    i <= n,
                    addr + n <= mlen,
                    mlen == mem.bytes@.len(),
                    out@ =~= mem.bytes@.subrange(addr as int, addr + i),
                decreases n - i,
            {
                out.push(mem.bytes[(addr + i) as usize]);
                proof {
                    assert(out@ =~= mem.bytes@.subrange(addr as int, addr + i + 1));
                }
                i = i + 1;
            }
            Result::Ok(out)
        } else {
            let slen = self.stack.bytes.len();
            if addr >= self.stack.base && addr - self.stack.base <= slen as u64 && slen as u64 - (
            addr - self.stack.base) >= n {
                let off = addr - self.stack.base;
                let mut out: Vec<u8> = Vec::new();
                let mut i: u64 = 0;
                while i < n
                    invariant
                        i <= n,
                        off + n <= slen,
                        slen == self.stack.bytes@.len(),
                        out@ =~= self.stack.bytes@.subrange(off as int, off + i),
                    decreases n - i,
                {
                    out.push(self.stack.bytes[(off + i) as usize]);
                    proof {
                        assert(out@ =~= self.stack.bytes@.subrange(off as int, off + i + 1));
                    }
                    i = i + 1;
                }
                Result::Ok(out)
            } else {
                Result::Err(VmError::MemFault(addr))
            }
        }
    }
}

} // verus!
