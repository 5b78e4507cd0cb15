//! The runtime of one run: the shared memory image of the current
//! generation, the live virtual threads, the variable-string heap, the
//! lifecycle coordinator and the cooperative shutdown flag.

use vstd::prelude::*;

use crate::archive::Archive;
use crate::counter::ThreadCounter;
use crate::errors::VmError;
use crate::events::ShutdownType;
use crate::machine::{Memory, ThreadState, REG_COUNT};
use crate::string_heap::StrHeap;
use crate::values::STR_PAYLOAD_MASK;
use crate::vm_config::ExecutorKind;
use crate::wordio::{copy_bytes, le64, read_u64};

verus! {

/// The lowest stack address: thread stacks live above the code image,
/// each in its own range of the address space, slot `i`'s starting at
/// this base plus `i` times the configured stack size.
pub const STACK_REGION_BASE: u64 = 0x0001000000000000;

/// How many of the thread slots hold a live thread.
pub open spec fn live_threads(s: Seq<Option<ThreadState>>) -> nat
    decreases s.len(),
{
    if s.len() == 0 {
        0
    } else {
        live_threads(s.drop_last()) + if s.last() is Some {
            1nat
        } else {
            0nat
        }
    }
}

pub proof fn lemma_live_threads_update_none(s: Seq<Option<ThreadState>>, i: int)
    requires
        0 <= i < s.len(),
        s[i] is Some,
    ensures
        live_threads(s.update(i, Option::None)) + 1 == live_threads(s),
    decreases s.len(),
{
    let t = s.update(i, Option::<ThreadState>::None);
    if i == s.len() - 1 {
        assert(t.drop_last() =~= s.drop_last());
    } else {
        assert(t.drop_last() =~= s.drop_last().update(i, Option::<ThreadState>::None));
        lemma_live_threads_update_none(s.drop_last(), i);
    }
}

pub proof fn lemma_live_threads_update_some(s: Seq<Option<ThreadState>>, i: int, v: ThreadState)
    requires
        0 <= i < s.len(),
        s[i] is None,
    ensures
        live_threads(s.update(i, Option::Some(v))) == live_threads(s) + 1,
    decreases s.len(),
{
    let t = s.update(i, Option::Some(v));
    if i == s.len() - 1 {
        assert(t.drop_last() =~= s.drop_last());
    } else {
        assert(t.drop_last() =~= s.drop_last().update(i, Option::Some(v)));
        lemma_live_threads_update_some(s.drop_last(), i, v);
    }
}

proof fn lemma_live_threads_push_some(s: Seq<Option<ThreadState>>, v: ThreadState)
    ensures
        live_threads(s.push(Option::Some(v))) == live_threads(s) + 1,
{
    assert(s.push(Option::Some(v)).drop_last() =~= s);
}

proof fn lemma_live_threads_positive(s: Seq<Option<ThreadState>>, i: int)
    requires
        0 <= i < s.len(),
        s[i] is Some,
    ensures
        live_threads(s) >= 1,
    decreases s.len(),
{
    if i == s.len() - 1 {
    } else {
        lemma_live_threads_positive(s.drop_last(), i);
    }
}

/// Overwriting an occupied slot does not move the first free slot.
pub proof fn lemma_first_free_update_occupied(
    s: Seq<Option<ThreadState>>,
    i: int,
    v: ThreadState,
    j: int,
)
    requires
        0 <= i < s.len(),
        s[i] is Some,
        0 <= j <= s.len(),
    ensures
        first_free_from(s.update(i, Option::Some(v)), j) == first_free_from(s, j),
    decreases s.len() - j,
{
    if j < s.len() {
        lemma_first_free_update_occupied(s, i, v, j + 1);
    }
}

/// The first free thread slot, or the slot count when every slot is
/// taken.
pub open spec fn first_free_slot(s: Seq<Option<ThreadState>>) -> int {
    first_free_from(s, 0)
}

/// Whether another thread can be spawned: the live count has room and
/// the first free slot's stack range still fits below the top of the
/// address space.
pub open spec fn can_spawn(threads: Seq<Option<ThreadState>>, counter: u32, stack_size: u64) -> bool {
    &&& counter < u32::MAX
    &&& first_free_slot(threads) < (u64::MAX - STACK_REGION_BASE) as int / stack_size as int
}

pub open spec fn first_free_from(s: Seq<Option<ThreadState>>, i: int) -> int
    recommends
        0 <= i <= s.len(),
    decreases s.len() - i when 0 <= i <= s.len()
{
    if i >= s.len() {
        i
    } else if s[i] is None {
        i
    } else {
        first_free_from(s, i + 1)
    }
}

pub proof fn lemma_first_free_range(s: Seq<Option<ThreadState>>, i: int)
    requires
        0 <= i <= s.len(),
    ensures
        i <= first_free_from(s, i) <= s.len(),
        first_free_from(s, i) < s.len() ==> s[first_free_from(s, i)] is None,
    decreases s.len() - i,
{
    if i < s.len() && !(s[i] is None) {
        lemma_first_free_range(s, i + 1);
    }
}

/// The runtime of one run.
pub struct Runtime {
    /// The decoded container; its code image seeds each generation.
    pub archive: Archive,
    /// The shared memory image of the current generation.
    pub memory: Memory,
    /// The variable-string heap.
    pub heap: StrHeap,
    /// One slot per virtual thread ever spawned this generation; a
    /// disposed thread leaves its slot empty for reuse.
    pub threads: Vec<Option<ThreadState>>,
    /// The lifecycle coordinator.
    pub counter: ThreadCounter,
    /// The cooperative shutdown flag: every thread exits its loop at the
    /// next instruction boundary once this is set.
    pub shutdown: bool,
    /// The entry address of the program, read from the first word of the
    /// image: that word scaled to a slot address, plus one opcode byte.
    pub initial_inst: u64,
    /// The base address of the code image.
    pub base: u64,
}

impl Runtime {
    /// What every operation of the runtime preserves: the image leaves
    /// room for the stack region, the stack size is usable, every live
    /// thread is well formed with its stack in its own slot's range, the
    /// coordinator's count equals the number of live threads, and heap
    /// handles fit the payload bits of a word.
    pub open spec fn wf(self) -> bool {
        &&& self.memory.bytes@.len() <= STACK_REGION_BASE
        &&& self.archive.code@.len() <= STACK_REGION_BASE
        &&& self.base == 0
        &&& 8 <= self.archive.conf.stack_size <= usize::MAX
        &&& self.counter.counter == live_threads(self.threads@)
        &&& self.heap@.len() <= STR_PAYLOAD_MASK
        &&& (self.archive.conf.executor_kind is SysLockBlock
            || self.archive.conf.executor_kind is SpinLockBlock
            ==> self.archive.block_info is Some)
        &&& forall|i: int|
            0 <= i < self.threads@.len() && self.threads@[i] is Some ==> {
                let ts = self.threads@[i]->0;
                &&& ts.wf(self.memory.bytes@.len())
                &&& ts.stack.base == STACK_REGION_BASE + i * self.archive.conf.stack_size
                &&& ts.stack.bytes@.len() == self.archive.conf.stack_size
            }
    }

    /// Build a runtime from a decoded container: the image is a copy of
    /// the container's code, the entry address is its first word scaled
    /// by the slot width plus one opcode byte, and no thread runs yet.
    /// An image too short for the entry word or too large for the
    /// address space, an unusable stack size, or a per-block policy
    /// without a lock-region table abort the run.
    pub fn new(archive: Archive) -> (r: Result<Runtime, VmError>)
        ensures
            r matches Result::Ok(rt) ==> {
                &&& rt.wf()
                &&& rt.archive == archive
                &&& rt.memory.bytes@ == archive.code@
                &&& rt.threads@.len() == 0
                &&& rt.counter.counter == 0
                &&& rt.counter.shutdown_type is Unset
                &&& rt.counter.error_data is None
                &&& rt.heap@.len() == 0
                &&& !rt.shutdown
                &&& rt.base == 0
                &&& rt.initial_inst == le64(archive.code@, 0).wrapping_mul(8).wrapping_add(8)
            },
            r is Ok <==> {
                &&& archive.code@.len() >= 8
                &&& archive.code@.len() <= STACK_REGION_BASE
                &&& 8 <= archive.conf.stack_size <= usize::MAX
                &&& (archive.conf.executor_kind is SysLockBlock
                    || archive.conf.executor_kind is SpinLockBlock
                    ==> archive.block_info is Some)
            },
            r matches Result::Err(e) ==> (e is BadImage || e is BadStackSize
                || e is MissingBlockInfo),
    {
        if archive.code.len() < 8 || archive.code.len() as u64 > STACK_REGION_BASE {
            return Result::Err(VmError::BadImage);
        }
        if archive.conf.stack_size < 8 || archive.conf.stack_size > usize::MAX as u64 {
            return Result::Err(VmError::BadStackSize);
        }
        match archive.conf.executor_kind {
            ExecutorKind::SysLockBlock | ExecutorKind::SpinLockBlock => {
                if archive.block_info.is_none() {
                    return Result::Err(VmError::MissingBlockInfo);
                }
            },
            _ => {},
        }
        let entry_word = read_u64(&archive.code, 0);
        let initial_inst = entry_word.wrapping_mul(8).wrapping_add(8);
        let memory = Memory::from_code(copy_bytes(&archive.code));
        Result::Ok(
            Runtime {
                archive,
                memory,
                heap: StrHeap::new(),
                threads: Vec::new(),
                counter: ThreadCounter::new(),
                shutdown: false,
                initial_inst,
                base: 0,
            },
        )
    }

    /// Create one more virtual thread poised at `addr`, in the first
    /// free slot, with a zeroed stack in that slot's address range. The
    /// live count is raised before the thread exists, so the count can
    /// never touch zero while a spawn is pending. Succeeds exactly when
    /// the live count and the address space have room for one more
    /// thread.
    pub fn spawn(&mut self, addr: u64) -> (r: Result<usize, VmError>)
        requires
            old(self).wf(),
        ensures
            final(self).wf(),
            final(self).archive == old(self).archive,
            final(self).base == old(self).base,
            final(self).initial_inst == old(self).initial_inst,
            r is Ok <==> can_spawn(
                old(self).threads@,
                old(self).counter.counter,
                old(self).archive.conf.stack_size,
            ),
            r matches Result::Err(e) ==> *final(self) == *old(self) && e
                is AddressSpaceExhausted,
            r matches Result::Ok(t) ==> {
                let slot = first_free_slot(old(self).threads@);
                &&& t == slot
                &&& final(self).threads@.len() == (if slot < old(self).threads@.len() {
                    old(self).threads@.len()
                } else {
                    old(self).threads@.len() + 1
                })
                &&& forall|j: int|
                    0 <= j < old(self).threads@.len() && j != slot ==> final(self).threads@[j]
                        == old(self).threads@[j]
                &&& final(self).threads@[slot as int] is Some
                &&& {
                    let ts = final(self).threads@[slot as int]->0;
                    &&& ts.regs@.len() == REG_COUNT
                    &&& ts.regs@[0] == addr
                    &&& ts.regs@[1] == old(self).base
                    &&& ts.regs@[4] == STACK_REGION_BASE + slot * old(
                        self,
                    ).archive.conf.stack_size + old(self).archive.conf.stack_size - 8
                    &&& ts.flags == 0
                }
                &&& final(self).counter.counter == old(self).counter.counter + 1
                &&& final(self).memory == old(self).memory
                &&& final(self).heap == old(self).heap
                &&& final(self).counter.shutdown_type == old(self).counter.shutdown_type
                &&& final(self).counter.error_data == old(self).counter.error_data
                &&& final(self).shutdown == old(self).shutdown
            },
    {
        let ss = self.archive.conf.stack_size;
        let mut slot: usize = 0;
        let n = self.threads.len();
        proof {
            assert(first_free_from(self.threads@, 0) == first_free_slot(self.threads@));
        }
        while slot < n
            invariant
                0 <= slot <= n,
                n == self.threads@.len(),
                first_free_from(self.threads@, slot as int) == first_free_slot(self.threads@),
            ensures
                0 <= slot <= n,
                n == self.threads@.len(),
                slot < n ==> self.threads@[slot as int] is None,
                slot as int == first_free_slot(self.threads@),
            decreases n - slot,
        {
            if self.threads[slot].is_none() {
                break ;
            }
            slot = slot + 1;
        }
        if self.counter.counter == u32::MAX {
            return Result::Err(VmError::AddressSpaceExhausted);
        }
        let budget = (u64::MAX - STACK_REGION_BASE) / ss;
        if slot as u64 >= budget {
            return Result::Err(VmError::AddressSpaceExhausted);
        }
        proof {
            let b = (u64::MAX - STACK_REGION_BASE) as int / ss as int;
            assert((slot as int) * (ss as int) + ss <= u64::MAX - STACK_REGION_BASE) by (nonlinear_arith)
                requires
                    (slot as int) < b,
                    b == (u64::MAX - STACK_REGION_BASE) as int / ss as int,
                    8 <= ss,
            ;
        }
        let stack_base = STACK_REGION_BASE + (slot as u64) * ss;
        let ts = ThreadState::new(stack_base, ss as usize, addr, self.base);
        self.counter.create();
        if slot < n {
            let ghost prev = self.threads@;
            self.threads.set(slot, Option::Some(ts));
            proof {
                lemma_live_threads_update_some(prev, slot as int, ts);
            }
        } else {
            let ghost prev = self.threads@;
            self.threads.push(Option::Some(ts));
            proof {
                lemma_live_threads_push_some(prev, ts);
            }
        }
        Result::Ok(slot)
    }

    /// Tear one thread down: its slot (and with it its stack) is
    /// released and the live count drops. Returns true exactly when this
    /// was the last live thread — the generation has settled, and the
    /// caller delivers that notification exactly once.
    pub fn dispose_thread(&mut self, t: usize) -> (settled: bool)
        requires
            old(self).wf(),
            t < old(self).threads@.len(),
            old(self).threads@[t as int] is Some,
        ensures
            final(self).wf(),
            final(self).archive == old(self).archive,
            final(self).base == old(self).base,
            final(self).initial_inst == old(self).initial_inst,
            final(self).threads@ == old(self).threads@.update(t as int, Option::<
                ThreadState,
            >::None),
            final(self).counter.counter == old(self).counter.counter - 1,
            settled <==> final(self).counter.counter == 0,
            final(self).memory == old(self).memory,
            final(self).heap == old(self).heap,
            final(self).counter.shutdown_type == old(self).counter.shutdown_type,
            final(self).counter.error_data == old(self).counter.error_data,
            final(self).shutdown == old(self).shutdown,
    {
        proof {
            lemma_live_threads_positive(self.threads@, t as int);
            lemma_live_threads_update_none(self.threads@, t as int);
        }
        self.threads.set(t, Option::None);
        self.counter.delete()
    }

    /// Request a generation shutdown of the given kind: record it and
    /// raise the cooperative flag, so every thread exits at its next
    /// instruction boundary.
    pub fn shutdown(&mut self, shutdown_type: ShutdownType)
        requires
            old(self).wf(),
        ensures
            final(self).wf(),
            final(self).archive == old(self).archive,
            final(self).base == old(self).base,
            final(self).initial_inst == old(self).initial_inst,
            final(self).counter.shutdown_type == shutdown_type,
            final(self).shutdown,
            final(self).threads == old(self).threads,
            final(self).memory == old(self).memory,
            final(self).heap == old(self).heap,
            final(self).counter.counter == old(self).counter.counter,
            final(self).counter.error_data == old(self).counter.error_data,
    {
        self.counter.set_shutdown_type(shutdown_type);
        self.shutdown = true;
    }

    /// Capture an error message for the run loop to surface.
    pub fn set_error_data(&mut self, data: String)
        requires
            old(self).wf(),
        ensures
            final(self).wf(),
            final(self).archive == old(self).archive,
            final(self).base == old(self).base,
            final(self).initial_inst == old(self).initial_inst,
            final(self).counter.error_data == Option::Some(data),
            final(self).counter.counter == old(self).counter.counter,
            final(self).counter.shutdown_type == old(self).counter.shutdown_type,
            final(self).threads == old(self).threads,
            final(self).memory == old(self).memory,
            final(self).heap == old(self).heap,
            final(self).shutdown == old(self).shutdown,
    {
        self.counter.set_error_data(data);
    }

    /// Whether the cooperative shutdown flag is raised.
    pub fn should_stop(&self) -> (r: bool)
        ensures
            r == self.shutdown,
    {
        self.shutdown
    }

    /// The end-of-generation leak sweep, run once the generation has
    /// settled: every variable string the program never released is
    /// freed at once. Returns how many there were.
    pub fn sweep_leaks(&mut self) -> (n: usize)
        requires
            old(self).wf(),
        ensures
            final(self).wf(),
            final(self).archive == old(self).archive,
            final(self).base == old(self).base,
            final(self).initial_inst == old(self).initial_inst,
            n == old(self).heap.spec_live(),
            final(self).heap@.len() == 0,
            final(self).heap.spec_live() == 0,
            final(self).threads == old(self).threads,
            final(self).memory == old(self).memory,
            final(self).counter == old(self).counter,
            final(self).shutdown == old(self).shutdown,
    {
        self.heap.sweep()
    }

    /// Begin the next generation after a restart request: shared memory
    /// is reinitialized from the container's code image, the coordinator
    /// is reset and the cooperative flag lowered. Only a settled
    /// generation (no live threads) can restart.
    pub fn restart_generation(&mut self)
        requires
            old(self).wf(),
            old(self).counter.counter == 0,
        ensures
            final(self).wf(),
            final(self).memory.bytes@ == old(self).archive.code@,
            final(self).threads@.len() == 0,
            final(self).counter.counter == 0,
            final(self).counter.shutdown_type is Unset,
            final(self).counter.error_data is None,
            !final(self).shutdown,
            final(self).heap == old(self).heap,
            final(self).archive == old(self).archive,
    {
        self.memory = Memory::from_code(copy_bytes(&self.archive.code));
        self.threads = Vec::new();
        self.counter.reset();
        self.shutdown = false;
        proof {
            assert(live_threads(self.threads@) == 0);
        }
    }
}

} // verus!
