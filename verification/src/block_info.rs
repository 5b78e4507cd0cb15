//! The block lock map: a static table from lock-acquire instruction
//! addresses to critical-section boundaries, and the per-policy lock
//! discipline decided from it.

use vstd::prelude::*;

use crate::vm_config::ExecutorKind;
use crate::wordio::{le64, read_u64};

verus! {

/// The critical-section boundary recorded for a lock-acquire address:
/// either the lock covers that single instruction, or it is held until the
/// instruction pointer reaches the recorded end address.
#[derive(Clone, Copy, PartialEq, Eq, Structural, Debug)]
pub enum UnlockInfo {
    Current,
    Addr(u64),
}

/// The block lock map, built once from a table of (start, end) address
/// pairs. A pair with start equal to end declares a single-instruction
/// region.
pub struct BlockInfo {
    pairs: Vec<(u64, u64)>,
}

/// Why a block-info blob was rejected.
#[derive(Clone, Copy, PartialEq, Eq, Structural, Debug)]
pub enum BlockInfoError {
    /// The blob is shorter than its length prefix promises.
    TooShort,
}

/// The end address the table associates with `start`: that of the last
/// pair with this start address, as later entries of the table overwrite
/// earlier ones.
pub open spec fn spec_lookup(pairs: Seq<(u64, u64)>, start: u64) -> Option<u64>
    decreases pairs.len(),
{
    if pairs.len() == 0 {
        Option::None
    } else if pairs.last().0 == start {
        Option::Some(pairs.last().1)
    } else {
        spec_lookup(pairs.drop_last(), start)
    }
}

/// The boundary the map yields for a lock-acquire address.
pub open spec fn spec_get(pairs: Seq<(u64, u64)>, start: u64) -> Option<UnlockInfo> {
    match spec_lookup(pairs, start) {
        Option::Some(end) => Option::Some(
            if end == start {
                UnlockInfo::Current
            } else {
                UnlockInfo::Addr(end)
            },
        ),
        Option::None => Option::None,
    }
}

/// The (start, end) pairs stored in a block-info blob: a 64-bit count,
/// then sixteen bytes per pair.
pub open spec fn spec_pairs_of(s: Seq<u8>) -> Seq<(u64, u64)> {
    Seq::new(le64(s, 0) as nat, |i: int| (le64(s, 8 + 16 * i), le64(s, 16 + 16 * i)))
}

impl BlockInfo {
    /// The pairs of the table, in table order.
    pub closed spec fn view(&self) -> Seq<(u64, u64)> {
        self.pairs@
    }

    /// Decode a block-info blob: a 64-bit pair count, then that many
    /// 16-byte pairs of start and end addresses.
    pub fn read(buffer: &Vec<u8>) -> (r: Result<BlockInfo, BlockInfoError>)
        ensures
            r is Ok <==> 8 + le64(buffer@, 0) * 16 <= buffer@.len() && buffer@.len() >= 8,
            r is Ok ==> r->Ok_0@ == spec_pairs_of(buffer@),
    {
        if buffer.len() < 8 {
            return Result::Err(BlockInfoError::TooShort);
        }
        let size = read_u64(buffer, 0);
        if size > (usize::MAX as u64 - 8) / 16 || 8 + (size as usize) * 16 > buffer.len() {
            return Result::Err(BlockInfoError::TooShort);
        }
        let blen = buffer.len();
        let mut pairs: Vec<(u64, u64)> = Vec::new();
        let mut i: usize = 0;
        while i < size as usize
            invariant
                i <= size,
                8 + size * 16 <= blen,
                blen == buffer@.len(),
                size == le64(buffer@, 0),
                pairs@.len() == i,
                forall|j: int|
                    0 <= j < i ==> pairs@[j] == (
                        le64(buffer@, 8 + 16 * j),
                        le64(buffer@, 16 + 16 * j),
                    ),
            decreases size - i,
        {
            let start = read_u64(buffer, 8 + i * 16);
            let end = read_u64(buffer, 8 + i * 16 + 8);
            pairs.push((start, end));
            i = i + 1;
        }
        proof {
            assert(pairs@ =~= spec_pairs_of(buffer@));
        }
        Result::Ok(BlockInfo { pairs })
    }

    /// The critical-section boundary declared at `inst`, if any.
    pub fn get(&self, inst: u64) -> (r: Option<UnlockInfo>)
        ensures
            r == spec_get(self@, inst),
    {
        let mut k: usize = self.pairs.len();
        proof {
            assert(self.pairs@.take(k as int) =~= self.pairs@);
        }
        while k > 0
            invariant
                k <= self.pairs@.len(),
                spec_lookup(self.pairs@, inst) == spec_lookup(self.pairs@.take(k as int), inst),
            decreases k,
        {
            proof {
                lemma_lookup_take_step(self.pairs@, inst, k as int);
            }
            let (start, end) = self.pairs[k - 1];
            if start == inst {
                return Option::Some(
                    if end == inst {
                        UnlockInfo::Current
                    } else {
                        UnlockInfo::Addr(end)
                    },
                );
            }
            k = k - 1;
        }
        Option::None
    }
}

proof fn lemma_lookup_take_step(pairs: Seq<(u64, u64)>, start: u64, k: int)
    requires
        0 < k <= pairs.len(),
    ensures
        pairs.take(k)[k - 1].0 == start ==> spec_lookup(pairs.take(k), start) == Option::Some(
            pairs[k - 1].1,
        ),
        pairs.take(k)[k - 1].0 != start ==> spec_lookup(pairs.take(k), start) == spec_lookup(
            pairs.take(k - 1),
            start,
        ),
{
    let t = pairs.take(k);
    assert(t.last() == pairs[k - 1]);
    assert(t.drop_last() =~= pairs.take(k - 1));
}

/// What an executor does about its lock before running one instruction.
#[derive(Clone, Copy, PartialEq, Eq, Structural, Debug)]
pub enum LockOp {
    /// Run the instruction with no lock held.
    NoLock,
    /// Acquire the lock, run exactly one instruction, release it.
    AcquireOne,
    /// Acquire the lock and keep it held; the region ends at the carried
    /// address.
    AcquireRegion(u64),
    /// Keep the already-held lock through this instruction.
    HoldRegion,
    /// Run this instruction with the held lock, then release it: the
    /// instruction pointer has reached the region's end.
    ReleaseAfter,
}

/// The lock discipline of policy `kind` before one instruction. `held` is
/// the end address of the block region whose lock the thread already
/// holds, if any; `ip` is the current instruction pointer. Per-block
/// policies consult the block lock map: no entry means this instruction
/// runs unlocked, a single-instruction entry behaves like the
/// per-instruction policy for just this instruction, and a region entry
/// acquires once and holds until the pointer equals the recorded end,
/// releasing after the instruction at the end address itself has run.
pub fn lock_decision(kind: ExecutorKind, held: Option<u64>, ip: u64, blocks: Option<&BlockInfo>) -> (
    r: LockOp)
    requires
        held is Some ==> kind is SysLockBlock || kind is SpinLockBlock,
        kind is SysLockBlock || kind is SpinLockBlock ==> blocks is Some,
    ensures
        kind is Atomic ==> r is NoLock,
        kind is SysLockInst || kind is SpinLockInst ==> r is AcquireOne,
        (kind is SysLockBlock || kind is SpinLockBlock) && held is Some ==> r == (if ip == held->0 {
            LockOp::ReleaseAfter
        } else {
            LockOp::HoldRegion
        }),
        (kind is SysLockBlock || kind is SpinLockBlock) && held is None ==> r == (match spec_get(
            blocks->0@,
            ip,
        ) {
            Option::None => LockOp::NoLock,
            Option::Some(UnlockInfo::Current) => LockOp::AcquireOne,
            Option::Some(UnlockInfo::Addr(end)) => LockOp::AcquireRegion(end),
        }),
{
    match kind {
        ExecutorKind::Atomic => LockOp::NoLock,
        ExecutorKind::SysLockInst | ExecutorKind::SpinLockInst => LockOp::AcquireOne,
        ExecutorKind::SysLockBlock | ExecutorKind::SpinLockBlock => {
            match held {
                Option::Some(end) => {
                    if ip == end {
                        LockOp::ReleaseAfter
                    } else {
                        LockOp::HoldRegion
                    }
                },
                Option::None => {
                    match blocks.unwrap().get(ip) {
                        Option::None => LockOp::NoLock,
                        Option::Some(UnlockInfo::Current) => LockOp::AcquireOne,
                        Option::Some(UnlockInfo::Addr(end)) => LockOp::AcquireRegion(end),
                    }
                },
            }
        },
    }
}

/// A thread's policy-lock handle, released and re-acquired around
/// suspension points.
#[derive(Clone, Copy, PartialEq, Eq, Structural, Debug)]
pub enum LockHandle {
    NotHeld,
    Held,
}

/// Release the lock when the policy says each instruction ends its
/// critical section; keep it when a block region is still open.
pub fn handle_lock<const DROP: bool>(lock: LockHandle) -> (r: LockHandle)
    ensures
        DROP ==> r is NotHeld,
        !DROP ==> r == lock,
{
    if DROP {
        LockHandle::NotHeld
    } else {
        lock
    }
}

} // verus!
