//! The fixed-layout run configuration: executor policy, threading kind,
//! worker count and stack size, loaded once per run from a 16-byte blob.

use vstd::prelude::*;

use crate::wordio::{le16, le64, read_u16, read_u64, read_u8};

verus! {

/// The locking discipline the instruction executors apply around shared
/// memory.
#[derive(Clone, Copy, PartialEq, Eq, Structural, Debug)]
pub enum ExecutorKind {
    /// No locking: only individual-word atomicity.
    Atomic,
    /// A fairness mutex held for exactly one instruction.
    SysLockInst,
    /// A busy-wait spin mutex held for exactly one instruction.
    SpinLockInst,
    /// A fairness mutex driven by the block lock map.
    SysLockBlock,
    /// A busy-wait spin mutex driven by the block lock map.
    SpinLockBlock,
}

/// How virtual threads are multiplexed onto workers.
#[derive(Clone, Copy, PartialEq, Eq, Structural, Debug)]
pub enum ThreadingKind {
    /// One worker runs everything.
    Single,
    /// A managed worker pool.
    Managed,
    /// An unmanaged worker pool.
    Unmanaged,
}

/// The decoded configuration blob.
pub struct VMConfig {
    pub executor_kind: ExecutorKind,
    pub threading_kind: ThreadingKind,
    /// Worker count; a stored zero means "use the machine's CPU count".
    pub max_threads: u16,
    /// Stack size of each virtual thread, in bytes.
    pub stack_size: u64,
}

/// Why a configuration blob was rejected.
#[derive(Clone, Copy, PartialEq, Eq, Structural, Debug)]
pub enum ConfigError {
    /// Shorter than the fixed 16-byte layout.
    TooShort,
    /// The executor-policy byte names no policy.
    BadExecutorKind,
    /// The threading-kind byte names no kind.
    BadThreadingKind,
}

/// The executor policy a byte of the blob selects, if any.
pub open spec fn spec_executor_kind(b: u8) -> Option<ExecutorKind> {
    if b == 0 {
        Option::Some(ExecutorKind::Atomic)
    } else if b == 1 {
        Option::Some(ExecutorKind::SysLockInst)
    } else if b == 2 {
        Option::Some(ExecutorKind::SpinLockInst)
    } else if b == 3 {
        Option::Some(ExecutorKind::SysLockBlock)
    } else if b == 4 {
        Option::Some(ExecutorKind::SpinLockBlock)
    } else {
        Option::None
    }
}

/// The threading kind a byte of the blob selects, if any.
pub open spec fn spec_threading_kind(b: u8) -> Option<ThreadingKind> {
    if b == 0 {
        Option::Some(ThreadingKind::Single)
    } else if b == 1 {
        Option::Some(ThreadingKind::Managed)
    } else if b == 2 {
        Option::Some(ThreadingKind::Unmanaged)
    } else {
        Option::None
    }
}

/// Relies on num_cpus::get: the number of logical CPUs of this machine,
/// documented to always be at least one.
#[verifier::external_body]
fn cpu_count() -> (n: usize)
    ensures
        1 <= n,
{
    num_cpus::get()
}

impl VMConfig {
    /// Decode a configuration blob: executor-policy byte, threading-kind
    /// byte, 16-bit worker count (little endian, zero meaning autodetect),
    /// then the 64-bit stack size at offset eight. A stored worker count
    /// of zero is replaced by this machine's CPU count, so the decoded
    /// `max_threads` is never zero; the CPU count itself is machine
    /// dependent, so only its positivity is promised.
    pub fn read(buffer: &Vec<u8>) -> (r: Result<VMConfig, ConfigError>)
        ensures
            buffer@.len() < 16 <==> r == Result::<VMConfig, ConfigError>::Err(
                ConfigError::TooShort,
            ),
            buffer@.len() >= 16 && spec_executor_kind(buffer@[0]) is None <==> r
                == Result::<VMConfig, ConfigError>::Err(ConfigError::BadExecutorKind),
            buffer@.len() >= 16 && spec_executor_kind(buffer@[0]) is Some && spec_threading_kind(
                buffer@[1],
            ) is None <==> r == Result::<VMConfig, ConfigError>::Err(ConfigError::BadThreadingKind),
            r is Ok ==> {
                let c = r->Ok_0;
                &&& Option::Some(c.executor_kind) == spec_executor_kind(buffer@[0])
                &&& Option::Some(c.threading_kind) == spec_threading_kind(buffer@[1])
                &&& c.stack_size == le64(buffer@, 8)
                &&& c.max_threads > 0
                &&& le16(buffer@, 2) != 0 ==> c.max_threads == le16(buffer@, 2)
            },
    {
        if buffer.len() < 16 {
            return Result::Err(ConfigError::TooShort);
        }
        let executor_kind = match read_u8(buffer, 0) {
            0 => ExecutorKind::Atomic,
            1 => ExecutorKind::SysLockInst,
            2 => ExecutorKind::SpinLockInst,
            3 => ExecutorKind::SysLockBlock,
            4 => ExecutorKind::SpinLockBlock,
            _ => {
                return Result::Err(ConfigError::BadExecutorKind);
            },
        };
        let threading_kind = match read_u8(buffer, 1) {
            0 => ThreadingKind::Single,
            1 => ThreadingKind::Managed,
            2 => ThreadingKind::Unmanaged,
            _ => {
                return Result::Err(ConfigError::BadThreadingKind);
            },
        };
        let stored = read_u16(buffer, 2);
        let max_threads = if stored == 0 {
            let n = cpu_count();
            if n > 0xFFFF {
                0xFFFFu16
            } else {
                n as u16
            }
        } else {
            stored
        };
        Result::Ok(
            VMConfig { executor_kind, threading_kind, max_threads, stack_size: read_u64(buffer, 8) },
        )
    }
}

} // verus!
