//! The run lifecycle: the thread counter and settle notification, the
//! shutdown outcomes, generation restart, the locking policies against a
//! lock-region table, configuration decoding and the container format.

use entvm::archive::{Archive, ArchiveError};
use entvm::block_info::{
    handle_lock, lock_decision, BlockInfo, LockHandle, LockOp, UnlockInfo,
};
use entvm::counter::ThreadCounter;
use entvm::events::{run_outcome, RunOutcome, ShutdownType};
use entvm::executor::{after_step, step, ExecutorBehaviour, StepEvent};
use entvm::runtime::Runtime;
use entvm::values::{classify, WordClass, NAN, STR_SIGNATURE};
use entvm::vm_config::{ConfigError, ExecutorKind, ThreadingKind, VMConfig};

fn lslot(op: u8, b1: u8, b2: u8, b3: u8, word4: u32) -> [u8; 8] {
    let w = word4.to_le_bytes();
    [op, b1, b2, b3, w[0], w[1], w[2], w[3]]
}

fn lmake_rt(slots: &[[u8; 8]]) -> Runtime {
    let mut code = vec![0u8; 8];
    for s in slots {
        code.extend_from_slice(s);
    }
    let conf = VMConfig {
        executor_kind: ExecutorKind::Atomic,
        threading_kind: ThreadingKind::Single,
        max_threads: 1,
        stack_size: 4096,
    };
    let archive = Archive { code, conf, block_info: None, files: vec![] };
    Runtime::new(archive).unwrap()
}

fn block_table(pairs: &[(u64, u64)]) -> BlockInfo {
    let mut bytes = (pairs.len() as u64).to_le_bytes().to_vec();
    for (s, e) in pairs {
        bytes.extend_from_slice(&s.to_le_bytes());
        bytes.extend_from_slice(&e.to_le_bytes());
    }
    BlockInfo::read(&bytes).unwrap()
}

#[test]
fn counter_settles_exactly_when_the_last_thread_leaves() {
    let mut c = ThreadCounter::new();
    c.create();
    c.create();
    assert!(!c.delete());
    assert!(c.delete());
    assert_eq!(c.counter, 0);
}

#[test]
fn run_outcome_maps_each_shutdown_kind() {
    assert!(matches!(run_outcome(ShutdownType::Restarting, None), RunOutcome::Restart));
    assert!(matches!(run_outcome(ShutdownType::Gracefully, None), RunOutcome::Graceful));
    assert!(matches!(run_outcome(ShutdownType::Unset, None), RunOutcome::Unknown));
    match run_outcome(ShutdownType::Error, Some("boom".to_string())) {
        RunOutcome::Failed(Some(m)) => assert_eq!(m, "boom".to_string()),
        _ => panic!("expected a failed outcome with its message"),
    }
}

#[test]
fn shutdown_drains_and_the_last_disposal_settles() {
    let mut rt = lmake_rt(&[lslot(0x00, 0, 0, 0, 0)]);
    let a = rt.spawn(8).unwrap();
    let b = rt.spawn(8).unwrap();
    assert_eq!(rt.counter.counter, 2);
    // Thread a executes END: a graceful shutdown is requested and the
    // thread torn down; the drain flag now stops thread b.
    let ev = step(&mut rt, a, None).unwrap();
    let behaviour = match ev {
        StepEvent::Shutdown(kind) => ExecutorBehaviour::Shutdown(kind),
        _ => ExecutorBehaviour::Continue,
    };
    let (done, settled) = after_step(&mut rt, a, behaviour);
    assert!(done);
    assert!(!settled);
    assert!(rt.should_stop());
    let (done, settled) = after_step(&mut rt, b, ExecutorBehaviour::Continue);
    assert!(done);
    assert!(settled);
    assert!(matches!(
        run_outcome(rt.counter.shutdown_type, rt.counter.get_error_data()),
        RunOutcome::Graceful
    ));
}

#[test]
fn restart_reinitializes_memory_and_coordinator() {
    let mut rt = lmake_rt(&[lslot(0x10, 0xFE, 0, 0, 0)]);
    let t = rt.spawn(8).unwrap();
    rt.memory.bytes[0] = 0x55;
    let ev = step(&mut rt, t, None).unwrap();
    let kind = match ev {
        StepEvent::Shutdown(kind) => kind,
        _ => panic!("expected a shutdown"),
    };
    let (_, settled) = after_step(&mut rt, t, ExecutorBehaviour::Shutdown(kind));
    assert!(settled);
    assert!(matches!(
        run_outcome(rt.counter.shutdown_type, rt.counter.get_error_data()),
        RunOutcome::Restart
    ));
    rt.sweep_leaks();
    rt.restart_generation();
    assert_eq!(rt.memory.bytes[0], 0);
    assert!(!rt.should_stop());
    assert_eq!(rt.counter.counter, 0);
    assert!(matches!(rt.counter.shutdown_type, ShutdownType::Unset));
    // The next generation spawns afresh at the entry address.
    let t = rt.spawn(rt.initial_inst).unwrap();
    assert_eq!(rt.threads[t].as_ref().unwrap().get_reg(0), 8);
}

#[test]
fn per_block_policy_locks_one_instruction_at_a_single_entry() {
    let bi = block_table(&[(100, 100), (200, 250)]);
    let d = lock_decision(ExecutorKind::SysLockBlock, None, 100, Some(&bi));
    assert!(matches!(d, LockOp::AcquireOne));
}

#[test]
fn per_block_policy_holds_a_region_until_its_end_address() {
    let bi = block_table(&[(100, 100), (200, 250)]);
    let d = lock_decision(ExecutorKind::SpinLockBlock, None, 200, Some(&bi));
    assert!(matches!(d, LockOp::AcquireRegion(250)));
    // Inside the region the lock stays held; a second thread's acquire
    // would block until the pointer reaches exactly 250.
    let d = lock_decision(ExecutorKind::SpinLockBlock, Some(250), 208, Some(&bi));
    assert!(matches!(d, LockOp::HoldRegion));
    let d = lock_decision(ExecutorKind::SpinLockBlock, Some(250), 250, Some(&bi));
    assert!(matches!(d, LockOp::ReleaseAfter));
    // Off the table the instruction runs unlocked.
    let d = lock_decision(ExecutorKind::SysLockBlock, None, 150, Some(&bi));
    assert!(matches!(d, LockOp::NoLock));
}

#[test]
fn per_instruction_and_atomic_policies_ignore_the_table() {
    assert!(matches!(
        lock_decision(ExecutorKind::Atomic, None, 100, None),
        LockOp::NoLock
    ));
    assert!(matches!(
        lock_decision(ExecutorKind::SysLockInst, None, 100, None),
        LockOp::AcquireOne
    ));
    assert!(matches!(
        lock_decision(ExecutorKind::SpinLockInst, None, 100, None),
        LockOp::AcquireOne
    ));
}

#[test]
fn handle_lock_drops_only_when_asked() {
    assert!(matches!(handle_lock::<true>(LockHandle::Held), LockHandle::NotHeld));
    assert!(matches!(handle_lock::<false>(LockHandle::Held), LockHandle::Held));
}

#[test]
fn block_table_lookup_takes_the_last_duplicate() {
    let bi = block_table(&[(100, 120), (100, 100)]);
    assert!(matches!(bi.get(100), Some(UnlockInfo::Current)));
    assert!(matches!(bi.get(101), None));
}

#[test]
fn config_blob_decodes_fixed_layout() {
    let mut blob = vec![3u8, 1, 4, 0];
    blob.extend_from_slice(&[0u8; 4]);
    blob.extend_from_slice(&8192u64.to_le_bytes());
    let conf = VMConfig::read(&blob).unwrap();
    assert!(matches!(conf.executor_kind, ExecutorKind::SysLockBlock));
    assert!(matches!(conf.threading_kind, ThreadingKind::Managed));
    assert_eq!(conf.max_threads, 4);
    assert_eq!(conf.stack_size, 8192);
}

#[test]
fn config_zero_worker_count_autodetects_at_least_one() {
    let mut blob = vec![0u8, 0, 0, 0];
    blob.extend_from_slice(&[0u8; 4]);
    blob.extend_from_slice(&4096u64.to_le_bytes());
    let conf = VMConfig::read(&blob).unwrap();
    assert!(conf.max_threads >= 1);
}

#[test]
fn config_rejects_short_and_unknown_blobs() {
    assert!(matches!(VMConfig::read(&vec![0u8; 4]), Err(ConfigError::TooShort)));
    let mut blob = vec![9u8, 0, 1, 0];
    blob.extend_from_slice(&[0u8; 4]);
    blob.extend_from_slice(&4096u64.to_le_bytes());
    assert!(matches!(VMConfig::read(&blob), Err(ConfigError::BadExecutorKind)));
    let mut blob = vec![0u8, 9, 1, 0];
    blob.extend_from_slice(&[0u8; 4]);
    blob.extend_from_slice(&4096u64.to_le_bytes());
    assert!(matches!(VMConfig::read(&blob), Err(ConfigError::BadThreadingKind)));
}

fn conf_blob() -> Vec<u8> {
    let mut blob = vec![0u8, 0, 1, 0];
    blob.extend_from_slice(&[0u8; 4]);
    blob.extend_from_slice(&4096u64.to_le_bytes());
    blob
}

#[test]
fn archive_entries_select_the_named_blobs() {
    let mut block = 1u64.to_le_bytes().to_vec();
    block.extend_from_slice(&100u64.to_le_bytes());
    block.extend_from_slice(&100u64.to_le_bytes());
    let entries = vec![
        ("Main.bin".to_string(), vec![1u8; 16]),
        ("Conf.bin".to_string(), conf_blob()),
        ("BlockInfo.bin".to_string(), block),
        ("Extra.dat".to_string(), vec![9u8; 3]),
    ];
    let a = Archive::from_entries(entries).unwrap();
    assert_eq!(a.code, vec![1u8; 16]);
    assert_eq!(a.conf.stack_size, 4096);
    assert!(matches!(a.conf.threading_kind, ThreadingKind::Single));
    assert!(matches!(
        a.block_info.as_ref().unwrap().get(100),
        Some(UnlockInfo::Current)
    ));
    // Only the auxiliary blob remains in the unexamined file list.
    assert_eq!(a.files.len(), 1);
    assert_eq!(a.files[0].0, "Extra.dat".to_string());
}

#[test]
fn archive_rejects_missing_code_or_config() {
    let r = Archive::from_entries(vec![("Conf.bin".to_string(), conf_blob())]);
    assert!(matches!(r, Err(ArchiveError::MissingCode)));
    let r = Archive::from_entries(vec![("Main.bin".to_string(), vec![0u8; 8])]);
    assert!(matches!(r, Err(ArchiveError::MissingConfig)));
    let r = Archive::from_entries(vec![
        ("Main.bin".to_string(), vec![0u8; 8]),
        ("Conf.bin".to_string(), vec![0u8; 2]),
    ]);
    assert!(matches!(r, Err(ArchiveError::BadConfig(ConfigError::TooShort))));
    // A present lock-region table must decode too.
    let r = Archive::from_entries(vec![
        ("Main.bin".to_string(), vec![0u8; 8]),
        ("Conf.bin".to_string(), conf_blob()),
        ("BlockInfo.bin".to_string(), 5u64.to_le_bytes().to_vec()),
    ]);
    assert!(matches!(r, Err(ArchiveError::BadBlockInfo(_))));
}

#[test]
fn archive_decodes_a_real_gzipped_tar_container() {
    let mut builder = tar::Builder::new(Vec::new());
    let code = {
        let mut c = 1u64.to_le_bytes().to_vec();
        c.extend_from_slice(&[0x00, 0, 0, 0, 0, 0, 0, 0]);
        c
    };
    let mut header = tar::Header::new_gnu();
    header.set_size(code.len() as u64);
    header.set_cksum();
    builder.append_data(&mut header, "Main.bin", code.as_slice()).unwrap();
    let conf = conf_blob();
    let mut header = tar::Header::new_gnu();
    header.set_size(conf.len() as u64);
    header.set_cksum();
    builder.append_data(&mut header, "Conf.bin", conf.as_slice()).unwrap();
    let tar_bytes = builder.into_inner().unwrap();
    let mut enc = flate2::write::GzEncoder::new(Vec::new(), flate2::Compression::default());
    std::io::Write::write_all(&mut enc, &tar_bytes).unwrap();
    let gz = enc.finish().unwrap();

    let a = Archive::from_bytes(&gz).unwrap();
    assert_eq!(a.code, code);
    assert_eq!(a.conf.stack_size, 4096);
    // The entry address is the first word scaled to a slot, plus the
    // opcode byte offset.
    let rt = Runtime::new(a).unwrap();
    assert_eq!(rt.initial_inst, 16);
    // Garbage is not a container.
    assert!(matches!(
        Archive::from_bytes(&vec![1u8, 2, 3]),
        Err(ArchiveError::UnreadableContainer)
    ));
}

#[test]
fn word_classification_follows_the_nan_boxing() {
    assert!(matches!(classify(3.25f64.to_bits()), WordClass::Number));
    assert!(matches!(classify(NAN), WordClass::Number));
    assert!(matches!(classify(f64::NAN.to_bits()), WordClass::Number));
    assert!(matches!(classify(STR_SIGNATURE), WordClass::VarStr(0)));
    assert_eq!(entvm::values::empty_str_word(), STR_SIGNATURE);
    assert!(matches!(classify(STR_SIGNATURE | 7), WordClass::VarStr(7)));
    assert!(matches!(
        classify(STR_SIGNATURE | entvm::values::CONST_STR_BIT | 24),
        WordClass::ConstStr(24)
    ));
}

#[test]
fn decimal_rendering_matches_formatting() {
    assert_eq!(entvm::errors::u64_to_string(0), "0".to_string());
    assert_eq!(entvm::errors::u64_to_string(907), "907".to_string());
    assert_eq!(
        entvm::errors::u64_to_string(u64::MAX),
        format!("{}", u64::MAX)
    );
}

#[test]
fn runtime_rejects_bad_images_and_missing_block_tables() {
    let conf = VMConfig {
        executor_kind: ExecutorKind::SysLockBlock,
        threading_kind: ThreadingKind::Single,
        max_threads: 1,
        stack_size: 4096,
    };
    let archive = Archive { code: vec![0u8; 16], conf, block_info: None, files: vec![] };
    assert!(Runtime::new(archive).is_err());
    let conf = VMConfig {
        executor_kind: ExecutorKind::Atomic,
        threading_kind: ThreadingKind::Single,
        max_threads: 1,
        stack_size: 4,
    };
    let archive = Archive { code: vec![0u8; 16], conf, block_info: None, files: vec![] };
    assert!(Runtime::new(archive).is_err());
    let conf = VMConfig {
        executor_kind: ExecutorKind::Atomic,
        threading_kind: ThreadingKind::Single,
        max_threads: 1,
        stack_size: 4096,
    };
    let archive = Archive { code: vec![0u8; 4], conf, block_info: None, files: vec![] };
    assert!(Runtime::new(archive).is_err());
}
