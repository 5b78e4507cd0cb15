//! Per-opcode execution against synthetic memory: documented register,
//! memory and flag mutations, and the pointer advance of thin and fat
//! instruction forms; the stack discipline; the calling convention.

use entvm::archive::Archive;
use entvm::events::ShutdownType;
use entvm::executor::{step, StepEvent};
use entvm::runtime::Runtime;
use entvm::values::{CONST_STR_BIT, STR_SIGNATURE};
use entvm::vm_config::{ExecutorKind, ThreadingKind, VMConfig};

fn slot(op: u8, b1: u8, b2: u8, b3: u8, word4: u32) -> [u8; 8] {
    let w = word4.to_le_bytes();
    [op, b1, b2, b3, w[0], w[1], w[2], w[3]]
}

fn make_rt(slots: &[[u8; 8]]) -> Runtime {
    let mut code = vec![0u8; 8];
    for s in slots {
        code.extend_from_slice(s);
    }
    let conf = VMConfig {
        executor_kind: ExecutorKind::Atomic,
        threading_kind: ThreadingKind::Single,
        max_threads: 1,
        stack_size: 4096,
    };
    let archive = Archive { code, conf, block_info: None, files: vec![] };
    Runtime::new(archive).unwrap()
}

fn reg(rt: &Runtime, t: usize, i: u8) -> u64 {
    rt.threads[t].as_ref().unwrap().get_reg(i)
}

fn set_reg(rt: &mut Runtime, t: usize, i: u8, v: u64) {
    rt.threads[t].as_mut().unwrap().set_reg(i, v);
}

#[test]
fn mov_register_to_register_advances_by_eight() {
    let mut rt = make_rt(&[slot(0x81, 6, 7, 0, 0)]);
    let t = rt.spawn(8).unwrap();
    set_reg(&mut rt, t, 7, 0xDEAD_BEEF);
    let ev = step(&mut rt, t, None).unwrap();
    assert!(matches!(ev, StepEvent::Continue));
    assert_eq!(reg(&rt, t, 6), 0xDEAD_BEEF);
    assert_eq!(reg(&rt, t, 0), 16);
}

#[test]
fn mov_immediate_is_fat_and_advances_by_sixteen() {
    let mut rt = make_rt(&[slot(0xB1, 6, 0, 0, 0), 0x1122334455667788u64.to_le_bytes()]);
    let t = rt.spawn(8).unwrap();
    let ev = step(&mut rt, t, None).unwrap();
    assert!(matches!(ev, StepEvent::Continue));
    assert_eq!(reg(&rt, t, 6), 0x1122334455667788);
    assert_eq!(reg(&rt, t, 0), 24);
}

#[test]
fn mov_indexed_memory_to_register_reads_scaled_offset() {
    // Register 7 holds base 0; offset 3 reads the word at address 24.
    let mut rt = make_rt(&[slot(0x91, 6, 7, 0, 3), [0u8; 8], [0u8; 8]]);
    let t = rt.spawn(8).unwrap();
    set_reg(&mut rt, t, 7, 0);
    rt.memory.bytes[24..32].copy_from_slice(&0x5555u64.to_le_bytes());
    let ev = step(&mut rt, t, None).unwrap();
    assert!(matches!(ev, StepEvent::Continue));
    assert_eq!(reg(&rt, t, 6), 0x5555);
    assert_eq!(reg(&rt, t, 0), 16);
}

#[test]
fn mov_register_to_indexed_memory_writes_scaled_offset() {
    let mut rt = make_rt(&[slot(0xA1, 7, 6, 0, 2), [0u8; 8]]);
    let t = rt.spawn(8).unwrap();
    set_reg(&mut rt, t, 7, 0);
    set_reg(&mut rt, t, 6, 0x77);
    let ev = step(&mut rt, t, None).unwrap();
    assert!(matches!(ev, StepEvent::Continue));
    assert_eq!(&rt.memory.bytes[16..24], &0x77u64.to_le_bytes());
    assert_eq!(reg(&rt, t, 0), 16);
}

#[test]
fn mov_immediate_to_indexed_memory_is_fat() {
    let mut rt = make_rt(&[slot(0xC1, 7, 0, 0, 2), 0xABCDu64.to_le_bytes()]);
    let t = rt.spawn(8).unwrap();
    set_reg(&mut rt, t, 7, 0);
    let ev = step(&mut rt, t, None).unwrap();
    assert!(matches!(ev, StepEvent::Continue));
    assert_eq!(&rt.memory.bytes[16..24], &0xABCDu64.to_le_bytes());
    assert_eq!(reg(&rt, t, 0), 24);
}

#[test]
fn lstr_builds_tagged_constant_string_value() {
    let mut rt = make_rt(&[slot(0x02, 6, 7, 0, 5)]);
    let t = rt.spawn(8).unwrap();
    set_reg(&mut rt, t, 7, 16);
    let ev = step(&mut rt, t, None).unwrap();
    assert!(matches!(ev, StepEvent::Continue));
    assert_eq!(reg(&rt, t, 6), (16 + 5 * 8) | STR_SIGNATURE | CONST_STR_BIT);
    assert_eq!(reg(&rt, t, 0), 16);
}

#[test]
fn jmp_overlays_low_half_of_instruction_pointer() {
    let mut rt = make_rt(&[slot(0x0B, 0, 0, 0, 32), [0u8; 8], [0u8; 8], [0u8; 8]]);
    let t = rt.spawn(8).unwrap();
    let ev = step(&mut rt, t, None).unwrap();
    assert!(matches!(ev, StepEvent::Continue));
    assert_eq!(reg(&rt, t, 0), 32);
}

#[test]
fn jt_branches_only_on_flag_bit_zero() {
    let mut rt = make_rt(&[slot(0x0A, 0, 0, 0, 32), [0u8; 8], [0u8; 8], [0u8; 8]]);
    let t = rt.spawn(8).unwrap();
    let ev = step(&mut rt, t, None).unwrap();
    assert!(matches!(ev, StepEvent::Continue));
    // Flag clear: fall through to the next slot.
    assert_eq!(reg(&rt, t, 0), 16);
    let mut rt = make_rt(&[slot(0x0A, 0, 0, 0, 32), [0u8; 8], [0u8; 8], [0u8; 8]]);
    let t = rt.spawn(8).unwrap();
    rt.threads[t].as_mut().unwrap().set_flag(0, true);
    step(&mut rt, t, None).unwrap();
    assert_eq!(reg(&rt, t, 0), 32);
}

#[test]
fn push_pop_returns_values_in_lifo_order_and_restores_pointer() {
    let mut rt = make_rt(&[
        slot(0x0D, 6, 0, 0, 0),  // PUSHR r6
        slot(0x0E, 0, 0, 0, 0),  // PUSHI imm
        11u64.to_le_bytes(),
        slot(0x0D, 7, 0, 0, 0),  // PUSHR r7
        slot(0x0F, 8, 0, 0, 0),  // POP -> r8
        slot(0x0F, 9, 0, 0, 0),  // POP -> r9
        slot(0x0F, 10, 0, 0, 0), // POP -> r10
    ]);
    let t = rt.spawn(8).unwrap();
    set_reg(&mut rt, t, 6, 41);
    set_reg(&mut rt, t, 7, 43);
    let sp0 = reg(&rt, t, 4);
    for _ in 0..6 {
        let ev = step(&mut rt, t, None).unwrap();
        assert!(matches!(ev, StepEvent::Continue));
    }
    assert_eq!(reg(&rt, t, 8), 43);
    assert_eq!(reg(&rt, t, 9), 11);
    assert_eq!(reg(&rt, t, 10), 41);
    assert_eq!(reg(&rt, t, 4), sp0);
    assert_eq!(reg(&rt, t, 0), 8 + 7 * 8);
}

#[test]
fn call_then_ret_restores_callee_saved_registers_and_frame() {
    let mut rt = make_rt(&[
        slot(0x09, 0, 0, 0, 4),  // CALL to slot address 4 * 8 = 32
        [0u8; 8],                // (skipped return landing pad at 16)
        [0u8; 8],
        slot(0x14, 0, 0, 0, 0),  // RET at 32
    ]);
    let t = rt.spawn(8).unwrap();
    for i in 6..16u8 {
        set_reg(&mut rt, t, i, 0x1000 + i as u64);
    }
    let sp0 = reg(&rt, t, 4);
    set_reg(&mut rt, t, 2, sp0);
    let ev = step(&mut rt, t, None).unwrap();
    assert!(matches!(ev, StepEvent::Continue));
    // CALL entered the function with a fresh frame.
    assert_eq!(reg(&rt, t, 0), 32);
    assert_eq!(reg(&rt, t, 4), sp0 - 88);
    assert_eq!(reg(&rt, t, 2), sp0 - 88);
    // Scramble the callee-saved registers, then RET.
    for i in 6..16u8 {
        set_reg(&mut rt, t, i, 0xBAD);
    }
    let ev = step(&mut rt, t, None).unwrap();
    assert!(matches!(ev, StepEvent::Continue));
    for i in 6..16u8 {
        assert_eq!(reg(&rt, t, i), 0x1000 + i as u64);
    }
    assert_eq!(reg(&rt, t, 0), 8 + 8);
    assert_eq!(reg(&rt, t, 4), sp0);
    assert_eq!(reg(&rt, t, 2), sp0);
}

#[test]
fn sub32_and_add32_wrap_on_the_register() {
    let mut rt = make_rt(&[slot(0x15, 6, 0, 0, 5), slot(0x16, 7, 0, 0, 7)]);
    let t = rt.spawn(8).unwrap();
    set_reg(&mut rt, t, 6, 3);
    set_reg(&mut rt, t, 7, u64::MAX);
    step(&mut rt, t, None).unwrap();
    assert_eq!(reg(&rt, t, 6), 3u64.wrapping_sub(5));
    step(&mut rt, t, None).unwrap();
    assert_eq!(reg(&rt, t, 7), 6);
    assert_eq!(reg(&rt, t, 0), 24);
}

#[test]
fn end_requests_graceful_shutdown_of_the_generation() {
    let mut rt = make_rt(&[slot(0x00, 0, 0, 0, 0)]);
    let t = rt.spawn(8).unwrap();
    let ev = step(&mut rt, t, None).unwrap();
    assert!(matches!(ev, StepEvent::Shutdown(ShutdownType::Gracefully)));
    // END does not advance: the thread is being torn down.
    assert_eq!(reg(&rt, t, 0), 8);
}

#[test]
fn spawn_creates_thread_at_scaled_address_and_raises_live_count() {
    let mut rt = make_rt(&[slot(0x13, 0, 0, 0, 6)]);
    let t = rt.spawn(8).unwrap();
    assert_eq!(rt.counter.counter, 1);
    let ev = step(&mut rt, t, None).unwrap();
    assert!(matches!(ev, StepEvent::Continue));
    assert_eq!(rt.counter.counter, 2);
    let spawned = rt.threads[1].as_ref().unwrap();
    assert_eq!(spawned.get_reg(0), 48);
    assert_eq!(spawned.get_reg(1), 0);
    assert_eq!(reg(&rt, t, 0), 16);
}

#[test]
fn env_and_envj_route_to_extension_handlers() {
    // The extension id is the low 24 bits of the first word (opcode
    // byte included), the function id the second word.
    let mut rt = make_rt(&[slot(0x11, 2, 0, 0, 9), slot(0x12, 3, 0, 0, 7)]);
    let t = rt.spawn(8).unwrap();
    let ev = step(&mut rt, t, None).unwrap();
    match ev {
        StepEvent::ExtFunctionCall { ext, func } => {
            assert_eq!(ext, 0x11 | (2 << 8));
            assert_eq!(func, 9);
        },
        _ => panic!("expected a function call event"),
    }
    let ev = step(&mut rt, t, None).unwrap();
    match ev {
        StepEvent::ExtInterruptCall { ext, func } => {
            assert_eq!(ext, 0x12 | (3 << 8));
            assert_eq!(func, 7);
        },
        _ => panic!("expected an interrupt call event"),
    }
    assert_eq!(reg(&rt, t, 0), 24);
}

#[test]
fn intrinsics_dispatch_debug_sleep_restart_throw() {
    let mut rt = make_rt(&[
        slot(0x10, 0x00, 0, 0, 0),
        slot(0x10, 0x01, 0, 0, 0),
        slot(0x10, 0xFE, 0, 0, 0),
        slot(0x10, 0xFF, 0, 0, 0),
    ]);
    let t = rt.spawn(8).unwrap();
    set_reg(&mut rt, t, 8, 1.5f64.to_bits());
    let ev = step(&mut rt, t, None).unwrap();
    assert!(matches!(ev, StepEvent::DebugDump));
    let ev = step(&mut rt, t, None).unwrap();
    match ev {
        StepEvent::Sleep(bits) => assert_eq!(f64::from_bits(bits), 1.5),
        _ => panic!("expected a sleep event"),
    }
    let ev = step(&mut rt, t, None).unwrap();
    assert!(matches!(ev, StepEvent::Shutdown(ShutdownType::Restarting)));
    let ev = step(&mut rt, t, None).unwrap();
    assert!(matches!(ev, StepEvent::Shutdown(ShutdownType::Error)));
    assert_eq!(
        rt.counter.get_error_data().unwrap(),
        "Called Intrinsic::Throw".to_string()
    );
}

#[test]
fn unknown_opcode_and_unknown_intrinsic_abort() {
    let mut rt = make_rt(&[slot(0x7F, 0, 0, 0, 0)]);
    let t = rt.spawn(8).unwrap();
    assert!(step(&mut rt, t, None).is_err());
    let mut rt = make_rt(&[slot(0x10, 0x42, 0, 0, 0)]);
    let t = rt.spawn(8).unwrap();
    assert!(step(&mut rt, t, None).is_err());
}

#[test]
fn out_of_image_fetch_faults() {
    let mut rt = make_rt(&[slot(0x81, 6, 7, 0, 0)]);
    let t = rt.spawn(100_000).unwrap();
    assert!(step(&mut rt, t, None).is_err());
}
