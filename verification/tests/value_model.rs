//! The dynamic value model: JavaScript-like coercion for ADD and the
//! other arithmetic, all six comparison kinds against IEEE-754 double
//! semantics, the release-and-poison ownership discipline, and the
//! end-of-generation leak sweep.

use entvm::archive::Archive;
use entvm::events::ShutdownType;
use entvm::executor::{step, StepEvent};
use entvm::instr::BinOp;
use entvm::js_impl::{NumOp, NumReply, NumRequest, Operand};
use entvm::instr::CmpKind;
use entvm::runtime::Runtime;
use entvm::values::{var_str_word, STR_SIGNATURE};
use entvm::vm_config::{ExecutorKind, ThreadingKind, VMConfig};

fn vslot(op: u8, b1: u8, b2: u8, b3: u8, word4: u32) -> [u8; 8] {
    let w = word4.to_le_bytes();
    [op, b1, b2, b3, w[0], w[1], w[2], w[3]]
}

fn vmake_rt(slots: &[[u8; 8]]) -> Runtime {
    let mut code = vec![0u8; 8];
    for s in slots {
        code.extend_from_slice(s);
    }
    let conf = VMConfig {
        executor_kind: ExecutorKind::Atomic,
        threading_kind: ThreadingKind::Single,
        max_threads: 1,
        stack_size: 4096,
    };
    let archive = Archive { code, conf, block_info: None, files: vec![] };
    Runtime::new(archive).unwrap()
}

fn vreg(rt: &Runtime, t: usize, i: u8) -> u64 {
    rt.threads[t].as_ref().unwrap().get_reg(i)
}

fn vset_reg(rt: &mut Runtime, t: usize, i: u8, v: u64) {
    rt.threads[t].as_mut().unwrap().set_reg(i, v);
}

/// Compute the embedder's numeric reply for a request, with real doubles.
fn embed(req: &NumRequest) -> NumReply {
    let side = |o: &Operand| -> (Option<f64>, Vec<u8>) {
        match o {
            Operand::Num(b) => {
                let v = f64::from_bits(*b);
                (Some(v), format!("{}", v).into_bytes())
            },
            Operand::Text(bytes) => {
                let s = String::from_utf8_lossy(bytes).into_owned();
                (s.parse::<f64>().ok(), Vec::new())
            },
        }
    };
    let (l, lt) = side(&req.lhs);
    let (r, rt) = side(&req.rhs);
    let mut reply = NumReply {
        lhs_num: l.map(f64::to_bits),
        rhs_num: r.map(f64::to_bits),
        result: 0,
        cmp: false,
        lhs_text: lt,
        rhs_text: rt,
    };
    if let (Some(a), Some(b)) = (l, r) {
        match &req.op {
            NumOp::Arith(op) => {
                let v = match op {
                    BinOp::Add => a + b,
                    BinOp::Sub => a - b,
                    BinOp::Mul => a * b,
                    BinOp::Div => a / b,
                    BinOp::IDiv => (a / b).floor(),
                    BinOp::Rem => a % b,
                };
                reply.result = v.to_bits();
            },
            NumOp::Cmp(kind) => {
                reply.cmp = match kind {
                    CmpKind::Eq => a == b,
                    CmpKind::Ne => a != b,
                    CmpKind::Lt => a < b,
                    CmpKind::Lte => a <= b,
                    CmpKind::Gt => a > b,
                    CmpKind::Gte => a >= b,
                };
            },
        }
    }
    reply
}

/// Run one arithmetic or comparison instruction to completion, feeding
/// the numeric reply back in.
fn run_numeric(rt: &mut Runtime, t: usize) -> StepEvent {
    match step(rt, t, None).unwrap() {
        StepEvent::NeedNum(req) => {
            let reply = embed(&req);
            step(rt, t, Some(&reply)).unwrap()
        },
        other => other,
    }
}

fn alloc_str(rt: &mut Runtime, s: &str) -> u64 {
    let h = rt.heap.allocate(s.as_bytes().to_vec()).unwrap();
    var_str_word(h)
}

#[test]
fn adding_two_numeric_strings_is_numeric_addition() {
    let mut rt = vmake_rt(&[vslot(0x03, 6, 7, 0, 0)]);
    let t = rt.spawn(8).unwrap();
    let w3 = alloc_str(&mut rt, "3");
    let w4 = alloc_str(&mut rt, "4");
    vset_reg(&mut rt, t, 6, w3);
    vset_reg(&mut rt, t, 7, w4);
    let ev = run_numeric(&mut rt, t);
    assert!(matches!(ev, StepEvent::Continue));
    assert_eq!(f64::from_bits(vreg(&rt, t, 6)), 7.0);
    // Both variable strings were consumed; the source register is
    // poisoned to the canonical empty string.
    assert_eq!(vreg(&rt, t, 7), STR_SIGNATURE);
    assert_eq!(rt.heap.live(), 0);
}

#[test]
fn adding_non_numeric_string_concatenates() {
    let mut rt = vmake_rt(&[vslot(0x03, 6, 7, 0, 0)]);
    let t = rt.spawn(8).unwrap();
    let wa = alloc_str(&mut rt, "a");
    let w4 = alloc_str(&mut rt, "4");
    vset_reg(&mut rt, t, 6, wa);
    vset_reg(&mut rt, t, 7, w4);
    let ev = run_numeric(&mut rt, t);
    assert!(matches!(ev, StepEvent::Continue));
    // The left string grew in place; its word is unchanged.
    assert_eq!(vreg(&rt, t, 6), wa);
    let h = vreg(&rt, t, 6) & entvm::values::STR_PAYLOAD_MASK;
    assert_eq!(rt.heap.read(h).unwrap(), b"a4".to_vec());
    assert_eq!(vreg(&rt, t, 7), STR_SIGNATURE);
    assert_eq!(rt.heap.live(), 1);
}

#[test]
fn adding_number_and_numeric_string_is_numeric() {
    let mut rt = vmake_rt(&[vslot(0x03, 6, 7, 0, 0)]);
    let t = rt.spawn(8).unwrap();
    let w3 = alloc_str(&mut rt, "3");
    vset_reg(&mut rt, t, 6, 5.0f64.to_bits());
    vset_reg(&mut rt, t, 7, w3);
    let ev = run_numeric(&mut rt, t);
    assert!(matches!(ev, StepEvent::Continue));
    assert_eq!(f64::from_bits(vreg(&rt, t, 6)), 8.0);
    assert_eq!(vreg(&rt, t, 7), STR_SIGNATURE);
    assert_eq!(rt.heap.live(), 0);
}

#[test]
fn adding_two_non_numeric_strings_concatenates() {
    let mut rt = vmake_rt(&[vslot(0x03, 6, 7, 0, 0)]);
    let t = rt.spawn(8).unwrap();
    let wx = alloc_str(&mut rt, "he");
    let wy = alloc_str(&mut rt, "llo");
    vset_reg(&mut rt, t, 6, wx);
    vset_reg(&mut rt, t, 7, wy);
    let ev = run_numeric(&mut rt, t);
    assert!(matches!(ev, StepEvent::Continue));
    let h = vreg(&rt, t, 6) & entvm::values::STR_PAYLOAD_MASK;
    assert_eq!(rt.heap.read(h).unwrap(), b"hello".to_vec());
    assert_eq!(rt.heap.live(), 1);
}

#[test]
fn subtracting_non_numeric_string_yields_nan() {
    let mut rt = vmake_rt(&[vslot(0x04, 6, 7, 0, 0)]);
    let t = rt.spawn(8).unwrap();
    let wa = alloc_str(&mut rt, "a");
    vset_reg(&mut rt, t, 6, 2.0f64.to_bits());
    vset_reg(&mut rt, t, 7, wa);
    let ev = run_numeric(&mut rt, t);
    assert!(matches!(ev, StepEvent::Continue));
    assert!(f64::from_bits(vreg(&rt, t, 6)).is_nan());
    assert_eq!(vreg(&rt, t, 7), STR_SIGNATURE);
    assert_eq!(rt.heap.live(), 0);
}

#[test]
fn arithmetic_on_numbers_follows_the_reply() {
    // 7 IDIV 2 floors the quotient; 7 REM 2 keeps the remainder.
    let mut rt = vmake_rt(&[vslot(0x07, 6, 7, 0, 0), vslot(0x08, 8, 9, 0, 0)]);
    let t = rt.spawn(8).unwrap();
    vset_reg(&mut rt, t, 6, 7.0f64.to_bits());
    vset_reg(&mut rt, t, 7, 2.0f64.to_bits());
    vset_reg(&mut rt, t, 8, 7.0f64.to_bits());
    vset_reg(&mut rt, t, 9, 2.0f64.to_bits());
    run_numeric(&mut rt, t);
    assert_eq!(f64::from_bits(vreg(&rt, t, 6)), 3.0);
    run_numeric(&mut rt, t);
    assert_eq!(f64::from_bits(vreg(&rt, t, 8)), 1.0);
}

fn flag_after_cmp(kind: u8, a: u64, b: u64) -> bool {
    let mut rt = vmake_rt(&[vslot(0x0C, 6, 7, kind, 0)]);
    let t = rt.spawn(8).unwrap();
    vset_reg(&mut rt, t, 6, a);
    vset_reg(&mut rt, t, 7, b);
    let ev = run_numeric(&mut rt, t);
    assert!(matches!(ev, StepEvent::Continue));
    rt.threads[t].as_ref().unwrap().get_flag(0)
}

#[test]
fn all_six_comparison_kinds_match_double_semantics() {
    let one = 1.0f64.to_bits();
    let two = 2.0f64.to_bits();
    assert!(!flag_after_cmp(0, one, two));
    assert!(flag_after_cmp(0, two, two));
    assert!(flag_after_cmp(1, one, two));
    assert!(!flag_after_cmp(1, two, two));
    assert!(flag_after_cmp(2, one, two));
    assert!(!flag_after_cmp(2, two, one));
    assert!(flag_after_cmp(3, two, two));
    assert!(!flag_after_cmp(3, two, one));
    assert!(flag_after_cmp(4, two, one));
    assert!(!flag_after_cmp(4, one, two));
    assert!(flag_after_cmp(5, two, two));
    assert!(!flag_after_cmp(5, one, two));
}

#[test]
fn nan_equals_nothing_except_via_not_equal() {
    let nan = f64::NAN.to_bits();
    assert!(!flag_after_cmp(0, nan, nan));
    assert!(flag_after_cmp(1, nan, nan));
    assert!(!flag_after_cmp(2, nan, nan));
    assert!(!flag_after_cmp(3, nan, nan));
    assert!(!flag_after_cmp(4, nan, nan));
    assert!(!flag_after_cmp(5, nan, nan));
}

#[test]
fn not_equal_requests_equality_and_negates() {
    let mut rt = vmake_rt(&[vslot(0x0C, 6, 7, 1, 0)]);
    let t = rt.spawn(8).unwrap();
    vset_reg(&mut rt, t, 6, 1.0f64.to_bits());
    vset_reg(&mut rt, t, 7, 1.0f64.to_bits());
    match step(&mut rt, t, None).unwrap() {
        StepEvent::NeedNum(req) => {
            assert!(matches!(req.op, NumOp::Cmp(CmpKind::Eq)));
            let reply = embed(&req);
            step(&mut rt, t, Some(&reply)).unwrap();
        },
        _ => panic!("expected a numeric request"),
    }
    assert!(!rt.threads[t].as_ref().unwrap().get_flag(0));
}

#[test]
fn ordering_against_non_numeric_string_is_false_whatever_the_reply() {
    let mut rt = vmake_rt(&[vslot(0x0C, 6, 7, 2, 0)]);
    let t = rt.spawn(8).unwrap();
    let wa = alloc_str(&mut rt, "a");
    vset_reg(&mut rt, t, 6, wa);
    vset_reg(&mut rt, t, 7, 1.0f64.to_bits());
    match step(&mut rt, t, None).unwrap() {
        StepEvent::NeedNum(req) => {
            let mut reply = embed(&req);
            // Even a lying reply cannot make the comparison true.
            reply.cmp = true;
            step(&mut rt, t, Some(&reply)).unwrap();
        },
        _ => panic!("expected a numeric request"),
    }
    assert!(!rt.threads[t].as_ref().unwrap().get_flag(0));
}

#[test]
fn equality_of_two_non_numeric_strings_is_byte_wise() {
    let mut rt = vmake_rt(&[vslot(0x0C, 6, 7, 0, 0), vslot(0x0C, 8, 9, 0, 0)]);
    let t = rt.spawn(8).unwrap();
    let w1 = alloc_str(&mut rt, "abc");
    let w2 = alloc_str(&mut rt, "abc");
    let w3 = alloc_str(&mut rt, "abd");
    let w4 = alloc_str(&mut rt, "abc");
    vset_reg(&mut rt, t, 6, w1);
    vset_reg(&mut rt, t, 7, w2);
    vset_reg(&mut rt, t, 8, w3);
    vset_reg(&mut rt, t, 9, w4);
    run_numeric(&mut rt, t);
    assert!(rt.threads[t].as_ref().unwrap().get_flag(0));
    run_numeric(&mut rt, t);
    assert!(!rt.threads[t].as_ref().unwrap().get_flag(0));
}

#[test]
fn drop_releases_variable_string_and_poisons_register() {
    let mut rt = vmake_rt(&[vslot(0x17, 6, 0, 0, 0), vslot(0x17, 7, 0, 0, 0)]);
    let t = rt.spawn(8).unwrap();
    let w = alloc_str(&mut rt, "tmp");
    vset_reg(&mut rt, t, 6, w);
    vset_reg(&mut rt, t, 7, 1.5f64.to_bits());
    assert_eq!(rt.heap.live(), 1);
    let ev = step(&mut rt, t, None).unwrap();
    assert!(matches!(ev, StepEvent::Continue));
    assert_eq!(vreg(&rt, t, 6), STR_SIGNATURE);
    assert_eq!(rt.heap.live(), 0);
    // DROP of a number is an unrecoverable programming error.
    assert!(step(&mut rt, t, None).is_err());
}

#[test]
fn leak_sweep_frees_exactly_the_never_released_strings() {
    let mut rt = vmake_rt(&[vslot(0x00, 0, 0, 0, 0)]);
    for i in 0..5 {
        rt.heap.allocate(vec![b'x'; i + 1]).unwrap();
    }
    let h = rt.heap.allocate(b"freed".to_vec()).unwrap();
    rt.heap.free(h);
    assert_eq!(rt.heap.live(), 5);
    let swept = rt.sweep_leaks();
    assert_eq!(swept, 5);
    assert_eq!(rt.heap.live(), 0);
}

#[test]
fn elem_out_of_bounds_triggers_error_shutdown_with_index() {
    // An array of two elements at address 16: length, then elements.
    let mut rt = vmake_rt(&[
        vslot(0x18, 6, 7, 8, 0),
        2u64.to_le_bytes(),
        31u64.to_le_bytes(),
        32u64.to_le_bytes(),
    ]);
    let t = rt.spawn(8).unwrap();
    vset_reg(&mut rt, t, 7, 16);
    vset_reg(&mut rt, t, 8, 0);
    let ev = step(&mut rt, t, None).unwrap();
    assert!(matches!(ev, StepEvent::Shutdown(ShutdownType::Error)));
    assert_eq!(
        rt.counter.get_error_data().unwrap(),
        "Array index 0 is out of bounds".to_string()
    );
    // One past the stored length fails the same way, carrying the index.
    let mut rt = vmake_rt(&[
        vslot(0x18, 6, 7, 8, 0),
        2u64.to_le_bytes(),
        31u64.to_le_bytes(),
        32u64.to_le_bytes(),
    ]);
    let t = rt.spawn(8).unwrap();
    vset_reg(&mut rt, t, 7, 16);
    vset_reg(&mut rt, t, 8, 3);
    let ev = step(&mut rt, t, None).unwrap();
    assert!(matches!(ev, StepEvent::Shutdown(ShutdownType::Error)));
    assert_eq!(
        rt.counter.get_error_data().unwrap(),
        "Array index 3 is out of bounds".to_string()
    );
}

#[test]
fn elem_loads_one_based_elements() {
    let mut rt = vmake_rt(&[
        vslot(0x18, 6, 7, 8, 0),
        2u64.to_le_bytes(),
        31u64.to_le_bytes(),
        32u64.to_le_bytes(),
    ]);
    let t = rt.spawn(8).unwrap();
    vset_reg(&mut rt, t, 7, 16);
    vset_reg(&mut rt, t, 8, 2);
    let ev = step(&mut rt, t, None).unwrap();
    assert!(matches!(ev, StepEvent::Continue));
    assert_eq!(vreg(&rt, t, 6), 32);
    assert_eq!(vreg(&rt, t, 0), 16);
}

#[test]
fn constant_strings_read_their_payload_from_the_image_and_are_never_freed() {
    // A constant string "9" at address 16: an 8-byte length, one byte.
    let mut rt = vmake_rt(&[
        vslot(0x03, 6, 7, 0, 0),
        1u64.to_le_bytes(),
        [b'9', 0, 0, 0, 0, 0, 0, 0],
    ]);
    let t = rt.spawn(8).unwrap();
    let w = 16u64 | STR_SIGNATURE | entvm::values::CONST_STR_BIT;
    vset_reg(&mut rt, t, 6, w);
    vset_reg(&mut rt, t, 7, 1.0f64.to_bits());
    let ev = run_numeric(&mut rt, t);
    assert!(matches!(ev, StepEvent::Continue));
    assert_eq!(f64::from_bits(vreg(&rt, t, 6)), 10.0);
    assert_eq!(rt.heap.live(), 0);
}
