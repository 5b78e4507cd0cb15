//! The instruction executor: decode one instruction at the instruction
//! pointer, execute its semantics, advance the pointer by the
//! instruction's width, and report what the embedder must do next.

use vstd::prelude::*;

use crate::errors::VmError;
use crate::events::ShutdownType;
use crate::instr::{BinOp, CmpKind, Instr};
use crate::js_impl::{GValue, NumOp, NumReply, NumRequest, Operand, Value};
use crate::machine::{in_mem, in_stack, Memory, ThreadState};
use crate::runtime::Runtime;
use crate::values::STR_SIGNATURE;
use crate::wordio::{le64, store64};

verus! {

/// What one executed instruction means for the thread's loop: carry on,
/// or tear the whole generation down with the carried kind.
pub enum ExecutorBehaviour {
    Continue,
    Shutdown(ShutdownType),
}

/// The registers after the instruction pointer advanced by `n` bytes.
pub open spec fn advance(r: Seq<u64>, n: u64) -> Seq<u64> {
    r.update(0, r[0].wrapping_add(n))
}

/// Whether this thread can push an eleven-word call frame: the whole
/// frame, from the return-address slot up to the word at the stack
/// pointer, lies in one region of its address space.
pub open spec fn call_frame_fits(ts: ThreadState, mlen: nat) -> bool {
    let sp = ts.regs@[4];
    &&& sp >= 88
    &&& ts.can_access(mlen, (sp - 80) as u64, 88)
}

/// Run-time check for an `n`-byte access at `addr`.
fn check_access(ts: &ThreadState, mem: &Memory, addr: u64, n: u64) -> (r: bool)
    requires
        ts.wf(mem.bytes@.len()),
    ensures
        r == ts.can_access(mem.bytes@.len(), addr, n as nat),
{
    let mlen = mem.bytes.len();
    if addr <= mlen as u64 && mlen as u64 - addr >= n {
        true
    } else {
        let slen = ts.stack.bytes.len();
        addr >= ts.stack.base && addr - ts.stack.base <= slen as u64 && slen as u64 - (addr
            - ts.stack.base) >= n
    }
}

/// Push the calling convention's frame and enter the called function:
/// the ten callee-saved registers and the return address go onto the
/// stack, the instruction pointer becomes the code base plus the scaled
/// target, and the frame pointer the new stack pointer. The frame layout
/// is fixed: register six ends up highest, the return address lowest,
/// each one word apart.
fn exec_call(ts: &mut ThreadState, mem: &mut Memory, addr: u32) -> (r: Result<(), VmError>)
    requires
        old(ts).wf(old(mem).bytes@.len()),
    ensures
        final(ts).wf(final(mem).bytes@.len()),
        final(mem).bytes@.len() == old(mem).bytes@.len(),
        final(ts).stack.base == old(ts).stack.base,
        final(ts).stack.bytes@.len() == old(ts).stack.bytes@.len(),
        final(ts).flags == old(ts).flags,
        r is Ok <==> call_frame_fits(*old(ts), old(mem).bytes@.len()),
        r is Err ==> *final(ts) == *old(ts) && *final(mem) == *old(mem) && r->Err_0 is MemFault,
        r is Ok ==> {
            let regs0 = old(ts).regs@;
            let sp = regs0[4];
            &&& final(ts).regs@ == regs0.update(4, (sp - 88) as u64).update(
                0,
                regs0[1].wrapping_add(((addr as u64) * 8) as u64),
            ).update(2, (sp - 88) as u64)
            &&& final(ts).spec_abs64(final(mem).bytes@, sp) == regs0[6]
            &&& final(ts).spec_abs64(final(mem).bytes@, (sp - 8) as u64) == regs0[7]
            &&& final(ts).spec_abs64(final(mem).bytes@, (sp - 16) as u64) == regs0[8]
            &&& final(ts).spec_abs64(final(mem).bytes@, (sp - 24) as u64) == regs0[9]
            &&& final(ts).spec_abs64(final(mem).bytes@, (sp - 32) as u64) == regs0[10]
            &&& final(ts).spec_abs64(final(mem).bytes@, (sp - 40) as u64) == regs0[11]
            &&& final(ts).spec_abs64(final(mem).bytes@, (sp - 48) as u64) == regs0[12]
            &&& final(ts).spec_abs64(final(mem).bytes@, (sp - 56) as u64) == regs0[13]
            &&& final(ts).spec_abs64(final(mem).bytes@, (sp - 64) as u64) == regs0[14]
            &&& final(ts).spec_abs64(final(mem).bytes@, (sp - 72) as u64) == regs0[15]
            &&& final(ts).spec_abs64(final(mem).bytes@, (sp - 80) as u64) == regs0[0].wrapping_add(
                8,
            )
            &&& (in_mem(old(mem).bytes@.len(), (sp - 80) as u64, 88) ==> final(ts).stack.bytes@
                == old(ts).stack.bytes@)
            &&& (!in_mem(old(mem).bytes@.len(), (sp - 80) as u64, 88) ==> final(mem).bytes@ == old(
                mem,
            ).bytes@)
        },
{
    let sp0 = ts.get_reg(4);
    if sp0 < 88 {
        return Result::Err(VmError::MemFault(sp0));
    }
    if !check_access(ts, mem, sp0 - 80, 88) {
        return Result::Err(VmError::MemFault(sp0 - 80));
    }
    let ip0 = ts.get_reg(0);
    let mut vals: Vec<u64> = Vec::new();
    vals.push(ts.get_reg(6));
    vals.push(ts.get_reg(7));
    vals.push(ts.get_reg(8));
    vals.push(ts.get_reg(9));
    vals.push(ts.get_reg(10));
    vals.push(ts.get_reg(11));
    vals.push(ts.get_reg(12));
    vals.push(ts.get_reg(13));
    vals.push(ts.get_reg(14));
    vals.push(ts.get_reg(15));
    vals.push(ip0.wrapping_add(8));
    let ghost regs0 = ts.regs@;
    let ghost mem0 = mem.bytes@;
    let ghost stack0 = ts.stack.bytes@;
    let ghost frame_in_mem = in_mem(mem.bytes@.len(), (sp0 - 80) as u64, 88);
    let mut k: usize = 0;
    proof {
        assert(ts.regs@ =~= regs0.update(4, (sp0 - 8 * 0) as u64));
    }
    while k < 11
        invariant
            k <= 11,
            regs0.len() == 16,
            vals@.len() == 11,
            vals@[10] == regs0[0].wrapping_add(8),
            forall|j: int| 0 <= j < 10 ==> vals@[j] == regs0[6 + j],
            sp0 == regs0[4],
            sp0 >= 88,
            ts.wf(mem.bytes@.len()),
            mem.bytes@.len() == mem0.len(),
            ts.stack.bytes@.len() == stack0.len(),
            ts.stack.base == old(ts).stack.base,
            ts.flags == old(ts).flags,
            ts.regs@ == regs0.update(4, (sp0 - 8 * k) as u64),
            frame_in_mem == in_mem(mem0.len(), (sp0 - 80) as u64, 88),
            frame_in_mem || in_stack(ts.stack.base, stack0.len(), (sp0 - 80) as u64, 88),
            frame_in_mem ==> ts.stack.bytes@ == stack0,
            !frame_in_mem ==> mem.bytes@ == mem0,
            forall|j: int|
                0 <= j < k ==> ts.spec_abs64(mem.bytes@, (sp0 - 8 * j) as u64) == vals@[j],
            forall|a: int|
                0 <= a < mem0.len() && !((sp0 - 80) <= a < sp0 + 8) ==> mem.bytes@[a] == mem0[a],
            forall|a: int|
                0 <= a < stack0.len() && !((sp0 - 80) - ts.stack.base <= a < sp0 + 8
                    - ts.stack.base) ==> ts.stack.bytes@[a] == stack0[a],
        decreases 11 - k,
    {
        let a = sp0 - 8 * (k as u64);
        proof {
            assert(ts.regs@[4] == sp0 - 8 * k);
            assert(ts.can_access(mem.bytes@.len(), (sp0 - 8 * k) as u64, 8));
        }
        let ghost pre_mem = mem.bytes@;
        let ghost pre_stack = ts.stack.bytes@;
        let ghost pre_ts = *ts;
        let v = vals[k];
        match ts.push(mem, v) {
            Result::Ok(_) => {},
            Result::Err(_) => {
                proof {
                    assert(false);
                }
                return Result::Err(VmError::MemFault(a));
            },
        }
        proof {
            if in_mem(mem0.len(), a, 8) {
                crate::wordio::lemma_store64_le64(pre_mem, a as int, v);
            } else {
                crate::wordio::lemma_store64_le64(pre_stack, a - ts.stack.base, v);
            }
            assert(ts.regs@ =~= regs0.update(4, (sp0 - 8 * (k + 1)) as u64));
            assert forall|j: int|
                0 <= j < k + 1 implies ts.spec_abs64(mem.bytes@, (sp0 - 8 * j) as u64) == vals@[j]
            by {
                if j < k {
                    assert(pre_ts.spec_abs64(pre_mem, (sp0 - 8 * j) as u64) == vals@[j]);
                }
            }
        }
        k = k + 1;
    }
    proof {
        assert(ts.spec_abs64(mem.bytes@, (sp0 - 8 * 0) as u64) == vals@[0]);
        assert(ts.spec_abs64(mem.bytes@, (sp0 - 8 * 1) as u64) == vals@[1]);
        assert(ts.spec_abs64(mem.bytes@, (sp0 - 8 * 2) as u64) == vals@[2]);
        assert(ts.spec_abs64(mem.bytes@, (sp0 - 8 * 3) as u64) == vals@[3]);
        assert(ts.spec_abs64(mem.bytes@, (sp0 - 8 * 4) as u64) == vals@[4]);
        assert(ts.spec_abs64(mem.bytes@, (sp0 - 8 * 5) as u64) == vals@[5]);
        assert(ts.spec_abs64(mem.bytes@, (sp0 - 8 * 6) as u64) == vals@[6]);
        assert(ts.spec_abs64(mem.bytes@, (sp0 - 8 * 7) as u64) == vals@[7]);
        assert(ts.spec_abs64(mem.bytes@, (sp0 - 8 * 8) as u64) == vals@[8]);
        assert(ts.spec_abs64(mem.bytes@, (sp0 - 8 * 9) as u64) == vals@[9]);
        assert(ts.spec_abs64(mem.bytes@, (sp0 - 8 * 10) as u64) == vals@[10]);
    }
    let target = ts.get_reg(1).wrapping_add((addr as u64) * 8);
    ts.set_reg(0, target);
    let fp = ts.get_reg(4);
    ts.set_reg(2, fp);
    proof {
        assert(ts.regs@ =~= regs0.update(4, (sp0 - 88) as u64).update(
            0,
            regs0[1].wrapping_add(((addr as u64) * 8) as u64),
        ).update(2, (sp0 - 88) as u64));
    }
    Result::Ok(())
}

/// Pop the calling convention's frame: the ten callee-saved registers
/// are restored from the frame the matching CALL pushed, execution
/// resumes at the saved return address, and the frame and stack pointers
/// both move one frame up.
fn exec_ret(ts: &mut ThreadState, mem: &Memory) -> (r: Result<(), VmError>)
    requires
        old(ts).wf(mem.bytes@.len()),
    ensures
        final(ts).wf(mem.bytes@.len()),
        final(ts).flags == old(ts).flags,
        final(ts).stack == old(ts).stack,
        r is Err ==> *final(ts) == *old(ts) && r->Err_0 is MemFault,
        r is Ok <==> {
            let fp = old(ts).regs@[2];
            let mlen = mem.bytes@.len();
            &&& old(ts).can_access(mlen, fp.wrapping_add(8), 8)
            &&& old(ts).can_access(mlen, fp.wrapping_add(16), 8)
            &&& old(ts).can_access(mlen, fp.wrapping_add(24), 8)
            &&& old(ts).can_access(mlen, fp.wrapping_add(32), 8)
            &&& old(ts).can_access(mlen, fp.wrapping_add(40), 8)
            &&& old(ts).can_access(mlen, fp.wrapping_add(48), 8)
            &&& old(ts).can_access(mlen, fp.wrapping_add(56), 8)
            &&& old(ts).can_access(mlen, fp.wrapping_add(64), 8)
            &&& old(ts).can_access(mlen, fp.wrapping_add(72), 8)
            &&& old(ts).can_access(mlen, fp.wrapping_add(80), 8)
            &&& old(ts).can_access(mlen, fp.wrapping_add(88), 8)
        },
        r is Ok ==> {
            let regs0 = old(ts).regs@;
            let fp = regs0[2];
            let frame = (|k: u64| old(ts).spec_abs64(mem.bytes@, fp.wrapping_add((8 * k) as u64)));
            &&& final(ts).regs@ == regs0.update(6, frame(11)).update(7, frame(10)).update(
                8,
                frame(9),
            ).update(9, frame(8)).update(10, frame(7)).update(11, frame(6)).update(
                12,
                frame(5),
            ).update(13, frame(4)).update(14, frame(3)).update(15, frame(2)).update(
                0,
                frame(1),
            ).update(2, regs0[4].wrapping_add(88)).update(4, regs0[4].wrapping_add(88))
        },
{
    let fp = ts.get_reg(2);
    let addr = match ts.get_mem_absolute(mem, fp.wrapping_add(8)) {
        Result::Ok(v) => v,
        Result::Err(e) => {
            return Result::Err(e);
        },
    };
    let f2 = match ts.get_mem_absolute(mem, fp.wrapping_add(16)) {
        Result::Ok(v) => v,
        Result::Err(e) => {
            return Result::Err(e);
        },
    };
    let f3 = match ts.get_mem_absolute(mem, fp.wrapping_add(24)) {
        Result::Ok(v) => v,
        Result::Err(e) => {
            return Result::Err(e);
        },
    };
    let f4 = match ts.get_mem_absolute(mem, fp.wrapping_add(32)) {
        Result::Ok(v) => v,
        Result::Err(e) => {
            return Result::Err(e);
        },
    };
    let f5 = match ts.get_mem_absolute(mem, fp.wrapping_add(40)) {
        Result::Ok(v) => v,
        Result::Err(e) => {
            return Result::Err(e);
        },
    };
    let f6 = match ts.get_mem_absolute(mem, fp.wrapping_add(48)) {
        Result::Ok(v) => v,
        Result::Err(e) => {
            return Result::Err(e);
        },
    };
    let f7 = match ts.get_mem_absolute(mem, fp.wrapping_add(56)) {
        Result::Ok(v) => v,
        Result::Err(e) => {
            return Result::Err(e);
        },
    };
    let f8 = match ts.get_mem_absolute(mem, fp.wrapping_add(64)) {
        Result::Ok(v) => v,
        Result::Err(e) => {
            return Result::Err(e);
        },
    };
    let f9 = match ts.get_mem_absolute(mem, fp.wrapping_add(72)) {
        Result::Ok(v) => v,
        Result::Err(e) => {
            return Result::Err(e);
        },
    };
    let f10 = match ts.get_mem_absolute(mem, fp.wrapping_add(80)) {
        Result::Ok(v) => v,
        Result::Err(e) => {
            return Result::Err(e);
        },
    };
    let f11 = match ts.get_mem_absolute(mem, fp.wrapping_add(88)) {
        Result::Ok(v) => v,
        Result::Err(e) => {
            return Result::Err(e);
        },
    };
    ts.set_reg(6, f11);
    ts.set_reg(7, f10);
    ts.set_reg(8, f9);
    ts.set_reg(9, f8);
    ts.set_reg(10, f7);
    ts.set_reg(11, f6);
    ts.set_reg(12, f5);
    ts.set_reg(13, f4);
    ts.set_reg(14, f3);
    ts.set_reg(15, f2);
    ts.set_reg(0, addr);
    let sp = ts.get_reg(4);
    ts.set_reg(2, sp.wrapping_add(88));
    ts.set_reg(4, sp.wrapping_add(88));
    Result::Ok(())
}

/// What the embedder must do after one call of `step`. A `NeedNum` step
/// changed nothing: compute the requested numeric work and call `step`
/// again with the reply. A `Sleep` step asks for a timed suspension of
/// the carried double's worth of seconds; the policy lock must be
/// released before suspending, so no other thread blocks on a sleeper.
/// Extension calls and the register dump are performed by the embedder
/// with the instruction pointer already advanced.
pub enum StepEvent {
    Continue,
    Shutdown(ShutdownType),
    NeedNum(NumRequest),
    Sleep(u64),
    ExtFunctionCall { ext: u32, func: u32 },
    ExtInterruptCall { ext: u32, func: u32 },
    DebugDump,
}

/// Nothing observable changed.
pub open spec fn same_state(pre: Runtime, post: Runtime) -> bool {
    &&& post.threads@ == pre.threads@
    &&& post.memory == pre.memory
    &&& post.heap == pre.heap
    &&& post.counter == pre.counter
    &&& post.shutdown == pre.shutdown
    &&& post.archive == pre.archive
    &&& post.base == pre.base
    &&& post.initial_inst == pre.initial_inst
}

/// Every thread slot but `t` kept its state, and the run-level fields
/// that no instruction touches are intact.
pub open spec fn others_unchanged(pre: Runtime, post: Runtime, t: int) -> bool {
    &&& post.threads@.len() == pre.threads@.len()
    &&& forall|j: int|
        0 <= j < pre.threads@.len() && j != t ==> post.threads@[j] == pre.threads@[j]
    &&& post.threads@[t] is Some
    &&& post.archive == pre.archive
    &&& post.base == pre.base
    &&& post.initial_inst == pre.initial_inst
}

/// The coordinator and the cooperative flag kept their state.
pub open spec fn coord_unchanged(pre: Runtime, post: Runtime) -> bool {
    &&& post.counter == pre.counter
    &&& post.shutdown == pre.shutdown
}

/// The step touched only thread `t`'s registers and flags.
pub open spec fn thread_local_post(
    pre: Runtime,
    post: Runtime,
    t: int,
    regs: Seq<u64>,
    flags: u64,
) -> bool {
    &&& others_unchanged(pre, post, t)
    &&& coord_unchanged(pre, post)
    &&& post.memory == pre.memory
    &&& post.heap == pre.heap
    &&& post.threads@[t]->0.regs@ == regs
    &&& post.threads@[t]->0.flags == flags
    &&& post.threads@[t]->0.stack == pre.threads@[t]->0.stack
}

/// The step stored the word `v` at absolute address `a` — in shared
/// memory or in thread `t`'s stack — and left the registers as `regs`.
pub open spec fn mem_write_post(pre: Runtime, post: Runtime, t: int, a: u64, v: u64, regs: Seq<
    u64,
>) -> bool {
    let ts0 = pre.threads@[t]->0;
    &&& others_unchanged(pre, post, t)
    &&& coord_unchanged(pre, post)
    &&& post.heap == pre.heap
    &&& post.threads@[t]->0.regs@ == regs
    &&& post.threads@[t]->0.flags == ts0.flags
    &&& post.threads@[t]->0.stack.base == ts0.stack.base
    &&& if in_mem(pre.memory.bytes@.len(), a, 8) {
        &&& post.memory.bytes@ == store64(pre.memory.bytes@, a as int, v)
        &&& post.threads@[t]->0.stack.bytes@ == ts0.stack.bytes@
    } else {
        &&& post.memory == pre.memory
        &&& post.threads@[t]->0.stack.bytes@ == store64(
            ts0.stack.bytes@,
            a - ts0.stack.base,
            v,
        )
    }
}

/// Whether a request operand carries the same value as the resolved
/// operand: the bits of a double, or the bytes of a string.
pub open spec fn operand_matches(o: Operand, v: GValue) -> bool {
    match o {
        Operand::Num(w) => !v.is_str && w == v.num,
        Operand::Text(b) => v.is_str && b@ == v.text,
    }
}

/// The flag value a comparison of this kind yields.
pub open spec fn cmp_result(kind: CmpKind, vl: GValue, vr: GValue, reply: NumReply) -> bool {
    match kind {
        CmpKind::Eq => crate::js_impl::eq_value(vl, vr, reply),
        CmpKind::Ne => !crate::js_impl::eq_value(vl, vr, reply),
        _ => crate::js_impl::ord_value(vl, vr, reply),
    }
}

/// The heap after a comparison of this kind released its consumed
/// operands.
pub open spec fn cmp_heap(
    kind: CmpKind,
    h: Seq<Option<Seq<u8>>>,
    vl: GValue,
    vr: GValue,
    reply: NumReply,
) -> Seq<Option<Seq<u8>>> {
    match kind {
        CmpKind::Eq | CmpKind::Ne => crate::js_impl::eq_heap(h, vl, vr, reply),
        _ => crate::js_impl::ord_heap(h, vl, vr, reply),
    }
}

/// The registers after a comparison of this kind poisoned the released
/// slots.
pub open spec fn cmp_regs(
    kind: CmpKind,
    r: Seq<u64>,
    d: int,
    s: int,
    vl: GValue,
    vr: GValue,
    reply: NumReply,
) -> Seq<u64> {
    match kind {
        CmpKind::Eq | CmpKind::Ne => crate::js_impl::eq_regs(r, d, s, vl, vr, reply),
        _ => crate::js_impl::ord_regs(r, d, s, vl, vr, reply),
    }
}

/// The error an unresolvable operand word yields.
pub open spec fn resolve_err_matches(w: u64, e: VmError) -> bool {
    match crate::values::spec_classify(w) {
        crate::values::WordClass::ConstStr(_) => e is MemFault,
        crate::values::WordClass::VarStr(_) => e == VmError::InvalidOperation,
        crate::values::WordClass::Number => false,
    }
}

fn reg_of(rt: &Runtime, t: usize, idx: u8) -> (r: u64)
    requires
        rt.wf(),
        (t as int) < rt.threads@.len(),
        rt.threads@[t as int] is Some,
        idx < 16,
    ensures
        r == rt.threads@[t as int]->0.regs@[idx as int],
{
    match &rt.threads[t] {
        Option::Some(ts) => ts.get_reg(idx),
        Option::None => 0,
    }
}

fn resolve_of(rt: &Runtime, t: usize, w: u64) -> (r: Result<Value, VmError>)
    requires
        rt.wf(),
        (t as int) < rt.threads@.len(),
        rt.threads@[t as int] is Some,
    ensures
        ({
            let ts0 = rt.threads@[t as int]->0;
            &&& (r is Ok <==> crate::js_impl::word_resolvable(ts0, rt.memory.bytes@, rt.heap@, w))
            &&& (r matches Result::Ok(v) ==> v@ == crate::js_impl::word_value(
                ts0,
                rt.memory.bytes@,
                rt.heap@,
                w,
            ))
            &&& (r matches Result::Err(e) ==> resolve_err_matches(w, e))
            &&& (r is Ok && r->Ok_0@.owns_heap() ==> r->Ok_0@.id <= rt.heap@.len())
        }),
{
    match &rt.threads[t] {
        Option::Some(ts) => crate::js_impl::resolve_value(ts, &rt.memory, &rt.heap, w),
        Option::None => Result::Err(VmError::InvalidOperation),
    }
}

/// Turn a resolved operand into its request form.
fn operand_from(v: Value) -> (o: Operand)
    ensures
        operand_matches(o, v@),
{
    match v {
        Value::Num(n) => Operand::Num(n),
        Value::Str { text, .. } => Operand::Text(text),
    }
}

/// The step carried on.
pub open spec fn ok_continue(r: Result<StepEvent, VmError>) -> bool {
    r matches Result::Ok(StepEvent::Continue)
}

/// The step requested a generation shutdown of kind `k`.
pub open spec fn ok_shutdown(r: Result<StepEvent, VmError>, k: ShutdownType) -> bool {
    match r {
        Result::Ok(StepEvent::Shutdown(kk)) => kk == k,
        _ => false,
    }
}

/// The message carried by the error shutdown of an out-of-bounds ELEM.
pub open spec fn elem_oob_msg(ix: u64) -> Seq<char> {
    "Array index "@ + crate::errors::dec_digits(ix as nat) + " is out of bounds"@
}

/// The full transition relation of one instruction `i` executed by
/// thread `t`, relating the runtime before and after a `step` call that
/// decoded `i`, was handed `num`, and returned `r`. This is the
/// specification of the machine's instruction semantics.
pub open spec fn step_post(
    pre: Runtime,
    post: Runtime,
    t: int,
    i: Instr,
    num: Option<&NumReply>,
    r: Result<StepEvent, VmError>,
) -> bool {
    let ts0 = pre.threads@[t]->0;
    let m0 = pre.memory.bytes@;
    let h0 = pre.heap@;
    let regs0 = ts0.regs@;
    match i {
        Instr::End => ok_shutdown(r, ShutdownType::Gracefully) && same_state(pre, post),
        Instr::MovRR { dest, src } => ok_continue(r) && thread_local_post(
            pre,
            post,
            t,
            advance(regs0.update(dest as int, regs0[src as int]), 8),
            ts0.flags,
        ),
        Instr::MovRRo { dest, base, offset } => {
            let a = regs0[base as int].wrapping_add(((offset as u64) * 8) as u64);
            if ts0.can_access(m0.len(), a, 8) {
                ok_continue(r) && thread_local_post(
                    pre,
                    post,
                    t,
                    advance(regs0.update(dest as int, ts0.spec_abs64(m0, a)), 8),
                    ts0.flags,
                )
            } else {
                r == Result::<StepEvent, VmError>::Err(VmError::MemFault(a)) && same_state(
                    pre,
                    post,
                )
            }
        },
        Instr::MovRoR { base, src, offset } => {
            let a = regs0[base as int].wrapping_add(((offset as u64) * 8) as u64);
            if ts0.can_access(m0.len(), a, 8) {
                ok_continue(r) && mem_write_post(
                    pre,
                    post,
                    t,
                    a,
                    regs0[src as int],
                    advance(regs0, 8),
                )
            } else {
                r == Result::<StepEvent, VmError>::Err(VmError::MemFault(a)) && same_state(
                    pre,
                    post,
                )
            }
        },
        Instr::MovRI { dest, imm } => ok_continue(r) && thread_local_post(
            pre,
            post,
            t,
            advance(regs0.update(dest as int, imm), 16),
            ts0.flags,
        ),
        Instr::MovRoI { base, offset, imm } => {
            let a = regs0[base as int].wrapping_add(((offset as u64) * 8) as u64);
            if ts0.can_access(m0.len(), a, 8) {
                ok_continue(r) && mem_write_post(pre, post, t, a, imm, advance(regs0, 16))
            } else {
                r == Result::<StepEvent, VmError>::Err(VmError::MemFault(a)) && same_state(
                    pre,
                    post,
                )
            }
        },
        Instr::Lstr { dest, base, offset } => ok_continue(r) && thread_local_post(
            pre,
            post,
            t,
            advance(
                regs0.update(
                    dest as int,
                    crate::values::spec_const_str_word(
                        regs0[base as int].wrapping_add(((offset as u64) * 8) as u64),
                    ),
                ),
                8,
            ),
            ts0.flags,
        ),
        Instr::Arith { op, dest, src } => {
            let wl = regs0[dest as int];
            let wr = regs0[src as int];
            if !crate::js_impl::word_resolvable(ts0, m0, h0, wl) {
                same_state(pre, post) && (r matches Result::Err(e) && resolve_err_matches(wl, e))
            } else if !crate::js_impl::word_resolvable(ts0, m0, h0, wr) {
                same_state(pre, post) && (r matches Result::Err(e) && resolve_err_matches(wr, e))
            } else {
                let vl = crate::js_impl::word_value(ts0, m0, h0, wl);
                let vr = crate::js_impl::word_value(ts0, m0, h0, wr);
                match num {
                    Option::None => same_state(pre, post) && (match r {
                        Result::Ok(StepEvent::NeedNum(req)) => {
                            &&& req.op == NumOp::Arith(op)
                            &&& operand_matches(req.lhs, vl)
                            &&& operand_matches(req.rhs, vr)
                        },
                        _ => false,
                    }),
                    Option::Some(reply) => {
                        if op is Add {
                            if crate::js_impl::add_allocates(vl, vr, *reply) && h0.len()
                                >= crate::values::STR_PAYLOAD_MASK {
                                r == Result::<StepEvent, VmError>::Err(VmError::HeapExhausted)
                                    && same_state(pre, post)
                            } else {
                                &&& ok_continue(r)
                                &&& others_unchanged(pre, post, t)
                                &&& coord_unchanged(pre, post)
                                &&& post.memory == pre.memory
                                &&& post.heap@ == crate::js_impl::add_heap(h0, vl, vr, *reply)
                                &&& post.threads@[t]->0.regs@ == advance(
                                    crate::js_impl::add_regs(
                                        regs0,
                                        dest as int,
                                        src as int,
                                        vl,
                                        vr,
                                        *reply,
                                        h0,
                                    ),
                                    8,
                                )
                                &&& post.threads@[t]->0.flags == ts0.flags
                                &&& post.threads@[t]->0.stack == ts0.stack
                            }
                        } else {
                            &&& ok_continue(r)
                            &&& others_unchanged(pre, post, t)
                            &&& coord_unchanged(pre, post)
                            &&& post.memory == pre.memory
                            &&& post.heap@ == crate::js_impl::arith_heap(h0, vl, vr, *reply)
                            &&& post.threads@[t]->0.regs@ == advance(
                                crate::js_impl::arith_regs(
                                    regs0,
                                    dest as int,
                                    src as int,
                                    vl,
                                    vr,
                                    *reply,
                                ),
                                8,
                            )
                            &&& post.threads@[t]->0.flags == ts0.flags
                            &&& post.threads@[t]->0.stack == ts0.stack
                        }
                    },
                }
            }
        },
        Instr::Call { addr } => {
            if call_frame_fits(ts0, m0.len()) {
                let sp = regs0[4];
                let tsn = post.threads@[t]->0;
                &&& ok_continue(r)
                &&& others_unchanged(pre, post, t)
                &&& coord_unchanged(pre, post)
                &&& post.heap == pre.heap
                &&& post.memory.bytes@.len() == m0.len()
                &&& tsn.flags == ts0.flags
                &&& tsn.stack.base == ts0.stack.base
                &&& tsn.stack.bytes@.len() == ts0.stack.bytes@.len()
                &&& tsn.regs@ == regs0.update(4, (sp - 88) as u64).update(
                    0,
                    regs0[1].wrapping_add(((addr as u64) * 8) as u64),
                ).update(2, (sp - 88) as u64)
                &&& tsn.spec_abs64(post.memory.bytes@, sp) == regs0[6]
                &&& tsn.spec_abs64(post.memory.bytes@, (sp - 8) as u64) == regs0[7]
                &&& tsn.spec_abs64(post.memory.bytes@, (sp - 16) as u64) == regs0[8]
                &&& tsn.spec_abs64(post.memory.bytes@, (sp - 24) as u64) == regs0[9]
                &&& tsn.spec_abs64(post.memory.bytes@, (sp - 32) as u64) == regs0[10]
                &&& tsn.spec_abs64(post.memory.bytes@, (sp - 40) as u64) == regs0[11]
                &&& tsn.spec_abs64(post.memory.bytes@, (sp - 48) as u64) == regs0[12]
                &&& tsn.spec_abs64(post.memory.bytes@, (sp - 56) as u64) == regs0[13]
                &&& tsn.spec_abs64(post.memory.bytes@, (sp - 64) as u64) == regs0[14]
                &&& tsn.spec_abs64(post.memory.bytes@, (sp - 72) as u64) == regs0[15]
                &&& tsn.spec_abs64(post.memory.bytes@, (sp - 80) as u64) == regs0[0].wrapping_add(
                    8,
                )
            } else {
                same_state(pre, post) && (r matches Result::Err(e) && e is MemFault)
            }
        },
        Instr::Jt { addr } => ok_continue(r) && thread_local_post(
            pre,
            post,
            t,
            if (ts0.flags >> 0) & 1 == 1 {
                regs0.update(0, (regs0[0] & 0xFFFFFFFF00000000) | (addr as u64))
            } else {
                advance(regs0, 8)
            },
            ts0.flags,
        ),
        Instr::Jmp { addr } => ok_continue(r) && thread_local_post(
            pre,
            post,
            t,
            regs0.update(0, (regs0[0] & 0xFFFFFFFF00000000) | (addr as u64)),
            ts0.flags,
        ),
        Instr::Cmp { kind, lhs, rhs } => {
            let wl = regs0[lhs as int];
            let wr = regs0[rhs as int];
            if !crate::js_impl::word_resolvable(ts0, m0, h0, wl) {
                same_state(pre, post) && (r matches Result::Err(e) && resolve_err_matches(wl, e))
            } else if !crate::js_impl::word_resolvable(ts0, m0, h0, wr) {
                same_state(pre, post) && (r matches Result::Err(e) && resolve_err_matches(wr, e))
            } else {
                let vl = crate::js_impl::word_value(ts0, m0, h0, wl);
                let vr = crate::js_impl::word_value(ts0, m0, h0, wr);
                match num {
                    Option::None => same_state(pre, post) && (match r {
                        Result::Ok(StepEvent::NeedNum(req)) => {
                            &&& req.op == NumOp::Cmp(
                                if kind is Ne {
                                    CmpKind::Eq
                                } else {
                                    kind
                                },
                            )
                            &&& operand_matches(req.lhs, vl)
                            &&& operand_matches(req.rhs, vr)
                        },
                        _ => false,
                    }),
                    Option::Some(reply) => {
                        &&& ok_continue(r)
                        &&& others_unchanged(pre, post, t)
                        &&& coord_unchanged(pre, post)
                        &&& post.memory == pre.memory
                        &&& post.heap@ == cmp_heap(kind, h0, vl, vr, *reply)
                        &&& post.threads@[t]->0.regs@ == advance(
                            cmp_regs(kind, regs0, lhs as int, rhs as int, vl, vr, *reply),
                            8,
                        )
                        &&& post.threads@[t]->0.flags == (ts0.flags & !(1u64 << 0)) | ((
                        cmp_result(kind, vl, vr, *reply) as u64) << 0)
                        &&& post.threads@[t]->0.stack == ts0.stack
                    },
                }
            }
        },
        Instr::PushR { src } => {
            let sp = regs0[4];
            if ts0.can_access(m0.len(), sp, 8) {
                ok_continue(r) && mem_write_post(
                    pre,
                    post,
                    t,
                    sp,
                    regs0[src as int],
                    advance(regs0.update(4, sp.wrapping_sub(8)), 8),
                )
            } else {
                r == Result::<StepEvent, VmError>::Err(VmError::MemFault(sp)) && same_state(
                    pre,
                    post,
                )
            }
        },
        Instr::PushI { imm } => {
            let sp = regs0[4];
            if ts0.can_access(m0.len(), sp, 8) {
                ok_continue(r) && mem_write_post(
                    pre,
                    post,
                    t,
                    sp,
                    imm,
                    advance(regs0.update(4, sp.wrapping_sub(8)), 16),
                )
            } else {
                r == Result::<StepEvent, VmError>::Err(VmError::MemFault(sp)) && same_state(
                    pre,
                    post,
                )
            }
        },
        Instr::Pop { dest } => {
            let spn = regs0[4].wrapping_add(8);
            if ts0.can_access(m0.len(), spn, 8) {
                ok_continue(r) && thread_local_post(
                    pre,
                    post,
                    t,
                    advance(
                        regs0.update(4, spn).update(dest as int, ts0.spec_abs64(m0, spn)),
                        8,
                    ),
                    ts0.flags,
                )
            } else {
                r == Result::<StepEvent, VmError>::Err(VmError::MemFault(spn)) && same_state(
                    pre,
                    post,
                )
            }
        },
        Instr::Int { id } => {
            if id == crate::op_codes::INTRINSIC_DEBUG {
                (r matches Result::Ok(StepEvent::DebugDump)) && thread_local_post(
                    pre,
                    post,
                    t,
                    advance(regs0, 8),
                    ts0.flags,
                )
            } else if id == crate::op_codes::INTRINSIC_SLEEP {
                thread_local_post(pre, post, t, advance(regs0, 8), ts0.flags) && (
                if crate::values::spec_classify(regs0[8]) is Number {
                    r == Result::<StepEvent, VmError>::Ok(StepEvent::Sleep(regs0[8]))
                } else {
                    ok_continue(r)
                })
            } else if id == crate::op_codes::INTRINSIC_RESTART {
                ok_shutdown(r, ShutdownType::Restarting) && thread_local_post(
                    pre,
                    post,
                    t,
                    advance(regs0, 8),
                    ts0.flags,
                )
            } else if id == crate::op_codes::INTRINSIC_THROW {
                &&& ok_shutdown(r, ShutdownType::Error)
                &&& others_unchanged(pre, post, t)
                &&& post.memory == pre.memory
                &&& post.heap == pre.heap
                &&& post.shutdown == pre.shutdown
                &&& post.counter.counter == pre.counter.counter
                &&& post.counter.shutdown_type == pre.counter.shutdown_type
                &&& (post.counter.error_data matches Option::Some(m) && m@
                    == "Called Intrinsic::Throw"@)
                &&& post.threads@[t]->0.regs@ == advance(regs0, 8)
                &&& post.threads@[t]->0.flags == ts0.flags
                &&& post.threads@[t]->0.stack == ts0.stack
            } else {
                r == Result::<StepEvent, VmError>::Err(VmError::UnsupportedIntrinsic)
                    && same_state(pre, post)
            }
        },
        Instr::Env { ext, func } => (match r {
            Result::Ok(StepEvent::ExtFunctionCall { ext: e, func: f }) => e == ext && f == func,
            _ => false,
        }) && thread_local_post(pre, post, t, advance(regs0, 8), ts0.flags),
        Instr::Envj { ext, func } => (match r {
            Result::Ok(StepEvent::ExtInterruptCall { ext: e, func: f }) => e == ext && f == func,
            _ => false,
        }) && thread_local_post(pre, post, t, advance(regs0, 8), ts0.flags),
        Instr::Spawn { addr } => {
            let target = regs0[1].wrapping_add(((addr as u64) * 8) as u64);
            let slot = crate::runtime::first_free_slot(pre.threads@);
            if crate::runtime::can_spawn(
                pre.threads@,
                pre.counter.counter,
                pre.archive.conf.stack_size,
            ) {
                &&& ok_continue(r)
                &&& post.archive == pre.archive
                &&& post.base == pre.base
                &&& post.initial_inst == pre.initial_inst
                &&& post.memory == pre.memory
                &&& post.heap == pre.heap
                &&& post.shutdown == pre.shutdown
                &&& post.counter.counter == pre.counter.counter + 1
                &&& post.counter.shutdown_type == pre.counter.shutdown_type
                &&& post.counter.error_data == pre.counter.error_data
                &&& post.threads@.len() == (if slot < pre.threads@.len() {
                    pre.threads@.len()
                } else {
                    pre.threads@.len() + 1
                })
                &&& forall|j: int|
                    0 <= j < pre.threads@.len() && j != t && j != slot ==> post.threads@[j]
                        == pre.threads@[j]
                &&& post.threads@[t] is Some
                &&& post.threads@[t]->0.regs@ == advance(regs0, 8)
                &&& post.threads@[t]->0.flags == ts0.flags
                &&& post.threads@[t]->0.stack == ts0.stack
                &&& post.threads@[slot] is Some
                &&& post.threads@[slot]->0.regs@.len() == 16
                &&& post.threads@[slot]->0.regs@[0] == target
                &&& post.threads@[slot]->0.regs@[1] == pre.base
                &&& post.threads@[slot]->0.flags == 0
            } else {
                &&& r == Result::<StepEvent, VmError>::Err(VmError::AddressSpaceExhausted)
                &&& thread_local_post(pre, post, t, advance(regs0, 8), ts0.flags)
            }
        },
        Instr::Ret => {
            let fp = regs0[2];
            let ok = {
                &&& ts0.can_access(m0.len(), fp.wrapping_add(8), 8)
                &&& ts0.can_access(m0.len(), fp.wrapping_add(16), 8)
                &&& ts0.can_access(m0.len(), fp.wrapping_add(24), 8)
                &&& ts0.can_access(m0.len(), fp.wrapping_add(32), 8)
                &&& ts0.can_access(m0.len(), fp.wrapping_add(40), 8)
                &&& ts0.can_access(m0.len(), fp.wrapping_add(48), 8)
                &&& ts0.can_access(m0.len(), fp.wrapping_add(56), 8)
                &&& ts0.can_access(m0.len(), fp.wrapping_add(64), 8)
                &&& ts0.can_access(m0.len(), fp.wrapping_add(72), 8)
                &&& ts0.can_access(m0.len(), fp.wrapping_add(80), 8)
                &&& ts0.can_access(m0.len(), fp.wrapping_add(88), 8)
            };
            if ok {
                let frame = (|k: u64| ts0.spec_abs64(m0, fp.wrapping_add((8 * k) as u64)));
                ok_continue(r) && thread_local_post(
                    pre,
                    post,
                    t,
                    regs0.update(6, frame(11)).update(7, frame(10)).update(8, frame(9)).update(
                        9,
                        frame(8),
                    ).update(10, frame(7)).update(11, frame(6)).update(12, frame(5)).update(
                        13,
                        frame(4),
                    ).update(14, frame(3)).update(15, frame(2)).update(0, frame(1)).update(
                        2,
                        regs0[4].wrapping_add(88),
                    ).update(4, regs0[4].wrapping_add(88)),
                    ts0.flags,
                )
            } else {
                same_state(pre, post) && (r matches Result::Err(e) && e is MemFault)
            }
        },
        Instr::Sub32 { reg, amount } => ok_continue(r) && thread_local_post(
            pre,
            post,
            t,
            advance(
                regs0.update(reg as int, regs0[reg as int].wrapping_sub(amount as u64)),
                8,
            ),
            ts0.flags,
        ),
        Instr::Add32 { reg, amount } => ok_continue(r) && thread_local_post(
            pre,
            post,
            t,
            advance(
                regs0.update(reg as int, regs0[reg as int].wrapping_add(amount as u64)),
                8,
            ),
            ts0.flags,
        ),
        Instr::DropStr { reg } => {
            match crate::values::spec_classify(regs0[reg as int]) {
                crate::values::WordClass::VarStr(h) => {
                    &&& ok_continue(r)
                    &&& others_unchanged(pre, post, t)
                    &&& coord_unchanged(pre, post)
                    &&& post.memory == pre.memory
                    &&& post.heap@ == crate::js_impl::free_if(h0, true, h)
                    &&& post.threads@[t]->0.regs@ == advance(
                        regs0.update(reg as int, STR_SIGNATURE),
                        8,
                    )
                    &&& post.threads@[t]->0.flags == ts0.flags
                    &&& post.threads@[t]->0.stack == ts0.stack
                },
                _ => r == Result::<StepEvent, VmError>::Err(VmError::InvalidOperation)
                    && same_state(pre, post),
            }
        },
        Instr::Elem { dest, arr, idx } => {
            let a = regs0[arr as int];
            let ix = regs0[idx as int];
            if !ts0.can_access(m0.len(), a, 8) {
                r == Result::<StepEvent, VmError>::Err(VmError::MemFault(a)) && same_state(
                    pre,
                    post,
                )
            } else {
                let len = ts0.spec_abs64(m0, a);
                if ix == 0 || ix > len {
                    &&& ok_shutdown(r, ShutdownType::Error)
                    &&& post.threads@ == pre.threads@
                    &&& post.memory == pre.memory
                    &&& post.heap == pre.heap
                    &&& post.shutdown == pre.shutdown
                    &&& post.archive == pre.archive
                    &&& post.base == pre.base
                    &&& post.initial_inst == pre.initial_inst
                    &&& post.counter.counter == pre.counter.counter
                    &&& post.counter.shutdown_type == pre.counter.shutdown_type
                    &&& (post.counter.error_data matches Option::Some(m) && m@ == elem_oob_msg(
                        ix,
                    ))
                } else {
                    let ea = a.wrapping_add(ix.wrapping_mul(8));
                    if ts0.can_access(m0.len(), ea, 8) {
                        ok_continue(r) && thread_local_post(
                            pre,
                            post,
                            t,
                            advance(regs0.update(dest as int, ts0.spec_abs64(m0, ea)), 8),
                            ts0.flags,
                        )
                    } else {
                        r == Result::<StepEvent, VmError>::Err(VmError::MemFault(ea))
                            && same_state(pre, post)
                    }
                }
            }
        },
    }
}

fn take_thread(rt: &mut Runtime, t: usize) -> (ts: ThreadState)
    requires
        (t as int) < old(rt).threads@.len(),
        old(rt).threads@[t as int] is Some,
    ensures
        ts == old(rt).threads@[t as int]->0,
        final(rt).threads@ == old(rt).threads@.update(t as int, Option::<ThreadState>::None),
        final(rt).memory == old(rt).memory,
        final(rt).heap == old(rt).heap,
        final(rt).counter == old(rt).counter,
        final(rt).shutdown == old(rt).shutdown,
        final(rt).archive == old(rt).archive,
        final(rt).base == old(rt).base,
        final(rt).initial_inst == old(rt).initial_inst,
        crate::runtime::live_threads(final(rt).threads@) + 1 == crate::runtime::live_threads(
            old(rt).threads@,
        ),
{
    proof {
        crate::runtime::lemma_live_threads_update_none(rt.threads@, t as int);
    }
    rt.threads[t].take().unwrap()
}

fn put_back(rt: &mut Runtime, t: usize, ts: ThreadState)
    requires
        (t as int) < old(rt).threads@.len(),
        old(rt).threads@[t as int] is None,
    ensures
        final(rt).threads@ == old(rt).threads@.update(t as int, Option::Some(ts)),
        final(rt).memory == old(rt).memory,
        final(rt).heap == old(rt).heap,
        final(rt).counter == old(rt).counter,
        final(rt).shutdown == old(rt).shutdown,
        final(rt).archive == old(rt).archive,
        final(rt).base == old(rt).base,
        final(rt).initial_inst == old(rt).initial_inst,
        crate::runtime::live_threads(final(rt).threads@) == crate::runtime::live_threads(
            old(rt).threads@,
        ) + 1,
{
    proof {
        crate::runtime::lemma_live_threads_update_some(rt.threads@, t as int, ts);
    }
    rt.threads.set(t, Option::Some(ts));
}

/// Register-operand bounds that decoding guarantees.
pub open spec fn instr_wf(i: Instr) -> bool {
    match i {
        Instr::MovRR { dest, src } => dest < 16 && src < 16,
        Instr::MovRRo { dest, base, .. } => dest < 16 && base < 16,
        Instr::MovRoR { base, src, .. } => base < 16 && src < 16,
        Instr::MovRI { dest, .. } => dest < 16,
        Instr::MovRoI { base, .. } => base < 16,
        Instr::Lstr { dest, base, .. } => dest < 16 && base < 16,
        Instr::Arith { dest, src, .. } => dest < 16 && src < 16,
        Instr::Cmp { lhs, rhs, .. } => lhs < 16 && rhs < 16,
        Instr::PushR { src } => src < 16,
        Instr::Pop { dest } => dest < 16,
        Instr::Sub32 { reg, .. } => reg < 16,
        Instr::Add32 { reg, .. } => reg < 16,
        Instr::DropStr { reg } => reg < 16,
        Instr::Elem { dest, arr, idx } => dest < 16 && arr < 16 && idx < 16,
        _ => true,
    }
}

/// Whatever decodes is well formed.
pub proof fn lemma_decode_instr_wf(m: Seq<u8>, ip: u64)
    ensures
        crate::instr::spec_decode(m, ip) matches Result::Ok(i) ==> instr_wf(i),
{
}

fn step_regs(rt: &mut Runtime, t: usize, i: Instr) -> (r: Result<StepEvent, VmError>)
    requires
        old(rt).wf(),
        (t as int) < old(rt).threads@.len(),
        old(rt).threads@[t as int] is Some,
        instr_wf(i),
        i is MovRR || i is MovRI || i is Lstr || i is Jt || i is Jmp || i is Sub32 || i is Add32,
    ensures
        final(rt).wf(),
        step_post(*old(rt), *final(rt), t as int, i, Option::None, r),
{
    let mut ts = take_thread(rt, t);
    match i {
        Instr::MovRR { dest, src } => {
            let v = ts.get_reg(src);
            ts.set_reg(dest, v);
            ts.inc_inst(8);
        },
        Instr::MovRI { dest, imm } => {
            ts.set_reg(dest, imm);
            ts.inc_inst(16);
        },
        Instr::Lstr { dest, base, offset } => {
            let a = ts.get_reg(base).wrapping_add((offset as u64) * 8);
            let w = crate::values::const_str_word(a);
            ts.set_reg(dest, w);
            ts.inc_inst(8);
        },
        Instr::Jt { addr } => {
            if ts.get_flag(0) {
                ts.set_reg32(0, addr);
            } else {
                ts.inc_inst(8);
            }
        },
        Instr::Jmp { addr } => {
            ts.set_reg32(0, addr);
        },
        Instr::Sub32 { reg, amount } => {
            ts.sub32(reg, amount);
            ts.inc_inst(8);
        },
        Instr::Add32 { reg, amount } => {
            ts.add32(reg, amount);
            ts.inc_inst(8);
        },
        _ => {},
    }
    put_back(rt, t, ts);
    Result::Ok(StepEvent::Continue)
}

fn step_mem(rt: &mut Runtime, t: usize, i: Instr) -> (r: Result<StepEvent, VmError>)
    requires
        old(rt).wf(),
        (t as int) < old(rt).threads@.len(),
        old(rt).threads@[t as int] is Some,
        instr_wf(i),
        i is MovRRo || i is MovRoR || i is MovRoI || i is PushR || i is PushI || i is Pop,
    ensures
        final(rt).wf(),
        step_post(*old(rt), *final(rt), t as int, i, Option::None, r),
{
    let ghost pre = *rt;
    let mut ts = take_thread(rt, t);
    let outcome: Result<(), VmError> = match i {
        Instr::MovRRo { dest, base, offset } => {
            let a = ts.get_reg(base).wrapping_add((offset as u64) * 8);
            match ts.get_mem_absolute(&rt.memory, a) {
                Result::Ok(v) => {
                    ts.set_reg(dest, v);
                    ts.inc_inst(8);
                    Result::Ok(())
                },
                Result::Err(e) => Result::Err(e),
            }
        },
        Instr::MovRoR { base, src, offset } => {
            let a = ts.get_reg(base).wrapping_add((offset as u64) * 8);
            let v = ts.get_reg(src);
            match ts.set_mem_absolute(&mut rt.memory, a, v) {
                Result::Ok(_) => {
                    ts.inc_inst(8);
                    Result::Ok(())
                },
                Result::Err(e) => Result::Err(e),
            }
        },
        Instr::MovRoI { base, offset, imm } => {
            let a = ts.get_reg(base).wrapping_add((offset as u64) * 8);
            match ts.set_mem_absolute(&mut rt.memory, a, imm) {
                Result::Ok(_) => {
                    ts.inc_inst(16);
                    Result::Ok(())
                },
                Result::Err(e) => Result::Err(e),
            }
        },
        Instr::PushR { src } => {
            let v = ts.get_reg(src);
            match ts.push(&mut rt.memory, v) {
                Result::Ok(_) => {
                    ts.inc_inst(8);
                    Result::Ok(())
                },
                Result::Err(e) => Result::Err(e),
            }
        },
        Instr::PushI { imm } => {
            match ts.push(&mut rt.memory, imm) {
                Result::Ok(_) => {
                    ts.inc_inst(16);
                    Result::Ok(())
                },
                Result::Err(e) => Result::Err(e),
            }
        },
        Instr::Pop { dest } => {
            match ts.pop(&rt.memory) {
                Result::Ok(v) => {
                    ts.set_reg(dest, v);
                    ts.inc_inst(8);
                    Result::Ok(())
                },
                Result::Err(e) => Result::Err(e),
            }
        },
        _ => Result::Ok(()),
    };
    put_back(rt, t, ts);
    match outcome {
        Result::Ok(_) => Result::Ok(StepEvent::Continue),
        Result::Err(e) => {
            proof {
                assert(rt.threads@ =~= pre.threads@);
            }
            Result::Err(e)
        },
    }
}

fn step_callret(rt: &mut Runtime, t: usize, i: Instr) -> (r: Result<StepEvent, VmError>)
    requires
        old(rt).wf(),
        (t as int) < old(rt).threads@.len(),
        old(rt).threads@[t as int] is Some,
        i is Call || i is Ret,
    ensures
        final(rt).wf(),
        step_post(*old(rt), *final(rt), t as int, i, Option::None, r),
{
    let ghost pre = *rt;
    let mut ts = take_thread(rt, t);
    let outcome: Result<(), VmError> = match i {
        Instr::Call { addr } => exec_call(&mut ts, &mut rt.memory, addr),
        Instr::Ret => exec_ret(&mut ts, &rt.memory),
        _ => Result::Ok(()),
    };
    put_back(rt, t, ts);
    match outcome {
        Result::Ok(_) => Result::Ok(StepEvent::Continue),
        Result::Err(e) => {
            proof {
                assert(rt.threads@ =~= pre.threads@);
            }
            Result::Err(e)
        },
    }
}

fn step_numeric(rt: &mut Runtime, t: usize, i: Instr, num: Option<&NumReply>) -> (r: Result<
    StepEvent,
    VmError,
>)
    requires
        old(rt).wf(),
        (t as int) < old(rt).threads@.len(),
        old(rt).threads@[t as int] is Some,
        instr_wf(i),
        i is Arith || i is Cmp,
    ensures
        final(rt).wf(),
        step_post(*old(rt), *final(rt), t as int, i, num, r),
{
    let ghost pre = *rt;
    let (d, s) = match i {
        Instr::Arith { dest, src, .. } => (dest, src),
        Instr::Cmp { lhs, rhs, .. } => (lhs, rhs),
        _ => (0u8, 0u8),
    };
    let wl = reg_of(rt, t, d);
    let wr = reg_of(rt, t, s);
    let lv = match resolve_of(rt, t, wl) {
        Result::Ok(v) => v,
        Result::Err(e) => {
            return Result::Err(e);
        },
    };
    let rv = match resolve_of(rt, t, wr) {
        Result::Ok(v) => v,
        Result::Err(e) => {
            return Result::Err(e);
        },
    };
    match num {
        Option::None => {
            let op = match i {
                Instr::Arith { op, .. } => NumOp::Arith(op),
                Instr::Cmp { kind, .. } => NumOp::Cmp(
                    if matches!(kind, CmpKind::Ne) {
                        CmpKind::Eq
                    } else {
                        kind
                    },
                ),
                _ => NumOp::Arith(BinOp::Add),
            };
            Result::Ok(
                StepEvent::NeedNum(
                    NumRequest { op, lhs: operand_from(lv), rhs: operand_from(rv) },
                ),
            )
        },
        Option::Some(reply) => {
            let mut ts = take_thread(rt, t);
            match i {
                Instr::Arith { op, .. } => {
                    let outcome = match op {
                        BinOp::Add => crate::js_impl::add(
                            &mut rt.heap,
                            &mut ts,
                            d,
                            s,
                            &lv,
                            &rv,
                            reply,
                        ),
                        _ => {
                            crate::js_impl::arith(&mut rt.heap, &mut ts, d, s, &lv, &rv, reply);
                            Result::Ok(())
                        },
                    };
                    match outcome {
                        Result::Ok(_) => {
                            ts.inc_inst(8);
                            put_back(rt, t, ts);
                            Result::Ok(StepEvent::Continue)
                        },
                        Result::Err(e) => {
                            put_back(rt, t, ts);
                            proof {
                                assert(rt.threads@ =~= pre.threads@);
                            }
                            Result::Err(e)
                        },
                    }
                },
                Instr::Cmp { kind, .. } => {
                    let result = match kind {
                        CmpKind::Eq => crate::js_impl::eq(
                            &mut rt.heap,
                            &mut ts,
                            d,
                            s,
                            &lv,
                            &rv,
                            reply,
                        ),
                        CmpKind::Ne => !crate::js_impl::eq(
                            &mut rt.heap,
                            &mut ts,
                            d,
                            s,
                            &lv,
                            &rv,
                            reply,
                        ),
                        _ => crate::js_impl::order_cmp(
                            &mut rt.heap,
                            &mut ts,
                            d,
                            s,
                            &lv,
                            &rv,
                            reply,
                        ),
                    };
                    ts.set_flag(0, result);
                    ts.inc_inst(8);
                    put_back(rt, t, ts);
                    Result::Ok(StepEvent::Continue)
                },
                _ => {
                    put_back(rt, t, ts);
                    Result::Err(VmError::UnsupportedInstruction)
                },
            }
        },
    }
}

fn step_system(rt: &mut Runtime, t: usize, i: Instr) -> (r: Result<StepEvent, VmError>)
    requires
        old(rt).wf(),
        (t as int) < old(rt).threads@.len(),
        old(rt).threads@[t as int] is Some,
        instr_wf(i),
        i is Int || i is Env || i is Envj || i is Spawn || i is DropStr || i is Elem,
    ensures
        final(rt).wf(),
        step_post(*old(rt), *final(rt), t as int, i, Option::None, r),
{
    let ghost pre = *rt;
    match i {
        Instr::Int { id } => {
            if id == crate::op_codes::INTRINSIC_DEBUG {
                let mut ts = take_thread(rt, t);
                ts.inc_inst(8);
                put_back(rt, t, ts);
                Result::Ok(StepEvent::DebugDump)
            } else if id == crate::op_codes::INTRINSIC_SLEEP {
                let w = reg_of(rt, t, 8);
                let mut ts = take_thread(rt, t);
                ts.inc_inst(8);
                put_back(rt, t, ts);
                match crate::values::classify(w) {
                    crate::values::WordClass::Number => Result::Ok(StepEvent::Sleep(w)),
                    _ => Result::Ok(StepEvent::Continue),
                }
            } else if id == crate::op_codes::INTRINSIC_RESTART {
                let mut ts = take_thread(rt, t);
                ts.inc_inst(8);
                put_back(rt, t, ts);
                Result::Ok(StepEvent::Shutdown(ShutdownType::Restarting))
            } else if id == crate::op_codes::INTRINSIC_THROW {
                let mut ts = take_thread(rt, t);
                ts.inc_inst(8);
                put_back(rt, t, ts);
                rt.set_error_data("Called Intrinsic::Throw".to_owned());
                Result::Ok(StepEvent::Shutdown(ShutdownType::Error))
            } else {
                Result::Err(VmError::UnsupportedIntrinsic)
            }
        },
        Instr::Env { ext, func } => {
            let mut ts = take_thread(rt, t);
            ts.inc_inst(8);
            put_back(rt, t, ts);
            Result::Ok(StepEvent::ExtFunctionCall { ext, func })
        },
        Instr::Envj { ext, func } => {
            let mut ts = take_thread(rt, t);
            ts.inc_inst(8);
            put_back(rt, t, ts);
            Result::Ok(StepEvent::ExtInterruptCall { ext, func })
        },
        Instr::Spawn { addr } => {
            let mut ts = take_thread(rt, t);
            let target = ts.get_reg(1).wrapping_add((addr as u64) * 8);
            ts.inc_inst(8);
            let ghost tsg = ts;
            put_back(rt, t, ts);
            proof {
                assert(rt.threads@ =~= pre.threads@.update(t as int, Option::Some(tsg)));
                crate::runtime::lemma_first_free_update_occupied(pre.threads@, t as int, tsg, 0);
                crate::runtime::lemma_first_free_range(rt.threads@, 0);
            }
            match rt.spawn(target) {
                Result::Ok(new_slot) => {
                    proof {
                        assert(new_slot == crate::runtime::first_free_slot(pre.threads@));
                        assert(step_post(pre, *rt, t as int, i, Option::None, Result::Ok(StepEvent::Continue)));
                    }
                    Result::Ok(StepEvent::Continue)
                },
                Result::Err(e) => {
                    Result::Err(e)
                },
            }
        },
        Instr::DropStr { reg } => {
            let w = reg_of(rt, t, reg);
            match crate::values::classify(w) {
                crate::values::WordClass::VarStr(h) => {
                    rt.heap.free(h);
                    let mut ts = take_thread(rt, t);
                    ts.set_reg(reg, STR_SIGNATURE);
                    ts.inc_inst(8);
                    put_back(rt, t, ts);
                    Result::Ok(StepEvent::Continue)
                },
                _ => Result::Err(VmError::InvalidOperation),
            }
        },
        Instr::Elem { dest, arr, idx } => {
            let a = reg_of(rt, t, arr);
            let ix = reg_of(rt, t, idx);
            let len = match abs64_of(rt, t, a) {
                Result::Ok(v) => v,
                Result::Err(e) => {
                    return Result::Err(e);
                },
            };
            if ix == 0 || ix > len {
                let mut msg = "Array index ".to_owned();
                msg.append(crate::errors::u64_to_string(ix).as_str());
                msg.append(" is out of bounds");
                rt.set_error_data(msg);
                Result::Ok(StepEvent::Shutdown(ShutdownType::Error))
            } else {
                let ea = a.wrapping_add(ix.wrapping_mul(8));
                let v = match abs64_of(rt, t, ea) {
                    Result::Ok(v) => v,
                    Result::Err(e) => {
                        return Result::Err(e);
                    },
                };
                let mut ts = take_thread(rt, t);
                ts.set_reg(dest, v);
                ts.inc_inst(8);
                put_back(rt, t, ts);
                Result::Ok(StepEvent::Continue)
            }
        },
        _ => Result::Err(VmError::UnsupportedInstruction),
    }
}

/// Decode and execute one instruction of thread `t`: the decode/execute
/// loop's body, instanced by the surrounding loop with the configured
/// locking policy. Instructions that need IEEE-754 work return a
/// `NeedNum` request without changing anything; the caller computes the
/// reply and calls `step` again with it. The returned event also tells
/// the embedder about suspensions, extension calls and register dumps;
/// an `Err` is an unrecoverable fault that aborts the whole run.
pub fn step(rt: &mut Runtime, t: usize, num: Option<&NumReply>) -> (r: Result<StepEvent, VmError>)
    requires
        old(rt).wf(),
        (t as int) < old(rt).threads@.len(),
        old(rt).threads@[t as int] is Some,
    ensures
        final(rt).wf(),
        ({
            let pre = *old(rt);
            let post = *final(rt);
            let ts0 = pre.threads@[t as int]->0;
            match crate::instr::spec_decode(pre.memory.bytes@, ts0.regs@[0]) {
                Result::Err(e) => r == Result::<StepEvent, VmError>::Err(e) && same_state(
                    pre,
                    post,
                ),
                Result::Ok(i) => step_post(pre, post, t as int, i, num, r),
            }
        }),
{
    let ip = reg_of(rt, t, 0);
    let instr = match crate::instr::decode(&rt.memory.bytes, ip) {
        Result::Ok(i) => i,
        Result::Err(e) => {
            return Result::Err(e);
        },
    };
    proof {
        lemma_decode_instr_wf(rt.memory.bytes@, ip);
    }
    match instr {
        Instr::End => Result::Ok(StepEvent::Shutdown(ShutdownType::Gracefully)),
        Instr::MovRR { .. } | Instr::MovRI { .. } | Instr::Lstr { .. } | Instr::Jt { .. }
            | Instr::Jmp { .. } | Instr::Sub32 { .. } | Instr::Add32 { .. } => step_regs(
            rt,
            t,
            instr,
        ),
        Instr::MovRRo { .. } | Instr::MovRoR { .. } | Instr::MovRoI { .. } | Instr::PushR {
            ..
        } | Instr::PushI { .. } | Instr::Pop { .. } => step_mem(rt, t, instr),
        Instr::Call { .. } | Instr::Ret => step_callret(rt, t, instr),
        Instr::Arith { .. } | Instr::Cmp { .. } => step_numeric(rt, t, instr, num),
        Instr::Int { .. } | Instr::Env { .. } | Instr::Envj { .. } | Instr::Spawn { .. }
            | Instr::DropStr { .. } | Instr::Elem { .. } => step_system(rt, t, instr),
    }
}

fn abs64_of(rt: &Runtime, t: usize, addr: u64) -> (r: Result<u64, VmError>)
    requires
        rt.wf(),
        (t as int) < rt.threads@.len(),
        rt.threads@[t as int] is Some,
    ensures
        ({
            let ts0 = rt.threads@[t as int]->0;
            &&& (r is Ok <==> ts0.can_access(rt.memory.bytes@.len(), addr, 8))
            &&& (r matches Result::Ok(v) ==> v == ts0.spec_abs64(rt.memory.bytes@, addr))
            &&& (r is Err ==> r == Result::<u64, VmError>::Err(VmError::MemFault(addr)))
        }),
{
    match &rt.threads[t] {
        Option::Some(ts) => ts.get_mem_absolute(&rt.memory, addr),
        Option::None => Result::Err(VmError::MemFault(addr)),
    }
}

/// The loop tail every executor policy shares: a `Shutdown` behaviour
/// records the requested kind, raises the cooperative flag and tears the
/// thread down; a `Continue` tears the thread down only when the
/// cooperative flag was already raised by someone else (without
/// requesting a new shutdown). Returns whether the thread's loop is over,
/// and whether this was the generation's settling thread.
pub fn after_step(rt: &mut Runtime, t: usize, behaviour: ExecutorBehaviour) -> (r: (bool, bool))
    requires
        old(rt).wf(),
        (t as int) < old(rt).threads@.len(),
        old(rt).threads@[t as int] is Some,
    ensures
        final(rt).wf(),
        ({
            let pre = *old(rt);
            let post = *final(rt);
            match behaviour {
                ExecutorBehaviour::Shutdown(kind) => {
                    &&& r.0
                    &&& post.counter.shutdown_type == kind
                    &&& post.shutdown
                    &&& post.threads@ == pre.threads@.update(t as int, Option::<
                        ThreadState,
                    >::None)
                    &&& post.counter.counter == pre.counter.counter - 1
                    &&& (r.1 <==> post.counter.counter == 0)
                },
                ExecutorBehaviour::Continue => {
                    if pre.shutdown {
                        &&& r.0
                        &&& post.threads@ == pre.threads@.update(t as int, Option::<
                            ThreadState,
                        >::None)
                        &&& post.counter.counter == pre.counter.counter - 1
                        &&& post.counter.shutdown_type == pre.counter.shutdown_type
                        &&& (r.1 <==> post.counter.counter == 0)
                    } else {
                        &&& !r.0
                        &&& !r.1
                        &&& post == pre
                    }
                },
            }
        }),
{
    match behaviour {
        ExecutorBehaviour::Shutdown(kind) => {
            rt.shutdown(kind);
            let settled = rt.dispose_thread(t);
            (true, settled)
        },
        ExecutorBehaviour::Continue => {
            if rt.should_stop() {
                let settled = rt.dispose_thread(t);
                (true, settled)
            } else {
                (false, false)
            }
        },
    }
}

/// The bytes after storing the words of `vals` at descending addresses,
/// one slot of eight bytes each, the way consecutive pushes do: `vals[0]`
/// at `off`, `vals[1]` one slot below, and so on.
pub open spec fn store_words(st: Seq<u8>, off: int, vals: Seq<u64>) -> Seq<u8>
    decreases vals.len(),
{
    if vals.len() == 0 {
        st
    } else {
        store_words(store64(st, off, vals[0]), off - 8, vals.drop_first())
    }
}

proof fn lemma_store_words_above(st: Seq<u8>, off: int, vals: Seq<u64>, a: int)
    requires
        8 * vals.len() <= off + 8,
        off + 8 <= st.len(),
        off + 8 <= a < st.len(),
    ensures
        store_words(st, off, vals)[a] == st[a],
        store_words(st, off, vals).len() == st.len(),
    decreases vals.len(),
{
    if vals.len() > 0 {
        crate::wordio::lemma_store64_le64(st, off, vals[0]);
        lemma_store_words_above(store64(st, off, vals[0]), off - 8, vals.drop_first(), a);
    }
}

/// Values pushed in sequence are still in their slots afterwards: the
/// word `k` slots below the first one is `vals[k]`. Together with the
/// contracts of `push` (store at the stack pointer, then move it one
/// slot down) and `pop` (move the pointer one slot up, then read there),
/// this is the stack discipline: popping as many times as one pushed
/// returns the values in last-in-first-out order and leaves the stack
/// pointer where it started.
pub proof fn lemma_pushed_words_read_back(st: Seq<u8>, off: int, vals: Seq<u64>, k: int)
    requires
        0 <= k < vals.len(),
        8 * vals.len() <= off + 8,
        off + 8 <= st.len(),
    ensures
        le64(store_words(st, off, vals), off - 8 * k) == vals[k],
    decreases k,
{
    let st1 = store64(st, off, vals[0]);
    crate::wordio::lemma_store64_le64(st, off, vals[0]);
    if k == 0 {
        assert forall|a: int| off <= a < off + 8 implies store_words(st1, off - 8, vals.drop_first())[a]
            == st1[a] by {
            lemma_store_words_above(st1, off - 8, vals.drop_first(), a);
        }
        if vals.len() > 1 {
            lemma_store_words_above(st1, off - 8, vals.drop_first(), off);
        }
    } else {
        lemma_pushed_words_read_back(st1, off - 8, vals.drop_first(), k - 1);
    }
}

/// A CALL followed by a RET restores the ten callee-saved registers and
/// resumes at the saved return address plus one slot, with the stack and
/// frame pointers both back at the caller's stack pointer. When the
/// caller's frame pointer already equalled its stack pointer — the
/// calling convention's steady state, since CALL itself sets the frame
/// pointer that way — the frame pointer is restored exactly.
pub proof fn lemma_call_ret_round_trip(
    s0: Runtime,
    s1: Runtime,
    s2: Runtime,
    t: int,
    addr: u32,
    r1: Result<StepEvent, VmError>,
    r2: Result<StepEvent, VmError>,
)
    requires
        0 <= t < s0.threads@.len(),
        s0.threads@[t] is Some,
        s0.threads@[t]->0.regs@.len() == 16,
        call_frame_fits(s0.threads@[t]->0, s0.memory.bytes@.len()),
        step_post(s0, s1, t, Instr::Call { addr }, Option::None, r1),
        s1.threads@[t] is Some,
        step_post(s1, s2, t, Instr::Ret, Option::None, r2),
        r2 is Ok,
    ensures
        forall|i: int| 6 <= i < 16 ==> s2.threads@[t]->0.regs@[i] == s0.threads@[t]->0.regs@[i],
        s2.threads@[t]->0.regs@[0] == s0.threads@[t]->0.regs@[0].wrapping_add(8),
        s2.threads@[t]->0.regs@[4] == s0.threads@[t]->0.regs@[4],
        s2.threads@[t]->0.regs@[2] == s0.threads@[t]->0.regs@[4],
        s0.threads@[t]->0.regs@[2] == s0.threads@[t]->0.regs@[4] ==> s2.threads@[t]->0.regs@[2]
            == s0.threads@[t]->0.regs@[2],
{
    let ts0 = s0.threads@[t]->0;
    let regs0 = ts0.regs@;
    let sp = regs0[4];
    let ts1 = s1.threads@[t]->0;
    let regs1 = ts1.regs@;
    let m1 = s1.memory.bytes@;
    assert(regs1[2] == sp - 88);
    assert(regs1[4] == sp - 88);
    let fp = regs1[2];
    assert(fp.wrapping_add(8) == sp - 80) by (bit_vector)
        requires
            fp == sp - 88,
            sp >= 88,
    ;
    assert(fp.wrapping_add(16) == sp - 72) by (bit_vector)
        requires
            fp == sp - 88,
            sp >= 88,
    ;
    assert(fp.wrapping_add(24) == sp - 64) by (bit_vector)
        requires
            fp == sp - 88,
            sp >= 88,
    ;
    assert(fp.wrapping_add(32) == sp - 56) by (bit_vector)
        requires
            fp == sp - 88,
            sp >= 88,
    ;
    assert(fp.wrapping_add(40) == sp - 48) by (bit_vector)
        requires
            fp == sp - 88,
            sp >= 88,
    ;
    assert(fp.wrapping_add(48) == sp - 40) by (bit_vector)
        requires
            fp == sp - 88,
            sp >= 88,
    ;
    assert(fp.wrapping_add(56) == sp - 32) by (bit_vector)
        requires
            fp == sp - 88,
            sp >= 88,
    ;
    assert(fp.wrapping_add(64) == sp - 24) by (bit_vector)
        requires
            fp == sp - 88,
            sp >= 88,
    ;
    assert(fp.wrapping_add(72) == sp - 16) by (bit_vector)
        requires
            fp == sp - 88,
            sp >= 88,
    ;
    assert(fp.wrapping_add(80) == sp - 8) by (bit_vector)
        requires
            fp == sp - 88,
            sp >= 88,
    ;
    assert(fp.wrapping_add(88) == sp) by (bit_vector)
        requires
            fp == sp - 88,
            sp >= 88,
    ;
    let sp1 = regs1[4];
    assert(sp1.wrapping_add(88) == sp) by (bit_vector)
        requires
            sp1 == sp - 88,
            sp >= 88,
    ;
}

/// A PUSHR followed by a POP hands the pushed register's word back and
/// leaves the stack pointer where it started: one round of the stack
/// discipline, stated over the machine's own transition relation.
pub proof fn lemma_push_pop_round_trip(
    s0: Runtime,
    s1: Runtime,
    s2: Runtime,
    t: int,
    src: u8,
    dest: u8,
    r1: Result<StepEvent, VmError>,
    r2: Result<StepEvent, VmError>,
)
    requires
        0 <= t < s0.threads@.len(),
        s0.threads@[t] is Some,
        s0.threads@[t]->0.regs@.len() == 16,
        src < 16,
        dest < 16,
        dest != 4,
        dest != 0,
        step_post(s0, s1, t, Instr::PushR { src }, Option::None, r1),
        r1 is Ok,
        s1.threads@[t] is Some,
        step_post(s1, s2, t, Instr::Pop { dest }, Option::None, r2),
        r2 is Ok,
    ensures
        s2.threads@[t]->0.regs@[dest as int] == s0.threads@[t]->0.regs@[src as int],
        s2.threads@[t]->0.regs@[4] == s0.threads@[t]->0.regs@[4],
{
    let ts0 = s0.threads@[t]->0;
    let m0 = s0.memory.bytes@;
    let sp0 = ts0.regs@[4];
    let v = ts0.regs@[src as int];
    let ts1 = s1.threads@[t]->0;
    let m1 = s1.memory.bytes@;
    assert(ts1.regs@[4] == sp0.wrapping_sub(8));
    let sp1 = ts1.regs@[4];
    assert(sp1.wrapping_add(8) == sp0) by (bit_vector)
        requires
            sp1 == sp0.wrapping_sub(8),
    ;
    if in_mem(m0.len(), sp0, 8) {
        crate::wordio::lemma_store64_le64(m0, sp0 as int, v);
        assert(ts1.spec_abs64(m1, sp0) == v);
    } else {
        crate::wordio::lemma_store64_le64(ts0.stack.bytes@, sp0 - ts0.stack.base, v);
        assert(ts1.spec_abs64(m1, sp0) == v);
    }
}

} // verus!
