//! Laws of the device lifecycle, stated over traces of operations.
//!
//! A trace is a sequence of the operations a caller can perform on a
//! capture device after initialization. A trace is admissible when every
//! operation is performed in a state that permits it — exactly the
//! preconditions of the corresponding `Device` methods, whose
//! postconditions are the step functions used here. The lemmas below
//! therefore hold of every sequence of calls on a `Device`.

use vstd::prelude::*;

use crate::config::SAMPLE_BYTES;
use crate::device::{
    capture_step, start_step, stop_step, uninit_step, DeviceModel, DeviceState,
};

verus! {

/// One operation on a capture device, with the event it carries: the
/// native status code for start and stop requests, the captured block for
/// one callback invocation.
pub enum DeviceOp {
    Start(i32),
    Stop(i32),
    Capture(Seq<u8>),
    Uninit,
}

/// Whether the device's state permits the operation: the preconditions of
/// the corresponding `Device` methods.
pub open spec fn op_enabled(m: DeviceModel, op: DeviceOp) -> bool {
    match op {
        DeviceOp::Start(_) => m.state != DeviceState::Uninitialized,
        DeviceOp::Stop(_) => m.state != DeviceState::Uninitialized,
        DeviceOp::Capture(block) => m.state == DeviceState::Started && block.len() % (
        SAMPLE_BYTES as nat) == 0,
        DeviceOp::Uninit => m.state != DeviceState::Uninitialized,
    }
}

/// The device after the operation: the postconditions of the
/// corresponding `Device` methods.
pub open spec fn op_step(m: DeviceModel, op: DeviceOp) -> DeviceModel {
    match op {
        DeviceOp::Start(status) => start_step(m, status),
        DeviceOp::Stop(status) => stop_step(m, status),
        DeviceOp::Capture(block) => capture_step(m, block),
        DeviceOp::Uninit => uninit_step(m),
    }
}

/// The device after a whole trace.
pub open spec fn run_trace(m: DeviceModel, ops: Seq<DeviceOp>) -> DeviceModel
    decreases ops.len(),
{
    if ops.len() == 0 {
        m
    } else {
        run_trace(op_step(m, ops.first()), ops.drop_first())
    }
}

/// Whether every operation of the trace is performed in a state that
/// permits it.
pub open spec fn trace_admissible(m: DeviceModel, ops: Seq<DeviceOp>) -> bool
    decreases ops.len(),
{
    ops.len() == 0 || (op_enabled(m, ops.first()) && trace_admissible(
        op_step(m, ops.first()),
        ops.drop_first(),
    ))
}

/// How many teardown operations the trace holds.
pub open spec fn uninit_count(ops: Seq<DeviceOp>) -> nat
    decreases ops.len(),
{
    if ops.len() == 0 {
        0
    } else {
        (if ops.first() is Uninit {
            1nat
        } else {
            0nat
        }) + uninit_count(ops.drop_first())
    }
}

/// Every prefix of an admissible trace is admissible, so the lemmas below
/// speak of every moment of a device's life, not only of its end.
pub proof fn lemma_admissible_prefix(m: DeviceModel, ops: Seq<DeviceOp>, n: int)
    requires
        trace_admissible(m, ops),
        0 <= n <= ops.len(),
    ensures
        trace_admissible(m, ops.take(n)),
    decreases ops.len(),
{
    if n != 0 && ops.len() != 0 {
        assert(ops.take(n).first() == ops.first());
        assert(ops.take(n).drop_first() =~= ops.drop_first().take(n - 1));
        lemma_admissible_prefix(op_step(m, ops.first()), ops.drop_first(), n - 1);
    }
}

/// One permitted operation preserves the lifecycle invariants.
pub proof fn lemma_op_preserves_wf(m: DeviceModel, op: DeviceOp)
    requires
        m.wf(),
        op_enabled(m, op),
    ensures
        op_step(m, op).wf(),
{
    match op {
        DeviceOp::Capture(block) => {
            vstd::arithmetic::div_mod::lemma_add_mod_noop(
                m.buffer.len() as int,
                block.len() as int,
                SAMPLE_BYTES as int,
            );
        },
        _ => {},
    }
}

/// Every admissible trace preserves the lifecycle invariants: in
/// particular, at every moment the captured buffer's length is a multiple
/// of the sample size, and the callback state is held exactly as long as
/// the device is not torn down.
pub proof fn lemma_trace_preserves_wf(m: DeviceModel, ops: Seq<DeviceOp>)
    requires
        m.wf(),
        trace_admissible(m, ops),
    ensures
        run_trace(m, ops).wf(),
    decreases ops.len(),
{
    if ops.len() != 0 {
        lemma_op_preserves_wf(m, ops.first());
        lemma_trace_preserves_wf(op_step(m, ops.first()), ops.drop_first());
    }
}

/// The buffer never holds a fraction of a sample: after any admissible
/// trace from a well-formed device, its length is a multiple of
/// `SAMPLE_BYTES`.
pub proof fn lemma_buffer_whole_samples(m: DeviceModel, ops: Seq<DeviceOp>)
    requires
        m.wf(),
        trace_admissible(m, ops),
    ensures
        run_trace(m, ops).buffer.len() % (SAMPLE_BYTES as nat) == 0,
{
    lemma_trace_preserves_wf(m, ops);
}

/// The callback state is never released while the device is
/// `Initialized`, `Started` or `Stopped`: after any admissible trace from
/// a well-formed device, the device holds its callback state exactly as
/// long as it has not reached `Uninitialized`.
pub proof fn lemma_callback_held_until_teardown(m: DeviceModel, ops: Seq<DeviceOp>)
    requires
        m.wf(),
        trace_admissible(m, ops),
    ensures
        run_trace(m, ops).state != DeviceState::Uninitialized ==> run_trace(
            m,
            ops,
        ).callback_held,
        run_trace(m, ops).state == DeviceState::Uninitialized ==> !run_trace(
            m,
            ops,
        ).callback_held,
{
    lemma_trace_preserves_wf(m, ops);
}

/// `Uninitialized` is terminal: no operation is permitted on a torn-down
/// device, so an admissible trace from it is empty.
pub proof fn lemma_uninitialized_is_terminal(m: DeviceModel, ops: Seq<DeviceOp>)
    requires
        m.state == DeviceState::Uninitialized,
        trace_admissible(m, ops),
    ensures
        ops.len() == 0,
{
}

/// Teardown happens exactly once in a device's life, regardless of how
/// many start and stop requests the trace holds: an admissible trace from
/// a live device tears it down at most once, and it ends torn down
/// exactly when it holds that one teardown.
pub proof fn lemma_teardown_exactly_once(m: DeviceModel, ops: Seq<DeviceOp>)
    requires
        m.state != DeviceState::Uninitialized,
        trace_admissible(m, ops),
    ensures
        uninit_count(ops) <= 1,
        run_trace(m, ops).state == DeviceState::Uninitialized <==> uninit_count(ops) == 1,
    decreases ops.len(),
{
    if ops.len() != 0 {
        let stepped = op_step(m, ops.first());
        if ops.first() is Uninit {
            lemma_uninitialized_is_terminal(stepped, ops.drop_first());
        } else {
            assert(stepped.state != DeviceState::Uninitialized);
            lemma_teardown_exactly_once(stepped, ops.drop_first());
        }
    }
}

/// A start request immediately followed by a stop request, with no
/// callback invocation in between, leaves the captured buffer as it was:
/// from a freshly initialized device, whose buffer is empty, it yields a
/// buffer of length zero, whatever status codes the backend returned.
pub proof fn lemma_immediate_stop_keeps_buffer(
    m: DeviceModel,
    start_status: i32,
    stop_status: i32,
)
    requires
        m.state != DeviceState::Uninitialized,
    ensures
        trace_admissible(m, seq![DeviceOp::Start(start_status), DeviceOp::Stop(stop_status)]),
        run_trace(
            m,
            seq![DeviceOp::Start(start_status), DeviceOp::Stop(stop_status)],
        ).buffer == m.buffer,
        m.buffer.len() == 0 ==> run_trace(
            m,
            seq![DeviceOp::Start(start_status), DeviceOp::Stop(stop_status)],
        ).buffer.len() == 0,
{
    let ops = seq![DeviceOp::Start(start_status), DeviceOp::Stop(stop_status)];
    let rest = ops.drop_first();
    assert(ops.first() == DeviceOp::Start(start_status));
    assert(rest.first() == DeviceOp::Stop(stop_status));
    let m1 = op_step(m, ops.first());
    let m2 = op_step(m1, rest.first());
    assert(rest.drop_first() =~= Seq::<DeviceOp>::empty());
    assert(m1.state != DeviceState::Uninitialized);
    assert(trace_admissible(m2, rest.drop_first()));
    assert(trace_admissible(m1, rest));
    assert(trace_admissible(m, ops));
    assert(run_trace(m2, rest.drop_first()) == m2);
    assert(run_trace(m1, rest) == m2);
    assert(run_trace(m, ops) == m2);
    assert(m2.buffer == m.buffer);
}

} // verus!
