//! The machine's cross-cutting guarantees, each stated once over the step
//! relation and the slot table and proved from what the components ensure.

use vstd::prelude::*;

use crate::assembler::decode_inst;
use crate::base::RuntimeStatusError;
use crate::executors::ExecutorLike;
use crate::instruction::CRTOpCode;
use crate::slots::{SlotTable, SLOT_COUNT};
use crate::vm::{
    lazy_pops_ok, seq_count, step_post, wrote_and_enrolled, VM,
};

verus! {

/// Whether the next instruction's effect is computed by the machine itself,
/// with no backend and no randomness in the loop: the module prefix, the
/// control and constant instructions, and the shape-changing operations.
pub open spec fn machine_computed(b: Seq<u8>) -> bool {
    &&& b.len() > 0
    &&& (b[0] == CRTOpCode::DEVAT.byte_spec() || match decode_inst(b) {
        None => true,
        Some((iv, c)) => match iv.code() {
            CRTOpCode::HALT | CRTOpCode::NOOP | CRTOpCode::ILLEGAL | CRTOpCode::LOAD
                | CRTOpCode::CONSTI32 | CRTOpCode::CONSTF32 | CRTOpCode::CONSTTENSOR
                | CRTOpCode::SVALUETENSOR | CRTOpCode::RESHAPE | CRTOpCode::TRANSPOSE
                | CRTOpCode::RETV => true,
            _ => false,
        },
    })
}

/// Determinism of the machine-computed fragment: two steps taken from equal
/// states report the same status, and when they continue they agree on the
/// program counter, the registers, the device affinity, every slot's tensor
/// and every slot's signal queue.  An instruction that goes through a
/// backend port or draws randomness is excluded: its result is the
/// backend's.
pub proof fn lemma_step_deterministic<E: ExecutorLike>(
    pre: VM<E>,
    post1: VM<E>,
    r1: Result<u8, RuntimeStatusError>,
    post2: VM<E>,
    r2: Result<u8, RuntimeStatusError>,
    lazy: bool,
)
    requires
        pre.wf(),
        pre.program_counter < pre.inst_buffer@.len(),
        machine_computed(pre.tape()),
        step_post(pre, post1, r1, lazy),
        step_post(pre, post2, r2, lazy),
    ensures
        r1 == r2,
        r1 matches Ok(c) ==> {
            &&& post1.program_counter == post2.program_counter
            &&& post1.registers@ == post2.registers@
            &&& post1.device_affinity == post2.device_affinity
            &&& forall|s: int|
                0 <= s < SLOT_COUNT ==> #[trigger] post1.slot_table.tensor_spec(s)
                    == post2.slot_table.tensor_spec(s)
            &&& forall|s: int|
                0 <= s < SLOT_COUNT ==> #[trigger] post1.slot_table.signals_spec(s)
                    == post2.slot_table.signals_spec(s)
        },
{
    reveal(crate::vm::step_post);
    let b = pre.tape();
    if b[0] == CRTOpCode::DEVAT.byte_spec() {
    } else {
        match decode_inst(b) {
            None => {
            },
            Some((iv, c)) => {
                match iv.code() {
                    CRTOpCode::HALT | CRTOpCode::NOOP | CRTOpCode::ILLEGAL | CRTOpCode::LOAD => {
                    },
                    CRTOpCode::CONSTI32 | CRTOpCode::CONSTF32 | CRTOpCode::CONSTTENSOR
                        | CRTOpCode::SVALUETENSOR | CRTOpCode::RESHAPE | CRTOpCode::TRANSPOSE
                        | CRTOpCode::RETV => {
                    },
                    _ => {
                        assert(false);
                    },
                }
            },
        }
    }
}

/// Shape preservation: a continuing elementwise step leaves the output
/// slot with the left operand's shape and element type; a unary step with
/// its input's; a shape-changing step preserves the element count; a
/// matrix multiply combines the operand shapes.
pub proof fn lemma_step_shape_preservation<E: ExecutorLike>(
    pre: VM<E>,
    post: VM<E>,
    lazy: bool,
)
    requires
        pre.wf(),
        pre.program_counter < pre.inst_buffer@.len(),
        step_post(pre, post, Ok(0u8), lazy),
    ensures
        decode_inst(pre.tape()) matches Some((iv, c)) ==> {
            let out = iv.operand1->Some_0->Variable_symbol as int;
            &&& (iv.code().is_elementwise_binary() ==> {
                let lsl = iv.operand2->Some_0->Variable_symbol as int;
                &&& pre.slot_table.tensor_spec(lsl) is Some
                &&& post.slot_table.tensor_spec(out) is Some
                &&& post.slot_table.tensor_spec(out)->Some_0.shape_spec()
                    == pre.slot_table.tensor_spec(lsl)->Some_0.shape_spec()
                &&& post.slot_table.tensor_spec(out)->Some_0.dtype_spec()
                    == pre.slot_table.tensor_spec(lsl)->Some_0.dtype_spec()
            })
            &&& (iv.code().is_unary_op() ==> {
                let inp = iv.operand2->Some_0->Variable_symbol as int;
                &&& pre.slot_table.tensor_spec(inp) is Some
                &&& post.slot_table.tensor_spec(out) is Some
                &&& post.slot_table.tensor_spec(out)->Some_0.shape_spec()
                    == pre.slot_table.tensor_spec(inp)->Some_0.shape_spec()
            })
            &&& (iv.code() == CRTOpCode::MATMULF32 ==> {
                let lsl = iv.operand2->Some_0->Variable_symbol as int;
                let rsl = iv.operand3->Some_0->Variable_symbol as int;
                &&& pre.slot_table.tensor_spec(lsl) is Some
                &&& pre.slot_table.tensor_spec(rsl) is Some
                &&& post.slot_table.tensor_spec(out) is Some
                &&& crate::executors::matmul_compatible(
                    pre.slot_table.tensor_spec(lsl)->Some_0.shape_spec(),
                    pre.slot_table.tensor_spec(rsl)->Some_0.shape_spec(),
                )
                &&& post.slot_table.tensor_spec(out)->Some_0.shape_spec()
                    == crate::executors::matmul_shape(
                    pre.slot_table.tensor_spec(lsl)->Some_0.shape_spec(),
                    pre.slot_table.tensor_spec(rsl)->Some_0.shape_spec(),
                )
            })
            &&& (iv.code().is_dma_op() ==> {
                let inp = iv.operand2->Some_0->Variable_symbol as int;
                let dims = iv.operand3->Some_0->Shape_dims;
                &&& pre.slot_table.tensor_spec(inp) is Some
                &&& post.slot_table.tensor_spec(out) is Some
                &&& post.slot_table.tensor_spec(out)->Some_0.shape_spec() == dims
                &&& post.slot_table.tensor_spec(out)->Some_0.len_spec()
                    == pre.slot_table.tensor_spec(inp)->Some_0.len_spec()
            })
        },
{
    reveal(crate::vm::step_post);
    let b = pre.tape();
    if b[0] == CRTOpCode::DEVAT.byte_spec() {
        crate::assembler::lemma_decode_inst_devat(b);
    } else {
        match decode_inst(b) {
            Some((iv, c)) => {
                if iv.code().is_dma_op() {
                    let inp = iv.operand2->Some_0->Variable_symbol as int;
                    let dims = iv.operand3->Some_0->Shape_dims;
                    let itv = pre.slot_table.tensor_spec(inp)->Some_0;
                    assert(crate::vm::reshaped(itv, dims).len_spec() == itv.len_spec());
                }
            },
            None => {
            },
        }
    }
}

/// Ready-signal discipline of a continuing lazy step: every input slot the
/// instruction reads still owed a signal, that signal had been fired by
/// its producer, and the step removed exactly the front of each input
/// queue while installing a fresh batch on the output queue.
pub proof fn lemma_lazy_signal_discipline<E: ExecutorLike>(
    pre: VM<E>,
    post: VM<E>,
)
    requires
        pre.wf(),
        pre.program_counter < pre.inst_buffer@.len(),
        step_post(pre, post, Ok(0u8), true),
    ensures
        decode_inst(pre.tape()) matches Some((iv, c)) ==> {
            let out = iv.operand1->Some_0->Variable_symbol as int;
            &&& (iv.code().is_unary_op() || iv.code().is_dma_op() ==> {
                let inp = iv.operand2->Some_0->Variable_symbol as int;
                &&& pre.slot_table.signals_spec(inp).len() > 0
                &&& pre.slot_table.signals_spec(inp)[0].fired
                &&& (inp != out ==> post.slot_table.signals_spec(inp)
                    == pre.slot_table.signals_spec(inp).skip(1))
            })
            &&& (iv.code().is_binary_op() ==> {
                let lsl = iv.operand2->Some_0->Variable_symbol as int;
                let rsl = iv.operand3->Some_0->Variable_symbol as int;
                &&& pre.slot_table.signals_spec(lsl).len() > 0
                &&& pre.slot_table.signals_spec(lsl)[0].fired
                &&& (lsl == rsl ==> pre.slot_table.signals_spec(lsl).len() >= 2
                    && pre.slot_table.signals_spec(lsl)[1].fired)
            })
        },
{
    reveal(crate::vm::step_post);
    let b = pre.tape();
    if b[0] == CRTOpCode::DEVAT.byte_spec() {
        crate::assembler::lemma_decode_inst_devat(b);
    } else {
        match decode_inst(b) {
            Some((iv, c)) => {
                if iv.code().is_unary_op() || iv.code().is_dma_op() {
                    let inp = iv.operand2->Some_0->Variable_symbol as int;
                    let out = iv.operand1->Some_0->Variable_symbol as int;
                    let pops = seq![inp];
                    assert(lazy_pops_ok(pre.slot_table, pops));
                    crate::vm::lemma_seq_count1(inp, inp);
                    assert(seq_count(pops, inp) == 1);
                    if inp != out {
                        crate::vm::lemma_seq_count1(inp, inp);
                    }
                } else if iv.code().is_binary_op() {
                    let lsl = iv.operand2->Some_0->Variable_symbol as int;
                    let rsl = iv.operand3->Some_0->Variable_symbol as int;
                    let pops = seq![lsl, rsl];
                    assert(lazy_pops_ok(pre.slot_table, pops));
                    crate::vm::lemma_seq_count2(lsl, rsl, lsl);
                    crate::vm::lemma_seq_count2(lsl, rsl, rsl);
                }
            },
            None => {
            },
        }
    }
}

/// After a module return, no signal remains in any queue but the returned
/// slot's, and that queue has lost exactly the one signal the return
/// consumed — which its producer had fired.
pub proof fn lemma_retv_discipline<E: ExecutorLike>(
    pre: VM<E>,
    post: VM<E>,
    lazy: bool,
)
    requires
        pre.wf(),
        pre.program_counter < pre.inst_buffer@.len(),
        step_post(pre, post, Ok(2u8), lazy),
    ensures
        decode_inst(pre.tape()) matches Some((iv, c)) ==> (iv.code() == CRTOpCode::RETV ==> {
            let ret = iv.operand1->Some_0->Variable_symbol as int;
            &&& pre.slot_table.signals_spec(ret).len() > 0
            &&& pre.slot_table.signals_spec(ret)[0].fired
            &&& post.slot_table.signals_spec(ret) == pre.slot_table.signals_spec(ret).skip(1)
            &&& post.slot_table.tensor_spec(ret) == pre.slot_table.tensor_spec(ret)
            &&& forall|s: int|
                0 <= s < SLOT_COUNT && s != ret ==> #[trigger] post.slot_table.tensor_spec(s)
                    is None
            &&& forall|s: int|
                0 <= s < SLOT_COUNT && s != ret ==> (#[trigger] post.slot_table.signals_spec(
                    s,
                )).len() == 0
        }),
{
    reveal(crate::vm::step_post);
    let b = pre.tape();
    if b[0] == CRTOpCode::DEVAT.byte_spec() {
        crate::assembler::lemma_decode_inst_devat(b);
    }
}

/// Redefinition safety: writing a slot replaces its tensor and its whole
/// signal queue; none of the fresh signals can be confused with a signal
/// of the slot's earlier definition, so a consumer that already removed an
/// old signal is unaffected.
pub proof fn lemma_redefinition_safety(
    pre: SlotTable,
    post: SlotTable,
    out: int,
    tv: crate::tensors::TensorVal,
    n: nat,
)
    requires
        pre.wf(),
        0 <= out < SLOT_COUNT,
        wrote_and_enrolled(pre, post, out, tv, n),
    ensures
        post.tensor_spec(out) == Some(tv),
        forall|i: int, j: int|
            0 <= i < post.signals_spec(out).len() && 0 <= j < pre.signals_spec(out).len() ==> (
            #[trigger] post.signals_spec(out)[i]).id != (#[trigger] pre.signals_spec(out)[j]).id,
{
    pre.lemma_wf_ids_below(out);
}

} // verus!

verus! {

/// A failing step destroys nothing: when a run ends in an error, every
/// slot still holds exactly what it held before the failing step — the
/// writes of all earlier steps survive.
pub proof fn lemma_failed_run_preserves_tensors<E: ExecutorLike>(
    pre: VM<E>,
    post: VM<E>,
    r: Result<u8, RuntimeStatusError>,
    steps: Seq<(VM<E>, Result<u8, RuntimeStatusError>)>,
    lazy: bool,
)
    requires
        crate::vm::run_post(pre, post, r, lazy, steps),
        r is Err,
    ensures
        steps.len() > 0,
        crate::vm::tensors_unchanged(steps.last().0.slot_table, post.slot_table),
{
    reveal(crate::vm::step_post);
    let s0 = steps.last().0;
    assert(step_post(s0, post, steps.last().1, lazy));
    let b = s0.tape();
    if b[0] == CRTOpCode::DEVAT.byte_spec() {
    } else {
        match decode_inst(b) {
            None => {
            },
            Some((iv, c)) => {
            },
        }
    }
}

/// The signal discipline over a whole lazy run: every continuing step of
/// the chain a run leaves behind obeyed the per-step discipline — its
/// input slots still owed fired signals and lost exactly their fronts.
pub proof fn lemma_run_lazy_discipline<E: ExecutorLike>(
    pre: VM<E>,
    post: VM<E>,
    steps: Seq<(VM<E>, Result<u8, RuntimeStatusError>)>,
    i: int,
)
    requires
        crate::vm::run_seq_ok(pre, post, steps, true),
        0 <= i < steps.len(),
        steps[i].1 == Ok::<u8, RuntimeStatusError>(0u8),
    ensures
        decode_inst(steps[i].0.tape()) matches Some((iv, c)) ==> {
            let out = iv.operand1->Some_0->Variable_symbol as int;
            &&& (iv.code().is_unary_op() || iv.code().is_dma_op() ==> {
                let inp = iv.operand2->Some_0->Variable_symbol as int;
                &&& steps[i].0.slot_table.signals_spec(inp).len() > 0
                &&& steps[i].0.slot_table.signals_spec(inp)[0].fired
            })
            &&& (iv.code().is_binary_op() ==> {
                let lsl = iv.operand2->Some_0->Variable_symbol as int;
                let rsl = iv.operand3->Some_0->Variable_symbol as int;
                &&& steps[i].0.slot_table.signals_spec(lsl).len() > 0
                &&& steps[i].0.slot_table.signals_spec(lsl)[0].fired
                &&& (lsl == rsl ==> steps[i].0.slot_table.signals_spec(lsl).len() >= 2
                    && steps[i].0.slot_table.signals_spec(lsl)[1].fired)
            })
        },
{
    let s0 = steps[i].0;
    let s1 = if i + 1 < steps.len() {
        steps[i + 1].0
    } else {
        post
    };
    assert(step_post(s0, s1, steps[i].1, true));
    lemma_lazy_signal_discipline(s0, s1);
}

} // verus!
