//! Ready-made driver programs: small models written directly in the
//! assembler IR and run on a machine with the caller's backend.

use vstd::prelude::*;

use crate::assembler::{AsmInstruction, Module, Program, Token};
use crate::base::{ElementType, RuntimeStatusError};
use crate::executors::{shapes_equal, ExecutorLike};
use crate::instruction::CRTOpCode;
use crate::slots::SLOT_COUNT;
use crate::tensors::ActTensorTypes;
use crate::vm::VM;

verus! {

/// The bit pattern of the generator value a `ones` tensor is filled with.
pub const ONES_BITS: u32 = 0x3f800000;

/// An instruction with an opcode and three slot operands.
fn binary_inst(code: CRTOpCode, out: u8, lhs: u8, rhs: u8) -> (r: AsmInstruction)
    requires
        code.is_binary_op(),
    ensures
        r@.wf(),
{
    AsmInstruction::new(
        Token::BytecodeOpCode { code },
        Some(Token::Variable { symbol: out }),
        Some(Token::Variable { symbol: lhs }),
        Some(Token::Variable { symbol: rhs }),
    )
}

/// An instruction with an opcode and two slot operands.
fn unary_inst(code: CRTOpCode, out: u8, input: u8) -> (r: AsmInstruction)
    requires
        code.is_unary_op(),
    ensures
        r@.wf(),
{
    AsmInstruction::new(
        Token::BytecodeOpCode { code },
        Some(Token::Variable { symbol: out }),
        Some(Token::Variable { symbol: input }),
        None,
    )
}

/// A generated-tensor instruction: fill `out` with one value under `shape`.
fn svalue_inst(out: u8, generator_bits: u32, shape: Vec<usize>) -> (r: AsmInstruction)
    requires
        8 + 8 * shape@.len() <= 0xffff,
    ensures
        r@.wf(),
{
    AsmInstruction::new(
        Token::BytecodeOpCode { code: CRTOpCode::SVALUETENSOR },
        Some(Token::Variable { symbol: out }),
        Some(Token::UninitTensor { generator_bits, shape }),
        None,
    )
}

/// A shape-changing instruction: write `input` under `dims` into `out`.
fn dma_inst(code: CRTOpCode, out: u8, input: u8, dims: Vec<usize>) -> (r: AsmInstruction)
    requires
        code.is_dma_op(),
        8 + 8 * dims@.len() <= 0xffff,
    ensures
        r@.wf(),
{
    AsmInstruction::new(
        Token::BytecodeOpCode { code },
        Some(Token::Variable { symbol: out }),
        Some(Token::Variable { symbol: input }),
        Some(Token::Shape { dims }),
    )
}

/// A one-input layer instruction with its result-type annotation.
fn layer_inst(code: CRTOpCode, out: u8, input: u8, ann: Vec<usize>) -> (r: AsmInstruction)
    requires
        code.is_layer_unary(),
        8 + 8 * ann@.len() <= 0xffff,
    ensures
        r@.wf(),
{
    AsmInstruction::new_annotated(
        Token::BytecodeOpCode { code },
        Some(Token::Variable { symbol: out }),
        Some(Token::Variable { symbol: input }),
        None,
        None,
        Some(Token::RankedTensorType { dtype: ElementType::F32, shape: ann }),
    )
}

/// A three-input layer instruction with its result-type annotation.
fn ternary_inst(code: CRTOpCode, out: u8, a: u8, b: u8, c: u8, ann: Vec<usize>) -> (r:
    AsmInstruction)
    requires
        code.is_ternary_op(),
        8 + 8 * ann@.len() <= 0xffff,
    ensures
        r@.wf(),
{
    AsmInstruction::new_annotated(
        Token::BytecodeOpCode { code },
        Some(Token::Variable { symbol: out }),
        Some(Token::Variable { symbol: a }),
        Some(Token::Variable { symbol: b }),
        Some(Token::Variable { symbol: c }),
        Some(Token::RankedTensorType { dtype: ElementType::F32, shape: ann }),
    )
}

/// A one-dimensional shape.
fn shape1(a: usize) -> (r: Vec<usize>)
    ensures
        r@ == seq![a],
{
    let mut v: Vec<usize> = Vec::new();
    v.push(a);
    proof {
        assert(v@ =~= seq![a]);
    }
    v
}

/// A module-return instruction.
fn retv_inst(slot: u8) -> (r: AsmInstruction)
    ensures
        r@.wf(),
{
    AsmInstruction::new(
        Token::BytecodeOpCode { code: CRTOpCode::RETV },
        Some(Token::Variable { symbol: slot }),
        None,
        None,
    )
}

/// A three-dimensional shape.
fn shape3(a: usize, b: usize, c: usize) -> (r: Vec<usize>)
    ensures
        r@ == seq![a, b, c],
{
    let mut v: Vec<usize> = Vec::new();
    v.push(a);
    v.push(b);
    v.push(c);
    proof {
        assert(v@ =~= seq![a, b, c]);
    }
    v
}

/// A two-dimensional shape.
fn shape2(a: usize, b: usize) -> (r: Vec<usize>)
    ensures
        r@ == seq![a, b],
{
    let mut v: Vec<usize> = Vec::new();
    v.push(a);
    v.push(b);
    proof {
        assert(v@ =~= seq![a, b]);
    }
    v
}

/// A four-dimensional shape.
fn shape4(a: usize, b: usize, c: usize, d: usize) -> (r: Vec<usize>)
    ensures
        r@ == seq![a, b, c, d],
{
    let mut v: Vec<usize> = Vec::new();
    v.push(a);
    v.push(b);
    v.push(c);
    v.push(d);
    proof {
        assert(v@ =~= seq![a, b, c, d]);
    }
    v
}

/// Feeds a well-formed module sequence to a fresh machine and runs it with
/// `executor_cnt` executors of the chosen backend.
fn run_program<E: ExecutorLike>(program: &Program, executor_cnt: usize, lazily: bool) -> (r: (
    VM<E>,
    Result<u8, RuntimeStatusError>,
))
    requires
        crate::assembler::program_wf(program@),
    ensures
        r.0.wf(),
        r.1 matches Ok(c) ==> c == 0,
        r.1 is Err ==> r.1 == Err::<u8, RuntimeStatusError>(RuntimeStatusError::RT_ERROR),
{
    let bytes = program.to_bytes();
    let mut vm: VM<E> = VM::new();
    vm.init(executor_cnt);
    let mut i: usize = 0;
    while i < bytes.len()
        invariant
            vm.wf(),
        decreases bytes@.len() - i,
    {
        vm.push_bytecode_into_cmdbuffer(bytes[i]);
        i = i + 1;
    }
    let status = if lazily {
        vm.run_lazily()
    } else {
        vm.run_eagerly()
    };
    (vm, status)
}

/// Whether a slot holds a float tensor of exactly the expected shape.
fn f32_slot_has_shape<E: ExecutorLike>(vm: &VM<E>, slot: u8, expect: &Vec<usize>) -> (r: bool)
    requires
        vm.wf(),
    ensures
        r ==> (vm.slot_table.tensor_spec(slot as int) matches Some(t) && t.dtype_spec()
            == ElementType::F32 && t.shape_spec() == expect@),
{
    match vm.slot_table.get_tensor(slot) {
        Some(t) => {
            let shape = t.shape();
            let shape_ok = shapes_equal(&shape, expect);
            match t {
                ActTensorTypes::F32Tensor { .. } => shape_ok,
                _ => false,
            }
        },
        None => false,
    }
}

/// Whether every slot but `keep` is empty.
fn only_slot_occupied<E: ExecutorLike>(vm: &VM<E>, keep: u8) -> (r: bool)
    requires
        vm.wf(),
    ensures
        r ==> forall|s: int|
            0 <= s < SLOT_COUNT && s != keep as int ==> #[trigger] vm.slot_table.tensor_spec(s)
                is None,
{
    let mut i: usize = 0;
    while i < SLOT_COUNT
        invariant
            vm.wf(),
            i <= SLOT_COUNT,
            forall|s: int|
                0 <= s < i && s != keep as int ==> #[trigger] vm.slot_table.tensor_spec(s) is None,
        decreases SLOT_COUNT - i,
    {
        if i != keep as usize {
            if vm.slot_table.has_tensor(i as u8) {
                return false;
            }
        }
        i = i + 1;
    }
    true
}

/// A chain of exponentials over a generated `ones` tensor: fills slot `0`
/// with ones of shape `[34, 82, 3]` and applies the elementwise
/// exponential into slot `1`, eagerly.  The driver reports success only
/// after confirming that both slots hold float tensors of that shape; the
/// element values are the backend's.
pub fn exp_test<E: ExecutorLike>(executor_cnt: usize) -> (r: (
    VM<E>,
    Result<u8, RuntimeStatusError>,
))
    ensures
        r.0.wf(),
        r.1 matches Ok(c) ==> c == 0 && (r.0.slot_table.tensor_spec(0) matches Some(t0)
            && t0.dtype_spec() == ElementType::F32 && t0.shape_spec() == seq![34usize, 82, 3]) && (
        r.0.slot_table.tensor_spec(1) matches Some(t1) && t1.dtype_spec() == ElementType::F32
            && t1.shape_spec() == seq![34usize, 82, 3]),
        r.1 is Err ==> r.1 == Err::<u8, RuntimeStatusError>(RuntimeStatusError::RT_ERROR),
{
    let mut instructions: Vec<AsmInstruction> = Vec::new();
    instructions.push(svalue_inst(0, ONES_BITS, shape3(34, 82, 3)));
    instructions.push(unary_inst(CRTOpCode::EXPF32, 1, 0));
    let module = Module { dev_at: None, instructions };
    let mut mods: Vec<Module> = Vec::new();
    mods.push(module);
    let program = Program { mods };
    proof {
        assert(crate::assembler::program_wf(program@));
    }
    let (vm, status) = run_program::<E>(&program, executor_cnt, false);
    let expected = shape3(34, 82, 3);
    let shapes_ok = f32_slot_has_shape(&vm, 0, &expected) && f32_slot_has_shape(&vm, 1, &expected);
    match status {
        Ok(c) => {
            if shapes_ok {
                (vm, Ok(c))
            } else {
                (vm, Err(RuntimeStatusError::RT_ERROR))
            }
        },
        Err(_) => (vm, Err(RuntimeStatusError::RT_ERROR)),
    }
}

/// One transformer block of attention projections, written against three
/// device-tagged modules: a shared `ones` input is reshaped, multiplied
/// with per-branch weights, biased, reshaped and transposed in each of the
/// query, value and key branches, and the value branch's result is returned.
/// Runs lazily, so the branches are gated purely by readiness signals.  The
/// driver reports success only after confirming that the returned slot
/// holds a float tensor of the transposed shape and that the module return
/// dropped every other slot; the element values are the backend's.
pub fn bert_block<E: ExecutorLike>(executor_cnt: usize) -> (r: (
    VM<E>,
    Result<u8, RuntimeStatusError>,
))
    ensures
        r.0.wf(),
        r.1 matches Ok(c) ==> c == 0 && (r.0.slot_table.tensor_spec(103) matches Some(t)
            && t.dtype_spec() == ElementType::F32 && t.shape_spec() == seq![32usize, 16, 128, 64])
            && (forall|s: int|
            0 <= s < SLOT_COUNT && s != 103 ==> #[trigger] r.0.slot_table.tensor_spec(s) is None),
        r.1 is Err ==> r.1 == Err::<u8, RuntimeStatusError>(RuntimeStatusError::RT_ERROR),
{
    let mut head: Vec<AsmInstruction> = Vec::new();
    head.push(svalue_inst(0, ONES_BITS, shape3(32, 128, 1024)));
    let head_module = Module { dev_at: None, instructions: head };

    let mut q_branch: Vec<AsmInstruction> = Vec::new();
    q_branch.push(svalue_inst(2, ONES_BITS, shape2(1024, 1024)));
    q_branch.push(svalue_inst(4, ONES_BITS, shape2(4096, 1024)));
    q_branch.push(dma_inst(CRTOpCode::RESHAPE, 113, 0, shape2(4096, 1024)));
    q_branch.push(binary_inst(CRTOpCode::MATMULF32, 3, 113, 2));
    q_branch.push(binary_inst(CRTOpCode::ADDF32, 5, 3, 4));
    q_branch.push(dma_inst(CRTOpCode::RESHAPE, 6, 5, shape4(32, 128, 16, 64)));
    q_branch.push(dma_inst(CRTOpCode::TRANSPOSE, 101, 6, shape4(32, 16, 128, 64)));
    let q_module = Module { dev_at: Some(0), instructions: q_branch };

    let mut v_branch: Vec<AsmInstruction> = Vec::new();
    v_branch.push(svalue_inst(12, ONES_BITS, shape2(1024, 1024)));
    v_branch.push(svalue_inst(14, ONES_BITS, shape2(4096, 1024)));
    v_branch.push(dma_inst(CRTOpCode::RESHAPE, 117, 0, shape2(4096, 1024)));
    v_branch.push(binary_inst(CRTOpCode::MATMULF32, 13, 117, 12));
    v_branch.push(binary_inst(CRTOpCode::ADDF32, 15, 13, 14));
    v_branch.push(dma_inst(CRTOpCode::RESHAPE, 16, 15, shape4(32, 128, 16, 64)));
    v_branch.push(dma_inst(CRTOpCode::TRANSPOSE, 103, 16, shape4(32, 16, 128, 64)));
    let v_module = Module { dev_at: Some(1), instructions: v_branch };

    let mut k_branch: Vec<AsmInstruction> = Vec::new();
    k_branch.push(svalue_inst(7, ONES_BITS, shape2(1024, 1024)));
    k_branch.push(svalue_inst(9, ONES_BITS, shape2(4096, 1024)));
    k_branch.push(dma_inst(CRTOpCode::RESHAPE, 127, 0, shape2(4096, 1024)));
    k_branch.push(binary_inst(CRTOpCode::MATMULF32, 8, 127, 7));
    k_branch.push(binary_inst(CRTOpCode::ADDF32, 10, 8, 9));
    k_branch.push(dma_inst(CRTOpCode::RESHAPE, 11, 10, shape4(32, 128, 16, 64)));
    k_branch.push(dma_inst(CRTOpCode::TRANSPOSE, 102, 11, shape4(32, 16, 128, 64)));
    let k_module = Module { dev_at: Some(2), instructions: k_branch };

    let mut tail: Vec<AsmInstruction> = Vec::new();
    tail.push(retv_inst(103));
    let tail_module = Module { dev_at: None, instructions: tail };

    let mut mods: Vec<Module> = Vec::new();
    mods.push(head_module);
    mods.push(q_module);
    mods.push(v_module);
    mods.push(k_module);
    mods.push(tail_module);
    let program = Program { mods };
    proof {
        assert(crate::assembler::program_wf(program@));
    }
    let (vm, status) = run_program::<E>(&program, executor_cnt, true);
    let result_ok = f32_slot_has_shape(&vm, 103, &shape4(32, 16, 128, 64)) && only_slot_occupied(
        &vm,
        103,
    );
    match status {
        Ok(c) => {
            if result_ok {
                (vm, Ok(c))
            } else {
                (vm, Err(RuntimeStatusError::RT_ERROR))
            }
        },
        Err(_) => (vm, Err(RuntimeStatusError::RT_ERROR)),
    }
}

} // verus!

verus! {

/// The digit-classifier graph: a pooled `ones` image is flattened through
/// two dense layers with an activation and a softmax, lazily, returning
/// the class scores.  The weight constants of the source graph carry no
/// data, so they stand in as zero-filled generated tensors, and the shape
/// constant feeding the reshape is carried literally by the reshape
/// instruction.  The driver reports success only after confirming that
/// the returned slot holds a float tensor of the score shape and that the
/// module return dropped every other slot.
pub fn mnist<E: ExecutorLike>(executor_cnt: usize) -> (r: (
    VM<E>,
    Result<u8, RuntimeStatusError>,
))
    ensures
        r.0.wf(),
        r.1 matches Ok(c) ==> c == 0 && (r.0.slot_table.tensor_spec(10) matches Some(t)
            && t.dtype_spec() == ElementType::F32 && t.shape_spec() == seq![1usize, 10]) && (
        forall|s: int|
            0 <= s < SLOT_COUNT && s != 10 ==> #[trigger] r.0.slot_table.tensor_spec(s) is None),
        r.1 is Err ==> r.1 == Err::<u8, RuntimeStatusError>(RuntimeStatusError::RT_ERROR),
{
    let mut instructions: Vec<AsmInstruction> = Vec::new();
    instructions.push(svalue_inst(100, ONES_BITS, shape4(1, 1, 28, 28)));
    instructions.push(layer_inst(CRTOpCode::MAXPOOL, 0, 100, shape4(1, 1, 14, 14)));
    instructions.push(dma_inst(CRTOpCode::RESHAPE, 2, 0, shape2(1, 196)));
    instructions.push(svalue_inst(3, 0, shape2(128, 196)));
    instructions.push(svalue_inst(4, 0, shape1(128)));
    instructions.push(ternary_inst(CRTOpCode::GEMM, 5, 2, 3, 4, shape2(1, 128)));
    instructions.push(unary_inst(CRTOpCode::RELU, 6, 5));
    instructions.push(svalue_inst(7, 0, shape2(10, 128)));
    instructions.push(svalue_inst(8, 0, shape1(10)));
    instructions.push(ternary_inst(CRTOpCode::GEMM, 9, 6, 7, 8, shape2(1, 10)));
    instructions.push(unary_inst(CRTOpCode::SOFTMAX, 10, 9));
    instructions.push(retv_inst(10));
    let module = Module { dev_at: None, instructions };
    let mut mods: Vec<Module> = Vec::new();
    mods.push(module);
    let program = Program { mods };
    proof {
        assert(crate::assembler::program_wf(program@));
    }
    let (vm, status) = run_program::<E>(&program, executor_cnt, true);
    let result_ok = f32_slot_has_shape(&vm, 10, &shape2(1, 10)) && only_slot_occupied(&vm, 10);
    match status {
        Ok(c) => {
            if result_ok {
                (vm, Ok(c))
            } else {
                (vm, Err(RuntimeStatusError::RT_ERROR))
            }
        },
        Err(_) => (vm, Err(RuntimeStatusError::RT_ERROR)),
    }
}

} // verus!

verus! {

/// One module of the image-classifier graph.
#[verifier::rlimit(100)]
#[verifier::spinoff_prover]
fn resnet_weights_module() -> (m: Module)
    ensures
        m@.wf(),
{
    let mut m_weights: Vec<AsmInstruction> = Vec::new();
    m_weights.push(svalue_inst(100, ONES_BITS, shape4(1, 3, 224, 224)));
    m_weights.push(svalue_inst(0, 0, shape2(1000, 512)));
    m_weights.push(svalue_inst(1, 0, shape1(1000)));
    m_weights.push(svalue_inst(2, 0, shape4(64, 3, 7, 7)));
    m_weights.push(svalue_inst(3, 0, shape1(64)));
    m_weights.push(svalue_inst(4, 0, shape4(64, 64, 3, 3)));
    m_weights.push(svalue_inst(5, 0, shape1(64)));
    m_weights.push(svalue_inst(6, 0, shape4(64, 64, 3, 3)));
    m_weights.push(svalue_inst(7, 0, shape1(64)));
    m_weights.push(svalue_inst(8, 0, shape4(64, 64, 3, 3)));
    m_weights.push(svalue_inst(9, 0, shape1(64)));
    m_weights.push(svalue_inst(10, 0, shape4(64, 64, 3, 3)));
    m_weights.push(svalue_inst(11, 0, shape1(64)));
    m_weights.push(svalue_inst(12, 0, shape4(128, 64, 1, 1)));
    m_weights.push(svalue_inst(13, 0, shape1(128)));
    m_weights.push(svalue_inst(14, 0, shape4(128, 64, 3, 3)));
    m_weights.push(svalue_inst(15, 0, shape1(128)));
    m_weights.push(svalue_inst(16, 0, shape4(128, 128, 3, 3)));
    m_weights.push(svalue_inst(17, 0, shape1(128)));
    m_weights.push(svalue_inst(18, 0, shape4(128, 128, 3, 3)));
    m_weights.push(svalue_inst(19, 0, shape1(128)));
    m_weights.push(svalue_inst(20, 0, shape4(128, 128, 3, 3)));
    m_weights.push(svalue_inst(21, 0, shape1(128)));
    m_weights.push(svalue_inst(22, 0, shape4(256, 128, 1, 1)));
    m_weights.push(svalue_inst(23, 0, shape1(256)));
    m_weights.push(svalue_inst(24, 0, shape4(256, 128, 3, 3)));
    m_weights.push(svalue_inst(25, 0, shape1(256)));
    m_weights.push(svalue_inst(26, 0, shape4(256, 256, 3, 3)));
    m_weights.push(svalue_inst(27, 0, shape1(256)));
    m_weights.push(svalue_inst(28, 0, shape4(256, 256, 3, 3)));
    m_weights.push(svalue_inst(29, 0, shape1(256)));
    m_weights.push(svalue_inst(30, 0, shape4(256, 256, 3, 3)));
    m_weights.push(svalue_inst(31, 0, shape1(256)));
    m_weights.push(svalue_inst(32, 0, shape4(512, 256, 1, 1)));
    m_weights.push(svalue_inst(33, 0, shape1(512)));
    m_weights.push(svalue_inst(34, 0, shape4(512, 256, 3, 3)));
    m_weights.push(svalue_inst(35, 0, shape1(512)));
    m_weights.push(svalue_inst(36, 0, shape4(512, 512, 3, 3)));
    m_weights.push(svalue_inst(37, 0, shape1(512)));
    m_weights.push(svalue_inst(38, 0, shape4(512, 512, 3, 3)));
    m_weights.push(svalue_inst(39, 0, shape1(512)));
    m_weights.push(svalue_inst(40, 0, shape4(512, 512, 3, 3)));
    m_weights.push(svalue_inst(41, 0, shape1(512)));
    let m = Module { dev_at: None, instructions: m_weights };
    proof {
        assert(m@.wf());
    }
    m
}

/// One module of the image-classifier graph.
#[verifier::rlimit(100)]
#[verifier::spinoff_prover]
fn resnet_body1_module() -> (m: Module)
    ensures
        m@.wf(),
{
    let mut m_body1: Vec<AsmInstruction> = Vec::new();
    m_body1.push(ternary_inst(CRTOpCode::CONVADD, 42, 100, 2, 3, shape4(1, 64, 112, 112)));
    m_body1.push(unary_inst(CRTOpCode::RELU, 43, 42));
    m_body1.push(layer_inst(CRTOpCode::MAXPOOL, 44, 43, shape4(1, 64, 56, 56)));
    m_body1.push(ternary_inst(CRTOpCode::CONVADD, 45, 44, 4, 5, shape4(1, 64, 56, 56)));
    m_body1.push(unary_inst(CRTOpCode::RELU, 46, 45));
    m_body1.push(ternary_inst(CRTOpCode::CONVADD, 47, 46, 6, 7, shape4(1, 64, 56, 56)));
    m_body1.push(binary_inst(CRTOpCode::ADDF32, 48, 44, 47));
    m_body1.push(unary_inst(CRTOpCode::RELU, 49, 48));
    m_body1.push(ternary_inst(CRTOpCode::CONVADD, 50, 49, 8, 9, shape4(1, 64, 56, 56)));
    m_body1.push(unary_inst(CRTOpCode::RELU, 51, 50));
    m_body1.push(ternary_inst(CRTOpCode::CONVADD, 52, 51, 10, 11, shape4(1, 64, 56, 56)));
    m_body1.push(binary_inst(CRTOpCode::ADDF32, 53, 49, 52));
    m_body1.push(unary_inst(CRTOpCode::RELU, 54, 53));
    m_body1.push(ternary_inst(CRTOpCode::CONVADD, 55, 54, 12, 13, shape4(1, 128, 28, 28)));
    m_body1.push(ternary_inst(CRTOpCode::CONVADD, 56, 54, 14, 15, shape4(1, 128, 28, 28)));
    m_body1.push(unary_inst(CRTOpCode::RELU, 57, 56));
    m_body1.push(ternary_inst(CRTOpCode::CONVADD, 58, 57, 16, 17, shape4(1, 128, 28, 28)));
    m_body1.push(binary_inst(CRTOpCode::ADDF32, 59, 55, 58));
    m_body1.push(unary_inst(CRTOpCode::RELU, 60, 59));
    m_body1.push(ternary_inst(CRTOpCode::CONVADD, 61, 60, 18, 19, shape4(1, 128, 28, 28)));
    m_body1.push(unary_inst(CRTOpCode::RELU, 62, 61));
    m_body1.push(ternary_inst(CRTOpCode::CONVADD, 63, 62, 20, 21, shape4(1, 128, 28, 28)));
    m_body1.push(binary_inst(CRTOpCode::ADDF32, 64, 60, 63));
    m_body1.push(unary_inst(CRTOpCode::RELU, 65, 64));
    let m = Module { dev_at: None, instructions: m_body1 };
    proof {
        assert(m@.wf());
    }
    m
}

/// One module of the image-classifier graph.
#[verifier::rlimit(100)]
#[verifier::spinoff_prover]
fn resnet_body2_module() -> (m: Module)
    ensures
        m@.wf(),
{
    let mut m_body2: Vec<AsmInstruction> = Vec::new();
    m_body2.push(ternary_inst(CRTOpCode::CONVADD, 66, 65, 22, 23, shape4(1, 256, 14, 14)));
    m_body2.push(ternary_inst(CRTOpCode::CONVADD, 67, 65, 24, 25, shape4(1, 256, 14, 14)));
    m_body2.push(unary_inst(CRTOpCode::RELU, 68, 67));
    m_body2.push(ternary_inst(CRTOpCode::CONVADD, 69, 68, 26, 27, shape4(1, 256, 14, 14)));
    m_body2.push(binary_inst(CRTOpCode::ADDF32, 70, 66, 69));
    m_body2.push(unary_inst(CRTOpCode::RELU, 71, 70));
    m_body2.push(ternary_inst(CRTOpCode::CONVADD, 72, 71, 28, 29, shape4(1, 256, 14, 14)));
    m_body2.push(unary_inst(CRTOpCode::RELU, 73, 72));
    m_body2.push(ternary_inst(CRTOpCode::CONVADD, 74, 73, 30, 31, shape4(1, 256, 14, 14)));
    m_body2.push(binary_inst(CRTOpCode::ADDF32, 75, 71, 74));
    m_body2.push(unary_inst(CRTOpCode::RELU, 76, 75));
    m_body2.push(ternary_inst(CRTOpCode::CONVADD, 77, 76, 32, 33, shape4(1, 512, 7, 7)));
    m_body2.push(ternary_inst(CRTOpCode::CONVADD, 78, 76, 34, 35, shape4(1, 512, 7, 7)));
    m_body2.push(unary_inst(CRTOpCode::RELU, 79, 78));
    m_body2.push(ternary_inst(CRTOpCode::CONVADD, 80, 79, 36, 37, shape4(1, 512, 7, 7)));
    m_body2.push(binary_inst(CRTOpCode::ADDF32, 81, 77, 80));
    m_body2.push(unary_inst(CRTOpCode::RELU, 82, 81));
    m_body2.push(ternary_inst(CRTOpCode::CONVADD, 83, 82, 38, 39, shape4(1, 512, 7, 7)));
    m_body2.push(unary_inst(CRTOpCode::RELU, 84, 83));
    m_body2.push(ternary_inst(CRTOpCode::CONVADD, 85, 84, 40, 41, shape4(1, 512, 7, 7)));
    m_body2.push(binary_inst(CRTOpCode::ADDF32, 86, 82, 85));
    m_body2.push(unary_inst(CRTOpCode::RELU, 87, 86));
    let m = Module { dev_at: None, instructions: m_body2 };
    proof {
        assert(m@.wf());
    }
    m
}

/// One module of the image-classifier graph.
#[verifier::rlimit(100)]
#[verifier::spinoff_prover]
fn resnet_tail_module() -> (m: Module)
    ensures
        m@.wf(),
{
    let mut m_tail: Vec<AsmInstruction> = Vec::new();
    m_tail.push(layer_inst(CRTOpCode::REDUCEMEAN, 88, 87, shape4(1, 512, 1, 1)));
    m_tail.push(layer_inst(CRTOpCode::FLATTEN, 89, 88, shape2(1, 512)));
    m_tail.push(ternary_inst(CRTOpCode::GEMM, 90, 89, 0, 1, shape2(1, 1000)));
    m_tail.push(retv_inst(90));
    let m = Module { dev_at: None, instructions: m_tail };
    proof {
        assert(m@.wf());
    }
    m
}

/// The image-classifier graph: a `ones` image runs through the stacked
/// convolution-and-bias blocks with their activations, poolings and
/// residual additions, then the mean reduction, flattening and the final
/// dense layer, lazily, returning the class scores.  The weight constants
/// of the source graph carry no data, so they stand in as zero-filled
/// generated tensors.  The driver reports success only after confirming
/// that the returned slot holds a float tensor of the score shape and
/// that the module return dropped every other slot.
#[verifier::rlimit(100)]
#[verifier::spinoff_prover]
pub fn resnet<E: ExecutorLike>(executor_cnt: usize) -> (r: (
    VM<E>,
    Result<u8, RuntimeStatusError>,
))
    ensures
        r.0.wf(),
        r.1 matches Ok(c) ==> c == 0 && (r.0.slot_table.tensor_spec(90) matches Some(t)
            && t.dtype_spec() == ElementType::F32 && t.shape_spec() == seq![1usize, 1000]) && (
        forall|s: int|
            0 <= s < SLOT_COUNT && s != 90 ==> #[trigger] r.0.slot_table.tensor_spec(s) is None),
        r.1 is Err ==> r.1 == Err::<u8, RuntimeStatusError>(RuntimeStatusError::RT_ERROR),
{
    let mut mods: Vec<Module> = Vec::new();
    mods.push(resnet_weights_module());
    mods.push(resnet_body1_module());
    mods.push(resnet_body2_module());
    mods.push(resnet_tail_module());
    let program = Program { mods };
    proof {
        assert(crate::assembler::program_wf(program@));
    }
    let (vm, status) = run_program::<E>(&program, executor_cnt, true);
    let result_ok = f32_slot_has_shape(&vm, 90, &shape2(1, 1000)) && only_slot_occupied(&vm, 90);
    match status {
        Ok(c) => {
            if result_ok {
                (vm, Ok(c))
            } else {
                (vm, Err(RuntimeStatusError::RT_ERROR))
            }
        },
        Err(_) => (vm, Err(RuntimeStatusError::RT_ERROR)),
    }
}

} // verus!
