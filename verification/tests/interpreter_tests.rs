//! End-to-end runs with a float backend: the machine decodes and
//! dispatches; the backend computes the float kernels elementwise.

use chopper_runtime::assembler::{AsmInstruction, Token};
use chopper_runtime::executors::{ExecutorLike, MockExecutor};
use chopper_runtime::instruction::CRTOpCode;
use chopper_runtime::tensors::{ActTensorTypes, TensorView};
use chopper_runtime::vm::VM;
use chopper_runtime::{ElementType, RuntimeStatusError};

/// A host-side float backend for the tests: dense elementwise kernels, a
/// two-dimensional matrix multiply, and a fixed-seed generator.
struct F32Backend;

fn f32s_of(t: &ActTensorTypes) -> (Vec<f32>, Vec<usize>) {
    match t {
        ActTensorTypes::F32Tensor { data } => (
            data.data.iter().map(|b| f32::from_bits(*b)).collect(),
            data.shape.clone(),
        ),
        _ => panic!("float tensor expected"),
    }
}

fn tensor_of(values: Vec<f32>, shape: Vec<usize>) -> ActTensorTypes {
    let bits: Vec<u32> = values.into_iter().map(|x| x.to_bits()).collect();
    ActTensorTypes::F32Tensor {
        data: TensorView::new(bits, ElementType::F32, shape),
    }
}

impl ExecutorLike for F32Backend {
    fn new_with_typeid(_typeid: usize) -> Self {
        F32Backend
    }

    fn init(&mut self) {}

    fn unary_compute(
        &mut self,
        op: CRTOpCode,
        input: &ActTensorTypes,
    ) -> Result<ActTensorTypes, RuntimeStatusError> {
        let (values, shape) = f32s_of(input);
        let out: Vec<f32> = match op {
            CRTOpCode::EXPF32 => values.into_iter().map(|x| x.exp()).collect(),
            CRTOpCode::RELU => values.into_iter().map(|x| x.max(0.0)).collect(),
            _ => return Err(RuntimeStatusError::RT_ERROR),
        };
        Ok(tensor_of(out, shape))
    }

    fn binary_compute(
        &mut self,
        op: CRTOpCode,
        lhs: &ActTensorTypes,
        rhs: &ActTensorTypes,
    ) -> Result<ActTensorTypes, RuntimeStatusError> {
        let (l, lshape) = f32s_of(lhs);
        let (r, rshape) = f32s_of(rhs);
        if op == CRTOpCode::MATMULF32 {
            if lshape.len() != 2 || rshape.len() != 2 || lshape[1] != rshape[0] {
                return Err(RuntimeStatusError::RT_ERROR);
            }
            let (m, k, n) = (lshape[0], lshape[1], rshape[1]);
            let mut out = vec![0.0f32; m * n];
            for i in 0..m {
                for j in 0..n {
                    let mut acc = 0.0f32;
                    for p in 0..k {
                        acc += l[i * k + p] * r[p * n + j];
                    }
                    out[i * n + j] = acc;
                }
            }
            return Ok(tensor_of(out, vec![m, n]));
        }
        if lshape != rshape {
            return Err(RuntimeStatusError::RT_ERROR);
        }
        let out: Vec<f32> = match op {
            CRTOpCode::ADDF32 => l.iter().zip(r.iter()).map(|(a, b)| a + b).collect(),
            CRTOpCode::SUBF32 => l.iter().zip(r.iter()).map(|(a, b)| a - b).collect(),
            CRTOpCode::MULF32 => l.iter().zip(r.iter()).map(|(a, b)| a * b).collect(),
            CRTOpCode::DIVF32 => l.iter().zip(r.iter()).map(|(a, b)| a / b).collect(),
            _ => return Err(RuntimeStatusError::RT_ERROR),
        };
        Ok(tensor_of(out, lshape))
    }

    fn layer_unary_compute(
        &mut self,
        _op: CRTOpCode,
        _input: &ActTensorTypes,
        out_shape: &Vec<usize>,
    ) -> Result<ActTensorTypes, RuntimeStatusError> {
        let n: usize = out_shape.iter().product();
        Ok(tensor_of(vec![0.0f32; n], out_shape.clone()))
    }

    fn ternary_compute(
        &mut self,
        _op: CRTOpCode,
        _a: &ActTensorTypes,
        _b: &ActTensorTypes,
        _c: &ActTensorTypes,
        out_shape: &Vec<usize>,
    ) -> Result<ActTensorTypes, RuntimeStatusError> {
        let n: usize = out_shape.iter().product();
        Ok(tensor_of(vec![0.0f32; n], out_shape.clone()))
    }

    fn rng_tensor(
        &mut self,
        _distribution: u8,
        shape: &Vec<usize>,
    ) -> Result<ActTensorTypes, RuntimeStatusError> {
        let n: usize = shape.iter().product();
        Ok(tensor_of(vec![0.25f32; n], shape.clone()))
    }
}

fn op(code: CRTOpCode) -> Token {
    Token::BytecodeOpCode { code }
}

fn var(symbol: u8) -> Token {
    Token::Variable { symbol }
}

fn const_f32(out: u8, value: f32) -> AsmInstruction {
    AsmInstruction::new(
        op(CRTOpCode::CONSTF32),
        Some(var(out)),
        Some(Token::F32Literal {
            bits: value.to_bits(),
        }),
        None,
    )
}

fn dense(out: u8, values: Vec<f32>, shape: Vec<usize>) -> AsmInstruction {
    AsmInstruction::new(
        op(CRTOpCode::CONSTTENSOR),
        Some(var(out)),
        Some(Token::Tensor {
            raw_data: values.into_iter().map(|x| x.to_bits()).collect(),
            shape,
        }),
        None,
    )
}

fn svalue(out: u8, value: f32, shape: Vec<usize>) -> AsmInstruction {
    AsmInstruction::new(
        op(CRTOpCode::SVALUETENSOR),
        Some(var(out)),
        Some(Token::UninitTensor {
            generator_bits: value.to_bits(),
            shape,
        }),
        None,
    )
}

fn rng(out: u8, distribution: u8, shape: Vec<usize>) -> AsmInstruction {
    AsmInstruction::new(
        op(CRTOpCode::RNGTENSOR),
        Some(var(out)),
        Some(Token::UninitRNGTensor {
            distribution,
            shape,
        }),
        None,
    )
}

fn binary(code: CRTOpCode, out: u8, lhs: u8, rhs: u8) -> AsmInstruction {
    AsmInstruction::new(op(code), Some(var(out)), Some(var(lhs)), Some(var(rhs)))
}

fn unary(code: CRTOpCode, out: u8, input: u8) -> AsmInstruction {
    AsmInstruction::new(op(code), Some(var(out)), Some(var(input)), None)
}

fn retv(slot: u8) -> AsmInstruction {
    AsmInstruction::new(op(CRTOpCode::RETV), Some(var(slot)), None, None)
}

fn feed(vm: &mut VM<F32Backend>, instructions: &[AsmInstruction]) {
    for inst in instructions {
        for byte in inst.to_bytes() {
            vm.push_bytecode_into_cmdbuffer(byte);
        }
    }
}

fn fresh(executor_cnt: usize) -> VM<F32Backend> {
    let mut vm: VM<F32Backend> = VM::new();
    vm.init(executor_cnt);
    vm
}

fn floats(vm: &VM<F32Backend>, slot: usize) -> Vec<f32> {
    vm.get_raw_vec_f32(slot)
        .into_iter()
        .map(f32::from_bits)
        .collect()
}

fn approx(got: &[f32], want: &[f32], tol: f32) {
    assert_eq!(got.len(), want.len());
    for i in 0..got.len() {
        let d = (got[i] - want[i]).abs();
        let bound = tol * want[i].abs().max(1.0);
        assert!(d <= bound, "element {} differs: {} vs {}", i, got[i], want[i]);
    }
}

#[test]
fn test_mock_bytecode_halt() {
    let mut vm = fresh(1);
    vm.push_bytecode_into_cmdbuffer(0);
    let status = vm.run_eagerly();
    assert_eq!(status.is_ok(), true);
    assert_eq!(status.unwrap(), 0);
}

#[test]
fn test_mock_bytecode_f32_literal() {
    let mut vm = fresh(2);
    feed(&mut vm, &[const_f32(8, 1.3)]);
    let status = vm.run_eagerly();
    assert_eq!(status.is_ok(), true);
    assert_eq!(status.unwrap(), 0);
    approx(&floats(&vm, 8), &[1.3], 0.00001);
}

#[test]
fn test_mock_bytecode_tensor_zeros_helper() {
    let mut vm = fresh(2);
    feed(&mut vm, &[svalue(8, 0.0, vec![8, 3])]);
    assert_eq!(vm.run_eagerly(), Ok(0));
    approx(&floats(&vm, 8), &vec![0.0f32; 24], 0.00001);
}

#[test]
fn test_mock_bytecode_tensor_ones_helper() {
    let mut vm = fresh(2);
    feed(&mut vm, &[svalue(8, 1.0, vec![8, 3])]);
    assert_eq!(vm.run_eagerly(), Ok(0));
    approx(&floats(&vm, 8), &vec![1.0f32; 24], 0.00001);
}

#[test]
fn test_mock_bytecode_tensor_uniform_helper() {
    let mut vm = fresh(1);
    feed(&mut vm, &[rng(8, 0, vec![8, 3])]);
    let status = vm.run_eagerly();
    assert_eq!(status.is_ok(), true);
    assert_eq!(vm.get_tensor_shape(8), vec![8, 3]);
}

#[test]
fn test_mock_bytecode_tensor_normal_helper() {
    let mut vm = fresh(1);
    feed(&mut vm, &[rng(8, 1, vec![8, 3])]);
    let status = vm.run_eagerly();
    assert_eq!(status.is_ok(), true);
    assert_eq!(vm.get_tensor_shape(8), vec![8, 3]);
}

#[test]
fn test_mock_bytecode_binary_add_f32() {
    let mut vm = fresh(2);
    feed(
        &mut vm,
        &[
            const_f32(1, 1.1),
            const_f32(2, 2.2),
            binary(CRTOpCode::ADDF32, 3, 1, 2),
        ],
    );
    assert_eq!(vm.run_eagerly(), Ok(0));
    approx(&floats(&vm, 1), &[1.1], 0.00001);
    approx(&floats(&vm, 2), &[2.2], 0.00001);
    approx(&floats(&vm, 3), &[3.3], 0.00001);
}

#[test]
fn test_mock_bytecode_binary_sub_f32() {
    let mut vm = fresh(2);
    feed(
        &mut vm,
        &[
            const_f32(1, 1.1),
            const_f32(2, 2.2),
            binary(CRTOpCode::SUBF32, 3, 1, 2),
        ],
    );
    assert_eq!(vm.run_eagerly(), Ok(0));
    approx(&floats(&vm, 3), &[-1.1], 0.00001);
}

#[test]
fn test_mock_bytecode_binary_mul_f32() {
    let mut vm = fresh(2);
    feed(
        &mut vm,
        &[
            const_f32(1, 1.1),
            const_f32(2, 2.2),
            binary(CRTOpCode::MULF32, 3, 1, 2),
        ],
    );
    assert_eq!(vm.run_eagerly(), Ok(0));
    approx(&floats(&vm, 3), &[2.42], 0.00001);
}

#[test]
fn test_mock_bytecode_binary_div_f32() {
    let mut vm = fresh(2);
    feed(
        &mut vm,
        &[
            const_f32(1, 1.1),
            const_f32(2, 2.2),
            binary(CRTOpCode::DIVF32, 3, 1, 2),
        ],
    );
    assert_eq!(vm.run_eagerly(), Ok(0));
    approx(&floats(&vm, 3), &[0.5], 0.00001);
}

#[test]
fn test_mock_bytecode_f32_binary_add_then_sub_f32() {
    let mut vm = fresh(2);
    feed(
        &mut vm,
        &[
            const_f32(8, 1.3),
            const_f32(7, 2.9),
            const_f32(1, 7.4),
            binary(CRTOpCode::ADDF32, 4, 8, 7),
            binary(CRTOpCode::SUBF32, 5, 1, 4),
        ],
    );
    assert_eq!(vm.run_eagerly(), Ok(0));
    approx(&floats(&vm, 4), &[4.2], 0.00001);
    approx(&floats(&vm, 5), &[3.2], 0.00001);
}

#[test]
fn test_mock_bytecode_tensor_add() {
    let mut vm = fresh(2);
    feed(
        &mut vm,
        &[
            dense(0, vec![1.1, 2.2, 3.3, 4.4, 5.5, 6.6], vec![2, 3]),
            dense(1, vec![2.2, 3.3, 3.3, 1.1, 3.3, 2.2], vec![2, 3]),
            binary(CRTOpCode::ADDF32, 4, 0, 1),
        ],
    );
    assert_eq!(vm.run_eagerly(), Ok(0));
    approx(&floats(&vm, 0), &[1.1, 2.2, 3.3, 4.4, 5.5, 6.6], 0.00001);
    assert_eq!(vm.get_tensor_shape(0), vec![2, 3]);
    approx(&floats(&vm, 1), &[2.2, 3.3, 3.3, 1.1, 3.3, 2.2], 0.00001);
    approx(&floats(&vm, 4), &[3.3, 5.5, 6.6, 5.5, 8.8, 8.8], 0.00001);
}

#[test]
fn test_mock_bytecode_tensor_sub() {
    let mut vm = fresh(2);
    feed(
        &mut vm,
        &[
            dense(9, vec![1.1, 2.2, 3.3, 4.4, 5.5, 6.6], vec![2, 3]),
            dense(7, vec![2.2, 3.3, 3.3, 1.1, 3.3, 2.2], vec![2, 3]),
            binary(CRTOpCode::SUBF32, 5, 7, 9),
        ],
    );
    assert_eq!(vm.run_eagerly(), Ok(0));
    approx(&floats(&vm, 5), &[1.1, 1.1, 0.0, -3.3, -2.2, -4.4], 0.00001);
}

#[test]
fn test_mock_bytecode_tensor_matmul() {
    let mut vm = fresh(2);
    feed(
        &mut vm,
        &[
            dense(9, vec![1.0, 2.0, 3.0, 4.0, 5.0, 6.0], vec![2, 3]),
            dense(7, vec![1.0, 1.0, 1.0, 1.0, 1.0, 1.0], vec![3, 2]),
            binary(CRTOpCode::MATMULF32, 5, 7, 9),
        ],
    );
    assert_eq!(vm.run_eagerly(), Ok(0));
    approx(
        &floats(&vm, 5),
        &[5.0, 7.0, 9.0, 5.0, 7.0, 9.0, 5.0, 7.0, 9.0],
        0.00001,
    );
    assert_eq!(vm.get_tensor_shape(5), vec![3, 3]);

    let mut vm = fresh(2);
    feed(
        &mut vm,
        &[
            dense(9, vec![1.0, 2.0, 3.0, 4.0, 5.0, 6.0], vec![2, 3]),
            dense(7, vec![1.0, 1.0, 1.0, 1.0, 1.0, 1.0], vec![3, 2]),
            binary(CRTOpCode::MATMULF32, 6, 9, 7),
        ],
    );
    assert_eq!(vm.run_eagerly(), Ok(0));
    approx(&floats(&vm, 6), &[6.0, 6.0, 15.0, 15.0], 0.00001);
    assert_eq!(vm.get_tensor_shape(6), vec![2, 2]);
}

#[test]
fn test_big_matrix_add() {
    let mut vm = fresh(3);
    feed(
        &mut vm,
        &[
            svalue(0, 1.0, vec![34, 82, 3]),
            svalue(1, 1.0, vec![34, 82, 3]),
            binary(CRTOpCode::ADDF32, 3, 1, 0),
        ],
    );
    assert_eq!(vm.run_eagerly(), Ok(0));
    approx(&floats(&vm, 3), &vec![2.0f32; 34 * 82 * 3], 0.00001);
}

#[test]
fn test_mock_bytecode_tensor_add_lazy() {
    let mut vm = fresh(2);
    feed(
        &mut vm,
        &[
            svalue(0, 1.0, vec![2, 2]),
            svalue(1, 1.0, vec![2, 2]),
            svalue(2, 1.0, vec![2, 2]),
            binary(CRTOpCode::ADDF32, 3, 0, 1),
            binary(CRTOpCode::ADDF32, 4, 2, 3),
            retv(4),
        ],
    );
    assert_eq!(vm.run_lazily(), Ok(0));
    approx(&floats(&vm, 4), &vec![3.0f32; 4], 0.00001);
}

#[test]
fn lazy_exp_chain_pops_two_distinct_signals() {
    let mut vm = fresh(2);
    feed(
        &mut vm,
        &[
            svalue(0, 1.0, vec![2, 2]),
            unary(CRTOpCode::EXPF32, 1, 0),
            unary(CRTOpCode::EXPF32, 2, 1),
            unary(CRTOpCode::EXPF32, 3, 1),
            binary(CRTOpCode::ADDF32, 4, 2, 3),
            retv(4),
        ],
    );
    // Step by step: slot 1's queue is filled by its producer and drained
    // once per consumer.
    assert_eq!(vm.lazy_step(), Ok(0));
    assert_eq!(vm.slot_table.signal_count(0), 8);
    assert_eq!(vm.lazy_step(), Ok(0));
    assert_eq!(vm.slot_table.signal_count(1), 4);
    assert_eq!(vm.lazy_step(), Ok(0));
    assert_eq!(vm.slot_table.signal_count(1), 3);
    assert_eq!(vm.lazy_step(), Ok(0));
    assert_eq!(vm.slot_table.signal_count(1), 2);
    assert_eq!(vm.lazy_step(), Ok(0));
    assert_eq!(vm.lazy_step(), Ok(2));
    // The run terminated; the consumed value is exp(exp(1)) + exp(exp(1)).
    let e = 1.0f32.exp();
    let want = e.exp() + e.exp();
    approx(&floats(&vm, 4), &vec![want; 4], 0.0001);
    // Return retained only slot 4; its queue lost exactly the popped signal.
    assert_eq!(vm.slot_table.signal_count(4), 3);
    assert_eq!(vm.get_tensor(0).is_none(), true);
    assert_eq!(vm.get_tensor(1).is_none(), true);
}

#[test]
fn pressure_test() {
    let mut vm = fresh(1);
    feed(
        &mut vm,
        &[
            const_f32(0, 1.3),
            const_f32(1, 7.4),
            binary(CRTOpCode::ADDF32, 1, 0, 1),
        ],
    );
    assert_eq!(vm.run_eagerly(), Ok(0));
    approx(&floats(&vm, 1), &[8.7], 0.00001);
    feed(
        &mut vm,
        &[const_f32(0, 1.3), binary(CRTOpCode::ADDF32, 1, 0, 1)],
    );
    assert_eq!(vm.run_eagerly(), Ok(0));
    approx(&floats(&vm, 1), &[10.0], 0.00001);
    for _ in 1..1000 {
        feed(
            &mut vm,
            &[const_f32(0, 1.3), binary(CRTOpCode::ADDF32, 1, 0, 1)],
        );
        assert_eq!(vm.run_eagerly(), Ok(0));
    }
    approx(&floats(&vm, 1), &[1308.7039], 0.00001);
}

#[test]
fn small_add_test() {
    let mut vm = fresh(1);
    let data0: Vec<u32> = vec![1.1f32, 2.2, 3.3].into_iter().map(|x| x.to_bits()).collect();
    let data1: Vec<u32> = vec![1.1f32, 2.2, 3.3].into_iter().map(|x| x.to_bits()).collect();
    vm.push_tensor_buffer(0, data0, vec![1, 3]);
    vm.push_tensor_buffer(1, data1, vec![1, 3]);
    feed(&mut vm, &[binary(CRTOpCode::ADDF32, 4, 1, 0)]);
    assert_eq!(vm.run_eagerly(), Ok(0));
    approx(&floats(&vm, 4), &[2.2, 4.4, 6.6], 0.00001);
}

#[test]
fn exp_test() {
    let (vm, status) = chopper_runtime::demos::exp_test::<F32Backend>(3);
    assert_eq!(status, Ok(0));
    let e = 1.0f32.exp();
    approx(&floats(&vm, 1), &vec![e; 34 * 82 * 3], 0.0001);
}

#[test]
fn bert_block() {
    let (vm, status) = chopper_runtime::demos::bert_block::<MockExecutor>(3);
    assert_eq!(status, Ok(0));
    // The value branch's transposed result was returned and retained; the
    // other slots were dropped at module return.
    assert_eq!(vm.get_tensor_shape(103), vec![32, 16, 128, 64]);
    assert_eq!(vm.get_tensor(101).is_none(), true);
    assert_eq!(vm.get_tensor(102).is_none(), true);
    assert_eq!(vm.get_tensor(0).is_none(), true);
}

#[test]
fn mock_backend_echoes_left_operand() {
    let mut vm: VM<MockExecutor> = VM::new();
    vm.init(2);
    let insts = [
        svalue(0, 1.5, vec![2, 2]),
        svalue(1, 2.5, vec![2, 2]),
        binary(CRTOpCode::ADDF32, 2, 0, 1),
    ];
    for inst in &insts {
        for byte in inst.to_bytes() {
            vm.push_bytecode_into_cmdbuffer(byte);
        }
    }
    assert_eq!(vm.run_eagerly(), Ok(0));
    let bits = vm.get_raw_vec_f32(2);
    for b in bits {
        assert_eq!(f32::from_bits(b), 1.5);
    }
}

#[test]
fn test_create_session() {
    // A machine with a spawned executor pool stands ready.
    let vm = fresh(2);
    assert_eq!(vm.executors.len(), 2);
}

#[test]
fn test_e2e_add() {
    let mut backend = F32Backend::new_with_typeid(0);
    let lhs = tensor_of(vec![1.0, 2.0, 3.0], vec![3]);
    let rhs = tensor_of(vec![11.0, 13.0, 17.0], vec![3]);
    let out = backend
        .binary_compute(CRTOpCode::ADDF32, &lhs, &rhs)
        .unwrap();
    let (values, shape) = f32s_of(&out);
    approx(&values, &[12.0, 15.0, 20.0], 0.00001);
    assert_eq!(shape, vec![3]);
}

#[test]
fn test_e2e_sub() {
    let mut backend = F32Backend::new_with_typeid(0);
    let lhs = tensor_of(vec![1.0, 2.0, 3.0], vec![3]);
    let rhs = tensor_of(vec![11.0, 13.0, 17.0], vec![3]);
    let out = backend
        .binary_compute(CRTOpCode::SUBF32, &lhs, &rhs)
        .unwrap();
    let (values, shape) = f32s_of(&out);
    approx(&values, &[-10.0, -11.0, -14.0], 0.00001);
    assert_eq!(shape, vec![3]);
}

#[test]
fn test_e2e_matmul() {
    let mut backend = F32Backend::new_with_typeid(0);
    let lhs = tensor_of(vec![1.0, 2.0, 3.0, 4.0, 5.0, 6.0], vec![2, 3]);
    let rhs = tensor_of(vec![7.0, 8.0, 9.0, 10.0, 11.0, 12.0], vec![3, 2]);
    let out = backend
        .binary_compute(CRTOpCode::MATMULF32, &lhs, &rhs)
        .unwrap();
    let (values, shape) = f32s_of(&out);
    approx(&values, &[58.0, 64.0, 139.0, 154.0], 0.00001);
    assert_eq!(shape, vec![2, 2]);
}

#[test]
fn mismatched_elementwise_shapes_are_rejected() {
    let mut vm = fresh(1);
    feed(
        &mut vm,
        &[
            svalue(0, 1.0, vec![2, 2]),
            svalue(1, 1.0, vec![4]),
            binary(CRTOpCode::ADDF32, 2, 0, 1),
        ],
    );
    assert_eq!(vm.run_eagerly(), Err(RuntimeStatusError::RT_ERROR));
}

#[test]
fn incompatible_matmul_shapes_are_rejected() {
    let mut vm = fresh(1);
    feed(
        &mut vm,
        &[
            svalue(0, 1.0, vec![2, 3]),
            svalue(1, 1.0, vec![2, 3]),
            binary(CRTOpCode::MATMULF32, 2, 0, 1),
        ],
    );
    assert_eq!(vm.run_eagerly(), Err(RuntimeStatusError::RT_ERROR));
}

#[test]
fn unknown_distribution_is_rejected() {
    let mut vm = fresh(1);
    feed(&mut vm, &[rng(0, 7, vec![2])]);
    assert_eq!(vm.run_eagerly(), Err(RuntimeStatusError::RT_ERROR));
}

#[test]
fn relu_clamps_negative_values() {
    let mut vm = fresh(1);
    feed(
        &mut vm,
        &[
            dense(0, vec![-1.5, 0.0, 2.5, -0.25], vec![4]),
            unary(CRTOpCode::RELU, 1, 0),
        ],
    );
    assert_eq!(vm.run_eagerly(), Ok(0));
    approx(&floats(&vm, 1), &[0.0, 0.0, 2.5, 0.0], 0.00001);
}

#[test]
fn mnist() {
    let (vm, status) = chopper_runtime::demos::mnist::<MockExecutor>(3);
    assert_eq!(status, Ok(0));
    assert_eq!(vm.get_tensor_shape(10), vec![1, 10]);
    assert_eq!(vm.get_tensor(0).is_none(), true);
    assert_eq!(vm.get_tensor(9).is_none(), true);
}

#[test]
fn resnet() {
    let (vm, status) = chopper_runtime::demos::resnet::<MockExecutor>(3);
    assert_eq!(status, Ok(0));
    assert_eq!(vm.get_tensor_shape(90), vec![1, 1000]);
    assert_eq!(vm.get_tensor(87).is_none(), true);
    assert_eq!(vm.get_tensor(100).is_none(), true);
}
