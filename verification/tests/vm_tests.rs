//! Machine tests: stepping, decoding, the integer kernels through the
//! reference backend, and shape-changing operations with their
//! readiness-queue refresh.

use chopper_runtime::assembler::{AsmInstruction, Token};
use chopper_runtime::executors::ReferenceExecutor;
use chopper_runtime::instruction::CRTOpCode;
use chopper_runtime::slots::SlotTable;
use chopper_runtime::vm::VM;

fn op(code: CRTOpCode) -> Token {
    Token::BytecodeOpCode { code }
}

fn var(symbol: u8) -> Token {
    Token::Variable { symbol }
}

fn const_i32(out: u8, value: i32) -> AsmInstruction {
    AsmInstruction::new(
        op(CRTOpCode::CONSTI32),
        Some(var(out)),
        Some(Token::I32Literal { value }),
        None,
    )
}

fn binary(code: CRTOpCode, out: u8, lhs: u8, rhs: u8) -> AsmInstruction {
    AsmInstruction::new(op(code), Some(var(out)), Some(var(lhs)), Some(var(rhs)))
}

fn ones(out: u8, shape: Vec<usize>) -> AsmInstruction {
    AsmInstruction::new(
        op(CRTOpCode::SVALUETENSOR),
        Some(var(out)),
        Some(Token::UninitTensor {
            generator_bits: 1.0f32.to_bits(),
            shape,
        }),
        None,
    )
}

fn reshape(out: u8, input: u8, dims: Vec<usize>) -> AsmInstruction {
    AsmInstruction::new(
        op(CRTOpCode::RESHAPE),
        Some(var(out)),
        Some(var(input)),
        Some(Token::Shape { dims }),
    )
}

fn feed(vm: &mut VM<ReferenceExecutor>, instructions: &[AsmInstruction]) {
    for inst in instructions {
        for byte in inst.to_bytes() {
            vm.push_bytecode_into_cmdbuffer(byte);
        }
    }
}

#[test]
fn test_create_vm_struct() {
    let vm: VM<ReferenceExecutor> = VM::new();
    assert_eq!(vm.registers()[0], 0);
}

#[test]
fn test_halt_step() {
    let mut vm: VM<ReferenceExecutor> = VM::new();
    vm.init(2);
    vm.inst_buffer = vec![0, 0, 0];
    let exit_code = vm.eager_step();
    assert_eq!(exit_code.is_ok(), true);
    let u8_exit_code = exit_code.unwrap();
    assert_eq!(u8_exit_code, 1);
    assert_eq!(vm.program_counter, 1);
}

#[test]
fn test_vm_dummy() {
    let mut vm: VM<ReferenceExecutor> = VM::new();
    vm.init(2);
    vm.inst_buffer = vec![];
    let exit_code = vm.eager_step();
    assert_eq!(exit_code.is_err(), true);
    assert_eq!(vm.program_counter, 0);
}

#[test]
fn test_vm_illegal() {
    let mut vm: VM<ReferenceExecutor> = VM::new();
    vm.inst_buffer = vec![255];
    vm.init(2);
    let exit_code = vm.eager_step();
    assert_eq!(exit_code.is_ok(), false);
    assert_eq!(vm.program_counter, 1);
}

#[test]
fn test_vm_fetch_instruction() {
    let mut vm: VM<ReferenceExecutor> = VM::new();
    vm.inst_buffer = vec![0];
    let opcode = vm.fetch_instruction();
    assert_eq!(opcode.unwrap(), CRTOpCode::HALT);
}

#[test]
fn test_vm_next_byte() {
    let mut vm: VM<ReferenceExecutor> = VM::new();
    vm.inst_buffer = vec![8];
    let data = vm.decode_u8();
    assert_eq!(data, 8);
}

#[test]
fn test_vm_next_two_bytes() {
    let mut vm: VM<ReferenceExecutor> = VM::new();
    vm.inst_buffer = vec![2, 7];
    let data = vm.get_next_two_bytes();
    assert_eq!(data, 519);
}

#[test]
fn load_writes_a_register() {
    let mut vm: VM<ReferenceExecutor> = VM::new();
    vm.init(1);
    feed(
        &mut vm,
        &[AsmInstruction::new(
            op(CRTOpCode::LOAD),
            Some(var(3)),
            Some(Token::I32Literal { value: 1000 }),
            None,
        )],
    );
    assert_eq!(vm.run_eagerly(), Ok(0));
    assert_eq!(vm.registers()[3], 1000);
}

#[test]
fn test_mock_bytecode_i32_literal() {
    let mut vm: VM<ReferenceExecutor> = VM::new();
    vm.init(2);
    feed(&mut vm, &[const_i32(17, 13)]);
    let status = vm.run_eagerly();
    assert_eq!(status.is_ok(), true);
    assert_eq!(status.unwrap(), 0);
    assert_eq!(vm.get_raw_vec_i32(17), vec![13]);
    assert_eq!(vm.get_tensor_shape(17), vec![1]);
}

#[test]
fn test_mock_bytecode_binary_add_i32() {
    let mut vm: VM<ReferenceExecutor> = VM::new();
    vm.init(2);
    feed(
        &mut vm,
        &[
            const_i32(1, 1),
            const_i32(2, 2),
            binary(CRTOpCode::ADDI32, 3, 1, 2),
        ],
    );
    let status = vm.run_eagerly();
    assert_eq!(status.is_ok(), true);
    assert_eq!(vm.get_raw_vec_i32(1), vec![1]);
    assert_eq!(vm.get_raw_vec_i32(2), vec![2]);
    assert_eq!(vm.get_raw_vec_i32(3), vec![3]);
}

#[test]
fn test_mock_bytecode_binary_sub_i32() {
    let mut vm: VM<ReferenceExecutor> = VM::new();
    vm.init(2);
    feed(
        &mut vm,
        &[
            const_i32(1, 1),
            const_i32(2, 2),
            binary(CRTOpCode::SUBI32, 3, 1, 2),
        ],
    );
    assert_eq!(vm.run_eagerly(), Ok(0));
    assert_eq!(vm.get_raw_vec_i32(3), vec![-1]);
}

#[test]
fn test_mock_bytecode_binary_mul_i32() {
    let mut vm: VM<ReferenceExecutor> = VM::new();
    vm.init(2);
    feed(
        &mut vm,
        &[
            const_i32(1, 1),
            const_i32(2, 2),
            binary(CRTOpCode::MULI32, 3, 1, 2),
        ],
    );
    assert_eq!(vm.run_eagerly(), Ok(0));
    assert_eq!(vm.get_raw_vec_i32(3), vec![2]);
}

#[test]
fn test_mock_bytecode_binary_floordiv_i32() {
    let mut vm: VM<ReferenceExecutor> = VM::new();
    vm.init(2);
    feed(
        &mut vm,
        &[
            const_i32(1, 1),
            const_i32(2, 2),
            binary(CRTOpCode::FLOORDIVI32, 3, 1, 2),
        ],
    );
    assert_eq!(vm.run_eagerly(), Ok(0));
    assert_eq!(vm.get_raw_vec_i32(3), vec![0]);
}

#[test]
fn test_mock_bytecode_binary_floordiv_i32_case2() {
    let mut vm: VM<ReferenceExecutor> = VM::new();
    vm.init(2);
    feed(
        &mut vm,
        &[
            const_i32(1, 7),
            const_i32(2, 2),
            binary(CRTOpCode::FLOORDIVI32, 3, 1, 2),
        ],
    );
    assert_eq!(vm.run_eagerly(), Ok(0));
    assert_eq!(vm.get_raw_vec_i32(1), vec![7]);
    assert_eq!(vm.get_raw_vec_i32(2), vec![2]);
    assert_eq!(vm.get_raw_vec_i32(3), vec![3]);
}

#[test]
fn test_mock_bytecode_f32_binary_add_then_sub_i32() {
    let mut vm: VM<ReferenceExecutor> = VM::new();
    vm.init(2);
    feed(
        &mut vm,
        &[
            const_i32(8, 3),
            const_i32(7, 2),
            const_i32(1, 7),
            binary(CRTOpCode::ADDI32, 4, 8, 7),
            binary(CRTOpCode::SUBI32, 5, 1, 4),
        ],
    );
    assert_eq!(vm.run_eagerly(), Ok(0));
    assert_eq!(vm.get_raw_vec_i32(4), vec![5]);
    assert_eq!(vm.get_raw_vec_i32(5), vec![2]);
}

#[test]
fn floordiv_by_zero_is_a_runtime_error() {
    let mut vm: VM<ReferenceExecutor> = VM::new();
    vm.init(1);
    feed(
        &mut vm,
        &[
            const_i32(1, 7),
            const_i32(2, 0),
            binary(CRTOpCode::FLOORDIVI32, 3, 1, 2),
        ],
    );
    let status = vm.run_eagerly();
    assert_eq!(
        status,
        Err(chopper_runtime::RuntimeStatusError::RT_ERROR)
    );
}

#[test]
fn missing_input_slot_is_a_runtime_error() {
    let mut vm: VM<ReferenceExecutor> = VM::new();
    vm.init(1);
    feed(&mut vm, &[binary(CRTOpCode::ADDI32, 3, 1, 2)]);
    let status = vm.run_eagerly();
    assert_eq!(
        status,
        Err(chopper_runtime::RuntimeStatusError::RT_ERROR)
    );
}

#[test]
fn test_reshape() {
    let mut vm: VM<ReferenceExecutor> = VM::new();
    vm.init(1);
    feed(
        &mut vm,
        &[ones(0, vec![34, 82, 3]), reshape(1, 0, vec![102, 82, 1])],
    );
    assert_eq!(vm.run_eagerly(), Ok(0));
    assert_eq!(vm.get_tensor_shape(0), vec![34, 82, 3]);
    assert_eq!(vm.get_tensor_shape(1), vec![102, 82, 1]);
    let bits = vm.get_raw_vec_f32(1);
    assert_eq!(bits.len(), 102 * 82);
    for b in bits {
        assert_eq!(f32::from_bits(b), 1.0);
    }
}

#[test]
fn test_reshape_inplace() {
    let mut vm: VM<ReferenceExecutor> = VM::new();
    vm.init(1);
    feed(
        &mut vm,
        &[ones(0, vec![34, 82, 3]), reshape(0, 0, vec![102, 82, 1])],
    );
    assert_eq!(vm.run_eagerly(), Ok(0));
    assert_eq!(vm.get_tensor_shape(0), vec![102, 82, 1]);
    let bits = vm.get_raw_vec_f32(0);
    assert_eq!(bits.len(), 102 * 82);
    for b in bits {
        assert_eq!(f32::from_bits(b), 1.0);
    }
    // The write refreshed the slot's readiness queue with a dispatch batch.
    assert_eq!(vm.slot_table.signal_count(0), 4);
}

#[test]
fn redefinition_replaces_tensor_and_queue() {
    let mut vm: VM<ReferenceExecutor> = VM::new();
    vm.init(1);
    feed(&mut vm, &[const_i32(5, 1)]);
    assert_eq!(vm.run_eagerly(), Ok(0));
    assert_eq!(vm.get_raw_vec_i32(5), vec![1]);
    assert_eq!(vm.slot_table.signal_count(5), 8);
    feed(&mut vm, &[const_i32(5, 9)]);
    assert_eq!(vm.run_eagerly(), Ok(0));
    assert_eq!(vm.get_raw_vec_i32(5), vec![9]);
    assert_eq!(vm.slot_table.signal_count(5), 8);
}

#[test]
fn reshape_with_wrong_element_count_is_rejected() {
    let mut vm: VM<ReferenceExecutor> = VM::new();
    vm.init(1);
    feed(&mut vm, &[ones(0, vec![2, 2]), reshape(1, 0, vec![5])]);
    let status = vm.run_eagerly();
    assert_eq!(
        status,
        Err(chopper_runtime::RuntimeStatusError::RT_ERROR)
    );
}

#[test]
fn device_prefix_sets_affinity() {
    let mut vm: VM<ReferenceExecutor> = VM::new();
    vm.init(3);
    vm.push_bytecode_into_cmdbuffer(21);
    vm.push_bytecode_into_cmdbuffer(2);
    assert_eq!(vm.run_eagerly(), Ok(0));
    assert_eq!(vm.device_affinity, Some(2));
    vm.push_bytecode_into_cmdbuffer(21);
    vm.push_bytecode_into_cmdbuffer(255);
    assert_eq!(vm.run_eagerly(), Ok(0));
    assert_eq!(vm.device_affinity, None);
}

#[test]
fn two_runs_agree_bit_for_bit() {
    let program = [
        const_i32(1, 41),
        const_i32(2, 13),
        binary(CRTOpCode::MULI32, 3, 1, 2),
        binary(CRTOpCode::SUBI32, 4, 3, 2),
        ones(5, vec![2, 3]),
        reshape(6, 5, vec![3, 2]),
    ];
    let mut first: VM<ReferenceExecutor> = VM::new();
    first.init(2);
    feed(&mut first, &program);
    assert_eq!(first.run_eagerly(), Ok(0));
    let mut second: VM<ReferenceExecutor> = VM::new();
    second.init(2);
    feed(&mut second, &program);
    assert_eq!(second.run_eagerly(), Ok(0));
    assert_eq!(first.get_raw_vec_i32(3), second.get_raw_vec_i32(3));
    assert_eq!(first.get_raw_vec_i32(4), second.get_raw_vec_i32(4));
    assert_eq!(first.get_raw_vec_i32(4), vec![520]);
    assert_eq!(first.get_raw_vec_f32(6), second.get_raw_vec_f32(6));
    assert_eq!(first.get_tensor_shape(6), second.get_tensor_shape(6));
}

#[test]
fn placeholder_creation_is_idempotent() {
    let mut table = SlotTable::new();
    table.get_or_put_placeholder(9, vec![2, 2]);
    match table.get_tensor(9) {
        Some(t) => assert_eq!(t.shape(), vec![2, 2]),
        None => panic!("placeholder missing"),
    }
    // A second call must leave the occupied slot alone.
    table.get_or_put_placeholder(9, vec![5]);
    match table.get_tensor(9) {
        Some(t) => assert_eq!(t.shape(), vec![2, 2]),
        None => panic!("placeholder missing"),
    }
    table.put_placeholder(9, vec![3]);
    match table.get_tensor(9) {
        Some(t) => assert_eq!(t.shape(), vec![3]),
        None => panic!("placeholder missing"),
    }
}

#[test]
fn load_register_out_of_range_is_rejected() {
    let mut vm: VM<ReferenceExecutor> = VM::new();
    vm.init(1);
    feed(
        &mut vm,
        &[AsmInstruction::new(
            op(CRTOpCode::LOAD),
            Some(var(40)),
            Some(Token::I32Literal { value: 7 }),
            None,
        )],
    );
    assert_eq!(
        vm.run_eagerly(),
        Err(chopper_runtime::RuntimeStatusError::RT_ERROR)
    );
}

#[test]
fn truncated_instruction_is_a_decode_error() {
    let mut vm: VM<ReferenceExecutor> = VM::new();
    vm.init(1);
    // A scalar constant cut off after its destination slot.
    vm.inst_buffer = vec![6, 0, 13];
    assert_eq!(
        vm.run_eagerly(),
        Err(chopper_runtime::RuntimeStatusError::RT_ERROR)
    );
}

#[test]
fn truncated_device_prefix_is_a_decode_error() {
    let mut vm: VM<ReferenceExecutor> = VM::new();
    vm.init(1);
    vm.inst_buffer = vec![21];
    assert_eq!(
        vm.run_eagerly(),
        Err(chopper_runtime::RuntimeStatusError::RT_ERROR)
    );
}

#[test]
fn overflowing_generator_shape_is_rejected() {
    let mut vm: VM<ReferenceExecutor> = VM::new();
    vm.init(1);
    feed(&mut vm, &[ones(0, vec![usize::MAX, 2])]);
    assert_eq!(
        vm.run_eagerly(),
        Err(chopper_runtime::RuntimeStatusError::RT_ERROR)
    );
}

#[test]
fn integer_addition_wraps() {
    let mut vm: VM<ReferenceExecutor> = VM::new();
    vm.init(1);
    feed(
        &mut vm,
        &[
            const_i32(1, i32::MAX),
            const_i32(2, 1),
            binary(CRTOpCode::ADDI32, 3, 1, 2),
        ],
    );
    assert_eq!(vm.run_eagerly(), Ok(0));
    assert_eq!(vm.get_raw_vec_i32(3), vec![i32::MIN]);
}

#[test]
fn division_minimum_by_minus_one_wraps() {
    let mut vm: VM<ReferenceExecutor> = VM::new();
    vm.init(1);
    feed(
        &mut vm,
        &[
            const_i32(1, i32::MIN),
            const_i32(2, -1),
            binary(CRTOpCode::FLOORDIVI32, 3, 1, 2),
        ],
    );
    assert_eq!(vm.run_eagerly(), Ok(0));
    assert_eq!(vm.get_raw_vec_i32(3), vec![i32::MIN]);
}

#[test]
fn negative_division_truncates_toward_zero() {
    let mut vm: VM<ReferenceExecutor> = VM::new();
    vm.init(1);
    feed(
        &mut vm,
        &[
            const_i32(1, -7),
            const_i32(2, 2),
            binary(CRTOpCode::FLOORDIVI32, 3, 1, 2),
            const_i32(4, 7),
            const_i32(5, -2),
            binary(CRTOpCode::FLOORDIVI32, 6, 4, 5),
        ],
    );
    assert_eq!(vm.run_eagerly(), Ok(0));
    assert_eq!(vm.get_raw_vec_i32(3), vec![-3]);
    assert_eq!(vm.get_raw_vec_i32(6), vec![-3]);
}

#[test]
fn lazy_consumption_beyond_the_fanout_is_rejected() {
    let mut vm: VM<ReferenceExecutor> = VM::new();
    vm.init(1);
    // Slot 0 gets eight ready signals; its reshape results get four each.
    // Five consumers of one dispatch batch exhaust the queue.
    let mut insts = vec![ones(0, vec![4]), reshape(1, 0, vec![4])];
    for k in 0..5 {
        insts.push(reshape(10 + k, 1, vec![2, 2]));
    }
    feed(&mut vm, &insts);
    assert_eq!(
        vm.run_lazily(),
        Err(chopper_runtime::RuntimeStatusError::RT_ERROR)
    );
}

#[test]
fn lazy_return_without_signals_is_rejected() {
    let mut vm: VM<ReferenceExecutor> = VM::new();
    vm.init(1);
    feed(
        &mut vm,
        &[AsmInstruction::new(
            op(CRTOpCode::RETV),
            Some(var(3)),
            None,
            None,
        )],
    );
    assert_eq!(
        vm.run_lazily(),
        Err(chopper_runtime::RuntimeStatusError::RT_ERROR)
    );
}

#[test]
fn dense_literal_with_wrong_element_count_is_rejected() {
    let mut vm: VM<ReferenceExecutor> = VM::new();
    vm.init(1);
    feed(
        &mut vm,
        &[AsmInstruction::new(
            op(CRTOpCode::CONSTTENSOR),
            Some(var(0)),
            Some(Token::Tensor {
                raw_data: vec![1, 2, 3],
                shape: vec![2, 2],
            }),
            None,
        )],
    );
    assert_eq!(
        vm.run_eagerly(),
        Err(chopper_runtime::RuntimeStatusError::RT_ERROR)
    );
}

#[test]
fn halt_terminates_interpretation_with_success() {
    let mut vm: VM<ReferenceExecutor> = VM::new();
    vm.init(1);
    let halt = AsmInstruction::new(op(CRTOpCode::HALT), None, None, None);
    feed(&mut vm, &[halt, const_i32(5, 9)]);
    assert_eq!(vm.run_eagerly(), Ok(0));
    // The instruction after the halt was never executed.
    assert_eq!(vm.get_tensor(5).is_none(), true);
    assert_eq!(vm.program_counter, 1);
}
