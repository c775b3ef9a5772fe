//! Bytecode emitter tests: exact byte fixtures for each instruction form,
//! and module / program layout with the device-affinity prefix.

use chopper_runtime::assembler::{AsmInstruction, Module, Program, Token};
use chopper_runtime::instruction::CRTOpCode;
use chopper_runtime::ElementType;

fn op(code: CRTOpCode) -> Token {
    Token::BytecodeOpCode { code }
}

fn var(symbol: u8) -> Token {
    Token::Variable { symbol }
}

#[test]
fn encode_halt() {
    let inst = AsmInstruction::new(op(CRTOpCode::HALT), None, None, None);
    assert_eq!(inst.to_bytes(), vec![0]);
}

#[test]
fn encode_return() {
    let inst = AsmInstruction::new(op(CRTOpCode::RETV), Some(var(1)), None, None);
    assert_eq!(inst.to_bytes(), vec![17, 1]);
}

#[test]
fn encode_add_i32() {
    let inst = AsmInstruction::new(
        op(CRTOpCode::ADDI32),
        Some(var(0)),
        Some(var(2)),
        Some(var(3)),
    );
    assert_eq!(inst.to_bytes(), vec![2, 0, 2, 3]);
}

#[test]
fn encode_sub_i32() {
    let inst = AsmInstruction::new(
        op(CRTOpCode::SUBI32),
        Some(var(0)),
        Some(var(2)),
        Some(var(3)),
    );
    assert_eq!(inst.to_bytes(), vec![3, 0, 2, 3]);
}

#[test]
fn encode_mul_i32() {
    let inst = AsmInstruction::new(
        op(CRTOpCode::MULI32),
        Some(var(1)),
        Some(var(2)),
        Some(var(3)),
    );
    assert_eq!(inst.to_bytes(), vec![4, 1, 2, 3]);
}

#[test]
fn encode_floordiv_i32() {
    let inst = AsmInstruction::new(
        op(CRTOpCode::FLOORDIVI32),
        Some(var(3)),
        Some(var(2)),
        Some(var(0)),
    );
    assert_eq!(inst.to_bytes(), vec![5, 3, 2, 0]);
}

#[test]
fn encode_matmul_f32() {
    let inst = AsmInstruction::new(
        op(CRTOpCode::MATMULF32),
        Some(var(0)),
        Some(var(7)),
        Some(var(9)),
    );
    assert_eq!(inst.to_bytes(), vec![13, 0, 7, 9]);
}

#[test]
fn encode_const_i32() {
    let inst = AsmInstruction::new(
        op(CRTOpCode::CONSTI32),
        Some(var(0)),
        Some(Token::I32Literal { value: 13 }),
        None,
    );
    assert_eq!(inst.to_bytes(), vec![6, 0, 13, 0, 0, 0]);
}

#[test]
fn encode_const_f32() {
    let inst = AsmInstruction::new(
        op(CRTOpCode::CONSTF32),
        Some(var(0)),
        Some(Token::F32Literal {
            bits: 13.0f32.to_bits(),
        }),
        None,
    );
    assert_eq!(inst.to_bytes(), vec![7, 0, 0, 0, 80, 65]);
}

#[test]
fn encode_const_tensor() {
    let data: Vec<u32> = vec![1.1f32, 2.2, 3.3, 4.4, 5.5, 6.6]
        .into_iter()
        .map(|x| x.to_bits())
        .collect();
    let inst = AsmInstruction::new(
        op(CRTOpCode::CONSTTENSOR),
        Some(var(0)),
        Some(Token::Tensor {
            raw_data: data,
            shape: vec![2, 3],
        }),
        None,
    );
    assert_eq!(
        inst.to_bytes(),
        vec![
            12, 0, 32, 0, 6, 0, 0, 0, 0, 0, 0, 0, 205, 204, 140, 63, 205, 204, 12, 64, 51, 51, 83,
            64, 205, 204, 140, 64, 0, 0, 176, 64, 51, 51, 211, 64, 24, 0, 2, 0, 0, 0, 0, 0, 0, 0,
            2, 0, 0, 0, 0, 0, 0, 0, 3, 0, 0, 0, 0, 0, 0, 0
        ]
    );
}

#[test]
fn encode_svalue_tensor() {
    let inst = AsmInstruction::new(
        op(CRTOpCode::SVALUETENSOR),
        Some(var(8)),
        Some(Token::UninitTensor {
            generator_bits: 1.0f32.to_bits(),
            shape: vec![8, 3],
        }),
        None,
    );
    assert_eq!(
        inst.to_bytes(),
        vec![
            14, 8, 0, 0, 128, 63, 24, 0, 2, 0, 0, 0, 0, 0, 0, 0, 8, 0, 0, 0, 0, 0, 0, 0, 3, 0, 0,
            0, 0, 0, 0, 0
        ]
    );
}

#[test]
fn encode_rng_tensor() {
    let inst = AsmInstruction::new(
        op(CRTOpCode::RNGTENSOR),
        Some(var(8)),
        Some(Token::UninitRNGTensor {
            distribution: 0,
            shape: vec![2],
        }),
        None,
    );
    assert_eq!(
        inst.to_bytes(),
        vec![15, 8, 0, 16, 0, 1, 0, 0, 0, 0, 0, 0, 0, 2, 0, 0, 0, 0, 0, 0, 0]
    );
}

#[test]
fn encode_reshape() {
    let inst = AsmInstruction::new(
        op(CRTOpCode::RESHAPE),
        Some(var(1)),
        Some(var(0)),
        Some(Token::Shape { dims: vec![4] }),
    );
    assert_eq!(
        inst.to_bytes(),
        vec![18, 1, 0, 16, 0, 1, 0, 0, 0, 0, 0, 0, 0, 4, 0, 0, 0, 0, 0, 0, 0]
    );
}

#[test]
fn encode_load() {
    let inst = AsmInstruction::new(
        op(CRTOpCode::LOAD),
        Some(var(0)),
        Some(Token::I32Literal { value: 1000 }),
        None,
    );
    // The 16-bit immediate travels big-endian: 1000 = 0x03e8.
    assert_eq!(inst.to_bytes(), vec![1, 0, 3, 232]);
}

#[test]
fn module_emits_device_prefix() {
    let c13 = AsmInstruction::new(
        op(CRTOpCode::CONSTI32),
        Some(var(0)),
        Some(Token::I32Literal { value: 13 }),
        None,
    );
    let module = Module {
        dev_at: None,
        instructions: vec![c13.clone(), c13],
    };
    assert_eq!(
        module.to_bytes(),
        vec![21, 255, 6, 0, 13, 0, 0, 0, 6, 0, 13, 0, 0, 0]
    );
    assert_eq!(module.dev(), None);
}

#[test]
fn program_concatenates_modules() {
    let halt = AsmInstruction::new(op(CRTOpCode::HALT), None, None, None);
    let noop = AsmInstruction::new(op(CRTOpCode::NOOP), None, None, None);
    let m0 = Module {
        dev_at: None,
        instructions: vec![noop],
    };
    let m1 = Module {
        dev_at: Some(2),
        instructions: vec![halt],
    };
    let program = Program { mods: vec![m0, m1] };
    assert_eq!(program.to_bytes(), vec![21, 255, 20, 21, 2, 0]);
    assert_eq!(program.dev_at_mod_idx(0), None);
    assert_eq!(program.dev_at_mod_idx(1), Some(2));
}

#[test]
fn encode_maxpool_with_annotation() {
    let inst = AsmInstruction::new_annotated(
        op(CRTOpCode::MAXPOOL),
        Some(var(0)),
        Some(var(100)),
        None,
        None,
        Some(Token::RankedTensorType {
            dtype: ElementType::F32,
            shape: vec![2],
        }),
    );
    assert_eq!(
        inst.to_bytes(),
        vec![22, 0, 100, 2, 16, 0, 1, 0, 0, 0, 0, 0, 0, 0, 2, 0, 0, 0, 0, 0, 0, 0]
    );
}

#[test]
fn encode_gemm_with_annotation() {
    let inst = AsmInstruction::new_annotated(
        op(CRTOpCode::GEMM),
        Some(var(5)),
        Some(var(2)),
        Some(var(3)),
        Some(var(4)),
        Some(Token::RankedTensorType {
            dtype: ElementType::F32,
            shape: vec![1, 10],
        }),
    );
    assert_eq!(
        inst.to_bytes(),
        vec![
            24, 5, 2, 3, 4, 2, 24, 0, 2, 0, 0, 0, 0, 0, 0, 0, 1, 0, 0, 0, 0, 0, 0, 0, 10, 0, 0, 0,
            0, 0, 0, 0
        ]
    );
}
