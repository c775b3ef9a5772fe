//! Opcode table tests: identity, byte round trips, kernel-query keys and
//! specialisation constants.

use chopper_runtime::instruction::{CRTOpCode, Instruction};
use chopper_runtime::ElementType;

#[test]
fn test_opcodes() {
    let opcode = CRTOpCode::HALT;
    assert_eq!(opcode, CRTOpCode::HALT);

    let opcode = CRTOpCode::LOAD;
    assert_eq!(opcode, CRTOpCode::LOAD);

    let opcode = CRTOpCode::ADDI32;
    assert_eq!(opcode, CRTOpCode::ADDI32);

    let opcode = CRTOpCode::SUBI32;
    assert_eq!(opcode, CRTOpCode::SUBI32);

    let opcode = CRTOpCode::MULI32;
    assert_eq!(opcode, CRTOpCode::MULI32);

    let opcode = CRTOpCode::FLOORDIVI32;
    assert_eq!(opcode, CRTOpCode::FLOORDIVI32);

    let opcode = CRTOpCode::CONSTI32;
    assert_eq!(opcode, CRTOpCode::CONSTI32);

    let opcode = CRTOpCode::CONSTF32;
    assert_eq!(opcode, CRTOpCode::CONSTF32);

    let opcode = CRTOpCode::CONSTTENSOR;
    assert_eq!(opcode, CRTOpCode::CONSTTENSOR);
}

#[test]
fn test_create_opcode() {
    let opcode = CRTOpCode::ILLEGAL;
    let inst = Instruction::new(opcode);
    assert_eq!(inst.opcode, CRTOpCode::ILLEGAL);

    let opcode = CRTOpCode::CONSTF32;
    let inst = Instruction::new(opcode);
    assert_eq!(inst.opcode, CRTOpCode::CONSTF32);

    let opcode = CRTOpCode::CONSTI32;
    let inst = Instruction::new(opcode);
    assert_eq!(inst.opcode, CRTOpCode::CONSTI32);

    let opcode = CRTOpCode::CONSTTENSOR;
    let inst = Instruction::new(opcode);
    assert_eq!(inst.opcode, CRTOpCode::CONSTTENSOR);

    let opcode = CRTOpCode::MATMULF32;
    let inst = Instruction::new(opcode);
    assert_eq!(inst.opcode, CRTOpCode::MATMULF32);
}

#[test]
fn opcode_byte_encoding_is_fixed() {
    assert_eq!(CRTOpCode::HALT.to_byte(), 0);
    assert_eq!(CRTOpCode::LOAD.to_byte(), 1);
    assert_eq!(CRTOpCode::ADDI32.to_byte(), 2);
    assert_eq!(CRTOpCode::SUBI32.to_byte(), 3);
    assert_eq!(CRTOpCode::MULI32.to_byte(), 4);
    assert_eq!(CRTOpCode::FLOORDIVI32.to_byte(), 5);
    assert_eq!(CRTOpCode::CONSTI32.to_byte(), 6);
    assert_eq!(CRTOpCode::CONSTF32.to_byte(), 7);
    assert_eq!(CRTOpCode::ADDF32.to_byte(), 8);
    assert_eq!(CRTOpCode::SUBF32.to_byte(), 9);
    assert_eq!(CRTOpCode::MULF32.to_byte(), 10);
    assert_eq!(CRTOpCode::DIVF32.to_byte(), 11);
    assert_eq!(CRTOpCode::CONSTTENSOR.to_byte(), 12);
    assert_eq!(CRTOpCode::MATMULF32.to_byte(), 13);
    assert_eq!(CRTOpCode::SVALUETENSOR.to_byte(), 14);
    assert_eq!(CRTOpCode::RNGTENSOR.to_byte(), 15);
    assert_eq!(CRTOpCode::EXPF32.to_byte(), 16);
    assert_eq!(CRTOpCode::RETV.to_byte(), 17);
    assert_eq!(CRTOpCode::RESHAPE.to_byte(), 18);
    assert_eq!(CRTOpCode::TRANSPOSE.to_byte(), 19);
    assert_eq!(CRTOpCode::NOOP.to_byte(), 20);
    assert_eq!(CRTOpCode::DEVAT.to_byte(), 21);
}

#[test]
fn opcode_byte_round_trip() {
    let all = vec![
        CRTOpCode::HALT,
        CRTOpCode::LOAD,
        CRTOpCode::ADDI32,
        CRTOpCode::SUBI32,
        CRTOpCode::MULI32,
        CRTOpCode::FLOORDIVI32,
        CRTOpCode::CONSTI32,
        CRTOpCode::CONSTF32,
        CRTOpCode::ADDF32,
        CRTOpCode::SUBF32,
        CRTOpCode::MULF32,
        CRTOpCode::DIVF32,
        CRTOpCode::CONSTTENSOR,
        CRTOpCode::MATMULF32,
        CRTOpCode::SVALUETENSOR,
        CRTOpCode::RNGTENSOR,
        CRTOpCode::EXPF32,
        CRTOpCode::RETV,
        CRTOpCode::RESHAPE,
        CRTOpCode::TRANSPOSE,
        CRTOpCode::NOOP,
        CRTOpCode::DEVAT,
        CRTOpCode::MAXPOOL,
        CRTOpCode::CONVADD,
        CRTOpCode::GEMM,
        CRTOpCode::REDUCEMEAN,
        CRTOpCode::FLATTEN,
        CRTOpCode::RELU,
        CRTOpCode::SOFTMAX,
        CRTOpCode::ILLEGAL,
    ];
    for op in all {
        assert_eq!(CRTOpCode::from(op.to_byte()), op);
    }
    assert_eq!(CRTOpCode::from(255u8), CRTOpCode::ILLEGAL);
    assert_eq!(CRTOpCode::from(200u8), CRTOpCode::ILLEGAL);
}

#[test]
fn kernel_query_entries() {
    assert_eq!(
        CRTOpCode::ADDI32.to_kernel_query_entry().as_str(),
        "binary_arithmetic_i32"
    );
    assert_eq!(
        CRTOpCode::DIVF32.to_kernel_query_entry().as_str(),
        "binary_arithmetic_f32"
    );
    assert_eq!(
        CRTOpCode::MATMULF32.to_kernel_query_entry().as_str(),
        "matrix_multiple_f32"
    );
}

#[test]
fn specialise_bits_select_arithmetic() {
    assert_eq!(CRTOpCode::ADDI32.to_specialise_bits(), 0);
    assert_eq!(CRTOpCode::ADDF32.to_specialise_bits(), 0);
    assert_eq!(CRTOpCode::SUBI32.to_specialise_bits(), 1);
    assert_eq!(CRTOpCode::SUBF32.to_specialise_bits(), 1);
    assert_eq!(CRTOpCode::MULI32.to_specialise_bits(), 2);
    assert_eq!(CRTOpCode::MULF32.to_specialise_bits(), 2);
    assert_eq!(CRTOpCode::FLOORDIVI32.to_specialise_bits(), 3);
    assert_eq!(CRTOpCode::DIVF32.to_specialise_bits(), 3);
    assert_eq!(CRTOpCode::MATMULF32.to_specialise_bits(), 4);
}

#[test]
fn element_type_codes() {
    assert_eq!(ElementType::I32.code(), 0);
    assert_eq!(ElementType::I64.code(), 1);
    assert_eq!(ElementType::F32.code(), 2);
    assert_eq!(ElementType::from_code(0), Some(ElementType::I32));
    assert_eq!(ElementType::from_code(1), Some(ElementType::I64));
    assert_eq!(ElementType::from_code(2), Some(ElementType::F32));
    assert_eq!(ElementType::from_code(3), None);
}

#[test]
fn dummy_test() {
    assert_eq!(0, 0);
}
