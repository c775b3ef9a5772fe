//! The operation-code table: a closed enumeration with a fixed byte
//! encoding, shared by the bytecode emitter and the interpreter, plus the
//! kernel-query keys and specialisation constants a backend uses to pick a
//! concrete kernel.

use vstd::prelude::*;

verus! {

/// An operation code of the bytecode.
///
/// Every opcode has a fixed byte encoding; a byte that names no operation
/// decodes to `ILLEGAL`, which the interpreter treats as fatal.  `DEVAT` is
/// the module prefix that selects device affinity for the instructions that
/// follow it.
#[derive(Debug, PartialEq, Eq, Structural, Clone, Copy)]
pub enum CRTOpCode {
    HALT,
    LOAD,
    ADDI32,
    SUBI32,
    MULI32,
    FLOORDIVI32,
    CONSTI32,
    CONSTF32,
    ADDF32,
    SUBF32,
    MULF32,
    DIVF32,
    CONSTTENSOR,
    MATMULF32,
    SVALUETENSOR,
    RNGTENSOR,
    EXPF32,
    RETV,
    RESHAPE,
    TRANSPOSE,
    NOOP,
    DEVAT,
    MAXPOOL,
    CONVADD,
    GEMM,
    REDUCEMEAN,
    FLATTEN,
    RELU,
    SOFTMAX,
    ILLEGAL,
}

impl CRTOpCode {
    /// The byte this opcode is encoded as.
    pub open spec fn byte_spec(self) -> u8 {
        match self {
            CRTOpCode::HALT => 0,
            CRTOpCode::LOAD => 1,
            CRTOpCode::ADDI32 => 2,
            CRTOpCode::SUBI32 => 3,
            CRTOpCode::MULI32 => 4,
            CRTOpCode::FLOORDIVI32 => 5,
            CRTOpCode::CONSTI32 => 6,
            CRTOpCode::CONSTF32 => 7,
            CRTOpCode::ADDF32 => 8,
            CRTOpCode::SUBF32 => 9,
            CRTOpCode::MULF32 => 10,
            CRTOpCode::DIVF32 => 11,
            CRTOpCode::CONSTTENSOR => 12,
            CRTOpCode::MATMULF32 => 13,
            CRTOpCode::SVALUETENSOR => 14,
            CRTOpCode::RNGTENSOR => 15,
            CRTOpCode::EXPF32 => 16,
            CRTOpCode::RETV => 17,
            CRTOpCode::RESHAPE => 18,
            CRTOpCode::TRANSPOSE => 19,
            CRTOpCode::NOOP => 20,
            CRTOpCode::DEVAT => 21,
            CRTOpCode::MAXPOOL => 22,
            CRTOpCode::CONVADD => 23,
            CRTOpCode::GEMM => 24,
            CRTOpCode::REDUCEMEAN => 25,
            CRTOpCode::FLATTEN => 26,
            CRTOpCode::RELU => 27,
            CRTOpCode::SOFTMAX => 28,
            CRTOpCode::ILLEGAL => 29,
        }
    }

    /// The opcode a byte decodes to; unknown bytes decode to `ILLEGAL`.
    pub open spec fn from_byte_spec(b: u8) -> CRTOpCode {
        match b {
            0u8 => CRTOpCode::HALT,
            1u8 => CRTOpCode::LOAD,
            2u8 => CRTOpCode::ADDI32,
            3u8 => CRTOpCode::SUBI32,
            4u8 => CRTOpCode::MULI32,
            5u8 => CRTOpCode::FLOORDIVI32,
            6u8 => CRTOpCode::CONSTI32,
            7u8 => CRTOpCode::CONSTF32,
            8u8 => CRTOpCode::ADDF32,
            9u8 => CRTOpCode::SUBF32,
            10u8 => CRTOpCode::MULF32,
            11u8 => CRTOpCode::DIVF32,
            12u8 => CRTOpCode::CONSTTENSOR,
            13u8 => CRTOpCode::MATMULF32,
            14u8 => CRTOpCode::SVALUETENSOR,
            15u8 => CRTOpCode::RNGTENSOR,
            16u8 => CRTOpCode::EXPF32,
            17u8 => CRTOpCode::RETV,
            18u8 => CRTOpCode::RESHAPE,
            19u8 => CRTOpCode::TRANSPOSE,
            20u8 => CRTOpCode::NOOP,
            21u8 => CRTOpCode::DEVAT,
            22u8 => CRTOpCode::MAXPOOL,
            23u8 => CRTOpCode::CONVADD,
            24u8 => CRTOpCode::GEMM,
            25u8 => CRTOpCode::REDUCEMEAN,
            26u8 => CRTOpCode::FLATTEN,
            27u8 => CRTOpCode::RELU,
            28u8 => CRTOpCode::SOFTMAX,
            _ => CRTOpCode::ILLEGAL,
        }
    }

    /// The byte this opcode is encoded as.
    pub fn to_byte(&self) -> (r: u8)
        ensures
            r == self.byte_spec(),
    {
        match self {
            CRTOpCode::HALT => 0,
            CRTOpCode::LOAD => 1,
            CRTOpCode::ADDI32 => 2,
            CRTOpCode::SUBI32 => 3,
            CRTOpCode::MULI32 => 4,
            CRTOpCode::FLOORDIVI32 => 5,
            CRTOpCode::CONSTI32 => 6,
            CRTOpCode::CONSTF32 => 7,
            CRTOpCode::ADDF32 => 8,
            CRTOpCode::SUBF32 => 9,
            CRTOpCode::MULF32 => 10,
            CRTOpCode::DIVF32 => 11,
            CRTOpCode::CONSTTENSOR => 12,
            CRTOpCode::MATMULF32 => 13,
            CRTOpCode::SVALUETENSOR => 14,
            CRTOpCode::RNGTENSOR => 15,
            CRTOpCode::EXPF32 => 16,
            CRTOpCode::RETV => 17,
            CRTOpCode::RESHAPE => 18,
            CRTOpCode::TRANSPOSE => 19,
            CRTOpCode::NOOP => 20,
            CRTOpCode::DEVAT => 21,
            CRTOpCode::MAXPOOL => 22,
            CRTOpCode::CONVADD => 23,
            CRTOpCode::GEMM => 24,
            CRTOpCode::REDUCEMEAN => 25,
            CRTOpCode::FLATTEN => 26,
            CRTOpCode::RELU => 27,
            CRTOpCode::SOFTMAX => 28,
            CRTOpCode::ILLEGAL => 29,
        }
    }

    /// Whether this opcode is an elementwise binary arithmetic operation
    /// (integer or float), matrix multiply excluded.
    pub open spec fn is_elementwise_binary(self) -> bool {
        match self {
            CRTOpCode::ADDI32 => true,
            CRTOpCode::SUBI32 => true,
            CRTOpCode::MULI32 => true,
            CRTOpCode::FLOORDIVI32 => true,
            CRTOpCode::ADDF32 => true,
            CRTOpCode::SUBF32 => true,
            CRTOpCode::MULF32 => true,
            CRTOpCode::DIVF32 => true,
            _ => false,
        }
    }

    /// Whether this opcode is an elementwise binary on integer tensors.
    pub open spec fn is_integer_binary(self) -> bool {
        match self {
            CRTOpCode::ADDI32 => true,
            CRTOpCode::SUBI32 => true,
            CRTOpCode::MULI32 => true,
            CRTOpCode::FLOORDIVI32 => true,
            _ => false,
        }
    }

    /// Whether this opcode takes two tensor operands and produces one.
    pub open spec fn is_binary_op(self) -> bool {
        self.is_elementwise_binary() || self == CRTOpCode::MATMULF32
    }

    /// Whether this opcode takes one tensor operand and produces one.
    pub open spec fn is_unary_op(self) -> bool {
        match self {
            CRTOpCode::EXPF32 => true,
            CRTOpCode::RELU => true,
            CRTOpCode::SOFTMAX => true,
            _ => false,
        }
    }

    /// Whether this opcode is a shape-changing, data-preserving operation.
    pub open spec fn is_dma_op(self) -> bool {
        self == CRTOpCode::RESHAPE || self == CRTOpCode::TRANSPOSE
    }

    /// Whether this opcode is a one-input layer operation whose output
    /// shape comes from its result-type annotation.
    pub open spec fn is_layer_unary(self) -> bool {
        match self {
            CRTOpCode::MAXPOOL => true,
            CRTOpCode::REDUCEMEAN => true,
            CRTOpCode::FLATTEN => true,
            _ => false,
        }
    }

    /// Whether this opcode takes three tensor operands, with the output
    /// shape coming from its result-type annotation.
    pub open spec fn is_ternary_op(self) -> bool {
        self == CRTOpCode::GEMM || self == CRTOpCode::CONVADD
    }

    /// Whether a kernel-query key and a specialisation constant exist for
    /// this opcode.
    pub open spec fn has_kernel_query(self) -> bool {
        self.is_elementwise_binary() || self == CRTOpCode::MATMULF32
    }

    /// The string a backend uses to look up the concrete kernel of this
    /// opcode.
    pub fn to_kernel_query_entry(&self) -> (r: String)
        requires
            self.has_kernel_query(),
        ensures
            self.is_integer_binary() ==> r@ == "binary_arithmetic_i32"@,
            self.is_elementwise_binary() && !self.is_integer_binary() ==> r@
                == "binary_arithmetic_f32"@,
            *self == CRTOpCode::MATMULF32 ==> r@ == "matrix_multiple_f32"@,
    {
        match self {
            CRTOpCode::ADDI32 | CRTOpCode::SUBI32 | CRTOpCode::MULI32 | CRTOpCode::FLOORDIVI32 => {
                "binary_arithmetic_i32".to_owned()
            },
            CRTOpCode::ADDF32 | CRTOpCode::SUBF32 | CRTOpCode::MULF32 | CRTOpCode::DIVF32 => {
                "binary_arithmetic_f32".to_owned()
            },
            _ => "matrix_multiple_f32".to_owned(),
        }
    }

    /// The specialisation constant of this opcode: the arithmetic variant a
    /// kernel is parameterised with.
    pub open spec fn specialise_bits_spec(self) -> u32 {
        match self {
            CRTOpCode::ADDI32 => 0,
            CRTOpCode::ADDF32 => 0,
            CRTOpCode::SUBI32 => 1,
            CRTOpCode::SUBF32 => 1,
            CRTOpCode::MULI32 => 2,
            CRTOpCode::MULF32 => 2,
            CRTOpCode::FLOORDIVI32 => 3,
            CRTOpCode::DIVF32 => 3,
            CRTOpCode::MATMULF32 => 4,
            _ => 0,
        }
    }

    /// The specialisation constant baked into a dispatched kernel:
    /// `0` add, `1` sub, `2` mul, `3` div, `4` matrix multiply.
    pub fn to_specialise_bits(&self) -> (r: u32)
        requires
            self.has_kernel_query(),
        ensures
            r == self.specialise_bits_spec(),
    {
        match self {
            CRTOpCode::ADDI32 | CRTOpCode::ADDF32 => 0,
            CRTOpCode::SUBI32 | CRTOpCode::SUBF32 => 1,
            CRTOpCode::MULI32 | CRTOpCode::MULF32 => 2,
            CRTOpCode::FLOORDIVI32 | CRTOpCode::DIVF32 => 3,
            _ => 4,
        }
    }
}

impl core::convert::From<u8> for CRTOpCode {
    /// Decodes one byte to its opcode; unknown bytes become `ILLEGAL`.
    fn from(v: u8) -> (r: CRTOpCode) {
        match v {
            0u8 => CRTOpCode::HALT,
            1u8 => CRTOpCode::LOAD,
            2u8 => CRTOpCode::ADDI32,
            3u8 => CRTOpCode::SUBI32,
            4u8 => CRTOpCode::MULI32,
            5u8 => CRTOpCode::FLOORDIVI32,
            6u8 => CRTOpCode::CONSTI32,
            7u8 => CRTOpCode::CONSTF32,
            8u8 => CRTOpCode::ADDF32,
            9u8 => CRTOpCode::SUBF32,
            10u8 => CRTOpCode::MULF32,
            11u8 => CRTOpCode::DIVF32,
            12u8 => CRTOpCode::CONSTTENSOR,
            13u8 => CRTOpCode::MATMULF32,
            14u8 => CRTOpCode::SVALUETENSOR,
            15u8 => CRTOpCode::RNGTENSOR,
            16u8 => CRTOpCode::EXPF32,
            17u8 => CRTOpCode::RETV,
            18u8 => CRTOpCode::RESHAPE,
            19u8 => CRTOpCode::TRANSPOSE,
            20u8 => CRTOpCode::NOOP,
            21u8 => CRTOpCode::DEVAT,
            22u8 => CRTOpCode::MAXPOOL,
            23u8 => CRTOpCode::CONVADD,
            24u8 => CRTOpCode::GEMM,
            25u8 => CRTOpCode::REDUCEMEAN,
            26u8 => CRTOpCode::FLATTEN,
            27u8 => CRTOpCode::RELU,
            28u8 => CRTOpCode::SOFTMAX,
            _ => CRTOpCode::ILLEGAL,
        }
    }
}

impl vstd::std_specs::convert::FromSpecImpl<u8> for CRTOpCode {
    open spec fn obeys_from_spec() -> bool {
        true
    }

    open spec fn from_spec(v: u8) -> CRTOpCode {
        CRTOpCode::from_byte_spec(v)
    }
}

/// Decoding the byte an opcode encodes to gives the opcode back.
pub proof fn lemma_opcode_byte_round_trip(op: CRTOpCode)
    ensures
        CRTOpCode::from_byte_spec(op.byte_spec()) == op,
{
}

/// An instruction as the interpreter sees it once fetched: its opcode.
pub struct Instruction {
    pub opcode: CRTOpCode,
}

impl Instruction {
    /// Wraps an opcode.
    pub fn new(opcode: CRTOpCode) -> (r: Instruction)
        ensures
            r.opcode == opcode,
    {
        Instruction { opcode }
    }
}

} // verus!
