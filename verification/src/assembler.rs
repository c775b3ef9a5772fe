//! The assembler's intermediate representation and the bytecode emitter.
//!
//! A token is the tagged operand form an instruction carries; an assembler
//! instruction is an opcode token with up to three positional operands; a
//! module is an optional device-affinity tag with its instructions; a
//! program is a sequence of modules.  `to_bytes` lays each of them out as
//! the flat byte stream the interpreter consumes, and the specification
//! decoder below pins that layout down: decoding what was emitted gives the
//! value back.

use vstd::prelude::*;

use crate::base::ElementType;
use crate::codec::{
    i32_le_bytes, lemma_u32s_le_bytes_len, lemma_usizes_le_bytes_len, serialize_u32_vec,
    serialize_usize_vec, u16_le_bytes, u32_le_bytes, wire_u32_vec, wire_usize_vec, push_u16_le,
    push_u32_le, u16_of_le, u32_of_le, lemma_u16_le_round_trip, lemma_u32_le_round_trip,
    u32_vec_wire_ok, u32_vec_of_wire, usize_vec_wire_ok, usize_vec_of_wire,
    lemma_wire_u32_vec_round_trip, lemma_wire_usize_vec_round_trip,
};
use crate::instruction::CRTOpCode;

verus! {

/// The device byte that marks a module with no device affinity.
pub const DEV_ANY: u8 = 255;

// ---------------------------------------------------------------------------
// Tokens.
// ---------------------------------------------------------------------------

/// A token of the assembler IR.
///
/// Float payloads are carried as IEEE-754 bit patterns, so a float literal
/// is its 32-bit pattern and a dense tensor's `raw_data` holds one pattern
/// per element; the byte encoding is identical to the numeric one.
#[derive(Debug, Clone, PartialEq)]
pub enum Token {
    BytecodeOpCode { code: CRTOpCode },
    Variable { symbol: u8 },
    I32Literal { value: i32 },
    F32Literal { bits: u32 },
    Tensor { raw_data: Vec<u32>, shape: Vec<usize> },
    UninitTensor { generator_bits: u32, shape: Vec<usize> },
    UninitRNGTensor { distribution: u8, shape: Vec<usize> },
    Shape { dims: Vec<usize> },
    // The two annotation kinds below belong to the surface text only: a
    // type annotation never stands in an operand position, so the emitter
    // refuses both there.
    DType { element_type: ElementType },
    RankedTensorType { dtype: ElementType, shape: Vec<usize> },
}

/// The mathematical shadow of a token.
pub enum TokenV {
    BytecodeOpCode { code: CRTOpCode },
    Variable { symbol: u8 },
    I32Literal { value: i32 },
    F32Literal { bits: u32 },
    Tensor { raw_data: Seq<u32>, shape: Seq<usize> },
    UninitTensor { generator_bits: u32, shape: Seq<usize> },
    UninitRNGTensor { distribution: u8, shape: Seq<usize> },
    Shape { dims: Seq<usize> },
    DType { element_type: ElementType },
    RankedTensorType { dtype: ElementType, shape: Seq<usize> },
}

impl View for Token {
    type V = TokenV;

    open spec fn view(&self) -> TokenV {
        match self {
            Token::BytecodeOpCode { code } => TokenV::BytecodeOpCode { code: *code },
            Token::Variable { symbol } => TokenV::Variable { symbol: *symbol },
            Token::I32Literal { value } => TokenV::I32Literal { value: *value },
            Token::F32Literal { bits } => TokenV::F32Literal { bits: *bits },
            Token::Tensor { raw_data, shape } => TokenV::Tensor {
                raw_data: raw_data@,
                shape: shape@,
            },
            Token::UninitTensor { generator_bits, shape } => TokenV::UninitTensor {
                generator_bits: *generator_bits,
                shape: shape@,
            },
            Token::UninitRNGTensor { distribution, shape } => TokenV::UninitRNGTensor {
                distribution: *distribution,
                shape: shape@,
            },
            Token::Shape { dims } => TokenV::Shape { dims: dims@ },
            Token::DType { element_type } => TokenV::DType { element_type: *element_type },
            Token::RankedTensorType { dtype, shape } => TokenV::RankedTensorType {
                dtype: *dtype,
                shape: shape@,
            },
        }
    }
}

// ---------------------------------------------------------------------------
// Field encodings: length-prefixed serialized vectors.
// ---------------------------------------------------------------------------

/// Whether a serialized machine-word list of this many elements fits its
/// 16-bit length prefix.
pub open spec fn usize_field_fits(len: nat) -> bool {
    8 + 8 * len <= 0xffff
}

/// Whether a serialized 32-bit-element list of this many elements fits its
/// 16-bit length prefix.
pub open spec fn u32_field_fits(len: nat) -> bool {
    8 + 4 * len <= 0xffff
}

/// A serialized machine-word list with its 16-bit byte-length prefix.
pub open spec fn field_usize_vec_bytes(s: Seq<usize>) -> Seq<u8> {
    u16_le_bytes(wire_usize_vec(s).len() as u16) + wire_usize_vec(s)
}

/// A serialized 32-bit-element list with its 16-bit byte-length prefix.
pub open spec fn field_u32_vec_bytes(s: Seq<u32>) -> Seq<u8> {
    u16_le_bytes(wire_u32_vec(s).len() as u16) + wire_u32_vec(s)
}

/// Appends `b` to `out`.
pub fn push_bytes(out: &mut Vec<u8>, b: &Vec<u8>)
    ensures
        final(out)@ == old(out)@ + b@,
{
    let mut i: usize = 0;
    while i < b.len()
        invariant
            0 <= i <= b@.len(),
            out@ == old(out)@ + b@.take(i as int),
        decreases b@.len() - i,
    {
        out.push(b[i]);
        proof {
            assert(old(out)@ + b@.take(i as int) + seq![b@[i as int]] =~= old(out)@ + b@.take(
                i as int + 1,
            ));
        }
        i = i + 1;
    }
    proof {
        assert(b@.take(i as int) =~= b@);
    }
}

/// Appends the length-prefixed serialized form of a machine-word vector.
pub fn push_usize_vec_field(out: &mut Vec<u8>, v: &Vec<usize>)
    requires
        usize_field_fits(v@.len()),
    ensures
        final(out)@ == old(out)@ + field_usize_vec_bytes(v@),
{
    let wire = serialize_usize_vec(v);
    proof {
        lemma_usizes_le_bytes_len(v@);
    }
    push_u16_le(out, wire.len() as u16);
    push_bytes(out, &wire);
    proof {
        assert(out@ =~= old(out)@ + field_usize_vec_bytes(v@));
    }
}

/// Appends the length-prefixed serialized form of a 32-bit-element vector.
pub fn push_u32_vec_field(out: &mut Vec<u8>, v: &Vec<u32>)
    requires
        u32_field_fits(v@.len()),
    ensures
        final(out)@ == old(out)@ + field_u32_vec_bytes(v@),
{
    let wire = serialize_u32_vec(v);
    proof {
        lemma_u32s_le_bytes_len(v@);
    }
    push_u16_le(out, wire.len() as u16);
    push_bytes(out, &wire);
    proof {
        assert(out@ =~= old(out)@ + field_u32_vec_bytes(v@));
    }
}

// ---------------------------------------------------------------------------
// Operand encodings.
// ---------------------------------------------------------------------------

impl TokenV {
    /// Whether this token may stand in an operand position and fits the
    /// length prefixes of its encoding.
    pub open spec fn operand_wf(self) -> bool {
        match self {
            TokenV::Variable { .. } => true,
            TokenV::I32Literal { .. } => true,
            TokenV::F32Literal { .. } => true,
            TokenV::Tensor { raw_data, shape } => u32_field_fits(raw_data.len())
                && usize_field_fits(shape.len()),
            TokenV::UninitTensor { shape, .. } => usize_field_fits(shape.len()),
            TokenV::UninitRNGTensor { shape, .. } => usize_field_fits(shape.len()),
            TokenV::Shape { dims } => usize_field_fits(dims.len()),
            _ => false,
        }
    }

    /// The bytes this token contributes in an operand position.
    pub open spec fn operand_bytes(self) -> Seq<u8> {
        match self {
            TokenV::Variable { symbol } => seq![symbol],
            TokenV::I32Literal { value } => i32_le_bytes(value),
            TokenV::F32Literal { bits } => u32_le_bytes(bits),
            TokenV::Tensor { raw_data, shape } => field_u32_vec_bytes(raw_data)
                + field_usize_vec_bytes(shape),
            TokenV::UninitTensor { generator_bits, shape } => u32_le_bytes(generator_bits)
                + field_usize_vec_bytes(shape),
            TokenV::UninitRNGTensor { distribution, shape } => seq![distribution]
                + field_usize_vec_bytes(shape),
            TokenV::Shape { dims } => field_usize_vec_bytes(dims),
            _ => Seq::empty(),
        }
    }
}

/// Appends a token's operand encoding.
pub fn push_operand(out: &mut Vec<u8>, t: &Token)
    requires
        t@.operand_wf(),
    ensures
        final(out)@ == old(out)@ + t@.operand_bytes(),
{
    match t {
        Token::Variable { symbol } => {
            out.push(*symbol);
            proof {
                assert(out@ =~= old(out)@ + t@.operand_bytes());
            }
        },
        Token::I32Literal { value } => {
            push_u32_le(out, *value as u32);
        },
        Token::F32Literal { bits } => {
            push_u32_le(out, *bits);
        },
        Token::Tensor { raw_data, shape } => {
            push_u32_vec_field(out, raw_data);
            push_usize_vec_field(out, shape);
            proof {
                assert(out@ =~= old(out)@ + t@.operand_bytes());
            }
        },
        Token::UninitTensor { generator_bits, shape } => {
            push_u32_le(out, *generator_bits);
            push_usize_vec_field(out, shape);
            proof {
                assert(out@ =~= old(out)@ + t@.operand_bytes());
            }
        },
        Token::UninitRNGTensor { distribution, shape } => {
            out.push(*distribution);
            push_usize_vec_field(out, shape);
            proof {
                assert(out@ =~= old(out)@ + t@.operand_bytes());
            }
        },
        Token::Shape { dims } => {
            push_usize_vec_field(out, dims);
        },
        _ => {
            proof {
                assert(false);
            }
        },
    }
}

} // verus!

verus! {

// ---------------------------------------------------------------------------
// Assembler instructions.
// ---------------------------------------------------------------------------

/// An assembler instruction: an opcode token, up to four positional
/// operand tokens, and the result-type annotation the layer opcodes carry.
/// Slots an opcode does not use stay empty.
#[derive(Debug, Clone, PartialEq)]
pub struct AsmInstruction {
    pub opcode: Token,
    pub operand1: Option<Token>,
    pub operand2: Option<Token>,
    pub operand3: Option<Token>,
    pub operand4: Option<Token>,
    pub result_type: Option<Token>,
}

/// The mathematical shadow of an assembler instruction.
pub struct AsmInstructionV {
    pub opcode: TokenV,
    pub operand1: Option<TokenV>,
    pub operand2: Option<TokenV>,
    pub operand3: Option<TokenV>,
    pub operand4: Option<TokenV>,
    pub result_type: Option<TokenV>,
}

/// The view of an optional token.
pub open spec fn opt_view(o: Option<Token>) -> Option<TokenV> {
    match o {
        Some(t) => Some(t@),
        None => None,
    }
}

impl View for AsmInstruction {
    type V = AsmInstructionV;

    open spec fn view(&self) -> AsmInstructionV {
        AsmInstructionV {
            opcode: self.opcode@,
            operand1: opt_view(self.operand1),
            operand2: opt_view(self.operand2),
            operand3: opt_view(self.operand3),
            operand4: opt_view(self.operand4),
            result_type: opt_view(self.result_type),
        }
    }
}

/// Whether a token can stand as a result-type annotation and fits the
/// length prefix of its encoding.
pub open spec fn annotation_wf(o: Option<TokenV>) -> bool {
    o matches Some(t) && (t matches TokenV::RankedTensorType { shape, .. } && usize_field_fits(
        shape.len(),
    ))
}

/// The bytes a result-type annotation contributes: the element-type code,
/// then the length-prefixed serialized shape.
pub open spec fn annotation_bytes(o: Option<TokenV>) -> Seq<u8> {
    match o {
        Some(TokenV::RankedTensorType { dtype, shape }) => seq![dtype.code_spec()]
            + field_usize_vec_bytes(shape),
        _ => Seq::empty(),
    }
}

/// The big-endian bytes of a 16-bit immediate, as `LOAD` carries it.
pub open spec fn u16_be_bytes(v: int) -> Seq<u8>
    recommends
        0 <= v < 0x10000,
{
    seq![(v / 256) as u8, (v % 256) as u8]
}

impl AsmInstructionV {
    /// The operation code of this instruction.
    pub open spec fn code(self) -> CRTOpCode {
        match self.opcode {
            TokenV::BytecodeOpCode { code } => code,
            _ => CRTOpCode::ILLEGAL,
        }
    }

    /// Whether this instruction is well formed: the opcode slot holds an
    /// opcode token, and the operand slots hold exactly the operands the
    /// opcode's encoding asks for.
    pub open spec fn wf(self) -> bool {
        &&& self.opcode matches TokenV::BytecodeOpCode { .. }
        &&& match self.code() {
            CRTOpCode::MAXPOOL | CRTOpCode::REDUCEMEAN | CRTOpCode::FLATTEN | CRTOpCode::GEMM
                | CRTOpCode::CONVADD => true,
            _ => self.operand4 is None && self.result_type is None,
        }
        &&& match self.code() {
            CRTOpCode::HALT | CRTOpCode::NOOP | CRTOpCode::ILLEGAL => {
                self.operand1 is None && self.operand2 is None && self.operand3 is None
            },
            CRTOpCode::LOAD => {
                &&& self.operand1 matches Some(TokenV::Variable { .. })
                &&& self.operand2 matches Some(TokenV::I32Literal { value }) && 0 <= value
                    < 0x10000
                &&& self.operand3 is None
            },
            CRTOpCode::RETV => {
                &&& self.operand1 matches Some(TokenV::Variable { .. })
                &&& self.operand2 is None
                &&& self.operand3 is None
            },
            CRTOpCode::EXPF32 | CRTOpCode::RELU | CRTOpCode::SOFTMAX => {
                &&& self.operand1 matches Some(TokenV::Variable { .. })
                &&& self.operand2 matches Some(TokenV::Variable { .. })
                &&& self.operand3 is None
            },
            CRTOpCode::ADDI32 | CRTOpCode::SUBI32 | CRTOpCode::MULI32 | CRTOpCode::FLOORDIVI32
                | CRTOpCode::ADDF32 | CRTOpCode::SUBF32 | CRTOpCode::MULF32 | CRTOpCode::DIVF32
                | CRTOpCode::MATMULF32 => {
                &&& self.operand1 matches Some(TokenV::Variable { .. })
                &&& self.operand2 matches Some(TokenV::Variable { .. })
                &&& self.operand3 matches Some(TokenV::Variable { .. })
            },
            CRTOpCode::CONSTI32 => {
                &&& self.operand1 matches Some(TokenV::Variable { .. })
                &&& self.operand2 matches Some(TokenV::I32Literal { .. })
                &&& self.operand3 is None
            },
            CRTOpCode::CONSTF32 => {
                &&& self.operand1 matches Some(TokenV::Variable { .. })
                &&& self.operand2 matches Some(TokenV::F32Literal { .. })
                &&& self.operand3 is None
            },
            CRTOpCode::CONSTTENSOR => {
                &&& self.operand1 matches Some(TokenV::Variable { .. })
                &&& self.operand2 matches Some(t) && t matches TokenV::Tensor { .. }
                    && t.operand_wf()
                &&& self.operand3 is None
            },
            CRTOpCode::SVALUETENSOR => {
                &&& self.operand1 matches Some(TokenV::Variable { .. })
                &&& self.operand2 matches Some(t) && t matches TokenV::UninitTensor { .. }
                    && t.operand_wf()
                &&& self.operand3 is None
            },
            CRTOpCode::RNGTENSOR => {
                &&& self.operand1 matches Some(TokenV::Variable { .. })
                &&& self.operand2 matches Some(t) && t matches TokenV::UninitRNGTensor { .. }
                    && t.operand_wf()
                &&& self.operand3 is None
            },
            CRTOpCode::RESHAPE | CRTOpCode::TRANSPOSE => {
                &&& self.operand1 matches Some(TokenV::Variable { .. })
                &&& self.operand2 matches Some(TokenV::Variable { .. })
                &&& self.operand3 matches Some(t) && t matches TokenV::Shape { .. }
                    && t.operand_wf()
            },
            CRTOpCode::MAXPOOL | CRTOpCode::REDUCEMEAN | CRTOpCode::FLATTEN => {
                &&& self.operand1 matches Some(TokenV::Variable { .. })
                &&& self.operand2 matches Some(TokenV::Variable { .. })
                &&& self.operand3 is None
                &&& self.operand4 is None
                &&& annotation_wf(self.result_type)
            },
            CRTOpCode::GEMM | CRTOpCode::CONVADD => {
                &&& self.operand1 matches Some(TokenV::Variable { .. })
                &&& self.operand2 matches Some(TokenV::Variable { .. })
                &&& self.operand3 matches Some(TokenV::Variable { .. })
                &&& self.operand4 matches Some(TokenV::Variable { .. })
                &&& annotation_wf(self.result_type)
            },
            _ => false,
        }
    }

    /// The bytes an operand slot contributes.
    pub open spec fn opt_operand_bytes(o: Option<TokenV>) -> Seq<u8> {
        match o {
            Some(t) => t.operand_bytes(),
            None => Seq::empty(),
        }
    }

    /// The byte encoding of this instruction: the opcode byte, then the
    /// operands in order.  `LOAD` carries its 16-bit immediate big-endian.
    pub open spec fn inst_bytes(self) -> Seq<u8> {
        if self.code() == CRTOpCode::LOAD {
            seq![self.code().byte_spec()] + Self::opt_operand_bytes(self.operand1) + match self
                .operand2 {
                Some(TokenV::I32Literal { value }) => u16_be_bytes(value as int),
                _ => Seq::empty(),
            }
        } else {
            seq![self.code().byte_spec()] + Self::opt_operand_bytes(self.operand1)
                + Self::opt_operand_bytes(self.operand2) + Self::opt_operand_bytes(self.operand3)
                + Self::opt_operand_bytes(self.operand4) + annotation_bytes(self.result_type)
        }
    }
}

impl AsmInstruction {
    /// Wraps an opcode token with its positional operands; no annotation.
    pub fn new(
        opcode: Token,
        operand1: Option<Token>,
        operand2: Option<Token>,
        operand3: Option<Token>,
    ) -> (r: AsmInstruction)
        ensures
            r.opcode == opcode,
            r.operand1 == operand1,
            r.operand2 == operand2,
            r.operand3 == operand3,
            r.operand4 is None,
            r.result_type is None,
    {
        AsmInstruction { opcode, operand1, operand2, operand3, operand4: None, result_type: None }
    }

    /// Wraps an opcode token with four operands and a result-type
    /// annotation, as the layer opcodes carry.
    pub fn new_annotated(
        opcode: Token,
        operand1: Option<Token>,
        operand2: Option<Token>,
        operand3: Option<Token>,
        operand4: Option<Token>,
        result_type: Option<Token>,
    ) -> (r: AsmInstruction)
        ensures
            r.opcode == opcode,
            r.operand1 == operand1,
            r.operand2 == operand2,
            r.operand3 == operand3,
            r.operand4 == operand4,
            r.result_type == result_type,
    {
        AsmInstruction { opcode, operand1, operand2, operand3, operand4, result_type }
    }

    /// Serializes this instruction into the byte form the interpreter's
    /// command buffer holds.
    pub fn to_bytes(&self) -> (r: Vec<u8>)
        requires
            self@.wf(),
        ensures
            r@ == self@.inst_bytes(),
    {
        let mut out: Vec<u8> = Vec::new();
        let is_load: bool;
        match &self.opcode {
            Token::BytecodeOpCode { code } => {
                out.push(code.to_byte());
                is_load = matches!(code, CRTOpCode::LOAD);
            },
            _ => {
                proof {
                    assert(false);
                }
                is_load = false;
            },
        }
        if is_load {
            match &self.operand1 {
                Some(t) => push_operand(&mut out, t),
                None => {
                    proof {
                        assert(false);
                    }
                },
            }
            match &self.operand2 {
                Some(Token::I32Literal { value }) => {
                    let v: u32 = *value as u32;
                    let hi: u8 = ((v >> 8) & 0xff) as u8;
                    let lo: u8 = (v & 0xff) as u8;
                    out.push(hi);
                    out.push(lo);
                    proof {
                        let value = *value;
                        assert(((value as u32) >> 8) & 0xff == value as u32 / 256 && (value as u32)
                            & 0xff == value as u32 % 256) by (bit_vector)
                            requires
                                0 <= value < 0x10000,
                        ;
                        assert(value as u32 / 256 == (value as int) / 256);
                        assert(value as u32 % 256 == (value as int) % 256);
                    }
                },
                _ => {
                    proof {
                        assert(false);
                    }
                },
            }
            proof {
                assert(out@ =~= self@.inst_bytes());
            }
        } else {
            match &self.operand1 {
                Some(t) => push_operand(&mut out, t),
                None => {},
            }
            match &self.operand2 {
                Some(t) => push_operand(&mut out, t),
                None => {},
            }
            match &self.operand3 {
                Some(t) => push_operand(&mut out, t),
                None => {},
            }
            match &self.operand4 {
                Some(t) => push_operand(&mut out, t),
                None => {},
            }
            match &self.result_type {
                Some(Token::RankedTensorType { dtype, shape }) => {
                    out.push(dtype.code());
                    push_usize_vec_field(&mut out, shape);
                },
                Some(_) => {
                    proof {
                        assert(false);
                    }
                },
                None => {},
            }
            proof {
                assert(out@ =~= self@.inst_bytes());
            }
        }
        out
    }
}

// ---------------------------------------------------------------------------
// The specification decoder.
// ---------------------------------------------------------------------------

/// Decodes a length-prefixed serialized machine-word list at the front of
/// `b`: the list and the bytes consumed.
pub open spec fn dec_field_usize_vec(b: Seq<u8>) -> Option<(Seq<usize>, int)> {
    if b.len() < 2 {
        None
    } else {
        let l = u16_of_le(b[0], b[1]) as int;
        if b.len() < 2 + l {
            None
        } else {
            let p = b.subrange(2, 2 + l);
            if usize_vec_wire_ok(p) {
                Some((usize_vec_of_wire(p), 2 + l))
            } else {
                None
            }
        }
    }
}

/// Decodes a length-prefixed serialized 32-bit-element list at the front
/// of `b`.
pub open spec fn dec_field_u32_vec(b: Seq<u8>) -> Option<(Seq<u32>, int)> {
    if b.len() < 2 {
        None
    } else {
        let l = u16_of_le(b[0], b[1]) as int;
        if b.len() < 2 + l {
            None
        } else {
            let p = b.subrange(2, 2 + l);
            if u32_vec_wire_ok(p) {
                Some((u32_vec_of_wire(p), 2 + l))
            } else {
                None
            }
        }
    }
}

/// Decoding a field undoes encoding it, whatever follows.
pub proof fn lemma_dec_field_usize_vec(s: Seq<usize>, rest: Seq<u8>)
    requires
        usize_field_fits(s.len()),
    ensures
        dec_field_usize_vec(field_usize_vec_bytes(s) + rest) == Some(
            (s, field_usize_vec_bytes(s).len() as int),
        ),
{
    let w = wire_usize_vec(s);
    lemma_usizes_le_bytes_len(s);
    let b = field_usize_vec_bytes(s) + rest;
    lemma_u16_le_round_trip(w.len() as u16);
    assert(b[0] == u16_le_bytes(w.len() as u16)[0]);
    assert(b[1] == u16_le_bytes(w.len() as u16)[1]);
    assert(b.subrange(2, 2 + w.len() as int) =~= w);
    lemma_wire_usize_vec_round_trip(s);
}

/// Decoding a field undoes encoding it, whatever follows.
pub proof fn lemma_dec_field_u32_vec(s: Seq<u32>, rest: Seq<u8>)
    requires
        u32_field_fits(s.len()),
    ensures
        dec_field_u32_vec(field_u32_vec_bytes(s) + rest) == Some(
            (s, field_u32_vec_bytes(s).len() as int),
        ),
{
    let w = wire_u32_vec(s);
    lemma_u32s_le_bytes_len(s);
    let b = field_u32_vec_bytes(s) + rest;
    lemma_u16_le_round_trip(w.len() as u16);
    assert(b[0] == u16_le_bytes(w.len() as u16)[0]);
    assert(b[1] == u16_le_bytes(w.len() as u16)[1]);
    assert(b.subrange(2, 2 + w.len() as int) =~= w);
    lemma_wire_u32_vec_round_trip(s);
}

/// A well-formed instruction with no operands.
pub open spec fn mk_inst0(code: CRTOpCode) -> AsmInstructionV {
    AsmInstructionV {
        opcode: TokenV::BytecodeOpCode { code },
        operand1: None,
        operand2: None,
        operand3: None,
        operand4: None,
        result_type: None,
    }
}

/// A well-formed instruction with operand tokens as given.
pub open spec fn mk_inst(
    code: CRTOpCode,
    o1: Option<TokenV>,
    o2: Option<TokenV>,
    o3: Option<TokenV>,
) -> AsmInstructionV {
    AsmInstructionV {
        opcode: TokenV::BytecodeOpCode { code },
        operand1: o1,
        operand2: o2,
        operand3: o3,
        operand4: None,
        result_type: None,
    }
}

/// A well-formed layer instruction: operands plus a result annotation.
pub open spec fn mk_layer_inst(
    code: CRTOpCode,
    o1: Option<TokenV>,
    o2: Option<TokenV>,
    o3: Option<TokenV>,
    o4: Option<TokenV>,
    dtype: ElementType,
    shape: Seq<usize>,
) -> AsmInstructionV {
    AsmInstructionV {
        opcode: TokenV::BytecodeOpCode { code },
        operand1: o1,
        operand2: o2,
        operand3: o3,
        operand4: o4,
        result_type: Some(TokenV::RankedTensorType { dtype, shape }),
    }
}

/// Decodes a result-type annotation at the front of `b`: the element type,
/// the shape, and the bytes consumed.
pub open spec fn dec_annotation(b: Seq<u8>) -> Option<(ElementType, Seq<usize>, int)> {
    if b.len() < 1 {
        None
    } else {
        match ElementType::from_code_spec(b[0]) {
            None => None,
            Some(dtype) => match dec_field_usize_vec(b.skip(1)) {
                None => None,
                Some((shape, c)) => Some((dtype, shape, 1 + c)),
            },
        }
    }
}

/// Decoding an annotation undoes encoding it, whatever follows.
pub proof fn lemma_dec_annotation(dtype: ElementType, shape: Seq<usize>, rest: Seq<u8>)
    requires
        usize_field_fits(shape.len()),
    ensures
        dec_annotation(annotation_bytes(Some(TokenV::RankedTensorType { dtype, shape })) + rest)
            == Some(
            (
                dtype,
                shape,
                annotation_bytes(Some(TokenV::RankedTensorType { dtype, shape })).len() as int,
            ),
        ),
{
    let e = annotation_bytes(Some(TokenV::RankedTensorType { dtype, shape }));
    let b = e + rest;
    assert(b[0] == dtype.code_spec());
    crate::base::lemma_element_type_code_round_trip(dtype);
    assert(b.skip(1) =~= field_usize_vec_bytes(shape) + rest);
    lemma_dec_field_usize_vec(shape, rest);
}

/// Decodes one instruction at the front of `b`: the instruction and the
/// bytes consumed.  A `DEVAT` byte is a module boundary, not an
/// instruction, and decodes to nothing.
#[verifier::opaque]
pub open spec fn decode_inst(b: Seq<u8>) -> Option<(AsmInstructionV, int)> {
    if b.len() < 1 {
        None
    } else {
        let code = CRTOpCode::from_byte_spec(b[0]);
        match code {
            CRTOpCode::HALT | CRTOpCode::NOOP | CRTOpCode::ILLEGAL => Some((mk_inst0(code), 1)),
            CRTOpCode::LOAD => if b.len() >= 4 {
                Some(
                    (
                        mk_inst(
                            code,
                            Some(TokenV::Variable { symbol: b[1] }),
                            Some(
                                TokenV::I32Literal {
                                    value: ((b[2] as int) * 256 + (b[3] as int)) as i32,
                                },
                            ),
                            None,
                        ),
                        4,
                    ),
                )
            } else {
                None
            },
            CRTOpCode::RETV => if b.len() >= 2 {
                Some((mk_inst(code, Some(TokenV::Variable { symbol: b[1] }), None, None), 2))
            } else {
                None
            },
            CRTOpCode::EXPF32 | CRTOpCode::RELU | CRTOpCode::SOFTMAX => if b.len() >= 3 {
                Some(
                    (
                        mk_inst(
                            code,
                            Some(TokenV::Variable { symbol: b[1] }),
                            Some(TokenV::Variable { symbol: b[2] }),
                            None,
                        ),
                        3,
                    ),
                )
            } else {
                None
            },
            CRTOpCode::ADDI32 | CRTOpCode::SUBI32 | CRTOpCode::MULI32 | CRTOpCode::FLOORDIVI32
                | CRTOpCode::ADDF32 | CRTOpCode::SUBF32 | CRTOpCode::MULF32 | CRTOpCode::DIVF32
                | CRTOpCode::MATMULF32 => if b.len() >= 4 {
                Some(
                    (
                        mk_inst(
                            code,
                            Some(TokenV::Variable { symbol: b[1] }),
                            Some(TokenV::Variable { symbol: b[2] }),
                            Some(TokenV::Variable { symbol: b[3] }),
                        ),
                        4,
                    ),
                )
            } else {
                None
            },
            CRTOpCode::CONSTI32 => if b.len() >= 6 {
                Some(
                    (
                        mk_inst(
                            code,
                            Some(TokenV::Variable { symbol: b[1] }),
                            Some(
                                TokenV::I32Literal {
                                    value: u32_of_le(b[2], b[3], b[4], b[5]) as i32,
                                },
                            ),
                            None,
                        ),
                        6,
                    ),
                )
            } else {
                None
            },
            CRTOpCode::CONSTF32 => if b.len() >= 6 {
                Some(
                    (
                        mk_inst(
                            code,
                            Some(TokenV::Variable { symbol: b[1] }),
                            Some(TokenV::F32Literal { bits: u32_of_le(b[2], b[3], b[4], b[5]) }),
                            None,
                        ),
                        6,
                    ),
                )
            } else {
                None
            },
            CRTOpCode::CONSTTENSOR => if b.len() >= 2 {
                match dec_field_u32_vec(b.skip(2)) {
                    Some((data, c1)) => match dec_field_usize_vec(b.skip(2 + c1)) {
                        Some((shape, c2)) => Some(
                            (
                                mk_inst(
                                    code,
                                    Some(TokenV::Variable { symbol: b[1] }),
                                    Some(TokenV::Tensor { raw_data: data, shape }),
                                    None,
                                ),
                                2 + c1 + c2,
                            ),
                        ),
                        None => None,
                    },
                    None => None,
                }
            } else {
                None
            },
            CRTOpCode::SVALUETENSOR => if b.len() >= 6 {
                match dec_field_usize_vec(b.skip(6)) {
                    Some((shape, c)) => Some(
                        (
                            mk_inst(
                                code,
                                Some(TokenV::Variable { symbol: b[1] }),
                                Some(
                                    TokenV::UninitTensor {
                                        generator_bits: u32_of_le(b[2], b[3], b[4], b[5]),
                                        shape,
                                    },
                                ),
                                None,
                            ),
                            6 + c,
                        ),
                    ),
                    None => None,
                }
            } else {
                None
            },
            CRTOpCode::RNGTENSOR => if b.len() >= 3 {
                match dec_field_usize_vec(b.skip(3)) {
                    Some((shape, c)) => Some(
                        (
                            mk_inst(
                                code,
                                Some(TokenV::Variable { symbol: b[1] }),
                                Some(TokenV::UninitRNGTensor { distribution: b[2], shape }),
                                None,
                            ),
                            3 + c,
                        ),
                    ),
                    None => None,
                }
            } else {
                None
            },
            CRTOpCode::RESHAPE | CRTOpCode::TRANSPOSE => if b.len() >= 3 {
                match dec_field_usize_vec(b.skip(3)) {
                    Some((dims, c)) => Some(
                        (
                            mk_inst(
                                code,
                                Some(TokenV::Variable { symbol: b[1] }),
                                Some(TokenV::Variable { symbol: b[2] }),
                                Some(TokenV::Shape { dims }),
                            ),
                            3 + c,
                        ),
                    ),
                    None => None,
                }
            } else {
                None
            },
            CRTOpCode::MAXPOOL | CRTOpCode::REDUCEMEAN | CRTOpCode::FLATTEN => if b.len() >= 3 {
                match dec_annotation(b.skip(3)) {
                    Some((dtype, shape, c)) => Some(
                        (
                            mk_layer_inst(
                                code,
                                Some(TokenV::Variable { symbol: b[1] }),
                                Some(TokenV::Variable { symbol: b[2] }),
                                None,
                                None,
                                dtype,
                                shape,
                            ),
                            3 + c,
                        ),
                    ),
                    None => None,
                }
            } else {
                None
            },
            CRTOpCode::GEMM | CRTOpCode::CONVADD => if b.len() >= 5 {
                match dec_annotation(b.skip(5)) {
                    Some((dtype, shape, c)) => Some(
                        (
                            mk_layer_inst(
                                code,
                                Some(TokenV::Variable { symbol: b[1] }),
                                Some(TokenV::Variable { symbol: b[2] }),
                                Some(TokenV::Variable { symbol: b[3] }),
                                Some(TokenV::Variable { symbol: b[4] }),
                                dtype,
                                shape,
                            ),
                            5 + c,
                        ),
                    ),
                    None => None,
                }
            } else {
                None
            },
            _ => None,
        }
    }
}

/// Decoding what the emitter wrote gives a fixed-arity instruction back.
proof fn lemma_inst_round_trip_fixed(iv: AsmInstructionV, rest: Seq<u8>)
    requires
        iv.wf(),
        match iv.code() {
            CRTOpCode::HALT | CRTOpCode::NOOP | CRTOpCode::ILLEGAL | CRTOpCode::LOAD
                | CRTOpCode::RETV | CRTOpCode::EXPF32 | CRTOpCode::RELU | CRTOpCode::SOFTMAX
                | CRTOpCode::ADDI32 | CRTOpCode::SUBI32 | CRTOpCode::MULI32
                | CRTOpCode::FLOORDIVI32 | CRTOpCode::ADDF32 | CRTOpCode::SUBF32
                | CRTOpCode::MULF32 | CRTOpCode::DIVF32 | CRTOpCode::MATMULF32 => true,
            _ => false,
        },
    ensures
        decode_inst(iv.inst_bytes() + rest) == Some((iv, iv.inst_bytes().len() as int)),
{
    reveal(decode_inst);
    let e = iv.inst_bytes();
    let b = e + rest;
    let code = iv.code();
    crate::instruction::lemma_opcode_byte_round_trip(code);
    assert(b[0] == code.byte_spec());
    match code {
        CRTOpCode::HALT | CRTOpCode::NOOP | CRTOpCode::ILLEGAL => {
            assert(mk_inst0(code) == iv);
        },
        CRTOpCode::LOAD => {
            let v = iv.operand2->Some_0->I32Literal_value;
            assert(b[1] == iv.operand1->Some_0->Variable_symbol);
            assert(b[2] == ((v as int) / 256) as u8);
            assert(b[3] == ((v as int) % 256) as u8);
            assert((b[2] as int) * 256 + (b[3] as int) == v as int);
            assert(((v as int) as i32) == v);
            assert(decode_inst(b)->Some_0.0 == iv);
        },
        CRTOpCode::RETV => {
            assert(decode_inst(b)->Some_0.0 == iv);
        },
        CRTOpCode::EXPF32 | CRTOpCode::RELU | CRTOpCode::SOFTMAX => {
            assert(b[1] == iv.operand1->Some_0->Variable_symbol);
            assert(b[2] == iv.operand2->Some_0->Variable_symbol);
            assert(decode_inst(b)->Some_0.0 == iv);
        },
        _ => {
            assert(b[1] == iv.operand1->Some_0->Variable_symbol);
            assert(b[2] == iv.operand2->Some_0->Variable_symbol);
            assert(b[3] == iv.operand3->Some_0->Variable_symbol);
            assert(decode_inst(b)->Some_0.0 == iv);
        },
    }
}

/// Decoding what the emitter wrote gives a scalar-literal instruction back.
proof fn lemma_inst_round_trip_const_scalar(iv: AsmInstructionV, rest: Seq<u8>)
    requires
        iv.wf(),
        iv.code() == CRTOpCode::CONSTI32 || iv.code() == CRTOpCode::CONSTF32,
    ensures
        decode_inst(iv.inst_bytes() + rest) == Some((iv, iv.inst_bytes().len() as int)),
{
    reveal(decode_inst);
    let e = iv.inst_bytes();
    let b = e + rest;
    let code = iv.code();
    crate::instruction::lemma_opcode_byte_round_trip(code);
    assert(b[0] == code.byte_spec());
    if code == CRTOpCode::CONSTI32 {
        let v = iv.operand2->Some_0->I32Literal_value;
        assert(b[2] == u32_le_bytes(v as u32)[0]);
        assert(b[3] == u32_le_bytes(v as u32)[1]);
        assert(b[4] == u32_le_bytes(v as u32)[2]);
        assert(b[5] == u32_le_bytes(v as u32)[3]);
        lemma_u32_le_round_trip(v as u32);
        assert(u32_of_le(b[2], b[3], b[4], b[5]) == v as u32);
        assert((v as u32) as i32 == v) by (bit_vector);
        assert(decode_inst(b)->Some_0.0 == iv);
    } else {
        let bits = iv.operand2->Some_0->F32Literal_bits;
        assert(b[2] == u32_le_bytes(bits)[0]);
        assert(b[3] == u32_le_bytes(bits)[1]);
        assert(b[4] == u32_le_bytes(bits)[2]);
        assert(b[5] == u32_le_bytes(bits)[3]);
        lemma_u32_le_round_trip(bits);
        assert(decode_inst(b)->Some_0.0 == iv);
    }
}

/// Decoding what the emitter wrote gives a dense-tensor instruction back.
proof fn lemma_inst_round_trip_const_tensor(iv: AsmInstructionV, rest: Seq<u8>)
    requires
        iv.wf(),
        iv.code() == CRTOpCode::CONSTTENSOR,
    ensures
        decode_inst(iv.inst_bytes() + rest) == Some((iv, iv.inst_bytes().len() as int)),
{
    reveal(decode_inst);
    let e = iv.inst_bytes();
    let b = e + rest;
    crate::instruction::lemma_opcode_byte_round_trip(iv.code());
    assert(b[0] == iv.code().byte_spec());
    let data = iv.operand2->Some_0->Tensor_raw_data;
    let shape = iv.operand2->Some_0->Tensor_shape;
    let fa = field_u32_vec_bytes(data);
    let fb = field_usize_vec_bytes(shape);
    assert(b[1] == iv.operand1->Some_0->Variable_symbol);
    assert(b.skip(2) =~= fa + (fb + rest));
    lemma_dec_field_u32_vec(data, fb + rest);
    let c1 = fa.len() as int;
    assert(b.skip(2).skip(c1) =~= fb + rest);
    assert(b.skip(2 + c1) =~= b.skip(2).skip(c1));
    lemma_dec_field_usize_vec(shape, rest);
    assert(decode_inst(b)->Some_0.0 == iv);
    assert(decode_inst(b)->Some_0.1 == e.len() as int);
}

/// Decoding what the emitter wrote gives a generated-tensor instruction
/// back.
proof fn lemma_inst_round_trip_shaped(iv: AsmInstructionV, rest: Seq<u8>)
    requires
        iv.wf(),
        match iv.code() {
            CRTOpCode::SVALUETENSOR | CRTOpCode::RNGTENSOR | CRTOpCode::RESHAPE
                | CRTOpCode::TRANSPOSE => true,
            _ => false,
        },
    ensures
        decode_inst(iv.inst_bytes() + rest) == Some((iv, iv.inst_bytes().len() as int)),
{
    reveal(decode_inst);
    let e = iv.inst_bytes();
    let b = e + rest;
    let code = iv.code();
    crate::instruction::lemma_opcode_byte_round_trip(code);
    assert(b[0] == code.byte_spec());
    assert(b[1] == iv.operand1->Some_0->Variable_symbol);
    match code {
        CRTOpCode::SVALUETENSOR => {
            let bits = iv.operand2->Some_0->UninitTensor_generator_bits;
            let shape = iv.operand2->Some_0->UninitTensor_shape;
            let fb = field_usize_vec_bytes(shape);
            assert(b[2] == u32_le_bytes(bits)[0]);
            assert(b[3] == u32_le_bytes(bits)[1]);
            assert(b[4] == u32_le_bytes(bits)[2]);
            assert(b[5] == u32_le_bytes(bits)[3]);
            lemma_u32_le_round_trip(bits);
            assert(b.skip(6) =~= fb + rest);
            lemma_dec_field_usize_vec(shape, rest);
            assert(decode_inst(b)->Some_0.0 == iv);
            assert(decode_inst(b)->Some_0.1 == e.len() as int);
        },
        CRTOpCode::RNGTENSOR => {
            let shape = iv.operand2->Some_0->UninitRNGTensor_shape;
            let fb = field_usize_vec_bytes(shape);
            assert(b[2] == iv.operand2->Some_0->UninitRNGTensor_distribution);
            assert(b.skip(3) =~= fb + rest);
            lemma_dec_field_usize_vec(shape, rest);
            assert(decode_inst(b)->Some_0.0 == iv);
            assert(decode_inst(b)->Some_0.1 == e.len() as int);
        },
        _ => {
            let dims = iv.operand3->Some_0->Shape_dims;
            let fb = field_usize_vec_bytes(dims);
            assert(b[2] == iv.operand2->Some_0->Variable_symbol);
            assert(b.skip(3) =~= fb + rest);
            lemma_dec_field_usize_vec(dims, rest);
            assert(decode_inst(b)->Some_0.0 == iv);
            assert(decode_inst(b)->Some_0.1 == e.len() as int);
        },
    }
}

/// Decoding what the emitter wrote gives a layer instruction back.
#[verifier::rlimit(100)]
#[verifier::spinoff_prover]
proof fn lemma_inst_round_trip_layer(iv: AsmInstructionV, rest: Seq<u8>)
    requires
        iv.wf(),
        match iv.code() {
            CRTOpCode::MAXPOOL | CRTOpCode::REDUCEMEAN | CRTOpCode::FLATTEN | CRTOpCode::GEMM
                | CRTOpCode::CONVADD => true,
            _ => false,
        },
    ensures
        decode_inst(iv.inst_bytes() + rest) == Some((iv, iv.inst_bytes().len() as int)),
{
    reveal(decode_inst);
    let e = iv.inst_bytes();
    let b = e + rest;
    let code = iv.code();
    crate::instruction::lemma_opcode_byte_round_trip(code);
    assert(b[0] == code.byte_spec());
    let dtype = iv.result_type->Some_0->RankedTensorType_dtype;
    let shape = iv.result_type->Some_0->RankedTensorType_shape;
    let ann = annotation_bytes(iv.result_type);
    lemma_dec_annotation(dtype, shape, rest);
    match code {
        CRTOpCode::MAXPOOL | CRTOpCode::REDUCEMEAN | CRTOpCode::FLATTEN => {
            assert(b[1] == iv.operand1->Some_0->Variable_symbol);
            assert(b[2] == iv.operand2->Some_0->Variable_symbol);
            assert(b.skip(3) =~= ann + rest);
            assert(decode_inst(b)->Some_0.0 == iv);
            assert(decode_inst(b)->Some_0.1 == e.len() as int);
        },
        _ => {
            assert(b[1] == iv.operand1->Some_0->Variable_symbol);
            assert(b[2] == iv.operand2->Some_0->Variable_symbol);
            assert(b[3] == iv.operand3->Some_0->Variable_symbol);
            assert(b[4] == iv.operand4->Some_0->Variable_symbol);
            assert(b.skip(5) =~= ann + rest);
            assert(decode_inst(b)->Some_0.0 == iv);
            assert(decode_inst(b)->Some_0.1 == e.len() as int);
        },
    }
}

/// Decoding what the emitter wrote gives the instruction back, whatever
/// bytes follow it; the decoder consumes exactly the emitted bytes.
pub proof fn lemma_inst_round_trip(iv: AsmInstructionV, rest: Seq<u8>)
    requires
        iv.wf(),
    ensures
        decode_inst(iv.inst_bytes() + rest) == Some((iv, iv.inst_bytes().len() as int)),
{
    match iv.code() {
        CRTOpCode::CONSTI32 | CRTOpCode::CONSTF32 => lemma_inst_round_trip_const_scalar(iv, rest),
        CRTOpCode::CONSTTENSOR => lemma_inst_round_trip_const_tensor(iv, rest),
        CRTOpCode::SVALUETENSOR | CRTOpCode::RNGTENSOR | CRTOpCode::RESHAPE
            | CRTOpCode::TRANSPOSE => lemma_inst_round_trip_shaped(iv, rest),
        CRTOpCode::MAXPOOL | CRTOpCode::REDUCEMEAN | CRTOpCode::FLATTEN | CRTOpCode::GEMM
            | CRTOpCode::CONVADD => lemma_inst_round_trip_layer(iv, rest),
        _ => lemma_inst_round_trip_fixed(iv, rest),
    }
}

/// Every decoded instruction consumed at least one byte.
pub proof fn lemma_decode_inst_consumes(b: Seq<u8>)
    ensures
        decode_inst(b) matches Some((iv, c)) ==> 1 <= c <= b.len(),
{
    reveal(decode_inst);
}

/// A stream that begins with the module prefix byte holds no instruction.
pub proof fn lemma_decode_inst_devat(b: Seq<u8>)
    requires
        b.len() > 0,
        b[0] == CRTOpCode::DEVAT.byte_spec(),
    ensures
        decode_inst(b) is None,
{
    reveal(decode_inst);
}

/// The decoder only produces instruction opcodes, never the module prefix.
pub proof fn lemma_decode_inst_code(b: Seq<u8>)
    ensures
        decode_inst(b) matches Some((iv, c)) ==> iv.code() != CRTOpCode::DEVAT,
{
    reveal(decode_inst);
}

} // verus!

verus! {

// ---------------------------------------------------------------------------
// Modules and programs.
// ---------------------------------------------------------------------------

/// A module: an optional device-affinity tag and its instructions.  The
/// tag selects a physical executor; an untagged module may run anywhere.
#[derive(Debug, Clone, PartialEq)]
pub struct Module {
    pub dev_at: Option<u8>,
    pub instructions: Vec<AsmInstruction>,
}

/// The mathematical shadow of a module.
pub struct ModuleV {
    pub dev_at: Option<u8>,
    pub instructions: Seq<AsmInstructionV>,
}

impl View for Module {
    type V = ModuleV;

    open spec fn view(&self) -> ModuleV {
        ModuleV {
            dev_at: self.dev_at,
            instructions: self.instructions@.map_values(|i: AsmInstruction| i@),
        }
    }
}

/// The bytes of a sequence of instructions, one after the other.
pub open spec fn insts_bytes(s: Seq<AsmInstructionV>) -> Seq<u8>
    decreases s.len(),
{
    if s.len() == 0 {
        Seq::empty()
    } else {
        s[0].inst_bytes() + insts_bytes(s.skip(1))
    }
}

/// Appending an instruction appends its bytes.
pub proof fn lemma_insts_bytes_push(s: Seq<AsmInstructionV>, x: AsmInstructionV)
    ensures
        insts_bytes(s.push(x)) == insts_bytes(s) + x.inst_bytes(),
    decreases s.len(),
{
    if s.len() == 0 {
        assert(s.push(x).skip(1) =~= Seq::<AsmInstructionV>::empty());
        assert(s.push(x)[0] == x);
        assert(insts_bytes(s.push(x)) == x.inst_bytes() + insts_bytes(
            Seq::<AsmInstructionV>::empty(),
        ));
        assert(insts_bytes(s.push(x)) =~= insts_bytes(s) + x.inst_bytes());
    } else {
        assert(s.push(x).skip(1) =~= s.skip(1).push(x));
        assert(s.push(x)[0] == s[0]);
        lemma_insts_bytes_push(s.skip(1), x);
        assert(insts_bytes(s.push(x)) == s[0].inst_bytes() + insts_bytes(s.skip(1).push(x)));
        assert(insts_bytes(s.push(x)) =~= insts_bytes(s) + x.inst_bytes());
    }
}

impl ModuleV {
    /// The device byte this module is prefixed with.
    pub open spec fn dev_byte(self) -> u8 {
        match self.dev_at {
            None => DEV_ANY,
            Some(d) => d,
        }
    }

    /// Whether the module is well formed: a concrete affinity names a
    /// device below the `any` marker, and every instruction is well formed.
    pub open spec fn wf(self) -> bool {
        &&& match self.dev_at {
            None => true,
            Some(d) => d < DEV_ANY,
        }
        &&& forall|i: int| 0 <= i < self.instructions.len() ==> #[trigger] self.instructions[i].wf()
    }

    /// The byte encoding of the module: the device-affinity prefix, then
    /// the instructions.
    pub open spec fn module_bytes(self) -> Seq<u8> {
        seq![CRTOpCode::DEVAT.byte_spec(), self.dev_byte()] + insts_bytes(self.instructions)
    }
}

impl Module {
    /// The module's device affinity.
    pub fn dev(&self) -> (r: Option<u8>)
        ensures
            r == self.dev_at,
    {
        self.dev_at
    }

    /// Serializes the module: the device prefix, then each instruction.
    pub fn to_bytes(&self) -> (r: Vec<u8>)
        requires
            self@.wf(),
        ensures
            r@ == self@.module_bytes(),
    {
        let mut out: Vec<u8> = Vec::new();
        out.push(CRTOpCode::DEVAT.to_byte());
        match self.dev_at {
            None => out.push(DEV_ANY),
            Some(d) => out.push(d),
        }
        let ghost ivs = self@.instructions;
        let mut i: usize = 0;
        while i < self.instructions.len()
            invariant
                0 <= i <= self.instructions@.len(),
                ivs == self@.instructions,
                self@.wf(),
                ivs.len() == self.instructions@.len(),
                forall|j: int|
                    0 <= j < self.instructions@.len() ==> ivs[j] == #[trigger] self
                        .instructions@[j]@,
                out@ == seq![CRTOpCode::DEVAT.byte_spec(), self@.dev_byte()] + insts_bytes(
                    ivs.take(i as int),
                ),
            decreases self.instructions@.len() - i,
        {
            let ib = self.instructions[i].to_bytes();
            push_bytes(&mut out, &ib);
            proof {
                lemma_insts_bytes_push(ivs.take(i as int), ivs[i as int]);
                assert(ivs.take(i as int).push(ivs[i as int]) =~= ivs.take(i as int + 1));
                assert(out@ =~= seq![CRTOpCode::DEVAT.byte_spec(), self@.dev_byte()] + insts_bytes(
                    ivs.take(i as int + 1),
                ));
            }
            i = i + 1;
        }
        proof {
            assert(ivs.take(i as int) =~= ivs);
        }
        out
    }
}

/// A program: an ordered sequence of modules.
#[derive(Debug, PartialEq)]
pub struct Program {
    pub mods: Vec<Module>,
}

impl View for Program {
    type V = Seq<ModuleV>;

    open spec fn view(&self) -> Seq<ModuleV> {
        self.mods@.map_values(|m: Module| m@)
    }
}

/// Whether every module of the program is well formed.
pub open spec fn program_wf(s: Seq<ModuleV>) -> bool {
    forall|i: int| 0 <= i < s.len() ==> #[trigger] s[i].wf()
}

/// The byte encoding of a program: its modules' bytes, concatenated.
pub open spec fn program_bytes(s: Seq<ModuleV>) -> Seq<u8>
    decreases s.len(),
{
    if s.len() == 0 {
        Seq::empty()
    } else {
        s[0].module_bytes() + program_bytes(s.skip(1))
    }
}

/// Appending a module appends its bytes.
pub proof fn lemma_program_bytes_push(s: Seq<ModuleV>, x: ModuleV)
    ensures
        program_bytes(s.push(x)) == program_bytes(s) + x.module_bytes(),
    decreases s.len(),
{
    if s.len() == 0 {
        assert(s.push(x).skip(1) =~= Seq::<ModuleV>::empty());
        assert(s.push(x)[0] == x);
        assert(program_bytes(s.push(x)) == x.module_bytes() + program_bytes(
            Seq::<ModuleV>::empty(),
        ));
        assert(program_bytes(s.push(x)) =~= program_bytes(s) + x.module_bytes());
    } else {
        assert(s.push(x).skip(1) =~= s.skip(1).push(x));
        assert(s.push(x)[0] == s[0]);
        lemma_program_bytes_push(s.skip(1), x);
        assert(program_bytes(s.push(x)) == s[0].module_bytes() + program_bytes(s.skip(1).push(x)));
        assert(program_bytes(s.push(x)) =~= program_bytes(s) + x.module_bytes());
    }
}

impl Program {
    /// The device affinity of the module at `idx`.
    pub fn dev_at_mod_idx(&self, idx: usize) -> (r: Option<u8>)
        requires
            idx < self.mods@.len(),
        ensures
            r == self@[idx as int].dev_at,
    {
        self.mods[idx].dev()
    }

    /// Serializes the whole program: its modules' bytes, concatenated.
    pub fn to_bytes(&self) -> (r: Vec<u8>)
        requires
            program_wf(self@),
        ensures
            r@ == program_bytes(self@),
    {
        let mut out: Vec<u8> = Vec::new();
        let ghost mvs = self@;
        let mut i: usize = 0;
        while i < self.mods.len()
            invariant
                0 <= i <= self.mods@.len(),
                mvs == self@,
                program_wf(self@),
                mvs.len() == self.mods@.len(),
                forall|j: int| 0 <= j < self.mods@.len() ==> mvs[j] == #[trigger] self.mods@[j]@,
                out@ == program_bytes(mvs.take(i as int)),
            decreases self.mods@.len() - i,
        {
            let mb = self.mods[i].to_bytes();
            push_bytes(&mut out, &mb);
            proof {
                lemma_program_bytes_push(mvs.take(i as int), mvs[i as int]);
                assert(mvs.take(i as int).push(mvs[i as int]) =~= mvs.take(i as int + 1));
            }
            i = i + 1;
        }
        proof {
            assert(mvs.take(i as int) =~= mvs);
        }
        out
    }
}

// ---------------------------------------------------------------------------
// The specification decoder for modules and programs.
// ---------------------------------------------------------------------------

/// Decodes instructions until the bytes run out or the next module's
/// device prefix begins.
pub open spec fn decode_insts(b: Seq<u8>) -> Option<(Seq<AsmInstructionV>, int)>
    decreases b.len(),
{
    if b.len() == 0 || b[0] == CRTOpCode::DEVAT.byte_spec() {
        Some((Seq::empty(), 0))
    } else {
        match decode_inst(b) {
            None => None,
            Some((iv, c)) => if 1 <= c <= b.len() {
                match decode_insts(b.skip(c)) {
                    None => None,
                    Some((s2, c2)) => Some((seq![iv] + s2, c + c2)),
                }
            } else {
                None
            },
        }
    }
}

/// Decodes a whole byte stream as a sequence of modules.
pub open spec fn decode_program(b: Seq<u8>) -> Option<Seq<ModuleV>>
    decreases b.len(),
{
    if b.len() == 0 {
        Some(Seq::empty())
    } else if b.len() < 2 || b[0] != CRTOpCode::DEVAT.byte_spec() {
        None
    } else {
        let dev = b[1];
        match decode_insts(b.skip(2)) {
            None => None,
            Some((insts, c)) => if 0 <= c <= b.len() - 2 {
                match decode_program(b.skip(2 + c)) {
                    None => None,
                    Some(ms) => Some(
                        seq![
                            ModuleV {
                                dev_at: if dev == DEV_ANY {
                                    None
                                } else {
                                    Some(dev)
                                },
                                instructions: insts,
                            },
                        ] + ms,
                    ),
                }
            } else {
                None
            },
        }
    }
}

/// A well-formed instruction never begins with the device prefix byte.
proof fn lemma_wf_inst_not_devat(iv: AsmInstructionV)
    requires
        iv.wf(),
    ensures
        iv.inst_bytes().len() >= 1,
        iv.inst_bytes()[0] != CRTOpCode::DEVAT.byte_spec(),
{
    assert(iv.code() != CRTOpCode::DEVAT);
}

/// Decoding an emitted instruction list undoes emitting it, as long as
/// what follows is empty or the next module's prefix.
#[verifier::rlimit(100)]
proof fn lemma_decode_insts_round_trip(s: Seq<AsmInstructionV>, rest: Seq<u8>)
    requires
        forall|i: int| 0 <= i < s.len() ==> #[trigger] s[i].wf(),
        rest.len() == 0 || rest[0] == CRTOpCode::DEVAT.byte_spec(),
    ensures
        decode_insts(insts_bytes(s) + rest) == Some((s, insts_bytes(s).len() as int)),
    decreases s.len(),
{
    let b = insts_bytes(s) + rest;
    if s.len() == 0 {
        assert(b =~= rest);
        assert(decode_insts(b) == Some((Seq::<AsmInstructionV>::empty(), 0int)));
        assert(s =~= Seq::<AsmInstructionV>::empty());
    } else {
        let x = s[0];
        let tail = s.skip(1);
        let rest2 = insts_bytes(tail) + rest;
        assert(b =~= x.inst_bytes() + rest2);
        lemma_wf_inst_not_devat(x);
        assert(b[0] == x.inst_bytes()[0]);
        lemma_inst_round_trip(x, rest2);
        let c = x.inst_bytes().len() as int;
        assert(b.skip(c) =~= rest2);
        lemma_decode_insts_round_trip(tail, rest);
        assert(decode_insts(b.skip(c)) == Some((tail, insts_bytes(tail).len() as int)));
        assert(1 <= c <= b.len());
        assert(decode_insts(b) == Some((seq![x] + tail, c + insts_bytes(tail).len() as int)));
        assert(seq![x] + tail =~= s);
        assert(insts_bytes(s).len() == c + insts_bytes(tail).len());
    }
}

/// Decoding an emitted program undoes emitting it: the parse of the byte
/// stream `to_bytes` produces is the program itself.
pub proof fn lemma_program_round_trip(s: Seq<ModuleV>)
    requires
        program_wf(s),
    ensures
        decode_program(program_bytes(s)) == Some(s),
    decreases s.len(),
{
    let b = program_bytes(s);
    if s.len() == 0 {
        assert(s =~= Seq::<ModuleV>::empty());
    } else {
        let m = s[0];
        let tail = s.skip(1);
        let rest = program_bytes(tail);
        assert(b =~= m.module_bytes() + rest);
        assert(m.wf());
        if tail.len() > 0 {
            assert(rest[0] == CRTOpCode::DEVAT.byte_spec());
        }
        assert(b[0] == CRTOpCode::DEVAT.byte_spec());
        assert(b[1] == m.dev_byte());
        assert(b.skip(2) =~= insts_bytes(m.instructions) + rest);
        lemma_decode_insts_round_trip(m.instructions, rest);
        let c = insts_bytes(m.instructions).len() as int;
        assert(b.skip(2 + c) =~= rest);
        lemma_program_round_trip(tail);
        let dev = b[1];
        let m2 = ModuleV {
            dev_at: if dev == DEV_ANY {
                None
            } else {
                Some(dev)
            },
            instructions: m.instructions,
        };
        assert(m2 == m);
        assert(seq![m] + tail =~= s);
    }
}

/// The emitted byte stream is a fixed point of a parse-then-emit cycle.
pub proof fn lemma_emit_parse_fixed_point(s: Seq<ModuleV>)
    requires
        program_wf(s),
    ensures
        decode_program(program_bytes(s)) matches Some(q) && program_bytes(q) == program_bytes(s),
{
    lemma_program_round_trip(s);
}

} // verus!
