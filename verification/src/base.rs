//! Element types, runtime status codes, and the kernel marker trait.

use vstd::prelude::*;

verus! {

/// The closed set of tensor element types.
///
/// Each element type has a fixed byte code (`0`, `1`, `2`) and an assembly
/// mnemonic (`"i32"`, `"i64"`, `"f32"`).
#[derive(Debug, PartialEq, Eq, Structural, Clone, Copy)]
pub enum ElementType {
    I32,
    I64,
    F32,
}

impl ElementType {
    /// The byte code of this element type.
    pub open spec fn code_spec(self) -> u8 {
        match self {
            ElementType::I32 => 0,
            ElementType::I64 => 1,
            ElementType::F32 => 2,
        }
    }

    /// The byte code of this element type: `i32 = 0`, `i64 = 1`, `f32 = 2`.
    pub fn code(&self) -> (r: u8)
        ensures
            r == self.code_spec(),
    {
        match self {
            ElementType::I32 => 0,
            ElementType::I64 => 1,
            ElementType::F32 => 2,
        }
    }

    /// The element type named by a byte code, if the code is known.
    pub open spec fn from_code_spec(code: u8) -> Option<ElementType> {
        match code {
            0u8 => Some(ElementType::I32),
            1u8 => Some(ElementType::I64),
            2u8 => Some(ElementType::F32),
            _ => None,
        }
    }

    /// Reads an element type back from its byte code; codes above `2` name
    /// no element type.
    pub fn from_code(code: u8) -> (r: Option<ElementType>)
        ensures
            r == ElementType::from_code_spec(code),
    {
        match code {
            0u8 => Some(ElementType::I32),
            1u8 => Some(ElementType::I64),
            2u8 => Some(ElementType::F32),
            _ => None,
        }
    }

}

/// Every byte code is read back to the element type it encodes.
pub proof fn lemma_element_type_code_round_trip(t: ElementType)
    ensures
        ElementType::from_code_spec(t.code_spec()) == Some(t),
{
}

/// The runtime status a failing or finishing interpretation reports:
/// `EXEC_FINISH` when the program counter reaches the end of the stream,
/// `RT_ERROR` on an illegal opcode, a decode error, a backend rejection or
/// a shape mismatch.
#[allow(non_camel_case_types)]
#[derive(Debug, PartialEq, Eq, Structural, Clone, Copy)]
pub enum RuntimeStatusError {
    EXEC_FINISH,
    RT_ERROR,
}

/// Compiled kernel code as a backend consumes it: a word stream.
pub type KernelByteCode = Vec<u32>;

/// Marker for types a backend can hand to its device as a kernel.
pub trait AsKernel {

}

impl AsKernel for KernelByteCode {

}

/// Types that can stand as tensor elements, each knowing its element type.
pub trait SupportedType {
    /// The element type tag of this representation.
    fn get_type_code(&self) -> ElementType;
}

impl SupportedType for i32 {
    fn get_type_code(&self) -> (r: ElementType)
        ensures
            r == ElementType::I32,
    {
        ElementType::I32
    }
}

impl SupportedType for i64 {
    fn get_type_code(&self) -> (r: ElementType)
        ensures
            r == ElementType::I64,
    {
        ElementType::I64
    }
}

} // verus!
