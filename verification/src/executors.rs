//! Executor backends: the operation interface every backend implements,
//! a pure mock backend, and the reference backend for the integer kernels.
//!
//! The dispatch layer routes operations to a pool of executors through
//! this interface.  The float kernels themselves (dense arithmetic,
//! matrix multiply, activations, the random generators) are the backends'
//! own business: an implementation outside this crate may drive a BLAS
//! library or a GPU.  Whatever it does, the interface obliges it to keep
//! the shape and element-type rules of the machine, and to compute the
//! integer kernels exactly.

use vstd::prelude::*;

use crate::base::RuntimeStatusError;
use crate::instruction::CRTOpCode;
use crate::tensors::{dup_vec, shape_product, shape_product_checked, ActTensorTypes, TensorVal};

verus! {

/// Truncated division of `a` by `b`, as machine integer division rounds.
pub open spec fn div_trunc(a: int, b: int) -> int
    recommends
        b != 0,
{
    let q = (if a < 0 {
        -a
    } else {
        a
    }) / (if b < 0 {
        -b
    } else {
        b
    });
    if (a < 0) != (b < 0) {
        -q
    } else {
        q
    }
}

/// One element of an integer elementwise operation: wrapping addition,
/// subtraction and multiplication, and truncated division that wraps on
/// the one overflowing quotient.
pub open spec fn i32_binop(op: CRTOpCode, a: i32, b: i32) -> i32
    recommends
        op.is_integer_binary(),
        op == CRTOpCode::FLOORDIVI32 ==> b != 0,
{
    match op {
        CRTOpCode::ADDI32 => a.wrapping_add(b),
        CRTOpCode::SUBI32 => a.wrapping_sub(b),
        CRTOpCode::MULI32 => a.wrapping_mul(b),
        _ => div_trunc(a as int, b as int) as i32,
    }
}

/// The tensor an integer elementwise operation produces: elementwise
/// `i32_binop`, under the left operand's shape.
pub open spec fn int_binary_val(op: CRTOpCode, l: TensorVal, r: TensorVal) -> TensorVal {
    match (l, r) {
        (TensorVal::I32 { elems: le, shape }, TensorVal::I32 { elems: re, .. }) => TensorVal::I32 {
            elems: Seq::new(le.len(), |i: int| i32_binop(op, le[i], re[i])),
            shape,
        },
        _ => l,
    }
}

/// Whether two shapes can be matrix-multiplied: the left is at least a
/// matrix, the right is a matrix, and the inner dimensions agree.
pub open spec fn matmul_compatible(l: Seq<usize>, r: Seq<usize>) -> bool {
    l.len() >= 2 && r.len() == 2 && l[l.len() - 1] == r[0]
}

/// The output shape of a matrix multiply: the left shape with its last
/// dimension replaced by the right operand's column count.
pub open spec fn matmul_shape(l: Seq<usize>, r: Seq<usize>) -> Seq<usize>
    recommends
        matmul_compatible(l, r),
{
    l.update(l.len() - 1, r[1])
}

/// The operation interface of an executor backend.
///
/// `Ok` results must keep the machine's shape semantics: an elementwise
/// operation returns the left operand's shape and element type and may
/// succeed only on operands of equal shape and type; a matrix multiply
/// may succeed only on compatible shapes and returns the combined shape;
/// an integer elementwise operation that succeeds returns exactly the
/// wrapping arithmetic result.  A backend rejects an operation it does
/// not implement with an error instead of inventing a value.
pub trait ExecutorLike: Sized {
    /// A fresh executor of the backend family `typeid` names.
    fn new_with_typeid(typeid: usize) -> Self;

    /// Prepares the executor: registering kernels, opening a device.
    /// Idempotent.
    fn init(&mut self);

    /// Computes a one-input operation.
    fn unary_compute(&mut self, op: CRTOpCode, input: &ActTensorTypes) -> (r: Result<
        ActTensorTypes,
        RuntimeStatusError,
    >)
        requires
            op.is_unary_op(),
            input.wf(),
        ensures
            r matches Ok(t) ==> t.wf() && t@.shape_spec() == input@.shape_spec()
                && t@.dtype_spec() == input@.dtype_spec(),
    ;

    /// Computes a two-input operation.
    fn binary_compute(
        &mut self,
        op: CRTOpCode,
        lhs: &ActTensorTypes,
        rhs: &ActTensorTypes,
    ) -> (r: Result<ActTensorTypes, RuntimeStatusError>)
        requires
            op.is_binary_op(),
            lhs.wf(),
            rhs.wf(),
        ensures
            r matches Ok(t) ==> t.wf(),
            op.is_elementwise_binary() ==> (r matches Ok(t) ==> rhs@.shape_spec()
                == lhs@.shape_spec() && rhs@.dtype_spec() == lhs@.dtype_spec() && t@.shape_spec()
                == lhs@.shape_spec() && t@.dtype_spec() == lhs@.dtype_spec()),
            op.is_integer_binary() ==> (r matches Ok(t) ==> lhs@ matches TensorVal::I32 { .. }
                && t@ == int_binary_val(op, lhs@, rhs@)),
            op == CRTOpCode::FLOORDIVI32 ==> (r matches Ok(t) ==> (rhs@ matches TensorVal::I32 {
                elems,
                ..
            } && forall|i: int| 0 <= i < elems.len() ==> elems[i] != 0)),
            op == CRTOpCode::MATMULF32 ==> (r matches Ok(t) ==> matmul_compatible(
                lhs@.shape_spec(),
                rhs@.shape_spec(),
            ) && rhs@.dtype_spec() == lhs@.dtype_spec() && t@.shape_spec() == matmul_shape(
                lhs@.shape_spec(),
                rhs@.shape_spec(),
            ) && t@.dtype_spec() == lhs@.dtype_spec()),
    ;

    /// Computes a one-input layer operation whose output shape the
    /// instruction's result-type annotation supplies.
    fn layer_unary_compute(
        &mut self,
        op: CRTOpCode,
        input: &ActTensorTypes,
        out_shape: &Vec<usize>,
    ) -> (r: Result<ActTensorTypes, RuntimeStatusError>)
        requires
            op.is_layer_unary(),
            input.wf(),
            shape_product(out_shape@) <= usize::MAX,
        ensures
            r matches Ok(t) ==> t.wf() && t@.shape_spec() == out_shape@,
    ;

    /// Computes a three-input layer operation (general matrix multiply,
    /// convolution with bias) into the annotated output shape.
    fn ternary_compute(
        &mut self,
        op: CRTOpCode,
        a: &ActTensorTypes,
        b: &ActTensorTypes,
        c: &ActTensorTypes,
        out_shape: &Vec<usize>,
    ) -> (r: Result<ActTensorTypes, RuntimeStatusError>)
        requires
            op.is_ternary_op(),
            a.wf(),
            b.wf(),
            c.wf(),
            shape_product(out_shape@) <= usize::MAX,
        ensures
            r matches Ok(t) ==> t.wf() && t@.shape_spec() == out_shape@,
    ;

    /// Draws a tensor from the uniform (`0`) or normal (`1`) distribution.
    fn rng_tensor(&mut self, distribution: u8, shape: &Vec<usize>) -> (r: Result<
        ActTensorTypes,
        RuntimeStatusError,
    >)
        requires
            distribution == 0 || distribution == 1,
            shape_product(shape@) <= usize::MAX,
        ensures
            r matches Ok(t) ==> t.wf() && t@.shape_spec() == shape@ && t@.dtype_spec()
                == crate::base::ElementType::F32,
    ;
}

/// Whether two shape vectors are equal.
pub fn shapes_equal(a: &Vec<usize>, b: &Vec<usize>) -> (r: bool)
    ensures
        r <==> a@ =~= b@,
{
    if a.len() != b.len() {
        return false;
    }
    let mut i: usize = 0;
    while i < a.len()
        invariant
            i <= a@.len(),
            a@.len() == b@.len(),
            forall|j: int| 0 <= j < i ==> a@[j] == b@[j],
        decreases a@.len() - i,
    {
        if a[i] != b[i] {
            return false;
        }
        i = i + 1;
    }
    true
}

/// A vector of `n` copies of one 32-bit pattern.
pub fn fill_u32(value: u32, n: usize) -> (r: Vec<u32>)
    ensures
        r@.len() == n,
        forall|i: int| 0 <= i < n ==> r@[i] == value,
{
    let mut r: Vec<u32> = Vec::new();
    let mut i: usize = 0;
    while i < n
        invariant
            i <= n,
            r@.len() == i,
            forall|j: int| 0 <= j < i ==> r@[j] == value,
        decreases n - i,
    {
        r.push(value);
        i = i + 1;
    }
    r
}

/// The bit pattern every element of a mock-drawn tensor carries.
pub const MOCK_RNG_BITS: u32 = 0x3f000000;

/// The pure mock backend: no numerics.  A unary operation echoes its
/// input; a float elementwise operation echoes its left operand; a matrix
/// multiply returns a zero-filled tensor of the combined shape; the
/// integer kernels are not implemented and are rejected.
pub struct MockExecutor {
}

impl MockExecutor {
    /// A fresh mock executor.
    pub fn new() -> MockExecutor {
        MockExecutor {  }
    }
}

impl ExecutorLike for MockExecutor {
    fn new_with_typeid(_typeid: usize) -> Self {
        MockExecutor::new()
    }

    fn init(&mut self) {
    }

    fn unary_compute(&mut self, op: CRTOpCode, input: &ActTensorTypes) -> (r: Result<
        ActTensorTypes,
        RuntimeStatusError,
    >) {
        Ok(input.duplicate())
    }

    fn binary_compute(
        &mut self,
        op: CRTOpCode,
        lhs: &ActTensorTypes,
        rhs: &ActTensorTypes,
    ) -> (r: Result<ActTensorTypes, RuntimeStatusError>) {
        let is_int = match op {
            CRTOpCode::ADDI32 | CRTOpCode::SUBI32 | CRTOpCode::MULI32 | CRTOpCode::FLOORDIVI32 => {
                true
            },
            _ => false,
        };
        if is_int {
            return Err(RuntimeStatusError::RT_ERROR);
        }
        if matches!(op, CRTOpCode::MATMULF32) {
            match (lhs, rhs) {
                (
                    ActTensorTypes::F32Tensor { data: ld },
                    ActTensorTypes::F32Tensor { data: rd },
                ) => {
                    if ld.shape.len() < 2 || rd.shape.len() != 2 {
                        return Err(RuntimeStatusError::RT_ERROR);
                    }
                    if ld.shape[ld.shape.len() - 1] != rd.shape[0] {
                        return Err(RuntimeStatusError::RT_ERROR);
                    }
                    let mut out_shape = dup_vec(&ld.shape);
                    let cols = rd.shape[1];
                    let last = out_shape.len() - 1;
                    out_shape.set(last, cols);
                    proof {
                        assert(out_shape@ =~= matmul_shape(lhs@.shape_spec(), rhs@.shape_spec()));
                    }
                    match shape_product_checked(&out_shape) {
                        Some(n) => {
                            let bits = fill_u32(0, n);
                            Ok(ActTensorTypes::f32_from_bits(bits, out_shape))
                        },
                        None => Err(RuntimeStatusError::RT_ERROR),
                    }
                },
                _ => Err(RuntimeStatusError::RT_ERROR),
            }
        } else {
            // A float elementwise operation: echo the left operand once the
            // operand shapes and types agree.
            match (lhs, rhs) {
                (
                    ActTensorTypes::F32Tensor { data: ld },
                    ActTensorTypes::F32Tensor { data: rd },
                ) => {
                    if shapes_equal(&ld.shape, &rd.shape) {
                        Ok(lhs.duplicate())
                    } else {
                        Err(RuntimeStatusError::RT_ERROR)
                    }
                },
                _ => Err(RuntimeStatusError::RT_ERROR),
            }
        }
    }

    fn layer_unary_compute(
        &mut self,
        op: CRTOpCode,
        input: &ActTensorTypes,
        out_shape: &Vec<usize>,
    ) -> (r: Result<ActTensorTypes, RuntimeStatusError>) {
        match shape_product_checked(out_shape) {
            Some(n) => {
                let bits = fill_u32(0, n);
                Ok(ActTensorTypes::f32_from_bits(bits, dup_vec(out_shape)))
            },
            None => Err(RuntimeStatusError::RT_ERROR),
        }
    }

    fn ternary_compute(
        &mut self,
        op: CRTOpCode,
        a: &ActTensorTypes,
        b: &ActTensorTypes,
        c: &ActTensorTypes,
        out_shape: &Vec<usize>,
    ) -> (r: Result<ActTensorTypes, RuntimeStatusError>) {
        match shape_product_checked(out_shape) {
            Some(n) => {
                let bits = fill_u32(0, n);
                Ok(ActTensorTypes::f32_from_bits(bits, dup_vec(out_shape)))
            },
            None => Err(RuntimeStatusError::RT_ERROR),
        }
    }

    fn rng_tensor(&mut self, _distribution: u8, shape: &Vec<usize>) -> (r: Result<
        ActTensorTypes,
        RuntimeStatusError,
    >) {
        match shape_product_checked(shape) {
            Some(n) => {
                let bits = fill_u32(MOCK_RNG_BITS, n);
                Ok(ActTensorTypes::f32_from_bits(bits, dup_vec(shape)))
            },
            None => Err(RuntimeStatusError::RT_ERROR),
        }
    }
}

/// One element of the verified integer kernels.
fn i32_binop_exec(op: CRTOpCode, a: i32, b: i32) -> (r: i32)
    requires
        op.is_integer_binary(),
        op == CRTOpCode::FLOORDIVI32 ==> b != 0,
    ensures
        r == i32_binop(op, a, b),
{
    match op {
        CRTOpCode::ADDI32 => a.wrapping_add(b),
        CRTOpCode::SUBI32 => a.wrapping_sub(b),
        CRTOpCode::MULI32 => a.wrapping_mul(b),
        _ => {
            if a == i32::MIN && b == -1 {
                proof {
                    assert(div_trunc(a as int, b as int) == 0x80000000int) by (nonlinear_arith)
                        requires
                            a == i32::MIN && b == -1,
                    ;
                    assert(0x80000000u32 as i32 == i32::MIN) by (bit_vector);
                }
                i32::MIN
            } else {
                let ua: u32 = if a >= 0 {
                    a as u32
                } else {
                    (-(a as i64)) as u32
                };
                let ub: u32 = if b >= 0 {
                    b as u32
                } else {
                    (-(b as i64)) as u32
                };
                let uq: u32 = ua / ub;
                let neg = (a < 0) != (b < 0);
                proof {
                    assert(ua as int == (if a < 0 {
                        -(a as int)
                    } else {
                        a as int
                    }));
                    assert(ub as int == (if b < 0 {
                        -(b as int)
                    } else {
                        b as int
                    }));
                    assert(uq as int == div_trunc(a as int, b as int) || (neg && -(uq as int)
                        == div_trunc(a as int, b as int)));
                    vstd::arithmetic::div_mod::lemma_div_is_ordered_by_denominator(
                        ua as int,
                        1,
                        ub as int,
                    );
                    assert(uq <= ua);
                    if !neg {
                        if a != i32::MIN {
                            assert(ua <= 0x7fffffffu32);
                        } else {
                            assert(b < 0 && b != -1);
                            assert(ub >= 2);
                            vstd::arithmetic::div_mod::lemma_div_is_ordered_by_denominator(
                                ua as int,
                                2,
                                ub as int,
                            );
                            assert(uq <= ua as int / 2);
                        }
                        assert(uq <= 0x7fffffffu32);
                    }
                }
                if neg {
                    if uq == 0x80000000u32 {
                        proof {
                            assert(div_trunc(a as int, b as int) == -0x80000000int);
                        }
                        i32::MIN
                    } else {
                        let qi: i32 = uq as i32;
                        proof {
                            assert(qi as int == uq as int);
                            assert(div_trunc(a as int, b as int) == -(uq as int));
                        }
                        -qi
                    }
                } else {
                    proof {
                        assert(div_trunc(a as int, b as int) == uq as int);
                    }
                    uq as i32
                }
            }
        },
    }
}

/// The verified elementwise integer kernel: one result element per
/// operand pair, or an error on a zero divisor.
pub fn i32_elementwise(op: CRTOpCode, a: &Vec<i32>, b: &Vec<i32>) -> (r: Result<
    Vec<i32>,
    RuntimeStatusError,
>)
    requires
        op.is_integer_binary(),
        a@.len() == b@.len(),
    ensures
        r matches Ok(v) ==> v@.len() == a@.len() && (forall|i: int|
            0 <= i < a@.len() ==> v@[i] == i32_binop(op, a@[i], b@[i])) && (op
            == CRTOpCode::FLOORDIVI32 ==> forall|i: int| 0 <= i < b@.len() ==> b@[i] != 0),
        r is Err ==> op == CRTOpCode::FLOORDIVI32 && exists|i: int|
            0 <= i < b@.len() && b@[i] == 0,
{
    let is_div = matches!(op, CRTOpCode::FLOORDIVI32);
    let mut out: Vec<i32> = Vec::new();
    let mut i: usize = 0;
    while i < a.len()
        invariant
            i <= a@.len(),
            a@.len() == b@.len(),
            op.is_integer_binary(),
            is_div == (op == CRTOpCode::FLOORDIVI32),
            out@.len() == i,
            forall|j: int| 0 <= j < i ==> out@[j] == i32_binop(op, a@[j], b@[j]),
            is_div ==> forall|j: int| 0 <= j < i ==> b@[j] != 0,
        decreases a@.len() - i,
    {
        if is_div && b[i] == 0 {
            return Err(RuntimeStatusError::RT_ERROR);
        }
        out.push(i32_binop_exec(op, a[i], b[i]));
        i = i + 1;
    }
    Ok(out)
}

/// The reference CPU backend for the machine's exact kernels: the integer
/// elementwise operations.  Float kernels belong to richer backends and
/// are rejected here.
pub struct ReferenceExecutor {
}

impl ReferenceExecutor {
    /// A fresh reference executor.
    pub fn new() -> ReferenceExecutor {
        ReferenceExecutor {  }
    }
}

impl ExecutorLike for ReferenceExecutor {
    fn new_with_typeid(_typeid: usize) -> Self {
        ReferenceExecutor::new()
    }

    fn init(&mut self) {
    }

    fn unary_compute(&mut self, op: CRTOpCode, input: &ActTensorTypes) -> (r: Result<
        ActTensorTypes,
        RuntimeStatusError,
    >) {
        Err(RuntimeStatusError::RT_ERROR)
    }

    fn binary_compute(
        &mut self,
        op: CRTOpCode,
        lhs: &ActTensorTypes,
        rhs: &ActTensorTypes,
    ) -> (r: Result<ActTensorTypes, RuntimeStatusError>) {
        let is_int = match op {
            CRTOpCode::ADDI32 | CRTOpCode::SUBI32 | CRTOpCode::MULI32 | CRTOpCode::FLOORDIVI32 => {
                true
            },
            _ => false,
        };
        if !is_int {
            return Err(RuntimeStatusError::RT_ERROR);
        }
        match (lhs, rhs) {
            (ActTensorTypes::I32Tensor { data: ld }, ActTensorTypes::I32Tensor { data: rd }) => {
                if !shapes_equal(&ld.shape, &rd.shape) {
                    return Err(RuntimeStatusError::RT_ERROR);
                }
                if ld.data.len() != rd.data.len() {
                    return Err(RuntimeStatusError::RT_ERROR);
                }
                match i32_elementwise(op, &ld.data, &rd.data) {
                    Ok(elems) => {
                        let out = ActTensorTypes::i32_from_elems(elems, dup_vec(&ld.shape));
                        proof {
                            assert(out@->I32_elems =~= int_binary_val(op, lhs@, rhs@)->I32_elems);
                        }
                        Ok(out)
                    },
                    Err(e) => Err(e),
                }
            },
            _ => Err(RuntimeStatusError::RT_ERROR),
        }
    }

    fn layer_unary_compute(
        &mut self,
        _op: CRTOpCode,
        _input: &ActTensorTypes,
        _out_shape: &Vec<usize>,
    ) -> (r: Result<ActTensorTypes, RuntimeStatusError>) {
        Err(RuntimeStatusError::RT_ERROR)
    }

    fn ternary_compute(
        &mut self,
        _op: CRTOpCode,
        _a: &ActTensorTypes,
        _b: &ActTensorTypes,
        _c: &ActTensorTypes,
        _out_shape: &Vec<usize>,
    ) -> (r: Result<ActTensorTypes, RuntimeStatusError>) {
        Err(RuntimeStatusError::RT_ERROR)
    }

    fn rng_tensor(&mut self, _distribution: u8, _shape: &Vec<usize>) -> (r: Result<
        ActTensorTypes,
        RuntimeStatusError,
    >) {
        Err(RuntimeStatusError::RT_ERROR)
    }
}

} // verus!
