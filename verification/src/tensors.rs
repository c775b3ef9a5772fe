//! Tensor values: a dense, row-major data vector, an element type, and a
//! shape.
//!
//! Float tensors carry their elements as IEEE-754 bit patterns (`u32`), so
//! that the interpreter and the encoders can move them byte-exactly; only a
//! backend gives the bits numeric meaning.

use vstd::prelude::*;

use crate::base::ElementType;

verus! {

/// The number of elements a shape describes: the product of its dimensions.
pub open spec fn shape_product(s: Seq<usize>) -> int
    decreases s.len(),
{
    if s.len() == 0 {
        1
    } else {
        (s[0] as int) * shape_product(s.skip(1))
    }
}

/// The product of a shape's dimensions, or `None` if it does not fit a
/// machine word.
pub fn shape_product_checked(s: &Vec<usize>) -> (r: Option<usize>)
    ensures
        r matches Some(p) ==> p == shape_product(s@),
        r is None ==> shape_product(s@) > usize::MAX,
{
    let mut i: usize = 0;
    while i < s.len()
        invariant
            0 <= i <= s@.len(),
            forall|j: int| 0 <= j < i ==> s@[j] != 0,
        decreases s@.len() - i,
    {
        if s[i] == 0 {
            proof {
                lemma_shape_product_nonneg(s@);
            }
            return Some(0);
        }
        i = i + 1;
    }
    proof {
        lemma_shape_product_nonneg(s@);
        assert(shape_product(s@) >= 1);
        assert(s@.skip(0) =~= s@);
    }
    let mut acc: usize = 1;
    i = 0;
    while i < s.len()
        invariant
            0 <= i <= s@.len(),
            shape_product(s@) == acc * shape_product(s@.skip(i as int)),
            acc <= usize::MAX,
            forall|j: int| 0 <= j < s@.len() ==> s@[j] != 0,
        decreases s@.len() - i,
    {
        proof {
            assert(s@.skip(i as int)[0] == s@[i as int]);
            assert(s@.skip(i as int).skip(1) =~= s@.skip(i as int + 1));
        }
        let d = s[i];
        match acc.checked_mul(d) {
            Some(next) => {
                proof {
                    vstd::arithmetic::mul::lemma_mul_is_associative(
                        acc as int,
                        d as int,
                        shape_product(s@.skip(i as int + 1)),
                    );
                }
                acc = next;
            },
            None => {
                proof {
                    let tail = s@.skip(i as int + 1);
                    lemma_shape_product_nonneg(tail);
                    assert forall|j: int| 0 <= j < tail.len() implies tail[j] != 0 by {
                        assert(tail[j] == s@[j + i + 1]);
                    }
                    assert(shape_product(tail) >= 1);
                    vstd::arithmetic::mul::lemma_mul_is_associative(
                        acc as int,
                        d as int,
                        shape_product(tail),
                    );
                    vstd::arithmetic::mul::lemma_mul_inequality(
                        1,
                        shape_product(tail),
                        (acc as int) * (d as int),
                    );
                    vstd::arithmetic::mul::lemma_mul_is_commutative(
                        (acc as int) * (d as int),
                        shape_product(tail),
                    );
                }
                return None;
            },
        }
        i = i + 1;
    }
    proof {
        assert(s@.skip(i as int) =~= Seq::<usize>::empty());
    }
    Some(acc)
}

/// Every shape product is at least zero; it is zero only when some
/// dimension is zero.
pub proof fn lemma_shape_product_nonneg(s: Seq<usize>)
    ensures
        shape_product(s) >= 0,
        (shape_product(s) == 0 <==> exists|i: int| 0 <= i < s.len() && s[i] == 0),
    decreases s.len(),
{
    if s.len() > 0 {
        lemma_shape_product_nonneg(s.skip(1));
        vstd::arithmetic::mul::lemma_mul_nonnegative(s[0] as int, shape_product(s.skip(1)));
        if s[0] == 0 {
            assert(shape_product(s) == 0);
        } else if shape_product(s.skip(1)) == 0 {
            assert(shape_product(s) == (s[0] as int) * shape_product(s.skip(1)) == 0);
            let j = choose|j: int| 0 <= j < s.skip(1).len() && s.skip(1)[j] == 0;
            assert(s[j + 1] == 0);
        } else {
            vstd::arithmetic::mul::lemma_mul_strictly_positive(
                s[0] as int,
                shape_product(s.skip(1)),
            );
            assert forall|i: int| 0 <= i < s.len() implies s[i] != 0 by {
                if i > 0 {
                    assert(s.skip(1)[i - 1] == s[i]);
                }
            }
        }
    }
}

/// A dense tensor: data vector, element type, shape.
#[derive(Debug, Clone, PartialEq)]
pub struct TensorView<T> {
    pub data: Vec<T>,
    pub dtype: ElementType,
    pub shape: Vec<usize>,
}

impl<T> TensorView<T> {
    /// Whether the data vector fills the shape exactly.
    pub open spec fn wf(self) -> bool {
        self.data@.len() == shape_product(self.shape@)
    }

    /// Packs data, element type and shape into a tensor.
    pub fn new(data: Vec<T>, dtype: ElementType, shape: Vec<usize>) -> (r: TensorView<T>)
        ensures
            r.data == data,
            r.dtype == dtype,
            r.shape == shape,
    {
        TensorView { data, dtype, shape }
    }
}

/// Copies a vector of plain values.
pub fn dup_vec<T: Copy>(v: &Vec<T>) -> (r: Vec<T>)
    ensures
        r@ == v@,
{
    let mut r: Vec<T> = Vec::new();
    let mut i: usize = 0;
    while i < v.len()
        invariant
            i <= v@.len(),
            r@ == v@.take(i as int),
        decreases v@.len() - i,
    {
        r.push(v[i]);
        proof {
            assert(v@.take(i as int).push(v@[i as int]) =~= v@.take(i as int + 1));
        }
        i = i + 1;
    }
    proof {
        assert(v@.take(i as int) =~= v@);
    }
    r
}

/// The tensor variants the machine stores in its slot table: float tensors
/// (elements as bit patterns) and 32-bit integer tensors.
#[derive(Debug, Clone, PartialEq)]
pub enum ActTensorTypes {
    F32Tensor { data: TensorView<u32> },
    I32Tensor { data: TensorView<i32> },
}

/// The mathematical value of a tensor: its elements and its shape.  Float
/// elements are IEEE-754 bit patterns.
pub enum TensorVal {
    F32 { bits: Seq<u32>, shape: Seq<usize> },
    I32 { elems: Seq<i32>, shape: Seq<usize> },
}

impl TensorVal {
    /// Whether the element count fills the shape exactly.
    pub open spec fn wf(self) -> bool {
        match self {
            TensorVal::F32 { bits, shape } => bits.len() == shape_product(shape),
            TensorVal::I32 { elems, shape } => elems.len() == shape_product(shape),
        }
    }

    /// The tensor's shape.
    pub open spec fn shape_spec(self) -> Seq<usize> {
        match self {
            TensorVal::F32 { shape, .. } => shape,
            TensorVal::I32 { shape, .. } => shape,
        }
    }

    /// The tensor's element type.
    pub open spec fn dtype_spec(self) -> ElementType {
        match self {
            TensorVal::F32 { .. } => ElementType::F32,
            TensorVal::I32 { .. } => ElementType::I32,
        }
    }

    /// The tensor's element count.
    pub open spec fn len_spec(self) -> nat {
        match self {
            TensorVal::F32 { bits, .. } => bits.len(),
            TensorVal::I32 { elems, .. } => elems.len(),
        }
    }
}

impl View for ActTensorTypes {
    type V = TensorVal;

    open spec fn view(&self) -> TensorVal {
        match self {
            ActTensorTypes::F32Tensor { data } => TensorVal::F32 {
                bits: data.data@,
                shape: data.shape@,
            },
            ActTensorTypes::I32Tensor { data } => TensorVal::I32 {
                elems: data.data@,
                shape: data.shape@,
            },
        }
    }
}

impl ActTensorTypes {
    /// Whether the tensor's data fills its shape and its tag matches its
    /// element type.
    pub open spec fn wf(self) -> bool {
        match self {
            ActTensorTypes::F32Tensor { data } => data.wf() && data.dtype == ElementType::F32,
            ActTensorTypes::I32Tensor { data } => data.wf() && data.dtype == ElementType::I32,
        }
    }

    /// The tensor's shape, cloned.
    pub fn shape(&self) -> (r: Vec<usize>)
        ensures
            r@ == self@.shape_spec(),
    {
        match self {
            ActTensorTypes::F32Tensor { data } => dup_vec(&data.shape),
            ActTensorTypes::I32Tensor { data } => dup_vec(&data.shape),
        }
    }

    /// The tensor's element count.
    pub fn element_count(&self) -> (r: usize)
        ensures
            r == self@.len_spec(),
    {
        match self {
            ActTensorTypes::F32Tensor { data } => data.data.len(),
            ActTensorTypes::I32Tensor { data } => data.data.len(),
        }
    }

    /// An exact copy of the tensor.
    pub fn duplicate(&self) -> (r: ActTensorTypes)
        ensures
            r@ == self@,
            r.wf() == self.wf(),
    {
        match self {
            ActTensorTypes::F32Tensor { data } => ActTensorTypes::F32Tensor {
                data: TensorView {
                    data: dup_vec(&data.data),
                    dtype: data.dtype,
                    shape: dup_vec(&data.shape),
                },
            },
            ActTensorTypes::I32Tensor { data } => ActTensorTypes::I32Tensor {
                data: TensorView {
                    data: dup_vec(&data.data),
                    dtype: data.dtype,
                    shape: dup_vec(&data.shape),
                },
            },
        }
    }

    /// A fresh float tensor from element bit patterns and a shape.
    pub fn f32_from_bits(bits: Vec<u32>, shape: Vec<usize>) -> (r: ActTensorTypes)
        requires
            bits@.len() == shape_product(shape@),
        ensures
            r@ == (TensorVal::F32 { bits: bits@, shape: shape@ }),
            r.wf(),
    {
        ActTensorTypes::F32Tensor {
            data: TensorView { data: bits, dtype: ElementType::F32, shape },
        }
    }

    /// A fresh integer tensor from elements and a shape.
    pub fn i32_from_elems(elems: Vec<i32>, shape: Vec<usize>) -> (r: ActTensorTypes)
        requires
            elems@.len() == shape_product(shape@),
        ensures
            r@ == (TensorVal::I32 { elems: elems@, shape: shape@ }),
            r.wf(),
    {
        ActTensorTypes::I32Tensor {
            data: TensorView { data: elems, dtype: ElementType::I32, shape },
        }
    }
}

} // verus!
