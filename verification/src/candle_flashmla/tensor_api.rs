//! What this library uses of `candle-core`, `half` and `float8`.

use crate::candle_flashmla::layout::agree;
use crate::candle_flashmla::layout::copy_fits;
use crate::candle_flashmla::layout::element_count;
use crate::candle_flashmla::layout::exchanged;
use crate::candle_flashmla::layout::fits;
use crate::candle_flashmla::layout::in_bounds;
use crate::candle_flashmla::layout::is_contiguous;
use crate::candle_flashmla::layout::is_row_major;
use crate::candle_flashmla::layout::is_transposed;
use crate::candle_flashmla::layout::position;
use crate::candle_flashmla::layout::replaces_rows;
use crate::candle_flashmla::layout::shows_from;
use candle_core::DType as CandleDType;
use candle_core::Error as CandleError;
use candle_core::Tensor;
use vstd::prelude::*;

verus! {

/// The tensor type of `candle-core`. Its layout never changes after it was made; what the
/// functions below say of it is all that is assumed.
#[verifier::external_type_specification]
#[verifier::external_body]
pub struct ExTensor(Tensor);

/// Element types of Candle tensors.
#[derive(Debug, Copy, Clone, PartialEq, Eq, Structural)]
pub enum DType {
    U8,
    U32,
    I16,
    I32,
    I64,
    BF16,
    F16,
    F32,
    F64,
    F8E4M3,
    F6E2M3,
    F6E3M2,
    F4,
    F8E8M0,
    /// An element type that this list does not know.
    Other,
}

impl DType {
    /// The name shown in messages.
    pub open spec fn text(self) -> Seq<char> {
        match self {
            DType::U8 => "U8"@,
            DType::U32 => "U32"@,
            DType::I16 => "I16"@,
            DType::I32 => "I32"@,
            DType::I64 => "I64"@,
            DType::BF16 => "BF16"@,
            DType::F16 => "F16"@,
            DType::F32 => "F32"@,
            DType::F64 => "F64"@,
            DType::F8E4M3 => "F8E4M3"@,
            DType::F6E2M3 => "F6E2M3"@,
            DType::F6E3M2 => "F6E3M2"@,
            DType::F4 => "F4"@,
            DType::F8E8M0 => "F8E8M0"@,
            DType::Other => "Other"@,
        }
    }

    /// The name shown in messages.
    pub fn name(self) -> (name: &'static str)
        ensures
            name@ == self.text(),
    {
        match self {
            DType::U8 => "U8",
            DType::U32 => "U32",
            DType::I16 => "I16",
            DType::I32 => "I32",
            DType::I64 => "I64",
            DType::BF16 => "BF16",
            DType::F16 => "F16",
            DType::F32 => "F32",
            DType::F64 => "F64",
            DType::F8E4M3 => "F8E4M3",
            DType::F6E2M3 => "F6E2M3",
            DType::F6E3M2 => "F6E3M2",
            DType::F4 => "F4",
            DType::F8E8M0 => "F8E8M0",
            DType::Other => "Other",
        }
    }

    /// An upper bound on the bytes that one element takes in memory.
    pub open spec fn bytes(self) -> nat {
        match self {
            DType::U8 | DType::F8E4M3 => 1,
            DType::I16 | DType::BF16 | DType::F16 => 2,
            DType::U32 | DType::I32 | DType::F32 => 4,
            _ => 8,
        }
    }

    /// Whether elements of this type can hold a packed FP8 KV cache.
    pub open spec fn holds_kv_cache(self) -> bool {
        self == DType::U8 || self == DType::F8E4M3
    }
}

/// Element types of the tensors that this library allocates.
#[derive(Debug, Copy, Clone, PartialEq, Eq, Structural)]
pub enum ElementType {
    I32,
    F32,
    BF16,
}

impl ElementType {
    /// The Candle element type.
    pub open spec fn dtype(self) -> DType {
        match self {
            ElementType::I32 => DType::I32,
            ElementType::F32 => DType::F32,
            ElementType::BF16 => DType::BF16,
        }
    }
}

/// The sizes of the axes of a tensor: `Tensor::dims`.
pub uninterp spec fn dims_of(t: Tensor) -> Seq<usize>;

/// The element strides of the axes of a tensor: `Tensor::stride`.
pub uninterp spec fn strides_of(t: Tensor) -> Seq<usize>;

/// The element type of a tensor: `Tensor::dtype`.
pub uninterp spec fn dtype_of(t: Tensor) -> DType;

/// The index in its storage of the first element of a tensor: `Layout::start_offset`.
pub uninterp spec fn start_offset_of(t: Tensor) -> usize;

/// Whether two tensors are on the same device: `Device::same_device`.
pub uninterp spec fn same_device_of(a: Tensor, b: Tensor) -> bool;

/// The elements of a tensor in row-major order, each as a label of the datum that it descends
/// from. A view shows the elements of another tensor and a copy takes them over, so either keeps
/// their labels. The label 0 is that of the zeros that Candle puts next to given elements. What is
/// written to the memory later does not change where an element came from.
pub uninterp spec fn elements_of(t: Tensor) -> Seq<int>;

/// Whether every element of a tensor was zero when Candle made the tensor.
pub uninterp spec fn zeroed_when_made(t: Tensor) -> bool;

/// Copies the slice that `candle_core::Tensor::dims` returns.
#[verifier::external_body]
pub(crate) fn tensor_dims(t: &Tensor) -> (dims: Vec<usize>)
    ensures
        dims@ == dims_of(*t),
{
    t.dims().to_vec()
}

/// Copies the slice that `candle_core::Tensor::stride` returns. There is one stride for each axis.
#[verifier::external_body]
pub(crate) fn tensor_strides(t: &Tensor) -> (strides: Vec<usize>)
    ensures
        strides@ == strides_of(*t),
        strides@.len() == dims_of(*t).len(),
{
    t.stride().to_vec()
}

/// Calls `candle_core::Tensor::dtype` and keeps the variant. The enumeration of Candle may grow: a
/// variant that is not listed here would be `Other`.
#[verifier::external_body]
pub(crate) fn tensor_dtype(t: &Tensor) -> (dtype: DType)
    ensures
        dtype == dtype_of(*t),
{
    match t.dtype() {
        CandleDType::U8 => DType::U8, CandleDType::U32 => DType::U32,
        CandleDType::I16 => DType::I16, CandleDType::I32 => DType::I32,
        CandleDType::I64 => DType::I64, CandleDType::BF16 => DType::BF16,
        CandleDType::F16 => DType::F16, CandleDType::F32 => DType::F32,
        CandleDType::F64 => DType::F64, CandleDType::F8E4M3 => DType::F8E4M3,
        CandleDType::F6E2M3 => DType::F6E2M3, CandleDType::F6E3M2 => DType::F6E3M2,
        CandleDType::F4 => DType::F4, CandleDType::F8E8M0 => DType::F8E8M0,
        _ => DType::Other,
    }
}

/// Calls `candle_core::Layout::start_offset` on the tensor's layout.
#[verifier::external_body]
pub(crate) fn tensor_start_offset(t: &Tensor) -> (offset: usize)
    ensures
        offset == start_offset_of(*t),
{
    t.layout().start_offset()
}

/// Calls `candle_core::Device::same_device` on the devices of the two tensors.
#[verifier::external_body]
pub(crate) fn tensors_share_device(a: &Tensor, b: &Tensor) -> (same: bool)
    ensures
        same == same_device_of(*a, *b),
{
    a.device().same_device(b.device())
}

/// Whether `t` is a tensor of its own storage on the device of `q`, made of zeros, with the given
/// shape in row-major order and the given element type.
pub open spec fn is_fresh(t: Tensor, q: Tensor, dims: Seq<usize>, element: ElementType) -> bool {
    &&& dims_of(t) == dims
    &&& is_row_major(dims, strides_of(t))
    &&& dtype_of(t) == element.dtype()
    &&& start_offset_of(t) == 0
    &&& same_device_of(q, t)
    &&& zeroed_when_made(t)
}

/// Calls `candle_core::Tensor::zeros` on the device of `like`. Where the allocation succeeds, the
/// tensor is made of zeros, has the given shape and element type, lies in row-major order from the
/// start of its own storage, and is on the device of `like`.
///
/// The shape has to fit: Candle multiplies the sizes without a check, and asks the allocator for
/// their product.
#[verifier::external_body]
pub(crate) fn zeros(shape: &[usize], element: ElementType, like: &Tensor) -> (r: Result<
    Tensor,
    CandleError,
>)
    requires
        fits(shape@, element.dtype().bytes()),
    ensures
        r matches Ok(t) ==> {
            &&& dims_of(t) == shape@
            &&& is_row_major(shape@, strides_of(t))
            &&& dtype_of(t) == element.dtype()
            &&& start_offset_of(t) == 0
            &&& same_device_of(*like, t)
            &&& forall|q: Tensor| #[trigger] same_device_of(q, t) == same_device_of(q, *like)
            &&& zeroed_when_made(t)
        },
{
    let dtype = match element {
        ElementType::I32 => CandleDType::I32,
        ElementType::F32 => CandleDType::F32,
        ElementType::BF16 => CandleDType::BF16,
    };
    Tensor::zeros(shape, dtype, like.device())
}

/// Calls `candle_core::Tensor::reshape`. It fails on a shape of another element count. The result
/// has the new shape in row-major order, and the old elements, element type and device. Of a
/// contiguous tensor it is a view from the same offset, and the call succeeds; of another tensor
/// it is a copy, whose allocation can fail and whose elements the CUDA copy counts in 32 bits.
#[verifier::external_body]
pub(crate) fn reshape(t: &Tensor, shape: &[usize]) -> (r: Result<Tensor, CandleError>)
    requires
        fits(dims_of(*t), dtype_of(*t).bytes()),
        fits(shape@, dtype_of(*t).bytes()),
        !is_contiguous(dims_of(*t), strides_of(*t)) ==> copy_fits(
            dims_of(*t),
            dtype_of(*t).bytes(),
        ),
    ensures
        r is Ok ==> element_count(shape@) == element_count(dims_of(*t)),
        element_count(shape@) == element_count(dims_of(*t)) && is_contiguous(
            dims_of(*t),
            strides_of(*t),
        ) ==> r is Ok,
        r matches Ok(u) ==> {
            &&& dims_of(u) == shape@
            &&& elements_of(u) == elements_of(*t)
            &&& is_row_major(shape@, strides_of(u))
            &&& dtype_of(u) == dtype_of(*t)
            &&& start_offset_of(u) == (if is_contiguous(dims_of(*t), strides_of(*t)) {
                start_offset_of(*t)
            } else {
                0
            })
            &&& forall|q: Tensor| #[trigger] same_device_of(q, u) == same_device_of(q, *t)
        },
{
    t.reshape(shape)
}

/// Whether the tensor has both axes.
pub open spec fn has_axes(t: Tensor, axis1: usize, axis2: usize) -> bool {
    axis1 < dims_of(t).len() && axis2 < dims_of(t).len()
}

/// Calls `candle_core::Tensor::transpose`. It succeeds if and only if the tensor has both axes. The
/// result is a view from the same offset in which the two axes, each with its size and stride,
/// have changed places.
#[verifier::external_body]
pub(crate) fn transpose(t: &Tensor, axis1: usize, axis2: usize) -> (r: Result<Tensor, CandleError>)
    ensures
        r is Ok <==> has_axes(*t, axis1, axis2),
        r matches Ok(u) ==> {
            &&& dims_of(u) == exchanged(dims_of(*t), axis1 as int, axis2 as int)
            &&& strides_of(u) == exchanged(strides_of(*t), axis1 as int, axis2 as int)
            &&& is_transposed(
                elements_of(*t),
                dims_of(*t),
                elements_of(u),
                axis1 as int,
                axis2 as int,
            )
            &&& dtype_of(u) == dtype_of(*t)
            &&& start_offset_of(u) == start_offset_of(*t)
            &&& forall|q: Tensor| #[trigger] same_device_of(q, u) == same_device_of(q, *t)
        },
{
    t.transpose(axis1, axis2)
}

/// Calls `candle_core::Tensor::contiguous`. A contiguous tensor is returned as it is. Of another
/// tensor it makes a row-major copy of the same shape, elements, element type and device, whose
/// allocation can fail and whose elements the CUDA copy counts in 32 bits.
#[verifier::external_body]
pub(crate) fn contiguous(t: &Tensor) -> (r: Result<Tensor, CandleError>)
    requires
        fits(dims_of(*t), dtype_of(*t).bytes()),
        !is_contiguous(dims_of(*t), strides_of(*t)) ==> copy_fits(
            dims_of(*t),
            dtype_of(*t).bytes(),
        ),
    ensures
        is_contiguous(dims_of(*t), strides_of(*t)) ==> r is Ok,
        r matches Ok(u) ==> {
            &&& dims_of(u) == dims_of(*t)
            &&& elements_of(u) == elements_of(*t)
            &&& is_contiguous(dims_of(u), strides_of(u))
            &&& dtype_of(u) == dtype_of(*t)
            &&& if is_contiguous(dims_of(*t), strides_of(*t)) {
                u == *t
            } else {
                start_offset_of(u) == 0 && is_row_major(dims_of(u), strides_of(u))
            }
            &&& forall|q: Tensor| #[trigger] same_device_of(q, u) == same_device_of(q, *t)
        },
{
    t.contiguous()
}

/// `dims` with `more` positions added to the axis `axis`.
pub open spec fn lengthened(dims: Seq<usize>, axis: usize, more: usize) -> Seq<usize> {
    dims.update(axis as int, (dims[axis as int] + more) as usize)
}

/// Whether the elements of a tensor of shape `dims` are labelled as zeros wherever their position
/// along the axis `axis` is not below `from`.
pub open spec fn zeros_from(elements: Seq<int>, dims: Seq<usize>, axis: int, from: usize) -> bool {
    forall|index: Seq<int>|
        in_bounds(dims, index) && index[axis] >= from ==> elements[#[trigger] position(dims, index)]
            == 0
}

/// Calls `candle_core::Tensor::pad_with_zeros` with nothing on the left. Where the allocations
/// succeed, the result is a row-major copy on the same device whose axis is longer by `right`
/// positions: the elements keep their indices, and the new positions hold zeros.
///
/// The tensor has to be contiguous and not empty, so that Candle copies it block by block. The
/// longer shape has to fit, and the CUDA copy counts its elements in 32 bits.
#[verifier::external_body]
pub(crate) fn pad_with_zeros(t: &Tensor, axis: usize, right: usize) -> (r: Result<
    Tensor,
    CandleError,
>)
    requires
        axis < dims_of(*t).len(),
        right > 0,
        dims_of(*t)[axis as int] + right <= usize::MAX,
        forall|i: int| 0 <= i < dims_of(*t).len() ==> #[trigger] dims_of(*t)[i] > 0,
        is_contiguous(dims_of(*t), strides_of(*t)),
        dtype_of(*t) == DType::BF16 || dtype_of(*t) == DType::F32,
        copy_fits(lengthened(dims_of(*t), axis, right), dtype_of(*t).bytes()),
    ensures
        r matches Ok(u) ==> {
            &&& dims_of(u) == lengthened(dims_of(*t), axis, right)
            &&& agree(elements_of(*t), dims_of(*t), elements_of(u), dims_of(u))
            &&& zeros_from(elements_of(u), dims_of(u), axis as int, dims_of(*t)[axis as int])
            &&& is_row_major(dims_of(u), strides_of(u))
            &&& dtype_of(u) == dtype_of(*t)
            &&& start_offset_of(u) == 0
            &&& forall|q: Tensor| #[trigger] same_device_of(q, u) == same_device_of(q, *t)
        },
{
    t.pad_with_zeros(axis, 0, right)
}

/// Whether the tensor has the axis, and on it the `len` positions from `start` on.
pub open spec fn has_positions(t: Tensor, axis: usize, start: usize, len: usize) -> bool {
    axis < dims_of(t).len() && start + len <= dims_of(t)[axis as int]
}

/// Calls `candle_core::Tensor::narrow`. It succeeds if and only if the axis exists and has the `len`
/// positions from `start` on. The result is a view with the same strides that shows these
/// positions; it begins `start` steps along the axis later.
#[verifier::external_body]
pub(crate) fn narrow(t: &Tensor, axis: usize, start: usize, len: usize) -> (r: Result<
    Tensor,
    CandleError,
>)
    ensures
        r is Ok <==> has_positions(*t, axis, start, len),
        r matches Ok(u) ==> {
            &&& dims_of(u) == dims_of(*t).update(axis as int, len)
            &&& strides_of(u) == strides_of(*t)
            &&& shows_from(
                elements_of(u),
                dims_of(u),
                elements_of(*t),
                dims_of(*t),
                axis as int,
                start,
            )
            &&& dtype_of(u) == dtype_of(*t)
            &&& start_offset_of(u) == start_offset_of(*t) + start * strides_of(*t)[axis as int]
            &&& forall|q: Tensor| #[trigger] same_device_of(q, u) == same_device_of(q, *t)
        },
{
    t.narrow(axis, start, len)
}

/// Calls `candle_core::Tensor::slice_scatter0`. Where the allocation succeeds, the result is a
/// row-major copy of `t` on the same device in which the rows of `src` stand in place of as many
/// rows from `start` on. A row is what one position of the first axis holds.
///
/// Both tensors have to be contiguous and not empty: Candle then copies their memory as it is, with
/// sizes of the width of the machine.
#[verifier::external_body]
pub(crate) fn slice_scatter0(t: &Tensor, src: &Tensor, start: usize) -> (r: Result<
    Tensor,
    CandleError,
>)
    requires
        dims_of(*t).len() > 0,
        dims_of(*src) == dims_of(*t).update(0, dims_of(*src)[0]),
        start + dims_of(*src)[0] <= dims_of(*t)[0],
        dims_of(*src)[0] > 0,
        forall|i: int| 0 <= i < dims_of(*t).len() ==> #[trigger] dims_of(*t)[i] > 0,
        is_contiguous(dims_of(*t), strides_of(*t)),
        is_contiguous(dims_of(*src), strides_of(*src)),
        dtype_of(*t) == DType::BF16 || dtype_of(*t) == DType::F32,
        dtype_of(*src) == dtype_of(*t),
        fits(dims_of(*t), dtype_of(*t).bytes()),
    ensures
        r matches Ok(u) ==> {
            &&& dims_of(u) == dims_of(*t)
            &&& replaces_rows(
                elements_of(u),
                elements_of(*t),
                dims_of(*t),
                elements_of(*src),
                dims_of(*src),
                start,
            )
            &&& is_row_major(dims_of(u), strides_of(u))
            &&& dtype_of(u) == dtype_of(*t)
            &&& start_offset_of(u) == 0
            &&& forall|q: Tensor| #[trigger] same_device_of(q, u) == same_device_of(q, *t)
        },
{
    t.slice_scatter0(src, start)
}

/// Calls `std::mem::size_of` for `half::bf16`, a transparent wrapper of `u16`.
#[verifier::external_body]
pub(crate) fn bf16_bytes() -> (bytes: usize)
    ensures
        bytes == 2,
{
    std::mem::size_of::<half::bf16>()
}

/// Calls `std::mem::size_of` for `float8::F8E4M3`, a transparent wrapper of `u8`.
#[verifier::external_body]
pub(crate) fn f8_bytes() -> (bytes: usize)
    ensures
        bytes == 1,
{
    std::mem::size_of::<float8::F8E4M3>()
}

/// The sizes of the element types that tensors of this library have, and the types that hold a
/// packed cache.
pub proof fn element_sizes(dtype: DType, element: ElementType)
    ensures
        dtype == DType::U8 || dtype == DType::F8E4M3 ==> dtype.bytes() == 1,
        dtype == DType::BF16 ==> dtype.bytes() == 2,
        dtype == DType::I32 || dtype == DType::F32 ==> dtype.bytes() == 4,
        dtype.holds_kv_cache() <==> dtype == DType::U8 || dtype == DType::F8E4M3,
        element == ElementType::I32 <==> element.dtype() == DType::I32,
        element == ElementType::F32 <==> element.dtype() == DType::F32,
        element == ElementType::BF16 <==> element.dtype() == DType::BF16,
{
}

/// Element types are shown by their own names: no two of them are shown alike.
pub proof fn shown_types_are_distinct(a: DType, b: DType)
    requires
        a.text() == b.text(),
    ensures
        a == b,
        a == DType::BF16 ==> a.text() == seq!['B', 'F', '1', '6'],
        a == DType::F32 ==> a.text() == seq!['F', '3', '2'],
        a == DType::I32 ==> a.text() == seq!['I', '3', '2'],
        a == DType::U8 ==> a.text() == seq!['U', '8'],
{
    reveal_strlit("U8");
    reveal_strlit("U32");
    reveal_strlit("I16");
    reveal_strlit("I32");
    reveal_strlit("I64");
    reveal_strlit("BF16");
    reveal_strlit("F16");
    reveal_strlit("F32");
    reveal_strlit("F64");
    reveal_strlit("F8E4M3");
    reveal_strlit("F6E2M3");
    reveal_strlit("F6E3M2");
    reveal_strlit("F4");
    reveal_strlit("F8E8M0");
    reveal_strlit("Other");
    assert("U8"@.len() == 2 && "U8"@[0] == 'U');
    assert("F4"@.len() == 2 && "F4"@[0] == 'F');
    assert("U32"@.len() == 3 && "U32"@[0] == 'U');
    assert("I16"@.len() == 3 && "I16"@[0] == 'I' && "I16"@[1] == '1');
    assert("I32"@.len() == 3 && "I32"@[0] == 'I' && "I32"@[1] == '3');
    assert("I64"@.len() == 3 && "I64"@[0] == 'I' && "I64"@[1] == '6');
    assert("F16"@.len() == 3 && "F16"@[0] == 'F' && "F16"@[1] == '1');
    assert("F32"@.len() == 3 && "F32"@[0] == 'F' && "F32"@[1] == '3');
    assert("F64"@.len() == 3 && "F64"@[0] == 'F' && "F64"@[1] == '6');
    assert("BF16"@.len() == 4);
    assert("Other"@.len() == 5);
    assert("F8E4M3"@.len() == 6 && "F8E4M3"@[1] == '8' && "F8E4M3"@[3] == '4');
    assert("F8E8M0"@.len() == 6 && "F8E8M0"@[1] == '8' && "F8E8M0"@[3] == '8');
    assert("F6E2M3"@.len() == 6 && "F6E2M3"@[1] == '6' && "F6E2M3"@[3] == '2');
    assert("F6E3M2"@.len() == 6 && "F6E3M2"@[1] == '6' && "F6E3M2"@[3] == '3');
    assert(a.text().len() == b.text().len());
    assert(a.text()[0] == b.text()[0] && a.text()[1] == b.text()[1]);
    if a.text().len() > 2 {
        assert(a.text()[2] == b.text()[2]);
    }
    if a.text().len() > 3 {
        assert(a.text()[3] == b.text()[3]);
    }
}

} // verus!
