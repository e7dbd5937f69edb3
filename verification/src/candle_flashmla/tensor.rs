//! Tensor descriptions, their validation, and device addresses.

use crate::candle_flashmla::error::failure;
use crate::candle_flashmla::error::invalid_arg;
use crate::candle_flashmla::error::refused;
use crate::candle_flashmla::error::Error;
use crate::candle_flashmla::error::ErrorModel;
use crate::candle_flashmla::layout::is_contiguous;
use crate::candle_flashmla::layout::product_from;
use crate::candle_flashmla::tensor_api::bf16_bytes;
use crate::candle_flashmla::tensor_api::dims_of;
use crate::candle_flashmla::tensor_api::dtype_of;
use crate::candle_flashmla::tensor_api::f8_bytes;
use crate::candle_flashmla::tensor_api::same_device_of;
use crate::candle_flashmla::tensor_api::start_offset_of;
use crate::candle_flashmla::tensor_api::strides_of;
use crate::candle_flashmla::tensor_api::tensor_dims;
use crate::candle_flashmla::tensor_api::tensor_dtype;
use crate::candle_flashmla::tensor_api::tensor_start_offset;
use crate::candle_flashmla::tensor_api::tensor_strides;
use crate::candle_flashmla::tensor_api::tensors_share_device;
use crate::candle_flashmla::tensor_api::DType;
use crate::error::first;
use crate::sys::DevicePtr;
use crate::text::comma_list;
use crate::text::decimal;
use crate::text::labelled;
use crate::text::number;
use crate::text::number_list;
use candle_core::Tensor;
use vstd::prelude::*;
use vstd::string::StringExecFns;

verus! {

/// Why a shape of rank `actual` was given where one of rank `expected` is needed, if they differ.
pub open spec fn shape_rank_error(actual: nat, expected: nat) -> Option<ErrorModel> {
    if actual == expected {
        None
    } else {
        refused("expected rank "@ + decimal(expected) + ", got rank "@ + decimal(actual))
    }
}

/// Why two shapes that have to be identical are not, if they are not.
pub open spec fn shape_mismatch(left: Seq<usize>, right: Seq<usize>) -> Option<ErrorModel> {
    if left == right {
        None
    } else {
        refused(
            "shape mismatch: left=["@ + comma_list(left) + "], right=["@ + comma_list(right)
                + "]"@,
        )
    }
}

/// Ensures a tensor-like shape has the expected rank.
pub fn ensure_rank(shape: &[usize], expected: usize) -> (r: Result<(), Error>)
    ensures
        failure(r) == shape_rank_error(shape@.len(), expected as nat),
        r is Ok <==> shape@.len() == expected,
{
    if shape.len() == expected {
        Ok(())
    } else {
        invalid_arg(
            labelled("expected rank ", number(expected).as_str()).concat(", got rank ").concat(
                number(shape.len()).as_str(),
            ),
        )
    }
}

/// Tests whether two shapes are identical.
fn same_shape(left: &[usize], right: &[usize]) -> (same: bool)
    ensures
        same == (left@ == right@),
{
    if left.len() != right.len() {
        return false;
    }
    let mut i: usize = 0;
    while i < left.len()
        invariant
            left@.len() == right@.len(),
            i <= left@.len(),
            left@.take(i as int) == right@.take(i as int),
        decreases left@.len() - i,
    {
        if left[i] != right[i] {
            return false;
        }
        assert(left@.take(i + 1) == left@.take(i as int).push(left@[i as int]));
        assert(right@.take(i + 1) == right@.take(i as int).push(right@[i as int]));
        i = i + 1;
    }
    assert(left@.take(i as int) == left@);
    assert(right@.take(i as int) == right@);
    true
}

/// Ensures two tensor-like shapes are identical.
pub fn ensure_same_shape(left: &[usize], right: &[usize]) -> (r: Result<(), Error>)
    ensures
        failure(r) == shape_mismatch(left@, right@),
        r is Ok <==> left@ == right@,
{
    if same_shape(left, right) {
        Ok(())
    } else {
        invalid_arg(
            labelled("shape mismatch: left=[", number_list(left).as_str()).concat(
                "], right=[",
            ).concat(number_list(right).as_str()).concat("]"),
        )
    }
}

/// One axis of a tensor.
#[derive(Debug, Copy, Clone, PartialEq, Eq)]
pub struct Axis {
    /// The number of positions along the axis.
    pub size: usize,
    /// The distance, in elements, between two neighbouring positions.
    pub stride: usize,
}

/// What validation reads of a tensor.
#[derive(Debug, PartialEq, Eq)]
pub struct TensorDesc {
    /// The axes, outermost first.
    pub axes: Vec<Axis>,
    /// The element type.
    pub dtype: DType,
    /// Whether the tensor is on the device of the query tensor.
    pub same_device: bool,
}

/// The mathematical value of a [`TensorDesc`].
pub struct TensorModel {
    pub axes: Seq<Axis>,
    pub dtype: DType,
    pub same_device: bool,
}

impl View for TensorDesc {
    type V = TensorModel;

    open spec fn view(&self) -> TensorModel {
        TensorModel { axes: self.axes@, dtype: self.dtype, same_device: self.same_device }
    }
}

/// The value of an optional description.
pub open spec fn optional_model(desc: Option<TensorDesc>) -> Option<TensorModel> {
    match desc {
        Some(d) => Some(d@),
        None => None,
    }
}

/// What validation reads of the tensor `t`, next to the query tensor `q`.
pub open spec fn model_of(q: Tensor, t: Tensor) -> TensorModel {
    TensorModel {
        axes: Seq::new(
            dims_of(t).len(),
            |i: int| Axis { size: dims_of(t)[i], stride: strides_of(t)[i] },
        ),
        dtype: dtype_of(t),
        same_device: same_device_of(q, t),
    }
}

/// What validation reads of the optional tensor `t`, next to the query tensor `q`.
pub open spec fn optional_model_of(q: Tensor, t: Option<&Tensor>) -> Option<TensorModel> {
    match t {
        Some(tensor) => Some(model_of(q, *tensor)),
        None => None,
    }
}

impl TensorModel {
    /// The sizes of the axes.
    pub open spec fn dims(self) -> Seq<usize> {
        Seq::new(self.axes.len(), |i: int| self.axes[i].size)
    }

    /// The strides of the axes.
    pub open spec fn strides(self) -> Seq<usize> {
        Seq::new(self.axes.len(), |i: int| self.axes[i].stride)
    }

    /// The size of axis `i`.
    pub open spec fn size(self, i: int) -> usize {
        self.axes[i].size
    }

    /// The stride of axis `i`.
    pub open spec fn stride(self, i: int) -> usize {
        self.axes[i].stride
    }

    /// Whether neighbouring elements of the last axis are neighbours in memory.
    pub open spec fn last_dim_contiguous(self) -> bool {
        self.axes.len() > 0 && self.axes.last().stride == 1
    }

    /// Whether the elements lie in memory order without gaps.
    pub open spec fn contiguous(self) -> bool {
        is_contiguous(self.dims(), self.strides())
    }

    /// Whether this is a tensor of the given rank and element type on the device of the query,
    /// with a contiguous last axis.
    pub open spec fn suits(self, rank: nat, dtype: DType) -> bool {
        &&& self.axes.len() == rank
        &&& self.last_dim_contiguous()
        &&& self.same_device
        &&& self.dtype == dtype
    }

    /// Why the tensor `name` does not have the given rank, if it does not.
    pub open spec fn rank_error(self, rank: nat, name: Seq<char>) -> Option<ErrorModel> {
        if self.axes.len() == rank {
            None
        } else {
            refused(
                name + " must have rank "@ + decimal(rank) + ", got "@ + decimal(self.axes.len()),
            )
        }
    }

    /// Why the last axis of the tensor `name` is not contiguous, if it is not.
    pub open spec fn last_dim_error(self, name: Seq<char>) -> Option<ErrorModel> {
        if self.axes.len() == 0 {
            refused(name + " must have rank > 0"@)
        } else if self.axes.last().stride == 1 {
            None
        } else {
            refused(
                name + " must have a contiguous last dimension, got stride "@ + decimal(
                    self.axes.last().stride as nat,
                ),
            )
        }
    }

    /// Why the tensor `name` is not where the query is, if it is not.
    pub open spec fn device_error(self, name: Seq<char>) -> Option<ErrorModel> {
        if self.same_device {
            None
        } else {
            refused(name + " must be on the same device as q"@)
        }
    }

    /// Why the tensor `name` does not have the given element type, if it does not.
    pub open spec fn dtype_error(self, dtype: DType, name: Seq<char>) -> Option<ErrorModel> {
        if self.dtype == dtype {
            None
        } else {
            refused(
                name + " must have dtype "@ + dtype.text() + ", got "@ + self.dtype.text(),
            )
        }
    }

    /// Why the tensor `name` cannot be a packed FP8 KV cache, if it cannot.
    pub open spec fn kv_dtype_error(self, name: Seq<char>) -> Option<ErrorModel> {
        if self.dtype.holds_kv_cache() {
            None
        } else {
            refused(name + " must have dtype U8 or F8E4M3, got "@ + self.dtype.text())
        }
    }

    /// Why the tensor `name` is not contiguous, if it is not.
    pub open spec fn contiguous_error(self, name: Seq<char>) -> Option<ErrorModel> {
        if self.contiguous() {
            None
        } else {
            refused(name + " must be contiguous"@)
        }
    }

    /// Why the one-axis tensor `name` does not have `len` elements, if it does not.
    pub open spec fn length_error(self, len: usize, name: Seq<char>) -> Option<ErrorModel> {
        if self.size(0) == len {
            None
        } else {
            refused(
                name + " must have shape ["@ + decimal(len as nat) + "], got ["@ + decimal(
                    self.size(0) as nat,
                ) + "]"@,
            )
        }
    }
}

/// Why the optional tensor `name` is no one-axis tensor of the given element type next to the
/// query, if it is given and is not.
pub open spec fn vector_error(
    t: Option<TensorModel>,
    dtype: DType,
    name: Seq<char>,
) -> Option<ErrorModel> {
    match t {
        Some(v) => first(v.rank_error(1, name),
            first(v.last_dim_error(name),
            first(v.device_error(name), v.dtype_error(dtype, name)))),
        None => None,
    }
}

/// Why the optional one-axis tensor `name` does not have `len` elements, if it is given and does
/// not.
pub open spec fn vector_length_error(
    t: Option<TensorModel>,
    len: usize,
    name: Seq<char>,
) -> Option<ErrorModel> {
    match t {
        Some(v) => v.length_error(len, name),
        None => None,
    }
}

/// Whether the optional tensor is absent, or a one-axis tensor of `len` elements of the given type
/// next to the query.
pub open spec fn vector_suits(t: Option<TensorModel>, dtype: DType, len: usize) -> bool {
    match t {
        Some(v) => v.suits(1, dtype) && v.size(0) == len,
        None => true,
    }
}

impl TensorDesc {
    /// Ensures that the tensor `name` has the given rank.
    pub fn ensure_rank(&self, rank: usize, name: &str) -> (r: Result<(), Error>)
        ensures
            failure(r) == self@.rank_error(rank as nat, name@),
    {
        if self.axes.len() == rank {
            Ok(())
        } else {
            invalid_arg(
                labelled(name, " must have rank ").concat(number(rank).as_str()).concat(
                    ", got ",
                ).concat(number(self.axes.len()).as_str()),
            )
        }
    }

    /// Ensures that the last axis of the tensor `name` is contiguous.
    pub fn ensure_last_dim_contiguous(&self, name: &str) -> (r: Result<(), Error>)
        ensures
            failure(r) == self@.last_dim_error(name@),
            r is Ok <==> self@.last_dim_contiguous(),
    {
        let rank: usize = self.axes.len();
        if rank == 0 {
            return invalid_arg(labelled(name, " must have rank > 0"));
        }
        let stride: usize = self.axes[rank - 1].stride;
        if stride == 1 {
            Ok(())
        } else {
            invalid_arg(
                labelled(name, " must have a contiguous last dimension, got stride ").concat(
                    number(stride).as_str(),
                ),
            )
        }
    }

    /// Ensures that the tensor `name` is on the device of the query.
    pub fn ensure_same_device(&self, name: &str) -> (r: Result<(), Error>)
        ensures
            failure(r) == self@.device_error(name@),
    {
        if self.same_device {
            Ok(())
        } else {
            invalid_arg(labelled(name, " must be on the same device as q"))
        }
    }

    /// Ensures that the tensor `name` has the given element type.
    pub fn ensure_dtype(&self, dtype: DType, name: &str) -> (r: Result<(), Error>)
        ensures
            failure(r) == self@.dtype_error(dtype, name@),
    {
        if self.dtype == dtype {
            Ok(())
        } else {
            invalid_arg(
                labelled(name, " must have dtype ").concat(dtype.name()).concat(", got ").concat(
                    self.dtype.name(),
                ),
            )
        }
    }

    /// Ensures that the tensor `name` can be a packed FP8 KV cache.
    pub fn ensure_kv_cache_dtype(&self, name: &str) -> (r: Result<(), Error>)
        ensures
            failure(r) == self@.kv_dtype_error(name@),
    {
        match self.dtype {
            DType::U8 | DType::F8E4M3 => Ok(()),
            dtype => invalid_arg(
                labelled(name, " must have dtype U8 or F8E4M3, got ").concat(dtype.name()),
            ),
        }
    }

    /// Tests whether the elements lie in memory order without gaps.
    pub fn is_contiguous(&self) -> (ok: bool)
        ensures
            ok == self@.contiguous(),
    {
        let ghost dims = self@.dims();
        let ghost strides = self@.strides();
        let mut i: usize = self.axes.len();
        // The number of elements of the axes from `i` on, or `None` above the range of sizes.
        let mut count: Option<usize> = Some(1);
        while i > 0
            invariant
                i <= self.axes@.len(),
                dims == self@.dims(),
                strides == self@.strides(),
                match count {
                    Some(n) => n == product_from(dims, i as int),
                    None => product_from(dims, i as int) > usize::MAX,
                },
                forall|j: int|
                    i <= j < dims.len() && dims[j] > 1 ==> #[trigger] strides[j] == product_from(
                        dims,
                        j + 1,
                    ),
            decreases i,
        {
            i = i - 1;
            let axis: Axis = self.axes[i];
            assert(dims[i as int] == axis.size && strides[i as int] == axis.stride);
            if axis.size > 1 {
                let in_order = match count {
                    Some(n) => n == axis.stride,
                    None => false,
                };
                if !in_order {
                    return false;
                }
            }
            let ghost rest = product_from(dims, i + 1);
            proof {
                let d = axis.size as nat;
                assert(d >= 1 ==> d * rest >= rest) by (nonlinear_arith);
                assert(0 * rest == 0) by (nonlinear_arith);
            }
            count = if axis.size == 0 {
                Some(0)
            } else {
                match count {
                    Some(n) => axis.size.checked_mul(n),
                    None => None,
                }
            };
        }
        true
    }

    /// Ensures that the elements of the tensor `name` lie in memory order without gaps.
    pub fn ensure_contiguous(&self, name: &str) -> (r: Result<(), Error>)
        ensures
            failure(r) == self@.contiguous_error(name@),
            r is Ok <==> self@.contiguous(),
    {
        if self.is_contiguous() {
            Ok(())
        } else {
            invalid_arg(labelled(name, " must be contiguous"))
        }
    }

    /// Ensures that the one-axis tensor `name` has `len` elements.
    pub fn ensure_length(&self, len: usize, name: &str) -> (r: Result<(), Error>)
        requires
            self@.axes.len() > 0,
        ensures
            failure(r) == self@.length_error(len, name@),
    {
        let actual: usize = self.axes[0].size;
        if actual == len {
            Ok(())
        } else {
            invalid_arg(
                labelled(name, " must have shape [").concat(number(len).as_str()).concat(
                    "], got [",
                ).concat(number(actual).as_str()).concat("]"),
            )
        }
    }
}

/// Ensures that the optional tensor `name`, where it is given, is a one-axis tensor of the given
/// element type next to the query.
pub fn ensure_vector(t: &Option<TensorDesc>, dtype: DType, name: &str) -> (r: Result<(), Error>)
    ensures
        failure(r) == vector_error(optional_model(*t), dtype, name@),
{
    if let Some(v) = t {
        v.ensure_rank(1, name)?;
        v.ensure_last_dim_contiguous(name)?;
        v.ensure_same_device(name)?;
        v.ensure_dtype(dtype, name)?;
    }
    Ok(())
}

/// Ensures that the optional one-axis tensor `name`, where it is given, has `len` elements.
pub fn ensure_vector_length(t: &Option<TensorDesc>, len: usize, name: &str) -> (r: Result<
    (),
    Error,
>)
    requires
        optional_model(*t) matches Some(v) ==> v.axes.len() > 0,
    ensures
        failure(r) == vector_length_error(optional_model(*t), len, name@),
{
    match t {
        Some(v) => v.ensure_length(len, name),
        None => Ok(()),
    }
}

/// Reads from the tensor `t` what validation needs, next to the query tensor `q`.
pub fn describe(q: &Tensor, t: &Tensor) -> (desc: TensorDesc)
    ensures
        desc@ == model_of(*q, *t),
        desc@.dims() == dims_of(*t),
        desc@.strides() == strides_of(*t),
{
    let dims = tensor_dims(t);
    let strides = tensor_strides(t);
    let mut axes: Vec<Axis> = Vec::new();
    let mut i: usize = 0;
    while i < dims.len()
        invariant
            i <= dims@.len(),
            dims@ == dims_of(*t),
            strides@ == strides_of(*t),
            strides@.len() == dims@.len(),
            axes@ == model_of(*q, *t).axes.take(i as int),
        decreases dims@.len() - i,
    {
        axes.push(Axis { size: dims[i], stride: strides[i] });
        i = i + 1;
        assert(axes@ == model_of(*q, *t).axes.take(i as int));
    }
    assert(axes@ == model_of(*q, *t).axes);
    TensorDesc { axes, dtype: tensor_dtype(t), same_device: tensors_share_device(q, t) }
}

/// Reads from the optional tensor `t` what validation needs, next to the query tensor `q`.
pub fn describe_optional(q: &Tensor, t: Option<&Tensor>) -> (desc: Option<TensorDesc>)
    ensures
        optional_model(desc) == optional_model_of(*q, t),
{
    match t {
        Some(tensor) => Some(describe(q, tensor)),
        None => None,
    }
}

/// Why the element at index `start_offset` of the storage at `base` has no address, if it has
/// none.
pub open spec fn address_error(
    base: u64,
    start_offset: usize,
    elem_bytes: nat,
    name: Seq<char>,
) -> Option<ErrorModel> {
    if start_offset * elem_bytes > usize::MAX {
        refused(name + " start_offset overflow"@)
    } else if base + start_offset * elem_bytes > u64::MAX {
        refused(name + " pointer overflow"@)
    } else {
        None
    }
}

/// The address of the element at index `start_offset` of the storage at `base`, for elements of
/// `elem_bytes` bytes.
pub fn device_address(base: u64, start_offset: usize, elem_bytes: usize, name: &str) -> (r: Result<
    DevicePtr,
    Error,
>)
    ensures
        failure(r) == address_error(base, start_offset, elem_bytes as nat, name@),
        r matches Ok(ptr) ==> ptr.addr == base + start_offset * elem_bytes,
{
    match start_offset.checked_mul(elem_bytes) {
        Some(offset) => match base.checked_add(offset as u64) {
            Some(addr) => Ok(DevicePtr { addr }),
            None => invalid_arg(labelled(name, " pointer overflow")),
        },
        None => invalid_arg(labelled(name, " start_offset overflow")),
    }
}

/// Why the optional tensor `t`, whose storage is at `base`, has no device address, if it is given
/// and has none.
pub open spec fn pointer_error(
    t: Option<&Tensor>,
    base: u64,
    elem_bytes: nat,
    name: Seq<char>,
) -> Option<ErrorModel> {
    match t {
        Some(tensor) => address_error(base, start_offset_of(*tensor), elem_bytes, name),
        None => None,
    }
}

/// The address of the first element of the optional tensor `t`, whose storage is at `base`. It is
/// the null pointer when the tensor is absent.
pub open spec fn pointer_to(t: Option<&Tensor>, base: u64, elem_bytes: nat) -> DevicePtr {
    match t {
        Some(tensor) => DevicePtr {
            addr: (base + start_offset_of(*tensor) * elem_bytes) as u64,
        },
        None => DevicePtr { addr: 0 },
    }
}

/// Why the optional packed FP8 KV cache `t`, whose storage is at `base`, has no device address, if
/// it is given and has none.
pub open spec fn cache_pointer_error(t: Option<&Tensor>, base: u64, name: Seq<char>) -> Option<
    ErrorModel,
> {
    match t {
        Some(tensor) => if dtype_of(*tensor).holds_kv_cache() {
            pointer_error(t, base, 1, name)
        } else {
            refused(name + " must have dtype U8 or F8E4M3, got "@ + dtype_of(*tensor).text())
        },
        None => None,
    }
}

/// The address of the first element of a BF16 tensor whose storage is at `base`.
pub fn tensor_ptr_bf16(t: &Tensor, base: u64, name: &str) -> (r: Result<DevicePtr, Error>)
    ensures
        failure(r) == pointer_error(Some(t), base, 2, name@),
        r matches Ok(ptr) ==> ptr == pointer_to(Some(t), base, 2),
{
    device_address(base, tensor_start_offset(t), bf16_bytes(), name)
}

/// The address of the first element of an I32 tensor whose storage is at `base`.
pub fn tensor_ptr_i32(t: &Tensor, base: u64, name: &str) -> (r: Result<DevicePtr, Error>)
    ensures
        failure(r) == pointer_error(Some(t), base, 4, name@),
        r matches Ok(ptr) ==> ptr == pointer_to(Some(t), base, 4),
{
    device_address(base, tensor_start_offset(t), 4, name)
}

/// The address of the first element of an F32 tensor whose storage is at `base`.
pub fn tensor_ptr_f32(t: &Tensor, base: u64, name: &str) -> (r: Result<DevicePtr, Error>)
    ensures
        failure(r) == pointer_error(Some(t), base, 4, name@),
        r matches Ok(ptr) ==> ptr == pointer_to(Some(t), base, 4),
{
    device_address(base, tensor_start_offset(t), 4, name)
}

/// The address of the first element of a packed FP8 KV cache whose storage is at `base`.
pub fn tensor_ptr_u8_or_f8(t: &Tensor, base: u64, name: &str) -> (r: Result<DevicePtr, Error>)
    ensures
        failure(r) == cache_pointer_error(Some(t), base, name@),
        r matches Ok(ptr) ==> ptr == pointer_to(Some(t), base, 1),
{
    match tensor_dtype(t) {
        DType::U8 => device_address(base, tensor_start_offset(t), 1, name),
        DType::F8E4M3 => device_address(base, tensor_start_offset(t), f8_bytes(), name),
        dtype => invalid_arg(
            labelled(name, " must have dtype U8 or F8E4M3, got ").concat(dtype.name()),
        ),
    }
}

/// The address of the first element of an optional I32 tensor, or the null pointer when the tensor
/// is absent. `base` is only read where the tensor is given.
pub fn optional_ptr_i32(t: Option<&Tensor>, base: u64, name: &str) -> (r: Result<DevicePtr, Error>)
    ensures
        failure(r) == pointer_error(t, base, 4, name@),
        r matches Ok(ptr) ==> ptr == pointer_to(t, base, 4),
{
    match t {
        Some(tensor) => tensor_ptr_i32(tensor, base, name),
        None => Ok(DevicePtr::null()),
    }
}

/// The address of the first element of an optional F32 tensor, or the null pointer when the tensor
/// is absent. `base` is only read where the tensor is given.
pub fn optional_ptr_f32(t: Option<&Tensor>, base: u64, name: &str) -> (r: Result<DevicePtr, Error>)
    ensures
        failure(r) == pointer_error(t, base, 4, name@),
        r matches Ok(ptr) ==> ptr == pointer_to(t, base, 4),
{
    match t {
        Some(tensor) => tensor_ptr_f32(tensor, base, name),
        None => Ok(DevicePtr::null()),
    }
}

/// The address of the first element of an optional packed FP8 KV cache, or the null pointer when
/// the cache is absent. `base` is only read where the cache is given.
pub fn optional_ptr_u8_or_f8(t: Option<&Tensor>, base: u64, name: &str) -> (r: Result<
    DevicePtr,
    Error,
>)
    ensures
        failure(r) == cache_pointer_error(t, base, name@),
        r matches Ok(ptr) ==> ptr == pointer_to(t, base, 1),
{
    match t {
        Some(tensor) => tensor_ptr_u8_or_f8(tensor, base, name),
        None => Ok(DevicePtr::null()),
    }
}

/// Why the device ordinal is no C ABI integer, if it is none.
pub open spec fn ordinal_error(ordinal: usize) -> Option<ErrorModel> {
    if ordinal > i32::MAX {
        refused("device id overflow"@)
    } else {
        None
    }
}

/// The device ordinal as the C ABI's integer.
pub fn device_id_from_ordinal(ordinal: usize) -> (r: Result<i32, Error>)
    ensures
        failure(r) == ordinal_error(ordinal),
        r matches Ok(id) ==> id == ordinal,
{
    if ordinal > i32::MAX as usize {
        invalid_arg(String::from_str("device id overflow"))
    } else {
        Ok(ordinal as i32)
    }
}

/// The pointer to a tensor that has an address lies as many elements behind its storage as the
/// tensor starts into it; an absent tensor has the null pointer. There is no address if and only if
/// it exceeds the range of sizes or of addresses.
pub proof fn pointers_lie_at_the_first_element(
    t: Tensor,
    base: u64,
    elem_bytes: nat,
    name: Seq<char>,
)
    ensures
        pointer_error(Some(&t), base, elem_bytes, name) is None <==> start_offset_of(t) * elem_bytes
            <= usize::MAX && base + start_offset_of(t) * elem_bytes <= u64::MAX,
        pointer_error(Some(&t), base, elem_bytes, name) is None ==> pointer_to(
            Some(&t),
            base,
            elem_bytes,
        ).addr == base + start_offset_of(t) * elem_bytes,
        pointer_error(None, base, elem_bytes, name) is None,
        pointer_to(None, base, elem_bytes).addr == 0,
{
    assert(start_offset_of(t) * elem_bytes >= 0) by (nonlinear_arith);
}

/// A packed FP8 cache has an address if and only if its elements are bytes or FP8 numbers and it has
/// one as a tensor of single bytes.
pub proof fn caches_are_addressed_by_bytes(t: Tensor, base: u64, name: Seq<char>)
    ensures
        cache_pointer_error(Some(&t), base, name) is None <==> (dtype_of(t) == DType::U8 || dtype_of(
            t,
        ) == DType::F8E4M3) && base + start_offset_of(t) <= u64::MAX,
        cache_pointer_error(None, base, name) is None,
{
}

/// What validation reads of a tensor are its sizes and strides, axis by axis, its element type and
/// whether it shares the device of the query.
pub proof fn descriptions_are_of_the_tensor(q: Tensor, t: Tensor, i: int)
    requires
        0 <= i < dims_of(t).len(),
    ensures
        model_of(q, t).axes.len() == dims_of(t).len(),
        model_of(q, t).size(i) == dims_of(t)[i],
        model_of(q, t).stride(i) == strides_of(t)[i],
        model_of(q, t).dtype == dtype_of(t),
        model_of(q, t).same_device == same_device_of(q, t),
{
}

/// The sizes and strides that validation reads are those of the tensor, and a tensor is taken for
/// contiguous if and only if each axis of several positions steps over all elements of the later
/// axes.
pub proof fn descriptions_have_the_layout(q: Tensor, t: Tensor)
    requires
        strides_of(t).len() == dims_of(t).len(),
    ensures
        model_of(q, t).dims() == dims_of(t),
        model_of(q, t).strides() == strides_of(t),
        model_of(q, t).contiguous() <==> is_contiguous(dims_of(t), strides_of(t)),
{
    assert(model_of(q, t).dims() == dims_of(t));
    assert(model_of(q, t).strides() == strides_of(t));
}

/// A tensor suits a role if and only if it has its rank and element type, lies next to the query and
/// has a last axis of unit steps.
pub proof fn suitable_tensors(q: Tensor, t: Tensor, rank: nat, dtype: DType)
    requires
        rank > 0,
    ensures
        model_of(q, t).suits(rank, dtype) <==> {
            &&& dims_of(t).len() == rank
            &&& strides_of(t)[rank - 1] == 1
            &&& same_device_of(q, t)
            &&& dtype_of(t) == dtype
        },
        model_of(q, t).last_dim_contiguous() <==> dims_of(t).len() > 0 && strides_of(
            t,
        )[dims_of(t).len() - 1] == 1,
{
    let m = model_of(q, t);
    if dims_of(t).len() > 0 {
        assert(m.axes.last() == m.axes[dims_of(t).len() - 1]);
    }
}

/// Whether the optional tensor is absent or a one-axis tensor of `len` elements of the given type
/// next to `q`, with unit steps.
pub open spec fn optional_vector(q: Tensor, t: Option<&Tensor>, dtype: DType, len: usize) -> bool {
    t matches Some(v) ==> {
        &&& dims_of(*v) == seq![len]
        &&& strides_of(*v)[0] == 1
        &&& dtype_of(*v) == dtype
        &&& same_device_of(q, *v)
    }
}

/// An optional vector is accepted exactly as its role asks.
pub proof fn accepted_vectors(q: Tensor, t: Option<&Tensor>, dtype: DType, len: usize)
    ensures
        vector_suits(
            optional_model_of(q, t),
            dtype,
            len,
        ) <==> optional_vector(q, t, dtype, len),
{
    if let Some(v) = t {
        suitable_tensors(q, *v, 1, dtype);
        let m = model_of(q, *v);
        if dims_of(*v).len() == 1 {
            assert(m.axes[0].size == dims_of(*v)[0]);
            if dims_of(*v)[0] == len {
                assert(dims_of(*v) == seq![len]);
            }
        }
    }
}

/// A device ordinal is refused if and only if it exceeds the 32-bit integers.
pub proof fn refused_ordinals(ordinal: usize)
    ensures
        ordinal <= 0x7fff_ffff ==> ordinal_error(ordinal) is None,
        ordinal > 0x7fff_ffff ==> ordinal_error(ordinal) == Some(
            ErrorModel::Tensor("device id overflow"@),
        ),
{
}

/// The value of a description has the axes, the element type and the device of the description, and
/// an optional description has a value if and only if it is given.
pub proof fn descriptions_are_taken_as_they_are(desc: TensorDesc, optional: Option<TensorDesc>)
    ensures
        desc@.axes == desc.axes@,
        desc@.dtype == desc.dtype,
        desc@.same_device == desc.same_device,
        optional is None <==> optional_model(optional) is None,
        optional matches Some(d) ==> optional_model(optional) == Some(d@),
{
}

} // verus!
