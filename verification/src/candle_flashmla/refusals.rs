//! What refused tensors report: the first of their constraints that they violate.

use crate::arch::Arch;
use crate::candle_flashmla::dense_decode::DenseDecodeModel;
use crate::candle_flashmla::dense_decode::DenseDecodeTensors;
use crate::candle_flashmla::dense_decode_launch::DenseDecodeBases;
use crate::candle_flashmla::dense_decode_launch::DenseDecodeLaunchModel;
use crate::candle_flashmla::dense_decode_plan;
use crate::candle_flashmla::dense_decode_plan::DenseDecodePlan;
use crate::candle_flashmla::dense_decode_plan::DenseDecodePlanBases;
use crate::candle_flashmla::error::lifted;
use crate::candle_flashmla::error::refused;
use crate::candle_flashmla::error::ErrorModel;
use crate::candle_flashmla::layout::is_contiguous;
use crate::candle_flashmla::sparse_decode::SparseDecodeModel;
use crate::candle_flashmla::sparse_decode::SparseDecodeTensors;
use crate::candle_flashmla::sparse_decode_launch::SparseDecodeBases;
use crate::candle_flashmla::sparse_decode_launch::SparseDecodeLaunchModel;
use crate::candle_flashmla::sparse_decode_plan;
use crate::candle_flashmla::sparse_decode_plan::SparseDecodePlan;
use crate::candle_flashmla::sparse_decode_plan::SparseDecodePlanBases;
use crate::candle_flashmla::sparse_prefill::SparsePrefillBases;
use crate::candle_flashmla::sparse_prefill::SparsePrefillLaunchModel;
use crate::candle_flashmla::sparse_prefill::SparsePrefillModel;
use crate::candle_flashmla::sparse_prefill::SparsePrefillTensors;
use crate::candle_flashmla::tensor::address_error;
use crate::candle_flashmla::tensor::cache_pointer_error;
use crate::candle_flashmla::tensor::pointer_error;
use crate::candle_flashmla::tensor::shape_mismatch;
use crate::candle_flashmla::tensor::shape_rank_error;
use crate::candle_flashmla::tensor::vector_error;
use crate::candle_flashmla::tensor::vector_length_error;
use crate::candle_flashmla::tensor::TensorModel;
use crate::candle_flashmla::tensor_api::DType;
use crate::candle_flashmla::workspace::WorkspaceModel;
use crate::dense_decode::DenseDecodeDims;
use crate::dense_decode::DenseDecodePlanMeta;
use crate::error::as_check;
use crate::error::first_violated;
use crate::error::first_violations_are_reported;
use crate::error::invalid;
use crate::error::violated_upto;
use crate::sparse_decode::SparseDecodeDims;
use crate::sparse_decode::SparseDecodePlanMeta;
use crate::text::comma_list;
use crate::text::decimal;
use candle_core::Tensor;
use vstd::prelude::*;

verus! {

/// A tensor of another rank is refused with its name and both ranks.
pub proof fn refused_ranks(m: TensorModel, rank: nat, name: Seq<char>)
    ensures
        m.rank_error(rank, name) == first_violated(
            seq![
                (
                    m.axes.len() != rank,
                    refused(
                        name + " must have rank "@ + decimal(rank) + ", got "@
                            + decimal(m.axes.len()),
                    ),
                ),
            ],
        ),
{
    reveal_with_fuel(violated_upto, 2);
}

/// A tensor without axes, or whose last axis does not have unit steps, is refused with its name.
pub proof fn refused_last_axes(m: TensorModel, name: Seq<char>)
    ensures
        m.last_dim_error(name) == first_violated(
            seq![
                (m.axes.len() == 0, refused(name + " must have rank > 0"@)),
                (
                    m.axes[m.axes.len() - 1].stride != 1,
                    refused(
                        name + " must have a contiguous last dimension, got stride "@
                            + decimal(m.axes[m.axes.len() - 1].stride as nat),
                    ),
                ),
            ],
        ),
{
    reveal_with_fuel(violated_upto, 3);
}

/// A tensor on another device than the query is refused with its name.
pub proof fn refused_devices(m: TensorModel, name: Seq<char>)
    ensures
        m.device_error(name) == first_violated(
            seq![
                (!m.same_device, refused(name + " must be on the same device as q"@)),
            ],
        ),
{
    reveal_with_fuel(violated_upto, 2);
}

/// A tensor of another element type is refused with its name and both types.
pub proof fn refused_element_types(m: TensorModel, dtype: DType, name: Seq<char>)
    ensures
        m.dtype_error(dtype, name) == first_violated(
            seq![
                (
                    m.dtype != dtype,
                    refused(
                        name + " must have dtype "@ + dtype.text() + ", got "@ + m.dtype.text(),
                    ),
                ),
            ],
        ),
{
    reveal_with_fuel(violated_upto, 2);
}

/// A cache of other elements than bytes and FP8 numbers is refused with its name and its type.
pub proof fn refused_cache_element_types(m: TensorModel, name: Seq<char>)
    ensures
        m.kv_dtype_error(name) == first_violated(
            seq![
                (
                    m.dtype != DType::U8 && m.dtype != DType::F8E4M3,
                    refused(name + " must have dtype U8 or F8E4M3, got "@ + m.dtype.text()),
                ),
            ],
        ),
{
    reveal_with_fuel(violated_upto, 2);
}

/// A tensor whose elements do not lie in memory order without gaps is refused with its name where
/// that is asked for.
pub proof fn refused_layouts(m: TensorModel, name: Seq<char>)
    ensures
        m.contiguous_error(name) == first_violated(
            seq![
                (!is_contiguous(m.dims(), m.strides()), refused(name + " must be contiguous"@)),
            ],
        ),
{
    reveal_with_fuel(violated_upto, 2);
}

/// A vector of another length is refused with its name and both lengths.
pub proof fn refused_lengths(m: TensorModel, len: usize, name: Seq<char>)
    ensures
        m.length_error(len, name) == first_violated(
            seq![
                (
                    m.axes[0].size != len,
                    refused(
                        name + " must have shape ["@ + decimal(len as nat) + "], got ["@
                            + decimal(m.axes[0].size as nat) + "]"@,
                    ),
                ),
            ],
        ),
{
    reveal_with_fuel(violated_upto, 2);
}

/// An optional vector is refused for its rank, its steps, its device and then its element type.
pub proof fn refused_vectors(m: TensorModel, dtype: DType, name: Seq<char>)
    ensures
        vector_error(Some(m), dtype, name) == first_violated(
            seq![
                as_check(m.rank_error(1, name)),
                as_check(m.last_dim_error(name)),
                as_check(m.device_error(name)),
                as_check(m.dtype_error(dtype, name)),
            ],
        ),
{
    reveal_with_fuel(violated_upto, 5);
}

/// A shape of another rank is refused with both ranks.
pub proof fn refused_shape_ranks(actual: nat, expected: nat)
    ensures
        shape_rank_error(actual, expected) == first_violated(
            seq![
                (
                    actual != expected,
                    refused(
                        "expected rank "@ + decimal(expected) + ", got rank "@ + decimal(actual),
                    ),
                ),
            ],
        ),
{
    reveal_with_fuel(violated_upto, 2);
}

/// Different shapes are refused with both.
pub proof fn refused_shapes(left: Seq<usize>, right: Seq<usize>)
    ensures
        shape_mismatch(left, right) == first_violated(
            seq![
                (
                    left != right,
                    refused(
                        "shape mismatch: left=["@ + comma_list(left) + "], right=["@
                            + comma_list(right) + "]"@,
                    ),
                ),
            ],
        ),
{
    reveal_with_fuel(violated_upto, 2);
}

/// An address is refused where the offset in bytes exceeds the range of sizes, and then where the
/// sum exceeds that of addresses, with the name of the tensor.
pub proof fn refused_addresses(base: u64, start_offset: usize, elem_bytes: nat, name: Seq<char>)
    ensures
        address_error(base, start_offset, elem_bytes, name) == first_violated(
            seq![
                (
                    start_offset * elem_bytes > usize::MAX,
                    refused(name + " start_offset overflow"@),
                ),
                (
                    base + start_offset * elem_bytes > u64::MAX,
                    refused(name + " pointer overflow"@),
                ),
            ],
        ),
{
    reveal_with_fuel(violated_upto, 3);
}

/// The checks of the required tensors of sparse decode, in their order.
pub open spec fn sparse_decode_kinds_checks(
    m: SparseDecodeModel,
) -> Seq<(bool, Option<ErrorModel>)> {
    seq![
        as_check(m.q.rank_error(4, "q"@)),
        as_check(m.kv_cache.rank_error(4, "kv_cache"@)),
        as_check(m.indices.rank_error(3, "indices"@)),
        as_check(m.q.last_dim_error("q"@)),
        as_check(m.kv_cache.last_dim_error("kv_cache"@)),
        as_check(m.indices.last_dim_error("indices"@)),
        as_check(m.kv_cache.device_error("kv_cache"@)),
        as_check(m.indices.device_error("indices"@)),
        as_check(m.q.dtype_error(DType::BF16, "q"@)),
        as_check(m.kv_cache.kv_dtype_error("kv_cache"@)),
        as_check(m.indices.dtype_error(DType::I32, "indices"@)),
    ]
}

/// The query, the cache and the indices of sparse decode are checked for their ranks, their last
/// axes, their devices and their element types, in that order.
pub proof fn refused_sparse_decode_kinds(m: SparseDecodeModel)
    ensures
        m.kinds_error() == first_violated(sparse_decode_kinds_checks(m)),
{
    let checks = sparse_decode_kinds_checks(m);
    assert(checks.len() == 11);
    if checks[0].0 {
        first_violations_are_reported(checks, 0);
    } else if checks[1].0 {
        first_violations_are_reported(checks, 1);
    } else if checks[2].0 {
        first_violations_are_reported(checks, 2);
    } else if checks[3].0 {
        first_violations_are_reported(checks, 3);
    } else if checks[4].0 {
        first_violations_are_reported(checks, 4);
    } else if checks[5].0 {
        first_violations_are_reported(checks, 5);
    } else if checks[6].0 {
        first_violations_are_reported(checks, 6);
    } else if checks[7].0 {
        first_violations_are_reported(checks, 7);
    } else if checks[8].0 {
        first_violations_are_reported(checks, 8);
    } else if checks[9].0 {
        first_violations_are_reported(checks, 9);
    } else if checks[10].0 {
        first_violations_are_reported(checks, 10);
    } else {
        first_violations_are_reported(checks, 11);
    }
}

/// Indices that are not given for each batch entry and query position are refused with both shapes.
pub proof fn refused_sparse_decode_indices(
    m: SparseDecodeModel,
    t: TensorModel,
    name: Seq<char>,
    axis: Seq<char>,
)
    ensures
        m.indices_error(t, name, axis) == first_violated(
            seq![
                (
                    t.axes[0].size != m.q.axes[0].size || t.axes[1].size != m.q.axes[1].size,
                    refused(
                        name + " must have shape ["@ + decimal(m.q.axes[0].size as nat) + ", "@
                            + decimal(m.q.axes[1].size as nat) + ", "@ + axis + "], got ["@
                            + decimal(t.axes[0].size as nat) + ", "@
                            + decimal(t.axes[1].size as nat) + ", "@
                            + decimal(t.axes[2].size as nat) + "]"@,
                    ),
                ),
            ],
        ),
{
    reveal_with_fuel(violated_upto, 2);
}

/// The tensors of sparse decode are checked one after the other: the required ones, the indices
/// against the query, the lengths, the sink, and then the extra tensors.
pub proof fn refused_sparse_decode_inputs(m: SparseDecodeModel)
    ensures
        m.inputs_error() == first_violated(
            seq![
                as_check(m.kinds_error()),
                as_check(m.indices_error(m.indices, "indices"@, "topk"@)),
                as_check(vector_error(m.topk_length, DType::I32, "topk_length"@)),
                as_check(vector_length_error(m.topk_length, m.q.axes[0].size, "topk_length"@)),
                as_check(vector_error(m.attn_sink, DType::F32, "attn_sink"@)),
                as_check(vector_length_error(m.attn_sink, m.q.axes[2].size, "attn_sink"@)),
                as_check(m.extra_error()),
            ],
        ),
{
    reveal_with_fuel(violated_upto, 8);
}

/// Extra tensors are refused where only one of the cache and its indices is given, and lengths
/// where neither is.
pub proof fn refused_sparse_decode_extra_tensors(m: SparseDecodeModel)
    ensures
        m.extra_error() == first_violated(
            seq![
                (
                    m.extra_kv_cache is Some && m.extra_indices is None,
                    refused("extra_kv_cache and extra_indices must be provided together"@),
                ),
                (
                    m.extra_kv_cache is None && m.extra_indices is Some,
                    refused("extra_kv_cache and extra_indices must be provided together"@),
                ),
                (
                    m.extra_kv_cache is None && m.extra_topk_length is Some,
                    refused("extra_topk_length requires extra_kv_cache and extra_indices"@),
                ),
                (
                    m.extra_kv_cache is Some,
                    m.extra_pair_error(m.extra_kv_cache->0, m.extra_indices->0),
                ),
            ],
        ),
{
    reveal_with_fuel(violated_upto, 5);
}

/// The checks of an extra cache and its indices, in their order.
pub open spec fn sparse_decode_extra_pairs_checks(
    m: SparseDecodeModel,
    kv: TensorModel,
    idx: TensorModel,
) -> Seq<(bool, Option<ErrorModel>)> {
    seq![
        as_check(kv.rank_error(4, "extra_kv_cache"@)),
        as_check(idx.rank_error(3, "extra_indices"@)),
        as_check(kv.last_dim_error("extra_kv_cache"@)),
        as_check(idx.last_dim_error("extra_indices"@)),
        as_check(kv.device_error("extra_kv_cache"@)),
        as_check(idx.device_error("extra_indices"@)),
        as_check(kv.kv_dtype_error("extra_kv_cache"@)),
        as_check(idx.dtype_error(DType::I32, "extra_indices"@)),
        as_check(m.extra_layout_error(kv)),
        as_check(m.indices_error(idx, "extra_indices"@, "extra_topk"@)),
        (m.q.axes[3].size == 576, refused("V32 sparse decode does not support extra KV cache"@)),
        as_check(vector_error(m.extra_topk_length, DType::I32, "extra_topk_length"@)),
        as_check(
            vector_length_error(m.extra_topk_length, m.q.axes[0].size, "extra_topk_length"@),
        ),
    ]
}

/// An extra cache and its indices are checked as the cache and the indices are, then against the
/// cache and the query, and then the extra lengths are.
pub proof fn refused_sparse_decode_extra_pairs(
    m: SparseDecodeModel,
    kv: TensorModel,
    idx: TensorModel,
)
    ensures
        m.extra_pair_error(kv, idx) == first_violated(sparse_decode_extra_pairs_checks(m, kv, idx)),
{
    let checks = sparse_decode_extra_pairs_checks(m, kv, idx);
    assert(checks.len() == 13);
    if checks[0].0 {
        first_violations_are_reported(checks, 0);
    } else if checks[1].0 {
        first_violations_are_reported(checks, 1);
    } else if checks[2].0 {
        first_violations_are_reported(checks, 2);
    } else if checks[3].0 {
        first_violations_are_reported(checks, 3);
    } else if checks[4].0 {
        first_violations_are_reported(checks, 4);
    } else if checks[5].0 {
        first_violations_are_reported(checks, 5);
    } else if checks[6].0 {
        first_violations_are_reported(checks, 6);
    } else if checks[7].0 {
        first_violations_are_reported(checks, 7);
    } else if checks[8].0 {
        first_violations_are_reported(checks, 8);
    } else if checks[9].0 {
        first_violations_are_reported(checks, 9);
    } else if checks[10].0 {
        first_violations_are_reported(checks, 10);
    } else if checks[11].0 {
        first_violations_are_reported(checks, 11);
    } else if checks[12].0 {
        first_violations_are_reported(checks, 12);
    } else {
        first_violations_are_reported(checks, 13);
    }
}

/// An extra cache that is not laid out like the cache is refused for its element type, its heads
/// and bytes, and then its rows.
pub proof fn refused_sparse_decode_extra_layouts(m: SparseDecodeModel, kv: TensorModel)
    ensures
        m.extra_layout_error(kv) == first_violated(
            seq![
                (
                    kv.dtype != m.kv_cache.dtype,
                    refused(
                        "extra_kv_cache dtype must match kv_cache dtype "@
                            + m.kv_cache.dtype.text() + ", got "@ + kv.dtype.text(),
                    ),
                ),
                (
                    kv.axes[2].size != m.kv_cache.axes[2].size
                        || kv.axes[3].size != m.kv_cache.axes[3].size,
                    refused(
                        "extra_kv_cache must match h_kv="@
                            + decimal(m.kv_cache.axes[2].size as nat) + " and bytes_per_token="@
                            + decimal(m.kv_cache.axes[3].size as nat) + ", got h_kv="@
                            + decimal(kv.axes[2].size as nat) + " bytes="@
                            + decimal(kv.axes[3].size as nat),
                    ),
                ),
                (
                    kv.axes[1].stride != m.kv_cache.axes[3].size,
                    refused(
                        "extra_kv_cache page rows must be contiguous with stride "@
                            + decimal(m.kv_cache.axes[3].size as nat) + ", got "@
                            + decimal(kv.axes[1].stride as nat),
                    ),
                ),
            ],
        ),
{
    reveal_with_fuel(violated_upto, 4);
}

/// A cache that does not have the packed layout of the query is refused for its bytes, its rows,
/// and then for lengths that the layout does not support.
pub proof fn refused_sparse_decode_caches(m: SparseDecodeModel, bytes: usize)
    ensures
        m.cache_error(bytes) == first_violated(
            seq![
                (
                    m.kv_cache.axes[3].size != bytes,
                    refused(
                        "kv_cache last dim must be "@ + decimal(bytes as nat)
                            + " bytes for d_qk="@ + decimal(m.q.axes[3].size as nat) + ", got "@
                            + decimal(m.kv_cache.axes[3].size as nat),
                    ),
                ),
                (
                    m.kv_cache.axes[1].stride != bytes,
                    refused(
                        "kv_cache page rows must be contiguous with stride "@
                            + decimal(bytes as nat) + ", got "@
                            + decimal(m.kv_cache.axes[1].stride as nat),
                    ),
                ),
                (
                    m.q.axes[3].size == 576 && m.topk_length is Some,
                    refused("V32 sparse decode does not support topk_length"@),
                ),
            ],
        ),
{
    reveal_with_fuel(violated_upto, 4);
}

/// A sparse decode call is refused for its tensors, its padded dimensions, and then the layout of
/// its cache, of 656 bytes per token under 576-wide keys and of 584 bytes otherwise.
pub proof fn refused_sparse_decode_calls(
    m: SparseDecodeModel,
    d_v: usize,
    pad_heads: bool,
    arch: Arch,
)
    ensures
        m.error(d_v, pad_heads, arch) == first_violated(
            seq![
                as_check(m.inputs_error()),
                (
                    m.padded_dims(d_v, pad_heads, arch).shape_error() is Some,
                    lifted(m.padded_dims(d_v, pad_heads, arch).shape_error()),
                ),
                (m.q.axes[3].size == 576, m.cache_error(656)),
                (m.q.axes[3].size != 576, m.cache_error(584)),
            ],
        ),
{
    reveal_with_fuel(violated_upto, 5);
}

/// Before the architecture is known, a head count that only the architecture can decide, between 64
/// and 128 with padding, hides all that comes after it.
pub proof fn refused_early_sparse_decode_calls(m: SparseDecodeModel, d_v: usize, pad_heads: bool)
    ensures
        m.early_error(d_v, pad_heads) == first_violated(
            seq![
                as_check(m.inputs_error()),
                (m.dims(d_v).sizes_error() is Some, lifted(m.dims(d_v).sizes_error())),
                (
                    !pad_heads || m.q.axes[2].size <= 64 || m.q.axes[2].size >= 128,
                    m.error(d_v, pad_heads, Arch::Sm100f),
                ),
            ],
        ),
{
    reveal_with_fuel(violated_upto, 4);
}

/// The checks of the required tensors of dense decode, in their order.
pub open spec fn dense_decode_kinds_checks(
    m: DenseDecodeModel,
) -> Seq<(bool, Option<ErrorModel>)> {
    seq![
        as_check(m.q.rank_error(4, "q"@)),
        as_check(m.k_cache.rank_error(4, "k_cache"@)),
        as_check(m.seqlens_k.rank_error(1, "seqlens_k"@)),
        as_check(m.q.last_dim_error("q"@)),
        as_check(m.k_cache.last_dim_error("k_cache"@)),
        as_check(m.seqlens_k.last_dim_error("seqlens_k"@)),
        as_check(m.k_cache.device_error("k_cache"@)),
        as_check(m.seqlens_k.device_error("seqlens_k"@)),
        as_check(m.q.dtype_error(DType::BF16, "q"@)),
        as_check(m.k_cache.dtype_error(DType::BF16, "k_cache"@)),
        as_check(m.seqlens_k.dtype_error(DType::I32, "seqlens_k"@)),
    ]
}

/// The query, the cache and the lengths of dense decode are checked for their ranks, their last
/// axes, their devices and their element types, in that order.
pub proof fn refused_dense_decode_kinds(m: DenseDecodeModel)
    ensures
        m.kinds_error() == first_violated(dense_decode_kinds_checks(m)),
{
    let checks = dense_decode_kinds_checks(m);
    assert(checks.len() == 11);
    if checks[0].0 {
        first_violations_are_reported(checks, 0);
    } else if checks[1].0 {
        first_violations_are_reported(checks, 1);
    } else if checks[2].0 {
        first_violations_are_reported(checks, 2);
    } else if checks[3].0 {
        first_violations_are_reported(checks, 3);
    } else if checks[4].0 {
        first_violations_are_reported(checks, 4);
    } else if checks[5].0 {
        first_violations_are_reported(checks, 5);
    } else if checks[6].0 {
        first_violations_are_reported(checks, 6);
    } else if checks[7].0 {
        first_violations_are_reported(checks, 7);
    } else if checks[8].0 {
        first_violations_are_reported(checks, 8);
    } else if checks[9].0 {
        first_violations_are_reported(checks, 9);
    } else if checks[10].0 {
        first_violations_are_reported(checks, 10);
    } else {
        first_violations_are_reported(checks, 11);
    }
}

/// A dense decode call is refused for its required tensors, for their sizes against each other, for
/// its block table, and then for its dimensions.
pub proof fn refused_dense_decode_calls(m: DenseDecodeModel, d_v: usize)
    ensures
        m.error(d_v) == first_violated(
            seq![
                as_check(m.kinds_error()),
                (
                    m.k_cache.axes[3].size != m.q.axes[3].size,
                    refused(
                        "k_cache d_qk ("@ + decimal(m.k_cache.axes[3].size as nat)
                            + ") must match q d_qk ("@ + decimal(m.q.axes[3].size as nat) + ")"@,
                    ),
                ),
                as_check(m.seqlens_k.length_error(m.q.axes[0].size, "seqlens_k"@)),
                as_check(m.block_table_error()),
                (m.dims(d_v).shape_error() is Some, lifted(m.dims(d_v).shape_error())),
            ],
        ),
{
    reveal_with_fuel(violated_upto, 6);
}

/// A block table is refused for its rank, its steps, its device, its element type, a wrong number
/// of rows, and then for having no columns.
pub proof fn refused_dense_decode_block_tables(m: DenseDecodeModel, table: TensorModel)
    requires
        m.block_table == Some(table),
    ensures
        m.block_table_error() == first_violated(
            seq![
                as_check(table.rank_error(2, "block_table"@)),
                as_check(table.last_dim_error("block_table"@)),
                as_check(table.device_error("block_table"@)),
                as_check(table.dtype_error(DType::I32, "block_table"@)),
                (
                    table.axes[0].size != m.q.axes[0].size,
                    refused(
                        "block_table batch must be "@ + decimal(m.q.axes[0].size as nat)
                            + ", got "@ + decimal(table.axes[0].size as nat),
                    ),
                ),
                (
                    table.axes[1].size == 0,
                    refused("block_table must have at least one block column"@),
                ),
            ],
        ),
{
    reveal_with_fuel(violated_upto, 7);
}

/// The checks of the tensors of sparse prefill, in their order.
pub open spec fn sparse_prefill_kinds_checks(
    m: SparsePrefillModel,
) -> Seq<(bool, Option<ErrorModel>)> {
    seq![
        as_check(m.q.rank_error(3, "q"@)),
        as_check(m.kv.rank_error(3, "kv"@)),
        as_check(m.indices.rank_error(3, "indices"@)),
        as_check(m.q.last_dim_error("q"@)),
        as_check(m.kv.last_dim_error("kv"@)),
        as_check(m.indices.last_dim_error("indices"@)),
        as_check(m.kv.device_error("kv"@)),
        as_check(m.indices.device_error("indices"@)),
        as_check(m.q.dtype_error(DType::BF16, "q"@)),
        as_check(m.kv.dtype_error(DType::BF16, "kv"@)),
        as_check(m.indices.dtype_error(DType::I32, "indices"@)),
        as_check(vector_error(m.topk_length, DType::I32, "topk_length"@)),
        as_check(vector_error(m.attn_sink, DType::F32, "attn_sink"@)),
    ]
}

/// The tensors of sparse prefill are checked for their ranks, their last axes, their devices and
/// their element types, in that order, and then the optional ones are.
pub proof fn refused_sparse_prefill_kinds(m: SparsePrefillModel)
    ensures
        m.kinds_error() == first_violated(sparse_prefill_kinds_checks(m)),
{
    let checks = sparse_prefill_kinds_checks(m);
    assert(checks.len() == 13);
    if checks[0].0 {
        first_violations_are_reported(checks, 0);
    } else if checks[1].0 {
        first_violations_are_reported(checks, 1);
    } else if checks[2].0 {
        first_violations_are_reported(checks, 2);
    } else if checks[3].0 {
        first_violations_are_reported(checks, 3);
    } else if checks[4].0 {
        first_violations_are_reported(checks, 4);
    } else if checks[5].0 {
        first_violations_are_reported(checks, 5);
    } else if checks[6].0 {
        first_violations_are_reported(checks, 6);
    } else if checks[7].0 {
        first_violations_are_reported(checks, 7);
    } else if checks[8].0 {
        first_violations_are_reported(checks, 8);
    } else if checks[9].0 {
        first_violations_are_reported(checks, 9);
    } else if checks[10].0 {
        first_violations_are_reported(checks, 10);
    } else if checks[11].0 {
        first_violations_are_reported(checks, 11);
    } else if checks[12].0 {
        first_violations_are_reported(checks, 12);
    } else {
        first_violations_are_reported(checks, 13);
    }
}

/// A sparse prefill call is refused for its tensors, for their sizes against each other, and then
/// for the lengths of its vectors.
pub proof fn refused_sparse_prefill_calls(m: SparsePrefillModel)
    ensures
        m.error() == first_violated(
            seq![
                as_check(m.kinds_error()),
                (
                    m.kv.axes[2].size != m.q.axes[2].size,
                    refused(
                        "kv d_qk ("@ + decimal(m.kv.axes[2].size as nat)
                            + ") must match q d_qk ("@ + decimal(m.q.axes[2].size as nat) + ")"@,
                    ),
                ),
                (
                    m.indices.axes[0].size != m.q.axes[0].size
                        || m.indices.axes[1].size != m.kv.axes[1].size,
                    refused(
                        "indices shape must start with ["@ + decimal(m.q.axes[0].size as nat)
                            + ", "@ + decimal(m.kv.axes[1].size as nat) + "], got ["@
                            + decimal(m.indices.axes[0].size as nat) + ", "@
                            + decimal(m.indices.axes[1].size as nat) + "]"@,
                    ),
                ),
                as_check(vector_length_error(m.topk_length, m.q.axes[0].size, "topk_length"@)),
                as_check(vector_length_error(m.attn_sink, m.q.axes[1].size, "attn_sink"@)),
            ],
        ),
{
    reveal_with_fuel(violated_upto, 6);
}

/// The checks of the workspaces of a plan, in their order.
pub open spec fn workspace_kinds_checks(w: WorkspaceModel) -> Seq<(bool, Option<ErrorModel>)> {
    seq![
        as_check(w.scheduler_metadata.rank_error(2, "scheduler_metadata"@)),
        as_check(w.num_splits.rank_error(1, "num_splits"@)),
        as_check(w.lse_accum.rank_error(3, "lse_accum"@)),
        as_check(w.o_accum.rank_error(4, "o_accum"@)),
        as_check(w.scheduler_metadata.device_error("scheduler_metadata"@)),
        as_check(w.num_splits.device_error("num_splits"@)),
        as_check(w.lse_accum.device_error("lse_accum"@)),
        as_check(w.o_accum.device_error("o_accum"@)),
        as_check(w.scheduler_metadata.dtype_error(DType::I32, "scheduler_metadata"@)),
        as_check(w.num_splits.dtype_error(DType::I32, "num_splits"@)),
        as_check(w.lse_accum.dtype_error(DType::F32, "lse_accum"@)),
        as_check(w.o_accum.dtype_error(DType::F32, "o_accum"@)),
    ]
}

/// The workspaces of a plan are checked for their ranks, their devices and their element types, in
/// that order.
pub proof fn refused_workspace_kinds(w: WorkspaceModel)
    ensures
        w.kinds_error() == first_violated(workspace_kinds_checks(w)),
{
    let checks = workspace_kinds_checks(w);
    assert(checks.len() == 12);
    if checks[0].0 {
        first_violations_are_reported(checks, 0);
    } else if checks[1].0 {
        first_violations_are_reported(checks, 1);
    } else if checks[2].0 {
        first_violations_are_reported(checks, 2);
    } else if checks[3].0 {
        first_violations_are_reported(checks, 3);
    } else if checks[4].0 {
        first_violations_are_reported(checks, 4);
    } else if checks[5].0 {
        first_violations_are_reported(checks, 5);
    } else if checks[6].0 {
        first_violations_are_reported(checks, 6);
    } else if checks[7].0 {
        first_violations_are_reported(checks, 7);
    } else if checks[8].0 {
        first_violations_are_reported(checks, 8);
    } else if checks[9].0 {
        first_violations_are_reported(checks, 9);
    } else if checks[10].0 {
        first_violations_are_reported(checks, 10);
    } else if checks[11].0 {
        first_violations_are_reported(checks, 11);
    } else {
        first_violations_are_reported(checks, 12);
    }
}

/// Scheduler metadata of another shape is refused with both shapes.
pub proof fn refused_scheduler_shapes(w: WorkspaceModel, parts: usize, len: usize)
    ensures
        w.scheduler_error(parts, len) == first_violated(
            seq![
                (
                    w.scheduler_metadata.axes[0].size != parts
                        || w.scheduler_metadata.axes[1].size != len / parts,
                    refused(
                        "scheduler_metadata shape must be ["@ + decimal(parts as nat) + ", "@
                            + decimal((len / parts) as nat) + "], got ("@
                            + decimal(w.scheduler_metadata.axes[0].size as nat) + ", "@
                            + decimal(w.scheduler_metadata.axes[1].size as nat) + ")"@,
                    ),
                ),
            ],
        ),
{
    reveal_with_fuel(violated_upto, 2);
}

/// Split offsets of another length are refused with both lengths.
pub proof fn refused_split_offsets(w: WorkspaceModel, len: usize)
    ensures
        w.splits_error(len) == first_violated(
            seq![
                (
                    w.num_splits.axes[0].size != len,
                    refused(
                        "num_splits length must be "@ + decimal(len as nat) + ", got "@
                            + decimal(w.num_splits.axes[0].size as nat),
                    ),
                ),
            ],
        ),
{
    reveal_with_fuel(violated_upto, 2);
}

/// The workspaces of a sparse decode plan are checked for what they are, and then for their last
/// axes.
pub proof fn refused_sparse_decode_plan_layouts(w: WorkspaceModel)
    ensures
        sparse_decode_plan::plan_layout_error(w) == first_violated(
            seq![
                as_check(w.kinds_error()),
                as_check(w.scheduler_metadata.last_dim_error("scheduler_metadata"@)),
                as_check(w.num_splits.last_dim_error("num_splits"@)),
                as_check(w.lse_accum.last_dim_error("lse_accum"@)),
                as_check(w.o_accum.last_dim_error("o_accum"@)),
            ],
        ),
{
    reveal_with_fuel(violated_upto, 6);
}

/// The workspaces of a sparse decode plan are checked for their kinds, the scheduler metadata, the
/// split offsets, the sizes of the plan, and then the accumulation workspaces.
pub proof fn refused_sparse_decode_plans(
    w: WorkspaceModel,
    meta: SparseDecodePlanMeta,
    dims: SparseDecodeDims,
)
    ensures
        sparse_decode_plan::plan_error(w, meta, dims) == first_violated(
            seq![
                as_check(sparse_decode_plan::plan_layout_error(w)),
                as_check(w.scheduler_error(meta.num_sm_parts, meta.scheduler_metadata_i32_len)),
                as_check(w.splits_error(meta.num_splits_len)),
                as_check(sparse_decode_plan::workspace_error(meta, dims)),
                (
                    meta.num_sm_parts == 1 && w.lse_accum.dims() != seq![1usize, 1, 1],
                    refused("lse_accum shape does not match sparse decode plan metadata"@),
                ),
                (
                    meta.num_sm_parts != 1 && w.lse_accum.dims() != seq![
                        (dims.batch + meta.num_sm_parts) as usize,
                        dims.s_q,
                        dims.h_q,
                    ],
                    refused("lse_accum shape does not match sparse decode plan metadata"@),
                ),
                (
                    meta.num_sm_parts == 1 && w.o_accum.dims() != seq![1usize, 1, 1, 1],
                    refused("o_accum shape does not match sparse decode plan metadata"@),
                ),
                (
                    meta.num_sm_parts != 1 && w.o_accum.dims() != seq![
                        (dims.batch + meta.num_sm_parts) as usize,
                        dims.s_q,
                        dims.h_q,
                        dims.d_v,
                    ],
                    refused("o_accum shape does not match sparse decode plan metadata"@),
                ),
            ],
        ),
{
    reveal_with_fuel(violated_upto, 9);
}

/// The workspaces of a dense decode plan are checked for what they are, and then for their layouts.
pub proof fn refused_dense_decode_plan_layouts(w: WorkspaceModel)
    ensures
        dense_decode_plan::plan_layout_error(w) == first_violated(
            seq![
                as_check(w.kinds_error()),
                as_check(w.scheduler_metadata.contiguous_error("scheduler_metadata"@)),
                as_check(w.num_splits.contiguous_error("num_splits"@)),
                as_check(w.lse_accum.contiguous_error("lse_accum"@)),
                as_check(w.o_accum.contiguous_error("o_accum"@)),
            ],
        ),
{
    reveal_with_fuel(violated_upto, 6);
}

/// The workspaces of a dense decode plan are checked for their kinds, the scheduler metadata, the
/// split offsets, the sizes of the plan, and then the accumulation workspaces.
pub proof fn refused_dense_decode_plans(
    w: WorkspaceModel,
    meta: DenseDecodePlanMeta,
    dims: DenseDecodeDims,
)
    ensures
        dense_decode_plan::plan_error(w, meta, dims) == first_violated(
            seq![
                as_check(dense_decode_plan::plan_layout_error(w)),
                as_check(w.scheduler_error(meta.num_sm_parts, meta.scheduler_metadata_i32_len)),
                as_check(w.splits_error(meta.num_splits_len)),
                (meta.splits_error(dims) is Some, lifted(meta.splits_error(dims))),
                (dims.packing_error() is Some, lifted(dims.packing_error())),
                (
                    w.lse_accum.dims() != seq![
                        (dims.batch + meta.num_sm_parts) as usize,
                        dims.h_k,
                        (dims.s_q * (dims.h_q as int / dims.h_k as int)) as usize,
                    ],
                    refused("lse_accum shape does not match dense decode plan metadata"@),
                ),
                (
                    w.o_accum.dims() != seq![
                        (dims.batch + meta.num_sm_parts) as usize,
                        dims.h_k,
                        (dims.s_q * (dims.h_q as int / dims.h_k as int)) as usize,
                        dims.d_v,
                    ],
                    refused("o_accum shape does not match dense decode plan metadata"@),
                ),
            ],
        ),
{
    reveal_with_fuel(violated_upto, 8);
}

/// Sparse decode metadata is refused where it is not the expected one, where the scheduler metadata
/// does not split evenly, and then for its accumulators.
pub proof fn refused_sparse_decode_metadata(
    meta: SparseDecodePlanMeta,
    expected: SparseDecodePlanMeta,
    dims: SparseDecodeDims,
)
    ensures
        sparse_decode_plan::meta_error(meta, expected, dims) == first_violated(
            seq![
                (
                    meta != expected,
                    refused(
                        "sparse decode FFI planning disagrees with architecture-specific workspace sizing"@,
                    ),
                ),
                (
                    meta.num_sm_parts == 0
                        || meta.scheduler_metadata_i32_len % meta.num_sm_parts != 0,
                    refused("invalid sparse decode scheduler metadata shape"@),
                ),
                as_check(sparse_decode_plan::workspace_error(meta, dims)),
            ],
        ),
{
    reveal_with_fuel(violated_upto, 4);
}

/// The accumulators of a plan without splits have to be scalars. Those of a plan with splits are
/// refused where their counts cannot be computed, and then where the plan counts otherwise.
pub proof fn refused_sparse_decode_accumulators(meta: SparseDecodePlanMeta, dims: SparseDecodeDims)
    ensures
        sparse_decode_plan::workspace_error(meta, dims) == first_violated(
            seq![
                (
                    meta.num_sm_parts == 1 && (meta.lse_accum_elem_count != 1
                        || meta.o_accum_elem_count != 1),
                    refused("no-split sparse decode plan must use scalar accumulators"@),
                ),
                (
                    meta.num_sm_parts != 1 && dims.batch + meta.num_sm_parts > usize::MAX,
                    lifted(invalid("total_num_splits overflow"@)),
                ),
                (
                    meta.num_sm_parts != 1 && ((dims.batch
                        + meta.num_sm_parts) * dims.s_q > usize::MAX || (dims.batch
                        + meta.num_sm_parts) * dims.s_q * dims.h_q > usize::MAX),
                    refused("sparse decode LSE workspace overflow"@),
                ),
                (
                    meta.num_sm_parts != 1 && (dims.batch
                        + meta.num_sm_parts) * dims.s_q * dims.h_q * dims.d_v > usize::MAX,
                    refused("sparse decode output workspace overflow"@),
                ),
                (
                    meta.num_sm_parts != 1 && (meta.lse_accum_elem_count != (dims.batch
                        + meta.num_sm_parts) * dims.s_q * dims.h_q
                        || meta.o_accum_elem_count != (dims.batch
                        + meta.num_sm_parts) * dims.s_q * dims.h_q * dims.d_v),
                    refused("sparse decode accumulator sizing metadata is inconsistent"@),
                ),
            ],
        ),
{
    reveal_with_fuel(violated_upto, 6);
}

/// Dense decode metadata is refused where the scheduler metadata does not split evenly, where the
/// heads cannot be packed or are packed otherwise, and then for its splits.
pub proof fn refused_dense_decode_metadata(meta: DenseDecodePlanMeta, dims: DenseDecodeDims)
    ensures
        dense_decode_plan::meta_error(meta, dims) == first_violated(
            seq![
                (
                    meta.num_sm_parts == 0
                        || meta.scheduler_metadata_i32_len % meta.num_sm_parts != 0,
                    refused("invalid dense decode scheduler metadata shape"@),
                ),
                (dims.packing_error() is Some, lifted(dims.packing_error())),
                (
                    meta.q_seq_per_hk != dims.s_q * (dims.h_q as int / dims.h_k as int),
                    refused("dense decode plan q_seq_per_hk does not match tensor dimensions"@),
                ),
                (
                    dims.batch + meta.num_sm_parts > usize::MAX,
                    lifted(invalid("total_num_splits overflow"@)),
                ),
            ],
        ),
{
    reveal_with_fuel(violated_upto, 5);
}

/// The checks of the pointers of a sparse decode launch, in their order.
pub open spec fn sparse_decode_pointers_checks(
    l: SparseDecodeLaunchModel,
    t: SparseDecodeTensors,
    plan: SparseDecodePlan,
    b: SparseDecodeBases,
) -> Seq<(bool, Option<ErrorModel>)> {
    seq![
        as_check(pointer_error(Some(&l.launched_q(t)), b.q, 2, "q"@)),
        as_check(cache_pointer_error(Some(t.kv_cache), b.kv_cache, "kv_cache"@)),
        as_check(pointer_error(Some(t.indices), b.indices, 4, "indices"@)),
        as_check(pointer_error(t.topk_length, b.topk_length, 4, "topk_length"@)),
        as_check(pointer_error(l.launched_sink(t), b.attn_sink, 4, "attn_sink"@)),
        as_check(pointer_error(Some(&l.out), b.out, 2, "out"@)),
        as_check(pointer_error(Some(&l.lse), b.lse, 4, "lse"@)),
        as_check(cache_pointer_error(t.extra_kv_cache, b.extra_kv_cache, "extra_kv_cache"@)),
        as_check(pointer_error(t.extra_indices, b.extra_indices, 4, "extra_indices"@)),
        as_check(
            pointer_error(t.extra_topk_length, b.extra_topk_length, 4, "extra_topk_length"@),
        ),
        as_check(pointer_error(Some(&plan.lse_accum), b.lse_accum, 4, "lse_accum"@)),
        as_check(pointer_error(Some(&plan.o_accum), b.o_accum, 4, "o_accum"@)),
        as_check(
            pointer_error(
                Some(&plan.scheduler_metadata),
                b.scheduler_metadata,
                4,
                "scheduler_metadata"@,
            ),
        ),
        as_check(pointer_error(Some(&plan.num_splits), b.num_splits, 4, "num_splits"@)),
    ]
}

/// The first tensor of a sparse decode launch without an address is named.
pub proof fn refused_sparse_decode_pointers(
    l: SparseDecodeLaunchModel,
    t: SparseDecodeTensors,
    plan: SparseDecodePlan,
    b: SparseDecodeBases,
)
    ensures
        l.pointers_error(t, plan, b) == first_violated(sparse_decode_pointers_checks(l, t, plan, b)),
{
    let checks = sparse_decode_pointers_checks(l, t, plan, b);
    assert(checks.len() == 14);
    if checks[0].0 {
        first_violations_are_reported(checks, 0);
    } else if checks[1].0 {
        first_violations_are_reported(checks, 1);
    } else if checks[2].0 {
        first_violations_are_reported(checks, 2);
    } else if checks[3].0 {
        first_violations_are_reported(checks, 3);
    } else if checks[4].0 {
        first_violations_are_reported(checks, 4);
    } else if checks[5].0 {
        first_violations_are_reported(checks, 5);
    } else if checks[6].0 {
        first_violations_are_reported(checks, 6);
    } else if checks[7].0 {
        first_violations_are_reported(checks, 7);
    } else if checks[8].0 {
        first_violations_are_reported(checks, 8);
    } else if checks[9].0 {
        first_violations_are_reported(checks, 9);
    } else if checks[10].0 {
        first_violations_are_reported(checks, 10);
    } else if checks[11].0 {
        first_violations_are_reported(checks, 11);
    } else if checks[12].0 {
        first_violations_are_reported(checks, 12);
    } else if checks[13].0 {
        first_violations_are_reported(checks, 13);
    } else {
        first_violations_are_reported(checks, 14);
    }
}

/// The first tensor of a dense decode launch without an address is named.
pub proof fn refused_dense_decode_pointers(
    l: DenseDecodeLaunchModel,
    t: DenseDecodeTensors,
    table: Tensor,
    plan: DenseDecodePlan,
    b: DenseDecodeBases,
)
    ensures
        l.pointers_error(t, table, plan, b) == first_violated(
            seq![
                as_check(pointer_error(Some(&l.q_packed), b.q_packed, 2, "q_packed"@)),
                as_check(pointer_error(Some(t.k_cache), b.k_cache, 2, "k_cache"@)),
                as_check(pointer_error(Some(t.seqlens_k), b.seqlens_k, 4, "seqlens_k"@)),
                as_check(pointer_error(Some(&table), b.block_table, 4, "block_table"@)),
                as_check(pointer_error(Some(&l.out), b.out, 2, "out_internal"@)),
                as_check(pointer_error(Some(&l.lse), b.lse, 4, "lse_internal"@)),
                as_check(pointer_error(Some(&plan.lse_accum), b.lse_accum, 4, "lse_accum"@)),
                as_check(pointer_error(Some(&plan.o_accum), b.o_accum, 4, "o_accum"@)),
                as_check(
                    pointer_error(
                        Some(&plan.scheduler_metadata),
                        b.scheduler_metadata,
                        4,
                        "scheduler_metadata"@,
                    ),
                ),
                as_check(pointer_error(Some(&plan.num_splits), b.num_splits, 4, "num_splits"@)),
            ],
        ),
{
    reveal_with_fuel(violated_upto, 11);
}

/// The first tensor of a sparse prefill launch without an address is named.
pub proof fn refused_sparse_prefill_pointers(
    l: SparsePrefillLaunchModel,
    t: SparsePrefillTensors,
    b: SparsePrefillBases,
)
    ensures
        l.pointers_error(t, b) == first_violated(
            seq![
                as_check(pointer_error(Some(&l.launched_q(t)), b.q, 2, "q"@)),
                as_check(pointer_error(Some(t.kv), b.kv, 2, "kv"@)),
                as_check(pointer_error(Some(t.indices), b.indices, 4, "indices"@)),
                as_check(pointer_error(l.launched_sink(t), b.attn_sink, 4, "attn_sink"@)),
                as_check(pointer_error(t.topk_length, b.topk_length, 4, "topk_length"@)),
                as_check(pointer_error(Some(&l.output.out), b.out, 2, "out"@)),
                as_check(
                    pointer_error(Some(&l.output.max_logits), b.max_logits, 4, "max_logits"@),
                ),
                as_check(pointer_error(Some(&l.output.lse), b.lse, 4, "lse"@)),
            ],
        ),
{
    reveal_with_fuel(violated_upto, 9);
}

/// The first tensor of a sparse decode planning call without an address is named.
pub proof fn refused_sparse_decode_requests(
    t: SparseDecodeTensors,
    plan: SparseDecodePlan,
    b: SparseDecodePlanBases,
)
    ensures
        t.metadata_error(plan, b) == first_violated(
            seq![
                as_check(pointer_error(t.topk_length, b.topk_length, 4, "topk_length"@)),
                as_check(
                    pointer_error(
                        t.extra_topk_length,
                        b.extra_topk_length,
                        4,
                        "extra_topk_length"@,
                    ),
                ),
                as_check(
                    pointer_error(
                        Some(&plan.scheduler_metadata),
                        b.scheduler_metadata,
                        4,
                        "scheduler_metadata"@,
                    ),
                ),
                as_check(pointer_error(Some(&plan.num_splits), b.num_splits, 4, "num_splits"@)),
            ],
        ),
{
    reveal_with_fuel(violated_upto, 5);
}

/// The first top-k lengths of a sparse decode planning call without an address are named.
pub proof fn refused_sparse_decode_length_pointers(
    t: SparseDecodeTensors,
    b: SparseDecodePlanBases,
)
    ensures
        t.lengths_error(b) == first_violated(
            seq![
                as_check(pointer_error(t.topk_length, b.topk_length, 4, "topk_length"@)),
                as_check(
                    pointer_error(
                        t.extra_topk_length,
                        b.extra_topk_length,
                        4,
                        "extra_topk_length"@,
                    ),
                ),
            ],
        ),
{
    reveal_with_fuel(violated_upto, 3);
}

/// The first tensor of a dense decode planning call without an address is named.
pub proof fn refused_dense_decode_requests(
    t: DenseDecodeTensors,
    plan: DenseDecodePlan,
    b: DenseDecodePlanBases,
)
    ensures
        t.metadata_error(plan, b) == first_violated(
            seq![
                as_check(pointer_error(Some(t.seqlens_k), b.seqlens_k, 4, "seqlens_k"@)),
                as_check(
                    pointer_error(
                        Some(&plan.scheduler_metadata),
                        b.scheduler_metadata,
                        4,
                        "scheduler_metadata"@,
                    ),
                ),
                as_check(pointer_error(Some(&plan.num_splits), b.num_splits, 4, "num_splits"@)),
            ],
        ),
{
    reveal_with_fuel(violated_upto, 4);
}

} // verus!
