//! What refused calls report: the first of their constraints that they violate.

use crate::arch::capability_error;
use crate::arch::Arch;
use crate::convert::i32_error;
use crate::convert::negative_error;
use crate::convert::stride_error;
use crate::dense_decode;
use crate::dense_decode::DenseDecodeDims;
use crate::dense_decode::DenseDecodeLaunchParams;
use crate::dense_decode::DenseDecodePlanParams;
use crate::dense_decode::DenseDecodeStrides;
use crate::device::reply_error;
use crate::device::DeviceReply;
use crate::error::as_check;
use crate::error::call_error;
use crate::error::first_violated;
use crate::error::first_violations_are_reported;
use crate::error::invalid;
use crate::error::violated_upto;
use crate::error::ErrorModel;
use crate::sparse_decode;
use crate::sparse_decode::SparseDecodeDims;
use crate::sparse_decode::SparseDecodeLaunchParams;
use crate::sparse_decode::SparseDecodePlanParams;
use crate::sparse_decode::SparseDecodeStrides;
use crate::sparse_prefill::SparsePrefillDims;
use crate::sparse_prefill::SparsePrefillLaunchParams;
use crate::sparse_prefill::SparsePrefillStrides;
use crate::sys::flashmla_dense_decode_plan_result_t;
use crate::sys::flashmla_sparse_decode_plan_result_t;
use crate::text::decimal;
use crate::text::signed_decimal;
use vstd::prelude::*;

verus! {

/// A refused sparse decode shape is refused for the first of its constraints that it violates:
/// counts, pages, head dimensions, head counts, top-k, and then the extra cache.
pub proof fn refused_sparse_decode_shapes(d: SparseDecodeDims)
    ensures
        d.shape_error() == first_violated(
            seq![
                (
                    d.batch == 0 || d.s_q == 0 || d.topk == 0,
                    invalid("batch, s_q, and topk must be non-zero"@),
                ),
                (
                    d.num_blocks == 0 || d.page_block_size == 0,
                    invalid("num_blocks and page_block_size must be non-zero"@),
                ),
                (
                    d.d_qk != 512 && d.d_qk != 576,
                    invalid("d_qk must be 512 or 576, got "@ + decimal(d.d_qk as nat)),
                ),
                (d.d_v != 512, invalid("d_v must be 512, got "@ + decimal(d.d_v as nat))),
                (
                    d.h_q != 64 && d.h_q != 128,
                    invalid("h_q must be padded to 64 or 128, got "@ + decimal(d.h_q as nat)),
                ),
                (
                    d.h_kv != 1,
                    invalid("h_kv must be 1 for sparse MLA, got "@ + decimal(d.h_kv as nat)),
                ),
                (
                    d.topk % 64 != 0,
                    invalid(
                        "SM90 sparse decode requires topk to be a multiple of 64, got "@
                            + decimal(d.topk as nat),
                    ),
                ),
                (
                    (d.extra_num_blocks + d.extra_page_block_size + d.extra_topk > 0)
                        && (d.extra_num_blocks == 0 || d.extra_page_block_size == 0
                        || d.extra_topk == 0),
                    invalid(
                        "extra KV cache requires non-zero extra_num_blocks, extra_page_block_size, and extra_topk"@,
                    ),
                ),
                (
                    d.extra_topk > 0 && d.d_qk == 576,
                    invalid("V32 sparse decode does not support extra KV cache"@),
                ),
            ],
        ),
{
    reveal_with_fuel(violated_upto, 10);
}

/// Only 512-wide values under 512- or 576-wide keys have a packed cache layout.
pub proof fn refused_sparse_decode_layouts(d: SparseDecodeDims)
    ensures
        d.layout_error() == first_violated(
            seq![
                (
                    d.d_v != 512 || (d.d_qk != 512 && d.d_qk != 576),
                    invalid(
                        "unsupported sparse decode KV layout for d_qk="@ + decimal(d.d_qk as nat)
                            + " d_v="@ + decimal(d.d_v as nat),
                    ),
                ),
            ],
        ),
{
    reveal_with_fuel(violated_upto, 2);
}

/// A refused sparse decode planning call is refused for its shape first, and then for the first of
/// its other constraints that it violates.
pub proof fn refused_sparse_decode_plans(p: SparseDecodePlanParams)
    ensures
        p.error() == first_violated(
            seq![
                as_check(p.dims.shape_error()),
                (p.num_sm == 0, invalid("num_sm must be non-zero"@)),
                (
                    p.dims.d_qk == 576 && p.topk_length.addr != 0,
                    invalid("V32 sparse decode does not support topk_length"@),
                ),
                (
                    p.dims.extra_num_blocks == 0 && p.dims.extra_page_block_size == 0
                        && p.dims.extra_topk == 0 && p.extra_topk_length.addr != 0,
                    invalid("extra_topk_length requires an extra KV cache"@),
                ),
                (
                    p.tile_scheduler_metadata.addr == 0 && p.num_splits.addr != 0,
                    invalid(
                        "tile_scheduler_metadata and num_splits must both be null or both be non-null"@,
                    ),
                ),
                (
                    p.tile_scheduler_metadata.addr != 0 && p.num_splits.addr == 0,
                    invalid(
                        "tile_scheduler_metadata and num_splits must both be null or both be non-null"@,
                    ),
                ),
            ],
        ),
{
    reveal_with_fuel(violated_upto, 7);
}

/// A size of a sparse decode planning call that the C ABI cannot hold is named.
pub proof fn refused_sparse_decode_plan_sizes(p: SparseDecodePlanParams)
    ensures
        p.size_error() == first_violated(
            seq![
                (p.dims.batch > 0x7fff_ffff, i32_error(p.dims.batch, "batch"@)),
                (p.dims.s_q > 0x7fff_ffff, i32_error(p.dims.s_q, "s_q"@)),
                (p.dims.topk > 0x7fff_ffff, i32_error(p.dims.topk, "topk"@)),
                (p.dims.extra_topk > 0x7fff_ffff, i32_error(p.dims.extra_topk, "extra_topk"@)),
                (p.num_sm > 0x7fff_ffff, i32_error(p.num_sm, "num_sm"@)),
            ],
        ),
{
    reveal_with_fuel(violated_upto, 6);
}

/// The checks of the strides of a sparse decode launch, in their order.
pub open spec fn sparse_decode_strides_checks(
    s: SparseDecodeStrides,
    extra: bool,
) -> Seq<(bool, Option<ErrorModel>)> {
    seq![
        (s.q_b == 0 || s.q_b > 0x7fff_ffff, stride_error(s.q_b, "q_b"@)),
        (s.q_s_q == 0 || s.q_s_q > 0x7fff_ffff, stride_error(s.q_s_q, "q_s_q"@)),
        (s.q_h_q == 0 || s.q_h_q > 0x7fff_ffff, stride_error(s.q_h_q, "q_h_q"@)),
        (s.kv_block == 0 || s.kv_block > 0x7fff_ffff, stride_error(s.kv_block, "kv_block"@)),
        (s.kv_row == 0 || s.kv_row > 0x7fff_ffff, stride_error(s.kv_row, "kv_row"@)),
        (s.indices_b == 0 || s.indices_b > 0x7fff_ffff, stride_error(s.indices_b, "indices_b"@)),
        (
            s.indices_s_q == 0 || s.indices_s_q > 0x7fff_ffff,
            stride_error(s.indices_s_q, "indices_s_q"@),
        ),
        (s.lse_b == 0 || s.lse_b > 0x7fff_ffff, stride_error(s.lse_b, "lse_b"@)),
        (s.lse_s_q == 0 || s.lse_s_q > 0x7fff_ffff, stride_error(s.lse_s_q, "lse_s_q"@)),
        (s.out_b == 0 || s.out_b > 0x7fff_ffff, stride_error(s.out_b, "out_b"@)),
        (s.out_s_q == 0 || s.out_s_q > 0x7fff_ffff, stride_error(s.out_s_q, "out_s_q"@)),
        (s.out_h_q == 0 || s.out_h_q > 0x7fff_ffff, stride_error(s.out_h_q, "out_h_q"@)),
        (
            s.lse_accum_split == 0 || s.lse_accum_split > 0x7fff_ffff,
            stride_error(s.lse_accum_split, "lse_accum_split"@),
        ),
        (
            s.lse_accum_s_q == 0 || s.lse_accum_s_q > 0x7fff_ffff,
            stride_error(s.lse_accum_s_q, "lse_accum_s_q"@),
        ),
        (
            s.o_accum_split == 0 || s.o_accum_split > 0x7fff_ffff,
            stride_error(s.o_accum_split, "o_accum_split"@),
        ),
        (
            s.o_accum_s_q == 0 || s.o_accum_s_q > 0x7fff_ffff,
            stride_error(s.o_accum_s_q, "o_accum_s_q"@),
        ),
        (
            s.o_accum_h_q == 0 || s.o_accum_h_q > 0x7fff_ffff,
            stride_error(s.o_accum_h_q, "o_accum_h_q"@),
        ),
        (
            extra && (s.extra_kv_block == 0 || s.extra_kv_block > 0x7fff_ffff),
            stride_error(s.extra_kv_block, "extra_kv_block"@),
        ),
        (
            extra && (s.extra_kv_row == 0 || s.extra_kv_row > 0x7fff_ffff),
            stride_error(s.extra_kv_row, "extra_kv_row"@),
        ),
        (
            extra && (s.extra_indices_b == 0 || s.extra_indices_b > 0x7fff_ffff),
            stride_error(s.extra_indices_b, "extra_indices_b"@),
        ),
        (
            extra && (s.extra_indices_s_q == 0 || s.extra_indices_s_q > 0x7fff_ffff),
            stride_error(s.extra_indices_s_q, "extra_indices_s_q"@),
        ),
    ]
}

/// A stride of a sparse decode launch that is zero or too large is named. The strides of an extra
/// cache come last, and count only where there is one.
pub proof fn refused_sparse_decode_strides(s: SparseDecodeStrides, extra: bool)
    ensures
        s.error(extra) == first_violated(sparse_decode_strides_checks(s, extra)),
{
    let checks = sparse_decode_strides_checks(s, extra);
    assert(checks.len() == 21);
    if checks[0].0 {
        first_violations_are_reported(checks, 0);
    } else if checks[1].0 {
        first_violations_are_reported(checks, 1);
    } else if checks[2].0 {
        first_violations_are_reported(checks, 2);
    } else if checks[3].0 {
        first_violations_are_reported(checks, 3);
    } else if checks[4].0 {
        first_violations_are_reported(checks, 4);
    } else if checks[5].0 {
        first_violations_are_reported(checks, 5);
    } else if checks[6].0 {
        first_violations_are_reported(checks, 6);
    } else if checks[7].0 {
        first_violations_are_reported(checks, 7);
    } else if checks[8].0 {
        first_violations_are_reported(checks, 8);
    } else if checks[9].0 {
        first_violations_are_reported(checks, 9);
    } else if checks[10].0 {
        first_violations_are_reported(checks, 10);
    } else if checks[11].0 {
        first_violations_are_reported(checks, 11);
    } else if checks[12].0 {
        first_violations_are_reported(checks, 12);
    } else if checks[13].0 {
        first_violations_are_reported(checks, 13);
    } else if checks[14].0 {
        first_violations_are_reported(checks, 14);
    } else if checks[15].0 {
        first_violations_are_reported(checks, 15);
    } else if checks[16].0 {
        first_violations_are_reported(checks, 16);
    } else if checks[17].0 {
        first_violations_are_reported(checks, 17);
    } else if checks[18].0 {
        first_violations_are_reported(checks, 18);
    } else if checks[19].0 {
        first_violations_are_reported(checks, 19);
    } else if checks[20].0 {
        first_violations_are_reported(checks, 20);
    } else {
        first_violations_are_reported(checks, 21);
    }
}

/// A refused sparse decode launch is refused for its shape first, then for its strides, and then
/// for the first of its other constraints that it violates.
pub proof fn refused_sparse_decode_launches(p: SparseDecodeLaunchParams)
    ensures
        p.error() == first_violated(
            seq![
                as_check(p.dims.shape_error()),
                as_check(p.strides.error(p.dims.extra_topk > 0)),
                (
                    p.config.d_v != p.dims.d_v,
                    invalid(
                        "config d_v ("@ + decimal(p.config.d_v as nat)
                            + ") must match dims d_v ("@ + decimal(p.dims.d_v as nat) + ")"@,
                    ),
                ),
                (
                    p.q.addr == 0 || p.kv.addr == 0 || p.indices.addr == 0 || p.out.addr == 0
                        || p.lse.addr == 0 || p.lse_accum.addr == 0 || p.o_accum.addr == 0
                        || p.tile_scheduler_metadata.addr == 0 || p.num_splits.addr == 0,
                    invalid(
                        "q, kv, indices, out, lse, lse_accum, o_accum, tile_scheduler_metadata, and num_splits pointers must be non-null"@,
                    ),
                ),
                (p.num_sm_parts == 0, invalid("num_sm_parts must be non-zero"@)),
                (
                    p.dims.d_qk == 576 && p.topk_length.addr != 0,
                    invalid("V32 sparse decode does not support topk_length"@),
                ),
                (
                    p.dims.extra_topk > 0 && (p.extra_kv.addr == 0 || p.extra_indices.addr == 0),
                    invalid("extra KV cache requires extra_kv and extra_indices pointers"@),
                ),
                (
                    p.dims.extra_topk == 0 && (p.extra_kv.addr != 0 || p.extra_indices.addr != 0
                        || p.extra_topk_length.addr != 0),
                    invalid("extra pointers require extra KV cache dimensions"@),
                ),
            ],
        ),
{
    reveal_with_fuel(violated_upto, 9);
}

/// The checks of the sizes of a sparse decode launch, in their order.
pub open spec fn sparse_decode_launch_sizes_checks(
    p: SparseDecodeLaunchParams,
) -> Seq<(bool, Option<ErrorModel>)> {
    seq![
        (p.dims.batch > 0x7fff_ffff, i32_error(p.dims.batch, "batch"@)),
        (p.dims.s_q > 0x7fff_ffff, i32_error(p.dims.s_q, "s_q"@)),
        (p.dims.num_blocks > 0x7fff_ffff, i32_error(p.dims.num_blocks, "num_blocks"@)),
        (
            p.dims.page_block_size > 0x7fff_ffff,
            i32_error(p.dims.page_block_size, "page_block_size"@),
        ),
        (p.dims.topk > 0x7fff_ffff, i32_error(p.dims.topk, "topk"@)),
        (
            p.dims.extra_num_blocks > 0x7fff_ffff,
            i32_error(p.dims.extra_num_blocks, "extra_num_blocks"@),
        ),
        (
            p.dims.extra_page_block_size > 0x7fff_ffff,
            i32_error(p.dims.extra_page_block_size, "extra_page_block_size"@),
        ),
        (p.dims.extra_topk > 0x7fff_ffff, i32_error(p.dims.extra_topk, "extra_topk"@)),
        (
            p.strides.extra_kv_block > 0x7fff_ffff,
            i32_error(p.strides.extra_kv_block, "extra_kv_block"@),
        ),
        (
            p.strides.extra_kv_row > 0x7fff_ffff,
            i32_error(p.strides.extra_kv_row, "extra_kv_row"@),
        ),
        (
            p.strides.extra_indices_b > 0x7fff_ffff,
            i32_error(p.strides.extra_indices_b, "extra_indices_b"@),
        ),
        (
            p.strides.extra_indices_s_q > 0x7fff_ffff,
            i32_error(p.strides.extra_indices_s_q, "extra_indices_s_q"@),
        ),
        (p.num_sm_parts > 0x7fff_ffff, i32_error(p.num_sm_parts, "num_sm_parts"@)),
    ]
}

/// A size of an accepted sparse decode launch, or a stride of an extra cache that it does not have,
/// that the C ABI cannot hold is named.
pub proof fn refused_sparse_decode_launch_sizes(p: SparseDecodeLaunchParams)
    requires
        p.error() is None,
    ensures
        p.size_error() == first_violated(sparse_decode_launch_sizes_checks(p)),
{
    let checks = sparse_decode_launch_sizes_checks(p);
    assert(checks.len() == 13);
    if checks[0].0 {
        first_violations_are_reported(checks, 0);
    } else if checks[1].0 {
        first_violations_are_reported(checks, 1);
    } else if checks[2].0 {
        first_violations_are_reported(checks, 2);
    } else if checks[3].0 {
        first_violations_are_reported(checks, 3);
    } else if checks[4].0 {
        first_violations_are_reported(checks, 4);
    } else if checks[5].0 {
        first_violations_are_reported(checks, 5);
    } else if checks[6].0 {
        first_violations_are_reported(checks, 6);
    } else if checks[7].0 {
        first_violations_are_reported(checks, 7);
    } else if checks[8].0 {
        first_violations_are_reported(checks, 8);
    } else if checks[9].0 {
        first_violations_are_reported(checks, 9);
    } else if checks[10].0 {
        first_violations_are_reported(checks, 10);
    } else if checks[11].0 {
        first_violations_are_reported(checks, 11);
    } else if checks[12].0 {
        first_violations_are_reported(checks, 12);
    } else {
        first_violations_are_reported(checks, 13);
    }
}

/// A number of a sparse decode plan that is negative is named.
pub proof fn refused_sparse_decode_replies(r: flashmla_sparse_decode_plan_result_t)
    ensures
        sparse_decode::plan_result_error(r) == first_violated(
            seq![
                (r.num_sm_parts < 0, negative_error(r.num_sm_parts, "num_sm_parts"@)),
                (
                    r.fixed_overhead_num_blocks < 0,
                    negative_error(r.fixed_overhead_num_blocks, "fixed_overhead_num_blocks"@),
                ),
                (r.block_size_topk < 0, negative_error(r.block_size_topk, "block_size_topk"@)),
            ],
        ),
{
    reveal_with_fuel(violated_upto, 4);
}

/// A refused dense decode shape is refused for the first of its constraints that it violates:
/// counts, pages, head grouping, head dimensions, and then the packed row count.
pub proof fn refused_dense_decode_shapes(d: DenseDecodeDims)
    ensures
        d.shape_error() == first_violated(
            seq![
                (
                    d.batch == 0 || d.s_q == 0 || d.h_q == 0 || d.h_k == 0,
                    invalid("batch, s_q, h_q, and h_k must be non-zero"@),
                ),
                (
                    d.num_blocks == 0 || d.page_block_size == 0,
                    invalid("num_blocks and page_block_size must be non-zero"@),
                ),
                (
                    d.page_block_size != 64,
                    invalid(
                        "dense decode requires page_block_size to be 64, got "@
                            + decimal(d.page_block_size as nat),
                    ),
                ),
                (
                    d.h_q as int % d.h_k as int != 0,
                    invalid(
                        "h_k ("@ + decimal(d.h_k as nat) + ") must divide h_q ("@
                            + decimal(d.h_q as nat) + ")"@,
                    ),
                ),
                (
                    d.d_qk != 512 && d.d_qk != 576,
                    invalid("d_qk must be 512 or 576, got "@ + decimal(d.d_qk as nat)),
                ),
                (d.d_v != 512, invalid("d_v must be 512, got "@ + decimal(d.d_v as nat))),
                (
                    d.s_q * (d.h_q as int / d.h_k as int) > usize::MAX,
                    invalid("q_seq_per_hk overflow"@),
                ),
            ],
        ),
{
    reveal_with_fuel(violated_upto, 8);
}

/// The packed row count is refused where the heads form no equal groups, and then where it is too
/// large.
pub proof fn refused_dense_decode_rows(d: DenseDecodeDims)
    ensures
        d.packing_error() == first_violated(
            seq![
                (
                    d.h_k == 0 || d.h_q as int % d.h_k as int != 0,
                    invalid("h_k must be non-zero and divide h_q"@),
                ),
                (
                    d.s_q * (d.h_q as int / d.h_k as int) > usize::MAX,
                    invalid("q_seq_per_hk overflow"@),
                ),
            ],
        ),
{
    reveal_with_fuel(violated_upto, 3);
}

/// A refused dense decode planning call is refused for its shape first, and then for the first of
/// its other constraints that it violates.
pub proof fn refused_dense_decode_plans(p: DenseDecodePlanParams)
    ensures
        p.error() == first_violated(
            seq![
                as_check(p.dims.shape_error()),
                (p.num_sm == 0, invalid("num_sm must be non-zero"@)),
                (
                    p.tile_scheduler_metadata.addr == 0 && p.num_splits.addr != 0,
                    invalid(
                        "tile_scheduler_metadata and num_splits must both be null or both be non-null"@,
                    ),
                ),
                (
                    p.tile_scheduler_metadata.addr != 0 && p.num_splits.addr == 0,
                    invalid(
                        "tile_scheduler_metadata and num_splits must both be null or both be non-null"@,
                    ),
                ),
                (
                    p.num_splits.addr != 0 && p.seqlens_k.addr == 0,
                    invalid("seqlens_k must be non-null when generating dense decode metadata"@),
                ),
            ],
        ),
{
    reveal_with_fuel(violated_upto, 6);
}

/// A size of a dense decode planning call that the C ABI cannot hold is named.
pub proof fn refused_dense_decode_plan_sizes(p: DenseDecodePlanParams)
    ensures
        p.size_error() == first_violated(
            seq![
                (p.dims.batch > 0x7fff_ffff, i32_error(p.dims.batch, "batch"@)),
                (p.dims.s_q > 0x7fff_ffff, i32_error(p.dims.s_q, "s_q"@)),
                (p.dims.h_q > 0x7fff_ffff, i32_error(p.dims.h_q, "h_q"@)),
                (p.dims.h_k > 0x7fff_ffff, i32_error(p.dims.h_k, "h_k"@)),
                (p.num_sm > 0x7fff_ffff, i32_error(p.num_sm, "num_sm"@)),
            ],
        ),
{
    reveal_with_fuel(violated_upto, 6);
}

/// A stride of a dense decode launch that is zero or too large is named.
pub proof fn refused_dense_decode_strides(s: DenseDecodeStrides)
    ensures
        s.error() == first_violated(
            seq![
                (s.q_b == 0 || s.q_b > 0x7fff_ffff, stride_error(s.q_b, "q_b"@)),
                (s.q_row == 0 || s.q_row > 0x7fff_ffff, stride_error(s.q_row, "q_row"@)),
                (s.q_head == 0 || s.q_head > 0x7fff_ffff, stride_error(s.q_head, "q_head"@)),
                (s.k_block == 0 || s.k_block > 0x7fff_ffff, stride_error(s.k_block, "k_block"@)),
                (s.k_row == 0 || s.k_row > 0x7fff_ffff, stride_error(s.k_row, "k_row"@)),
                (s.k_head == 0 || s.k_head > 0x7fff_ffff, stride_error(s.k_head, "k_head"@)),
                (
                    s.block_table_b == 0 || s.block_table_b > 0x7fff_ffff,
                    stride_error(s.block_table_b, "block_table_b"@),
                ),
            ],
        ),
{
    reveal_with_fuel(violated_upto, 8);
}

/// A refused dense decode launch is refused for its shape first, then for its strides, and then for
/// the first of its other constraints that it violates.
pub proof fn refused_dense_decode_launches(p: DenseDecodeLaunchParams)
    ensures
        p.error() == first_violated(
            seq![
                as_check(p.dims.shape_error()),
                as_check(p.strides.error()),
                (
                    p.config.d_v != p.dims.d_v,
                    invalid(
                        "config d_v ("@ + decimal(p.config.d_v as nat)
                            + ") must match dims d_v ("@ + decimal(p.dims.d_v as nat) + ")"@,
                    ),
                ),
                (
                    p.q.addr == 0 || p.kcache.addr == 0 || p.seqlens_k.addr == 0
                        || p.block_table.addr == 0 || p.out.addr == 0 || p.lse.addr == 0
                        || p.lse_accum.addr == 0 || p.o_accum.addr == 0
                        || p.tile_scheduler_metadata.addr == 0 || p.num_splits.addr == 0,
                    invalid(
                        "q, kcache, seqlens_k, block_table, out, lse, lse_accum, o_accum, tile_scheduler_metadata, and num_splits pointers must be non-null"@,
                    ),
                ),
                (p.num_sm_parts == 0, invalid("num_sm_parts must be non-zero"@)),
            ],
        ),
{
    reveal_with_fuel(violated_upto, 6);
}

/// A size of a dense decode launch that the C ABI cannot hold is named.
pub proof fn refused_dense_decode_launch_sizes(p: DenseDecodeLaunchParams)
    ensures
        p.size_error() == first_violated(
            seq![
                (p.dims.batch > 0x7fff_ffff, i32_error(p.dims.batch, "batch"@)),
                (p.dims.s_q > 0x7fff_ffff, i32_error(p.dims.s_q, "s_q"@)),
                (p.dims.h_q > 0x7fff_ffff, i32_error(p.dims.h_q, "h_q"@)),
                (p.dims.h_k > 0x7fff_ffff, i32_error(p.dims.h_k, "h_k"@)),
                (p.dims.num_blocks > 0x7fff_ffff, i32_error(p.dims.num_blocks, "num_blocks"@)),
                (p.num_sm_parts > 0x7fff_ffff, i32_error(p.num_sm_parts, "num_sm_parts"@)),
            ],
        ),
{
    reveal_with_fuel(violated_upto, 7);
}

/// A number of a dense decode plan that is negative is named.
pub proof fn refused_dense_decode_replies(r: flashmla_dense_decode_plan_result_t)
    ensures
        dense_decode::plan_result_error(r) == first_violated(
            seq![
                (r.num_sm_parts < 0, negative_error(r.num_sm_parts, "num_sm_parts"@)),
                (
                    r.fixed_overhead_num_blocks < 0,
                    negative_error(r.fixed_overhead_num_blocks, "fixed_overhead_num_blocks"@),
                ),
                (r.block_size_n < 0, negative_error(r.block_size_n, "block_size_n"@)),
                (r.q_seq_per_hk < 0, negative_error(r.q_seq_per_hk, "q_seq_per_hk"@)),
            ],
        ),
{
    reveal_with_fuel(violated_upto, 5);
}

/// A refused sparse prefill shape is refused for the first of its constraints that it violates:
/// counts, head dimensions, head counts, and then what the architecture asks of top-k.
pub proof fn refused_sparse_prefill_shapes(d: SparsePrefillDims, arch: Arch)
    ensures
        d.arch_error(arch) == first_violated(
            seq![
                (
                    d.s_q == 0 || d.s_kv == 0 || d.topk == 0,
                    invalid("s_q, s_kv, and topk must be non-zero"@),
                ),
                (
                    d.d_qk != 512 && d.d_qk != 576,
                    invalid("d_qk must be 512 or 576, got "@ + decimal(d.d_qk as nat)),
                ),
                (d.d_v != 512, invalid("d_v must be 512, got "@ + decimal(d.d_v as nat))),
                (
                    d.h_q != 64 && d.h_q != 128,
                    invalid("h_q must be padded to 64 or 128, got "@ + decimal(d.h_q as nat)),
                ),
                (
                    d.h_kv != 1,
                    invalid("h_kv must be 1 for sparse MLA, got "@ + decimal(d.h_kv as nat)),
                ),
                (
                    arch == Arch::Sm90a && d.topk % 128 != 0,
                    invalid(
                        "SM90 sparse prefill requires topk to be a multiple of 128, got "@
                            + decimal(d.topk as nat),
                    ),
                ),
            ],
        ),
{
    reveal_with_fuel(violated_upto, 7);
}

/// A stride of a sparse prefill launch that is zero or too large is named.
pub proof fn refused_sparse_prefill_strides(s: SparsePrefillStrides)
    ensures
        s.error() == first_violated(
            seq![
                (s.q_s_q == 0 || s.q_s_q > 0x7fff_ffff, stride_error(s.q_s_q, "q_s_q"@)),
                (s.q_h_q == 0 || s.q_h_q > 0x7fff_ffff, stride_error(s.q_h_q, "q_h_q"@)),
                (s.kv_s_kv == 0 || s.kv_s_kv > 0x7fff_ffff, stride_error(s.kv_s_kv, "kv_s_kv"@)),
                (s.kv_h_kv == 0 || s.kv_h_kv > 0x7fff_ffff, stride_error(s.kv_h_kv, "kv_h_kv"@)),
                (
                    s.indices_s_q == 0 || s.indices_s_q > 0x7fff_ffff,
                    stride_error(s.indices_s_q, "indices_s_q"@),
                ),
                (
                    s.indices_h_kv == 0 || s.indices_h_kv > 0x7fff_ffff,
                    stride_error(s.indices_h_kv, "indices_h_kv"@),
                ),
            ],
        ),
{
    reveal_with_fuel(violated_upto, 7);
}

/// A refused sparse prefill launch is refused for its shape first, then for its strides, and then
/// for the first of its other constraints that it violates.
pub proof fn refused_sparse_prefill_launches(p: SparsePrefillLaunchParams, arch: Arch)
    ensures
        p.error(arch) == first_violated(
            seq![
                as_check(p.dims.arch_error(arch)),
                as_check(p.strides.error()),
                (
                    p.config.d_v != p.dims.d_v,
                    invalid(
                        "config d_v ("@ + decimal(p.config.d_v as nat)
                            + ") must match dims d_v ("@ + decimal(p.dims.d_v as nat) + ")"@,
                    ),
                ),
                (
                    p.q.addr == 0 || p.kv.addr == 0 || p.indices.addr == 0 || p.out.addr == 0
                        || p.max_logits.addr == 0 || p.lse.addr == 0,
                    invalid(
                        "q, kv, indices, out, max_logits, and lse pointers must be non-null"@,
                    ),
                ),
                (p.num_sm == 0, invalid("num_sm must be non-zero"@)),
            ],
        ),
{
    reveal_with_fuel(violated_upto, 6);
}

/// A size of a sparse prefill launch that the C ABI cannot hold is named.
pub proof fn refused_sparse_prefill_launch_sizes(p: SparsePrefillLaunchParams)
    ensures
        p.size_error() == first_violated(
            seq![
                (p.dims.s_q > 0x7fff_ffff, i32_error(p.dims.s_q, "s_q"@)),
                (p.dims.s_kv > 0x7fff_ffff, i32_error(p.dims.s_kv, "s_kv"@)),
                (p.dims.topk > 0x7fff_ffff, i32_error(p.dims.topk, "topk"@)),
                (p.num_sm > 0x7fff_ffff, i32_error(p.num_sm, "num_sm"@)),
            ],
        ),
{
    reveal_with_fuel(violated_upto, 5);
}

/// A device is refused for the status of the query first, then for the first of its numbers that is
/// negative, and then for its compute capability.
pub proof fn refused_device_replies(id: i32, r: DeviceReply, last: Option<Seq<char>>)
    ensures
        reply_error(id, r, last) == first_violated(
            seq![
                (
                    r.status.code() != 0,
                    call_error(r.status, "failed to query CUDA device "@
                        + signed_decimal(id as int), last),
                ),
                (
                    r.major < 0,
                    Some(ErrorModel::Internal("CUDA returned a negative major version: "@
                        + signed_decimal(r.major as int))),
                ),
                (
                    r.minor < 0,
                    Some(ErrorModel::Internal("CUDA returned a negative minor version: "@
                        + signed_decimal(r.minor as int))),
                ),
                (
                    r.num_sms < 0,
                    Some(ErrorModel::Internal("CUDA returned a negative SM count: "@
                        + signed_decimal(r.num_sms as int))),
                ),
                (true, capability_error(r.major as u32, r.minor as u32)),
            ],
        ),
{
    reveal_strlit("CUDA returned a negative ");
    reveal_strlit("major version");
    reveal_strlit("minor version");
    reveal_strlit("SM count");
    reveal_strlit(": ");
    reveal_strlit("CUDA returned a negative major version: ");
    reveal_strlit("CUDA returned a negative minor version: ");
    reveal_strlit("CUDA returned a negative SM count: ");
    let prefix = "CUDA returned a negative "@;
    assert(prefix + "major version"@ + ": "@ == "CUDA returned a negative major version: "@);
    assert(prefix + "minor version"@ + ": "@ == "CUDA returned a negative minor version: "@);
    assert(prefix + "SM count"@ + ": "@ == "CUDA returned a negative SM count: "@);
    reveal_with_fuel(violated_upto, 6);
}

} // verus!
