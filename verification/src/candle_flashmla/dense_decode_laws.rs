//! What dense decode does to tensors, from the tensors that go in to those that come out.

use crate::candle_flashmla::dense_decode::DenseDecodeTensors;
use crate::candle_flashmla::dense_decode_launch::DenseDecodeBases;
use crate::candle_flashmla::dense_decode_launch::DenseDecodeLaunchModel;
use crate::candle_flashmla::dense_decode_launch::DenseDecodeOutput;
use crate::candle_flashmla::dense_decode_plan::DenseDecodePlan;
use crate::candle_flashmla::layout::is_contiguous;
use crate::candle_flashmla::layout::positions_count_through;
use crate::candle_flashmla::layout::row_major_steps;
use crate::candle_flashmla::layout::shapes_fit_by_their_product;
use crate::candle_flashmla::layout::steps_reach_the_position;
use crate::candle_flashmla::packing::kv_head;
use crate::candle_flashmla::packing::lemma_group;
use crate::candle_flashmla::packing::lse_dims;
use crate::candle_flashmla::packing::lse_position;
use crate::candle_flashmla::packing::out_dims;
use crate::candle_flashmla::packing::out_position;
use crate::candle_flashmla::packing::packed_lse_dims;
use crate::candle_flashmla::packing::packed_lse_position;
use crate::candle_flashmla::packing::packed_out_dims;
use crate::candle_flashmla::packing::packed_out_position;
use crate::candle_flashmla::packing::packed_q_dims;
use crate::candle_flashmla::packing::packed_q_position;
use crate::candle_flashmla::packing::packed_row;
use crate::candle_flashmla::packing::q_dims;
use crate::candle_flashmla::packing::q_position;
use crate::candle_flashmla::packing::rows;
use crate::candle_flashmla::tensor::pointers_lie_at_the_first_element;
use crate::candle_flashmla::tensor::suitable_tensors;
use crate::candle_flashmla::tensor_api::dims_of;
use crate::candle_flashmla::tensor_api::dtype_of;
use crate::candle_flashmla::tensor_api::elements_of;
use crate::candle_flashmla::tensor_api::same_device_of;
use crate::candle_flashmla::tensor_api::start_offset_of;
use crate::candle_flashmla::tensor_api::strides_of;
use crate::candle_flashmla::tensor_api::DType;
use crate::dense_decode::accepted_shapes;
use crate::dense_decode::DenseDecodeConfig;
use crate::dense_decode::DenseDecodeDims;
use crate::sys::cudaStream_t;
use candle_core::Tensor;
use vstd::prelude::*;

verus! {

/// The dimensions of a decode call are read off its tensors: batch entries, positions, heads and key
/// width off the query, and pages, page size and KV heads off the cache.
pub proof fn dimensions_are_read_off_the_tensors(
    tensors: DenseDecodeTensors,
    block_table: Option<&Tensor>,
    d_v: usize,
)
    requires
        dims_of(*tensors.q).len() == 4,
        dims_of(*tensors.k_cache).len() == 4,
    ensures
        ({
            let dims = tensors.model(block_table).dims(d_v);
            &&& dims.batch == dims_of(*tensors.q)[0]
            &&& dims.s_q == dims_of(*tensors.q)[1]
            &&& dims.h_q == dims_of(*tensors.q)[2]
            &&& dims.d_qk == dims_of(*tensors.q)[3]
            &&& dims.d_v == d_v
            &&& dims.num_blocks == dims_of(*tensors.k_cache)[0]
            &&& dims.page_block_size == dims_of(*tensors.k_cache)[1]
            &&& dims.h_k == dims_of(*tensors.k_cache)[2]
        }),
{
}

/// The tensors that are accepted: a BF16 query and a BF16 cache of four axes and the same key width,
/// one I32 length for each batch entry, and where there is a block table one I32 row of blocks for
/// each batch entry; everything next to the query with a last axis of unit steps, and of a shape
/// that the kernels take.
pub proof fn accepted_tensors(
    tensors: DenseDecodeTensors,
    block_table: Option<&Tensor>,
    d_v: usize,
)
    ensures
        tensors.model(block_table).error(d_v) is None <==> {
            let q = *tensors.q;
            let k_cache = *tensors.k_cache;
            let seqlens_k = *tensors.seqlens_k;
            &&& dims_of(q).len() == 4 && strides_of(q)[3] == 1 && dtype_of(q) == DType::BF16
            &&& dims_of(k_cache).len() == 4 && strides_of(k_cache)[3] == 1
            &&& dtype_of(k_cache) == DType::BF16 && same_device_of(q, k_cache)
            &&& dims_of(k_cache)[3] == dims_of(q)[3]
            &&& dims_of(seqlens_k).len() == 1 && strides_of(seqlens_k)[0] == 1
            &&& dtype_of(seqlens_k) == DType::I32 && same_device_of(q, seqlens_k)
            &&& dims_of(seqlens_k)[0] == dims_of(q)[0]
            &&& block_table matches Some(table) ==> {
                &&& dims_of(*table).len() == 2 && strides_of(*table)[1] == 1
                &&& dtype_of(*table) == DType::I32 && same_device_of(q, *table)
                &&& dims_of(*table)[0] == dims_of(q)[0] && dims_of(*table)[1] >= 1
            }
            &&& tensors.model(block_table).dims(d_v).shape_error() is None
        },
        tensors.model(block_table).accepted(d_v) <==> tensors.model(block_table).error(
            d_v,
        ) is None,
{
    let q = *tensors.q;
    suitable_tensors(q, q, 4, DType::BF16);
    suitable_tensors(q, *tensors.k_cache, 4, DType::BF16);
    suitable_tensors(q, *tensors.seqlens_k, 1, DType::I32);
    if let Some(table) = block_table {
        suitable_tensors(q, *table, 2, DType::I32);
    }
}

/// The strides of a prepared launch lead to the elements of its tensors. From the first element of a
/// tensor, the strides that the kernel is given for an index reach the element of that index: those
/// of the cache and the block table by the strides of these tensors, and those of the packed query
/// to the row-major number of the index. The outputs have no strides: they are row-major without
/// gaps, in rows of their KV head.
pub proof fn strides_lead_to_the_elements(
    tensors: DenseDecodeTensors,
    block_table: Tensor,
    d_v: usize,
    launch: DenseDecodeLaunchModel,
    b: int,
    row: int,
    k: int,
    e: int,
)
    requires
        tensors.model(Some(&block_table)).error(d_v) is None,
        tensors.prepares(block_table, d_v, launch),
    ensures
        ({
            let s = launch.strides;
            let n = launch.dims;
            let rows = n.s_q * (n.h_q as int / n.h_k as int);
            let cache = strides_of(*tensors.k_cache);
            &&& b * s.q_b + row * s.q_row + k * s.q_head + e == ((b * rows + row) * n.h_k + k)
                * n.d_qk + e
            &&& b * s.k_block + row * s.k_row + k * s.k_head + e == b * cache[0] + row * cache[1]
                + k * cache[2] + e * cache[3]
            &&& b * s.block_table_b + row == b * strides_of(block_table)[0] + row * strides_of(
                block_table,
            )[1]
        }),
        ({
            let n = launch.dims;
            let rows = n.s_q * (n.h_q as int / n.h_k as int);
            let out = strides_of(launch.out);
            let lse = strides_of(launch.lse);
            &&& b * out[0] + k * out[1] + row * out[2] + e * out[3] == ((b * n.h_k + k) * rows + row)
                * n.d_v + e
            &&& b * lse[0] + k * lse[1] + row * lse[2] == (b * n.h_k + k) * rows + row
            &&& start_offset_of(launch.out) == 0 && start_offset_of(launch.lse) == 0
        }),
{
    accepted_tensors(tensors, Some(&block_table), d_v);
    let n = launch.dims;
    assert(n.supported());
    lemma_group(n);
    let rows = n.s_q * (n.h_q as int / n.h_k as int);
    row_major_steps(dims_of(launch.q_packed), strides_of(launch.q_packed));
    row_major_steps(dims_of(launch.out), strides_of(launch.out));
    row_major_steps(dims_of(launch.lse), strides_of(launch.lse));
    steps_reach_the_position(rows, n.h_k as int, n.d_qk as int, b, row, k, e);
    steps_reach_the_position(n.h_k as int, rows, n.d_v as int, b, k, row, e);
}

/// The packed query holds every head of the query: with `G` heads for each KV head, head `h` at
/// position `i` is row `i * G + h % G` of KV head `h / G`.
pub proof fn launches_read_the_packed_heads(
    tensors: DenseDecodeTensors,
    block_table: Tensor,
    d_v: usize,
    launch: DenseDecodeLaunchModel,
    b: int,
    i: int,
    h: int,
    e: int,
)
    requires
        tensors.model(Some(&block_table)).error(d_v) is None,
        tensors.prepares(block_table, d_v, launch),
        0 <= b < dims_of(*tensors.q)[0],
        0 <= i < dims_of(*tensors.q)[1],
        0 <= h < dims_of(*tensors.q)[2],
        0 <= e < dims_of(*tensors.q)[3],
    ensures
        ({
            let q = dims_of(*tensors.q);
            let h_k = dims_of(*tensors.k_cache)[2];
            let g = q[2] as int / h_k as int;
            let packed = launch.q_packed;
            &&& dims_of(packed).len() == 4
            &&& dims_of(packed)[0] == q[0] && dims_of(packed)[1] == q[1] * g && dims_of(packed)[2]
                == h_k && dims_of(packed)[3] == q[3]
            &&& dtype_of(packed) == DType::BF16
            &&& same_device_of(*tensors.q, packed) == same_device_of(*tensors.q, *tensors.q)
            &&& elements_of(packed)[((b * (q[1] * g) + i * g + h % g) * h_k + h / g) * q[3] + e]
                == elements_of(*tensors.q)[((b * q[1] + i) * q[2] + h) * q[3] + e]
        }),
{
    accepted_tensors(tensors, Some(&block_table), d_v);
    let n = launch.dims;
    assert(n.supported());
    lemma_group(n);
    let q = dims_of(*tensors.q);
    assert(q_dims(n) == q);
    positions_count_through(q_dims(n), b, i, h, e);
    positions_count_through(packed_q_dims(n), b, packed_row(n, i, h), kv_head(n, h), e);
    assert(elements_of(launch.q_packed)[packed_q_position(
        n,
        b,
        packed_row(n, i, h),
        kv_head(n, h),
        e,
    )] == elements_of(*tensors.q)[q_position(n, b, i, h, e)]);
}

/// The parameters of a prepared launch point at its tensors, each in its role: at the first element
/// of the packed query, of the cache, the lengths, the block table, the outputs and the workspaces.
/// The dimensions, strides, options, partitions and stream are those of the launch, its plan and its
/// caller.
pub proof fn parameters_point_at_the_tensors(
    tensors: DenseDecodeTensors,
    block_table: Tensor,
    plan: DenseDecodePlan,
    launch: DenseDecodeLaunchModel,
    config: DenseDecodeConfig,
    bases: DenseDecodeBases,
    stream: cudaStream_t,
)
    requires
        launch.pointers_error(tensors, block_table, plan, bases) is None,
    ensures
        ({
            let p = launch.params(tensors, block_table, plan, config, bases, stream);
            &&& p.q.addr == bases.q_packed + start_offset_of(launch.q_packed) * 2
            &&& p.kcache.addr == bases.k_cache + start_offset_of(*tensors.k_cache) * 2
            &&& p.seqlens_k.addr == bases.seqlens_k + start_offset_of(*tensors.seqlens_k) * 4
            &&& p.block_table.addr == bases.block_table + start_offset_of(block_table) * 4
            &&& p.out.addr == bases.out + start_offset_of(launch.out) * 2
            &&& p.lse.addr == bases.lse + start_offset_of(launch.lse) * 4
            &&& p.lse_accum.addr == bases.lse_accum + start_offset_of(plan.lse_accum) * 4
            &&& p.o_accum.addr == bases.o_accum + start_offset_of(plan.o_accum) * 4
            &&& p.tile_scheduler_metadata.addr == bases.scheduler_metadata + start_offset_of(
                plan.scheduler_metadata,
            ) * 4
            &&& p.num_splits.addr == bases.num_splits + start_offset_of(plan.num_splits) * 4
            &&& p.dims == launch.dims
            &&& p.strides == launch.strides
            &&& p.config == config
            &&& p.num_sm_parts == plan.meta.num_sm_parts
            &&& p.stream == stream
        }),
{
    pointers_lie_at_the_first_element(launch.q_packed, bases.q_packed, 2, "q_packed"@);
    pointers_lie_at_the_first_element(*tensors.k_cache, bases.k_cache, 2, "k_cache"@);
    pointers_lie_at_the_first_element(*tensors.seqlens_k, bases.seqlens_k, 4, "seqlens_k"@);
    pointers_lie_at_the_first_element(block_table, bases.block_table, 4, "block_table"@);
    pointers_lie_at_the_first_element(launch.out, bases.out, 2, "out_internal"@);
    pointers_lie_at_the_first_element(launch.lse, bases.lse, 4, "lse_internal"@);
    pointers_lie_at_the_first_element(plan.lse_accum, bases.lse_accum, 4, "lse_accum"@);
    pointers_lie_at_the_first_element(plan.o_accum, bases.o_accum, 4, "o_accum"@);
    pointers_lie_at_the_first_element(
        plan.scheduler_metadata,
        bases.scheduler_metadata,
        4,
        "scheduler_metadata"@,
    );
    pointers_lie_at_the_first_element(plan.num_splits, bases.num_splits, 4, "num_splits"@);
}

/// What comes back of a finished launch: a BF16 output of the shape of the query with value-wide
/// heads and F32 log-sum-exp values head by head, both next to the query in row-major order. With
/// `G` heads for each KV head, head `h` at position `i` holds what the kernel wrote in row
/// `i * G + h % G` of KV head `h / G`.
pub proof fn finished_launches_show_what_was_written(
    tensors: DenseDecodeTensors,
    block_table: Tensor,
    d_v: usize,
    launch: DenseDecodeLaunchModel,
    output: DenseDecodeOutput,
    b: int,
    i: int,
    h: int,
    e: int,
)
    requires
        tensors.model(Some(&block_table)).error(d_v) is None,
        tensors.prepares(block_table, d_v, launch),
        launch.finishes(output),
        0 <= b < dims_of(*tensors.q)[0],
        0 <= i < dims_of(*tensors.q)[1],
        0 <= h < dims_of(*tensors.q)[2],
        0 <= e < d_v,
    ensures
        ({
            let q = dims_of(*tensors.q);
            let h_k = dims_of(*tensors.k_cache)[2];
            let g = q[2] as int / h_k as int;
            let row = (b * h_k + h / g) * (q[1] * g) + (i * g + h % g);
            &&& dims_of(output.out) == seq![q[0], q[1], q[2], d_v]
            &&& dims_of(output.lse) == seq![q[0], q[2], q[1]]
            &&& dtype_of(output.out) == DType::BF16
            &&& dtype_of(output.lse) == DType::F32
            &&& same_device_of(*tensors.q, output.out)
            &&& same_device_of(*tensors.q, output.lse)
            &&& strides_of(output.out)[0] == q[1] * (q[2] * d_v) && strides_of(output.out)[1]
                == q[2] * d_v && strides_of(output.out)[2] == d_v && strides_of(output.out)[3] == 1
            &&& strides_of(output.lse)[0] == q[2] * q[1] && strides_of(output.lse)[1] == q[1]
                && strides_of(output.lse)[2] == 1
            &&& elements_of(output.out)[((b * q[1] + i) * q[2] + h) * d_v + e] == elements_of(
                launch.out,
            )[row * d_v + e]
            &&& elements_of(output.lse)[(b * q[2] + h) * q[1] + i] == elements_of(launch.lse)[row]
        }),
{
    accepted_tensors(tensors, Some(&block_table), d_v);
    let n = launch.dims;
    assert(n.supported());
    lemma_group(n);
    let q = dims_of(*tensors.q);
    assert(q_dims(n) == q);
    assert(dims_of(output.out) == seq![q[0], q[1], q[2], d_v]);
    assert(dims_of(output.lse) == seq![q[0], q[2], q[1]]);
    row_major_steps(dims_of(output.out), strides_of(output.out));
    row_major_steps(dims_of(output.lse), strides_of(output.lse));
    let k = kv_head(n, h);
    let r = packed_row(n, i, h);
    positions_count_through(out_dims(n), b, i, h, e);
    positions_count_through(packed_out_dims(n), b, k, r, e);
    positions_count_through(lse_dims(n), b, h, i, 0);
    positions_count_through(packed_lse_dims(n), b, k, r, 0);
    assert(elements_of(output.out)[out_position(n, b, i, h, e)] == elements_of(
        launch.out,
    )[packed_out_position(n, b, k, r, e)]);
    assert(elements_of(output.lse)[lse_position(n, b, h, i)] == elements_of(
        launch.lse,
    )[packed_lse_position(n, b, k, r)]);
}

/// A launch is prepared if and only if its query and outputs can be addressed, at two bytes for each
/// element and four for each log-sum-exp value, and what has to be moved can be counted in 32 bits:
/// the query where it is not in memory order, or has several KV heads with several heads each, the
/// output with several positions and KV heads, and the log-sum-exp values with several positions and
/// several heads for a KV head.
pub proof fn launches_have_to_be_addressable(tensors: DenseDecodeTensors, dims: DenseDecodeDims)
    requires
        dims.shape_error() is None,
    ensures
        tensors.launch_fits(dims) <==> {
            let g = dims.h_q as int / dims.h_k as int;
            let q = dims.batch * dims.s_q * dims.h_q * dims.d_qk;
            let rows = dims.batch * dims.h_k * (dims.s_q * g);
            let in_order = is_contiguous(dims_of(*tensors.q), strides_of(*tensors.q));
            &&& q * 2 <= isize::MAX
            &&& !in_order || (dims.h_k > 1 && g > 1) ==> q <= 0xffff_ffff
            &&& rows * dims.d_v * 2 <= isize::MAX
            &&& rows * 4 <= isize::MAX
            &&& dims.s_q > 1 && dims.h_k > 1 ==> rows * dims.d_v <= 0xffff_ffff
            &&& dims.s_q > 1 && g > 1 ==> rows <= 0xffff_ffff
        },
{
    accepted_shapes(dims);
    lemma_group(dims);
    let r = rows(dims);
    shapes_fit_by_their_product(dims.batch, dims.s_q, dims.h_q, dims.d_qk, 2);
    shapes_fit_by_their_product(dims.batch, dims.h_k, r, dims.d_v, 2);
    shapes_fit_by_their_product(dims.batch, dims.h_k, r, 1, 4);
}

} // verus!
