//! What sparse decode does to tensors, from the tensors that go in to those that come out.

use crate::arch::Arch;
use crate::candle_flashmla::layout::counting_is_one_to_one;
use crate::candle_flashmla::layout::in_bounds;
use crate::candle_flashmla::layout::position;
use crate::candle_flashmla::layout::position_upto;
use crate::candle_flashmla::layout::positions_count_through;
use crate::candle_flashmla::layout::row_major_steps;
use crate::candle_flashmla::layout::shapes_fit_by_their_product;
use crate::candle_flashmla::layout::steps_reach_the_position;
use crate::candle_flashmla::sparse_decode::SparseDecodeTensors;
use crate::candle_flashmla::sparse_decode_launch::launch_fits;
use crate::candle_flashmla::sparse_decode_launch::lse_position;
use crate::candle_flashmla::sparse_decode_launch::shown_lse_position;
use crate::candle_flashmla::sparse_decode_launch::SparseDecodeBases;
use crate::candle_flashmla::sparse_decode_launch::SparseDecodeLaunchModel;
use crate::candle_flashmla::sparse_decode_launch::SparseDecodeOutput;
use crate::candle_flashmla::sparse_decode_plan::plan_shapes;
use crate::candle_flashmla::sparse_decode_plan::SparseDecodePlan;
use crate::candle_flashmla::tensor::accepted_vectors;
use crate::candle_flashmla::tensor::optional_vector;
use crate::candle_flashmla::tensor::pointers_lie_at_the_first_element;
use crate::candle_flashmla::tensor::suitable_tensors;
use crate::candle_flashmla::tensor_api::dims_of;
use crate::candle_flashmla::tensor_api::dtype_of;
use crate::candle_flashmla::tensor_api::elements_of;
use crate::candle_flashmla::tensor_api::same_device_of;
use crate::candle_flashmla::tensor_api::start_offset_of;
use crate::candle_flashmla::tensor_api::strides_of;
use crate::candle_flashmla::tensor_api::DType;
use crate::sparse_decode::SparseDecodeConfig;
use crate::sparse_decode::SparseDecodeDims;
use crate::sys::cudaStream_t;
use candle_core::Tensor;
use vstd::prelude::*;

verus! {

/// The dimensions of a decode call are read off its tensors: batch entries, positions, heads and key
/// width off the query, pages, page size and KV heads off the cache, and top-k off the indices, and
/// likewise for an extra cache; without one its sizes are zero.
pub proof fn dimensions_are_read_off_the_tensors(tensors: SparseDecodeTensors, d_v: usize)
    requires
        dims_of(*tensors.q).len() == 4,
        dims_of(*tensors.kv_cache).len() == 4,
        dims_of(*tensors.indices).len() == 3,
        tensors.extra_kv_cache matches Some(t) ==> dims_of(*t).len() == 4,
        tensors.extra_indices matches Some(t) ==> dims_of(*t).len() == 3,
    ensures
        ({
            let dims = tensors.model().dims(d_v);
            &&& dims.batch == dims_of(*tensors.q)[0]
            &&& dims.s_q == dims_of(*tensors.q)[1]
            &&& dims.h_q == dims_of(*tensors.q)[2]
            &&& dims.d_qk == dims_of(*tensors.q)[3]
            &&& dims.d_v == d_v
            &&& dims.num_blocks == dims_of(*tensors.kv_cache)[0]
            &&& dims.page_block_size == dims_of(*tensors.kv_cache)[1]
            &&& dims.h_kv == dims_of(*tensors.kv_cache)[2]
            &&& dims.topk == dims_of(*tensors.indices)[2]
            &&& tensors.extra_kv_cache is Some && tensors.extra_indices is Some ==> {
                &&& dims.extra_num_blocks == dims_of(*tensors.extra_kv_cache->0)[0]
                &&& dims.extra_page_block_size == dims_of(*tensors.extra_kv_cache->0)[1]
                &&& dims.extra_topk == dims_of(*tensors.extra_indices->0)[2]
            }
            &&& tensors.extra_kv_cache is None || tensors.extra_indices is None ==> {
                &&& dims.extra_num_blocks == 0
                &&& dims.extra_page_block_size == 0
                &&& dims.extra_topk == 0
            }
        }),
{
}

/// A launch has the dimensions of its tensors, but for the head count, which is 64 on SM90 and 128
/// on SM100 where padding is asked for and there are fewer heads, unless there are 64 already.
pub proof fn launches_have_the_padded_dimensions(
    tensors: SparseDecodeTensors,
    d_v: usize,
    pad_heads: bool,
    arch: Arch,
)
    ensures
        ({
            let given = tensors.model().dims(d_v);
            let dims = tensors.model().padded_dims(d_v, pad_heads, arch);
            let h = given.h_q;
            &&& dims == SparseDecodeDims { h_q: dims.h_q, ..given }
            &&& !pad_heads || h == 0 || h == 64 || h >= 128 ==> dims.h_q == h
            &&& pad_heads && 0 < h < 64 && arch == Arch::Sm90a ==> dims.h_q == 64
            &&& pad_heads && 64 < h < 128 && arch == Arch::Sm90a ==> dims.h_q == h
            &&& pad_heads && 0 < h < 128 && h != 64 && arch == Arch::Sm100f ==> dims.h_q == 128
        }),
{
}

/// The tensors that are accepted: a BF16 query of four axes, a packed cache of bytes or FP8 numbers
/// of four axes whose rows hold the 656 or 584 bytes of a token of the query's key width without
/// gaps, I32 indices for each query position, optional vectors of the lengths of their roles, and
/// either no extra tensors or an extra cache like the cache with its own indices; everything next to
/// the query with a last axis of unit steps, and of a padded shape that the kernels take.
pub proof fn accepted_tensors(
    tensors: SparseDecodeTensors,
    d_v: usize,
    pad_heads: bool,
    arch: Arch,
)
    ensures
        tensors.model().error(d_v, pad_heads, arch) is None <==> {
            let q = *tensors.q;
            let kv = *tensors.kv_cache;
            let indices = *tensors.indices;
            &&& dims_of(q).len() == 4 && strides_of(q)[3] == 1 && dtype_of(q) == DType::BF16
            &&& dims_of(kv).len() == 4 && strides_of(kv)[3] == 1 && same_device_of(q, kv)
            &&& dtype_of(kv) == DType::U8 || dtype_of(kv) == DType::F8E4M3
            &&& dims_of(kv)[3] == (if dims_of(q)[3] == 576 {
                656
            } else {
                584usize
            })
            &&& strides_of(kv)[1] == dims_of(kv)[3]
            &&& dims_of(indices).len() == 3 && strides_of(indices)[2] == 1
            &&& dtype_of(indices) == DType::I32 && same_device_of(q, indices)
            &&& dims_of(indices)[0] == dims_of(q)[0] && dims_of(indices)[1] == dims_of(q)[1]
            &&& optional_vector(q, tensors.topk_length, DType::I32, dims_of(q)[0])
            &&& dims_of(q)[3] == 576 ==> tensors.topk_length is None
            &&& optional_vector(q, tensors.attn_sink, DType::F32, dims_of(q)[2])
            &&& tensors.extra_kv_cache is Some <==> tensors.extra_indices is Some
            &&& tensors.extra_topk_length is Some ==> tensors.extra_kv_cache is Some
            &&& optional_vector(q, tensors.extra_topk_length, DType::I32, dims_of(q)[0])
            &&& tensors.extra_kv_cache matches Some(extra) ==> {
                let extra_indices = *tensors.extra_indices->0;
                &&& dims_of(*extra).len() == 4 && strides_of(*extra)[3] == 1 && same_device_of(
                    q,
                    *extra,
                )
                &&& dtype_of(*extra) == dtype_of(kv)
                &&& dims_of(*extra)[2] == dims_of(kv)[2] && dims_of(*extra)[3] == dims_of(kv)[3]
                &&& strides_of(*extra)[1] == dims_of(kv)[3]
                &&& dims_of(extra_indices).len() == 3 && strides_of(extra_indices)[2] == 1
                &&& dtype_of(extra_indices) == DType::I32 && same_device_of(q, extra_indices)
                &&& dims_of(extra_indices)[0] == dims_of(q)[0] && dims_of(extra_indices)[1]
                    == dims_of(q)[1]
                &&& dims_of(q)[3] != 576
            }
            &&& tensors.model().padded_dims(d_v, pad_heads, arch).shape_error() is None
        },
        tensors.model().accepted(d_v, pad_heads, arch) <==> tensors.model().error(
            d_v,
            pad_heads,
            arch,
        ) is None,
{
    let q = *tensors.q;
    accepted_vectors(q, tensors.topk_length, DType::I32, dims_of(q)[0]);
    accepted_vectors(q, tensors.attn_sink, DType::F32, dims_of(q)[2]);
    accepted_vectors(q, tensors.extra_topk_length, DType::I32, dims_of(q)[0]);
    suitable_tensors(q, q, 4, DType::BF16);
    suitable_tensors(q, *tensors.kv_cache, 4, DType::U8);
    suitable_tensors(q, *tensors.indices, 3, DType::I32);
    if let Some(t) = tensors.extra_kv_cache {
        suitable_tensors(q, *t, 4, DType::U8);
    }
    if let Some(t) = tensors.extra_indices {
        suitable_tensors(q, *t, 3, DType::I32);
    }
}

/// The strides of a prepared launch lead to the elements of its tensors. From the first element of a
/// tensor, the strides that the kernel is given for an index reach the element of that index: those
/// of the query, the cache, the indices, the workspaces and an extra cache by the strides of these
/// tensors, and those of the new outputs to the row-major number of the index.
pub proof fn strides_lead_to_the_elements(
    tensors: SparseDecodeTensors,
    plan: SparseDecodePlan,
    d_v: usize,
    pad_heads: bool,
    arch: Arch,
    launch: SparseDecodeLaunchModel,
    b: int,
    i: int,
    h: int,
    e: int,
)
    requires
        tensors.launch_error(plan, d_v, pad_heads, arch) is None,
        tensors.prepares(plan, d_v, pad_heads, arch, launch),
    ensures
        ({
            let s = launch.strides;
            let n = launch.dims;
            let q = strides_of(launch.launched_q(tensors));
            let kv = strides_of(*tensors.kv_cache);
            let indices = strides_of(*tensors.indices);
            let lse_accum = strides_of(plan.lse_accum);
            let o_accum = strides_of(plan.o_accum);
            &&& b * s.q_b + i * s.q_s_q + h * s.q_h_q + e == b * q[0] + i * q[1] + h * q[2] + e
                * q[3]
            &&& b * s.kv_block + i * s.kv_row + e == b * kv[0] + i * kv[1] + e * kv[3]
            &&& b * s.indices_b + i * s.indices_s_q + e == b * indices[0] + i * indices[1] + e
                * indices[2]
            &&& b * s.out_b + i * s.out_s_q + h * s.out_h_q + e == ((b * n.s_q + i) * n.h_q + h)
                * n.d_v + e
            &&& b * s.lse_b + i * s.lse_s_q + h == (b * n.s_q + i) * n.h_q + h
            &&& b * s.lse_accum_split + i * s.lse_accum_s_q + h == b * lse_accum[0] + i
                * lse_accum[1] + h * lse_accum[2]
            &&& b * s.o_accum_split + i * s.o_accum_s_q + h * s.o_accum_h_q + e == b * o_accum[0]
                + i * o_accum[1] + h * o_accum[2] + e * o_accum[3]
        }),
        tensors.extra_kv_cache matches Some(t) ==> b * launch.strides.extra_kv_block + i
            * launch.strides.extra_kv_row + e == b * strides_of(*t)[0] + i * strides_of(*t)[1] + e
            * strides_of(*t)[3],
        tensors.extra_indices matches Some(t) ==> b * launch.strides.extra_indices_b + i
            * launch.strides.extra_indices_s_q + e == b * strides_of(*t)[0] + i * strides_of(*t)[1]
            + e * strides_of(*t)[2],
        tensors.extra_kv_cache is None ==> launch.strides.extra_kv_block == 0
            && launch.strides.extra_kv_row == 0,
        tensors.extra_indices is None ==> launch.strides.extra_indices_b == 0
            && launch.strides.extra_indices_s_q == 0,
        tensors.extra_kv_cache is Some <==> tensors.extra_indices is Some,
{
    accepted_tensors(tensors, d_v, pad_heads, arch);
    let n = launch.dims;
    row_major_steps(dims_of(launch.out), strides_of(launch.out));
    row_major_steps(dims_of(launch.lse), strides_of(launch.lse));
    steps_reach_the_position(n.s_q as int, n.h_q as int, n.d_v as int, b, i, h, e);
    if let Some(padded) = launch.q {
        assert(dims_of(padded).len() == 4);
        row_major_steps(dims_of(padded), strides_of(padded));
    }
    suitable_tensors(*tensors.q, plan.lse_accum, 3, DType::F32);
    suitable_tensors(*tensors.q, plan.o_accum, 4, DType::F32);
    assert(plan.model(*tensors.q).lse_accum.last_dim_contiguous());
    assert(plan.model(*tensors.q).o_accum.last_dim_contiguous());
}

/// The kernel writes each output element once: different indices of the output, and of the
/// log-sum-exp values, have different places.
pub proof fn output_places_are_disjoint(
    tensors: SparseDecodeTensors,
    plan: SparseDecodePlan,
    d_v: usize,
    pad_heads: bool,
    arch: Arch,
    launch: SparseDecodeLaunchModel,
    b: (int, int),
    i: (int, int),
    h: (int, int),
    e: (int, int),
)
    requires
        tensors.launch_error(plan, d_v, pad_heads, arch) is None,
        tensors.prepares(plan, d_v, pad_heads, arch, launch),
        0 <= i.0 < launch.dims.s_q && 0 <= i.1 < launch.dims.s_q,
        0 <= h.0 < launch.dims.h_q && 0 <= h.1 < launch.dims.h_q,
        0 <= e.0 < launch.dims.d_v && 0 <= e.1 < launch.dims.d_v,
    ensures
        ({
            let s = launch.strides;
            b.0 * s.out_b + i.0 * s.out_s_q + h.0 * s.out_h_q + e.0 == b.1 * s.out_b + i.1
                * s.out_s_q + h.1 * s.out_h_q + e.1 ==> b.0 == b.1 && i.0 == i.1 && h.0 == h.1
                && e.0 == e.1
        }),
        ({
            let s = launch.strides;
            b.0 * s.lse_b + i.0 * s.lse_s_q + h.0 == b.1 * s.lse_b + i.1 * s.lse_s_q + h.1 ==> b.0
                == b.1 && i.0 == i.1 && h.0 == h.1
        }),
{
    let s = launch.strides;
    let n = launch.dims;
    strides_lead_to_the_elements(
        tensors,
        plan,
        d_v,
        pad_heads,
        arch,
        launch,
        b.0,
        i.0,
        h.0,
        e.0,
    );
    strides_lead_to_the_elements(
        tensors,
        plan,
        d_v,
        pad_heads,
        arch,
        launch,
        b.1,
        i.1,
        h.1,
        e.1,
    );
    let x0 = (b.0 * n.s_q + i.0) * n.h_q + h.0;
    let x1 = (b.1 * n.s_q + i.1) * n.h_q + h.1;
    if b.0 * s.out_b + i.0 * s.out_s_q + h.0 * s.out_h_q + e.0 == b.1 * s.out_b + i.1 * s.out_s_q
        + h.1 * s.out_h_q + e.1 {
        counting_is_one_to_one(n.d_v as int, x0, e.0, x1, e.1);
    }
    if x0 == x1 {
        counting_is_one_to_one(
            n.h_q as int,
            b.0 * n.s_q + i.0,
            h.0,
            b.1 * n.s_q + i.1,
            h.1,
        );
        counting_is_one_to_one(n.s_q as int, b.0, i.0, b.1, i.1);
    }
}

/// The query that a prepared launch reads holds the given heads under their own numbers and zeros
/// under the others, and so does its attention sink. Without padding both are the given tensors.
pub proof fn launches_read_the_given_heads(
    tensors: SparseDecodeTensors,
    plan: SparseDecodePlan,
    d_v: usize,
    pad_heads: bool,
    arch: Arch,
    launch: SparseDecodeLaunchModel,
    b: int,
    i: int,
    h: int,
    e: int,
)
    requires
        tensors.launch_error(plan, d_v, pad_heads, arch) is None,
        tensors.prepares(plan, d_v, pad_heads, arch, launch),
        0 <= b < dims_of(*tensors.q)[0],
        0 <= i < dims_of(*tensors.q)[1],
        0 <= h < launch.dims.h_q,
        0 <= e < dims_of(*tensors.q)[3],
    ensures
        ({
            let q = dims_of(*tensors.q);
            let read = launch.launched_q(tensors);
            &&& dims_of(read) == seq![q[0], q[1], launch.dims.h_q, q[3]]
            &&& dtype_of(read) == DType::BF16
            &&& h < q[2] ==> elements_of(read)[((b * q[1] + i) * launch.dims.h_q + h) * q[3] + e]
                == elements_of(*tensors.q)[((b * q[1] + i) * q[2] + h) * q[3] + e]
            &&& h >= q[2] ==> elements_of(read)[((b * q[1] + i) * launch.dims.h_q + h) * q[3] + e]
                == 0
            &&& launch.dims.h_q == q[2] ==> read == *tensors.q
        }),
        launch.launched_sink(tensors) is Some <==> tensors.attn_sink is Some,
        tensors.attn_sink matches Some(sink) ==> {
            let read = *launch.launched_sink(tensors)->0;
            &&& dims_of(read) == seq![launch.dims.h_q]
            &&& dtype_of(read) == DType::F32
            &&& h < dims_of(*tensors.q)[2] ==> elements_of(read)[h] == elements_of(*sink)[h]
            &&& h >= dims_of(*tensors.q)[2] ==> elements_of(read)[h] == 0
            &&& launch.dims.h_q == dims_of(*tensors.q)[2] ==> read == *sink
        },
{
    accepted_tensors(tensors, d_v, pad_heads, arch);
    let q = dims_of(*tensors.q);
    let longer = seq![q[0], q[1], launch.dims.h_q, q[3]];
    positions_count_through(q, b, i, h, e);
    positions_count_through(longer, b, i, h, e);
    let index = seq![b, i, h, e];
    match launch.q {
        Some(padded) => {
            assert(dims_of(padded) == longer);
            assert(in_bounds(longer, index));
            assert(position(dims_of(padded), index) == position(longer, index));
            if h < q[2] {
                assert(in_bounds(q, index));
            }
        },
        None => {
            assert(q == longer);
        },
    }
    if let Some(sink) = tensors.attn_sink {
        let one = seq![h];
        reveal_with_fuel(position_upto, 2);
        let read = *launch.launched_sink(tensors)->0;
        assert(position(dims_of(*sink), one) == h);
        assert(position(dims_of(read), one) == h);
        assert(dims_of(read) == seq![launch.dims.h_q]);
        assert(in_bounds(dims_of(read), one));
        if h < q[2] {
            assert(in_bounds(dims_of(*sink), one));
        }
    }
}

/// The parameters of a prepared launch point at its tensors, each in its role: at the first element
/// of the launched query and sink, of the cache, the indices, the lengths, the outputs and the
/// workspaces, and nowhere for tensors that are not given. The dimensions, strides, options,
/// partitions and stream are those of the launch, its plan and its caller.
pub proof fn parameters_point_at_the_tensors(
    tensors: SparseDecodeTensors,
    plan: SparseDecodePlan,
    launch: SparseDecodeLaunchModel,
    config: SparseDecodeConfig,
    bases: SparseDecodeBases,
    stream: cudaStream_t,
)
    requires
        launch.pointers_error(tensors, plan, bases) is None,
    ensures
        ({
            let p = launch.params(tensors, plan, config, bases, stream);
            &&& p.q.addr == bases.q + start_offset_of(launch.launched_q(tensors)) * 2
            &&& p.kv.addr == bases.kv_cache + start_offset_of(*tensors.kv_cache)
            &&& p.indices.addr == bases.indices + start_offset_of(*tensors.indices) * 4
            &&& p.out.addr == bases.out + start_offset_of(launch.out) * 2
            &&& p.lse.addr == bases.lse + start_offset_of(launch.lse) * 4
            &&& p.lse_accum.addr == bases.lse_accum + start_offset_of(plan.lse_accum) * 4
            &&& p.o_accum.addr == bases.o_accum + start_offset_of(plan.o_accum) * 4
            &&& p.tile_scheduler_metadata.addr == bases.scheduler_metadata + start_offset_of(
                plan.scheduler_metadata,
            ) * 4
            &&& p.num_splits.addr == bases.num_splits + start_offset_of(plan.num_splits) * 4
            &&& p.topk_length.addr == (match tensors.topk_length {
                Some(t) => bases.topk_length + start_offset_of(*t) * 4,
                None => 0,
            })
            &&& p.attn_sink.addr == (match launch.launched_sink(tensors) {
                Some(t) => bases.attn_sink + start_offset_of(*t) * 4,
                None => 0,
            })
            &&& p.extra_kv.addr == (match tensors.extra_kv_cache {
                Some(t) => bases.extra_kv_cache + start_offset_of(*t),
                None => 0,
            })
            &&& p.extra_indices.addr == (match tensors.extra_indices {
                Some(t) => bases.extra_indices + start_offset_of(*t) * 4,
                None => 0,
            })
            &&& p.extra_topk_length.addr == (match tensors.extra_topk_length {
                Some(t) => bases.extra_topk_length + start_offset_of(*t) * 4,
                None => 0,
            })
            &&& p.dims == launch.dims
            &&& p.strides == launch.strides
            &&& p.config == config
            &&& p.num_sm_parts == plan.meta.num_sm_parts
            &&& p.stream == stream
        }),
        launch.q is None ==> launch.launched_q(tensors) == *tensors.q,
        launch.q matches Some(padded) ==> launch.launched_q(tensors) == padded,
        launch.attn_sink is None ==> launch.launched_sink(tensors) == tensors.attn_sink,
        launch.attn_sink matches Some(padded) ==> launch.launched_sink(tensors) == Some(&padded),
{
    pointers_lie_at_the_first_element(launch.launched_q(tensors), bases.q, 2, "q"@);
    pointers_lie_at_the_first_element(*tensors.kv_cache, bases.kv_cache, 1, "kv_cache"@);
    pointers_lie_at_the_first_element(*tensors.indices, bases.indices, 4, "indices"@);
    pointers_lie_at_the_first_element(launch.out, bases.out, 2, "out"@);
    pointers_lie_at_the_first_element(launch.lse, bases.lse, 4, "lse"@);
    pointers_lie_at_the_first_element(plan.lse_accum, bases.lse_accum, 4, "lse_accum"@);
    pointers_lie_at_the_first_element(plan.o_accum, bases.o_accum, 4, "o_accum"@);
    pointers_lie_at_the_first_element(
        plan.scheduler_metadata,
        bases.scheduler_metadata,
        4,
        "scheduler_metadata"@,
    );
    pointers_lie_at_the_first_element(plan.num_splits, bases.num_splits, 4, "num_splits"@);
    if let Some(t) = tensors.topk_length {
        pointers_lie_at_the_first_element(*t, bases.topk_length, 4, "topk_length"@);
    }
    if let Some(t) = launch.launched_sink(tensors) {
        pointers_lie_at_the_first_element(*t, bases.attn_sink, 4, "attn_sink"@);
    }
    if let Some(t) = tensors.extra_kv_cache {
        pointers_lie_at_the_first_element(*t, bases.extra_kv_cache, 1, "extra_kv_cache"@);
    }
    if let Some(t) = tensors.extra_indices {
        pointers_lie_at_the_first_element(*t, bases.extra_indices, 4, "extra_indices"@);
    }
    if let Some(t) = tensors.extra_topk_length {
        pointers_lie_at_the_first_element(*t, bases.extra_topk_length, 4, "extra_topk_length"@);
    }
}

/// What comes back of a finished launch: a BF16 output of the shape of the query with value-wide
/// heads and F32 log-sum-exp values head by head, both next to the query, which hold for each batch
/// entry, position and given head what the kernel wrote where the strides of the launch lead.
pub proof fn finished_launches_show_what_was_written(
    tensors: SparseDecodeTensors,
    plan: SparseDecodePlan,
    d_v: usize,
    pad_heads: bool,
    arch: Arch,
    launch: SparseDecodeLaunchModel,
    output: SparseDecodeOutput,
    b: int,
    i: int,
    h: int,
    e: int,
)
    requires
        tensors.launch_error(plan, d_v, pad_heads, arch) is None,
        tensors.prepares(plan, d_v, pad_heads, arch, launch),
        launch.finishes(output),
        0 <= b < dims_of(*tensors.q)[0],
        0 <= i < dims_of(*tensors.q)[1],
        0 <= h < dims_of(*tensors.q)[2],
        0 <= e < d_v,
    ensures
        ({
            let q = dims_of(*tensors.q);
            let s = launch.strides;
            &&& dims_of(output.out) == seq![q[0], q[1], q[2], d_v]
            &&& dims_of(output.lse) == seq![q[0], q[2], q[1]]
            &&& dtype_of(output.out) == DType::BF16
            &&& dtype_of(output.lse) == DType::F32
            &&& same_device_of(*tensors.q, output.out)
            &&& same_device_of(*tensors.q, output.lse)
            &&& start_offset_of(output.out) == 0 && start_offset_of(output.lse) == 0
            &&& strides_of(output.out) == strides_of(launch.out)
            &&& strides_of(output.lse)[0] == launch.dims.s_q * launch.dims.h_q && strides_of(
                output.lse,
            )[1] == 1 && strides_of(output.lse)[2] == launch.dims.h_q
            &&& elements_of(output.out)[((b * q[1] + i) * q[2] + h) * d_v + e] == elements_of(
                launch.out,
            )[b * s.out_b + i * s.out_s_q + h * s.out_h_q + e]
            &&& elements_of(output.lse)[(b * q[2] + h) * q[1] + i] == elements_of(launch.lse)[b
                * s.lse_b + i * s.lse_s_q + h]
        }),
{
    accepted_tensors(tensors, d_v, pad_heads, arch);
    strides_lead_to_the_elements(tensors, plan, d_v, pad_heads, arch, launch, b, i, h, e);
    let q = dims_of(*tensors.q);
    let n = launch.dims;
    let shown = seq![q[0], q[1], q[2], d_v];
    let written = dims_of(launch.out);
    assert(dims_of(output.out) == shown);
    positions_count_through(shown, b, i, h, e);
    positions_count_through(written, b, i, h, e);
    let index = seq![b, i, h, e];
    assert(in_bounds(shown, index));
    assert(elements_of(output.out)[position(shown, index)] == elements_of(launch.out)[position(
        written,
        index,
    )]);
    let dims = SparseDecodeDims { h_q: launch.h_q, ..n };
    assert(dims_of(output.lse) == seq![q[0], q[2], q[1]]);
    row_major_steps(dims_of(launch.lse), strides_of(launch.lse));
    positions_count_through(dims_of(output.lse), b, h, i, 0);
    positions_count_through(dims_of(launch.lse), b, i, h, 0);
    assert(elements_of(output.lse)[shown_lse_position(dims, b, h, i)] == elements_of(
        launch.lse,
    )[lse_position(n, b, i, h)]);
}

/// A launch is prepared if and only if its outputs, and its padded query where there is one, can be
/// addressed: two bytes for each output and query element and four for each log-sum-exp value.
pub proof fn launches_have_to_be_addressable(dims: SparseDecodeDims, h_q: usize)
    requires
        dims.shape_error() is None,
    ensures
        launch_fits(dims, h_q) <==> {
            let rows = dims.batch * dims.s_q * dims.h_q;
            &&& rows * dims.d_v * 2 <= isize::MAX
            &&& rows * 4 <= isize::MAX
            &&& dims.h_q != h_q ==> rows * dims.d_qk * 2 <= isize::MAX
        },
{
    shapes_fit_by_their_product(dims.batch, dims.s_q, dims.h_q, dims.d_v, 2);
    shapes_fit_by_their_product(dims.batch, dims.s_q, dims.h_q, dims.d_qk, 2);
    shapes_fit_by_their_product(dims.batch, dims.s_q, dims.h_q, 1, 4);
}

/// The strides of newly allocated workspaces lead, split by split, to the row-major number of a
/// query position and head: to one log-sum-exp value and to one value vector.
pub proof fn workspace_strides_count_through(
    tensors: SparseDecodeTensors,
    plan: SparseDecodePlan,
    d_v: usize,
    pad_heads: bool,
    arch: Arch,
    launch: SparseDecodeLaunchModel,
    split: int,
    i: int,
    h: int,
    e: int,
)
    requires
        tensors.launch_error(plan, d_v, pad_heads, arch) is None,
        tensors.prepares(plan, d_v, pad_heads, arch, launch),
        plan.meta.num_sm_parts > 1,
        plan.workspaces().made_for(*tensors.q, plan_shapes(plan.meta, launch.dims)),
    ensures
        ({
            let s = launch.strides;
            let n = launch.dims;
            &&& split * s.lse_accum_split + i * s.lse_accum_s_q + h == (split * n.s_q + i) * n.h_q
                + h
            &&& split * s.o_accum_split + i * s.o_accum_s_q + h * s.o_accum_h_q + e == ((split
                * n.s_q + i) * n.h_q + h) * n.d_v + e
        }),
{
    let n = launch.dims;
    row_major_steps(dims_of(plan.lse_accum), strides_of(plan.lse_accum));
    row_major_steps(dims_of(plan.o_accum), strides_of(plan.o_accum));
    steps_reach_the_position(n.s_q as int, n.h_q as int, n.d_v as int, split, i, h, e);
}

} // verus!
