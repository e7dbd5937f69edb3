//! What sparse prefill does to tensors, from the tensors that go in to those that come out.

use crate::arch::Arch;
use crate::candle_flashmla::layout::in_bounds;
use crate::candle_flashmla::layout::position;
use crate::candle_flashmla::layout::position_upto;
use crate::candle_flashmla::layout::positions_count_through;
use crate::candle_flashmla::layout::row_major_steps;
use crate::candle_flashmla::layout::shapes_fit_by_their_product;
use crate::candle_flashmla::sparse_prefill::launch_fits;
use crate::candle_flashmla::sparse_prefill::SparsePrefillBases;
use crate::candle_flashmla::sparse_prefill::SparsePrefillLaunchModel;
use crate::candle_flashmla::sparse_prefill::SparsePrefillOutput;
use crate::candle_flashmla::sparse_prefill::SparsePrefillTensors;
use crate::candle_flashmla::tensor::accepted_vectors;
use crate::candle_flashmla::tensor::optional_vector;
use crate::candle_flashmla::tensor::pointers_lie_at_the_first_element;
use crate::candle_flashmla::tensor::suitable_tensors;
use crate::candle_flashmla::tensor_api::dims_of;
use crate::candle_flashmla::tensor_api::dtype_of;
use crate::candle_flashmla::tensor_api::elements_of;
use crate::candle_flashmla::tensor_api::same_device_of;
use crate::candle_flashmla::tensor_api::start_offset_of;
use crate::candle_flashmla::tensor_api::strides_of;
use crate::candle_flashmla::tensor_api::DType;
use crate::sparse_prefill::SparsePrefillConfig;
use crate::sparse_prefill::SparsePrefillDims;
use crate::sys::cudaStream_t;
use vstd::prelude::*;

verus! {

/// The dimensions of a prefill call are read off its tensors: positions, heads and key width off the
/// query, tokens and KV heads off the keys and values, and top-k off the indices.
pub proof fn dimensions_are_read_off_the_tensors(tensors: SparsePrefillTensors, d_v: usize)
    requires
        dims_of(*tensors.q).len() == 3,
        dims_of(*tensors.kv).len() == 3,
        dims_of(*tensors.indices).len() == 3,
    ensures
        ({
            let dims = tensors.model().dims(d_v);
            &&& dims.s_q == dims_of(*tensors.q)[0]
            &&& dims.h_q == dims_of(*tensors.q)[1]
            &&& dims.d_qk == dims_of(*tensors.q)[2]
            &&& dims.d_v == d_v
            &&& dims.s_kv == dims_of(*tensors.kv)[0]
            &&& dims.h_kv == dims_of(*tensors.kv)[1]
            &&& dims.topk == dims_of(*tensors.indices)[2]
        }),
{
}

/// A launch has the dimensions of its tensors, but for the head count, which is 64 on SM90 and 128
/// on SM100 where padding is asked for and there are fewer heads, unless there are 64 already.
pub proof fn launches_have_the_padded_dimensions(
    tensors: SparsePrefillTensors,
    d_v: usize,
    pad_heads: bool,
    arch: Arch,
)
    ensures
        ({
            let given = tensors.model().dims(d_v);
            let dims = tensors.model().padded_dims(d_v, pad_heads, arch);
            let h = given.h_q;
            &&& dims == SparsePrefillDims { h_q: dims.h_q, ..given }
            &&& !pad_heads || h == 0 || h == 64 || h >= 128 ==> dims.h_q == h
            &&& pad_heads && 0 < h < 64 && arch == Arch::Sm90a ==> dims.h_q == 64
            &&& pad_heads && 64 < h < 128 && arch == Arch::Sm90a ==> dims.h_q == h
            &&& pad_heads && 0 < h < 128 && h != 64 && arch == Arch::Sm100f ==> dims.h_q == 128
        }),
{
}

/// The tensors that are accepted: a BF16 query of three axes, BF16 keys and values of the same key
/// width, I32 indices for each query position and KV head, and optional vectors of the lengths of
/// their roles; everything next to the query with a last axis of unit steps.
pub proof fn accepted_tensors(tensors: SparsePrefillTensors)
    ensures
        tensors.model().error() is None <==> {
            let q = *tensors.q;
            let kv = *tensors.kv;
            let indices = *tensors.indices;
            &&& dims_of(q).len() == 3 && strides_of(q)[2] == 1 && dtype_of(q) == DType::BF16
            &&& dims_of(kv).len() == 3 && strides_of(kv)[2] == 1 && dtype_of(kv) == DType::BF16
            &&& same_device_of(q, kv) && dims_of(kv)[2] == dims_of(q)[2]
            &&& dims_of(indices).len() == 3 && strides_of(indices)[2] == 1
            &&& dtype_of(indices) == DType::I32 && same_device_of(q, indices)
            &&& dims_of(indices)[0] == dims_of(q)[0] && dims_of(indices)[1] == dims_of(kv)[1]
            &&& optional_vector(q, tensors.topk_length, DType::I32, dims_of(q)[0])
            &&& optional_vector(q, tensors.attn_sink, DType::F32, dims_of(q)[1])
        },
        tensors.model().accepted() <==> tensors.model().error() is None,
{
    let q = *tensors.q;
    accepted_vectors(q, tensors.topk_length, DType::I32, dims_of(q)[0]);
    accepted_vectors(q, tensors.attn_sink, DType::F32, dims_of(q)[1]);
    suitable_tensors(q, q, 3, DType::BF16);
    suitable_tensors(q, *tensors.kv, 3, DType::BF16);
    suitable_tensors(q, *tensors.indices, 3, DType::I32);
}

/// A launch is refused for its tensors first, and then for the padded dimensions on the
/// architecture.
pub proof fn accepted_on_the_architecture(
    tensors: SparsePrefillTensors,
    d_v: usize,
    pad_heads: bool,
    arch: Arch,
)
    ensures
        tensors.launch_error(d_v, pad_heads, arch) is None <==> tensors.model().error() is None
            && tensors.model().padded_dims(d_v, pad_heads, arch).arch_error(arch) is None,
        tensors.model().error() is Some ==> tensors.launch_error(d_v, pad_heads, arch)
            == tensors.model().error(),
{
}

/// The strides of a prepared launch lead to the elements of its tensors: from the first element of
/// the query, of the keys and values or of the indices, the strides that the kernel is given for an
/// index reach the element of that index. The outputs have no strides: they are row-major without
/// gaps.
pub proof fn strides_lead_to_the_elements(
    tensors: SparsePrefillTensors,
    d_v: usize,
    pad_heads: bool,
    arch: Arch,
    launch: SparsePrefillLaunchModel,
    i: int,
    h: int,
    e: int,
)
    requires
        tensors.launch_error(d_v, pad_heads, arch) is None,
        tensors.prepares(d_v, pad_heads, arch, launch),
    ensures
        ({
            let s = launch.strides;
            let q = strides_of(launch.launched_q(tensors));
            let kv = strides_of(*tensors.kv);
            let indices = strides_of(*tensors.indices);
            &&& i * s.q_s_q + h * s.q_h_q + e == i * q[0] + h * q[1] + e * q[2]
            &&& i * s.kv_s_kv + h * s.kv_h_kv + e == i * kv[0] + h * kv[1] + e * kv[2]
            &&& i * s.indices_s_q + h * s.indices_h_kv + e == i * indices[0] + h * indices[1] + e
                * indices[2]
        }),
        ({
            let n = launch.dims;
            let out = strides_of(launch.output.out);
            let max_logits = strides_of(launch.output.max_logits);
            let lse = strides_of(launch.output.lse);
            &&& i * out[0] + h * out[1] + e * out[2] == (i * n.h_q + h) * n.d_v + e
            &&& i * max_logits[0] + h * max_logits[1] == i * n.h_q + h
            &&& i * lse[0] + h * lse[1] == i * n.h_q + h
            &&& start_offset_of(launch.output.out) == 0
            &&& start_offset_of(launch.output.max_logits) == 0
            &&& start_offset_of(launch.output.lse) == 0
        }),
{
    accepted_tensors(tensors);
    let n = launch.dims;
    row_major_steps(dims_of(launch.output.out), strides_of(launch.output.out));
    row_major_steps(dims_of(launch.output.max_logits), strides_of(launch.output.max_logits));
    row_major_steps(dims_of(launch.output.lse), strides_of(launch.output.lse));
    if let Some(padded) = launch.q {
        assert(dims_of(padded).len() == 3);
        row_major_steps(dims_of(padded), strides_of(padded));
    }
    let (hq, dv) = (n.h_q as int, n.d_v as int);
    assert(i * (hq * dv) + h * dv + e == (i * hq + h) * dv + e) by (nonlinear_arith);
}

/// The query that a prepared launch reads holds the given heads under their own numbers and zeros
/// under the others, and so does its attention sink. Without padding both are the given tensors.
pub proof fn launches_read_the_given_heads(
    tensors: SparsePrefillTensors,
    d_v: usize,
    pad_heads: bool,
    arch: Arch,
    launch: SparsePrefillLaunchModel,
    i: int,
    h: int,
    e: int,
)
    requires
        tensors.launch_error(d_v, pad_heads, arch) is None,
        tensors.prepares(d_v, pad_heads, arch, launch),
        0 <= i < dims_of(*tensors.q)[0],
        0 <= h < launch.dims.h_q,
        0 <= e < dims_of(*tensors.q)[2],
    ensures
        ({
            let q = dims_of(*tensors.q);
            let read = launch.launched_q(tensors);
            &&& dims_of(read) == seq![q[0], launch.dims.h_q, q[2]]
            &&& dtype_of(read) == DType::BF16
            &&& h < q[1] ==> elements_of(read)[(i * launch.dims.h_q + h) * q[2] + e] == elements_of(
                *tensors.q,
            )[(i * q[1] + h) * q[2] + e]
            &&& h >= q[1] ==> elements_of(read)[(i * launch.dims.h_q + h) * q[2] + e] == 0
            &&& launch.dims.h_q == q[1] ==> read == *tensors.q
        }),
        launch.launched_sink(tensors) is Some <==> tensors.attn_sink is Some,
        tensors.attn_sink matches Some(sink) ==> {
            let read = *launch.launched_sink(tensors)->0;
            &&& dims_of(read) == seq![launch.dims.h_q]
            &&& dtype_of(read) == DType::F32
            &&& h < dims_of(*tensors.q)[1] ==> elements_of(read)[h] == elements_of(*sink)[h]
            &&& h >= dims_of(*tensors.q)[1] ==> elements_of(read)[h] == 0
            &&& launch.dims.h_q == dims_of(*tensors.q)[1] ==> read == *sink
        },
{
    accepted_tensors(tensors);
    let q = dims_of(*tensors.q);
    let longer = seq![q[0], launch.dims.h_q, q[2]];
    positions_count_through(q, i, h, e, 0);
    positions_count_through(longer, i, h, e, 0);
    let index = seq![i, h, e];
    match launch.q {
        Some(padded) => {
            assert(dims_of(padded) == longer);
            assert(in_bounds(longer, index));
            assert(position(dims_of(padded), index) == position(longer, index));
            if h < q[1] {
                assert(in_bounds(q, index));
            }
        },
        None => {
            assert(q == longer);
        },
    }
    if let Some(sink) = tensors.attn_sink {
        let one = seq![h];
        reveal_with_fuel(position_upto, 2);
        let read = *launch.launched_sink(tensors)->0;
        assert(position(dims_of(*sink), one) == h);
        assert(position(dims_of(read), one) == h);
        assert(dims_of(read) == seq![launch.dims.h_q]);
        assert(in_bounds(dims_of(read), one));
        if h < q[1] {
            assert(in_bounds(dims_of(*sink), one));
        }
    }
}

/// The parameters of a prepared launch point at its tensors, each in its role: at the first element
/// of the launched query and sink, of the keys and values, the indices, the lengths and the outputs,
/// and nowhere for tensors that are not given. The dimensions, strides, options, multiprocessors and
/// stream are those of the launch and its caller.
pub proof fn parameters_point_at_the_tensors(
    tensors: SparsePrefillTensors,
    launch: SparsePrefillLaunchModel,
    config: SparsePrefillConfig,
    bases: SparsePrefillBases,
    num_sm: usize,
    stream: cudaStream_t,
)
    requires
        launch.pointers_error(tensors, bases) is None,
    ensures
        ({
            let p = launch.params(tensors, config, bases, num_sm, stream);
            &&& p.q.addr == bases.q + start_offset_of(launch.launched_q(tensors)) * 2
            &&& p.kv.addr == bases.kv + start_offset_of(*tensors.kv) * 2
            &&& p.indices.addr == bases.indices + start_offset_of(*tensors.indices) * 4
            &&& p.out.addr == bases.out + start_offset_of(launch.output.out) * 2
            &&& p.max_logits.addr == bases.max_logits + start_offset_of(launch.output.max_logits)
                * 4
            &&& p.lse.addr == bases.lse + start_offset_of(launch.output.lse) * 4
            &&& p.topk_length.addr == (match tensors.topk_length {
                Some(t) => bases.topk_length + start_offset_of(*t) * 4,
                None => 0,
            })
            &&& p.attn_sink.addr == (match launch.launched_sink(tensors) {
                Some(t) => bases.attn_sink + start_offset_of(*t) * 4,
                None => 0,
            })
            &&& p.dims == launch.dims
            &&& p.strides == launch.strides
            &&& p.config == config
            &&& p.num_sm == num_sm
            &&& p.stream == stream
        }),
        launch.q is None ==> launch.launched_q(tensors) == *tensors.q,
        launch.q matches Some(padded) ==> launch.launched_q(tensors) == padded,
        launch.attn_sink is None ==> launch.launched_sink(tensors) == tensors.attn_sink,
        launch.attn_sink matches Some(padded) ==> launch.launched_sink(tensors) == Some(&padded),
{
    pointers_lie_at_the_first_element(launch.launched_q(tensors), bases.q, 2, "q"@);
    pointers_lie_at_the_first_element(*tensors.kv, bases.kv, 2, "kv"@);
    pointers_lie_at_the_first_element(*tensors.indices, bases.indices, 4, "indices"@);
    pointers_lie_at_the_first_element(launch.output.out, bases.out, 2, "out"@);
    pointers_lie_at_the_first_element(
        launch.output.max_logits,
        bases.max_logits,
        4,
        "max_logits"@,
    );
    pointers_lie_at_the_first_element(launch.output.lse, bases.lse, 4, "lse"@);
    if let Some(t) = tensors.topk_length {
        pointers_lie_at_the_first_element(*t, bases.topk_length, 4, "topk_length"@);
    }
    if let Some(t) = launch.launched_sink(tensors) {
        pointers_lie_at_the_first_element(*t, bases.attn_sink, 4, "attn_sink"@);
    }
}

/// What comes back of a finished launch: a BF16 output of value-wide heads and F32 max logits and
/// log-sum-exp values, one for each position and given head, all next to the query, which hold what
/// the kernel wrote for that position and head.
pub proof fn finished_launches_show_what_was_written(
    tensors: SparsePrefillTensors,
    d_v: usize,
    pad_heads: bool,
    arch: Arch,
    launch: SparsePrefillLaunchModel,
    output: SparsePrefillOutput,
    i: int,
    h: int,
    e: int,
)
    requires
        tensors.launch_error(d_v, pad_heads, arch) is None,
        tensors.prepares(d_v, pad_heads, arch, launch),
        launch.finishes(output),
        0 <= i < dims_of(*tensors.q)[0],
        0 <= h < dims_of(*tensors.q)[1],
        0 <= e < d_v,
    ensures
        ({
            let q = dims_of(*tensors.q);
            let n = launch.dims;
            &&& dims_of(output.out) == seq![q[0], q[1], d_v]
            &&& dims_of(output.max_logits) == seq![q[0], q[1]]
            &&& dims_of(output.lse) == seq![q[0], q[1]]
            &&& dtype_of(output.out) == DType::BF16
            &&& dtype_of(output.max_logits) == DType::F32
            &&& dtype_of(output.lse) == DType::F32
            &&& same_device_of(*tensors.q, output.out)
            &&& same_device_of(*tensors.q, output.max_logits)
            &&& same_device_of(*tensors.q, output.lse)
            &&& strides_of(output.out) == strides_of(launch.output.out)
            &&& strides_of(output.max_logits) == strides_of(launch.output.max_logits)
            &&& strides_of(output.lse) == strides_of(launch.output.lse)
            &&& start_offset_of(output.out) == 0 && start_offset_of(output.max_logits) == 0
                && start_offset_of(output.lse) == 0
            &&& elements_of(output.out)[(i * q[1] + h) * d_v + e] == elements_of(
                launch.output.out,
            )[(i * n.h_q + h) * n.d_v + e]
            &&& elements_of(output.max_logits)[i * q[1] + h] == elements_of(
                launch.output.max_logits,
            )[i * n.h_q + h]
            &&& elements_of(output.lse)[i * q[1] + h] == elements_of(launch.output.lse)[i * n.h_q
                + h]
        }),
{
    accepted_tensors(tensors);
    let q = dims_of(*tensors.q);
    let shown = dims_of(output.out);
    let shown_rows = dims_of(output.lse);
    let written = dims_of(launch.output.out);
    let written_rows = dims_of(launch.output.lse);
    assert(shown == seq![q[0], q[1], d_v]);
    assert(shown_rows == seq![q[0], q[1]]);
    positions_count_through(shown, i, h, e, 0);
    positions_count_through(written, i, h, e, 0);
    positions_count_through(shown_rows, i, h, 0, 0);
    positions_count_through(written_rows, i, h, 0, 0);
    let index = seq![i, h, e];
    let row = seq![i, h];
    assert(in_bounds(shown, index));
    assert(in_bounds(shown_rows, row));
    assert(elements_of(output.out)[position(shown, index)] == elements_of(
        launch.output.out,
    )[position(written, index)]);
    assert(elements_of(output.max_logits)[position(shown_rows, row)] == elements_of(
        launch.output.max_logits,
    )[position(written_rows, row)]);
    assert(elements_of(output.lse)[position(shown_rows, row)] == elements_of(
        launch.output.lse,
    )[position(written_rows, row)]);
}

/// A launch is prepared if and only if its outputs, and its padded query where there is one, can be
/// addressed: two bytes for each output and query element and four for each max logit and
/// log-sum-exp value.
pub proof fn launches_have_to_be_addressable(dims: SparsePrefillDims, h_q: usize)
    requires
        dims.shape_error() is None,
    ensures
        launch_fits(dims, h_q) <==> {
            let rows = dims.s_q * dims.h_q;
            &&& rows * dims.d_v * 2 <= isize::MAX
            &&& rows * 4 <= isize::MAX
            &&& dims.h_q != h_q ==> rows * dims.d_qk * 2 <= isize::MAX
        },
{
    shapes_fit_by_their_product(dims.s_q, dims.h_q, dims.d_v, 1, 2);
    shapes_fit_by_their_product(dims.s_q, dims.h_q, dims.d_qk, 1, 2);
    shapes_fit_by_their_product(dims.s_q, dims.h_q, 1, 1, 4);
}

} // verus!
