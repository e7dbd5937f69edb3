//! Sparse decode launches: outputs, strides and pointers.

use crate::arch::Arch;
use crate::candle_flashmla::error::failure;
use crate::candle_flashmla::error::from_candle;
use crate::candle_flashmla::error::Error;
use crate::candle_flashmla::error::ErrorModel;
use crate::candle_flashmla::layout::can_allocate;
use crate::candle_flashmla::layout::exchanged;
use crate::candle_flashmla::layout::fits;
use crate::candle_flashmla::layout::in_bounds;
use crate::candle_flashmla::layout::position;
use crate::candle_flashmla::padding::is_front;
use crate::candle_flashmla::padding::lemma_heads_fit;
use crate::candle_flashmla::padding::lemma_sink_fits;
use crate::candle_flashmla::padding::pad_axis;
use crate::candle_flashmla::padding::pad_sink;
use crate::candle_flashmla::padding::pads;
use crate::candle_flashmla::padding::slice_axis;
use crate::candle_flashmla::sparse_decode::SparseDecodeTensors;
use crate::candle_flashmla::sparse_decode_plan::meta_error;
use crate::candle_flashmla::sparse_decode_plan::new_workspaces_are_accepted;
use crate::candle_flashmla::sparse_decode_plan::plan_error;
use crate::candle_flashmla::sparse_decode_plan::plan_layout_error;
use crate::candle_flashmla::sparse_decode_plan::plan_shapes;
use crate::candle_flashmla::sparse_decode_plan::validate_plan_tensors;
use crate::candle_flashmla::sparse_decode_plan::SparseDecodePlan;
use crate::candle_flashmla::tensor::cache_pointer_error;
use crate::candle_flashmla::tensor::model_of;
use crate::candle_flashmla::tensor::optional_ptr_f32;
use crate::candle_flashmla::tensor::optional_ptr_i32;
use crate::candle_flashmla::tensor::optional_ptr_u8_or_f8;
use crate::candle_flashmla::tensor::pointer_error;
use crate::candle_flashmla::tensor::pointer_to;
use crate::candle_flashmla::tensor::tensor_ptr_bf16;
use crate::candle_flashmla::tensor::tensor_ptr_f32;
use crate::candle_flashmla::tensor::tensor_ptr_i32;
use crate::candle_flashmla::tensor::tensor_ptr_u8_or_f8;
use crate::candle_flashmla::tensor_api::dims_of;
use crate::candle_flashmla::tensor_api::dtype_of;
use crate::candle_flashmla::tensor_api::elements_of;
use crate::candle_flashmla::tensor_api::is_fresh;
use crate::candle_flashmla::tensor_api::same_device_of;
use crate::candle_flashmla::tensor_api::start_offset_of;
use crate::candle_flashmla::tensor_api::strides_of;
use crate::candle_flashmla::tensor_api::tensor_dims;
use crate::candle_flashmla::tensor_api::tensor_strides;
use crate::candle_flashmla::tensor_api::transpose;
use crate::candle_flashmla::tensor_api::zeros;
use crate::candle_flashmla::tensor_api::ElementType;
use crate::error::first;
use crate::sparse_decode::SparseDecodeConfig;
use crate::sparse_decode::SparseDecodeDims;
use crate::sparse_decode::SparseDecodeLaunchParams;
use crate::sparse_decode::SparseDecodeStrides;
use crate::sys::cudaStream_t;
use candle_core::Tensor;
use vstd::prelude::*;

verus! {

/// Output tensors returned by sparse decode.
#[derive(Debug)]
pub struct SparseDecodeOutput {
    /// BF16 attention output shaped `[batch, s_q, h_q, d_v]`.
    pub out: Tensor,
    /// F32 log-sum-exp values shaped `[batch, h_q, s_q]` to mirror upstream FlashMLA.
    pub lse: Tensor,
}

/// Addresses of the storages of the tensors of a sparse decode launch. The address of an absent
/// tensor is not read.
#[derive(Debug, Copy, Clone, PartialEq, Eq)]
pub struct SparseDecodeBases {
    /// Storage of the query.
    pub q: u64,
    /// Storage of the packed KV cache.
    pub kv_cache: u64,
    /// Storage of the sparse indices.
    pub indices: u64,
    /// Storage of the optional top-k lengths.
    pub topk_length: u64,
    /// Storage of the optional attention sink.
    pub attn_sink: u64,
    /// Storage of the output.
    pub out: u64,
    /// Storage of the LSE output.
    pub lse: u64,
    /// Storage of the optional extra KV cache.
    pub extra_kv_cache: u64,
    /// Storage of the optional extra sparse indices.
    pub extra_indices: u64,
    /// Storage of the optional extra top-k lengths.
    pub extra_topk_length: u64,
    /// Storage of the LSE accumulation workspace.
    pub lse_accum: u64,
    /// Storage of the output accumulation workspace.
    pub o_accum: u64,
    /// Storage of the scheduler metadata.
    pub scheduler_metadata: u64,
    /// Storage of the split offsets.
    pub num_splits: u64,
}

/// The shape of the query.
pub open spec fn q_dims(dims: SparseDecodeDims) -> Seq<usize> {
    seq![dims.batch, dims.s_q, dims.h_q, dims.d_qk]
}

/// The shape of the output.
pub open spec fn out_dims(dims: SparseDecodeDims) -> Seq<usize> {
    seq![dims.batch, dims.s_q, dims.h_q, dims.d_v]
}

/// The shape of the LSE output as the kernel writes it.
pub open spec fn lse_dims(dims: SparseDecodeDims) -> Seq<usize> {
    seq![dims.batch, dims.s_q, dims.h_q]
}

/// The shape of the LSE output as callers see it.
pub open spec fn shown_lse_dims(dims: SparseDecodeDims) -> Seq<usize> {
    seq![dims.batch, dims.h_q, dims.s_q]
}

/// The position of head `h` at query position `i` in the LSE output as the kernel writes it.
pub open spec fn lse_position(dims: SparseDecodeDims, b: int, i: int, h: int) -> int {
    position(lse_dims(dims), seq![b, i, h])
}

/// The position of head `h` at query position `i` in the LSE output as callers see it.
pub open spec fn shown_lse_position(dims: SparseDecodeDims, b: int, h: int, i: int) -> int {
    position(shown_lse_dims(dims), seq![b, h, i])
}

/// Whether `shown` holds, head by head, the LSE values of the first `h_q` heads of `written`, the
/// LSE output of a launch of the given dimensions.
pub open spec fn shows_lse(
    shown: Seq<int>,
    written: Seq<int>,
    dims: SparseDecodeDims,
    h_q: usize,
) -> bool {
    forall|b: int, h: int, i: int|
        0 <= b < dims.batch && 0 <= h < h_q && 0 <= i < dims.s_q
            ==> shown[#[trigger] shown_lse_position(SparseDecodeDims { h_q, ..dims }, b, h, i)]
            == written[lse_position(dims, b, i, h)]
}

/// Whether a launch of the given dimensions on a query of `h_q` heads can have its tensors: the
/// outputs can be allocated, and so can the padded query where there is one.
pub open spec fn launch_fits(dims: SparseDecodeDims, h_q: usize) -> bool {
    &&& fits(out_dims(dims), 2)
    &&& fits(lse_dims(dims), 4)
    &&& dims.h_q != h_q ==> fits(q_dims(dims), 2)
}

/// A sparse decode launch whose tensors were validated and padded and whose outputs were
/// allocated.
#[derive(Debug)]
pub struct SparseDecodeLaunch {
    dims: SparseDecodeDims,
    h_q: usize,
    strides: SparseDecodeStrides,
    q: Option<Tensor>,
    attn_sink: Option<Tensor>,
    out: Tensor,
    lse: Tensor,
}

/// The mathematical value of a [`SparseDecodeLaunch`].
pub struct SparseDecodeLaunchModel {
    /// The dimensions of the launch.
    pub dims: SparseDecodeDims,
    /// The number of query heads before padding.
    pub h_q: usize,
    pub strides: SparseDecodeStrides,
    /// The padded query, where the heads were padded.
    pub q: Option<Tensor>,
    /// The padded attention sink, where there is one and the heads were padded.
    pub attn_sink: Option<Tensor>,
    pub out: Tensor,
    pub lse: Tensor,
}

impl View for SparseDecodeLaunch {
    type V = SparseDecodeLaunchModel;

    closed spec fn view(&self) -> SparseDecodeLaunchModel {
        SparseDecodeLaunchModel {
            dims: self.dims,
            h_q: self.h_q,
            strides: self.strides,
            q: self.q,
            attn_sink: self.attn_sink,
            out: self.out,
            lse: self.lse,
        }
    }
}

impl SparseDecodeLaunchModel {
    /// The outputs have the shapes of the launch, which has at least the heads of the query.
    pub open spec fn well_formed(self) -> bool {
        &&& self.h_q <= self.dims.h_q
        &&& dims_of(self.out) == out_dims(self.dims)
        &&& dims_of(self.lse) == lse_dims(self.dims)
    }

    /// The query that the launch reads.
    pub open spec fn launched_q(self, tensors: SparseDecodeTensors) -> Tensor {
        match self.q {
            Some(padded) => padded,
            None => *tensors.q,
        }
    }

    /// The attention sink that the launch reads, if there is one.
    pub open spec fn launched_sink(self, tensors: SparseDecodeTensors) -> Option<&Tensor> {
        match self.attn_sink {
            Some(padded) => Some(&padded),
            None => tensors.attn_sink,
        }
    }

    /// Whether the launch reads the heads of the given tensors, followed by as many zeros as it
    /// takes to reach its head count.
    pub open spec fn pads_heads_of(self, tensors: SparseDecodeTensors) -> bool {
        &&& pads(self.q, *tensors.q, 2, self.dims.h_q)
        &&& match tensors.attn_sink {
            Some(sink) => pads(self.attn_sink, *sink, 0, self.dims.h_q),
            None => self.attn_sink is None,
        }
    }

    /// Whether `output` shows the outputs of this launch without the heads that padding added, and
    /// its log-sum-exp values head by head.
    pub open spec fn finishes(self, output: SparseDecodeOutput) -> bool {
        let dims = SparseDecodeDims { h_q: self.h_q, ..self.dims };
        &&& dims_of(output.out) == out_dims(dims)
        &&& is_front(output.out, self.out, 2, self.h_q)
        &&& self.h_q == self.dims.h_q ==> output.out == self.out
        &&& dims_of(output.lse) == shown_lse_dims(dims)
        &&& strides_of(output.lse) == exchanged(strides_of(self.lse), 1, 2)
        &&& shows_lse(elements_of(output.lse), elements_of(self.lse), self.dims, self.h_q)
        &&& dtype_of(output.lse) == dtype_of(self.lse)
        &&& start_offset_of(output.lse) == start_offset_of(self.lse)
        &&& forall|q: Tensor| #[trigger]
            same_device_of(q, output.lse) == same_device_of(q, self.lse)
    }

    /// The first tensor of the launch that has no device address.
    pub open spec fn pointers_error(
        self,
        tensors: SparseDecodeTensors,
        plan: SparseDecodePlan,
        bases: SparseDecodeBases,
    ) -> Option<ErrorModel> {
        first(pointer_error(Some(&self.launched_q(tensors)), bases.q, 2, "q"@),
        first(cache_pointer_error(Some(tensors.kv_cache), bases.kv_cache, "kv_cache"@),
        first(pointer_error(Some(tensors.indices), bases.indices, 4, "indices"@),
        first(pointer_error(tensors.topk_length, bases.topk_length, 4, "topk_length"@),
        first(pointer_error(self.launched_sink(tensors), bases.attn_sink, 4, "attn_sink"@),
        first(pointer_error(Some(&self.out), bases.out, 2, "out"@),
        first(pointer_error(Some(&self.lse), bases.lse, 4, "lse"@),
        first(cache_pointer_error(
            tensors.extra_kv_cache,
            bases.extra_kv_cache,
            "extra_kv_cache"@,
        ),
        first(pointer_error(tensors.extra_indices, bases.extra_indices, 4, "extra_indices"@),
        first(pointer_error(
            tensors.extra_topk_length,
            bases.extra_topk_length,
            4,
            "extra_topk_length"@,
        ),
        first(pointer_error(Some(&plan.lse_accum), bases.lse_accum, 4, "lse_accum"@),
        first(pointer_error(Some(&plan.o_accum), bases.o_accum, 4, "o_accum"@),
        first(pointer_error(
            Some(&plan.scheduler_metadata),
            bases.scheduler_metadata,
            4,
            "scheduler_metadata"@,
        ),
            pointer_error(Some(&plan.num_splits), bases.num_splits, 4, "num_splits"@))))))))))))))
    }

    /// The parameters of the launch.
    pub open spec fn params(
        self,
        tensors: SparseDecodeTensors,
        plan: SparseDecodePlan,
        config: SparseDecodeConfig,
        bases: SparseDecodeBases,
        stream: cudaStream_t,
    ) -> SparseDecodeLaunchParams {
        SparseDecodeLaunchParams {
            dims: self.dims,
            config,
            q: pointer_to(Some(&self.launched_q(tensors)), bases.q, 2),
            kv: pointer_to(Some(tensors.kv_cache), bases.kv_cache, 1),
            indices: pointer_to(Some(tensors.indices), bases.indices, 4),
            topk_length: pointer_to(tensors.topk_length, bases.topk_length, 4),
            attn_sink: pointer_to(self.launched_sink(tensors), bases.attn_sink, 4),
            out: pointer_to(Some(&self.out), bases.out, 2),
            lse: pointer_to(Some(&self.lse), bases.lse, 4),
            extra_kv: pointer_to(tensors.extra_kv_cache, bases.extra_kv_cache, 1),
            extra_indices: pointer_to(tensors.extra_indices, bases.extra_indices, 4),
            extra_topk_length: pointer_to(tensors.extra_topk_length, bases.extra_topk_length, 4),
            strides: self.strides,
            lse_accum: pointer_to(Some(&plan.lse_accum), bases.lse_accum, 4),
            o_accum: pointer_to(Some(&plan.o_accum), bases.o_accum, 4),
            tile_scheduler_metadata: pointer_to(
                Some(&plan.scheduler_metadata),
                bases.scheduler_metadata,
                4,
            ),
            num_splits: pointer_to(Some(&plan.num_splits), bases.num_splits, 4),
            num_sm_parts: plan.meta.num_sm_parts,
            stream,
        }
    }
}

impl<'a> SparseDecodeTensors<'a> {
    /// Whether both an extra cache and its indices are given.
    pub open spec fn has_extra_pair(self) -> bool {
        self.extra_kv_cache is Some && self.extra_indices is Some
    }

    /// The strides of a launch on these tensors that reads the query `q`, with the given plan and
    /// outputs. Those of the extra cache are zero without one.
    pub open spec fn launch_strides(
        self,
        q: Tensor,
        plan: SparseDecodePlan,
        out: Tensor,
        lse: Tensor,
    ) -> SparseDecodeStrides {
        let extra = self.has_extra_pair();
        SparseDecodeStrides {
            q_b: strides_of(q)[0],
            q_s_q: strides_of(q)[1],
            q_h_q: strides_of(q)[2],
            kv_block: strides_of(*self.kv_cache)[0],
            kv_row: strides_of(*self.kv_cache)[1],
            indices_b: strides_of(*self.indices)[0],
            indices_s_q: strides_of(*self.indices)[1],
            lse_b: strides_of(lse)[0],
            lse_s_q: strides_of(lse)[1],
            out_b: strides_of(out)[0],
            out_s_q: strides_of(out)[1],
            out_h_q: strides_of(out)[2],
            extra_kv_block: if extra { strides_of(*self.extra_kv_cache->0)[0] } else { 0 },
            extra_kv_row: if extra { strides_of(*self.extra_kv_cache->0)[1] } else { 0 },
            extra_indices_b: if extra { strides_of(*self.extra_indices->0)[0] } else { 0 },
            extra_indices_s_q: if extra { strides_of(*self.extra_indices->0)[1] } else { 0 },
            lse_accum_split: strides_of(plan.lse_accum)[0],
            lse_accum_s_q: strides_of(plan.lse_accum)[1],
            o_accum_split: strides_of(plan.o_accum)[0],
            o_accum_s_q: strides_of(plan.o_accum)[1],
            o_accum_h_q: strides_of(plan.o_accum)[2],
        }
    }

    /// The first reason why sparse decode cannot run on these tensors with the given plan, with the
    /// query heads padded for `arch` where that is asked for.
    pub open spec fn launch_error(
        self,
        plan: SparseDecodePlan,
        d_v: usize,
        pad_heads: bool,
        arch: Arch,
    ) -> Option<ErrorModel> {
        first(
            self.model().error(d_v, pad_heads, arch),
            plan_error(
                plan.model(*self.q),
                plan.meta,
                self.model().padded_dims(d_v, pad_heads, arch),
            ),
        )
    }

    /// Whether `launch` is a prepared launch on these tensors with the given plan: it has their
    /// dimensions with the padded head count, reads their query with its heads padded, has new
    /// outputs on the device of the query, and the strides of all of these.
    pub open spec fn prepares(
        self,
        plan: SparseDecodePlan,
        d_v: usize,
        pad_heads: bool,
        arch: Arch,
        launch: SparseDecodeLaunchModel,
    ) -> bool {
        let dims = self.model().padded_dims(d_v, pad_heads, arch);
        &&& launch.dims == dims
        &&& launch.h_q == self.model().q.size(2)
        &&& launch.pads_heads_of(self)
        &&& is_fresh(launch.out, *self.q, out_dims(dims), ElementType::BF16)
        &&& is_fresh(launch.lse, *self.q, lse_dims(dims), ElementType::F32)
        &&& launch.strides == self.launch_strides(
            launch.launched_q(self),
            plan,
            launch.out,
            launch.lse,
        )
    }

    /// Collects the strides of a launch that reads the query `q`.
    fn strides(&self, q: &Tensor, plan: &SparseDecodePlan, out: &Tensor, lse: &Tensor) -> (strides:
        SparseDecodeStrides)
        requires
            dims_of(*q).len() == 4,
            dims_of(*self.kv_cache).len() == 4,
            dims_of(*self.indices).len() == 3,
            self.has_extra_pair() ==> dims_of(*self.extra_kv_cache->0).len() == 4 && dims_of(
                *self.extra_indices->0,
            ).len() == 3,
            dims_of(plan.lse_accum).len() == 3,
            dims_of(plan.o_accum).len() == 4,
            dims_of(*out).len() == 4,
            dims_of(*lse).len() == 3,
        ensures
            strides == self.launch_strides(*q, *plan, *out, *lse),
    {
        let q = tensor_strides(q);
        let kv = tensor_strides(self.kv_cache);
        let indices = tensor_strides(self.indices);
        let lse = tensor_strides(lse);
        let out = tensor_strides(out);
        let lse_accum = tensor_strides(&plan.lse_accum);
        let o_accum = tensor_strides(&plan.o_accum);
        let (extra_kv_block, extra_kv_row, extra_indices_b, extra_indices_s_q) = match (
            self.extra_kv_cache,
            self.extra_indices,
        ) {
            (Some(extra_kv_cache), Some(extra_indices)) => {
                let extra_kv = tensor_strides(extra_kv_cache);
                let extra_idx = tensor_strides(extra_indices);
                (extra_kv[0], extra_kv[1], extra_idx[0], extra_idx[1])
            },
            _ => (0, 0, 0, 0),
        };
        SparseDecodeStrides {
            q_b: q[0],
            q_s_q: q[1],
            q_h_q: q[2],
            kv_block: kv[0],
            kv_row: kv[1],
            indices_b: indices[0],
            indices_s_q: indices[1],
            lse_b: lse[0],
            lse_s_q: lse[1],
            out_b: out[0],
            out_s_q: out[1],
            out_h_q: out[2],
            extra_kv_block,
            extra_kv_row,
            extra_indices_b,
            extra_indices_s_q,
            lse_accum_split: lse_accum[0],
            lse_accum_s_q: lse_accum[1],
            o_accum_split: o_accum[0],
            o_accum_s_q: o_accum[1],
            o_accum_h_q: o_accum[2],
        }
    }

    /// Validates the tensors and the plan, pads the query heads for `arch` where that is asked for,
    /// allocates the outputs and collects the strides of a launch. The result is `None` when the
    /// outputs or the padded query are too large to be addressed.
    ///
    /// The plan has to be one for the padded head count. Whether the device has the memory is for
    /// Candle to say: on accepted tensors only its own error can come back.
    pub fn prepare(&self, plan: &SparseDecodePlan, d_v: usize, pad_heads: bool, arch: Arch) -> (r:
        Result<Option<SparseDecodeLaunch>, Error>)
        requires
            self.model().error(d_v, pad_heads, arch) is None && plan_layout_error(
                plan.model(*self.q),
            ) is None ==> plan.meta.num_sm_parts > 0,
        ensures
            self.launch_error(*plan, d_v, pad_heads, arch) is Some ==> failure(r)
                == self.launch_error(*plan, d_v, pad_heads, arch),
            self.launch_error(*plan, d_v, pad_heads, arch) is None ==> {
                let dims = self.model().padded_dims(d_v, pad_heads, arch);
                let h_q = self.model().q.size(2);
                match r {
                    Ok(Some(launch)) => {
                        launch_fits(dims, h_q) && self.prepares(
                            *plan,
                            d_v,
                            pad_heads,
                            arch,
                            launch@,
                        )
                    },
                    Ok(None) => !launch_fits(dims, h_q),
                    Err(e) => launch_fits(dims, h_q) && e is Candle,
                }
            },
    {
        let dims = self.validate(d_v, pad_heads, arch)?;
        validate_plan_tensors(self.q, dims, plan)?;
        proof {
            let model = self.model();
            assert(model.q.axes.len() == dims_of(*self.q).len());
            assert(model.q.axes[0].size == dims_of(*self.q)[0]);
            assert(model.q.axes[1].size == dims_of(*self.q)[1]);
            assert(model.q.axes[2].size == dims_of(*self.q)[2]);
            assert(model.q.axes[3].size == dims_of(*self.q)[3]);
            assert(dims_of(*self.q).update(2, dims.h_q) == q_dims(dims));
            lemma_sink_fits(dims.h_q);
            lemma_heads_fit(q_dims(dims), 2);
            if let Some(sink) = self.attn_sink {
                let axes = model_of(*self.q, *sink).axes;
                assert(axes.len() == dims_of(*sink).len());
                assert(axes[0].size == dims_of(*sink)[0]);
                assert(dims_of(*sink) == seq![model.q.size(2)]);
            }
        }
        let h_q: usize = tensor_dims(self.q)[2];
        let q_shape = [dims.batch, dims.s_q, dims.h_q, dims.d_qk];
        let out_shape = [dims.batch, dims.s_q, dims.h_q, dims.d_v];
        let lse_shape = [dims.batch, dims.s_q, dims.h_q];
        assert(q_shape@ == q_dims(dims));
        assert(out_shape@ == out_dims(dims));
        assert(lse_shape@ == lse_dims(dims));
        if !can_allocate(out_shape.as_slice(), 2) || !can_allocate(lse_shape.as_slice(), 4) {
            return Ok(None);
        }
        if dims.h_q != h_q && !can_allocate(q_shape.as_slice(), 2) {
            return Ok(None);
        }
        let q = pad_axis(self.q, 2, dims.h_q)?;
        let attn_sink = pad_sink(self.attn_sink, h_q, dims.h_q)?;
        let out = from_candle(zeros(out_shape.as_slice(), ElementType::BF16, self.q))?;
        let lse = from_candle(zeros(lse_shape.as_slice(), ElementType::F32, self.q))?;
        proof {
            let model = self.model();
            assert(model.kv_cache.axes.len() == dims_of(*self.kv_cache).len());
            assert(model.indices.axes.len() == dims_of(*self.indices).len());
            if self.has_extra_pair() {
                assert(model.extra_kv_cache->0.axes.len() == dims_of(
                    *self.extra_kv_cache->0,
                ).len());
                assert(model.extra_indices->0.axes.len() == dims_of(*self.extra_indices->0).len());
            }
            let w = plan.model(*self.q);
            assert(w.lse_accum.axes.len() == dims_of(plan.lse_accum).len());
            assert(w.o_accum.axes.len() == dims_of(plan.o_accum).len());
        }
        let strides = match &q {
            Some(padded) => self.strides(padded, plan, &out, &lse),
            None => self.strides(self.q, plan, &out, &lse),
        };
        Ok(Some(SparseDecodeLaunch { dims, h_q, strides, q, attn_sink, out, lse }))
    }
}

impl SparseDecodeLaunch {
    #[verifier::type_invariant]
    spec fn type_ok(self) -> bool {
        self@.well_formed()
    }

    /// The dimensions of the launch.
    pub fn dims(&self) -> (dims: SparseDecodeDims)
        ensures
            dims == self@.dims,
    {
        self.dims
    }

    /// The query that the launch reads.
    pub fn q<'b>(&'b self, tensors: &SparseDecodeTensors<'b>) -> (q: &'b Tensor)
        ensures
            *q == self@.launched_q(*tensors),
    {
        match &self.q {
            Some(padded) => padded,
            None => tensors.q,
        }
    }

    /// The attention sink that the launch reads, if there is one.
    pub fn attn_sink<'b>(&'b self, tensors: &SparseDecodeTensors<'b>) -> (sink: Option<&'b Tensor>)
        ensures
            sink == self@.launched_sink(*tensors),
    {
        match &self.attn_sink {
            Some(padded) => Some(padded),
            None => tensors.attn_sink,
        }
    }

    /// The output that the launch writes.
    pub fn out(&self) -> (out: &Tensor)
        ensures
            *out == self@.out,
    {
        &self.out
    }

    /// The LSE output that the launch writes.
    pub fn lse(&self) -> (lse: &Tensor)
        ensures
            *lse == self@.lse,
    {
        &self.lse
    }

    /// The parameters of the launch, for tensors whose storages are at the given addresses.
    pub fn params(
        &self,
        tensors: &SparseDecodeTensors,
        plan: &SparseDecodePlan,
        config: SparseDecodeConfig,
        bases: SparseDecodeBases,
        stream: cudaStream_t,
    ) -> (r: Result<SparseDecodeLaunchParams, Error>)
        ensures
            failure(r) == self@.pointers_error(*tensors, *plan, bases),
            r matches Ok(params) ==> params == self@.params(
                *tensors,
                *plan,
                config,
                bases,
                stream,
            ),
    {
        Ok(
            SparseDecodeLaunchParams {
                dims: self.dims,
                config,
                q: tensor_ptr_bf16(self.q(tensors), bases.q, "q")?,
                kv: tensor_ptr_u8_or_f8(tensors.kv_cache, bases.kv_cache, "kv_cache")?,
                indices: tensor_ptr_i32(tensors.indices, bases.indices, "indices")?,
                topk_length: optional_ptr_i32(
                    tensors.topk_length,
                    bases.topk_length,
                    "topk_length",
                )?,
                attn_sink: optional_ptr_f32(
                    self.attn_sink(tensors),
                    bases.attn_sink,
                    "attn_sink",
                )?,
                out: tensor_ptr_bf16(&self.out, bases.out, "out")?,
                lse: tensor_ptr_f32(&self.lse, bases.lse, "lse")?,
                extra_kv: optional_ptr_u8_or_f8(
                    tensors.extra_kv_cache,
                    bases.extra_kv_cache,
                    "extra_kv_cache",
                )?,
                extra_indices: optional_ptr_i32(
                    tensors.extra_indices,
                    bases.extra_indices,
                    "extra_indices",
                )?,
                extra_topk_length: optional_ptr_i32(
                    tensors.extra_topk_length,
                    bases.extra_topk_length,
                    "extra_topk_length",
                )?,
                strides: self.strides,
                lse_accum: tensor_ptr_f32(&plan.lse_accum, bases.lse_accum, "lse_accum")?,
                o_accum: tensor_ptr_f32(&plan.o_accum, bases.o_accum, "o_accum")?,
                tile_scheduler_metadata: tensor_ptr_i32(
                    &plan.scheduler_metadata,
                    bases.scheduler_metadata,
                    "scheduler_metadata",
                )?,
                num_splits: tensor_ptr_i32(&plan.num_splits, bases.num_splits, "num_splits")?,
                num_sm_parts: plan.meta.num_sm_parts,
                stream,
            },
        )
    }

    /// The output tensors of a finished launch, without the heads that padding added. The
    /// log-sum-exp values are shown head by head: their last two axes change places.
    pub fn finish(self) -> (r: Result<SparseDecodeOutput, Error>)
        ensures
            r matches Ok(output) && self@.finishes(output),
    {
        proof {
            use_type_invariant(&self);
        }
        let ghost launched = self@.dims;
        let ghost dims = SparseDecodeDims { h_q: self@.h_q, ..self@.dims };
        let SparseDecodeLaunch { h_q, out, lse: written, .. } = self;
        let out = slice_axis(out, 2, h_q)?;
        assert(dims_of(out) == out_dims(dims));
        let turned = from_candle(transpose(&written, 1, 2))?;
        assert(dims_of(turned) == shown_lse_dims(launched));
        let ghost turned_elements = elements_of(turned);
        let lse = slice_axis(turned, 1, h_q)?;
        proof {
            assert(dims_of(lse) == shown_lse_dims(dims));
            let shown = elements_of(lse);
            let before = elements_of(written);
            assert forall|b: int, h: int, i: int|
                0 <= b < launched.batch && 0 <= h < h_q && 0 <= i
                    < launched.s_q implies shown[#[trigger] shown_lse_position(dims, b, h, i)]
                == before[lse_position(launched, b, i, h)] by {
                let index = seq![b, i, h];
                let turned_index = seq![b, h, i];
                assert(in_bounds(lse_dims(launched), index));
                assert(exchanged(index, 1, 2) == turned_index);
                assert(exchanged(lse_dims(launched), 1, 2) == shown_lse_dims(launched));
                assert(before[position(lse_dims(launched), index)] == turned_elements[position(
                    shown_lse_dims(launched),
                    turned_index,
                )]);
                assert(in_bounds(shown_lse_dims(dims), turned_index));
            }
        }
        Ok(SparseDecodeOutput { out, lse })
    }
}

/// A launch on accepted tensors passes the checks of the kernel layer as soon as its pointers and
/// strides are usable and an extra cache, where there is one, is not empty.
pub proof fn prepared_launches_are_valid(
    tensors: SparseDecodeTensors,
    plan: SparseDecodePlan,
    launch: SparseDecodeLaunchModel,
    config: SparseDecodeConfig,
    bases: SparseDecodeBases,
    stream: cudaStream_t,
    arch: Arch,
)
    requires
        tensors.model().accepted(config.d_v, config.pad_heads, arch),
        plan.meta.num_sm_parts > 0,
        launch.dims == tensors.model().padded_dims(config.d_v, config.pad_heads, arch),
        tensors.has_extra_pair() ==> launch.dims.has_extra_cache(),
        launch.strides.valid(launch.dims.has_extra_cache()),
        ({
            let params = launch.params(tensors, plan, config, bases, stream);
            &&& params.has_pointers()
            &&& tensors.has_extra_pair() ==> !params.extra_kv.is_null()
                && !params.extra_indices.is_null()
        }),
    ensures
        launch.params(tensors, plan, config, bases, stream).valid(),
{
}

/// A plan that was allocated for the padded dimensions of accepted tensors can be launched on them.
pub proof fn allocated_plans_can_be_launched(
    tensors: SparseDecodeTensors,
    plan: SparseDecodePlan,
    d_v: usize,
    pad_heads: bool,
    arch: Arch,
)
    requires
        tensors.model().accepted(d_v, pad_heads, arch),
        meta_error(
            plan.meta,
            plan.meta,
            tensors.model().padded_dims(d_v, pad_heads, arch),
        ) is None,
        plan.workspaces().made_for(
            *tensors.q,
            plan_shapes(plan.meta, tensors.model().padded_dims(d_v, pad_heads, arch)),
        ),
    ensures
        tensors.launch_error(plan, d_v, pad_heads, arch) is None,
{
    new_workspaces_are_accepted(
        *tensors.q,
        plan.workspaces(),
        plan.meta,
        tensors.model().padded_dims(d_v, pad_heads, arch),
    );
}

} // verus!
