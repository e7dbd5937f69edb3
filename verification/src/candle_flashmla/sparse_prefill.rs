//! Sparse prefill on Candle tensors.

use crate::arch::Arch;
use crate::candle_flashmla::error::failure;
use crate::candle_flashmla::error::from_candle;
use crate::candle_flashmla::error::from_flashmla;
use crate::candle_flashmla::error::invalid_arg;
use crate::candle_flashmla::error::lifted;
use crate::candle_flashmla::error::refused;
use crate::candle_flashmla::error::Error;
use crate::candle_flashmla::error::ErrorModel;
use crate::candle_flashmla::layout::can_allocate;
use crate::candle_flashmla::layout::fits;
use crate::candle_flashmla::padding::full_heads;
use crate::candle_flashmla::padding::is_front;
use crate::candle_flashmla::padding::launched_heads;
use crate::candle_flashmla::padding::lemma_heads_fit;
use crate::candle_flashmla::padding::lemma_sink_fits;
use crate::candle_flashmla::padding::pad_axis;
use crate::candle_flashmla::padding::pad_sink;
use crate::candle_flashmla::padding::padded_heads;
use crate::candle_flashmla::padding::pads;
use crate::candle_flashmla::padding::slice_axis;
use crate::candle_flashmla::tensor::describe;
use crate::candle_flashmla::tensor::describe_optional;
use crate::candle_flashmla::tensor::ensure_vector;
use crate::candle_flashmla::tensor::ensure_vector_length;
use crate::candle_flashmla::tensor::model_of;
use crate::candle_flashmla::tensor::optional_model;
use crate::candle_flashmla::tensor::optional_model_of;
use crate::candle_flashmla::tensor::optional_ptr_f32;
use crate::candle_flashmla::tensor::optional_ptr_i32;
use crate::candle_flashmla::tensor::pointer_error;
use crate::candle_flashmla::tensor::pointer_to;
use crate::candle_flashmla::tensor::tensor_ptr_bf16;
use crate::candle_flashmla::tensor::tensor_ptr_f32;
use crate::candle_flashmla::tensor::tensor_ptr_i32;
use crate::candle_flashmla::tensor::vector_error;
use crate::candle_flashmla::tensor::vector_length_error;
use crate::candle_flashmla::tensor::vector_suits;
use crate::candle_flashmla::tensor::TensorDesc;
use crate::candle_flashmla::tensor::TensorModel;
use crate::candle_flashmla::tensor_api::dims_of;
use crate::candle_flashmla::tensor_api::is_fresh;
use crate::candle_flashmla::tensor_api::strides_of;
use crate::candle_flashmla::tensor_api::tensor_strides;
use crate::candle_flashmla::tensor_api::zeros;
use crate::candle_flashmla::tensor_api::DType;
use crate::candle_flashmla::tensor_api::ElementType;
use crate::error::first;
use crate::sparse_prefill::SparsePrefillConfig;
use crate::sparse_prefill::SparsePrefillDims;
use crate::sparse_prefill::SparsePrefillLaunchParams;
use crate::sparse_prefill::SparsePrefillStrides;
use crate::sys::cudaStream_t;
use crate::text::decimal;
use crate::text::labelled;
use crate::text::number;
use candle_core::Tensor;
use vstd::prelude::*;
use vstd::string::StringExecFns;

verus! {

/// Descriptions of the tensors of a sparse prefill call.
#[derive(Debug, PartialEq, Eq)]
pub struct SparsePrefillDescs {
    /// BF16 query shaped `[s_q, h_q, d_qk]`.
    pub q: TensorDesc,
    /// BF16 keys and values shaped `[s_kv, h_kv, d_qk]`.
    pub kv: TensorDesc,
    /// I32 sparse indices shaped `[s_q, h_kv, topk]`.
    pub indices: TensorDesc,
    /// I32 top-k lengths shaped `[s_q]`.
    pub topk_length: Option<TensorDesc>,
    /// F32 attention sink shaped `[h_q]`.
    pub attn_sink: Option<TensorDesc>,
}

/// The mathematical value of a [`SparsePrefillDescs`].
pub struct SparsePrefillModel {
    pub q: TensorModel,
    pub kv: TensorModel,
    pub indices: TensorModel,
    pub topk_length: Option<TensorModel>,
    pub attn_sink: Option<TensorModel>,
}

impl View for SparsePrefillDescs {
    type V = SparsePrefillModel;

    open spec fn view(&self) -> SparsePrefillModel {
        SparsePrefillModel {
            q: self.q@,
            kv: self.kv@,
            indices: self.indices@,
            topk_length: optional_model(self.topk_length),
            attn_sink: optional_model(self.attn_sink),
        }
    }
}

impl SparsePrefillModel {
    /// The first tensor whose rank, layout, device or element type is not that of its role.
    pub open spec fn kinds_error(self) -> Option<ErrorModel> {
        first(self.q.rank_error(3, "q"@),
        first(self.kv.rank_error(3, "kv"@),
        first(self.indices.rank_error(3, "indices"@),
        first(self.q.last_dim_error("q"@),
        first(self.kv.last_dim_error("kv"@),
        first(self.indices.last_dim_error("indices"@),
        first(self.kv.device_error("kv"@),
        first(self.indices.device_error("indices"@),
        first(self.q.dtype_error(DType::BF16, "q"@),
        first(self.kv.dtype_error(DType::BF16, "kv"@),
        first(self.indices.dtype_error(DType::I32, "indices"@),
        first(vector_error(self.topk_length, DType::I32, "topk_length"@),
            vector_error(self.attn_sink, DType::F32, "attn_sink"@)))))))))))))
    }

    /// Why the sizes of the required tensors do not agree, if they do not.
    pub open spec fn sizes_error(self) -> Option<ErrorModel> {
        if self.kv.size(2) != self.q.size(2) {
            refused(
                "kv d_qk ("@ + decimal(self.kv.size(2) as nat) + ") must match q d_qk ("@
                    + decimal(self.q.size(2) as nat) + ")"@,
            )
        } else if self.indices.size(0) != self.q.size(0) || self.indices.size(1) != self.kv.size(
            1,
        ) {
            refused(
                "indices shape must start with ["@ + decimal(self.q.size(0) as nat) + ", "@
                    + decimal(self.kv.size(1) as nat) + "], got ["@ + decimal(
                    self.indices.size(0) as nat,
                ) + ", "@ + decimal(self.indices.size(1) as nat) + "]"@,
            )
        } else {
            None
        }
    }

    /// The first constraint of sparse prefill, whatever the architecture, that these tensors
    /// violate.
    pub open spec fn error(self) -> Option<ErrorModel> {
        first(self.kinds_error(),
        first(self.sizes_error(),
        first(vector_length_error(self.topk_length, self.q.size(0), "topk_length"@),
            vector_length_error(self.attn_sink, self.q.size(1), "attn_sink"@))))
    }

    /// Whether these are tensors of a sparse prefill call, whatever its dimensions.
    pub open spec fn accepted(self) -> bool {
        &&& self.q.axes.len() == 3
        &&& self.q.last_dim_contiguous()
        &&& self.q.dtype == DType::BF16
        &&& self.kv.suits(3, DType::BF16)
        &&& self.indices.suits(3, DType::I32)
        &&& self.kv.size(2) == self.q.size(2)
        &&& self.indices.size(0) == self.q.size(0)
        &&& self.indices.size(1) == self.kv.size(1)
        &&& vector_suits(self.topk_length, DType::I32, self.q.size(0))
        &&& vector_suits(self.attn_sink, DType::F32, self.q.size(1))
    }

    /// The dimensions of the prefill call on these tensors.
    pub open spec fn dims(self, d_v: usize) -> SparsePrefillDims {
        SparsePrefillDims {
            s_q: self.q.size(0),
            s_kv: self.kv.size(0),
            h_q: self.q.size(1),
            h_kv: self.kv.size(1),
            d_qk: self.q.size(2),
            d_v,
            topk: self.indices.size(2),
        }
    }

    /// The dimensions of the launch on these tensors, with the query heads padded for `arch` where
    /// padding is asked for.
    pub open spec fn padded_dims(self, d_v: usize, pad_heads: bool, arch: Arch)
        -> SparsePrefillDims {
        SparsePrefillDims {
            h_q: padded_heads(self.q.size(1), pad_heads, arch),
            ..self.dims(d_v)
        }
    }
}

impl SparsePrefillDescs {
    /// Ensures that each tensor has the rank, layout, device and element type of its role.
    fn ensure_kinds(&self) -> (r: Result<(), Error>)
        ensures
            failure(r) == self@.kinds_error(),
    {
        self.q.ensure_rank(3, "q")?;
        self.kv.ensure_rank(3, "kv")?;
        self.indices.ensure_rank(3, "indices")?;
        self.q.ensure_last_dim_contiguous("q")?;
        self.kv.ensure_last_dim_contiguous("kv")?;
        self.indices.ensure_last_dim_contiguous("indices")?;
        self.kv.ensure_same_device("kv")?;
        self.indices.ensure_same_device("indices")?;
        self.q.ensure_dtype(DType::BF16, "q")?;
        self.kv.ensure_dtype(DType::BF16, "kv")?;
        self.indices.ensure_dtype(DType::I32, "indices")?;
        ensure_vector(&self.topk_length, DType::I32, "topk_length")?;
        ensure_vector(&self.attn_sink, DType::F32, "attn_sink")?;
        Ok(())
    }

    /// Validates the tensors of a sparse prefill call and returns its dimensions, which are
    /// checked once the architecture is known.
    pub fn validate(&self, d_v: usize) -> (r: Result<SparsePrefillDims, Error>)
        ensures
            failure(r) == self@.error(),
            r is Ok <==> self@.accepted(),
            r matches Ok(dims) ==> dims == self@.dims(d_v),
    {
        self.ensure_kinds()?;
        let s_q: usize = self.q.axes[0].size;
        let h_q: usize = self.q.axes[1].size;
        let d_qk: usize = self.q.axes[2].size;
        let s_kv: usize = self.kv.axes[0].size;
        let h_kv: usize = self.kv.axes[1].size;
        let kv_d_qk: usize = self.kv.axes[2].size;
        let indices_s_q: usize = self.indices.axes[0].size;
        let indices_h_kv: usize = self.indices.axes[1].size;
        if kv_d_qk != d_qk {
            return invalid_arg(
                labelled("kv d_qk (", number(kv_d_qk).as_str()).concat(
                    ") must match q d_qk (",
                ).concat(number(d_qk).as_str()).concat(")"),
            );
        }
        if indices_s_q != s_q || indices_h_kv != h_kv {
            return invalid_arg(
                labelled("indices shape must start with [", number(s_q).as_str()).concat(
                    ", ",
                ).concat(number(h_kv).as_str()).concat("], got [").concat(
                    number(indices_s_q).as_str(),
                ).concat(", ").concat(number(indices_h_kv).as_str()).concat("]"),
            );
        }
        ensure_vector_length(&self.topk_length, s_q, "topk_length")?;
        ensure_vector_length(&self.attn_sink, h_q, "attn_sink")?;
        Ok(
            SparsePrefillDims {
                s_q,
                s_kv,
                h_q,
                h_kv,
                d_qk,
                d_v,
                topk: self.indices.axes[2].size,
            },
        )
    }
}

/// The tensors of a sparse prefill call.
#[derive(Debug, Copy, Clone)]
pub struct SparsePrefillTensors<'a> {
    /// BF16 query shaped `[s_q, h_q, d_qk]`.
    pub q: &'a Tensor,
    /// BF16 keys and values shaped `[s_kv, h_kv, d_qk]`.
    pub kv: &'a Tensor,
    /// I32 sparse indices shaped `[s_q, h_kv, topk]`.
    pub indices: &'a Tensor,
    /// I32 top-k lengths shaped `[s_q]`.
    pub topk_length: Option<&'a Tensor>,
    /// F32 attention sink shaped `[h_q]`.
    pub attn_sink: Option<&'a Tensor>,
}

/// Output tensors returned by sparse prefill.
#[derive(Debug)]
pub struct SparsePrefillOutput {
    /// BF16 attention output shaped `[s_q, h_q, d_v]`.
    pub out: Tensor,
    /// F32 per-query/head max logits shaped `[s_q, h_q]`.
    pub max_logits: Tensor,
    /// F32 per-query/head log-sum-exp values shaped `[s_q, h_q]`.
    pub lse: Tensor,
}

/// Addresses of the storages of the tensors of a sparse prefill launch. The address of an absent
/// tensor is not read.
#[derive(Debug, Copy, Clone, PartialEq, Eq)]
pub struct SparsePrefillBases {
    /// Storage of the query.
    pub q: u64,
    /// Storage of the keys and values.
    pub kv: u64,
    /// Storage of the sparse indices.
    pub indices: u64,
    /// Storage of the optional attention sink.
    pub attn_sink: u64,
    /// Storage of the optional top-k lengths.
    pub topk_length: u64,
    /// Storage of the output.
    pub out: u64,
    /// Storage of the max-logits output.
    pub max_logits: u64,
    /// Storage of the LSE output.
    pub lse: u64,
}

/// The shape of the query.
pub open spec fn q_dims(dims: SparsePrefillDims) -> Seq<usize> {
    seq![dims.s_q, dims.h_q, dims.d_qk]
}

/// The shape of the output.
pub open spec fn out_dims(dims: SparsePrefillDims) -> Seq<usize> {
    seq![dims.s_q, dims.h_q, dims.d_v]
}

/// The shape of the max-logits and LSE outputs.
pub open spec fn row_dims(dims: SparsePrefillDims) -> Seq<usize> {
    seq![dims.s_q, dims.h_q]
}

/// Whether a launch of the given dimensions on a query of `h_q` heads can have its tensors: the
/// outputs can be allocated, and so can the padded query where there is one.
pub open spec fn launch_fits(dims: SparsePrefillDims, h_q: usize) -> bool {
    &&& fits(out_dims(dims), 2)
    &&& fits(row_dims(dims), 4)
    &&& dims.h_q != h_q ==> fits(q_dims(dims), 2)
}

/// A sparse prefill launch whose tensors were validated and padded and whose outputs were
/// allocated.
#[derive(Debug)]
pub struct SparsePrefillLaunch {
    dims: SparsePrefillDims,
    h_q: usize,
    strides: SparsePrefillStrides,
    q: Option<Tensor>,
    attn_sink: Option<Tensor>,
    output: SparsePrefillOutput,
}

/// The mathematical value of a [`SparsePrefillLaunch`].
pub struct SparsePrefillLaunchModel {
    /// The dimensions of the launch.
    pub dims: SparsePrefillDims,
    /// The number of query heads before padding.
    pub h_q: usize,
    pub strides: SparsePrefillStrides,
    /// The padded query, where the heads were padded.
    pub q: Option<Tensor>,
    /// The padded attention sink, where there is one and the heads were padded.
    pub attn_sink: Option<Tensor>,
    /// The tensors that the launch writes.
    pub output: SparsePrefillOutput,
}

impl View for SparsePrefillLaunch {
    type V = SparsePrefillLaunchModel;

    closed spec fn view(&self) -> SparsePrefillLaunchModel {
        SparsePrefillLaunchModel {
            dims: self.dims,
            h_q: self.h_q,
            strides: self.strides,
            q: self.q,
            attn_sink: self.attn_sink,
            output: self.output,
        }
    }
}

impl SparsePrefillLaunchModel {
    /// The outputs have the shapes of the launch, which has at least the heads of the query.
    pub open spec fn well_formed(self) -> bool {
        &&& self.h_q <= self.dims.h_q
        &&& dims_of(self.output.out) == out_dims(self.dims)
        &&& dims_of(self.output.max_logits) == row_dims(self.dims)
        &&& dims_of(self.output.lse) == row_dims(self.dims)
    }

    /// The query that the launch reads.
    pub open spec fn launched_q(self, tensors: SparsePrefillTensors) -> Tensor {
        match self.q {
            Some(padded) => padded,
            None => *tensors.q,
        }
    }

    /// The attention sink that the launch reads, if there is one.
    pub open spec fn launched_sink(self, tensors: SparsePrefillTensors) -> Option<&Tensor> {
        match self.attn_sink {
            Some(padded) => Some(&padded),
            None => tensors.attn_sink,
        }
    }

    /// Whether the launch reads the heads of the given tensors, followed by as many zeros as it
    /// takes to reach its head count.
    pub open spec fn pads_heads_of(self, tensors: SparsePrefillTensors) -> bool {
        &&& pads(self.q, *tensors.q, 1, self.dims.h_q)
        &&& match tensors.attn_sink {
            Some(sink) => pads(self.attn_sink, *sink, 0, self.dims.h_q),
            None => self.attn_sink is None,
        }
    }

    /// Whether `output` shows the outputs of this launch without the heads that padding added.
    pub open spec fn finishes(self, output: SparsePrefillOutput) -> bool {
        let dims = SparsePrefillDims { h_q: self.h_q, ..self.dims };
        &&& dims_of(output.out) == out_dims(dims)
        &&& dims_of(output.max_logits) == row_dims(dims)
        &&& dims_of(output.lse) == row_dims(dims)
        &&& is_front(output.out, self.output.out, 1, self.h_q)
        &&& is_front(output.max_logits, self.output.max_logits, 1, self.h_q)
        &&& is_front(output.lse, self.output.lse, 1, self.h_q)
        &&& self.h_q == self.dims.h_q ==> output == self.output
    }

    /// The first tensor of the launch that has no device address.
    pub open spec fn pointers_error(
        self,
        tensors: SparsePrefillTensors,
        bases: SparsePrefillBases,
    ) -> Option<ErrorModel> {
        first(pointer_error(Some(&self.launched_q(tensors)), bases.q, 2, "q"@),
        first(pointer_error(Some(tensors.kv), bases.kv, 2, "kv"@),
        first(pointer_error(Some(tensors.indices), bases.indices, 4, "indices"@),
        first(pointer_error(self.launched_sink(tensors), bases.attn_sink, 4, "attn_sink"@),
        first(pointer_error(tensors.topk_length, bases.topk_length, 4, "topk_length"@),
        first(pointer_error(Some(&self.output.out), bases.out, 2, "out"@),
        first(pointer_error(Some(&self.output.max_logits), bases.max_logits, 4, "max_logits"@),
            pointer_error(Some(&self.output.lse), bases.lse, 4, "lse"@))))))))
    }

    /// The parameters of the launch.
    pub open spec fn params(
        self,
        tensors: SparsePrefillTensors,
        config: SparsePrefillConfig,
        bases: SparsePrefillBases,
        num_sm: usize,
        stream: cudaStream_t,
    ) -> SparsePrefillLaunchParams {
        SparsePrefillLaunchParams {
            dims: self.dims,
            config,
            q: pointer_to(Some(&self.launched_q(tensors)), bases.q, 2),
            kv: pointer_to(Some(tensors.kv), bases.kv, 2),
            indices: pointer_to(Some(tensors.indices), bases.indices, 4),
            attn_sink: pointer_to(self.launched_sink(tensors), bases.attn_sink, 4),
            topk_length: pointer_to(tensors.topk_length, bases.topk_length, 4),
            strides: self.strides,
            out: pointer_to(Some(&self.output.out), bases.out, 2),
            max_logits: pointer_to(Some(&self.output.max_logits), bases.max_logits, 4),
            lse: pointer_to(Some(&self.output.lse), bases.lse, 4),
            num_sm,
            stream,
        }
    }
}

impl<'a> SparsePrefillTensors<'a> {
    /// What validation reads of the tensors.
    pub open spec fn model(self) -> SparsePrefillModel {
        SparsePrefillModel {
            q: model_of(*self.q, *self.q),
            kv: model_of(*self.q, *self.kv),
            indices: model_of(*self.q, *self.indices),
            topk_length: optional_model_of(*self.q, self.topk_length),
            attn_sink: optional_model_of(*self.q, self.attn_sink),
        }
    }

    /// The strides of a launch on these tensors that reads the query `q`.
    pub open spec fn launch_strides(self, q: Tensor) -> SparsePrefillStrides {
        SparsePrefillStrides {
            q_s_q: strides_of(q)[0],
            q_h_q: strides_of(q)[1],
            kv_s_kv: strides_of(*self.kv)[0],
            kv_h_kv: strides_of(*self.kv)[1],
            indices_s_q: strides_of(*self.indices)[0],
            indices_h_kv: strides_of(*self.indices)[1],
        }
    }

    /// The first reason why sparse prefill cannot run on these tensors on `arch`.
    pub open spec fn launch_error(self, d_v: usize, pad_heads: bool, arch: Arch) -> Option<
        ErrorModel,
    > {
        first(
            self.model().error(),
            lifted(self.model().padded_dims(d_v, pad_heads, arch).arch_error(arch)),
        )
    }

    /// Whether `launch` is a prepared launch on these tensors: it has their dimensions with the
    /// padded head count, reads their query with its heads padded, has new outputs on the device of
    /// the query, and the strides of the tensors that it reads.
    pub open spec fn prepares(
        self,
        d_v: usize,
        pad_heads: bool,
        arch: Arch,
        launch: SparsePrefillLaunchModel,
    ) -> bool {
        let dims = self.model().padded_dims(d_v, pad_heads, arch);
        &&& launch.dims == dims
        &&& launch.h_q == self.model().q.size(1)
        &&& launch.pads_heads_of(self)
        &&& launch.strides == self.launch_strides(launch.launched_q(self))
        &&& is_fresh(launch.output.out, *self.q, out_dims(dims), ElementType::BF16)
        &&& is_fresh(launch.output.max_logits, *self.q, row_dims(dims), ElementType::F32)
        &&& is_fresh(launch.output.lse, *self.q, row_dims(dims), ElementType::F32)
    }

    /// Reads from the tensors what validation needs.
    pub fn describe(&self) -> (descs: SparsePrefillDescs)
        ensures
            descs@ == self.model(),
    {
        SparsePrefillDescs {
            q: describe(self.q, self.q),
            kv: describe(self.q, self.kv),
            indices: describe(self.q, self.indices),
            topk_length: describe_optional(self.q, self.topk_length),
            attn_sink: describe_optional(self.q, self.attn_sink),
        }
    }

    /// Validates the tensors and returns the dimensions of the prefill call, which are checked
    /// once the architecture is known.
    pub fn validate(&self, d_v: usize) -> (r: Result<SparsePrefillDims, Error>)
        ensures
            failure(r) == self.model().error(),
            r is Ok <==> self.model().accepted(),
            r matches Ok(dims) ==> dims == self.model().dims(d_v),
    {
        self.describe().validate(d_v)
    }

    /// Collects the strides of a launch that reads the query `q`.
    fn strides(&self, q: &Tensor) -> (strides: SparsePrefillStrides)
        requires
            dims_of(*q).len() == 3,
            dims_of(*self.kv).len() == 3,
            dims_of(*self.indices).len() == 3,
        ensures
            strides == self.launch_strides(*q),
    {
        let q = tensor_strides(q);
        let kv = tensor_strides(self.kv);
        let indices = tensor_strides(self.indices);
        SparsePrefillStrides {
            q_s_q: q[0],
            q_h_q: q[1],
            kv_s_kv: kv[0],
            kv_h_kv: kv[1],
            indices_s_q: indices[0],
            indices_h_kv: indices[1],
        }
    }

    /// Validates the tensors for `arch`, pads the query heads to a head count of the kernels where
    /// that is asked for, allocates the outputs and collects the strides of a launch. The result is
    /// `None` when the outputs or the padded query are too large to be addressed.
    ///
    /// The outputs are zeroed: FlashMLA is expected to overwrite every element, so a zero that is
    /// left shows where a kernel did not write. Whether the device has the memory is for Candle to
    /// say: on accepted tensors only its own error can come back.
    pub fn prepare(&self, d_v: usize, pad_heads: bool, arch: Arch) -> (r: Result<
        Option<SparsePrefillLaunch>,
        Error,
    >)
        ensures
            self.launch_error(d_v, pad_heads, arch) is Some ==> failure(r) == self.launch_error(
                d_v,
                pad_heads,
                arch,
            ),
            self.launch_error(d_v, pad_heads, arch) is None ==> {
                let dims = self.model().padded_dims(d_v, pad_heads, arch);
                let h_q = self.model().q.size(1);
                match r {
                    Ok(Some(launch)) => {
                        launch_fits(dims, h_q) && self.prepares(d_v, pad_heads, arch, launch@)
                    },
                    Ok(None) => !launch_fits(dims, h_q),
                    Err(e) => launch_fits(dims, h_q) && e is Candle,
                }
            },
    {
        let given = self.validate(d_v)?;
        let h_q: usize = given.h_q;
        let dims = SparsePrefillDims { h_q: launched_heads(h_q, pad_heads, arch), ..given };
        from_flashmla(dims.validate_for_arch(arch))?;
        let q_shape = [dims.s_q, dims.h_q, dims.d_qk];
        let out_shape = [dims.s_q, dims.h_q, dims.d_v];
        let row_shape = [dims.s_q, dims.h_q];
        assert(q_shape@ == q_dims(dims));
        assert(out_shape@ == out_dims(dims));
        assert(row_shape@ == row_dims(dims));
        if !can_allocate(out_shape.as_slice(), 2) || !can_allocate(row_shape.as_slice(), 4) {
            return Ok(None);
        }
        if dims.h_q != h_q && !can_allocate(q_shape.as_slice(), 2) {
            return Ok(None);
        }
        proof {
            let model = self.model();
            assert(model.q.axes.len() == dims_of(*self.q).len());
            assert(model.kv.axes.len() == dims_of(*self.kv).len());
            assert(model.indices.axes.len() == dims_of(*self.indices).len());
            assert(model.q.axes[0].size == dims_of(*self.q)[0]);
            assert(model.q.axes[1].size == dims_of(*self.q)[1]);
            assert(model.q.axes[2].size == dims_of(*self.q)[2]);
            assert(dims_of(*self.q).update(1, dims.h_q) == q_dims(dims));
            lemma_sink_fits(dims.h_q);
            lemma_heads_fit(q_dims(dims), 1);
            if let Some(sink) = self.attn_sink {
                let axes = model_of(*self.q, *sink).axes;
                assert(axes.len() == dims_of(*sink).len());
                assert(axes[0].size == dims_of(*sink)[0]);
                assert(dims_of(*sink) == seq![h_q]);
            }
        }
        let q = pad_axis(self.q, 1, dims.h_q)?;
        let attn_sink = pad_sink(self.attn_sink, h_q, dims.h_q)?;
        let output = SparsePrefillOutput {
            out: from_candle(zeros(out_shape.as_slice(), ElementType::BF16, self.q))?,
            max_logits: from_candle(zeros(row_shape.as_slice(), ElementType::F32, self.q))?,
            lse: from_candle(zeros(row_shape.as_slice(), ElementType::F32, self.q))?,
        };
        let strides = match &q {
            Some(padded) => self.strides(padded),
            None => self.strides(self.q),
        };
        Ok(Some(SparsePrefillLaunch { dims, h_q, strides, q, attn_sink, output }))
    }
}

impl SparsePrefillLaunch {
    #[verifier::type_invariant]
    spec fn type_ok(self) -> bool {
        self@.well_formed()
    }

    /// The dimensions of the launch.
    pub fn dims(&self) -> (dims: SparsePrefillDims)
        ensures
            dims == self@.dims,
    {
        self.dims
    }

    /// The query that the launch reads.
    pub fn q<'b>(&'b self, tensors: &SparsePrefillTensors<'b>) -> (q: &'b Tensor)
        ensures
            *q == self@.launched_q(*tensors),
    {
        match &self.q {
            Some(padded) => padded,
            None => tensors.q,
        }
    }

    /// The attention sink that the launch reads, if there is one.
    pub fn attn_sink<'b>(&'b self, tensors: &SparsePrefillTensors<'b>) -> (sink: Option<&'b Tensor>)
        ensures
            sink == self@.launched_sink(*tensors),
    {
        match &self.attn_sink {
            Some(padded) => Some(padded),
            None => tensors.attn_sink,
        }
    }

    /// The tensors that the launch writes.
    pub fn output(&self) -> (output: &SparsePrefillOutput)
        ensures
            *output == self@.output,
    {
        &self.output
    }

    /// The parameters of the launch, for tensors whose storages are at the given addresses.
    pub fn params(
        &self,
        tensors: &SparsePrefillTensors,
        config: SparsePrefillConfig,
        bases: SparsePrefillBases,
        num_sm: usize,
        stream: cudaStream_t,
    ) -> (r: Result<SparsePrefillLaunchParams, Error>)
        ensures
            failure(r) == self@.pointers_error(*tensors, bases),
            r matches Ok(params) ==> params == self@.params(
                *tensors,
                config,
                bases,
                num_sm,
                stream,
            ),
    {
        Ok(
            SparsePrefillLaunchParams {
                dims: self.dims,
                config,
                q: tensor_ptr_bf16(self.q(tensors), bases.q, "q")?,
                kv: tensor_ptr_bf16(tensors.kv, bases.kv, "kv")?,
                indices: tensor_ptr_i32(tensors.indices, bases.indices, "indices")?,
                attn_sink: optional_ptr_f32(
                    self.attn_sink(tensors),
                    bases.attn_sink,
                    "attn_sink",
                )?,
                topk_length: optional_ptr_i32(
                    tensors.topk_length,
                    bases.topk_length,
                    "topk_length",
                )?,
                strides: self.strides,
                out: tensor_ptr_bf16(&self.output.out, bases.out, "out")?,
                max_logits: tensor_ptr_f32(
                    &self.output.max_logits,
                    bases.max_logits,
                    "max_logits",
                )?,
                lse: tensor_ptr_f32(&self.output.lse, bases.lse, "lse")?,
                num_sm,
                stream,
            },
        )
    }

    /// The output tensors of a finished launch, without the heads that padding added.
    pub fn finish(self) -> (r: Result<SparsePrefillOutput, Error>)
        ensures
            r matches Ok(output) && self@.finishes(output),
    {
        proof {
            use_type_invariant(&self);
        }
        let ghost dims = SparsePrefillDims { h_q: self@.h_q, ..self@.dims };
        let SparsePrefillLaunch { h_q, output, .. } = self;
        let out = slice_axis(output.out, 1, h_q)?;
        let max_logits = slice_axis(output.max_logits, 1, h_q)?;
        let lse = slice_axis(output.lse, 1, h_q)?;
        assert(dims_of(out) == out_dims(dims));
        assert(dims_of(max_logits) == row_dims(dims));
        assert(dims_of(lse) == row_dims(dims));
        Ok(SparsePrefillOutput { out, max_logits, lse })
    }
}

/// A launch on tensors accepted for `arch` passes the checks of the kernel layer for `arch` as soon
/// as its pointers and strides are usable and the device has a streaming multiprocessor.
pub proof fn prepared_launches_are_valid(
    tensors: SparsePrefillTensors,
    launch: SparsePrefillLaunchModel,
    config: SparsePrefillConfig,
    bases: SparsePrefillBases,
    num_sm: usize,
    stream: cudaStream_t,
    arch: Arch,
)
    requires
        tensors.launch_error(config.d_v, config.pad_heads, arch) is None,
        launch.dims == tensors.model().padded_dims(config.d_v, config.pad_heads, arch),
        launch.strides.valid(),
        launch.params(tensors, config, bases, num_sm, stream).has_pointers(),
        num_sm > 0,
    ensures
        launch.params(tensors, config, bases, num_sm, stream).valid(arch),
{
}

/// With padding, tensors of fewer heads than the architecture pads to are accepted wherever the
/// kernels take the same call with the full head count.
pub proof fn few_heads_are_accepted(tensors: SparsePrefillTensors, d_v: usize, arch: Arch)
    requires
        tensors.model().accepted(),
        0 < tensors.model().q.size(1) <= full_heads(arch),
        tensors.model().q.size(1) != 64,
        (SparsePrefillDims {
            h_q: full_heads(arch),
            ..tensors.model().dims(d_v)
        }).supported_on(arch),
    ensures
        tensors.launch_error(d_v, true, arch) is None,
        tensors.model().padded_dims(d_v, true, arch).h_q == full_heads(arch),
{
}

/// The value of the descriptions of a call has each tensor in its role.
pub proof fn descriptions_are_taken_as_they_are(descs: SparsePrefillDescs)
    ensures
        descs@.q == descs.q@ && descs@.kv == descs.kv@ && descs@.indices == descs.indices@,
        descs.topk_length matches Some(d) ==> descs@.topk_length == Some(d@),
        descs.attn_sink matches Some(d) ==> descs@.attn_sink == Some(d@),
        descs.topk_length is None ==> descs@.topk_length is None,
        descs.attn_sink is None ==> descs@.attn_sink is None,
{
}

} // verus!
