//! Sparse decode on Candle tensors.

use crate::arch::Arch;
use crate::candle_flashmla::error::failure;
use crate::candle_flashmla::error::from_flashmla;
use crate::candle_flashmla::error::invalid_arg;
use crate::candle_flashmla::error::lifted;
use crate::candle_flashmla::error::refused;
use crate::candle_flashmla::error::Error;
use crate::candle_flashmla::error::ErrorModel;
use crate::candle_flashmla::padding::full_heads;
use crate::candle_flashmla::padding::launched_heads;
use crate::candle_flashmla::padding::padded_heads;
use crate::candle_flashmla::padding::padding_undecided;
use crate::candle_flashmla::tensor::describe;
use crate::candle_flashmla::tensor::describe_optional;
use crate::candle_flashmla::tensor::ensure_vector;
use crate::candle_flashmla::tensor::ensure_vector_length;
use crate::candle_flashmla::tensor::model_of;
use crate::candle_flashmla::tensor::optional_model;
use crate::candle_flashmla::tensor::optional_model_of;
use crate::candle_flashmla::tensor::vector_error;
use crate::candle_flashmla::tensor::vector_length_error;
use crate::candle_flashmla::tensor::vector_suits;
use crate::candle_flashmla::tensor::TensorDesc;
use crate::candle_flashmla::tensor::TensorModel;
use crate::candle_flashmla::tensor_api::DType;
use crate::error::first;
use crate::sparse_decode::SparseDecodeDims;
use crate::text::decimal;
use crate::text::labelled;
use crate::text::number;
use candle_core::Tensor;
use vstd::prelude::*;
use vstd::string::StringExecFns;

verus! {

/// Descriptions of the tensors of a sparse decode call.
#[derive(Debug, PartialEq, Eq)]
pub struct SparseDecodeDescs {
    /// BF16 query shaped `[batch, s_q, h_q, d_qk]`.
    pub q: TensorDesc,
    /// Packed FP8 KV cache shaped `[num_blocks, page_block_size, h_kv, bytes_per_token]`.
    pub kv_cache: TensorDesc,
    /// I32 sparse indices shaped `[batch, s_q, topk]`.
    pub indices: TensorDesc,
    /// I32 top-k lengths shaped `[batch]`.
    pub topk_length: Option<TensorDesc>,
    /// F32 attention sink shaped `[h_q]`.
    pub attn_sink: Option<TensorDesc>,
    /// Packed FP8 extra KV cache.
    pub extra_kv_cache: Option<TensorDesc>,
    /// I32 extra sparse indices shaped `[batch, s_q, extra_topk]`.
    pub extra_indices: Option<TensorDesc>,
    /// I32 extra top-k lengths shaped `[batch]`.
    pub extra_topk_length: Option<TensorDesc>,
}

/// The mathematical value of a [`SparseDecodeDescs`].
pub struct SparseDecodeModel {
    pub q: TensorModel,
    pub kv_cache: TensorModel,
    pub indices: TensorModel,
    pub topk_length: Option<TensorModel>,
    pub attn_sink: Option<TensorModel>,
    pub extra_kv_cache: Option<TensorModel>,
    pub extra_indices: Option<TensorModel>,
    pub extra_topk_length: Option<TensorModel>,
}

impl View for SparseDecodeDescs {
    type V = SparseDecodeModel;

    open spec fn view(&self) -> SparseDecodeModel {
        SparseDecodeModel {
            q: self.q@,
            kv_cache: self.kv_cache@,
            indices: self.indices@,
            topk_length: optional_model(self.topk_length),
            attn_sink: optional_model(self.attn_sink),
            extra_kv_cache: optional_model(self.extra_kv_cache),
            extra_indices: optional_model(self.extra_indices),
            extra_topk_length: optional_model(self.extra_topk_length),
        }
    }
}

impl SparseDecodeModel {
    /// The first of the three required tensors whose rank, layout, device or element type is not
    /// that of its role.
    pub open spec fn kinds_error(self) -> Option<ErrorModel> {
        first(self.q.rank_error(4, "q"@),
        first(self.kv_cache.rank_error(4, "kv_cache"@),
        first(self.indices.rank_error(3, "indices"@),
        first(self.q.last_dim_error("q"@),
        first(self.kv_cache.last_dim_error("kv_cache"@),
        first(self.indices.last_dim_error("indices"@),
        first(self.kv_cache.device_error("kv_cache"@),
        first(self.indices.device_error("indices"@),
        first(self.q.dtype_error(DType::BF16, "q"@),
        first(self.kv_cache.kv_dtype_error("kv_cache"@),
            self.indices.dtype_error(DType::I32, "indices"@)))))))))))
    }

    /// Whether the three required tensors have the rank, layout, device and element type of their
    /// roles.
    pub open spec fn kinds_suit(self) -> bool {
        &&& self.q.axes.len() == 4
        &&& self.q.last_dim_contiguous()
        &&& self.q.dtype == DType::BF16
        &&& self.kv_cache.axes.len() == 4
        &&& self.kv_cache.last_dim_contiguous()
        &&& self.kv_cache.same_device
        &&& self.kv_cache.dtype.holds_kv_cache()
        &&& self.indices.suits(3, DType::I32)
    }

    /// Why the tensor `name` does not hold indices for each query position, if it does not.
    pub open spec fn indices_error(self, t: TensorModel, name: Seq<char>, axis: Seq<char>) -> Option<
        ErrorModel,
    > {
        if t.size(0) == self.q.size(0) && t.size(1) == self.q.size(1) {
            None
        } else {
            refused(
                name + " must have shape ["@ + decimal(self.q.size(0) as nat) + ", "@ + decimal(
                    self.q.size(1) as nat,
                ) + ", "@ + axis + "], got ["@ + decimal(t.size(0) as nat) + ", "@ + decimal(
                    t.size(1) as nat,
                ) + ", "@ + decimal(t.size(2) as nat) + "]"@,
            )
        }
    }

    /// The first constraint that the extra cache `kv` and its indices `indices` violate.
    pub open spec fn extra_pair_error(self, kv: TensorModel, indices: TensorModel) -> Option<
        ErrorModel,
    > {
        first(kv.rank_error(4, "extra_kv_cache"@),
        first(indices.rank_error(3, "extra_indices"@),
        first(kv.last_dim_error("extra_kv_cache"@),
        first(indices.last_dim_error("extra_indices"@),
        first(kv.device_error("extra_kv_cache"@),
        first(indices.device_error("extra_indices"@),
        first(kv.kv_dtype_error("extra_kv_cache"@),
        first(indices.dtype_error(DType::I32, "extra_indices"@),
        first(self.extra_layout_error(kv),
        first(self.indices_error(indices, "extra_indices"@, "extra_topk"@),
        first(
            if self.q.size(3) == 576 {
                refused("V32 sparse decode does not support extra KV cache"@)
            } else {
                None
            },
        first(vector_error(self.extra_topk_length, DType::I32, "extra_topk_length"@),
            vector_length_error(
                self.extra_topk_length,
                self.q.size(0),
                "extra_topk_length"@,
            )))))))))))))
    }

    /// Why the extra cache `kv` is not laid out like the cache, if it is not.
    pub open spec fn extra_layout_error(self, kv: TensorModel) -> Option<ErrorModel> {
        let h_kv = self.kv_cache.size(2);
        let bytes = self.kv_cache.size(3);
        if kv.dtype != self.kv_cache.dtype {
            refused(
                "extra_kv_cache dtype must match kv_cache dtype "@ + self.kv_cache.dtype.text()
                    + ", got "@ + kv.dtype.text(),
            )
        } else if kv.size(2) != h_kv || kv.size(3) != bytes {
            refused(
                "extra_kv_cache must match h_kv="@ + decimal(h_kv as nat)
                    + " and bytes_per_token="@ + decimal(bytes as nat) + ", got h_kv="@ + decimal(
                    kv.size(2) as nat,
                ) + " bytes="@ + decimal(kv.size(3) as nat),
            )
        } else if kv.stride(1) != bytes {
            refused(
                "extra_kv_cache page rows must be contiguous with stride "@ + decimal(bytes as nat)
                    + ", got "@ + decimal(kv.stride(1) as nat),
            )
        } else {
            None
        }
    }

    /// The first constraint that the optional extra tensors violate.
    pub open spec fn extra_error(self) -> Option<ErrorModel> {
        match (self.extra_kv_cache, self.extra_indices) {
            (None, None) => if self.extra_topk_length is Some {
                refused("extra_topk_length requires extra_kv_cache and extra_indices"@)
            } else {
                None
            },
            (Some(kv), Some(indices)) => self.extra_pair_error(kv, indices),
            _ => refused("extra_kv_cache and extra_indices must be provided together"@),
        }
    }

    /// Whether the extra tensors are all absent, or an extra cache laid out like the cache comes
    /// with indices for each query position, to a query of a layout that supports it.
    pub open spec fn extra_suits(self) -> bool {
        match (self.extra_kv_cache, self.extra_indices) {
            (None, None) => self.extra_topk_length is None,
            (Some(kv), Some(indices)) => {
                &&& kv.axes.len() == 4
                &&& kv.last_dim_contiguous()
                &&& kv.same_device
                &&& kv.dtype.holds_kv_cache()
                &&& kv.dtype == self.kv_cache.dtype
                &&& kv.size(2) == self.kv_cache.size(2)
                &&& kv.size(3) == self.kv_cache.size(3)
                &&& kv.stride(1) == self.kv_cache.size(3)
                &&& indices.suits(3, DType::I32)
                &&& indices.size(0) == self.q.size(0)
                &&& indices.size(1) == self.q.size(1)
                &&& self.q.size(3) != 576
                &&& vector_suits(self.extra_topk_length, DType::I32, self.q.size(0))
            },
            _ => false,
        }
    }

    /// The number of pages, page size and top-k of the extra cache, which are zero without one.
    pub open spec fn extra_sizes(self) -> (usize, usize, usize) {
        match (self.extra_kv_cache, self.extra_indices) {
            (Some(kv), Some(indices)) => (kv.size(0), kv.size(1), indices.size(2)),
            _ => (0, 0, 0),
        }
    }

    /// The dimensions of the decode call on these tensors.
    pub open spec fn dims(self, d_v: usize) -> SparseDecodeDims {
        SparseDecodeDims {
            batch: self.q.size(0),
            s_q: self.q.size(1),
            h_q: self.q.size(2),
            h_kv: self.kv_cache.size(2),
            d_qk: self.q.size(3),
            d_v,
            num_blocks: self.kv_cache.size(0),
            page_block_size: self.kv_cache.size(1),
            topk: self.indices.size(2),
            extra_num_blocks: self.extra_sizes().0,
            extra_page_block_size: self.extra_sizes().1,
            extra_topk: self.extra_sizes().2,
        }
    }

    /// The dimensions of the launch on these tensors, with the query heads padded for `arch` where
    /// padding is asked for.
    pub open spec fn padded_dims(self, d_v: usize, pad_heads: bool, arch: Arch)
        -> SparseDecodeDims {
        SparseDecodeDims {
            h_q: padded_heads(self.q.size(2), pad_heads, arch),
            ..self.dims(d_v)
        }
    }

    /// Why the cache does not have the packed layout with `bytes` bytes per token that the query
    /// needs, if it does not.
    pub open spec fn cache_error(self, bytes: usize) -> Option<ErrorModel> {
        if self.kv_cache.size(3) != bytes {
            refused(
                "kv_cache last dim must be "@ + decimal(bytes as nat) + " bytes for d_qk="@
                    + decimal(self.q.size(3) as nat) + ", got "@ + decimal(
                    self.kv_cache.size(3) as nat,
                ),
            )
        } else if self.kv_cache.stride(1) != bytes {
            refused(
                "kv_cache page rows must be contiguous with stride "@ + decimal(bytes as nat)
                    + ", got "@ + decimal(self.kv_cache.stride(1) as nat),
            )
        } else if self.q.size(3) == 576 && self.topk_length is Some {
            refused("V32 sparse decode does not support topk_length"@)
        } else {
            None
        }
    }

    /// The first constraint on the tensors and how they go together that is violated, whatever the
    /// sizes that the kernels take.
    pub open spec fn inputs_error(self) -> Option<ErrorModel> {
        first(self.kinds_error(),
        first(self.indices_error(self.indices, "indices"@, "topk"@),
        first(vector_error(self.topk_length, DType::I32, "topk_length"@),
        first(vector_length_error(self.topk_length, self.q.size(0), "topk_length"@),
        first(vector_error(self.attn_sink, DType::F32, "attn_sink"@),
        first(vector_length_error(self.attn_sink, self.q.size(2), "attn_sink"@),
            self.extra_error()))))))
    }

    /// Whether these are tensors of a sparse decode call, whatever its dimensions.
    pub open spec fn inputs_suit(self) -> bool {
        &&& self.kinds_suit()
        &&& self.indices.size(0) == self.q.size(0)
        &&& self.indices.size(1) == self.q.size(1)
        &&& vector_suits(self.topk_length, DType::I32, self.q.size(0))
        &&& vector_suits(self.attn_sink, DType::F32, self.q.size(2))
        &&& self.extra_suits()
    }

    /// The first constraint of sparse decode on `arch`, up to the strides of cache blocks, that
    /// these tensors violate. The query heads are padded where that is asked for.
    pub open spec fn error(self, d_v: usize, pad_heads: bool, arch: Arch) -> Option<ErrorModel> {
        let dims = self.padded_dims(d_v, pad_heads, arch);
        first(self.inputs_error(),
        first(lifted(dims.shape_error()),
        first(lifted(dims.layout_error()),
            self.cache_error(dims.token_bytes()->0))))
    }

    /// Whether sparse decode can run on these tensors on `arch`, up to the strides of cache blocks.
    pub open spec fn accepted(self, d_v: usize, pad_heads: bool, arch: Arch) -> bool {
        let dims = self.padded_dims(d_v, pad_heads, arch);
        &&& self.inputs_suit()
        &&& dims.supported()
        &&& dims.token_bytes() == Some(self.kv_cache.size(3))
        &&& self.kv_cache.stride(1) == self.kv_cache.size(3)
        &&& dims.d_qk == 576 ==> self.topk_length is None
    }

    /// The first constraint that these tensors violate, as far as that can be said before the
    /// architecture is known: where only the architecture decides whether the head count can be
    /// padded, nothing is said of it and of what comes after it.
    pub open spec fn early_error(self, d_v: usize, pad_heads: bool) -> Option<ErrorModel> {
        if padding_undecided(self.q.size(2), pad_heads) {
            first(self.inputs_error(), lifted(self.dims(d_v).sizes_error()))
        } else {
            self.error(d_v, pad_heads, Arch::Sm90a)
        }
    }
}

/// The message that the indices `name` do not match the query.
fn indices_message(
    name: &str,
    axis: &str,
    batch: usize,
    s_q: usize,
    got: (usize, usize, usize),
) -> (message: String)
    ensures
        message@ == name@ + " must have shape ["@ + decimal(batch as nat) + ", "@ + decimal(
            s_q as nat,
        ) + ", "@ + axis@ + "], got ["@ + decimal(got.0 as nat) + ", "@ + decimal(got.1 as nat)
            + ", "@ + decimal(got.2 as nat) + "]"@,
{
    labelled(name, " must have shape [").concat(number(batch).as_str()).concat(", ").concat(
        number(s_q).as_str(),
    ).concat(", ").concat(axis).concat("], got [").concat(number(got.0).as_str()).concat(
        ", ",
    ).concat(number(got.1).as_str()).concat(", ").concat(number(got.2).as_str()).concat("]")
}

impl SparseDecodeDescs {
    /// Validates the optional extra cache, its indices and its top-k lengths, and returns the
    /// number of pages, page size and top-k of the extra cache.
    pub fn validate_extra(&self) -> (r: Result<(usize, usize, usize), Error>)
        requires
            self@.q.axes.len() == 4,
            self@.kv_cache.axes.len() == 4,
        ensures
            failure(r) == self@.extra_error(),
            r is Ok <==> self@.extra_suits(),
            r matches Ok(sizes) ==> sizes == self@.extra_sizes(),
    {
        match (&self.extra_kv_cache, &self.extra_indices) {
            (None, None) => {
                if self.extra_topk_length.is_some() {
                    return invalid_arg(
                        String::from_str(
                            "extra_topk_length requires extra_kv_cache and extra_indices",
                        ),
                    );
                }
                Ok((0, 0, 0))
            },
            (Some(kv), Some(indices)) => {
                kv.ensure_rank(4, "extra_kv_cache")?;
                indices.ensure_rank(3, "extra_indices")?;
                kv.ensure_last_dim_contiguous("extra_kv_cache")?;
                indices.ensure_last_dim_contiguous("extra_indices")?;
                kv.ensure_same_device("extra_kv_cache")?;
                indices.ensure_same_device("extra_indices")?;
                kv.ensure_kv_cache_dtype("extra_kv_cache")?;
                indices.ensure_dtype(DType::I32, "extra_indices")?;
                if kv.dtype != self.kv_cache.dtype {
                    return invalid_arg(
                        labelled(
                            "extra_kv_cache dtype must match kv_cache dtype ",
                            self.kv_cache.dtype.name(),
                        ).concat(", got ").concat(kv.dtype.name()),
                    );
                }
                let h_kv: usize = self.kv_cache.axes[2].size;
                let bytes: usize = self.kv_cache.axes[3].size;
                let extra_h_kv: usize = kv.axes[2].size;
                let extra_bytes: usize = kv.axes[3].size;
                if extra_h_kv != h_kv || extra_bytes != bytes {
                    return invalid_arg(
                        labelled("extra_kv_cache must match h_kv=", number(h_kv).as_str()).concat(
                            " and bytes_per_token=",
                        ).concat(number(bytes).as_str()).concat(", got h_kv=").concat(
                            number(extra_h_kv).as_str(),
                        ).concat(" bytes=").concat(number(extra_bytes).as_str()),
                    );
                }
                if kv.axes[1].stride != bytes {
                    return invalid_arg(
                        labelled(
                            "extra_kv_cache page rows must be contiguous with stride ",
                            number(bytes).as_str(),
                        ).concat(", got ").concat(number(kv.axes[1].stride).as_str()),
                    );
                }
                let batch: usize = self.q.axes[0].size;
                let s_q: usize = self.q.axes[1].size;
                let extra_topk: usize = indices.axes[2].size;
                if indices.axes[0].size != batch || indices.axes[1].size != s_q {
                    return invalid_arg(
                        indices_message(
                            "extra_indices",
                            "extra_topk",
                            batch,
                            s_q,
                            (indices.axes[0].size, indices.axes[1].size, extra_topk),
                        ),
                    );
                }
                if self.q.axes[3].size == 576 {
                    return invalid_arg(
                        String::from_str("V32 sparse decode does not support extra KV cache"),
                    );
                }
                ensure_vector(&self.extra_topk_length, DType::I32, "extra_topk_length")?;
                ensure_vector_length(&self.extra_topk_length, batch, "extra_topk_length")?;
                Ok((kv.axes[0].size, kv.axes[1].size, extra_topk))
            },
            _ => invalid_arg(
                String::from_str("extra_kv_cache and extra_indices must be provided together"),
            ),
        }
    }

    /// Ensures that the three required tensors have the rank, layout, device and element type of
    /// their roles.
    fn ensure_kinds(&self) -> (r: Result<(), Error>)
        ensures
            failure(r) == self@.kinds_error(),
            r is Ok <==> self@.kinds_suit(),
    {
        self.q.ensure_rank(4, "q")?;
        self.kv_cache.ensure_rank(4, "kv_cache")?;
        self.indices.ensure_rank(3, "indices")?;
        self.q.ensure_last_dim_contiguous("q")?;
        self.kv_cache.ensure_last_dim_contiguous("kv_cache")?;
        self.indices.ensure_last_dim_contiguous("indices")?;
        self.kv_cache.ensure_same_device("kv_cache")?;
        self.indices.ensure_same_device("indices")?;
        self.q.ensure_dtype(DType::BF16, "q")?;
        self.kv_cache.ensure_kv_cache_dtype("kv_cache")?;
        self.indices.ensure_dtype(DType::I32, "indices")?;
        Ok(())
    }

    /// Ensures that the cache has the packed layout with `bytes` bytes per token.
    fn ensure_cache(&self, bytes: usize) -> (r: Result<(), Error>)
        requires
            self@.q.axes.len() == 4,
            self@.kv_cache.axes.len() == 4,
        ensures
            failure(r) == self@.cache_error(bytes),
    {
        let d_qk: usize = self.q.axes[3].size;
        let bytes_per_token: usize = self.kv_cache.axes[3].size;
        let row_stride: usize = self.kv_cache.axes[1].stride;
        if bytes_per_token != bytes {
            return invalid_arg(
                labelled("kv_cache last dim must be ", number(bytes).as_str()).concat(
                    " bytes for d_qk=",
                ).concat(number(d_qk).as_str()).concat(", got ").concat(
                    number(bytes_per_token).as_str(),
                ),
            );
        }
        if row_stride != bytes {
            return invalid_arg(
                labelled(
                    "kv_cache page rows must be contiguous with stride ",
                    number(bytes).as_str(),
                ).concat(", got ").concat(number(row_stride).as_str()),
            );
        }
        if d_qk == 576 && self.topk_length.is_some() {
            return invalid_arg(String::from_str("V32 sparse decode does not support topk_length"));
        }
        Ok(())
    }

    /// Validates the tensors and how they go together, and returns the dimensions of the decode
    /// call, which are checked once its head count is known.
    fn validate_inputs(&self, d_v: usize) -> (r: Result<SparseDecodeDims, Error>)
        ensures
            failure(r) == self@.inputs_error(),
            r is Ok <==> self@.inputs_suit(),
            r matches Ok(dims) ==> dims == self@.dims(d_v),
    {
        self.ensure_kinds()?;
        let batch: usize = self.q.axes[0].size;
        let s_q: usize = self.q.axes[1].size;
        let h_q: usize = self.q.axes[2].size;
        let topk: usize = self.indices.axes[2].size;
        if self.indices.axes[0].size != batch || self.indices.axes[1].size != s_q {
            return invalid_arg(
                indices_message(
                    "indices",
                    "topk",
                    batch,
                    s_q,
                    (self.indices.axes[0].size, self.indices.axes[1].size, topk),
                ),
            );
        }
        ensure_vector(&self.topk_length, DType::I32, "topk_length")?;
        ensure_vector_length(&self.topk_length, batch, "topk_length")?;
        ensure_vector(&self.attn_sink, DType::F32, "attn_sink")?;
        ensure_vector_length(&self.attn_sink, h_q, "attn_sink")?;
        let extra = self.validate_extra()?;
        Ok(
            SparseDecodeDims {
                batch,
                s_q,
                h_q,
                h_kv: self.kv_cache.axes[2].size,
                d_qk: self.q.axes[3].size,
                d_v,
                num_blocks: self.kv_cache.axes[0].size,
                page_block_size: self.kv_cache.axes[1].size,
                topk,
                extra_num_blocks: extra.0,
                extra_page_block_size: extra.1,
                extra_topk: extra.2,
            },
        )
    }

    /// Validates the tensors of a sparse decode call and returns the dimensions of its launch. The
    /// query heads are padded for `arch` where that is asked for; nothing else here depends on it.
    pub fn validate(&self, d_v: usize, pad_heads: bool, arch: Arch) -> (r: Result<
        SparseDecodeDims,
        Error,
    >)
        ensures
            failure(r) == self@.error(d_v, pad_heads, arch),
            r is Ok <==> self@.accepted(d_v, pad_heads, arch),
            r matches Ok(dims) ==> dims == self@.padded_dims(d_v, pad_heads, arch),
    {
        let given = self.validate_inputs(d_v)?;
        let dims = SparseDecodeDims { h_q: launched_heads(given.h_q, pad_heads, arch), ..given };
        from_flashmla(dims.validate())?;
        let bytes: usize = from_flashmla(dims.kv_bytes_per_token())?;
        self.ensure_cache(bytes)?;
        Ok(dims)
    }

    /// Validates the tensors of a sparse decode call as far as that can be done before the
    /// architecture is known.
    pub fn validate_early(&self, d_v: usize, pad_heads: bool) -> (r: Result<(), Error>)
        ensures
            failure(r) == self@.early_error(d_v, pad_heads),
    {
        let given = self.validate_inputs(d_v)?;
        if pad_heads && 64 < given.h_q && given.h_q < 128 {
            return from_flashmla(given.validate_sizes());
        }
        match self.validate(d_v, pad_heads, Arch::Sm90a) {
            Ok(_) => Ok(()),
            Err(error) => Err(error),
        }
    }
}

/// The tensors of a sparse decode call.
#[derive(Debug, Copy, Clone)]
pub struct SparseDecodeTensors<'a> {
    /// BF16 query shaped `[batch, s_q, h_q, d_qk]`.
    pub q: &'a Tensor,
    /// Packed FP8 KV cache shaped `[num_blocks, page_block_size, h_kv, bytes_per_token]`.
    pub kv_cache: &'a Tensor,
    /// I32 sparse indices shaped `[batch, s_q, topk]`.
    pub indices: &'a Tensor,
    /// I32 top-k lengths shaped `[batch]`.
    pub topk_length: Option<&'a Tensor>,
    /// F32 attention sink shaped `[h_q]`.
    pub attn_sink: Option<&'a Tensor>,
    /// Packed FP8 extra KV cache.
    pub extra_kv_cache: Option<&'a Tensor>,
    /// I32 extra sparse indices shaped `[batch, s_q, extra_topk]`.
    pub extra_indices: Option<&'a Tensor>,
    /// I32 extra top-k lengths shaped `[batch]`.
    pub extra_topk_length: Option<&'a Tensor>,
}

impl<'a> SparseDecodeTensors<'a> {
    /// What validation reads of the tensors.
    pub open spec fn model(self) -> SparseDecodeModel {
        SparseDecodeModel {
            q: model_of(*self.q, *self.q),
            kv_cache: model_of(*self.q, *self.kv_cache),
            indices: model_of(*self.q, *self.indices),
            topk_length: optional_model_of(*self.q, self.topk_length),
            attn_sink: optional_model_of(*self.q, self.attn_sink),
            extra_kv_cache: optional_model_of(*self.q, self.extra_kv_cache),
            extra_indices: optional_model_of(*self.q, self.extra_indices),
            extra_topk_length: optional_model_of(*self.q, self.extra_topk_length),
        }
    }

    /// Reads from the tensors what validation needs.
    pub fn describe(&self) -> (descs: SparseDecodeDescs)
        ensures
            descs@ == self.model(),
    {
        SparseDecodeDescs {
            q: describe(self.q, self.q),
            kv_cache: describe(self.q, self.kv_cache),
            indices: describe(self.q, self.indices),
            topk_length: describe_optional(self.q, self.topk_length),
            attn_sink: describe_optional(self.q, self.attn_sink),
            extra_kv_cache: describe_optional(self.q, self.extra_kv_cache),
            extra_indices: describe_optional(self.q, self.extra_indices),
            extra_topk_length: describe_optional(self.q, self.extra_topk_length),
        }
    }

    /// Validates the tensors and returns the dimensions of the launch. The query heads are padded
    /// for `arch` where that is asked for; nothing else here depends on it.
    pub fn validate(&self, d_v: usize, pad_heads: bool, arch: Arch) -> (r: Result<
        SparseDecodeDims,
        Error,
    >)
        ensures
            failure(r) == self.model().error(d_v, pad_heads, arch),
            r is Ok <==> self.model().accepted(d_v, pad_heads, arch),
            r matches Ok(dims) ==> dims == self.model().padded_dims(d_v, pad_heads, arch),
    {
        self.describe().validate(d_v, pad_heads, arch)
    }

    /// Validates the tensors as far as that can be done before the architecture is known.
    pub fn validate_early(&self, d_v: usize, pad_heads: bool) -> (r: Result<(), Error>)
        ensures
            failure(r) == self.model().early_error(d_v, pad_heads),
    {
        self.describe().validate_early(d_v, pad_heads)
    }
}

/// An early error is the error on every architecture, and without one only an undecided head count
/// can lead to an error.
pub proof fn early_errors_are_the_errors(
    m: SparseDecodeModel,
    d_v: usize,
    pad_heads: bool,
    arch: Arch,
)
    ensures
        m.early_error(d_v, pad_heads) is Some ==> m.error(d_v, pad_heads, arch) == m.early_error(
            d_v,
            pad_heads,
        ),
        m.early_error(d_v, pad_heads) is None && !padding_undecided(m.q.size(2), pad_heads)
            ==> m.error(d_v, pad_heads, arch) is None,
{
}

/// With padding, tensors of fewer heads than the architecture pads to are accepted wherever the
/// same call with the full head count is one of the kernels and the other constraints hold.
pub proof fn few_heads_are_accepted(m: SparseDecodeModel, d_v: usize, arch: Arch)
    requires
        m.inputs_suit(),
        0 < m.q.size(2) <= full_heads(arch),
        m.q.size(2) != 64,
        (SparseDecodeDims { h_q: full_heads(arch), ..m.dims(d_v) }).supported(),
        m.dims(d_v).token_bytes() == Some(m.kv_cache.size(3)),
        m.kv_cache.stride(1) == m.kv_cache.size(3),
        m.q.size(3) == 576 ==> m.topk_length is None,
    ensures
        m.accepted(d_v, true, arch),
        m.padded_dims(d_v, true, arch).h_q == full_heads(arch),
{
}

/// What SM100 refuses, SM90 refuses too: SM100 pads the most head counts.
pub proof fn sm100_accepts_the_most_head_counts(m: SparseDecodeModel, d_v: usize, pad_heads: bool)
    ensures
        m.error(d_v, pad_heads, Arch::Sm100f) is Some ==> m.error(
            d_v,
            pad_heads,
            Arch::Sm90a,
        ) is Some,
{
}

/// The value of the descriptions of a call has each tensor in its role.
pub proof fn descriptions_are_taken_as_they_are(descs: SparseDecodeDescs)
    ensures
        descs@.q == descs.q@ && descs@.kv_cache == descs.kv_cache@ && descs@.indices
            == descs.indices@,
        descs.topk_length matches Some(d) ==> descs@.topk_length == Some(d@),
        descs.attn_sink matches Some(d) ==> descs@.attn_sink == Some(d@),
        descs.extra_kv_cache matches Some(d) ==> descs@.extra_kv_cache == Some(d@),
        descs.extra_indices matches Some(d) ==> descs@.extra_indices == Some(d@),
        descs.extra_topk_length matches Some(d) ==> descs@.extra_topk_length == Some(d@),
        descs.topk_length is None ==> descs@.topk_length is None,
        descs.attn_sink is None ==> descs@.attn_sink is None,
        descs.extra_kv_cache is None ==> descs@.extra_kv_cache is None,
        descs.extra_indices is None ==> descs@.extra_indices is None,
        descs.extra_topk_length is None ==> descs@.extra_topk_length is None,
{
}

} // verus!
