//! Dense decode on Candle tensors.

use crate::candle_flashmla::error::failure;
use crate::candle_flashmla::error::from_flashmla;
use crate::candle_flashmla::error::invalid_arg;
use crate::candle_flashmla::error::lifted;
use crate::candle_flashmla::error::refused;
use crate::candle_flashmla::error::Error;
use crate::candle_flashmla::error::ErrorModel;
use crate::candle_flashmla::tensor::describe;
use crate::candle_flashmla::tensor::describe_optional;
use crate::candle_flashmla::tensor::model_of;
use crate::candle_flashmla::tensor::optional_model;
use crate::candle_flashmla::tensor::optional_model_of;
use crate::candle_flashmla::tensor::TensorDesc;
use crate::candle_flashmla::tensor::TensorModel;
use crate::candle_flashmla::tensor_api::DType;
use crate::dense_decode::DenseDecodeDims;
use crate::error::first;
use crate::text::decimal;
use crate::text::labelled;
use crate::text::number;
use candle_core::Tensor;
use vstd::prelude::*;
use vstd::string::StringExecFns;

verus! {

/// Descriptions of the tensors of a dense decode call. Planning needs no block table.
#[derive(Debug, PartialEq, Eq)]
pub struct DenseDecodeDescs {
    /// BF16 query shaped `[batch, s_q, h_q, d_qk]`.
    pub q: TensorDesc,
    /// BF16 KV cache shaped `[num_blocks, page_block_size, h_k, d_qk]`.
    pub k_cache: TensorDesc,
    /// I32 KV lengths shaped `[batch]`.
    pub seqlens_k: TensorDesc,
    /// I32 block table shaped `[batch, max_blocks]`.
    pub block_table: Option<TensorDesc>,
}

/// The mathematical value of a [`DenseDecodeDescs`].
pub struct DenseDecodeModel {
    pub q: TensorModel,
    pub k_cache: TensorModel,
    pub seqlens_k: TensorModel,
    pub block_table: Option<TensorModel>,
}

impl View for DenseDecodeDescs {
    type V = DenseDecodeModel;

    open spec fn view(&self) -> DenseDecodeModel {
        DenseDecodeModel {
            q: self.q@,
            k_cache: self.k_cache@,
            seqlens_k: self.seqlens_k@,
            block_table: optional_model(self.block_table),
        }
    }
}

impl DenseDecodeModel {
    /// The first of the three required tensors whose rank, layout, device or element type is not
    /// that of its role.
    pub open spec fn kinds_error(self) -> Option<ErrorModel> {
        first(self.q.rank_error(4, "q"@),
        first(self.k_cache.rank_error(4, "k_cache"@),
        first(self.seqlens_k.rank_error(1, "seqlens_k"@),
        first(self.q.last_dim_error("q"@),
        first(self.k_cache.last_dim_error("k_cache"@),
        first(self.seqlens_k.last_dim_error("seqlens_k"@),
        first(self.k_cache.device_error("k_cache"@),
        first(self.seqlens_k.device_error("seqlens_k"@),
        first(self.q.dtype_error(DType::BF16, "q"@),
        first(self.k_cache.dtype_error(DType::BF16, "k_cache"@),
            self.seqlens_k.dtype_error(DType::I32, "seqlens_k"@)))))))))))
    }

    /// Why the sizes of the required tensors do not agree, if they do not.
    pub open spec fn sizes_error(self) -> Option<ErrorModel> {
        if self.k_cache.size(3) != self.q.size(3) {
            refused(
                "k_cache d_qk ("@ + decimal(self.k_cache.size(3) as nat) + ") must match q d_qk ("@
                    + decimal(self.q.size(3) as nat) + ")"@,
            )
        } else {
            self.seqlens_k.length_error(self.q.size(0), "seqlens_k"@)
        }
    }

    /// The first constraint that the optional block table violates.
    pub open spec fn block_table_error(self) -> Option<ErrorModel> {
        match self.block_table {
            Some(table) => first(table.rank_error(2, "block_table"@),
                first(table.last_dim_error("block_table"@),
                first(table.device_error("block_table"@),
                first(table.dtype_error(DType::I32, "block_table"@),
                    if table.size(0) != self.q.size(0) {
                        refused(
                            "block_table batch must be "@ + decimal(self.q.size(0) as nat)
                                + ", got "@ + decimal(table.size(0) as nat),
                        )
                    } else if table.size(1) == 0 {
                        refused("block_table must have at least one block column"@)
                    } else {
                        None
                    })))),
            None => None,
        }
    }

    /// The dimensions of the decode call on these tensors.
    pub open spec fn dims(self, d_v: usize) -> DenseDecodeDims {
        DenseDecodeDims {
            batch: self.q.size(0),
            s_q: self.q.size(1),
            h_q: self.q.size(2),
            h_k: self.k_cache.size(2),
            d_qk: self.q.size(3),
            d_v,
            num_blocks: self.k_cache.size(0),
            page_block_size: self.k_cache.size(1),
        }
    }

    /// The first constraint of dense decode that these tensors violate.
    pub open spec fn error(self, d_v: usize) -> Option<ErrorModel> {
        first(self.kinds_error(),
        first(self.sizes_error(),
        first(self.block_table_error(),
            lifted(self.dims(d_v).shape_error()))))
    }

    /// Whether dense decode can run, or be planned, on these tensors.
    pub open spec fn accepted(self, d_v: usize) -> bool {
        &&& self.q.axes.len() == 4
        &&& self.q.last_dim_contiguous()
        &&& self.q.dtype == DType::BF16
        &&& self.k_cache.suits(4, DType::BF16)
        &&& self.seqlens_k.suits(1, DType::I32)
        &&& self.k_cache.size(3) == self.q.size(3)
        &&& self.seqlens_k.size(0) == self.q.size(0)
        &&& self.block_table matches Some(table) ==> table.suits(2, DType::I32) && table.size(0)
            == self.q.size(0) && table.size(1) > 0
        &&& self.dims(d_v).supported()
    }
}

impl DenseDecodeDescs {
    /// Ensures that the three required tensors have the rank, layout, device and element type of
    /// their roles.
    fn ensure_kinds(&self) -> (r: Result<(), Error>)
        ensures
            failure(r) == self@.kinds_error(),
    {
        self.q.ensure_rank(4, "q")?;
        self.k_cache.ensure_rank(4, "k_cache")?;
        self.seqlens_k.ensure_rank(1, "seqlens_k")?;
        self.q.ensure_last_dim_contiguous("q")?;
        self.k_cache.ensure_last_dim_contiguous("k_cache")?;
        self.seqlens_k.ensure_last_dim_contiguous("seqlens_k")?;
        self.k_cache.ensure_same_device("k_cache")?;
        self.seqlens_k.ensure_same_device("seqlens_k")?;
        self.q.ensure_dtype(DType::BF16, "q")?;
        self.k_cache.ensure_dtype(DType::BF16, "k_cache")?;
        self.seqlens_k.ensure_dtype(DType::I32, "seqlens_k")?;
        Ok(())
    }

    /// Ensures that the block table, where it is given, has a row for each batch entry.
    fn ensure_block_table(&self) -> (r: Result<(), Error>)
        requires
            self@.q.axes.len() == 4,
        ensures
            failure(r) == self@.block_table_error(),
    {
        if let Some(table) = &self.block_table {
            table.ensure_rank(2, "block_table")?;
            table.ensure_last_dim_contiguous("block_table")?;
            table.ensure_same_device("block_table")?;
            table.ensure_dtype(DType::I32, "block_table")?;
            let batch: usize = self.q.axes[0].size;
            let table_batch: usize = table.axes[0].size;
            if table_batch != batch {
                return invalid_arg(
                    labelled("block_table batch must be ", number(batch).as_str()).concat(
                        ", got ",
                    ).concat(number(table_batch).as_str()),
                );
            }
            if table.axes[1].size == 0 {
                return invalid_arg(
                    String::from_str("block_table must have at least one block column"),
                );
            }
        }
        Ok(())
    }

    /// Validates the tensors of a dense decode call and returns its dimensions.
    pub fn validate(&self, d_v: usize) -> (r: Result<DenseDecodeDims, Error>)
        ensures
            failure(r) == self@.error(d_v),
            r is Ok <==> self@.accepted(d_v),
            r matches Ok(dims) ==> dims == self@.dims(d_v),
    {
        self.ensure_kinds()?;
        let batch: usize = self.q.axes[0].size;
        let d_qk: usize = self.q.axes[3].size;
        let k_d_qk: usize = self.k_cache.axes[3].size;
        if k_d_qk != d_qk {
            return invalid_arg(
                labelled("k_cache d_qk (", number(k_d_qk).as_str()).concat(
                    ") must match q d_qk (",
                ).concat(number(d_qk).as_str()).concat(")"),
            );
        }
        self.seqlens_k.ensure_length(batch, "seqlens_k")?;
        self.ensure_block_table()?;
        let dims = DenseDecodeDims {
            batch,
            s_q: self.q.axes[1].size,
            h_q: self.q.axes[2].size,
            h_k: self.k_cache.axes[2].size,
            d_qk,
            d_v,
            num_blocks: self.k_cache.axes[0].size,
            page_block_size: self.k_cache.axes[1].size,
        };
        from_flashmla(dims.validate())?;
        Ok(dims)
    }
}

/// The tensors that planning and decoding share. Decoding takes a block table besides.
#[derive(Debug, Copy, Clone)]
pub struct DenseDecodeTensors<'a> {
    /// BF16 query shaped `[batch, s_q, h_q, d_qk]`.
    pub q: &'a Tensor,
    /// BF16 KV cache shaped `[num_blocks, page_block_size, h_k, d_qk]`.
    pub k_cache: &'a Tensor,
    /// I32 KV lengths shaped `[batch]`.
    pub seqlens_k: &'a Tensor,
}

impl<'a> DenseDecodeTensors<'a> {
    /// What validation reads of the tensors and of an optional block table.
    pub open spec fn model(self, block_table: Option<&Tensor>) -> DenseDecodeModel {
        DenseDecodeModel {
            q: model_of(*self.q, *self.q),
            k_cache: model_of(*self.q, *self.k_cache),
            seqlens_k: model_of(*self.q, *self.seqlens_k),
            block_table: optional_model_of(*self.q, block_table),
        }
    }

    /// Reads from the tensors and an optional block table what validation needs.
    pub fn describe(&self, block_table: Option<&Tensor>) -> (descs: DenseDecodeDescs)
        ensures
            descs@ == self.model(block_table),
    {
        DenseDecodeDescs {
            q: describe(self.q, self.q),
            k_cache: describe(self.q, self.k_cache),
            seqlens_k: describe(self.q, self.seqlens_k),
            block_table: describe_optional(self.q, block_table),
        }
    }

    /// Validates the tensors, and a block table where one is given, and returns the dimensions of
    /// the decode call.
    pub fn validate(&self, block_table: Option<&Tensor>, d_v: usize) -> (r: Result<
        DenseDecodeDims,
        Error,
    >)
        ensures
            failure(r) == self.model(block_table).error(d_v),
            r is Ok <==> self.model(block_table).accepted(d_v),
            r matches Ok(dims) ==> dims == self.model(block_table).dims(d_v),
    {
        self.describe(block_table).validate(d_v)
    }
}

/// The value of the descriptions of a call has each tensor in its role.
pub proof fn descriptions_are_taken_as_they_are(descs: DenseDecodeDescs)
    ensures
        descs@.q == descs.q@ && descs@.k_cache == descs.k_cache@ && descs@.seqlens_k
            == descs.seqlens_k@,
        descs.block_table matches Some(d) ==> descs@.block_table == Some(d@),
        descs.block_table is None ==> descs@.block_table is None,
{
}

} // verus!
