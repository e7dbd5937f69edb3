//! Sparse decode parameters, planning metadata and launch parameter blocks.

use crate::convert::checked_i32;
use crate::convert::checked_optional_stride;
use crate::convert::checked_stride;
use crate::convert::checked_usize;
use crate::convert::i32_error;
use crate::convert::is_stride;
use crate::convert::negative_error;
use crate::convert::optional_stride_error;
use crate::convert::stride_error;
use crate::error::call_error;
use crate::error::failure;
use crate::error::first;
use crate::error::invalid;
use crate::error::message_of;
use crate::error::status_error;
use crate::error::with_last_error;
use crate::error::Error;
use crate::error::ErrorModel;
use crate::sys::cudaStream_t;
use crate::sys::flashmla_sparse_decode_params_t;
use crate::sys::flashmla_sparse_decode_plan_params_t;
use crate::sys::flashmla_sparse_decode_plan_result_t;
use crate::sys::flashmla_status_t;
use crate::sys::DevicePtr;
use crate::text::decimal;
use crate::text::labelled;
use crate::text::number;
use vstd::prelude::*;
use vstd::string::StringExecFns;

verus! {

/// Runtime options for sparse decode.
#[derive(Debug, Copy, Clone, PartialEq, Eq)]
pub struct SparseDecodeConfig {
    /// IEEE 754 single-precision bits of the softmax scale applied to QK logits.
    pub softmax_scale_bits: u32,
    /// Value head dimension. FlashMLA sparse MLA currently requires `512`.
    pub d_v: usize,
    /// Whether higher-level integrations should pad query heads before launch.
    pub pad_heads: bool,
}

impl Default for SparseDecodeConfig {
    fn default() -> (config: SparseDecodeConfig)
        ensures
            config.softmax_scale_bits == 0x3f80_0000,
            config.d_v == 512,
            config.pad_heads,
    {
        SparseDecodeConfig { softmax_scale_bits: 0x3f80_0000, d_v: 512, pad_heads: true }
    }
}

/// Shape parameters for sparse decode.
#[derive(Debug, Copy, Clone, PartialEq, Eq)]
pub struct SparseDecodeDims {
    /// Batch size.
    pub batch: usize,
    /// Query sequence length.
    pub s_q: usize,
    /// Query head count after any required padding.
    pub h_q: usize,
    /// KV head count. Sparse MLA currently expects MQA-style `1`.
    pub h_kv: usize,
    /// Query/key head dimension. FlashMLA supports `512` and `576`.
    pub d_qk: usize,
    /// Value head dimension. FlashMLA sparse MLA currently requires `512`.
    pub d_v: usize,
    /// Number of pages in the packed KV cache.
    pub num_blocks: usize,
    /// Number of tokens in each packed KV cache page.
    pub page_block_size: usize,
    /// Number of sparse KV indices per query.
    pub topk: usize,
    /// Number of pages in the optional extra KV cache.
    pub extra_num_blocks: usize,
    /// Number of tokens in each optional extra KV cache page.
    pub extra_page_block_size: usize,
    /// Number of sparse extra KV indices per query.
    pub extra_topk: usize,
}

impl SparseDecodeDims {
    /// Whether an extra KV cache is part of the decode launch.
    pub open spec fn has_extra_cache_spec(self) -> bool {
        self.extra_num_blocks != 0 || self.extra_page_block_size != 0 || self.extra_topk != 0
    }

    /// Whether the sparse decode kernels support this shape. An extra cache is complete, and only
    /// the 512-wide layout can have one.
    pub open spec fn supported(self) -> bool {
        &&& self.batch > 0
        &&& self.s_q > 0
        &&& self.topk > 0
        &&& self.num_blocks > 0
        &&& self.page_block_size > 0
        &&& self.d_qk == 512 || self.d_qk == 576
        &&& self.d_v == 512
        &&& self.h_q == 64 || self.h_q == 128
        &&& self.h_kv == 1
        &&& self.topk % 64 == 0
        &&& self.has_extra_cache() ==> {
            &&& self.extra_num_blocks > 0
            &&& self.extra_page_block_size > 0
            &&& self.extra_topk > 0
            &&& self.d_qk == 512
        }
    }

    /// The first of the constraints that come before the head count which this shape violates.
    pub open spec fn sizes_error(self) -> Option<ErrorModel> {
        if self.batch == 0 || self.s_q == 0 || self.topk == 0 {
            invalid("batch, s_q, and topk must be non-zero"@)
        } else if self.num_blocks == 0 || self.page_block_size == 0 {
            invalid("num_blocks and page_block_size must be non-zero"@)
        } else if self.d_qk != 512 && self.d_qk != 576 {
            invalid("d_qk must be 512 or 576, got "@ + decimal(self.d_qk as nat))
        } else if self.d_v != 512 {
            invalid("d_v must be 512, got "@ + decimal(self.d_v as nat))
        } else {
            None
        }
    }

    /// The first constraint that this shape violates.
    pub open spec fn shape_error(self) -> Option<ErrorModel> {
        if self.sizes_error() is Some {
            self.sizes_error()
        } else if self.h_q != 64 && self.h_q != 128 {
            invalid("h_q must be padded to 64 or 128, got "@ + decimal(self.h_q as nat))
        } else if self.h_kv != 1 {
            invalid("h_kv must be 1 for sparse MLA, got "@ + decimal(self.h_kv as nat))
        } else if self.topk % 64 != 0 {
            invalid(
                "SM90 sparse decode requires topk to be a multiple of 64, got "@ + decimal(
                    self.topk as nat,
                ),
            )
        } else if self.has_extra_cache() && (self.extra_num_blocks == 0
            || self.extra_page_block_size == 0 || self.extra_topk == 0) {
            invalid(
                "extra KV cache requires non-zero extra_num_blocks, extra_page_block_size, and extra_topk"@,
            )
        } else if self.has_extra_cache() && self.d_qk == 576 {
            invalid("V32 sparse decode does not support extra KV cache"@)
        } else {
            None
        }
    }

    /// The packed FP8 KV-cache bytes per token, for the head dimensions that have a layout.
    pub open spec fn token_bytes(self) -> Option<usize> {
        if self.d_qk == 576 && self.d_v == 512 {
            Some(656)
        } else if self.d_qk == 512 && self.d_v == 512 {
            Some(584)
        } else {
            None
        }
    }

    /// Why there is no packed KV-cache layout for this shape, if there is none.
    pub open spec fn layout_error(self) -> Option<ErrorModel> {
        if self.token_bytes() is Some {
            None
        } else {
            invalid(
                "unsupported sparse decode KV layout for d_qk="@ + decimal(self.d_qk as nat)
                    + " d_v="@ + decimal(self.d_v as nat),
            )
        }
    }

    /// Validates the constraints that come before the head count.
    pub(crate) fn validate_sizes(self) -> (r: Result<(), Error>)
        ensures
            failure(r) == self.sizes_error(),
    {
        if self.batch == 0 || self.s_q == 0 || self.topk == 0 {
            return Err(
                Error::InvalidArgument(String::from_str("batch, s_q, and topk must be non-zero")),
            );
        }
        if self.num_blocks == 0 || self.page_block_size == 0 {
            return Err(
                Error::InvalidArgument(
                    String::from_str("num_blocks and page_block_size must be non-zero"),
                ),
            );
        }
        if self.d_qk != 512 && self.d_qk != 576 {
            return Err(
                Error::InvalidArgument(
                    labelled("d_qk must be 512 or 576, got ", number(self.d_qk).as_str()),
                ),
            );
        }
        if self.d_v != 512 {
            return Err(
                Error::InvalidArgument(
                    labelled("d_v must be 512, got ", number(self.d_v).as_str()),
                ),
            );
        }
        Ok(())
    }

    /// Validates architecture-independent sparse decode shape constraints.
    pub fn validate(self) -> (r: Result<(), Error>)
        ensures
            failure(r) == self.shape_error(),
            r is Ok <==> self.supported(),
    {
        self.validate_sizes()?;
        if self.h_q != 64 && self.h_q != 128 {
            return Err(
                Error::InvalidArgument(
                    labelled("h_q must be padded to 64 or 128, got ", number(self.h_q).as_str()),
                ),
            );
        }
        if self.h_kv != 1 {
            return Err(
                Error::InvalidArgument(
                    labelled("h_kv must be 1 for sparse MLA, got ", number(self.h_kv).as_str()),
                ),
            );
        }
        if self.topk % 64 != 0 {
            return Err(
                Error::InvalidArgument(
                    labelled(
                        "SM90 sparse decode requires topk to be a multiple of 64, got ",
                        number(self.topk).as_str(),
                    ),
                ),
            );
        }
        if self.has_extra_cache() {
            if self.extra_num_blocks == 0 || self.extra_page_block_size == 0 || self.extra_topk
                == 0 {
                return Err(
                    Error::InvalidArgument(
                        String::from_str(
                            "extra KV cache requires non-zero extra_num_blocks, extra_page_block_size, and extra_topk",
                        ),
                    ),
                );
            }
            if self.d_qk == 576 {
                return Err(
                    Error::InvalidArgument(
                        String::from_str("V32 sparse decode does not support extra KV cache"),
                    ),
                );
            }
        }
        Ok(())
    }

    /// Returns the required FlashMLA packed FP8 KV-cache bytes per token.
    pub fn kv_bytes_per_token(self) -> (r: Result<usize, Error>)
        ensures
            failure(r) == self.layout_error(),
            r matches Ok(bytes) ==> self.token_bytes() == Some(bytes),
    {
        match (self.d_qk, self.d_v) {
            (576, 512) => Ok(656),
            (512, 512) => Ok(584),
            _ => Err(
                Error::InvalidArgument(
                    labelled(
                        "unsupported sparse decode KV layout for d_qk=",
                        number(self.d_qk).as_str(),
                    ).concat(" d_v=").concat(number(self.d_v).as_str()),
                ),
            ),
        }
    }

    /// Returns true when optional extra KV-cache tensors are part of the decode launch.
    #[verifier::when_used_as_spec(has_extra_cache_spec)]
    pub fn has_extra_cache(self) -> (extra: bool)
        ensures
            extra == self.has_extra_cache_spec(),
    {
        self.extra_num_blocks != 0 || self.extra_page_block_size != 0 || self.extra_topk != 0
    }
}

/// Workspace and scheduler sizing returned by sparse decode planning.
#[derive(Debug, Copy, Clone, PartialEq, Eq, Structural)]
pub struct SparseDecodePlanMeta {
    /// Number of SM partitions used by split-KV decode.
    pub num_sm_parts: usize,
    /// Fixed scheduler overhead, in top-k blocks.
    pub fixed_overhead_num_blocks: usize,
    /// Top-k block size used by the scheduler.
    pub block_size_topk: usize,
    /// Required I32 elements in scheduler metadata.
    pub scheduler_metadata_i32_len: usize,
    /// Required I32 elements in split offsets.
    pub num_splits_len: usize,
    /// Required F32 elements in LSE accumulation workspace.
    pub lse_accum_elem_count: usize,
    /// Required F32 elements in output accumulation workspace.
    pub o_accum_elem_count: usize,
}

/// The first field of a raw sparse decode plan that is negative.
pub open spec fn plan_result_error(result: flashmla_sparse_decode_plan_result_t) -> Option<
    ErrorModel,
> {
    first(negative_error(result.num_sm_parts, "num_sm_parts"@),
    first(negative_error(result.fixed_overhead_num_blocks, "fixed_overhead_num_blocks"@),
        negative_error(result.block_size_topk, "block_size_topk"@)))
}

/// Whether `meta` holds the numbers of the raw plan `result`.
pub open spec fn meta_matches(
    meta: SparseDecodePlanMeta,
    result: flashmla_sparse_decode_plan_result_t,
) -> bool {
    &&& meta.num_sm_parts == result.num_sm_parts
    &&& meta.fixed_overhead_num_blocks == result.fixed_overhead_num_blocks
    &&& meta.block_size_topk == result.block_size_topk
    &&& meta.scheduler_metadata_i32_len == result.scheduler_metadata_i32_len
    &&& meta.num_splits_len == result.num_splits_len
    &&& meta.lse_accum_elem_count == result.lse_accum_elem_count
    &&& meta.o_accum_elem_count == result.o_accum_elem_count
}

/// Why a planning call that returned `status` and `result` produced no plan, if it did not.
pub open spec fn plan_error(
    status: flashmla_status_t,
    result: flashmla_sparse_decode_plan_result_t,
    last_error: Option<Seq<char>>,
) -> Option<ErrorModel> {
    if status == flashmla_status_t::FLASHMLA_STATUS_SUCCESS {
        plan_result_error(result)
    } else {
        Some(status_error(status, with_last_error("sparse decode planning failed"@, last_error)))
    }
}

impl SparseDecodePlanMeta {
    /// Converts the raw plan result into workspace metadata.
    pub fn from_sys(result: flashmla_sparse_decode_plan_result_t) -> (r: Result<
        SparseDecodePlanMeta,
        Error,
    >)
        ensures
            failure(r) == plan_result_error(result),
            r matches Ok(meta) ==> meta_matches(meta, result),
    {
        Ok(
            SparseDecodePlanMeta {
                num_sm_parts: checked_usize(result.num_sm_parts, "num_sm_parts")?,
                fixed_overhead_num_blocks: checked_usize(
                    result.fixed_overhead_num_blocks,
                    "fixed_overhead_num_blocks",
                )?,
                block_size_topk: checked_usize(result.block_size_topk, "block_size_topk")?,
                scheduler_metadata_i32_len: result.scheduler_metadata_i32_len,
                num_splits_len: result.num_splits_len,
                lse_accum_elem_count: result.lse_accum_elem_count,
                o_accum_elem_count: result.o_accum_elem_count,
            },
        )
    }

    /// Interprets what a planning call returned.
    pub fn from_reply(
        status: flashmla_status_t,
        result: flashmla_sparse_decode_plan_result_t,
        last_error: Option<String>,
    ) -> (r: Result<SparseDecodePlanMeta, Error>)
        ensures
            failure(r) == plan_error(status, result, message_of(last_error)),
            r matches Ok(meta) ==> meta_matches(meta, result),
    {
        if status == flashmla_status_t::FLASHMLA_STATUS_SUCCESS {
            SparseDecodePlanMeta::from_sys(result)
        } else {
            Err(
                Error::from_status(
                    status,
                    String::from_str("sparse decode planning failed"),
                    last_error,
                ),
            )
        }
    }

    /// Why the split row count cannot be computed, if it cannot.
    pub open spec fn splits_error(self, dims: SparseDecodeDims) -> Option<ErrorModel> {
        if dims.batch + self.num_sm_parts > usize::MAX {
            invalid("total_num_splits overflow"@)
        } else {
            None
        }
    }

    /// Returns the total number of split rows in decode accumulation workspaces.
    pub fn total_num_splits(self, dims: SparseDecodeDims) -> (r: Result<usize, Error>)
        ensures
            failure(r) == self.splits_error(dims),
            r matches Ok(n) ==> n == dims.batch + self.num_sm_parts,
    {
        match dims.batch.checked_add(self.num_sm_parts) {
            Some(n) => Ok(n),
            None => Err(Error::InvalidArgument(String::from_str("total_num_splits overflow"))),
        }
    }
}

/// Parameters for sparse decode planning and scheduler metadata generation.
#[derive(Debug, Copy, Clone, PartialEq, Eq)]
pub struct SparseDecodePlanParams {
    /// Sparse decode tensor dimensions.
    pub dims: SparseDecodeDims,
    /// Optional raw I32 top-k length pointer shaped `[batch]`.
    pub topk_length: DevicePtr,
    /// Optional raw I32 extra top-k length pointer shaped `[batch]`.
    pub extra_topk_length: DevicePtr,
    /// Optional writable I32 scheduler metadata buffer.
    pub tile_scheduler_metadata: DevicePtr,
    /// Optional writable I32 split-offset buffer.
    pub num_splits: DevicePtr,
    /// Number of SMs on the target CUDA device.
    pub num_sm: usize,
    /// CUDA stream used for optional metadata generation.
    pub stream: cudaStream_t,
}

impl SparseDecodePlanParams {
    /// Whether planning can run with these parameters: both metadata buffers or none, no top-k
    /// lengths for the 576-wide layout, and no extra top-k lengths without an extra cache.
    pub open spec fn valid(self) -> bool {
        &&& self.dims.supported()
        &&& self.num_sm > 0
        &&& self.dims.d_qk == 576 ==> self.topk_length.is_null()
        &&& !self.dims.has_extra_cache() ==> self.extra_topk_length.is_null()
        &&& self.tile_scheduler_metadata.is_null() <==> self.num_splits.is_null()
    }

    /// The first planning constraint that these parameters violate.
    pub open spec fn error(self) -> Option<ErrorModel> {
        first(
            self.dims.shape_error(),
            if self.num_sm == 0 {
                invalid("num_sm must be non-zero"@)
            } else if self.dims.d_qk == 576 && !self.topk_length.is_null() {
                invalid("V32 sparse decode does not support topk_length"@)
            } else if !self.dims.has_extra_cache() && !self.extra_topk_length.is_null() {
                invalid("extra_topk_length requires an extra KV cache"@)
            } else if self.tile_scheduler_metadata.is_null() != self.num_splits.is_null() {
                invalid(
                    "tile_scheduler_metadata and num_splits must both be null or both be non-null"@,
                )
            } else {
                None
            },
        )
    }

    /// The first size that does not fit in the C ABI.
    pub open spec fn size_error(self) -> Option<ErrorModel> {
        first(i32_error(self.dims.batch, "batch"@),
        first(i32_error(self.dims.s_q, "s_q"@),
        first(i32_error(self.dims.topk, "topk"@),
        first(i32_error(self.dims.extra_topk, "extra_topk"@),
            i32_error(self.num_sm, "num_sm"@)))))
    }

    /// The C ABI parameter block of these parameters.
    pub open spec fn block(self) -> flashmla_sparse_decode_plan_params_t {
        flashmla_sparse_decode_plan_params_t {
            batch: self.dims.batch as i32,
            s_q: self.dims.s_q as i32,
            h_q: self.dims.h_q as i32,
            h_kv: self.dims.h_kv as i32,
            d_qk: self.dims.d_qk as i32,
            d_v: self.dims.d_v as i32,
            topk: self.dims.topk as i32,
            extra_topk: self.dims.extra_topk as i32,
            topk_length: self.topk_length,
            extra_topk_length: self.extra_topk_length,
            tile_scheduler_metadata: self.tile_scheduler_metadata,
            num_splits: self.num_splits,
            num_sm: self.num_sm as i32,
            stream: self.stream,
        }
    }

    /// Validates the parameters of a planning call.
    pub fn validate(self) -> (r: Result<(), Error>)
        ensures
            failure(r) == self.error(),
            r is Ok <==> self.valid(),
    {
        self.dims.validate()?;
        if self.num_sm == 0 {
            return Err(Error::InvalidArgument(String::from_str("num_sm must be non-zero")));
        }
        if self.dims.d_qk == 576 && !self.topk_length.is_null() {
            return Err(
                Error::InvalidArgument(
                    String::from_str("V32 sparse decode does not support topk_length"),
                ),
            );
        }
        if !self.dims.has_extra_cache() && !self.extra_topk_length.is_null() {
            return Err(
                Error::InvalidArgument(
                    String::from_str("extra_topk_length requires an extra KV cache"),
                ),
            );
        }
        if self.tile_scheduler_metadata.is_null() != self.num_splits.is_null() {
            return Err(
                Error::InvalidArgument(
                    String::from_str(
                        "tile_scheduler_metadata and num_splits must both be null or both be non-null",
                    ),
                ),
            );
        }
        Ok(())
    }

    /// Builds the C ABI parameter block for a planning call.
    pub fn to_sys(self) -> (r: Result<flashmla_sparse_decode_plan_params_t, Error>)
        ensures
            failure(r) == first(self.error(), self.size_error()),
            r is Ok ==> self.valid(),
            r matches Ok(block) ==> block == self.block(),
    {
        self.validate()?;
        Ok(
            flashmla_sparse_decode_plan_params_t {
                batch: checked_i32(self.dims.batch, "batch")?,
                s_q: checked_i32(self.dims.s_q, "s_q")?,
                h_q: checked_i32(self.dims.h_q, "h_q")?,
                h_kv: checked_i32(self.dims.h_kv, "h_kv")?,
                d_qk: checked_i32(self.dims.d_qk, "d_qk")?,
                d_v: checked_i32(self.dims.d_v, "d_v")?,
                topk: checked_i32(self.dims.topk, "topk")?,
                extra_topk: checked_i32(self.dims.extra_topk, "extra_topk")?,
                topk_length: self.topk_length,
                extra_topk_length: self.extra_topk_length,
                tile_scheduler_metadata: self.tile_scheduler_metadata,
                num_splits: self.num_splits,
                num_sm: checked_i32(self.num_sm, "num_sm")?,
                stream: self.stream,
            },
        )
    }
}

/// Element strides for sparse decode tensors and workspaces.
#[derive(Debug, Copy, Clone, PartialEq, Eq)]
pub struct SparseDecodeStrides {
    /// Element stride between query batches.
    pub q_b: usize,
    /// Element stride between query positions.
    pub q_s_q: usize,
    /// Element stride between query heads.
    pub q_h_q: usize,
    /// Byte stride between packed KV cache pages.
    pub kv_block: usize,
    /// Byte stride between packed KV cache rows.
    pub kv_row: usize,
    /// Element stride between sparse-index batches.
    pub indices_b: usize,
    /// Element stride between sparse-index positions.
    pub indices_s_q: usize,
    /// Element stride between LSE batches.
    pub lse_b: usize,
    /// Element stride between LSE positions.
    pub lse_s_q: usize,
    /// Element stride between output batches.
    pub out_b: usize,
    /// Element stride between output positions.
    pub out_s_q: usize,
    /// Element stride between output heads.
    pub out_h_q: usize,
    /// Byte stride between optional extra KV cache pages.
    pub extra_kv_block: usize,
    /// Byte stride between optional extra KV cache rows.
    pub extra_kv_row: usize,
    /// Element stride between optional extra sparse-index batches.
    pub extra_indices_b: usize,
    /// Element stride between optional extra sparse-index positions.
    pub extra_indices_s_q: usize,
    /// Element stride between LSE accumulation splits.
    pub lse_accum_split: usize,
    /// Element stride between LSE accumulation positions.
    pub lse_accum_s_q: usize,
    /// Element stride between output accumulation splits.
    pub o_accum_split: usize,
    /// Element stride between output accumulation positions.
    pub o_accum_s_q: usize,
    /// Element stride between output accumulation heads.
    pub o_accum_h_q: usize,
}

impl SparseDecodeStrides {
    /// Whether the strides of the optional extra cache are positive and fit in the C ABI.
    pub open spec fn extra_valid(self) -> bool {
        &&& is_stride(self.extra_kv_block)
        &&& is_stride(self.extra_kv_row)
        &&& is_stride(self.extra_indices_b)
        &&& is_stride(self.extra_indices_s_q)
    }

    /// Whether every required stride is positive and fits in the C ABI.
    pub open spec fn valid(self, has_extra_cache: bool) -> bool {
        &&& is_stride(self.q_b)
        &&& is_stride(self.q_s_q)
        &&& is_stride(self.q_h_q)
        &&& is_stride(self.kv_block)
        &&& is_stride(self.kv_row)
        &&& is_stride(self.indices_b)
        &&& is_stride(self.indices_s_q)
        &&& is_stride(self.lse_b)
        &&& is_stride(self.lse_s_q)
        &&& is_stride(self.out_b)
        &&& is_stride(self.out_s_q)
        &&& is_stride(self.out_h_q)
        &&& is_stride(self.lse_accum_split)
        &&& is_stride(self.lse_accum_s_q)
        &&& is_stride(self.o_accum_split)
        &&& is_stride(self.o_accum_s_q)
        &&& is_stride(self.o_accum_h_q)
        &&& has_extra_cache ==> self.extra_valid()
    }

    /// The first stride of the optional extra cache that is not usable.
    pub open spec fn extra_error(self) -> Option<ErrorModel> {
        first(stride_error(self.extra_kv_block, "extra_kv_block"@),
        first(stride_error(self.extra_kv_row, "extra_kv_row"@),
        first(stride_error(self.extra_indices_b, "extra_indices_b"@),
            stride_error(self.extra_indices_s_q, "extra_indices_s_q"@))))
    }

    /// The first required stride that is not usable.
    pub open spec fn error(self, has_extra_cache: bool) -> Option<ErrorModel> {
        first(stride_error(self.q_b, "q_b"@),
        first(stride_error(self.q_s_q, "q_s_q"@),
        first(stride_error(self.q_h_q, "q_h_q"@),
        first(stride_error(self.kv_block, "kv_block"@),
        first(stride_error(self.kv_row, "kv_row"@),
        first(stride_error(self.indices_b, "indices_b"@),
        first(stride_error(self.indices_s_q, "indices_s_q"@),
        first(stride_error(self.lse_b, "lse_b"@),
        first(stride_error(self.lse_s_q, "lse_s_q"@),
        first(stride_error(self.out_b, "out_b"@),
        first(stride_error(self.out_s_q, "out_s_q"@),
        first(stride_error(self.out_h_q, "out_h_q"@),
        first(stride_error(self.lse_accum_split, "lse_accum_split"@),
        first(stride_error(self.lse_accum_s_q, "lse_accum_s_q"@),
        first(stride_error(self.o_accum_split, "o_accum_split"@),
        first(stride_error(self.o_accum_s_q, "o_accum_s_q"@),
        first(stride_error(self.o_accum_h_q, "o_accum_h_q"@),
            if has_extra_cache { self.extra_error() } else { None })))))))))))))))))
    }

    /// Validates that required sparse decode strides are positive and fit in the C ABI.
    pub fn validate(self, has_extra_cache: bool) -> (r: Result<(), Error>)
        ensures
            failure(r) == self.error(has_extra_cache),
            r is Ok <==> self.valid(has_extra_cache),
    {
        checked_stride(self.q_b, "q_b")?;
        checked_stride(self.q_s_q, "q_s_q")?;
        checked_stride(self.q_h_q, "q_h_q")?;
        checked_stride(self.kv_block, "kv_block")?;
        checked_stride(self.kv_row, "kv_row")?;
        checked_stride(self.indices_b, "indices_b")?;
        checked_stride(self.indices_s_q, "indices_s_q")?;
        checked_stride(self.lse_b, "lse_b")?;
        checked_stride(self.lse_s_q, "lse_s_q")?;
        checked_stride(self.out_b, "out_b")?;
        checked_stride(self.out_s_q, "out_s_q")?;
        checked_stride(self.out_h_q, "out_h_q")?;
        checked_stride(self.lse_accum_split, "lse_accum_split")?;
        checked_stride(self.lse_accum_s_q, "lse_accum_s_q")?;
        checked_stride(self.o_accum_split, "o_accum_split")?;
        checked_stride(self.o_accum_s_q, "o_accum_s_q")?;
        checked_stride(self.o_accum_h_q, "o_accum_h_q")?;
        if has_extra_cache {
            checked_stride(self.extra_kv_block, "extra_kv_block")?;
            checked_stride(self.extra_kv_row, "extra_kv_row")?;
            checked_stride(self.extra_indices_b, "extra_indices_b")?;
            checked_stride(self.extra_indices_s_q, "extra_indices_s_q")?;
        }
        Ok(())
    }
}

/// Parameters for launching sparse BF16-query / FP8-cache decode.
#[derive(Debug, Copy, Clone, PartialEq, Eq)]
pub struct SparseDecodeLaunchParams {
    /// Sparse decode tensor dimensions.
    pub dims: SparseDecodeDims,
    /// Sparse decode runtime options.
    pub config: SparseDecodeConfig,
    /// Raw BF16 query pointer with shape `[batch, s_q, h_q, d_qk]`.
    pub q: DevicePtr,
    /// Raw packed FP8 KV cache pointer.
    pub kv: DevicePtr,
    /// Raw I32 sparse index pointer with shape `[batch, s_q, topk]`.
    pub indices: DevicePtr,
    /// Optional raw I32 top-k length pointer with shape `[batch]`.
    pub topk_length: DevicePtr,
    /// Optional raw F32 attention sink pointer with shape `[h_q]`.
    pub attn_sink: DevicePtr,
    /// Raw BF16 output pointer with shape `[batch, s_q, h_q, d_v]`.
    pub out: DevicePtr,
    /// Raw F32 LSE output pointer with shape `[batch, s_q, h_q]`.
    pub lse: DevicePtr,
    /// Optional raw packed FP8 extra KV cache pointer.
    pub extra_kv: DevicePtr,
    /// Optional raw I32 extra sparse index pointer with shape `[batch, s_q, extra_topk]`.
    pub extra_indices: DevicePtr,
    /// Optional raw I32 extra top-k length pointer with shape `[batch]`.
    pub extra_topk_length: DevicePtr,
    /// Element strides for all tensors and workspaces.
    pub strides: SparseDecodeStrides,
    /// Raw F32 LSE accumulation workspace pointer.
    pub lse_accum: DevicePtr,
    /// Raw F32 output accumulation workspace pointer.
    pub o_accum: DevicePtr,
    /// Raw I32 scheduler metadata pointer generated by sparse decode planning.
    pub tile_scheduler_metadata: DevicePtr,
    /// Raw I32 split-offset pointer generated by sparse decode planning.
    pub num_splits: DevicePtr,
    /// Number of SM partitions from sparse decode planning.
    pub num_sm_parts: usize,
    /// CUDA stream used for decode and combine launches.
    pub stream: cudaStream_t,
}

impl SparseDecodeLaunchParams {
    /// Whether every pointer that a launch needs is given.
    pub open spec fn has_pointers(self) -> bool {
        &&& !self.q.is_null()
        &&& !self.kv.is_null()
        &&& !self.indices.is_null()
        &&& !self.out.is_null()
        &&& !self.lse.is_null()
        &&& !self.lse_accum.is_null()
        &&& !self.o_accum.is_null()
        &&& !self.tile_scheduler_metadata.is_null()
        &&& !self.num_splits.is_null()
    }

    /// Whether the extra pointers agree with the dimensions: the cache and its indices are given
    /// when there is an extra cache, and no extra pointer is given when there is none.
    pub open spec fn extra_pointers_agree(self) -> bool {
        if self.dims.has_extra_cache() {
            !self.extra_kv.is_null() && !self.extra_indices.is_null()
        } else {
            self.extra_kv.is_null() && self.extra_indices.is_null()
                && self.extra_topk_length.is_null()
        }
    }

    /// Whether a launch can run with these parameters.
    pub open spec fn valid(self) -> bool {
        &&& self.dims.supported()
        &&& self.strides.valid(self.dims.has_extra_cache())
        &&& self.config.d_v == self.dims.d_v
        &&& self.has_pointers()
        &&& self.num_sm_parts > 0
        &&& self.dims.d_qk == 576 ==> self.topk_length.is_null()
        &&& self.extra_pointers_agree()
    }

    /// The first launch constraint that these parameters violate.
    pub open spec fn error(self) -> Option<ErrorModel> {
        first(
            self.dims.shape_error(),
            first(
                self.strides.error(self.dims.has_extra_cache()),
                if self.config.d_v != self.dims.d_v {
                    invalid(
                        "config d_v ("@ + decimal(self.config.d_v as nat)
                            + ") must match dims d_v ("@ + decimal(self.dims.d_v as nat) + ")"@,
                    )
                } else if !self.has_pointers() {
                    invalid(
                        "q, kv, indices, out, lse, lse_accum, o_accum, tile_scheduler_metadata, and num_splits pointers must be non-null"@,
                    )
                } else if self.num_sm_parts == 0 {
                    invalid("num_sm_parts must be non-zero"@)
                } else if self.dims.d_qk == 576 && !self.topk_length.is_null() {
                    invalid("V32 sparse decode does not support topk_length"@)
                } else if self.extra_pointers_agree() {
                    None
                } else if self.dims.has_extra_cache() {
                    invalid("extra KV cache requires extra_kv and extra_indices pointers"@)
                } else {
                    invalid("extra pointers require extra KV cache dimensions"@)
                },
            ),
        )
    }

    /// The first size or optional stride that does not fit in the C ABI.
    pub open spec fn size_error(self) -> Option<ErrorModel> {
        let extra = self.dims.has_extra_cache();
        first(i32_error(self.dims.batch, "batch"@),
        first(i32_error(self.dims.s_q, "s_q"@),
        first(i32_error(self.dims.num_blocks, "num_blocks"@),
        first(i32_error(self.dims.page_block_size, "page_block_size"@),
        first(i32_error(self.dims.topk, "topk"@),
        first(i32_error(self.dims.extra_num_blocks, "extra_num_blocks"@),
        first(i32_error(self.dims.extra_page_block_size, "extra_page_block_size"@),
        first(i32_error(self.dims.extra_topk, "extra_topk"@),
        first(optional_stride_error(self.strides.extra_kv_block, "extra_kv_block"@, extra),
        first(optional_stride_error(self.strides.extra_kv_row, "extra_kv_row"@, extra),
        first(optional_stride_error(self.strides.extra_indices_b, "extra_indices_b"@, extra),
        first(optional_stride_error(self.strides.extra_indices_s_q, "extra_indices_s_q"@, extra),
            i32_error(self.num_sm_parts, "num_sm_parts"@)))))))))))))
    }

    /// The C ABI parameter block of these parameters.
    pub open spec fn block(self) -> flashmla_sparse_decode_params_t {
        flashmla_sparse_decode_params_t {
            batch: self.dims.batch as i32,
            s_q: self.dims.s_q as i32,
            h_q: self.dims.h_q as i32,
            h_kv: self.dims.h_kv as i32,
            d_qk: self.dims.d_qk as i32,
            d_v: self.dims.d_v as i32,
            num_blocks: self.dims.num_blocks as i32,
            page_block_size: self.dims.page_block_size as i32,
            topk: self.dims.topk as i32,
            sm_scale_bits: self.config.softmax_scale_bits,
            q: self.q,
            kv: self.kv,
            indices: self.indices,
            topk_length: self.topk_length,
            attn_sink: self.attn_sink,
            out: self.out,
            lse: self.lse,
            extra_num_blocks: self.dims.extra_num_blocks as i32,
            extra_page_block_size: self.dims.extra_page_block_size as i32,
            extra_topk: self.dims.extra_topk as i32,
            extra_kv: self.extra_kv,
            extra_indices: self.extra_indices,
            extra_topk_length: self.extra_topk_length,
            stride_q_b: self.strides.q_b as i32,
            stride_q_s_q: self.strides.q_s_q as i32,
            stride_q_h_q: self.strides.q_h_q as i32,
            stride_kv_block: self.strides.kv_block as i32,
            stride_kv_row: self.strides.kv_row as i32,
            stride_indices_b: self.strides.indices_b as i32,
            stride_indices_s_q: self.strides.indices_s_q as i32,
            stride_lse_b: self.strides.lse_b as i32,
            stride_lse_s_q: self.strides.lse_s_q as i32,
            stride_o_b: self.strides.out_b as i32,
            stride_o_s_q: self.strides.out_s_q as i32,
            stride_o_h_q: self.strides.out_h_q as i32,
            stride_extra_kv_block: self.strides.extra_kv_block as i32,
            stride_extra_kv_row: self.strides.extra_kv_row as i32,
            stride_extra_indices_b: self.strides.extra_indices_b as i32,
            stride_extra_indices_s_q: self.strides.extra_indices_s_q as i32,
            lse_accum: self.lse_accum,
            o_accum: self.o_accum,
            stride_lse_accum_split: self.strides.lse_accum_split as i32,
            stride_lse_accum_s_q: self.strides.lse_accum_s_q as i32,
            stride_o_accum_split: self.strides.o_accum_split as i32,
            stride_o_accum_s_q: self.strides.o_accum_s_q as i32,
            stride_o_accum_h_q: self.strides.o_accum_h_q as i32,
            tile_scheduler_metadata: self.tile_scheduler_metadata,
            num_splits: self.num_splits,
            num_sm_parts: self.num_sm_parts as i32,
            stream: self.stream,
        }
    }

    /// Validates the parameters of a launch.
    pub fn validate(self) -> (r: Result<(), Error>)
        ensures
            failure(r) == self.error(),
            r is Ok <==> self.valid(),
    {
        self.dims.validate()?;
        self.strides.validate(self.dims.has_extra_cache())?;
        if self.config.d_v != self.dims.d_v {
            return Err(
                Error::InvalidArgument(
                    labelled("config d_v (", number(self.config.d_v).as_str()).concat(
                        ") must match dims d_v (",
                    ).concat(number(self.dims.d_v).as_str()).concat(")"),
                ),
            );
        }
        if self.q.is_null() || self.kv.is_null() || self.indices.is_null() || self.out.is_null()
            || self.lse.is_null() || self.lse_accum.is_null() || self.o_accum.is_null()
            || self.tile_scheduler_metadata.is_null() || self.num_splits.is_null() {
            return Err(
                Error::InvalidArgument(
                    String::from_str(
                        "q, kv, indices, out, lse, lse_accum, o_accum, tile_scheduler_metadata, and num_splits pointers must be non-null",
                    ),
                ),
            );
        }
        if self.num_sm_parts == 0 {
            return Err(Error::InvalidArgument(String::from_str("num_sm_parts must be non-zero")));
        }
        if self.dims.d_qk == 576 && !self.topk_length.is_null() {
            return Err(
                Error::InvalidArgument(
                    String::from_str("V32 sparse decode does not support topk_length"),
                ),
            );
        }
        if self.dims.has_extra_cache() {
            if self.extra_kv.is_null() || self.extra_indices.is_null() {
                return Err(
                    Error::InvalidArgument(
                        String::from_str(
                            "extra KV cache requires extra_kv and extra_indices pointers",
                        ),
                    ),
                );
            }
        } else if !self.extra_kv.is_null() || !self.extra_indices.is_null()
            || !self.extra_topk_length.is_null() {
            return Err(
                Error::InvalidArgument(
                    String::from_str("extra pointers require extra KV cache dimensions"),
                ),
            );
        }
        Ok(())
    }

    /// Builds the C ABI parameter block for a launch.
    pub fn to_sys(self) -> (r: Result<flashmla_sparse_decode_params_t, Error>)
        ensures
            failure(r) == first(self.error(), self.size_error()),
            r is Ok ==> self.valid(),
            r matches Ok(block) ==> block == self.block(),
    {
        self.validate()?;
        let extra = self.dims.has_extra_cache();
        Ok(
            flashmla_sparse_decode_params_t {
                batch: checked_i32(self.dims.batch, "batch")?,
                s_q: checked_i32(self.dims.s_q, "s_q")?,
                h_q: checked_i32(self.dims.h_q, "h_q")?,
                h_kv: checked_i32(self.dims.h_kv, "h_kv")?,
                d_qk: checked_i32(self.dims.d_qk, "d_qk")?,
                d_v: checked_i32(self.dims.d_v, "d_v")?,
                num_blocks: checked_i32(self.dims.num_blocks, "num_blocks")?,
                page_block_size: checked_i32(self.dims.page_block_size, "page_block_size")?,
                topk: checked_i32(self.dims.topk, "topk")?,
                sm_scale_bits: self.config.softmax_scale_bits,
                q: self.q,
                kv: self.kv,
                indices: self.indices,
                topk_length: self.topk_length,
                attn_sink: self.attn_sink,
                out: self.out,
                lse: self.lse,
                extra_num_blocks: checked_i32(self.dims.extra_num_blocks, "extra_num_blocks")?,
                extra_page_block_size: checked_i32(
                    self.dims.extra_page_block_size,
                    "extra_page_block_size",
                )?,
                extra_topk: checked_i32(self.dims.extra_topk, "extra_topk")?,
                extra_kv: self.extra_kv,
                extra_indices: self.extra_indices,
                extra_topk_length: self.extra_topk_length,
                stride_q_b: checked_stride(self.strides.q_b, "q_b")?,
                stride_q_s_q: checked_stride(self.strides.q_s_q, "q_s_q")?,
                stride_q_h_q: checked_stride(self.strides.q_h_q, "q_h_q")?,
                stride_kv_block: checked_stride(self.strides.kv_block, "kv_block")?,
                stride_kv_row: checked_stride(self.strides.kv_row, "kv_row")?,
                stride_indices_b: checked_stride(self.strides.indices_b, "indices_b")?,
                stride_indices_s_q: checked_stride(self.strides.indices_s_q, "indices_s_q")?,
                stride_lse_b: checked_stride(self.strides.lse_b, "lse_b")?,
                stride_lse_s_q: checked_stride(self.strides.lse_s_q, "lse_s_q")?,
                stride_o_b: checked_stride(self.strides.out_b, "out_b")?,
                stride_o_s_q: checked_stride(self.strides.out_s_q, "out_s_q")?,
                stride_o_h_q: checked_stride(self.strides.out_h_q, "out_h_q")?,
                stride_extra_kv_block: checked_optional_stride(
                    self.strides.extra_kv_block,
                    "extra_kv_block",
                    extra,
                )?,
                stride_extra_kv_row: checked_optional_stride(
                    self.strides.extra_kv_row,
                    "extra_kv_row",
                    extra,
                )?,
                stride_extra_indices_b: checked_optional_stride(
                    self.strides.extra_indices_b,
                    "extra_indices_b",
                    extra,
                )?,
                stride_extra_indices_s_q: checked_optional_stride(
                    self.strides.extra_indices_s_q,
                    "extra_indices_s_q",
                    extra,
                )?,
                lse_accum: self.lse_accum,
                o_accum: self.o_accum,
                stride_lse_accum_split: checked_stride(
                    self.strides.lse_accum_split,
                    "lse_accum_split",
                )?,
                stride_lse_accum_s_q: checked_stride(self.strides.lse_accum_s_q, "lse_accum_s_q")?,
                stride_o_accum_split: checked_stride(self.strides.o_accum_split, "o_accum_split")?,
                stride_o_accum_s_q: checked_stride(self.strides.o_accum_s_q, "o_accum_s_q")?,
                stride_o_accum_h_q: checked_stride(self.strides.o_accum_h_q, "o_accum_h_q")?,
                tile_scheduler_metadata: self.tile_scheduler_metadata,
                num_splits: self.num_splits,
                num_sm_parts: checked_i32(self.num_sm_parts, "num_sm_parts")?,
                stream: self.stream,
            },
        )
    }
}

/// Interprets the status of a sparse decode launch.
pub fn sparse_decode_outcome(status: flashmla_status_t, last_error: Option<String>) -> (r: Result<
    (),
    Error,
>)
    ensures
        failure(r) == call_error(status, "sparse decode launch failed"@, message_of(last_error)),
{
    if status == flashmla_status_t::FLASHMLA_STATUS_SUCCESS {
        Ok(())
    } else {
        Err(
            Error::from_status(
                status,
                String::from_str("sparse decode launch failed"),
                last_error,
            ),
        )
    }
}

/// Every supported shape has a packed KV-cache layout: 656 bytes per token for 576-wide heads and
/// 584 bytes per token for 512-wide heads.
pub proof fn supported_shapes_have_a_layout(dims: SparseDecodeDims)
    requires
        dims.supported(),
    ensures
        dims.layout_error() is None,
        dims.d_qk == 576 ==> dims.token_bytes() == Some(656usize),
        dims.d_qk == 512 ==> dims.token_bytes() == Some(584usize),
{
}

/// The head count has the last word after batch, positions, top-k, pages and head dimensions: a
/// shape is refused for its head count only when all of these are in order.
pub proof fn sizes_come_before_the_head_count(dims: SparseDecodeDims)
    ensures
        dims.sizes_error() is None <==> {
            &&& dims.batch >= 1 && dims.s_q >= 1 && dims.topk >= 1
            &&& dims.num_blocks >= 1 && dims.page_block_size >= 1
            &&& dims.d_qk == 512 || dims.d_qk == 576
            &&& dims.d_v == 512
        },
        dims.sizes_error() is Some ==> dims.shape_error() == dims.sizes_error(),
{
}

/// The shapes that are accepted: at least one batch entry, query position and cache page, a whole
/// number of 64-token blocks of top-k indices, 64 or 128 query heads on a single KV head, 512-wide
/// values under 512- or 576-wide keys, and either no extra cache at all or one with pages, rows and
/// indices under 512-wide keys.
pub proof fn accepted_shapes(dims: SparseDecodeDims)
    ensures
        dims.shape_error() is None <==> {
            &&& dims.batch >= 1 && dims.s_q >= 1
            &&& dims.num_blocks >= 1 && dims.page_block_size >= 1
            &&& dims.topk >= 64 && dims.topk % 64 == 0
            &&& dims.h_q == 64 || dims.h_q == 128
            &&& dims.h_kv == 1
            &&& dims.d_v == 512
            &&& dims.d_qk == 512 || dims.d_qk == 576
            &&& {
                ||| dims.extra_num_blocks == 0 && dims.extra_page_block_size == 0
                    && dims.extra_topk == 0
                ||| dims.extra_num_blocks >= 1 && dims.extra_page_block_size >= 1
                    && dims.extra_topk >= 1 && dims.d_qk == 512
            }
        },
        dims.supported() <==> dims.shape_error() is None,
{
}

/// Planning calls that are accepted: an accepted shape, a multiprocessor, both metadata buffers or
/// neither, no top-k lengths under 576-wide keys, and extra top-k lengths only next to an extra
/// cache.
pub proof fn accepted_planning_calls(params: SparseDecodePlanParams)
    ensures
        params.error() is None <==> {
            &&& params.dims.shape_error() is None
            &&& params.num_sm >= 1
            &&& params.dims.d_qk == 576 ==> params.topk_length.addr == 0
            &&& params.extra_topk_length.addr != 0 ==> params.dims.extra_topk >= 1
            &&& params.tile_scheduler_metadata.addr == 0 <==> params.num_splits.addr == 0
        },
        params.valid() <==> params.error() is None,
{
}

/// Launches that are accepted: an accepted shape, positive strides that the C ABI can hold, a value
/// width that the configuration agrees with, every buffer that the kernels read or write, a
/// partition, no top-k lengths under 576-wide keys, and extra buffers exactly next to an extra
/// cache.
pub proof fn accepted_launches(params: SparseDecodeLaunchParams)
    ensures
        params.error() is None <==> {
            let s = params.strides;
            let extra = params.dims.extra_topk >= 1;
            &&& params.dims.shape_error() is None
            &&& 1 <= s.q_b <= 0x7fff_ffff && 1 <= s.q_s_q <= 0x7fff_ffff && 1 <= s.q_h_q
                <= 0x7fff_ffff
            &&& 1 <= s.kv_block <= 0x7fff_ffff && 1 <= s.kv_row <= 0x7fff_ffff
            &&& 1 <= s.indices_b <= 0x7fff_ffff && 1 <= s.indices_s_q <= 0x7fff_ffff
            &&& 1 <= s.lse_b <= 0x7fff_ffff && 1 <= s.lse_s_q <= 0x7fff_ffff
            &&& 1 <= s.out_b <= 0x7fff_ffff && 1 <= s.out_s_q <= 0x7fff_ffff && 1 <= s.out_h_q
                <= 0x7fff_ffff
            &&& 1 <= s.lse_accum_split <= 0x7fff_ffff && 1 <= s.lse_accum_s_q <= 0x7fff_ffff
            &&& 1 <= s.o_accum_split <= 0x7fff_ffff && 1 <= s.o_accum_s_q <= 0x7fff_ffff && 1
                <= s.o_accum_h_q <= 0x7fff_ffff
            &&& extra ==> 1 <= s.extra_kv_block <= 0x7fff_ffff && 1 <= s.extra_kv_row
                <= 0x7fff_ffff && 1 <= s.extra_indices_b <= 0x7fff_ffff && 1 <= s.extra_indices_s_q
                <= 0x7fff_ffff
            &&& params.config.d_v == params.dims.d_v
            &&& params.q.addr != 0 && params.kv.addr != 0 && params.indices.addr != 0
            &&& params.out.addr != 0 && params.lse.addr != 0
            &&& params.lse_accum.addr != 0 && params.o_accum.addr != 0
            &&& params.tile_scheduler_metadata.addr != 0 && params.num_splits.addr != 0
            &&& params.num_sm_parts >= 1
            &&& params.dims.d_qk == 576 ==> params.topk_length.addr == 0
            &&& extra <==> params.extra_kv.addr != 0
            &&& extra <==> params.extra_indices.addr != 0
            &&& params.extra_topk_length.addr != 0 ==> extra
        },
        params.valid() <==> params.error() is None,
{
}

/// Sizes that the C ABI can hold are those up to the largest 32-bit integer; a launch or planning
/// call of an accepted shape fails to be converted only for a size, or for an unused extra stride,
/// beyond it.
pub proof fn convertible_calls(plan: SparseDecodePlanParams, launch: SparseDecodeLaunchParams)
    ensures
        plan.size_error() is None <==> {
            &&& plan.dims.batch <= 0x7fff_ffff && plan.dims.s_q <= 0x7fff_ffff
            &&& plan.dims.topk <= 0x7fff_ffff && plan.dims.extra_topk <= 0x7fff_ffff
            &&& plan.num_sm <= 0x7fff_ffff
        },
        launch.error() is None ==> (launch.size_error() is None <==> {
            &&& launch.dims.batch <= 0x7fff_ffff && launch.dims.s_q <= 0x7fff_ffff
            &&& launch.dims.num_blocks <= 0x7fff_ffff && launch.dims.page_block_size
                <= 0x7fff_ffff
            &&& launch.dims.topk <= 0x7fff_ffff && launch.dims.extra_topk <= 0x7fff_ffff
            &&& launch.dims.extra_num_blocks <= 0x7fff_ffff && launch.dims.extra_page_block_size
                <= 0x7fff_ffff
            &&& launch.strides.extra_kv_block <= 0x7fff_ffff && launch.strides.extra_kv_row
                <= 0x7fff_ffff
            &&& launch.strides.extra_indices_b <= 0x7fff_ffff && launch.strides.extra_indices_s_q
                <= 0x7fff_ffff
            &&& launch.num_sm_parts <= 0x7fff_ffff
        }),
{
}

/// A plan that is read back from a successful planning call holds the numbers of the call, each in
/// its role, and it is read back if and only if none of them is negative.
pub proof fn plans_are_read_back(
    meta: SparseDecodePlanMeta,
    result: flashmla_sparse_decode_plan_result_t,
    last_error: Option<Seq<char>>,
)
    ensures
        plan_error(flashmla_status_t::FLASHMLA_STATUS_SUCCESS, result, last_error) is None
            <==> result.num_sm_parts >= 0 && result.fixed_overhead_num_blocks >= 0
            && result.block_size_topk >= 0,
        plan_error(flashmla_status_t::FLASHMLA_STATUS_SUCCESS, result, last_error)
            == plan_result_error(result),
        forall|status: flashmla_status_t|
            status.code() != 0 ==> #[trigger] plan_error(status, result, last_error) == call_error(
                status,
                "sparse decode planning failed"@,
                last_error,
            ),
        meta_matches(meta, result) <==> {
            &&& meta.num_sm_parts == result.num_sm_parts
            &&& meta.fixed_overhead_num_blocks == result.fixed_overhead_num_blocks
            &&& meta.block_size_topk == result.block_size_topk
            &&& meta.scheduler_metadata_i32_len == result.scheduler_metadata_i32_len
            &&& meta.num_splits_len == result.num_splits_len
            &&& meta.lse_accum_elem_count == result.lse_accum_elem_count
            &&& meta.o_accum_elem_count == result.o_accum_elem_count
        },
{
}

/// The number of split rows is refused if and only if it exceeds the range of sizes.
pub proof fn split_rows_are_bounded(meta: SparseDecodePlanMeta, dims: SparseDecodeDims)
    ensures
        meta.splits_error(dims) is None <==> dims.batch + meta.num_sm_parts <= usize::MAX,
{
}

/// The parameter block of an accepted planning call holds the very sizes, buffers and stream that
/// were given.
pub proof fn plan_blocks_are_exact(params: SparseDecodePlanParams)
    requires
        params.error() is None,
        params.size_error() is None,
    ensures
        params.block().batch == params.dims.batch,
        params.block().s_q == params.dims.s_q,
        params.block().h_q == params.dims.h_q,
        params.block().h_kv == params.dims.h_kv,
        params.block().d_qk == params.dims.d_qk,
        params.block().d_v == params.dims.d_v,
        params.block().topk == params.dims.topk,
        params.block().extra_topk == params.dims.extra_topk,
        params.block().num_sm == params.num_sm,
        params.block().topk_length.addr == params.topk_length.addr,
        params.block().extra_topk_length.addr == params.extra_topk_length.addr,
        params.block().tile_scheduler_metadata.addr == params.tile_scheduler_metadata.addr,
        params.block().num_splits.addr == params.num_splits.addr,
        params.block().stream.handle == params.stream.handle,
{
}

/// The parameter block of an accepted launch holds the very sizes, strides, softmax scale, buffers
/// and stream that were given, each in its role.
pub proof fn launch_blocks_are_exact(params: SparseDecodeLaunchParams)
    requires
        params.error() is None,
        params.size_error() is None,
    ensures
        params.block().batch == params.dims.batch,
        params.block().s_q == params.dims.s_q,
        params.block().h_q == params.dims.h_q,
        params.block().h_kv == params.dims.h_kv,
        params.block().d_qk == params.dims.d_qk,
        params.block().d_v == params.dims.d_v,
        params.block().num_blocks == params.dims.num_blocks,
        params.block().page_block_size == params.dims.page_block_size,
        params.block().topk == params.dims.topk,
        params.block().extra_num_blocks == params.dims.extra_num_blocks,
        params.block().extra_page_block_size == params.dims.extra_page_block_size,
        params.block().extra_topk == params.dims.extra_topk,
        params.block().stride_q_b == params.strides.q_b,
        params.block().stride_q_s_q == params.strides.q_s_q,
        params.block().stride_q_h_q == params.strides.q_h_q,
        params.block().stride_kv_block == params.strides.kv_block,
        params.block().stride_kv_row == params.strides.kv_row,
        params.block().stride_indices_b == params.strides.indices_b,
        params.block().stride_indices_s_q == params.strides.indices_s_q,
        params.block().stride_lse_b == params.strides.lse_b,
        params.block().stride_lse_s_q == params.strides.lse_s_q,
        params.block().stride_o_b == params.strides.out_b,
        params.block().stride_o_s_q == params.strides.out_s_q,
        params.block().stride_o_h_q == params.strides.out_h_q,
        params.block().stride_extra_kv_block == params.strides.extra_kv_block,
        params.block().stride_extra_kv_row == params.strides.extra_kv_row,
        params.block().stride_extra_indices_b == params.strides.extra_indices_b,
        params.block().stride_extra_indices_s_q == params.strides.extra_indices_s_q,
        params.block().stride_lse_accum_split == params.strides.lse_accum_split,
        params.block().stride_lse_accum_s_q == params.strides.lse_accum_s_q,
        params.block().stride_o_accum_split == params.strides.o_accum_split,
        params.block().stride_o_accum_s_q == params.strides.o_accum_s_q,
        params.block().stride_o_accum_h_q == params.strides.o_accum_h_q,
        params.block().num_sm_parts == params.num_sm_parts,
        params.block().sm_scale_bits == params.config.softmax_scale_bits,
        params.block().q.addr == params.q.addr,
        params.block().kv.addr == params.kv.addr,
        params.block().indices.addr == params.indices.addr,
        params.block().topk_length.addr == params.topk_length.addr,
        params.block().attn_sink.addr == params.attn_sink.addr,
        params.block().out.addr == params.out.addr,
        params.block().lse.addr == params.lse.addr,
        params.block().extra_kv.addr == params.extra_kv.addr,
        params.block().extra_indices.addr == params.extra_indices.addr,
        params.block().extra_topk_length.addr == params.extra_topk_length.addr,
        params.block().lse_accum.addr == params.lse_accum.addr,
        params.block().o_accum.addr == params.o_accum.addr,
        params.block().tile_scheduler_metadata.addr == params.tile_scheduler_metadata.addr,
        params.block().num_splits.addr == params.num_splits.addr,
        params.block().stream.handle == params.stream.handle,
{
}

/// The packed layouts of the cache: 656 bytes per token under 576-wide keys and 584 bytes under
/// 512-wide ones, for 512-wide values. No other shape has one.
pub proof fn packed_layouts(dims: SparseDecodeDims)
    ensures
        dims.token_bytes() == Some(656usize) <==> dims.d_qk == 576 && dims.d_v == 512,
        dims.token_bytes() == Some(584usize) <==> dims.d_qk == 512 && dims.d_v == 512,
        dims.token_bytes() is None <==> dims.d_v != 512 || (dims.d_qk != 512 && dims.d_qk != 576),
        dims.layout_error() is None <==> dims.token_bytes() is Some,
{
}

} // verus!
