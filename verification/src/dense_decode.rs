//! Dense decode parameters, planning metadata and launch parameter blocks.

use crate::convert::checked_i32;
use crate::convert::checked_stride;
use crate::convert::checked_usize;
use crate::convert::i32_error;
use crate::convert::is_stride;
use crate::convert::negative_error;
use crate::convert::stride_error;
use crate::error::call_error;
use crate::error::failure;
use crate::error::first;
use crate::error::invalid;
use crate::error::message_of;
use crate::error::status_error;
use crate::error::with_last_error;
use crate::error::Error;
use crate::error::ErrorModel;
use crate::sys::cudaStream_t;
use crate::sys::flashmla_dense_decode_params_t;
use crate::sys::flashmla_dense_decode_plan_params_t;
use crate::sys::flashmla_dense_decode_plan_result_t;
use crate::sys::flashmla_status_t;
use crate::sys::DevicePtr;
use crate::text::decimal;
use crate::text::labelled;
use crate::text::number;
use vstd::prelude::*;
use vstd::string::StringExecFns;

verus! {

/// Runtime options for dense decode.
#[derive(Debug, Copy, Clone, PartialEq, Eq)]
pub struct DenseDecodeConfig {
    /// IEEE 754 single-precision bits of the softmax scale applied to QK logits.
    pub softmax_scale_bits: u32,
    /// Value head dimension. FlashMLA dense decode currently requires `512`.
    pub d_v: usize,
    /// Whether dense decode should apply a causal mask. Ignored when `s_q == 1`.
    pub is_causal: bool,
}

impl Default for DenseDecodeConfig {
    fn default() -> (config: DenseDecodeConfig)
        ensures
            config.softmax_scale_bits == 0x3f80_0000,
            config.d_v == 512,
            !config.is_causal,
    {
        DenseDecodeConfig { softmax_scale_bits: 0x3f80_0000, d_v: 512, is_causal: false }
    }
}

/// Shape parameters for dense decode.
#[derive(Debug, Copy, Clone, PartialEq, Eq)]
pub struct DenseDecodeDims {
    /// Batch size.
    pub batch: usize,
    /// Query sequence length before query-head packing.
    pub s_q: usize,
    /// Query head count.
    pub h_q: usize,
    /// KV head count.
    pub h_k: usize,
    /// Query/key head dimension. FlashMLA supports `512` and `576`.
    pub d_qk: usize,
    /// Value head dimension. FlashMLA dense decode currently requires `512`.
    pub d_v: usize,
    /// Number of pages in the BF16 KV cache.
    pub num_blocks: usize,
    /// Number of tokens in each KV cache page. FlashMLA dense decode currently requires `64`.
    pub page_block_size: usize,
}

impl DenseDecodeDims {
    /// Whether the query heads split evenly over the KV heads.
    pub open spec fn groups_heads(self) -> bool {
        self.h_k > 0 && self.h_q % self.h_k == 0
    }

    /// The number of query heads grouped under each KV head.
    pub open spec fn heads_per_hk(self) -> int {
        self.h_q as int / self.h_k as int
    }

    /// The packed query row count per KV head.
    pub open spec fn rows_per_hk(self) -> int {
        self.s_q * self.heads_per_hk()
    }

    /// Whether the dense decode kernels support this shape.
    pub open spec fn supported(self) -> bool {
        &&& self.batch > 0
        &&& self.s_q > 0
        &&& self.h_q > 0
        &&& self.num_blocks > 0
        &&& self.page_block_size == 64
        &&& self.groups_heads()
        &&& self.d_qk == 512 || self.d_qk == 576
        &&& self.d_v == 512
        &&& self.rows_per_hk() <= usize::MAX
    }

    /// Why the query heads cannot be grouped, if they cannot.
    pub open spec fn grouping_error(self) -> Option<ErrorModel> {
        if self.groups_heads() {
            None
        } else {
            invalid("h_k must be non-zero and divide h_q"@)
        }
    }

    /// Why the packed query row count cannot be computed, if it cannot.
    pub open spec fn packing_error(self) -> Option<ErrorModel> {
        first(
            self.grouping_error(),
            if self.rows_per_hk() > usize::MAX {
                invalid("q_seq_per_hk overflow"@)
            } else {
                None
            },
        )
    }

    /// The first constraint that this shape violates.
    pub open spec fn shape_error(self) -> Option<ErrorModel> {
        if self.batch == 0 || self.s_q == 0 || self.h_q == 0 || self.h_k == 0 {
            invalid("batch, s_q, h_q, and h_k must be non-zero"@)
        } else if self.num_blocks == 0 || self.page_block_size == 0 {
            invalid("num_blocks and page_block_size must be non-zero"@)
        } else if self.page_block_size != 64 {
            invalid(
                "dense decode requires page_block_size to be 64, got "@ + decimal(
                    self.page_block_size as nat,
                ),
            )
        } else if self.h_q % self.h_k != 0 {
            invalid(
                "h_k ("@ + decimal(self.h_k as nat) + ") must divide h_q ("@ + decimal(
                    self.h_q as nat,
                ) + ")"@,
            )
        } else if self.d_qk != 512 && self.d_qk != 576 {
            invalid("d_qk must be 512 or 576, got "@ + decimal(self.d_qk as nat))
        } else if self.d_v != 512 {
            invalid("d_v must be 512, got "@ + decimal(self.d_v as nat))
        } else {
            self.packing_error()
        }
    }

    /// Validates architecture-independent dense decode shape constraints.
    pub fn validate(self) -> (r: Result<(), Error>)
        ensures
            failure(r) == self.shape_error(),
            r is Ok <==> self.supported(),
    {
        if self.batch == 0 || self.s_q == 0 || self.h_q == 0 || self.h_k == 0 {
            return Err(
                Error::InvalidArgument(
                    String::from_str("batch, s_q, h_q, and h_k must be non-zero"),
                ),
            );
        }
        if self.num_blocks == 0 || self.page_block_size == 0 {
            return Err(
                Error::InvalidArgument(
                    String::from_str("num_blocks and page_block_size must be non-zero"),
                ),
            );
        }
        if self.page_block_size != 64 {
            return Err(
                Error::InvalidArgument(
                    labelled(
                        "dense decode requires page_block_size to be 64, got ",
                        number(self.page_block_size).as_str(),
                    ),
                ),
            );
        }
        if self.h_q % self.h_k != 0 {
            return Err(
                Error::InvalidArgument(
                    labelled("h_k (", number(self.h_k).as_str()).concat(
                        ") must divide h_q (",
                    ).concat(number(self.h_q).as_str()).concat(")"),
                ),
            );
        }
        if self.d_qk != 512 && self.d_qk != 576 {
            return Err(
                Error::InvalidArgument(
                    labelled("d_qk must be 512 or 576, got ", number(self.d_qk).as_str()),
                ),
            );
        }
        if self.d_v != 512 {
            return Err(
                Error::InvalidArgument(
                    labelled("d_v must be 512, got ", number(self.d_v).as_str()),
                ),
            );
        }
        self.q_seq_per_hk()?;
        Ok(())
    }

    /// Returns the number of query heads grouped under each KV head.
    pub fn q_heads_per_hk(self) -> (r: Result<usize, Error>)
        ensures
            failure(r) == self.grouping_error(),
            r matches Ok(n) ==> n == self.heads_per_hk(),
    {
        if self.h_k == 0 || self.h_q % self.h_k != 0 {
            return Err(
                Error::InvalidArgument(String::from_str("h_k must be non-zero and divide h_q")),
            );
        }
        Ok(self.h_q / self.h_k)
    }

    /// Returns the packed query row count per KV head.
    pub fn q_seq_per_hk(self) -> (r: Result<usize, Error>)
        ensures
            failure(r) == self.packing_error(),
            r matches Ok(n) ==> n == self.rows_per_hk(),
    {
        let heads = self.q_heads_per_hk()?;
        match self.s_q.checked_mul(heads) {
            Some(rows) => Ok(rows),
            None => Err(Error::InvalidArgument(String::from_str("q_seq_per_hk overflow"))),
        }
    }
}

/// Workspace and scheduler sizing returned by dense decode planning.
#[derive(Debug, Copy, Clone, PartialEq, Eq, Structural)]
pub struct DenseDecodePlanMeta {
    /// Number of SM partitions used by split-KV decode.
    pub num_sm_parts: usize,
    /// Fixed scheduler overhead, in KV blocks.
    pub fixed_overhead_num_blocks: usize,
    /// KV block size used by the scheduler.
    pub block_size_n: usize,
    /// Packed query sequence length per KV head.
    pub q_seq_per_hk: usize,
    /// Required I32 elements in scheduler metadata.
    pub scheduler_metadata_i32_len: usize,
    /// Required I32 elements in split offsets.
    pub num_splits_len: usize,
    /// Required F32 elements in dense internal LSE accumulation workspace.
    pub lse_accum_elem_count: usize,
    /// Required F32 elements in dense internal output accumulation workspace.
    pub o_accum_elem_count: usize,
}

/// The first field of a raw dense decode plan that is negative.
pub open spec fn plan_result_error(result: flashmla_dense_decode_plan_result_t) -> Option<
    ErrorModel,
> {
    first(negative_error(result.num_sm_parts, "num_sm_parts"@),
    first(negative_error(result.fixed_overhead_num_blocks, "fixed_overhead_num_blocks"@),
    first(negative_error(result.block_size_n, "block_size_n"@),
        negative_error(result.q_seq_per_hk, "q_seq_per_hk"@))))
}

/// Whether `meta` holds the numbers of the raw plan `result`.
pub open spec fn meta_matches(
    meta: DenseDecodePlanMeta,
    result: flashmla_dense_decode_plan_result_t,
) -> bool {
    &&& meta.num_sm_parts == result.num_sm_parts
    &&& meta.fixed_overhead_num_blocks == result.fixed_overhead_num_blocks
    &&& meta.block_size_n == result.block_size_n
    &&& meta.q_seq_per_hk == result.q_seq_per_hk
    &&& meta.scheduler_metadata_i32_len == result.scheduler_metadata_i32_len
    &&& meta.num_splits_len == result.num_splits_len
    &&& meta.lse_accum_elem_count == result.lse_accum_elem_count
    &&& meta.o_accum_elem_count == result.o_accum_elem_count
}

/// Why a planning call that returned `status` and `result` produced no plan, if it did not.
pub open spec fn plan_error(
    status: flashmla_status_t,
    result: flashmla_dense_decode_plan_result_t,
    last_error: Option<Seq<char>>,
) -> Option<ErrorModel> {
    if status == flashmla_status_t::FLASHMLA_STATUS_SUCCESS {
        plan_result_error(result)
    } else {
        Some(status_error(status, with_last_error("dense decode planning failed"@, last_error)))
    }
}

impl DenseDecodePlanMeta {
    /// Converts the raw plan result into workspace metadata.
    pub fn from_sys(result: flashmla_dense_decode_plan_result_t) -> (r: Result<
        DenseDecodePlanMeta,
        Error,
    >)
        ensures
            failure(r) == plan_result_error(result),
            r matches Ok(meta) ==> meta_matches(meta, result),
    {
        Ok(
            DenseDecodePlanMeta {
                num_sm_parts: checked_usize(result.num_sm_parts, "num_sm_parts")?,
                fixed_overhead_num_blocks: checked_usize(
                    result.fixed_overhead_num_blocks,
                    "fixed_overhead_num_blocks",
                )?,
                block_size_n: checked_usize(result.block_size_n, "block_size_n")?,
                q_seq_per_hk: checked_usize(result.q_seq_per_hk, "q_seq_per_hk")?,
                scheduler_metadata_i32_len: result.scheduler_metadata_i32_len,
                num_splits_len: result.num_splits_len,
                lse_accum_elem_count: result.lse_accum_elem_count,
                o_accum_elem_count: result.o_accum_elem_count,
            },
        )
    }

    /// Interprets what a planning call returned.
    pub fn from_reply(
        status: flashmla_status_t,
        result: flashmla_dense_decode_plan_result_t,
        last_error: Option<String>,
    ) -> (r: Result<DenseDecodePlanMeta, Error>)
        ensures
            failure(r) == plan_error(status, result, message_of(last_error)),
            r matches Ok(meta) ==> meta_matches(meta, result),
    {
        if status == flashmla_status_t::FLASHMLA_STATUS_SUCCESS {
            DenseDecodePlanMeta::from_sys(result)
        } else {
            Err(
                Error::from_status(
                    status,
                    String::from_str("dense decode planning failed"),
                    last_error,
                ),
            )
        }
    }

    /// Why the split row count cannot be computed, if it cannot.
    pub open spec fn splits_error(self, dims: DenseDecodeDims) -> Option<ErrorModel> {
        if dims.batch + self.num_sm_parts > usize::MAX {
            invalid("total_num_splits overflow"@)
        } else {
            None
        }
    }

    /// Returns the total number of split rows in dense decode accumulation workspaces.
    pub fn total_num_splits(self, dims: DenseDecodeDims) -> (r: Result<usize, Error>)
        ensures
            failure(r) == self.splits_error(dims),
            r matches Ok(n) ==> n == dims.batch + self.num_sm_parts,
    {
        match dims.batch.checked_add(self.num_sm_parts) {
            Some(n) => Ok(n),
            None => Err(Error::InvalidArgument(String::from_str("total_num_splits overflow"))),
        }
    }
}

/// Parameters for dense decode planning and scheduler metadata generation.
#[derive(Debug, Copy, Clone, PartialEq, Eq)]
pub struct DenseDecodePlanParams {
    /// Dense decode tensor dimensions.
    pub dims: DenseDecodeDims,
    /// Optional raw I32 KV sequence lengths pointer shaped `[batch]`.
    pub seqlens_k: DevicePtr,
    /// Optional writable I32 scheduler metadata buffer.
    pub tile_scheduler_metadata: DevicePtr,
    /// Optional writable I32 split-offset buffer.
    pub num_splits: DevicePtr,
    /// Number of SMs on the target CUDA device.
    pub num_sm: usize,
    /// CUDA stream used for optional metadata generation.
    pub stream: cudaStream_t,
}

impl DenseDecodePlanParams {
    /// Whether planning can run with these parameters: both metadata buffers or none, and the
    /// sequence lengths whenever metadata is generated.
    pub open spec fn valid(self) -> bool {
        &&& self.dims.supported()
        &&& self.num_sm > 0
        &&& self.tile_scheduler_metadata.is_null() <==> self.num_splits.is_null()
        &&& !self.tile_scheduler_metadata.is_null() ==> !self.seqlens_k.is_null()
    }

    /// The first planning constraint that these parameters violate.
    pub open spec fn error(self) -> Option<ErrorModel> {
        first(
            self.dims.shape_error(),
            if self.num_sm == 0 {
                invalid("num_sm must be non-zero"@)
            } else if self.tile_scheduler_metadata.is_null() != self.num_splits.is_null() {
                invalid(
                    "tile_scheduler_metadata and num_splits must both be null or both be non-null"@,
                )
            } else if !self.tile_scheduler_metadata.is_null() && self.seqlens_k.is_null() {
                invalid("seqlens_k must be non-null when generating dense decode metadata"@)
            } else {
                None
            },
        )
    }

    /// The first size that does not fit in the C ABI.
    pub open spec fn size_error(self) -> Option<ErrorModel> {
        first(i32_error(self.dims.batch, "batch"@),
        first(i32_error(self.dims.s_q, "s_q"@),
        first(i32_error(self.dims.h_q, "h_q"@),
        first(i32_error(self.dims.h_k, "h_k"@),
            i32_error(self.num_sm, "num_sm"@)))))
    }

    /// The C ABI parameter block of these parameters.
    pub open spec fn block(self) -> flashmla_dense_decode_plan_params_t {
        flashmla_dense_decode_plan_params_t {
            batch: self.dims.batch as i32,
            s_q: self.dims.s_q as i32,
            h_q: self.dims.h_q as i32,
            h_k: self.dims.h_k as i32,
            d_qk: self.dims.d_qk as i32,
            d_v: self.dims.d_v as i32,
            seqlens_k: self.seqlens_k,
            tile_scheduler_metadata: self.tile_scheduler_metadata,
            num_splits: self.num_splits,
            num_sm: self.num_sm as i32,
            stream: self.stream,
        }
    }

    /// Validates the parameters of a planning call.
    pub fn validate(self) -> (r: Result<(), Error>)
        ensures
            failure(r) == self.error(),
            r is Ok <==> self.valid(),
    {
        self.dims.validate()?;
        if self.num_sm == 0 {
            return Err(Error::InvalidArgument(String::from_str("num_sm must be non-zero")));
        }
        if self.tile_scheduler_metadata.is_null() != self.num_splits.is_null() {
            return Err(
                Error::InvalidArgument(
                    String::from_str(
                        "tile_scheduler_metadata and num_splits must both be null or both be non-null",
                    ),
                ),
            );
        }
        if !self.tile_scheduler_metadata.is_null() && self.seqlens_k.is_null() {
            return Err(
                Error::InvalidArgument(
                    String::from_str(
                        "seqlens_k must be non-null when generating dense decode metadata",
                    ),
                ),
            );
        }
        Ok(())
    }

    /// Builds the C ABI parameter block for a planning call.
    pub fn to_sys(self) -> (r: Result<flashmla_dense_decode_plan_params_t, Error>)
        ensures
            failure(r) == first(self.error(), self.size_error()),
            r is Ok ==> self.valid(),
            r matches Ok(block) ==> block == self.block(),
    {
        self.validate()?;
        Ok(
            flashmla_dense_decode_plan_params_t {
                batch: checked_i32(self.dims.batch, "batch")?,
                s_q: checked_i32(self.dims.s_q, "s_q")?,
                h_q: checked_i32(self.dims.h_q, "h_q")?,
                h_k: checked_i32(self.dims.h_k, "h_k")?,
                d_qk: checked_i32(self.dims.d_qk, "d_qk")?,
                d_v: checked_i32(self.dims.d_v, "d_v")?,
                seqlens_k: self.seqlens_k,
                tile_scheduler_metadata: self.tile_scheduler_metadata,
                num_splits: self.num_splits,
                num_sm: checked_i32(self.num_sm, "num_sm")?,
                stream: self.stream,
            },
        )
    }
}

/// Element strides for raw dense decode tensors.
#[derive(Debug, Copy, Clone, PartialEq, Eq)]
pub struct DenseDecodeStrides {
    /// Element stride between packed query batches.
    pub q_b: usize,
    /// Element stride between packed query rows.
    pub q_row: usize,
    /// Element stride between packed query KV heads.
    pub q_head: usize,
    /// Element stride between KV cache pages.
    pub k_block: usize,
    /// Element stride between KV cache rows.
    pub k_row: usize,
    /// Element stride between KV cache heads.
    pub k_head: usize,
    /// Element stride between block-table batches.
    pub block_table_b: usize,
}

impl DenseDecodeStrides {
    /// Whether every stride is positive and fits in the C ABI.
    pub open spec fn valid(self) -> bool {
        &&& is_stride(self.q_b)
        &&& is_stride(self.q_row)
        &&& is_stride(self.q_head)
        &&& is_stride(self.k_block)
        &&& is_stride(self.k_row)
        &&& is_stride(self.k_head)
        &&& is_stride(self.block_table_b)
    }

    /// The first stride that is not usable.
    pub open spec fn error(self) -> Option<ErrorModel> {
        first(stride_error(self.q_b, "q_b"@),
        first(stride_error(self.q_row, "q_row"@),
        first(stride_error(self.q_head, "q_head"@),
        first(stride_error(self.k_block, "k_block"@),
        first(stride_error(self.k_row, "k_row"@),
        first(stride_error(self.k_head, "k_head"@),
            stride_error(self.block_table_b, "block_table_b"@)))))))
    }

    /// Validates that all raw tensor strides are positive and fit in the C ABI.
    pub fn validate(self) -> (r: Result<(), Error>)
        ensures
            failure(r) == self.error(),
            r is Ok <==> self.valid(),
    {
        checked_stride(self.q_b, "q_b")?;
        checked_stride(self.q_row, "q_row")?;
        checked_stride(self.q_head, "q_head")?;
        checked_stride(self.k_block, "k_block")?;
        checked_stride(self.k_row, "k_row")?;
        checked_stride(self.k_head, "k_head")?;
        checked_stride(self.block_table_b, "block_table_b")?;
        Ok(())
    }
}

/// Parameters for launching BF16 dense decode.
#[derive(Debug, Copy, Clone, PartialEq, Eq)]
pub struct DenseDecodeLaunchParams {
    /// Dense decode tensor dimensions.
    pub dims: DenseDecodeDims,
    /// Dense decode runtime options.
    pub config: DenseDecodeConfig,
    /// Raw BF16 packed query pointer with shape `[batch, q_seq_per_hk, h_k, d_qk]`.
    pub q: DevicePtr,
    /// Raw BF16 KV cache pointer with shape `[num_blocks, page_block_size, h_k, d_qk]`.
    pub kcache: DevicePtr,
    /// Raw I32 KV sequence lengths pointer with shape `[batch]`.
    pub seqlens_k: DevicePtr,
    /// Raw I32 block table pointer with shape `[batch, max_num_blocks_per_seq]`.
    pub block_table: DevicePtr,
    /// Raw BF16 internal output pointer with shape `[batch, h_k, q_seq_per_hk, d_v]`.
    pub out: DevicePtr,
    /// Raw F32 internal LSE pointer with shape `[batch, h_k, q_seq_per_hk]`.
    pub lse: DevicePtr,
    /// Raw F32 LSE accumulation workspace pointer.
    pub lse_accum: DevicePtr,
    /// Raw F32 output accumulation workspace pointer.
    pub o_accum: DevicePtr,
    /// Element strides for packed query, KV cache, and block table.
    pub strides: DenseDecodeStrides,
    /// Raw I32 scheduler metadata pointer generated by dense decode planning.
    pub tile_scheduler_metadata: DevicePtr,
    /// Raw I32 split-offset pointer generated by dense decode planning.
    pub num_splits: DevicePtr,
    /// Number of SM partitions from dense decode planning.
    pub num_sm_parts: usize,
    /// CUDA stream used for decode and combine launches.
    pub stream: cudaStream_t,
}

impl DenseDecodeLaunchParams {
    /// Whether every pointer that a launch needs is given.
    pub open spec fn has_pointers(self) -> bool {
        &&& !self.q.is_null()
        &&& !self.kcache.is_null()
        &&& !self.seqlens_k.is_null()
        &&& !self.block_table.is_null()
        &&& !self.out.is_null()
        &&& !self.lse.is_null()
        &&& !self.lse_accum.is_null()
        &&& !self.o_accum.is_null()
        &&& !self.tile_scheduler_metadata.is_null()
        &&& !self.num_splits.is_null()
    }

    /// Whether a launch can run with these parameters.
    pub open spec fn valid(self) -> bool {
        &&& self.dims.supported()
        &&& self.strides.valid()
        &&& self.config.d_v == self.dims.d_v
        &&& self.has_pointers()
        &&& self.num_sm_parts > 0
    }

    /// The first launch constraint that these parameters violate.
    pub open spec fn error(self) -> Option<ErrorModel> {
        first(
            self.dims.shape_error(),
            first(
                self.strides.error(),
                if self.config.d_v != self.dims.d_v {
                    invalid(
                        "config d_v ("@ + decimal(self.config.d_v as nat)
                            + ") must match dims d_v ("@ + decimal(self.dims.d_v as nat) + ")"@,
                    )
                } else if !self.has_pointers() {
                    invalid(
                        "q, kcache, seqlens_k, block_table, out, lse, lse_accum, o_accum, tile_scheduler_metadata, and num_splits pointers must be non-null"@,
                    )
                } else if self.num_sm_parts == 0 {
                    invalid("num_sm_parts must be non-zero"@)
                } else {
                    None
                },
            ),
        )
    }

    /// The first size that does not fit in the C ABI.
    pub open spec fn size_error(self) -> Option<ErrorModel> {
        first(i32_error(self.dims.batch, "batch"@),
        first(i32_error(self.dims.s_q, "s_q"@),
        first(i32_error(self.dims.h_q, "h_q"@),
        first(i32_error(self.dims.h_k, "h_k"@),
        first(i32_error(self.dims.num_blocks, "num_blocks"@),
            i32_error(self.num_sm_parts, "num_sm_parts"@))))))
    }

    /// The C ABI parameter block of these parameters.
    pub open spec fn block(self) -> flashmla_dense_decode_params_t {
        flashmla_dense_decode_params_t {
            batch: self.dims.batch as i32,
            s_q: self.dims.s_q as i32,
            h_q: self.dims.h_q as i32,
            h_k: self.dims.h_k as i32,
            d_qk: self.dims.d_qk as i32,
            d_v: self.dims.d_v as i32,
            num_blocks: self.dims.num_blocks as i32,
            page_block_size: self.dims.page_block_size as i32,
            is_causal: if self.config.is_causal {
                1
            } else {
                0
            },
            sm_scale_bits: self.config.softmax_scale_bits,
            q: self.q,
            kcache: self.kcache,
            seqlens_k: self.seqlens_k,
            block_table: self.block_table,
            out: self.out,
            lse: self.lse,
            lse_accum: self.lse_accum,
            o_accum: self.o_accum,
            stride_q_b: self.strides.q_b as i32,
            stride_q_row: self.strides.q_row as i32,
            stride_q_head: self.strides.q_head as i32,
            stride_k_block: self.strides.k_block as i32,
            stride_k_row: self.strides.k_row as i32,
            stride_k_head: self.strides.k_head as i32,
            stride_block_table_b: self.strides.block_table_b as i32,
            tile_scheduler_metadata: self.tile_scheduler_metadata,
            num_splits: self.num_splits,
            num_sm_parts: self.num_sm_parts as i32,
            stream: self.stream,
        }
    }

    /// Validates the parameters of a launch.
    pub fn validate(self) -> (r: Result<(), Error>)
        ensures
            failure(r) == self.error(),
            r is Ok <==> self.valid(),
    {
        self.dims.validate()?;
        self.strides.validate()?;
        if self.config.d_v != self.dims.d_v {
            return Err(
                Error::InvalidArgument(
                    labelled("config d_v (", number(self.config.d_v).as_str()).concat(
                        ") must match dims d_v (",
                    ).concat(number(self.dims.d_v).as_str()).concat(")"),
                ),
            );
        }
        if self.q.is_null() || self.kcache.is_null() || self.seqlens_k.is_null()
            || self.block_table.is_null() || self.out.is_null() || self.lse.is_null()
            || self.lse_accum.is_null() || self.o_accum.is_null()
            || self.tile_scheduler_metadata.is_null() || self.num_splits.is_null() {
            return Err(
                Error::InvalidArgument(
                    String::from_str(
                        "q, kcache, seqlens_k, block_table, out, lse, lse_accum, o_accum, tile_scheduler_metadata, and num_splits pointers must be non-null",
                    ),
                ),
            );
        }
        if self.num_sm_parts == 0 {
            return Err(Error::InvalidArgument(String::from_str("num_sm_parts must be non-zero")));
        }
        Ok(())
    }

    /// Builds the C ABI parameter block for a launch.
    pub fn to_sys(self) -> (r: Result<flashmla_dense_decode_params_t, Error>)
        ensures
            failure(r) == first(self.error(), self.size_error()),
            r is Ok ==> self.valid(),
            r matches Ok(block) ==> block == self.block(),
    {
        self.validate()?;
        Ok(
            flashmla_dense_decode_params_t {
                batch: checked_i32(self.dims.batch, "batch")?,
                s_q: checked_i32(self.dims.s_q, "s_q")?,
                h_q: checked_i32(self.dims.h_q, "h_q")?,
                h_k: checked_i32(self.dims.h_k, "h_k")?,
                d_qk: checked_i32(self.dims.d_qk, "d_qk")?,
                d_v: checked_i32(self.dims.d_v, "d_v")?,
                num_blocks: checked_i32(self.dims.num_blocks, "num_blocks")?,
                page_block_size: checked_i32(self.dims.page_block_size, "page_block_size")?,
                is_causal: if self.config.is_causal {
                    1
                } else {
                    0
                },
                sm_scale_bits: self.config.softmax_scale_bits,
                q: self.q,
                kcache: self.kcache,
                seqlens_k: self.seqlens_k,
                block_table: self.block_table,
                out: self.out,
                lse: self.lse,
                lse_accum: self.lse_accum,
                o_accum: self.o_accum,
                stride_q_b: checked_stride(self.strides.q_b, "q_b")?,
                stride_q_row: checked_stride(self.strides.q_row, "q_row")?,
                stride_q_head: checked_stride(self.strides.q_head, "q_head")?,
                stride_k_block: checked_stride(self.strides.k_block, "k_block")?,
                stride_k_row: checked_stride(self.strides.k_row, "k_row")?,
                stride_k_head: checked_stride(self.strides.k_head, "k_head")?,
                stride_block_table_b: checked_stride(self.strides.block_table_b, "block_table_b")?,
                tile_scheduler_metadata: self.tile_scheduler_metadata,
                num_splits: self.num_splits,
                num_sm_parts: checked_i32(self.num_sm_parts, "num_sm_parts")?,
                stream: self.stream,
            },
        )
    }
}

/// Interprets the status of a dense decode launch.
pub fn dense_decode_outcome(status: flashmla_status_t, last_error: Option<String>) -> (r: Result<
    (),
    Error,
>)
    ensures
        failure(r) == call_error(status, "dense decode launch failed"@, message_of(last_error)),
{
    if status == flashmla_status_t::FLASHMLA_STATUS_SUCCESS {
        Ok(())
    } else {
        Err(
            Error::from_status(
                status,
                String::from_str("dense decode launch failed"),
                last_error,
            ),
        )
    }
}

/// Packing regroups the query heads without adding or dropping any: over all KV heads, the packed
/// rows are as many as the query positions times the query heads.
pub proof fn packing_keeps_row_count(dims: DenseDecodeDims)
    requires
        dims.groups_heads(),
    ensures
        dims.heads_per_hk() * dims.h_k == dims.h_q,
        dims.rows_per_hk() * dims.h_k == dims.s_q * dims.h_q,
{
    let g = dims.heads_per_hk();
    vstd::arithmetic::div_mod::lemma_fundamental_div_mod(dims.h_q as int, dims.h_k as int);
    vstd::arithmetic::mul::lemma_mul_is_commutative(g, dims.h_k as int);
    vstd::arithmetic::mul::lemma_mul_is_associative(dims.s_q as int, g, dims.h_k as int);
}

/// The shapes that are accepted: at least one batch entry, query position and cache page, pages of
/// 64 tokens, query heads in equal groups on the KV heads, 512-wide values under 512- or 576-wide
/// keys, and packed rows that a size can count.
pub proof fn accepted_shapes(dims: DenseDecodeDims)
    ensures
        dims.shape_error() is None <==> {
            &&& dims.batch >= 1 && dims.s_q >= 1 && dims.num_blocks >= 1
            &&& dims.page_block_size == 64
            &&& dims.d_v == 512
            &&& dims.d_qk == 512 || dims.d_qk == 576
            &&& dims.h_q >= 1 && dims.h_k >= 1 && dims.h_q % dims.h_k == 0
            &&& dims.s_q * (dims.h_q as int / dims.h_k as int) <= usize::MAX
        },
        dims.supported() <==> dims.shape_error() is None,
{
}

/// The group size and the packed row count are computed if and only if the heads form equal groups
/// and, for the rows, a size can count them. Together the groups hold every query head, and the
/// packed rows every query head at every position.
pub proof fn groups_and_rows(dims: DenseDecodeDims)
    ensures
        dims.grouping_error() is None <==> dims.h_k >= 1 && dims.h_q % dims.h_k == 0,
        dims.packing_error() is None <==> dims.h_k >= 1 && dims.h_q % dims.h_k == 0 && dims.s_q * (
        dims.h_q as int / dims.h_k as int) <= usize::MAX,
        dims.grouping_error() is None ==> dims.heads_per_hk() * dims.h_k == dims.h_q,
        dims.grouping_error() is None ==> dims.rows_per_hk() * dims.h_k == dims.s_q * dims.h_q,
{
    if dims.groups_heads() {
        packing_keeps_row_count(dims);
    }
}

/// Planning calls that are accepted: an accepted shape, a multiprocessor, both metadata buffers or
/// neither, and KV lengths wherever there are metadata buffers.
pub proof fn accepted_planning_calls(params: DenseDecodePlanParams)
    ensures
        params.error() is None <==> {
            &&& params.dims.shape_error() is None
            &&& params.num_sm >= 1
            &&& params.tile_scheduler_metadata.addr == 0 <==> params.num_splits.addr == 0
            &&& params.tile_scheduler_metadata.addr != 0 ==> params.seqlens_k.addr != 0
        },
        params.valid() <==> params.error() is None,
{
}

/// Launches that are accepted: an accepted shape, positive strides that the C ABI can hold, a value
/// width that the configuration agrees with, every buffer that the kernels read or write, and a
/// partition.
pub proof fn accepted_launches(params: DenseDecodeLaunchParams)
    ensures
        params.error() is None <==> {
            let s = params.strides;
            &&& params.dims.shape_error() is None
            &&& 1 <= s.q_b <= 0x7fff_ffff && 1 <= s.q_row <= 0x7fff_ffff && 1 <= s.q_head
                <= 0x7fff_ffff
            &&& 1 <= s.k_block <= 0x7fff_ffff && 1 <= s.k_row <= 0x7fff_ffff && 1 <= s.k_head
                <= 0x7fff_ffff
            &&& 1 <= s.block_table_b <= 0x7fff_ffff
            &&& params.config.d_v == params.dims.d_v
            &&& params.q.addr != 0 && params.kcache.addr != 0 && params.seqlens_k.addr != 0
            &&& params.block_table.addr != 0 && params.out.addr != 0 && params.lse.addr != 0
            &&& params.lse_accum.addr != 0 && params.o_accum.addr != 0
            &&& params.tile_scheduler_metadata.addr != 0 && params.num_splits.addr != 0
            &&& params.num_sm_parts >= 1
        },
        params.valid() <==> params.error() is None,
{
}

/// Sizes that the C ABI can hold are those up to the largest 32-bit integer.
pub proof fn convertible_calls(plan: DenseDecodePlanParams, launch: DenseDecodeLaunchParams)
    ensures
        plan.size_error() is None <==> {
            &&& plan.dims.batch <= 0x7fff_ffff && plan.dims.s_q <= 0x7fff_ffff
            &&& plan.dims.h_q <= 0x7fff_ffff && plan.dims.h_k <= 0x7fff_ffff
            &&& plan.num_sm <= 0x7fff_ffff
        },
        launch.size_error() is None <==> {
            &&& launch.dims.batch <= 0x7fff_ffff && launch.dims.s_q <= 0x7fff_ffff
            &&& launch.dims.h_q <= 0x7fff_ffff && launch.dims.h_k <= 0x7fff_ffff
            &&& launch.dims.num_blocks <= 0x7fff_ffff && launch.num_sm_parts <= 0x7fff_ffff
        },
{
}

/// A plan that is read back from a successful planning call holds the numbers of the call, each in
/// its role, and it is read back if and only if none of them is negative.
pub proof fn plans_are_read_back(
    meta: DenseDecodePlanMeta,
    result: flashmla_dense_decode_plan_result_t,
    last_error: Option<Seq<char>>,
)
    ensures
        plan_error(flashmla_status_t::FLASHMLA_STATUS_SUCCESS, result, last_error) is None
            <==> result.num_sm_parts >= 0 && result.fixed_overhead_num_blocks >= 0
            && result.block_size_n >= 0 && result.q_seq_per_hk >= 0,
        plan_error(flashmla_status_t::FLASHMLA_STATUS_SUCCESS, result, last_error)
            == plan_result_error(result),
        forall|status: flashmla_status_t|
            status.code() != 0 ==> #[trigger] plan_error(status, result, last_error) == call_error(
                status,
                "dense decode planning failed"@,
                last_error,
            ),
        meta_matches(meta, result) <==> {
            &&& meta.num_sm_parts == result.num_sm_parts
            &&& meta.fixed_overhead_num_blocks == result.fixed_overhead_num_blocks
            &&& meta.block_size_n == result.block_size_n
            &&& meta.q_seq_per_hk == result.q_seq_per_hk
            &&& meta.scheduler_metadata_i32_len == result.scheduler_metadata_i32_len
            &&& meta.num_splits_len == result.num_splits_len
            &&& meta.lse_accum_elem_count == result.lse_accum_elem_count
            &&& meta.o_accum_elem_count == result.o_accum_elem_count
        },
{
}

/// The number of split rows is refused if and only if it exceeds the range of sizes.
pub proof fn split_rows_are_bounded(meta: DenseDecodePlanMeta, dims: DenseDecodeDims)
    ensures
        meta.splits_error(dims) is None <==> dims.batch + meta.num_sm_parts <= usize::MAX,
{
}

/// The parameter block of an accepted planning call holds the very sizes, buffers and stream that
/// were given.
pub proof fn plan_blocks_are_exact(params: DenseDecodePlanParams)
    requires
        params.error() is None,
        params.size_error() is None,
    ensures
        params.block().batch == params.dims.batch,
        params.block().s_q == params.dims.s_q,
        params.block().h_q == params.dims.h_q,
        params.block().h_k == params.dims.h_k,
        params.block().d_qk == params.dims.d_qk,
        params.block().d_v == params.dims.d_v,
        params.block().num_sm == params.num_sm,
        params.block().seqlens_k.addr == params.seqlens_k.addr,
        params.block().tile_scheduler_metadata.addr == params.tile_scheduler_metadata.addr,
        params.block().num_splits.addr == params.num_splits.addr,
        params.block().stream.handle == params.stream.handle,
{
}

/// The parameter block of an accepted launch holds the very sizes, strides, runtime options, buffers
/// and stream that were given, each in its role.
pub proof fn launch_blocks_are_exact(params: DenseDecodeLaunchParams)
    requires
        params.error() is None,
        params.size_error() is None,
    ensures
        params.block().batch == params.dims.batch,
        params.block().s_q == params.dims.s_q,
        params.block().h_q == params.dims.h_q,
        params.block().h_k == params.dims.h_k,
        params.block().d_qk == params.dims.d_qk,
        params.block().d_v == params.dims.d_v,
        params.block().num_blocks == params.dims.num_blocks,
        params.block().page_block_size == params.dims.page_block_size,
        params.block().stride_q_b == params.strides.q_b,
        params.block().stride_q_row == params.strides.q_row,
        params.block().stride_q_head == params.strides.q_head,
        params.block().stride_k_block == params.strides.k_block,
        params.block().stride_k_row == params.strides.k_row,
        params.block().stride_k_head == params.strides.k_head,
        params.block().stride_block_table_b == params.strides.block_table_b,
        params.block().num_sm_parts == params.num_sm_parts,
        params.block().sm_scale_bits == params.config.softmax_scale_bits,
        params.block().is_causal != 0 <==> params.config.is_causal,
        params.block().q.addr == params.q.addr,
        params.block().kcache.addr == params.kcache.addr,
        params.block().seqlens_k.addr == params.seqlens_k.addr,
        params.block().block_table.addr == params.block_table.addr,
        params.block().out.addr == params.out.addr,
        params.block().lse.addr == params.lse.addr,
        params.block().lse_accum.addr == params.lse_accum.addr,
        params.block().o_accum.addr == params.o_accum.addr,
        params.block().tile_scheduler_metadata.addr == params.tile_scheduler_metadata.addr,
        params.block().num_splits.addr == params.num_splits.addr,
        params.block().stream.handle == params.stream.handle,
{
}

} // verus!
