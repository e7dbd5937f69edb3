//! Value types of the FlashMLA C ABI: status codes and launch parameter blocks.
//!
//! Addresses and stream handles are carried as integers, and the softmax scale as its bit pattern;
//! nothing here dereferences or computes with them.

use crate::error::Error;
use crate::error::ErrorModel;
use vstd::prelude::*;

verus! {

/// Address in CUDA device memory. Zero is the null pointer.
#[derive(Debug, Copy, Clone, PartialEq, Eq)]
pub struct DevicePtr {
    /// Byte address.
    pub addr: u64,
}

impl DevicePtr {
    /// Returns the null pointer.
    pub fn null() -> (p: DevicePtr)
        ensures
            p.is_null_spec(),
    {
        DevicePtr { addr: 0 }
    }

    /// Whether this is the null pointer.
    pub open spec fn is_null_spec(self) -> bool {
        self.addr == 0
    }

    /// Whether this is the null pointer.
    #[verifier::when_used_as_spec(is_null_spec)]
    pub fn is_null(self) -> (b: bool)
        ensures
            b == self.is_null_spec(),
    {
        self.addr == 0
    }
}

/// Opaque CUDA stream handle used by the FlashMLA C ABI. Zero is the default stream.
#[allow(non_camel_case_types)]
#[derive(Debug, Copy, Clone, PartialEq, Eq)]
pub struct cudaStream_t {
    /// Handle value.
    pub handle: u64,
}

/// Status code returned by FlashMLA C ABI functions.
#[allow(non_camel_case_types)]
#[derive(Debug, Copy, Clone, PartialEq, Eq, Structural)]
pub enum flashmla_status_t {
    /// The operation completed successfully.
    FLASHMLA_STATUS_SUCCESS,
    /// A caller-provided argument was invalid.
    FLASHMLA_STATUS_INVALID_ARGUMENT,
    /// The selected GPU architecture is not supported.
    FLASHMLA_STATUS_UNSUPPORTED_ARCH,
    /// CUDA returned an error.
    FLASHMLA_STATUS_CUDA_ERROR,
    /// FlashMLA hit an unexpected internal error.
    FLASHMLA_STATUS_INTERNAL_ERROR,
}

impl flashmla_status_t {
    /// The integer that stands for this status in the C ABI.
    pub open spec fn code_spec(self) -> i32 {
        match self {
            flashmla_status_t::FLASHMLA_STATUS_SUCCESS => 0,
            flashmla_status_t::FLASHMLA_STATUS_INVALID_ARGUMENT => 1,
            flashmla_status_t::FLASHMLA_STATUS_UNSUPPORTED_ARCH => 2,
            flashmla_status_t::FLASHMLA_STATUS_CUDA_ERROR => 3,
            flashmla_status_t::FLASHMLA_STATUS_INTERNAL_ERROR => 4,
        }
    }

    /// The integer that stands for this status in the C ABI.
    #[verifier::when_used_as_spec(code_spec)]
    pub fn code(self) -> (code: i32)
        ensures
            code == self.code_spec(),
    {
        match self {
            flashmla_status_t::FLASHMLA_STATUS_SUCCESS => 0,
            flashmla_status_t::FLASHMLA_STATUS_INVALID_ARGUMENT => 1,
            flashmla_status_t::FLASHMLA_STATUS_UNSUPPORTED_ARCH => 2,
            flashmla_status_t::FLASHMLA_STATUS_CUDA_ERROR => 3,
            flashmla_status_t::FLASHMLA_STATUS_INTERNAL_ERROR => 4,
        }
    }

    /// The status that `code` stands for in the C ABI.
    pub fn from_code(code: i32) -> (r: Result<flashmla_status_t, Error>)
        ensures
            r is Ok <==> 0 <= code <= 4,
            r matches Ok(status) ==> status.code() == code,
            r matches Err(e) ==> e@ == ErrorModel::UnknownStatus(code as int),
    {
        match code {
            0 => Ok(flashmla_status_t::FLASHMLA_STATUS_SUCCESS),
            1 => Ok(flashmla_status_t::FLASHMLA_STATUS_INVALID_ARGUMENT),
            2 => Ok(flashmla_status_t::FLASHMLA_STATUS_UNSUPPORTED_ARCH),
            3 => Ok(flashmla_status_t::FLASHMLA_STATUS_CUDA_ERROR),
            4 => Ok(flashmla_status_t::FLASHMLA_STATUS_INTERNAL_ERROR),
            _ => Err(Error::UnknownStatus(code)),
        }
    }
}

/// The codes of the C ABI: zero is success and nothing else is, and the failures follow in the order
/// in which the ABI lists them.
pub proof fn status_codes_are_those_of_the_abi(status: flashmla_status_t)
    ensures
        status.code() == 0 <==> status == flashmla_status_t::FLASHMLA_STATUS_SUCCESS,
        status.code() == 1 <==> status == flashmla_status_t::FLASHMLA_STATUS_INVALID_ARGUMENT,
        status.code() == 2 <==> status == flashmla_status_t::FLASHMLA_STATUS_UNSUPPORTED_ARCH,
        status.code() == 3 <==> status == flashmla_status_t::FLASHMLA_STATUS_CUDA_ERROR,
        status.code() == 4 <==> status == flashmla_status_t::FLASHMLA_STATUS_INTERNAL_ERROR,
{
}

/// The null pointer is the address zero, and no other address is.
pub proof fn null_is_address_zero(p: DevicePtr)
    ensures
        p.is_null() <==> p.addr == 0,
{
}

/// Different statuses have different codes.
pub proof fn status_codes_are_distinct(a: flashmla_status_t, b: flashmla_status_t)
    ensures
        a.code() == b.code() ==> a == b,
{
}

/// Raw BF16 sparse prefill launch parameters.
///
/// All pointers are CUDA device pointers unless otherwise noted. Strides are element strides, not
/// byte strides. Optional pointers may be null.
#[allow(non_camel_case_types)]
#[derive(Debug, Copy, Clone, PartialEq, Eq)]
pub struct flashmla_sparse_prefill_params_t {
    /// Query sequence length.
    pub s_q: i32,
    /// KV sequence length.
    pub s_kv: i32,
    /// Query head count after padding.
    pub h_q: i32,
    /// KV head count.
    pub h_kv: i32,
    /// Query/key head dimension.
    pub d_qk: i32,
    /// Value head dimension.
    pub d_v: i32,
    /// Number of sparse KV indices per query.
    pub topk: i32,
    /// IEEE 754 single-precision bits of the softmax scale applied to QK logits.
    pub sm_scale_bits: u32,
    /// BF16 query pointer shaped `[s_q, h_q, d_qk]`.
    pub q: DevicePtr,
    /// BF16 KV pointer shaped `[s_kv, h_kv, d_qk]`.
    pub kv: DevicePtr,
    /// I32 sparse index pointer shaped `[s_q, h_kv, topk]`.
    pub indices: DevicePtr,
    /// Optional F32 attention sink pointer shaped `[h_q]`.
    pub attn_sink: DevicePtr,
    /// Optional I32 top-k length pointer shaped `[s_q]`.
    pub topk_length: DevicePtr,
    /// Element stride between query sequence positions.
    pub stride_q_s_q: i32,
    /// Element stride between query heads.
    pub stride_q_h_q: i32,
    /// Element stride between KV sequence positions.
    pub stride_kv_s_kv: i32,
    /// Element stride between KV heads.
    pub stride_kv_h_kv: i32,
    /// Element stride between sparse-index query positions.
    pub stride_indices_s_q: i32,
    /// Element stride between sparse-index KV heads.
    pub stride_indices_h_kv: i32,
    /// BF16 output pointer shaped `[s_q, h_q, d_v]`.
    pub out: DevicePtr,
    /// F32 max-logits output pointer shaped `[s_q, h_q]`.
    pub max_logits: DevicePtr,
    /// F32 log-sum-exp output pointer shaped `[s_q, h_q]`.
    pub lse: DevicePtr,
    /// Number of SMs to pass to the upstream kernel.
    pub num_sm: i32,
    /// CUDA stream used for the kernel launch.
    pub stream: cudaStream_t,
}

/// Raw sparse decode scheduler metadata generation parameters.
///
/// All pointers are CUDA device pointers unless otherwise noted. `tile_scheduler_metadata` and
/// `num_splits` may both be null to request size calculation without launching the metadata
/// kernel. If either output pointer is non-null, both must be valid writable buffers sized from
/// `flashmla_sparse_decode_plan_result_t`.
#[allow(non_camel_case_types)]
#[derive(Debug, Copy, Clone, PartialEq, Eq)]
pub struct flashmla_sparse_decode_plan_params_t {
    /// Batch size.
    pub batch: i32,
    /// Query sequence length.
    pub s_q: i32,
    /// Query head count after padding.
    pub h_q: i32,
    /// KV head count.
    pub h_kv: i32,
    /// Query/key head dimension.
    pub d_qk: i32,
    /// Value head dimension.
    pub d_v: i32,
    /// Number of sparse KV indices per query.
    pub topk: i32,
    /// Number of extra sparse KV indices per query, or zero when no extra cache is used.
    pub extra_topk: i32,
    /// Optional I32 top-k length pointer shaped `[batch]`.
    pub topk_length: DevicePtr,
    /// Optional I32 extra top-k length pointer shaped `[batch]`.
    pub extra_topk_length: DevicePtr,
    /// Optional writable I32 scheduler metadata buffer.
    pub tile_scheduler_metadata: DevicePtr,
    /// Optional writable I32 split-offset buffer shaped `[batch + 1]`.
    pub num_splits: DevicePtr,
    /// Number of SMs on the target CUDA device.
    pub num_sm: i32,
    /// CUDA stream used for optional metadata generation.
    pub stream: cudaStream_t,
}

/// Workspace sizing result for sparse decode.
#[allow(non_camel_case_types)]
#[derive(Debug, Copy, Clone, PartialEq, Eq)]
pub struct flashmla_sparse_decode_plan_result_t {
    /// Number of SM partitions used by split-KV decode.
    pub num_sm_parts: i32,
    /// Fixed scheduler overhead, in top-k blocks.
    pub fixed_overhead_num_blocks: i32,
    /// Top-k block size used by the scheduler.
    pub block_size_topk: i32,
    /// Required I32 elements in `tile_scheduler_metadata`.
    pub scheduler_metadata_i32_len: usize,
    /// Required I32 elements in `num_splits`.
    pub num_splits_len: usize,
    /// Required F32 elements in `lse_accum`.
    pub lse_accum_elem_count: usize,
    /// Required F32 elements in `o_accum`.
    pub o_accum_elem_count: usize,
}

/// Raw dense decode scheduler metadata generation parameters.
///
/// All pointers are CUDA device pointers unless otherwise noted. `seqlens_k` is required when
/// `tile_scheduler_metadata` and `num_splits` are non-null, and is shaped `[batch]` with I32
/// sequence lengths. The metadata outputs may both be null to request size calculation without
/// launching the metadata kernel.
#[allow(non_camel_case_types)]
#[derive(Debug, Copy, Clone, PartialEq, Eq)]
pub struct flashmla_dense_decode_plan_params_t {
    /// Batch size.
    pub batch: i32,
    /// Query sequence length before query-head packing.
    pub s_q: i32,
    /// Query head count.
    pub h_q: i32,
    /// KV head count.
    pub h_k: i32,
    /// Query/key head dimension.
    pub d_qk: i32,
    /// Value head dimension.
    pub d_v: i32,
    /// Optional I32 KV sequence lengths shaped `[batch]`.
    pub seqlens_k: DevicePtr,
    /// Optional writable I32 scheduler metadata buffer.
    pub tile_scheduler_metadata: DevicePtr,
    /// Optional writable I32 split-offset buffer shaped `[batch + 1]`.
    pub num_splits: DevicePtr,
    /// Number of SMs on the target CUDA device.
    pub num_sm: i32,
    /// CUDA stream used for optional metadata generation.
    pub stream: cudaStream_t,
}

/// Workspace sizing result for dense decode.
#[allow(non_camel_case_types)]
#[derive(Debug, Copy, Clone, PartialEq, Eq)]
pub struct flashmla_dense_decode_plan_result_t {
    /// Number of SM partitions used by split-KV decode.
    pub num_sm_parts: i32,
    /// Fixed scheduler overhead, in KV blocks.
    pub fixed_overhead_num_blocks: i32,
    /// KV block size used by the scheduler.
    pub block_size_n: i32,
    /// Packed query sequence length per KV head, equal to `s_q * h_q / h_k`.
    pub q_seq_per_hk: i32,
    /// Required I32 elements in `tile_scheduler_metadata`.
    pub scheduler_metadata_i32_len: usize,
    /// Required I32 elements in `num_splits`.
    pub num_splits_len: usize,
    /// Required F32 elements in dense internal LSE accumulation workspace.
    pub lse_accum_elem_count: usize,
    /// Required F32 elements in dense internal output accumulation workspace.
    pub o_accum_elem_count: usize,
}

/// Raw BF16 dense decode launch parameters.
///
/// `q` must use FlashMLA's packed query layout `[batch, s_q * h_q / h_k, h_k, d_qk]`. `kcache`
/// is BF16 and shaped `[num_blocks, page_block_size, h_k, d_qk]`. `out`, `lse`, `lse_accum`, and
/// `o_accum` use the upstream dense internal layouts documented by the safe wrapper layer. Strides
/// are element strides. The caller owns all input, output, workspace, metadata, and stream
/// lifetimes. Launches are enqueued on `stream` and are not synchronized by this function.
#[allow(non_camel_case_types)]
#[derive(Debug, Copy, Clone, PartialEq, Eq)]
pub struct flashmla_dense_decode_params_t {
    /// Batch size.
    pub batch: i32,
    /// Query sequence length before query-head packing.
    pub s_q: i32,
    /// Query head count.
    pub h_q: i32,
    /// KV head count.
    pub h_k: i32,
    /// Query/key head dimension.
    pub d_qk: i32,
    /// Value head dimension.
    pub d_v: i32,
    /// Number of KV cache pages.
    pub num_blocks: i32,
    /// Tokens per KV cache page. FlashMLA dense decode currently requires `64`.
    pub page_block_size: i32,
    /// Non-zero to apply causal masking. Ignored when `s_q == 1`.
    pub is_causal: i32,
    /// IEEE 754 single-precision bits of the softmax scale applied to QK logits.
    pub sm_scale_bits: u32,
    /// BF16 packed query pointer shaped `[batch, q_seq_per_hk, h_k, d_qk]`.
    pub q: DevicePtr,
    /// BF16 KV cache pointer shaped `[num_blocks, page_block_size, h_k, d_qk]`.
    pub kcache: DevicePtr,
    /// I32 KV sequence lengths shaped `[batch]`.
    pub seqlens_k: DevicePtr,
    /// I32 block table pointer shaped `[batch, max_num_blocks_per_seq]`.
    pub block_table: DevicePtr,
    /// BF16 internal output buffer shaped `[batch, h_k, q_seq_per_hk, d_v]`.
    pub out: DevicePtr,
    /// F32 internal LSE buffer shaped `[batch, h_k, q_seq_per_hk]`.
    pub lse: DevicePtr,
    /// F32 split-KV LSE accumulation buffer shaped `[batch + num_sm_parts, h_k, q_seq_per_hk]`.
    pub lse_accum: DevicePtr,
    /// F32 split-KV output accumulation buffer shaped `[batch + num_sm_parts, h_k, q_seq_per_hk, d_v]`.
    pub o_accum: DevicePtr,
    /// Element stride between packed query batches.
    pub stride_q_b: i32,
    /// Element stride between packed query rows.
    pub stride_q_row: i32,
    /// Element stride between packed query KV heads.
    pub stride_q_head: i32,
    /// Element stride between KV cache pages.
    pub stride_k_block: i32,
    /// Element stride between KV cache rows.
    pub stride_k_row: i32,
    /// Element stride between KV cache heads.
    pub stride_k_head: i32,
    /// Element stride between block-table batches.
    pub stride_block_table_b: i32,
    /// I32 scheduler metadata buffer generated by `flashmla_dense_decode_plan`.
    pub tile_scheduler_metadata: DevicePtr,
    /// I32 split-offset buffer generated by `flashmla_dense_decode_plan`.
    pub num_splits: DevicePtr,
    /// Number of SM partitions from the plan result.
    pub num_sm_parts: i32,
    /// CUDA stream used for dense decode and combine launches.
    pub stream: cudaStream_t,
}

/// Raw BF16-query and FP8-cache sparse decode launch parameters.
///
/// `q`, `out`, and the final output dtype are BF16. `kv` and `extra_kv` point at FlashMLA's
/// packed FP8 KV-cache byte layout. `indices`, `topk_length`, `extra_indices`,
/// `extra_topk_length`, `tile_scheduler_metadata`, and `num_splits` are I32 buffers. `lse`,
/// `lse_accum`, and `o_accum` are F32 buffers. Strides are element strides for each tensor's
/// dtype, which means packed FP8 KV strides are byte strides.
#[allow(non_camel_case_types)]
#[derive(Debug, Copy, Clone, PartialEq, Eq)]
pub struct flashmla_sparse_decode_params_t {
    /// Batch size.
    pub batch: i32,
    /// Query sequence length.
    pub s_q: i32,
    /// Query head count after padding.
    pub h_q: i32,
    /// KV head count.
    pub h_kv: i32,
    /// Query/key head dimension.
    pub d_qk: i32,
    /// Value head dimension.
    pub d_v: i32,
    /// Number of KV cache pages.
    pub num_blocks: i32,
    /// Tokens per KV cache page.
    pub page_block_size: i32,
    /// Number of sparse KV indices per query.
    pub topk: i32,
    /// IEEE 754 single-precision bits of the softmax scale applied to QK logits.
    pub sm_scale_bits: u32,
    /// BF16 query pointer shaped `[batch, s_q, h_q, d_qk]`.
    pub q: DevicePtr,
    /// Packed FP8 KV cache pointer shaped `[num_blocks, page_block_size, h_kv, bytes_per_token]`.
    pub kv: DevicePtr,
    /// I32 sparse index pointer shaped `[batch, s_q, topk]`.
    pub indices: DevicePtr,
    /// Optional I32 top-k length pointer shaped `[batch]`.
    pub topk_length: DevicePtr,
    /// Optional F32 attention sink pointer shaped `[h_q]`.
    pub attn_sink: DevicePtr,
    /// BF16 output pointer shaped `[batch, s_q, h_q, d_v]`.
    pub out: DevicePtr,
    /// F32 log-sum-exp output pointer shaped `[batch, s_q, h_q]`.
    pub lse: DevicePtr,
    /// Number of extra KV cache pages, or zero when no extra cache is used.
    pub extra_num_blocks: i32,
    /// Tokens per extra KV cache page, or zero when no extra cache is used.
    pub extra_page_block_size: i32,
    /// Number of extra sparse KV indices per query, or zero when no extra cache is used.
    pub extra_topk: i32,
    /// Optional packed FP8 extra KV cache pointer.
    pub extra_kv: DevicePtr,
    /// Optional I32 extra sparse index pointer shaped `[batch, s_q, extra_topk]`.
    pub extra_indices: DevicePtr,
    /// Optional I32 extra top-k length pointer shaped `[batch]`.
    pub extra_topk_length: DevicePtr,
    /// Element stride between query batches.
    pub stride_q_b: i32,
    /// Element stride between query positions.
    pub stride_q_s_q: i32,
    /// Element stride between query heads.
    pub stride_q_h_q: i32,
    /// Byte stride between KV cache pages.
    pub stride_kv_block: i32,
    /// Byte stride between KV cache rows.
    pub stride_kv_row: i32,
    /// Element stride between sparse-index batches.
    pub stride_indices_b: i32,
    /// Element stride between sparse-index positions.
    pub stride_indices_s_q: i32,
    /// Element stride between LSE batches.
    pub stride_lse_b: i32,
    /// Element stride between LSE positions.
    pub stride_lse_s_q: i32,
    /// Element stride between output batches.
    pub stride_o_b: i32,
    /// Element stride between output positions.
    pub stride_o_s_q: i32,
    /// Element stride between output heads.
    pub stride_o_h_q: i32,
    /// Byte stride between extra KV cache pages.
    pub stride_extra_kv_block: i32,
    /// Byte stride between extra KV cache rows.
    pub stride_extra_kv_row: i32,
    /// Element stride between extra sparse-index batches.
    pub stride_extra_indices_b: i32,
    /// Element stride between extra sparse-index positions.
    pub stride_extra_indices_s_q: i32,
    /// F32 split-KV LSE accumulation buffer.
    pub lse_accum: DevicePtr,
    /// F32 split-KV output accumulation buffer.
    pub o_accum: DevicePtr,
    /// Element stride between LSE accumulation splits.
    pub stride_lse_accum_split: i32,
    /// Element stride between LSE accumulation positions.
    pub stride_lse_accum_s_q: i32,
    /// Element stride between output accumulation splits.
    pub stride_o_accum_split: i32,
    /// Element stride between output accumulation positions.
    pub stride_o_accum_s_q: i32,
    /// Element stride between output accumulation heads.
    pub stride_o_accum_h_q: i32,
    /// I32 scheduler metadata buffer generated by `flashmla_sparse_decode_plan`.
    pub tile_scheduler_metadata: DevicePtr,
    /// I32 split-offset buffer generated by `flashmla_sparse_decode_plan`.
    pub num_splits: DevicePtr,
    /// Number of SM partitions from the plan result.
    pub num_sm_parts: i32,
    /// CUDA stream used for sparse decode and combine launches.
    pub stream: cudaStream_t,
}

} // verus!
