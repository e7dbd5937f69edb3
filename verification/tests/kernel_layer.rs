use flashmla::convert::checked_i32;
use flashmla::convert::checked_optional_stride;
use flashmla::convert::checked_stride;
use flashmla::convert::checked_usize;
use flashmla::dense_decode::dense_decode_outcome;
use flashmla::device::check_device_id;
use flashmla::device::DeviceReply;
use flashmla::error::append_last_error;
use flashmla::sparse_decode::sparse_decode_outcome;
use flashmla::sparse_prefill::sparse_prefill_outcome;
use flashmla::sys::cudaStream_t;
use flashmla::sys::flashmla_dense_decode_plan_result_t;
use flashmla::sys::flashmla_sparse_decode_plan_result_t;
use flashmla::sys::flashmla_status_t;
use flashmla::sys::DevicePtr;
use flashmla::text::number;
use flashmla::text::number_list;
use flashmla::text::signed_number;
use flashmla::Arch;
use flashmla::DenseDecodeConfig;
use flashmla::DenseDecodeDims;
use flashmla::DenseDecodeLaunchParams;
use flashmla::DenseDecodePlanMeta;
use flashmla::DenseDecodePlanParams;
use flashmla::DenseDecodeStrides;
use flashmla::DeviceInfo;
use flashmla::Error;
use flashmla::SparseDecodeConfig;
use flashmla::SparseDecodeDims;
use flashmla::SparseDecodeLaunchParams;
use flashmla::SparseDecodePlanMeta;
use flashmla::SparseDecodePlanParams;
use flashmla::SparseDecodeStrides;
use flashmla::SparsePrefillConfig;
use flashmla::SparsePrefillDims;
use flashmla::SparsePrefillLaunchParams;
use flashmla::SparsePrefillStrides;
use flashmla::WorkspaceLayout;

fn invalid(message: &str) -> Error {
    Error::InvalidArgument(message.to_string())
}

fn ptr(addr: u64) -> DevicePtr {
    DevicePtr { addr }
}

fn stream() -> cudaStream_t {
    cudaStream_t { handle: 77 }
}

#[test]
fn accepts_supported_architectures() {
    assert_eq!(Arch::from_compute_capability(9, 0).unwrap(), Arch::Sm90a);
    assert_eq!(Arch::from_compute_capability(10, 0).unwrap(), Arch::Sm100f);
}

#[test]
fn rejects_sm120_series() {
    assert!(matches!(
        Arch::from_compute_capability(12, 1),
        Err(Error::UnsupportedArch(_))
    ));
}

#[test]
fn names_unsupported_capabilities() {
    assert_eq!(
        Arch::from_compute_capability(12, 0),
        Err(Error::UnsupportedArch(
            "SM120/SM121 are intentionally unsupported by upstream FlashMLA".to_string()
        ))
    );
    assert_eq!(
        Arch::from_compute_capability(8, 6),
        Err(Error::UnsupportedArch(
            "expected SM90 or SM100, got compute capability 8.6".to_string()
        ))
    );
    assert_eq!(Arch::Sm90a.nvcc_arch(), "sm_90a");
    assert_eq!(Arch::Sm100f.nvcc_arch(), "sm_100f");
}

#[test]
fn dense_decode_validates_supported_shape() {
    DenseDecodeDims {
        batch: 1,
        s_q: 2,
        h_q: 8,
        h_k: 2,
        d_qk: 576,
        d_v: 512,
        num_blocks: 2,
        page_block_size: 64,
    }
    .validate()
    .unwrap();
}

#[test]
fn rejects_non_divisible_heads() {
    let dims = DenseDecodeDims {
        batch: 1,
        s_q: 2,
        h_q: 7,
        h_k: 2,
        d_qk: 576,
        d_v: 512,
        num_blocks: 2,
        page_block_size: 64,
    };
    assert!(matches!(dims.validate(), Err(Error::InvalidArgument(_))));
}

#[test]
fn sparse_decode_validates_supported_shape() {
    SparseDecodeDims {
        batch: 1,
        s_q: 1,
        h_q: 64,
        h_kv: 1,
        d_qk: 576,
        d_v: 512,
        num_blocks: 2,
        page_block_size: 64,
        topk: 64,
        extra_num_blocks: 0,
        extra_page_block_size: 0,
        extra_topk: 0,
    }
    .validate()
    .unwrap();
}

#[test]
fn rejects_v32_extra_cache() {
    let dims = SparseDecodeDims {
        batch: 1,
        s_q: 1,
        h_q: 64,
        h_kv: 1,
        d_qk: 576,
        d_v: 512,
        num_blocks: 2,
        page_block_size: 64,
        topk: 64,
        extra_num_blocks: 1,
        extra_page_block_size: 64,
        extra_topk: 64,
    };
    assert!(matches!(dims.validate(), Err(Error::InvalidArgument(_))));
}

#[test]
fn sparse_prefill_validates_supported_shape() {
    SparsePrefillDims {
        s_q: 16,
        s_kv: 128,
        h_q: 64,
        h_kv: 1,
        d_qk: 576,
        d_v: 512,
        topk: 32,
    }
    .validate()
    .unwrap();
}

#[test]
fn sm90_validation_rejects_non_multiple_topk() {
    let dims = SparsePrefillDims {
        s_q: 16,
        s_kv: 128,
        h_q: 64,
        h_kv: 1,
        d_qk: 576,
        d_v: 512,
        topk: 32,
    };
    assert!(matches!(
        dims.validate_sm90(),
        Err(Error::InvalidArgument(_))
    ));
}

fn dense_dims() -> DenseDecodeDims {
    DenseDecodeDims {
        batch: 3,
        s_q: 2,
        h_q: 8,
        h_k: 2,
        d_qk: 576,
        d_v: 512,
        num_blocks: 5,
        page_block_size: 64,
    }
}

fn sparse_dims() -> SparseDecodeDims {
    SparseDecodeDims {
        batch: 3,
        s_q: 2,
        h_q: 64,
        h_kv: 1,
        d_qk: 512,
        d_v: 512,
        num_blocks: 4,
        page_block_size: 64,
        topk: 128,
        extra_num_blocks: 0,
        extra_page_block_size: 0,
        extra_topk: 0,
    }
}

fn prefill_dims() -> SparsePrefillDims {
    SparsePrefillDims {
        s_q: 16,
        s_kv: 128,
        h_q: 64,
        h_kv: 1,
        d_qk: 576,
        d_v: 512,
        topk: 256,
    }
}

#[test]
fn dense_shape_errors_name_the_first_violation() {
    let d = dense_dims();
    assert_eq!(
        DenseDecodeDims { batch: 0, h_k: 3, ..d }.validate(),
        Err(invalid("batch, s_q, h_q, and h_k must be non-zero"))
    );
    assert_eq!(
        DenseDecodeDims { num_blocks: 0, ..d }.validate(),
        Err(invalid("num_blocks and page_block_size must be non-zero"))
    );
    assert_eq!(
        DenseDecodeDims { page_block_size: 32, ..d }.validate(),
        Err(invalid("dense decode requires page_block_size to be 64, got 32"))
    );
    assert_eq!(
        DenseDecodeDims { h_k: 3, ..d }.validate(),
        Err(invalid("h_k (3) must divide h_q (8)"))
    );
    assert_eq!(
        DenseDecodeDims { d_qk: 100, ..d }.validate(),
        Err(invalid("d_qk must be 512 or 576, got 100"))
    );
    assert_eq!(
        DenseDecodeDims { d_v: 576, ..d }.validate(),
        Err(invalid("d_v must be 512, got 576"))
    );
    assert_eq!(
        DenseDecodeDims { s_q: usize::MAX, ..d }.validate(),
        Err(invalid("q_seq_per_hk overflow"))
    );
}

#[test]
fn dense_grouping_counts_heads_and_rows() {
    let d = dense_dims();
    assert_eq!(d.q_heads_per_hk(), Ok(4));
    assert_eq!(d.q_seq_per_hk(), Ok(8));
    // Packing keeps the number of query rows: s_q * h_q == q_seq_per_hk * h_k.
    assert_eq!(d.s_q * d.h_q, d.q_seq_per_hk().unwrap() * d.h_k);
    assert_eq!(
        DenseDecodeDims { h_k: 0, ..d }.q_heads_per_hk(),
        Err(invalid("h_k must be non-zero and divide h_q"))
    );
}

#[test]
fn sparse_shape_errors_name_the_first_violation() {
    let d = sparse_dims();
    assert_eq!(
        SparseDecodeDims { topk: 0, d_v: 1, ..d }.validate(),
        Err(invalid("batch, s_q, and topk must be non-zero"))
    );
    assert_eq!(
        SparseDecodeDims { page_block_size: 0, ..d }.validate(),
        Err(invalid("num_blocks and page_block_size must be non-zero"))
    );
    assert_eq!(
        SparseDecodeDims { d_qk: 64, ..d }.validate(),
        Err(invalid("d_qk must be 512 or 576, got 64"))
    );
    assert_eq!(
        SparseDecodeDims { d_v: 64, ..d }.validate(),
        Err(invalid("d_v must be 512, got 64"))
    );
    assert_eq!(
        SparseDecodeDims { h_q: 32, ..d }.validate(),
        Err(invalid("h_q must be padded to 64 or 128, got 32"))
    );
    assert_eq!(
        SparseDecodeDims { h_kv: 2, ..d }.validate(),
        Err(invalid("h_kv must be 1 for sparse MLA, got 2"))
    );
    assert_eq!(
        SparseDecodeDims { topk: 65, ..d }.validate(),
        Err(invalid("SM90 sparse decode requires topk to be a multiple of 64, got 65"))
    );
    assert_eq!(
        SparseDecodeDims { extra_topk: 64, ..d }.validate(),
        Err(invalid(
            "extra KV cache requires non-zero extra_num_blocks, extra_page_block_size, and extra_topk"
        ))
    );
    assert_eq!(
        SparseDecodeDims {
            d_qk: 576,
            extra_num_blocks: 1,
            extra_page_block_size: 64,
            extra_topk: 64,
            ..d
        }
        .validate(),
        Err(invalid("V32 sparse decode does not support extra KV cache"))
    );
}

#[test]
fn supported_sparse_shapes_have_a_packed_layout() {
    let d = sparse_dims();
    assert_eq!(d.kv_bytes_per_token(), Ok(584));
    assert_eq!(SparseDecodeDims { d_qk: 576, ..d }.kv_bytes_per_token(), Ok(656));
    assert_eq!(
        SparseDecodeDims { d_qk: 576, d_v: 7, ..d }.kv_bytes_per_token(),
        Err(invalid("unsupported sparse decode KV layout for d_qk=576 d_v=7"))
    );
    assert!(!d.has_extra_cache());
    assert!(SparseDecodeDims { extra_page_block_size: 1, ..d }.has_extra_cache());
}

#[test]
fn prefill_shapes_depend_on_the_architecture() {
    let d = prefill_dims();
    assert_eq!(d.validate_for_arch(Arch::Sm90a), Ok(()));
    let small = SparsePrefillDims { topk: 64, ..d };
    assert_eq!(
        small.validate_for_arch(Arch::Sm90a),
        Err(invalid("SM90 sparse prefill requires topk to be a multiple of 128, got 64"))
    );
    assert_eq!(small.validate_for_arch(Arch::Sm100f), Ok(()));
    assert_eq!(
        SparsePrefillDims { s_kv: 0, ..d }.validate_for_arch(Arch::Sm100f),
        Err(invalid("s_q, s_kv, and topk must be non-zero"))
    );
    assert_eq!(
        SparsePrefillDims { d_qk: 1, ..d }.validate(),
        Err(invalid("d_qk must be 512 or 576, got 1"))
    );
    assert_eq!(
        SparsePrefillDims { d_v: 1, ..d }.validate(),
        Err(invalid("d_v must be 512, got 1"))
    );
    assert_eq!(
        SparsePrefillDims { h_q: 1, ..d }.validate(),
        Err(invalid("h_q must be padded to 64 or 128, got 1"))
    );
    assert_eq!(
        SparsePrefillDims { h_kv: 3, ..d }.validate(),
        Err(invalid("h_kv must be 1 for sparse MLA, got 3"))
    );
}

#[test]
fn conversions_respect_the_c_integers() {
    assert_eq!(checked_i32(2147483647, "batch"), Ok(2147483647));
    assert_eq!(
        checked_i32(2147483648, "batch"),
        Err(invalid("batch does not fit in i32: 2147483648"))
    );
    assert_eq!(checked_usize(7, "parts"), Ok(7));
    assert_eq!(checked_usize(-12, "parts"), Err(invalid("parts is negative: -12")));
    assert_eq!(checked_stride(1, "q_b"), Ok(1));
    assert_eq!(checked_stride(0, "q_b"), Err(invalid("q_b must be non-zero")));
    assert_eq!(checked_optional_stride(0, "x", false), Ok(0));
    assert_eq!(
        checked_optional_stride(0, "x", true),
        Err(invalid("x must be non-zero"))
    );
}

#[test]
fn numbers_are_written_in_decimal() {
    assert_eq!(number(0), "0");
    assert_eq!(number(1024), "1024");
    assert_eq!(number(usize::MAX), format!("{}", usize::MAX));
    assert_eq!(signed_number(i32::MIN), "-2147483648");
    assert_eq!(number_list(&[]), "");
    assert_eq!(number_list(&[7]), "7");
    assert_eq!(number_list(&[1, 20, 300]), "1, 20, 300");
}

fn sparse_strides() -> SparseDecodeStrides {
    SparseDecodeStrides {
        q_b: 1,
        q_s_q: 2,
        q_h_q: 3,
        kv_block: 4,
        kv_row: 5,
        indices_b: 6,
        indices_s_q: 7,
        lse_b: 8,
        lse_s_q: 9,
        out_b: 10,
        out_s_q: 11,
        out_h_q: 12,
        extra_kv_block: 0,
        extra_kv_row: 0,
        extra_indices_b: 0,
        extra_indices_s_q: 0,
        lse_accum_split: 17,
        lse_accum_s_q: 18,
        o_accum_split: 19,
        o_accum_s_q: 20,
        o_accum_h_q: 21,
    }
}

fn sparse_launch() -> SparseDecodeLaunchParams {
    SparseDecodeLaunchParams {
        dims: sparse_dims(),
        config: SparseDecodeConfig::default(),
        q: ptr(101),
        kv: ptr(102),
        indices: ptr(103),
        topk_length: ptr(104),
        attn_sink: ptr(0),
        out: ptr(105),
        lse: ptr(106),
        extra_kv: ptr(0),
        extra_indices: ptr(0),
        extra_topk_length: ptr(0),
        strides: sparse_strides(),
        lse_accum: ptr(107),
        o_accum: ptr(108),
        tile_scheduler_metadata: ptr(109),
        num_splits: ptr(110),
        num_sm_parts: 6,
        stream: stream(),
    }
}

#[test]
fn sparse_launch_block_carries_every_parameter() {
    let block = sparse_launch().to_sys().unwrap();
    assert_eq!(
        (block.batch, block.s_q, block.h_q, block.h_kv, block.d_qk, block.d_v),
        (3, 2, 64, 1, 512, 512)
    );
    assert_eq!((block.num_blocks, block.page_block_size, block.topk), (4, 64, 128));
    assert_eq!(block.sm_scale_bits, 1.0f32.to_bits());
    assert_eq!(
        (block.q.addr, block.kv.addr, block.indices.addr, block.topk_length.addr),
        (101, 102, 103, 104)
    );
    assert_eq!(
        (block.out.addr, block.lse.addr, block.lse_accum.addr, block.o_accum.addr),
        (105, 106, 107, 108)
    );
    assert_eq!(
        (block.tile_scheduler_metadata.addr, block.num_splits.addr, block.num_sm_parts),
        (109, 110, 6)
    );
    assert_eq!((block.stride_q_b, block.stride_q_s_q, block.stride_q_h_q), (1, 2, 3));
    assert_eq!((block.stride_kv_block, block.stride_kv_row), (4, 5));
    assert_eq!((block.stride_indices_b, block.stride_indices_s_q), (6, 7));
    assert_eq!((block.stride_lse_b, block.stride_lse_s_q), (8, 9));
    assert_eq!((block.stride_o_b, block.stride_o_s_q, block.stride_o_h_q), (10, 11, 12));
    assert_eq!((block.stride_lse_accum_split, block.stride_lse_accum_s_q), (17, 18));
    assert_eq!(
        (block.stride_o_accum_split, block.stride_o_accum_s_q, block.stride_o_accum_h_q),
        (19, 20, 21)
    );
    assert_eq!(block.stream, stream());
}

#[test]
fn sparse_launch_errors_name_the_first_violation() {
    let p = sparse_launch();
    let strides = SparseDecodeStrides { kv_row: 0, ..sparse_strides() };
    assert_eq!(
        SparseDecodeLaunchParams { strides, num_sm_parts: 0, ..p }.validate(),
        Err(invalid("kv_row must be non-zero"))
    );
    let config = SparseDecodeConfig { d_v: 256, ..SparseDecodeConfig::default() };
    assert_eq!(
        SparseDecodeLaunchParams { config, ..p }.validate(),
        Err(invalid("config d_v (256) must match dims d_v (512)"))
    );
    assert_eq!(
        SparseDecodeLaunchParams { o_accum: ptr(0), ..p }.validate(),
        Err(invalid(
            "q, kv, indices, out, lse, lse_accum, o_accum, tile_scheduler_metadata, and num_splits pointers must be non-null"
        ))
    );
    assert_eq!(
        SparseDecodeLaunchParams { num_sm_parts: 0, ..p }.validate(),
        Err(invalid("num_sm_parts must be non-zero"))
    );
    let v32 = SparseDecodeDims { d_qk: 576, ..sparse_dims() };
    assert_eq!(
        SparseDecodeLaunchParams { dims: v32, ..p }.validate(),
        Err(invalid("V32 sparse decode does not support topk_length"))
    );
    assert_eq!(
        SparseDecodeLaunchParams { extra_indices: ptr(9), ..p }.validate(),
        Err(invalid("extra pointers require extra KV cache dimensions"))
    );
    let extra = SparseDecodeDims {
        extra_num_blocks: 1,
        extra_page_block_size: 64,
        extra_topk: 64,
        ..sparse_dims()
    };
    assert_eq!(
        SparseDecodeLaunchParams { dims: extra, ..p }.validate(),
        Err(invalid("extra_kv_block must be non-zero"))
    );
    let extra_strides = SparseDecodeStrides {
        extra_kv_block: 13,
        extra_kv_row: 14,
        extra_indices_b: 15,
        extra_indices_s_q: 16,
        ..sparse_strides()
    };
    let with_extra = SparseDecodeLaunchParams { dims: extra, strides: extra_strides, ..p };
    assert_eq!(
        with_extra.validate(),
        Err(invalid("extra KV cache requires extra_kv and extra_indices pointers"))
    );
    let given = SparseDecodeLaunchParams { extra_kv: ptr(1), extra_indices: ptr(2), ..with_extra };
    let block = given.to_sys().unwrap();
    assert_eq!(
        (
            block.extra_num_blocks,
            block.extra_page_block_size,
            block.extra_topk,
            block.stride_extra_kv_block,
            block.stride_extra_kv_row,
            block.stride_extra_indices_b,
            block.stride_extra_indices_s_q
        ),
        (1, 64, 64, 13, 14, 15, 16)
    );
    let wide = SparseDecodeDims { num_blocks: 1 << 31, ..sparse_dims() };
    assert_eq!(
        SparseDecodeLaunchParams { dims: wide, ..p }.to_sys().unwrap_err(),
        invalid("num_blocks does not fit in i32: 2147483648")
    );
}

fn sparse_plan() -> SparseDecodePlanParams {
    SparseDecodePlanParams {
        dims: sparse_dims(),
        topk_length: ptr(5),
        extra_topk_length: ptr(0),
        tile_scheduler_metadata: ptr(0),
        num_splits: ptr(0),
        num_sm: 132,
        stream: stream(),
    }
}

#[test]
fn sparse_plan_parameters_are_checked() {
    let p = sparse_plan();
    let block = p.to_sys().unwrap();
    assert_eq!((block.batch, block.topk, block.extra_topk, block.num_sm), (3, 128, 0, 132));
    assert_eq!(block.topk_length, ptr(5));
    assert_eq!(
        SparseDecodePlanParams { num_sm: 0, ..p }.validate(),
        Err(invalid("num_sm must be non-zero"))
    );
    let v32 = SparseDecodeDims { d_qk: 576, ..sparse_dims() };
    assert_eq!(
        SparseDecodePlanParams { dims: v32, ..p }.validate(),
        Err(invalid("V32 sparse decode does not support topk_length"))
    );
    assert_eq!(
        SparseDecodePlanParams { extra_topk_length: ptr(1), ..p }.validate(),
        Err(invalid("extra_topk_length requires an extra KV cache"))
    );
    assert_eq!(
        SparseDecodePlanParams { num_splits: ptr(1), ..p }.validate(),
        Err(invalid(
            "tile_scheduler_metadata and num_splits must both be null or both be non-null"
        ))
    );
    assert_eq!(
        SparseDecodePlanParams { num_sm: 1 << 31, ..p }.to_sys().unwrap_err(),
        invalid("num_sm does not fit in i32: 2147483648")
    );
}

fn sparse_result() -> flashmla_sparse_decode_plan_result_t {
    flashmla_sparse_decode_plan_result_t {
        num_sm_parts: 2,
        fixed_overhead_num_blocks: 5,
        block_size_topk: 64,
        scheduler_metadata_i32_len: 16,
        num_splits_len: 4,
        lse_accum_elem_count: 640,
        o_accum_elem_count: 327680,
    }
}

#[test]
fn sparse_plan_replies_are_interpreted() {
    let ok = flashmla_status_t::FLASHMLA_STATUS_SUCCESS;
    let meta = SparseDecodePlanMeta::from_reply(ok, sparse_result(), None).unwrap();
    assert_eq!(
        meta,
        SparseDecodePlanMeta {
            num_sm_parts: 2,
            fixed_overhead_num_blocks: 5,
            block_size_topk: 64,
            scheduler_metadata_i32_len: 16,
            num_splits_len: 4,
            lse_accum_elem_count: 640,
            o_accum_elem_count: 327680,
        }
    );
    assert_eq!(meta.total_num_splits(sparse_dims()), Ok(5));
    let huge = SparseDecodeDims { batch: usize::MAX, ..sparse_dims() };
    assert_eq!(meta.total_num_splits(huge), Err(invalid("total_num_splits overflow")));
    let negative = flashmla_sparse_decode_plan_result_t {
        fixed_overhead_num_blocks: -1,
        block_size_topk: -2,
        ..sparse_result()
    };
    assert_eq!(
        SparseDecodePlanMeta::from_sys(negative),
        Err(invalid("fixed_overhead_num_blocks is negative: -1"))
    );
    assert_eq!(
        SparseDecodePlanMeta::from_reply(
            flashmla_status_t::FLASHMLA_STATUS_CUDA_ERROR,
            sparse_result(),
            Some("bad stream".to_string())
        ),
        Err(Error::Cuda("sparse decode planning failed: bad stream".to_string()))
    );
}

fn dense_strides() -> DenseDecodeStrides {
    DenseDecodeStrides {
        q_b: 1,
        q_row: 2,
        q_head: 3,
        k_block: 4,
        k_row: 5,
        k_head: 6,
        block_table_b: 7,
    }
}

fn dense_launch() -> DenseDecodeLaunchParams {
    DenseDecodeLaunchParams {
        dims: dense_dims(),
        config: DenseDecodeConfig { is_causal: true, ..DenseDecodeConfig::default() },
        q: ptr(1),
        kcache: ptr(2),
        seqlens_k: ptr(3),
        block_table: ptr(4),
        out: ptr(5),
        lse: ptr(6),
        lse_accum: ptr(7),
        o_accum: ptr(8),
        strides: dense_strides(),
        tile_scheduler_metadata: ptr(9),
        num_splits: ptr(10),
        num_sm_parts: 6,
        stream: stream(),
    }
}

#[test]
fn dense_launch_block_carries_every_parameter() {
    let block = dense_launch().to_sys().unwrap();
    assert_eq!(
        (block.batch, block.s_q, block.h_q, block.h_k, block.d_qk, block.d_v),
        (3, 2, 8, 2, 576, 512)
    );
    assert_eq!((block.num_blocks, block.page_block_size), (5, 64));
    assert_eq!(block.sm_scale_bits, 1.0f32.to_bits());
    assert_eq!(block.is_causal, 1);
    assert_eq!((block.stride_q_b, block.stride_q_row, block.stride_q_head), (1, 2, 3));
    assert_eq!((block.stride_k_block, block.stride_k_row, block.stride_k_head), (4, 5, 6));
    assert_eq!((block.stride_block_table_b, block.num_sm_parts), (7, 6));
    assert_eq!((block.q, block.kcache, block.seqlens_k), (ptr(1), ptr(2), ptr(3)));
    assert_eq!((block.block_table, block.out, block.lse), (ptr(4), ptr(5), ptr(6)));
}

#[test]
fn dense_launch_errors_name_the_first_violation() {
    let p = dense_launch();
    let strides = DenseDecodeStrides { block_table_b: 0, ..dense_strides() };
    assert_eq!(
        DenseDecodeLaunchParams { strides, ..p }.validate(),
        Err(invalid("block_table_b must be non-zero"))
    );
    assert_eq!(
        DenseDecodeLaunchParams {
            config: DenseDecodeConfig { d_v: 1, ..p.config },
            ..p
        }
        .validate(),
        Err(invalid("config d_v (1) must match dims d_v (512)"))
    );
    assert_eq!(
        DenseDecodeLaunchParams { lse: ptr(0), ..p }.validate(),
        Err(invalid(
            "q, kcache, seqlens_k, block_table, out, lse, lse_accum, o_accum, tile_scheduler_metadata, and num_splits pointers must be non-null"
        ))
    );
    assert_eq!(
        DenseDecodeLaunchParams { num_sm_parts: 0, ..p }.validate(),
        Err(invalid("num_sm_parts must be non-zero"))
    );
    assert_eq!(
        DenseDecodeLaunchParams {
            dims: DenseDecodeDims { batch: 1 << 31, ..dense_dims() },
            ..p
        }
        .to_sys()
        .unwrap_err(),
        invalid("batch does not fit in i32: 2147483648")
    );
}

#[test]
fn dense_plan_parameters_and_replies_are_checked() {
    let p = DenseDecodePlanParams {
        dims: dense_dims(),
        seqlens_k: ptr(0),
        tile_scheduler_metadata: ptr(0),
        num_splits: ptr(0),
        num_sm: 132,
        stream: stream(),
    };
    assert_eq!(p.to_sys().unwrap().num_sm, 132);
    assert_eq!(
        DenseDecodePlanParams { num_sm: 0, ..p }.validate(),
        Err(invalid("num_sm must be non-zero"))
    );
    assert!(DenseDecodePlanParams { num_splits: ptr(1), ..p }.validate().is_err());
    let result = flashmla_dense_decode_plan_result_t {
        num_sm_parts: 6,
        fixed_overhead_num_blocks: 5,
        block_size_n: 64,
        q_seq_per_hk: 8,
        scheduler_metadata_i32_len: 48,
        num_splits_len: 4,
        lse_accum_elem_count: 144,
        o_accum_elem_count: 73728,
    };
    let ok = flashmla_status_t::FLASHMLA_STATUS_SUCCESS;
    let meta = DenseDecodePlanMeta::from_reply(ok, result, None).unwrap();
    assert_eq!((meta.num_sm_parts, meta.block_size_n, meta.q_seq_per_hk), (6, 64, 8));
    assert_eq!(meta.total_num_splits(dense_dims()), Ok(9));
    let negative = flashmla_dense_decode_plan_result_t { num_sm_parts: -3, ..result };
    assert_eq!(
        DenseDecodePlanMeta::from_sys(negative),
        Err(invalid("num_sm_parts is negative: -3"))
    );
    assert_eq!(
        DenseDecodePlanMeta::from_reply(
            flashmla_status_t::FLASHMLA_STATUS_INTERNAL_ERROR,
            result,
            Some(String::new())
        ),
        Err(Error::Internal("dense decode planning failed".to_string()))
    );
}

fn prefill_launch() -> SparsePrefillLaunchParams {
    SparsePrefillLaunchParams {
        dims: prefill_dims(),
        config: SparsePrefillConfig::default(),
        q: ptr(1),
        kv: ptr(2),
        indices: ptr(3),
        attn_sink: ptr(0),
        topk_length: ptr(0),
        strides: SparsePrefillStrides {
            q_s_q: 1,
            q_h_q: 2,
            kv_s_kv: 3,
            kv_h_kv: 4,
            indices_s_q: 5,
            indices_h_kv: 6,
        },
        out: ptr(4),
        max_logits: ptr(5),
        lse: ptr(6),
        num_sm: 132,
        stream: stream(),
    }
}

#[test]
fn prefill_launch_is_checked_for_its_architecture() {
    let p = prefill_launch();
    let block = p.to_sys(Arch::Sm90a).unwrap();
    assert_eq!((block.s_q, block.s_kv, block.topk, block.num_sm), (16, 128, 256, 132));
    assert_eq!((block.stride_q_s_q, block.stride_indices_h_kv), (1, 6));
    assert_eq!((block.out, block.max_logits, block.lse), (ptr(4), ptr(5), ptr(6)));
    let small = SparsePrefillLaunchParams {
        dims: SparsePrefillDims { topk: 64, ..prefill_dims() },
        ..p
    };
    assert!(small.to_sys(Arch::Sm90a).is_err());
    assert_eq!(small.to_sys(Arch::Sm100f).unwrap().topk, 64);
    assert_eq!(
        SparsePrefillLaunchParams { max_logits: ptr(0), ..p }.validate(Arch::Sm90a),
        Err(invalid("q, kv, indices, out, max_logits, and lse pointers must be non-null"))
    );
    assert_eq!(
        SparsePrefillLaunchParams { num_sm: 0, ..p }.validate(Arch::Sm90a),
        Err(invalid("num_sm must be non-zero"))
    );
    assert_eq!(
        SparsePrefillLaunchParams {
            strides: SparsePrefillStrides { kv_h_kv: 0, ..p.strides },
            ..p
        }
        .validate(Arch::Sm90a),
        Err(invalid("kv_h_kv must be non-zero"))
    );
}

#[test]
fn statuses_become_errors() {
    let context = || "call".to_string();
    let last = || Some("why".to_string());
    assert_eq!(
        Error::from_status(flashmla_status_t::FLASHMLA_STATUS_SUCCESS, context(), last()),
        Error::Internal("call: why: unexpected success status".to_string())
    );
    assert_eq!(
        Error::from_status(flashmla_status_t::FLASHMLA_STATUS_INVALID_ARGUMENT, context(), last()),
        invalid("call: why")
    );
    assert_eq!(
        Error::from_status(flashmla_status_t::FLASHMLA_STATUS_UNSUPPORTED_ARCH, context(), None),
        Error::UnsupportedArch("call".to_string())
    );
    assert_eq!(append_last_error(context(), Some(String::new())), "call");
    let failed = flashmla_status_t::FLASHMLA_STATUS_CUDA_ERROR;
    assert_eq!(
        sparse_decode_outcome(failed, None),
        Err(Error::Cuda("sparse decode launch failed".to_string()))
    );
    assert_eq!(
        dense_decode_outcome(failed, None),
        Err(Error::Cuda("dense decode launch failed".to_string()))
    );
    assert_eq!(
        sparse_prefill_outcome(failed, last()),
        Err(Error::Cuda("sparse prefill launch failed: why".to_string()))
    );
    assert_eq!(sparse_prefill_outcome(flashmla_status_t::FLASHMLA_STATUS_SUCCESS, last()), Ok(()));
}

#[test]
fn errors_are_shown_with_their_kind() {
    assert_eq!(invalid("x").message(), "invalid argument: x");
    assert_eq!(
        Error::UnsupportedArch("x".to_string()).message(),
        "unsupported architecture: x"
    );
    assert_eq!(Error::Cuda("x".to_string()).message(), "cuda error: x");
    assert_eq!(Error::Internal("x".to_string()).message(), "internal error: x");
    assert_eq!(Error::UnknownStatus(-7).message(), "unknown flashmla status: -7");
}

#[test]
fn status_codes_round_trip() {
    for code in 0..5 {
        assert_eq!(flashmla_status_t::from_code(code).unwrap().code(), code);
    }
    assert_eq!(
        flashmla_status_t::from_code(0),
        Ok(flashmla_status_t::FLASHMLA_STATUS_SUCCESS)
    );
    assert_eq!(flashmla_status_t::from_code(5), Err(Error::UnknownStatus(5)));
    assert_eq!(flashmla_status_t::from_code(-1), Err(Error::UnknownStatus(-1)));
}

#[test]
fn device_replies_are_interpreted() {
    let reply = DeviceReply {
        status: flashmla_status_t::FLASHMLA_STATUS_SUCCESS,
        major: 10,
        minor: 0,
        num_sms: 148,
    };
    let info = DeviceInfo::from_reply(2, reply, None).unwrap();
    assert_eq!(
        info,
        DeviceInfo {
            device_id: 2,
            major: 10,
            minor: 0,
            num_sms: 148,
            arch: Arch::Sm100f,
        }
    );
    assert_eq!(info.num_sm(), 148);
    assert_eq!(
        DeviceInfo::from_reply(2, DeviceReply { major: -1, ..reply }, None),
        Err(Error::Internal("CUDA returned a negative major version: -1".to_string()))
    );
    assert_eq!(
        DeviceInfo::from_reply(2, DeviceReply { num_sms: -1, ..reply }, None),
        Err(Error::Internal("CUDA returned a negative SM count: -1".to_string()))
    );
    let failed = DeviceReply {
        status: flashmla_status_t::FLASHMLA_STATUS_UNSUPPORTED_ARCH,
        ..reply
    };
    assert_eq!(
        DeviceInfo::from_reply(2, failed, Some("not built for this GPU".to_string())),
        Err(Error::UnsupportedArch(
            "failed to query CUDA device 2: not built for this GPU".to_string()
        ))
    );
    assert_eq!(check_device_id(0), Ok(()));
    assert_eq!(check_device_id(-1), Err(invalid("device_id must be non-negative")));
}

#[test]
fn workspace_layouts_know_whether_they_are_empty() {
    assert!(WorkspaceLayout::default().is_empty());
    assert!(!WorkspaceLayout::new(8).is_empty());
    assert_eq!(WorkspaceLayout::new(8).bytes, 8);
    assert!(SparseDecodeConfig::default().pad_heads);
    assert!(SparsePrefillConfig::default().pad_heads);
    assert!(!DenseDecodeConfig::default().is_causal);
}
