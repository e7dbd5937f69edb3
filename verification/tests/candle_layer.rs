use candle_core::DType as CandleDType;
use candle_core::Device;
use candle_core::Tensor;
use flashmla::candle_flashmla::dense_decode::DenseDecodeDescs;
use flashmla::candle_flashmla::dense_decode::DenseDecodeTensors;
use flashmla::candle_flashmla::dense_decode_launch::DenseDecodeBases;
use flashmla::candle_flashmla::dense_decode_plan::size_request as dense_size_request;
use flashmla::candle_flashmla::dense_decode_plan::DenseDecodePlan;
use flashmla::candle_flashmla::dense_decode_plan::DenseDecodePlanBases;
use flashmla::candle_flashmla::error::invalid_arg;
use flashmla::candle_flashmla::error::Error;
use flashmla::candle_flashmla::layout::can_allocate;
use flashmla::candle_flashmla::layout::can_copy;
use flashmla::candle_flashmla::layout::copy_capacity;
use flashmla::candle_flashmla::padding::heads_depend_on_arch;
use flashmla::candle_flashmla::padding::launched_heads;
use flashmla::candle_flashmla::padding::pad_axis;
use flashmla::candle_flashmla::padding::pad_axis_within;
use flashmla::candle_flashmla::padding::pad_sink;
use flashmla::candle_flashmla::padding::slice_axis;
use flashmla::candle_flashmla::sparse_decode::SparseDecodeDescs;
use flashmla::candle_flashmla::sparse_decode::SparseDecodeTensors;
use flashmla::candle_flashmla::sparse_decode_launch::SparseDecodeBases;
use flashmla::candle_flashmla::sparse_decode_plan::check_plan_meta;
use flashmla::candle_flashmla::sparse_decode_plan::decode_workspace_shapes;
use flashmla::candle_flashmla::sparse_decode_plan::validate_kv_block_strides_for_arch;
use flashmla::candle_flashmla::sparse_decode_plan::validate_plan_layout;
use flashmla::candle_flashmla::sparse_decode_plan::validate_plan_tensors;
use flashmla::candle_flashmla::sparse_decode_plan::SparseDecodePlan;
use flashmla::candle_flashmla::sparse_decode_plan::SparseDecodePlanBases;
use flashmla::candle_flashmla::sparse_prefill::SparsePrefillBases;
use flashmla::candle_flashmla::sparse_prefill::SparsePrefillDescs;
use flashmla::candle_flashmla::sparse_prefill::SparsePrefillTensors;
use flashmla::candle_flashmla::tensor::describe;
use flashmla::candle_flashmla::tensor::device_address;
use flashmla::candle_flashmla::tensor::device_id_from_ordinal;
use flashmla::candle_flashmla::tensor::ensure_rank;
use flashmla::candle_flashmla::tensor::ensure_same_shape;
use flashmla::candle_flashmla::tensor::optional_ptr_f32;
use flashmla::candle_flashmla::tensor::tensor_ptr_bf16;
use flashmla::candle_flashmla::tensor::tensor_ptr_f32;
use flashmla::candle_flashmla::tensor::tensor_ptr_i32;
use flashmla::candle_flashmla::tensor::tensor_ptr_u8_or_f8;
use flashmla::candle_flashmla::tensor::Axis;
use flashmla::candle_flashmla::tensor::TensorDesc;
use flashmla::candle_flashmla::tensor_api::DType;
use flashmla::candle_flashmla::workspace::WorkspaceShapes;
use flashmla::sys::cudaStream_t;
use flashmla::sys::DevicePtr;
use flashmla::Arch;
use flashmla::DenseDecodeConfig;
use flashmla::DenseDecodeDims;
use flashmla::DenseDecodePlanMeta;
use flashmla::SparseDecodeConfig;
use flashmla::SparseDecodeDims;
use flashmla::SparseDecodePlanMeta;
use flashmla::SparsePrefillConfig;

fn test_decode_dims() -> SparseDecodeDims {
    SparseDecodeDims {
        batch: 1,
        s_q: 1024,
        h_q: 64,
        h_kv: 1,
        d_qk: 576,
        d_v: 512,
        num_blocks: 1,
        page_block_size: 64,
        topk: 2048,
        extra_num_blocks: 0,
        extra_page_block_size: 0,
        extra_topk: 0,
    }
}

fn test_plan_meta(
    num_sm_parts: usize,
    lse_accum_elem_count: usize,
    o_accum_elem_count: usize,
) -> SparseDecodePlanMeta {
    SparseDecodePlanMeta {
        num_sm_parts,
        fixed_overhead_num_blocks: 5,
        block_size_topk: 64,
        scheduler_metadata_i32_len: num_sm_parts * 8,
        num_splits_len: 2,
        lse_accum_elem_count,
        o_accum_elem_count,
    }
}

fn refused<T>(r: Result<T, Error>) -> String {
    match r {
        Err(Error::Tensor(message)) => message,
        Err(other) => panic!("another error: {other:?}"),
        Ok(_) => panic!("no error"),
    }
}

fn stream() -> cudaStream_t {
    cudaStream_t { handle: 5 }
}

#[test]
fn no_split_decode_uses_scalar_workspaces() -> Result<(), Error> {
    let shapes = decode_workspace_shapes(test_plan_meta(1, 1, 1), test_decode_dims())?;
    assert_eq!(shapes, ((1, 1, 1), (1, 1, 1, 1)));
    Ok(())
}

#[test]
fn split_decode_keeps_full_workspaces() -> Result<(), Error> {
    let dims = test_decode_dims();
    let total_splits = dims.batch + 2;
    let lse_elems = total_splits * dims.s_q * dims.h_q;
    let o_elems = lse_elems * dims.d_v;
    let shapes = decode_workspace_shapes(test_plan_meta(2, lse_elems, o_elems), dims)?;
    assert_eq!(
        shapes,
        (
            (total_splits, dims.s_q, dims.h_q),
            (total_splits, dims.s_q, dims.h_q, dims.d_v)
        )
    );
    Ok(())
}

#[test]
fn sm100_model1_requires_tma_aligned_cache_blocks() -> Result<(), Error> {
    let dims = SparseDecodeDims {
        h_q: 128,
        d_qk: 512,
        ..test_decode_dims()
    };
    let contiguous = Tensor::zeros((1, 64, 1, 584), CandleDType::U8, &Device::Cpu)?;
    assert!(validate_kv_block_strides_for_arch(dims, &contiguous, None, Arch::Sm100f).is_err());

    let padded =
        Tensor::zeros((1, 72, 1, 584), CandleDType::U8, &Device::Cpu)?.narrow(1, 0, 64)?;
    validate_kv_block_strides_for_arch(dims, &padded, None, Arch::Sm100f)?;
    Ok(())
}

#[test]
fn rank_validation_reports_mismatch() {
    assert!(ensure_rank(&[1, 2, 3], 4).is_err());
}

#[test]
fn shapes_are_compared() {
    assert_eq!(refused(ensure_rank(&[1, 2, 3], 4)), "expected rank 4, got rank 3");
    assert!(ensure_rank(&[], 0).is_ok());
    assert!(ensure_same_shape(&[1, 2], &[1, 2]).is_ok());
    assert_eq!(
        refused(ensure_same_shape(&[1, 2], &[3])),
        "shape mismatch: left=[1, 2], right=[3]"
    );
    assert_eq!(
        refused(ensure_same_shape(&[1, 2], &[1, 3])),
        "shape mismatch: left=[1, 2], right=[1, 3]"
    );
}

#[test]
fn errors_are_shown_with_their_origin() -> Result<(), Error> {
    let refusal: Result<(), Error> = invalid_arg("bad".to_string());
    assert_eq!(refusal.unwrap_err().message(), "tensor error: bad");
    let below = Error::from(flashmla::Error::InvalidArgument("low".to_string()));
    assert_eq!(below.message(), "invalid argument: low");
    let t = Tensor::zeros((2, 3), CandleDType::F32, &Device::Cpu)?;
    let candle = Error::from(t.reshape((7,)).unwrap_err());
    assert!(matches!(candle, Error::Candle(_)));
    assert!(candle.message().contains("reshape") || candle.message().contains("shape"));
    Ok(())
}

#[test]
fn descriptions_hold_what_tensors_are() -> Result<(), Error> {
    let q = Tensor::zeros((2, 3, 4), CandleDType::BF16, &Device::Cpu)?;
    let view = q.transpose(0, 2)?;
    assert_eq!(
        describe(&q, &view),
        TensorDesc {
            axes: vec![
                Axis { size: 4, stride: 1 },
                Axis { size: 3, stride: 4 },
                Axis { size: 2, stride: 12 },
            ],
            dtype: DType::BF16,
            same_device: true,
        }
    );
    for (candle, dtype) in [
        (CandleDType::U8, DType::U8),
        (CandleDType::U32, DType::U32),
        (CandleDType::I16, DType::I16),
        (CandleDType::I32, DType::I32),
        (CandleDType::I64, DType::I64),
        (CandleDType::BF16, DType::BF16),
        (CandleDType::F16, DType::F16),
        (CandleDType::F32, DType::F32),
        (CandleDType::F64, DType::F64),
        (CandleDType::F8E4M3, DType::F8E4M3),
    ] {
        let t = Tensor::zeros((1,), candle, &Device::Cpu)?;
        assert_eq!(describe(&q, &t).dtype, dtype);
        assert_eq!(dtype.name(), format!("{candle:?}"));
    }
    for (candle, dtype) in [
        (CandleDType::F6E2M3, DType::F6E2M3),
        (CandleDType::F6E3M2, DType::F6E3M2),
        (CandleDType::F4, DType::F4),
        (CandleDType::F8E8M0, DType::F8E8M0),
    ] {
        assert_eq!(dtype.name(), format!("{candle:?}"));
    }
    Ok(())
}

fn desc(dims: &[usize], dtype: DType) -> TensorDesc {
    let mut stride = 1;
    let mut axes = Vec::new();
    for &size in dims.iter().rev() {
        axes.insert(0, Axis { size, stride });
        stride *= size;
    }
    TensorDesc { axes, dtype, same_device: true }
}

#[test]
fn single_descriptions_are_checked() {
    let t = desc(&[2, 3], DType::F32);
    assert_eq!(refused(t.ensure_rank(3, "x")), "x must have rank 3, got 2");
    assert!(t.ensure_last_dim_contiguous("x").is_ok());
    let wide = TensorDesc {
        axes: vec![Axis { size: 2, stride: 1 }, Axis { size: 3, stride: 2 }],
        ..desc(&[], DType::F32)
    };
    assert_eq!(
        refused(wide.ensure_last_dim_contiguous("x")),
        "x must have a contiguous last dimension, got stride 2"
    );
    assert_eq!(
        refused(desc(&[], DType::F32).ensure_last_dim_contiguous("x")),
        "x must have rank > 0"
    );
    assert_eq!(
        refused(t.ensure_dtype(DType::BF16, "x")),
        "x must have dtype BF16, got F32"
    );
    assert_eq!(
        refused(t.ensure_kv_cache_dtype("x")),
        "x must have dtype U8 or F8E4M3, got F32"
    );
    assert!(desc(&[1], DType::F8E4M3).ensure_kv_cache_dtype("x").is_ok());
    let away = TensorDesc { same_device: false, ..desc(&[1], DType::F32) };
    assert_eq!(
        refused(away.ensure_same_device("x")),
        "x must be on the same device as q"
    );
    assert!(t.ensure_contiguous("x").is_ok());
    assert_eq!(refused(wide.ensure_contiguous("x")), "x must be contiguous");
    assert_eq!(refused(t.ensure_length(9, "x")), "x must have shape [9], got [2]");
}

#[test]
fn contiguity_agrees_with_candle() -> Result<(), Error> {
    let t = Tensor::zeros((2, 3, 4), CandleDType::F32, &Device::Cpu)?;
    let tensors = vec![
        t.clone(),
        t.transpose(0, 1)?,
        t.narrow(0, 1, 1)?,
        t.narrow(1, 0, 2)?,
        t.narrow(1, 0, 1)?,
        t.narrow(0, 0, 1)?.transpose(0, 1)?,
        t.narrow(2, 0, 0)?,
        Tensor::zeros((1, 4), CandleDType::F32, &Device::Cpu)?.broadcast_as((3, 4))?,
        Tensor::zeros((), CandleDType::F32, &Device::Cpu)?,
    ];
    for x in &tensors {
        assert_eq!(
            describe(&t, x).ensure_contiguous("x").is_ok(),
            x.is_contiguous()
        );
    }
    Ok(())
}

#[test]
fn addresses_add_the_start_offset() -> Result<(), Error> {
    let device = &Device::Cpu;
    let bf16 = Tensor::zeros((4, 8), CandleDType::BF16, device)?.narrow(0, 1, 2)?;
    assert_eq!(tensor_ptr_bf16(&bf16, 1000, "x").unwrap(), DevicePtr { addr: 1016 });
    let i32s = Tensor::zeros((4, 8), CandleDType::I32, device)?.narrow(0, 2, 2)?;
    assert_eq!(tensor_ptr_i32(&i32s, 1000, "x").unwrap(), DevicePtr { addr: 1064 });
    let f32s = Tensor::zeros((4, 8), CandleDType::F32, device)?.narrow(1, 3, 2)?;
    assert_eq!(tensor_ptr_f32(&f32s, 1000, "x").unwrap(), DevicePtr { addr: 1012 });
    for dtype in [CandleDType::U8, CandleDType::F8E4M3] {
        let cache = Tensor::zeros((4, 8), dtype, device)?.narrow(0, 3, 1)?;
        assert_eq!(tensor_ptr_u8_or_f8(&cache, 1000, "x").unwrap(), DevicePtr { addr: 1024 });
    }
    assert_eq!(
        refused(tensor_ptr_u8_or_f8(&f32s, 0, "kv")),
        "kv must have dtype U8 or F8E4M3, got F32"
    );
    assert_eq!(optional_ptr_f32(None, 99, "x").unwrap(), DevicePtr { addr: 0 });
    assert_eq!(refused(device_address(0, usize::MAX, 2, "x")), "x start_offset overflow");
    assert_eq!(refused(device_address(u64::MAX, 1, 4, "x")), "x pointer overflow");
    assert_eq!(device_id_from_ordinal(3).unwrap(), 3);
    assert_eq!(refused(device_id_from_ordinal(1 << 31)), "device id overflow");
    Ok(())
}

#[test]
fn allocations_have_to_be_addressable() {
    assert!(can_allocate(&[1024, 1024, 1024], 4));
    assert!(!can_allocate(&[usize::MAX, 2], 1));
    assert!(!can_allocate(&[usize::MAX, 2, 0], 1));
    assert!(can_allocate(&[usize::MAX, 2], 0));
    assert!(can_allocate(&[isize::MAX as usize], 1));
    assert!(!can_allocate(&[isize::MAX as usize], 2));
    let shapes = WorkspaceShapes {
        scheduler_metadata: (2, 8),
        num_splits: 3,
        lse_accum: (1, 2, 3),
        o_accum: (1, 2, 3, 4),
    };
    assert!(shapes.can_allocate());
    assert!(!WorkspaceShapes { num_splits: usize::MAX, ..shapes }.can_allocate());
}

fn sparse_descs() -> SparseDecodeDescs {
    SparseDecodeDescs {
        q: desc(&[2, 3, 64, 512], DType::BF16),
        kv_cache: desc(&[4, 64, 1, 584], DType::U8),
        indices: desc(&[2, 3, 128], DType::I32),
        topk_length: Some(desc(&[2], DType::I32)),
        attn_sink: Some(desc(&[64], DType::F32)),
        extra_kv_cache: None,
        extra_indices: None,
        extra_topk_length: None,
    }
}

fn sparse_descs_with_extra() -> SparseDecodeDescs {
    SparseDecodeDescs {
        extra_kv_cache: Some(desc(&[7, 32, 1, 584], DType::U8)),
        extra_indices: Some(desc(&[2, 3, 64], DType::I32)),
        extra_topk_length: Some(desc(&[2], DType::I32)),
        ..sparse_descs()
    }
}

#[test]
fn sparse_decode_dimensions_come_from_the_tensors() {
    let dims = sparse_descs_with_extra().validate(512, false, Arch::Sm90a).unwrap();
    assert_eq!(
        dims,
        SparseDecodeDims {
            batch: 2,
            s_q: 3,
            h_q: 64,
            h_kv: 1,
            d_qk: 512,
            d_v: 512,
            num_blocks: 4,
            page_block_size: 64,
            topk: 128,
            extra_num_blocks: 7,
            extra_page_block_size: 32,
            extra_topk: 64,
        }
    );
    assert_eq!(
        sparse_descs().validate(512, false, Arch::Sm90a).unwrap(),
        SparseDecodeDims {
            extra_num_blocks: 0,
            extra_page_block_size: 0,
            extra_topk: 0,
            ..dims
        }
    );
}

#[test]
fn sparse_decode_tensor_errors_name_the_first_violation() {
    let bad = |change: &dyn Fn(&mut SparseDecodeDescs)| {
        let mut d = sparse_descs();
        change(&mut d);
        refused(d.validate(512, false, Arch::Sm90a))
    };
    assert_eq!(bad(&|d| d.q = desc(&[2], DType::F32)), "q must have rank 4, got 1");
    assert_eq!(bad(&|d| d.kv_cache.same_device = false), "kv_cache must be on the same device as q");
    assert_eq!(bad(&|d| d.q.dtype = DType::F16), "q must have dtype BF16, got F16");
    assert_eq!(
        bad(&|d| d.kv_cache.dtype = DType::I64),
        "kv_cache must have dtype U8 or F8E4M3, got I64"
    );
    assert_eq!(bad(&|d| d.indices.dtype = DType::U32), "indices must have dtype I32, got U32");
    assert_eq!(
        bad(&|d| d.indices = desc(&[2, 4, 128], DType::I32)),
        "indices must have shape [2, 3, topk], got [2, 4, 128]"
    );
    assert_eq!(
        bad(&|d| d.topk_length = Some(desc(&[5], DType::I32))),
        "topk_length must have shape [2], got [5]"
    );
    assert_eq!(
        bad(&|d| d.attn_sink = Some(desc(&[63], DType::F32))),
        "attn_sink must have shape [64], got [63]"
    );
    assert_eq!(
        bad(&|d| d.extra_topk_length = Some(desc(&[2], DType::I32))),
        "extra_topk_length requires extra_kv_cache and extra_indices"
    );
    assert_eq!(
        bad(&|d| d.extra_indices = Some(desc(&[2, 3, 64], DType::I32))),
        "extra_kv_cache and extra_indices must be provided together"
    );
    assert_eq!(
        bad(&|d| d.kv_cache = desc(&[4, 64, 1, 656], DType::U8)),
        "kv_cache last dim must be 584 bytes for d_qk=512, got 656"
    );
    assert_eq!(
        bad(&|d| d.kv_cache.axes[1].stride = 600),
        "kv_cache page rows must be contiguous with stride 584, got 600"
    );
    assert_eq!(
        bad(&|d| {
            d.q = desc(&[2, 3, 64, 576], DType::BF16);
            d.kv_cache = desc(&[4, 64, 1, 656], DType::U8);
        }),
        "V32 sparse decode does not support topk_length"
    );
    assert!(matches!(
        sparse_descs().validate(100, false, Arch::Sm90a),
        Err(Error::FlashMla(flashmla::Error::InvalidArgument(m))) if m == "d_v must be 512, got 100"
    ));
}

#[test]
fn sparse_decode_extra_tensor_errors_name_the_first_violation() {
    let bad = |change: &dyn Fn(&mut SparseDecodeDescs)| {
        let mut d = sparse_descs_with_extra();
        change(&mut d);
        refused(d.validate_extra())
    };
    assert_eq!(
        bad(&|d| d.extra_kv_cache = Some(desc(&[1], DType::U8))),
        "extra_kv_cache must have rank 4, got 1"
    );
    assert_eq!(
        bad(&|d| d.extra_kv_cache = Some(desc(&[7, 32, 1, 584], DType::F8E4M3))),
        "extra_kv_cache dtype must match kv_cache dtype U8, got F8E4M3"
    );
    assert_eq!(
        bad(&|d| d.extra_kv_cache = Some(desc(&[7, 32, 2, 584], DType::U8))),
        "extra_kv_cache must match h_kv=1 and bytes_per_token=584, got h_kv=2 bytes=584"
    );
    assert_eq!(
        bad(&|d| d.extra_kv_cache.as_mut().unwrap().axes[1].stride = 1),
        "extra_kv_cache page rows must be contiguous with stride 584, got 1"
    );
    assert_eq!(
        bad(&|d| d.extra_indices = Some(desc(&[3, 3, 64], DType::I32))),
        "extra_indices must have shape [2, 3, extra_topk], got [3, 3, 64]"
    );
    assert_eq!(
        bad(&|d| d.q = desc(&[2, 3, 64, 576], DType::BF16)),
        "V32 sparse decode does not support extra KV cache"
    );
    assert_eq!(
        bad(&|d| d.extra_topk_length = Some(desc(&[4], DType::I32))),
        "extra_topk_length must have shape [2], got [4]"
    );
}

#[test]
fn cache_blocks_are_aligned_on_sm100_only() -> Result<(), Error> {
    let v32 = test_decode_dims();
    let model1 = SparseDecodeDims { d_qk: 512, ..v32 };
    let cache = Tensor::zeros((2, 64, 1, 584), CandleDType::U8, &Device::Cpu)?;
    assert!(validate_kv_block_strides_for_arch(model1, &cache, None, Arch::Sm90a).is_ok());
    assert_eq!(
        refused(validate_kv_block_strides_for_arch(model1, &cache, None, Arch::Sm100f)),
        "SM100 kv_cache block stride must be a multiple of 576, got 37376; pad each cache block as needed"
    );
    let packed = Tensor::zeros((2, 64, 1, 656), CandleDType::U8, &Device::Cpu)?;
    assert!(validate_kv_block_strides_for_arch(v32, &packed, None, Arch::Sm100f).is_ok());
    assert_eq!(
        refused(validate_kv_block_strides_for_arch(v32, &packed, Some(&cache), Arch::Sm100f)),
        "SM100 extra_kv_cache block stride must be a multiple of 656, got 37376; pad each cache block as needed"
    );
    Ok(())
}

#[test]
fn workspace_shape_errors_are_told_apart() {
    let dims = test_decode_dims();
    assert_eq!(
        refused(decode_workspace_shapes(test_plan_meta(1, 2, 1), dims)),
        "no-split sparse decode plan must use scalar accumulators"
    );
    assert_eq!(
        refused(decode_workspace_shapes(test_plan_meta(2, 1, 1), dims)),
        "sparse decode accumulator sizing metadata is inconsistent"
    );
    let tall = SparseDecodeDims { s_q: usize::MAX, h_q: 0, ..dims };
    assert_eq!(
        refused(decode_workspace_shapes(test_plan_meta(2, 1, 1), tall)),
        "sparse decode LSE workspace overflow"
    );
    let wide = SparseDecodeDims { d_v: usize::MAX, ..dims };
    assert_eq!(
        refused(decode_workspace_shapes(test_plan_meta(2, 1, 1), wide)),
        "sparse decode output workspace overflow"
    );
    let many = SparseDecodeDims { batch: usize::MAX, ..dims };
    assert!(matches!(
        decode_workspace_shapes(test_plan_meta(2, 1, 1), many),
        Err(Error::FlashMla(_))
    ));
}

struct SparseInputs {
    q: Tensor,
    kv_cache: Tensor,
    indices: Tensor,
    attn_sink: Tensor,
}

fn sparse_inputs() -> Result<SparseInputs, Error> {
    let device = &Device::Cpu;
    Ok(SparseInputs {
        q: Tensor::zeros((2, 3, 64, 512), CandleDType::BF16, device)?,
        kv_cache: Tensor::zeros((4, 64, 1, 584), CandleDType::U8, device)?,
        indices: Tensor::zeros((2, 3, 128), CandleDType::I32, device)?,
        attn_sink: Tensor::zeros((64,), CandleDType::F32, device)?,
    })
}

impl SparseInputs {
    fn tensors(&self) -> SparseDecodeTensors<'_> {
        SparseDecodeTensors {
            q: &self.q,
            kv_cache: &self.kv_cache,
            indices: &self.indices,
            topk_length: None,
            attn_sink: Some(&self.attn_sink),
            extra_kv_cache: None,
            extra_indices: None,
            extra_topk_length: None,
        }
    }
}

fn sparse_meta() -> SparseDecodePlanMeta {
    SparseDecodePlanMeta {
        num_sm_parts: 3,
        fixed_overhead_num_blocks: 5,
        block_size_topk: 64,
        scheduler_metadata_i32_len: 24,
        num_splits_len: 3,
        lse_accum_elem_count: 5 * 3 * 64,
        o_accum_elem_count: 5 * 3 * 64 * 512,
    }
}

#[test]
fn sparse_plans_are_allocated_and_accepted() -> Result<(), Error> {
    let inputs = sparse_inputs()?;
    let tensors = inputs.tensors();
    let dims = tensors.validate_for_arch(512, false, Arch::Sm90a)?;
    assert!(tensors.validate_for_arch(512, false, Arch::Sm100f).is_err());
    let meta = sparse_meta();
    assert!(check_plan_meta(meta, meta, dims)?.can_allocate());
    let plan = SparseDecodePlan::allocate(&inputs.q, meta, meta, dims)?;
    assert_eq!(plan.scheduler_metadata.dims(), &[3, 8]);
    assert_eq!(plan.scheduler_metadata.dtype(), CandleDType::I32);
    assert_eq!(plan.num_splits.dims(), &[3]);
    assert_eq!(plan.lse_accum.dims(), &[5, 3, 64]);
    assert_eq!(plan.lse_accum.dtype(), CandleDType::F32);
    assert_eq!(plan.o_accum.dims(), &[5, 3, 64, 512]);
    assert_eq!(plan.lse_accum.elem_count(), meta.lse_accum_elem_count);
    assert_eq!(plan.o_accum.elem_count(), meta.o_accum_elem_count);
    validate_plan_tensors(&inputs.q, dims, &plan)?;

    let bases = SparseDecodePlanBases {
        topk_length: 1,
        extra_topk_length: 2,
        scheduler_metadata: 3000,
        num_splits: 4000,
    };
    let sizes = tensors.size_request(dims, bases, 132, stream())?;
    assert!(sizes.tile_scheduler_metadata.is_null() && sizes.num_splits.is_null());
    assert!(sizes.topk_length.is_null() && sizes.extra_topk_length.is_null());
    let fill = tensors.metadata_request(&plan, dims, bases, 132, stream())?;
    assert_eq!(fill.tile_scheduler_metadata, DevicePtr { addr: 3000 });
    assert_eq!(fill.num_splits, DevicePtr { addr: 4000 });
    fill.validate().unwrap();

    let other = SparseDecodePlanMeta { num_splits_len: 9, ..meta };
    assert_eq!(
        refused(SparseDecodePlan::allocate(&inputs.q, other, meta, dims)),
        "sparse decode FFI planning disagrees with architecture-specific workspace sizing"
    );
    let uneven = SparseDecodePlanMeta { scheduler_metadata_i32_len: 25, ..meta };
    assert_eq!(
        refused(check_plan_meta(uneven, uneven, dims)),
        "invalid sparse decode scheduler metadata shape"
    );
    assert_eq!(
        refused(plan.confirm(other)),
        "sparse decode metadata generation returned inconsistent plan metadata"
    );
    Ok(())
}

#[test]
fn sparse_plan_tensor_errors_name_the_first_violation() -> Result<(), Error> {
    let inputs = sparse_inputs()?;
    let dims = inputs.tensors().validate(512, false, Arch::Sm90a)?;
    let meta = sparse_meta();
    let device = &Device::Cpu;
    let bad = |change: &dyn Fn(&mut SparseDecodePlan) -> Result<(), Error>| {
        let mut plan = SparseDecodePlan::allocate(&inputs.q, meta, meta, dims).unwrap();
        change(&mut plan).unwrap();
        refused(validate_plan_tensors(&inputs.q, dims, &plan))
    };
    assert_eq!(
        bad(&|p| {
            p.num_splits = Tensor::zeros((3, 1), CandleDType::I32, device)?;
            Ok(())
        }),
        "num_splits must have rank 1, got 2"
    );
    assert_eq!(
        bad(&|p| {
            p.lse_accum = Tensor::zeros((5, 3, 64), CandleDType::F64, device)?;
            Ok(())
        }),
        "lse_accum must have dtype F32, got F64"
    );
    assert_eq!(
        bad(&|p| {
            p.scheduler_metadata = Tensor::zeros((8, 3), CandleDType::I32, device)?;
            Ok(())
        }),
        "scheduler_metadata shape must be [3, 8], got (8, 3)"
    );
    assert_eq!(
        bad(&|p| {
            p.num_splits = Tensor::zeros((4,), CandleDType::I32, device)?;
            Ok(())
        }),
        "num_splits length must be 3, got 4"
    );
    assert_eq!(
        bad(&|p| {
            p.lse_accum = Tensor::zeros((5, 64, 3), CandleDType::F32, device)?;
            Ok(())
        }),
        "lse_accum shape does not match sparse decode plan metadata"
    );
    assert_eq!(
        bad(&|p| {
            p.o_accum = Tensor::zeros((1, 1, 1, 1), CandleDType::F32, device)?;
            Ok(())
        }),
        "o_accum shape does not match sparse decode plan metadata"
    );
    Ok(())
}

#[test]
fn sparse_launches_are_prepared_and_finished() -> Result<(), Error> {
    let inputs = sparse_inputs()?;
    let tensors = inputs.tensors();
    let dims = tensors.validate(512, false, Arch::Sm90a)?;
    let meta = sparse_meta();
    let plan = SparseDecodePlan::allocate(&inputs.q, meta, meta, dims)?.confirm(meta)?;
    let launch = tensors.prepare(&plan, 512, false, Arch::Sm90a)?.unwrap();
    assert_eq!(launch.dims(), dims);
    assert_eq!(launch.out().dims(), &[2, 3, 64, 512]);
    assert_eq!(launch.out().dtype(), CandleDType::BF16);
    assert_eq!(launch.lse().dims(), &[2, 3, 64]);
    let bases = SparseDecodeBases {
        q: 10,
        kv_cache: 20,
        indices: 30,
        topk_length: 40,
        attn_sink: 50,
        out: 60,
        lse: 70,
        extra_kv_cache: 80,
        extra_indices: 90,
        extra_topk_length: 100,
        lse_accum: 110,
        o_accum: 120,
        scheduler_metadata: 130,
        num_splits: 140,
    };
    let config = SparseDecodeConfig::default();
    let params = launch.params(&tensors, &plan, config, bases, stream())?;
    assert_eq!(
        (params.q.addr, params.kv.addr, params.indices.addr, params.attn_sink.addr),
        (10, 20, 30, 50)
    );
    assert_eq!((params.topk_length.addr, params.extra_kv.addr), (0, 0));
    assert_eq!(
        (params.strides.q_b, params.strides.q_s_q, params.strides.q_h_q),
        (3 * 64 * 512, 64 * 512, 512)
    );
    assert_eq!((params.strides.kv_block, params.strides.kv_row), (64 * 584, 584));
    assert_eq!((params.strides.indices_b, params.strides.indices_s_q), (384, 128));
    assert_eq!((params.strides.lse_b, params.strides.lse_s_q), (192, 64));
    assert_eq!((params.strides.lse_accum_split, params.strides.lse_accum_s_q), (192, 64));
    assert_eq!(params.strides.o_accum_h_q, 512);
    assert_eq!(params.strides.extra_kv_block, 0);
    assert_eq!(params.num_sm_parts, 3);
    // What was prepared from accepted tensors passes the checks of the kernel layer.
    params.validate().unwrap();

    let rows: Vec<f32> = (0..2 * 3 * 64).map(|i| i as f32).collect();
    let values = Tensor::from_vec(rows, (2, 3, 64), &Device::Cpu)?;
    launch.lse().slice_set(&values, 0, 0)?;
    let output = launch.finish()?;
    assert_eq!(output.out.dims(), &[2, 3, 64, 512]);
    assert_eq!(output.lse.dims(), &[2, 64, 3]);
    let lse = output.lse.contiguous()?.to_vec3::<f32>()?;
    assert_eq!(lse[1][5][2], (192 + 2 * 64 + 5) as f32);
    Ok(())
}

#[test]
fn sparse_launches_pass_on_an_extra_cache() -> Result<(), Error> {
    let inputs = sparse_inputs()?;
    let device = &Device::Cpu;
    let extra_kv = Tensor::zeros((7, 32, 1, 584), CandleDType::U8, device)?;
    let extra_indices = Tensor::zeros((2, 3, 64), CandleDType::I32, device)?;
    let extra_length = Tensor::zeros((2,), CandleDType::I32, device)?;
    let tensors = SparseDecodeTensors {
        extra_kv_cache: Some(&extra_kv),
        extra_indices: Some(&extra_indices),
        extra_topk_length: Some(&extra_length),
        ..inputs.tensors()
    };
    let dims = tensors.validate(512, false, Arch::Sm90a)?;
    let meta = sparse_meta();
    let plan = SparseDecodePlan::allocate(&inputs.q, meta, meta, dims)?;
    let launch = tensors.prepare(&plan, 512, false, Arch::Sm90a)?.unwrap();
    let bases = SparseDecodeBases {
        q: 1,
        kv_cache: 2,
        indices: 3,
        topk_length: 4,
        attn_sink: 5,
        out: 6,
        lse: 7,
        extra_kv_cache: 8,
        extra_indices: 9,
        extra_topk_length: 10,
        lse_accum: 11,
        o_accum: 12,
        scheduler_metadata: 13,
        num_splits: 14,
    };
    let params = launch.params(&tensors, &plan, SparseDecodeConfig::default(), bases, stream())?;
    assert_eq!(
        (params.extra_kv.addr, params.extra_indices.addr, params.extra_topk_length.addr),
        (8, 9, 10)
    );
    assert_eq!(
        (
            params.strides.extra_kv_block,
            params.strides.extra_kv_row,
            params.strides.extra_indices_b,
            params.strides.extra_indices_s_q
        ),
        (32 * 584, 584, 192, 64)
    );
    params.validate().unwrap();
    Ok(())
}

#[test]
fn outputs_too_large_to_address_are_not_allocated() -> Result<(), Error> {
    let device = &Device::Cpu;
    let batch = 1usize << 47;
    let q = Tensor::zeros((1, 1, 64, 512), CandleDType::BF16, device)?
        .broadcast_as((batch, 1, 64, 512))?;
    let kv_cache = Tensor::zeros((4, 64, 1, 584), CandleDType::U8, device)?;
    let indices =
        Tensor::zeros((1, 1, 64), CandleDType::I32, device)?.broadcast_as((batch, 1, 64))?;
    let tensors = SparseDecodeTensors {
        q: &q,
        kv_cache: &kv_cache,
        indices: &indices,
        topk_length: None,
        attn_sink: None,
        extra_kv_cache: None,
        extra_indices: None,
        extra_topk_length: None,
    };
    assert_eq!(tensors.validate(512, false, Arch::Sm90a)?.batch, batch);
    let plan = SparseDecodePlan {
        scheduler_metadata: Tensor::zeros((1, 8), CandleDType::I32, device)?,
        num_splits: Tensor::zeros((2,), CandleDType::I32, device)?,
        lse_accum: Tensor::zeros((1, 1, 1), CandleDType::F32, device)?,
        o_accum: Tensor::zeros((1, 1, 1, 1), CandleDType::F32, device)?,
        meta: test_plan_meta(1, 1, 1),
    };
    assert!(tensors.prepare(&plan, 512, false, Arch::Sm90a)?.is_none());
    Ok(())
}

fn prefill_descs() -> SparsePrefillDescs {
    SparsePrefillDescs {
        q: desc(&[16, 64, 512], DType::BF16),
        kv: desc(&[128, 1, 512], DType::BF16),
        indices: desc(&[16, 1, 128], DType::I32),
        topk_length: Some(desc(&[16], DType::I32)),
        attn_sink: Some(desc(&[64], DType::F32)),
    }
}

#[test]
fn sparse_prefill_tensor_errors_name_the_first_violation() {
    assert!(prefill_descs().validate(512).is_ok());
    let bad = |change: &dyn Fn(&mut SparsePrefillDescs)| {
        let mut d = prefill_descs();
        change(&mut d);
        refused(d.validate(512))
    };
    assert_eq!(bad(&|d| d.kv = desc(&[1], DType::BF16)), "kv must have rank 3, got 1");
    assert_eq!(bad(&|d| d.indices.same_device = false), "indices must be on the same device as q");
    assert_eq!(
        bad(&|d| d.attn_sink = Some(desc(&[64], DType::F16))),
        "attn_sink must have dtype F32, got F16"
    );
    assert_eq!(
        bad(&|d| d.kv = desc(&[128, 1, 576], DType::BF16)),
        "kv d_qk (576) must match q d_qk (512)"
    );
    assert_eq!(
        bad(&|d| d.indices = desc(&[15, 1, 128], DType::I32)),
        "indices shape must start with [16, 1], got [15, 1]"
    );
    assert_eq!(
        bad(&|d| d.topk_length = Some(desc(&[3], DType::I32))),
        "topk_length must have shape [16], got [3]"
    );
    assert_eq!(
        bad(&|d| d.attn_sink = Some(desc(&[3], DType::F32))),
        "attn_sink must have shape [64], got [3]"
    );
}

#[test]
fn sparse_prefill_launches_are_prepared() -> Result<(), Error> {
    let device = &Device::Cpu;
    let q = Tensor::zeros((16, 64, 512), CandleDType::BF16, device)?;
    let kv = Tensor::zeros((128, 1, 512), CandleDType::BF16, device)?;
    let indices = Tensor::zeros((16, 1, 64), CandleDType::I32, device)?;
    let tensors = SparsePrefillTensors {
        q: &q,
        kv: &kv,
        indices: &indices,
        topk_length: None,
        attn_sink: None,
    };
    assert!(matches!(
        tensors.prepare(512, true, Arch::Sm90a),
        Err(Error::FlashMla(flashmla::Error::InvalidArgument(_)))
    ));
    let launch = tensors.prepare(512, true, Arch::Sm100f)?.unwrap();
    assert_eq!(launch.output().out.dims(), &[16, 64, 512]);
    assert_eq!(launch.output().out.dtype(), CandleDType::BF16);
    assert_eq!(launch.output().max_logits.dims(), &[16, 64]);
    assert_eq!(launch.output().lse.dims(), &[16, 64]);
    assert_eq!(launch.output().lse.dtype(), CandleDType::F32);
    let zeros = launch.output().max_logits.flatten_all()?.to_vec1::<f32>()?;
    assert!(zeros.iter().all(|value| *value == 0.0));
    let bases = SparsePrefillBases {
        q: 1,
        kv: 2,
        indices: 3,
        attn_sink: 4,
        topk_length: 5,
        out: 6,
        max_logits: 7,
        lse: 8,
    };
    let config = SparsePrefillConfig::default();
    let params = launch.params(&tensors, config, bases, 132, stream())?;
    assert_eq!((params.strides.q_s_q, params.strides.q_h_q), (64 * 512, 512));
    assert_eq!((params.strides.kv_s_kv, params.strides.kv_h_kv), (512, 512));
    assert_eq!((params.strides.indices_s_q, params.strides.indices_h_kv), (64, 64));
    assert_eq!((params.out.addr, params.max_logits.addr, params.lse.addr), (6, 7, 8));
    assert!(params.attn_sink.is_null() && params.topk_length.is_null());
    params.validate(Arch::Sm100f).unwrap();
    let out_id = launch.output().out.id();
    let output = launch.finish()?;
    assert_eq!(output.out.id(), out_id);
    assert_eq!(output.lse.dims(), &[16, 64]);
    Ok(())
}

#[test]
fn head_counts_are_padded_to_those_of_the_kernels() {
    assert_eq!(launched_heads(1, true, Arch::Sm90a), 64);
    assert_eq!(launched_heads(63, true, Arch::Sm90a), 64);
    assert_eq!(launched_heads(65, true, Arch::Sm90a), 65);
    assert_eq!(launched_heads(127, true, Arch::Sm90a), 127);
    assert_eq!(launched_heads(1, true, Arch::Sm100f), 128);
    assert_eq!(launched_heads(65, true, Arch::Sm100f), 128);
    assert_eq!(launched_heads(127, true, Arch::Sm100f), 128);
    for arch in [Arch::Sm90a, Arch::Sm100f] {
        for kept in [0, 64, 128, 129, usize::MAX] {
            assert_eq!(launched_heads(kept, true, arch), kept);
        }
        for h_q in [0, 1, 16, 64, 100, 128, 200] {
            let padded = launched_heads(h_q, true, arch);
            assert_eq!(launched_heads(padded, true, arch), padded);
            assert_eq!(launched_heads(h_q, false, arch), h_q);
        }
    }
}

fn numbers(count: usize) -> Vec<f32> {
    (0..count).map(|i| (i % 200 + 1) as f32).collect()
}

#[test]
fn padding_adds_zeros_and_slicing_takes_them_away() -> Result<(), Error> {
    let device = &Device::Cpu;
    let t = Tensor::from_vec(numbers(24), (2, 3, 4), device)?;
    assert!(pad_axis(&t, 1, 3)?.is_none());
    let padded = pad_axis(&t, 1, 5)?.unwrap();
    assert_eq!(padded.dims(), &[2, 5, 4]);
    assert_eq!(padded.stride(), &[20, 4, 1]);
    assert_eq!(padded.dtype(), CandleDType::F32);
    let (before, after) = (t.to_vec3::<f32>()?, padded.to_vec3::<f32>()?);
    for i in 0..2 {
        assert_eq!(&after[i][..3], &before[i][..]);
        assert_eq!(&after[i][3..], &[vec![0.0; 4], vec![0.0; 4]]);
    }

    // The source need not lie in memory order or at the start of its storage.
    let view = t.transpose(0, 1)?.narrow(0, 1, 2)?;
    let padded_view = pad_axis(&view, 0, 3)?.unwrap();
    assert_eq!(padded_view.dims(), &[3, 2, 4]);
    assert_eq!(padded_view.stride(), &[8, 4, 1]);
    assert_eq!(&padded_view.to_vec3::<f32>()?[..2], &view.to_vec3::<f32>()?[..]);
    assert_eq!(padded_view.to_vec3::<f32>()?[2], vec![vec![0.0; 4], vec![0.0; 4]]);

    let id = padded.id();
    let front = slice_axis(padded, 1, 3)?;
    assert_ne!(front.id(), id);
    assert_eq!(front.dims(), &[2, 3, 4]);
    assert_eq!(front.stride(), &[20, 4, 1]);
    assert_eq!(front.to_vec3::<f32>()?, before);
    let same = slice_axis(t.clone(), 1, 3)?;
    assert_eq!(same.id(), t.id());

    let sink = Tensor::from_vec(numbers(3), (3,), device)?;
    let padded_sink = pad_sink(Some(&sink), 3, 64)?.unwrap().to_vec1::<f32>()?;
    assert_eq!(&padded_sink[..4], &[1.0, 2.0, 3.0, 0.0]);
    assert_eq!(padded_sink.len(), 64);
    assert!(pad_sink(Some(&sink), 3, 3)?.is_none());
    assert!(pad_sink(None, 3, 64)?.is_none());
    Ok(())
}

#[test]
fn block_copies_count_elements_in_32_bits() {
    assert!(can_copy(&[1 << 16, (1 << 16) - 1], 2));
    assert!(!can_copy(&[1 << 16, 1 << 16], 2));
    assert!(can_copy(&[u32::MAX as usize], 4));
    assert!(!can_copy(&[u32::MAX as usize + 1], 4));
    assert!(!can_copy(&[usize::MAX, 2], 0));
}

#[test]
fn sparse_prefill_pads_query_heads_and_slices_them_back() -> Result<(), Error> {
    let device = &Device::Cpu;
    let heads = |h_q: usize| -> Result<(Tensor, Tensor), Error> {
        Ok((
            Tensor::from_vec(numbers(2 * h_q * 512), (2, h_q, 512), device)?
                .to_dtype(CandleDType::BF16)?,
            Tensor::from_vec(numbers(h_q), (h_q,), device)?,
        ))
    };
    let kv = Tensor::zeros((128, 1, 512), CandleDType::BF16, device)?;
    let indices = Tensor::zeros((2, 1, 128), CandleDType::I32, device)?;
    let config = SparsePrefillConfig::default();
    let bases = SparsePrefillBases {
        q: 1,
        kv: 2,
        indices: 3,
        attn_sink: 4,
        topk_length: 5,
        out: 6,
        max_logits: 7,
        lse: 8,
    };
    for (h_q, arch, full) in [(16, Arch::Sm90a, 64), (63, Arch::Sm90a, 64), (100, Arch::Sm100f, 128)]
    {
        let (q, sink) = heads(h_q)?;
        let tensors = SparsePrefillTensors {
            q: &q,
            kv: &kv,
            indices: &indices,
            topk_length: None,
            attn_sink: Some(&sink),
        };
        let launch = tensors.prepare(512, true, arch)?.unwrap();
        assert_eq!(launch.dims().h_q, full);
        let launched = launch.q(&tensors);
        assert_eq!(launched.dims(), &[2, full, 512]);
        assert_eq!(launched.dtype(), CandleDType::BF16);
        let kept = launched.narrow(1, 0, h_q)?.to_dtype(CandleDType::F32)?.to_vec3::<f32>()?;
        assert_eq!(kept, q.to_dtype(CandleDType::F32)?.to_vec3::<f32>()?);
        let added = launched.narrow(1, h_q, full - h_q)?.to_dtype(CandleDType::F32)?;
        assert!(added.flatten_all()?.to_vec1::<f32>()?.iter().all(|value| *value == 0.0));
        let launched_sink = launch.attn_sink(&tensors).unwrap().to_vec1::<f32>()?;
        assert_eq!(launched_sink.len(), full);
        assert_eq!(&launched_sink[..h_q], &numbers(h_q)[..]);
        assert!(launched_sink[h_q..].iter().all(|value| *value == 0.0));

        let params = launch.params(&tensors, config, bases, 132, stream())?;
        assert_eq!(params.dims.h_q, full);
        assert_eq!((params.strides.q_s_q, params.strides.q_h_q), (full * 512, 512));
        params.validate(arch).unwrap();

        assert_eq!(launch.output().out.dims(), &[2, full, 512]);
        let rows = Tensor::from_vec(numbers(2 * full), (2, full), device)?;
        launch.output().lse.slice_set(&rows, 0, 0)?;
        launch.output().max_logits.slice_set(&(rows.clone() + 1.0)?, 0, 0)?;
        let output = launch.finish()?;
        assert_eq!(output.out.dims(), &[2, h_q, 512]);
        assert_eq!(output.out.dtype(), CandleDType::BF16);
        assert_eq!(output.max_logits.dims(), &[2, h_q]);
        assert_eq!(output.lse.dims(), &[2, h_q]);
        assert_eq!(output.lse.dtype(), CandleDType::F32);
        let (lse, written) = (output.lse.to_vec2::<f32>()?, rows.to_vec2::<f32>()?);
        let max_logits = output.max_logits.to_vec2::<f32>()?;
        for i in 0..2 {
            assert_eq!(&lse[i][..], &written[i][..h_q]);
            assert_eq!(max_logits[i][h_q - 1], written[i][h_q - 1] + 1.0);
        }
    }

    let refusal = |h_q: usize, pad_heads: bool, arch: Arch| -> Result<String, Error> {
        let (q, _) = heads(h_q)?;
        let tensors = SparsePrefillTensors {
            q: &q,
            kv: &kv,
            indices: &indices,
            topk_length: None,
            attn_sink: None,
        };
        match tensors.prepare(512, pad_heads, arch) {
            Err(error) => Ok(error.message()),
            Ok(_) => Ok("accepted".to_string()),
        }
    };
    let unpadded = "invalid argument: h_q must be padded to 64 or 128, got ";
    assert_eq!(refusal(16, false, Arch::Sm90a)?, format!("{unpadded}16"));
    assert_eq!(refusal(65, true, Arch::Sm90a)?, format!("{unpadded}65"));
    assert_eq!(refusal(129, true, Arch::Sm100f)?, format!("{unpadded}129"));
    assert_eq!(refusal(65, true, Arch::Sm100f)?, "accepted");
    assert_eq!(refusal(64, true, Arch::Sm90a)?, "accepted");
    assert_eq!(refusal(128, true, Arch::Sm90a)?, "accepted");

    // The sink is compared with the heads that were given.
    let (q, _) = heads(16)?;
    let (_, sink) = heads(64)?;
    let tensors = SparsePrefillTensors {
        q: &q,
        kv: &kv,
        indices: &indices,
        topk_length: None,
        attn_sink: Some(&sink),
    };
    assert_eq!(
        refused(tensors.prepare(512, true, Arch::Sm90a)),
        "attn_sink must have shape [16], got [64]"
    );
    Ok(())
}

#[test]
fn prefill_tensors_too_large_to_address_are_not_allocated() -> Result<(), Error> {
    let device = &Device::Cpu;
    let s_q = 1usize << 47;
    let q = Tensor::zeros((1, 1, 512), CandleDType::BF16, device)?.broadcast_as((s_q, 1, 512))?;
    let kv = Tensor::zeros((128, 1, 512), CandleDType::BF16, device)?;
    let indices =
        Tensor::zeros((1, 1, 128), CandleDType::I32, device)?.broadcast_as((s_q, 1, 128))?;
    let tensors = SparsePrefillTensors {
        q: &q,
        kv: &kv,
        indices: &indices,
        topk_length: None,
        attn_sink: None,
    };
    assert!(tensors.prepare(512, true, Arch::Sm90a)?.is_none());
    Ok(())
}

#[test]
fn large_tensors_are_padded_in_parts() -> Result<(), Error> {
    let device = &Device::Cpu;
    let t = Tensor::from_vec(numbers(5 * 3 * 2), (5, 3, 2), device)?;
    let whole = pad_axis(&t, 1, 4)?.unwrap().to_vec3::<f32>()?;
    // A padded row has 8 elements: one to five rows go into a copy.
    for limit in [8, 15, 16, 24, 39, 40, u32::MAX] {
        let padded = pad_axis_within(&t, 1, 4, limit)?.unwrap();
        assert_eq!(padded.dims(), &[5, 4, 2]);
        assert_eq!(padded.stride(), &[8, 2, 1]);
        assert_eq!(padded.to_vec3::<f32>()?, whole);
    }
    let turned = t.transpose(0, 2)?;
    let whole = pad_axis(&turned, 1, 7)?.unwrap().to_vec3::<f32>()?;
    assert_eq!(pad_axis_within(&turned, 1, 7, 35)?.unwrap().to_vec3::<f32>()?, whole);

    // Where a row is too large for a copy, its positions are padded in parts.
    let q = Tensor::from_vec(numbers(2 * 5 * 3 * 4), (2, 5, 3, 4), device)?;
    let expected = pad_axis(&q, 2, 6)?.unwrap().flatten_all()?.to_vec1::<f32>()?;
    assert_eq!(expected[..12], numbers(12)[..]);
    assert_eq!(expected[12..24], [0.0; 12]);
    for limit in [24, 47, 48, 119, 120, 240] {
        let padded = pad_axis_within(&q, 2, 6, limit)?.unwrap();
        assert_eq!(padded.dims(), &[2, 5, 6, 4]);
        assert_eq!(padded.stride(), &[120, 24, 4, 1]);
        assert_eq!(padded.flatten_all()?.to_vec1::<f32>()?, expected);
    }
    let bf16 = q.to_dtype(CandleDType::BF16)?;
    let padded = pad_axis_within(&bf16, 2, 6, 24)?.unwrap();
    assert_eq!(padded.dtype(), CandleDType::BF16);
    let values = padded.to_dtype(CandleDType::F32)?.flatten_all()?.to_vec1::<f32>()?;
    assert_eq!(values, expected);
    assert!(pad_axis_within(&q, 2, 3, 1)?.is_none());

    assert_eq!(copy_capacity(&[1, 4, 2], 39), 4);
    assert_eq!(copy_capacity(&[1, 4, 2], 7), 0);
    assert_eq!(copy_capacity(&[usize::MAX, 2], u32::MAX), 0);
    Ok(())
}

#[test]
fn undecided_head_counts_are_left_to_the_architecture() {
    for (h_q, pad, depends) in [
        (16, true, true),
        (63, true, true),
        (64, true, false),
        (100, true, true),
        (128, true, false),
        (200, true, false),
        (0, true, false),
        (16, false, false),
    ] {
        assert_eq!(heads_depend_on_arch(h_q, pad), depends);
    }
    let with_heads = |h_q: usize| SparseDecodeDescs {
        q: desc(&[2, 3, h_q, 512], DType::BF16),
        attn_sink: None,
        ..sparse_descs()
    };
    let message = |r: Result<(), Error>| match r {
        Ok(()) => "accepted".to_string(),
        Err(error) => error.message(),
    };
    let two_heads = |h_q: usize| SparseDecodeDescs {
        kv_cache: desc(&[4, 64, 2, 584], DType::U8),
        ..with_heads(h_q)
    };
    let unpadded = "invalid argument: h_q must be padded to 64 or 128, got 100";
    // With 100 heads SM90 stops at the head count, which SM100 pads.
    assert_eq!(message(two_heads(100).validate_early(512, true)), "accepted");
    assert_eq!(
        message(two_heads(100).validate(512, true, Arch::Sm90a).map(|_| ())),
        unpadded
    );
    assert_eq!(
        message(two_heads(100).validate(512, true, Arch::Sm100f).map(|_| ())),
        "invalid argument: h_kv must be 1 for sparse MLA, got 2"
    );
    assert_eq!(
        message(two_heads(100).validate_early(511, true)),
        "invalid argument: d_v must be 512, got 511"
    );
    assert_eq!(message(two_heads(100).validate_early(512, false)), unpadded);
    assert_eq!(
        message(two_heads(16).validate_early(512, true)),
        "invalid argument: h_kv must be 1 for sparse MLA, got 2"
    );
    assert_eq!(message(with_heads(16).validate_early(512, true)), "accepted");
    let moved = SparseDecodeDescs {
        indices: desc(&[2, 4, 128], DType::I32),
        ..with_heads(100)
    };
    assert_eq!(
        refused(moved.validate_early(512, true)),
        "indices must have shape [2, 3, topk], got [2, 4, 128]"
    );
}

#[test]
fn sparse_decode_pads_query_heads_and_slices_them_back() -> Result<(), Error> {
    let device = &Device::Cpu;
    let q = Tensor::from_vec(numbers(2 * 3 * 16 * 512), (2, 3, 16, 512), device)?
        .to_dtype(CandleDType::BF16)?;
    let sink = Tensor::from_vec(numbers(16), (16,), device)?;
    let inputs = SparseInputs { q, attn_sink: sink, ..sparse_inputs()? };
    let tensors = inputs.tensors();
    assert!(matches!(
        tensors.validate(512, false, Arch::Sm90a),
        Err(Error::FlashMla(flashmla::Error::InvalidArgument(m)))
            if m == "h_q must be padded to 64 or 128, got 16"
    ));
    assert_eq!(tensors.validate(512, true, Arch::Sm100f)?.h_q, 128);
    let dims = tensors.validate_for_arch(512, true, Arch::Sm90a)?;
    assert_eq!(dims.h_q, 64);
    let meta = sparse_meta();
    let plan = SparseDecodePlan::allocate(&inputs.q, meta, meta, dims)?;
    assert_eq!(plan.lse_accum.dims(), &[5, 3, 64]);
    assert_eq!(
        refused(tensors.prepare(&plan, 512, true, Arch::Sm100f)),
        "sparse decode accumulator sizing metadata is inconsistent"
    );

    let launch = tensors.prepare(&plan, 512, true, Arch::Sm90a)?.unwrap();
    assert_eq!(launch.dims(), dims);
    let launched = launch.q(&tensors);
    assert_eq!(launched.dims(), &[2, 3, 64, 512]);
    let kept = launched.narrow(2, 0, 16)?.to_dtype(CandleDType::F32)?.flatten_all()?;
    let given = inputs.q.to_dtype(CandleDType::F32)?.flatten_all()?;
    assert_eq!(kept.to_vec1::<f32>()?, given.to_vec1::<f32>()?);
    let added = launched.narrow(2, 16, 48)?.to_dtype(CandleDType::F32)?.flatten_all()?;
    assert!(added.to_vec1::<f32>()?.iter().all(|value| *value == 0.0));
    let launched_sink = launch.attn_sink(&tensors).unwrap().to_vec1::<f32>()?;
    assert_eq!(&launched_sink[..16], &numbers(16)[..]);
    assert_eq!(&launched_sink[16..], &[0.0; 48]);

    let bases = SparseDecodeBases {
        q: 10,
        kv_cache: 20,
        indices: 30,
        topk_length: 40,
        attn_sink: 50,
        out: 60,
        lse: 70,
        extra_kv_cache: 80,
        extra_indices: 90,
        extra_topk_length: 100,
        lse_accum: 110,
        o_accum: 120,
        scheduler_metadata: 130,
        num_splits: 140,
    };
    let params = launch.params(&tensors, &plan, SparseDecodeConfig::default(), bases, stream())?;
    assert_eq!(params.dims.h_q, 64);
    assert_eq!((params.q.addr, params.attn_sink.addr), (10, 50));
    assert_eq!(
        (params.strides.q_b, params.strides.q_s_q, params.strides.q_h_q),
        (3 * 64 * 512, 64 * 512, 512)
    );
    assert_eq!(params.strides.out_s_q, 64 * 512);
    params.validate().unwrap();

    let rows: Vec<f32> = (0..2 * 3 * 64).map(|i| i as f32).collect();
    let values = Tensor::from_vec(rows, (2, 3, 64), device)?;
    launch.lse().slice_set(&values, 0, 0)?;
    let output = launch.finish()?;
    assert_eq!(output.out.dims(), &[2, 3, 16, 512]);
    assert_eq!(output.out.dtype(), CandleDType::BF16);
    assert_eq!(output.lse.dims(), &[2, 16, 3]);
    assert_eq!(output.lse.dtype(), CandleDType::F32);
    assert_eq!(output.lse.stride(), &[192, 1, 64]);
    let lse = output.lse.contiguous()?.to_vec3::<f32>()?;
    assert_eq!(lse[1][5][2], (192 + 2 * 64 + 5) as f32);
    assert_eq!(lse[0][15][0], 15.0);
    Ok(())
}

#[test]
fn plan_layouts_are_checked_before_their_sizes() -> Result<(), Error> {
    let inputs = sparse_inputs()?;
    let dims = inputs.tensors().validate(512, false, Arch::Sm90a)?;
    let meta = sparse_meta();
    let mut plan = SparseDecodePlan::allocate(&inputs.q, meta, meta, dims)?;
    plan.meta.num_sm_parts = 0;
    validate_plan_layout(&plan.describe(&inputs.q))?;
    plan.o_accum = Tensor::zeros((1, 1, 1), CandleDType::F32, &Device::Cpu)?;
    assert_eq!(
        refused(validate_plan_layout(&plan.describe(&inputs.q))),
        "o_accum must have rank 4, got 3"
    );
    Ok(())
}

fn dense_descs() -> DenseDecodeDescs {
    DenseDecodeDescs {
        q: desc(&[2, 2, 4, 576], DType::BF16),
        k_cache: desc(&[3, 64, 2, 576], DType::BF16),
        seqlens_k: desc(&[2], DType::I32),
        block_table: Some(desc(&[2, 5], DType::I32)),
    }
}

#[test]
fn dense_decode_tensor_errors_name_the_first_violation() {
    assert_eq!(
        dense_descs().validate(512).unwrap(),
        DenseDecodeDims {
            batch: 2,
            s_q: 2,
            h_q: 4,
            h_k: 2,
            d_qk: 576,
            d_v: 512,
            num_blocks: 3,
            page_block_size: 64,
        }
    );
    let bad = |change: &dyn Fn(&mut DenseDecodeDescs)| {
        let mut d = dense_descs();
        change(&mut d);
        refused(d.validate(512))
    };
    assert_eq!(
        bad(&|d| d.seqlens_k = desc(&[2, 1], DType::I32)),
        "seqlens_k must have rank 1, got 2"
    );
    assert_eq!(
        bad(&|d| d.k_cache = desc(&[3, 64, 2, 512], DType::BF16)),
        "k_cache d_qk (512) must match q d_qk (576)"
    );
    assert_eq!(
        bad(&|d| d.seqlens_k = desc(&[3], DType::I32)),
        "seqlens_k must have shape [2], got [3]"
    );
    assert_eq!(
        bad(&|d| d.block_table = Some(desc(&[1, 5], DType::I32))),
        "block_table batch must be 2, got 1"
    );
    assert_eq!(
        bad(&|d| d.block_table = Some(desc(&[2, 0], DType::I32))),
        "block_table must have at least one block column"
    );
    assert!(matches!(
        DenseDecodeDescs { q: desc(&[2, 2, 3, 576], DType::BF16), ..dense_descs() }.validate(512),
        Err(Error::FlashMla(_))
    ));
}

struct DenseInputs {
    q: Tensor,
    k_cache: Tensor,
    seqlens_k: Tensor,
    block_table: Tensor,
}

/// A query whose elements tell their batch entry, position and head.
fn dense_inputs() -> Result<DenseInputs, Error> {
    let device = &Device::Cpu;
    let mut values = Vec::new();
    for b in 0..2 {
        for i in 0..2 {
            for h in 0..4 {
                values.extend(vec![(b * 64 + i * 16 + h) as f32; 576]);
            }
        }
    }
    let q = Tensor::from_vec(values, (2, 2, 4, 576), device)?.to_dtype(CandleDType::BF16)?;
    Ok(DenseInputs {
        q,
        k_cache: Tensor::zeros((3, 64, 2, 576), CandleDType::BF16, device)?,
        seqlens_k: Tensor::zeros((2,), CandleDType::I32, device)?,
        block_table: Tensor::zeros((2, 5), CandleDType::I32, device)?,
    })
}

impl DenseInputs {
    fn tensors(&self) -> DenseDecodeTensors<'_> {
        DenseDecodeTensors {
            q: &self.q,
            k_cache: &self.k_cache,
            seqlens_k: &self.seqlens_k,
        }
    }
}

fn dense_meta() -> DenseDecodePlanMeta {
    DenseDecodePlanMeta {
        num_sm_parts: 3,
        fixed_overhead_num_blocks: 5,
        block_size_n: 64,
        q_seq_per_hk: 4,
        scheduler_metadata_i32_len: 24,
        num_splits_len: 3,
        lse_accum_elem_count: 5 * 2 * 4,
        o_accum_elem_count: 5 * 2 * 4 * 512,
    }
}

#[test]
fn dense_plans_are_allocated_and_accepted() -> Result<(), Error> {
    let inputs = dense_inputs()?;
    let tensors = inputs.tensors();
    let dims = tensors.validate(None, 512)?;
    let plan = DenseDecodePlan::allocate(&inputs.q, dense_meta(), dims)?;
    assert_eq!(plan.scheduler_metadata.dims(), &[3, 8]);
    assert_eq!(plan.num_splits.dims(), &[3]);
    assert_eq!(plan.lse_accum.dims(), &[5, 2, 4]);
    assert_eq!(plan.o_accum.dims(), &[5, 2, 4, 512]);
    flashmla::candle_flashmla::dense_decode_plan::validate_plan_tensors(&inputs.q, dims, &plan)?;
    let sizes = dense_size_request(dims, 132, stream());
    assert!(sizes.seqlens_k.is_null() && sizes.tile_scheduler_metadata.is_null());
    sizes.validate().unwrap();
    let bases = DenseDecodePlanBases { seqlens_k: 1, scheduler_metadata: 2, num_splits: 3 };
    let fill = tensors.metadata_request(&plan, dims, bases, 132, stream())?;
    assert_eq!(
        (fill.seqlens_k.addr, fill.tile_scheduler_metadata.addr, fill.num_splits.addr),
        (1, 2, 3)
    );
    fill.validate().unwrap();
    let uneven = DenseDecodePlanMeta { num_sm_parts: 0, ..dense_meta() };
    assert_eq!(
        refused(DenseDecodePlan::allocate(&inputs.q, uneven, dims)),
        "invalid dense decode scheduler metadata shape"
    );
    let other = DenseDecodePlanMeta { q_seq_per_hk: 5, ..dense_meta() };
    assert_eq!(
        refused(DenseDecodePlan::allocate(&inputs.q, other, dims)),
        "dense decode plan q_seq_per_hk does not match tensor dimensions"
    );
    assert_eq!(
        refused(plan.confirm(other)),
        "dense decode metadata generation returned inconsistent plan"
    );
    let mut plan = DenseDecodePlan::allocate(&inputs.q, dense_meta(), dims)?;
    plan.lse_accum = plan.lse_accum.transpose(0, 1)?;
    assert_eq!(
        refused(flashmla::candle_flashmla::dense_decode_plan::validate_plan_tensors(
            &inputs.q, dims, &plan
        )),
        "lse_accum must be contiguous"
    );
    plan.lse_accum = Tensor::zeros((5, 4, 2), CandleDType::F32, &Device::Cpu)?;
    assert_eq!(
        refused(flashmla::candle_flashmla::dense_decode_plan::validate_plan_tensors(
            &inputs.q, dims, &plan
        )),
        "lse_accum shape does not match dense decode plan metadata"
    );
    Ok(())
}

fn check_packed_query(packed: &Tensor) -> Result<(), Error> {
    assert_eq!(packed.dims(), &[2, 4, 2, 576]);
    assert_eq!(packed.stride(), &[4 * 2 * 576, 2 * 576, 576, 1]);
    let values = packed.to_dtype(CandleDType::F32)?.flatten_all()?.to_vec1::<f32>()?;
    for b in 0..2 {
        for row in 0..4 {
            for k in 0..2 {
                let expected = (b * 64 + (row / 2) * 16 + (k * 2 + row % 2)) as f32;
                let start = ((b * 4 + row) * 2 + k) * 576;
                assert!(values[start..start + 576].iter().all(|v| *v == expected));
            }
        }
    }
    Ok(())
}

#[test]
fn dense_launches_pack_and_unpack_heads() -> Result<(), Error> {
    let inputs = dense_inputs()?;
    let tensors = inputs.tensors();
    let dims = tensors.validate(Some(&inputs.block_table), 512)?;
    let plan = DenseDecodePlan::allocate(&inputs.q, dense_meta(), dims)?;
    let launch = tensors.prepare(&inputs.block_table, &plan, 512)?.unwrap();
    assert_eq!(launch.dims(), dims);
    check_packed_query(launch.q_packed())?;
    assert_eq!(launch.out().dims(), &[2, 2, 4, 512]);
    assert_eq!(launch.lse().dims(), &[2, 2, 4]);
    let bases = DenseDecodeBases {
        q_packed: 1,
        k_cache: 2,
        seqlens_k: 3,
        block_table: 4,
        out: 5,
        lse: 6,
        lse_accum: 7,
        o_accum: 8,
        scheduler_metadata: 9,
        num_splits: 10,
    };
    let config = DenseDecodeConfig::default();
    let params =
        launch.params(&tensors, &inputs.block_table, &plan, config, bases, stream())?;
    assert_eq!(
        (params.strides.q_b, params.strides.q_row, params.strides.q_head),
        (4 * 2 * 576, 2 * 576, 576)
    );
    assert_eq!(
        (params.strides.k_block, params.strides.k_row, params.strides.k_head),
        (64 * 2 * 576, 2 * 576, 576)
    );
    assert_eq!(params.strides.block_table_b, 5);
    assert_eq!((params.q.addr, params.out.addr, params.num_splits.addr), (1, 5, 10));
    params.validate().unwrap();

    // Each packed row of each KV head tells where it comes from.
    let mut out_values = Vec::new();
    let mut lse_values = Vec::new();
    for b in 0..2 {
        for k in 0..2 {
            for row in 0..4 {
                out_values.extend(vec![(b * 64 + k * 16 + row) as f32; 512]);
                lse_values.push((b * 64 + k * 16 + row) as f32);
            }
        }
    }
    let out_values = Tensor::from_vec(out_values, (2, 2, 4, 512), &Device::Cpu)?;
    launch.out().slice_set(&out_values.to_dtype(CandleDType::BF16)?, 0, 0)?;
    let lse_values = Tensor::from_vec(lse_values, (2, 2, 4), &Device::Cpu)?;
    launch.lse().slice_set(&lse_values, 0, 0)?;
    let output = launch.finish()?;
    assert_eq!(output.out.dims(), &[2, 2, 4, 512]);
    assert_eq!(output.lse.dims(), &[2, 4, 2]);
    let out = output.out.to_dtype(CandleDType::F32)?.flatten_all()?.to_vec1::<f32>()?;
    let lse = output.lse.flatten_all()?.to_vec1::<f32>()?;
    for b in 0..2 {
        for i in 0..2 {
            for h in 0..4 {
                let expected = (b * 64 + (h / 2) * 16 + (i * 2 + h % 2)) as f32;
                let start = ((b * 2 + i) * 4 + h) * 512;
                assert!(out[start..start + 512].iter().all(|v| *v == expected));
                assert_eq!(lse[(b * 4 + h) * 2 + i], expected);
            }
        }
    }
    Ok(())
}

#[test]
fn dense_packing_copies_strided_queries() -> Result<(), Error> {
    let mut inputs = dense_inputs()?;
    let plan_dims = inputs.tensors().validate(None, 512)?;
    let plan = DenseDecodePlan::allocate(&inputs.q, dense_meta(), plan_dims)?;
    // The same query, laid out with the positions outermost.
    inputs.q = inputs.q.transpose(0, 1)?.contiguous()?.transpose(0, 1)?;
    assert!(!inputs.q.is_contiguous());
    let tensors = inputs.tensors();
    let launch = tensors.prepare(&inputs.block_table, &plan, 512)?.unwrap();
    check_packed_query(launch.q_packed())?;
    Ok(())
}

#[test]
fn one_dense_query_position_needs_no_copy() -> Result<(), Error> {
    let device = &Device::Cpu;
    let q = Tensor::zeros((1, 1, 1, 576), CandleDType::BF16, device)?;
    let k_cache = Tensor::zeros((1, 64, 1, 576), CandleDType::BF16, device)?;
    let seqlens_k = Tensor::zeros((1,), CandleDType::I32, device)?;
    let block_table = Tensor::zeros((1, 1), CandleDType::I32, device)?;
    let tensors = DenseDecodeTensors { q: &q, k_cache: &k_cache, seqlens_k: &seqlens_k };
    let dims = tensors.validate(Some(&block_table), 512)?;
    let meta = DenseDecodePlanMeta {
        num_sm_parts: 1,
        fixed_overhead_num_blocks: 5,
        block_size_n: 64,
        q_seq_per_hk: 1,
        scheduler_metadata_i32_len: 8,
        num_splits_len: 2,
        lse_accum_elem_count: 2,
        o_accum_elem_count: 2 * 512,
    };
    let plan = DenseDecodePlan::allocate(&q, meta, dims)?;
    let launch = tensors.prepare(&block_table, &plan, 512)?.unwrap();
    let value = Tensor::full(7f32, (1, 1, 1, 512), device)?.to_dtype(CandleDType::BF16)?;
    launch.out().slice_set(&value, 0, 0)?;
    launch.lse().slice_set(&Tensor::full(3f32, (1, 1, 1), device)?, 0, 0)?;
    let output = launch.finish()?;
    assert_eq!(output.out.dims4()?, (1, 1, 1, 512));
    assert_eq!(output.out.dtype(), CandleDType::BF16);
    assert_eq!(output.lse.dims3()?, (1, 1, 1));
    assert_eq!(output.lse.flatten_all()?.to_vec1::<f32>()?, vec![3.0]);
    let out = output.out.to_dtype(CandleDType::F32)?.flatten_all()?.to_vec1::<f32>()?;
    assert_eq!(out, vec![7.0; 512]);
    Ok(())
}
