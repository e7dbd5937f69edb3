//! Sparse decode plans: sizing, allocation and validation of their workspaces.

use crate::arch::Arch;
use crate::candle_flashmla::error::failure;
use crate::candle_flashmla::error::from_flashmla;
use crate::candle_flashmla::error::invalid_arg;
use crate::candle_flashmla::error::lifted;
use crate::candle_flashmla::error::refused;
use crate::candle_flashmla::error::Error;
use crate::candle_flashmla::error::ErrorModel;
use crate::candle_flashmla::layout::element_count;
use crate::candle_flashmla::layout::product_from;
use crate::candle_flashmla::sparse_decode::SparseDecodeTensors;
use crate::candle_flashmla::tensor::describe;
use crate::candle_flashmla::tensor::model_of;
use crate::candle_flashmla::tensor::optional_ptr_i32;
use crate::candle_flashmla::tensor::pointer_error;
use crate::candle_flashmla::tensor::pointer_to;
use crate::candle_flashmla::tensor::pointers_lie_at_the_first_element;
use crate::candle_flashmla::tensor::suitable_tensors;
use crate::candle_flashmla::tensor::tensor_ptr_i32;
use crate::candle_flashmla::tensor_api::dims_of;
use crate::candle_flashmla::tensor_api::dtype_of;
use crate::candle_flashmla::tensor_api::same_device_of;
use crate::candle_flashmla::tensor_api::start_offset_of;
use crate::candle_flashmla::tensor_api::strides_of;
use crate::candle_flashmla::tensor_api::tensor_strides;
use crate::candle_flashmla::tensor_api::DType;
use crate::candle_flashmla::workspace::dims2;
use crate::candle_flashmla::workspace::dims3;
use crate::candle_flashmla::workspace::dims4;
use crate::candle_flashmla::workspace::lemma_even_rows;
use crate::candle_flashmla::workspace::lemma_vector_count;
use crate::candle_flashmla::workspace::Workspaces;
use crate::candle_flashmla::workspace::WorkspaceDescs;
use crate::candle_flashmla::workspace::WorkspaceModel;
use crate::candle_flashmla::workspace::WorkspaceShapes;
use crate::error::first;
use crate::sparse_decode::SparseDecodeDims;
use crate::sparse_decode::SparseDecodePlanMeta;
use crate::sparse_decode::SparseDecodePlanParams;
use crate::sys::cudaStream_t;
use crate::sys::DevicePtr;
use crate::text::decimal;
use crate::text::labelled;
use crate::text::number;
use candle_core::Tensor;
use vstd::arithmetic::div_mod::lemma_fundamental_div_mod;
use vstd::prelude::*;
use vstd::string::StringExecFns;

verus! {

/// The number of bytes of which the pitch of an SM100 cache block is a multiple.
pub open spec fn block_pitch(dims: SparseDecodeDims) -> usize {
    if dims.d_qk == 576 {
        656
    } else {
        576
    }
}

/// Why the block stride of the cache `name` cannot be used on SM100, if it cannot.
pub open spec fn block_stride_error(dims: SparseDecodeDims, stride: usize, name: Seq<char>) -> Option<
    ErrorModel,
> {
    if stride % block_pitch(dims) == 0 {
        None
    } else {
        refused(
            "SM100 "@ + name + " block stride must be a multiple of "@ + decimal(
                block_pitch(dims) as nat,
            ) + ", got "@ + decimal(stride as nat) + "; pad each cache block as needed"@,
        )
    }
}

/// Why the block strides of the cache and of the optional extra cache cannot be used on `arch`, if
/// they cannot. Only SM100 restricts them.
pub open spec fn block_strides_error(
    dims: SparseDecodeDims,
    kv_block: usize,
    extra_kv_block: Option<usize>,
    arch: Arch,
) -> Option<ErrorModel> {
    match arch {
        Arch::Sm90a => None,
        Arch::Sm100f => first(
            block_stride_error(dims, kv_block, "kv_cache"@),
            match extra_kv_block {
                Some(stride) => block_stride_error(dims, stride, "extra_kv_cache"@),
                None => None,
            },
        ),
    }
}

/// On SM100 the cache blocks have to be whole multiples of the pitch: 656 bytes for 576-wide heads,
/// otherwise 576 bytes. SM90 takes any block stride.
pub proof fn sm100_blocks_are_pitched(
    dims: SparseDecodeDims,
    kv_block: usize,
    extra_kv_block: Option<usize>,
    arch: Arch,
)
    ensures
        block_strides_error(dims, kv_block, extra_kv_block, arch) is None <==> (arch == Arch::Sm100f
            ==> kv_block % block_pitch(dims) == 0 && (extra_kv_block matches Some(stride) ==> stride
            % block_pitch(dims) == 0)),
        arch == Arch::Sm90a ==> block_strides_error(dims, kv_block, extra_kv_block, arch) is None,
        arch == Arch::Sm100f && dims.d_qk == 576 ==> (block_strides_error(
            dims,
            kv_block,
            extra_kv_block,
            arch,
        ) is None <==> kv_block % 656 == 0 && (extra_kv_block matches Some(stride) ==> stride % 656
            == 0)),
        arch == Arch::Sm100f && dims.d_qk != 576 ==> (block_strides_error(
            dims,
            kv_block,
            extra_kv_block,
            arch,
        ) is None <==> kv_block % 576 == 0 && (extra_kv_block matches Some(stride) ==> stride % 576
            == 0)),
{
}

/// A refused block stride is that of the cache where its own is not a multiple of the pitch, and
/// otherwise that of the extra cache. The message names the cache, the pitch and the stride.
pub proof fn refused_block_strides_are_named(
    dims: SparseDecodeDims,
    kv_block: usize,
    extra_kv_block: Option<usize>,
)
    ensures
        ({
            let pitch: usize = if dims.d_qk == 576 {
                656
            } else {
                576
            };
            let error = block_strides_error(dims, kv_block, extra_kv_block, Arch::Sm100f);
            &&& kv_block % pitch != 0 ==> error == refused(
                "SM100 "@ + "kv_cache"@ + " block stride must be a multiple of "@ + decimal(
                    pitch as nat,
                ) + ", got "@ + decimal(kv_block as nat) + "; pad each cache block as needed"@,
            )
            &&& kv_block % pitch == 0 && extra_kv_block is Some && extra_kv_block->0 % pitch != 0
                ==> error == refused(
                "SM100 "@ + "extra_kv_cache"@ + " block stride must be a multiple of "@ + decimal(
                    pitch as nat,
                ) + ", got "@ + decimal(extra_kv_block->0 as nat)
                    + "; pad each cache block as needed"@,
            )
        }),
{
}

/// Checks the block stride of one cache for SM100.
fn ensure_block_stride(dims: SparseDecodeDims, stride: usize, name: &str) -> (r: Result<(), Error>)
    ensures
        failure(r) == block_stride_error(dims, stride, name@),
{
    let required: usize = if dims.d_qk == 576 {
        656
    } else {
        576
    };
    if stride % required != 0 {
        return invalid_arg(
            labelled("SM100 ", name).concat(" block stride must be a multiple of ").concat(
                number(required).as_str(),
            ).concat(", got ").concat(number(stride).as_str()).concat(
                "; pad each cache block as needed",
            ),
        );
    }
    Ok(())
}

/// Validates the block strides of the cache and of the optional extra cache for `arch`.
pub fn validate_block_strides(
    dims: SparseDecodeDims,
    kv_block: usize,
    extra_kv_block: Option<usize>,
    arch: Arch,
) -> (r: Result<(), Error>)
    ensures
        failure(r) == block_strides_error(dims, kv_block, extra_kv_block, arch),
{
    match arch {
        Arch::Sm90a => Ok(()),
        Arch::Sm100f => {
            ensure_block_stride(dims, kv_block, "kv_cache")?;
            match extra_kv_block {
                Some(stride) => ensure_block_stride(dims, stride, "extra_kv_cache"),
                None => Ok(()),
            }
        },
    }
}

/// The block stride of an optional cache.
pub open spec fn block_stride_of(cache: Option<&Tensor>) -> Option<usize> {
    match cache {
        Some(t) => Some(strides_of(*t)[0]),
        None => None,
    }
}

/// Whether an optional cache has axes.
pub open spec fn has_blocks(cache: Option<&Tensor>) -> bool {
    cache matches Some(t) ==> dims_of(*t).len() > 0
}

/// Validates the block strides of the caches for `arch`.
pub fn validate_kv_block_strides_for_arch(
    dims: SparseDecodeDims,
    kv_cache: &Tensor,
    extra_kv_cache: Option<&Tensor>,
    arch: Arch,
) -> (r: Result<(), Error>)
    requires
        arch == Arch::Sm100f ==> dims_of(*kv_cache).len() > 0,
        arch == Arch::Sm100f && strides_of(*kv_cache)[0] % block_pitch(dims) == 0 ==> has_blocks(
            extra_kv_cache,
        ),
    ensures
        failure(r) == block_strides_error(
            dims,
            strides_of(*kv_cache)[0],
            block_stride_of(extra_kv_cache),
            arch,
        ),
{
    if arch == Arch::Sm90a {
        return Ok(());
    }
    let kv_block: usize = tensor_strides(kv_cache)[0];
    validate_block_strides(dims, kv_block, None, arch)?;
    let extra_kv_block = match extra_kv_cache {
        Some(t) => Some(tensor_strides(t)[0]),
        None => None,
    };
    validate_block_strides(dims, kv_block, extra_kv_block, arch)
}

impl<'a> SparseDecodeTensors<'a> {
    /// The first constraint of sparse decode on `arch` that the tensors violate.
    pub open spec fn arch_error(self, d_v: usize, pad_heads: bool, arch: Arch) -> Option<
        ErrorModel,
    > {
        first(
            self.model().error(d_v, pad_heads, arch),
            block_strides_error(
                self.model().dims(d_v),
                strides_of(*self.kv_cache)[0],
                block_stride_of(self.extra_kv_cache),
                arch,
            ),
        )
    }

    /// Validates the tensors for `arch` and returns the dimensions of the launch, whose query heads
    /// are padded where that is asked for.
    pub fn validate_for_arch(&self, d_v: usize, pad_heads: bool, arch: Arch) -> (r: Result<
        SparseDecodeDims,
        Error,
    >)
        ensures
            failure(r) == self.arch_error(d_v, pad_heads, arch),
            r matches Ok(dims) ==> dims == self.model().padded_dims(d_v, pad_heads, arch),
    {
        let dims = self.validate(d_v, pad_heads, arch)?;
        assert(self.model().kv_cache.axes.len() == dims_of(*self.kv_cache).len());
        proof {
            if let Some(t) = self.extra_kv_cache {
                assert(model_of(*self.q, *t).axes.len() == dims_of(*t).len());
            }
        }
        validate_kv_block_strides_for_arch(dims, self.kv_cache, self.extra_kv_cache, arch)?;
        Ok(dims)
    }
}

/// The number of LSE accumulators of a split decode.
pub open spec fn lse_elements(meta: SparseDecodePlanMeta, dims: SparseDecodeDims) -> int {
    (dims.batch + meta.num_sm_parts) * dims.s_q * dims.h_q
}

/// Why the sizes of a split decode exceed the range of sizes, or differ from the plan, if they do.
pub open spec fn split_error(meta: SparseDecodePlanMeta, dims: SparseDecodeDims) -> Option<
    ErrorModel,
> {
    if (dims.batch + meta.num_sm_parts) * dims.s_q > usize::MAX || lse_elements(meta, dims)
        > usize::MAX {
        refused("sparse decode LSE workspace overflow"@)
    } else if lse_elements(meta, dims) * dims.d_v > usize::MAX {
        refused("sparse decode output workspace overflow"@)
    } else if meta.lse_accum_elem_count != lse_elements(meta, dims) || meta.o_accum_elem_count
        != lse_elements(meta, dims) * dims.d_v {
        refused("sparse decode accumulator sizing metadata is inconsistent"@)
    } else {
        None
    }
}

/// Why the accumulator sizes of the plan cannot be those of a decode of the given dimensions, if
/// they cannot.
pub open spec fn workspace_error(meta: SparseDecodePlanMeta, dims: SparseDecodeDims) -> Option<
    ErrorModel,
> {
    if meta.num_sm_parts == 1 {
        if meta.lse_accum_elem_count != 1 || meta.o_accum_elem_count != 1 {
            refused("no-split sparse decode plan must use scalar accumulators"@)
        } else {
            None
        }
    } else {
        first(lifted(meta.splits_error(dims)), split_error(meta, dims))
    }
}

/// The shape of the LSE accumulation workspace: scalar without splits, otherwise one row for each
/// split, query position and head.
pub open spec fn lse_accum_shape(meta: SparseDecodePlanMeta, dims: SparseDecodeDims) -> (
    usize,
    usize,
    usize,
) {
    if meta.num_sm_parts == 1 {
        (1, 1, 1)
    } else {
        ((dims.batch + meta.num_sm_parts) as usize, dims.s_q, dims.h_q)
    }
}

/// The shape of the output accumulation workspace: scalar without splits, otherwise one value
/// vector for each split, query position and head.
pub open spec fn o_accum_shape(meta: SparseDecodePlanMeta, dims: SparseDecodeDims) -> (
    usize,
    usize,
    usize,
    usize,
) {
    if meta.num_sm_parts == 1 {
        (1, 1, 1, 1)
    } else {
        ((dims.batch + meta.num_sm_parts) as usize, dims.s_q, dims.h_q, dims.d_v)
    }
}

/// The shapes of the accumulation workspaces of a plan.
pub fn decode_workspace_shapes(meta: SparseDecodePlanMeta, dims: SparseDecodeDims) -> (r: Result<
    ((usize, usize, usize), (usize, usize, usize, usize)),
    Error,
>)
    ensures
        failure(r) == workspace_error(meta, dims),
        r matches Ok(shapes) ==> shapes == (
            lse_accum_shape(meta, dims),
            o_accum_shape(meta, dims),
        ),
{
    if meta.num_sm_parts == 1 {
        if meta.lse_accum_elem_count != 1 || meta.o_accum_elem_count != 1 {
            return invalid_arg(
                String::from_str("no-split sparse decode plan must use scalar accumulators"),
            );
        }
        return Ok(((1, 1, 1), (1, 1, 1, 1)));
    }
    let total_num_splits: usize = from_flashmla(meta.total_num_splits(dims))?;
    let lse_elems: usize = match total_num_splits.checked_mul(dims.s_q) {
        Some(rows) => match rows.checked_mul(dims.h_q) {
            Some(elems) => elems,
            None => return invalid_arg(String::from_str("sparse decode LSE workspace overflow")),
        },
        None => return invalid_arg(String::from_str("sparse decode LSE workspace overflow")),
    };
    let o_elems: usize = match lse_elems.checked_mul(dims.d_v) {
        Some(elems) => elems,
        None => return invalid_arg(String::from_str("sparse decode output workspace overflow")),
    };
    if meta.lse_accum_elem_count != lse_elems || meta.o_accum_elem_count != o_elems {
        return invalid_arg(
            String::from_str("sparse decode accumulator sizing metadata is inconsistent"),
        );
    }
    Ok(
        (
            (total_num_splits, dims.s_q, dims.h_q),
            (total_num_splits, dims.s_q, dims.h_q, dims.d_v),
        ),
    )
}

/// The accumulation workspaces have exactly the element counts that the plan asks for.
pub proof fn workspaces_have_the_planned_sizes(meta: SparseDecodePlanMeta, dims: SparseDecodeDims)
    requires
        workspace_error(meta, dims) is None,
    ensures
        element_count(dims3(lse_accum_shape(meta, dims))) == meta.lse_accum_elem_count,
        element_count(dims4(o_accum_shape(meta, dims))) == meta.o_accum_elem_count,
{
    reveal_with_fuel(product_from, 5);
    let (a, b, c, d) = o_accum_shape(meta, dims);
    assert(a as nat * (b as nat * (c as nat * 1)) == a * b * c) by (nonlinear_arith);
    assert(a as nat * (b as nat * (c as nat * (d as nat * 1))) == a * b * c * d)
        by (nonlinear_arith);
}

/// The first reason why a plan of the given metadata cannot be made: it differs from the expected
/// sizing, its scheduler metadata does not split evenly, or its accumulator sizes are wrong.
pub open spec fn meta_error(
    meta: SparseDecodePlanMeta,
    expected: SparseDecodePlanMeta,
    dims: SparseDecodeDims,
) -> Option<ErrorModel> {
    if meta != expected {
        refused("sparse decode FFI planning disagrees with architecture-specific workspace sizing"@)
    } else if meta.num_sm_parts == 0 || meta.scheduler_metadata_i32_len % meta.num_sm_parts != 0 {
        refused("invalid sparse decode scheduler metadata shape"@)
    } else {
        workspace_error(meta, dims)
    }
}

/// The shapes of all workspaces of a plan.
pub open spec fn plan_shapes(meta: SparseDecodePlanMeta, dims: SparseDecodeDims) -> WorkspaceShapes {
    WorkspaceShapes {
        scheduler_metadata: (
            meta.num_sm_parts,
            meta.scheduler_metadata_i32_len / meta.num_sm_parts,
        ),
        num_splits: meta.num_splits_len,
        lse_accum: lse_accum_shape(meta, dims),
        o_accum: o_accum_shape(meta, dims),
    }
}

/// Checks the metadata that planning returned against the sizing expected for the architecture,
/// and computes the shapes of the workspaces.
pub fn check_plan_meta(
    meta: SparseDecodePlanMeta,
    expected: SparseDecodePlanMeta,
    dims: SparseDecodeDims,
) -> (r: Result<WorkspaceShapes, Error>)
    ensures
        failure(r) == meta_error(meta, expected, dims),
        r matches Ok(shapes) ==> shapes == plan_shapes(meta, dims),
{
    if meta != expected {
        return invalid_arg(
            String::from_str(
                "sparse decode FFI planning disagrees with architecture-specific workspace sizing",
            ),
        );
    }
    if meta.num_sm_parts == 0 || meta.scheduler_metadata_i32_len % meta.num_sm_parts != 0 {
        return invalid_arg(String::from_str("invalid sparse decode scheduler metadata shape"));
    }
    let (lse_accum, o_accum) = decode_workspace_shapes(meta, dims)?;
    Ok(
        WorkspaceShapes {
            scheduler_metadata: (
                meta.num_sm_parts,
                meta.scheduler_metadata_i32_len / meta.num_sm_parts,
            ),
            num_splits: meta.num_splits_len,
            lse_accum,
            o_accum,
        },
    )
}

/// The workspaces of a plan have exactly the element counts that its metadata asks for.
pub proof fn plans_have_the_planned_sizes(meta: SparseDecodePlanMeta, dims: SparseDecodeDims)
    requires
        meta_error(meta, meta, dims) is None,
    ensures
        ({
            let shapes = plan_shapes(meta, dims);
            &&& element_count(dims2(shapes.scheduler_metadata)) == meta.scheduler_metadata_i32_len
            &&& element_count(seq![shapes.num_splits]) == meta.num_splits_len
            &&& element_count(dims3(shapes.lse_accum)) == meta.lse_accum_elem_count
            &&& element_count(dims4(shapes.o_accum)) == meta.o_accum_elem_count
        }),
{
    workspaces_have_the_planned_sizes(meta, dims);
    lemma_even_rows(meta.scheduler_metadata_i32_len, meta.num_sm_parts);
    lemma_vector_count(meta.num_splits_len);
}

/// Metadata that a plan can be made of: the sizing expected for the architecture, at least one
/// partition, scheduler metadata that splits evenly among the partitions, and accumulator counts of
/// one without splits, and otherwise of one value and one value vector for each split, query
/// position and head, in counts that fit.
pub proof fn accepted_metadata(
    meta: SparseDecodePlanMeta,
    expected: SparseDecodePlanMeta,
    dims: SparseDecodeDims,
)
    ensures
        meta_error(meta, expected, dims) is None <==> {
            let splits = dims.batch + meta.num_sm_parts;
            &&& meta == expected
            &&& meta.num_sm_parts >= 1 && meta.scheduler_metadata_i32_len % meta.num_sm_parts == 0
            &&& meta.num_sm_parts == 1 ==> meta.lse_accum_elem_count == 1 && meta.o_accum_elem_count
                == 1
            &&& meta.num_sm_parts > 1 ==> {
                &&& splits <= usize::MAX && splits * dims.s_q <= usize::MAX
                &&& meta.lse_accum_elem_count == splits * dims.s_q * dims.h_q
                &&& meta.o_accum_elem_count == splits * dims.s_q * dims.h_q * dims.d_v
            }
        },
{
}

/// The accumulation workspaces of a plan without splits are scalars. Those of a plan with splits
/// hold one log-sum-exp value for each split, query position and head, and one value vector for each
/// of them. The scheduler metadata has one row for each partition.
pub proof fn workspaces_have_the_sizes_of_the_call(
    meta: SparseDecodePlanMeta,
    dims: SparseDecodeDims,
)
    requires
        meta_error(meta, meta, dims) is None,
    ensures
        ({
            let shapes = plan_shapes(meta, dims);
            let splits = dims.batch + meta.num_sm_parts;
            &&& meta.num_sm_parts == 1 ==> element_count(dims3(shapes.lse_accum)) == 1
                && element_count(dims4(shapes.o_accum)) == 1
            &&& meta.num_sm_parts > 1 ==> {
                &&& element_count(dims3(shapes.lse_accum)) == splits * dims.s_q * dims.h_q
                &&& element_count(dims4(shapes.o_accum)) == splits * dims.s_q * dims.h_q * dims.d_v
                &&& shapes.lse_accum.0 == splits && shapes.o_accum.0 == splits
                &&& shapes.lse_accum.1 == dims.s_q && shapes.o_accum.1 == dims.s_q
                &&& shapes.lse_accum.2 == dims.h_q && shapes.o_accum.2 == dims.h_q
                &&& shapes.o_accum.3 == dims.d_v
            }
            &&& shapes.scheduler_metadata.0 == meta.num_sm_parts
            &&& shapes.scheduler_metadata.0 * shapes.scheduler_metadata.1
                == meta.scheduler_metadata_i32_len
            &&& shapes.num_splits == meta.num_splits_len
        }),
{
    plans_have_the_planned_sizes(meta, dims);
    accepted_metadata(meta, meta, dims);
    lemma_fundamental_div_mod(meta.scheduler_metadata_i32_len as int, meta.num_sm_parts as int);
}

/// Caller-owned sparse decode scheduler and split-KV workspaces.
#[derive(Debug)]
pub struct SparseDecodePlan {
    /// I32 scheduler metadata shaped `[num_sm_parts, metadata_i32_per_part]`.
    pub scheduler_metadata: Tensor,
    /// I32 split offsets shaped `[meta.num_splits_len]`. FlashMLA asks for `batch + 1` of them.
    pub num_splits: Tensor,
    /// F32 split-KV LSE accumulation workspace.
    pub lse_accum: Tensor,
    /// F32 split-KV output accumulation workspace.
    pub o_accum: Tensor,
    /// Workspace sizing metadata returned by FlashMLA planning.
    pub meta: SparseDecodePlanMeta,
}

/// The first workspace whose rank, device, element type or layout is not that of its role.
pub open spec fn plan_layout_error(w: WorkspaceModel) -> Option<ErrorModel> {
    first(w.kinds_error(),
    first(w.scheduler_metadata.last_dim_error("scheduler_metadata"@),
    first(w.num_splits.last_dim_error("num_splits"@),
    first(w.lse_accum.last_dim_error("lse_accum"@),
        w.o_accum.last_dim_error("o_accum"@)))))
}

/// The first reason why the workspaces `w` are not those of a plan of the given metadata for a
/// decode of the given dimensions.
pub open spec fn plan_error(
    w: WorkspaceModel,
    meta: SparseDecodePlanMeta,
    dims: SparseDecodeDims,
) -> Option<ErrorModel> {
    first(plan_layout_error(w),
    first(w.scheduler_error(meta.num_sm_parts, meta.scheduler_metadata_i32_len),
    first(w.splits_error(meta.num_splits_len),
    first(workspace_error(meta, dims),
        if !w.lse_accum_is(lse_accum_shape(meta, dims)) {
            refused("lse_accum shape does not match sparse decode plan metadata"@)
        } else if !w.o_accum_is(o_accum_shape(meta, dims)) {
            refused("o_accum shape does not match sparse decode plan metadata"@)
        } else {
            None
        }))))
}

/// Whether the workspaces `w` are those of a plan of the given metadata for a decode of the given
/// dimensions.
pub open spec fn plan_accepted(
    w: WorkspaceModel,
    meta: SparseDecodePlanMeta,
    dims: SparseDecodeDims,
) -> bool {
    &&& w.kinds_suit()
    &&& w.scheduler_metadata.last_dim_contiguous()
    &&& w.num_splits.last_dim_contiguous()
    &&& w.lse_accum.last_dim_contiguous()
    &&& w.o_accum.last_dim_contiguous()
    &&& w.scheduler_metadata.size(0) == meta.num_sm_parts
    &&& w.scheduler_metadata.size(1) == meta.scheduler_metadata_i32_len / meta.num_sm_parts
    &&& w.num_splits.size(0) == meta.num_splits_len
    &&& workspace_error(meta, dims) is None
    &&& w.lse_accum_is(lse_accum_shape(meta, dims))
    &&& w.o_accum_is(o_accum_shape(meta, dims))
}

/// Validates the rank, device, element type and layout of the workspaces of a plan.
pub fn validate_plan_layout(descs: &WorkspaceDescs) -> (r: Result<(), Error>)
    ensures
        failure(r) == plan_layout_error(descs@),
{
    descs.ensure_kinds()?;
    descs.scheduler_metadata.ensure_last_dim_contiguous("scheduler_metadata")?;
    descs.num_splits.ensure_last_dim_contiguous("num_splits")?;
    descs.lse_accum.ensure_last_dim_contiguous("lse_accum")?;
    descs.o_accum.ensure_last_dim_contiguous("o_accum")?;
    Ok(())
}

/// Validates the workspaces of a plan for a decode of the given dimensions.
pub fn validate_plan(descs: &WorkspaceDescs, meta: SparseDecodePlanMeta, dims: SparseDecodeDims)
    -> (r: Result<(), Error>)
    requires
        plan_layout_error(descs@) is None ==> meta.num_sm_parts > 0,
    ensures
        failure(r) == plan_error(descs@, meta, dims),
        r is Ok <==> plan_accepted(descs@, meta, dims),
{
    validate_plan_layout(descs)?;
    descs.ensure_scheduler(meta.num_sm_parts, meta.scheduler_metadata_i32_len)?;
    descs.ensure_splits(meta.num_splits_len)?;
    let (lse_accum, o_accum) = decode_workspace_shapes(meta, dims)?;
    if !descs.has_lse_accum(lse_accum) {
        return invalid_arg(
            String::from_str("lse_accum shape does not match sparse decode plan metadata"),
        );
    }
    if !descs.has_o_accum(o_accum) {
        return invalid_arg(
            String::from_str("o_accum shape does not match sparse decode plan metadata"),
        );
    }
    Ok(())
}

/// New workspaces of a plan's shapes are accepted as its workspaces.
pub proof fn new_workspaces_are_accepted(
    q: Tensor,
    w: Workspaces,
    meta: SparseDecodePlanMeta,
    dims: SparseDecodeDims,
)
    requires
        meta_error(meta, meta, dims) is None,
        w.made_for(q, plan_shapes(meta, dims)),
    ensures
        plan_accepted(w.model(q), meta, dims),
{
    let m = w.model(q);
    assert(m.lse_accum.dims() == dims3(lse_accum_shape(meta, dims)));
    assert(m.o_accum.dims() == dims4(o_accum_shape(meta, dims)));
}

/// Why a plan is not confirmed by the metadata that the metadata generation returned, if it is not.
pub open spec fn confirmation_error(meta: SparseDecodePlanMeta, generated: SparseDecodePlanMeta) -> Option<
    ErrorModel,
> {
    if generated == meta {
        None
    } else {
        refused("sparse decode metadata generation returned inconsistent plan metadata"@)
    }
}

/// A plan is confirmed if and only if the generation returned every number of its metadata again.
pub proof fn confirmed_plans_are_unchanged(meta: SparseDecodePlanMeta, generated: SparseDecodePlanMeta)
    ensures
        confirmation_error(meta, generated) is None <==> {
            &&& generated.num_sm_parts == meta.num_sm_parts
            &&& generated.fixed_overhead_num_blocks == meta.fixed_overhead_num_blocks
            &&& generated.block_size_topk == meta.block_size_topk
            &&& generated.scheduler_metadata_i32_len == meta.scheduler_metadata_i32_len
            &&& generated.num_splits_len == meta.num_splits_len
            &&& generated.lse_accum_elem_count == meta.lse_accum_elem_count
            &&& generated.o_accum_elem_count == meta.o_accum_elem_count
        },
        generated != meta ==> confirmation_error(meta, generated) == Some(
            ErrorModel::Tensor("sparse decode metadata generation returned inconsistent plan metadata"@),
        ),
{
}

impl SparseDecodePlan {
    /// What validation reads of the plan's workspaces, next to the query tensor `q`.
    pub open spec fn model(self, q: Tensor) -> WorkspaceModel {
        self.workspaces().model(q)
    }

    /// The plan's workspaces without its metadata.
    pub open spec fn workspaces(self) -> Workspaces {
        Workspaces {
            scheduler_metadata: self.scheduler_metadata,
            num_splits: self.num_splits,
            lse_accum: self.lse_accum,
            o_accum: self.o_accum,
        }
    }

    /// Checks the metadata that planning returned and allocates the workspaces of the plan on the
    /// device of `q`.
    ///
    /// Whether the device has the memory is for Candle to say: for metadata in order only its own
    /// error can come back.
    pub fn allocate(
        q: &Tensor,
        meta: SparseDecodePlanMeta,
        expected: SparseDecodePlanMeta,
        dims: SparseDecodeDims,
    ) -> (r: Result<SparseDecodePlan, Error>)
        requires
            meta_error(meta, expected, dims) is None ==> plan_shapes(meta, dims).fit(),
        ensures
            meta_error(meta, expected, dims) is Some ==> failure(r) == meta_error(
                meta,
                expected,
                dims,
            ),
            meta_error(meta, expected, dims) is None ==> match r {
                Ok(plan) => {
                    &&& plan.meta == meta
                    &&& plan.workspaces().made_for(*q, plan_shapes(meta, dims))
                    &&& plan_accepted(plan.model(*q), meta, dims)
                },
                Err(e) => e is Candle,
            },
    {
        let shapes = check_plan_meta(meta, expected, dims)?;
        let w = Workspaces::allocate(q, shapes)?;
        let plan = SparseDecodePlan {
            scheduler_metadata: w.scheduler_metadata,
            num_splits: w.num_splits,
            lse_accum: w.lse_accum,
            o_accum: w.o_accum,
            meta,
        };
        proof {
            new_workspaces_are_accepted(*q, plan.workspaces(), meta, dims);
        }
        Ok(plan)
    }

    /// Reads from the workspaces what validation needs, next to the query tensor `q`.
    pub fn describe(&self, q: &Tensor) -> (descs: WorkspaceDescs)
        ensures
            descs@ == self.model(*q),
    {
        WorkspaceDescs {
            scheduler_metadata: describe(q, &self.scheduler_metadata),
            num_splits: describe(q, &self.num_splits),
            lse_accum: describe(q, &self.lse_accum),
            o_accum: describe(q, &self.o_accum),
        }
    }

    /// Confirms the plan against the metadata that the metadata generation returned.
    pub fn confirm(self, generated: SparseDecodePlanMeta) -> (r: Result<SparseDecodePlan, Error>)
        ensures
            failure(r) == confirmation_error(self.meta, generated),
            r matches Ok(plan) ==> plan == self,
    {
        if generated != self.meta {
            return invalid_arg(
                String::from_str(
                    "sparse decode metadata generation returned inconsistent plan metadata",
                ),
            );
        }
        Ok(self)
    }
}

/// Validates the workspaces of a plan for a decode of the given dimensions.
pub fn validate_plan_tensors(q: &Tensor, dims: SparseDecodeDims, plan: &SparseDecodePlan) -> (r:
    Result<(), Error>)
    requires
        plan_layout_error(plan.model(*q)) is None ==> plan.meta.num_sm_parts > 0,
    ensures
        failure(r) == plan_error(plan.model(*q), plan.meta, dims),
        r is Ok <==> plan_accepted(plan.model(*q), plan.meta, dims),
{
    validate_plan(&plan.describe(q), plan.meta, dims)
}

/// Addresses of the storages of the tensors that planning reads and writes. The address of an
/// absent tensor is not read.
#[derive(Debug, Copy, Clone, PartialEq, Eq)]
pub struct SparseDecodePlanBases {
    /// Storage of the optional top-k lengths.
    pub topk_length: u64,
    /// Storage of the optional extra top-k lengths.
    pub extra_topk_length: u64,
    /// Storage of the scheduler metadata.
    pub scheduler_metadata: u64,
    /// Storage of the split offsets.
    pub num_splits: u64,
}

impl<'a> SparseDecodeTensors<'a> {
    /// Why the top-k lengths cannot be passed to planning, if they cannot.
    pub open spec fn lengths_error(self, bases: SparseDecodePlanBases) -> Option<ErrorModel> {
        first(
            pointer_error(self.topk_length, bases.topk_length, 4, "topk_length"@),
            pointer_error(
                self.extra_topk_length,
                bases.extra_topk_length,
                4,
                "extra_topk_length"@,
            ),
        )
    }

    /// What a planning call that only computes sizes is given.
    pub open spec fn size_params(
        self,
        dims: SparseDecodeDims,
        bases: SparseDecodePlanBases,
        num_sm: usize,
        stream: cudaStream_t,
    ) -> SparseDecodePlanParams {
        SparseDecodePlanParams {
            dims,
            topk_length: pointer_to(self.topk_length, bases.topk_length, 4),
            extra_topk_length: pointer_to(self.extra_topk_length, bases.extra_topk_length, 4),
            tile_scheduler_metadata: DevicePtr { addr: 0 },
            num_splits: DevicePtr { addr: 0 },
            num_sm,
            stream,
        }
    }

    /// The first tensor of a planning call that has no device address.
    pub open spec fn metadata_error(
        self,
        plan: SparseDecodePlan,
        bases: SparseDecodePlanBases,
    ) -> Option<ErrorModel> {
        first(
            self.lengths_error(bases),
            first(
                pointer_error(
                    Some(&plan.scheduler_metadata),
                    bases.scheduler_metadata,
                    4,
                    "scheduler_metadata"@,
                ),
                pointer_error(Some(&plan.num_splits), bases.num_splits, 4, "num_splits"@),
            ),
        )
    }

    /// What a planning call that fills the metadata buffers of `plan` is given.
    pub open spec fn metadata_params(
        self,
        plan: SparseDecodePlan,
        dims: SparseDecodeDims,
        bases: SparseDecodePlanBases,
        num_sm: usize,
        stream: cudaStream_t,
    ) -> SparseDecodePlanParams {
        SparseDecodePlanParams {
            dims,
            topk_length: pointer_to(self.topk_length, bases.topk_length, 4),
            extra_topk_length: pointer_to(self.extra_topk_length, bases.extra_topk_length, 4),
            tile_scheduler_metadata: pointer_to(
                Some(&plan.scheduler_metadata),
                bases.scheduler_metadata,
                4,
            ),
            num_splits: pointer_to(Some(&plan.num_splits), bases.num_splits, 4),
            num_sm,
            stream,
        }
    }

    /// The parameters of a planning call that only computes sizes: no metadata buffer is given.
    pub fn size_request(
        &self,
        dims: SparseDecodeDims,
        bases: SparseDecodePlanBases,
        num_sm: usize,
        stream: cudaStream_t,
    ) -> (r: Result<SparseDecodePlanParams, Error>)
        ensures
            failure(r) == self.lengths_error(bases),
            r matches Ok(params) ==> params == self.size_params(dims, bases, num_sm, stream),
    {
        Ok(
            SparseDecodePlanParams {
                dims,
                topk_length: optional_ptr_i32(self.topk_length, bases.topk_length, "topk_length")?,
                extra_topk_length: optional_ptr_i32(
                    self.extra_topk_length,
                    bases.extra_topk_length,
                    "extra_topk_length",
                )?,
                tile_scheduler_metadata: DevicePtr::null(),
                num_splits: DevicePtr::null(),
                num_sm,
                stream,
            },
        )
    }

    /// The parameters of a planning call that fills the metadata buffers of `plan`.
    pub fn metadata_request(
        &self,
        plan: &SparseDecodePlan,
        dims: SparseDecodeDims,
        bases: SparseDecodePlanBases,
        num_sm: usize,
        stream: cudaStream_t,
    ) -> (r: Result<SparseDecodePlanParams, Error>)
        ensures
            failure(r) == self.metadata_error(*plan, bases),
            r matches Ok(params) ==> params == self.metadata_params(
                *plan,
                dims,
                bases,
                num_sm,
                stream,
            ),
    {
        Ok(
            SparseDecodePlanParams {
                dims,
                topk_length: optional_ptr_i32(self.topk_length, bases.topk_length, "topk_length")?,
                extra_topk_length: optional_ptr_i32(
                    self.extra_topk_length,
                    bases.extra_topk_length,
                    "extra_topk_length",
                )?,
                tile_scheduler_metadata: tensor_ptr_i32(
                    &plan.scheduler_metadata,
                    bases.scheduler_metadata,
                    "scheduler_metadata",
                )?,
                num_splits: tensor_ptr_i32(&plan.num_splits, bases.num_splits, "num_splits")?,
                num_sm,
                stream,
            },
        )
    }
}

/// The plans that can be launched with: workspaces next to the query with last axes of unit steps,
/// of the element types and sizes of their roles, for metadata whose accumulator counts are those of
/// the call.
pub proof fn accepted_workspaces(q: Tensor, plan: SparseDecodePlan, dims: SparseDecodeDims)
    requires
        plan.meta.num_sm_parts > 0,
    ensures
        plan_error(plan.model(q), plan.meta, dims) is None <==> {
            let meta = plan.meta;
            let splits = dims.batch + meta.num_sm_parts;
            &&& dims_of(plan.scheduler_metadata) == seq![
                meta.num_sm_parts,
                meta.scheduler_metadata_i32_len / meta.num_sm_parts,
            ]
            &&& dims_of(plan.num_splits) == seq![meta.num_splits_len]
            &&& meta.num_sm_parts == 1 ==> {
                &&& meta.lse_accum_elem_count == 1 && meta.o_accum_elem_count == 1
                &&& dims_of(plan.lse_accum) == seq![1usize, 1, 1]
                &&& dims_of(plan.o_accum) == seq![1usize, 1, 1, 1]
            }
            &&& meta.num_sm_parts > 1 ==> {
                &&& splits <= usize::MAX && splits * dims.s_q <= usize::MAX
                &&& meta.lse_accum_elem_count == splits * dims.s_q * dims.h_q
                &&& meta.o_accum_elem_count == splits * dims.s_q * dims.h_q * dims.d_v
                &&& dims_of(plan.lse_accum) == seq![splits as usize, dims.s_q, dims.h_q]
                &&& dims_of(plan.o_accum) == seq![splits as usize, dims.s_q, dims.h_q, dims.d_v]
            }
            &&& dtype_of(plan.scheduler_metadata) == DType::I32 && dtype_of(plan.num_splits)
                == DType::I32
            &&& dtype_of(plan.lse_accum) == DType::F32 && dtype_of(plan.o_accum) == DType::F32
            &&& same_device_of(q, plan.scheduler_metadata) && same_device_of(q, plan.num_splits)
            &&& same_device_of(q, plan.lse_accum) && same_device_of(q, plan.o_accum)
            &&& strides_of(plan.scheduler_metadata)[1] == 1 && strides_of(plan.num_splits)[0] == 1
            &&& strides_of(plan.lse_accum)[2] == 1 && strides_of(plan.o_accum)[3] == 1
        },
        plan_accepted(plan.model(q), plan.meta, dims) <==> plan_error(
            plan.model(q),
            plan.meta,
            dims,
        ) is None,
{
    let w = plan.model(q);
    let meta = plan.meta;
    accepted_metadata(meta, meta, dims);
    suitable_tensors(q, plan.scheduler_metadata, 2, DType::I32);
    suitable_tensors(q, plan.num_splits, 1, DType::I32);
    suitable_tensors(q, plan.lse_accum, 3, DType::F32);
    suitable_tensors(q, plan.o_accum, 4, DType::F32);
    let scheduler = dims_of(plan.scheduler_metadata);
    if scheduler.len() == 2 && scheduler[0] == meta.num_sm_parts && scheduler[1]
        == meta.scheduler_metadata_i32_len / meta.num_sm_parts {
        assert(scheduler == seq![
            meta.num_sm_parts,
            meta.scheduler_metadata_i32_len / meta.num_sm_parts,
        ]);
    }
    if dims_of(plan.num_splits).len() == 1 && dims_of(plan.num_splits)[0] == meta.num_splits_len {
        assert(dims_of(plan.num_splits) == seq![meta.num_splits_len]);
    }
    assert(w.lse_accum.dims() == dims_of(plan.lse_accum));
    assert(w.o_accum.dims() == dims_of(plan.o_accum));
}

/// A planning call that only computes sizes has no metadata buffers; one that fills those of a plan
/// has their addresses. Both have the addresses of the lengths that are given, and the dimensions,
/// the multiprocessors and the stream of the caller.
pub proof fn requests_point_at_the_tensors(
    tensors: SparseDecodeTensors,
    plan: SparseDecodePlan,
    dims: SparseDecodeDims,
    bases: SparseDecodePlanBases,
    num_sm: usize,
    stream: cudaStream_t,
)
    requires
        tensors.lengths_error(bases) is None,
    ensures
        ({
            let p = tensors.size_params(dims, bases, num_sm, stream);
            &&& p.tile_scheduler_metadata.addr == 0 && p.num_splits.addr == 0
            &&& p.topk_length.addr == (match tensors.topk_length {
                Some(t) => bases.topk_length + start_offset_of(*t) * 4,
                None => 0,
            })
            &&& p.extra_topk_length.addr == (match tensors.extra_topk_length {
                Some(t) => bases.extra_topk_length + start_offset_of(*t) * 4,
                None => 0,
            })
            &&& p.dims == dims && p.num_sm == num_sm && p.stream == stream
        }),
        tensors.metadata_error(plan, bases) is None ==> {
            let p = tensors.metadata_params(plan, dims, bases, num_sm, stream);
            &&& p.tile_scheduler_metadata.addr == bases.scheduler_metadata + start_offset_of(
                plan.scheduler_metadata,
            ) * 4
            &&& p.num_splits.addr == bases.num_splits + start_offset_of(plan.num_splits) * 4
            &&& p.topk_length.addr == (match tensors.topk_length {
                Some(t) => bases.topk_length + start_offset_of(*t) * 4,
                None => 0,
            })
            &&& p.extra_topk_length.addr == (match tensors.extra_topk_length {
                Some(t) => bases.extra_topk_length + start_offset_of(*t) * 4,
                None => 0,
            })
            &&& p.dims == dims && p.num_sm == num_sm && p.stream == stream
        },
{
    if let Some(t) = tensors.topk_length {
        pointers_lie_at_the_first_element(*t, bases.topk_length, 4, "topk_length"@);
    }
    if let Some(t) = tensors.extra_topk_length {
        pointers_lie_at_the_first_element(*t, bases.extra_topk_length, 4, "extra_topk_length"@);
    }
    pointers_lie_at_the_first_element(
        plan.scheduler_metadata,
        bases.scheduler_metadata,
        4,
        "scheduler_metadata"@,
    );
    pointers_lie_at_the_first_element(plan.num_splits, bases.num_splits, 4, "num_splits"@);
}

/// Tensors are accepted on an architecture if and only if they are accepted as such and the block
/// strides of their caches are those that the architecture takes.
pub proof fn accepted_on_the_architecture(
    tensors: SparseDecodeTensors,
    d_v: usize,
    pad_heads: bool,
    arch: Arch,
)
    ensures
        tensors.arch_error(d_v, pad_heads, arch) is None <==> {
            let pitch: int = if dims_of(*tensors.q)[3] == 576 {
                656
            } else {
                576
            };
            &&& tensors.model().error(d_v, pad_heads, arch) is None
            &&& arch == Arch::Sm100f ==> strides_of(*tensors.kv_cache)[0] as int % pitch == 0
            &&& arch == Arch::Sm100f && tensors.extra_kv_cache is Some ==> strides_of(
                *tensors.extra_kv_cache->0,
            )[0] as int % pitch == 0
        },
        tensors.model().error(d_v, pad_heads, arch) is Some ==> tensors.arch_error(
            d_v,
            pad_heads,
            arch,
        ) == tensors.model().error(d_v, pad_heads, arch),
{
    if tensors.model().error(d_v, pad_heads, arch) is None {
        assert(model_of(*tensors.q, *tensors.q).axes.len() == dims_of(*tensors.q).len());
        assert(model_of(*tensors.q, *tensors.q).axes[3].size == dims_of(*tensors.q)[3]);
    }
}

} // verus!
