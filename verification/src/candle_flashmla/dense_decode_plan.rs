//! Dense decode plans: sizing, allocation and validation of their workspaces.

use crate::candle_flashmla::dense_decode::DenseDecodeTensors;
use crate::candle_flashmla::error::failure;
use crate::candle_flashmla::error::from_flashmla;
use crate::candle_flashmla::error::invalid_arg;
use crate::candle_flashmla::error::lifted;
use crate::candle_flashmla::error::refused;
use crate::candle_flashmla::error::Error;
use crate::candle_flashmla::error::ErrorModel;
use crate::candle_flashmla::layout::element_count;
use crate::candle_flashmla::layout::is_contiguous;
use crate::candle_flashmla::layout::product_from;
use crate::candle_flashmla::tensor::describe;
use crate::candle_flashmla::tensor::descriptions_have_the_layout;
use crate::candle_flashmla::tensor::pointer_error;
use crate::candle_flashmla::tensor::pointer_to;
use crate::candle_flashmla::tensor::pointers_lie_at_the_first_element;
use crate::candle_flashmla::tensor::tensor_ptr_i32;
use crate::candle_flashmla::tensor_api::dims_of;
use crate::candle_flashmla::tensor_api::dtype_of;
use crate::candle_flashmla::tensor_api::same_device_of;
use crate::candle_flashmla::tensor_api::start_offset_of;
use crate::candle_flashmla::tensor_api::strides_of;
use crate::candle_flashmla::tensor_api::DType;
use crate::candle_flashmla::workspace::dims2;
use crate::candle_flashmla::workspace::dims3;
use crate::candle_flashmla::workspace::dims4;
use crate::candle_flashmla::workspace::lemma_even_rows;
use crate::candle_flashmla::workspace::lemma_vector_count;
use crate::candle_flashmla::workspace::Workspaces;
use crate::candle_flashmla::workspace::WorkspaceDescs;
use crate::candle_flashmla::workspace::WorkspaceModel;
use crate::candle_flashmla::workspace::WorkspaceShapes;
use crate::dense_decode::groups_and_rows;
use crate::dense_decode::DenseDecodeDims;
use crate::dense_decode::DenseDecodePlanMeta;
use crate::dense_decode::DenseDecodePlanParams;
use crate::error::first;
use crate::sys::cudaStream_t;
use crate::sys::DevicePtr;
use candle_core::Tensor;
use vstd::arithmetic::div_mod::lemma_fundamental_div_mod;
use vstd::prelude::*;
use vstd::string::StringExecFns;

verus! {

/// The shape of the LSE accumulation workspace: one row for each split, KV head and packed query
/// row.
pub open spec fn lse_accum_shape(meta: DenseDecodePlanMeta, dims: DenseDecodeDims) -> (
    usize,
    usize,
    usize,
) {
    ((dims.batch + meta.num_sm_parts) as usize, dims.h_k, dims.rows_per_hk() as usize)
}

/// The shape of the output accumulation workspace: one value vector for each split, KV head and
/// packed query row.
pub open spec fn o_accum_shape(meta: DenseDecodePlanMeta, dims: DenseDecodeDims) -> (
    usize,
    usize,
    usize,
    usize,
) {
    (
        (dims.batch + meta.num_sm_parts) as usize,
        dims.h_k,
        dims.rows_per_hk() as usize,
        dims.d_v,
    )
}

/// The shapes of all workspaces of a plan.
pub open spec fn plan_shapes(meta: DenseDecodePlanMeta, dims: DenseDecodeDims) -> WorkspaceShapes {
    WorkspaceShapes {
        scheduler_metadata: (
            meta.num_sm_parts,
            meta.scheduler_metadata_i32_len / meta.num_sm_parts,
        ),
        num_splits: meta.num_splits_len,
        lse_accum: lse_accum_shape(meta, dims),
        o_accum: o_accum_shape(meta, dims),
    }
}

/// The first reason why a plan of the given metadata cannot be made: its scheduler metadata does
/// not split evenly, or it packs another number of query rows, or it has too many splits.
pub open spec fn meta_error(meta: DenseDecodePlanMeta, dims: DenseDecodeDims) -> Option<
    ErrorModel,
> {
    if meta.num_sm_parts == 0 || meta.scheduler_metadata_i32_len % meta.num_sm_parts != 0 {
        refused("invalid dense decode scheduler metadata shape"@)
    } else {
        first(lifted(dims.packing_error()),
        first(
            if meta.q_seq_per_hk != dims.rows_per_hk() {
                refused("dense decode plan q_seq_per_hk does not match tensor dimensions"@)
            } else {
                None
            },
            lifted(meta.splits_error(dims)),
        ))
    }
}

/// Checks the metadata that planning returned and computes the shapes of the workspaces.
pub fn check_plan_meta(meta: DenseDecodePlanMeta, dims: DenseDecodeDims) -> (r: Result<
    WorkspaceShapes,
    Error,
>)
    ensures
        failure(r) == meta_error(meta, dims),
        r matches Ok(shapes) ==> shapes == plan_shapes(meta, dims),
{
    if meta.num_sm_parts == 0 || meta.scheduler_metadata_i32_len % meta.num_sm_parts != 0 {
        return invalid_arg(String::from_str("invalid dense decode scheduler metadata shape"));
    }
    let q_seq_per_hk: usize = from_flashmla(dims.q_seq_per_hk())?;
    if meta.q_seq_per_hk != q_seq_per_hk {
        return invalid_arg(
            String::from_str("dense decode plan q_seq_per_hk does not match tensor dimensions"),
        );
    }
    let total_num_splits: usize = from_flashmla(meta.total_num_splits(dims))?;
    Ok(
        WorkspaceShapes {
            scheduler_metadata: (
                meta.num_sm_parts,
                meta.scheduler_metadata_i32_len / meta.num_sm_parts,
            ),
            num_splits: meta.num_splits_len,
            lse_accum: (total_num_splits, dims.h_k, q_seq_per_hk),
            o_accum: (total_num_splits, dims.h_k, q_seq_per_hk, dims.d_v),
        },
    )
}

/// The scheduler metadata and split offsets of a plan have exactly the element counts that its
/// metadata asks for.
pub proof fn plans_have_the_planned_sizes(meta: DenseDecodePlanMeta, dims: DenseDecodeDims)
    requires
        meta_error(meta, dims) is None,
    ensures
        ({
            let shapes = plan_shapes(meta, dims);
            &&& element_count(dims2(shapes.scheduler_metadata)) == meta.scheduler_metadata_i32_len
            &&& element_count(seq![shapes.num_splits]) == meta.num_splits_len
        }),
{
    lemma_even_rows(meta.scheduler_metadata_i32_len, meta.num_sm_parts);
    lemma_vector_count(meta.num_splits_len);
}

/// Metadata that a plan can be made of: at least one partition, scheduler metadata that splits
/// evenly among the partitions, the packed row count of the call, and splits that a size can count.
pub proof fn accepted_metadata(meta: DenseDecodePlanMeta, dims: DenseDecodeDims)
    ensures
        meta_error(meta, dims) is None <==> {
            &&& meta.num_sm_parts >= 1 && meta.scheduler_metadata_i32_len % meta.num_sm_parts == 0
            &&& dims.h_k >= 1 && dims.h_q % dims.h_k == 0
            &&& meta.q_seq_per_hk == dims.s_q * (dims.h_q as int / dims.h_k as int)
            &&& dims.batch + meta.num_sm_parts <= usize::MAX
        },
{
    groups_and_rows(dims);
}

/// The accumulation workspaces of a plan hold one log-sum-exp value for each split, query position
/// and query head, and one value vector for each of them, in rows of their KV head as the metadata
/// counts them. The scheduler metadata has one row for each partition.
pub proof fn workspaces_have_the_sizes_of_the_call(meta: DenseDecodePlanMeta, dims: DenseDecodeDims)
    requires
        meta_error(meta, dims) is None,
    ensures
        ({
            let shapes = plan_shapes(meta, dims);
            let splits = dims.batch + meta.num_sm_parts;
            &&& element_count(dims3(shapes.lse_accum)) == splits * dims.s_q * dims.h_q
            &&& element_count(dims4(shapes.o_accum)) == splits * dims.s_q * dims.h_q * dims.d_v
            &&& shapes.lse_accum.0 == splits && shapes.o_accum.0 == splits
            &&& shapes.lse_accum.1 == dims.h_k && shapes.o_accum.1 == dims.h_k
            &&& shapes.lse_accum.2 == meta.q_seq_per_hk && shapes.o_accum.2 == meta.q_seq_per_hk
            &&& shapes.o_accum.3 == dims.d_v
            &&& meta.q_seq_per_hk * dims.h_k == dims.s_q * dims.h_q
            &&& shapes.scheduler_metadata.0 == meta.num_sm_parts
            &&& shapes.scheduler_metadata.0 * shapes.scheduler_metadata.1
                == meta.scheduler_metadata_i32_len
            &&& shapes.num_splits == meta.num_splits_len
        }),
{
    groups_and_rows(dims);
    plans_have_the_planned_sizes(meta, dims);
    reveal_with_fuel(product_from, 5);
    let (a, b, c, d) = o_accum_shape(meta, dims);
    let (n, s, h) = (a as int, dims.s_q as int, dims.h_q as int);
    let (bi, ci, di) = (b as int, c as int, d as int);
    assert(ci * bi == s * h);
    assert(n * (bi * (ci * 1)) == n * s * h) by (nonlinear_arith)
        requires
            ci * bi == s * h,
    ;
    assert(n * (bi * (ci * (di * 1))) == n * s * h * di) by (nonlinear_arith)
        requires
            ci * bi == s * h,
    ;
    lemma_fundamental_div_mod(meta.scheduler_metadata_i32_len as int, meta.num_sm_parts as int);
}

/// Caller-owned dense decode scheduler and split-KV workspaces.
#[derive(Debug)]
pub struct DenseDecodePlan {
    /// I32 scheduler metadata shaped `[num_sm_parts, metadata_i32_per_part]`.
    pub scheduler_metadata: Tensor,
    /// I32 split offsets shaped `[meta.num_splits_len]`. FlashMLA asks for `batch + 1` of them.
    pub num_splits: Tensor,
    /// F32 split-KV LSE accumulation workspace shaped `[batch + num_sm_parts, h_k, q_seq_per_hk]`.
    pub lse_accum: Tensor,
    /// F32 split-KV output accumulation workspace shaped
    /// `[batch + num_sm_parts, h_k, q_seq_per_hk, d_v]`.
    pub o_accum: Tensor,
    /// Workspace sizing metadata returned by FlashMLA planning.
    pub meta: DenseDecodePlanMeta,
}

/// The first workspace whose rank, device, element type or layout is not that of its role.
pub open spec fn plan_layout_error(w: WorkspaceModel) -> Option<ErrorModel> {
    first(w.kinds_error(),
    first(w.scheduler_metadata.contiguous_error("scheduler_metadata"@),
    first(w.num_splits.contiguous_error("num_splits"@),
    first(w.lse_accum.contiguous_error("lse_accum"@),
        w.o_accum.contiguous_error("o_accum"@)))))
}

/// The first reason why the workspaces `w` are not those of a plan of the given metadata for a
/// decode of the given dimensions.
pub open spec fn plan_error(
    w: WorkspaceModel,
    meta: DenseDecodePlanMeta,
    dims: DenseDecodeDims,
) -> Option<ErrorModel> {
    first(plan_layout_error(w),
    first(w.scheduler_error(meta.num_sm_parts, meta.scheduler_metadata_i32_len),
    first(w.splits_error(meta.num_splits_len),
    first(lifted(meta.splits_error(dims)),
    first(lifted(dims.packing_error()),
        if !w.lse_accum_is(lse_accum_shape(meta, dims)) {
            refused("lse_accum shape does not match dense decode plan metadata"@)
        } else if !w.o_accum_is(o_accum_shape(meta, dims)) {
            refused("o_accum shape does not match dense decode plan metadata"@)
        } else {
            None
        })))))
}

/// Whether the workspaces `w` are those of a plan of the given metadata for a decode of the given
/// dimensions.
pub open spec fn plan_accepted(
    w: WorkspaceModel,
    meta: DenseDecodePlanMeta,
    dims: DenseDecodeDims,
) -> bool {
    &&& w.kinds_suit()
    &&& w.scheduler_metadata.contiguous()
    &&& w.num_splits.contiguous()
    &&& w.lse_accum.contiguous()
    &&& w.o_accum.contiguous()
    &&& w.scheduler_metadata.size(0) == meta.num_sm_parts
    &&& w.scheduler_metadata.size(1) == meta.scheduler_metadata_i32_len / meta.num_sm_parts
    &&& w.num_splits.size(0) == meta.num_splits_len
    &&& meta.splits_error(dims) is None
    &&& dims.packing_error() is None
    &&& w.lse_accum_is(lse_accum_shape(meta, dims))
    &&& w.o_accum_is(o_accum_shape(meta, dims))
}

/// Validates the rank, device, element type and layout of the workspaces of a plan.
pub fn validate_plan_layout(descs: &WorkspaceDescs) -> (r: Result<(), Error>)
    ensures
        failure(r) == plan_layout_error(descs@),
{
    descs.ensure_kinds()?;
    descs.scheduler_metadata.ensure_contiguous("scheduler_metadata")?;
    descs.num_splits.ensure_contiguous("num_splits")?;
    descs.lse_accum.ensure_contiguous("lse_accum")?;
    descs.o_accum.ensure_contiguous("o_accum")?;
    Ok(())
}

/// Validates the workspaces of a plan for a decode of the given dimensions.
pub fn validate_plan(descs: &WorkspaceDescs, meta: DenseDecodePlanMeta, dims: DenseDecodeDims) -> (r:
    Result<(), Error>)
    requires
        plan_layout_error(descs@) is None ==> meta.num_sm_parts > 0,
    ensures
        failure(r) == plan_error(descs@, meta, dims),
        r is Ok <==> plan_accepted(descs@, meta, dims),
{
    validate_plan_layout(descs)?;
    descs.ensure_scheduler(meta.num_sm_parts, meta.scheduler_metadata_i32_len)?;
    descs.ensure_splits(meta.num_splits_len)?;
    let total_num_splits: usize = from_flashmla(meta.total_num_splits(dims))?;
    let q_seq_per_hk: usize = from_flashmla(dims.q_seq_per_hk())?;
    if !descs.has_lse_accum((total_num_splits, dims.h_k, q_seq_per_hk)) {
        return invalid_arg(
            String::from_str("lse_accum shape does not match dense decode plan metadata"),
        );
    }
    if !descs.has_o_accum((total_num_splits, dims.h_k, q_seq_per_hk, dims.d_v)) {
        return invalid_arg(
            String::from_str("o_accum shape does not match dense decode plan metadata"),
        );
    }
    Ok(())
}

/// New workspaces of a plan's shapes are accepted as its workspaces.
pub proof fn new_workspaces_are_accepted(
    q: Tensor,
    w: Workspaces,
    meta: DenseDecodePlanMeta,
    dims: DenseDecodeDims,
)
    requires
        meta_error(meta, dims) is None,
        w.made_for(q, plan_shapes(meta, dims)),
    ensures
        plan_accepted(w.model(q), meta, dims),
{
    let m = w.model(q);
    let shapes = plan_shapes(meta, dims);
    assert(m.scheduler_metadata.dims() == dims2(shapes.scheduler_metadata));
    assert(m.num_splits.dims() == seq![shapes.num_splits]);
    assert(m.lse_accum.dims() == dims3(shapes.lse_accum));
    assert(m.o_accum.dims() == dims4(shapes.o_accum));
}

/// Why a plan is not confirmed by the metadata that the metadata generation returned, if it is not.
pub open spec fn confirmation_error(meta: DenseDecodePlanMeta, generated: DenseDecodePlanMeta) -> Option<
    ErrorModel,
> {
    if generated == meta {
        None
    } else {
        refused("dense decode metadata generation returned inconsistent plan"@)
    }
}

/// A plan is confirmed if and only if the generation returned every number of its metadata again.
pub proof fn confirmed_plans_are_unchanged(meta: DenseDecodePlanMeta, generated: DenseDecodePlanMeta)
    ensures
        confirmation_error(meta, generated) is None <==> {
            &&& generated.num_sm_parts == meta.num_sm_parts
            &&& generated.fixed_overhead_num_blocks == meta.fixed_overhead_num_blocks
            &&& generated.block_size_n == meta.block_size_n
            &&& generated.q_seq_per_hk == meta.q_seq_per_hk
            &&& generated.scheduler_metadata_i32_len == meta.scheduler_metadata_i32_len
            &&& generated.num_splits_len == meta.num_splits_len
            &&& generated.lse_accum_elem_count == meta.lse_accum_elem_count
            &&& generated.o_accum_elem_count == meta.o_accum_elem_count
        },
        generated != meta ==> confirmation_error(meta, generated) == Some(
            ErrorModel::Tensor("dense decode metadata generation returned inconsistent plan"@),
        ),
{
}

impl DenseDecodePlan {
    /// What validation reads of the plan's workspaces, next to the query tensor `q`.
    pub open spec fn model(self, q: Tensor) -> WorkspaceModel {
        self.workspaces().model(q)
    }

    /// The plan's workspaces without its metadata.
    pub open spec fn workspaces(self) -> Workspaces {
        Workspaces {
            scheduler_metadata: self.scheduler_metadata,
            num_splits: self.num_splits,
            lse_accum: self.lse_accum,
            o_accum: self.o_accum,
        }
    }

    /// Checks the metadata that planning returned and allocates the workspaces of the plan on the
    /// device of `q`.
    ///
    /// Whether the device has the memory is for Candle to say: for metadata in order only its own
    /// error can come back.
    pub fn allocate(q: &Tensor, meta: DenseDecodePlanMeta, dims: DenseDecodeDims) -> (r: Result<
        DenseDecodePlan,
        Error,
    >)
        requires
            meta_error(meta, dims) is None ==> plan_shapes(meta, dims).fit(),
        ensures
            meta_error(meta, dims) is Some ==> failure(r) == meta_error(meta, dims),
            meta_error(meta, dims) is None ==> match r {
                Ok(plan) => {
                    &&& plan.meta == meta
                    &&& plan.workspaces().made_for(*q, plan_shapes(meta, dims))
                    &&& plan_accepted(plan.model(*q), meta, dims)
                },
                Err(e) => e is Candle,
            },
    {
        let shapes = check_plan_meta(meta, dims)?;
        let w = Workspaces::allocate(q, shapes)?;
        let plan = DenseDecodePlan {
            scheduler_metadata: w.scheduler_metadata,
            num_splits: w.num_splits,
            lse_accum: w.lse_accum,
            o_accum: w.o_accum,
            meta,
        };
        proof {
            new_workspaces_are_accepted(*q, plan.workspaces(), meta, dims);
        }
        Ok(plan)
    }

    /// Reads from the workspaces what validation needs, next to the query tensor `q`.
    pub fn describe(&self, q: &Tensor) -> (descs: WorkspaceDescs)
        ensures
            descs@ == self.model(*q),
    {
        WorkspaceDescs {
            scheduler_metadata: describe(q, &self.scheduler_metadata),
            num_splits: describe(q, &self.num_splits),
            lse_accum: describe(q, &self.lse_accum),
            o_accum: describe(q, &self.o_accum),
        }
    }

    /// Confirms the plan against the metadata that the metadata generation returned.
    pub fn confirm(self, generated: DenseDecodePlanMeta) -> (r: Result<DenseDecodePlan, Error>)
        ensures
            failure(r) == confirmation_error(self.meta, generated),
            r matches Ok(plan) ==> plan == self,
    {
        if generated != self.meta {
            return invalid_arg(
                String::from_str("dense decode metadata generation returned inconsistent plan"),
            );
        }
        Ok(self)
    }
}

/// Validates the workspaces of a plan for a decode of the given dimensions.
pub fn validate_plan_tensors(q: &Tensor, dims: DenseDecodeDims, plan: &DenseDecodePlan) -> (r:
    Result<(), Error>)
    requires
        plan_layout_error(plan.model(*q)) is None ==> plan.meta.num_sm_parts > 0,
    ensures
        failure(r) == plan_error(plan.model(*q), plan.meta, dims),
        r is Ok <==> plan_accepted(plan.model(*q), plan.meta, dims),
{
    validate_plan(&plan.describe(q), plan.meta, dims)
}

/// The plans that can be launched with: contiguous workspaces next to the query, of the element
/// types and sizes of their roles, for metadata whose rows and splits can be counted.
pub proof fn accepted_workspaces(q: Tensor, plan: DenseDecodePlan, dims: DenseDecodeDims)
    requires
        plan.meta.num_sm_parts > 0,
        strides_of(plan.scheduler_metadata).len() == dims_of(plan.scheduler_metadata).len(),
        strides_of(plan.num_splits).len() == dims_of(plan.num_splits).len(),
        strides_of(plan.lse_accum).len() == dims_of(plan.lse_accum).len(),
        strides_of(plan.o_accum).len() == dims_of(plan.o_accum).len(),
    ensures
        plan_error(plan.model(q), plan.meta, dims) is None <==> {
            let meta = plan.meta;
            &&& dims_of(plan.scheduler_metadata) == seq![
                meta.num_sm_parts,
                meta.scheduler_metadata_i32_len / meta.num_sm_parts,
            ]
            &&& dims_of(plan.num_splits) == seq![meta.num_splits_len]
            &&& dims_of(plan.lse_accum).len() == 3 && dims_of(plan.o_accum).len() == 4
            &&& dims_of(plan.lse_accum)[0] == dims.batch + meta.num_sm_parts
            &&& dims_of(plan.lse_accum)[1] == dims.h_k
            &&& dims.h_k >= 1 && dims.h_q % dims.h_k == 0
            &&& dims_of(plan.lse_accum)[2] == dims.s_q * (dims.h_q as int / dims.h_k as int)
            &&& dims_of(plan.o_accum).take(3) == dims_of(plan.lse_accum)
            &&& dims_of(plan.o_accum)[3] == dims.d_v
            &&& dtype_of(plan.scheduler_metadata) == DType::I32 && dtype_of(plan.num_splits)
                == DType::I32
            &&& dtype_of(plan.lse_accum) == DType::F32 && dtype_of(plan.o_accum) == DType::F32
            &&& same_device_of(q, plan.scheduler_metadata) && same_device_of(q, plan.num_splits)
            &&& same_device_of(q, plan.lse_accum) && same_device_of(q, plan.o_accum)
            &&& is_contiguous(
                dims_of(plan.scheduler_metadata),
                strides_of(plan.scheduler_metadata),
            )
            &&& is_contiguous(dims_of(plan.num_splits), strides_of(plan.num_splits))
            &&& is_contiguous(dims_of(plan.lse_accum), strides_of(plan.lse_accum))
            &&& is_contiguous(dims_of(plan.o_accum), strides_of(plan.o_accum))
        },
        plan_accepted(plan.model(q), plan.meta, dims) <==> plan_error(
            plan.model(q),
            plan.meta,
            dims,
        ) is None,
{
    groups_and_rows(dims);
    let w = plan.model(q);
    let meta = plan.meta;
    descriptions_have_the_layout(q, plan.scheduler_metadata);
    descriptions_have_the_layout(q, plan.num_splits);
    descriptions_have_the_layout(q, plan.lse_accum);
    descriptions_have_the_layout(q, plan.o_accum);
    let lse = dims_of(plan.lse_accum);
    let o = dims_of(plan.o_accum);
    let scheduler = dims_of(plan.scheduler_metadata);
    if scheduler.len() == 2 && scheduler[0] == meta.num_sm_parts && scheduler[1]
        == meta.scheduler_metadata_i32_len / meta.num_sm_parts {
        assert(scheduler == seq![
            meta.num_sm_parts,
            meta.scheduler_metadata_i32_len / meta.num_sm_parts,
        ]);
    }
    if dims_of(plan.num_splits).len() == 1 && dims_of(plan.num_splits)[0] == meta.num_splits_len {
        assert(dims_of(plan.num_splits) == seq![meta.num_splits_len]);
    }
    if lse.len() == 3 && o.len() == 4 {
        if o.take(3) == lse {
            assert(o[0] == o.take(3)[0] && o[1] == o.take(3)[1] && o[2] == o.take(3)[2]);
        }
        let (a, b, c, d) = o_accum_shape(meta, dims);
        if lse[0] == a && lse[1] == b && lse[2] == c {
            assert(lse == dims3(lse_accum_shape(meta, dims)));
            if o[0] == a && o[1] == b && o[2] == c {
                assert(o.take(3) == lse);
                if o[3] == d {
                    assert(o == dims4(o_accum_shape(meta, dims)));
                }
            }
        }
    }
}

/// A planning call that only computes sizes has no buffers; one that fills the metadata buffers of a
/// plan has their addresses and that of the KV lengths. Both have the dimensions, the
/// multiprocessors and the stream of the caller.
pub proof fn requests_point_at_the_tensors(
    tensors: DenseDecodeTensors,
    plan: DenseDecodePlan,
    dims: DenseDecodeDims,
    bases: DenseDecodePlanBases,
    num_sm: usize,
    stream: cudaStream_t,
)
    ensures
        ({
            let p = size_params(dims, num_sm, stream);
            &&& p.seqlens_k.addr == 0 && p.tile_scheduler_metadata.addr == 0 && p.num_splits.addr
                == 0
            &&& p.dims == dims && p.num_sm == num_sm && p.stream == stream
        }),
        tensors.metadata_error(plan, bases) is None ==> {
            let p = tensors.metadata_params(plan, dims, bases, num_sm, stream);
            &&& p.seqlens_k.addr == bases.seqlens_k + start_offset_of(*tensors.seqlens_k) * 4
            &&& p.tile_scheduler_metadata.addr == bases.scheduler_metadata + start_offset_of(
                plan.scheduler_metadata,
            ) * 4
            &&& p.num_splits.addr == bases.num_splits + start_offset_of(plan.num_splits) * 4
            &&& p.dims == dims && p.num_sm == num_sm && p.stream == stream
        },
{
    pointers_lie_at_the_first_element(*tensors.seqlens_k, bases.seqlens_k, 4, "seqlens_k"@);
    pointers_lie_at_the_first_element(
        plan.scheduler_metadata,
        bases.scheduler_metadata,
        4,
        "scheduler_metadata"@,
    );
    pointers_lie_at_the_first_element(plan.num_splits, bases.num_splits, 4, "num_splits"@);
}

/// What a planning call that only computes sizes is given.
pub open spec fn size_params(
    dims: DenseDecodeDims,
    num_sm: usize,
    stream: cudaStream_t,
) -> DenseDecodePlanParams {
    DenseDecodePlanParams {
        dims,
        seqlens_k: DevicePtr { addr: 0 },
        tile_scheduler_metadata: DevicePtr { addr: 0 },
        num_splits: DevicePtr { addr: 0 },
        num_sm,
        stream,
    }
}

/// The parameters of a planning call that only computes sizes: no buffer is given.
pub fn size_request(dims: DenseDecodeDims, num_sm: usize, stream: cudaStream_t) -> (params:
    DenseDecodePlanParams)
    ensures
        params == size_params(dims, num_sm, stream),
{
    DenseDecodePlanParams {
        dims,
        seqlens_k: DevicePtr::null(),
        tile_scheduler_metadata: DevicePtr::null(),
        num_splits: DevicePtr::null(),
        num_sm,
        stream,
    }
}

/// Addresses of the storages of the tensors that planning reads and writes.
#[derive(Debug, Copy, Clone, PartialEq, Eq)]
pub struct DenseDecodePlanBases {
    /// Storage of the KV lengths.
    pub seqlens_k: u64,
    /// Storage of the scheduler metadata.
    pub scheduler_metadata: u64,
    /// Storage of the split offsets.
    pub num_splits: u64,
}

impl<'a> DenseDecodeTensors<'a> {
    /// The first tensor of a planning call that has no device address.
    pub open spec fn metadata_error(
        self,
        plan: DenseDecodePlan,
        bases: DenseDecodePlanBases,
    ) -> Option<ErrorModel> {
        first(pointer_error(Some(self.seqlens_k), bases.seqlens_k, 4, "seqlens_k"@),
        first(pointer_error(
            Some(&plan.scheduler_metadata),
            bases.scheduler_metadata,
            4,
            "scheduler_metadata"@,
        ),
            pointer_error(Some(&plan.num_splits), bases.num_splits, 4, "num_splits"@)))
    }

    /// What a planning call that fills the metadata buffers of `plan` is given.
    pub open spec fn metadata_params(
        self,
        plan: DenseDecodePlan,
        dims: DenseDecodeDims,
        bases: DenseDecodePlanBases,
        num_sm: usize,
        stream: cudaStream_t,
    ) -> DenseDecodePlanParams {
        DenseDecodePlanParams {
            dims,
            seqlens_k: pointer_to(Some(self.seqlens_k), bases.seqlens_k, 4),
            tile_scheduler_metadata: pointer_to(
                Some(&plan.scheduler_metadata),
                bases.scheduler_metadata,
                4,
            ),
            num_splits: pointer_to(Some(&plan.num_splits), bases.num_splits, 4),
            num_sm,
            stream,
        }
    }

    /// The parameters of a planning call that fills the metadata buffers of `plan`.
    pub fn metadata_request(
        &self,
        plan: &DenseDecodePlan,
        dims: DenseDecodeDims,
        bases: DenseDecodePlanBases,
        num_sm: usize,
        stream: cudaStream_t,
    ) -> (r: Result<DenseDecodePlanParams, Error>)
        ensures
            failure(r) == self.metadata_error(*plan, bases),
            r matches Ok(params) ==> params == self.metadata_params(
                *plan,
                dims,
                bases,
                num_sm,
                stream,
            ),
    {
        Ok(
            DenseDecodePlanParams {
                dims,
                seqlens_k: tensor_ptr_i32(self.seqlens_k, bases.seqlens_k, "seqlens_k")?,
                tile_scheduler_metadata: tensor_ptr_i32(
                    &plan.scheduler_metadata,
                    bases.scheduler_metadata,
                    "scheduler_metadata",
                )?,
                num_splits: tensor_ptr_i32(&plan.num_splits, bases.num_splits, "num_splits")?,
                num_sm,
                stream,
            },
        )
    }
}

} // verus!
