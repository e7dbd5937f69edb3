//! Dense decode launches: query packing, outputs, strides and pointers.

use candle_core::Tensor;
use crate::candle_flashmla::dense_decode::DenseDecodeTensors;
use crate::candle_flashmla::dense_decode_plan::DenseDecodePlan;
use crate::candle_flashmla::dense_decode_plan::meta_error;
use crate::candle_flashmla::dense_decode_plan::new_workspaces_are_accepted;
use crate::candle_flashmla::dense_decode_plan::plan_error;
use crate::candle_flashmla::dense_decode_plan::plan_layout_error;
use crate::candle_flashmla::dense_decode_plan::plan_shapes;
use crate::candle_flashmla::dense_decode_plan::validate_plan_tensors;
use crate::candle_flashmla::error::Error;
use crate::candle_flashmla::error::ErrorModel;
use crate::candle_flashmla::error::failure;
use crate::candle_flashmla::error::from_candle;
use crate::candle_flashmla::error::from_flashmla;
use crate::candle_flashmla::layout::can_allocate;
use crate::candle_flashmla::layout::can_copy;
use crate::candle_flashmla::layout::exchanged;
use crate::candle_flashmla::layout::in_bounds;
use crate::candle_flashmla::layout::is_contiguous;
use crate::candle_flashmla::layout::is_row_major;
use crate::candle_flashmla::layout::lemma_single_position_exchange;
use crate::candle_flashmla::layout::position;
use crate::candle_flashmla::packing;
use crate::candle_flashmla::packing::group;
use crate::candle_flashmla::packing::grouped_q_dims;
use crate::candle_flashmla::packing::interleaved_q_dims;
use crate::candle_flashmla::packing::is_query;
use crate::candle_flashmla::packing::kv_head;
use crate::candle_flashmla::packing::lemma_group;
use crate::candle_flashmla::packing::lemma_one_head;
use crate::candle_flashmla::packing::lemma_reshape_keeps_extent;
use crate::candle_flashmla::packing::lse_dims;
use crate::candle_flashmla::packing::lse_moves;
use crate::candle_flashmla::packing::lse_holds_each_packed_row;
use crate::candle_flashmla::packing::lse_position;
use crate::candle_flashmla::packing::ordered_lse_dims;
use crate::candle_flashmla::packing::ordered_out_dims;
use crate::candle_flashmla::packing::out_dims;
use crate::candle_flashmla::packing::out_moves;
use crate::candle_flashmla::packing::out_position;
use crate::candle_flashmla::packing::outputs_fit;
use crate::candle_flashmla::packing::output_holds_each_packed_row;
use crate::candle_flashmla::packing::packed_lse_dims;
use crate::candle_flashmla::packing::packed_lse_position;
use crate::candle_flashmla::packing::packed_out_dims;
use crate::candle_flashmla::packing::packed_out_position;
use crate::candle_flashmla::packing::packed_q_dims;
use crate::candle_flashmla::packing::packed_q_position;
use crate::candle_flashmla::packing::packed_query_holds_each_head;
use crate::candle_flashmla::packing::packed_row;
use crate::candle_flashmla::packing::packing_is_a_bijection;
use crate::candle_flashmla::packing::packing_keeps_element_counts;
use crate::candle_flashmla::packing::packing_moves;
use crate::candle_flashmla::packing::packs;
use crate::candle_flashmla::packing::q_dims;
use crate::candle_flashmla::packing::q_position;
use crate::candle_flashmla::packing::query_fits;
use crate::candle_flashmla::packing::split_lse_dims;
use crate::candle_flashmla::packing::split_out_dims;
use crate::candle_flashmla::packing::unpacks_lse;
use crate::candle_flashmla::packing::unpacks_out;
use crate::candle_flashmla::tensor::describe;
use crate::candle_flashmla::tensor::pointer_error;
use crate::candle_flashmla::tensor::pointer_to;
use crate::candle_flashmla::tensor::tensor_ptr_bf16;
use crate::candle_flashmla::tensor::tensor_ptr_f32;
use crate::candle_flashmla::tensor::tensor_ptr_i32;
use crate::candle_flashmla::tensor_api::DType;
use crate::candle_flashmla::tensor_api::ElementType;
use crate::candle_flashmla::tensor_api::contiguous;
use crate::candle_flashmla::tensor_api::dims_of;
use crate::candle_flashmla::tensor_api::dtype_of;
use crate::candle_flashmla::tensor_api::elements_of;
use crate::candle_flashmla::tensor_api::is_fresh;
use crate::candle_flashmla::tensor_api::reshape;
use crate::candle_flashmla::tensor_api::same_device_of;
use crate::candle_flashmla::tensor_api::strides_of;
use crate::candle_flashmla::tensor_api::tensor_strides;
use crate::candle_flashmla::tensor_api::transpose;
use crate::candle_flashmla::tensor_api::zeros;
use crate::dense_decode::DenseDecodeConfig;
use crate::dense_decode::DenseDecodeDims;
use crate::dense_decode::DenseDecodeLaunchParams;
use crate::dense_decode::DenseDecodeStrides;
use crate::error::first;
use crate::sys::cudaStream_t;
use vstd::arithmetic::div_mod::lemma_mod_bound;
use vstd::prelude::*;

verus! {

/// Output tensors returned by dense decode.
#[derive(Debug)]
pub struct DenseDecodeOutput {
    /// BF16 attention output shaped `[batch, s_q, h_q, d_v]`.
    pub out: Tensor,
    /// F32 log-sum-exp values shaped `[batch, h_q, s_q]` to mirror upstream FlashMLA.
    pub lse: Tensor,
}

/// Addresses of the storages of the tensors of a dense decode launch.
#[derive(Debug, Copy, Clone, PartialEq, Eq)]
pub struct DenseDecodeBases {
    /// Storage of the packed query.
    pub q_packed: u64,
    /// Storage of the KV cache.
    pub k_cache: u64,
    /// Storage of the KV lengths.
    pub seqlens_k: u64,
    /// Storage of the block table.
    pub block_table: u64,
    /// Storage of the packed output.
    pub out: u64,
    /// Storage of the packed LSE output.
    pub lse: u64,
    /// Storage of the LSE accumulation workspace.
    pub lse_accum: u64,
    /// Storage of the output accumulation workspace.
    pub o_accum: u64,
    /// Storage of the scheduler metadata.
    pub scheduler_metadata: u64,
    /// Storage of the split offsets.
    pub num_splits: u64,
}

/// A dense decode launch whose tensors were validated, whose query was packed and whose outputs
/// were allocated.
#[derive(Debug)]
pub struct DenseDecodeLaunch {
    dims: DenseDecodeDims,
    strides: DenseDecodeStrides,
    q_packed: Tensor,
    out: Tensor,
    lse: Tensor,
}

/// The mathematical value of a [`DenseDecodeLaunch`].
pub struct DenseDecodeLaunchModel {
    pub dims: DenseDecodeDims,
    pub strides: DenseDecodeStrides,
    pub q_packed: Tensor,
    pub out: Tensor,
    pub lse: Tensor,
}

impl View for DenseDecodeLaunch {
    type V = DenseDecodeLaunchModel;

    closed spec fn view(&self) -> DenseDecodeLaunchModel {
        DenseDecodeLaunchModel {
            dims: self.dims,
            strides: self.strides,
            q_packed: self.q_packed,
            out: self.out,
            lse: self.lse,
        }
    }
}

/// Whether `t` is the packed form of the query `q`: each head in its packed row, in the packed
/// shape in row-major order, of BF16 elements on the device of `q`.
pub open spec fn is_packed_query(t: Tensor, q: Tensor, dims: DenseDecodeDims) -> bool {
    &&& dims_of(t) == packed_q_dims(dims)
    &&& packs(elements_of(t), elements_of(q), dims)
    &&& is_row_major(packed_q_dims(dims), strides_of(t))
    &&& dtype_of(t) == DType::BF16
    &&& same_device_of(q, t) == same_device_of(q, q)
}

impl DenseDecodeLaunchModel {
    /// The outputs are row-major tensors of the packed shapes of a supported decode call, which can
    /// be unpacked.
    pub open spec fn well_formed(self) -> bool {
        &&& self.dims.supported()
        &&& outputs_fit(self.dims)
        &&& dims_of(self.out) == packed_out_dims(self.dims)
        &&& is_row_major(packed_out_dims(self.dims), strides_of(self.out))
        &&& dtype_of(self.out) == DType::BF16
        &&& dims_of(self.lse) == packed_lse_dims(self.dims)
        &&& is_row_major(packed_lse_dims(self.dims), strides_of(self.lse))
        &&& dtype_of(self.lse) == DType::F32
    }

    /// Whether `output` holds the outputs of this launch under their query heads, in row-major order
    /// where the launch wrote them.
    pub open spec fn finishes(self, output: DenseDecodeOutput) -> bool {
        &&& dims_of(output.out) == out_dims(self.dims)
        &&& unpacks_out(elements_of(output.out), elements_of(self.out), self.dims)
        &&& is_row_major(out_dims(self.dims), strides_of(output.out))
        &&& dtype_of(output.out) == DType::BF16
        &&& dims_of(output.lse) == lse_dims(self.dims)
        &&& unpacks_lse(elements_of(output.lse), elements_of(self.lse), self.dims)
        &&& is_row_major(lse_dims(self.dims), strides_of(output.lse))
        &&& dtype_of(output.lse) == DType::F32
        &&& forall|q: Tensor| #[trigger]
            same_device_of(q, output.out) == same_device_of(q, self.out)
        &&& forall|q: Tensor| #[trigger]
            same_device_of(q, output.lse) == same_device_of(q, self.lse)
    }

    /// The first tensor of the launch that has no device address.
    pub open spec fn pointers_error(
        self,
        tensors: DenseDecodeTensors,
        block_table: Tensor,
        plan: DenseDecodePlan,
        bases: DenseDecodeBases,
    ) -> Option<ErrorModel> {
        first(pointer_error(Some(&self.q_packed), bases.q_packed, 2, "q_packed"@),
        first(pointer_error(Some(tensors.k_cache), bases.k_cache, 2, "k_cache"@),
        first(pointer_error(Some(tensors.seqlens_k), bases.seqlens_k, 4, "seqlens_k"@),
        first(pointer_error(Some(&block_table), bases.block_table, 4, "block_table"@),
        first(pointer_error(Some(&self.out), bases.out, 2, "out_internal"@),
        first(pointer_error(Some(&self.lse), bases.lse, 4, "lse_internal"@),
        first(pointer_error(Some(&plan.lse_accum), bases.lse_accum, 4, "lse_accum"@),
        first(pointer_error(Some(&plan.o_accum), bases.o_accum, 4, "o_accum"@),
        first(pointer_error(
            Some(&plan.scheduler_metadata),
            bases.scheduler_metadata,
            4,
            "scheduler_metadata"@,
        ),
            pointer_error(Some(&plan.num_splits), bases.num_splits, 4, "num_splits"@))))))))))
    }

    /// The parameters of the launch.
    pub open spec fn params(
        self,
        tensors: DenseDecodeTensors,
        block_table: Tensor,
        plan: DenseDecodePlan,
        config: DenseDecodeConfig,
        bases: DenseDecodeBases,
        stream: cudaStream_t,
    ) -> DenseDecodeLaunchParams {
        DenseDecodeLaunchParams {
            dims: self.dims,
            config,
            q: pointer_to(Some(&self.q_packed), bases.q_packed, 2),
            kcache: pointer_to(Some(tensors.k_cache), bases.k_cache, 2),
            seqlens_k: pointer_to(Some(tensors.seqlens_k), bases.seqlens_k, 4),
            block_table: pointer_to(Some(&block_table), bases.block_table, 4),
            out: pointer_to(Some(&self.out), bases.out, 2),
            lse: pointer_to(Some(&self.lse), bases.lse, 4),
            lse_accum: pointer_to(Some(&plan.lse_accum), bases.lse_accum, 4),
            o_accum: pointer_to(Some(&plan.o_accum), bases.o_accum, 4),
            strides: self.strides,
            tile_scheduler_metadata: pointer_to(
                Some(&plan.scheduler_metadata),
                bases.scheduler_metadata,
                4,
            ),
            num_splits: pointer_to(Some(&plan.num_splits), bases.num_splits, 4),
            num_sm_parts: plan.meta.num_sm_parts,
            stream,
        }
    }
}

/// Packs the query: groups its heads by KV head, moves the KV heads inside the groups, and joins
/// query positions and groups into rows.
fn pack_query(q: &Tensor, dims: DenseDecodeDims, heads: usize, rows: usize) -> (r: Result<
    Tensor,
    Error,
>)
    requires
        dims.supported(),
        heads == dims.heads_per_hk(),
        rows == dims.rows_per_hk(),
        dims_of(*q) == q_dims(dims),
        dtype_of(*q) == DType::BF16,
        query_fits(dims, is_contiguous(dims_of(*q), strides_of(*q))),
    ensures
        match r {
            Ok(packed) => is_packed_query(packed, *q, dims),
            Err(e) => e is Candle,
        },
        is_contiguous(dims_of(*q), strides_of(*q)) && !packing_moves(dims) ==> r is Ok,
{
    let grouped_shape = [dims.batch, dims.s_q, dims.h_k, heads, dims.d_qk];
    let packed_shape = [dims.batch, rows, dims.h_k, dims.d_qk];
    assert(grouped_shape@ == grouped_q_dims(dims));
    assert(packed_shape@ == packed_q_dims(dims));
    proof {
        packing_keeps_element_counts(dims);
        lemma_reshape_keeps_extent(q_dims(dims), grouped_q_dims(dims));
        lemma_reshape_keeps_extent(q_dims(dims), interleaved_q_dims(dims));
        lemma_reshape_keeps_extent(q_dims(dims), packed_q_dims(dims));
    }
    let grouped = from_candle(reshape(q, grouped_shape.as_slice()))?;
    let interleaved = from_candle(transpose(&grouped, 2, 3))?;
    proof {
        assert(exchanged(grouped_q_dims(dims), 2, 3) == interleaved_q_dims(dims));
        if !packing_moves(dims) {
            lemma_single_position_exchange(grouped_q_dims(dims), strides_of(grouped), 2);
        }
    }
    let ordered = from_candle(contiguous(&interleaved))?;
    let packed = from_candle(reshape(&ordered, packed_shape.as_slice()))?;
    proof {
        let before = elements_of(*q);
        let after = elements_of(packed);
        assert forall|b: int, i: int, h: int, e: int|
            0 <= b < dims.batch && is_query(dims, i, h) && 0 <= e
                < dims.d_qk implies after[packed_q_position(
            dims,
            b,
            packed_row(dims, i, h),
            kv_head(dims, h),
            e,
        )] == before[#[trigger] q_position(dims, b, i, h, e)] by {
            lemma_group(dims);
            packing_is_a_bijection(dims, i, h, 0, 0);
            packed_query_holds_each_head(dims, b, i, h, e);
            let k = kv_head(dims, h);
            let g = h % dims.heads_per_hk();
            lemma_mod_bound(h, dims.heads_per_hk());
            let index = seq![b, i, k, g, e];
            assert(in_bounds(grouped_q_dims(dims), index));
            assert(exchanged(grouped_q_dims(dims), 2, 3) == interleaved_q_dims(dims));
            assert(exchanged(index, 2, 3) == seq![b, i, g, k, e]);
            assert(before[position(grouped_q_dims(dims), index)] == after[position(
                interleaved_q_dims(dims),
                seq![b, i, g, k, e],
            )]);
        }
    }
    Ok(packed)
}

impl<'a> DenseDecodeTensors<'a> {
    /// The strides of a launch on these tensors with the given packed query and block table.
    pub open spec fn launch_strides(self, q_packed: Tensor, block_table: Tensor)
        -> DenseDecodeStrides {
        DenseDecodeStrides {
            q_b: strides_of(q_packed)[0],
            q_row: strides_of(q_packed)[1],
            q_head: strides_of(q_packed)[2],
            k_block: strides_of(*self.k_cache)[0],
            k_row: strides_of(*self.k_cache)[1],
            k_head: strides_of(*self.k_cache)[2],
            block_table_b: strides_of(block_table)[0],
        }
    }

    /// The first reason why dense decode cannot run on these tensors with the given block table and
    /// plan.
    pub open spec fn launch_error(self, block_table: Tensor, plan: DenseDecodePlan, d_v: usize)
        -> Option<ErrorModel> {
        first(
            self.model(Some(&block_table)).error(d_v),
            plan_error(plan.model(*self.q), plan.meta, self.model(Some(&block_table)).dims(d_v)),
        )
    }

    /// Whether `launch` is a prepared launch on these tensors: it has their dimensions, reads their
    /// query packed, has new outputs on the device of the query, and the strides of the tensors that
    /// it reads.
    pub open spec fn prepares(
        self,
        block_table: Tensor,
        d_v: usize,
        launch: DenseDecodeLaunchModel,
    ) -> bool {
        &&& launch.dims == self.model(Some(&block_table)).dims(d_v)
        &&& is_packed_query(launch.q_packed, *self.q, launch.dims)
        &&& is_fresh(launch.out, *self.q, packed_out_dims(launch.dims), ElementType::BF16)
        &&& is_fresh(launch.lse, *self.q, packed_lse_dims(launch.dims), ElementType::F32)
        &&& launch.strides == self.launch_strides(launch.q_packed, block_table)
    }

    /// Whether the query can be packed and the outputs can be allocated and unpacked.
    pub open spec fn launch_fits(self, dims: DenseDecodeDims) -> bool {
        query_fits(dims, is_contiguous(dims_of(*self.q), strides_of(*self.q))) && outputs_fit(dims)
    }

    /// Tests whether the query can be packed and the outputs can be allocated and unpacked.
    fn can_launch(&self, dims: DenseDecodeDims, heads: usize, rows: usize) -> (ok: bool)
        requires
            heads == group(dims),
            rows == packing::rows(dims),
        ensures
            ok == self.launch_fits(dims),
    {
        let q_shape = [dims.batch, dims.s_q, dims.h_q, dims.d_qk];
        let out_shape = [dims.batch, dims.h_k, rows, dims.d_v];
        let lse_shape = [dims.batch, dims.h_k, rows];
        assert(q_shape@ == q_dims(dims));
        assert(out_shape@ == packed_out_dims(dims));
        assert(lse_shape@ == packed_lse_dims(dims));
        let in_order = describe(self.q, self.q).is_contiguous();
        let q_ok = if !in_order || (dims.h_k != 1 && heads != 1) {
            can_copy(q_shape.as_slice(), 2)
        } else {
            can_allocate(q_shape.as_slice(), 2)
        };
        let out_ok = if dims.s_q != 1 && dims.h_k != 1 {
            can_copy(out_shape.as_slice(), 2)
        } else {
            can_allocate(out_shape.as_slice(), 2)
        };
        let lse_ok = if dims.s_q != 1 && heads != 1 {
            can_copy(lse_shape.as_slice(), 4)
        } else {
            can_allocate(lse_shape.as_slice(), 4)
        };
        q_ok && out_ok && lse_ok
    }

    /// Validates the tensors, the block table and the plan, packs the query, allocates the outputs
    /// and collects the strides of a launch. The result is `None` when the tensors are too large to
    /// be addressed, or a copy that packing or unpacking takes has too many elements for Candle.
    ///
    /// Whether the device has the memory is for Candle to say: on accepted tensors only its own
    /// error can come back.
    pub fn prepare(&self, block_table: &Tensor, plan: &DenseDecodePlan, d_v: usize) -> (r: Result<
        Option<DenseDecodeLaunch>,
        Error,
    >)
        requires
            self.model(Some(block_table)).error(d_v) is None && plan_layout_error(
                plan.model(*self.q),
            ) is None ==> plan.meta.num_sm_parts > 0,
        ensures
            self.launch_error(*block_table, *plan, d_v) is Some ==> failure(r)
                == self.launch_error(*block_table, *plan, d_v),
            self.launch_error(*block_table, *plan, d_v) is None ==> match r {
                Ok(Some(launch)) => {
                    self.launch_fits(self.model(Some(block_table)).dims(d_v)) && self.prepares(
                        *block_table,
                        d_v,
                        launch@,
                    )
                },
                Ok(None) => !self.launch_fits(self.model(Some(block_table)).dims(d_v)),
                Err(e) => self.launch_fits(self.model(Some(block_table)).dims(d_v)) && e is Candle,
            },
    {
        let dims = self.validate(Some(block_table), d_v)?;
        validate_plan_tensors(self.q, dims, plan)?;
        let heads: usize = from_flashmla(dims.q_heads_per_hk())?;
        let rows: usize = from_flashmla(dims.q_seq_per_hk())?;
        if !self.can_launch(dims, heads, rows) {
            return Ok(None);
        }
        let out_shape = [dims.batch, dims.h_k, rows, dims.d_v];
        let lse_shape = [dims.batch, dims.h_k, rows];
        assert(out_shape@ == packed_out_dims(dims));
        assert(lse_shape@ == packed_lse_dims(dims));
        proof {
            let q = self.model(Some(block_table)).q;
            assert(q.axes.len() == dims_of(*self.q).len());
            assert forall|i: int| 0 <= i < 4 implies dims_of(*self.q)[i] == q_dims(dims)[i] by {
                assert(q.axes[i].size == dims_of(*self.q)[i]);
            }
            assert(dims_of(*self.q) == q_dims(dims));
        }
        let q_packed = pack_query(self.q, dims, heads, rows)?;
        let out = from_candle(zeros(out_shape.as_slice(), ElementType::BF16, self.q))?;
        let lse = from_candle(zeros(lse_shape.as_slice(), ElementType::F32, self.q))?;
        proof {
            assert(self.model(Some(block_table)).k_cache.axes.len() == dims_of(*self.k_cache).len());
            assert(self.model(Some(block_table)).block_table->0.axes.len() == dims_of(*block_table).len());
        }
        let q = tensor_strides(&q_packed);
        let k = tensor_strides(self.k_cache);
        let table = tensor_strides(block_table);
        let strides = DenseDecodeStrides {
            q_b: q[0],
            q_row: q[1],
            q_head: q[2],
            k_block: k[0],
            k_row: k[1],
            k_head: k[2],
            block_table_b: table[0],
        };
        Ok(Some(DenseDecodeLaunch { dims, strides, q_packed, out, lse }))
    }
}

impl DenseDecodeLaunch {
    #[verifier::type_invariant]
    spec fn type_ok(self) -> bool {
        self@.well_formed()
    }

    /// The dimensions of the decode call.
    pub fn dims(&self) -> (dims: DenseDecodeDims)
        ensures
            dims == self@.dims,
    {
        self.dims
    }

    /// The packed query that the launch reads.
    pub fn q_packed(&self) -> (q_packed: &Tensor)
        ensures
            *q_packed == self@.q_packed,
    {
        &self.q_packed
    }

    /// The packed output that the launch writes.
    pub fn out(&self) -> (out: &Tensor)
        ensures
            *out == self@.out,
    {
        &self.out
    }

    /// The packed LSE output that the launch writes.
    pub fn lse(&self) -> (lse: &Tensor)
        ensures
            *lse == self@.lse,
    {
        &self.lse
    }

    /// The parameters of the launch, for tensors whose storages are at the given addresses.
    pub fn params(
        &self,
        tensors: &DenseDecodeTensors,
        block_table: &Tensor,
        plan: &DenseDecodePlan,
        config: DenseDecodeConfig,
        bases: DenseDecodeBases,
        stream: cudaStream_t,
    ) -> (r: Result<DenseDecodeLaunchParams, Error>)
        ensures
            failure(r) == self@.pointers_error(*tensors, *block_table, *plan, bases),
            r matches Ok(params) ==> params == self@.params(
                *tensors,
                *block_table,
                *plan,
                config,
                bases,
                stream,
            ),
    {
        Ok(
            DenseDecodeLaunchParams {
                dims: self.dims,
                config,
                q: tensor_ptr_bf16(&self.q_packed, bases.q_packed, "q_packed")?,
                kcache: tensor_ptr_bf16(tensors.k_cache, bases.k_cache, "k_cache")?,
                seqlens_k: tensor_ptr_i32(tensors.seqlens_k, bases.seqlens_k, "seqlens_k")?,
                block_table: tensor_ptr_i32(block_table, bases.block_table, "block_table")?,
                out: tensor_ptr_bf16(&self.out, bases.out, "out_internal")?,
                lse: tensor_ptr_f32(&self.lse, bases.lse, "lse_internal")?,
                lse_accum: tensor_ptr_f32(&plan.lse_accum, bases.lse_accum, "lse_accum")?,
                o_accum: tensor_ptr_f32(&plan.o_accum, bases.o_accum, "o_accum")?,
                strides: self.strides,
                tile_scheduler_metadata: tensor_ptr_i32(
                    &plan.scheduler_metadata,
                    bases.scheduler_metadata,
                    "scheduler_metadata",
                )?,
                num_splits: tensor_ptr_i32(&plan.num_splits, bases.num_splits, "num_splits")?,
                num_sm_parts: plan.meta.num_sm_parts,
                stream,
            },
        )
    }

    /// The output tensors of a finished launch: the packed rows of each KV head, split by query
    /// position and put back under their query heads.
    ///
    /// With several query positions and query heads, putting them back takes a copy, whose
    /// allocation can fail; only Candle's own error can come back.
    pub fn finish(self) -> (r: Result<DenseDecodeOutput, Error>)
        ensures
            match r {
                Ok(output) => self@.finishes(output),
                Err(e) => e is Candle,
            },
            self@.dims.s_q == 1 || self@.dims.h_q == 1 ==> r is Ok,
    {
        proof {
            use_type_invariant(&self);
            lemma_group(self.dims);
            lemma_one_head(self.dims);
        }
        let dims = self.dims;
        let heads: usize = dims.h_q / dims.h_k;
        let split_out_shape = [dims.batch, dims.h_k, dims.s_q, heads, dims.d_v];
        let out_shape = [dims.batch, dims.s_q, dims.h_q, dims.d_v];
        let split_lse_shape = [dims.batch, dims.h_k, dims.s_q, heads];
        let lse_shape = [dims.batch, dims.h_q, dims.s_q];
        assert(split_out_shape@ == split_out_dims(dims));
        assert(out_shape@ == out_dims(dims));
        assert(split_lse_shape@ == split_lse_dims(dims));
        assert(lse_shape@ == lse_dims(dims));
        proof {
            packing_keeps_element_counts(dims);
            lemma_reshape_keeps_extent(packed_out_dims(dims), split_out_dims(dims));
            lemma_reshape_keeps_extent(packed_out_dims(dims), ordered_out_dims(dims));
            lemma_reshape_keeps_extent(packed_out_dims(dims), out_dims(dims));
            lemma_reshape_keeps_extent(packed_lse_dims(dims), split_lse_dims(dims));
            lemma_reshape_keeps_extent(packed_lse_dims(dims), ordered_lse_dims(dims));
            lemma_reshape_keeps_extent(packed_lse_dims(dims), lse_dims(dims));
        }
        let split_out = from_candle(reshape(&self.out, split_out_shape.as_slice()))?;
        let ordered_out = from_candle(transpose(&split_out, 1, 2))?;
        proof {
            assert(exchanged(split_out_dims(dims), 1, 2) == ordered_out_dims(dims));
            if !out_moves(dims) {
                lemma_single_position_exchange(split_out_dims(dims), strides_of(split_out), 1);
            }
        }
        let out = from_candle(reshape(&ordered_out, out_shape.as_slice()))?;
        let split_lse = from_candle(reshape(&self.lse, split_lse_shape.as_slice()))?;
        let ordered_lse = from_candle(transpose(&split_lse, 2, 3))?;
        proof {
            assert(exchanged(split_lse_dims(dims), 2, 3) == ordered_lse_dims(dims));
            if !lse_moves(dims) {
                lemma_single_position_exchange(split_lse_dims(dims), strides_of(split_lse), 2);
            }
        }
        let lse = from_candle(reshape(&ordered_lse, lse_shape.as_slice()))?;
        proof {
            let packed_out = elements_of(self.out);
            let after = elements_of(out);
            assert forall|b: int, i: int, h: int, e: int|
                0 <= b < dims.batch && is_query(dims, i, h) && 0 <= e
                    < dims.d_v implies after[#[trigger] out_position(dims, b, i, h, e)]
                == packed_out[packed_out_position(
                dims,
                b,
                kv_head(dims, h),
                packed_row(dims, i, h),
                e,
            )] by {
                packing_is_a_bijection(dims, i, h, 0, 0);
                output_holds_each_packed_row(dims, b, i, h, e);
                let k = kv_head(dims, h);
                let g = h % dims.heads_per_hk();
                lemma_mod_bound(h, dims.heads_per_hk());
                let index = seq![b, k, i, g, e];
                assert(in_bounds(split_out_dims(dims), index));
                assert(exchanged(split_out_dims(dims), 1, 2) == ordered_out_dims(dims));
                assert(exchanged(index, 1, 2) == seq![b, i, k, g, e]);
                assert(packed_out[position(split_out_dims(dims), index)] == after[position(
                    ordered_out_dims(dims),
                    seq![b, i, k, g, e],
                )]);
            }
            let packed_lse = elements_of(self.lse);
            let after_lse = elements_of(lse);
            assert forall|b: int, i: int, h: int|
                0 <= b < dims.batch && is_query(dims, i, h) implies after_lse[#[trigger] lse_position(
                dims,
                b,
                h,
                i,
            )] == packed_lse[packed_lse_position(
                dims,
                b,
                kv_head(dims, h),
                packed_row(dims, i, h),
            )] by {
                packing_is_a_bijection(dims, i, h, 0, 0);
                lse_holds_each_packed_row(dims, b, i, h);
                let k = kv_head(dims, h);
                let g = h % dims.heads_per_hk();
                lemma_mod_bound(h, dims.heads_per_hk());
                let index = seq![b, k, i, g];
                assert(in_bounds(split_lse_dims(dims), index));
                assert(exchanged(split_lse_dims(dims), 2, 3) == ordered_lse_dims(dims));
                assert(exchanged(index, 2, 3) == seq![b, k, g, i]);
                assert(packed_lse[position(split_lse_dims(dims), index)] == after_lse[position(
                    ordered_lse_dims(dims),
                    seq![b, k, g, i],
                )]);
            }
        }
        Ok(DenseDecodeOutput { out, lse })
    }
}

/// A launch on accepted tensors passes the checks of the kernel layer as soon as its pointers and
/// strides are usable.
pub proof fn prepared_launches_are_valid(
    tensors: DenseDecodeTensors,
    block_table: Tensor,
    plan: DenseDecodePlan,
    launch: DenseDecodeLaunchModel,
    config: DenseDecodeConfig,
    bases: DenseDecodeBases,
    stream: cudaStream_t,
)
    requires
        tensors.model(Some(&block_table)).accepted(config.d_v),
        plan.meta.num_sm_parts > 0,
        launch.dims == tensors.model(Some(&block_table)).dims(config.d_v),
        launch.strides.valid(),
        launch.params(tensors, block_table, plan, config, bases, stream).has_pointers(),
    ensures
        launch.params(tensors, block_table, plan, config, bases, stream).valid(),
{
}

/// A plan that was allocated for the dimensions of accepted tensors can be launched on them.
pub proof fn allocated_plans_can_be_launched(
    tensors: DenseDecodeTensors,
    block_table: Tensor,
    plan: DenseDecodePlan,
    d_v: usize,
)
    requires
        tensors.model(Some(&block_table)).accepted(d_v),
        meta_error(plan.meta, tensors.model(Some(&block_table)).dims(d_v)) is None,
        plan.workspaces().made_for(
            *tensors.q,
            plan_shapes(plan.meta, tensors.model(Some(&block_table)).dims(d_v)),
        ),
    ensures
        tensors.launch_error(block_table, plan, d_v) is None,
{
    new_workspaces_are_accepted(
        *tensors.q,
        plan.workspaces(),
        plan.meta,
        tensors.model(Some(&block_table)).dims(d_v),
    );
}

} // verus!
