//! Scheduler and split-KV workspaces: their shapes, validation and allocation.

use crate::candle_flashmla::error::failure;
use crate::candle_flashmla::error::from_candle;
use crate::candle_flashmla::error::invalid_arg;
use crate::candle_flashmla::error::refused;
use crate::candle_flashmla::error::Error;
use crate::candle_flashmla::error::ErrorModel;
use crate::candle_flashmla::layout::can_allocate;
use crate::candle_flashmla::layout::element_count;
use crate::candle_flashmla::layout::fits;
use crate::candle_flashmla::layout::product_from;
use crate::candle_flashmla::layout::shapes_fit_by_their_product;
use crate::candle_flashmla::layout::span;
use crate::candle_flashmla::tensor::model_of;
use crate::candle_flashmla::tensor::TensorDesc;
use crate::candle_flashmla::tensor::TensorModel;
use crate::candle_flashmla::tensor_api::dims_of;
use crate::candle_flashmla::tensor_api::dtype_of;
use crate::candle_flashmla::tensor_api::is_fresh;
use crate::candle_flashmla::tensor_api::same_device_of;
use crate::candle_flashmla::tensor_api::start_offset_of;
use crate::candle_flashmla::tensor_api::zeroed_when_made;
use crate::candle_flashmla::tensor_api::zeros;
use crate::candle_flashmla::tensor_api::DType;
use crate::candle_flashmla::tensor_api::ElementType;
use crate::error::first;
use crate::text::decimal;
use crate::text::labelled;
use crate::text::number;
use candle_core::Tensor;
use vstd::arithmetic::div_mod::lemma_fundamental_div_mod;
use vstd::prelude::*;
use vstd::string::StringExecFns;

verus! {

/// Shapes of the workspaces of a decode plan.
#[derive(Debug, Copy, Clone, PartialEq, Eq)]
pub struct WorkspaceShapes {
    /// Shape of the I32 scheduler metadata.
    pub scheduler_metadata: (usize, usize),
    /// Length of the I32 split offsets.
    pub num_splits: usize,
    /// Shape of the F32 LSE accumulation workspace.
    pub lse_accum: (usize, usize, usize),
    /// Shape of the F32 output accumulation workspace.
    pub o_accum: (usize, usize, usize, usize),
}

/// The sizes of a two-axis shape.
pub open spec fn dims2(shape: (usize, usize)) -> Seq<usize> {
    seq![shape.0, shape.1]
}

/// The sizes of a three-axis shape.
pub open spec fn dims3(shape: (usize, usize, usize)) -> Seq<usize> {
    seq![shape.0, shape.1, shape.2]
}

/// The sizes of a four-axis shape.
pub open spec fn dims4(shape: (usize, usize, usize, usize)) -> Seq<usize> {
    seq![shape.0, shape.1, shape.2, shape.3]
}

/// A length that splits evenly into rows is the element count of those rows.
pub proof fn lemma_even_rows(len: usize, rows: usize)
    requires
        rows > 0,
        len % rows == 0,
    ensures
        element_count(dims2((rows, len / rows))) == len,
{
    reveal_with_fuel(product_from, 3);
    let (n, r) = (len as int, rows as int);
    lemma_fundamental_div_mod(n, r);
    let c = n / r;
    assert(r * (c * 1) == r * c) by (nonlinear_arith);
}

/// A one-axis shape has as many elements as its axis is long.
pub proof fn lemma_vector_count(len: usize)
    ensures
        element_count(seq![len]) == len,
{
    reveal_with_fuel(product_from, 2);
    let n = len as int;
    assert(n * 1 == n) by (nonlinear_arith);
}

impl WorkspaceShapes {
    /// Whether every workspace can be allocated.
    pub open spec fn fit(self) -> bool {
        &&& fits(dims2(self.scheduler_metadata), 4)
        &&& fits(seq![self.num_splits], 4)
        &&& fits(dims3(self.lse_accum), 4)
        &&& fits(dims4(self.o_accum), 4)
    }

    /// Tests whether every workspace can be allocated.
    pub fn can_allocate(&self) -> (ok: bool)
        ensures
            ok == self.fit(),
    {
        let (parts, columns) = self.scheduler_metadata;
        let (splits, rows, heads) = self.lse_accum;
        let (o_splits, o_rows, o_heads, width) = self.o_accum;
        let scheduler = [parts, columns];
        let offsets = [self.num_splits];
        let lse = [splits, rows, heads];
        let o = [o_splits, o_rows, o_heads, width];
        assert(scheduler@ == dims2(self.scheduler_metadata));
        assert(offsets@ == seq![self.num_splits]);
        assert(lse@ == dims3(self.lse_accum));
        assert(o@ == dims4(self.o_accum));
        can_allocate(scheduler.as_slice(), 4) && can_allocate(offsets.as_slice(), 4)
            && can_allocate(lse.as_slice(), 4) && can_allocate(o.as_slice(), 4)
    }
}

/// Descriptions of the tensors of a decode plan.
#[derive(Debug, PartialEq, Eq)]
pub struct WorkspaceDescs {
    /// I32 scheduler metadata.
    pub scheduler_metadata: TensorDesc,
    /// I32 split offsets.
    pub num_splits: TensorDesc,
    /// F32 LSE accumulation workspace.
    pub lse_accum: TensorDesc,
    /// F32 output accumulation workspace.
    pub o_accum: TensorDesc,
}

/// The mathematical value of a [`WorkspaceDescs`].
pub struct WorkspaceModel {
    pub scheduler_metadata: TensorModel,
    pub num_splits: TensorModel,
    pub lse_accum: TensorModel,
    pub o_accum: TensorModel,
}

impl View for WorkspaceDescs {
    type V = WorkspaceModel;

    open spec fn view(&self) -> WorkspaceModel {
        WorkspaceModel {
            scheduler_metadata: self.scheduler_metadata@,
            num_splits: self.num_splits@,
            lse_accum: self.lse_accum@,
            o_accum: self.o_accum@,
        }
    }
}

impl WorkspaceModel {
    /// Whether each tensor has the rank and element type of its role and is next to the query.
    pub open spec fn kinds_suit(self) -> bool {
        &&& self.scheduler_metadata.axes.len() == 2
        &&& self.num_splits.axes.len() == 1
        &&& self.lse_accum.axes.len() == 3
        &&& self.o_accum.axes.len() == 4
        &&& self.scheduler_metadata.same_device
        &&& self.num_splits.same_device
        &&& self.lse_accum.same_device
        &&& self.o_accum.same_device
        &&& self.scheduler_metadata.dtype == DType::I32
        &&& self.num_splits.dtype == DType::I32
        &&& self.lse_accum.dtype == DType::F32
        &&& self.o_accum.dtype == DType::F32
    }

    /// The first tensor whose rank, device or element type is not that of its role.
    pub open spec fn kinds_error(self) -> Option<ErrorModel> {
        first(self.scheduler_metadata.rank_error(2, "scheduler_metadata"@),
        first(self.num_splits.rank_error(1, "num_splits"@),
        first(self.lse_accum.rank_error(3, "lse_accum"@),
        first(self.o_accum.rank_error(4, "o_accum"@),
        first(self.scheduler_metadata.device_error("scheduler_metadata"@),
        first(self.num_splits.device_error("num_splits"@),
        first(self.lse_accum.device_error("lse_accum"@),
        first(self.o_accum.device_error("o_accum"@),
        first(self.scheduler_metadata.dtype_error(DType::I32, "scheduler_metadata"@),
        first(self.num_splits.dtype_error(DType::I32, "num_splits"@),
        first(self.lse_accum.dtype_error(DType::F32, "lse_accum"@),
            self.o_accum.dtype_error(DType::F32, "o_accum"@))))))))))))
    }

    /// Why the scheduler metadata does not have `len` elements in `parts` rows, if it does not.
    pub open spec fn scheduler_error(self, parts: usize, len: usize) -> Option<ErrorModel> {
        let rows = self.scheduler_metadata.size(0);
        let columns = self.scheduler_metadata.size(1);
        if rows == parts && columns == len / parts {
            None
        } else {
            refused(
                "scheduler_metadata shape must be ["@ + decimal(parts as nat) + ", "@ + decimal(
                    (len / parts) as nat,
                ) + "], got ("@ + decimal(rows as nat) + ", "@ + decimal(columns as nat) + ")"@,
            )
        }
    }

    /// Why there are not `len` split offsets, if there are not.
    pub open spec fn splits_error(self, len: usize) -> Option<ErrorModel> {
        if self.num_splits.size(0) == len {
            None
        } else {
            refused(
                "num_splits length must be "@ + decimal(len as nat) + ", got "@ + decimal(
                    self.num_splits.size(0) as nat,
                ),
            )
        }
    }

    /// Whether the LSE workspace has the given shape.
    pub open spec fn lse_accum_is(self, shape: (usize, usize, usize)) -> bool {
        self.lse_accum.dims() == dims3(shape)
    }

    /// Whether the output workspace has the given shape.
    pub open spec fn o_accum_is(self, shape: (usize, usize, usize, usize)) -> bool {
        self.o_accum.dims() == dims4(shape)
    }
}

impl WorkspaceDescs {
    /// Ensures that each tensor has the rank, device and element type of its role.
    pub fn ensure_kinds(&self) -> (r: Result<(), Error>)
        ensures
            failure(r) == self@.kinds_error(),
            r is Ok <==> self@.kinds_suit(),
    {
        self.scheduler_metadata.ensure_rank(2, "scheduler_metadata")?;
        self.num_splits.ensure_rank(1, "num_splits")?;
        self.lse_accum.ensure_rank(3, "lse_accum")?;
        self.o_accum.ensure_rank(4, "o_accum")?;
        self.scheduler_metadata.ensure_same_device("scheduler_metadata")?;
        self.num_splits.ensure_same_device("num_splits")?;
        self.lse_accum.ensure_same_device("lse_accum")?;
        self.o_accum.ensure_same_device("o_accum")?;
        self.scheduler_metadata.ensure_dtype(DType::I32, "scheduler_metadata")?;
        self.num_splits.ensure_dtype(DType::I32, "num_splits")?;
        self.lse_accum.ensure_dtype(DType::F32, "lse_accum")?;
        self.o_accum.ensure_dtype(DType::F32, "o_accum")?;
        Ok(())
    }

    /// Ensures that the scheduler metadata has `len` elements in `parts` rows.
    pub fn ensure_scheduler(&self, parts: usize, len: usize) -> (r: Result<(), Error>)
        requires
            self@.scheduler_metadata.axes.len() == 2,
            parts > 0,
        ensures
            failure(r) == self@.scheduler_error(parts, len),
    {
        let rows: usize = self.scheduler_metadata.axes[0].size;
        let columns: usize = self.scheduler_metadata.axes[1].size;
        let expected: usize = len / parts;
        if rows == parts && columns == expected {
            Ok(())
        } else {
            invalid_arg(
                labelled("scheduler_metadata shape must be [", number(parts).as_str()).concat(
                    ", ",
                ).concat(number(expected).as_str()).concat("], got (").concat(
                    number(rows).as_str(),
                ).concat(", ").concat(number(columns).as_str()).concat(")"),
            )
        }
    }

    /// Ensures that there are `len` split offsets.
    pub fn ensure_splits(&self, len: usize) -> (r: Result<(), Error>)
        requires
            self@.num_splits.axes.len() == 1,
        ensures
            failure(r) == self@.splits_error(len),
    {
        let actual: usize = self.num_splits.axes[0].size;
        if actual == len {
            Ok(())
        } else {
            invalid_arg(
                labelled("num_splits length must be ", number(len).as_str()).concat(
                    ", got ",
                ).concat(number(actual).as_str()),
            )
        }
    }

    /// Tests whether the LSE workspace has the given shape.
    pub fn has_lse_accum(&self, shape: (usize, usize, usize)) -> (has: bool)
        requires
            self@.lse_accum.axes.len() == 3,
        ensures
            has == self@.lse_accum_is(shape),
    {
        let axes = &self.lse_accum.axes;
        let has = axes[0].size == shape.0 && axes[1].size == shape.1 && axes[2].size == shape.2;
        proof {
            let dims = self@.lse_accum.dims();
            assert(dims[0] == axes@[0].size && dims[1] == axes@[1].size && dims[2]
                == axes@[2].size);
            if has {
                assert(dims == dims3(shape));
            }
        }
        has
    }

    /// Tests whether the output workspace has the given shape.
    pub fn has_o_accum(&self, shape: (usize, usize, usize, usize)) -> (has: bool)
        requires
            self@.o_accum.axes.len() == 4,
        ensures
            has == self@.o_accum_is(shape),
    {
        let axes = &self.o_accum.axes;
        let has = axes[0].size == shape.0 && axes[1].size == shape.1 && axes[2].size == shape.2
            && axes[3].size == shape.3;
        proof {
            let dims = self@.o_accum.dims();
            assert(dims[0] == axes@[0].size && dims[1] == axes@[1].size && dims[2] == axes@[2].size
                && dims[3] == axes@[3].size);
            if has {
                assert(dims == dims4(shape));
            }
        }
        has
    }
}

/// The tensors of a decode plan.
#[derive(Debug)]
pub struct Workspaces {
    /// I32 scheduler metadata.
    pub scheduler_metadata: Tensor,
    /// I32 split offsets.
    pub num_splits: Tensor,
    /// F32 LSE accumulation workspace.
    pub lse_accum: Tensor,
    /// F32 output accumulation workspace.
    pub o_accum: Tensor,
}

impl Workspaces {
    /// What validation reads of the workspaces, next to the query tensor `q`.
    pub open spec fn model(self, q: Tensor) -> WorkspaceModel {
        WorkspaceModel {
            scheduler_metadata: model_of(q, self.scheduler_metadata),
            num_splits: model_of(q, self.num_splits),
            lse_accum: model_of(q, self.lse_accum),
            o_accum: model_of(q, self.o_accum),
        }
    }

    /// Whether these are new tensors of the given shapes on the device of `q`.
    pub open spec fn made_for(self, q: Tensor, shapes: WorkspaceShapes) -> bool {
        &&& is_fresh(
            self.scheduler_metadata,
            q,
            dims2(shapes.scheduler_metadata),
            ElementType::I32,
        )
        &&& is_fresh(self.num_splits, q, seq![shapes.num_splits], ElementType::I32)
        &&& is_fresh(self.lse_accum, q, dims3(shapes.lse_accum), ElementType::F32)
        &&& is_fresh(self.o_accum, q, dims4(shapes.o_accum), ElementType::F32)
    }

    /// Allocates the workspaces of a decode plan on the device of `q`.
    ///
    /// Whether the device has the memory is for Candle to say: only its own error can come back.
    pub fn allocate(q: &Tensor, shapes: WorkspaceShapes) -> (r: Result<Workspaces, Error>)
        requires
            shapes.fit(),
        ensures
            match r {
                Ok(workspaces) => workspaces.made_for(*q, shapes),
                Err(e) => e is Candle,
            },
    {
        let (parts, columns) = shapes.scheduler_metadata;
        let (splits, rows, heads) = shapes.lse_accum;
        let (o_splits, o_rows, o_heads, width) = shapes.o_accum;
        let scheduler = [parts, columns];
        let offsets = [shapes.num_splits];
        let lse = [splits, rows, heads];
        let o = [o_splits, o_rows, o_heads, width];
        assert(scheduler@ == dims2(shapes.scheduler_metadata));
        assert(offsets@ == seq![shapes.num_splits]);
        assert(lse@ == dims3(shapes.lse_accum));
        assert(o@ == dims4(shapes.o_accum));
        Ok(
            Workspaces {
                scheduler_metadata: from_candle(
                    zeros(scheduler.as_slice(), ElementType::I32, q),
                )?,
                num_splits: from_candle(zeros(offsets.as_slice(), ElementType::I32, q))?,
                lse_accum: from_candle(zeros(lse.as_slice(), ElementType::F32, q))?,
                o_accum: from_candle(zeros(o.as_slice(), ElementType::F32, q))?,
            },
        )
    }
}

/// New workspaces are next to the query, made of zeros, of the shapes that were asked for, of I32
/// elements for the scheduler and of F32 elements for the accumulation.
pub proof fn new_workspaces_have_their_shapes(q: Tensor, w: Workspaces, shapes: WorkspaceShapes)
    requires
        w.made_for(q, shapes),
    ensures
        dims_of(w.scheduler_metadata) == seq![
            shapes.scheduler_metadata.0,
            shapes.scheduler_metadata.1,
        ],
        dims_of(w.num_splits) == seq![shapes.num_splits],
        dims_of(w.lse_accum) == seq![shapes.lse_accum.0, shapes.lse_accum.1, shapes.lse_accum.2],
        dims_of(w.o_accum) == seq![
            shapes.o_accum.0,
            shapes.o_accum.1,
            shapes.o_accum.2,
            shapes.o_accum.3,
        ],
        dtype_of(w.scheduler_metadata) == DType::I32 && dtype_of(w.num_splits) == DType::I32,
        dtype_of(w.lse_accum) == DType::F32 && dtype_of(w.o_accum) == DType::F32,
        same_device_of(q, w.scheduler_metadata) && same_device_of(q, w.num_splits),
        same_device_of(q, w.lse_accum) && same_device_of(q, w.o_accum),
        zeroed_when_made(w.scheduler_metadata) && zeroed_when_made(w.num_splits),
        zeroed_when_made(w.lse_accum) && zeroed_when_made(w.o_accum),
        start_offset_of(w.scheduler_metadata) == 0 && start_offset_of(w.num_splits) == 0,
        start_offset_of(w.lse_accum) == 0 && start_offset_of(w.o_accum) == 0,
{
}

/// Workspaces can be allocated if and only if four bytes for each element of each of them can be
/// addressed, where an empty axis counts as a single position.
pub proof fn workspaces_have_to_be_addressable(shapes: WorkspaceShapes)
    ensures
        shapes.fit() <==> {
            let (parts, columns) = shapes.scheduler_metadata;
            let (splits, rows, heads) = shapes.lse_accum;
            let (o_splits, o_rows, o_heads, width) = shapes.o_accum;
            &&& span(parts) * span(columns) * 4 <= isize::MAX
            &&& span(shapes.num_splits) * 4 <= isize::MAX
            &&& span(splits) * span(rows) * span(heads) * 4 <= isize::MAX
            &&& span(o_splits) * span(o_rows) * span(o_heads) * span(width) * 4 <= isize::MAX
        },
{
    let (parts, columns) = shapes.scheduler_metadata;
    let (splits, rows, heads) = shapes.lse_accum;
    let (o_splits, o_rows, o_heads, width) = shapes.o_accum;
    shapes_fit_by_their_product(parts, columns, 1, 1, 4);
    shapes_fit_by_their_product(shapes.num_splits, 1, 1, 1, 4);
    shapes_fit_by_their_product(splits, rows, heads, 1, 4);
    shapes_fit_by_their_product(o_splits, o_rows, o_heads, width, 4);
}

/// The value of the descriptions of a plan has each workspace in its role.
pub proof fn descriptions_are_taken_as_they_are(descs: WorkspaceDescs)
    ensures
        descs@.scheduler_metadata == descs.scheduler_metadata@,
        descs@.num_splits == descs.num_splits@,
        descs@.lse_accum == descs.lse_accum@,
        descs@.o_accum == descs.o_accum@,
{
}

} // verus!
