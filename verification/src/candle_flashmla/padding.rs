//! Padding of query heads to the head counts of the kernels, and its removal.

use crate::arch::Arch;
use crate::candle_flashmla::error::from_candle;
use crate::candle_flashmla::error::Error;
use crate::candle_flashmla::layout::agree;
use crate::candle_flashmla::layout::copy_capacity;
use crate::candle_flashmla::layout::copy_fits;
use crate::candle_flashmla::layout::exchanged;
use crate::candle_flashmla::layout::extent_from;
use crate::candle_flashmla::layout::fits;
use crate::candle_flashmla::layout::in_bounds;
use crate::candle_flashmla::layout::is_contiguous;
use crate::candle_flashmla::layout::is_row_major;
use crate::candle_flashmla::layout::is_transposed;
use crate::candle_flashmla::layout::lemma_capacity;
use crate::candle_flashmla::layout::lemma_exchanged_extent;
use crate::candle_flashmla::layout::lemma_longer_axis;
use crate::candle_flashmla::layout::lemma_rows_extent;
use crate::candle_flashmla::layout::lemma_single_position_exchange;
use crate::candle_flashmla::layout::lemma_vector_extent;
use crate::candle_flashmla::layout::position;
use crate::candle_flashmla::layout::replaces_rows;
use crate::candle_flashmla::layout::shows_from;
use crate::candle_flashmla::tensor_api::contiguous;
use crate::candle_flashmla::tensor_api::dims_of;
use crate::candle_flashmla::tensor_api::dtype_of;
use crate::candle_flashmla::tensor_api::elements_of;
use crate::candle_flashmla::tensor_api::lengthened;
use crate::candle_flashmla::tensor_api::narrow;
use crate::candle_flashmla::tensor_api::pad_with_zeros;
use crate::candle_flashmla::tensor_api::same_device_of;
use crate::candle_flashmla::tensor_api::slice_scatter0;
use crate::candle_flashmla::tensor_api::start_offset_of;
use crate::candle_flashmla::tensor_api::strides_of;
use crate::candle_flashmla::tensor_api::tensor_dims;
use crate::candle_flashmla::tensor_api::tensor_dtype;
use crate::candle_flashmla::tensor_api::transpose;
use crate::candle_flashmla::tensor_api::zeros;
use crate::candle_flashmla::tensor_api::zeros_from;
use crate::candle_flashmla::tensor_api::DType;
use crate::candle_flashmla::tensor_api::ElementType;
use candle_core::Tensor;
use vstd::prelude::*;

verus! {

/// The number of query heads to which `arch` pads smaller head counts.
pub open spec fn full_heads(arch: Arch) -> usize {
    match arch {
        Arch::Sm90a => 64,
        Arch::Sm100f => 128,
    }
}

/// The number of query heads of a launch on `h_q` heads: head counts that the kernels do not take
/// are padded where padding is asked for. A head count that is too large to be padded stays as it
/// is.
pub open spec fn padded_heads(h_q: usize, pad: bool, arch: Arch) -> usize {
    if pad && h_q != 64 && h_q != 128 && 0 < h_q < full_heads(arch) {
        full_heads(arch)
    } else {
        h_q
    }
}

/// Computes the number of query heads of a launch on `h_q` heads.
pub fn launched_heads(h_q: usize, pad: bool, arch: Arch) -> (heads: usize)
    ensures
        heads == padded_heads(h_q, pad, arch),
{
    if !pad || h_q == 64 || h_q == 128 || h_q == 0 {
        return h_q;
    }
    let full: usize = match arch {
        Arch::Sm90a => 64,
        Arch::Sm100f => 128,
    };
    if h_q < full {
        full
    } else {
        h_q
    }
}

/// Whether only the architecture decides if padding leads from `h_q` heads to a head count of the
/// kernels.
pub open spec fn padding_undecided(h_q: usize, pad: bool) -> bool {
    pad && 64 < h_q < 128
}

/// An undecided head count can be padded on SM100 and not on SM90. Every other one can be padded on
/// both or on neither.
pub proof fn architectures_agree_on_decided_heads(h_q: usize, pad: bool)
    ensures
        ({
            let sm90 = padded_heads(h_q, pad, Arch::Sm90a);
            let sm100 = padded_heads(h_q, pad, Arch::Sm100f);
            &&& padding_undecided(h_q, pad) ==> sm90 == h_q && sm100 == 128
            &&& !padding_undecided(h_q, pad) ==> (sm90 == 64 || sm90 == 128 <==> sm100 == 64
                || sm100 == 128)
        }),
{
}

/// Tests whether the number of query heads of a launch depends on the architecture.
pub fn heads_depend_on_arch(h_q: usize, pad: bool) -> (depends: bool)
    ensures
        depends == (padded_heads(h_q, pad, Arch::Sm90a) != padded_heads(h_q, pad, Arch::Sm100f)),
{
    pad && 0 < h_q && h_q < 128 && h_q != 64
}

/// Padding never takes heads away. It leads to a head count of the kernels exactly where there are
/// at most as many heads as the architecture pads to, or the head count is one of the kernels
/// already.
pub proof fn padding_reaches_the_kernels(h_q: usize, arch: Arch)
    ensures
        padded_heads(h_q, true, arch) >= h_q,
        padded_heads(h_q, true, arch) == 64 || padded_heads(h_q, true, arch) == 128 <==> (0 < h_q
            <= full_heads(arch) || h_q == 128),
{
}

/// Padding what was padded changes nothing, and without padding nothing changes either.
pub proof fn padding_settles(h_q: usize, pad: bool, arch: Arch)
    ensures
        padded_heads(padded_heads(h_q, pad, arch), pad, arch) == padded_heads(h_q, pad, arch),
        padded_heads(h_q, false, arch) == h_q,
{
}

/// Whether `u` is `t` with its axis `axis` lengthened to `size` positions: a row-major copy next to
/// `t` in which the elements of `t` keep their indices and the new positions hold zeros.
pub open spec fn is_padded(u: Tensor, t: Tensor, axis: int, size: usize) -> bool {
    &&& dims_of(u) == dims_of(t).update(axis, size)
    &&& agree(elements_of(t), dims_of(t), elements_of(u), dims_of(u))
    &&& zeros_from(elements_of(u), dims_of(u), axis, dims_of(t)[axis])
    &&& is_row_major(dims_of(u), strides_of(u))
    &&& dtype_of(u) == dtype_of(t)
    &&& start_offset_of(u) == 0
    &&& forall|q: Tensor| #[trigger] same_device_of(q, u) == same_device_of(q, t)
}

/// Whether `u` is the padded copy of `t` that gives its axis `axis` the given size, and is left out
/// where the axis has that size already.
pub open spec fn pads(u: Option<Tensor>, t: Tensor, axis: int, size: usize) -> bool {
    match u {
        Some(padded) => dims_of(t)[axis] < size && is_padded(padded, t, axis, size),
        None => dims_of(t)[axis] == size,
    }
}

/// The shape of the smallest parts of a tensor of shape `longer` that are padded on their own along
/// the axis `axis`: along the axes before it, but for the first two, parts are not taken apart.
pub open spec fn part_dims(longer: Seq<usize>, axis: int) -> Seq<usize> {
    if axis == 0 {
        longer
    } else if axis == 1 {
        longer.update(0, 1)
    } else {
        longer.update(0, 1).update(1, 1)
    }
}

/// Whether the axis `axis` of `t` can be lengthened to `size` positions with copies of at most
/// `limit` elements: no axis is empty, the longer tensor can be allocated, and one copy can take its
/// smallest parts.
pub open spec fn can_be_padded(t: Tensor, axis: int, size: usize, limit: u32) -> bool {
    let longer = dims_of(t).update(axis, size);
    &&& forall|i: int| 0 <= i < dims_of(t).len() ==> #[trigger] dims_of(t)[i] > 0
    &&& dtype_of(t) == DType::BF16 || dtype_of(t) == DType::F32
    &&& fits(longer, dtype_of(t).bytes())
    &&& extent_from(part_dims(longer, axis), 0) <= limit
}

/// Lengthens the axis `axis` of `t` to `size` positions in one copy.
fn pad_at_once(t: &Tensor, axis: usize, size: usize) -> (r: Result<Tensor, Error>)
    requires
        axis < dims_of(*t).len(),
        dims_of(*t)[axis as int] < size,
        forall|i: int| 0 <= i < dims_of(*t).len() ==> #[trigger] dims_of(*t)[i] > 0,
        dtype_of(*t) == DType::BF16 || dtype_of(*t) == DType::F32,
        copy_fits(dims_of(*t).update(axis as int, size), dtype_of(*t).bytes()),
    ensures
        match r {
            Ok(u) => is_padded(u, *t, axis as int, size),
            Err(e) => e is Candle,
        },
{
    let given: usize = tensor_dims(t)[axis];
    proof {
        let dims = dims_of(*t);
        lemma_longer_axis(dims, axis as int, size, 0);
        assert(lengthened(dims, axis, (size - given) as usize) == dims.update(axis as int, size));
        let extent = extent_from(dims, 0);
        let longer = extent_from(dims.update(axis as int, size), 0);
        let bytes = dtype_of(*t).bytes();
        assert(extent * bytes <= longer * bytes) by (nonlinear_arith)
            requires
                extent <= longer,
        ;
    }
    let dense = from_candle(contiguous(t))?;
    from_candle(pad_with_zeros(&dense, axis, size - given))
}

/// Whether the first `rows` rows of the elements `after` of a tensor of shape `longer` hold the
/// elements `before` of a tensor of shape `dims` at their indices, and zeros beyond its positions
/// along the axis `axis`.
pub open spec fn pads_rows(
    after: Seq<int>,
    longer: Seq<usize>,
    before: Seq<int>,
    dims: Seq<usize>,
    axis: int,
    rows: int,
) -> bool {
    forall|index: Seq<int>|
        #![trigger position(longer, index)]
        in_bounds(longer, index) && index[0] < rows ==> after[position(longer, index)] == (
        if index[axis] < dims[axis] {
            before[position(dims, index)]
        } else {
            0
        })
}

/// Putting the padded rows from `done` on in their places pads `n` more rows.
proof fn lemma_more_rows(
    t: Tensor,
    axis: int,
    size: usize,
    view: Tensor,
    piece: Tensor,
    before: Tensor,
    after: Tensor,
    done: usize,
    n: usize,
)
    requires
        0 < axis < dims_of(t).len(),
        dims_of(t)[axis] < size,
        done + n <= dims_of(t)[0],
        dims_of(view) == dims_of(t).update(0, n),
        shows_from(elements_of(view), dims_of(view), elements_of(t), dims_of(t), 0, done),
        dims_of(piece) == dims_of(view).update(axis, size),
        agree(elements_of(view), dims_of(view), elements_of(piece), dims_of(piece)),
        zeros_from(elements_of(piece), dims_of(piece), axis, dims_of(t)[axis]),
        pads_rows(
            elements_of(before),
            dims_of(t).update(axis, size),
            elements_of(t),
            dims_of(t),
            axis,
            done as int,
        ),
        replaces_rows(
            elements_of(after),
            elements_of(before),
            dims_of(t).update(axis, size),
            elements_of(piece),
            dims_of(piece),
            done,
        ),
    ensures
        pads_rows(
            elements_of(after),
            dims_of(t).update(axis, size),
            elements_of(t),
            dims_of(t),
            axis,
            done + n,
        ),
{
    let dims = dims_of(t);
    let longer = dims.update(axis, size);
    let view_dims = dims_of(view);
    let piece_dims = dims_of(piece);
    assert forall|index: Seq<int>|
        #![trigger position(longer, index)]
        in_bounds(longer, index) && index[0] < done + n implies elements_of(after)[position(
        longer,
        index,
    )] == (if index[axis] < dims[axis] {
        elements_of(t)[position(dims, index)]
    } else {
        0
    }) by {
        if index[0] >= done {
            let local = index.update(0, index[0] - done);
            assert(in_bounds(piece_dims, local)) by {
                assert forall|i: int| 0 <= i < piece_dims.len() implies 0 <= #[trigger] local[i]
                    < piece_dims[i] by {
                    assert(0 <= index[i] < longer[i]);
                }
            }
            assert(elements_of(after)[position(longer, index)] == elements_of(piece)[position(
                piece_dims,
                local,
            )]);
            if index[axis] < dims[axis] {
                assert(in_bounds(view_dims, local)) by {
                    assert forall|i: int| 0 <= i < view_dims.len() implies 0 <= #[trigger] local[i]
                        < view_dims[i] by {
                        assert(0 <= index[i] < longer[i]);
                    }
                }
                assert(elements_of(view)[position(view_dims, local)] == elements_of(
                    piece,
                )[position(piece_dims, local)]);
                assert(local.update(0, local[0] + done) == index);
            }
        }
    }
}

/// Once all rows are padded, the whole tensor is.
proof fn lemma_all_rows(
    after: Seq<int>,
    longer: Seq<usize>,
    before: Seq<int>,
    dims: Seq<usize>,
    axis: int,
)
    requires
        0 < axis < dims.len(),
        longer == dims.update(axis, longer[axis]),
        dims[axis] <= longer[axis],
        pads_rows(after, longer, before, dims, axis, dims[0] as int),
    ensures
        agree(before, dims, after, longer),
        zeros_from(after, longer, axis, dims[axis]),
{
    assert forall|index: Seq<int>|
        #![trigger position(dims, index)]
        #![trigger position(longer, index)]
        in_bounds(dims, index) implies before[position(dims, index)] == after[position(
        longer,
        index,
    )] by {
        assert forall|i: int| 0 <= i < longer.len() implies 0 <= #[trigger] index[i]
            < longer[i] by {
            assert(0 <= index[i] < dims[i]);
        }
        assert(0 <= index[0] < dims[0]);
        assert(0 <= index[axis] < dims[axis]);
        assert(in_bounds(longer, index));
    }
    assert forall|index: Seq<int>|
        in_bounds(longer, index) && index[axis] >= dims[axis] implies after[#[trigger] position(
        longer,
        index,
    )] == 0 by {
        assert(0 <= index[0] < longer[0]);
    }
}

/// The element type of a BF16 or F32 tensor.
fn element_type(t: &Tensor) -> (element: ElementType)
    requires
        dtype_of(*t) == DType::BF16 || dtype_of(*t) == DType::F32,
    ensures
        element.dtype() == dtype_of(*t),
{
    match tensor_dtype(t) {
        DType::F32 => ElementType::F32,
        _ => ElementType::BF16,
    }
}

/// Lengthens the axis `axis` of `t` to `size` positions, as many rows at a time as one copy of at
/// most `limit` elements can take.
fn pad_by_rows(t: &Tensor, axis: usize, size: usize, limit: u32) -> (r: Result<
    Tensor,
    Error,
>)
    requires
        0 < axis < dims_of(*t).len(),
        dims_of(*t)[axis as int] < size,
        can_be_padded(*t, axis as int, size, limit),
        extent_from(dims_of(*t).update(axis as int, size).update(0, 1), 0) <= limit,
    ensures
        match r {
            Ok(u) => is_padded(u, *t, axis as int, size),
            Err(e) => e is Candle,
        },
{
    let ghost dims = dims_of(*t);
    let ghost longer = dims.update(axis as int, size);
    let mut shape = tensor_dims(t);
    let rows: usize = shape[0];
    shape.set(axis, size);
    let mut row = tensor_dims(t);
    row.set(axis, size);
    row.set(0, 1);
    assert(shape@ == longer);
    assert(row@ == longer.update(0, 1));
    let most: usize = copy_capacity(row.as_slice(), limit);
    proof {
        lemma_capacity(extent_from(row@, 0), limit, 0);
    }
    let mut padded = from_candle(zeros(shape.as_slice(), element_type(t), t))?;
    let mut done: usize = 0;
    while done < rows
        invariant
            0 < axis < dims.len(),
            dims == dims_of(*t),
            dims[axis as int] < size,
            longer == dims.update(axis as int, size),
            rows == dims[0],
            can_be_padded(*t, axis as int, size, limit),
            most as nat == limit as nat / extent_from(longer.update(0, 1), 0),
            most > 0,
            done <= rows,
            dims_of(padded) == longer,
            is_row_major(longer, strides_of(padded)),
            dtype_of(padded) == dtype_of(*t),
            start_offset_of(padded) == 0,
            forall|q: Tensor| #[trigger] same_device_of(q, padded) == same_device_of(q, *t),
            pads_rows(
                elements_of(padded),
                longer,
                elements_of(*t),
                dims,
                axis as int,
                done as int,
            ),
        decreases rows - done,
    {
        let n: usize = if most < rows - done {
            most
        } else {
            rows - done
        };
        let view = from_candle(narrow(t, 0, done, n))?;
        proof {
            assert(dims_of(view).update(axis as int, size) == longer.update(0, n));
            lemma_rows_extent(longer, n);
            lemma_rows_extent(longer, rows);
            assert(longer.update(0, rows) == longer);
            let one = extent_from(longer.update(0, 1), 0);
            let bytes = dtype_of(*t).bytes();
            lemma_capacity(one, limit, n as nat);
            assert(n * one * bytes <= rows * one * bytes) by (nonlinear_arith)
                requires
                    n <= rows,
            ;
        }
        let piece = pad_at_once(&view, axis, size)?;
        let before = padded;
        assert(dims_of(piece) == longer.update(0, n));
        padded = from_candle(slice_scatter0(&before, &piece, done))?;
        proof {
            lemma_more_rows(*t, axis as int, size, view, piece, before, padded, done, n);
        }
        done = done + n;
    }
    proof {
        lemma_all_rows(elements_of(padded), longer, elements_of(*t), dims, axis as int);
    }
    Ok(padded)
}

/// Padding a tensor whose first two axes changed places, and exchanging them back, is padding it.
proof fn lemma_turned_padding(
    view: Tensor,
    turned: Tensor,
    padded: Tensor,
    piece: Tensor,
    axis: int,
    size: usize,
)
    requires
        2 <= axis < dims_of(view).len(),
        dims_of(view)[axis] <= size,
        dims_of(turned) == exchanged(dims_of(view), 0, 1),
        is_transposed(elements_of(view), dims_of(view), elements_of(turned), 0, 1),
        is_padded(padded, turned, axis, size),
        dims_of(piece) == exchanged(dims_of(padded), 0, 1),
        is_transposed(elements_of(padded), dims_of(padded), elements_of(piece), 0, 1),
    ensures
        dims_of(piece) == dims_of(view).update(axis, size),
        agree(elements_of(view), dims_of(view), elements_of(piece), dims_of(piece)),
        zeros_from(elements_of(piece), dims_of(piece), axis, dims_of(view)[axis]),
{
    let before = dims_of(view);
    let after = dims_of(piece);
    let between = dims_of(padded);
    assert(after == before.update(axis, size));
    assert(exchanged(between, 0, 1) == after);
    assert forall|index: Seq<int>|
        #![trigger position(before, index)]
        #![trigger position(after, index)]
        in_bounds(before, index) implies elements_of(view)[position(before, index)]
        == elements_of(piece)[position(after, index)] by {
        let other = exchanged(index, 0, 1);
        assert(exchanged(other, 0, 1) == index);
        assert(in_bounds(dims_of(turned), other)) by {
            assert(0 <= index[0] < before[0] && 0 <= index[1] < before[1]);
            assert forall|i: int| 0 <= i < before.len() implies 0 <= #[trigger] other[i]
                < dims_of(turned)[i] by {
                assert(0 <= index[i] < before[i]);
            }
        }
        assert(elements_of(turned)[position(dims_of(turned), other)] == elements_of(
            padded,
        )[position(between, other)]);
        assert(in_bounds(between, other)) by {
            assert forall|i: int| 0 <= i < between.len() implies 0 <= #[trigger] other[i]
                < between[i] by {
                assert(0 <= other[i] < dims_of(turned)[i]);
            }
        }
    }
    assert forall|index: Seq<int>|
        in_bounds(after, index) && index[axis] >= before[axis] implies elements_of(
        piece,
    )[#[trigger] position(after, index)] == 0 by {
        let other = exchanged(index, 0, 1);
        assert(exchanged(other, 0, 1) == index);
        assert(in_bounds(between, other)) by {
            assert(0 <= index[0] < after[0] && 0 <= index[1] < after[1]);
            assert forall|i: int| 0 <= i < after.len() implies 0 <= #[trigger] other[i]
                < between[i] by {
                assert(0 <= index[i] < after[i]);
            }
        }
        assert(elements_of(padded)[position(between, other)] == 0);
    }
}

/// Lengthens the axis `axis` of `t`, a tensor of one row, to `size` positions. Its second axis is
/// taken apart as that of other tensors' rows: with a single row the first two axes can change
/// places.
fn pad_one_row(t: &Tensor, axis: usize, size: usize, limit: u32) -> (r: Result<
    Tensor,
    Error,
>)
    requires
        2 <= axis < dims_of(*t).len(),
        dims_of(*t)[0] == 1,
        dims_of(*t)[axis as int] < size,
        can_be_padded(*t, axis as int, size, limit),
    ensures
        match r {
            Ok(u) => {
                &&& dims_of(u) == dims_of(*t).update(axis as int, size)
                &&& agree(elements_of(*t), dims_of(*t), elements_of(u), dims_of(u))
                &&& zeros_from(
                    elements_of(u),
                    dims_of(u),
                    axis as int,
                    dims_of(*t)[axis as int],
                )
                &&& is_contiguous(dims_of(u), strides_of(u))
                &&& dtype_of(u) == dtype_of(*t)
            },
            Err(e) => e is Candle,
        },
{
    let turned = from_candle(transpose(t, 0, 1))?;
    proof {
        let longer = dims_of(*t).update(axis as int, size);
        let turned_longer = dims_of(turned).update(axis as int, size);
        assert(exchanged(longer, 0, 1) == turned_longer);
        lemma_exchanged_extent(longer, 0, 0);
        assert(turned_longer.update(0, 1) == part_dims(longer, axis as int));
        assert(part_dims(turned_longer, axis as int) == part_dims(longer, axis as int));
        assert forall|i: int| 0 <= i < dims_of(turned).len() implies #[trigger] dims_of(turned)[i]
            > 0 by {
            assert(dims_of(*t)[0] > 0 && dims_of(*t)[1] > 0 && dims_of(*t)[i] > 0);
        }
    }
    let padded = pad_by_rows(&turned, axis, size, limit)?;
    let piece = from_candle(transpose(&padded, 0, 1))?;
    proof {
        lemma_turned_padding(*t, turned, padded, piece, axis as int, size);
        lemma_single_position_exchange(dims_of(padded), strides_of(padded), 0);
    }
    Ok(piece)
}

/// Lengthens the axis `axis` of `t` to `size` positions, one row at a time, with copies of at most
/// `limit` elements.
fn pad_each_row(t: &Tensor, axis: usize, size: usize, limit: u32) -> (r: Result<
    Tensor,
    Error,
>)
    requires
        2 <= axis < dims_of(*t).len(),
        dims_of(*t)[axis as int] < size,
        can_be_padded(*t, axis as int, size, limit),
    ensures
        match r {
            Ok(u) => is_padded(u, *t, axis as int, size),
            Err(e) => e is Candle,
        },
{
    let ghost dims = dims_of(*t);
    let ghost longer = dims.update(axis as int, size);
    let mut shape = tensor_dims(t);
    let rows: usize = shape[0];
    shape.set(axis, size);
    assert(shape@ == longer);
    let mut padded = from_candle(zeros(shape.as_slice(), element_type(t), t))?;
    let mut done: usize = 0;
    while done < rows
        invariant
            2 <= axis < dims.len(),
            dims == dims_of(*t),
            dims[axis as int] < size,
            longer == dims.update(axis as int, size),
            rows == dims[0],
            can_be_padded(*t, axis as int, size, limit),
            done <= rows,
            dims_of(padded) == longer,
            is_row_major(longer, strides_of(padded)),
            dtype_of(padded) == dtype_of(*t),
            start_offset_of(padded) == 0,
            forall|q: Tensor| #[trigger] same_device_of(q, padded) == same_device_of(q, *t),
            pads_rows(
                elements_of(padded),
                longer,
                elements_of(*t),
                dims,
                axis as int,
                done as int,
            ),
        decreases rows - done,
    {
        let view = from_candle(narrow(t, 0, done, 1))?;
        proof {
            let one = longer.update(0, 1);
            assert(dims_of(view).update(axis as int, size) == one);
            assert(part_dims(one, axis as int) == part_dims(longer, axis as int));
            lemma_longer_axis(one, 0, rows, 0);
            assert(one.update(0, rows) == longer);
            let (a, b) = (extent_from(one, 0), extent_from(longer, 0));
            let bytes = dtype_of(*t).bytes();
            assert(a * bytes <= b * bytes) by (nonlinear_arith)
                requires
                    a <= b,
            ;
        }
        let piece = pad_one_row(&view, axis, size, limit)?;
        let before = padded;
        padded = from_candle(slice_scatter0(&before, &piece, done))?;
        proof {
            lemma_more_rows(*t, axis as int, size, view, piece, before, padded, done, 1);
        }
        done = done + 1;
    }
    proof {
        lemma_all_rows(elements_of(padded), longer, elements_of(*t), dims, axis as int);
    }
    Ok(padded)
}

/// Lengthens the axis `axis` of `t` to `size` positions where it is shorter, with copies of at most
/// `limit` elements.
///
/// Whether the device has the memory for the copies is for Candle to say: only its own error can
/// come back.
pub fn pad_axis_within(t: &Tensor, axis: usize, size: usize, limit: u32) -> (r: Result<
    Option<Tensor>,
    Error,
>)
    requires
        axis < dims_of(*t).len(),
        dims_of(*t)[axis as int] <= size,
        dims_of(*t)[axis as int] < size ==> can_be_padded(*t, axis as int, size, limit),
    ensures
        match r {
            Ok(u) => pads(u, *t, axis as int, size),
            Err(e) => e is Candle,
        },
        dims_of(*t)[axis as int] == size ==> r is Ok,
{
    let mut shape = tensor_dims(t);
    if shape[axis] == size {
        return Ok(None);
    }
    shape.set(axis, size);
    assert(shape@ == dims_of(*t).update(axis as int, size));
    let whole: usize = copy_capacity(shape.as_slice(), limit);
    proof {
        lemma_capacity(extent_from(shape@, 0), limit, 0);
    }
    if axis == 0 || whole > 0 {
        return Ok(Some(pad_at_once(t, axis, size)?));
    }
    shape.set(0, 1);
    let rows: usize = copy_capacity(shape.as_slice(), limit);
    proof {
        lemma_capacity(extent_from(shape@, 0), limit, 0);
    }
    if axis == 1 || rows > 0 {
        return Ok(Some(pad_by_rows(t, axis, size, limit)?));
    }
    Ok(Some(pad_each_row(t, axis, size, limit)?))
}

/// Lengthens the axis `axis` of `t` to `size` positions where it is shorter.
///
/// Whether the device has the memory for the copies is for Candle to say: only its own error can
/// come back.
pub fn pad_axis(t: &Tensor, axis: usize, size: usize) -> (r: Result<Option<Tensor>, Error>)
    requires
        axis < dims_of(*t).len(),
        dims_of(*t)[axis as int] <= size,
        dims_of(*t)[axis as int] < size ==> can_be_padded(*t, axis as int, size, u32::MAX),
    ensures
        match r {
            Ok(u) => pads(u, *t, axis as int, size),
            Err(e) => e is Candle,
        },
        dims_of(*t)[axis as int] == size ==> r is Ok,
{
    pad_axis_within(t, axis, size, u32::MAX)
}

/// One block copy can take all heads of a query position, of as many heads as a kernel takes.
pub proof fn lemma_heads_fit(longer: Seq<usize>, axis: int)
    requires
        1 <= axis <= 2,
        longer.len() == axis + 2,
        longer[axis] <= 128,
        longer[axis + 1] <= 576,
    ensures
        extent_from(part_dims(longer, axis), 0) <= u32::MAX,
{
    let part = part_dims(longer, axis);
    let h: nat = if part[axis] == 0 {
        1
    } else {
        part[axis] as nat
    };
    let d: nat = if part[axis + 1] == 0 {
        1
    } else {
        part[axis + 1] as nat
    };
    assert(extent_from(part, axis + 2) == 1);
    assert(extent_from(part, axis + 1) == d * 1);
    assert(extent_from(part, axis) == h * d);
    assert(extent_from(part, axis - 1) == 1 * (h * d));
    assert(extent_from(part, 0) == h * d);
    assert(h * d <= 128 * 576) by (nonlinear_arith)
        requires
            h <= 128,
            d <= 576,
    ;
}

/// An attention sink of as many heads as a kernel takes can be the target of a copy.
pub proof fn lemma_sink_fits(heads: usize)
    requires
        heads <= 128,
    ensures
        copy_fits(seq![heads], 4),
{
    lemma_vector_extent(heads);
}

/// Lengthens the optional F32 attention sink of `given` heads to `heads` heads where it is shorter.
///
/// Whether the device has the memory for the copy is for Candle to say: only its own error can
/// come back.
pub fn pad_sink(sink: Option<&Tensor>, given: usize, heads: usize) -> (r: Result<
    Option<Tensor>,
    Error,
>)
    requires
        sink matches Some(t) ==> dims_of(*t) == seq![given] && dtype_of(*t) == DType::F32,
        given <= heads,
        given < heads ==> 0 < given && copy_fits(seq![heads], 4),
    ensures
        match r {
            Ok(padded) => match sink {
                Some(t) => pads(padded, *t, 0, heads),
                None => padded is None,
            },
            Err(e) => e is Candle,
        },
        given == heads || sink is None ==> r is Ok,
{
    match sink {
        Some(t) => {
            proof {
                assert(dims_of(*t).update(0, heads) == seq![heads]);
                assert(dtype_of(*t).bytes() == 4);
            }
            pad_axis(t, 0, heads)
        },
        None => Ok(None),
    }
}

/// Whether `u` is the view of `t` in which the axis `axis` ends after `len` positions.
pub open spec fn is_front(u: Tensor, t: Tensor, axis: int, len: usize) -> bool {
    &&& dims_of(u) == dims_of(t).update(axis, len)
    &&& strides_of(u) == strides_of(t)
    &&& agree(elements_of(u), dims_of(u), elements_of(t), dims_of(t))
    &&& dtype_of(u) == dtype_of(t)
    &&& start_offset_of(u) == start_offset_of(t)
    &&& forall|q: Tensor| #[trigger] same_device_of(q, u) == same_device_of(q, t)
}

/// The view of `t` in which the axis `axis` ends after `len` positions. Where it has no more, that
/// is `t` itself.
pub fn slice_axis(t: Tensor, axis: usize, len: usize) -> (r: Result<Tensor, Error>)
    requires
        axis < dims_of(t).len(),
        len <= dims_of(t)[axis as int],
    ensures
        r matches Ok(u) && is_front(u, t, axis as int, len) && (dims_of(t)[axis as int] == len
            ==> u == t),
{
    let given: usize = tensor_dims(&t)[axis];
    if given == len {
        assert(dims_of(t).update(axis as int, len) == dims_of(t));
        return Ok(t);
    }
    let front = from_candle(narrow(&t, axis, 0, len))?;
    proof {
        let (dims, before) = (dims_of(front), dims_of(t));
        assert forall|index: Seq<int>|
            #![trigger position(dims, index)]
            #![trigger position(before, index)]
            in_bounds(dims, index) implies elements_of(front)[position(dims, index)]
            == elements_of(t)[position(before, index)] by {
            assert(index.update(axis as int, index[axis as int] + 0) == index);
        }
    }
    Ok(front)
}

/// Slicing a padded tensor back shows the elements that were padded.
pub proof fn slicing_undoes_padding(
    t: Tensor,
    padded: Tensor,
    back: Tensor,
    axis: int,
    size: usize,
)
    requires
        0 <= axis < dims_of(t).len(),
        is_padded(padded, t, axis, size),
        is_front(back, padded, axis, dims_of(t)[axis]),
    ensures
        dims_of(back) == dims_of(t),
        agree(elements_of(back), dims_of(back), elements_of(t), dims_of(t)),
        dtype_of(back) == dtype_of(t),
{
    assert(dims_of(back) == dims_of(t));
}

/// A padded tensor holds the given elements at their indices and zeros at the new ones. There is one
/// only where the axis was shorter than the size that is asked for.
pub proof fn padding_keeps_elements_and_adds_zeros(
    padded: Option<Tensor>,
    t: Tensor,
    axis: int,
    size: usize,
    index: Seq<int>,
)
    requires
        0 <= axis < dims_of(t).len(),
        pads(padded, t, axis, size),
    ensures
        padded is None <==> dims_of(t)[axis] == size,
        padded is Some ==> dims_of(t)[axis] < size,
        padded matches Some(u) ==> {
            &&& dims_of(u).len() == dims_of(t).len()
            &&& dims_of(u)[axis] == size
            &&& forall|i: int|
                0 <= i < dims_of(t).len() && i != axis ==> #[trigger] dims_of(u)[i] == dims_of(t)[i]
            &&& dtype_of(u) == dtype_of(t)
            &&& start_offset_of(u) == 0
            &&& in_bounds(dims_of(u), index) && index[axis] < dims_of(t)[axis] ==> elements_of(
                u,
            )[position(dims_of(u), index)] == elements_of(t)[position(dims_of(t), index)]
            &&& in_bounds(dims_of(u), index) && index[axis] >= dims_of(t)[axis] ==> elements_of(
                u,
            )[position(dims_of(u), index)] == 0
        },
{
    if let Some(u) = padded {
        if in_bounds(dims_of(u), index) && index[axis] < dims_of(t)[axis] {
            assert forall|i: int| 0 <= i < dims_of(t).len() implies 0 <= #[trigger] index[i]
                < dims_of(t)[i] by {
                assert(0 <= index[i] < dims_of(u)[i]);
            }
            assert(in_bounds(dims_of(t), index));
        }
    }
}

/// A slice shows the elements of a tensor at their indices.
pub proof fn slicing_keeps_elements(u: Tensor, t: Tensor, axis: int, len: usize, index: Seq<int>)
    requires
        0 <= axis < dims_of(t).len(),
        is_front(u, t, axis, len),
    ensures
        dims_of(u).len() == dims_of(t).len(),
        dims_of(u)[axis] == len,
        forall|i: int|
            0 <= i < dims_of(t).len() && i != axis ==> #[trigger] dims_of(u)[i] == dims_of(t)[i],
        strides_of(u) == strides_of(t),
        start_offset_of(u) == start_offset_of(t),
        dtype_of(u) == dtype_of(t),
        in_bounds(dims_of(u), index) ==> elements_of(u)[position(dims_of(u), index)] == elements_of(
            t,
        )[position(dims_of(t), index)],
{
}

/// The head counts that launches have: 64 on SM90 and 128 on SM100 where padding is asked for and
/// there are fewer heads, unless there are 64 already, and otherwise the given one.
pub proof fn padded_head_counts(h_q: usize, pad: bool, arch: Arch)
    ensures
        ({
            let heads = padded_heads(h_q, pad, arch);
            &&& !pad || h_q == 0 || h_q == 64 || h_q >= 128 ==> heads == h_q
            &&& pad && 0 < h_q < 64 && arch == Arch::Sm90a ==> heads == 64
            &&& 64 < h_q && arch == Arch::Sm90a ==> heads == h_q
            &&& pad && 0 < h_q < 128 && h_q != 64 && arch == Arch::Sm100f ==> heads == 128
        }),
        full_heads(Arch::Sm90a) == 64,
        full_heads(Arch::Sm100f) == 128,
        padding_undecided(h_q, pad) <==> pad && 65 <= h_q <= 127,
{
}

} // verus!
