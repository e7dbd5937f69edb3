//! Row-major layouts and the sizes of allocations.

use vstd::arithmetic::div_mod::lemma_basic_div;
use vstd::arithmetic::div_mod::lemma_div_non_zero;
use vstd::arithmetic::div_mod::lemma_fundamental_div_mod;
use vstd::arithmetic::div_mod::lemma_mod_bound;
use vstd::prelude::*;

verus! {

/// The product of the sizes `dims[i..]`.
pub open spec fn product_from(dims: Seq<usize>, i: int) -> nat
    decreases dims.len() - i,
{
    if i >= dims.len() {
        1
    } else {
        dims[i] as nat * product_from(dims, i + 1)
    }
}

/// The number of elements of a tensor of shape `dims`.
pub open spec fn element_count(dims: Seq<usize>) -> nat {
    product_from(dims, 0)
}

/// Whether `strides` lays a tensor of shape `dims` out in row-major order without gaps: a step
/// along an axis skips the elements of all later axes.
pub open spec fn is_row_major(dims: Seq<usize>, strides: Seq<usize>) -> bool {
    &&& strides.len() == dims.len()
    &&& forall|i: int| 0 <= i < dims.len() ==> #[trigger] strides[i] == product_from(dims, i + 1)
}

/// Whether `strides` visits the elements of a tensor of shape `dims` in memory order without gaps.
/// The stride of an axis with at most one element is never used, so it does not matter.
pub open spec fn is_contiguous(dims: Seq<usize>, strides: Seq<usize>) -> bool {
    &&& strides.len() == dims.len()
    &&& forall|i: int|
        0 <= i < dims.len() && dims[i] > 1 ==> #[trigger] strides[i] == product_from(dims, i + 1)
}

/// The row-major position of the element at `index[..n]` of a tensor of shape `dims`.
pub open spec fn position_upto(dims: Seq<usize>, index: Seq<int>, n: int) -> int
    decreases n,
{
    if n <= 0 {
        0
    } else {
        position_upto(dims, index, n - 1) * dims[n - 1] + index[n - 1]
    }
}

/// The row-major position of the element at `index` of a tensor of shape `dims`.
pub open spec fn position(dims: Seq<usize>, index: Seq<int>) -> int {
    position_upto(dims, index, index.len() as int)
}

/// Whether `index` is the index of an element of a tensor of shape `dims`.
pub open spec fn in_bounds(dims: Seq<usize>, index: Seq<int>) -> bool {
    &&& index.len() == dims.len()
    &&& forall|i: int| 0 <= i < dims.len() ==> 0 <= #[trigger] index[i] < dims[i]
}

/// `s` with the items at `i` and `j` exchanged.
pub open spec fn exchanged<A>(s: Seq<A>, i: int, j: int) -> Seq<A> {
    s.update(i, s[j]).update(j, s[i])
}

/// Whether the elements `after` are the elements `before` of a tensor of shape `dims` with the
/// axes `a` and `b` exchanged, both in row-major order.
pub open spec fn is_transposed<A>(
    before: Seq<A>,
    dims: Seq<usize>,
    after: Seq<A>,
    a: int,
    b: int,
) -> bool {
    forall|index: Seq<int>|
        #![trigger position(dims, index)]
        in_bounds(dims, index) ==> after[position(exchanged(dims, a, b), exchanged(index, a, b))]
            == before[position(dims, index)]
}

/// Whether a tensor of shape `dims` holds the elements that a tensor of shape `larger_dims` holds at
/// the same indices, both in row-major order.
pub open spec fn agree<A>(
    elements: Seq<A>,
    dims: Seq<usize>,
    larger: Seq<A>,
    larger_dims: Seq<usize>,
) -> bool {
    forall|index: Seq<int>|
        #![trigger position(dims, index)]
        #![trigger position(larger_dims, index)]
        in_bounds(dims, index) ==> elements[position(dims, index)] == larger[position(
            larger_dims,
            index,
        )]
}

/// Whether a tensor of shape `dims` holds the elements that a tensor of shape `larger_dims` holds
/// `start` positions later along the axis `axis`, both in row-major order.
pub open spec fn shows_from<A>(
    elements: Seq<A>,
    dims: Seq<usize>,
    larger: Seq<A>,
    larger_dims: Seq<usize>,
    axis: int,
    start: usize,
) -> bool {
    forall|index: Seq<int>|
        #![trigger position(dims, index)]
        in_bounds(dims, index) ==> elements[position(dims, index)] == larger[position(
            larger_dims,
            index.update(axis, index[axis] + start),
        )]
}

/// Whether the elements `after` of a tensor of shape `dims` are the elements `before`, but for as
/// many rows from `start` on as the elements `rows` of a tensor of shape `row_dims` have, which
/// stand in their place.
pub open spec fn replaces_rows<A>(
    after: Seq<A>,
    before: Seq<A>,
    dims: Seq<usize>,
    rows: Seq<A>,
    row_dims: Seq<usize>,
    start: usize,
) -> bool {
    forall|index: Seq<int>|
        #![trigger position(dims, index)]
        in_bounds(dims, index) ==> after[position(dims, index)] == if start <= index[0] < start
            + row_dims[0] {
            rows[position(row_dims, index.update(0, index[0] - start))]
        } else {
            before[position(dims, index)]
        }
}

/// The product of the sizes `dims[i..]`, where an empty axis counts as one of size 1. It bounds
/// every product of sizes in that range.
pub open spec fn extent_from(dims: Seq<usize>, i: int) -> nat
    decreases dims.len() - i,
{
    if i >= dims.len() {
        1
    } else {
        (if dims[i] == 0 {
            1
        } else {
            dims[i] as nat
        }) * extent_from(dims, i + 1)
    }
}

/// Whether a tensor of shape `dims` with elements of `elem_bytes` bytes can be allocated: no
/// product of its sizes overflows, and its bytes can be addressed.
pub open spec fn fits(dims: Seq<usize>, elem_bytes: nat) -> bool {
    extent_from(dims, 0) * elem_bytes <= isize::MAX
}

/// Exchanging two neighbouring axes changes the number of elements only of the range between them.
proof fn lemma_exchanged_product(dims: Seq<usize>, a: int, i: int)
    requires
        0 <= a < dims.len() - 1,
        0 <= i <= dims.len(),
        i != a + 1,
    ensures
        product_from(exchanged(dims, a, a + 1), i) == product_from(dims, i),
    decreases dims.len() - i,
{
    let after = exchanged(dims, a, a + 1);
    if i == a {
        lemma_exchanged_product(dims, a, a + 2);
        let rest = product_from(dims, a + 2);
        assert(product_from(after, a + 1) == after[a + 1] as nat * rest);
        assert(product_from(dims, a + 1) == dims[a + 1] as nat * rest);
        let (x, y) = (dims[a] as nat, dims[a + 1] as nat);
        assert(y * (x * rest) == x * (y * rest)) by (nonlinear_arith);
    } else if i < dims.len() {
        lemma_exchanged_product(dims, a, i + 1);
    }
}

/// Exchanging two neighbouring axes of a tensor in row-major order leaves its elements in memory
/// order where one of the axes has a single position.
pub proof fn lemma_single_position_exchange(dims: Seq<usize>, strides: Seq<usize>, a: int)
    requires
        0 <= a < dims.len() - 1,
        is_row_major(dims, strides),
        dims[a] == 1 || dims[a + 1] == 1,
    ensures
        is_contiguous(exchanged(dims, a, a + 1), exchanged(strides, a, a + 1)),
{
    let after = exchanged(dims, a, a + 1);
    let moved = exchanged(strides, a, a + 1);
    assert forall|i: int| 0 <= i < after.len() && after[i] > 1 implies #[trigger] moved[i]
        == product_from(after, i + 1) by {
        lemma_exchanged_product(dims, a, a + 2);
        let rest = product_from(dims, a + 2);
        assert(1 * rest == rest);
        if i == a {
            assert(moved[i] == strides[a + 1]);
            assert(product_from(after, a + 1) == after[a + 1] as nat * rest);
        } else if i == a + 1 {
            assert(moved[i] == strides[a]);
            assert(product_from(dims, a + 1) == dims[a + 1] as nat * rest);
        } else {
            assert(moved[i] == strides[i]);
            lemma_exchanged_product(dims, a, i + 1);
        }
    }
}

/// The extent of a range of axes is positive and at least that of every later range.
proof fn lemma_extent_grows(dims: Seq<usize>, i: int, j: int)
    requires
        0 <= i <= j <= dims.len(),
    ensures
        extent_from(dims, j) >= 1,
        extent_from(dims, i) >= extent_from(dims, j),
    decreases dims.len() - i,
{
    if i < dims.len() {
        let d: nat = if dims[i] == 0 {
            1
        } else {
            dims[i] as nat
        };
        if i < j {
            lemma_extent_grows(dims, i + 1, j);
        } else {
            lemma_extent_grows(dims, i + 1, i + 1);
        }
        let rest = extent_from(dims, i + 1);
        assert(d * rest >= rest) by (nonlinear_arith)
            requires
                d >= 1,
        ;
    }
}

/// The extent of a single axis is its size.
pub proof fn lemma_vector_extent(n: usize)
    ensures
        extent_from(seq![n], 0) == (if n == 0 {
            1
        } else {
            n as nat
        }),
{
    let dims = seq![n];
    assert(extent_from(dims, 1) == 1);
    assert(extent_from(dims, 0) == (if n == 0 {
        1
    } else {
        n as nat
    }) * extent_from(dims, 1));
}

/// Making one axis longer does not shrink the extent.
pub proof fn lemma_longer_axis(dims: Seq<usize>, axis: int, size: usize, i: int)
    requires
        0 <= axis < dims.len(),
        0 <= i <= dims.len(),
        dims[axis] <= size,
    ensures
        extent_from(dims, i) <= extent_from(dims.update(axis, size), i),
    decreases dims.len() - i,
{
    if i < dims.len() {
        lemma_longer_axis(dims, axis, size, i + 1);
        let longer = dims.update(axis, size);
        let d: nat = if dims[i] == 0 {
            1
        } else {
            dims[i] as nat
        };
        let e: nat = if longer[i] == 0 {
            1
        } else {
            longer[i] as nat
        };
        let rest = extent_from(dims, i + 1);
        let longer_rest = extent_from(longer, i + 1);
        assert(d * rest <= e * longer_rest) by (nonlinear_arith)
            requires
                d <= e,
                rest <= longer_rest,
        ;
    }
}

/// The size of the first axis does not bear on the extent of the other axes.
proof fn lemma_other_rows(dims: Seq<usize>, n: usize, i: int)
    requires
        1 <= i <= dims.len(),
    ensures
        extent_from(dims.update(0, n), i) == extent_from(dims, i),
    decreases dims.len() - i,
{
    if i < dims.len() {
        lemma_other_rows(dims, n, i + 1);
    }
}

/// The extent of `n` rows is `n` times that of one row.
pub proof fn lemma_rows_extent(dims: Seq<usize>, n: usize)
    requires
        dims.len() > 0,
        n > 0,
    ensures
        extent_from(dims.update(0, n), 0) == n * extent_from(dims.update(0, 1), 0),
        extent_from(dims.update(0, 1), 0) >= 1,
{
    lemma_other_rows(dims, n, 1);
    lemma_other_rows(dims, 1, 1);
    lemma_extent_grows(dims.update(0, 1), 0, 0);
    let rest = extent_from(dims, 1);
    assert(extent_from(dims.update(0, n), 0) == n as nat * rest);
    assert(extent_from(dims.update(0, 1), 0) == 1 * rest);
}

/// Exchanging two neighbouring axes changes the extent only of the range between them.
pub proof fn lemma_exchanged_extent(dims: Seq<usize>, a: int, i: int)
    requires
        0 <= a < dims.len() - 1,
        0 <= i <= dims.len(),
        i != a + 1,
    ensures
        extent_from(exchanged(dims, a, a + 1), i) == extent_from(dims, i),
    decreases dims.len() - i,
{
    let after = exchanged(dims, a, a + 1);
    if i == a {
        lemma_exchanged_extent(dims, a, a + 2);
        let rest = extent_from(dims, a + 2);
        let x: nat = if dims[a] == 0 {
            1
        } else {
            dims[a] as nat
        };
        let y: nat = if dims[a + 1] == 0 {
            1
        } else {
            dims[a + 1] as nat
        };
        assert(extent_from(after, a + 1) == x * rest);
        assert(extent_from(dims, a + 1) == y * rest);
        assert(y * (x * rest) == x * (y * rest)) by (nonlinear_arith);
    } else if i < dims.len() {
        lemma_exchanged_extent(dims, a, i + 1);
    }
}

/// Whether a tensor of shape `dims` with elements of `elem_bytes` bytes can be the target of a
/// block copy: it can be allocated, and its elements can be counted in 32 bits.
pub open spec fn copy_fits(dims: Seq<usize>, elem_bytes: nat) -> bool {
    fits(dims, elem_bytes) && extent_from(dims, 0) <= u32::MAX
}

/// The extent of all axes, or `None` when it exceeds the range of sizes.
fn checked_extent(dims: &[usize]) -> (r: Option<usize>)
    ensures
        match r {
            Some(extent) => extent == extent_from(dims@, 0),
            None => extent_from(dims@, 0) > usize::MAX,
        },
{
    let mut extent: usize = 1;
    let mut i: usize = dims.len();
    while i > 0
        invariant
            i <= dims@.len(),
            extent == extent_from(dims@, i as int),
        decreases i,
    {
        i = i - 1;
        let size: usize = if dims[i] == 0 {
            1
        } else {
            dims[i]
        };
        match size.checked_mul(extent) {
            Some(product) => {
                extent = product;
            },
            None => {
                proof {
                    lemma_extent_grows(dims@, 0, i as int);
                }
                return None;
            },
        }
    }
    Some(extent)
}

/// Tests whether a tensor of shape `dims` with elements of `elem_bytes` bytes can be allocated.
pub fn can_allocate(dims: &[usize], elem_bytes: usize) -> (ok: bool)
    ensures
        ok == fits(dims@, elem_bytes as nat),
{
    match checked_extent(dims) {
        Some(extent) => match extent.checked_mul(elem_bytes) {
            Some(bytes) => bytes <= isize::MAX as usize,
            None => false,
        },
        None => {
            proof {
                let e = extent_from(dims@, 0);
                let b = elem_bytes as nat;
                assert(b >= 1 ==> e * b >= e) by (nonlinear_arith);
                assert(b == 0 ==> e * b == 0) by (nonlinear_arith);
            }
            elem_bytes == 0
        },
    }
}

/// Tests whether a tensor of shape `dims` with elements of `elem_bytes` bytes can be the target of
/// a block copy.
pub fn can_copy(dims: &[usize], elem_bytes: usize) -> (ok: bool)
    ensures
        ok == copy_fits(dims@, elem_bytes as nat),
{
    match checked_extent(dims) {
        Some(extent) => extent <= u32::MAX as usize && can_allocate(dims, elem_bytes),
        None => false,
    }
}

/// How many tensors of an extent copies of at most `limit` elements can take, and what that says of
/// `n` of them.
pub proof fn lemma_capacity(extent: nat, limit: u32, n: nat)
    requires
        extent >= 1,
    ensures
        limit as nat / extent > 0 <==> extent <= limit,
        n <= limit as nat / extent ==> n * extent <= limit,
{
    let x = limit as int;
    let d = extent as int;
    if d <= x {
        lemma_div_non_zero(x, d);
    } else {
        lemma_basic_div(x, d);
    }
    lemma_fundamental_div_mod(x, d);
    lemma_mod_bound(x, d);
    let q = x / d;
    assert(n <= q ==> n * d <= d * q) by (nonlinear_arith)
        requires
            d >= 1,
    ;
}

/// How many tensors of shape `dims` one block copy of at most `limit` elements can take.
pub fn copy_capacity(dims: &[usize], limit: u32) -> (n: usize)
    ensures
        n as nat == limit as nat / extent_from(dims@, 0),
        extent_from(dims@, 0) >= 1,
{
    proof {
        lemma_extent_grows(dims@, 0, 0);
    }
    match checked_extent(dims) {
        Some(extent) => limit as usize / extent,
        None => {
            proof {
                lemma_basic_div(limit as int, extent_from(dims@, 0) as int);
            }
            0
        },
    }
}

/// A step along an axis of a row-major tensor of two, three or four axes skips the elements of all
/// later axes.
pub proof fn row_major_steps(dims: Seq<usize>, strides: Seq<usize>)
    requires
        is_row_major(dims, strides),
        2 <= dims.len() <= 4,
    ensures
        strides[dims.len() - 1] == 1,
        strides[dims.len() - 2] == dims[dims.len() - 1],
        dims.len() >= 3 ==> strides[dims.len() - 3] == dims[dims.len() - 2] * dims[dims.len() - 1],
        dims.len() >= 4 ==> strides[0] == dims[1] * (dims[2] * dims[3]),
{
    let n = dims.len() as int;
    assert(product_from(dims, n) == 1);
    assert(product_from(dims, n - 1) == dims[n - 1] as nat * 1);
    assert(product_from(dims, n - 2) == dims[n - 2] as nat * product_from(dims, n - 1));
    if n >= 3 {
        assert(strides[n - 3] == product_from(dims, n - 2));
    }
    if n >= 4 {
        assert(product_from(dims, 1) == dims[1] as nat * product_from(dims, 2));
        assert(strides[0] == product_from(dims, 1));
    }
    assert(strides[n - 1] == product_from(dims, n));
    assert(strides[n - 2] == product_from(dims, n - 1));
}

/// The row-major number of an index of two, three or four axes: each axis counts through all later
/// ones.
pub proof fn positions_count_through(dims: Seq<usize>, a: int, b: int, c: int, d: int)
    ensures
        dims.len() == 2 ==> position(dims, seq![a, b]) == a * dims[1] + b,
        dims.len() == 3 ==> position(dims, seq![a, b, c]) == (a * dims[1] + b) * dims[2] + c,
        dims.len() == 4 ==> position(dims, seq![a, b, c, d]) == ((a * dims[1] + b) * dims[2] + c)
            * dims[3] + d,
{
    reveal_with_fuel(position_upto, 5);
    if dims.len() >= 2 {
        let d0 = dims[0] as int;
        assert(0 * d0 == 0);
    }
}

/// Steps of row-major strides lead to the row-major number of an index.
pub proof fn steps_reach_the_position(
    n1: int,
    n2: int,
    n3: int,
    a: int,
    b: int,
    c: int,
    d: int,
)
    ensures
        a * (n1 * (n2 * n3)) + b * (n2 * n3) + c * n3 + d == ((a * n1 + b) * n2 + c) * n3 + d,
        a * (n1 * n2) + b * n2 + c == (a * n1 + b) * n2 + c,
{
    assert(a * (n1 * (n2 * n3)) + b * (n2 * n3) + c * n3 + d == ((a * n1 + b) * n2 + c) * n3 + d)
        by (nonlinear_arith);
    assert(a * (n1 * n2) + b * n2 + c == (a * n1 + b) * n2 + c) by (nonlinear_arith);
}

/// A number has one quotient and one remainder: counting through an axis of size `n` never reaches
/// one number twice.
pub proof fn counting_is_one_to_one(n: int, x: int, a: int, y: int, b: int)
    requires
        0 <= a < n,
        0 <= b < n,
        x * n + a == y * n + b,
    ensures
        x == y,
        a == b,
{
    assert(x == y) by (nonlinear_arith)
        requires
            0 <= a < n,
            0 <= b < n,
            x * n + a == y * n + b,
    ;
}

/// The size of an axis, where an empty one counts as a single position.
pub open spec fn span(size: usize) -> int {
    if size == 0 {
        1
    } else {
        size as int
    }
}

/// A shape of one to four axes fits if and only if the bytes of the product of its sizes, where an
/// empty axis counts as a single position, can be addressed. It can be copied if besides a 32-bit
/// number can count the elements.
pub proof fn shapes_fit_by_their_product(a: usize, b: usize, c: usize, d: usize, bytes: nat)
    ensures
        fits(seq![a], bytes) <==> span(a) * bytes <= isize::MAX,
        fits(seq![a, b], bytes) <==> span(a) * span(b) * bytes <= isize::MAX,
        fits(seq![a, b, c], bytes) <==> span(a) * span(b) * span(c) * bytes <= isize::MAX,
        fits(seq![a, b, c, d], bytes) <==> span(a) * span(b) * span(c) * span(d) * bytes
            <= isize::MAX,
        copy_fits(seq![a, b, c], bytes) <==> fits(seq![a, b, c], bytes) && span(a) * span(b) * span(
            c,
        ) <= 0xffff_ffff,
        copy_fits(seq![a, b, c, d], bytes) <==> fits(seq![a, b, c, d], bytes) && span(a) * span(b)
            * span(c) * span(d) <= 0xffff_ffff,
{
    reveal_with_fuel(extent_from, 5);
    let (x, y, z, w) = (span(a), span(b), span(c), span(d));
    assert(x * 1 == x) by (nonlinear_arith);
    assert(x * (y * 1) == x * y) by (nonlinear_arith);
    assert(x * (y * (z * 1)) == x * y * z) by (nonlinear_arith);
    assert(x * (y * (z * (w * 1))) == x * y * z * w) by (nonlinear_arith);
    assert(extent_from(seq![a], 0) == x);
    assert(extent_from(seq![a, b], 0) == x * y);
    assert(extent_from(seq![a, b, c], 0) == x * y * z);
    assert(extent_from(seq![a, b, c, d], 0) == x * y * z * w);
}

} // verus!
