//! How dense decode packs query heads into rows of their KV head, and unpacks the outputs.
//!
//! With `G` query heads for each KV head, head `h` belongs to KV head `h / G`, and at query
//! position `i` it becomes the packed row `i * G + h % G`.

use crate::candle_flashmla::layout::copy_fits;
use crate::candle_flashmla::layout::element_count;
use crate::candle_flashmla::layout::extent_from;
use crate::candle_flashmla::layout::fits;
use crate::candle_flashmla::layout::position;
use crate::candle_flashmla::layout::position_upto;
use crate::candle_flashmla::layout::product_from;
use crate::dense_decode::DenseDecodeDims;
use vstd::arithmetic::div_mod::lemma_fundamental_div_mod;
use vstd::arithmetic::div_mod::lemma_fundamental_div_mod_converse;
use vstd::arithmetic::div_mod::lemma_mod_bound;
use vstd::prelude::*;

verus! {

/// The number of query heads of each KV head, as a size.
pub open spec fn group(dims: DenseDecodeDims) -> usize {
    dims.heads_per_hk() as usize
}

/// The number of packed query rows of each KV head, as a size.
pub open spec fn rows(dims: DenseDecodeDims) -> usize {
    dims.rows_per_hk() as usize
}

/// The shape of the query.
pub open spec fn q_dims(dims: DenseDecodeDims) -> Seq<usize> {
    seq![dims.batch, dims.s_q, dims.h_q, dims.d_qk]
}

/// The shape of the query with its heads grouped by KV head.
pub open spec fn grouped_q_dims(dims: DenseDecodeDims) -> Seq<usize> {
    seq![dims.batch, dims.s_q, dims.h_k, group(dims), dims.d_qk]
}

/// The shape of the grouped query with the KV heads innermost.
pub open spec fn interleaved_q_dims(dims: DenseDecodeDims) -> Seq<usize> {
    seq![dims.batch, dims.s_q, group(dims), dims.h_k, dims.d_qk]
}

/// The shape of the packed query.
pub open spec fn packed_q_dims(dims: DenseDecodeDims) -> Seq<usize> {
    seq![dims.batch, rows(dims), dims.h_k, dims.d_qk]
}

/// The shape of the output as the kernel writes it.
pub open spec fn packed_out_dims(dims: DenseDecodeDims) -> Seq<usize> {
    seq![dims.batch, dims.h_k, rows(dims), dims.d_v]
}

/// The shape of the kernel's output with its rows split by query position.
pub open spec fn split_out_dims(dims: DenseDecodeDims) -> Seq<usize> {
    seq![dims.batch, dims.h_k, dims.s_q, group(dims), dims.d_v]
}

/// The shape of the split output with the query positions outermost.
pub open spec fn ordered_out_dims(dims: DenseDecodeDims) -> Seq<usize> {
    seq![dims.batch, dims.s_q, dims.h_k, group(dims), dims.d_v]
}

/// The shape of the output.
pub open spec fn out_dims(dims: DenseDecodeDims) -> Seq<usize> {
    seq![dims.batch, dims.s_q, dims.h_q, dims.d_v]
}

/// The shape of the log-sum-exp values as the kernel writes them.
pub open spec fn packed_lse_dims(dims: DenseDecodeDims) -> Seq<usize> {
    seq![dims.batch, dims.h_k, rows(dims)]
}

/// The shape of the kernel's log-sum-exp values with their rows split by query position.
pub open spec fn split_lse_dims(dims: DenseDecodeDims) -> Seq<usize> {
    seq![dims.batch, dims.h_k, dims.s_q, group(dims)]
}

/// The shape of the split log-sum-exp values with the query positions innermost.
pub open spec fn ordered_lse_dims(dims: DenseDecodeDims) -> Seq<usize> {
    seq![dims.batch, dims.h_k, group(dims), dims.s_q]
}

/// The shape of the log-sum-exp values.
pub open spec fn lse_dims(dims: DenseDecodeDims) -> Seq<usize> {
    seq![dims.batch, dims.h_q, dims.s_q]
}

/// Whether packing moves elements of a query in memory order: there are several KV heads, and
/// several query heads for each.
pub open spec fn packing_moves(dims: DenseDecodeDims) -> bool {
    dims.h_k != 1 && group(dims) != 1
}

/// Whether unpacking moves elements of the output: there are several query positions and several KV
/// heads.
pub open spec fn out_moves(dims: DenseDecodeDims) -> bool {
    dims.s_q != 1 && dims.h_k != 1
}

/// Whether unpacking moves log-sum-exp values: there are several query positions, and several query
/// heads for each KV head.
pub open spec fn lse_moves(dims: DenseDecodeDims) -> bool {
    dims.s_q != 1 && group(dims) != 1
}

/// Whether a query that is `in_order`, that is, in memory order without gaps, or is not, can be
/// packed: its elements can be copied where they have to be.
pub open spec fn query_fits(dims: DenseDecodeDims, in_order: bool) -> bool {
    &&& fits(q_dims(dims), 2)
    &&& !in_order || packing_moves(dims) ==> copy_fits(q_dims(dims), 2)
}

/// Whether the outputs can be allocated and unpacked: their elements can be copied where they have
/// to be.
pub open spec fn outputs_fit(dims: DenseDecodeDims) -> bool {
    &&& fits(packed_out_dims(dims), 2)
    &&& fits(packed_lse_dims(dims), 4)
    &&& out_moves(dims) ==> copy_fits(packed_out_dims(dims), 2)
    &&& lse_moves(dims) ==> copy_fits(packed_lse_dims(dims), 4)
}

/// Whether no axis is empty.
pub open spec fn all_positive(dims: Seq<usize>) -> bool {
    forall|i: int| 0 <= i < dims.len() ==> #[trigger] dims[i] > 0
}

/// Without empty axes the extent is the element count.
proof fn lemma_extent_is_count(dims: Seq<usize>, i: int)
    requires
        all_positive(dims),
        0 <= i <= dims.len(),
    ensures
        extent_from(dims, i) == product_from(dims, i),
    decreases dims.len() - i,
{
    if i < dims.len() {
        lemma_extent_is_count(dims, i + 1);
    }
}

/// A reshape without empty axes keeps the extent.
pub proof fn lemma_reshape_keeps_extent(before: Seq<usize>, after: Seq<usize>)
    requires
        all_positive(before),
        all_positive(after),
        element_count(before) == element_count(after),
    ensures
        extent_from(before, 0) == extent_from(after, 0),
{
    lemma_extent_is_count(before, 0);
    lemma_extent_is_count(after, 0);
}

/// What the grouping of a supported shape gives: whole groups, and as many rows as positions times
/// group members.
pub proof fn lemma_group(dims: DenseDecodeDims)
    requires
        dims.supported(),
    ensures
        group(dims) > 0,
        rows(dims) > 0,
        group(dims) == dims.heads_per_hk(),
        rows(dims) == dims.s_q * group(dims),
        dims.h_q == dims.h_k * group(dims),
{
    let q = dims.h_q as int;
    let k = dims.h_k as int;
    lemma_fundamental_div_mod(q, k);
    let g = q / k;
    assert(g > 0) by (nonlinear_arith)
        requires
            q == k * g,
            q > 0,
            k > 0,
    ;
    assert(g <= q) by (nonlinear_arith)
        requires
            q == k * g,
            g > 0,
            k > 0,
    ;
    let s = dims.s_q as int;
    assert(s * g > 0) by (nonlinear_arith)
        requires
            s > 0,
            g > 0,
    ;
}

/// One query head is the one head of one KV head.
pub proof fn lemma_one_head(dims: DenseDecodeDims)
    requires
        dims.supported(),
    ensures
        dims.h_q == 1 <==> dims.h_k == 1 && group(dims) == 1,
{
    lemma_group(dims);
    let k = dims.h_k as int;
    let g = group(dims) as int;
    assert(k * g == 1 <==> k == 1 && g == 1) by (nonlinear_arith)
        requires
            k > 0,
            g > 0,
    ;
}

/// The element count of a shape of three, four or five axes.
proof fn lemma_counts(a: usize, b: usize, c: usize, d: usize, e: usize)
    ensures
        element_count(seq![a, b, c]) == a * b * c,
        element_count(seq![a, b, c, d]) == a * b * c * d,
        element_count(seq![a, b, c, d, e]) == a * b * c * d * e,
{
    reveal_with_fuel(product_from, 6);
    assert(a as nat * (b as nat * (c as nat * 1)) == a * b * c) by (nonlinear_arith);
    assert(a as nat * (b as nat * (c as nat * (d as nat * 1))) == a * b * c * d)
        by (nonlinear_arith);
    assert(a as nat * (b as nat * (c as nat * (d as nat * (e as nat * 1)))) == a * b * c * d * e)
        by (nonlinear_arith);
}

/// Packing the query and unpacking the outputs only rearranges elements: each shape on the way has
/// the element count of the one before, and no axis is empty.
pub proof fn packing_keeps_element_counts(dims: DenseDecodeDims)
    requires
        dims.supported(),
    ensures
        element_count(grouped_q_dims(dims)) == element_count(q_dims(dims)),
        element_count(interleaved_q_dims(dims)) == element_count(q_dims(dims)),
        element_count(packed_q_dims(dims)) == element_count(q_dims(dims)),
        element_count(split_out_dims(dims)) == element_count(packed_out_dims(dims)),
        element_count(ordered_out_dims(dims)) == element_count(packed_out_dims(dims)),
        element_count(out_dims(dims)) == element_count(packed_out_dims(dims)),
        element_count(split_lse_dims(dims)) == element_count(packed_lse_dims(dims)),
        element_count(ordered_lse_dims(dims)) == element_count(packed_lse_dims(dims)),
        element_count(lse_dims(dims)) == element_count(packed_lse_dims(dims)),
        all_positive(q_dims(dims)),
        all_positive(grouped_q_dims(dims)),
        all_positive(interleaved_q_dims(dims)),
        all_positive(packed_q_dims(dims)),
        all_positive(packed_out_dims(dims)),
        all_positive(split_out_dims(dims)),
        all_positive(ordered_out_dims(dims)),
        all_positive(out_dims(dims)),
        all_positive(packed_lse_dims(dims)),
        all_positive(split_lse_dims(dims)),
        all_positive(ordered_lse_dims(dims)),
        all_positive(lse_dims(dims)),
{
    lemma_group(dims);
    let b = dims.batch;
    let s = dims.s_q;
    let hq = dims.h_q;
    let hk = dims.h_k;
    let g = group(dims);
    let r = rows(dims);
    let d = dims.d_qk;
    let v = dims.d_v;
    lemma_counts(b, s, hq, d, 1);
    lemma_counts(b, s, hk, g, d);
    lemma_counts(b, s, g, hk, d);
    lemma_counts(b, r, hk, d, 1);
    lemma_counts(b, hk, r, v, 1);
    lemma_counts(b, hk, s, g, v);
    lemma_counts(b, s, hk, g, v);
    lemma_counts(b, s, hq, v, 1);
    lemma_counts(b, hk, g, s, 1);
    lemma_counts(b, hq, s, 1, 1);
    let (bi, si, hqi, hki, gi, ri) = (b as int, s as int, hq as int, hk as int, g as int, r as int);
    let (di, vi) = (d as int, v as int);
    assert(bi * si * hki * gi * di == bi * si * hqi * di) by (nonlinear_arith)
        requires
            hqi == hki * gi,
    ;
    assert(bi * si * gi * hki * di == bi * si * hqi * di) by (nonlinear_arith)
        requires
            hqi == hki * gi,
    ;
    assert(bi * ri * hki * di == bi * si * hqi * di) by (nonlinear_arith)
        requires
            hqi == hki * gi,
            ri == si * gi,
    ;
    assert(bi * hki * si * gi * vi == bi * hki * ri * vi) by (nonlinear_arith)
        requires
            ri == si * gi,
    ;
    assert(bi * si * hki * gi * vi == bi * hki * ri * vi) by (nonlinear_arith)
        requires
            ri == si * gi,
    ;
    assert(bi * si * hqi * vi == bi * hki * ri * vi) by (nonlinear_arith)
        requires
            hqi == hki * gi,
            ri == si * gi,
    ;
    assert(bi * hki * si * gi == bi * hki * ri) by (nonlinear_arith)
        requires
            ri == si * gi,
    ;
    assert(bi * hki * gi * si == bi * hki * ri) by (nonlinear_arith)
        requires
            ri == si * gi,
    ;
    assert(bi * hqi * si == bi * hki * ri) by (nonlinear_arith)
        requires
            hqi == hki * gi,
            ri == si * gi,
    ;
}

/// The KV head of query head `h`.
pub open spec fn kv_head(dims: DenseDecodeDims, h: int) -> int {
    h / dims.heads_per_hk()
}

/// The packed row of query head `h` at query position `i`.
pub open spec fn packed_row(dims: DenseDecodeDims, i: int, h: int) -> int {
    i * dims.heads_per_hk() + h % dims.heads_per_hk()
}

/// Whether `i` is a query position and `h` a query head.
pub open spec fn is_query(dims: DenseDecodeDims, i: int, h: int) -> bool {
    0 <= i < dims.s_q && 0 <= h < dims.h_q
}

/// The row-major position of an element of the query.
pub open spec fn q_position(dims: DenseDecodeDims, b: int, i: int, h: int, e: int) -> int {
    position(q_dims(dims), seq![b, i, h, e])
}

/// The row-major position of an element of the packed query.
pub open spec fn packed_q_position(dims: DenseDecodeDims, b: int, row: int, k: int, e: int) -> int {
    position(packed_q_dims(dims), seq![b, row, k, e])
}

/// The row-major position of an element of the output.
pub open spec fn out_position(dims: DenseDecodeDims, b: int, i: int, h: int, e: int) -> int {
    position(out_dims(dims), seq![b, i, h, e])
}

/// The row-major position of an element of the output as the kernel writes it.
pub open spec fn packed_out_position(
    dims: DenseDecodeDims,
    b: int,
    k: int,
    row: int,
    e: int,
) -> int {
    position(packed_out_dims(dims), seq![b, k, row, e])
}

/// The row-major position of a log-sum-exp value.
pub open spec fn lse_position(dims: DenseDecodeDims, b: int, h: int, i: int) -> int {
    position(lse_dims(dims), seq![b, h, i])
}

/// The row-major position of a log-sum-exp value as the kernel writes it.
pub open spec fn packed_lse_position(dims: DenseDecodeDims, b: int, k: int, row: int) -> int {
    position(packed_lse_dims(dims), seq![b, k, row])
}

/// Whether the packed elements `packed` hold each head of the query elements `q` in its packed row
/// under its KV head.
pub open spec fn packs(packed: Seq<int>, q: Seq<int>, dims: DenseDecodeDims) -> bool {
    forall|b: int, i: int, h: int, e: int|
        0 <= b < dims.batch && is_query(dims, i, h) && 0 <= e < dims.d_qk
            ==> packed[packed_q_position(dims, b, packed_row(dims, i, h), kv_head(dims, h), e)]
            == q[#[trigger] q_position(dims, b, i, h, e)]
}

/// Whether the output elements `out` hold for each query head what the packed elements `packed`
/// hold in its packed row under its KV head.
pub open spec fn unpacks_out(out: Seq<int>, packed: Seq<int>, dims: DenseDecodeDims) -> bool {
    forall|b: int, i: int, h: int, e: int|
        0 <= b < dims.batch && is_query(dims, i, h) && 0 <= e < dims.d_v
            ==> out[#[trigger] out_position(dims, b, i, h, e)] == packed[packed_out_position(
            dims,
            b,
            kv_head(dims, h),
            packed_row(dims, i, h),
            e,
        )]
}

/// Whether the log-sum-exp elements `lse` hold for each query head what the packed elements
/// `packed` hold in its packed row under its KV head.
pub open spec fn unpacks_lse(lse: Seq<int>, packed: Seq<int>, dims: DenseDecodeDims) -> bool {
    forall|b: int, i: int, h: int|
        0 <= b < dims.batch && is_query(dims, i, h) ==> lse[#[trigger] lse_position(dims, b, h, i)]
            == packed[packed_lse_position(dims, b, kv_head(dims, h), packed_row(dims, i, h))]
}

/// The query heads at all query positions are in one-to-one correspondence with the packed rows of
/// all KV heads: each has a row of its own in range, and each row comes from one of them.
pub proof fn packing_is_a_bijection(dims: DenseDecodeDims, i: int, h: int, k: int, row: int)
    requires
        dims.supported(),
        is_query(dims, i, h),
        0 <= k < dims.h_k,
        0 <= row < dims.rows_per_hk(),
    ensures
        0 <= kv_head(dims, h) < dims.h_k,
        0 <= packed_row(dims, i, h) < dims.rows_per_hk(),
        packed_row(dims, i, h) / dims.heads_per_hk() == i,
        kv_head(dims, h) * dims.heads_per_hk() + packed_row(dims, i, h) % dims.heads_per_hk() == h,
        is_query(
            dims,
            row / dims.heads_per_hk(),
            k * dims.heads_per_hk() + row % dims.heads_per_hk(),
        ),
        kv_head(dims, k * dims.heads_per_hk() + row % dims.heads_per_hk()) == k,
        packed_row(
            dims,
            row / dims.heads_per_hk(),
            k * dims.heads_per_hk() + row % dims.heads_per_hk(),
        ) == row,
{
    lemma_group(dims);
    let g = dims.heads_per_hk();
    let hk = dims.h_k as int;
    let s = dims.s_q as int;
    lemma_fundamental_div_mod(h, g);
    lemma_mod_bound(h, g);
    let q = h / g;
    let m = h % g;
    assert(0 <= q < hk) by (nonlinear_arith)
        requires
            h == g * q + m,
            0 <= m < g,
            0 <= h < hk * g,
    ;
    assert(0 <= i * g + m < s * g) by (nonlinear_arith)
        requires
            0 <= i < s,
            0 <= m < g,
    ;
    assert(i * g == g * i) by (nonlinear_arith);
    lemma_fundamental_div_mod_converse(i * g + m, g, i, m);
    assert(q * g == g * q) by (nonlinear_arith);
    lemma_fundamental_div_mod(row, g);
    lemma_mod_bound(row, g);
    let rq = row / g;
    let rm = row % g;
    assert(0 <= rq < s) by (nonlinear_arith)
        requires
            row == g * rq + rm,
            0 <= rm < g,
            0 <= row < s * g,
    ;
    assert(0 <= k * g + rm < hk * g) by (nonlinear_arith)
        requires
            0 <= k < hk,
            0 <= rm < g,
    ;
    assert(k * g == g * k) by (nonlinear_arith);
    lemma_fundamental_div_mod_converse(k * g + rm, g, k, rm);
    assert(rq * g == g * rq) by (nonlinear_arith);
}

/// The packed query holds query head `h` at position `i` in its packed row under its KV head.
///
/// Grouping the heads and joining the rows are reshapes, which keep positions; between them the
/// group and KV-head axes change places.
pub proof fn packed_query_holds_each_head(dims: DenseDecodeDims, b: int, i: int, h: int, e: int)
    requires
        dims.supported(),
        is_query(dims, i, h),
    ensures
        ({
            let k = kv_head(dims, h);
            let g = h % dims.heads_per_hk();
            &&& q_position(dims, b, i, h, e) == position(
                grouped_q_dims(dims),
                seq![b, i, k, g, e],
            )
            &&& position(interleaved_q_dims(dims), seq![b, i, g, k, e]) == packed_q_position(
                dims,
                b,
                packed_row(dims, i, h),
                k,
                e,
            )
        }),
{
    lemma_group(dims);
    reveal_with_fuel(position_upto, 6);
    let gs = dims.heads_per_hk();
    let k = kv_head(dims, h);
    let g = h % gs;
    lemma_fundamental_div_mod(h, gs);
    let hk = dims.h_k as int;
    let hq = dims.h_q as int;
    let s = dims.s_q as int;
    let d = dims.d_qk as int;
    let r = dims.rows_per_hk();
    let x = b * s + i;
    assert((x * hk + k) * gs + g == x * hq + h) by (nonlinear_arith)
        requires
            hq == hk * gs,
            h == gs * k + g,
    ;
    assert((b * s + i) * gs + g == b * r + (i * gs + g)) by (nonlinear_arith)
        requires
            r == s * gs,
    ;
}

/// The output holds, at query head `h` of position `i`, what the kernel wrote for the packed row
/// of that head under its KV head.
///
/// Splitting the rows and joining the heads are reshapes, which keep positions; between them the
/// KV-head and position axes change places.
pub proof fn output_holds_each_packed_row(dims: DenseDecodeDims, b: int, i: int, h: int, e: int)
    requires
        dims.supported(),
        is_query(dims, i, h),
    ensures
        ({
            let k = kv_head(dims, h);
            let g = h % dims.heads_per_hk();
            &&& packed_out_position(dims, b, k, packed_row(dims, i, h), e) == position(
                split_out_dims(dims),
                seq![b, k, i, g, e],
            )
            &&& position(ordered_out_dims(dims), seq![b, i, k, g, e]) == out_position(
                dims,
                b,
                i,
                h,
                e,
            )
        }),
{
    lemma_group(dims);
    reveal_with_fuel(position_upto, 6);
    let gs = dims.heads_per_hk();
    let k = kv_head(dims, h);
    let g = h % gs;
    lemma_fundamental_div_mod(h, gs);
    let hk = dims.h_k as int;
    let hq = dims.h_q as int;
    let s = dims.s_q as int;
    let r = dims.rows_per_hk();
    let y = b * hk + k;
    assert((y * s + i) * gs + g == y * r + (i * gs + g)) by (nonlinear_arith)
        requires
            r == s * gs,
    ;
    let x = b * s + i;
    assert((x * hk + k) * gs + g == x * hq + h) by (nonlinear_arith)
        requires
            hq == hk * gs,
            h == gs * k + g,
    ;
}

/// The log-sum-exp values hold, at query head `h` of position `i`, what the kernel wrote for the
/// packed row of that head under its KV head.
///
/// Splitting the rows and joining the heads are reshapes, which keep positions; between them the
/// position and group axes change places.
pub proof fn lse_holds_each_packed_row(dims: DenseDecodeDims, b: int, i: int, h: int)
    requires
        dims.supported(),
        is_query(dims, i, h),
    ensures
        ({
            let k = kv_head(dims, h);
            let g = h % dims.heads_per_hk();
            &&& packed_lse_position(dims, b, k, packed_row(dims, i, h)) == position(
                split_lse_dims(dims),
                seq![b, k, i, g],
            )
            &&& position(ordered_lse_dims(dims), seq![b, k, g, i]) == lse_position(dims, b, h, i)
        }),
{
    lemma_group(dims);
    reveal_with_fuel(position_upto, 6);
    let gs = dims.heads_per_hk();
    let k = kv_head(dims, h);
    let g = h % gs;
    lemma_fundamental_div_mod(h, gs);
    let hk = dims.h_k as int;
    let hq = dims.h_q as int;
    let s = dims.s_q as int;
    let r = dims.rows_per_hk();
    let y = b * hk + k;
    assert((y * s + i) * gs + g == y * r + (i * gs + g)) by (nonlinear_arith)
        requires
            r == s * gs,
    ;
    assert((b * hk + k) * gs + g == b * hq + h) by (nonlinear_arith)
        requires
            hq == hk * gs,
            h == gs * k + g,
    ;
}

} // verus!
