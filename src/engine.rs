//! The forward pass: two integer matrix-vector products with a ReLU between
//! them, then a first-occurrence argmax over the class scores.
//!
//! Every multiply and add of the products wraps in two's complement `i32`, so
//! a run gives the same bits wherever it executes.

use vstd::prelude::*;

use crate::model::{cols_of, is_rect, rows_of, InferenceError, MnistModel};

verus! {

/// `max(v, 0)`.
pub open spec fn relu_of(v: i32) -> i32 {
    if v < 0 {
        0
    } else {
        v
    }
}

/// Rectified linear unit.
pub fn relu(data: i32) -> (r: i32)
    ensures
        r == relu_of(data),
{
    if data < 0 {
        0
    } else {
        data
    }
}

/// The first `k` terms of column `j` of the product `x * w`, accumulated with
/// two's-complement wrapping on every multiply and add.
pub open spec fn column_sum(x: Seq<i32>, w: Seq<Seq<i32>>, j: int, k: int) -> i32
    decreases k,
{
    if k <= 0 {
        0
    } else {
        column_sum(x, w, j, k - 1).wrapping_add(x[k - 1].wrapping_mul(w[k - 1][j]))
    }
}

/// The row vector `x * w` over `cols` columns, in wrapping `i32` arithmetic.
pub open spec fn layer(x: Seq<i32>, w: Seq<Seq<i32>>, cols: int) -> Seq<i32> {
    Seq::new(cols as nat, |j: int| column_sum(x, w, j, x.len() as int))
}

/// ReLU applied to every entry.
pub open spec fn relu_all(v: Seq<i32>) -> Seq<i32> {
    v.map_values(|a: i32| relu_of(a))
}

/// Index of the first maximum of `s`, scanning left to right (0 when `s` is empty).
pub open spec fn first_max_index(s: Seq<i32>) -> int
    decreases s.len(),
{
    if s.len() <= 1 {
        0
    } else {
        let k = first_max_index(s.drop_last());
        if s.last() > s[k] {
            s.len() - 1
        } else {
            k
        }
    }
}

/// `k` holds a maximum of `s` and no earlier index does.
pub open spec fn is_first_max(s: Seq<i32>, k: int) -> bool {
    &&& 0 <= k < s.len()
    &&& forall|i: int| 0 <= i < s.len() ==> s[i] <= s[k]
    &&& forall|i: int| 0 <= i < k ==> s[i] < s[k]
}

/// The class scores of a well-shaped model on `x`.
pub open spec fn scores(m: MnistModel, x: Seq<i32>) -> Seq<i32> {
    let hidden = relu_all(layer(x, m.first_layer(), m.hidden()));
    layer(hidden, m.second_layer(), m.classes())
}

/// What one forward pass yields: the input-width check first, then the
/// model's shape, then the predicted class.
pub open spec fn classify(m: MnistModel, x: Seq<i32>) -> Result<usize, InferenceError> {
    if x.len() != m.first_layer().len() {
        Err(InferenceError::DimensionMismatch)
    } else if !m.well_shaped() {
        Err(InferenceError::InternalShapeFault)
    } else {
        Ok(first_max_index(scores(m, x)) as usize)
    }
}

/// The scan that `first_max_index` describes picks a first maximum.
pub proof fn lemma_first_max_index(s: Seq<i32>)
    requires
        s.len() > 0,
    ensures
        is_first_max(s, first_max_index(s)),
    decreases s.len(),
{
    if s.len() > 1 {
        let t = s.drop_last();
        lemma_first_max_index(t);
        assert(forall|i: int| 0 <= i < t.len() ==> t[i] == s[i]);
    }
}

/// Index of the first largest score.
pub fn argmax(scores: &Vec<i32>) -> (r: usize)
    requires
        scores.len() > 0,
    ensures
        r == first_max_index(scores@),
        is_first_max(scores@, r as int),
{
    let mut idx: usize = 0;
    let mut best: i32 = scores[0];
    let mut pos: usize = 1;
    while pos < scores.len()
        invariant
            1 <= pos <= scores.len(),
            idx == first_max_index(scores@.subrange(0, pos as int)),
            idx < pos,
            best == scores@[idx as int],
        decreases scores.len() - pos,
    {
        let ghost prefix = scores@.subrange(0, pos as int + 1);
        assert(prefix.drop_last() =~= scores@.subrange(0, pos as int));
        if scores[pos] > best {
            best = scores[pos];
            idx = pos;
        }
        pos = pos + 1;
    }
    assert(scores@.subrange(0, scores.len() as int) =~= scores@);
    proof {
        lemma_first_max_index(scores@);
    }
    idx
}

/// Whether every row of `w` has exactly `cols` entries.
fn rows_have_len(w: &Vec<Vec<i32>>, cols: usize) -> (r: bool)
    ensures
        r == is_rect(rows_of(w@), cols as int),
{
    let mut i: usize = 0;
    while i < w.len()
        invariant
            i <= w.len(),
            forall|k: int| 0 <= k < i ==> w@[k]@.len() == cols,
        decreases w.len() - i,
    {
        if w[i].len() != cols {
            assert(rows_of(w@)[i as int].len() != cols);
            return false;
        }
        i = i + 1;
    }
    true
}

/// Column count of `w`, read off its first row.
fn col_count(w: &Vec<Vec<i32>>) -> (r: usize)
    ensures
        r == cols_of(rows_of(w@)),
{
    if w.len() > 0 {
        w[0].len()
    } else {
        0
    }
}

/// The product `x * w` over `cols` columns, in wrapping `i32` arithmetic.
fn layer_product(x: &Vec<i32>, w: &Vec<Vec<i32>>, cols: usize) -> (r: Vec<i32>)
    requires
        x.len() == w.len(),
        is_rect(rows_of(w@), cols as int),
    ensures
        r@ == layer(x@, rows_of(w@), cols as int),
{
    let ghost mw = rows_of(w@);
    let mut out: Vec<i32> = Vec::new();
    let mut j: usize = 0;
    while j < cols
        invariant
            j <= cols,
            x.len() == w.len(),
            mw == rows_of(w@),
            is_rect(mw, cols as int),
            out.len() == j,
            forall|c: int| 0 <= c < j ==> out@[c] == column_sum(x@, mw, c, x.len() as int),
        decreases cols - j,
    {
        let mut acc: i32 = 0;
        let mut i: usize = 0;
        while i < x.len()
            invariant
                i <= x.len(),
                j < cols,
                x.len() == w.len(),
                mw == rows_of(w@),
                is_rect(mw, cols as int),
                acc == column_sum(x@, mw, j as int, i as int),
            decreases x.len() - i,
        {
            assert(mw[i as int].len() == cols);
            acc = acc.wrapping_add(x[i].wrapping_mul(w[i][j]));
            i = i + 1;
        }
        out.push(acc);
        j = j + 1;
    }
    assert(out@ =~= layer(x@, mw, cols as int));
    out
}

/// ReLU on every entry, in place.
fn relu_in_place(v: &mut Vec<i32>)
    ensures
        final(v)@ == relu_all(old(v)@),
{
    let mut i: usize = 0;
    while i < v.len()
        invariant
            i <= v.len(),
            v.len() == old(v).len(),
            forall|k: int| 0 <= k < i ==> v@[k] == relu_of(old(v)@[k]),
            forall|k: int| i <= k < v.len() ==> v@[k] == old(v)@[k],
        decreases v.len() - i,
    {
        let a = relu(v[i]);
        v.set(i, a);
        i = i + 1;
    }
    assert(v@ =~= relu_all(old(v)@));
}

/// Classifies one feature vector: the index of the first largest score of
/// `relu(x * w1) * w2`.
pub fn inference_data(model: &MnistModel, x: &Vec<i32>) -> (r: Result<usize, InferenceError>)
    ensures
        r == classify(*model, x@),
        x@.len() == model.first_layer().len() && model.well_shaped() ==> r is Ok && is_first_max(
            scores(*model, x@),
            r->Ok_0 as int,
        ),
{
    if x.len() != model.w1.len() {
        return Err(InferenceError::DimensionMismatch);
    }
    // Checking the whole shape before computing is what guarantees that each
    // product has as many entries as its matrix has columns.
    let hidden = col_count(&model.w1);
    let classes = col_count(&model.w2);
    if !rows_have_len(&model.w1, hidden) || model.w2.len() != hidden || !rows_have_len(
        &model.w2,
        classes,
    ) || classes == 0 {
        return Err(InferenceError::InternalShapeFault);
    }
    let mut h = layer_product(x, &model.w1, hidden);
    relu_in_place(&mut h);
    let s = layer_product(&h, &model.w2, classes);
    let idx = argmax(&s);
    Ok(idx)
}

} // verus!
