//! The data contract: model weights, input batches and the error kinds of
//! the forward pass.

use vstd::prelude::*;

verus! {

/// Views a row-major integer matrix as a sequence of rows.
pub open spec fn rows_of(w: Seq<Vec<i32>>) -> Seq<Seq<i32>> {
    w.map_values(|r: Vec<i32>| r@)
}

/// Column count of a matrix, read off its first row (zero when it has no rows).
pub open spec fn cols_of(w: Seq<Seq<i32>>) -> int {
    if w.len() > 0 {
        w[0].len() as int
    } else {
        0
    }
}

/// Every row of `w` has exactly `cols` entries.
pub open spec fn is_rect(w: Seq<Seq<i32>>, cols: int) -> bool {
    forall|i: int| 0 <= i < w.len() ==> #[trigger] w[i].len() == cols
}

/// Two weight layers: `w1` is `in_features x hidden`, `w2` is `hidden x classes`.
#[derive(Clone, Debug, PartialEq, Eq)]
pub struct MnistModel {
    pub w1: Vec<Vec<i32>>,
    pub w2: Vec<Vec<i32>>,
}

impl MnistModel {
    pub open spec fn first_layer(&self) -> Seq<Seq<i32>> {
        rows_of(self.w1@)
    }

    pub open spec fn second_layer(&self) -> Seq<Seq<i32>> {
        rows_of(self.w2@)
    }

    /// Width of the hidden layer.
    pub open spec fn hidden(&self) -> int {
        cols_of(self.first_layer())
    }

    /// Number of output classes.
    pub open spec fn classes(&self) -> int {
        cols_of(self.second_layer())
    }

    /// Both matrices are rectangular, they chain (`w2` has one row per hidden
    /// unit) and there is at least one class to pick.
    pub open spec fn well_shaped(&self) -> bool {
        &&& is_rect(self.first_layer(), self.hidden())
        &&& self.second_layer().len() == self.hidden()
        &&& is_rect(self.second_layer(), self.classes())
        &&& self.classes() > 0
    }
}

/// An ordered batch of feature vectors.
#[derive(Clone, Debug, PartialEq, Eq)]
pub struct MnistData {
    pub x: Vec<Vec<i32>>,
}

impl View for MnistData {
    type V = Seq<Seq<i32>>;

    open spec fn view(&self) -> Seq<Seq<i32>> {
        rows_of(self.x@)
    }
}

/// Why a forward pass failed.
#[derive(Clone, Copy, Debug, PartialEq, Eq, Structural)]
pub enum InferenceError {
    /// The feature vector's length differs from the model's input width.
    DimensionMismatch,
    /// The model's matrices are ragged, do not chain, or have no class.
    InternalShapeFault,
}

impl InferenceError {
    /// A short human-readable reason.
    pub fn message(&self) -> (r: &'static str) {
        match self {
            InferenceError::DimensionMismatch => "model-data length inconsistent",
            InferenceError::InternalShapeFault => "model weight shape inconsistent",
        }
    }
}

} // verus!
