//! The batch driver: one prediction per feature vector, in input order,
//! stopping at the first failing vector.

use vstd::prelude::*;

use crate::engine::{classify, inference_data};
use crate::model::{InferenceError, MnistData, MnistModel};

verus! {

/// The outcome of classifying `xs` in order: every prediction when each
/// vector succeeds, otherwise the error of the first vector that fails.
pub open spec fn batch_outcome(m: MnistModel, xs: Seq<Seq<i32>>) -> Result<Seq<usize>, InferenceError>
    decreases xs.len(),
{
    if xs.len() == 0 {
        Ok(Seq::empty())
    } else {
        match batch_outcome(m, xs.drop_last()) {
            Err(e) => Err(e),
            Ok(p) => match classify(m, xs.last()) {
                Err(e) => Err(e),
                Ok(k) => Ok(p.push(k)),
            },
        }
    }
}

/// Views a batch result as its predictions, or its error.
pub open spec fn outcome_view(r: Result<Vec<usize>, InferenceError>) -> Result<Seq<usize>, InferenceError> {
    match r {
        Ok(p) => Ok(p@),
        Err(e) => Err(e),
    }
}

/// A failure within a prefix of the batch is the failure of the whole batch.
pub proof fn lemma_failure_extends(m: MnistModel, xs: Seq<Seq<i32>>, k: int)
    requires
        0 <= k <= xs.len(),
        batch_outcome(m, xs.subrange(0, k)) is Err,
    ensures
        batch_outcome(m, xs) == batch_outcome(m, xs.subrange(0, k)),
    decreases xs.len() - k,
{
    if k < xs.len() {
        let longer = xs.subrange(0, k + 1);
        assert(longer.drop_last() =~= xs.subrange(0, k));
        lemma_failure_extends(m, xs, k + 1);
    } else {
        assert(xs.subrange(0, k) =~= xs);
    }
}

/// A batch succeeds exactly when every vector does, and then prediction `i`
/// is the class of vector `i`.
pub proof fn lemma_batch_success(m: MnistModel, xs: Seq<Seq<i32>>)
    ensures
        (batch_outcome(m, xs) is Ok) <==> (forall|i: int| 0 <= i < xs.len() ==> classify(m, #[trigger] xs[i]) is Ok),
        batch_outcome(m, xs) is Ok ==> {
            let p = batch_outcome(m, xs)->Ok_0;
            &&& p.len() == xs.len()
            &&& forall|i: int| 0 <= i < xs.len() ==> classify(m, #[trigger] xs[i]) == Ok::<usize, InferenceError>(p[i])
        },
    decreases xs.len(),
{
    if xs.len() > 0 {
        let t = xs.drop_last();
        lemma_batch_success(m, t);
        assert(forall|i: int| 0 <= i < t.len() ==> t[i] == xs[i]);
        if batch_outcome(m, t) is Err {
            let i = choose|i: int| 0 <= i < t.len() && !(classify(m, t[i]) is Ok);
            assert(!(classify(m, xs[i]) is Ok));
        }
    }
}

/// Classifies every feature vector of `data` with `model`.
pub fn inference(model: &MnistModel, data: &MnistData) -> (r: Result<Vec<usize>, InferenceError>)
    ensures
        outcome_view(r) == batch_outcome(*model, data@),
{
    let mut res: Vec<usize> = Vec::new();
    let mut i: usize = 0;
    while i < data.x.len()
        invariant
            i <= data.x.len(),
            batch_outcome(*model, data@.subrange(0, i as int)) == Ok::<Seq<usize>, InferenceError>(res@),
        decreases data.x.len() - i,
    {
        let ghost prefix = data@.subrange(0, i as int + 1);
        assert(prefix.drop_last() =~= data@.subrange(0, i as int));
        assert(prefix.last() == data.x@[i as int]@);
        match inference_data(model, &data.x[i]) {
            Ok(p) => {
                res.push(p);
            },
            Err(e) => {
                proof {
                    lemma_failure_extends(*model, data@, i as int + 1);
                }
                return Err(e);
            },
        }
        i = i + 1;
    }
    assert(data@.subrange(0, i as int) =~= data@);
    Ok(res)
}

/// The signed code of one forward pass: the predicted class where it fits in
/// an `i32`, and -1 on any failure.
pub open spec fn item_code(m: MnistModel, x: Seq<i32>) -> i32 {
    match classify(m, x) {
        Ok(k) => if k <= i32::MAX {
            k as i32
        } else {
            -1i32
        },
        Err(_) => -1i32,
    }
}

/// Classifies one feature vector and reports the outcome as a signed code.
pub fn item_status(model: &MnistModel, x: &Vec<i32>) -> (r: i32)
    ensures
        r == item_code(*model, x@),
        r >= 0 <==> classify(*model, x@) is Ok && classify(*model, x@)->Ok_0 <= i32::MAX,
{
    match inference_data(model, x) {
        Ok(k) => if k <= i32::MAX as usize {
            k as i32
        } else {
            -1
        },
        Err(_) => -1,
    }
}

} // verus!
