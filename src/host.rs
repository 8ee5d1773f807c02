//! Decisions the host takes on what comes back from the guest.

use vstd::prelude::*;

use crate::record::{decode_result, decoded, decoded_view, MnistResult};

verus! {

/// How many of the first `k` positions hold a prediction equal to the answer.
pub open spec fn matches_in(pred: Seq<usize>, answers: Seq<i32>, k: int) -> nat
    decreases k,
{
    if k <= 0 {
        0
    } else {
        matches_in(pred, answers, k - 1) + if pred[k - 1] as int == answers[k - 1] as int {
            1nat
        } else {
            0nat
        }
    }
}

/// The number of positions, up to the shorter of the two sequences, where
/// the prediction equals the ground-truth answer.
pub open spec fn match_count(pred: Seq<usize>, answers: Seq<i32>) -> nat {
    let k = if pred.len() <= answers.len() {
        pred.len()
    } else {
        answers.len()
    };
    matches_in(pred, answers, k as int)
}

/// Counts the predictions that agree with the ground truth, pairing them by
/// position.
pub fn count_matches(pred: &Vec<usize>, answers: &Vec<i32>) -> (r: usize)
    ensures
        r == match_count(pred@, answers@),
{
    let k: usize = if pred.len() <= answers.len() {
        pred.len()
    } else {
        answers.len()
    };
    let mut count: usize = 0;
    let mut i: usize = 0;
    while i < k
        invariant
            i <= k <= pred.len(),
            k <= answers.len(),
            count == matches_in(pred@, answers@, i as int),
            count <= i,
        decreases k - i,
    {
        if answers[i] >= 0 && pred[i] == answers[i] as usize {
            count = count + 1;
        }
        i = i + 1;
    }
    count
}

/// The predictions the host may trust: none unless the receipt verified
/// against the expected program, and then those the record carries.
pub fn accept_result(verified: bool, rec: &MnistResult) -> (r: Option<Vec<usize>>)
    ensures
        !verified ==> r is None,
        verified ==> decoded_view(r) == decoded(*rec),
{
    if !verified {
        return None;
    }
    decode_result(rec)
}

} // verus!
