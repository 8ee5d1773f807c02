//! The fixed-capacity result record that the guest commits, and its decoding
//! on the host side.

use vstd::prelude::*;

use crate::batch::{batch_outcome, inference, outcome_view};
use crate::model::{InferenceError, MnistData, MnistModel};

verus! {

/// How many predictions one record holds.
pub const CAPACITY: usize = 16;

/// Status of a record whose predictions are meaningful.
pub const STATUS_OK: i32 = 0;

/// Status of a record whose predictions must not be read.
pub const STATUS_FAILURE: i32 = -1;

/// A batch's predictions in a fixed-size array, with their count and a status.
#[derive(Clone, Copy, Debug, PartialEq, Eq)]
pub struct MnistResult {
    /// How many leading slots of `pred` hold predictions.
    pub n: usize,
    /// The predictions; slots from `n` on are zero.
    pub pred: [usize; CAPACITY],
    /// `STATUS_OK` only if everything went well.
    pub res: i32,
}

/// `len` zero slots.
pub open spec fn zeros(len: int) -> Seq<usize> {
    Seq::new(len as nat, |i: int| 0usize)
}

/// `r` is the record that encodes `outcome`: a batch of at most `CAPACITY`
/// predictions is copied in order with status `STATUS_OK`; a failed or
/// oversized batch gives status `STATUS_FAILURE`, no count and zero slots.
pub open spec fn encodes(r: MnistResult, outcome: Result<Seq<usize>, InferenceError>) -> bool {
    if outcome is Ok && outcome->Ok_0.len() <= CAPACITY {
        let p = outcome->Ok_0;
        &&& r.res == STATUS_OK
        &&& r.n == p.len()
        &&& r.pred@ == p + zeros(CAPACITY - p.len())
    } else {
        &&& r.res == STATUS_FAILURE
        &&& r.n == 0
        &&& r.pred@ == zeros(CAPACITY as int)
    }
}

/// The predictions a record carries: the first `n` slots when the status is
/// `STATUS_OK` and `n` is within capacity, none otherwise.
pub open spec fn decoded(r: MnistResult) -> Option<Seq<usize>> {
    if r.res == STATUS_OK && r.n <= CAPACITY {
        Some(r.pred@.take(r.n as int))
    } else {
        None
    }
}

/// Views a decoding result as a sequence.
pub open spec fn decoded_view(r: Option<Vec<usize>>) -> Option<Seq<usize>> {
    match r {
        Some(v) => Some(v@),
        None => None,
    }
}

/// Decoding the record of a successful batch of at most `CAPACITY`
/// predictions gives back those predictions, in order.
pub proof fn lemma_round_trip(r: MnistResult, p: Seq<usize>)
    requires
        p.len() <= CAPACITY,
        encodes(r, Ok(p)),
    ensures
        decoded(r) == Some(p),
{
    assert(r.pred@.take(r.n as int) =~= p);
}

/// Encodes a batch outcome into a record of capacity `CAPACITY`.
pub fn encode_result(outcome: &Result<Vec<usize>, InferenceError>) -> (r: MnistResult)
    ensures
        encodes(r, outcome_view(*outcome)),
        r.n <= CAPACITY,
{
    let mut pred: [usize; CAPACITY] = [0usize; CAPACITY];
    assert(pred@ =~= zeros(CAPACITY as int));
    match outcome {
        Ok(p) => {
            if p.len() > CAPACITY {
                return MnistResult { n: 0, pred, res: STATUS_FAILURE };
            }
            let mut i: usize = 0;
            while i < p.len()
                invariant
                    i <= p.len() <= CAPACITY,
                    forall|j: int| 0 <= j < i ==> pred@[j] == p@[j],
                    forall|j: int| i <= j < CAPACITY ==> pred@[j] == 0,
                decreases p.len() - i,
            {
                pred[i] = p[i];
                i = i + 1;
            }
            assert(pred@ =~= p@ + zeros(CAPACITY - p.len()));
            MnistResult { n: p.len(), pred, res: STATUS_OK }
        },
        Err(_) => MnistResult { n: 0, pred, res: STATUS_FAILURE },
    }
}

/// Reads the predictions out of a record, if its status allows it.
pub fn decode_result(rec: &MnistResult) -> (r: Option<Vec<usize>>)
    ensures
        decoded_view(r) == decoded(*rec),
{
    if rec.res != STATUS_OK || rec.n > CAPACITY {
        return None;
    }
    let mut out: Vec<usize> = Vec::new();
    let mut i: usize = 0;
    while i < rec.n
        invariant
            i <= rec.n <= CAPACITY,
            out@ == rec.pred@.take(i as int),
        decreases rec.n - i,
    {
        out.push(rec.pred[i]);
        i = i + 1;
        assert(out@ =~= rec.pred@.take(i as int));
    }
    Some(out)
}

/// The computation the guest runs between reading its inputs and committing:
/// classify the batch, then encode the outcome.
pub fn batch_record(model: &MnistModel, data: &MnistData) -> (r: MnistResult)
    ensures
        encodes(r, batch_outcome(*model, data@)),
{
    let outcome = inference(model, data);
    encode_result(&outcome)
}

} // verus!
