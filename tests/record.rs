use machine_learning_core::{
    accept_result, batch_record, count_matches, decode_result, encode_result, InferenceError,
    MnistData, MnistModel, MnistResult, CAPACITY, STATUS_FAILURE, STATUS_OK,
};

fn identity_model() -> MnistModel {
    MnistModel { w1: vec![vec![1, 0], vec![0, 1]], w2: vec![vec![1, 0], vec![0, 1]] }
}

#[test]
fn capacity_is_sixteen() {
    assert_eq!(CAPACITY, 16);
}

#[test]
fn round_trip_keeps_predictions() {
    let preds: Vec<usize> = vec![3, 1, 4, 1, 5];
    let rec = encode_result(&Ok(preds.clone()));
    assert_eq!(rec.res, STATUS_OK);
    assert_eq!(rec.n, 5);
    assert_eq!(rec.pred[..5].to_vec(), preds);
    assert!(rec.pred[5..].iter().all(|p| *p == 0));
    assert_eq!(decode_result(&rec), Some(preds));
}

#[test]
fn round_trip_at_full_capacity() {
    let preds: Vec<usize> = (0..16).collect();
    let rec = encode_result(&Ok(preds.clone()));
    assert_eq!(rec.res, STATUS_OK);
    assert_eq!(rec.n, 16);
    assert_eq!(decode_result(&rec), Some(preds));
}

#[test]
fn round_trip_empty_batch() {
    let rec = encode_result(&Ok(vec![]));
    assert_eq!(rec.res, STATUS_OK);
    assert_eq!(rec.n, 0);
    assert_eq!(decode_result(&rec), Some(vec![]));
}

#[test]
fn batch_over_capacity_fails() {
    let preds: Vec<usize> = vec![1; 17];
    let rec = encode_result(&Ok(preds));
    assert_eq!(rec.res, STATUS_FAILURE);
    assert!(rec.res != 0);
    assert!(rec.n <= 16);
    assert_eq!(decode_result(&rec), None);
}

#[test]
fn seventeen_items_through_the_guest_computation() {
    let data = MnistData { x: vec![vec![3, -1]; 17] };
    let rec = batch_record(&identity_model(), &data);
    assert_eq!(rec.res, STATUS_FAILURE);
    assert!(rec.n <= 16);
}

#[test]
fn engine_failure_gives_failure_record() {
    let rec = encode_result(&Err(InferenceError::DimensionMismatch));
    assert_eq!(rec.res, STATUS_FAILURE);
    assert_eq!(rec.n, 0);
    assert_eq!(rec.pred, [0usize; 16]);
    assert_eq!(decode_result(&rec), None);
}

#[test]
fn guest_computation_end_to_end() {
    let data = MnistData { x: vec![vec![3, -1], vec![-1, 3]] };
    let rec = batch_record(&identity_model(), &data);
    assert_eq!(rec.res, STATUS_OK);
    assert_eq!(rec.n, 2);
    assert_eq!(decode_result(&rec), Some(vec![0, 1]));
    let bad = MnistData { x: vec![vec![3, -1], vec![3]] };
    let rec = batch_record(&identity_model(), &bad);
    assert_eq!(rec.res, STATUS_FAILURE);
    assert_eq!(rec.n, 0);
}

#[test]
fn decode_refuses_failed_or_inconsistent_records() {
    let failed = MnistResult { n: 2, pred: [7; 16], res: -1 };
    assert_eq!(decode_result(&failed), None);
    let too_many = MnistResult { n: 17, pred: [7; 16], res: 0 };
    assert_eq!(decode_result(&too_many), None);
}

#[test]
fn unverified_receipt_is_not_trusted() {
    let rec = encode_result(&Ok(vec![2, 0]));
    assert_eq!(accept_result(false, &rec), None);
    assert_eq!(accept_result(true, &rec), Some(vec![2, 0]));
}

#[test]
fn counting_matches_against_answers() {
    assert_eq!(count_matches(&vec![0, 1, 2, 3], &vec![0, 2, 2, 3]), 3);
    assert_eq!(count_matches(&vec![0, 1], &vec![0, 1, 1]), 2);
    assert_eq!(count_matches(&vec![5, 1, 1], &vec![5]), 1);
    assert_eq!(count_matches(&vec![1], &vec![-1]), 0);
    assert_eq!(count_matches(&vec![], &vec![1]), 0);
}
