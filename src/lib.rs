//! Integer-only two-layer perceptron inference, with the fixed-capacity
//! result record that a constrained execution environment commits and the
//! host-side decisions taken on it.

pub mod model;
pub mod engine;
pub mod batch;
pub mod record;
pub mod host;

pub use batch::{inference, item_status};
pub use engine::{argmax, inference_data, relu};
pub use host::{accept_result, count_matches};
pub use model::{InferenceError, MnistData, MnistModel};
pub use record::{batch_record, decode_result, encode_result, MnistResult, CAPACITY, STATUS_FAILURE, STATUS_OK};
