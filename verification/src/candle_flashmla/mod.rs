//! Candle integration: tensor validation, workspace allocation and launch preparation.

pub mod dense_decode;
pub mod dense_decode_launch;
pub mod dense_decode_laws;
pub mod dense_decode_plan;
pub mod error;
pub mod layout;
pub mod packing;
pub mod padding;
pub mod refusals;
pub mod sparse_decode;
pub mod sparse_decode_launch;
pub mod sparse_decode_laws;
pub mod sparse_decode_plan;
pub mod sparse_prefill;
pub mod sparse_prefill_laws;
pub mod tensor;
pub mod tensor_api;
pub mod workspace;

pub use dense_decode_launch::DenseDecodeOutput;
pub use dense_decode_plan::DenseDecodePlan;
pub use error::Error;
pub use sparse_decode_launch::SparseDecodeOutput;
pub use sparse_decode_plan::SparseDecodePlan;
pub use sparse_prefill::SparsePrefillOutput;
