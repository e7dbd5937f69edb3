//! Checked parameters, workspace sizing and tensor validation for FlashMLA sparse and dense
//! attention kernels.

pub mod arch;
pub mod build;
pub mod candle_flashmla;
pub mod convert;
pub mod dense_decode;
pub mod device;
pub mod error;
pub mod refusals;
pub mod sparse_decode;
pub mod sparse_prefill;
pub mod sys;
pub mod text;
pub mod workspace;

pub use arch::Arch;
pub use dense_decode::DenseDecodeConfig;
pub use dense_decode::DenseDecodeDims;
pub use dense_decode::DenseDecodeLaunchParams;
pub use dense_decode::DenseDecodePlanMeta;
pub use dense_decode::DenseDecodePlanParams;
pub use dense_decode::DenseDecodeStrides;
pub use device::DeviceInfo;
pub use error::Error;
pub use sparse_decode::SparseDecodeConfig;
pub use sparse_decode::SparseDecodeDims;
pub use sparse_decode::SparseDecodeLaunchParams;
pub use sparse_decode::SparseDecodePlanMeta;
pub use sparse_decode::SparseDecodePlanParams;
pub use sparse_decode::SparseDecodeStrides;
pub use sparse_prefill::SparsePrefillConfig;
pub use sparse_prefill::SparsePrefillDims;
pub use sparse_prefill::SparsePrefillLaunchParams;
pub use sparse_prefill::SparsePrefillStrides;
pub use workspace::WorkspaceLayout;
