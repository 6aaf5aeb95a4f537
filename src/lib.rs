//! Quantized tensor storage on a CUDA device: block-format table, kernel
//! launch planning, matmul dispatch and the device-resident packed buffer.
pub mod arith;
pub mod device;
pub mod dispatch;
pub mod dtype;
pub mod error;
pub mod kernels;
pub mod layout;
pub mod storage;

pub use arith::{ceil_div, pad};
pub use dispatch::{route_matmul, Route};
pub use dtype::GgmlDType;
pub use error::QError;
pub use kernels::{
    check_mat_vec_sizes, dequantize_plan, dmmv_plan, mat_vec_plan, mmvq_plan, quantize_q8_1_plan,
    set_force_dmmv, DequantizePlan, DmmvPlan, LaunchDims, MatVecOptions, MatVecPlan, MmvqPlan,
    QuantizeQ8_1Plan, CUDA_DEQUANTIZE_BLOCK_SIZE, CUDA_QUANTIZE_BLOCK_SIZE, GGML_CUDA_MMV_Y,
    MATRIX_ROW_PADDING, MMVQ_BLOCK_ROWS, WARP_SIZE,
};
pub use layout::Layout;
pub use storage::{load_quantized, Dequantize, Forward, QCudaStorage};
