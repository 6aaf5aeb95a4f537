use vstd::prelude::*;
use crate::arith::{ceil_div, ceil_div_spec, pad, pad_spec};
use crate::dtype::GgmlDType;
use crate::error::QError;

verus! {

pub const WARP_SIZE: usize = 32;
pub const GGML_CUDA_MMV_Y: usize = 1;
pub const CUDA_QUANTIZE_BLOCK_SIZE: usize = 256;
pub const CUDA_DEQUANTIZE_BLOCK_SIZE: usize = 256;
pub const MATRIX_ROW_PADDING: usize = 512;
/// Rows of the thread block of the quantized-activation matrix-vector kernel.
pub const MMVQ_BLOCK_ROWS: usize = 4;

/// Grid and thread-block extents of one kernel launch (unused axes are 1).
#[derive(Clone, Copy, Debug, PartialEq, Eq, Structural)]
pub struct LaunchDims {
    pub grid_x: usize,
    pub block_x: usize,
    pub block_y: usize,
}

/// Which of the two matrix-vector strategies a caller wants.
#[derive(Clone, Copy, Debug, PartialEq, Eq, Structural)]
pub struct MatVecOptions {
    /// Always use the direct dequantize-and-accumulate kernel.
    pub force_dmmv: bool,
}

/// Selects (or deselects) the direct dequantize-and-accumulate strategy.
pub fn set_force_dmmv(opts: &mut MatVecOptions, f: bool)
    ensures
        final(opts).force_dmmv == f,
{
    opts.force_dmmv = f;
}

/// How to launch the device dequantization kernel of one scheme.
#[derive(Clone, Copy, Debug, PartialEq, Eq, Structural)]
pub struct DequantizePlan {
    pub dtype: GgmlDType,
    pub elem_count: usize,
    /// K-family kernels take only the packed buffer and the output.
    pub is_k: bool,
    /// The sub-block count handed to the other kernels.
    pub nb32: usize,
    pub launch: LaunchDims,
}

pub open spec fn is_q5(dtype: GgmlDType) -> bool {
    dtype is Q5_0 || dtype is Q5_1
}

pub open spec fn dequantize_grid_spec(dtype: GgmlDType, n: nat) -> int {
    if is_q5(dtype) {
        ceil_div_spec(n as int, 2 * CUDA_DEQUANTIZE_BLOCK_SIZE)
    } else {
        ceil_div_spec(n as int, 256)
    }
}

pub open spec fn dequantize_block_dim_spec(dtype: GgmlDType) -> nat {
    match dtype {
        GgmlDType::Q5_0 | GgmlDType::Q5_1 => CUDA_DEQUANTIZE_BLOCK_SIZE as nat,
        GgmlDType::Q2K | GgmlDType::Q3K | GgmlDType::Q5K | GgmlDType::Q6K => 64,
        _ => 32,
    }
}

pub open spec fn dequantize_nb32_spec(dtype: GgmlDType, n: nat) -> nat {
    if is_q5(dtype) {
        n
    } else if dtype.is_k_family_spec() {
        0
    } else {
        n / 32
    }
}

pub open spec fn dequantize_plan_spec(dtype: GgmlDType, elem_count: usize) -> DequantizePlan {
    DequantizePlan {
        dtype,
        elem_count,
        is_k: dtype.is_k_family_spec(),
        nb32: dequantize_nb32_spec(dtype, elem_count as nat) as usize,
        launch: LaunchDims {
            grid_x: dequantize_grid_spec(dtype, elem_count as nat) as usize,
            block_x: dequantize_block_dim_spec(dtype) as usize,
            block_y: 1,
        },
    }
}

/// Plans the device dequantization of `elem_count` elements.
pub fn dequantize_plan(dtype: GgmlDType, elem_count: usize) -> (r: Result<DequantizePlan, QError>)
    ensures
        r is Err <==> !dtype.has_fast_dequantize_spec(),
        r matches Err(e) ==> e == QError::UnsupportedDtype(dtype),
        r matches Ok(p) ==> p == dequantize_plan_spec(dtype, elem_count),
{
    if !dtype.has_fast_dequantize() {
        return Err(QError::UnsupportedDtype(dtype));
    }
    let nb = ceil_div(elem_count, 256);
    let (is_k, block_x, grid_x): (bool, usize, usize) = match dtype {
        GgmlDType::Q4_0 | GgmlDType::Q4_1 | GgmlDType::Q8_0 => (false, 32, nb),
        GgmlDType::Q5_0 | GgmlDType::Q5_1 => (
            false,
            CUDA_DEQUANTIZE_BLOCK_SIZE,
            ceil_div(elem_count, 2 * CUDA_DEQUANTIZE_BLOCK_SIZE),
        ),
        GgmlDType::Q4K | GgmlDType::Q8K => (true, 32, nb),
        _ => (true, 64, nb),
    };
    let nb32: usize = if is_k {
        0
    } else if matches!(dtype, GgmlDType::Q5_0 | GgmlDType::Q5_1) {
        elem_count
    } else {
        elem_count / 32
    };
    Ok(DequantizePlan { dtype, elem_count, is_k, nb32, launch: LaunchDims { grid_x, block_x, block_y: 1 } })
}

/// Elements that a packed buffer of `data_len` bytes holds, counting whole blocks only.
pub open spec fn data_elems_spec(dtype: GgmlDType, data_len: nat) -> int {
    ((data_len / dtype.type_size_spec()) * dtype.block_size_spec()) as int
}

/// The operand sizes fail the matrix-vector contract.
pub open spec fn mat_vec_size_error(
    dtype: GgmlDType,
    data_len: nat,
    y_len: nat,
    ncols: nat,
    nrows: nat,
) -> bool {
    data_elems_spec(dtype, data_len) < ncols * nrows || y_len != ncols
}

/// Checks that a packed `nrows x ncols` matrix of `data_len` bytes and a vector of
/// `y_len` elements can be multiplied.
pub fn check_mat_vec_sizes(
    dtype: GgmlDType,
    data_len: usize,
    y_len: usize,
    ncols: usize,
    nrows: usize,
) -> (r: Result<(), QError>)
    ensures
        r is Err <==> mat_vec_size_error(dtype, data_len as nat, y_len as nat, ncols as nat, nrows as nat),
        r matches Err(e) ==> e == QError::ShapeMismatch,
{
    let blocks = data_len / dtype.type_size();
    let bs = dtype.block_size();
    proof {
        let (b, m, c, w) = (blocks as int, bs as int, ncols as int, nrows as int);
        assert(0 <= b <= u64::MAX && 0 <= m <= 256 ==> b * m <= u64::MAX * 256) by (nonlinear_arith);
        assert(0 <= c <= u64::MAX && 0 <= w <= u64::MAX ==> c * w <= u64::MAX * u64::MAX) by (nonlinear_arith);
    }
    let too_small = (blocks as u128) * (bs as u128) < (ncols as u128) * (nrows as u128);
    if too_small || y_len != ncols {
        Err(QError::ShapeMismatch)
    } else {
        Ok(())
    }
}

/// How to run the direct dequantize-and-accumulate matrix-vector kernel.
#[derive(Clone, Copy, Debug, PartialEq, Eq, Structural)]
pub struct DmmvPlan {
    pub dtype: GgmlDType,
    pub ncols: usize,
    pub nrows: usize,
    pub launch: LaunchDims,
}

pub open spec fn dmmv_plan_spec(dtype: GgmlDType, ncols: usize, nrows: usize) -> DmmvPlan {
    DmmvPlan {
        dtype,
        ncols,
        nrows,
        launch: LaunchDims { grid_x: nrows, block_x: WARP_SIZE, block_y: GGML_CUDA_MMV_Y },
    }
}

/// Plans the direct dequantize-and-accumulate product of an `nrows x ncols` matrix.
pub fn dmmv_plan(
    dtype: GgmlDType,
    data_len: usize,
    y_len: usize,
    ncols: usize,
    nrows: usize,
) -> (r: Result<DmmvPlan, QError>)
    ensures
        r matches Err(e) ==> (if mat_vec_size_error(dtype, data_len as nat, y_len as nat, ncols as nat, nrows as nat) {
            e == QError::ShapeMismatch
        } else {
            e == QError::UnsupportedDtype(dtype)
        }),
        r is Ok <==> !mat_vec_size_error(dtype, data_len as nat, y_len as nat, ncols as nat, nrows as nat)
            && dtype.has_mat_vec_kernel_spec(),
        r matches Ok(p) ==> p == dmmv_plan_spec(dtype, ncols, nrows),
{
    check_mat_vec_sizes(dtype, data_len, y_len, ncols, nrows)?;
    if !dtype.has_mat_vec_kernel() {
        return Err(QError::UnsupportedDtype(dtype));
    }
    let grid_x = ceil_div(nrows, GGML_CUDA_MMV_Y);
    Ok(DmmvPlan { dtype, ncols, nrows, launch: LaunchDims { grid_x, block_x: WARP_SIZE, block_y: GGML_CUDA_MMV_Y } })
}

/// How to quantize a float vector into 8-bit activation blocks on the device.
#[derive(Clone, Copy, Debug, PartialEq, Eq, Structural)]
pub struct QuantizeQ8_1Plan {
    /// Logical element count.
    pub kx: usize,
    /// Element count padded to a whole number of row-padding units.
    pub kx_padded: usize,
    pub launch: LaunchDims,
}

/// The element count, padded, has room in `usize` for its 8-bit activation encoding.
pub open spec fn q8_1_fits(kx: nat) -> bool {
    pad_spec(kx as int, MATRIX_ROW_PADDING as int) * 36 <= usize::MAX
}

pub open spec fn quantize_q8_1_plan_spec(kx: usize) -> QuantizeQ8_1Plan {
    QuantizeQ8_1Plan {
        kx,
        kx_padded: pad_spec(kx as int, MATRIX_ROW_PADDING as int) as usize,
        launch: LaunchDims {
            grid_x: (pad_spec(kx as int, MATRIX_ROW_PADDING as int) / 256) as usize,
            block_x: CUDA_QUANTIZE_BLOCK_SIZE,
            block_y: 1,
        },
    }
}

/// Plans the quantization of `kx` floats into 8-bit activation blocks.
pub fn quantize_q8_1_plan(kx: usize) -> (r: QuantizeQ8_1Plan)
    requires
        q8_1_fits(kx as nat),
    ensures
        r == quantize_q8_1_plan_spec(kx),
        r.kx_padded % MATRIX_ROW_PADDING == 0,
        kx <= r.kx_padded < kx + MATRIX_ROW_PADDING,
{
    let kx_padded = pad(kx, MATRIX_ROW_PADDING);
    let grid_x = ceil_div(kx_padded, CUDA_QUANTIZE_BLOCK_SIZE);
    proof {
        crate::arith::lemma_ceil_div_bounds(kx_padded as int, 256);
        assert(kx_padded as int % 256 == 0) by {
            vstd::arithmetic::div_mod::lemma_mod_mod(kx_padded as int, 256, 2);
        }
    }
    QuantizeQ8_1Plan { kx, kx_padded, launch: LaunchDims { grid_x, block_x: CUDA_QUANTIZE_BLOCK_SIZE, block_y: 1 } }
}

/// How to run the quantize-then-integer-dot matrix-vector strategy.
#[derive(Clone, Copy, Debug, PartialEq, Eq, Structural)]
pub struct MmvqPlan {
    pub dtype: GgmlDType,
    pub ncols: usize,
    pub nrows: usize,
    /// Bytes of the 8-bit activation copy of the vector.
    pub y_q8_1_bytes: usize,
    pub quantize: QuantizeQ8_1Plan,
    pub launch: LaunchDims,
}

pub open spec fn mmvq_plan_spec(dtype: GgmlDType, ncols: usize, nrows: usize) -> MmvqPlan {
    MmvqPlan {
        dtype,
        ncols,
        nrows,
        y_q8_1_bytes: (pad_spec(ncols as int, MATRIX_ROW_PADDING as int) * 36 / 32) as usize,
        quantize: quantize_q8_1_plan_spec(ncols),
        launch: LaunchDims { grid_x: nrows, block_x: WARP_SIZE, block_y: MMVQ_BLOCK_ROWS },
    }
}

/// Plans the quantize-then-integer-dot product of an `nrows x ncols` matrix.
pub fn mmvq_plan(
    dtype: GgmlDType,
    data_len: usize,
    y_len: usize,
    ncols: usize,
    nrows: usize,
) -> (r: Result<MmvqPlan, QError>)
    requires
        q8_1_fits(ncols as nat),
    ensures
        r matches Err(e) ==> (if mat_vec_size_error(dtype, data_len as nat, y_len as nat, ncols as nat, nrows as nat) {
            e == QError::ShapeMismatch
        } else {
            e == QError::UnsupportedDtype(dtype)
        }),
        r is Ok <==> !mat_vec_size_error(dtype, data_len as nat, y_len as nat, ncols as nat, nrows as nat)
            && dtype.has_mat_vec_kernel_spec(),
        r matches Ok(p) ==> p == mmvq_plan_spec(dtype, ncols, nrows),
{
    check_mat_vec_sizes(dtype, data_len, y_len, ncols, nrows)?;
    if !dtype.has_mat_vec_kernel() {
        return Err(QError::UnsupportedDtype(dtype));
    }
    let quantize = quantize_q8_1_plan(ncols);
    let q81 = GgmlDType::Q8_1;
    let y_q8_1_bytes = quantize.kx_padded * q81.type_size() / q81.block_size();
    Ok(MmvqPlan {
        dtype,
        ncols,
        nrows,
        y_q8_1_bytes,
        quantize,
        launch: LaunchDims { grid_x: nrows, block_x: WARP_SIZE, block_y: MMVQ_BLOCK_ROWS },
    })
}

/// The matrix-vector strategy chosen for one product.
#[derive(Clone, Copy, Debug, PartialEq, Eq, Structural)]
pub enum MatVecPlan {
    Dmmv(DmmvPlan),
    ViaQ8_1(MmvqPlan),
}

pub open spec fn mat_vec_plan_spec(opts: MatVecOptions, dtype: GgmlDType, ncols: usize, nrows: usize) -> MatVecPlan {
    if opts.force_dmmv {
        MatVecPlan::Dmmv(dmmv_plan_spec(dtype, ncols, nrows))
    } else {
        MatVecPlan::ViaQ8_1(mmvq_plan_spec(dtype, ncols, nrows))
    }
}

/// Plans `matrix(nrows x ncols, packed in data_len bytes) x vector(y_len)` with the
/// strategy that `opts` selects.
pub fn mat_vec_plan(
    opts: &MatVecOptions,
    dtype: GgmlDType,
    data_len: usize,
    y_len: usize,
    ncols: usize,
    nrows: usize,
) -> (r: Result<MatVecPlan, QError>)
    requires
        opts.force_dmmv || q8_1_fits(ncols as nat),
    ensures
        r matches Err(e) ==> (if mat_vec_size_error(dtype, data_len as nat, y_len as nat, ncols as nat, nrows as nat) {
            e == QError::ShapeMismatch
        } else {
            e == QError::UnsupportedDtype(dtype)
        }),
        r is Ok <==> !mat_vec_size_error(dtype, data_len as nat, y_len as nat, ncols as nat, nrows as nat)
            && dtype.has_mat_vec_kernel_spec(),
        r matches Ok(p) ==> p == mat_vec_plan_spec(*opts, dtype, ncols, nrows),
{
    if opts.force_dmmv {
        let p = dmmv_plan(dtype, data_len, y_len, ncols, nrows)?;
        Ok(MatVecPlan::Dmmv(p))
    } else {
        let p = mmvq_plan(dtype, data_len, y_len, ncols, nrows)?;
        Ok(MatVecPlan::ViaQ8_1(p))
    }
}

/// The device dequantization kernel of each scheme that has one.
pub open spec fn dequantize_kernel_spec(dtype: GgmlDType) -> Seq<char> {
    match dtype {
        GgmlDType::Q4_0 => "dequantize_block_q4_0"@,
        GgmlDType::Q4_1 => "dequantize_block_q4_1"@,
        GgmlDType::Q5_0 => "dequantize_block_q5_0"@,
        GgmlDType::Q5_1 => "dequantize_block_q5_1"@,
        GgmlDType::Q8_0 => "dequantize_block_q8_0"@,
        GgmlDType::Q2K => "dequantize_block_q2_K"@,
        GgmlDType::Q3K => "dequantize_block_q3_K"@,
        GgmlDType::Q4K => "dequantize_block_q4_K"@,
        GgmlDType::Q5K => "dequantize_block_q5_K"@,
        GgmlDType::Q6K => "dequantize_block_q6_K"@,
        _ => "dequantize_block_q8_K"@,
    }
}

impl DequantizePlan {
    /// The device kernel of this plan's scheme.
    pub fn kernel_name(&self) -> (r: &'static str)
        ensures
            r@ == dequantize_kernel_spec(self.dtype),
    {
        match self.dtype {
            GgmlDType::Q4_0 => "dequantize_block_q4_0",
            GgmlDType::Q4_1 => "dequantize_block_q4_1",
            GgmlDType::Q5_0 => "dequantize_block_q5_0",
            GgmlDType::Q5_1 => "dequantize_block_q5_1",
            GgmlDType::Q8_0 => "dequantize_block_q8_0",
            GgmlDType::Q2K => "dequantize_block_q2_K",
            GgmlDType::Q3K => "dequantize_block_q3_K",
            GgmlDType::Q4K => "dequantize_block_q4_K",
            GgmlDType::Q5K => "dequantize_block_q5_K",
            GgmlDType::Q6K => "dequantize_block_q6_K",
            _ => "dequantize_block_q8_K",
        }
    }
}

/// The direct dequantize-and-accumulate kernel of each scheme that has one.
pub open spec fn dmmv_kernel_spec(dtype: GgmlDType) -> Seq<char> {
    match dtype {
        GgmlDType::Q4_0 => "dequantize_mul_mat_vec_q4_0_cuda"@,
        GgmlDType::Q4_1 => "dequantize_mul_mat_vec_q4_1_cuda"@,
        GgmlDType::Q5_0 => "dequantize_mul_mat_vec_q5_0_cuda"@,
        GgmlDType::Q5_1 => "dequantize_mul_mat_vec_q5_1_cuda"@,
        GgmlDType::Q8_0 => "dequantize_mul_mat_vec_q8_0_cuda"@,
        GgmlDType::Q2K => "dequantize_mul_mat_vec_q2_k"@,
        GgmlDType::Q3K => "dequantize_mul_mat_vec_q3_k"@,
        GgmlDType::Q4K => "dequantize_mul_mat_vec_q4_k"@,
        GgmlDType::Q5K => "dequantize_mul_mat_vec_q5_k"@,
        _ => "dequantize_mul_mat_vec_q6_k"@,
    }
}

impl DmmvPlan {
    /// The device kernel of this plan's scheme.
    pub fn kernel_name(&self) -> (r: &'static str)
        ensures
            r@ == dmmv_kernel_spec(self.dtype),
    {
        match self.dtype {
            GgmlDType::Q4_0 => "dequantize_mul_mat_vec_q4_0_cuda",
            GgmlDType::Q4_1 => "dequantize_mul_mat_vec_q4_1_cuda",
            GgmlDType::Q5_0 => "dequantize_mul_mat_vec_q5_0_cuda",
            GgmlDType::Q5_1 => "dequantize_mul_mat_vec_q5_1_cuda",
            GgmlDType::Q8_0 => "dequantize_mul_mat_vec_q8_0_cuda",
            GgmlDType::Q2K => "dequantize_mul_mat_vec_q2_k",
            GgmlDType::Q3K => "dequantize_mul_mat_vec_q3_k",
            GgmlDType::Q4K => "dequantize_mul_mat_vec_q4_k",
            GgmlDType::Q5K => "dequantize_mul_mat_vec_q5_k",
            _ => "dequantize_mul_mat_vec_q6_k",
        }
    }
}

/// The integer-dot kernel of each scheme that has one.
pub open spec fn mmvq_kernel_spec(dtype: GgmlDType) -> Seq<char> {
    match dtype {
        GgmlDType::Q4_0 => "mul_mat_vec_q4_0_q8_1_cuda"@,
        GgmlDType::Q4_1 => "mul_mat_vec_q4_1_q8_1_cuda"@,
        GgmlDType::Q5_0 => "mul_mat_vec_q5_0_q8_1_cuda"@,
        GgmlDType::Q5_1 => "mul_mat_vec_q5_1_q8_1_cuda"@,
        GgmlDType::Q8_0 => "mul_mat_vec_q8_0_q8_1_cuda"@,
        GgmlDType::Q2K => "mul_mat_vec_q2_K_q8_1_cuda"@,
        GgmlDType::Q3K => "mul_mat_vec_q3_K_q8_1_cuda"@,
        GgmlDType::Q4K => "mul_mat_vec_q4_K_q8_1_cuda"@,
        GgmlDType::Q5K => "mul_mat_vec_q5_K_q8_1_cuda"@,
        _ => "mul_mat_vec_q6_K_q8_1_cuda"@,
    }
}

impl MmvqPlan {
    /// The integer-dot kernel of this plan's scheme.
    pub fn kernel_name(&self) -> (r: &'static str)
        ensures
            r@ == mmvq_kernel_spec(self.dtype),
    {
        match self.dtype {
            GgmlDType::Q4_0 => "mul_mat_vec_q4_0_q8_1_cuda",
            GgmlDType::Q4_1 => "mul_mat_vec_q4_1_q8_1_cuda",
            GgmlDType::Q5_0 => "mul_mat_vec_q5_0_q8_1_cuda",
            GgmlDType::Q5_1 => "mul_mat_vec_q5_1_q8_1_cuda",
            GgmlDType::Q8_0 => "mul_mat_vec_q8_0_q8_1_cuda",
            GgmlDType::Q2K => "mul_mat_vec_q2_K_q8_1_cuda",
            GgmlDType::Q3K => "mul_mat_vec_q3_K_q8_1_cuda",
            GgmlDType::Q4K => "mul_mat_vec_q4_K_q8_1_cuda",
            GgmlDType::Q5K => "mul_mat_vec_q5_K_q8_1_cuda",
            _ => "mul_mat_vec_q6_K_q8_1_cuda",
        }
    }
}

impl QuantizeQ8_1Plan {
    /// The device kernel that encodes the vector.
    pub fn kernel_name(&self) -> (r: &'static str)
        ensures
            r@ == "quantize_q8_1"@,
    {
        "quantize_q8_1"
    }
}

} // verus!
