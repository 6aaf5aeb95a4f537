use vstd::prelude::*;
use crate::arith::{ceil_div_spec, lemma_ceil_div_bounds};

verus! {

/// The quantization schemes a packed buffer can hold.
#[allow(non_camel_case_types)]
#[derive(Clone, Copy, Debug, PartialEq, Eq, Structural)]
pub enum GgmlDType {
    F32,
    F16,
    Q4_0,
    Q4_1,
    Q5_0,
    Q5_1,
    Q8_0,
    Q8_1,
    Q2K,
    Q3K,
    Q4K,
    Q5K,
    Q6K,
    Q8K,
}

impl GgmlDType {
    /// Elements encoded by one block.
    pub open spec fn block_size_spec(self) -> nat {
        match self {
            GgmlDType::F32 | GgmlDType::F16 => 1,
            GgmlDType::Q4_0 | GgmlDType::Q4_1 | GgmlDType::Q5_0 | GgmlDType::Q5_1
            | GgmlDType::Q8_0 | GgmlDType::Q8_1 => 32,
            _ => 256,
        }
    }

    /// Bytes taken by one encoded block, metadata included.
    pub open spec fn type_size_spec(self) -> nat {
        match self {
            GgmlDType::F32 => 4,
            GgmlDType::F16 => 2,
            GgmlDType::Q4_0 => 18,
            GgmlDType::Q4_1 => 20,
            GgmlDType::Q5_0 => 22,
            GgmlDType::Q5_1 => 24,
            GgmlDType::Q8_0 => 34,
            GgmlDType::Q8_1 => 36,
            GgmlDType::Q2K => 84,
            GgmlDType::Q3K => 110,
            GgmlDType::Q4K => 144,
            GgmlDType::Q5K => 176,
            GgmlDType::Q6K => 210,
            GgmlDType::Q8K => 292,
        }
    }

    /// Bytes of packed storage for `n` elements: whole blocks, rounded up.
    pub open spec fn storage_len_spec(self, n: nat) -> int {
        ceil_div_spec(n as int, self.block_size_spec() as int) * self.type_size_spec()
    }

    /// Schemes with a device dequantization kernel.
    pub open spec fn has_fast_dequantize_spec(self) -> bool {
        !(self is F32 || self is F16 || self is Q8_1)
    }

    /// Schemes with device matrix-vector kernels (both strategies).
    pub open spec fn has_mat_vec_kernel_spec(self) -> bool {
        !(self is F32 || self is F16 || self is Q8_1 || self is Q8K)
    }

    /// Schemes whose device kernels read the block geometry from the encoding.
    pub open spec fn is_k_family_spec(self) -> bool {
        self is Q2K || self is Q3K || self is Q4K || self is Q5K || self is Q6K || self is Q8K
    }

    pub fn block_size(&self) -> (r: usize)
        ensures
            r == self.block_size_spec(),
            r > 0,
    {
        match self {
            GgmlDType::F32 | GgmlDType::F16 => 1,
            GgmlDType::Q4_0 | GgmlDType::Q4_1 | GgmlDType::Q5_0 | GgmlDType::Q5_1
            | GgmlDType::Q8_0 | GgmlDType::Q8_1 => 32,
            _ => 256,
        }
    }

    pub fn type_size(&self) -> (r: usize)
        ensures
            r == self.type_size_spec(),
            r > 0,
    {
        match self {
            GgmlDType::F32 => 4,
            GgmlDType::F16 => 2,
            GgmlDType::Q4_0 => 18,
            GgmlDType::Q4_1 => 20,
            GgmlDType::Q5_0 => 22,
            GgmlDType::Q5_1 => 24,
            GgmlDType::Q8_0 => 34,
            GgmlDType::Q8_1 => 36,
            GgmlDType::Q2K => 84,
            GgmlDType::Q3K => 110,
            GgmlDType::Q4K => 144,
            GgmlDType::Q5K => 176,
            GgmlDType::Q6K => 210,
            GgmlDType::Q8K => 292,
        }
    }

    pub fn has_fast_dequantize(&self) -> (r: bool)
        ensures
            r == self.has_fast_dequantize_spec(),
    {
        !matches!(self, GgmlDType::F32 | GgmlDType::F16 | GgmlDType::Q8_1)
    }

    pub fn has_mat_vec_kernel(&self) -> (r: bool)
        ensures
            r == self.has_mat_vec_kernel_spec(),
    {
        !matches!(self, GgmlDType::F32 | GgmlDType::F16 | GgmlDType::Q8_1 | GgmlDType::Q8K)
    }

    /// Packed bytes needed for `n` elements; `None` when that does not fit in `usize`.
    pub fn storage_len(&self, n: usize) -> (r: Option<usize>)
        ensures
            r matches Some(b) ==> b == self.storage_len_spec(n as nat),
            r is None <==> self.storage_len_spec(n as nat) > usize::MAX,
    {
        let blocks = crate::arith::ceil_div(n, self.block_size());
        blocks.checked_mul(self.type_size())
    }
}

/// The packed size of `n` elements is whole blocks, and the fewest whole blocks
/// that hold all `n` elements.
pub proof fn lemma_storage_len_whole_blocks(dtype: GgmlDType, n: nat)
    ensures
        dtype.storage_len_spec(n) % dtype.type_size_spec() as int == 0,
        dtype.storage_len_spec(n) / dtype.type_size_spec() as int * dtype.block_size_spec() >= n,
        dtype.storage_len_spec(n) / dtype.type_size_spec() as int * dtype.block_size_spec() < n + dtype.block_size_spec(),
{
    let bs = dtype.block_size_spec() as int;
    let ts = dtype.type_size_spec() as int;
    let c = ceil_div_spec(n as int, bs);
    lemma_ceil_div_bounds(n as int, bs);
    vstd::arithmetic::div_mod::lemma_mod_multiples_basic(c, ts);
    vstd::arithmetic::div_mod::lemma_div_multiples_vanish(c, ts);
}

} // verus!
