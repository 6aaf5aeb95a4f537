use vstd::prelude::*;
use std::sync::Arc;
use cudarc::driver::{CudaDevice, CudaSlice};
use crate::device::{alloc_zeros, buffer_len, device_bytes, dtoh_copy, htod_copy, share_device};
use crate::dispatch::{route_error, route_matmul, Route};
use crate::dtype::GgmlDType;
use crate::error::QError;
use crate::kernels::{dequantize_plan, dequantize_plan_spec, mat_vec_plan, mat_vec_plan_spec, q8_1_fits, DequantizePlan, MatVecOptions, MatVecPlan};
use crate::layout::{dims_product, Layout};

verus! {

/// A quantized tensor's packed blocks in device memory.
pub struct QCudaStorage {
    data: CudaSlice<u8>,
    dtype: GgmlDType,
    device: Arc<CudaDevice>,
}

/// How the elements of a storage are brought back to full precision.
#[derive(Debug)]
pub enum Dequantize {
    /// Launch the scheme's device kernel on the stored buffer.
    Kernel(DequantizePlan),
    /// Decode `block_len` blocks of `dtype`, copied to the host, one after the other.
    Host { dtype: GgmlDType, block_len: usize, blocks: Vec<u8> },
}

/// Whole blocks of `dtype` that `len` bytes hold.
pub open spec fn whole_blocks(dtype: GgmlDType, len: nat) -> nat {
    len / dtype.type_size_spec()
}

/// Why dequantizing `n` elements from `len` packed bytes of `dtype` cannot start.
pub open spec fn dequantize_error(dtype: GgmlDType, len: nat, n: nat) -> Option<QError> {
    if n % dtype.block_size_spec() != 0 {
        Some(QError::UnsupportedDtype(dtype))
    } else if whole_blocks(dtype, len) < n / dtype.block_size_spec() {
        Some(QError::ShapeMismatch)
    } else {
        None
    }
}

/// `d` is what dequantizing the first `n` elements of the packed `bytes` of `dtype`
/// comes to: the scheme's kernel over all `n` elements where it has one, else the
/// `n / block_size` leading blocks, copied to the host.
pub open spec fn dequantize_result(dtype: GgmlDType, bytes: Seq<u8>, n: usize, d: Dequantize) -> bool {
    match d {
        Dequantize::Kernel(p) => {
            &&& dtype.has_fast_dequantize_spec()
            &&& p == dequantize_plan_spec(dtype, n)
            &&& p.elem_count == n
        },
        Dequantize::Host { dtype: t, block_len, blocks } => {
            &&& !dtype.has_fast_dequantize_spec()
            &&& t == dtype
            &&& block_len * dtype.block_size_spec() == n
            &&& blocks@ == bytes.subrange(0, block_len * dtype.type_size_spec())
        },
    }
}

/// Two dequantizations do the same work: the same kernel plan, or the same host blocks.
pub open spec fn same_dequantize(a: Dequantize, b: Dequantize) -> bool {
    match (a, b) {
        (Dequantize::Kernel(p), Dequantize::Kernel(q)) => p == q,
        (
            Dequantize::Host { dtype: t1, block_len: l1, blocks: b1 },
            Dequantize::Host { dtype: t2, block_len: l2, blocks: b2 },
        ) => t1 == t2 && l1 == l2 && b1@ == b2@,
        _ => false,
    }
}

/// What a product with the stored matrix needs done.
#[derive(Debug)]
pub enum Forward {
    /// Matrix times the vector in `[rhs_start, rhs_end)` of the operand's buffer.
    MatVec { plan: MatVecPlan, rhs_start: usize, rhs_end: usize, out_dims: Vec<usize> },
    /// Dequantize the `n x k` matrix, then a dense `(b, m, n, k)` product.
    MatMul { dequantize: Dequantize, b: usize, m: usize, n: usize, k: usize, out_dims: Vec<usize> },
}

impl QCudaStorage {
    /// The packed bytes.
    pub closed spec fn bytes(&self) -> Seq<u8> {
        device_bytes(self.data)
    }

    pub closed spec fn scheme(&self) -> GgmlDType {
        self.dtype
    }

    /// The device context that owns the buffer, shared with other storages.
    pub closed spec fn dev(&self) -> Arc<CudaDevice> {
        self.device
    }

    /// The buffer holds whole blocks only.
    pub open spec fn wf(&self) -> bool {
        self.bytes().len() % self.scheme().type_size_spec() == 0
    }

    /// A zeroed storage for `el_count` elements of `dtype`.
    /// Fails with the device error where the byte count does not fit in `usize`.
    pub fn zeros(device: &Arc<CudaDevice>, el_count: usize, dtype: GgmlDType) -> (r: Result<Self, QError>)
        ensures
            r matches Err(e) ==> e == QError::Device,
            dtype.storage_len_spec(el_count as nat) > usize::MAX ==> r is Err,
            r matches Ok(s) ==> {
                &&& s.scheme() == dtype
                &&& s.dev() == *device
                &&& s.bytes() == Seq::new(dtype.storage_len_spec(el_count as nat) as nat, |i: int| 0u8)
                &&& s.wf()
            },
    {
        let size = match dtype.storage_len(el_count) {
            Some(v) => v,
            None => {
                return Err(QError::Device);
            },
        };
        proof {
            vstd::arithmetic::div_mod::lemma_mod_multiples_basic(
                crate::arith::ceil_div_spec(el_count as int, dtype.block_size_spec() as int),
                dtype.type_size_spec() as int,
            );
        }
        match alloc_zeros(device, size) {
            Ok(data) => Ok(QCudaStorage { data, device: share_device(device), dtype }),
            Err(_) => Err(QError::Device),
        }
    }

    pub fn dtype(&self) -> (r: GgmlDType)
        ensures
            r == self.scheme(),
    {
        self.dtype
    }

    pub fn device(&self) -> (r: &Arc<CudaDevice>)
        ensures
            *r == self.dev(),
    {
        &self.device
    }

    /// The device buffer, for launching kernels on it.
    pub fn buffer(&self) -> (r: &CudaSlice<u8>)
        ensures
            device_bytes(*r) == self.bytes(),
    {
        &self.data
    }

    pub fn storage_size_in_bytes(&self) -> (r: usize)
        ensures
            r == self.bytes().len(),
    {
        buffer_len(&self.data)
    }

    /// Prepares the dequantization of the first `elem_count` elements: a device kernel
    /// where the scheme has one, else the whole blocks copied to the host for decoding.
    pub fn dequantize(&self, elem_count: usize) -> (r: Result<Dequantize, QError>)
        ensures
            dequantize_error(self.scheme(), self.bytes().len(), elem_count as nat) matches Some(e) ==> r == Err::<Dequantize, QError>(e),
            dequantize_error(self.scheme(), self.bytes().len(), elem_count as nat) is None ==> {
                if self.scheme().has_fast_dequantize_spec() {
                    r matches Ok(Dequantize::Kernel(p)) && p == dequantize_plan_spec(self.scheme(), elem_count)
                } else {
                    r matches Err(e) ==> e == QError::Device
                }
            },
            r matches Ok(d) ==> dequantize_result(self.scheme(), self.bytes(), elem_count, d),
    {
        let bs = self.dtype.block_size();
        let ts = self.dtype.type_size();
        if elem_count % bs != 0 {
            return Err(QError::UnsupportedDtype(self.dtype));
        }
        let block_len = elem_count / bs;
        proof {
            vstd::arithmetic::div_mod::lemma_fundamental_div_mod(elem_count as int, bs as int);
            assert(block_len * bs == bs * block_len) by (nonlinear_arith);
        }
        let len = buffer_len(&self.data);
        if len / ts < block_len {
            return Err(QError::ShapeMismatch);
        }
        if self.dtype.has_fast_dequantize() {
            let p = dequantize_plan(self.dtype, elem_count);
            return match p {
                Ok(p) => Ok(Dequantize::Kernel(p)),
                Err(e) => Err(e),
            };
        }
        let host = match dtoh_copy(&self.device, &self.data) {
            Ok(v) => v,
            Err(_) => {
                return Err(QError::Device);
            },
        };
        proof {
            assert(block_len * ts <= len) by (nonlinear_arith)
                requires block_len <= len / ts, ts > 0;
        }
        let n = block_len * ts;
        let mut blocks: Vec<u8> = Vec::with_capacity(n);
        let mut i: usize = 0;
        while i < n
            invariant
                n <= host@.len(),
                i <= n,
                blocks@ == host@.subrange(0, i as int),
            decreases n - i,
        {
            blocks.push(host[i]);
            i = i + 1;
            proof {
                assert(blocks@ =~= host@.subrange(0, i as int));
            }
        }
        Ok(Dequantize::Host { dtype: self.dtype, block_len, blocks })
    }

    /// Replaces the packed buffer with `encoded`, the host encoding of `el_count`
    /// elements in this storage's scheme; the buffer keeps its byte length.
    pub fn quantize(&mut self, el_count: usize, encoded: &[u8]) -> (r: Result<(), QError>)
        ensures
            final(self).scheme() == old(self).scheme(),
            final(self).dev() == old(self).dev(),
            final(self).bytes().len() == old(self).bytes().len(),
            encoded@.len() != old(self).scheme().storage_len_spec(el_count as nat)
                || encoded@.len() != old(self).bytes().len() ==> r == Err::<(), QError>(QError::ShapeMismatch),
            encoded@.len() == old(self).scheme().storage_len_spec(el_count as nat)
                && encoded@.len() == old(self).bytes().len() ==> (r matches Err(e) ==> e == QError::Device),
            r is Err ==> final(self).bytes() == old(self).bytes(),
            r is Ok ==> final(self).bytes() == encoded@ && final(self).wf(),
    {
        let expected = self.dtype.storage_len(el_count);
        let elen = encoded.len();
        match expected {
            Some(n) => {
                if n != elen || elen != buffer_len(&self.data) {
                    return Err(QError::ShapeMismatch);
                }
            },
            None => {
                return Err(QError::ShapeMismatch);
            },
        }
        proof {
            vstd::arithmetic::div_mod::lemma_mod_multiples_basic(
                crate::arith::ceil_div_spec(el_count as int, self.dtype.block_size_spec() as int),
                self.dtype.type_size_spec() as int,
            );
        }
        match htod_copy(&self.device, encoded) {
            Ok(data) => {
                self.data = data;
                Ok(())
            },
            Err(_) => Err(QError::Device),
        }
    }

    /// Works out what the product of this `self_dims` matrix with the operand `rhs`
    /// needs: the matrix-vector engine for a single vector, else full dequantization
    /// and a dense product.
    pub fn fwd(&self, self_dims: &Vec<usize>, rhs: &Layout, opts: &MatVecOptions) -> (r: Result<Forward, QError>)
        requires
            rhs.start_offset + dims_product(rhs.dims@) <= usize::MAX,
            self_dims@.len() == 2 ==> self_dims@[0] * self_dims@[1] <= usize::MAX,
            self_dims@.len() == 2 ==> opts.force_dmmv || q8_1_fits(self_dims@[1] as nat),
        ensures
            route_error(self_dims@, rhs.dims@, rhs.stride@) matches Some(e) ==> r == Err::<Forward, QError>(e),
            r matches Ok(f) ==> route_error(self_dims@, rhs.dims@, rhs.stride@) is None
                && (f is MatVec <==> crate::dispatch::is_vec_dims(rhs.dims@)),
            r matches Ok(Forward::MatVec { plan, rhs_start, rhs_end, out_dims }) ==> {
                &&& plan == mat_vec_plan_spec(*opts, self.scheme(), self_dims@[1], self_dims@[0])
                &&& rhs_start == rhs.start_offset
                &&& rhs_end == rhs.start_offset + dims_product(rhs.dims@)
                &&& out_dims@ == (if rhs.dims@.len() == 3 { seq![1, 1, self_dims@[0]] } else { seq![1, self_dims@[0]] })
            },
            r matches Ok(Forward::MatMul { dequantize, b, m, n, k, out_dims }) ==> {
                &&& n == self_dims@[0]
                &&& k == self_dims@[1]
                &&& m == rhs.dims@[rhs.dims@.len() - 2]
                &&& b == (if rhs.dims@.len() == 3 { rhs.dims@[0] } else { 1 })
                &&& out_dims@ == rhs.dims@.update(rhs.dims@.len() - 1, n)
                &&& dequantize_error(self.scheme(), self.bytes().len(), (n * k) as nat) is None
                &&& dequantize_result(self.scheme(), self.bytes(), (n * k) as usize, dequantize)
            },
            route_error(self_dims@, rhs.dims@, rhs.stride@) is None && crate::dispatch::is_vec_dims(rhs.dims@) ==> (
                r matches Err(e) ==> e == (if crate::kernels::mat_vec_size_error(self.scheme(), self.bytes().len(),
                    self_dims@[1] as nat, self_dims@[1] as nat, self_dims@[0] as nat) {
                    QError::ShapeMismatch
                } else {
                    QError::UnsupportedDtype(self.scheme())
                })),
            route_error(self_dims@, rhs.dims@, rhs.stride@) is None && !crate::dispatch::is_vec_dims(rhs.dims@)
                && dequantize_error(self.scheme(), self.bytes().len(), (self_dims@[0] * self_dims@[1]) as nat) is None
                && !self.scheme().has_fast_dequantize_spec() ==> (r matches Err(e) ==> e == QError::Device),
            route_error(self_dims@, rhs.dims@, rhs.stride@) is None && crate::dispatch::is_vec_dims(rhs.dims@) ==> (r is Ok <==> (
                crate::kernels::data_elems_spec(self.scheme(), self.bytes().len()) >= self_dims@[1] * self_dims@[0]
                && self.scheme().has_mat_vec_kernel_spec())),
            route_error(self_dims@, rhs.dims@, rhs.stride@) is None && !crate::dispatch::is_vec_dims(rhs.dims@) ==> (
                dequantize_error(self.scheme(), self.bytes().len(), (self_dims@[0] * self_dims@[1]) as nat) matches Some(e)
                    ==> r == Err::<Forward, QError>(e)),
            route_error(self_dims@, rhs.dims@, rhs.stride@) is None && !crate::dispatch::is_vec_dims(rhs.dims@)
                && dequantize_error(self.scheme(), self.bytes().len(), (self_dims@[0] * self_dims@[1]) as nat) is None
                && self.scheme().has_fast_dequantize_spec() ==> r is Ok,
    {
        let route = route_matmul(self_dims, rhs)?;
        match route {
            Route::MatVec { nrows, ncols, rhs_start, rhs_end, out_dims } => {
                let data_len = buffer_len(&self.data);
                proof {
                    crate::dispatch::lemma_vec_len(rhs.dims@);
                }
                let plan = mat_vec_plan(opts, self.dtype, data_len, rhs_end - rhs_start, ncols, nrows)?;
                Ok(Forward::MatVec { plan, rhs_start, rhs_end, out_dims })
            },
            Route::MatMul { b, m, n, k, out_dims } => {
                let dequantize = self.dequantize(n * k)?;
                Ok(Forward::MatMul { dequantize, b, m, n, k, out_dims })
            },
        }
    }
}

/// A storage loaded from encoded blocks and one quantized into from the same
/// blocks dequantize alike: for every element count the same failure, and on
/// success the same kernel plan or the same host blocks.
pub proof fn lemma_load_agrees_with_quantize(
    loaded: QCudaStorage,
    quantized: QCudaStorage,
    encoded: Seq<u8>,
    n: usize,
    a: Dequantize,
    b: Dequantize,
)
    requires
        loaded.scheme() == quantized.scheme(),
        loaded.bytes() == encoded,
        quantized.bytes() == encoded,
        dequantize_result(loaded.scheme(), loaded.bytes(), n, a),
        dequantize_result(quantized.scheme(), quantized.bytes(), n, b),
    ensures
        dequantize_error(loaded.scheme(), loaded.bytes().len(), n as nat)
            == dequantize_error(quantized.scheme(), quantized.bytes().len(), n as nat),
        same_dequantize(a, b),
{
    let bs = loaded.scheme().block_size_spec() as int;
    match (a, b) {
        (Dequantize::Host { block_len: l1, .. }, Dequantize::Host { block_len: l2, .. }) => {
            assert(l1 == l2) by (nonlinear_arith)
                requires l1 * bs == l2 * bs, bs > 0;
        },
        _ => {},
    }
}

/// A storage holding `data`, blocks already encoded in `dtype`, copied to the device.
pub fn load_quantized(device: &Arc<CudaDevice>, data: &[u8], dtype: GgmlDType) -> (r: Result<QCudaStorage, QError>)
    ensures
        data@.len() % dtype.type_size_spec() != 0 ==> r == Err::<QCudaStorage, QError>(QError::ShapeMismatch),
        data@.len() % dtype.type_size_spec() == 0 ==> (r matches Err(e) ==> e == QError::Device),
        r matches Ok(s) ==> s.scheme() == dtype && s.dev() == *device && s.bytes() == data@ && s.wf(),
{
    if data.len() % dtype.type_size() != 0 {
        return Err(QError::ShapeMismatch);
    }
    match htod_copy(device, data) {
        Ok(buf) => Ok(QCudaStorage { data: buf, dtype, device: share_device(device) }),
        Err(_) => Err(QError::Device),
    }
}

} // verus!