use vstd::prelude::*;
use crate::error::QError;
use crate::layout::{dims_product, is_contiguous_spec, Layout};

verus! {

/// A right-hand operand of shape `[1, k]` or `[1, 1, k]`: a single vector.
pub open spec fn is_vec_dims(d: Seq<usize>) -> bool {
    (d.len() == 2 && d[0] == 1) || (d.len() == 3 && d[0] == 1 && d[1] == 1)
}

/// A single vector's element count is its last extent.
pub proof fn lemma_vec_len(d: Seq<usize>)
    requires
        is_vec_dims(d),
    ensures
        dims_product(d) == d.last(),
{
    reveal_with_fuel(dims_product, 4);
    let t = d.drop_first();
    if d.len() == 3 {
        let u = t.drop_first();
        assert(u.drop_first().len() == 0);
        assert(u[0] == d[2] && t[0] == 1 && d[0] == 1);
        assert(dims_product(u) == d[2]);
        assert(dims_product(t) == d[2]);
    } else {
        assert(t.drop_first().len() == 0);
        assert(t[0] == d[1] && d[0] == 1);
        assert(dims_product(t) == d[1]);
    }
}

/// The failure, if any, of multiplying a stored `self_dims` matrix by an operand
/// with extents `dims` and strides `stride`.
pub open spec fn route_error(self_dims: Seq<usize>, dims: Seq<usize>, stride: Seq<usize>) -> Option<QError> {
    if self_dims.len() != 2 {
        Some(QError::UnsupportedShape)
    } else if is_vec_dims(dims) {
        if !is_contiguous_spec(dims, stride) {
            Some(QError::RequiresContiguous)
        } else if dims.last() != self_dims[1] {
            Some(QError::DimensionMismatch)
        } else {
            None
        }
    } else if dims.len() != 2 && dims.len() != 3 {
        Some(QError::UnsupportedShape)
    } else if dims.last() != self_dims[1] {
        Some(QError::DimensionMismatch)
    } else {
        None
    }
}

/// A strided single-vector operand is refused with the contiguity error, whatever
/// its extents.
pub proof fn lemma_strided_vector_rejected(self_dims: Seq<usize>, dims: Seq<usize>, stride: Seq<usize>)
    requires
        self_dims.len() == 2,
        is_vec_dims(dims),
        !is_contiguous_spec(dims, stride),
    ensures
        route_error(self_dims, dims, stride) == Some(QError::RequiresContiguous),
{
}

/// An operand of rank two or three whose inner extent differs from the stored
/// matrix's column count is refused with the dimension error on either path
/// (a contiguous one, where it is a single vector).
pub proof fn lemma_inner_mismatch_rejected(self_dims: Seq<usize>, dims: Seq<usize>, stride: Seq<usize>)
    requires
        self_dims.len() == 2,
        dims.len() == 2 || dims.len() == 3,
        dims.last() != self_dims[1],
        is_vec_dims(dims) ==> is_contiguous_spec(dims, stride),
    ensures
        route_error(self_dims, dims, stride) == Some(QError::DimensionMismatch),
{
}

/// Where a matmul against a quantized `n x k` matrix goes.
#[derive(Debug)]
pub enum Route {
    /// A single vector: the matrix-vector engine, reading `[rhs_start, rhs_end)` of
    /// the operand's buffer.
    MatVec { nrows: usize, ncols: usize, rhs_start: usize, rhs_end: usize, out_dims: Vec<usize> },
    /// A batch of `b` matrices of `m x k`: full dequantization and a dense product.
    MatMul { b: usize, m: usize, n: usize, k: usize, out_dims: Vec<usize> },
}

/// Routes the product of the stored matrix of shape `self_dims` (rows, columns)
/// with the right-hand operand described by `rhs`.
pub fn route_matmul(self_dims: &Vec<usize>, rhs: &Layout) -> (r: Result<Route, QError>)
    requires
        rhs.start_offset + dims_product(rhs.dims@) <= usize::MAX,
    ensures
        r is Err <==> route_error(self_dims@, rhs.dims@, rhs.stride@) is Some,
        r matches Err(e) ==> route_error(self_dims@, rhs.dims@, rhs.stride@) == Some(e),
        r matches Ok(route) ==> (route is MatVec <==> is_vec_dims(rhs.dims@)),
        r matches Ok(Route::MatVec { nrows, ncols, rhs_start, rhs_end, out_dims }) ==> {
            &&& nrows == self_dims@[0]
            &&& ncols == self_dims@[1]
            &&& rhs_start == rhs.start_offset
            &&& rhs_end == rhs.start_offset + dims_product(rhs.dims@)
            &&& out_dims@ == (if rhs.dims@.len() == 3 { seq![1, 1, nrows] } else { seq![1, nrows] })
        },
        r matches Ok(Route::MatMul { b, m, n, k, out_dims }) ==> {
            &&& n == self_dims@[0]
            &&& k == self_dims@[1]
            &&& m == rhs.dims@[rhs.dims@.len() - 2]
            &&& b == (if rhs.dims@.len() == 3 { rhs.dims@[0] } else { 1 })
            &&& out_dims@ == rhs.dims@.update(rhs.dims@.len() - 1, n)
        },
{
    if self_dims.len() != 2 {
        return Err(QError::UnsupportedShape);
    }
    let n = self_dims[0];
    let k = self_dims[1];
    let d = &rhs.dims;
    let len = d.len();
    let is_vec = (len == 2 && d[0] == 1) || (len == 3 && d[0] == 1 && d[1] == 1);
    if is_vec {
        let (start, end) = match rhs.contiguous_offsets() {
            Some(o) => o,
            None => {
                return Err(QError::RequiresContiguous);
            },
        };
        if d[len - 1] != k {
            return Err(QError::DimensionMismatch);
        }
        let out_dims = if len == 3 {
            vec![1, 1, n]
        } else {
            vec![1, n]
        };
        proof {
            if len == 3 {
                assert(out_dims@ =~= seq![1, 1, n]);
            } else {
                assert(out_dims@ =~= seq![1, n]);
            }
        }
        Ok(Route::MatVec { nrows: n, ncols: k, rhs_start: start, rhs_end: end, out_dims })
    } else {
        if len != 2 && len != 3 {
            return Err(QError::UnsupportedShape);
        }
        if d[len - 1] != k {
            return Err(QError::DimensionMismatch);
        }
        let b = if len == 3 {
            d[0]
        } else {
            1
        };
        let m = d[len - 2];
        let mut out_dims = d.clone();
        out_dims.set(len - 1, n);
        Ok(Route::MatMul { b, m, n, k, out_dims })
    }
}

} // verus!
