use vstd::prelude::*;

verus! {

/// Product of all extents of a shape.
pub open spec fn dims_product(d: Seq<usize>) -> int
    decreases d.len(),
{
    if d.len() == 0 {
        1
    } else {
        d[0] * dims_product(d.drop_first())
    }
}

/// Row-major contiguity: each stride is the product of the extents after it.
pub open spec fn is_contiguous_spec(dims: Seq<usize>, stride: Seq<usize>) -> bool {
    &&& dims.len() == stride.len()
    &&& forall|i: int| 0 <= i < dims.len() ==> stride[i] == #[trigger] dims_product(dims.subrange(i + 1, dims.len() as int))
}

/// The view of a strided operand: extents, strides and offset into its buffer.
#[derive(Clone, Debug)]
pub struct Layout {
    pub dims: Vec<usize>,
    pub stride: Vec<usize>,
    pub start_offset: usize,
}

proof fn lemma_product_step(d: Seq<usize>, i: int)
    requires
        0 <= i < d.len(),
    ensures
        dims_product(d.subrange(i, d.len() as int)) == d[i] * dims_product(d.subrange(i + 1, d.len() as int)),
{
    assert(d.subrange(i, d.len() as int).drop_first() =~= d.subrange(i + 1, d.len() as int));
}

impl Layout {
    /// A layout over `dims` with row-major strides supplied by the caller.
    pub fn new(dims: Vec<usize>, stride: Vec<usize>, start_offset: usize) -> (r: Layout)
        ensures
            r.dims@ == dims@,
            r.stride@ == stride@,
            r.start_offset == start_offset,
    {
        Layout { dims, stride, start_offset }
    }

    /// The buffer range `[start, end)` that a contiguous operand occupies, or `None`
    /// where the operand is strided.
    pub fn contiguous_offsets(&self) -> (r: Option<(usize, usize)>)
        requires
            self.start_offset + dims_product(self.dims@) <= usize::MAX,
        ensures
            r is Some <==> is_contiguous_spec(self.dims@, self.stride@),
            r matches Some((a, b)) ==> a == self.start_offset && b == self.start_offset + dims_product(self.dims@),
    {
        let n = self.dims.len();
        if n != self.stride.len() {
            return None;
        }
        let ghost d = self.dims@;
        let mut acc: usize = 1;
        let mut i: usize = n;
        proof {
            assert(d.subrange(n as int, n as int).len() == 0);
        }
        while i > 0
            invariant
                n == d.len(),
                n == self.stride@.len(),
                d == self.dims@,
                self.start_offset + dims_product(d) <= usize::MAX,
                i <= n,
                acc == dims_product(d.subrange(i as int, n as int)),
                forall|j: int| i <= j < n ==> self.stride@[j] == #[trigger] dims_product(d.subrange(j + 1, n as int)),
            decreases i,
        {
            proof {
                lemma_product_step(d, i - 1);
                let (x, y) = (acc as int, d[i - 1] as int);
                assert(x * y == y * x) by (nonlinear_arith);
            }
            if self.stride[i - 1] != acc {
                proof {
                    let j = i - 1;
                    assert(self.stride@[j] != dims_product(d.subrange(j + 1, n as int)));
                }
                return None;
            }
            let next = acc.checked_mul(self.dims[i - 1]);
            match next {
                Some(v) => {
                    acc = v;
                },
                None => {
                    proof {
                        assert(dims_product(d.subrange(i - 1, n as int)) > usize::MAX);
                    }
                    if i - 1 == 0 {
                        proof {
                            assert(d.subrange(0, n as int) =~= d);
                            assert(dims_product(d) > usize::MAX);
                        }
                        return None;
                    }
                    proof {
                        let j = i - 2;
                        assert(self.stride@[j] != dims_product(d.subrange(j + 1, n as int)));
                    }
                    return None;
                },
            }
            i = i - 1;
        }
        proof {
            assert(d.subrange(0, n as int) =~= d);
        }
        Some((self.start_offset, self.start_offset + acc))
    }
}

} // verus!
