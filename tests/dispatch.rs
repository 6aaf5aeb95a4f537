use qcuda::{route_matmul, Layout, QError, Route};

fn contiguous(dims: Vec<usize>) -> Layout {
    let mut stride = vec![0; dims.len()];
    let mut acc = 1;
    for i in (0..dims.len()).rev() {
        stride[i] = acc;
        acc *= dims[i];
    }
    Layout::new(dims, stride, 0)
}

#[test]
fn contiguous_offsets_of_row_major() {
    let l = Layout::new(vec![2, 3, 4], vec![12, 4, 1], 5);
    assert_eq!(l.contiguous_offsets(), Some((5, 29)));
    let l = Layout::new(vec![2, 3], vec![1, 2], 0);
    assert_eq!(l.contiguous_offsets(), None);
    let l = Layout::new(vec![2, 3], vec![3], 0);
    assert_eq!(l.contiguous_offsets(), None);
    let l = Layout::new(vec![], vec![], 7);
    assert_eq!(l.contiguous_offsets(), Some((7, 8)));
}

#[test]
fn vector_operand_routes_to_mat_vec() {
    let r = route_matmul(&vec![10, 64], &contiguous(vec![1, 64])).unwrap();
    match r {
        Route::MatVec { nrows, ncols, rhs_start, rhs_end, out_dims } => {
            assert_eq!((nrows, ncols, rhs_start, rhs_end), (10, 64, 0, 64));
            assert_eq!(out_dims, vec![1, 10]);
        }
        _ => panic!("expected the vector path"),
    }
    let r = route_matmul(&vec![10, 64], &contiguous(vec![1, 1, 64])).unwrap();
    match r {
        Route::MatVec { out_dims, .. } => assert_eq!(out_dims, vec![1, 1, 10]),
        _ => panic!("expected the vector path"),
    }
}

#[test]
fn matrix_operand_routes_to_mat_mul() {
    let r = route_matmul(&vec![10, 64], &contiguous(vec![3, 5, 64])).unwrap();
    match r {
        Route::MatMul { b, m, n, k, out_dims } => {
            assert_eq!((b, m, n, k), (3, 5, 10, 64));
            assert_eq!(out_dims, vec![3, 5, 10]);
        }
        _ => panic!("expected the matrix path"),
    }
    let r = route_matmul(&vec![10, 64], &contiguous(vec![2, 64])).unwrap();
    match r {
        Route::MatMul { b, m, out_dims, .. } => {
            assert_eq!((b, m), (1, 2));
            assert_eq!(out_dims, vec![2, 10]);
        }
        _ => panic!("expected the matrix path"),
    }
    // A strided matrix operand is fine: the dense engine reads its strides.
    let l = Layout::new(vec![2, 64], vec![1, 2], 0);
    assert!(matches!(route_matmul(&vec![10, 64], &l), Ok(Route::MatMul { .. })));
}

#[test]
fn inner_dimension_mismatch() {
    assert!(matches!(route_matmul(&vec![10, 64], &contiguous(vec![1, 63])), Err(QError::DimensionMismatch)));
    assert!(matches!(route_matmul(&vec![10, 64], &contiguous(vec![1, 1, 63])), Err(QError::DimensionMismatch)));
    assert!(matches!(route_matmul(&vec![10, 64], &contiguous(vec![4, 63])), Err(QError::DimensionMismatch)));
    assert!(matches!(route_matmul(&vec![10, 64], &contiguous(vec![2, 4, 63])), Err(QError::DimensionMismatch)));
}

#[test]
fn unsupported_shapes() {
    assert!(matches!(route_matmul(&vec![10, 64], &contiguous(vec![64])), Err(QError::UnsupportedShape)));
    assert!(matches!(route_matmul(&vec![10, 64], &contiguous(vec![2, 2, 2, 64])), Err(QError::UnsupportedShape)));
    assert!(matches!(route_matmul(&vec![10, 64, 1], &contiguous(vec![1, 64])), Err(QError::UnsupportedShape)));
}

#[test]
fn strided_vector_is_refused() {
    let l = Layout::new(vec![1, 64], vec![64, 2], 0);
    assert!(matches!(route_matmul(&vec![10, 64], &l), Err(QError::RequiresContiguous)));
    let l = Layout::new(vec![1, 1, 64], vec![64, 64, 3], 0);
    assert!(matches!(route_matmul(&vec![10, 64], &l), Err(QError::RequiresContiguous)));
}
