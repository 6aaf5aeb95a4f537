use qcuda::{
    ceil_div, check_mat_vec_sizes, dequantize_plan, dmmv_plan, mat_vec_plan, mmvq_plan, pad,
    quantize_q8_1_plan, set_force_dmmv, GgmlDType, LaunchDims, MatVecOptions, MatVecPlan, QError,
    MATRIX_ROW_PADDING,
};

const ALL: [GgmlDType; 14] = [
    GgmlDType::F32,
    GgmlDType::F16,
    GgmlDType::Q4_0,
    GgmlDType::Q4_1,
    GgmlDType::Q5_0,
    GgmlDType::Q5_1,
    GgmlDType::Q8_0,
    GgmlDType::Q8_1,
    GgmlDType::Q2K,
    GgmlDType::Q3K,
    GgmlDType::Q4K,
    GgmlDType::Q5K,
    GgmlDType::Q6K,
    GgmlDType::Q8K,
];

#[test]
fn ceil_div_rounds_up() {
    assert_eq!(ceil_div(0, 32), 0);
    assert_eq!(ceil_div(1, 32), 1);
    assert_eq!(ceil_div(32, 32), 1);
    assert_eq!(ceil_div(33, 32), 2);
    assert_eq!(ceil_div(usize::MAX, 2), usize::MAX / 2 + 1);
}

#[test]
fn pad_rounds_to_multiple() {
    assert_eq!(pad(0, 512), 0);
    assert_eq!(pad(1, 512), 512);
    assert_eq!(pad(256, 512), 512);
    assert_eq!(pad(512, 512), 512);
    assert_eq!(pad(513, 512), 1024);
}

#[test]
fn block_and_type_sizes() {
    let expected: [(usize, usize); 14] = [
        (1, 4),
        (1, 2),
        (32, 18),
        (32, 20),
        (32, 22),
        (32, 24),
        (32, 34),
        (32, 36),
        (256, 84),
        (256, 110),
        (256, 144),
        (256, 176),
        (256, 210),
        (256, 292),
    ];
    for (d, (bs, ts)) in ALL.iter().zip(expected.iter()) {
        assert_eq!(d.block_size(), *bs);
        assert_eq!(d.type_size(), *ts);
    }
}

#[test]
fn storage_len_is_ceiling_of_blocks() {
    for d in ALL.iter() {
        for n in [0usize, 1, 31, 32, 33, 255, 256, 257, 1000, 4096] {
            let expected = (n + d.block_size() - 1) / d.block_size() * d.type_size();
            assert_eq!(d.storage_len(n), Some(expected));
        }
    }
    assert_eq!(GgmlDType::Q4_0.storage_len(33), Some(36));
    assert_eq!(GgmlDType::Q6K.storage_len(257), Some(420));
    assert_eq!(GgmlDType::F32.storage_len(usize::MAX), None);
}

#[test]
fn fast_dequantize_set() {
    for d in ALL.iter() {
        let slow = matches!(d, GgmlDType::F32 | GgmlDType::F16 | GgmlDType::Q8_1);
        assert_eq!(d.has_fast_dequantize(), !slow);
    }
    assert!(!GgmlDType::Q8K.has_mat_vec_kernel());
    assert!(GgmlDType::Q6K.has_mat_vec_kernel());
}

#[test]
fn dequantize_plan_table() {
    let p = dequantize_plan(GgmlDType::Q4_0, 1024).unwrap();
    assert!(!p.is_k);
    assert_eq!(p.nb32, 32);
    assert_eq!(p.launch, LaunchDims { grid_x: 4, block_x: 32, block_y: 1 });
    assert_eq!(p.kernel_name(), "dequantize_block_q4_0");

    let p = dequantize_plan(GgmlDType::Q5_1, 1024).unwrap();
    assert_eq!(p.nb32, 1024);
    assert_eq!(p.launch, LaunchDims { grid_x: 2, block_x: 256, block_y: 1 });

    let p = dequantize_plan(GgmlDType::Q5_0, 1000).unwrap();
    assert_eq!(p.launch.grid_x, 2);

    let p = dequantize_plan(GgmlDType::Q3K, 257).unwrap();
    assert!(p.is_k);
    assert_eq!(p.launch, LaunchDims { grid_x: 2, block_x: 64, block_y: 1 });

    let p = dequantize_plan(GgmlDType::Q4K, 256).unwrap();
    assert_eq!(p.launch, LaunchDims { grid_x: 1, block_x: 32, block_y: 1 });
    assert_eq!(p.kernel_name(), "dequantize_block_q4_K");

    assert_eq!(dequantize_plan(GgmlDType::F16, 256), Err(QError::UnsupportedDtype(GgmlDType::F16)));
    assert_eq!(dequantize_plan(GgmlDType::Q8_1, 256), Err(QError::UnsupportedDtype(GgmlDType::Q8_1)));
}

#[test]
fn mat_vec_size_checks() {
    // 2 rows of 256 Q4_0 elements: 16 blocks of 18 bytes.
    assert_eq!(check_mat_vec_sizes(GgmlDType::Q4_0, 288, 256, 256, 2), Ok(()));
    assert_eq!(check_mat_vec_sizes(GgmlDType::Q4_0, 287, 256, 256, 2), Err(QError::ShapeMismatch));
    assert_eq!(check_mat_vec_sizes(GgmlDType::Q4_0, 288, 255, 256, 2), Err(QError::ShapeMismatch));
    assert_eq!(check_mat_vec_sizes(GgmlDType::Q4_0, 288, 256, usize::MAX, usize::MAX), Err(QError::ShapeMismatch));
}

#[test]
fn dmmv_plan_launch() {
    let p = dmmv_plan(GgmlDType::Q4_0, 288, 256, 256, 2).unwrap();
    assert_eq!(p.launch, LaunchDims { grid_x: 2, block_x: 32, block_y: 1 });
    assert_eq!(p.kernel_name(), "dequantize_mul_mat_vec_q4_0_cuda");
    assert_eq!(dmmv_plan(GgmlDType::Q8K, 292, 256, 256, 1), Err(QError::UnsupportedDtype(GgmlDType::Q8K)));
    assert_eq!(dmmv_plan(GgmlDType::Q8K, 291, 256, 256, 1), Err(QError::ShapeMismatch));
}

#[test]
fn cuda_quantize_q8_1() {
    let el = 256;
    let p = quantize_q8_1_plan(el);
    assert_eq!(p.kx, 256);
    assert_eq!(p.kx_padded, pad(el, MATRIX_ROW_PADDING));
    assert_eq!(p.kx_padded, 512);
    assert_eq!(p.launch, LaunchDims { grid_x: 2, block_x: 256, block_y: 1 });
    assert_eq!(p.kernel_name(), "quantize_q8_1");
}

#[test]
fn mmvq_plan_sizes() {
    let p = mmvq_plan(GgmlDType::Q4_0, 18 * 8, 256, 256, 1).unwrap();
    let q81 = GgmlDType::Q8_1;
    assert_eq!(p.y_q8_1_bytes, 512 * q81.type_size() / q81.block_size());
    assert_eq!(p.y_q8_1_bytes, 576);
    assert_eq!(p.launch, LaunchDims { grid_x: 1, block_x: 32, block_y: 4 });
    assert_eq!(p.kernel_name(), "mul_mat_vec_q4_0_q8_1_cuda");
    assert_eq!(mmvq_plan(GgmlDType::F32, 4096, 256, 256, 1), Err(QError::UnsupportedDtype(GgmlDType::F32)));
    assert_eq!(mmvq_plan(GgmlDType::Q4_0, 18 * 8, 200, 256, 1), Err(QError::ShapeMismatch));
}

#[test]
fn strategy_follows_toggle() {
    let mut opts = MatVecOptions { force_dmmv: false };
    let p = mat_vec_plan(&opts, GgmlDType::Q4_0, 144, 256, 256, 1).unwrap();
    assert!(matches!(p, MatVecPlan::ViaQ8_1(_)));
    set_force_dmmv(&mut opts, true);
    assert!(opts.force_dmmv);
    let p = mat_vec_plan(&opts, GgmlDType::Q4_0, 144, 256, 256, 1).unwrap();
    assert!(matches!(p, MatVecPlan::Dmmv(_)));
    set_force_dmmv(&mut opts, false);
    assert!(!opts.force_dmmv);
}
