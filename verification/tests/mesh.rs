use vulkanr::errors::VulkanRError;
use vulkanr::mesh::{check_heightfield, grid_indices, normal_dx_samples, normal_dz_samples};

#[test]
fn grid_2x2_exact_indices() {
    let idx = grid_indices(2, 2);
    assert_eq!(idx, vec![0, 2, 1, 2, 3, 1]);
}

#[test]
fn grid_3x4_counts_and_bounds() {
    let rows = 3usize;
    let cols = 4usize;
    let idx = grid_indices(rows, cols);
    assert_eq!(idx.len(), 6 * (rows - 1) * (cols - 1));
    for &k in &idx {
        assert!((k as usize) < rows * cols);
    }
    // First cell: base 0, next row starts at 4.
    assert_eq!(&idx[0..6], &[0, 4, 1, 4, 5, 1]);
    // Last cell (i=1, j=2): base 6, next 10.
    assert_eq!(&idx[30..36], &[6, 10, 7, 10, 11, 7]);
}

#[test]
fn heightfield_length_accepted_iff_it_fills_the_grid() {
    assert!(check_heightfield(6, 2, 3).is_ok());
    assert!(check_heightfield(5, 2, 3).is_err());
    assert!(check_heightfield(7, 2, 3).is_err());
}

#[test]
fn heightfield_length_mismatch_message() {
    let err = check_heightfield(5, 2, 3).unwrap_err();
    match err {
        VulkanRError::InvalidInput { param, reason } => {
            assert_eq!(param, "z_data");
            assert_eq!(reason, "z_data length 5 doesn't match rows*cols 6");
        }
        _ => panic!("unexpected error variant"),
    }
}

#[test]
fn normal_samples_central_in_interior() {
    // 3x3 grid, vertex (1,1): central differences on both axes.
    assert_eq!(normal_dx_samples(1, 1, 3, 3), (5, 3));
    assert_eq!(normal_dz_samples(1, 1, 3, 3), (7, 1));
}

#[test]
fn normal_samples_one_sided_at_boundaries() {
    // First column: forward difference; last column: backward difference.
    assert_eq!(normal_dx_samples(1, 0, 3, 3), (4, 3));
    assert_eq!(normal_dx_samples(1, 2, 3, 3), (5, 4));
    // First row: forward; last row: backward.
    assert_eq!(normal_dz_samples(0, 1, 3, 3), (4, 1));
    assert_eq!(normal_dz_samples(2, 1, 3, 3), (7, 4));
}

#[test]
fn flat_heightfield_gives_zero_slopes_everywhere() {
    // Both slope samples always lie inside the grid, so for a flat
    // heightfield every sampled height difference is exactly 0.0 and the
    // resulting normal is exactly (0, 1, 0).
    let rows = 4usize;
    let cols = 5usize;
    let z = vec![7.25f32; rows * cols];
    for i in 0..rows {
        for j in 0..cols {
            let (xp, xm) = normal_dx_samples(i, j, rows, cols);
            let (zp, zm) = normal_dz_samples(i, j, rows, cols);
            assert_eq!(z[xp] - z[xm], 0.0);
            assert_eq!(z[zp] - z[zm], 0.0);
        }
    }
}
