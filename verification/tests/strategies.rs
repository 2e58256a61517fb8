use pixel_mapper::{
    NamedPixelMapper, NamedPixelMapperType, UArrangeMapper, UFoldConfigError,
};

fn mapper_for(token: &str, chain: usize, parallel: usize) -> NamedPixelMapper {
    NamedPixelMapperType::from_str(token)
        .unwrap()
        .create(chain, parallel)
        .unwrap()
}

#[test]
fn mirror_size_is_identity() {
    let m = mapper_for("Mirror:H", 4, 1);
    assert_eq!(m.get_size_mapping(128, 64), [128, 64]);
    let m = mapper_for("Mirror:V", 4, 1);
    assert_eq!(m.get_size_mapping(31, 7), [31, 7]);
}

#[test]
fn mirror_horizontal_reverses_columns() {
    let m = mapper_for("Mirror:H", 4, 1);
    assert_eq!(m.map_visible_to_matrix(8, 4, 0, 0), [7, 0]);
    assert_eq!(m.map_visible_to_matrix(8, 4, 7, 3), [0, 3]);
    assert_eq!(m.map_visible_to_matrix(8, 4, 2, 1), [5, 1]);
}

#[test]
fn mirror_vertical_reverses_rows() {
    let m = mapper_for("Mirror:V", 4, 1);
    assert_eq!(m.map_visible_to_matrix(8, 4, 0, 0), [0, 3]);
    assert_eq!(m.map_visible_to_matrix(8, 4, 7, 3), [7, 0]);
    assert_eq!(m.map_visible_to_matrix(8, 4, 2, 1), [2, 2]);
}

#[test]
fn mirror_twice_is_identity() {
    for &(w, h) in &[(8usize, 4usize), (64, 32), (1, 1)] {
        for &token in &["Mirror:H", "Mirror:V"] {
            let m = mapper_for(token, 4, 1);
            for &(x, y) in &[(0usize, 0usize), (w - 1, h - 1), (w / 2, h / 3)] {
                let p = m.map_visible_to_matrix(w, h, x, y);
                let q = m.map_visible_to_matrix(w, h, p[0], p[1]);
                assert_eq!(q, [x, y]);
            }
        }
    }
}

#[test]
fn rotate_size_swaps_for_quarter_turns() {
    assert_eq!(mapper_for("Rotate:90", 4, 1).get_size_mapping(10, 20), [20, 10]);
    assert_eq!(mapper_for("Rotate:270", 4, 1).get_size_mapping(10, 20), [20, 10]);
    assert_eq!(mapper_for("Rotate:0", 4, 1).get_size_mapping(10, 20), [10, 20]);
    assert_eq!(mapper_for("Rotate:180", 4, 1).get_size_mapping(10, 20), [10, 20]);
}

#[test]
fn rotate_zero_is_identity() {
    let m = mapper_for("Rotate:0", 4, 1);
    assert_eq!(m.get_size_mapping(6, 4), [6, 4]);
    assert_eq!(m.map_visible_to_matrix(6, 4, 2, 1), [2, 1]);
    assert_eq!(m.map_visible_to_matrix(6, 4, 5, 3), [5, 3]);
}

#[test]
fn rotate_formulas_by_angle() {
    // 90: (w - y - 1, x); input ranges over the swapped visible space.
    let m = mapper_for("Rotate:90", 4, 1);
    assert_eq!(m.map_visible_to_matrix(6, 4, 3, 5), [0, 3]);
    // 180: (w - x - 1, h - y - 1).
    let m = mapper_for("Rotate:180", 4, 1);
    assert_eq!(m.map_visible_to_matrix(6, 4, 1, 2), [4, 1]);
    // 270: (y, h - x - 1).
    let m = mapper_for("Rotate:270", 4, 1);
    assert_eq!(m.map_visible_to_matrix(6, 4, 3, 5), [5, 0]);
}

#[test]
fn rotate_four_quarter_turns_is_identity() {
    let r = mapper_for("Rotate:90", 4, 1);
    // Four chained quarter turns on a 6x4 matrix: the stage dimensions
    // alternate between (6, 4) and (4, 6).
    for &(x, y) in &[(2usize, 1usize), (0, 0), (5, 3)] {
        let p3 = r.map_visible_to_matrix(4, 6, x, y);
        let p2 = r.map_visible_to_matrix(6, 4, p3[0], p3[1]);
        let p1 = r.map_visible_to_matrix(4, 6, p2[0], p2[1]);
        let p0 = r.map_visible_to_matrix(6, 4, p1[0], p1[1]);
        assert_eq!(p0, [x, y]);
    }
    // Sizes come back to the original after four turns.
    let s1 = r.get_size_mapping(6, 4);
    let s2 = r.get_size_mapping(s1[0], s1[1]);
    let s3 = r.get_size_mapping(s2[0], s2[1]);
    let s4 = r.get_size_mapping(s3[0], s3[1]);
    assert_eq!(s4, [6, 4]);
}

#[test]
fn ufold_chain_1_fails() {
    assert_eq!(
        UArrangeMapper::new_with_parameters(1, 1).err(),
        Some(UFoldConfigError::ChainTooShort)
    );
    assert!(NamedPixelMapperType::UMapper.create(1, 1).is_err());
}

#[test]
fn ufold_chain_3_fails() {
    assert_eq!(
        UArrangeMapper::new_with_parameters(3, 1).err(),
        Some(UFoldConfigError::ChainNotEven)
    );
    assert!(NamedPixelMapperType::UMapper.create(3, 1).is_err());
}

#[test]
fn ufold_chain_4_succeeds() {
    let m = UArrangeMapper::new_with_parameters(4, 2).unwrap();
    assert_eq!(m.parallel, 2);
    assert!(NamedPixelMapperType::UMapper.create(4, 1).is_ok());
}

#[test]
fn ufold_error_messages() {
    let e = UArrangeMapper::new_with_parameters(1, 1).unwrap_err();
    assert_eq!(
        e.message(),
        "U-mapper: need at least '--chain_length 4' for useful folding"
    );
    let e = UArrangeMapper::new_with_parameters(5, 1).unwrap_err();
    assert_eq!(
        e.message(),
        "U-mapper: Chain (--chain_length) needs to be divisible by two"
    );
}

#[test]
fn ufold_sizing_halves_width_and_doubles_height() {
    let m = mapper_for("U-mapper", 4, 1);
    assert_eq!(m.get_size_mapping(128, 64), [64, 128]);
    // Width truncates to the 64-pixel boundary before folding.
    assert_eq!(m.get_size_mapping(127, 64), [32, 128]);
    assert_eq!(m.get_size_mapping(63, 10), [0, 20]);
}

#[test]
fn ufold_uneven_height_diagnostic() {
    let m = UArrangeMapper::new_with_parameters(4, 3).unwrap();
    assert!(m.height_unevenly_split(64));
    let m = UArrangeMapper::new_with_parameters(4, 2).unwrap();
    assert!(!m.height_unevenly_split(64));
}

#[test]
fn ufold_top_half_shifts_into_right_half() {
    // matrixHeight=64, parallel=1: panelHeight=64, slabHeight=128.
    let m = mapper_for("U-mapper", 4, 1);
    assert_eq!(m.map_visible_to_matrix(128, 64, 0, 0), [64, 0]);
    assert_eq!(m.map_visible_to_matrix(128, 64, 10, 63), [74, 63]);
}

#[test]
fn ufold_bottom_half_mirrors_columns_and_rows() {
    // visibleWidth=64; a bottom-half point (y >= panelHeight) maps to
    // (visibleWidth - x - 1, slabHeight - y - 1).
    let m = mapper_for("U-mapper", 4, 1);
    assert_eq!(m.map_visible_to_matrix(128, 64, 5, 64), [58, 63]);
    assert_eq!(m.map_visible_to_matrix(128, 64, 0, 127), [63, 0]);
}

#[test]
fn ufold_parallel_chains_stack_folds() {
    // parallel=2, matrixHeight=64: panelHeight=32, slabHeight=64.
    let m = mapper_for("U-mapper", 8, 2);
    // Top half of the second fold: baseY = (70/64)*32 = 32, localY = 6.
    assert_eq!(m.map_visible_to_matrix(128, 64, 3, 70), [67, 38]);
    // Bottom half of the first fold: localY = 40 >= 32.
    assert_eq!(m.map_visible_to_matrix(128, 64, 3, 40), [60, 23]);
}

#[test]
fn chain_mirror_then_rotate_composes() {
    // Mirror(horizontal) then Rotate(90) on a 4x2 matrix: the mirror sees
    // the true matrix, the rotation maps from the chain's visible space
    // (2, 4); the composed transform is (x, y) -> (y, x).
    let mirror = mapper_for("Mirror:H", 4, 1);
    let rotate = mapper_for("Rotate:90", 4, 1);
    let s1 = mirror.get_size_mapping(4, 2);
    assert_eq!(s1, [4, 2]);
    let s2 = rotate.get_size_mapping(s1[0], s1[1]);
    assert_eq!(s2, [2, 4]);
    for &(x, y) in &[(1usize, 3usize), (0, 0), (1, 0)] {
        let p = rotate.map_visible_to_matrix(4, 2, x, y);
        let q = mirror.map_visible_to_matrix(4, 2, p[0], p[1]);
        // Manual composition of the two formulas: the rotation sends
        // (x, y) to (w - y - 1, x), the mirror then to (y, x).
        assert_eq!(q, [y, x]);
    }
}

#[test]
fn create_binds_the_parsed_descriptor() {
    let d = NamedPixelMapperType::from_str("Rotate:270").unwrap();
    let m = d.create(4, 1).unwrap();
    assert_eq!(m.get_size_mapping(10, 20), [20, 10]);
    let d = NamedPixelMapperType::from_str("U-mapper").unwrap();
    let m = d.create(8, 1).unwrap();
    assert_eq!(m.get_size_mapping(128, 64), [64, 128]);
}
