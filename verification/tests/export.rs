use mesh2sculptr::error::ConvertError;
use mesh2sculptr::export::{
    header, remap_axes, voxel_record, voxel_records, voxel_table, VoxelRecord, COLOR_BLUE,
    COLOR_GREEN, COLOR_RED, MATERIAL,
};
use mesh2sculptr::obj::face_indices;
use mesh2sculptr::resolution::{validate_resolution, DEFAULT_RESOLUTION};

#[test]
fn header_names_the_eight_columns() {
    assert_eq!(header(), ["X", "Y", "Z", "level", "R", "G", "B", "mat"]);
}

#[test]
fn colour_and_material_are_fixed() {
    assert_eq!((COLOR_RED, COLOR_GREEN, COLOR_BLUE, MATERIAL), (233, 163, 201, 255));
}

#[test]
fn remap_exchanges_second_and_third() {
    assert_eq!(remap_axes([1, 2, 3]), [1, 3, 2]);
    assert_eq!(remap_axes([-4, 0, 9]), [-4, 9, 0]);
    assert_eq!(remap_axes([i32::MIN, i32::MAX, 0]), [i32::MIN, 0, i32::MAX]);
}

#[test]
fn remap_twice_is_the_identity() {
    for cell in [[1, 2, 3], [0, 0, 0], [-7, 8, -9], [5, 5, 6], [i32::MAX, i32::MIN, 1]] {
        assert_eq!(remap_axes(remap_axes(cell)), cell);
        assert_eq!(remap_axes(cell)[0], cell[0]);
    }
}

#[test]
fn record_of_one_cell() {
    assert_eq!(
        voxel_record([1, 2, 3], 12),
        VoxelRecord { x: 1, y: 3, z: 2, level: 12, red: 233, green: 163, blue: 201, material: 255 }
    );
}

#[test]
fn records_keep_count_and_order() {
    let cells = vec![[3, 2, 1], [0, 0, 0], [3, 2, 1], [-1, -2, -3]];
    let rows = voxel_records(&cells, 7);
    assert_eq!(rows.len(), cells.len());
    let positions: Vec<[i32; 3]> = rows.iter().map(|r| [r.x, r.y, r.z]).collect();
    assert_eq!(positions, vec![[3, 1, 2], [0, 0, 0], [3, 1, 2], [-1, -3, -2]]);
    assert!(rows.iter().all(|r| r.level == 7));
    assert!(rows.iter().all(|r| (r.red, r.green, r.blue, r.material) == (233, 163, 201, 255)));
}

#[test]
fn records_of_no_cells() {
    assert!(voxel_records(&vec![], 19).is_empty());
}

#[test]
fn table_carries_the_level_of_the_box() {
    let cells = vec![[-50, 10, 3], [49, -2, 100]];
    let rows = voxel_table(&cells, [-50, -2, 3], [49, 10, 100]).unwrap();
    assert_eq!(
        rows,
        vec![
            VoxelRecord {
                x: -50,
                y: 3,
                z: 10,
                level: 12,
                red: 233,
                green: 163,
                blue: 201,
                material: 255
            },
            VoxelRecord {
                x: 49,
                y: 100,
                z: -2,
                level: 12,
                red: 233,
                green: 163,
                blue: 201,
                material: 255
            },
        ]
    );
}

#[test]
fn table_refuses_a_grid_too_large() {
    let cells = vec![[524289, 0, 0]];
    assert_eq!(voxel_table(&cells, [524289, 0, 0], [524289, 0, 0]), Err(ConvertError::GridTooLarge));
    assert_eq!(
        voxel_table(&vec![], [i32::MAX, i32::MAX, i32::MAX], [i32::MIN, i32::MIN, i32::MIN]),
        Err(ConvertError::GridTooLarge)
    );
}

#[test]
fn faces_count_from_one() {
    assert_eq!(face_indices(&vec![0, 1, 2, 3, 4, 5]), vec![[1, 2, 3], [4, 5, 6]]);
    assert_eq!(face_indices(&vec![5, 9, 7]), vec![[6, 10, 8]]);
}

#[test]
fn faces_leave_out_indices_that_fill_no_triangle() {
    assert_eq!(face_indices(&vec![]), Vec::<[usize; 3]>::new());
    assert_eq!(face_indices(&vec![0, 1]), Vec::<[usize; 3]>::new());
    assert_eq!(face_indices(&vec![0, 1, 2, 3]), vec![[1, 2, 3]]);
}

#[test]
fn resolution_must_be_positive() {
    assert_eq!(validate_resolution(1), Ok(1));
    assert_eq!(validate_resolution(100), Ok(100));
    assert_eq!(validate_resolution(i32::MAX), Ok(2147483647));
    assert_eq!(validate_resolution(0), Err(ConvertError::InvalidResolution));
    assert_eq!(validate_resolution(-1), Err(ConvertError::InvalidResolution));
    assert_eq!(validate_resolution(i32::MIN), Err(ConvertError::InvalidResolution));
    assert_eq!(DEFAULT_RESOLUTION, 100);
}
