use life_grid::error::GridError;
use life_grid::mesh::{Quad, QUAD_INDEX_COUNT, QUAD_VERTEX_COUNT};
use life_grid::stages::{instance_cell, workgroup_count, WORKGROUP_EXTENT};

#[test]
fn standard_grid_takes_sixty_four_workgroups_a_side() {
    assert_eq!(WORKGROUP_EXTENT, 8);
    assert_eq!(workgroup_count(512), Ok(64));
    assert_eq!(workgroup_count(8), Ok(1));
    assert_eq!(workgroup_count(0), Ok(0));
    assert_eq!(workgroup_count(4_294_967_288), Ok(536_870_911));
}

#[test]
fn side_that_workgroups_cannot_tile_is_misaligned() {
    assert_eq!(workgroup_count(4), Err(GridError::Misaligned));
    assert_eq!(workgroup_count(7), Err(GridError::Misaligned));
    assert_eq!(workgroup_count(9), Err(GridError::Misaligned));
    assert_eq!(workgroup_count(510), Err(GridError::Misaligned));
    assert_eq!(workgroup_count(u32::MAX), Err(GridError::Misaligned));
}

#[test]
fn workgroups_of_the_standard_grid_cover_each_cell_once() {
    let size: u32 = 512;
    let groups = workgroup_count(size).unwrap();
    let mut updates = vec![0u8; (size * size) as usize];
    for group_y in 0..groups {
        for group_x in 0..groups {
            for local_y in 0..WORKGROUP_EXTENT {
                for local_x in 0..WORKGROUP_EXTENT {
                    let row = group_y * WORKGROUP_EXTENT + local_y;
                    let col = group_x * WORKGROUP_EXTENT + local_x;
                    assert!(row < size && col < size);
                    updates[(row * size + col) as usize] += 1;
                }
            }
        }
    }
    assert_eq!(groups * groups, 4096);
    assert_eq!(updates.len(), 262_144);
    assert!(updates.iter().all(|&count| count == 1));
}

#[test]
fn instance_finds_its_row_and_column() {
    assert_eq!(instance_cell(0, 512), Some((0, 0)));
    assert_eq!(instance_cell(511, 512), Some((0, 511)));
    assert_eq!(instance_cell(512, 512), Some((1, 0)));
    assert_eq!(instance_cell(1000, 512), Some((1, 488)));
    assert_eq!(instance_cell(262_143, 512), Some((511, 511)));
    assert_eq!(instance_cell(13, 4), Some((3, 1)));
}

#[test]
fn instance_beyond_the_field_has_no_cell() {
    assert_eq!(instance_cell(262_144, 512), None);
    assert_eq!(instance_cell(16, 4), None);
    assert_eq!(instance_cell(0, 0), None);
    assert_eq!(instance_cell(u32::MAX, 65_535), None);
    assert_eq!(instance_cell(u32::MAX, 65_536), Some((65_535, 65_535)));
    assert_eq!(instance_cell(5, u32::MAX), Some((0, 5)));
}

#[test]
fn quad_is_two_triangles_on_four_corners() {
    let quad = Quad::new();
    assert_eq!(quad.indices(), &[0, 1, 2, 0, 2, 3]);
    assert_eq!(quad.index_count(), 6);
    assert_eq!(QUAD_INDEX_COUNT, 6);
    assert_eq!(QUAD_VERTEX_COUNT, 4);
    for triangle in quad.indices().chunks(3) {
        assert!(triangle[0] != triangle[1]);
        assert!(triangle[1] != triangle[2]);
        assert!(triangle[0] != triangle[2]);
        assert!(triangle.iter().all(|&corner| corner < QUAD_VERTEX_COUNT));
    }
}

#[test]
fn index_bytes_are_two_to_an_index_in_the_byte_order_of_the_machine() {
    let quad = Quad::new();
    let mut expected: Vec<u8> = Vec::new();
    for index in [0u16, 1, 2, 0, 2, 3] {
        expected.extend_from_slice(&index.to_ne_bytes());
    }
    assert_eq!(quad.index_bytes(), expected.as_slice());
    assert_eq!(quad.index_bytes().len(), 12);
    let total: u32 = quad.index_bytes().iter().map(|&b| b as u32).sum();
    assert_eq!(total, 8);
    let low_byte_first: [u8; 12] = [0, 0, 1, 0, 2, 0, 0, 0, 2, 0, 3, 0];
    let high_byte_first: [u8; 12] = [0, 0, 0, 1, 0, 2, 0, 0, 0, 2, 0, 3];
    assert!(quad.index_bytes() == low_byte_first || quad.index_bytes() == high_byte_first);
}
