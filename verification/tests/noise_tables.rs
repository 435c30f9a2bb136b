use raytrace::perlin::{perlin_generate_perm, permute, PerlinTables, POINT_COUNT};

#[test]
fn generated_table_is_a_permutation() {
    let mut table = vec![0i32; POINT_COUNT];
    perlin_generate_perm(&mut table);
    assert_eq!(table.len(), POINT_COUNT);
    let mut sorted = table.clone();
    sorted.sort();
    let identity: Vec<i32> = (0..POINT_COUNT as i32).collect();
    assert_eq!(sorted, identity);
}

#[test]
fn permute_keeps_the_elements() {
    let mut values: Vec<i32> = vec![5, -1, 42, 42, 0, 7, 9, 3, 2, 8];
    let mut expected = values.clone();
    permute(&mut values, 10);
    let mut shuffled = values.clone();
    shuffled.sort();
    expected.sort();
    assert_eq!(shuffled, expected);
}

#[test]
fn permute_leaves_the_tail_alone() {
    let mut values: Vec<i32> = (0..20).collect();
    permute(&mut values, 10);
    assert_eq!(&values[10..], &[10, 11, 12, 13, 14, 15, 16, 17, 18, 19]);
}

#[test]
fn tables_are_permutations() {
    let tables = PerlinTables::new();
    for t in [&tables.perm_x, &tables.perm_y, &tables.perm_z] {
        let mut sorted = t.clone();
        sorted.sort();
        let identity: Vec<i32> = (0..POINT_COUNT as i32).collect();
        assert_eq!(sorted, identity);
    }
}

#[test]
fn corner_index_stays_in_gradient_table() {
    let tables = PerlinTables::new();
    for &(i, j, k) in &[(0, 0, 0), (-1, -7, 3), (1000, -1000, 255), (i32::MIN, i32::MAX, -256)] {
        for di in 0..2 {
            for dj in 0..2 {
                for dk in 0..2 {
                    let idx = tables.corner_index(i, j, k, di, dj, dk);
                    assert!(idx < 256);
                }
            }
        }
    }
}

#[test]
fn corner_index_hashes_through_the_tables() {
    let tables = PerlinTables::new();
    let (i, j, k) = (-3, 17, 129);
    for di in 0..2usize {
        for dj in 0..2usize {
            for dk in 0..2usize {
                let expected = (tables.perm_x[((i + di as i32) & 0xFF) as usize]
                    ^ tables.perm_y[((j + dj as i32) & 0xFF) as usize]
                    ^ tables.perm_z[((k + dk as i32) & 0xFF) as usize])
                    as usize;
                assert_eq!(tables.corner_index(i, j, k, di, dj, dk), expected);
            }
        }
    }
}
