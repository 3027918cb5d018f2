use bem::{block_targets, classify_adjacency, Adjacency, DofMap};

// The vertices of the six cells of a mixed mesh on nine points: two
// quadrilaterals and four triangles.
fn mixed_cells() -> Vec<Vec<usize>> {
    vec![
        vec![0, 1, 3, 4],
        vec![3, 4, 6, 7],
        vec![1, 2, 5],
        vec![1, 5, 4],
        vec![4, 5, 8],
        vec![4, 8, 7],
    ]
}

#[test]
fn mixed_mesh_adjacency() {
    let c = mixed_cells();
    assert_eq!(classify_adjacency(&c[2], &c[3]), Adjacency::SharedEdge);
    assert_eq!(classify_adjacency(&c[0], &c[1]), Adjacency::SharedEdge);
    assert_eq!(classify_adjacency(&c[0], &c[3]), Adjacency::SharedEdge);
    assert_eq!(classify_adjacency(&c[0], &c[2]), Adjacency::SharedVertex);
    assert_eq!(classify_adjacency(&c[0], &c[4]), Adjacency::SharedVertex);
    assert_eq!(classify_adjacency(&c[1], &c[2]), Adjacency::Disjoint);
    assert_eq!(classify_adjacency(&c[2], &c[5]), Adjacency::Disjoint);
    for i in 0..6 {
        assert_eq!(classify_adjacency(&c[i], &c[i]), Adjacency::Identical);
    }
}

#[test]
fn adjacency_is_symmetric_on_mixed_mesh() {
    let c = mixed_cells();
    for i in 0..6 {
        for j in 0..6 {
            assert_eq!(classify_adjacency(&c[i], &c[j]), classify_adjacency(&c[j], &c[i]));
        }
    }
}

#[test]
fn identical_cells_in_another_vertex_order() {
    assert_eq!(classify_adjacency(&vec![1, 5, 4], &vec![4, 1, 5]), Adjacency::Identical);
    // A triangle on three of a quadrilateral's vertices is not the same cell.
    assert_eq!(classify_adjacency(&vec![0, 1, 3], &vec![0, 1, 3, 4]), Adjacency::SharedEdge);
}

#[test]
fn empty_cells_are_identical() {
    assert_eq!(classify_adjacency(&vec![], &vec![]), Adjacency::Identical);
    assert_eq!(classify_adjacency(&vec![], &vec![2, 3, 4]), Adjacency::Disjoint);
}

#[test]
fn only_disjoint_pairs_use_a_regular_rule() {
    assert!(!Adjacency::Disjoint.needs_singular_rule());
    assert!(Adjacency::SharedVertex.needs_singular_rule());
    assert!(Adjacency::SharedEdge.needs_singular_rule());
    assert!(Adjacency::Identical.needs_singular_rule());
}

#[test]
fn dofmap_rejects_dof_outside_global_size() {
    assert!(DofMap::new(vec![vec![0, 1], vec![1, 2]], 2).is_none());
    assert!(DofMap::new(vec![vec![0, 1], vec![1, 2]], 3).is_some());
    assert!(DofMap::new(vec![], 0).is_some());
    assert!(DofMap::new(vec![vec![0]], 0).is_none());
}

#[test]
fn dofmap_lookups() {
    let d = DofMap::new(vec![vec![4, 0, 2], vec![1, 3]], 5).unwrap();
    assert_eq!(d.global_size(), 5);
    assert_eq!(d.cell_count(), 2);
    assert_eq!(d.cell_dofs(1), &vec![1, 3]);
    assert_eq!(d.global_dof(0, 0), 4);
    assert_eq!(d.global_dof(0, 2), 2);
    assert_eq!(d.global_dof(1, 1), 3);
}

#[test]
fn block_targets_are_row_major() {
    let test = DofMap::new(vec![vec![4, 0, 2], vec![1, 3]], 5).unwrap();
    let trial = DofMap::new(vec![vec![0], vec![2, 1]], 3).unwrap();
    let t = block_targets(&test, 0, &trial, 1);
    assert_eq!(t, vec![(4, 2), (4, 1), (0, 2), (0, 1), (2, 2), (2, 1)]);
    let t = block_targets(&test, 1, &trial, 0);
    assert_eq!(t, vec![(1, 0), (3, 0)]);
}

#[test]
fn block_targets_of_swapped_pair_are_transposed() {
    let d = DofMap::new(vec![vec![0, 1, 3], vec![1, 2]], 4).unwrap();
    let ab = block_targets(&d, 0, &d, 1);
    let ba = block_targets(&d, 1, &d, 0);
    for i in 0..3 {
        for j in 0..2 {
            let (r, c) = ab[i * 2 + j];
            assert_eq!(ba[j * 3 + i], (c, r));
        }
    }
}

#[test]
fn discontinuous_degree_zero_mixed_mesh_is_six_by_six() {
    // One dof per cell: the single-layer matrix on the mixed mesh is 6 x 6,
    // and each cell pair adds to exactly one entry.
    let d = DofMap::new((0..6).map(|c| vec![c]).collect(), 6).unwrap();
    assert_eq!(d.global_size(), 6);
    for i in 0..6 {
        for j in 0..6 {
            assert_eq!(block_targets(&d, i, &d, j), vec![(i, j)]);
        }
    }
}

#[test]
fn empty_cell_gives_empty_block() {
    let d = DofMap::new(vec![vec![], vec![0, 1]], 2).unwrap();
    assert!(block_targets(&d, 0, &d, 1).is_empty());
    assert!(block_targets(&d, 1, &d, 0).is_empty());
}
