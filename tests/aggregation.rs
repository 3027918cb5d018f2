use bem::{aggregation_map, block_targets, DofMap};

// Two triangles (0, 1, 2) and (1, 3, 2) sharing an edge: degree-1
// discontinuous dofs, three per cell, and continuous dofs on the vertices.
fn discontinuous() -> DofMap {
    DofMap::new(vec![vec![0, 1, 2], vec![3, 4, 5]], 6).unwrap()
}

fn continuous() -> DofMap {
    DofMap::new(vec![vec![0, 1, 2], vec![1, 3, 2]], 4).unwrap()
}

#[test]
fn discontinuous_dofs_aggregate_onto_vertices() {
    let g = aggregation_map(&discontinuous(), &continuous()).unwrap();
    assert_eq!(g, vec![Some(0), Some(1), Some(2), Some(1), Some(3), Some(2)]);
}

#[test]
fn aggregated_targets_match_continuous_targets() {
    let fine = discontinuous();
    let coarse = continuous();
    let g = aggregation_map(&fine, &coarse).unwrap();
    for a in 0..2 {
        for b in 0..2 {
            let ft = block_targets(&fine, a, &fine, b);
            let ct = block_targets(&coarse, a, &coarse, b);
            assert_eq!(ft.len(), ct.len());
            for (f, c) in ft.iter().zip(ct.iter()) {
                assert_eq!(g[f.0], Some(c.0));
                assert_eq!(g[f.1], Some(c.1));
            }
        }
    }
}

#[test]
fn summed_fine_entries_give_coarse_entries() {
    // The same local blocks scattered with both dofmaps: summing the fine
    // matrix over each group of the aggregation gives the coarse matrix.
    let fine = discontinuous();
    let coarse = continuous();
    let g = aggregation_map(&fine, &coarse).unwrap();
    let mut fm = vec![vec![0i64; 6]; 6];
    let mut cm = vec![vec![0i64; 4]; 4];
    for a in 0..2 {
        for b in 0..2 {
            let ft = block_targets(&fine, a, &fine, b);
            let ct = block_targets(&coarse, a, &coarse, b);
            for k in 0..ft.len() {
                let value = (10 * a + b) as i64 * 100 + k as i64;
                fm[ft[k].0][ft[k].1] += value;
                cm[ct[k].0][ct[k].1] += value;
            }
        }
    }
    for p in 0..4 {
        for q in 0..4 {
            let mut sum = 0i64;
            for r in 0..6 {
                for c in 0..6 {
                    if g[r] == Some(p) && g[c] == Some(q) {
                        sum += fm[r][c];
                    }
                }
            }
            assert_eq!(sum, cm[p][q]);
        }
    }
}

#[test]
fn conflicting_groups_are_refused() {
    let fine = DofMap::new(vec![vec![0, 1], vec![1, 2]], 3).unwrap();
    let coarse = DofMap::new(vec![vec![0, 1], vec![2, 3]], 4).unwrap();
    assert_eq!(aggregation_map(&fine, &coarse), None);
}

#[test]
fn different_layouts_are_refused() {
    let fine = DofMap::new(vec![vec![0, 1], vec![2]], 3).unwrap();
    let coarse = DofMap::new(vec![vec![0, 1], vec![1, 0]], 2).unwrap();
    assert_eq!(aggregation_map(&fine, &coarse), None);
    let one_cell = DofMap::new(vec![vec![0, 1]], 2).unwrap();
    assert_eq!(aggregation_map(&fine, &one_cell), None);
}

#[test]
fn unused_fine_dof_has_no_group() {
    let fine = DofMap::new(vec![vec![0, 2]], 3).unwrap();
    let coarse = DofMap::new(vec![vec![0, 0]], 1).unwrap();
    assert_eq!(aggregation_map(&fine, &coarse), Some(vec![Some(0), None, Some(0)]));
}
