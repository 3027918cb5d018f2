//! The map from (cell, local basis index) to global degree of freedom, and
//! the positions in the output matrix that a cell pair's local block adds to.
use vstd::prelude::*;

verus! {

/// For each cell, the global degree of freedom of each local basis function,
/// every one of them below `global_size`.
pub struct DofMap {
    cells: Vec<Vec<usize>>,
    global_size: usize,
}

/// Every listed degree of freedom is below `size`.
pub open spec fn dofs_below(cells: Seq<Seq<usize>>, size: nat) -> bool {
    forall|c: int, k: int| 0 <= c < cells.len() && 0 <= k < cells[c].len() ==> cells[c][k] < size
}

/// The position in the output of entry `(i, j)` of the block of a test cell
/// with dofs `rows` and a trial cell with dofs `cols`.
pub open spec fn block_target(rows: Seq<usize>, cols: Seq<usize>, i: int, j: int) -> (usize, usize) {
    (rows[i], cols[j])
}

impl DofMap {
    /// The dofs of each cell.
    pub closed spec fn dofs(&self) -> Seq<Seq<usize>> {
        self.cells@.map_values(|c: Vec<usize>| c@)
    }

    /// The number of global degrees of freedom.
    pub closed spec fn size(&self) -> nat {
        self.global_size as nat
    }

    pub open spec fn wf(&self) -> bool {
        dofs_below(self.dofs(), self.size())
    }

    /// Builds a dofmap; `None` where a listed dof is not below `global_size`.
    pub fn new(cells: Vec<Vec<usize>>, global_size: usize) -> (r: Option<DofMap>)
        ensures
            r is Some <==> dofs_below(cells@.map_values(|c: Vec<usize>| c@), global_size as nat),
            r is Some ==> r->0.wf() && r->0.dofs() == cells@.map_values(|c: Vec<usize>| c@)
                && r->0.size() == global_size,
    {
        let ghost model = cells@.map_values(|c: Vec<usize>| c@);
        let mut c: usize = 0;
        while c < cells.len()
            invariant
                c <= cells.len(),
                model == cells@.map_values(|c: Vec<usize>| c@),
                forall|cc: int, k: int| 0 <= cc < c && 0 <= k < model[cc].len() ==> model[cc][k] < global_size,
            decreases cells.len() - c,
        {
            let cell = &cells[c];
            let mut k: usize = 0;
            while k < cell.len()
                invariant
                    c < cells.len(),
                    model.len() == cells@.len(),
                    model == cells@.map_values(|c: Vec<usize>| c@),
                    k <= cell.len(),
                    cell@ == model[c as int],
                    forall|kk: int| 0 <= kk < k ==> model[c as int][kk] < global_size,
                    forall|cc: int, kk: int| 0 <= cc < c && 0 <= kk < model[cc].len() ==> model[cc][kk] < global_size,
                decreases cell.len() - k,
            {
                if cell[k] >= global_size {
                    proof {
                        assert(model[c as int][k as int] >= global_size);
                    }
                    return None;
                }
                k = k + 1;
            }
            c = c + 1;
        }
        Some(DofMap { cells, global_size })
    }

    /// The number of global degrees of freedom.
    pub fn global_size(&self) -> (r: usize)
        ensures
            r == self.size(),
    {
        self.global_size
    }

    /// The number of cells.
    pub fn cell_count(&self) -> (r: usize)
        ensures
            r == self.dofs().len(),
    {
        self.cells.len()
    }

    /// The global dofs of one cell, in local order.
    pub fn cell_dofs(&self, cell: usize) -> (r: &Vec<usize>)
        requires
            cell < self.dofs().len(),
        ensures
            r@ == self.dofs()[cell as int],
    {
        &self.cells[cell]
    }

    /// The global dof of local basis function `local` on `cell`.
    pub fn global_dof(&self, cell: usize, local: usize) -> (r: usize)
        requires
            self.wf(),
            cell < self.dofs().len(),
            local < self.dofs()[cell as int].len(),
        ensures
            r == self.dofs()[cell as int][local as int],
            r < self.size(),
    {
        self.cells[cell][local]
    }
}

/// The output positions of the local block of `test_cell` against
/// `trial_cell`, row-major: entry `(i, j)` of the block goes to
/// `(test dof i, trial dof j)`.
pub fn block_targets(test: &DofMap, test_cell: usize, trial: &DofMap, trial_cell: usize) -> (r: Vec<(usize, usize)>)
    requires
        test.wf(),
        trial.wf(),
        test_cell < test.dofs().len(),
        trial_cell < trial.dofs().len(),
    ensures
        r@.len() == test.dofs()[test_cell as int].len() * trial.dofs()[trial_cell as int].len(),
        forall|i: int, j: int|
            0 <= i < test.dofs()[test_cell as int].len() && 0 <= j < trial.dofs()[trial_cell as int].len()
                ==> #[trigger] r@[i * trial.dofs()[trial_cell as int].len() + j] == block_target(
                test.dofs()[test_cell as int],
                trial.dofs()[trial_cell as int],
                i,
                j,
            ),
        forall|k: int| 0 <= k < r@.len() ==> (#[trigger] r@[k]).0 < test.size() && r@[k].1 < trial.size(),
{
    let rows = test.cell_dofs(test_cell);
    let cols = trial.cell_dofs(trial_cell);
    let nr = rows.len();
    let nc = cols.len();
    let mut out: Vec<(usize, usize)> = Vec::new();
    let mut i: usize = 0;
    while i < nr
        invariant
            test.wf(),
            trial.wf(),
            test_cell < test.dofs().len(),
            trial_cell < trial.dofs().len(),
            rows@ == test.dofs()[test_cell as int],
            cols@ == trial.dofs()[trial_cell as int],
            nr == rows@.len(),
            nc == cols@.len(),
            i <= nr,
            out@.len() == i * nc,
            forall|ii: int, jj: int| 0 <= ii < i && 0 <= jj < nc ==> #[trigger] out@[ii * nc + jj] == (rows@[ii], cols@[jj]),
            forall|k: int| 0 <= k < out@.len() ==> (#[trigger] out@[k]).0 < test.size() && out@[k].1 < trial.size(),
        decreases nr - i,
    {
        let mut j: usize = 0;
        while j < nc
            invariant
                test.wf(),
                trial.wf(),
                test_cell < test.dofs().len(),
                trial_cell < trial.dofs().len(),
                rows@ == test.dofs()[test_cell as int],
                cols@ == trial.dofs()[trial_cell as int],
                nr == rows@.len(),
                nc == cols@.len(),
                i < nr,
                j <= nc,
                out@.len() == i * nc + j,
                forall|ii: int, jj: int| 0 <= ii < i && 0 <= jj < nc ==> #[trigger] out@[ii * nc + jj] == (rows@[ii], cols@[jj]),
                forall|jj: int| 0 <= jj < j ==> #[trigger] out@[i * nc + jj] == (rows@[i as int], cols@[jj]),
                forall|k: int| 0 <= k < out@.len() ==> (#[trigger] out@[k]).0 < test.size() && out@[k].1 < trial.size(),
            decreases nc - j,
        {
            let ghost before = out@;
            out.push((rows[i], cols[j]));
            proof {
                assert forall|ii: int, jj: int| 0 <= ii < i && 0 <= jj < nc implies #[trigger] out@[ii * nc + jj] == (rows@[ii], cols@[jj]) by {
                    assert(ii * nc + jj < i * nc) by (nonlinear_arith)
                        requires 0 <= ii < i, 0 <= jj < nc;
                    assert(out@[ii * nc + jj] == before[ii * nc + jj]);
                }
            }
            j = j + 1;
        }
        proof {
            assert((i + 1) * nc == i * nc + nc) by (nonlinear_arith);
        }
        i = i + 1;
    }
    out
}

/// With one space on both sides, entry `(i, j)` of the block of cells
/// `(a, b)` lands at the transpose of the position of entry `(j, i)` of the
/// block of cells `(b, a)`.
pub proof fn lemma_block_targets_transpose(dofs: DofMap, a: int, b: int, i: int, j: int)
    requires
        dofs.wf(),
        0 <= a < dofs.dofs().len(),
        0 <= b < dofs.dofs().len(),
        0 <= i < dofs.dofs()[a].len(),
        0 <= j < dofs.dofs()[b].len(),
    ensures
        block_target(dofs.dofs()[a], dofs.dofs()[b], i, j).0 == block_target(dofs.dofs()[b], dofs.dofs()[a], j, i).1,
        block_target(dofs.dofs()[a], dofs.dofs()[b], i, j).1 == block_target(dofs.dofs()[b], dofs.dofs()[a], j, i).0,
{
}

/// `fine` and `coarse` number the same local basis functions of the same
/// cells.
pub open spec fn same_layout(fine: Seq<Seq<usize>>, coarse: Seq<Seq<usize>>) -> bool {
    &&& fine.len() == coarse.len()
    &&& forall|c: int| 0 <= c < fine.len() ==> #[trigger] fine[c].len() == coarse[c].len()
}

/// Every fine dof that two local basis functions share is matched by one
/// coarse dof: the fine dofs can be grouped into coarse ones.
pub open spec fn aggregable(fine: Seq<Seq<usize>>, coarse: Seq<Seq<usize>>) -> bool {
    &&& same_layout(fine, coarse)
    &&& forall|c1: int, k1: int, c2: int, k2: int|
        0 <= c1 < fine.len() && 0 <= k1 < fine[c1].len() && 0 <= c2 < fine.len() && 0 <= k2
            < fine[c2].len() && #[trigger] fine[c1][k1] == #[trigger] fine[c2][k2] ==> coarse[c1][k1]
            == coarse[c2][k2]
}

/// Whether fine dof `d` is used by some cell.
pub open spec fn is_used(fine: Seq<Seq<usize>>, d: usize) -> bool {
    exists|c: int, k: int| 0 <= c < fine.len() && 0 <= k < fine[c].len() && #[trigger] fine[c][k] == d
}

/// `g` sends each used fine dof to the coarse dof of the same local basis
/// function, and has no entry for an unused one.
pub open spec fn aggregates(fine: Seq<Seq<usize>>, coarse: Seq<Seq<usize>>, g: Seq<Option<usize>>) -> bool {
    &&& same_layout(fine, coarse)
    &&& forall|c: int, k: int|
        0 <= c < fine.len() && 0 <= k < fine[c].len() ==> #[trigger] fine[c][k] < g.len() && g[fine[c][k] as int]
            == Some(coarse[c][k])
    &&& forall|d: int| 0 <= d < g.len() ==> (#[trigger] g[d] is Some <==> is_used(fine, d as usize))
}

/// The coarse dof that each fine dof aggregates into, such as the continuous
/// node that each discontinuous dof sits on; `None` where the two dofmaps do
/// not share a layout, or a fine dof would go to two coarse dofs.
pub fn aggregation_map(fine: &DofMap, coarse: &DofMap) -> (r: Option<Vec<Option<usize>>>)
    requires
        fine.wf(),
    ensures
        r is Some <==> aggregable(fine.dofs(), coarse.dofs()),
        r is Some ==> r->0@.len() == fine.size() && aggregates(fine.dofs(), coarse.dofs(), r->0@),
{
    let ghost f = fine.dofs();
    let ghost co = coarse.dofs();
    let n = fine.cell_count();
    if n != coarse.cell_count() {
        return None;
    }
    let mut c: usize = 0;
    while c < n
        invariant
            f == fine.dofs(),
            co == coarse.dofs(),
            n == f.len(),
            n == co.len(),
            c <= n,
            forall|cc: int| 0 <= cc < c ==> #[trigger] f[cc].len() == co[cc].len(),
        decreases n - c,
    {
        if fine.cell_dofs(c).len() != coarse.cell_dofs(c).len() {
            return None;
        }
        c = c + 1;
    }
    assert(same_layout(f, co));
    let size = fine.global_size();
    let mut g: Vec<Option<usize>> = Vec::new();
    let mut d: usize = 0;
    while d < size
        invariant
            d <= size,
            g@.len() == d,
            forall|e: int| 0 <= e < d ==> g@[e] is None,
        decreases size - d,
    {
        g.push(None);
        d = d + 1;
    }
    let mut c: usize = 0;
    while c < n
        invariant
            fine.wf(),
            f == fine.dofs(),
            co == coarse.dofs(),
            size == fine.size(),
            n == f.len(),
            same_layout(f, co),
            c <= n,
            g@.len() == size,
            forall|cc: int, k: int| 0 <= cc < c && 0 <= k < f[cc].len() ==> g@[#[trigger] f[cc][k] as int] == Some(co[cc][k]),
            forall|e: int| 0 <= e < size ==> (#[trigger] g@[e] is Some ==> exists|cc: int, k: int| 0 <= cc < c && 0 <= k < f[cc].len() && #[trigger] f[cc][k] == e),
            forall|c1: int, k1: int, c2: int, k2: int|
                0 <= c1 < c && 0 <= k1 < f[c1].len() && 0 <= c2 < c && 0 <= k2 < f[c2].len()
                    && #[trigger] f[c1][k1] == #[trigger] f[c2][k2] ==> co[c1][k1] == co[c2][k2],
        decreases n - c,
    {
        let fd = fine.cell_dofs(c);
        let cd = coarse.cell_dofs(c);
        let mut k: usize = 0;
        while k < fd.len()
            invariant
                fine.wf(),
                f == fine.dofs(),
                co == coarse.dofs(),
                size == fine.size(),
                n == f.len(),
                same_layout(f, co),
                c < n,
                fd@ == f[c as int],
                cd@ == co[c as int],
                k <= fd@.len(),
                g@.len() == size,
                forall|cc: int, kk: int| (0 <= cc < c && 0 <= kk < f[cc].len()) || (cc == c && 0 <= kk < k) ==> g@[#[trigger] f[cc][kk] as int] == Some(co[cc][kk]),
                forall|e: int| 0 <= e < size ==> (#[trigger] g@[e] is Some ==> exists|cc: int, kk: int| ((0 <= cc < c && 0 <= kk < f[cc].len()) || (cc == c && 0 <= kk < k)) && #[trigger] f[cc][kk] == e),
                forall|c1: int, k1: int, c2: int, k2: int|
                    ((0 <= c1 < c && 0 <= k1 < f[c1].len()) || (c1 == c && 0 <= k1 < k))
                        && ((0 <= c2 < c && 0 <= k2 < f[c2].len()) || (c2 == c && 0 <= k2 < k))
                        && #[trigger] f[c1][k1] == #[trigger] f[c2][k2] ==> co[c1][k1] == co[c2][k2],
            decreases fd@.len() - k,
        {
            let dof = fd[k];
            let node = cd[k];
            assert(dof < size);
            match g[dof] {
                None => {
                    g.set(dof, Some(node));
                },
                Some(q) => {
                    if q != node {
                        proof {
                            let (cc, kk) = choose|cc: int, kk: int| ((0 <= cc < c && 0 <= kk < f[cc].len()) || (cc == c && 0 <= kk < k)) && #[trigger] f[cc][kk] == dof;
                            assert(f[cc][kk] == f[c as int][k as int]);
                        }
                        return None;
                    }
                },
            }
            k = k + 1;
        }
        c = c + 1;
    }
    proof {
        assert forall|e: int| 0 <= e < g@.len() implies (#[trigger] g@[e] is Some <==> is_used(f, e as usize)) by {
            if is_used(f, e as usize) {
                let (cc, kk) = choose|cc: int, kk: int| 0 <= cc < f.len() && 0 <= kk < f[cc].len() && #[trigger] f[cc][kk] == e as usize;
                assert(g@[f[cc][kk] as int] == Some(co[cc][kk]));
            }
        }
    }
    Some(g)
}

/// Every entry of a local block that an assembly over the fine dofs adds at
/// `(r, c)` an assembly over the coarse dofs adds at `(g[r], g[c])`: where the
/// two assemblies compute the same local blocks, summing the fine matrix over
/// the groups of `g` gives the coarse matrix.
pub proof fn lemma_aggregated_block_targets(
    fine: DofMap,
    coarse: DofMap,
    g: Seq<Option<usize>>,
    a: int,
    b: int,
    i: int,
    j: int,
)
    requires
        aggregates(fine.dofs(), coarse.dofs(), g),
        0 <= a < fine.dofs().len(),
        0 <= b < fine.dofs().len(),
        0 <= i < fine.dofs()[a].len(),
        0 <= j < fine.dofs()[b].len(),
    ensures
        g[block_target(fine.dofs()[a], fine.dofs()[b], i, j).0 as int] == Some(
            block_target(coarse.dofs()[a], coarse.dofs()[b], i, j).0,
        ),
        g[block_target(fine.dofs()[a], fine.dofs()[b], i, j).1 as int] == Some(
            block_target(coarse.dofs()[a], coarse.dofs()[b], i, j).1,
        ),
{
}

} // verus!
