//! Geometric adjacency of a pair of cells, which decides whether a regular or
//! a singular quadrature rule integrates their interaction.
use vstd::prelude::*;
use vstd::set_lib::lemma_subset_equality;
use vstd::set_lib::lemma_len_subset;

verus! {

broadcast use vstd::seq_lib::seq_to_set_is_finite;

/// How a test cell and a trial cell touch. Only disjoint pairs can use a
/// regular rule; the others need a singular rule for the shared entity.
#[derive(Debug, PartialEq, Eq, Structural, Clone, Copy, Hash)]
pub enum Adjacency {
    Disjoint,
    SharedVertex,
    SharedEdge,
    Identical,
}

/// The vertices that two cells, given by their vertex indices, have in common.
pub open spec fn shared_vertices(a: Seq<usize>, b: Seq<usize>) -> Set<usize> {
    a.to_set().intersect(b.to_set())
}

/// A cell lists each of its vertices once.
pub open spec fn is_cell(vertices: Seq<usize>) -> bool {
    vertices.no_duplicates()
}

pub open spec fn adjacency_of(a: Seq<usize>, b: Seq<usize>) -> Adjacency {
    if a.to_set() == b.to_set() {
        Adjacency::Identical
    } else if shared_vertices(a, b).len() == 0 {
        Adjacency::Disjoint
    } else if shared_vertices(a, b).len() == 1 {
        Adjacency::SharedVertex
    } else {
        Adjacency::SharedEdge
    }
}

/// Whether the pair needs a singularity-aware quadrature rule.
pub open spec fn is_singular(adjacency: Adjacency) -> bool {
    adjacency != Adjacency::Disjoint
}

impl Adjacency {
    /// Whether a pair with this adjacency needs a singular quadrature rule.
    pub fn needs_singular_rule(&self) -> (r: bool)
        ensures
            r == is_singular(*self),
    {
        match self {
            Adjacency::Disjoint => false,
            _ => true,
        }
    }
}

fn contains_vertex(cell: &Vec<usize>, v: usize) -> (r: bool)
    ensures
        r == cell@.contains(v),
{
    let mut i: usize = 0;
    while i < cell.len()
        invariant
            i <= cell.len(),
            forall|k: int| 0 <= k < i ==> cell@[k] != v,
        decreases cell.len() - i,
    {
        if cell[i] == v {
            return true;
        }
        i = i + 1;
    }
    false
}

/// Counts the vertices of `a` that `b` has too.
fn count_shared(a: &Vec<usize>, b: &Vec<usize>) -> (r: usize)
    requires
        is_cell(a@),
    ensures
        r == shared_vertices(a@, b@).len(),
{
    let mut count: usize = 0;
    let mut i: usize = 0;
    proof {
        assert(a@.take(0).to_set() =~= Set::empty());
        assert(shared_vertices(a@.take(0), b@) =~= Set::empty());
    }
    while i < a.len()
        invariant
            is_cell(a@),
            i <= a.len(),
            count <= i,
            count == shared_vertices(a@.take(i as int), b@).len(),
        decreases a.len() - i,
    {
        let v = a[i];
        let found = contains_vertex(b, v);
        proof {
            let before = a@.take(i as int);
            let after = a@.take(i + 1);
            assert(after =~= before.push(v));
            assert(after.to_set() =~= before.to_set().insert(v)) by {
                assert forall|x: usize| #[trigger] after.contains(x) <==> (x == v || before.contains(x)) by {
                    if after.contains(x) && x != v {
                        let k = choose|k: int| 0 <= k < after.len() && after[k] == x;
                        assert(before[k] == x);
                    }
                    if before.contains(x) {
                        let k = choose|k: int| 0 <= k < before.len() && before[k] == x;
                        assert(after[k] == x);
                    }
                    if x == v {
                        assert(after[i as int] == x);
                    }
                }
            }
            assert(!before.to_set().contains(v)) by {
                if before.to_set().contains(v) {
                    let k = choose|k: int| 0 <= k < before.len() && before[k] == v;
                    assert(a@[k] == a@[i as int]);
                }
            }
            let old_shared = shared_vertices(before, b@);
            assert(old_shared.finite());
            if found {
                assert(shared_vertices(after, b@) =~= old_shared.insert(v));
            } else {
                assert(shared_vertices(after, b@) =~= old_shared);
            }
        }
        if found {
            count = count + 1;
        }
        i = i + 1;
    }
    proof {
        assert(a@.take(a.len() as int) =~= a@);
    }
    count
}

proof fn lemma_identical_by_count(a: Seq<usize>, b: Seq<usize>)
    requires
        is_cell(a),
        is_cell(b),
    ensures
        (a.to_set() == b.to_set()) <==> (shared_vertices(a, b).len() == a.len()
            && shared_vertices(a, b).len() == b.len()),
{
    let shared = shared_vertices(a, b);
    a.unique_seq_to_set();
    b.unique_seq_to_set();
    lemma_len_subset(shared, a.to_set());
    if a.to_set() == b.to_set() {
        assert(shared =~= a.to_set());
    }
    if shared.len() == a.len() && shared.len() == b.len() {
        lemma_subset_equality(shared, a.to_set());
        lemma_subset_equality(shared, b.to_set());
    }
}

/// Classifies a (test cell, trial cell) pair by the vertices they share.
pub fn classify_adjacency(test_cell: &Vec<usize>, trial_cell: &Vec<usize>) -> (r: Adjacency)
    requires
        is_cell(test_cell@),
        is_cell(trial_cell@),
    ensures
        r == adjacency_of(test_cell@, trial_cell@),
{
    let shared = count_shared(test_cell, trial_cell);
    proof {
        lemma_identical_by_count(test_cell@, trial_cell@);
    }
    if shared == test_cell.len() && shared == trial_cell.len() {
        Adjacency::Identical
    } else if shared == 0 {
        Adjacency::Disjoint
    } else if shared == 1 {
        Adjacency::SharedVertex
    } else {
        Adjacency::SharedEdge
    }
}

/// Swapping the test and the trial cell does not change how a pair is
/// classified, so both orders of a pair get the same quadrature rule.
pub proof fn lemma_adjacency_symmetric(a: Seq<usize>, b: Seq<usize>)
    ensures
        adjacency_of(a, b) == adjacency_of(b, a),
{
    assert(shared_vertices(a, b) =~= shared_vertices(b, a));
}

} // verus!
