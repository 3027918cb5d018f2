//! Dispatch, adjacency classification and degree-of-freedom scatter logic
//! for the dense assembly of boundary-integral operators.

pub mod adjacency;
pub mod dofmap;
pub mod operator;

pub use adjacency::{classify_adjacency, Adjacency};
pub use dofmap::{aggregation_map, block_targets, DofMap};
pub use operator::{
    check_output_shape, operator_plan, plan_dense_assembly, AssemblyError, BoundaryOperator,
    Integrand, KernelKind, OperatorPlan, PDEType,
};
