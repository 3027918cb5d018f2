//! Boundary operators, PDE families and the table that maps a pair of them to
//! the kernel and integrand that the assembler uses.
use vstd::prelude::*;

verus! {

/// The kind of boundary operator to assemble.
#[derive(Debug, PartialEq, Eq, Structural, Clone, Copy, Hash)]
pub enum BoundaryOperator {
    SingleLayer,
    DoubleLayer,
    AdjointDoubleLayer,
    Hypersingular,
    ElectricField,
    MagneticField,
}

/// The PDE whose Green's function defines the operator's kernel.
#[derive(Debug, PartialEq, Eq, Structural, Clone, Copy, Hash)]
pub enum PDEType {
    Laplace,
    Helmholtz,
}

/// Which evaluation of the Green's function the integrand uses.
#[derive(Debug, PartialEq, Eq, Structural, Clone, Copy, Hash)]
pub enum KernelKind {
    /// The value G(x, y).
    Green,
    /// The gradient with respect to the target point x, dotted with the test normal.
    GreenDx,
    /// The gradient with respect to the source point y, dotted with the trial normal.
    GreenDy,
}

/// How the kernel is combined with the basis functions.
#[derive(Debug, PartialEq, Eq, Structural, Clone, Copy, Hash)]
pub enum Integrand {
    /// kernel * trial basis * test basis.
    Scalar,
    /// Single-layer kernel times the product of the surface curls of the basis functions.
    CurlCurl,
}

/// Everything the assembler needs to know about one (PDE, operator) pair.
#[derive(Debug, PartialEq, Eq, Structural, Clone, Copy, Hash)]
pub struct OperatorPlan {
    pub pde: PDEType,
    pub kernel: KernelKind,
    pub needs_trial_normal: bool,
    pub needs_test_normal: bool,
    pub integrand: Integrand,
}

/// Why an assembly request is refused before any work is done.
#[derive(Debug, PartialEq, Eq, Structural, Clone, Copy, Hash)]
pub enum AssemblyError {
    /// The operator has no kernel for the requested PDE.
    InvalidOperator,
    /// The output's shape is not [test size, trial size].
    DimensionMismatch,
}

/// The operators for which a PDE has a kernel: the four scalar operators.
/// The field operators belong to Maxwell problems and are defined for neither
/// Laplace nor Helmholtz.
pub open spec fn is_supported(pde: PDEType, operator: BoundaryOperator) -> bool {
    match operator {
        BoundaryOperator::ElectricField | BoundaryOperator::MagneticField => false,
        _ => true,
    }
}

pub open spec fn kernel_of(operator: BoundaryOperator) -> KernelKind {
    match operator {
        BoundaryOperator::DoubleLayer => KernelKind::GreenDy,
        BoundaryOperator::AdjointDoubleLayer => KernelKind::GreenDx,
        _ => KernelKind::Green,
    }
}

pub open spec fn integrand_of(operator: BoundaryOperator) -> Integrand {
    if operator == BoundaryOperator::Hypersingular {
        Integrand::CurlCurl
    } else {
        Integrand::Scalar
    }
}

/// The table entry for a supported pair: the double layer differentiates in
/// the source point and needs the trial normal, the adjoint double layer
/// differentiates in the target point and needs the test normal.
pub open spec fn plan_of(pde: PDEType, operator: BoundaryOperator) -> OperatorPlan {
    OperatorPlan {
        pde,
        kernel: kernel_of(operator),
        needs_trial_normal: operator == BoundaryOperator::DoubleLayer,
        needs_test_normal: operator == BoundaryOperator::AdjointDoubleLayer,
        integrand: integrand_of(operator),
    }
}

pub open spec fn dispatch(pde: PDEType, operator: BoundaryOperator) -> Result<OperatorPlan, AssemblyError> {
    if is_supported(pde, operator) {
        Ok(plan_of(pde, operator))
    } else {
        Err(AssemblyError::InvalidOperator)
    }
}

/// Looks up the kernel, normal requirements and integrand of an operator.
pub fn operator_plan(operator: BoundaryOperator, pde: PDEType) -> (r: Result<OperatorPlan, AssemblyError>)
    ensures
        r == dispatch(pde, operator),
{
    let kernel = match operator {
        BoundaryOperator::SingleLayer => KernelKind::Green,
        BoundaryOperator::DoubleLayer => KernelKind::GreenDy,
        BoundaryOperator::AdjointDoubleLayer => KernelKind::GreenDx,
        BoundaryOperator::Hypersingular => KernelKind::Green,
        BoundaryOperator::ElectricField | BoundaryOperator::MagneticField => {
            return Err(AssemblyError::InvalidOperator);
        },
    };
    let needs_trial_normal = match operator {
        BoundaryOperator::DoubleLayer => true,
        _ => false,
    };
    let needs_test_normal = match operator {
        BoundaryOperator::AdjointDoubleLayer => true,
        _ => false,
    };
    let integrand = match operator {
        BoundaryOperator::Hypersingular => Integrand::CurlCurl,
        _ => Integrand::Scalar,
    };
    Ok(OperatorPlan { pde, kernel, needs_trial_normal, needs_test_normal, integrand })
}

pub open spec fn shape_check(
    shape: (usize, usize),
    test_size: usize,
    trial_size: usize,
) -> Result<(), AssemblyError> {
    if shape.0 == test_size && shape.1 == trial_size {
        Ok(())
    } else {
        Err(AssemblyError::DimensionMismatch)
    }
}

/// Checks that an output of shape `(rows, columns)` can hold the matrix of a
/// test space with `test_size` and a trial space with `trial_size` degrees of
/// freedom.
pub fn check_output_shape(shape: (usize, usize), test_size: usize, trial_size: usize) -> (r: Result<(), AssemblyError>)
    ensures
        r == shape_check(shape, test_size, trial_size),
{
    if shape.0 == test_size && shape.1 == trial_size {
        Ok(())
    } else {
        Err(AssemblyError::DimensionMismatch)
    }
}

/// The outcome of validating a dense assembly request: an unsupported pair is
/// reported before the shape is looked at.
pub open spec fn dense_request(
    shape: (usize, usize),
    operator: BoundaryOperator,
    pde: PDEType,
    trial_size: usize,
    test_size: usize,
) -> Result<OperatorPlan, AssemblyError> {
    match dispatch(pde, operator) {
        Err(e) => Err(e),
        Ok(plan) => match shape_check(shape, test_size, trial_size) {
            Err(e) => Err(e),
            Ok(_) => Ok(plan),
        },
    }
}

/// Validates a dense assembly request and resolves the operator's plan.
pub fn plan_dense_assembly(
    shape: (usize, usize),
    operator: BoundaryOperator,
    pde: PDEType,
    trial_size: usize,
    test_size: usize,
) -> (r: Result<OperatorPlan, AssemblyError>)
    ensures
        r == dense_request(shape, operator, pde, trial_size, test_size),
        r is Err ==> (r->Err_0 == AssemblyError::InvalidOperator <==> !is_supported(pde, operator)),
{
    let plan = match operator_plan(operator, pde) {
        Ok(p) => p,
        Err(e) => {
            return Err(e);
        },
    };
    match check_output_shape(shape, test_size, trial_size) {
        Ok(()) => Ok(plan),
        Err(e) => Err(e),
    }
}

/// A valid request for a supported operator resolves to exactly the kernel,
/// normal flags and integrand that a direct call of the assembler for that
/// operator would be given.
pub proof fn lemma_dispatch_matches_direct(
    operator: BoundaryOperator,
    pde: PDEType,
    trial_size: usize,
    test_size: usize,
)
    requires
        is_supported(pde, operator),
    ensures
        operator == BoundaryOperator::SingleLayer ==> dense_request(
            (test_size, trial_size),
            operator,
            pde,
            trial_size,
            test_size,
        ) == Ok::<OperatorPlan, AssemblyError>(
            (OperatorPlan {
                pde,
                kernel: KernelKind::Green,
                needs_trial_normal: false,
                needs_test_normal: false,
                integrand: Integrand::Scalar,
            }),
        ),
        operator == BoundaryOperator::DoubleLayer ==> dense_request(
            (test_size, trial_size),
            operator,
            pde,
            trial_size,
            test_size,
        ) == Ok::<OperatorPlan, AssemblyError>(
            (OperatorPlan {
                pde,
                kernel: KernelKind::GreenDy,
                needs_trial_normal: true,
                needs_test_normal: false,
                integrand: Integrand::Scalar,
            }),
        ),
        operator == BoundaryOperator::AdjointDoubleLayer ==> dense_request(
            (test_size, trial_size),
            operator,
            pde,
            trial_size,
            test_size,
        ) == Ok::<OperatorPlan, AssemblyError>(
            (OperatorPlan {
                pde,
                kernel: KernelKind::GreenDx,
                needs_trial_normal: false,
                needs_test_normal: true,
                integrand: Integrand::Scalar,
            }),
        ),
        operator == BoundaryOperator::Hypersingular ==> dense_request(
            (test_size, trial_size),
            operator,
            pde,
            trial_size,
            test_size,
        ) == Ok::<OperatorPlan, AssemblyError>(
            (OperatorPlan {
                pde,
                kernel: KernelKind::Green,
                needs_trial_normal: false,
                needs_test_normal: false,
                integrand: Integrand::CurlCurl,
            }),
        ),
{
}

/// An operator that the PDE does not define is refused as an invalid
/// operator, whatever the output's shape; the field operators are refused for
/// every PDE.
pub proof fn lemma_undefined_operator_rejected(
    shape: (usize, usize),
    operator: BoundaryOperator,
    pde: PDEType,
    trial_size: usize,
    test_size: usize,
)
    ensures
        !is_supported(pde, operator) ==> dense_request(shape, operator, pde, trial_size, test_size)
            == Err::<OperatorPlan, AssemblyError>(AssemblyError::InvalidOperator),
        operator == BoundaryOperator::ElectricField || operator == BoundaryOperator::MagneticField
            ==> !is_supported(pde, operator),
{
}

/// The single layer and the hypersingular operator use the plain kernel with
/// no normal on either side, so their integrand treats the test and the trial
/// side alike.
pub proof fn lemma_symmetric_operators_use_no_normals(operator: BoundaryOperator, pde: PDEType)
    requires
        operator == BoundaryOperator::SingleLayer || operator == BoundaryOperator::Hypersingular,
    ensures
        dispatch(pde, operator) is Ok,
        plan_of(pde, operator).kernel == KernelKind::Green,
        !plan_of(pde, operator).needs_trial_normal,
        !plan_of(pde, operator).needs_test_normal,
{
}

} // verus!
