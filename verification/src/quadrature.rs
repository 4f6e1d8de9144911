//! The refinement schedule and the node weights of composite Simpson
//! quadrature.
//!
//! An integral is estimated on 2 subintervals, then on 4, 8, ... until two
//! successive estimates agree to the relative precision asked for, or the cap
//! on doublings is reached. The estimates are the caller's arithmetic; which
//! resolution comes next, when to stop, and what each node weighs is decided
//! here.

use vstd::prelude::*;
use vstd::arithmetic::power2::*;
use crate::scalar::Scalar;

verus! {

/// The largest cap on doublings for which every subinterval count fits in 64
/// bits: the finest resolution is then `2^63` subintervals.
pub const MAX_DOUBLINGS: usize = 62;

/// A stage of the refinement: the estimate on `2^(level + 1)` subintervals,
/// of a run that allows at most `cap` doublings.
#[derive(Clone, Copy, Debug)]
pub struct Refinement {
    subintervals: u64,
    doublings: usize,
    max_iter: usize,
}

/// What a run does next.
#[derive(Clone, Copy, Debug)]
pub enum Plan {
    /// Compute the estimate at this stage and judge it against the last one.
    Estimate(Refinement),
    /// Return the latest estimate. `converged` is false where the cap on
    /// doublings was reached first: the value is then returned with a warning.
    Finish { converged: bool },
}

/// The weight class of a node of the composite rule.
#[derive(Clone, Copy, PartialEq, Eq, Structural, Debug)]
pub enum NodeKind {
    /// The first or the last node: weight 1.
    Endpoint,
    /// An interior node with an odd index: weight 4.
    Odd,
    /// An interior node with an even index: weight 2.
    Even,
}

/// The subinterval count that the rule uses for a requested `n`: the next
/// even number.
pub open spec fn forced_even(n: nat) -> nat {
    if n % 2 == 1 {
        n + 1
    } else {
        n
    }
}

/// The weight class of node `i` of `n` subintervals.
pub open spec fn kind_of(i: nat, n: nat) -> NodeKind {
    if i == 0 || i == n {
        NodeKind::Endpoint
    } else if i % 2 == 1 {
        NodeKind::Odd
    } else {
        NodeKind::Even
    }
}

/// The weight of node `i` of `n` subintervals, before the factor `h / 3`.
pub open spec fn weight_of(i: nat, n: nat) -> nat {
    kind_of(i, n).weight_value()
}

/// Whether two successive estimates agree: their relative difference is
/// below the precision. A NaN difference, as after a zero estimate, never is.
pub open spec fn agrees(relative_change: Scalar, precision: Scalar) -> bool {
    relative_change.below(precision)
}

impl Plan {
    /// The plan is the estimate one doubling after `from`, in the same run.
    pub open spec fn refines(self, from: Refinement) -> bool {
        match self {
            Plan::Estimate(stage) => {
                &&& stage.level() == from.level() + 1
                &&& stage.cap() == from.cap()
                &&& stage.resolution() == 2 * from.resolution()
            },
            Plan::Finish { .. } => false,
        }
    }

    /// The plan is the end of the run, converged or not as given.
    pub open spec fn finishes(self, converged: bool) -> bool {
        self == (Plan::Finish { converged })
    }
}

impl NodeKind {
    /// The weight of a node of this class: 1, 4 or 2.
    pub open spec fn weight_value(self) -> nat {
        match self {
            NodeKind::Endpoint => 1,
            NodeKind::Odd => 4,
            NodeKind::Even => 2,
        }
    }

    /// The integer by which the integrand at such a node is multiplied.
    pub fn weight(self) -> (w: u64)
        ensures
            w == self.weight_value(),
    {
        match self {
            NodeKind::Endpoint => 1,
            NodeKind::Odd => 4,
            NodeKind::Even => 2,
        }
    }
}

impl Refinement {
    #[verifier::type_invariant]
    spec fn well_formed(self) -> bool {
        &&& self.doublings <= self.max_iter
        &&& self.max_iter <= MAX_DOUBLINGS
        &&& self.subintervals == pow2((self.doublings + 1) as nat)
    }

    /// The number of doublings made to reach this stage.
    pub closed spec fn level(self) -> nat {
        self.doublings as nat
    }

    /// The most doublings that the run allows.
    pub closed spec fn cap(self) -> nat {
        self.max_iter as nat
    }

    /// The number of subintervals of this stage's estimate.
    pub closed spec fn resolution(self) -> nat {
        self.subintervals as nat
    }

    /// The first stage of a run: 2 subintervals, no doubling made yet.
    pub fn begin(max_iter: usize) -> (r: Refinement)
        requires
            max_iter <= MAX_DOUBLINGS,
        ensures
            r.level() == 0,
            r.cap() == max_iter,
            r.resolution() == 2,
    {
        proof {
            lemma2_to64();
        }
        Refinement { subintervals: 2, doublings: 0, max_iter }
    }

    /// The number of subintervals of this stage's estimate: it doubles with
    /// every stage, and stays within the cap's `2^(cap + 1)`.
    pub fn subintervals(&self) -> (n: u64)
        ensures
            n == self.resolution(),
            n == pow2(self.level() + 1),
            2 <= n <= pow2(self.cap() + 1),
            n % 2 == 0,
    {
        proof {
            use_type_invariant(self);
            lemma2_to64();
            lemma_pow2_unfold((self.doublings + 1) as nat);
            lemma_pow2_pos(self.doublings as nat);
            if self.doublings < self.max_iter {
                lemma_pow2_strictly_increases(
                    (self.doublings + 1) as nat,
                    (self.max_iter + 1) as nat,
                );
            }
        }
        self.subintervals
    }

    /// The number of doublings made to reach this stage.
    pub fn doublings(&self) -> (d: usize)
        ensures
            d == self.level(),
            d <= self.cap(),
    {
        proof {
            use_type_invariant(self);
        }
        self.doublings
    }

    /// The most doublings that the run allows.
    pub fn max_iter(&self) -> (m: usize)
        ensures
            m == self.cap(),
            m <= MAX_DOUBLINGS,
    {
        proof {
            use_type_invariant(self);
        }
        self.max_iter
    }

    /// What follows a stage whose estimate was not accepted: the stage with
    /// twice the subintervals, or the end of the run once `cap` doublings
    /// have been made.
    pub fn next(&self) -> (plan: Plan)
        ensures
            self.level() < self.cap() ==> plan.refines(*self),
            self.level() >= self.cap() ==> plan.finishes(false),
    {
        proof {
            use_type_invariant(self);
        }
        if self.doublings < self.max_iter {
            proof {
                lemma2_to64();
                lemma2_to64_rest();
                lemma_pow2_unfold((self.doublings + 2) as nat);
                if self.doublings + 2 < 63 {
                    lemma_pow2_strictly_increases((self.doublings + 2) as nat, 63);
                }
            }
            Plan::Estimate(
                Refinement {
                    subintervals: self.subintervals * 2,
                    doublings: self.doublings + 1,
                    max_iter: self.max_iter,
                },
            )
        } else {
            Plan::Finish { converged: false }
        }
    }

    /// What follows a stage whose estimate differs from the one before it by
    /// `relative_change`: the run ends as converged where that is below
    /// `precision`, and goes on as `next` says where it is not.
    pub fn judge(&self, relative_change: Scalar, precision: Scalar) -> (plan: Plan)
        ensures
            agrees(relative_change, precision) ==> plan.finishes(true),
            !agrees(relative_change, precision) && self.level() < self.cap() ==> plan.refines(
                *self,
            ),
            !agrees(relative_change, precision) && self.level() >= self.cap() ==> plan.finishes(
                false,
            ),
    {
        if relative_change.lt(precision) {
            Plan::Finish { converged: true }
        } else {
            self.next()
        }
    }
}

/// The schedule leaves no choice: two plans that refine the same stage are
/// the same plan, so a run that sees the same estimates takes the same steps.
pub proof fn refinement_is_determined(stage: Refinement, first: Plan, second: Plan)
    requires
        first.refines(stage),
        second.refines(stage),
    ensures
        first == second,
{
}

/// The subinterval count that the rule uses for a requested `n`.
pub fn even_subintervals(n: u64) -> (r: u64)
    requires
        n < u64::MAX,
    ensures
        r == forced_even(n as nat),
        r % 2 == 0,
        n <= r <= n + 1,
{
    if n % 2 == 1 {
        n + 1
    } else {
        n
    }
}

/// The weight class of node `i` of `n` subintervals.
pub fn node_kind(i: u64, n: u64) -> (kind: NodeKind)
    ensures
        kind == kind_of(i as nat, n as nat),
{
    if i == 0 || i == n {
        NodeKind::Endpoint
    } else if i % 2 == 1 {
        NodeKind::Odd
    } else {
        NodeKind::Even
    }
}

/// A cubic polynomial with integer coefficients.
pub struct Cubic {
    pub c0: int,
    pub c1: int,
    pub c2: int,
    pub c3: int,
}

impl Cubic {
    /// The value of the polynomial at `x`.
    pub open spec fn at(self, x: int) -> int {
        self.c0 + self.c1 * x + self.c2 * (x * x) + self.c3 * (x * x * x)
    }

    /// Twelve times the integral of the polynomial from 0 to `x`.
    pub open spec fn twelve_integrals(self, x: int) -> int {
        12 * self.c0 * x + 6 * self.c1 * (x * x) + 4 * self.c2 * (x * x * x) + 3 * self.c3 * (x
            * x * x * x)
    }
}

/// The sum, over the nodes `0..=upto` of `n` subintervals of width one, of
/// each node's weight times the polynomial's value there.
pub open spec fn weighted_sum(n: nat, upto: nat, poly: Cubic) -> int
    decreases upto,
{
    let term = weight_of(upto, n) * poly.at(upto as int);
    if upto == 0 {
        term
    } else {
        weighted_sum(n, (upto - 1) as nat, poly) + term
    }
}

/// The rule is exact on one pair of subintervals: the weights 1, 4, 1 give
/// three times the integral of a cubic over them.
proof fn lemma_panel(poly: Cubic, m: int)
    ensures
        4 * (poly.at(m) + 4 * poly.at(m + 1) + poly.at(m + 2)) == poly.twelve_integrals(m + 2)
            - poly.twelve_integrals(m),
{
    let (c0, c1, c2, c3) = (poly.c0, poly.c1, poly.c2, poly.c3);
    let a = m + 1;
    let b = m + 2;
    assert(a * a == m * m + 2 * m + 1) by (nonlinear_arith)
        requires
            a == m + 1,
    ;
    assert(b * b == m * m + 4 * m + 4) by (nonlinear_arith)
        requires
            b == m + 2,
    ;
    assert(a * a * a == m * m * m + 3 * (m * m) + 3 * m + 1) by (nonlinear_arith)
        requires
            a == m + 1,
    ;
    assert(b * b * b == m * m * m + 6 * (m * m) + 12 * m + 8) by (nonlinear_arith)
        requires
            b == m + 2,
    ;
    assert(b * b * b * b == m * m * m * m + 8 * (m * m * m) + 24 * (m * m) + 32 * m + 16)
        by (nonlinear_arith)
        requires
            b == m + 2,
    ;
    let m2 = m * m;
    let m3 = m * m * m;
    let m4 = m * m * m * m;
    assert(c1 * (a) == c1 * m + c1) by (nonlinear_arith)
        requires
            a == m + 1,
    ;
    assert(c1 * (b) == c1 * m + 2 * c1) by (nonlinear_arith)
        requires
            b == m + 2,
    ;
    assert(c2 * (a * a) == c2 * m2 + 2 * (c2 * m) + c2) by (nonlinear_arith)
        requires
            a * a == m2 + 2 * m + 1,
    ;
    assert(c2 * (b * b) == c2 * m2 + 4 * (c2 * m) + 4 * c2) by (nonlinear_arith)
        requires
            b * b == m2 + 4 * m + 4,
    ;
    assert(c3 * (a * a * a) == c3 * m3 + 3 * (c3 * m2) + 3 * (c3 * m) + c3) by (nonlinear_arith)
        requires
            a * a * a == m3 + 3 * m2 + 3 * m + 1,
    ;
    assert(c3 * (b * b * b) == c3 * m3 + 6 * (c3 * m2) + 12 * (c3 * m) + 8 * c3)
        by (nonlinear_arith)
        requires
            b * b * b == m3 + 6 * m2 + 12 * m + 8,
    ;
    assert(12 * c0 * b == 12 * c0 * m + 24 * c0) by (nonlinear_arith)
        requires
            b == m + 2,
    ;
    assert(6 * c1 * (b * b) == 6 * (c1 * m2) + 24 * (c1 * m) + 24 * c1) by (nonlinear_arith)
        requires
            b * b == m2 + 4 * m + 4,
    ;
    assert(4 * c2 * (b * b * b) == 4 * (c2 * m3) + 24 * (c2 * m2) + 48 * (c2 * m) + 32 * c2)
        by (nonlinear_arith)
        requires
            b * b * b == m3 + 6 * m2 + 12 * m + 8,
    ;
    assert(3 * c3 * (b * b * b * b) == 3 * (c3 * m4) + 24 * (c3 * m3) + 72 * (c3 * m2) + 96 * (c3
        * m) + 48 * c3) by (nonlinear_arith)
        requires
            b * b * b * b == m4 + 8 * m3 + 24 * m2 + 32 * m + 16,
    ;
    assert(6 * c1 * (m * m) == 6 * (c1 * m2)) by (nonlinear_arith)
        requires
            m2 == m * m,
    ;
    assert(4 * c2 * (m * m * m) == 4 * (c2 * m3)) by (nonlinear_arith)
        requires
            m3 == m * m * m,
    ;
    assert(3 * c3 * (m * m * m * m) == 3 * (c3 * m4)) by (nonlinear_arith)
        requires
            m4 == m * m * m * m,
    ;
}

/// Up to an even interior node the weighted sum is three times the integral
/// so far, and once more the value at that node, which the next pair of
/// subintervals shares.
proof fn lemma_weighted_prefix(n: nat, m: nat, poly: Cubic)
    requires
        n % 2 == 0,
        m % 2 == 0,
        m < n,
    ensures
        4 * weighted_sum(n, m, poly) == poly.twelve_integrals(m as int) + 4 * poly.at(m as int),
    decreases m,
{
    if m == 0 {
        assert(weighted_sum(n, 0, poly) == 1 * poly.at(0));
        assert(poly.twelve_integrals(0) == 0) by (nonlinear_arith)
            requires
                poly.twelve_integrals(0) == 12 * poly.c0 * 0 + 6 * poly.c1 * (0 * 0) + 4 * poly.c2
                    * (0 * 0 * 0) + 3 * poly.c3 * (0 * 0 * 0 * 0),
        ;
    } else {
        let k = (m - 2) as nat;
        lemma_weighted_prefix(n, k, poly);
        lemma_panel(poly, k as int);
        assert(weighted_sum(n, m, poly) == weighted_sum(n, (m - 1) as nat, poly) + 2 * poly.at(
            m as int,
        ));
        assert(weighted_sum(n, (m - 1) as nat, poly) == weighted_sum(n, k, poly) + 4 * poly.at(
            m - 1,
        ));
    }
}

/// Composite Simpson quadrature is exact on cubics.
///
/// On `n` subintervals of width one, `n` even and at least 2, a third of the
/// weighted sum of a cubic's values at the nodes is the cubic's integral
/// from 0 to `n`. Stated without fractions: four times the weighted sum is
/// twelve times the integral.
pub proof fn simpson_is_exact_on_cubics(n: nat, poly: Cubic)
    requires
        n % 2 == 0,
        n >= 2,
    ensures
        4 * weighted_sum(n, n, poly) == poly.twelve_integrals(n as int),
{
    let k = (n - 2) as nat;
    lemma_weighted_prefix(n, k, poly);
    lemma_panel(poly, k as int);
    assert(weighted_sum(n, n, poly) == weighted_sum(n, (n - 1) as nat, poly) + 1 * poly.at(
        n as int,
    ));
    assert(weighted_sum(n, (n - 1) as nat, poly) == weighted_sum(n, k, poly) + 4 * poly.at(n - 1));
}

/// The weights of `n` subintervals add up to `3 * n`, so that the rule gives
/// a constant's integral exactly.
pub proof fn weights_add_up(n: nat)
    requires
        n % 2 == 0,
        n >= 2,
    ensures
        weighted_sum(n, n, Cubic { c0: 1, c1: 0, c2: 0, c3: 0 }) == 3 * n,
{
    let one = Cubic { c0: 1, c1: 0, c2: 0, c3: 0 };
    simpson_is_exact_on_cubics(n, one);
    assert(one.twelve_integrals(n as int) == 12 * n) by (nonlinear_arith)
        requires
            one.twelve_integrals(n as int) == 12 * 1 * n + 6 * 0 * (n * n) + 4 * 0 * (n * n * n)
                + 3 * 0 * (n * n * n * n),
    ;
}

} // verus!
