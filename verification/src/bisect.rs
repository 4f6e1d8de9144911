//! The decisions of the two bracketing root searches.
//!
//! A search alternates evaluations of its objective, which are the caller's
//! arithmetic, with the decisions made here: whether the endpoints bracket a
//! root, whether a midpoint is accepted, and which half of the bracket is
//! kept. The caller runs the loop and hands every value in as a `Scalar`.

use vstd::prelude::*;
use vstd::string::*;
use crate::config::SearchRange;
use crate::scalar::Scalar;

verus! {

/// Which of the two characteristic field values a search is looking for.
#[derive(Clone, Copy, PartialEq, Eq, Structural, Debug)]
pub enum SearchKind {
    /// The end of inflation, where the first slow-roll parameter reaches one.
    PhiEnd,
    /// Horizon exit, where the e-fold count reaches its target.
    PhiExit,
}

/// Why a search could not start.
#[derive(Clone, Copy, PartialEq, Eq, Structural, Debug)]
pub enum SolverError {
    /// The objective does not change sign between the endpoints of `range`.
    NoBracket { search: SearchKind, range: SearchRange },
}

/// A bracket under bisection.
///
/// `lo` starts as the first endpoint of the search range and `hi` as the
/// second, whichever of the two is the larger. `residual_lo` is the objective
/// at the endpoint that `lo` started from. It is kept unchanged while the
/// bracket narrows: `lo` is only ever replaced by a midpoint whose residual
/// does not oppose it.
#[derive(Clone, Copy, PartialEq, Eq, Structural, Debug)]
pub struct Bracket {
    pub lo: Scalar,
    pub hi: Scalar,
    pub residual_lo: Scalar,
}

/// What a search does after it has looked at a midpoint.
#[derive(Clone, Copy, PartialEq, Eq, Structural, Debug)]
pub enum Step {
    /// The midpoint is the result of the search.
    Root(Scalar),
    /// The search goes on with this bracket.
    Narrowed(Bracket),
}

/// Whether the end-of-inflation search accepts a midpoint with this residual:
/// it goes on exactly while `|residual| >= precision`.
pub open spec fn end_accepts(residual: Scalar, precision: Scalar) -> bool {
    !precision.at_most(residual.magnitude())
}

/// Whether the horizon-exit search accepts a midpoint: the residual is below
/// the tolerance, or the bracket is no longer wider than it.
pub open spec fn exit_accepts(residual: Scalar, width: Scalar, precision: Scalar) -> bool {
    residual.magnitude().below(precision) || !precision.below(width.magnitude())
}

impl SolverError {
    /// The search that failed.
    pub open spec fn search(self) -> SearchKind {
        match self {
            SolverError::NoBracket { search, .. } => search,
        }
    }

    /// The text that describes the error.
    pub open spec fn text(self) -> Seq<char> {
        match self.search() {
            SearchKind::PhiEnd => "Root could not be specified. Change phi1 and/or phi2."@,
            SearchKind::PhiExit => "Root for phi_exit not in search range. Change the range."@,
        }
    }

    /// The search that failed.
    pub fn kind(&self) -> (search: SearchKind)
        ensures
            search == self.search(),
    {
        match self {
            SolverError::NoBracket { search, .. } => *search,
        }
    }

    /// The range on which the objective showed no sign change.
    pub fn range(&self) -> (range: SearchRange)
        ensures
            *self == (SolverError::NoBracket { search: self.search(), range }),
    {
        match self {
            SolverError::NoBracket { range, .. } => *range,
        }
    }

    /// The text that describes the error to a user.
    pub fn message(&self) -> (text: String)
        ensures
            text@ == self.text(),
    {
        match self.kind() {
            SearchKind::PhiEnd => String::from_str(
                "Root could not be specified. Change phi1 and/or phi2.",
            ),
            SearchKind::PhiExit => String::from_str(
                "Root for phi_exit not in search range. Change the range.",
            ),
        }
    }
}

impl Bracket {
    /// The bracket that bisection keeps after a midpoint with residual
    /// `residual_mid`: the lower half where that residual opposes the one at
    /// the lower endpoint, the upper half otherwise.
    pub open spec fn narrowed(self, mid: Scalar, residual_mid: Scalar) -> Bracket {
        if self.residual_lo.opposes(residual_mid) {
            Bracket { lo: self.lo, hi: mid, residual_lo: self.residual_lo }
        } else {
            Bracket { lo: mid, hi: self.hi, residual_lo: self.residual_lo }
        }
    }

    /// Whether the bracket encloses a sign change of `objective`: the residual
    /// it carries lies on the same side of zero as the objective at `lo`, and
    /// the objective at `hi` lies strictly on the other side.
    pub open spec fn encloses(self, objective: spec_fn(Scalar) -> Scalar) -> bool {
        &&& self.residual_lo.opposes(objective(self.hi))
        &&& self.residual_lo.negative() == objective(self.lo).negative()
        &&& self.residual_lo.positive() == objective(self.lo).positive()
    }

    /// Starts a search on `range`, given the objective at its two endpoints.
    ///
    /// The search starts only on a genuine sign change: one residual strictly
    /// negative, the other strictly positive. A zero or a NaN at either end,
    /// or two residuals on the same side, is `NoBracket`.
    pub fn open(
        search: SearchKind,
        range: SearchRange,
        residual_start: Scalar,
        residual_end: Scalar,
    ) -> (r: Result<Bracket, SolverError>)
        ensures
            residual_start.opposes(residual_end) ==> r == Ok::<Bracket, SolverError>(
                Bracket { lo: range.start, hi: range.end, residual_lo: residual_start },
            ),
            !residual_start.opposes(residual_end) ==> r == Err::<Bracket, SolverError>(
                SolverError::NoBracket { search, range },
            ),
            residual_start.negative() && residual_end.negative() ==> r is Err,
            residual_start.positive() && residual_end.positive() ==> r is Err,
    {
        if residual_start.opposite_sign(residual_end) {
            Ok(Bracket { lo: range.start, hi: range.end, residual_lo: residual_start })
        } else {
            Err(SolverError::NoBracket { search, range })
        }
    }

    /// Keeps the half of the bracket in which the sign change lies.
    pub fn narrow(self, mid: Scalar, residual_mid: Scalar) -> (r: Bracket)
        ensures
            r == self.narrowed(mid, residual_mid),
    {
        if self.residual_lo.opposite_sign(residual_mid) {
            Bracket { lo: self.lo, hi: mid, residual_lo: self.residual_lo }
        } else {
            Bracket { lo: mid, hi: self.hi, residual_lo: self.residual_lo }
        }
    }

    /// One step of the end-of-inflation search.
    ///
    /// `mid` is the midpoint of the bracket and `residual_mid` the objective
    /// there. The midpoint is the root once its residual is within the
    /// tolerance; until then the bracket is halved.
    pub fn phi_end_step(self, mid: Scalar, residual_mid: Scalar, precision: Scalar) -> (r: Step)
        ensures
            end_accepts(residual_mid, precision) ==> r == Step::Root(mid),
            !end_accepts(residual_mid, precision) ==> r == Step::Narrowed(
                self.narrowed(mid, residual_mid),
            ),
    {
        if residual_mid.abs().ge(precision) {
            Step::Narrowed(self.narrow(mid, residual_mid))
        } else {
            Step::Root(mid)
        }
    }

    /// One step of the horizon-exit search.
    ///
    /// `mid` is the midpoint of the bracket, `residual_mid` the objective
    /// there and `width` the difference of the bracket's endpoints. The
    /// midpoint is the root once the bracket is no wider than the tolerance
    /// or the residual is below it; until then the bracket is halved.
    pub fn phi_exit_step(
        self,
        mid: Scalar,
        residual_mid: Scalar,
        width: Scalar,
        precision: Scalar,
    ) -> (r: Step)
        ensures
            exit_accepts(residual_mid, width, precision) ==> r == Step::Root(mid),
            !exit_accepts(residual_mid, width, precision) ==> r == Step::Narrowed(
                self.narrowed(mid, residual_mid),
            ),
    {
        if !width.abs().gt(precision) {
            Step::Root(mid)
        } else if residual_mid.abs().lt(precision) {
            Step::Root(mid)
        } else {
            Step::Narrowed(self.narrow(mid, residual_mid))
        }
    }
}

/// A search that starts on a sign change of its objective starts with a
/// bracket that encloses it.
pub proof fn opened_bracket_encloses(
    range: SearchRange,
    objective: spec_fn(Scalar) -> Scalar,
)
    requires
        objective(range.start).opposes(objective(range.end)),
    ensures
        (Bracket {
            lo: range.start,
            hi: range.end,
            residual_lo: objective(range.start),
        }).encloses(objective),
{
}

/// Bisection never loses the root: where a bracket encloses a sign change of
/// the objective and the objective at the midpoint lies strictly on one side
/// of zero, the half that is kept encloses a sign change too.
pub proof fn narrowing_keeps_sign_change(
    bracket: Bracket,
    objective: spec_fn(Scalar) -> Scalar,
    mid: Scalar,
)
    requires
        bracket.encloses(objective),
        objective(mid).negative() || objective(mid).positive(),
    ensures
        bracket.narrowed(mid, objective(mid)).encloses(objective),
{
}

/// Bisection shrinks the bracket: where the midpoint lies strictly between
/// the endpoints, the half that is kept lies within the bracket, keeps its
/// orientation, and spans fewer binary64 values than the bracket did.
pub proof fn narrowing_shrinks_the_bracket(bracket: Bracket, mid: Scalar, residual_mid: Scalar)
    requires
        bracket.lo.below(mid),
        mid.below(bracket.hi),
    ensures
        bracket.lo.at_most(bracket.narrowed(mid, residual_mid).lo),
        bracket.narrowed(mid, residual_mid).hi.at_most(bracket.hi),
        bracket.narrowed(mid, residual_mid).lo.below(bracket.narrowed(mid, residual_mid).hi),
        bracket.narrowed(mid, residual_mid).hi.key() - bracket.narrowed(mid, residual_mid).lo.key()
            < bracket.hi.key() - bracket.lo.key(),
{
}

} // verus!
