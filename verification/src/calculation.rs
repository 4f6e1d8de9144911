//! How the two searches of a calculation are set up for each model, and how
//! a failed search is reported.

use vstd::prelude::*;
use vstd::string::*;
use crate::bisect::{SearchKind, SolverError};
use crate::config::SearchRange;
use crate::models::Potential;
use crate::scalar::Scalar;

verus! {

/// The bit pattern of 20.0, the upper end of the chaotic end-of-inflation range.
pub const CHAOTIC_END_UPPER: u64 = 0x4034_0000_0000_0000;

/// The bit pattern of 30.0, the upper end of the chaotic horizon-exit range.
pub const CHAOTIC_EXIT_UPPER: u64 = 0x403e_0000_0000_0000;

/// The bit pattern of 0.1, by which the chaotic horizon-exit range starts
/// above the end of inflation.
pub const CHAOTIC_EXIT_MARGIN: u64 = 0x3fb9_9999_9999_999a;

/// The bit pattern of 0.00001, by which the natural horizon-exit range starts
/// above the end of inflation.
pub const NATURAL_EXIT_MARGIN: u64 = 0x3ee4_f8b5_88e3_68f1;

/// How the end of inflation is found.
#[derive(Clone, Copy, PartialEq, Eq, Structural, Debug)]
pub enum EndRule {
    /// By a bracketing search on this range.
    Search(SearchRange),
    /// By the closed form of natural inflation with parameter `f`; no search
    /// is made.
    ClosedForm { f: Scalar },
}

/// The upper end of the horizon-exit range.
#[derive(Clone, Copy, PartialEq, Eq, Structural, Debug)]
pub enum ExitUpper {
    /// This field value.
    Fixed(Scalar),
    /// Half a period of the natural potential: pi times its parameter `f`.
    HalfPeriod { f: Scalar },
}

/// The search ranges of a calculation.
///
/// The horizon-exit range starts `exit_margin` above the end of inflation
/// and ends at `exit_upper`.
#[derive(Clone, Copy, PartialEq, Eq, Structural, Debug)]
pub struct SearchPlan {
    pub phi_end: EndRule,
    pub exit_margin: Scalar,
    pub exit_upper: ExitUpper,
}

/// The ranges for a potential: fixed ones for a chaotic model, ones that
/// scale with `f` for natural inflation, whose end of inflation has a closed
/// form.
pub open spec fn plan_of(potential: Potential) -> SearchPlan {
    match potential {
        Potential::Chaotic(_) => SearchPlan {
            phi_end: EndRule::Search(
                SearchRange {
                    start: Scalar { bits: 0 },
                    end: Scalar { bits: CHAOTIC_END_UPPER },
                },
            ),
            exit_margin: Scalar { bits: CHAOTIC_EXIT_MARGIN },
            exit_upper: ExitUpper::Fixed(Scalar { bits: CHAOTIC_EXIT_UPPER }),
        },
        Potential::Natural(natural) => SearchPlan {
            phi_end: EndRule::ClosedForm { f: natural.f },
            exit_margin: Scalar { bits: NATURAL_EXIT_MARGIN },
            exit_upper: ExitUpper::HalfPeriod { f: natural.f },
        },
    }
}

/// The words that say which search failed.
pub open spec fn failure_prefix(search: SearchKind) -> Seq<char> {
    match search {
        SearchKind::PhiEnd => "Could not find phi_end: "@,
        SearchKind::PhiExit => "Could not find phi_exit: "@,
    }
}

/// The text that reports a failed search.
pub open spec fn failure_text(error: SolverError) -> Seq<char> {
    failure_prefix(error.search()) + error.text()
}

/// The ranges in which a calculation searches for a potential's two
/// characteristic field values.
pub fn search_plan(potential: &Potential) -> (plan: SearchPlan)
    ensures
        plan == plan_of(*potential),
{
    match potential {
        Potential::Chaotic(_) => SearchPlan {
            phi_end: EndRule::Search(
                SearchRange {
                    start: Scalar { bits: 0 },
                    end: Scalar { bits: CHAOTIC_END_UPPER },
                },
            ),
            exit_margin: Scalar { bits: CHAOTIC_EXIT_MARGIN },
            exit_upper: ExitUpper::Fixed(Scalar { bits: CHAOTIC_EXIT_UPPER }),
        },
        Potential::Natural(natural) => SearchPlan {
            phi_end: EndRule::ClosedForm { f: natural.f },
            exit_margin: Scalar { bits: NATURAL_EXIT_MARGIN },
            exit_upper: ExitUpper::HalfPeriod { f: natural.f },
        },
    }
}

/// The error of a calculation whose search failed: the search's own message,
/// behind the words that say which of the two it was.
pub fn failure_message(error: &SolverError) -> (text: String)
    ensures
        text@ == failure_text(*error),
{
    let prefix = match error.kind() {
        SearchKind::PhiEnd => "Could not find phi_end: ",
        SearchKind::PhiExit => "Could not find phi_exit: ",
    };
    let cause = error.message();
    String::from_str(prefix).concat(cause.as_str())
}

} // verus!
