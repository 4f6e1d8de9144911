//! The plain data that describes a run: search ranges, scans, simulations.

use vstd::prelude::*;
use crate::models::{create_potential, creation, ModelError, Potential};
use crate::params::ParamTable;
use crate::scalar::Scalar;

verus! {

/// The two endpoints handed to a bracketing search, in the order given.
///
/// Neither order is required: a search only asks for a sign change of its
/// objective between the two.
#[derive(Clone, Copy, PartialEq, Eq, Structural, Debug)]
pub struct SearchRange {
    pub start: Scalar,
    pub end: Scalar,
}

/// A linear scan of one parameter: `steps` values from `start` to `end`.
#[derive(Debug)]
pub struct Scan {
    pub name: String,
    pub start: Scalar,
    pub end: Scalar,
    pub steps: usize,
}

/// Where a sample of a scan lies between the scan's two ends.
#[derive(Clone, Copy, PartialEq, Eq, Structural, Debug)]
pub enum ScanPoint {
    /// The value `start` itself: the only sample of a scan of one step.
    Start,
    /// The value `start + (end - start) * index / last`.
    Between { index: usize, last: usize },
}

/// One simulation: a model, its fixed parameters, and the parameter scanned.
#[derive(Debug)]
pub struct Simulation {
    pub name: String,
    pub model: String,
    pub output_file: String,
    pub scan_parameter: Scan,
    pub fixed_parameters: ParamTable,
    pub solver_precision: Scalar,
    pub simpson_max_iter: usize,
}

/// The simulations of a run.
#[derive(Debug)]
pub struct Config {
    pub simulations: Vec<Simulation>,
}

/// The sample with index `i` of a scan of `steps` values, if the scan has one.
pub open spec fn sample_of(steps: nat, i: nat) -> Option<ScanPoint> {
    if i >= steps {
        None
    } else if steps == 1 {
        Some(ScanPoint::Start)
    } else {
        Some(ScanPoint::Between { index: i as usize, last: (steps - 1) as usize })
    }
}

impl ScanPoint {
    /// The numerator of the fraction of the way from `start` to `end`.
    pub open spec fn numerator(self) -> nat {
        match self {
            ScanPoint::Start => 0,
            ScanPoint::Between { index, .. } => index as nat,
        }
    }

    /// The denominator of the fraction of the way from `start` to `end`.
    pub open spec fn denominator(self) -> nat {
        match self {
            ScanPoint::Start => 1,
            ScanPoint::Between { last, .. } => last as nat,
        }
    }
}

impl Scan {
    /// The sample with index `i`: for a scan of one step the start itself,
    /// else the point `i / (steps - 1)` of the way from `start` to `end`.
    /// There is none for `i >= steps`.
    pub fn sample(&self, i: usize) -> (point: Option<ScanPoint>)
        ensures
            point == sample_of(self.steps as nat, i as nat),
    {
        if i >= self.steps {
            None
        } else if self.steps == 1 {
            Some(ScanPoint::Start)
        } else {
            Some(ScanPoint::Between { index: i, last: self.steps - 1 })
        }
    }
}

impl Simulation {
    /// The parameters of one point of the scan: the fixed parameters, with
    /// the scanned one set to `value`.
    pub fn point_parameters(&self, value: Scalar) -> (params: ParamTable)
        ensures
            params@ == self.fixed_parameters@.insert(self.scan_parameter.name@, value),
    {
        let mut params = self.fixed_parameters.duplicate();
        params.insert(self.scan_parameter.name.clone(), value);
        params
    }

    /// The potential of one point of the scan.
    pub fn potential_at(&self, value: Scalar) -> (r: Result<Potential, ModelError>)
        ensures
            creation(
                self.model@,
                self.fixed_parameters@.insert(self.scan_parameter.name@, value),
                r,
            ),
    {
        let params = self.point_parameters(value);
        create_potential(self.model.as_str(), &params)
    }
}

/// A scan of several steps starts at `start`, ends at `end`, and moves
/// strictly towards `end` with every step: the fraction of the first sample
/// is 0, that of the last is 1, and a later sample has the larger fraction.
pub proof fn scan_is_monotonic(steps: nat, i: nat, j: nat)
    requires
        1 < steps <= usize::MAX,
        i < j < steps,
    ensures
        sample_of(steps, 0) is Some,
        sample_of(steps, 0).unwrap().numerator() == 0,
        sample_of(steps, (steps - 1) as nat).unwrap().numerator() == sample_of(
            steps,
            (steps - 1) as nat,
        ).unwrap().denominator(),
        sample_of(steps, i).unwrap().denominator() == sample_of(steps, j).unwrap().denominator(),
        sample_of(steps, i).unwrap().denominator() == steps - 1,
        sample_of(steps, i).unwrap().numerator() < sample_of(steps, j).unwrap().numerator(),
        sample_of(steps, i).unwrap().numerator() == i,
{
}

} // verus!
