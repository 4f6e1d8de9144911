use ns_r::config::{Config, Scan, ScanPoint, SearchRange, Simulation};
use ns_r::models::{ChaoticPotential, ModelError, ModelKind, ParamName, Potential};
use ns_r::params::ParamTable;
use ns_r::scalar::Scalar;

fn s(x: f64) -> Scalar {
    Scalar::from_bits(x.to_bits())
}

fn v(x: Scalar) -> f64 {
    f64::from_bits(x.to_bits())
}

fn scan(start: f64, end: f64, steps: usize) -> Scan {
    Scan { name: "power".to_string(), start: s(start), end: s(end), steps }
}

fn value_at(scan: &Scan, point: ScanPoint) -> f64 {
    match point {
        ScanPoint::Start => v(scan.start),
        ScanPoint::Between { index, last } => {
            v(scan.start) + (v(scan.end) - v(scan.start)) * (index as f64) / (last as f64)
        }
    }
}

fn simulation(model: &str, fixed: &[(&str, f64)], scanned: &str) -> Simulation {
    let mut fixed_parameters = ParamTable::new();
    for (name, x) in fixed {
        fixed_parameters.insert(name.to_string(), s(*x));
    }
    Simulation {
        name: "run".to_string(),
        model: model.to_string(),
        output_file: "out/run.csv".to_string(),
        scan_parameter: Scan { name: scanned.to_string(), start: s(1.0), end: s(4.0), steps: 4 },
        fixed_parameters,
        solver_precision: s(1.0e-6),
        simpson_max_iter: 20,
    }
}

#[test]
fn a_scan_of_one_step_is_its_start() {
    let scan = scan(2.5, 9.0, 1);
    assert_eq!(scan.sample(0), Some(ScanPoint::Start));
    assert_eq!(value_at(&scan, scan.sample(0).unwrap()), 2.5);
    assert_eq!(scan.sample(1), None);
}

#[test]
fn a_scan_of_no_steps_has_no_sample() {
    let scan = scan(2.5, 9.0, 0);
    assert_eq!(scan.sample(0), None);
    assert_eq!(scan.sample(7), None);
}

#[test]
fn the_samples_of_a_scan_interpolate_linearly() {
    let scan = scan(1.0, 4.0, 4);
    assert_eq!(scan.sample(0), Some(ScanPoint::Between { index: 0, last: 3 }));
    assert_eq!(scan.sample(1), Some(ScanPoint::Between { index: 1, last: 3 }));
    assert_eq!(scan.sample(2), Some(ScanPoint::Between { index: 2, last: 3 }));
    assert_eq!(scan.sample(3), Some(ScanPoint::Between { index: 3, last: 3 }));
    assert_eq!(scan.sample(4), None);
    let values: Vec<f64> = (0..4).map(|i| value_at(&scan, scan.sample(i).unwrap())).collect();
    assert_eq!(values, vec![1.0, 2.0, 3.0, 4.0]);
}

#[test]
fn every_sample_equals_the_interpolation_formula() {
    let (start, end, steps) = (0.5_f64, 2.0_f64, 11_usize);
    let scan = scan(start, end, steps);
    for i in 0..steps {
        let expected = start + (end - start) * (i as f64) / ((steps - 1) as f64);
        assert_eq!(value_at(&scan, scan.sample(i).unwrap()), expected);
    }
    assert_eq!(value_at(&scan, scan.sample(0).unwrap()), start);
    assert_eq!(value_at(&scan, scan.sample(steps - 1).unwrap()), end);
    assert_eq!(scan.sample(steps), None);
}

#[test]
fn the_samples_of_a_rising_scan_rise() {
    let scan = scan(-3.0, 7.0, 6);
    let mut last = f64::NEG_INFINITY;
    for i in 0..6 {
        let x = value_at(&scan, scan.sample(i).unwrap());
        assert!(x > last);
        last = x;
    }
}

#[test]
fn a_scan_of_two_steps_is_its_two_ends() {
    let scan = scan(3.0, 8.0, 2);
    assert_eq!(scan.sample(0), Some(ScanPoint::Between { index: 0, last: 1 }));
    assert_eq!(scan.sample(1), Some(ScanPoint::Between { index: 1, last: 1 }));
    assert_eq!(value_at(&scan, scan.sample(0).unwrap()), 3.0);
    assert_eq!(value_at(&scan, scan.sample(1).unwrap()), 8.0);
}

#[test]
fn point_parameters_add_the_scanned_value_to_the_fixed_ones() {
    let sim = simulation("Chaotic", &[("v0", 1.0)], "power");
    let params = sim.point_parameters(s(2.0));
    assert_eq!(params.get("v0"), Some(s(1.0)));
    assert_eq!(params.get("power"), Some(s(2.0)));
    assert_eq!(params.names().len(), 2);
    assert_eq!(sim.fixed_parameters.get("power"), None);
}

#[test]
fn the_scanned_value_overrides_a_fixed_one_of_the_same_name() {
    let sim = simulation("Chaotic", &[("v0", 1.0), ("power", 4.0)], "power");
    let params = sim.point_parameters(s(2.0));
    assert_eq!(params.get("power"), Some(s(2.0)));
    assert_eq!(params.names().len(), 2);
    assert_eq!(sim.fixed_parameters.get("power"), Some(s(4.0)));
}

#[test]
fn potential_at_builds_the_model_of_the_point() {
    let sim = simulation("Chaotic", &[("v0", 1.0)], "power");
    assert_eq!(
        sim.potential_at(s(2.0)).unwrap(),
        Potential::Chaotic(ChaoticPotential { v0: s(1.0), power: s(2.0) })
    );
}

#[test]
fn potential_at_reports_what_the_point_lacks() {
    let sim = simulation("Chaotic", &[("v0", 1.0)], "f");
    match sim.potential_at(s(2.0)) {
        Err(ModelError::MissingParameter { key, model }) => {
            assert_eq!(key, ParamName::Power);
            assert_eq!(model, ModelKind::Chaotic);
        }
        other => panic!("unexpected result: {:?}", other),
    }
    let unknown = simulation("Quintessence", &[("v0", 1.0)], "power");
    assert_eq!(unknown.potential_at(s(2.0)).unwrap_err().message(), "Unknown model: Quintessence");
}

#[test]
fn a_config_holds_its_simulations_in_order() {
    let config = Config {
        simulations: vec![
            simulation("Chaotic", &[("v0", 1.0)], "power"),
            simulation("Natural", &[("v0", 1.0)], "f"),
        ],
    };
    assert_eq!(config.simulations.len(), 2);
    assert_eq!(config.simulations[0].model, "Chaotic");
    assert_eq!(config.simulations[1].scan_parameter.name, "f");
    let range = SearchRange { start: s(0.0), end: s(20.0) };
    assert_eq!(range, SearchRange { start: s(0.0), end: s(20.0) });
}
