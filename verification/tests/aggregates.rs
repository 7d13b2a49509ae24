use tursokit::percentile::{
    interpolate, sorted, Interpolation, Median, MedianOutcome, Percentile, PercentileCont,
    PercentileDisc, PercentileOutcome, PercentileState,
};
use tursokit::value::Real;

fn number(f: f64) -> Real {
    Real { bits: f.to_bits() }
}

fn float(r: Real) -> f64 {
    f64::from_bits(r.bits)
}

/// Whether a percentile is apart from the one that was asked for first.
fn apart(state: &PercentileState, p: f64) -> bool {
    match state.p {
        Some(first) => (float(first) - p).abs() >= 0.001,
        None => false,
    }
}

fn run_disc(rows: &[(f64, f64)]) -> Result<Option<f64>, &'static str> {
    let mut state = PercentileState::new();
    for (y, p) in rows {
        let apart = apart(&state, *p);
        PercentileDisc::step(&mut state, Some(number(*y)), Some(number(*p)), apart);
    }
    match PercentileDisc::finalize(state) {
        PercentileOutcome::Null => Ok(None),
        PercentileOutcome::Error(e) => Err(e),
        PercentileOutcome::Value(v) => Ok(Some(float(v))),
        PercentileOutcome::Select { sorted, p } => {
            let n = sorted.len() as f64;
            let index = (float(p) * (n - 1.0)).floor() as usize;
            Ok(Some(float(PercentileDisc::select(&sorted, index))))
        }
    }
}

fn run_percentile(rows: &[(f64, f64)]) -> Result<Option<f64>, &'static str> {
    let mut state = PercentileState::new();
    for (y, p) in rows {
        let apart = apart(&state, *p);
        Percentile::step(&mut state, Some(number(*y)), Some(number(*p)), apart);
    }
    match Percentile::finalize(state) {
        PercentileOutcome::Null => Ok(None),
        PercentileOutcome::Error(e) => Err(e),
        PercentileOutcome::Value(v) => Ok(Some(float(v))),
        PercentileOutcome::Select { sorted, p } => {
            let n = sorted.len() as f64;
            let index = float(p) * (n - 1.0) / 100.0;
            let lower = index.floor() as usize;
            let upper = index.ceil() as usize;
            match interpolate(&sorted, lower, upper) {
                Interpolation::Value(v) => Ok(Some(float(v))),
                Interpolation::Between(a, b) => {
                    let weight = index - lower as f64;
                    Ok(Some(float(a) * (1.0 - weight) + float(b) * weight))
                }
            }
        }
    }
}

fn constant(values: &[f64], p: f64) -> Vec<(f64, f64)> {
    values.iter().map(|y| (*y, p)).collect()
}

#[test]
fn percentile_disc_rejects_percentages() {
    for p in [100.0, 2.0, 1.5, -0.5] {
        assert_eq!(run_disc(&constant(&[1.0, 2.0], p)).unwrap(), None);
        assert_eq!(
            run_disc(&[(1.0, 0.5), (2.0, p)]).err(),
            Some("Percentile value must be between 0.0 and 1.0 inclusive"),
            "percentile_disc should reject p = {p}"
        );
    }
}

#[test]
fn percentile_disc_selects_by_fraction() {
    let values = [10.0, 20.0, 30.0, 40.0, 50.0];
    // Discrete: floor((n - 1) * p), always an actual input value.
    for (p, expected) in [
        (0.0, 10.0),
        (0.25, 20.0),
        (0.5, 30.0),
        (0.55, 30.0),
        (1.0, 50.0),
    ] {
        assert_eq!(
            run_disc(&constant(&values, p)).unwrap(),
            Some(expected),
            "percentile_disc at p = {p}"
        );
    }
}

#[test]
fn percentile_keeps_percentage_scale() {
    // percentile() stays on [0, 100] and interpolates; the two must not
    // drift onto the same scale.
    let values = [10.0, 20.0, 30.0, 40.0, 50.0];
    assert_eq!(
        run_percentile(&constant(&values, 100.0)).unwrap(),
        Some(50.0)
    );
    assert_eq!(
        run_percentile(&constant(&values, 55.0)).unwrap(),
        Some(32.0)
    );
    assert_eq!(
        run_percentile(&[(10.0, 50.0), (20.0, 101.0)]).err(),
        Some("Invalid percentile value")
    );
}

#[test]
fn percentiles_must_agree() {
    assert_eq!(
        run_percentile(&[(10.0, 50.0), (20.0, 51.0)]).err(),
        Some("Inconsistent percentile values across rows")
    );
    assert_eq!(run_percentile(&[(10.0, 50.0)]).unwrap(), Some(10.0));
    let mut state = PercentileState::new();
    PercentileCont::step(&mut state, None, Some(number(0.5)), false);
    PercentileCont::step(&mut state, Some(number(1.0)), None, false);
    assert!(matches!(
        PercentileCont::finalize(state),
        PercentileOutcome::Null
    ));
    let mut state = PercentileState::new();
    PercentileCont::step(&mut state, Some(number(1.0)), Some(number(-0.0)), false);
    PercentileCont::step(&mut state, Some(number(2.0)), Some(number(f64::NAN)), false);
    assert!(matches!(
        PercentileCont::finalize(state),
        PercentileOutcome::Error("Percentile value must be between 0.0 and 1.0 inclusive")
    ));
    let state = PercentileState {
        values: vec![number(1.0), number(2.0)],
        p: None,
        error: None,
    };
    assert!(matches!(
        Percentile::finalize(state),
        PercentileOutcome::Error("percentile value must be provided")
    ));
}

#[test]
fn numbers_are_sorted_by_the_total_order() {
    let numbers = [
        1.5,
        f64::NAN,
        -0.0,
        f64::NEG_INFINITY,
        0.0,
        -2.0,
        f64::INFINITY,
    ];
    let mut expected = numbers.to_vec();
    expected.sort_by(|a, b| a.total_cmp(b));
    let bits: Vec<u64> = expected.iter().map(|f| f.to_bits()).collect();
    let got: Vec<u64> = sorted(numbers.iter().map(|f| number(*f)).collect())
        .iter()
        .map(|r| r.bits)
        .collect();
    assert_eq!(got, bits);
}

#[test]
fn medians_are_in_the_middle() {
    let mut state = Vec::new();
    assert_eq!(Median::finalize(Vec::new()), MedianOutcome::Null);
    for v in [3.0, 1.0, 2.0] {
        Median::step(&mut state, Some(number(v)));
    }
    Median::step(&mut state, None);
    assert_eq!(
        Median::finalize(state.clone()),
        MedianOutcome::Value(number(2.0))
    );
    Median::step(&mut state, Some(number(10.0)));
    assert_eq!(
        Median::finalize(state),
        MedianOutcome::Mean(number(2.0), number(3.0))
    );
}
