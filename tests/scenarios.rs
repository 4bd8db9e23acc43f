//! The step schedule driven by floating-point recurrences over documented
//! fixtures: a wrong index anywhere in the schedule changes these values.
use tarq::kind::IndicatorKind;
use tarq::window::Window;

fn sma_values(data: &[f64], period: usize) -> Vec<f64> {
    let mut window = Window::new(IndicatorKind::Sma, period, &[data.len()]).unwrap();
    let mut sum = 0.0;
    let mut out = Vec::new();
    for step in window.drain() {
        match step.dropped {
            None => sum = data[step.oldest..=step.newest].iter().sum(),
            Some(d) => {
                sum += data[step.newest];
                sum -= data[d];
            }
        }
        out.push(sum / period as f64);
    }
    out
}

#[test]
fn sma_of_one_to_ten_with_period_three() {
    let input: Vec<f64> = (1..=10).map(|v| v as f64).collect();
    assert_eq!(sma_values(&input, 3), vec![2.0, 3.0, 4.0, 5.0, 6.0, 7.0, 8.0, 9.0]);
}

#[test]
fn streamed_sums_match_recomputed_windows() {
    let data: Vec<f64> = (0..200).map(|i| ((i * 37 % 101) as f64) * 0.731 - 20.0).collect();
    for period in [1, 2, 5, 17] {
        let mut window = Window::new(IndicatorKind::BBands, period, &[data.len()]).unwrap();
        let mut sum = 0.0;
        let mut sum_sq = 0.0;
        let mut weighted = 0.0;
        for step in window.drain() {
            let win = &data[step.oldest..=step.newest];
            match step.dropped {
                None => {
                    sum = win.iter().sum();
                    sum_sq = win.iter().map(|x| x * x).sum();
                    weighted = win.iter().enumerate().map(|(i, x)| x * (i + 1) as f64).sum();
                }
                Some(d) => {
                    let incoming = data[step.newest];
                    weighted += incoming * period as f64;
                    weighted -= sum;
                    sum += incoming - data[d];
                    sum_sq += incoming * incoming - data[d] * data[d];
                }
            }
            let direct: f64 = win.iter().sum();
            let direct_sq: f64 = win.iter().map(|x| x * x).sum();
            let direct_weighted: f64 = win.iter().enumerate().map(|(i, x)| x * (i + 1) as f64).sum();
            assert!((sum - direct).abs() < 1e-9);
            assert!((sum_sq - direct_sq).abs() < 1e-9 * direct_sq.max(1.0));
            assert!((weighted - direct_weighted).abs() < 1e-9 * direct_weighted.abs().max(1.0));
        }
    }
}

#[test]
fn ema_fixture_with_period_five() {
    let input_data = vec![
        5.2, 12.6, 9.8, 8.1, 2.4, 2.5, 1.2, 11.5, 8.1, 9.5, 0.7, 12.9, 11.1, 3.2, 2.8, 2.8, 4.3,
        7.2, 6.0, 4.2, 8.3, 2.2, 4.2, 5.1, 6.3, 10.5, 3.0, 7.0, 8.0, 1.0,
    ];
    let expected_output = vec![
        7.62, 5.913333333333334, 4.342222222222222, 6.728148148148148, 7.185432098765432,
        7.956954732510288, 5.537969821673525, 7.991979881115683, 9.027986587410455,
        7.08532439160697, 5.65688292773798, 4.704588618491987, 4.569725745661325, 5.446483830440883,
        5.630989220293922, 5.153992813529282, 6.2026618756861875, 4.868441250457458,
        4.645627500304972, 4.797085000203315, 5.29805666680221, 7.0320377778681395,
        5.688025185245427, 6.125350123496951, 6.750233415664634, 4.833488943776423,
    ];
    let period = 5;
    let smoothing = 2.0 / (period as f64 + 1.0);
    let mut window = Window::new(IndicatorKind::Ema, period, &[input_data.len()]).unwrap();
    let mut prev = 0.0;
    let mut out = Vec::new();
    for step in window.drain() {
        prev = if step.position == 0 {
            input_data[step.oldest..=step.newest].iter().sum::<f64>() / period as f64
        } else {
            (input_data[step.newest] - prev) * smoothing + prev
        };
        out.push(prev);
    }
    assert_eq!(out.len(), expected_output.len());
    for (o, e) in out.iter().zip(expected_output.iter()) {
        assert!((o - e).abs() < 1e-9, "expected {}, got {}", e, o);
    }
}

#[test]
fn atr_fixture_with_period_five() {
    let high: Vec<f64> = vec![
        6.10162623, 14.56635718, 11.35078849, 9.39745112, 2.88643542, 2.88638959, 1.45035886,
        13.32573468, 9.43211852, 11.0053379, 0.89911054, 14.85282872, 12.83164102, 3.71344431,
        3.26546744, 3.28846857, 5.06806026, 8.30703722, 6.94069554, 4.87333537, 9.5925205,
        2.64503834, 4.88507483, 5.9760875, 7.29653297, 12.14183433, 3.52938019, 8.15704543,
        9.30558768, 1.27825578, 3.93433522, 3.54399584,
    ];
    let low: Vec<f64> = vec![
        5.06640197, 10.75711748, 7.92529914, 6.52404504, 1.81123384, 2.20442298, -0.16004275,
        10.64371026, 7.85812735, 8.51916387, 0.59466181, 11.08229124, 10.55831803, 1.85120766,
        2.12774896, 1.75187076, 3.25125047, 6.75877653, 4.07778921, 2.64724764, 6.44495201,
        0.47982803, 2.99399004, 3.32843895, 6.06186425, 10.07763256, 2.86406815, 6.36187237,
        7.24151315, 0.47443684, 1.00539873, 2.34216868,
    ];
    let close: Vec<f64> = vec![
        5.29, 12.66, 9.86, 8.16, 2.49, 2.49, 1.24, 11.58, 8.19, 9.56, 0.76, 12.91, 11.15, 3.21,
        2.82, 2.84, 4.39, 7.21, 6.02, 4.22, 8.33, 2.28, 4.23, 5.18, 6.33, 10.55, 3.05, 7.08, 8.08,
        1.09, 2.68, 3.12,
    ];
    let expected = vec![
        4.875549154, 4.4304478732, 5.961505234560001, 5.5135787176480004, 4.973930554118401,
        5.772212081294721, 7.436335409035777, 6.419404721228622, 6.9952822449828975,
        5.823769491986318, 4.9663351555890545, 4.418680176471243, 4.318351585176995,
        4.0811234261415965, 3.939449212913277, 4.2260634703306215, 4.950885170264497,
        4.481723102211598, 4.1149081917692785, 3.715233147415423, 4.134553383932338,
        4.84482907714587, 4.8972723477166955, 4.362935414173356, 5.011460963338685,
        4.594956068670948, 3.916330286936758,
    ];
    let period = 5;
    let true_range = |i: usize, prev: usize| {
        let tr1 = high[i] - low[i];
        let tr2 = (high[i] - close[prev]).abs();
        let tr3 = (low[i] - close[prev]).abs();
        tr1.max(tr2).max(tr3)
    };
    let mut window = Window::new(IndicatorKind::Atr, period, &[high.len(), low.len(), close.len()]).unwrap();
    let mut atr = 0.0;
    let mut out = Vec::new();
    for step in window.drain() {
        if step.position == 0 {
            let mut sum = 0.0;
            for i in step.oldest..=step.newest {
                sum += true_range(i, i - 1);
            }
            atr = sum / period as f64;
        } else {
            atr *= (period - 1) as f64;
            atr += true_range(step.newest, step.previous.unwrap());
            atr /= period as f64;
        }
        out.push(atr);
    }
    assert_eq!(out.len(), expected.len());
    for (o, e) in out.iter().zip(expected.iter()) {
        assert!((o - e).abs() < 1e-9, "expected {}, got {}", e, o);
    }
}

#[test]
fn kama_of_a_constant_series_stays_constant() {
    let price_data: Vec<f64> = vec![5.0; 20];
    let period = 5;
    let fast_sc = 2.0 / (2.0 + 1.0);
    let slow_sc = 2.0 / (30.0 + 1.0);
    let mut window = Window::new(IndicatorKind::Kama, period, &[price_data.len()]).unwrap();
    let mut prev = price_data[window.offset() - 1];
    let mut sum_roc: f64 = (1..period).map(|i| (price_data[i] - price_data[i - 1]).abs()).sum();
    let mut trailing = price_data[0];
    let steps = window.drain();
    assert_eq!(steps.len(), 15);
    for step in steps {
        let t = step.newest;
        let back = step.dropped.unwrap();
        sum_roc -= (price_data[back] - trailing).abs();
        sum_roc += (price_data[t] - price_data[step.previous.unwrap()]).abs();
        trailing = price_data[back];
        let er = if sum_roc == 0.0 { 0.0 } else { (price_data[t] - price_data[back]).abs() / sum_roc };
        let sc = (er * (fast_sc - slow_sc) + slow_sc).powi(2);
        prev += sc * (price_data[t] - prev);
        assert_eq!(prev, 5.0);
    }
}
