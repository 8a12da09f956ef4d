use grepowski::fragment::{File, Fragment};
use grepowski::fragment_evaluation::{sort_by_value, FragmentEvaluation};
use grepowski::score::Score;
use ratatui::text::Line;

fn score(value: f32) -> Score {
    Score::from_bits(value.to_bits()).expect("a number")
}

fn fragments(count: usize) -> Vec<Fragment> {
    let mut content = String::new();
    let mut lines = Vec::new();
    for i in 0..count {
        content.push_str(&format!("line {}\n", i));
        lines.push(Line::from(format!("line {}", i)));
    }
    File::new("scored.rs".to_string(), &content, lines).into_fragments(1, 0)
}

fn evaluations(values: &[f32]) -> Vec<FragmentEvaluation> {
    fragments(values.len())
        .into_iter()
        .zip(values.iter())
        .map(|(fragment, value)| FragmentEvaluation {
            fragment,
            value: score(*value),
        })
        .collect()
}

fn order(sorted: &[FragmentEvaluation]) -> Vec<usize> {
    sorted
        .iter()
        .map(|evaluation| evaluation.fragment.line_range().0)
        .collect()
}

#[test]
fn scores_sort_from_high_to_low() {
    // Fragments A, B, C with the scores 0.9, 0.1, 0.5 come out as A, C, B.
    let sorted = sort_by_value(evaluations(&[0.9, 0.1, 0.5]));
    assert_eq!(order(&sorted), vec![0, 2, 1]);
    assert_eq!(sorted[0].value.bits(), 0.9f32.to_bits());
    assert_eq!(sorted[1].value.bits(), 0.5f32.to_bits());
    assert_eq!(sorted[2].value.bits(), 0.1f32.to_bits());
}

#[test]
fn equal_scores_keep_their_order() {
    let sorted = sort_by_value(evaluations(&[0.5, 0.7, 0.5, 0.7, 0.5, 0.1, 0.7]));
    assert_eq!(order(&sorted), vec![1, 3, 6, 0, 2, 4, 5]);
    // Both zeros are the same score.
    let sorted = sort_by_value(evaluations(&[-0.0, 0.0, -0.0, 0.0]));
    assert_eq!(order(&sorted), vec![0, 1, 2, 3]);
}

#[test]
fn sorting_agrees_with_a_stable_sort_of_the_numbers() {
    let values: Vec<f32> = vec![
        0.3, 0.9, 0.0, 1.0, 0.3, 0.25, 0.999, 0.001, 0.5, 0.5, 0.75, -1.5, 2.0, 0.3, 1e-40,
        -1e-40, f32::INFINITY, f32::NEG_INFINITY, f32::MAX, f32::MIN, f32::MIN_POSITIVE, -0.0,
    ];
    let sorted = sort_by_value(evaluations(&values));
    let mut expected: Vec<usize> = (0..values.len()).collect();
    expected.sort_by(|a, b| values[*b].partial_cmp(&values[*a]).expect("a number"));
    assert_eq!(order(&sorted), expected);
    for pair in sorted.windows(2) {
        assert!(pair[0].value.key() >= pair[1].value.key());
    }
}

#[test]
fn sorting_nothing_gives_nothing() {
    assert!(sort_by_value(Vec::new()).is_empty());
    let sorted = sort_by_value(evaluations(&[0.4]));
    assert_eq!(order(&sorted), vec![0]);
}

#[test]
fn keys_order_as_the_numbers_do() {
    let values: Vec<f32> = vec![
        f32::NEG_INFINITY,
        f32::MIN,
        -2.5,
        -1.0,
        -1e-40,
        -0.0,
        0.0,
        1e-45,
        f32::MIN_POSITIVE,
        0.1,
        0.5,
        0.9,
        1.0,
        1.0000001,
        3.0e38,
        f32::MAX,
        f32::INFINITY,
    ];
    for a in &values {
        for b in &values {
            let by_key = score(*a).key().cmp(&score(*b).key());
            let by_number = a.partial_cmp(b).expect("numbers");
            assert_eq!(by_key, by_number, "{} and {}", a, b);
        }
    }
    assert_eq!(score(0.0).key(), 0);
    assert_eq!(score(-0.0).key(), 0);
    assert_eq!(score(1.0).key(), 0x3f80_0000);
    assert_eq!(score(-1.0).key(), -0x3f80_0000);
}

#[test]
fn what_is_not_a_number_is_no_score() {
    assert!(Score::from_bits(f32::NAN.to_bits()).is_none());
    assert!(Score::from_bits(0x7f80_0001).is_none());
    assert!(Score::from_bits(0xffff_ffff).is_none());
    assert!(Score::from_bits(0xff80_0001).is_none());
    assert!(Score::from_bits(0x7f80_0000).is_some());
    assert!(Score::from_bits(0xff80_0000).is_some());
    assert_eq!(Score::from_bits(0x3f00_0000).map(|s| s.bits()), Some(0x3f00_0000));
}

#[test]
fn scores_are_shown_with_three_decimals() {
    assert_eq!(score(0.0).three_decimals(), "0.000");
    assert_eq!(score(1.0).three_decimals(), "1.000");
    assert_eq!(score(0.42).three_decimals(), "0.420");
    assert_eq!(score(0.9).three_decimals(), "0.900");
    assert_eq!(score(0.1).three_decimals(), "0.100");
    assert_eq!(score(0.9996).three_decimals(), "1.000");
    assert_eq!(score(0.9995).three_decimals(), format!("{:.3}", 0.9995f32));
    assert_eq!(score(0.0004).three_decimals(), "0.000");
    // Half-way between two thousandths: to the even one.
    assert_eq!(score(0.0625).three_decimals(), "0.062");
    assert_eq!(score(0.1875).three_decimals(), "0.188");
    assert_eq!(score(0.0005).three_decimals(), format!("{:.3}", 0.0005f32));
    assert_eq!(score(-0.0).three_decimals(), "-0.000");
    assert_eq!(score(-12.3456).three_decimals(), "-12.346");
    assert_eq!(score(f32::INFINITY).three_decimals(), "inf");
    assert_eq!(score(f32::NEG_INFINITY).three_decimals(), "-inf");
    assert_eq!(
        score(f32::MAX).three_decimals(),
        "340282346638528859811704183484516925440.000"
    );
}

#[test]
fn three_decimals_agree_with_the_standard_formatting() {
    let mut bits: u32 = 0;
    let mut checked = 0u32;
    // Every pattern in steps that reach all exponents and many fractions.
    loop {
        for offset in [0u32, 1, 2, 0x1234, 0x40_0000, 0x7f_ffff] {
            let pattern = bits.wrapping_add(offset);
            if let Some(s) = Score::from_bits(pattern) {
                let expected = format!("{:.3}", f32::from_bits(pattern));
                assert_eq!(s.three_decimals(), expected, "bits {:#x}", pattern);
                checked += 1;
            }
        }
        match bits.checked_add(0x80_0000) {
            Some(next) => bits = next,
            None => break,
        }
    }
    assert!(checked > 2000);
    // The thousandths between 0 and 1, and the half-way points between them.
    for n in 0..=2000u32 {
        let value = n as f32 / 2000.0;
        let expected = format!("{:.3}", value);
        assert_eq!(score(value).three_decimals(), expected, "value {}", value);
    }
    for n in 0..=4096u32 {
        let value = n as f32 / 4096.0;
        let expected = format!("{:.3}", value);
        assert_eq!(score(value).three_decimals(), expected, "value {}", value);
    }
}

/// A sequence of bit patterns that is the same in every run.
fn patterns(count: usize) -> Vec<u32> {
    let mut state: u64 = 0x2545_f491_4f6c_dd1d;
    (0..count)
        .map(|_| {
            state = state
                .wrapping_mul(6364136223846793005)
                .wrapping_add(1442695040888963407);
            (state >> 32) as u32
        })
        .collect()
}

#[test]
fn three_decimals_agree_on_many_patterns() {
    let mut checked = 0;
    for pattern in patterns(200_000) {
        // All patterns, and the same ones brought near the range of scores.
        for bits in [pattern, (pattern & 0x007f_ffff) | ((110 + pattern % 20) << 23)] {
            if let Some(s) = Score::from_bits(bits) {
                let expected = format!("{:.3}", f32::from_bits(bits));
                assert_eq!(s.three_decimals(), expected, "bits {:#x}", bits);
                checked += 1;
            }
        }
    }
    assert!(checked > 390_000);
}

#[test]
fn keys_order_many_patterns_as_the_numbers() {
    let all = patterns(100_000);
    for pair in all.windows(2) {
        if let (Some(a), Some(b)) = (Score::from_bits(pair[0]), Score::from_bits(pair[1])) {
            let by_number = f32::from_bits(pair[0])
                .partial_cmp(&f32::from_bits(pair[1]))
                .expect("numbers");
            assert_eq!(a.key().cmp(&b.key()), by_number, "{:#x} {:#x}", pair[0], pair[1]);
        }
        // Neighbouring patterns, which differ in the last place.
        let near = pair[0] ^ 1;
        if let (Some(a), Some(b)) = (Score::from_bits(pair[0]), Score::from_bits(near)) {
            let by_number = f32::from_bits(pair[0])
                .partial_cmp(&f32::from_bits(near))
                .expect("numbers");
            assert_eq!(a.key().cmp(&b.key()), by_number, "{:#x} {:#x}", pair[0], near);
        }
    }
}

#[test]
fn scores_lie_between_zero_and_one() {
    for value in [0.0f32, -0.0, 1e-45, 0.001, 0.5, 0.999, 0.99999994, 1.0] {
        assert!(score(value).is_in_unit_range(), "{}", value);
    }
    for value in [
        -1e-45f32,
        -0.001,
        -1.0,
        1.0000001,
        1.5,
        2.0,
        f32::MAX,
        f32::MIN,
        f32::INFINITY,
        f32::NEG_INFINITY,
    ] {
        assert!(!score(value).is_in_unit_range(), "{}", value);
    }
    for pattern in patterns(100_000) {
        if let Some(s) = Score::from_bits(pattern) {
            let value = f32::from_bits(pattern);
            assert_eq!(s.is_in_unit_range(), (0.0..=1.0).contains(&value), "{:#x}", pattern);
        }
    }
}
