use video_grid::probe::{parse_duration, parse_rate, read_duration, read_rate, ProbeFailure};
use video_grid::rate::Rate;

fn as_f64(r: Rate) -> f64 {
    r.num as f64 / r.den as f64
}

#[test]
fn ntsc_fraction_parses() {
    let r = parse_rate(b"30000/1001").unwrap();
    assert_eq!(r, Rate { num: 30000, den: 1001 });
    assert!((as_f64(r) - 29.97003).abs() < 1e-5);
}

#[test]
fn whole_fraction_parses() {
    let r = parse_rate(b"25/1").unwrap();
    assert_eq!(r, Rate { num: 25, den: 1 });
    assert_eq!(as_f64(r), 25.0);
}

#[test]
fn zero_denominator_is_rejected() {
    assert_eq!(parse_rate(b"25/0"), Err(ProbeFailure::ZeroDenominator));
    assert_eq!(parse_rate(b"0/0\n"), Err(ProbeFailure::ZeroDenominator));
}

#[test]
fn rate_output_is_trimmed() {
    assert_eq!(parse_rate(b"  24/1 \r\n"), Ok(Rate { num: 24, den: 1 }));
}

#[test]
fn plain_decimal_rate_parses() {
    assert_eq!(parse_rate(b"29.97\n"), Ok(Rate { num: 2997, den: 100 }));
    assert_eq!(parse_rate(b"60"), Ok(Rate { num: 60, den: 1 }));
}

#[test]
fn malformed_rates_are_rejected() {
    assert_eq!(parse_rate(b""), Err(ProbeFailure::Malformed));
    assert_eq!(parse_rate(b"abc"), Err(ProbeFailure::Malformed));
    assert_eq!(parse_rate(b"1/2/3"), Err(ProbeFailure::Malformed));
    assert_eq!(parse_rate(b"/5"), Err(ProbeFailure::Malformed));
    assert_eq!(parse_rate(b"2.5/1"), Err(ProbeFailure::Malformed));
    assert_eq!(parse_rate(b"."), Err(ProbeFailure::Malformed));
    assert_eq!(parse_rate(b"12345678901234567890"), Err(ProbeFailure::Malformed));
}

#[test]
fn duration_is_rounded_down() {
    assert_eq!(parse_duration(b"10.500000\n"), Ok(10));
    assert_eq!(parse_duration(b"0.999"), Ok(0));
    assert_eq!(parse_duration(b"20"), Ok(20));
    assert_eq!(parse_duration(b".5"), Ok(0));
}

#[test]
fn duration_beyond_u32_is_held() {
    assert_eq!(parse_duration(b"99999999999.5"), Ok(u32::MAX));
}

#[test]
fn malformed_durations_are_rejected() {
    assert_eq!(parse_duration(b"N/A\n"), Err(ProbeFailure::Malformed));
    assert_eq!(parse_duration(b"-1"), Err(ProbeFailure::Malformed));
    assert_eq!(parse_duration(b"1.2.3"), Err(ProbeFailure::Malformed));
}

#[test]
fn failed_tool_is_reported_before_output() {
    assert_eq!(read_rate(false, b"25/1"), Err(ProbeFailure::ToolFailed));
    assert_eq!(read_duration(false, b"10"), Err(ProbeFailure::ToolFailed));
    assert_eq!(read_rate(true, b"25/1"), Ok(Rate { num: 25, den: 1 }));
    assert_eq!(read_duration(true, b"10"), Ok(10));
}

#[test]
fn rates_compare_as_fractions() {
    let ntsc = Rate { num: 30000, den: 1001 };
    let thirty = Rate { num: 30, den: 1 };
    assert!(ntsc.less_than(&thirty));
    assert!(!thirty.less_than(&ntsc));
    assert!(!thirty.less_than(&Rate { num: 60, den: 2 }));
}
