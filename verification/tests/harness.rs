use strbench::driver::{benchmark_cases, run_case, timed_case, CaseError, MAX_ITERATIONS};
use strbench::grouping::decimal_mark2;
use strbench::render::{format_checksum_line, format_result_line, u64_to_decimal};
use strbench::repr::{build_value, value_as_str, ReprKind};
use strbench::search::{find_in_str, find_subslice};
use strbench::timing::time_it;

const SHORT_PHRASE: &str = "Mary had a little lamb!";
const LONG_PHRASE: &str = "Mary had a little lamb!0123456789";

#[test]
fn grouping_million() {
    assert_eq!(decimal_mark2(String::from("1000000")), "1.000.000");
}

#[test]
fn grouping_single_digit() {
    assert_eq!(decimal_mark2(String::from("7")), "7");
}

#[test]
fn grouping_four_digits() {
    assert_eq!(decimal_mark2(String::from("1234")), "1.234");
}

#[test]
fn grouping_short_inputs_unchanged() {
    assert_eq!(decimal_mark2(String::new()), "");
    assert_eq!(decimal_mark2(String::from("12")), "12");
    assert_eq!(decimal_mark2(String::from("123")), "123");
}

#[test]
fn grouping_no_leading_separator() {
    assert_eq!(decimal_mark2(String::from("123456")), "123.456");
    assert_eq!(decimal_mark2(String::from("82497024")), "82.497.024");
    assert_eq!(decimal_mark2(String::from("1234567890")), "1.234.567.890");
}

#[test]
fn decimal_rendering() {
    assert_eq!(u64_to_decimal(0), "0");
    assert_eq!(u64_to_decimal(7), "7");
    assert_eq!(u64_to_decimal(1_000_000), "1000000");
    assert_eq!(u64_to_decimal(19_000_000), "19000000");
    assert_eq!(u64_to_decimal(u64::MAX), "18446744073709551615");
}

#[test]
fn result_line_formatting() {
    let line = format_result_line("String len == 23", 1_000_000, 82_497_024);
    assert_eq!(
        line,
        "Benchmark String len == 23: 1.000.000 => time: 82.497.024 nano sec."
    );
}

#[test]
fn checksum_line_formatting() {
    assert_eq!(format_checksum_line(19_000_000), "  res = 19000000");
}

#[test]
fn find_reports_first_byte_offset() {
    assert_eq!(find_in_str(SHORT_PHRASE, "lamb!"), Some(18));
    assert_eq!(find_in_str(LONG_PHRASE, "lamb!"), Some(18));
    assert_eq!(find_in_str("abcabc", "abc"), Some(0));
    assert_eq!(find_in_str("abcabc", "cab"), Some(2));
    assert_eq!(find_in_str("abc", ""), Some(0));
    assert_eq!(find_in_str("abc", "zz"), None);
    assert_eq!(find_subslice(b"hello world", b"o w"), Some(4));
    assert_eq!(find_subslice(b"hello", b"hello world"), None);
}

#[test]
fn built_values_hold_the_phrase() {
    for kind in [
        ReprKind::DynamicHeap,
        ReprKind::CompactA,
        ReprKind::CompactB,
        ReprKind::CompactCStack,
        ReprKind::CompactCHeap,
    ] {
        let short = build_value(kind, SHORT_PHRASE);
        assert_eq!(value_as_str(&short), SHORT_PHRASE);
        let long = build_value(kind, LONG_PHRASE);
        assert_eq!(value_as_str(&long), LONG_PHRASE);
    }
}

#[test]
fn heap_case_checksum_short_phrase() {
    let (acc, last) = run_case(ReprKind::DynamicHeap, SHORT_PHRASE).unwrap();
    assert_eq!(acc, 19_000_000);
    assert_eq!(acc, MAX_ITERATIONS + MAX_ITERATIONS * 18);
    assert_eq!(last, SHORT_PHRASE);
}

#[test]
fn compact_a_case_checksum_short_phrase() {
    let (acc, last) = run_case(ReprKind::CompactA, SHORT_PHRASE).unwrap();
    assert_eq!(acc, 19_000_000);
    assert_eq!(last, SHORT_PHRASE);
}

#[test]
fn compact_b_case_checksum_short_phrase() {
    let (acc, last) = run_case(ReprKind::CompactB, SHORT_PHRASE).unwrap();
    assert_eq!(acc, 19_000_000);
    assert_eq!(last, SHORT_PHRASE);
}

#[test]
fn compact_c_cases_checksum_long_phrase() {
    let (acc_stack, last_stack) = run_case(ReprKind::CompactCStack, LONG_PHRASE).unwrap();
    assert_eq!(acc_stack, 19_000_000);
    assert_eq!(last_stack, LONG_PHRASE);
    let (acc_heap, last_heap) = run_case(ReprKind::CompactCHeap, LONG_PHRASE).unwrap();
    assert_eq!(acc_heap, 19_000_000);
    assert_eq!(last_heap, LONG_PHRASE);
}

#[test]
fn checksum_is_representation_independent() {
    let (acc_heap, _) = run_case(ReprKind::DynamicHeap, LONG_PHRASE).unwrap();
    let (acc_smart, _) = run_case(ReprKind::CompactA, LONG_PHRASE).unwrap();
    assert_eq!(acc_heap, acc_smart);
}

#[test]
fn missing_substring_is_reported() {
    let r = run_case(ReprKind::DynamicHeap, "no such ovine here");
    assert_eq!(r.unwrap_err(), CaseError::SubstringMissing);
}

#[test]
fn timer_returns_the_computation_result() {
    let (value, elapsed) = time_it(|| 41usize + 1);
    assert_eq!(value, 42);
    assert!(elapsed >= std::time::Duration::from_secs(0));
}

#[test]
fn timed_heap_case_end_to_end() {
    let report = timed_case(ReprKind::DynamicHeap, "String len == 23", SHORT_PHRASE).unwrap();
    assert_eq!(report.checksum, 19_000_000);
    assert_eq!(report.last, SHORT_PHRASE);
    assert!(report.checksum_text.contains("res = 19000000"));
    assert_eq!(report.checksum_text, "  res = 19000000");
    assert!(report
        .result_text
        .starts_with("Benchmark String len == 23: 1.000.000 => time: "));
    assert!(report.result_text.ends_with(" nano sec."));
    assert!(report.nanos < 1_000_000_000);
}

#[test]
fn case_list_is_fixed_and_ordered() {
    let cases = benchmark_cases();
    assert_eq!(cases.len(), 9);
    let labels: Vec<&str> = cases.iter().map(|c| c.label).collect();
    assert_eq!(
        labels,
        vec![
            "String len == 23",
            "SmartString len == 23",
            "SmallString len == 23",
            "SmallStr len == 23",
            "String len > 23",
            "SmartString len > 23",
            "SmallString len > 23",
            "SmallStr len > 23 in stack",
            "SmallStr len > 23 in heap",
        ]
    );
    for (i, case) in cases.iter().enumerate() {
        let expected = if i < 4 { SHORT_PHRASE } else { LONG_PHRASE };
        assert_eq!(case.phrase, expected);
    }
    assert_eq!(cases[0].kind, ReprKind::DynamicHeap);
    assert_eq!(cases[1].kind, ReprKind::CompactA);
    assert_eq!(cases[2].kind, ReprKind::CompactB);
    assert_eq!(cases[3].kind, ReprKind::CompactCHeap);
    assert_eq!(cases[4].kind, ReprKind::DynamicHeap);
    assert_eq!(cases[5].kind, ReprKind::CompactA);
    assert_eq!(cases[6].kind, ReprKind::CompactB);
    assert_eq!(cases[7].kind, ReprKind::CompactCStack);
    assert_eq!(cases[8].kind, ReprKind::CompactCHeap);
}
