use calliper::parser::{parse_callgrind_output, ReportError};
use calliper::ParsedCallgrindOutput;

fn parse(text: &str) -> Result<ParsedCallgrindOutput, ReportError> {
    parse_callgrind_output(text, "bench".to_string())
}

fn all_counters(text_values: &str) -> ParsedCallgrindOutput {
    let text = format!(
        "version: 1\ncmd: ./bench\nevents: Ir Dr Dw I1mr D1mr D1mw ILmr DLmr DLmw\nfn=main\n0 1 2 3\nsummary: {text_values}\ntotals: 1\n"
    );
    parse(&text).unwrap()
}

#[test]
fn two_events_give_two_counters() {
    let p = parse("events: Ir I1mr\nsummary: 100 7\n").unwrap();
    assert_eq!(p.name, "bench");
    assert_eq!(p.instruction_reads, Some(100));
    assert_eq!(p.instruction_l1_misses, Some(7));
    assert_eq!(p.instruction_cache_misses, None);
    assert_eq!(p.data_reads, None);
    assert_eq!(p.data_l1_read_misses, None);
    assert_eq!(p.data_cache_read_misses, None);
    assert_eq!(p.data_writes, None);
    assert_eq!(p.data_l1_write_misses, None);
    assert_eq!(p.data_cache_write_misses, None);
}

#[test]
fn all_nine_counters_are_read() {
    let p = all_counters("1000 500 200 50 20 10 5 2 1");
    assert_eq!(p.instruction_reads, Some(1000));
    assert_eq!(p.data_reads, Some(500));
    assert_eq!(p.data_writes, Some(200));
    assert_eq!(p.instruction_l1_misses, Some(50));
    assert_eq!(p.data_l1_read_misses, Some(20));
    assert_eq!(p.data_l1_write_misses, Some(10));
    assert_eq!(p.instruction_cache_misses, Some(5));
    assert_eq!(p.data_cache_read_misses, Some(2));
    assert_eq!(p.data_cache_write_misses, Some(1));
}

#[test]
fn cycle_estimate_matches_formula() {
    let p = all_counters("1000 500 200 50 20 10 5 2 1");
    assert_eq!(p.ram_accesses(), Some(8));
    assert_eq!(p.cycles(), Some(1620 + 72 * 5 + 8 * 35));
    assert_eq!(p.cycles(), Some(2260));
}

#[test]
fn cycle_estimate_needs_every_counter() {
    let p = parse("events: Ir Dr Dw I1mr D1mr D1mw ILmr DLmr\nsummary: 1000 500 200 50 20 10 5 2\n")
        .unwrap();
    assert_eq!(p.ram_accesses(), None);
    assert_eq!(p.cycles(), None);
    let p = parse("events: Dr Dw I1mr D1mr D1mw ILmr DLmr DLmw\nsummary: 500 200 50 20 10 5 2 1\n")
        .unwrap();
    assert_eq!(p.ram_accesses(), Some(8));
    assert_eq!(p.cycles(), None);
}

#[test]
fn inconsistent_counters_give_no_estimate() {
    // more last-level misses than first-level misses
    let p = all_counters("1000 500 200 1 1 1 5 2 1");
    assert_eq!(p.ram_accesses(), Some(8));
    assert_eq!(p.cycles(), None);
    // more first-level misses than accesses
    let p = all_counters("10 0 0 50 20 10 5 2 1");
    assert_eq!(p.cycles(), None);
}

#[test]
fn estimate_that_exceeds_u64_is_absent() {
    let max = u64::MAX;
    let p = all_counters(&format!("0 0 0 0 0 0 {max} {max} 0"));
    assert_eq!(p.ram_accesses(), None);
    let p = all_counters(&format!("{max} 0 0 0 0 0 {max} 0 0"));
    assert_eq!(p.ram_accesses(), Some(max));
    assert_eq!(p.cycles(), None);
    let p = all_counters(&format!("{max} 0 0 0 0 0 0 0 0"));
    assert_eq!(p.cycles(), Some(max));
}

#[test]
fn missing_events_line_fails() {
    assert_eq!(parse("summary: 100 7\n"), Err(ReportError::MissingMarker));
}

#[test]
fn missing_summary_line_fails() {
    assert_eq!(parse("events: Ir I1mr\n"), Err(ReportError::MissingMarker));
}

#[test]
fn empty_report_fails() {
    assert_eq!(parse(""), Err(ReportError::MissingMarker));
    assert_eq!(parse("events:Ir\nsummary:1\n"), Err(ReportError::MissingMarker));
    assert_eq!(parse(" events: Ir\nsummary: 1\n"), Err(ReportError::MissingMarker));
}

#[test]
fn invalid_summary_value_fails() {
    assert_eq!(parse("events: Ir I1mr\nsummary: 100 x7\n"), Err(ReportError::InvalidNumber));
    assert_eq!(
        parse("events: Ir\nsummary: 18446744073709551616\n"),
        Err(ReportError::InvalidNumber)
    );
}

#[test]
fn every_summary_value_must_be_a_number() {
    assert_eq!(parse("events: Ir\nsummary: 100 garbage\n"), Err(ReportError::InvalidNumber));
    let p = parse("events: Ir\nsummary: 100 200\n").unwrap();
    assert_eq!(p.instruction_reads, Some(100));
}

#[test]
fn events_without_a_value_are_absent() {
    let p = parse("events: Ir I1mr\nsummary: 100\n").unwrap();
    assert_eq!(p.instruction_reads, Some(100));
    assert_eq!(p.instruction_l1_misses, None);
}

#[test]
fn last_marker_line_and_later_duplicate_win() {
    let p = parse("events: Dr\nsummary: 1\nevents: Ir Ir\nsummary: 5 6\n").unwrap();
    assert_eq!(p.instruction_reads, Some(6));
    assert_eq!(p.data_reads, None);
}

#[test]
fn crlf_lines_and_extra_whitespace_are_accepted() {
    let p = parse("events:   Ir\tDr  \r\nsummary: +4   9 \r\n").unwrap();
    assert_eq!(p.instruction_reads, Some(4));
    assert_eq!(p.data_reads, Some(9));
    let p = parse("events: Ir\nsummary: 3").unwrap();
    assert_eq!(p.instruction_reads, Some(3));
}

#[test]
fn unicode_whitespace_separates_tokens() {
    let p = parse("events: Ir\u{a0}Dr\nsummary: 1\u{3000}2\n").unwrap();
    assert_eq!(p.instruction_reads, Some(1));
    assert_eq!(p.data_reads, Some(2));
}
