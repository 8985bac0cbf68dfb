use mss_tui::drain::{closed_signal, collect_events, drain_step, DrainAction, StreamRead};
use mss_tui::job::{JobKind, JobSignal, StreamKind};
use mss_tui::number::{is_float_token, parse_usize};
use mss_tui::progress::{parse_training_output, ProgressEvent};
use mss_tui::scan::{find_marker, is_space_char, next_token};
use mss_tui::text::chars_of;

fn epoch(n: usize) -> Option<ProgressEvent> {
    Some(ProgressEvent::EpochStarted { epoch: n })
}

fn sdr(value: &str) -> Option<ProgressEvent> {
    Some(ProgressEvent::MetricReported { name: "sdr".to_string(), value: value.to_string() })
}

#[test]
fn epoch_line_yields_its_epoch() {
    assert_eq!(parse_training_output("epoch: 3 / 100"), epoch(3));
}

#[test]
fn epoch_marker_may_stand_anywhere_in_the_line() {
    assert_eq!(parse_training_output("[train] epoch: 12"), epoch(12));
    assert_eq!(parse_training_output("epoch:7"), epoch(7));
    assert_eq!(parse_training_output("epoch:\t\t 42\n"), epoch(42));
    assert_eq!(parse_training_output("epoch: 0"), epoch(0));
}

#[test]
fn epoch_numeral_may_have_a_plus_or_leading_zeros() {
    assert_eq!(parse_training_output("epoch: +5"), epoch(5));
    assert_eq!(parse_training_output("epoch: 007 of 9"), epoch(7));
    assert_eq!(parse_training_output("epoch: 0000000000000000000000000000000000001"), epoch(1));
}

#[test]
fn epoch_at_the_limit_of_usize_is_read_and_beyond_it_dropped() {
    let max = format!("epoch: {}", usize::MAX);
    assert_eq!(parse_training_output(&max), epoch(usize::MAX));
    assert_eq!(parse_training_output("epoch: 99999999999999999999999999999999"), None);
    let beyond = format!("epoch: {}0", usize::MAX);
    assert_eq!(parse_training_output(&beyond), None);
}

#[test]
fn epoch_token_that_is_no_numeral_yields_nothing() {
    assert_eq!(parse_training_output("epoch: abc"), None);
    assert_eq!(parse_training_output("epoch: 3/100"), None);
    assert_eq!(parse_training_output("epoch: -1"), None);
    assert_eq!(parse_training_output("epoch: 1.5"), None);
    assert_eq!(parse_training_output("epoch: +"), None);
    assert_eq!(parse_training_output("epoch: 1_000"), None);
    assert_eq!(parse_training_output("epoch:"), None);
    assert_eq!(parse_training_output("epoch:    "), None);
}

#[test]
fn token_runs_to_the_next_blank_even_over_a_second_marker() {
    assert_eq!(parse_training_output("epoch: 3epoch: 4"), None);
    assert_eq!(parse_training_output("epoch: 3 epoch: 4"), epoch(3));
}

#[test]
fn sdr_line_yields_the_metric() {
    assert_eq!(parse_training_output("valid SDR: 7.42 dB"), sdr("7.42"));
}

#[test]
fn sdr_value_reads_as_the_same_float() {
    match parse_training_output("valid SDR: 7.42 dB") {
        Some(ProgressEvent::MetricReported { name, value }) => {
            assert_eq!(name, "sdr");
            assert_eq!(value.parse::<f64>().ok(), Some(7.42));
        }
        other => panic!("no metric: {:?}", other),
    }
}

#[test]
fn sdr_token_that_is_no_float_yields_nothing() {
    assert_eq!(parse_training_output("SDR: n/a"), None);
    assert_eq!(parse_training_output("SDR: 7,42"), None);
    assert_eq!(parse_training_output("SDR:"), None);
    assert_eq!(parse_training_output("SDR: ."), None);
    assert_eq!(parse_training_output("sdr: 7.42"), None);
}

#[test]
fn line_with_neither_marker_yields_nothing() {
    assert_eq!(parse_training_output(""), None);
    assert_eq!(parse_training_output("loading checkpoint"), None);
    assert_eq!(parse_training_output("epoch 3"), None);
    assert_eq!(parse_training_output("Epoch: 3"), None);
    assert_eq!(parse_training_output("SDR 7.42"), None);
}

#[test]
fn epoch_marker_wins_over_sdr_marker() {
    assert_eq!(parse_training_output("epoch: 3 SDR: 7.42"), epoch(3));
    assert_eq!(parse_training_output("SDR: 7.42 epoch: 3"), epoch(3));
    assert_eq!(parse_training_output("epoch: abc SDR: 7.42"), None);
}

#[test]
fn unicode_blanks_part_tokens() {
    assert_eq!(parse_training_output("epoch:\u{a0}\u{3000}9\u{2003}rest"), epoch(9));
    assert_eq!(parse_training_output("SDR:\u{2028}-0.5e+1\u{85}dB"), sdr("-0.5e+1"));
}

#[test]
fn space_test_agrees_with_std_on_every_char() {
    let mut code: u32 = 0;
    while code <= 0x10FFFF {
        if let Some(c) = char::from_u32(code) {
            assert_eq!(is_space_char(c), c.is_whitespace(), "U+{:X}", code);
        }
        code += 1;
    }
}

#[test]
fn float_syntax_agrees_with_std() {
    let tokens = vec![
        "7.42", "0", "-0", "+0", "1.", ".5", "+.5e-3", "1e5", "1E5", "1e+5", "1e-5", "12.5e10",
        "inf", "INF", "Inf", "-inf", "+infinity", "Infinity", "INFINITY", "nan", "NaN", "-NAN",
        "", "+", "-", ".", "e5", "1e", "1e+", "1.2.3", "0x10", "1_000", "infx", "in", "infinit",
        "nanx", "1f", "1 ", "--1", "+-1", "1e5.5", "1ee5", ".e5", "-.e1", "1.e1", "١٢", "７",
        "ınf", "İnf", "1e١", "nan0", "iNfInItY", "00.00e00", "9999999999999999999999999999e999",
    ];
    for token in tokens {
        let chars = chars_of(token);
        assert_eq!(is_float_token(&chars), token.parse::<f64>().is_ok(), "{:?}", token);
    }
}

#[test]
fn usize_syntax_agrees_with_std() {
    let tokens = vec![
        "0", "1", "42", "+42", "007", "+0", "", "+", "-", "-0", "-1", "++1", "1+", "1 ", " 1",
        "1.0", "1e3", "0x1f", "1_0", "١٢", "18446744073709551615", "18446744073709551616",
        "4294967295", "4294967296", "000018446744073709551615", "99999999999999999999",
    ];
    for token in tokens {
        let chars = chars_of(token);
        assert_eq!(parse_usize(&chars), token.parse::<usize>().ok(), "{:?}", token);
    }
}

#[test]
fn chars_are_those_of_the_text() {
    assert_eq!(chars_of("añ€😀"), vec!['a', 'ñ', '€', '😀']);
    assert_eq!(chars_of(""), Vec::<char>::new());
}

#[test]
fn marker_is_found_where_it_stands_first() {
    let line = chars_of("xx epoch: epoch:");
    let marker = chars_of("epoch:");
    assert_eq!(find_marker(&line, &marker), Some(3));
    assert_eq!(find_marker(&chars_of("epoc"), &marker), None);
    assert_eq!(find_marker(&chars_of("epoch"), &marker), None);
    assert_eq!(find_marker(&chars_of("epoch:"), &marker), Some(0));
    assert_eq!(find_marker(&line, &chars_of("")), Some(0));
}

#[test]
fn token_bounds_skip_blanks_and_stop_at_a_blank() {
    let line = chars_of("ab   cde  f");
    assert_eq!(next_token(&line, 2), (5, 8));
    assert_eq!(next_token(&line, 5), (5, 8));
    assert_eq!(next_token(&line, 10), (10, 11));
    assert_eq!(next_token(&line, 11), (11, 11));
    assert_eq!(next_token(&chars_of("a   "), 1), (4, 4));
    assert_eq!(next_token(&line, 12), (12, 12));
    assert_eq!(next_token(&chars_of(""), 3), (3, 3));
}

#[test]
fn drain_parses_stdout_lines() {
    let emitted =
        drain_step(JobKind::Training, StreamKind::Stdout, StreamRead::Line("epoch: 2".into()));
    assert_eq!(emitted, DrainAction::Emit(ProgressEvent::EpochStarted { epoch: 2 }));
    let skipped =
        drain_step(JobKind::Training, StreamKind::Stdout, StreamRead::Line("warming up".into()));
    assert_eq!(skipped, DrainAction::Skip);
}

#[test]
fn drain_sends_stderr_lines_to_the_diagnostics_only() {
    let training =
        drain_step(JobKind::Training, StreamKind::Stderr, StreamRead::Line("epoch: 2".into()));
    assert_eq!(training, DrainAction::Diagnose("Training error: epoch: 2".to_string()));
    let inference =
        drain_step(JobKind::Inference, StreamKind::Stderr, StreamRead::Line("oom".into()));
    assert_eq!(inference, DrainAction::Diagnose("Inference error: oom".to_string()));
}

#[test]
fn drain_closes_on_end_of_stream_and_on_a_failed_read() {
    for stream in [StreamKind::Stdout, StreamKind::Stderr] {
        assert_eq!(
            drain_step(JobKind::Training, stream, StreamRead::Closed),
            DrainAction::Close(None)
        );
    }
    assert_eq!(
        drain_step(JobKind::Training, StreamKind::Stdout, StreamRead::Failed("reset".into())),
        DrainAction::Close(Some("Training stdout read failed: reset".to_string()))
    );
    assert_eq!(
        drain_step(JobKind::Inference, StreamKind::Stderr, StreamRead::Failed("".into())),
        DrainAction::Close(Some("Inference stderr read failed: ".to_string()))
    );
    assert_eq!(closed_signal(StreamKind::Stdout), JobSignal::StdoutClosed);
    assert_eq!(closed_signal(StreamKind::Stderr), JobSignal::StderrClosed);
}

#[test]
fn events_keep_the_order_of_the_lines() {
    let lines: Vec<String> = vec![
        "starting".to_string(),
        "epoch: 1".to_string(),
        "train loss: 0.5".to_string(),
        "SDR: 3.5".to_string(),
        "epoch: x".to_string(),
        "epoch: 2".to_string(),
        "SDR: 4.25 dB".to_string(),
    ];
    let events = collect_events(&lines);
    assert_eq!(
        events,
        vec![
            ProgressEvent::EpochStarted { epoch: 1 },
            ProgressEvent::MetricReported { name: "sdr".to_string(), value: "3.5".to_string() },
            ProgressEvent::EpochStarted { epoch: 2 },
            ProgressEvent::MetricReported { name: "sdr".to_string(), value: "4.25".to_string() },
        ]
    );
    let (first, second) = lines.split_at(3);
    let mut joined = collect_events(&first.to_vec());
    joined.extend(collect_events(&second.to_vec()));
    assert_eq!(joined, events);
    assert_eq!(collect_events(&Vec::new()), Vec::<ProgressEvent>::new());
}
