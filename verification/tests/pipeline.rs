use rng_toolbox::collect::{collect_os_entropy, SerialCollector};
use rng_toolbox::errors::ValidationError;
use rng_toolbox::kernel_pool::KernelPoolEntry;
use rng_toolbox::parse::{parse_baud, parse_count, parse_i64_lenient, parse_u64_dec};
use rng_toolbox::progress::{percent_done, CollectEvent, ProgressGauge};
use rng_toolbox::request::{validate_request, CollectionRequest, Destination, SampleSource, SinkKind};

fn count_samples(events: &[CollectEvent]) -> usize {
    events.iter().filter(|e| matches!(e, CollectEvent::Sample { .. })).count()
}

fn sample_percents(events: &[CollectEvent]) -> Vec<u8> {
    events
        .iter()
        .filter_map(|e| match e {
            CollectEvent::Sample { percent, .. } => Some(*percent),
            _ => None,
        })
        .collect()
}

#[test]
fn parse_accepts_plain_decimals() {
    assert_eq!(parse_u64_dec(b"5"), Some(5));
    assert_eq!(parse_u64_dec(b"007"), Some(7));
    assert_eq!(parse_u64_dec(b"18446744073709551615"), Some(u64::MAX));
}

#[test]
fn parse_rejects_junk_and_overflow() {
    assert_eq!(parse_u64_dec(b""), None);
    assert_eq!(parse_u64_dec(b"abc"), None);
    assert_eq!(parse_u64_dec(b"12a"), None);
    assert_eq!(parse_u64_dec(b"-3"), None);
    assert_eq!(parse_u64_dec(b"18446744073709551616"), None);
}

#[test]
fn parse_count_requires_positive() {
    assert_eq!(parse_count(b"0"), None);
    assert_eq!(parse_count(b"1"), Some(1));
    assert_eq!(parse_baud(b"9600"), Some(9600));
    assert_eq!(parse_baud(b"0"), None);
}

#[test]
fn lenient_i64_parsing_matches_std() {
    for s in ["123", "-45", "+7", "0", "abc", "", "-", "12x", "9223372036854775807",
        "-9223372036854775808", "9223372036854775808", "99999999999999999999"] {
        let expected = s.parse::<i64>().unwrap_or(0);
        assert_eq!(parse_i64_lenient(s.as_bytes()), expected, "input {:?}", s);
    }
}

#[test]
fn bit_expansion_of_known_bytes() {
    assert_eq!(rng_toolbox::encode::encode_bits(&[0xA5]), "10100101");
    assert_eq!(rng_toolbox::encode::encode_bits(&[]), "");
    assert_eq!(rng_toolbox::encode::encode_bits(&[0x00, 0xFF]), "0000000011111111");
}

#[test]
fn invalid_sample_count_fails_validation() {
    let r = validate_request(
        Some("OS Entropy Pool".to_string()),
        "9600",
        "screen",
        "abc",
        None,
        false,
    );
    assert_eq!(r.unwrap_err(), ValidationError::InvalidSampleCount);
}

#[test]
fn invalid_destination_fails_validation() {
    let r = validate_request(
        Some("OS Entropy Pool".to_string()),
        "9600",
        "tcp",
        "5",
        None,
        false,
    );
    assert_eq!(r.unwrap_err(), ValidationError::InvalidDestination);
}

#[test]
fn missing_file_path_fails_validation() {
    let r = validate_request(Some("OS Entropy Pool".to_string()), "9600", "file", "5", None, false);
    assert_eq!(r.unwrap_err(), ValidationError::MissingFilePath);
    let r = validate_request(
        Some("OS Entropy Pool".to_string()),
        "9600",
        "file",
        "5",
        Some(String::new()),
        false,
    );
    assert_eq!(r.unwrap_err(), ValidationError::MissingFilePath);
}

#[test]
fn missing_port_fails_validation() {
    let r = validate_request(None, "9600", "none", "5", None, false);
    assert_eq!(r.unwrap_err(), ValidationError::PortNotSpecified);
}

#[test]
fn invalid_baud_fails_validation_for_serial_source() {
    let r = validate_request(Some("/dev/ttyUSB0".to_string()), "fast", "none", "5", None, false);
    assert_eq!(r.unwrap_err(), ValidationError::InvalidBaudRate);
    let r = validate_request(Some("OS Entropy Pool".to_string()), "fast", "none", "5", None, false);
    assert!(r.is_ok(), "baud rate is not consulted for the OS source");
}

#[test]
fn validation_error_messages_are_distinct() {
    let errs = [
        ValidationError::InvalidSampleCount,
        ValidationError::InvalidDestination,
        ValidationError::MissingFilePath,
        ValidationError::PortNotSpecified,
        ValidationError::InvalidBaudRate,
    ];
    for (i, a) in errs.iter().enumerate() {
        for (j, b) in errs.iter().enumerate() {
            if i != j {
                assert_ne!(a.message(), b.message());
            }
        }
    }
}

#[test]
fn valid_request_carries_all_fields() {
    let r = validate_request(
        Some("/dev/ttyUSB0".to_string()),
        "9600",
        "file",
        "12",
        Some("/tmp/out.txt".to_string()),
        true,
    );
    let req: CollectionRequest = r.unwrap();
    assert_eq!(req.sample_count, 12);
    assert!(req.inject_to_kernel_pool);
    match req.source {
        SampleSource::SerialDevice { ref port, baud_rate } => {
            assert_eq!(port, "/dev/ttyUSB0");
            assert_eq!(baud_rate, 9600);
        },
        _ => panic!("expected a serial source"),
    }
    match req.destination {
        Destination::File { ref path } => assert_eq!(path, "/tmp/out.txt"),
        _ => panic!("expected a file destination"),
    }
    assert_eq!(req.destination.kind(), SinkKind::File);
}

#[test]
fn percent_is_whole_and_bounded() {
    assert_eq!(percent_done(0, 5), 0);
    assert_eq!(percent_done(1, 5), 20);
    assert_eq!(percent_done(5, 5), 100);
    assert_eq!(percent_done(1, 3), 33);
    assert_eq!(percent_done(1, 200), 0);
    assert_eq!(percent_done(2, 200), 1);
}

#[test]
fn gauge_throttles_to_whole_percent_advances() {
    let mut g = ProgressGauge::new(200);
    let (p, emit) = g.advance();
    assert_eq!(p, 0);
    assert!(!emit, "no whole percent crossed yet");
    let (p, emit) = g.advance();
    assert_eq!(p, 1);
    assert!(emit);
    let (p, emit) = g.advance();
    assert_eq!(p, 1);
    assert!(!emit, "still within the same whole percent");
}

#[test]
fn discard_run_reports_only_completion() {
    let out = collect_os_entropy(5, SinkKind::Discard).unwrap();
    assert_eq!(out.lines.len(), 0, "zero bytes owed to any sink");
    assert_eq!(out.events.len(), 1);
    assert!(matches!(out.events[0], CollectEvent::Finished));
}

#[test]
fn screen_run_reports_every_sample() {
    let out = collect_os_entropy(5, SinkKind::Screen).unwrap();
    assert_eq!(out.lines.len(), 0);
    assert_eq!(out.events.len(), 6);
    assert_eq!(count_samples(&out.events), 5);
    assert!(matches!(out.events[5], CollectEvent::Finished));
    for e in &out.events[..5] {
        match e {
            CollectEvent::Sample { line, percent } => {
                assert_eq!(line.len(), 256);
                assert!(line.chars().all(|c| c == '0' || c == '1'));
                assert!(*percent <= 100);
            },
            _ => panic!("expected only samples before the terminal event"),
        }
    }
}

#[test]
fn file_run_collects_every_line_and_throttles_events() {
    let n = 250;
    let out = collect_os_entropy(n, SinkKind::File).unwrap();
    assert_eq!(out.lines.len(), n, "file line count equals the sample count");
    for line in &out.lines {
        assert_eq!(line.len(), 256);
        assert!(line.chars().all(|c| c == '0' || c == '1'));
    }
    let samples = count_samples(&out.events);
    assert!(samples <= n, "no more progress events than samples");
    assert!(samples <= 100, "whole-percent throttling caps the event count");
    let percents = sample_percents(&out.events);
    assert!(percents.windows(2).all(|w| w[0] < w[1]), "throttled percentages strictly increase");
    assert!(matches!(out.events.last().unwrap(), CollectEvent::Finished));
}

#[test]
fn serial_collector_file_destination_writes_lines() {
    let mut c = SerialCollector::new(2, SinkKind::File, false);
    assert!(!c.done());
    let step = c.on_line("0101".to_string()).unwrap();
    assert_eq!(step.write_line.as_deref(), Some("0101"));
    assert!(step.inject_entry.is_none());
    let step = c.on_line("1110".to_string()).unwrap();
    assert_eq!(step.write_line.as_deref(), Some("1110"));
    assert!(c.done());
    match step.event {
        Some(CollectEvent::Sample { ref line, percent }) => {
            assert_eq!(line, "");
            assert_eq!(percent, 100);
        },
        _ => panic!("final sample crosses a whole percent, so an event is owed"),
    }
}

#[test]
fn serial_collector_screen_destination_carries_line() {
    let mut c = SerialCollector::new(4, SinkKind::Screen, false);
    let step = c.on_line("abc".to_string()).unwrap();
    assert!(step.write_line.is_none());
    match step.event {
        Some(CollectEvent::Sample { ref line, percent }) => {
            assert_eq!(line, "abc");
            assert_eq!(percent, 25);
        },
        _ => panic!("screen destination reports every sample"),
    }
}

#[test]
fn serial_collector_builds_injection_records() {
    let mut c = SerialCollector::new(1, SinkKind::Discard, true);
    let step = c.on_line("abc".to_string()).unwrap();
    assert!(step.event.is_none());
    let entry = step.inject_entry.expect("injection was requested");
    assert_eq!(entry.entropy_count, 24);
    assert_eq!(entry.buf_size, 3);
    assert_eq!(entry.buf.len(), 16);
    assert_eq!(&entry.buf[..3], b"abc");
    assert!(entry.buf[3..].iter().all(|&b| b == 0));
}

#[test]
fn serial_collector_rejects_oversized_injection_sample() {
    let mut c = SerialCollector::new(3, SinkKind::Discard, true);
    let r = c.on_line("01234567890123456".to_string());
    assert!(r.is_err(), "17 bytes exceed the 16-byte kernel record");
    assert!(!c.done());
    let step = c.on_line("0123456789012345".to_string()).unwrap();
    assert_eq!(step.inject_entry.unwrap().buf_size, 16);
}

#[test]
fn retry_budget_bounds_empty_reads() {
    let mut c = SerialCollector::new(1, SinkKind::Discard, false).with_retry_budget(2);
    assert!(c.on_empty_read());
    assert!(c.on_empty_read());
    assert!(!c.on_empty_read(), "the configured budget is spent");
    let mut unlimited = SerialCollector::new(1, SinkKind::Discard, false);
    for _ in 0..10 {
        assert!(unlimited.on_empty_read());
    }
}

#[test]
fn kernel_entry_rejects_oversized_samples() {
    assert!(KernelPoolEntry::from_sample(&[0u8; 17]).is_err());
    let e = KernelPoolEntry::from_sample(&[7u8; 16]).unwrap();
    assert_eq!(e.buf_size, 16);
    assert_eq!(e.entropy_count, 128);
}
