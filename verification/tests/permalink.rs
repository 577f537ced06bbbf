use slack_client::error::ResolveError;
use slack_client::message::SlackMessage;
use slack_client::permalink::{check_decimal, locate, parse, parse_thread, to_micros, to_seconds};
use slack_client::text::{decimal_string, split_at_char};

fn segments(path: &[&str]) -> Option<Vec<String>> {
    Some(path.iter().map(|s| s.to_string()).collect())
}

#[test]
fn numeric_segment_splits_before_last_six_digits() {
    let place = locate(&segments(&["archives", "C1", "1724743664325609"]), &None).unwrap();
    assert_eq!(place.ts, "1724743664325609");
    assert_eq!(to_seconds(&place.ts), "1724743664.325609");
    assert_eq!(to_micros(&place.ts), Some(1724743664325609));
    assert_eq!(place.channel_id, "C1");
    assert_eq!(place.thread_ts, None);
}

#[test]
fn leading_letters_of_the_token_are_dropped() {
    let place = locate(&segments(&["archives", "C123", "p1700000000000100"]), &None).unwrap();
    assert_eq!(place.ts, "1700000000000100");
    assert_eq!(to_seconds(&place.ts), "1700000000.000100");
}

#[test]
fn seven_digits_are_the_least() {
    let place = locate(&segments(&["a", "C1", "p1234567"]), &None).unwrap();
    assert_eq!(place.ts, "1234567");
    assert_eq!(to_seconds(&place.ts), "1.234567");
    assert_eq!(
        locate(&segments(&["a", "C1", "p123456"]), &None).unwrap_err(),
        ResolveError::MalformedLocation
    );
    assert_eq!(
        locate(&segments(&["a", "C1", "p"]), &None).unwrap_err(),
        ResolveError::MalformedLocation
    );
}

#[test]
fn only_the_digits_at_the_end_count() {
    let place = locate(&segments(&["a", "C1", "p123x4567890"]), &None).unwrap();
    assert_eq!(place.ts, "4567890");
    assert_eq!(
        locate(&segments(&["a", "C1", "p12345678x"]), &None).unwrap_err(),
        ResolveError::MalformedLocation
    );
}

#[test]
fn fewer_than_two_segments_are_malformed() {
    assert_eq!(locate(&None, &None).unwrap_err(), ResolveError::MalformedLocation);
    assert_eq!(locate(&segments(&[]), &None).unwrap_err(), ResolveError::MalformedLocation);
    assert_eq!(
        locate(&segments(&["p1700000000000100"]), &None).unwrap_err(),
        ResolveError::MalformedLocation
    );
    assert_eq!(
        locate(&segments(&["", "p1700000000000100", ""]), &None).unwrap_err(),
        ResolveError::MalformedLocation
    );
}

#[test]
fn empty_segments_do_not_count() {
    let place = locate(&segments(&["archives", "C9", "", "p1700000000000100", ""]), &None).unwrap();
    assert_eq!(place.channel_id, "C9");
    assert_eq!(place.ts, "1700000000000100");
}

#[test]
fn channel_is_the_segment_before_the_token() {
    let place = locate(&segments(&["x", "archives", "C7", "p1700000000000100"]), &None).unwrap();
    assert_eq!(place.channel_id, "C7");
}

#[test]
fn thread_is_read_from_the_query() {
    let query = Some("thread_ts=1699999999.000100&cid=C123".to_string());
    assert_eq!(parse_thread(&query), Some("1699999999.000100".to_string()));
    let query = Some("cid=C123&thread_ts=1699999999".to_string());
    assert_eq!(parse_thread(&query), Some("1699999999".to_string()));
    assert_eq!(parse_thread(&Some("cid=C123".to_string())), None);
    assert_eq!(parse_thread(&Some(String::new())), None);
    assert_eq!(parse_thread(&None), None);
}

#[test]
fn thread_that_is_no_number_is_no_thread() {
    for bad in ["thread_ts=", "thread_ts=abc", "thread_ts=1.", "thread_ts=.5", "thread_ts=1.2.3", "thread_ts=-1", "xthread_ts=1"] {
        assert_eq!(parse_thread(&Some(bad.to_string())), None, "{}", bad);
    }
    let query = Some("thread_ts=oops&thread_ts=1699999999.000100".to_string());
    assert_eq!(parse_thread(&query), None);
}

#[test]
fn decimal_numbers_are_digits_with_at_most_one_point_inside() {
    assert!(check_decimal("0"));
    assert!(check_decimal("1699999999.000100"));
    assert!(!check_decimal(""));
    assert!(!check_decimal("."));
    assert!(!check_decimal("1e9"));
    assert!(!check_decimal("１２"));
}

#[test]
fn microseconds_beyond_the_range_are_not_counted() {
    assert_eq!(to_micros("9223372036854775807"), Some(i64::MAX));
    assert_eq!(to_micros("9223372036854775808"), None);
    assert_eq!(to_micros("99999999999999999999999"), None);
    assert_eq!(to_micros("0000001"), Some(1));
    assert_eq!(to_micros("12a"), None);
    assert_eq!(to_micros(""), Some(0));
}

#[test]
fn permalink_is_parsed_as_a_url() {
    let place = parse(
        "https://org.example/archives/C123/p1700000000000100?thread_ts=1699999999.000100&cid=C123#frag",
    )
    .unwrap();
    assert_eq!(place.channel_id, "C123");
    assert_eq!(place.ts, "1700000000000100");
    assert_eq!(place.thread_ts, Some("1699999999.000100".to_string()));
}

#[test]
fn what_is_no_url_is_malformed() {
    assert_eq!(parse("archives/C123/p1700000000000100").unwrap_err(), ResolveError::MalformedLocation);
    assert_eq!(parse("").unwrap_err(), ResolveError::MalformedLocation);
    assert_eq!(
        parse("mailto:C123/p1700000000000100").unwrap_err(),
        ResolveError::MalformedLocation
    );
    assert_eq!(parse("https://org.example/").unwrap_err(), ResolveError::MalformedLocation);
}

#[test]
fn message_starts_out_initialized() {
    let message =
        SlackMessage::try_from("https://org.example/archives/C123/p1700000000000100").unwrap();
    match &message {
        SlackMessage::Initialized(state) => {
            assert_eq!(state.url, "https://org.example/archives/C123/p1700000000000100");
            assert_eq!(state.channel_id, "C123");
            assert_eq!(state.ts, "1700000000000100");
            assert_eq!(state.thread_ts, None);
        }
        SlackMessage::Resolved(_) => panic!("resolved before it was asked for"),
    }
    assert_eq!(message.resolved().unwrap_err(), ResolveError::IllegalState);
    assert_eq!(
        SlackMessage::try_from("not a url").unwrap_err(),
        ResolveError::MalformedLocation
    );
}

#[test]
fn text_is_split_at_each_separator() {
    assert_eq!(split_at_char("a&b&&c", '&'), vec!["a", "b", "", "c"]);
    assert_eq!(split_at_char("", '&'), vec![""]);
    assert_eq!(split_at_char("&", '&'), vec!["", ""]);
    assert_eq!(split_at_char("é&ü", '&'), vec!["é", "ü"]);
}

#[test]
fn numbers_are_written_in_decimal() {
    assert_eq!(decimal_string(0), "0");
    assert_eq!(decimal_string(7), "7");
    assert_eq!(decimal_string(10), "10");
    assert_eq!(decimal_string(120345), "120345");
}
