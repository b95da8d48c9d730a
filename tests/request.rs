use std::collections::BTreeMap;
use std::str::FromStr;
use std::time::Duration;

use appinsights_request::context::TelemetryContext;
use appinsights_request::duration::FormattedDuration;
use appinsights_request::envelope::Envelope;
use appinsights_request::maps::TextMap;
use appinsights_request::request::RequestTelemetry;
use appinsights_request::time::Timestamp;
use appinsights_request::uri::UriParts;
use chrono::NaiveDate;
use http::{Method, StatusCode, Uri};
use uuid::Uuid;

fn at(year: i32, month: u32, day: u32, h: u32, m: u32, s: u32, milli: u32) -> Timestamp {
    let t = NaiveDate::from_ymd_opt(year, month, day)
        .unwrap()
        .and_hms_milli_opt(h, m, s, milli)
        .unwrap()
        .and_utc();
    Timestamp::from_unix(t.timestamp(), t.timestamp_subsec_nanos()).unwrap()
}

fn fixed_id() -> Uuid {
    Uuid::from_str("910b414a-f368-4b3a-aff6-326632aac566").unwrap()
}

fn pairs<V: Clone>(m: &TextMap<V>) -> BTreeMap<String, V> {
    m.entries().iter().cloned().collect()
}

fn text_map(items: &[(&str, &str)]) -> BTreeMap<String, String> {
    items.iter().map(|(k, v)| (k.to_string(), v.to_string())).collect()
}

fn request(uri: &str, duration: Duration, code: StatusCode, timestamp: Timestamp) -> RequestTelemetry {
    RequestTelemetry::with_identity(
        Method::GET,
        uri.parse::<Uri>().unwrap(),
        duration,
        code,
        fixed_id(),
        timestamp,
    )
}

#[test]
fn it_overrides_properties_from_context() {
    let mut context = TelemetryContext::new("instrumentation".into());
    context.properties_mut().insert("test".into(), "ok".into());
    context.properties_mut().insert("no-write".into(), "fail".into());

    let mut telemetry = request(
        "https://example.com/main.html",
        Duration::from_secs(2),
        StatusCode::OK,
        at(2019, 1, 2, 3, 4, 5, 800),
    );
    telemetry.properties_mut().insert("no-write".into(), "ok".into());
    telemetry.measurements_mut().insert("latency".into(), 200.0f64.to_bits());

    let envelop = Envelope::from_request(context, telemetry);

    assert_eq!(envelop.name, "Microsoft.ApplicationInsights.instrumentation.Request");
    assert_eq!(envelop.time, "2019-01-02T03:04:05.800Z");
    assert_eq!(envelop.i_key, "instrumentation");
    assert_eq!(pairs(&envelop.tags), BTreeMap::new());
    assert_eq!(envelop.data.id, "910b414a-f368-4b3a-aff6-326632aac566");
    assert_eq!(envelop.data.duration, "0.00:00:02.0000000");
    assert_eq!(envelop.data.response_code, "200");
    assert_eq!(envelop.data.name, "GET https://example.com/main.html");
    assert!(envelop.data.success);
    assert_eq!(envelop.data.url, "https://example.com/main.html");
    assert_eq!(pairs(&envelop.data.properties), text_map(&[("test", "ok"), ("no-write", "ok")]));
    let mut measurements = BTreeMap::new();
    measurements.insert("latency".to_string(), 200.0f64.to_bits());
    assert_eq!(pairs(&envelop.data.measurements), measurements);
}

#[test]
fn it_overrides_tags_from_context() {
    let mut context = TelemetryContext::new("instrumentation".into());
    context.tags_mut().insert("test".into(), "ok".into());
    context.tags_mut().insert("no-write".into(), "fail".into());

    let mut telemetry = request(
        "https://example.com/main.html",
        Duration::from_secs(2),
        StatusCode::OK,
        at(2019, 1, 2, 3, 4, 5, 700),
    );
    telemetry.measurements_mut().insert("latency".into(), 200.0f64.to_bits());
    telemetry.tags_mut().insert("no-write".into(), "ok".into());

    let envelop = Envelope::from_request(context, telemetry);

    assert_eq!(envelop.name, "Microsoft.ApplicationInsights.instrumentation.Request");
    assert_eq!(envelop.time, "2019-01-02T03:04:05.700Z");
    assert_eq!(envelop.i_key, "instrumentation");
    assert_eq!(pairs(&envelop.tags), text_map(&[("test", "ok"), ("no-write", "ok")]));
    assert_eq!(envelop.data.id, "910b414a-f368-4b3a-aff6-326632aac566");
    assert_eq!(envelop.data.duration, "0.00:00:02.0000000");
    assert_eq!(envelop.data.response_code, "200");
    assert_eq!(envelop.data.name, "GET https://example.com/main.html");
    assert!(envelop.data.success);
    assert_eq!(envelop.data.url, "https://example.com/main.html");
    assert_eq!(pairs(&envelop.data.properties), BTreeMap::new());
    let mut measurements = BTreeMap::new();
    measurements.insert("latency".to_string(), 200.0f64.to_bits());
    assert_eq!(pairs(&envelop.data.measurements), measurements);
}

fn duration_text(d: Duration) -> String {
    FormattedDuration::from_nanos(d.as_nanos()).to_text()
}

#[test]
fn it_converts_duration_to_string_hour() {
    assert_eq!(duration_text(Duration::from_secs(3600)), "0.01:00:00.0000000".to_string());
}

#[test]
fn it_converts_duration_to_string_minute() {
    assert_eq!(duration_text(Duration::from_secs(60)), "0.00:01:00.0000000".to_string());
}

#[test]
fn it_converts_duration_to_string_second() {
    assert_eq!(duration_text(Duration::from_secs(1)), "0.00:00:01.0000000".to_string());
}

#[test]
fn it_converts_duration_to_string_millisecond() {
    assert_eq!(duration_text(Duration::from_millis(1)), "0.00:00:00.0010000".to_string());
}

#[test]
fn it_converts_duration_to_string_tick() {
    assert_eq!(duration_text(Duration::from_nanos(100)), "0.00:00:00.0000001".to_string());
}

#[test]
fn it_converts_duration_to_string_custom() {
    let start = NaiveDate::from_ymd_opt(2019, 1, 1).unwrap().and_hms_opt(0, 0, 0).unwrap().and_utc();
    let end = NaiveDate::from_ymd_opt(2019, 1, 3).unwrap().and_hms_opt(1, 2, 3).unwrap().and_utc();
    let d = (end - start).to_std().unwrap();
    assert_eq!(duration_text(d), "2.01:02:03.0000000".to_string());
}

#[test]
fn duration_truncates_below_a_tick_and_keeps_many_days() {
    assert_eq!(duration_text(Duration::from_nanos(199)), "0.00:00:00.0000001");
    assert_eq!(duration_text(Duration::from_nanos(99)), "0.00:00:00.0000000");
    assert_eq!(duration_text(Duration::from_secs(123 * 86400 + 23 * 3600 + 59 * 60 + 59)), "123.23:59:59.0000000");
    assert_eq!(duration_text(Duration::new(0, 999_999_999)), "0.00:00:00.9999999");
}

#[test]
fn duration_formatting_is_repeatable() {
    let d = FormattedDuration::from_nanos(Duration::from_millis(90_061_001).as_nanos());
    assert_eq!(d.to_text(), "1.01:01:01.0010000");
    assert_eq!(d.to_text(), d.to_text());
}

#[test]
fn success_follows_the_status_code() {
    let ts = at(2019, 1, 2, 3, 4, 5, 0);
    for (code, expected) in [(100u16, true), (200, true), (302, true), (399, true), (400, false), (401, true), (402, false), (403, false), (404, false), (500, false), (999, false)] {
        let t = request("https://example.com/", Duration::from_secs(1), StatusCode::from_u16(code).unwrap(), ts);
        assert_eq!(t.is_success(), expected, "code {}", code);
        assert_eq!(t.response_code(), code);
    }
}

#[test]
fn merge_prefers_the_record_and_keeps_both_key_sets() {
    let mut base = TextMap::new();
    base.insert("a".to_string(), "1".to_string());
    base.insert("b".to_string(), "2".to_string());
    let mut over = TextMap::new();
    over.insert("b".to_string(), "20".to_string());
    over.insert("c".to_string(), "30".to_string());
    let m = TextMap::combine(base, over);
    assert_eq!(m.len(), 3);
    assert_eq!(pairs(&m), text_map(&[("a", "1"), ("b", "20"), ("c", "30")]));
    assert_eq!(m.get(&"b".to_string()), Some(&"20".to_string()));
    assert_eq!(m.get(&"z".to_string()), None);
}

#[test]
fn merge_of_empty_maps_is_empty() {
    let m: TextMap<String> = TextMap::combine(TextMap::new(), TextMap::new());
    assert_eq!(m.len(), 0);
}

#[test]
fn insert_replaces_an_existing_key() {
    let mut m = TextMap::new();
    m.insert("k".to_string(), 1u64);
    m.insert("k".to_string(), 2u64);
    assert_eq!(m.len(), 1);
    assert_eq!(m.get(&"k".to_string()), Some(&2u64));
}

#[test]
fn context_properties_merge_scenario() {
    let mut context = TelemetryContext::new("key".into());
    context.properties_mut().insert("test".into(), "ok".into());
    context.properties_mut().insert("no-write".into(), "fail".into());
    let mut record = request("https://example.com/", Duration::from_secs(1), StatusCode::OK, at(2020, 5, 6, 7, 8, 9, 10));
    record.properties_mut().insert("no-write".into(), "ok".into());
    let envelope = Envelope::from_request(context, record);
    assert_eq!(pairs(&envelope.data.properties), text_map(&[("test", "ok"), ("no-write", "ok")]));
}

#[test]
fn context_tags_merge_scenario() {
    let mut context = TelemetryContext::new("key".into());
    context.tags_mut().insert("test".into(), "ok".into());
    context.tags_mut().insert("no-write".into(), "fail".into());
    let mut record = request("https://example.com/", Duration::from_secs(1), StatusCode::OK, at(2020, 5, 6, 7, 8, 9, 10));
    record.tags_mut().insert("no-write".into(), "ok".into());
    let envelope = Envelope::from_request(context, record);
    assert_eq!(pairs(&envelope.tags), text_map(&[("test", "ok"), ("no-write", "ok")]));
}

#[test]
fn end_to_end_strips_the_query() {
    let context = TelemetryContext::new(String::new());
    let record = RequestTelemetry::new(
        Method::GET,
        "https://example.com/main.html?x=1".parse::<Uri>().unwrap(),
        Duration::from_secs(2),
        StatusCode::OK,
    );
    let envelope = Envelope::from_request(context, record);
    assert_eq!(envelope.data.url, "https://example.com/main.html");
    assert_eq!(envelope.data.name, "GET https://example.com/main.html");
    assert_eq!(envelope.data.duration, "0.00:00:02.0000000");
    assert!(envelope.data.success);
    assert_eq!(envelope.data.id.len(), 36);
}

#[test]
fn normalization_keeps_the_port_and_falls_back_on_relative_uris() {
    let parts = UriParts::of(&"http://example.com:8080/a/b?c=d".parse::<Uri>().unwrap());
    assert_eq!(parts.authority(), "example.com:8080");
    assert_eq!(parts.normalize(), "http://example.com:8080/a/b");
    let relative = UriParts::of(&"/a/b?c=d".parse::<Uri>().unwrap());
    assert_eq!(relative.normalize(), "/a/b?c=d");
    let t = RequestTelemetry::with_identity(
        Method::POST,
        "/a/b?c=d".parse::<Uri>().unwrap(),
        Duration::from_secs(1),
        StatusCode::CREATED,
        fixed_id(),
        at(2019, 1, 2, 3, 4, 5, 0),
    );
    assert_eq!(t.name(), "POST /a/b?c=d");
    assert_eq!(t.uri(), "/a/b?c=d");
}

#[test]
fn timestamp_has_three_fractional_digits() {
    assert_eq!(at(2019, 1, 2, 3, 4, 5, 0).to_rfc3339_millis(), "2019-01-02T03:04:05.000Z");
    let fine = Timestamp::from_unix(1_546_398_245, 123_456_789).unwrap();
    assert_eq!(fine.to_rfc3339_millis(), "2019-01-02T03:04:05.123Z");
    let leap = Timestamp::from_unix(59, 1_500_000_000).unwrap();
    assert_eq!(leap.to_rfc3339_millis(), "1970-01-01T00:00:60.500Z");
    assert!(Timestamp::from_unix(0, 2_000_000_000).is_none());
    let now = Timestamp::now().to_rfc3339_millis();
    assert!(now.ends_with('Z'));
    assert_eq!(now.as_bytes()[now.len() - 5], b'.');
}

#[test]
fn envelope_name_uses_the_key_without_dashes() {
    let context = TelemetryContext::new("ab-cd-ef".into());
    assert_eq!(context.normalized_i_key(), "abcdef");
    let record = request("https://example.com/", Duration::from_secs(1), StatusCode::NOT_FOUND, at(2019, 1, 2, 3, 4, 5, 0));
    let envelope = Envelope::from_request(context, record);
    assert_eq!(envelope.name, "Microsoft.ApplicationInsights.abcdef.Request");
    assert_eq!(envelope.i_key, "ab-cd-ef");
    assert_eq!(envelope.data.response_code, "404");
    assert!(!envelope.data.success);
}

#[test]
fn decimal_text_of_numbers() {
    assert_eq!(appinsights_request::text::decimal_string(0), "0");
    assert_eq!(appinsights_request::text::decimal_string(1_234_567_890), "1234567890");
}

#[test]
fn envelope_carries_the_record_id_and_the_given_code_and_duration() {
    let id = Uuid::from_str("0123ABCD-0000-4000-8000-00000000FFEE").unwrap();
    let record = RequestTelemetry::with_identity(
        Method::POST,
        "http://example.com:8080/api/v1?token=abc".parse::<Uri>().unwrap(),
        Duration::from_millis(1500),
        StatusCode::UNAUTHORIZED,
        id,
        at(2019, 1, 2, 3, 4, 5, 0),
    );
    assert_eq!(record.name(), "POST http://example.com:8080/api/v1");
    assert_eq!(record.duration().nanos, 1_500_000_000);
    let envelope = Envelope::from_request(TelemetryContext::new("k".into()), record);
    assert_eq!(envelope.data.id, "0123abcd-0000-4000-8000-00000000ffee");
    assert_eq!(envelope.data.duration, "0.00:00:01.5000000");
    assert_eq!(envelope.data.response_code, "401");
    assert!(envelope.data.success);
    assert_eq!(envelope.data.url, "http://example.com:8080/api/v1");
}
