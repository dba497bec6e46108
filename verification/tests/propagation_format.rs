use tracing_channels::carrier::ChannelMetadata;
use tracing_channels::context::TraceContext;
use tracing_channels::digits::{dec_string_u8, hex_string, parse_hex_range};
use tracing_channels::propagation::{extract, inject, parse_traceparent_value};

#[test]
fn carrier_set_normalizes_keys_to_lowercase() {
    let mut meta = ChannelMetadata::new();
    meta.set("TraceParent", "v1".to_string());
    // Lookup is case-sensitive against the normalized key.
    assert_eq!(meta.get("traceparent"), Some("v1"));
    assert_eq!(meta.get("TraceParent"), None);
    let keys = meta.keys();
    assert_eq!(keys, vec!["traceparent".to_string()]);
}

#[test]
fn carrier_set_overwrites_without_duplicating() {
    let mut meta = ChannelMetadata::new();
    meta.set("traceparent", "v1".to_string());
    meta.set("TRACEPARENT", "v2".to_string());
    assert_eq!(meta.get("traceparent"), Some("v2"));
    assert_eq!(meta.keys().len(), 1);
}

#[test]
fn carrier_get_on_missing_key_is_none() {
    let meta = ChannelMetadata::new();
    assert_eq!(meta.get("traceparent"), None);
    assert_eq!(meta.keys().len(), 0);
}

#[test]
fn inject_writes_the_w3c_text_map_form() {
    let cx = TraceContext::new(0xabcd, 0xef, true);
    let mut meta = ChannelMetadata::new();
    inject(&cx, &mut meta);
    assert_eq!(
        meta.get("traceparent"),
        Some("00-0000000000000000000000000000abcd-00000000000000ef-01")
    );
}

#[test]
fn inject_skips_an_invalid_context() {
    let cx = TraceContext::new(0, 0xef, true);
    let mut meta = ChannelMetadata::new();
    inject(&cx, &mut meta);
    assert_eq!(meta.keys().len(), 0);
}

#[test]
fn extract_round_trips_what_inject_wrote() {
    let cx = TraceContext::new(0x0123456789abcdef0123456789abcdef, 0xfedcba9876543210, false);
    let mut meta = ChannelMetadata::new();
    inject(&cx, &mut meta);
    assert_eq!(extract(&meta), Some(cx));
}

#[test]
fn parse_accepts_the_exact_form() {
    let cx = parse_traceparent_value("00-0000000000000000000000000000abcd-00000000000000ef-01")
        .expect("well-formed value");
    assert_eq!(cx.trace_id, 0xabcd);
    assert_eq!(cx.span_id, 0xef);
    assert!(cx.sampled);
    let unsampled =
        parse_traceparent_value("00-0000000000000000000000000000abcd-00000000000000ef-00")
            .expect("well-formed value");
    assert!(!unsampled.sampled);
}

#[test]
fn parse_accepts_uppercase_hexadecimal_digits() {
    let cx = parse_traceparent_value("00-0000000000000000000000000000ABCD-00000000000000EF-01")
        .expect("hexadecimal in either case");
    assert_eq!(cx.trace_id, 0xabcd);
    assert_eq!(cx.span_id, 0xef);
}

#[test]
fn parse_rejects_malformed_values() {
    // Wrong length.
    assert_eq!(parse_traceparent_value("00-abcd-ef-01"), None);
    // Wrong separators.
    assert_eq!(
        parse_traceparent_value("00_0000000000000000000000000000abcd_00000000000000ef_01"),
        None
    );
    // An unsupported version.
    assert_eq!(
        parse_traceparent_value("01-0000000000000000000000000000abcd-00000000000000ef-01"),
        None
    );
    // A character that is not a hexadecimal digit.
    assert_eq!(
        parse_traceparent_value("00-0000000000000000000000000000xbcd-00000000000000ef-01"),
        None
    );
    // Zero identifiers mark an invalid context.
    assert_eq!(
        parse_traceparent_value("00-00000000000000000000000000000000-00000000000000ef-01"),
        None
    );
    assert_eq!(
        parse_traceparent_value("00-0000000000000000000000000000abcd-0000000000000000-01"),
        None
    );
}

#[test]
fn hex_rendering_is_fixed_width_lowercase() {
    assert_eq!(hex_string(255, 2), "ff");
    assert_eq!(hex_string(0, 4), "0000");
    assert_eq!(hex_string(0xdeadbeef, 8), "deadbeef");
    assert_eq!(hex_string(0x1, 16), "0000000000000001");
}

#[test]
fn hex_parsing_reads_back_what_rendering_wrote() {
    let s = hex_string(0xc0ffee, 10);
    assert_eq!(parse_hex_range(&s, 0, 10), Some(0xc0ffee));
    assert_eq!(parse_hex_range("zz", 0, 2), None);
}

#[test]
fn decimal_rendering_has_no_leading_zeros() {
    assert_eq!(dec_string_u8(0), "0");
    assert_eq!(dec_string_u8(7), "7");
    assert_eq!(dec_string_u8(42), "42");
    assert_eq!(dec_string_u8(255), "255");
}
