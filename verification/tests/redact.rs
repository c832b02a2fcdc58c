use brail::redact::{redact_known_patterns, SecretRegistry};

#[test]
fn registered_secret_is_removed() {
    let mut registry = SecretRegistry::new();
    registry.register("abcd-efgh-ijkl-mnop");
    let out = registry.redact("connecting with key abcd-efgh-ijkl-mnop now");
    assert!(!out.contains("abcd-efgh-ijkl-mnop"));
    assert!(out.contains("[REDACTED]"));
}

#[test]
fn short_values_are_not_registered() {
    let mut registry = SecretRegistry::new();
    registry.register("abc");
    // "abc" must not be redacted out of unrelated words like "abcdef".
    assert_eq!(registry.redact("abcdef"), "abcdef");
}

#[test]
fn unregistered_key_shaped_tokens_are_caught() {
    let out = redact_known_patterns("key is a1b2-c3d4-e5f6-g7h8 ok");
    assert!(!out.contains("a1b2-c3d4-e5f6-g7h8"));
}

#[test]
fn ordinary_text_is_untouched() {
    let out = redact_known_patterns("recording started at 1920x1080 60fps");
    assert_eq!(out, "recording started at 1920x1080 60fps");
}

#[test]
fn registered_secret_redaction_keeps_surrounding_text_exactly() {
    let mut registry = SecretRegistry::new();
    registry.register("abcd-efgh-ijkl-mnop");
    assert_eq!(
        registry.redact("connecting with key abcd-efgh-ijkl-mnop now"),
        "connecting with key [REDACTED] now"
    );
}

#[test]
fn eight_byte_secret_is_registered_seven_byte_is_not() {
    let mut registry = SecretRegistry::new();
    registry.register("1234567");
    assert!(registry.is_empty());
    registry.register("12345678");
    assert!(!registry.is_empty());
    assert_eq!(registry.redact("x12345678y"), "x[REDACTED]y");
}

#[test]
fn multibyte_secret_counts_bytes_not_chars() {
    // Four two-byte characters make eight bytes.
    let mut registry = SecretRegistry::new();
    registry.register("éééé");
    assert!(!registry.is_empty());
    assert_eq!(registry.redact("aééééb"), "a[REDACTED]b");
}

#[test]
fn forget_stops_redaction_and_restores_empty_registry() {
    let mut registry = SecretRegistry::new();
    registry.register("supersecretkey");
    registry.forget("supersecretkey");
    assert!(registry.is_empty());
    assert_eq!(registry.redact("supersecretkey"), "supersecretkey");
}

#[test]
fn registering_twice_is_harmless() {
    let mut registry = SecretRegistry::new();
    registry.register("supersecretkey");
    registry.register("supersecretkey");
    registry.forget("supersecretkey");
    assert!(registry.is_empty());
}

#[test]
fn every_occurrence_is_replaced() {
    let mut registry = SecretRegistry::new();
    registry.register("secret-value");
    assert_eq!(
        registry.redact("secret-value and secret-value"),
        "[REDACTED] and [REDACTED]"
    );
}

#[test]
fn twitch_key_is_caught_and_trailing_whitespace_becomes_space() {
    let out = redact_known_patterns("key live_abcdefghijklmnopq\tnext");
    assert_eq!(out, "key [REDACTED] next");
}

#[test]
fn short_twitch_prefix_is_kept() {
    let out = redact_known_patterns("live_short");
    assert_eq!(out, "live_short");
}

#[test]
fn youtube_key_needs_three_dashes() {
    assert_eq!(redact_known_patterns("abcd-efgh-ijklmnop"), "abcd-efgh-ijklmnop");
    assert_eq!(redact_known_patterns("abcd-efgh-ijkl-mnop"), "[REDACTED]");
}

#[test]
fn consecutive_whitespace_is_preserved() {
    assert_eq!(redact_known_patterns("a  b\n"), "a  b\n");
    assert_eq!(redact_known_patterns(""), "");
}

#[test]
fn no_registered_secret_survives_in_any_order() {
    let mut registry = SecretRegistry::new();
    registry.register("live_ABCD1234");
    registry.register("ABCD1234_xyz");
    let out = registry.redact("a live_ABCD1234_xyz b ABCD1234_xyz c live_ABCD1234");
    assert!(!out.contains("live_ABCD1234"));
    assert!(!out.contains("ABCD1234_xyz"));
    assert_eq!(out, "a [REDACTED]_xyz b [REDACTED] c [REDACTED]");
}

#[test]
fn a_secret_reading_across_the_marker_can_reappear() {
    // Such a secret ends with the marker's last characters: replacing it
    // rebuilds it from the marker and the text after it.
    let mut registry = SecretRegistry::new();
    registry.register("D]xyzxyz");
    assert_eq!(registry.redact("D]xyzxyzxyzxyz"), "[REDACTED]xyzxyz");
}
