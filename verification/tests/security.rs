use brail_recorder::security::SecureVault;

#[test]
fn known_secret_is_masked_everywhere() {
    assert_eq!(
        SecureVault::redact("url rtmp://h/app/abcd-1234 and abcd-1234", Some("abcd-1234")),
        "url rtmp://h/app/[REDACTED_STREAM_KEY] and [REDACTED_STREAM_KEY]"
    );
}

#[test]
fn short_or_missing_secret_is_left() {
    assert_eq!(SecureVault::redact("key abc here", Some("abc")), "key abc here");
    assert_eq!(SecureVault::redact("key abc here", Some("")), "key abc here");
    assert_eq!(SecureVault::redact("key abc here", None), "key abc here");
}

#[test]
fn secret_length_counts_bytes() {
    // two characters, four bytes
    assert_eq!(SecureVault::redact("x éé y", Some("éé")), "x [REDACTED_STREAM_KEY] y");
}

#[test]
fn live_token_is_masked() {
    assert_eq!(
        SecureVault::redact("token live_abcdefghijklmnopqrst end", None),
        "token live_****************pqrst end"
    );
    // fewer than twenty bytes from the marker: left as it is
    assert_eq!(SecureVault::redact("token live_abc", None), "token live_abc");
    // only the first token
    assert_eq!(
        SecureVault::redact("live_123456789012345 live_123456789012345", None),
        "live_**************** live_123456789012345"
    );
}

#[test]
fn whole_secret_becomes_mask() {
    assert_eq!(SecureVault::redact("s3cr3t-key", Some("s3cr3t-key")), "[REDACTED_STREAM_KEY]");
}

#[test]
fn clean_text_is_unchanged() {
    assert_eq!(SecureVault::redact("nothing to hide", Some("hidden-key")), "nothing to hide");
}

#[test]
fn live_masking_grows_on_repeat() {
    let once = SecureVault::redact("live_abcdefghijklmnopqrst", None);
    let twice = SecureVault::redact(&once, None);
    assert_eq!(once, "live_****************pqrst");
    assert_eq!(twice, "live_*****************pqrst");
}

#[test]
fn redaction_fits_only_on_character_boundaries() {
    assert!(SecureVault::redaction_fits("no token here", None));
    assert!(SecureVault::redaction_fits("short live_abc", None));
    assert!(SecureVault::redaction_fits("live_aaaaaaaaaaaaaaab", None));
    assert!(!SecureVault::redaction_fits("live_aaaaaaaaaaaaaa\u{e9}", None));
    // Once the secret is masked, the token no longer reaches the accent.
    assert!(SecureVault::redaction_fits("live_aaaaaaaaaaaaaa\u{e9}", Some("aaaaaaaaaaaaaa\u{e9}")));
}
