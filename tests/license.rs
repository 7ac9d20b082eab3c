use claude_status::license::{
    cache_verdict, generate_key, key_from_seed, pro_features, validation_verdict, CacheVerdict,
    CachedValidation, LicenseStatus, LicenseTier, LicenseValidator,
};

#[test]
fn test_validate_format_valid() {
    assert!(LicenseValidator::validate_format("CS-PRO-A3F2-9D8E-C4B1-7F0A"));
}

#[test]
fn test_validate_format_lowercase_valid() {
    assert!(LicenseValidator::validate_format("CS-PRO-a3f2-9d8e-c4b1-7f0a"));
}

#[test]
fn test_validate_format_wrong_prefix() {
    assert!(!LicenseValidator::validate_format("CL-PRO-A3F2-9D8E-C4B1-7F0A"));
}

#[test]
fn test_validate_format_too_few_segments() {
    assert!(!LicenseValidator::validate_format("CS-PRO-A3F2-9D8E-C4B1"));
}

#[test]
fn test_validate_format_too_many_segments() {
    assert!(!LicenseValidator::validate_format("CS-PRO-A3F2-9D8E-C4B1-7F0A-AAAA"));
}

#[test]
fn test_validate_format_non_hex_chars() {
    assert!(!LicenseValidator::validate_format("CS-PRO-ZZZZ-9D8E-C4B1-7F0A"));
}

#[test]
fn test_validate_format_wrong_segment_length() {
    assert!(!LicenseValidator::validate_format("CS-PRO-A3F-9D8E-C4B1-7F0A"));
}

#[test]
fn test_validate_format_empty() {
    assert!(!LicenseValidator::validate_format(""));
}

#[test]
fn test_pro_features_not_empty() {
    let features = pro_features();
    assert!(!features.is_empty());
    assert!(features.contains(&"cost_tracking".to_string()));
}

#[test]
fn validate_format_trims_surrounding_whitespace() {
    assert!(LicenseValidator::validate_format("  CS-PRO-A3F2-9D8E-C4B1-7F0A\n"));
    assert!(!LicenseValidator::check_format("  CS-PRO-A3F2-9D8E-C4B1-7F0A\n"));
}

#[test]
fn checksum_accepts_matching_last_group() {
    // SHA-256 of "A3F2-9D8E-C4B1" starts with d1a1.
    assert!(LicenseValidator::verify_checksum("CS-PRO-A3F2-9D8E-C4B1-D1A1"));
    assert!(LicenseValidator::verify_checksum("CS-PRO-A3F2-9D8E-C4B1-d1a1"));
}

#[test]
fn checksum_rejects_tampered_key() {
    assert!(!LicenseValidator::verify_checksum("CS-PRO-B3F2-9D8E-C4B1-D1A1"));
    assert!(!LicenseValidator::verify_checksum("CS-PRO-A3F2-9D8E-C4B1-D1A2"));
    assert!(!LicenseValidator::verify_checksum("INVALID-KEY"));
}

#[test]
fn checksum_matches_reads_the_first_two_digest_bytes() {
    let digest = [0xd1u8, 0xa1, 0x00];
    assert!(LicenseValidator::checksum_matches("CS-PRO-0000-0000-0000-D1A1", &digest));
    assert!(!LicenseValidator::checksum_matches("CS-PRO-0000-0000-0000-A1D1", &digest));
    assert!(!LicenseValidator::checksum_matches("CS-PRO-0000-0000-0000-D1A1", &[0xd1u8]));
}

#[test]
fn offline_verdict_of_keys() {
    assert_eq!(
        LicenseValidator::offline_verdict("CS-PRO-A3F2-9D8E-C4B1-D1A1"),
        (LicenseTier::Pro, LicenseStatus::Valid)
    );
    assert_eq!(
        LicenseValidator::offline_verdict("INVALID-KEY"),
        (LicenseTier::Free, LicenseStatus::Invalid)
    );
}

#[test]
fn cache_verdict_by_age() {
    assert_eq!(cache_verdict(true, 0), CacheVerdict::Fresh);
    assert_eq!(cache_verdict(true, 86399), CacheVerdict::Fresh);
    assert_eq!(cache_verdict(true, 86400), CacheVerdict::Grace);
    assert_eq!(cache_verdict(true, 604799), CacheVerdict::Grace);
    assert_eq!(cache_verdict(true, 604800), CacheVerdict::Recheck);
    assert_eq!(cache_verdict(false, 0), CacheVerdict::Recheck);
}

#[test]
fn test_generate_key_has_valid_format() {
    let key = generate_key();
    assert!(LicenseValidator::validate_format(&key), "Generated key should have valid format: {key}");
}

#[test]
fn test_generate_key_passes_checksum() {
    let key = generate_key();
    assert!(LicenseValidator::verify_checksum(&key), "Generated key should pass checksum: {key}");
}

#[test]
fn test_checksum_fails_for_tampered_key() {
    let key = generate_key();
    // Tamper with the first segment
    let tampered = key.replacen('A', "B", 1);
    if tampered != key {
        // Only test if we actually changed something
        assert!(!LicenseValidator::verify_checksum(&tampered));
    }
}

#[test]
fn key_from_seed_is_exact() {
    assert_eq!(key_from_seed(0), "CS-PRO-3747-08FF-F771-FA04");
    assert_eq!(
        key_from_seed(0x0102030405060708090a0b0c0d0e0f10),
        "CS-PRO-5919-C17B-3685-5820"
    );
    assert!(LicenseValidator::verify_checksum(&key_from_seed(42)));
}

#[test]
fn validation_verdict_composes_format_cache_and_offline_check() {
    let good = "CS-PRO-A3F2-9D8E-C4B1-D1A1";
    let unchecked = "CS-PRO-A3F2-9D8E-C4B1-0000";
    let cache = |valid: bool, age_secs: i64| {
        Some(CachedValidation { valid, tier: LicenseTier::Lifetime, age_secs })
    };
    assert_eq!(
        validation_verdict("INVALID-KEY", cache(true, 0)),
        (LicenseTier::Free, LicenseStatus::Invalid)
    );
    assert_eq!(
        validation_verdict(unchecked, cache(true, 10)),
        (LicenseTier::Lifetime, LicenseStatus::Valid)
    );
    assert_eq!(
        validation_verdict(unchecked, cache(true, 100_000)),
        (LicenseTier::Lifetime, LicenseStatus::GracePeriod)
    );
    assert_eq!(
        validation_verdict(unchecked, cache(true, 700_000)),
        (LicenseTier::Free, LicenseStatus::Invalid)
    );
    assert_eq!(
        validation_verdict(good, cache(false, 0)),
        (LicenseTier::Pro, LicenseStatus::Valid)
    );
    assert_eq!(validation_verdict(good, None), (LicenseTier::Pro, LicenseStatus::Valid));
    assert_eq!(validation_verdict(unchecked, None), (LicenseTier::Free, LicenseStatus::Invalid));
}
