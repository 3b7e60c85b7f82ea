use fta::two_factor::{TwoFactorError, TwoFactorService};

#[test]
fn test_generate_secret() {
    let service = TwoFactorService::new("Test App".to_string());
    let secret = service.generate_secret();

    assert!(!secret.is_empty());
    assert!(secret.len() >= 16);
}

#[test]
fn test_generate_qr_code() {
    let service = TwoFactorService::new("Test App".to_string());
    let secret = service.generate_secret();

    let qr_code = service
        .generate_qr_code("test@example.com", &secret)
        .unwrap();

    assert!(qr_code.contains("<svg"));
    assert!(qr_code.contains("</svg>"));
}

#[test]
fn test_verify_code() {
    let service = TwoFactorService::new("Test App".to_string());
    let secret = service.generate_secret();
    let email = "test@example.com";

    let code = service.generate_current_code(email, &secret).unwrap();

    let is_valid = service.verify_code(email, &secret, &code).unwrap();
    assert!(is_valid);
}

#[test]
fn test_verify_invalid_code() {
    let service = TwoFactorService::new("Test App".to_string());
    let secret = service.generate_secret();

    let is_valid = service
        .verify_code("test@example.com", &secret, "000000")
        .unwrap();
    assert!(!is_valid);
}

#[test]
fn test_get_provisioning_uri() {
    let service = TwoFactorService::new("Test App".to_string());
    let secret = service.generate_secret();

    let uri = service
        .get_provisioning_uri("test@example.com", &secret)
        .unwrap();

    assert!(uri.starts_with("otpauth://totp/"));
    assert!(uri.contains("test@example.com"));
}

#[test]
fn provisioning_uri_encodes_the_issuer_and_carries_the_parameters() {
    let service = TwoFactorService::new("Test App".to_string());
    let uri = service.get_provisioning_uri("a@b.c", "JBSWY3DPEHPK3PXP").unwrap();
    assert_eq!(
        uri,
        "otpauth://totp/Test%20App:a@b.c?secret=JBSWY3DPEHPK3PXP&issuer=Test%20App&algorithm=SHA1&digits=6&period=30"
    );
}

#[test]
fn generated_secret_is_32_base32_characters() {
    let service = TwoFactorService::new("Issuer".to_string());
    let secret = service.generate_secret();
    assert_eq!(secret.len(), 32);
    assert!(secret.chars().all(|c| c.is_ascii_uppercase() || ('2'..='7').contains(&c)));
    assert_ne!(secret, service.generate_secret());
}

#[test]
fn code_is_six_digits_and_known_vector_matches() {
    let service = TwoFactorService::new("Issuer".to_string());
    // RFC 6238 SHA-1 key "12345678901234567890" in base32.
    let secret = "GEZDGNBVGY3TQOJQGEZDGNBVGY3TQOJQ";
    let at_59 = service.generate_code_at("x@y.z", secret, 59_000_000).unwrap();
    assert_eq!(at_59, "287082");
    assert!(service.verify_code_at("x@y.z", secret, "287082", 59_000_000).unwrap());
    let current = service.generate_current_code("x@y.z", secret).unwrap();
    assert_eq!(current.len(), 6);
    assert!(current.chars().all(|c| c.is_ascii_digit()));
}

#[test]
fn codes_of_neighbouring_steps_are_accepted_and_farther_ones_not() {
    let service = TwoFactorService::new("Issuer".to_string());
    let secret = "GEZDGNBVGY3TQOJQGEZDGNBVGY3TQOJQ";
    let second = 1_111_111_109i64;
    let code = service.generate_code_at("x", secret, second * 1_000_000).unwrap();
    assert!(service.verify_code_at("x", secret, &code, (second + 30) * 1_000_000).unwrap());
    assert!(service.verify_code_at("x", secret, &code, (second - 30) * 1_000_000).unwrap());
    assert!(!service.verify_code_at("x", secret, &code, (second + 90) * 1_000_000).unwrap());
}

#[test]
fn early_clock_accepts_no_code() {
    let service = TwoFactorService::new("Issuer".to_string());
    let secret = "GEZDGNBVGY3TQOJQGEZDGNBVGY3TQOJQ";
    let code = service.generate_code_at("x", secret, 10_000_000).unwrap();
    assert_eq!(service.verify_code_at("x", secret, &code, 10_000_000), Ok(false));
    assert_eq!(
        service.generate_code_at("x", secret, -1),
        Err(TwoFactorError::ClockBeforeEpoch)
    );
}

#[test]
fn secret_errors_have_their_kinds_and_messages() {
    let service = TwoFactorService::new("Issuer".to_string());
    let not_base32 = service.verify_code("x", "placeholder", "123456");
    assert_eq!(not_base32, Err(TwoFactorError::SecretNotBase32));
    assert_eq!(TwoFactorError::SecretNotBase32.message(), "Failed to decode secret");
    let short = service.generate_current_code("x", "GEZDGNBV");
    assert_eq!(short, Err(TwoFactorError::SecretTooShort(40)));
    assert_eq!(
        TwoFactorError::SecretTooShort(40).message(),
        "Failed to create TOTP: The length of the shared secret MUST be at least 128 bits. 40 bits is not enough"
    );
    assert_eq!(
        TwoFactorError::SecretTooShort(120).message(),
        "Failed to create TOTP: The length of the shared secret MUST be at least 128 bits. 120 bits is not enough"
    );
    assert_eq!(
        TwoFactorError::ClockBeforeEpoch.message(),
        "Failed to generate code: second time provided was later than self"
    );
}

#[test]
fn address_too_long_for_a_qr_code_is_refused() {
    let service = TwoFactorService::new("Issuer".to_string());
    let email = "a".repeat(5000);
    assert_eq!(
        service.generate_qr_code(&email, "GEZDGNBVGY3TQOJQGEZDGNBVGY3TQOJQ"),
        Err(TwoFactorError::QrCodeTooLarge)
    );
}
