use volt_credito::error::AppError;
use volt_credito::pix_validator::{
    detect_pix_key_type, validate_cpf_key, validate_email_key, validate_phone_key,
    validate_pix_key, validate_random_key,
};

#[test]
fn phone_key_normalizes_eleven_digits() {
    assert_eq!(
        validate_pix_key("11984353470", "phone").unwrap(),
        "+55 11 98435-3470"
    );
}

#[test]
fn phone_key_rejects_nine_digits() {
    let e = validate_pix_key("984353470", "phone").unwrap_err();
    assert!(
        matches!(&e, AppError::ValidationError(m) if m == "Telefone deve ter 11 dígitos (DDD + número)")
    );
}

#[test]
fn phone_key_accepts_country_code_form() {
    assert_eq!(
        validate_phone_key("+5511984353470").unwrap(),
        "+55 11 98435-3470"
    );
    assert_eq!(
        validate_phone_key("5511984353470").unwrap(),
        "+55 11 98435-3470"
    );
}

#[test]
fn random_key_normalizes_to_canonical_grouping() {
    assert_eq!(
        validate_pix_key("550e8400e29b41d4a716446655440000", "random").unwrap(),
        "550e8400-e29b-41d4-a716-446655440000"
    );
}

#[test]
fn random_key_accepts_hyphenated_and_upper_case_input() {
    assert_eq!(
        validate_random_key("550E8400-E29B-41D4-A716-446655440000").unwrap(),
        "550e8400-e29b-41d4-a716-446655440000"
    );
}

#[test]
fn random_key_rejects_short_or_non_hex_input() {
    assert!(validate_random_key("550e8400").is_err());
    assert!(validate_random_key("zz0e8400e29b41d4a716446655440000").is_err());
    let e = validate_random_key("xyz").unwrap_err();
    assert!(
        matches!(&e, AppError::ValidationError(m) if m == "Chave aleatória deve ser um UUID válido (32 caracteres hex)")
    );
}

#[test]
fn email_key_lower_cases_and_validates_shape() {
    assert_eq!(
        validate_email_key("Fulano.Tal+x@Example.COM").unwrap(),
        "fulano.tal+x@example.com"
    );
    assert!(validate_email_key("not-an-email").is_err());
    assert!(validate_email_key("a@b").is_err());
    assert!(validate_email_key("a@b.c").is_err());
    assert!(validate_email_key("a@b.co").is_ok());
    let e = validate_email_key("@missing.local").unwrap_err();
    assert!(matches!(&e, AppError::ValidationError(m) if m == "Email inválido para chave PIX"));
}

#[test]
fn cpf_key_follows_the_identifier_rules() {
    assert_eq!(validate_cpf_key("111.444.777-35").unwrap(), "11144477735");
    assert!(validate_cpf_key("11111111111").is_err());
}

#[test]
fn key_kind_is_matched_case_insensitively_and_trimmed() {
    assert_eq!(
        validate_pix_key("  11984353470  ", "Telefone").unwrap(),
        "+55 11 98435-3470"
    );
    assert_eq!(
        validate_pix_key("550e8400e29b41d4a716446655440000", "ALEATORIA").unwrap(),
        "550e8400-e29b-41d4-a716-446655440000"
    );
}

#[test]
fn unknown_key_kind_is_rejected_with_the_kind_echoed() {
    let e = validate_pix_key("x", "cnpj").unwrap_err();
    assert!(matches!(&e, AppError::ValidationError(m) if m == "Tipo de chave PIX inválido: cnpj"));
}

#[test]
fn kind_detection_follows_shape() {
    assert_eq!(detect_pix_key_type("52998224725"), "cpf");
    assert_eq!(detect_pix_key_type("11984353470"), "phone");
    assert_eq!(detect_pix_key_type("5511984353470"), "phone");
    assert_eq!(detect_pix_key_type("someone@example.com"), "email");
    assert_eq!(
        detect_pix_key_type("550e8400-e29b-41d4-a716-446655440000"),
        "random"
    );
    assert_eq!(detect_pix_key_type("???"), "unknown");
}
