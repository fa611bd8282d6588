use volt_credito::cpf_validator::{clean_cpf, format_cpf, validate_cpf, validate_check_digits};
use volt_credito::error::AppError;

#[test]
fn test_clean_cpf() {
    assert_eq!(clean_cpf("123.456.789-10"), "12345678910");
    assert_eq!(clean_cpf("123 456 789 10"), "12345678910");
    assert_eq!(clean_cpf("12345678910"), "12345678910");
}

#[test]
fn test_valid_cpf() {
    assert!(validate_cpf("11144477735").is_ok());
    assert!(validate_cpf("111.444.777-35").is_ok());
}

#[test]
fn test_invalid_cpf_length() {
    assert!(validate_cpf("123").is_err());
    assert!(validate_cpf("123456789101112").is_err());
}

#[test]
fn test_invalid_cpf_all_same_digits() {
    assert!(validate_cpf("11111111111").is_err());
    assert!(validate_cpf("00000000000").is_err());
    assert!(validate_cpf("99999999999").is_err());
}

#[test]
fn test_invalid_cpf_check_digits() {
    assert!(validate_cpf("12345678901").is_err());
    assert!(validate_cpf("11144477736").is_err());
}

#[test]
fn test_format_cpf() {
    assert_eq!(format_cpf("11144477735"), "111.444.777-35");
    assert_eq!(format_cpf("111.444.777-35"), "111.444.777-35");
}

#[test]
fn valid_cpf_normalizes_and_round_trips() {
    let normalized = validate_cpf("111.444.777-35").unwrap();
    assert_eq!(normalized, "11144477735");
    assert_eq!(format_cpf(&normalized), "111.444.777-35");
    assert_eq!(clean_cpf(&format_cpf(&normalized)), normalized);
}

#[test]
fn validation_error_messages_name_the_failed_rule() {
    let e = validate_cpf("123").unwrap_err();
    assert!(matches!(&e, AppError::ValidationError(m) if m == "CPF deve conter exatamente 11 dígitos"));
    let e = validate_cpf("22222222222").unwrap_err();
    assert!(
        matches!(&e, AppError::ValidationError(m) if m == "CPF inválido: todos os dígitos são iguais")
    );
    let e = validate_cpf("11144477736").unwrap_err();
    assert!(
        matches!(&e, AppError::ValidationError(m) if m == "CPF inválido: dígitos verificadores incorretos")
    );
}

#[test]
fn check_digits_alone_accept_the_known_identifier() {
    assert!(validate_check_digits("11144477735"));
    assert!(!validate_check_digits("11144477736"));
    assert!(validate_check_digits("52998224725"));
}

#[test]
fn format_cpf_leaves_other_lengths_unchanged() {
    assert_eq!(format_cpf("123"), "123");
    assert_eq!(format_cpf(""), "");
    assert_eq!(format_cpf("123456789101112"), "123456789101112");
}
