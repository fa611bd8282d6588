use volt_credito::error::AppError;
use volt_credito::token_manager::{AuthOutcome, TokenAction, TokenManager, TokenResponse};

fn manager() -> TokenManager {
    TokenManager::new(
        "https://auth.example.test/oauth/token".to_string(),
        "client-1".to_string(),
        "user-1".to_string(),
        "SECRET-REDACTED".to_string(),
        "https://api.example.test".to_string(),
        3600,
    )
}

#[test]
fn cold_cache_asks_for_exactly_one_password_grant_exchange() {
    let m = manager();
    match m.get_token_step(1_000) {
        TokenAction::Authenticate(req) => {
            assert_eq!(req.url, "https://auth.example.test/oauth/token");
            assert_eq!(req.grant_type, "password");
            assert_eq!(req.username, "user-1");
            assert_eq!(req.password, "SECRET-REDACTED");
            assert_eq!(req.audience, "https://api.example.test");
            assert_eq!(req.scope, "offline_access");
            assert_eq!(req.client_id, "client-1");
        }
        TokenAction::UseCached(_) => panic!("cold cache must authenticate"),
    }
}

#[test]
fn issued_token_is_cached_and_the_next_call_uses_it_without_an_exchange() {
    let mut m = manager();
    let issued = m
        .complete_authentication(
            1_000,
            AuthOutcome::Token(TokenResponse {
                access_token: "tok-abc".to_string(),
                expires_in: 86_400,
                token_type: "Bearer".to_string(),
            }),
        )
        .unwrap();
    assert_eq!(issued, "tok-abc");
    match m.get_token_step(1_500) {
        TokenAction::UseCached(tok) => assert_eq!(tok, "tok-abc"),
        TokenAction::Authenticate(_) => panic!("cached token must be used"),
    }
}

#[test]
fn cached_token_expires_after_the_configured_lifetime() {
    let mut m = manager();
    m.complete_authentication(
        1_000,
        AuthOutcome::Token(TokenResponse {
            access_token: "tok-abc".to_string(),
            expires_in: 86_400,
            token_type: "Bearer".to_string(),
        }),
    )
    .unwrap();
    match m.get_token_step(1_000 + 3_600) {
        TokenAction::Authenticate(_) => {}
        TokenAction::UseCached(_) => panic!("expired token must not be used"),
    }
}

#[test]
fn invalidate_cache_forces_reauthentication() {
    let mut m = manager();
    m.complete_authentication(
        1_000,
        AuthOutcome::Token(TokenResponse {
            access_token: "tok-abc".to_string(),
            expires_in: 86_400,
            token_type: "Bearer".to_string(),
        }),
    )
    .unwrap();
    m.invalidate_cache();
    assert!(matches!(m.get_token_step(1_001), TokenAction::Authenticate(_)));
}

#[test]
fn exchange_failures_become_auth_errors_with_upstream_detail() {
    let mut m = manager();
    let e = m
        .complete_authentication(
            0,
            AuthOutcome::HttpFailure {
                status: 401,
                body: "invalid_grant".to_string(),
            },
        )
        .unwrap_err();
    assert!(
        matches!(&e, AppError::AuthError(msg) if msg == "Falha na autenticação: status=401, body=invalid_grant")
    );
    let e = m
        .complete_authentication(
            0,
            AuthOutcome::TransportError {
                message: "connection refused".to_string(),
            },
        )
        .unwrap_err();
    assert!(matches!(&e, AppError::AuthError(msg) if msg == "Falha na requisição: connection refused"));
    let e = m
        .complete_authentication(
            0,
            AuthOutcome::ParseFailure {
                message: "missing field".to_string(),
            },
        )
        .unwrap_err();
    assert!(
        matches!(&e, AppError::AuthError(msg) if msg == "Falha ao parsear resposta de token: missing field")
    );
    assert!(matches!(m.get_token_step(0), TokenAction::Authenticate(_)));
}
