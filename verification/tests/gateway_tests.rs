use volt_credito::error::AppError;
use volt_credito::enrichment::{EnrichmentService, HighConsultClient, ViaCepClient};
use volt_credito::models::{CreateTermoResponse, OperationResponse, ViaCepResponse};
use volt_credito::v8_client::{auth_header, UpstreamOutcome, V8Client};

fn client() -> V8Client {
    V8Client::new(
        "https://v8.example.test".to_string(),
        "cfg-9".to_string(),
        "QI".to_string(),
    )
}

#[test]
fn bearer_header_prefixes_the_token() {
    assert_eq!(auth_header("tok-abc"), "Bearer tok-abc");
}

#[test]
fn operation_urls_follow_the_platform_paths() {
    let c = client();
    assert_eq!(c.get_config_id(), "cfg-9");
    assert_eq!(
        c.create_termo_url(),
        "https://v8.example.test/private-consignment/consult"
    );
    assert_eq!(
        c.get_termo_url("t-1"),
        "https://v8.example.test/termos-de-autorizacao/t-1"
    );
    assert_eq!(
        c.accept_termo_url("t-1", "52998224725"),
        "https://v8.example.test/private-consignment/consult/t-1/unprotected/52998224725"
    );
    assert_eq!(
        c.authorize_termo_url("t-1"),
        "https://v8.example.test/private-consignment/consult/t-1/authorize"
    );
    assert_eq!(
        c.consult_data_url("c-1"),
        "https://v8.example.test/private-consignment/consult/c-1"
    );
    assert_eq!(
        c.simulation_url(),
        "https://v8.example.test/private-consignment/simulation"
    );
    assert_eq!(
        c.operation_url(),
        "https://v8.example.test/private-consignment/operation"
    );
    assert_eq!(
        c.operation_status_url("op-1"),
        "https://v8.example.test/private-consignment/operation/op-1?provider=QI"
    );
}

#[test]
fn create_termo_outcomes_map_to_the_declared_errors() {
    let c = client();
    let ok = c
        .handle_create_termo(UpstreamOutcome::Parsed(CreateTermoResponse {
            id: "t-77".to_string(),
        }))
        .unwrap();
    assert_eq!(ok.id, "t-77");
    let e = c
        .handle_create_termo(UpstreamOutcome::HttpFailure {
            status: 502,
            body: "bad gateway".to_string(),
        })
        .unwrap_err();
    assert!(
        matches!(&e, AppError::V8Error(m) if m == "Falha ao criar termo: status=502, body=bad gateway")
    );
    let e = c
        .handle_create_termo(UpstreamOutcome::TransportError {
            message: "timeout".to_string(),
        })
        .unwrap_err();
    assert!(matches!(&e, AppError::V8Error(m) if m == "Falha na requisição: timeout"));
    let e = c
        .handle_create_termo(UpstreamOutcome::ParseFailure {
            message: "missing id".to_string(),
        })
        .unwrap_err();
    assert!(matches!(&e, AppError::V8Error(m) if m == "Falha ao parsear resposta: missing id"));
}

#[test]
fn text_operations_report_the_bare_status() {
    let c = client();
    let e = c
        .handle_get_termo(UpstreamOutcome::HttpFailure {
            status: 404,
            body: String::new(),
        })
        .unwrap_err();
    assert!(matches!(&e, AppError::V8Error(m) if m == "Falha ao buscar termo: 404"));
    let e = c
        .handle_authorize_termo(UpstreamOutcome::HttpFailure {
            status: 409,
            body: String::new(),
        })
        .unwrap_err();
    assert!(matches!(&e, AppError::V8Error(m) if m == "Falha ao autorizar termo: 409"));
    let html = c
        .handle_get_termo(UpstreamOutcome::Parsed("<html></html>".to_string()))
        .unwrap();
    assert_eq!(html, "<html></html>");
}

#[test]
fn operation_poll_maps_status_and_errors() {
    let c = client();
    let op = c
        .handle_get_operation(UpstreamOutcome::Parsed(OperationResponse {
            id: "op-1".to_string(),
            status: "signed".to_string(),
            provider: "QI".to_string(),
        }))
        .unwrap();
    assert_eq!(op.status, "signed");
    let e = c
        .handle_get_operation(UpstreamOutcome::HttpFailure {
            status: 404,
            body: String::new(),
        })
        .unwrap_err();
    assert!(matches!(&e, AppError::V8Error(m) if m == "Falha ao consultar operação: 404"));
}

#[test]
fn enrichment_urls_and_errors_name_the_provider() {
    let service = EnrichmentService::new(
        HighConsultClient::new("https://people.example.test".to_string()),
        ViaCepClient::new("https://viacep.example.test/ws".to_string()),
    );
    assert_eq!(
        service.person_data_url("52998224725"),
        "https://people.example.test/dados.php?cpf=52998224725"
    );
    assert_eq!(
        service.address_url("01310-100"),
        "https://viacep.example.test/ws/01310100/json/"
    );
    let e = service
        .handle_person_data(UpstreamOutcome::HttpFailure {
            status: 500,
            body: String::new(),
        })
        .unwrap_err();
    assert!(matches!(&e, AppError::ExternalApiError(m) if m == "Falha ao buscar dados: status=500"));
    let e = service
        .handle_address(UpstreamOutcome::TransportError {
            message: "dns".to_string(),
        })
        .unwrap_err();
    assert!(matches!(&e, AppError::ExternalApiError(m) if m == "Falha ao consultar ViaCEP: dns"));
    let addr = service
        .handle_address(UpstreamOutcome::Parsed(ViaCepResponse {
            cep: "01310-100".to_string(),
            logradouro: "Avenida Paulista".to_string(),
            complemento: String::new(),
            bairro: "Bela Vista".to_string(),
            localidade: "São Paulo".to_string(),
            uf: "SP".to_string(),
            ibge: None,
            gia: None,
            ddd: None,
            siafi: None,
        }))
        .unwrap();
    assert_eq!(addr.localidade, "São Paulo");
}

#[test]
fn error_responses_carry_the_mapped_status_codes() {
    assert_eq!(AppError::ValidationError("x".to_string()).status_code(), 400);
    assert_eq!(AppError::AuthError("x".to_string()).status_code(), 401);
    assert_eq!(AppError::V8Error("x".to_string()).status_code(), 502);
    assert_eq!(AppError::ExternalApiError("x".to_string()).status_code(), 502);
    assert_eq!(AppError::NotFound.status_code(), 404);
    assert_eq!(AppError::ConfigError("x".to_string()).status_code(), 500);
    assert_eq!(AppError::InternalError("x".to_string()).status_code(), 500);
    assert_eq!(AppError::Other("x".to_string()).status_code(), 500);
    assert_eq!(
        AppError::V8Error("x".to_string()).message(),
        "Erro na requisição V8: x"
    );
    assert_eq!(
        AppError::V8Error("x".to_string()).response_message(),
        "Erro na API V8: x"
    );
    assert_eq!(AppError::NotFound.response_message(), "Recurso não encontrado");
    assert_eq!(
        AppError::InternalError("x".to_string()).response_message(),
        "Erro interno: x"
    );
}
