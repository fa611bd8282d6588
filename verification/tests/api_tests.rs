use volt_credito::api::{
    consultar_cpf_response, health_check, validar_cpf_response, validar_pix_response,
};
use volt_credito::config::env_suffix;
use volt_credito::error::AppError;
use volt_credito::models::{HighConsultResponse, ValidarPixRequest};

#[test]
fn validar_cpf_answers_the_documented_scenario() {
    let resp = validar_cpf_response("52998224725");
    assert!(resp.valido);
    assert_eq!(resp.cpf_formatado, Some("529.982.247-25".to_string()));
    assert_eq!(resp.mensagem, "CPF válido");
}

#[test]
fn validar_cpf_answers_rejections_without_failing() {
    let resp = validar_cpf_response("123");
    assert!(!resp.valido);
    assert_eq!(resp.cpf_formatado, None);
    assert_eq!(
        resp.mensagem,
        "Erro de validação: CPF deve conter exatamente 11 dígitos"
    );
}

fn pix_payload(chave: &str, tipo: &str) -> ValidarPixRequest {
    ValidarPixRequest {
        cpf: "52998224725".to_string(),
        chave_pix: chave.to_string(),
        tipo_chave: tipo.to_string(),
    }
}

#[test]
fn validar_pix_accepts_a_valid_key_for_a_valid_holder() {
    let resp = validar_pix_response(&pix_payload("11984353470", "phone")).unwrap();
    assert!(resp.valida);
    assert_eq!(resp.tipo_chave, "phone");
    assert_eq!(resp.chave_formatada, Some("+55 11 98435-3470".to_string()));
    assert_eq!(resp.mensagem, "Chave PIX válida");
}

#[test]
fn validar_pix_reports_an_invalid_key_without_failing() {
    let resp = validar_pix_response(&pix_payload("984", "phone")).unwrap();
    assert!(!resp.valida);
    assert_eq!(resp.chave_formatada, None);
    assert_eq!(
        resp.mensagem,
        "Erro de validação: Telefone deve ter 11 dígitos (DDD + número)"
    );
}

#[test]
fn validar_pix_fails_only_on_the_holder_identifier() {
    let mut payload = pix_payload("11984353470", "phone");
    payload.cpf = "111".to_string();
    let e = validar_pix_response(&payload).unwrap_err();
    assert!(
        matches!(&e, AppError::ValidationError(m) if m == "CPF deve conter exatamente 11 dígitos")
    );
}

#[test]
fn consultar_cpf_formats_and_reports_active() {
    let person = HighConsultResponse {
        nome: "Maria da Silva".to_string(),
        nasc: "19900515".to_string(),
        mae: "Ana da Silva".to_string(),
        endereco: String::new(),
        cidade: String::new(),
        uf: String::new(),
        email: None,
        cep: "01310-100".to_string(),
        bairro: String::new(),
    };
    let resp = consultar_cpf_response("52998224725", &person);
    assert_eq!(resp.cpf, "529.982.247-25");
    assert_eq!(resp.nome, "Maria da Silva");
    assert_eq!(resp.status, "ativo");
}

#[test]
fn health_reports_the_fixed_identity() {
    let h = health_check();
    assert_eq!(h.status, "ok");
    assert_eq!(h.service, "chatbot-volt-clickmassa");
    assert_eq!(h.version, "0.1.0");
}

#[test]
fn environment_selects_the_variable_suffix() {
    assert_eq!(env_suffix("production"), "_PROD");
    assert_eq!(env_suffix("staging"), "_STAGING");
    assert_eq!(env_suffix(""), "_STAGING");
}
