//! The computing half of the HTTP surface: for each route, the function
//! that turns validated input and gathered data into the exact response
//! the caller receives. The routes themselves — extraction, status codes,
//! JSON — live outside the library and only forward to these.

use vstd::prelude::*;

use crate::cpf_validator::{
    cpf_valid, format_cpf, lemma_spec_digits_identity, spec_cpf_error_msg, spec_format_cpf,
    validate_cpf,
};
use crate::error::AppError;
use crate::models::{
    ConsultaCpfResponse, HealthStatus, HighConsultResponse, ValidarCpfResponse, ValidarPixRequest,
    ValidarPixResponse,
};
use crate::pix_validator::{spec_pix_outcome, validate_pix_key};
use crate::text_util::{chars_to_string, lemma_spec_digits_all_digits, spec_digits, str_chars};

verus! {

/// The identifier-validation response: always answered, never an error.
/// A valid identifier comes back formatted with the fixed message; an
/// invalid one comes back unformatted with the rejection displayed.
pub fn validar_cpf_response(cpf: &str) -> (r: ValidarCpfResponse)
    ensures
        r.valido == cpf_valid(cpf@),
        cpf_valid(cpf@) ==> (r.cpf_formatado matches Some(f) && f@ == spec_format_cpf(
            spec_digits(cpf@),
        ) && r.mensagem@ == "CPF válido"@),
        !cpf_valid(cpf@) ==> r.cpf_formatado is None && r.mensagem@ == "Erro de validação: "@
            + spec_cpf_error_msg(cpf@),
{
    match validate_cpf(cpf) {
        Ok(cpf_valido) => {
            proof {
                lemma_spec_digits_all_digits(cpf@);
                lemma_spec_digits_identity(spec_digits(cpf@));
            }
            let formatado = format_cpf(cpf_valido.as_str());
            let m = str_chars("CPF válido");
            ValidarCpfResponse {
                valido: true,
                cpf_formatado: Some(formatado),
                mensagem: chars_to_string(&m),
            }
        },
        Err(e) => {
            let mensagem = e.message();
            ValidarCpfResponse { valido: false, cpf_formatado: None, mensagem }
        },
    }
}

/// The transfer-key validation response. The holder's identifier must be
/// valid — its rejection is the route's only error — and the key's own
/// verdict, valid or not, is always answered with the kind echoed back.
pub fn validar_pix_response(payload: &ValidarPixRequest) -> (r: Result<ValidarPixResponse, AppError>)
    ensures
        r is Ok <==> cpf_valid(payload.cpf@),
        r matches Err(e) ==> (e matches AppError::ValidationError(m) && m@ == spec_cpf_error_msg(
            payload.cpf@,
        )),
        r matches Ok(resp) ==> resp.tipo_chave@ == payload.tipo_chave@ && (spec_pix_outcome(
            payload.chave_pix@,
            payload.tipo_chave@,
        ) matches Ok(sv) ==> ((resp.chave_formatada matches Some(f) && f@ == sv) && resp.valida
            && resp.mensagem@ == "Chave PIX válida"@)) && (spec_pix_outcome(
            payload.chave_pix@,
            payload.tipo_chave@,
        ) matches Err(em) ==> (!resp.valida && resp.chave_formatada is None && resp.mensagem@
            == "Erro de validação: "@ + em)),
{
    let cpf_check = validate_cpf(payload.cpf.as_str());
    match cpf_check {
        Ok(_) => {},
        Err(e) => {
            return Err(e);
        },
    }
    match validate_pix_key(payload.chave_pix.as_str(), payload.tipo_chave.as_str()) {
        Ok(chave_formatada) => {
            let m = str_chars("Chave PIX válida");
            Ok(
                ValidarPixResponse {
                    valida: true,
                    tipo_chave: payload.tipo_chave.clone(),
                    chave_formatada: Some(chave_formatada),
                    mensagem: chars_to_string(&m),
                },
            )
        },
        Err(e) => {
            let mensagem = e.message();
            proof {
                if spec_pix_outcome(payload.chave_pix@, payload.tipo_chave@) is Ok {
                    assert(false);
                }
            }
            Ok(
                ValidarPixResponse {
                    valida: false,
                    tipo_chave: payload.tipo_chave.clone(),
                    chave_formatada: None,
                    mensagem,
                },
            )
        },
    }
}

/// The identifier-enrichment response: the identifier formatted for
/// display, the registered name, and the fixed account status.
pub fn consultar_cpf_response(cpf_limpo: &str, person: &HighConsultResponse) -> (r:
    ConsultaCpfResponse)
    ensures
        spec_digits(cpf_limpo@).len() == 11 ==> r.cpf@ == spec_format_cpf(
            spec_digits(cpf_limpo@),
        ),
        spec_digits(cpf_limpo@).len() != 11 ==> r.cpf@ == cpf_limpo@,
        r.nome@ == person.nome@,
        r.status@ == "ativo"@,
{
    let formatado = format_cpf(cpf_limpo);
    let status = str_chars("ativo");
    ConsultaCpfResponse {
        cpf: formatado,
        nome: person.nome.clone(),
        status: chars_to_string(&status),
    }
}

/// The health report: fixed service name and version, status `ok`.
pub fn health_check() -> (r: HealthStatus)
    ensures
        r.status@ == "ok"@,
        r.service@ == "chatbot-volt-clickmassa"@,
        r.version@ == "0.1.0"@,
{
    let status = str_chars("ok");
    let service = str_chars("chatbot-volt-clickmassa");
    let version = str_chars("0.1.0");
    HealthStatus {
        status: chars_to_string(&status),
        service: chars_to_string(&service),
        version: chars_to_string(&version),
    }
}

} // verus!
