//! The two read-only enrichment lookups: a person record by tax identifier
//! and an address record by postal code. Each is one unauthenticated GET;
//! the library builds the URL and maps every outcome to the lookup's
//! result, and the call itself is performed outside the library.

use vstd::prelude::*;

use crate::error::AppError;
use crate::models::{HighConsultResponse, ViaCepResponse};
use crate::text_util::{
    chars_to_string, decimal_string, push_all, push_str_chars, remove_char, spec_decimal,
    spec_remove_char, str_chars,
};
use crate::v8_client::UpstreamOutcome;

verus! {

/// Maps an enrichment outcome to the lookup's result; every failure is an
/// `ExternalApiError` whose message names the provider or the failed step.
fn handle_enrichment_outcome<T>(
    outcome: UpstreamOutcome<T>,
    transport_prefix: &str,
    http_prefix: &str,
) -> (r: Result<T, AppError>)
    ensures
        outcome matches UpstreamOutcome::Parsed(t) ==> (r matches Ok(v) && v == t),
        outcome matches UpstreamOutcome::TransportError { message } ==> (r matches Err(e)
            && e matches AppError::ExternalApiError(m) && m@ == transport_prefix@ + message@),
        outcome matches UpstreamOutcome::HttpFailure { status, body } ==> (r matches Err(e)
            && e matches AppError::ExternalApiError(m) && m@ == http_prefix@ + spec_decimal(
            status as nat,
        )),
        outcome matches UpstreamOutcome::ParseFailure { message } ==> (r matches Err(e)
            && e matches AppError::ExternalApiError(m) && m@ == "Falha ao parsear resposta: "@
            + message@),
{
    match outcome {
        UpstreamOutcome::Parsed(t) => Ok(t),
        UpstreamOutcome::TransportError { message } => {
            let mut m: Vec<char> = Vec::new();
            push_str_chars(&mut m, transport_prefix);
            push_str_chars(&mut m, message.as_str());
            Err(AppError::ExternalApiError(chars_to_string(&m)))
        },
        UpstreamOutcome::HttpFailure { status, body } => {
            let mut m: Vec<char> = Vec::new();
            push_str_chars(&mut m, http_prefix);
            let digits = decimal_string(status as u64);
            push_all(&mut m, &digits);
            Err(AppError::ExternalApiError(chars_to_string(&m)))
        },
        UpstreamOutcome::ParseFailure { message } => {
            let mut m: Vec<char> = Vec::new();
            push_str_chars(&mut m, "Falha ao parsear resposta: ");
            push_str_chars(&mut m, message.as_str());
            Err(AppError::ExternalApiError(chars_to_string(&m)))
        },
    }
}

/// The person-registry provider: one GET keyed by the tax identifier.
pub struct HighConsultClient {
    pub base_url: String,
}

impl HighConsultClient {
    pub fn new(base_url: String) -> (r: HighConsultClient)
        ensures
            r.base_url@ == base_url@,
    {
        HighConsultClient { base_url }
    }

    /// The lookup URL for one identifier.
    pub fn person_data_url(&self, cpf: &str) -> (r: String)
        ensures
            r@ == self.base_url@ + "/dados.php?cpf="@ + cpf@,
    {
        let mut v: Vec<char> = Vec::new();
        push_str_chars(&mut v, self.base_url.as_str());
        push_str_chars(&mut v, "/dados.php?cpf=");
        push_str_chars(&mut v, cpf);
        chars_to_string(&v)
    }

    /// Result of the person lookup for each way it can come back.
    pub fn handle_person_data(&self, outcome: UpstreamOutcome<HighConsultResponse>) -> (r: Result<
        HighConsultResponse,
        AppError,
    >)
        ensures
            outcome matches UpstreamOutcome::Parsed(t) ==> (r matches Ok(v) && v == t),
            outcome matches UpstreamOutcome::TransportError { message } ==> (r matches Err(e)
                && e matches AppError::ExternalApiError(m) && m@
                == "Falha ao consultar HighConsult: "@ + message@),
            outcome matches UpstreamOutcome::HttpFailure { status, body } ==> (r matches Err(e)
                && e matches AppError::ExternalApiError(m) && m@
                == "Falha ao buscar dados: status="@ + spec_decimal(status as nat)),
            outcome matches UpstreamOutcome::ParseFailure { message } ==> (r matches Err(e)
                && e matches AppError::ExternalApiError(m) && m@ == "Falha ao parsear resposta: "@
                + message@),
    {
        handle_enrichment_outcome(
            outcome,
            "Falha ao consultar HighConsult: ",
            "Falha ao buscar dados: status=",
        )
    }
}

/// The postal-code provider: one GET keyed by the cleaned postal code.
pub struct ViaCepClient {
    pub base_url: String,
}

impl ViaCepClient {
    pub fn new(base_url: String) -> (r: ViaCepClient)
        ensures
            r.base_url@ == base_url@,
    {
        ViaCepClient { base_url }
    }

    /// The lookup URL for one postal code, with separators stripped.
    pub fn address_url(&self, cep: &str) -> (r: String)
        ensures
            r@ == self.base_url@ + "/"@ + spec_remove_char(spec_remove_char(cep@, '-'), '.')
                + "/json/"@,
    {
        let cs = str_chars(cep);
        let no_dash = remove_char(&cs, '-');
        let cleaned = remove_char(&no_dash, '.');
        let mut v: Vec<char> = Vec::new();
        push_str_chars(&mut v, self.base_url.as_str());
        push_str_chars(&mut v, "/");
        push_all(&mut v, &cleaned);
        push_str_chars(&mut v, "/json/");
        chars_to_string(&v)
    }

    /// Result of the address lookup for each way it can come back.
    pub fn handle_address(&self, outcome: UpstreamOutcome<ViaCepResponse>) -> (r: Result<
        ViaCepResponse,
        AppError,
    >)
        ensures
            outcome matches UpstreamOutcome::Parsed(t) ==> (r matches Ok(v) && v == t),
            outcome matches UpstreamOutcome::TransportError { message } ==> (r matches Err(e)
                && e matches AppError::ExternalApiError(m) && m@ == "Falha ao consultar ViaCEP: "@
                + message@),
            outcome matches UpstreamOutcome::HttpFailure { status, body } ==> (r matches Err(e)
                && e matches AppError::ExternalApiError(m) && m@
                == "Falha ao buscar endereço: status="@ + spec_decimal(status as nat)),
            outcome matches UpstreamOutcome::ParseFailure { message } ==> (r matches Err(e)
                && e matches AppError::ExternalApiError(m) && m@ == "Falha ao parsear resposta: "@
                + message@),
    {
        handle_enrichment_outcome(
            outcome,
            "Falha ao consultar ViaCEP: ",
            "Falha ao buscar endereço: status=",
        )
    }
}

/// Stateless façade over the two lookups, as the pipeline uses them.
pub struct EnrichmentService {
    pub highconsult: HighConsultClient,
    pub viacep: ViaCepClient,
}

impl EnrichmentService {
    pub fn new(highconsult_client: HighConsultClient, viacep_client: ViaCepClient) -> (r:
        EnrichmentService)
        ensures
            r.highconsult.base_url@ == highconsult_client.base_url@,
            r.viacep.base_url@ == viacep_client.base_url@,
    {
        EnrichmentService { highconsult: highconsult_client, viacep: viacep_client }
    }

    /// The person-lookup URL for one identifier.
    pub fn person_data_url(&self, cpf: &str) -> (r: String)
        ensures
            r@ == self.highconsult.base_url@ + "/dados.php?cpf="@ + cpf@,
    {
        self.highconsult.person_data_url(cpf)
    }

    /// Result of the person lookup; see
    /// [`HighConsultClient::handle_person_data`].
    pub fn handle_person_data(&self, outcome: UpstreamOutcome<HighConsultResponse>) -> (r: Result<
        HighConsultResponse,
        AppError,
    >)
        ensures
            outcome matches UpstreamOutcome::Parsed(t) ==> (r matches Ok(v) && v == t),
            outcome matches UpstreamOutcome::TransportError { message } ==> (r matches Err(e)
                && e matches AppError::ExternalApiError(m) && m@
                == "Falha ao consultar HighConsult: "@ + message@),
            outcome matches UpstreamOutcome::HttpFailure { status, body } ==> (r matches Err(e)
                && e matches AppError::ExternalApiError(m) && m@
                == "Falha ao buscar dados: status="@ + spec_decimal(status as nat)),
            outcome matches UpstreamOutcome::ParseFailure { message } ==> (r matches Err(e)
                && e matches AppError::ExternalApiError(m) && m@ == "Falha ao parsear resposta: "@
                + message@),
    {
        self.highconsult.handle_person_data(outcome)
    }

    /// The address-lookup URL for one postal code.
    pub fn address_url(&self, cep: &str) -> (r: String)
        ensures
            r@ == self.viacep.base_url@ + "/"@ + spec_remove_char(
                spec_remove_char(cep@, '-'),
                '.',
            ) + "/json/"@,
    {
        self.viacep.address_url(cep)
    }

    /// Result of the address lookup; see [`ViaCepClient::handle_address`].
    pub fn handle_address(&self, outcome: UpstreamOutcome<ViaCepResponse>) -> (r: Result<
        ViaCepResponse,
        AppError,
    >)
        ensures
            outcome matches UpstreamOutcome::Parsed(t) ==> (r matches Ok(v) && v == t),
            outcome matches UpstreamOutcome::TransportError { message } ==> (r matches Err(e)
                && e matches AppError::ExternalApiError(m) && m@ == "Falha ao consultar ViaCEP: "@
                + message@),
            outcome matches UpstreamOutcome::HttpFailure { status, body } ==> (r matches Err(e)
                && e matches AppError::ExternalApiError(m) && m@
                == "Falha ao buscar endereço: status="@ + spec_decimal(status as nat)),
            outcome matches UpstreamOutcome::ParseFailure { message } ==> (r matches Err(e)
                && e matches AppError::ExternalApiError(m) && m@ == "Falha ao parsear resposta: "@
                + message@),
    {
        self.viacep.handle_address(outcome)
    }
}

} // verus!
