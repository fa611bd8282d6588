//! The upstream platform gateway. Every operation is one authenticated
//! HTTP call; the library builds the exact URL and bearer header for it and
//! maps every way the call can come back — transport failure, non-success
//! status, unparsable body, parsed value — to the operation's result. The
//! call itself is I/O and is performed outside the library, which hands
//! back an [`UpstreamOutcome`].

use vstd::prelude::*;

use crate::error::AppError;
use crate::models::{
    ConsultDataResponse, CreateOperationResponse, CreateTermoResponse, OperationResponse,
    SimulationResponse,
};
use crate::text_util::{chars_to_string, decimal_string, push_all, push_str_chars, spec_decimal};

verus! {

/// Every way one upstream HTTP call can come back: the request could not be
/// sent, the platform answered a non-success (non-2xx) status, the body did
/// not parse as the declared shape, or a value was parsed.
pub enum UpstreamOutcome<T> {
    TransportError { message: String },
    HttpFailure { status: u16, body: String },
    ParseFailure { message: String },
    Parsed(T),
}

/// The gateway's configuration: the platform's base URL, the simulation
/// configuration identifier, and the provider tag sent when polling an
/// operation.
pub struct V8Client {
    pub base_url: String,
    pub config_id: String,
    pub provider: String,
}

/// The `Authorization` header value for a bearer credential.
pub fn auth_header(token: &str) -> (r: String)
    ensures
        r@ == "Bearer "@ + token@,
{
    let mut v: Vec<char> = Vec::new();
    push_str_chars(&mut v, "Bearer ");
    push_str_chars(&mut v, token);
    chars_to_string(&v)
}

/// Maps an upstream outcome to the operation's result: the parsed value on
/// success, and otherwise a platform error whose message starts with the
/// operation's own prefix. `with_body` selects the failure message shape
/// `<prefix><status>, body=<body>` over the bare `<prefix><status>`.
fn handle_outcome<T>(
    outcome: UpstreamOutcome<T>,
    http_prefix: &str,
    with_body: bool,
    parse_prefix: &str,
) -> (r: Result<T, AppError>)
    ensures
        outcome matches UpstreamOutcome::Parsed(t) ==> (r matches Ok(v) && v == t),
        outcome matches UpstreamOutcome::TransportError { message } ==> (r matches Err(e)
            && e matches AppError::V8Error(m) && m@ == "Falha na requisição: "@ + message@),
        outcome matches UpstreamOutcome::HttpFailure { status, body } ==> (r matches Err(e)
            && e matches AppError::V8Error(m) && (with_body ==> m@ == http_prefix@ + spec_decimal(
            status as nat,
        ) + ", body="@ + body@) && (!with_body ==> m@ == http_prefix@ + spec_decimal(
            status as nat,
        ))),
        outcome matches UpstreamOutcome::ParseFailure { message } ==> (r matches Err(e)
            && e matches AppError::V8Error(m) && m@ == parse_prefix@ + message@),
{
    match outcome {
        UpstreamOutcome::Parsed(t) => Ok(t),
        UpstreamOutcome::TransportError { message } => {
            let mut m: Vec<char> = Vec::new();
            push_str_chars(&mut m, "Falha na requisição: ");
            push_str_chars(&mut m, message.as_str());
            Err(AppError::V8Error(chars_to_string(&m)))
        },
        UpstreamOutcome::HttpFailure { status, body } => {
            let mut m: Vec<char> = Vec::new();
            push_str_chars(&mut m, http_prefix);
            let digits = decimal_string(status as u64);
            push_all(&mut m, &digits);
            if with_body {
                push_str_chars(&mut m, ", body=");
                push_str_chars(&mut m, body.as_str());
            }
            Err(AppError::V8Error(chars_to_string(&m)))
        },
        UpstreamOutcome::ParseFailure { message } => {
            let mut m: Vec<char> = Vec::new();
            push_str_chars(&mut m, parse_prefix);
            push_str_chars(&mut m, message.as_str());
            Err(AppError::V8Error(chars_to_string(&m)))
        },
    }
}

impl V8Client {
    pub fn new(base_url: String, config_id: String, provider: String) -> (r: V8Client)
        ensures
            r.base_url@ == base_url@,
            r.config_id@ == config_id@,
            r.provider@ == provider@,
    {
        V8Client { base_url, config_id, provider }
    }

    /// The simulation configuration identifier this gateway was built with.
    pub fn get_config_id(&self) -> (r: &str)
        ensures
            r@ == self.config_id@,
    {
        self.config_id.as_str()
    }

    /// Endpoint that creates a consent term.
    pub fn create_termo_url(&self) -> (r: String)
        ensures
            r@ == self.base_url@ + "/private-consignment/consult"@,
    {
        let mut v: Vec<char> = Vec::new();
        push_str_chars(&mut v, self.base_url.as_str());
        push_str_chars(&mut v, "/private-consignment/consult");
        chars_to_string(&v)
    }

    /// Endpoint that serves a term's signing document.
    pub fn get_termo_url(&self, termo_id: &str) -> (r: String)
        ensures
            r@ == self.base_url@ + "/termos-de-autorizacao/"@ + termo_id@,
    {
        let mut v: Vec<char> = Vec::new();
        push_str_chars(&mut v, self.base_url.as_str());
        push_str_chars(&mut v, "/termos-de-autorizacao/");
        push_str_chars(&mut v, termo_id);
        chars_to_string(&v)
    }

    /// Endpoint that records the borrower's acceptance of a term.
    pub fn accept_termo_url(&self, termo_id: &str, cpf: &str) -> (r: String)
        ensures
            r@ == self.base_url@ + "/private-consignment/consult/"@ + termo_id@ + "/unprotected/"@
                + cpf@,
    {
        let mut v: Vec<char> = Vec::new();
        push_str_chars(&mut v, self.base_url.as_str());
        push_str_chars(&mut v, "/private-consignment/consult/");
        push_str_chars(&mut v, termo_id);
        push_str_chars(&mut v, "/unprotected/");
        push_str_chars(&mut v, cpf);
        chars_to_string(&v)
    }

    /// Endpoint that authorizes a signed term.
    pub fn authorize_termo_url(&self, termo_id: &str) -> (r: String)
        ensures
            r@ == self.base_url@ + "/private-consignment/consult/"@ + termo_id@ + "/authorize"@,
    {
        let mut v: Vec<char> = Vec::new();
        push_str_chars(&mut v, self.base_url.as_str());
        push_str_chars(&mut v, "/private-consignment/consult/");
        push_str_chars(&mut v, termo_id);
        push_str_chars(&mut v, "/authorize");
        chars_to_string(&v)
    }

    /// Endpoint that serves the consultation unlocked by authorization.
    pub fn consult_data_url(&self, consult_id: &str) -> (r: String)
        ensures
            r@ == self.base_url@ + "/private-consignment/consult/"@ + consult_id@,
    {
        let mut v: Vec<char> = Vec::new();
        push_str_chars(&mut v, self.base_url.as_str());
        push_str_chars(&mut v, "/private-consignment/consult/");
        push_str_chars(&mut v, consult_id);
        chars_to_string(&v)
    }

    /// Endpoint that creates one simulation.
    pub fn simulation_url(&self) -> (r: String)
        ensures
            r@ == self.base_url@ + "/private-consignment/simulation"@,
    {
        let mut v: Vec<char> = Vec::new();
        push_str_chars(&mut v, self.base_url.as_str());
        push_str_chars(&mut v, "/private-consignment/simulation");
        chars_to_string(&v)
    }

    /// Endpoint that creates the loan operation.
    pub fn operation_url(&self) -> (r: String)
        ensures
            r@ == self.base_url@ + "/private-consignment/operation"@,
    {
        let mut v: Vec<char> = Vec::new();
        push_str_chars(&mut v, self.base_url.as_str());
        push_str_chars(&mut v, "/private-consignment/operation");
        chars_to_string(&v)
    }

    /// Endpoint that polls an operation's status, tagged with the
    /// configured provider.
    pub fn operation_status_url(&self, operation_id: &str) -> (r: String)
        ensures
            r@ == self.base_url@ + "/private-consignment/operation/"@ + operation_id@
                + "?provider="@ + self.provider@,
    {
        let mut v: Vec<char> = Vec::new();
        push_str_chars(&mut v, self.base_url.as_str());
        push_str_chars(&mut v, "/private-consignment/operation/");
        push_str_chars(&mut v, operation_id);
        push_str_chars(&mut v, "?provider=");
        push_str_chars(&mut v, self.provider.as_str());
        chars_to_string(&v)
    }

    /// Result of the term-creation call for each way it can come back.
    pub fn handle_create_termo(&self, outcome: UpstreamOutcome<CreateTermoResponse>) -> (r: Result<
        CreateTermoResponse,
        AppError,
    >)
        ensures
            outcome matches UpstreamOutcome::Parsed(t) ==> (r matches Ok(v) && v == t),
            outcome matches UpstreamOutcome::TransportError { message } ==> (r matches Err(e)
                && e matches AppError::V8Error(m) && m@ == "Falha na requisição: "@ + message@),
            outcome matches UpstreamOutcome::HttpFailure { status, body } ==> (r matches Err(e)
                && e matches AppError::V8Error(m) && m@ == "Falha ao criar termo: status="@
                + spec_decimal(status as nat) + ", body="@ + body@),
            outcome matches UpstreamOutcome::ParseFailure { message } ==> (r matches Err(e)
                && e matches AppError::V8Error(m) && m@ == "Falha ao parsear resposta: "@
                + message@),
    {
        handle_outcome(outcome, "Falha ao criar termo: status=", true, "Falha ao parsear resposta: ")
    }

    /// Result of the term-document call: the document text on success.
    pub fn handle_get_termo(&self, outcome: UpstreamOutcome<String>) -> (r: Result<
        String,
        AppError,
    >)
        ensures
            outcome matches UpstreamOutcome::Parsed(t) ==> (r matches Ok(v) && v == t),
            outcome matches UpstreamOutcome::TransportError { message } ==> (r matches Err(e)
                && e matches AppError::V8Error(m) && m@ == "Falha na requisição: "@ + message@),
            outcome matches UpstreamOutcome::HttpFailure { status, body } ==> (r matches Err(e)
                && e matches AppError::V8Error(m) && m@ == "Falha ao buscar termo: "@
                + spec_decimal(status as nat)),
            outcome matches UpstreamOutcome::ParseFailure { message } ==> (r matches Err(e)
                && e matches AppError::V8Error(m) && m@ == "Falha ao ler resposta: "@ + message@),
    {
        handle_outcome(outcome, "Falha ao buscar termo: ", false, "Falha ao ler resposta: ")
    }

    /// Result of the term-acceptance call: the confirmation text on success.
    pub fn handle_accept_termo(&self, outcome: UpstreamOutcome<String>) -> (r: Result<
        String,
        AppError,
    >)
        ensures
            outcome matches UpstreamOutcome::Parsed(t) ==> (r matches Ok(v) && v == t),
            outcome matches UpstreamOutcome::TransportError { message } ==> (r matches Err(e)
                && e matches AppError::V8Error(m) && m@ == "Falha na requisição: "@ + message@),
            outcome matches UpstreamOutcome::HttpFailure { status, body } ==> (r matches Err(e)
                && e matches AppError::V8Error(m) && m@ == "Falha ao aceitar termo: "@
                + spec_decimal(status as nat)),
            outcome matches UpstreamOutcome::ParseFailure { message } ==> (r matches Err(e)
                && e matches AppError::V8Error(m) && m@ == "Falha ao ler resposta: "@ + message@),
    {
        handle_outcome(outcome, "Falha ao aceitar termo: ", false, "Falha ao ler resposta: ")
    }

    /// Result of the term-authorization call: the confirmation text on
    /// success; authorization unlocks the consultation.
    pub fn handle_authorize_termo(&self, outcome: UpstreamOutcome<String>) -> (r: Result<
        String,
        AppError,
    >)
        ensures
            outcome matches UpstreamOutcome::Parsed(t) ==> (r matches Ok(v) && v == t),
            outcome matches UpstreamOutcome::TransportError { message } ==> (r matches Err(e)
                && e matches AppError::V8Error(m) && m@ == "Falha na requisição: "@ + message@),
            outcome matches UpstreamOutcome::HttpFailure { status, body } ==> (r matches Err(e)
                && e matches AppError::V8Error(m) && m@ == "Falha ao autorizar termo: "@
                + spec_decimal(status as nat)),
            outcome matches UpstreamOutcome::ParseFailure { message } ==> (r matches Err(e)
                && e matches AppError::V8Error(m) && m@ == "Falha ao ler resposta: "@ + message@),
    {
        handle_outcome(outcome, "Falha ao autorizar termo: ", false, "Falha ao ler resposta: ")
    }

    /// Result of the consultation fetch for each way it can come back.
    pub fn handle_get_consult_data(&self, outcome: UpstreamOutcome<ConsultDataResponse>) -> (r:
        Result<ConsultDataResponse, AppError>)
        ensures
            outcome matches UpstreamOutcome::Parsed(t) ==> (r matches Ok(v) && v == t),
            outcome matches UpstreamOutcome::TransportError { message } ==> (r matches Err(e)
                && e matches AppError::V8Error(m) && m@ == "Falha na requisição: "@ + message@),
            outcome matches UpstreamOutcome::HttpFailure { status, body } ==> (r matches Err(e)
                && e matches AppError::V8Error(m) && m@ == "Falha ao consultar dados: status="@
                + spec_decimal(status as nat) + ", body="@ + body@),
            outcome matches UpstreamOutcome::ParseFailure { message } ==> (r matches Err(e)
                && e matches AppError::V8Error(m) && m@ == "Falha ao parsear resposta: "@
                + message@),
    {
        handle_outcome(
            outcome,
            "Falha ao consultar dados: status=",
            true,
            "Falha ao parsear resposta: ",
        )
    }

    /// Result of one simulation-creation call.
    pub fn handle_create_simulation(&self, outcome: UpstreamOutcome<SimulationResponse>) -> (r:
        Result<SimulationResponse, AppError>)
        ensures
            outcome matches UpstreamOutcome::Parsed(t) ==> (r matches Ok(v) && v == t),
            outcome matches UpstreamOutcome::TransportError { message } ==> (r matches Err(e)
                && e matches AppError::V8Error(m) && m@ == "Falha na requisição: "@ + message@),
            outcome matches UpstreamOutcome::HttpFailure { status, body } ==> (r matches Err(e)
                && e matches AppError::V8Error(m) && m@ == "Falha ao criar simulação: status="@
                + spec_decimal(status as nat) + ", body="@ + body@),
            outcome matches UpstreamOutcome::ParseFailure { message } ==> (r matches Err(e)
                && e matches AppError::V8Error(m) && m@ == "Falha ao parsear resposta: "@
                + message@),
    {
        handle_outcome(
            outcome,
            "Falha ao criar simulação: status=",
            true,
            "Falha ao parsear resposta: ",
        )
    }

    /// Result of the operation-creation call.
    pub fn handle_create_operation(&self, outcome: UpstreamOutcome<CreateOperationResponse>) -> (r:
        Result<CreateOperationResponse, AppError>)
        ensures
            outcome matches UpstreamOutcome::Parsed(t) ==> (r matches Ok(v) && v == t),
            outcome matches UpstreamOutcome::TransportError { message } ==> (r matches Err(e)
                && e matches AppError::V8Error(m) && m@ == "Falha na requisição: "@ + message@),
            outcome matches UpstreamOutcome::HttpFailure { status, body } ==> (r matches Err(e)
                && e matches AppError::V8Error(m) && m@ == "Falha ao criar operação: status="@
                + spec_decimal(status as nat) + ", body="@ + body@),
            outcome matches UpstreamOutcome::ParseFailure { message } ==> (r matches Err(e)
                && e matches AppError::V8Error(m) && m@ == "Falha ao parsear resposta: "@
                + message@),
    {
        handle_outcome(
            outcome,
            "Falha ao criar operação: status=",
            true,
            "Falha ao parsear resposta: ",
        )
    }

    /// Result of the operation-status poll.
    pub fn handle_get_operation(&self, outcome: UpstreamOutcome<OperationResponse>) -> (r: Result<
        OperationResponse,
        AppError,
    >)
        ensures
            outcome matches UpstreamOutcome::Parsed(t) ==> (r matches Ok(v) && v == t),
            outcome matches UpstreamOutcome::TransportError { message } ==> (r matches Err(e)
                && e matches AppError::V8Error(m) && m@ == "Falha na requisição: "@ + message@),
            outcome matches UpstreamOutcome::HttpFailure { status, body } ==> (r matches Err(e)
                && e matches AppError::V8Error(m) && m@ == "Falha ao consultar operação: "@
                + spec_decimal(status as nat)),
            outcome matches UpstreamOutcome::ParseFailure { message } ==> (r matches Err(e)
                && e matches AppError::V8Error(m) && m@ == "Falha ao parsear resposta: "@
                + message@),
    {
        handle_outcome(outcome, "Falha ao consultar operação: ", false, "Falha ao parsear resposta: ")
    }
}

} // verus!
