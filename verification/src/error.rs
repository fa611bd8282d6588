//! The library's error taxonomy and its mapping to wire-level status codes
//! and human-readable messages. The HTTP layer turns a value of [`AppError`]
//! into a response; everything it needs — the status code and the message —
//! is computed here under contract.

use vstd::prelude::*;

use crate::text_util::{chars_to_string, push_str_chars, str_chars};

verus! {

/// Everything that can go wrong, by origin: configuration, the credential
/// exchange, the upstream platform, an enrichment provider, caller input,
/// a missing resource, or an internal parse/logic failure.
#[derive(Debug)]
pub enum AppError {
    ConfigError(String),
    AuthError(String),
    V8Error(String),
    ExternalApiError(String),
    ValidationError(String),
    NotFound,
    InternalError(String),
    Other(String),
}

impl AppError {
    /// The message the error displays, with its fixed per-variant prefix.
    pub open spec fn spec_message(&self) -> Seq<char> {
        match self {
            AppError::ConfigError(m) => "Erro de configuração: "@ + m@,
            AppError::AuthError(m) => "Erro de autenticação: "@ + m@,
            AppError::V8Error(m) => "Erro na requisição V8: "@ + m@,
            AppError::ExternalApiError(m) => "Erro na API externa: "@ + m@,
            AppError::ValidationError(m) => "Erro de validação: "@ + m@,
            AppError::NotFound => "Recurso não encontrado"@,
            AppError::InternalError(m) => "Erro interno do servidor: "@ + m@,
            AppError::Other(m) => m@,
        }
    }

    /// The message carried in the body of an error response.
    pub open spec fn spec_response_message(&self) -> Seq<char> {
        match self {
            AppError::ConfigError(m) => "Erro de configuração: "@ + m@,
            AppError::AuthError(m) => "Erro de autenticação: "@ + m@,
            AppError::V8Error(m) => "Erro na API V8: "@ + m@,
            AppError::ExternalApiError(m) => "Erro na API externa: "@ + m@,
            AppError::ValidationError(m) => "Erro de validação: "@ + m@,
            AppError::NotFound => "Recurso não encontrado"@,
            AppError::InternalError(m) => "Erro interno: "@ + m@,
            AppError::Other(m) => "Erro: "@ + m@,
        }
    }

    /// The HTTP status an error response carries: 400 for rejected input,
    /// 401 for a failed credential exchange, 502 for upstream and provider
    /// failures, 404 for a missing resource, 500 otherwise.
    pub open spec fn spec_status_code(&self) -> u16 {
        match self {
            AppError::ConfigError(_) => 500,
            AppError::AuthError(_) => 401,
            AppError::V8Error(_) => 502,
            AppError::ExternalApiError(_) => 502,
            AppError::ValidationError(_) => 400,
            AppError::NotFound => 404,
            AppError::InternalError(_) => 500,
            AppError::Other(_) => 500,
        }
    }

    /// Display form of the error: fixed prefix plus the carried detail.
    pub fn message(&self) -> (r: String)
        ensures
            r@ == self.spec_message(),
    {
        let mut out: Vec<char> = Vec::new();
        match self {
            AppError::ConfigError(m) => {
                push_str_chars(&mut out, "Erro de configuração: ");
                push_str_chars(&mut out, m.as_str());
            },
            AppError::AuthError(m) => {
                push_str_chars(&mut out, "Erro de autenticação: ");
                push_str_chars(&mut out, m.as_str());
            },
            AppError::V8Error(m) => {
                push_str_chars(&mut out, "Erro na requisição V8: ");
                push_str_chars(&mut out, m.as_str());
            },
            AppError::ExternalApiError(m) => {
                push_str_chars(&mut out, "Erro na API externa: ");
                push_str_chars(&mut out, m.as_str());
            },
            AppError::ValidationError(m) => {
                push_str_chars(&mut out, "Erro de validação: ");
                push_str_chars(&mut out, m.as_str());
            },
            AppError::NotFound => {
                push_str_chars(&mut out, "Recurso não encontrado");
            },
            AppError::InternalError(m) => {
                push_str_chars(&mut out, "Erro interno do servidor: ");
                push_str_chars(&mut out, m.as_str());
            },
            AppError::Other(m) => {
                push_str_chars(&mut out, m.as_str());
            },
        }
        chars_to_string(&out)
    }

    /// Body message of the error response for this error.
    pub fn response_message(&self) -> (r: String)
        ensures
            r@ == self.spec_response_message(),
    {
        let mut out: Vec<char> = Vec::new();
        match self {
            AppError::ConfigError(m) => {
                push_str_chars(&mut out, "Erro de configuração: ");
                push_str_chars(&mut out, m.as_str());
            },
            AppError::AuthError(m) => {
                push_str_chars(&mut out, "Erro de autenticação: ");
                push_str_chars(&mut out, m.as_str());
            },
            AppError::V8Error(m) => {
                push_str_chars(&mut out, "Erro na API V8: ");
                push_str_chars(&mut out, m.as_str());
            },
            AppError::ExternalApiError(m) => {
                push_str_chars(&mut out, "Erro na API externa: ");
                push_str_chars(&mut out, m.as_str());
            },
            AppError::ValidationError(m) => {
                push_str_chars(&mut out, "Erro de validação: ");
                push_str_chars(&mut out, m.as_str());
            },
            AppError::NotFound => {
                push_str_chars(&mut out, "Recurso não encontrado");
            },
            AppError::InternalError(m) => {
                push_str_chars(&mut out, "Erro interno: ");
                push_str_chars(&mut out, m.as_str());
            },
            AppError::Other(m) => {
                push_str_chars(&mut out, "Erro: ");
                push_str_chars(&mut out, m.as_str());
            },
        }
        chars_to_string(&out)
    }

    /// Status code of the error response for this error.
    pub fn status_code(&self) -> (r: u16)
        ensures
            r == self.spec_status_code(),
    {
        match self {
            AppError::ConfigError(_) => 500,
            AppError::AuthError(_) => 401,
            AppError::V8Error(_) => 502,
            AppError::ExternalApiError(_) => 502,
            AppError::ValidationError(_) => 400,
            AppError::NotFound => 404,
            AppError::InternalError(_) => 500,
            AppError::Other(_) => 500,
        }
    }
}

/// A `ValidationError` whose message is the given literal; shared by the
/// validators so their contracts can name the message once.
pub fn validation_error(msg: &str) -> (r: AppError)
    ensures
        r matches AppError::ValidationError(m) && m@ == msg@,
{
    let v = str_chars(msg);
    AppError::ValidationError(chars_to_string(&v))
}

/// Result alias used across the library.
pub type AppResult<T> = Result<T, AppError>;

} // verus!
