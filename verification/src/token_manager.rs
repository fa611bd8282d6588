//! The credential manager: owns the [`TokenCache`](crate::token_cache::TokenCache)
//! and decides, per call, whether a cached bearer credential is still good
//! or a password-grant exchange is owed. The exchange itself is I/O and is
//! driven outside the library: `get_token_step` returns either the cached
//! credential or the fully assembled exchange request, and
//! `complete_authentication` consumes whatever the exchange produced,
//! caching the issued credential on success.

use vstd::prelude::*;

use crate::error::AppError;
use crate::text_util::{chars_to_string, decimal_string, push_all, push_str_chars, spec_decimal};
use crate::token_cache::TokenCache;

verus! {

/// The sentinel under which the one live credential is cached.
pub open spec fn spec_cache_key() -> Seq<char> {
    "v8_access_token"@
}

/// The parsed body of a successful password-grant exchange.
pub struct TokenResponse {
    pub access_token: String,
    pub expires_in: u64,
    pub token_type: String,
}

/// A fully assembled password-grant request: the identity endpoint and the
/// form fields to post to it.
pub struct AuthRequest {
    pub url: String,
    pub grant_type: String,
    pub username: String,
    pub password: String,
    pub audience: String,
    pub scope: String,
    pub client_id: String,
}

/// What one `get_token` call must do next.
pub enum TokenAction {
    /// The cached credential is still live: use it, no exchange occurs.
    UseCached(String),
    /// Cache miss: perform this exchange, then hand the outcome to
    /// `complete_authentication`.
    Authenticate(AuthRequest),
}

/// Every way the exchange can come back.
pub enum AuthOutcome {
    /// The request could not be sent or no response arrived.
    TransportError { message: String },
    /// The identity endpoint answered with a non-success status.
    HttpFailure { status: u16, body: String },
    /// The response arrived but its body did not parse as a token.
    ParseFailure { message: String },
    /// A credential was issued.
    Token(TokenResponse),
}

/// The credential manager's state: the cache plus the exchange
/// configuration.
pub struct TokenManager {
    pub cache: TokenCache,
    pub auth_url: String,
    pub client_id: String,
    pub username: String,
    pub password: String,
    pub audience: String,
}

impl TokenManager {
    pub open spec fn wf(&self) -> bool {
        self.cache.wf()
    }

    /// The exchange configuration of `other`, unchanged.
    pub open spec fn same_config(&self, other: &TokenManager) -> bool {
        self.auth_url@ == other.auth_url@ && self.client_id@ == other.client_id@ && self.username@
            == other.username@ && self.password@ == other.password@ && self.audience@
            == other.audience@ && self.cache.ttl_seconds == other.cache.ttl_seconds
    }

    /// A manager with an empty cache of the given lifetime.
    pub fn new(
        auth_url: String,
        client_id: String,
        username: String,
        password: String,
        audience: String,
        cache_ttl_seconds: u64,
    ) -> (r: TokenManager)
        ensures
            r.wf(),
            r.auth_url@ == auth_url@,
            r.client_id@ == client_id@,
            r.username@ == username@,
            r.password@ == password@,
            r.audience@ == audience@,
            r.cache.ttl_seconds == cache_ttl_seconds,
            forall|k: Seq<char>| r.cache.spec_lookup(k) is None,
    {
        TokenManager {
            cache: TokenCache::new(cache_ttl_seconds),
            auth_url,
            client_id,
            username,
            password,
            audience,
        }
    }

    /// One `get_token` decision at clock value `now`: the cached credential
    /// when it is live, otherwise the one exchange request this call is
    /// allowed to make — grant type `password`, scope `offline_access`, and
    /// the configured endpoint, user, audience and client.
    pub fn get_token_step(&self, now: u64) -> (r: TokenAction)
        requires
            self.wf(),
        ensures
            self.cache.spec_get(spec_cache_key(), now) matches Some(v) ==> (r matches
                TokenAction::UseCached(tok) && tok@ == v),
            self.cache.spec_get(spec_cache_key(), now) is None ==> (r matches
                TokenAction::Authenticate(req) && req.url@ == self.auth_url@ && req.grant_type@
                == "password"@ && req.username@ == self.username@ && req.password@
                == self.password@ && req.audience@ == self.audience@ && req.scope@
                == "offline_access"@ && req.client_id@ == self.client_id@),
    {
        match self.cache.get("v8_access_token", now) {
            Some(token) => TokenAction::UseCached(token),
            None => TokenAction::Authenticate(
                AuthRequest {
                    url: self.auth_url.clone(),
                    grant_type: "password".to_owned(),
                    username: self.username.clone(),
                    password: self.password.clone(),
                    audience: self.audience.clone(),
                    scope: "offline_access".to_owned(),
                    client_id: self.client_id.clone(),
                },
            ),
        }
    }

    /// Consumes the outcome of the exchange that `get_token_step` asked
    /// for. An issued credential is cached under the sentinel at time `now`
    /// and returned; every failure becomes an `AuthError` naming what went
    /// wrong, and leaves the cache as it was.
    pub fn complete_authentication(&mut self, now: u64, outcome: AuthOutcome) -> (r: Result<
        String,
        AppError,
    >)
        requires
            old(self).wf(),
        ensures
            final(self).wf(),
            final(self).same_config(old(self)),
            outcome matches AuthOutcome::Token(tr) ==> (r matches Ok(tok) && tok@
                == tr.access_token@ && final(self).cache.spec_lookup(spec_cache_key()) == Some::<
                (Seq<char>, u64),
            >((tr.access_token@, now)) && (forall|k: Seq<char>|
                k != spec_cache_key() ==> #[trigger] final(self).cache.spec_lookup(k) == old(
                    self,
                ).cache.spec_lookup(k))),
            outcome matches AuthOutcome::TransportError { message } ==> (r matches Err(e)
                && e matches AppError::AuthError(m) && m@ == "Falha na requisição: "@ + message@
                && final(self).cache == old(self).cache),
            outcome matches AuthOutcome::HttpFailure { status, body } ==> (r matches Err(e)
                && e matches AppError::AuthError(m) && m@ == "Falha na autenticação: status="@
                + spec_decimal(status as nat) + ", body="@ + body@ && final(self).cache == old(
                self,
            ).cache),
            outcome matches AuthOutcome::ParseFailure { message } ==> (r matches Err(e)
                && e matches AppError::AuthError(m) && m@
                == "Falha ao parsear resposta de token: "@ + message@ && final(self).cache == old(
                self,
            ).cache),
    {
        match outcome {
            AuthOutcome::Token(tr) => {
                let token = tr.access_token;
                self.cache.set("v8_access_token".to_owned(), token.clone(), now);
                Ok(token)
            },
            AuthOutcome::TransportError { message } => {
                let mut m: Vec<char> = Vec::new();
                push_str_chars(&mut m, "Falha na requisição: ");
                push_str_chars(&mut m, message.as_str());
                Err(AppError::AuthError(chars_to_string(&m)))
            },
            AuthOutcome::HttpFailure { status, body } => {
                let mut m: Vec<char> = Vec::new();
                push_str_chars(&mut m, "Falha na autenticação: status=");
                let digits = decimal_string(status as u64);
                push_all(&mut m, &digits);
                push_str_chars(&mut m, ", body=");
                push_str_chars(&mut m, body.as_str());
                Err(AppError::AuthError(chars_to_string(&m)))
            },
            AuthOutcome::ParseFailure { message } => {
                let mut m: Vec<char> = Vec::new();
                push_str_chars(&mut m, "Falha ao parsear resposta de token: ");
                push_str_chars(&mut m, message.as_str());
                Err(AppError::AuthError(chars_to_string(&m)))
            },
        }
    }

    /// Clears the cache unconditionally: the next `get_token_step`, at any
    /// clock value, asks for a fresh exchange.
    pub fn invalidate_cache(&mut self)
        requires
            old(self).wf(),
        ensures
            final(self).wf(),
            final(self).same_config(old(self)),
            forall|k: Seq<char>| #[trigger] final(self).cache.spec_lookup(k) is None,
    {
        self.cache.invalidate_all();
    }
}

/// Law: once a credential is cached at time `t`, any `get_token` call made
/// while the lifetime has not elapsed finds it live, so no further exchange
/// occurs for that call; together with the `get_token_step` contract, one
/// cold call performs exactly one exchange and an immediately following
/// call performs none.
pub proof fn lemma_cached_token_used(m: TokenManager, token: Seq<char>, t: u64, now: u64)
    requires
        m.cache.spec_lookup(spec_cache_key()) == Some::<(Seq<char>, u64)>((token, t)),
        (now as int) < t + m.cache.ttl_seconds,
    ensures
        m.cache.spec_get(spec_cache_key(), now) == Some(token),
{
}

} // verus!
