//! Verified core of a chatbot middleware for private-consignment credit
//! origination: identifier validation (national tax id and payment keys),
//! a time-to-live credential cache with an explicit clock, the password-grant
//! credential manager modelled as a state machine, request builders and
//! response mappers for the upstream platform and the two enrichment
//! providers, and the five-stage origination pipeline.

pub mod api;
pub mod config;
pub mod cpf_validator;
pub mod enrichment;
pub mod error;
pub mod models;
pub mod pix_validator;
pub mod proposta;
pub mod simulacao;
pub mod termo;
pub mod text_util;
pub mod token_cache;
pub mod token_manager;
pub mod v8_client;
