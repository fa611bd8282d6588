//! The data shapes of the middleware: the conversational front-end's
//! requests and responses, the two enrichment providers' records, and the
//! upstream platform's wire shapes. All fields are plain values; monetary
//! amounts arriving from the upstream platform are carried as decimal text,
//! exactly as the HTTP layer renders them.

use vstd::prelude::*;

verus! {

// Front-end: identifier validation.

#[derive(Debug)]
pub struct ValidarCpfRequest {
    pub cpf: String,
}

#[derive(Debug)]
pub struct ValidarCpfResponse {
    pub valido: bool,
    pub cpf_formatado: Option<String>,
    pub mensagem: String,
}

// Front-end: consent term.

#[derive(Debug)]
pub struct CriarTermoRequest {
    pub cpf: String,
    pub telefone: String,
    pub email: String,
}

#[derive(Debug)]
pub struct CriarTermoResponse {
    pub termo_id: String,
    pub status: String,
    pub mensagem: String,
}

#[derive(Debug)]
pub struct AutorizarTermoRequest {
    pub termo_id: String,
}

#[derive(Debug)]
pub struct AutorizarTermoResponse {
    pub consult_id: String,
    pub nome: String,
    pub margem_disponivel: String,
    pub parcelas_min: i32,
    pub parcelas_max: i32,
    pub status: String,
    pub mensagem: String,
}

// Front-end: simulation.

#[derive(Debug)]
pub struct GerarSimulacoesRequest {
    pub consult_id: String,
}

#[derive(Debug)]
pub struct SimulacaoResumo {
    pub parcelas: i32,
    pub valor_parcela: String,
    pub valor_total: String,
    pub valor_liberado: String,
    pub taxa_juros_mensal: String,
    pub primeira_parcela: String,
    pub simulation_id: String,
}

#[derive(Debug)]
pub struct GerarSimulacoesResponse {
    pub simulacoes: Vec<SimulacaoResumo>,
    pub status: String,
    pub mensagem: String,
}

// Front-end: proposal.

#[derive(Debug)]
pub struct CriarPropostaRequest {
    pub simulation_id: String,
    pub chave_pix: String,
    pub tipo_chave_pix: String,
}

#[derive(Debug)]
pub struct CriarPropostaResponse {
    pub operation_id: String,
    pub formalization_url: String,
    pub status: String,
    pub mensagem: String,
}

#[derive(Debug)]
pub struct ConsultarOperacaoResponse {
    pub operation_id: String,
    pub status: String,
    pub provider: String,
    pub mensagem: String,
}

// Front-end: identifier enrichment lookup.

#[derive(Debug)]
pub struct ConsultaCpfRequest {
    pub cpf: String,
}

#[derive(Debug)]
pub struct ConsultaCpfResponse {
    pub cpf: String,
    pub nome: String,
    pub status: String,
}

/// The full proposal request: borrower identity, the chosen simulation and
/// the transfer key.
#[derive(Debug)]
pub struct CriarPropostaRequestCompleta {
    pub cpf: String,
    pub nome: String,
    pub email: String,
    pub telefone: String,
    pub data_nascimento: String,
    pub genero: String,
    pub mae: String,
    pub simulation_id: String,
    pub chave_pix: String,
    pub tipo_chave_pix: String,
}

// Front-end: transfer-key validation.

#[derive(Debug)]
pub struct ValidarPixRequest {
    pub cpf: String,
    pub chave_pix: String,
    pub tipo_chave: String,
}

#[derive(Debug)]
pub struct ValidarPixResponse {
    pub valida: bool,
    pub tipo_chave: String,
    pub chave_formatada: Option<String>,
    pub mensagem: String,
}

// Person-registry enrichment provider: record for one identifier. The
// birth date `nasc` arrives compact (`YYYYMMDD`).

#[derive(Debug)]
pub struct HighConsultResponse {
    pub nome: String,
    pub nasc: String,
    pub mae: String,
    pub endereco: String,
    pub cidade: String,
    pub uf: String,
    pub email: Option<String>,
    pub cep: String,
    pub bairro: String,
}

// Postal-code enrichment provider: record for one postal code.

#[derive(Debug)]
pub struct ViaCepResponse {
    pub cep: String,
    pub logradouro: String,
    pub complemento: String,
    pub bairro: String,
    pub localidade: String,
    pub uf: String,
    pub ibge: Option<String>,
    pub gia: Option<String>,
    pub ddd: Option<String>,
    pub siafi: Option<String>,
}

// Upstream platform: consent term.

#[derive(Debug)]
pub struct PhoneNumber {
    pub country_code: String,
    pub area_code: String,
    pub phone_number: String,
}

#[derive(Debug)]
pub struct CreateTermoRequest {
    pub borrower_document_number: String,
    pub signer_name: String,
    pub signer_email: String,
    pub signer_phone: PhoneNumber,
    pub birth_date: String,
    pub gender: String,
    pub provider: String,
}

#[derive(Debug)]
pub struct CreateTermoResponse {
    pub id: String,
}

// Upstream platform: eligibility consultation. The platform's monetary
// minimum and maximum loan values are not read by any decision here and
// stay with the HTTP layer.

#[derive(Debug)]
pub struct SimulationLimit {
    pub month_min: i32,
    pub month_max: i32,
    pub installments_min: i32,
    pub installments_max: i32,
}

#[derive(Debug)]
pub struct ConsultDataResponse {
    pub id: String,
    pub status: String,
    pub partner_id: String,
    pub created_at: String,
    pub updated_at: String,
    pub document_number: String,
    pub name: String,
    pub partner_internal_id: String,
    pub birth_date: String,
    pub gender: String,
    pub phone_number: String,
    pub description: Option<String>,
    pub margin_base_value: String,
    pub consult_eligible: bool,
    pub admission_date: Option<String>,
    pub termination_date: Option<String>,
    pub employer_document_number: String,
    pub employer_name: String,
    pub worker_category_code: i32,
    pub registration_number: String,
    pub admission_date_months_difference: i32,
    pub simulation_limit: SimulationLimit,
    pub recommended_simulation_installment_value: String,
}

// Upstream platform: simulation. The installment face value submitted with
// a simulation request is a monetary amount owned by the HTTP layer;
// amounts coming back are carried as decimal text.

#[derive(Debug)]
pub struct CreateSimulationRequest {
    pub consult_id: String,
    pub number_of_installments: i32,
    pub config_id: String,
}

#[derive(Debug)]
pub struct SimulationResponse {
    pub id_simulation: String,
    pub installment_value: String,
    pub number_of_installments: i32,
    pub operation_amount: String,
    pub issue_amount: String,
    pub iof_amount: String,
    pub monthly_interest_rate: String,
    pub disbursed_issue_amount: String,
    pub disbursement_amount: String,
    pub first_installment_date: String,
    pub is_insured: bool,
    pub insurance_amount: Option<String>,
    pub provider: String,
    pub simulation_config_id: String,
    pub simulation_config_slug: String,
}

// Upstream platform: loan operation.

#[derive(Debug)]
pub struct BorrowerPhone {
    pub country_code: String,
    pub area_code: String,
    pub number: String,
}

#[derive(Debug)]
pub struct BorrowerAddress {
    pub postal_code: String,
    pub city: String,
    pub state: String,
    pub number: String,
    pub street: String,
    pub complement: Option<String>,
    pub neighborhood: String,
}

#[derive(Debug)]
pub struct BorrowerBank {
    pub transfer_method: String,
    pub pix_key: String,
    pub pix_key_type: String,
}

#[derive(Debug)]
pub struct WorkData {
    pub employer_name: String,
    pub employer_document_number: String,
    pub registration_number: String,
}

#[derive(Debug)]
pub struct Borrower {
    pub name: String,
    pub email: String,
    pub phone: BorrowerPhone,
    pub political_exposition: bool,
    pub address: BorrowerAddress,
    pub birth_date: String,
    pub mother_name: String,
    pub nationality: String,
    pub gender: String,
    pub person_type: String,
    pub marital_status: String,
    pub individual_document_number: String,
    pub document_identification_date: String,
    pub document_issuer: String,
    pub document_identification_type: String,
    pub document_identification_number: String,
    pub bank: BorrowerBank,
    pub work_data: WorkData,
}

#[derive(Debug)]
pub struct CreateOperationRequest {
    pub borrower: Borrower,
    pub simulation_id: String,
}

#[derive(Debug)]
pub struct CreateOperationResponse {
    pub id: String,
    pub formalization_url: String,
}

#[derive(Debug)]
pub struct OperationResponse {
    pub id: String,
    pub status: String,
    pub provider: String,
}

// Service health report.

#[derive(Debug)]
pub struct HealthStatus {
    pub status: String,
    pub service: String,
    pub version: String,
}

} // verus!
