//! The proposal stage of the origination pipeline, modelled as an explicit
//! state machine. One run validates the borrower's identifier, fetches the
//! person record, fetches the address record — keyed by the postal code
//! that the person record returned, never by anything the caller supplied —
//! assembles the full borrower profile and submits the loan operation.
//! Every step is a verified transition; the I/O between steps is driven
//! outside the library.

use vstd::prelude::*;

use crate::cpf_validator::{cpf_valid, spec_cpf_error_msg, validate_cpf};
use crate::error::AppError;
use crate::models::{
    Borrower, BorrowerAddress, BorrowerBank, BorrowerPhone, ConsultarOperacaoResponse,
    CreateOperationRequest, CreateOperationResponse, CriarPropostaRequestCompleta,
    CriarPropostaResponse, HighConsultResponse, OperationResponse, ViaCepResponse, WorkData,
};
use crate::termo::{local_phone_ok, spec_phone_split};
use crate::text_util::{
    chars_to_string, push_str_chars, remove_char, spec_digits, spec_remove_char, str_chars,
};

verus! {

/// Where one proposal run stands: which datum it waits for next.
#[derive(Debug)]
pub enum ProposalStage {
    AwaitingPerson,
    AwaitingAddress,
    AwaitingOperation,
}

/// One proposal run: the caller's request, the validated identifier, and
/// the person record once it has arrived.
#[derive(Debug)]
pub struct ProposalFlow {
    pub payload: CriarPropostaRequestCompleta,
    pub cpf_limpo: String,
    pub person: Option<HighConsultResponse>,
    pub stage: ProposalStage,
}

impl ProposalFlow {
    /// The flow holds the person record from the moment the address is
    /// awaited, and the validated identifier is the payload's, cleaned.
    pub open spec fn wf(&self) -> bool {
        self.cpf_limpo@ == spec_digits(self.payload.cpf@) && (!(self.stage is AwaitingPerson)
            ==> self.person is Some)
    }

    /// Opens a proposal run by validating the caller's identifier. On
    /// success the run awaits the person record, to be fetched for exactly
    /// the validated identifier.
    pub fn start(payload: CriarPropostaRequestCompleta) -> (r: Result<ProposalFlow, AppError>)
        ensures
            r is Ok <==> cpf_valid(payload.cpf@),
            r matches Ok(flow) ==> flow.wf() && flow.stage is AwaitingPerson && flow.payload
                == payload && flow.cpf_limpo@ == spec_digits(payload.cpf@),
            r matches Err(e) ==> (e matches AppError::ValidationError(m) && m@
                == spec_cpf_error_msg(payload.cpf@)),
    {
        let cpf_limpo = validate_cpf(payload.cpf.as_str())?;
        Ok(
            ProposalFlow {
                payload,
                cpf_limpo,
                person: None,
                stage: ProposalStage::AwaitingPerson,
            },
        )
    }

    /// The identifier the person lookup must be keyed by.
    pub fn person_key(&self) -> (r: &str)
        requires
            self.stage is AwaitingPerson,
        ensures
            r@ == self.cpf_limpo@,
    {
        self.cpf_limpo.as_str()
    }

    /// Accepts the person record and says which postal code the address
    /// lookup must use: the one the person record carries. No postal code
    /// supplied by the caller ever reaches the address lookup.
    pub fn on_person(&mut self, person: HighConsultResponse) -> (cep: String)
        requires
            old(self).wf(),
            old(self).stage is AwaitingPerson,
        ensures
            final(self).wf(),
            final(self).stage is AwaitingAddress,
            final(self).payload == old(self).payload,
            final(self).cpf_limpo@ == old(self).cpf_limpo@,
            cep@ == person.cep@,
            final(self).person matches Some(p) && p == person,
    {
        let cep = person.cep.clone();
        self.person = Some(person);
        self.stage = ProposalStage::AwaitingAddress;
        cep
    }

    /// Accepts the address record, parses the caller's phone number and
    /// assembles the full operation request: identity from the payload and
    /// the validated identifier, address from the address record with the
    /// postal-code separator stripped, the transfer key as given, and the
    /// fixed nationality, person-type, marital-status, document and
    /// employment fields the platform currently receives.
    pub fn on_address(&mut self, address: ViaCepResponse) -> (r: Result<
        CreateOperationRequest,
        AppError,
    >)
        requires
            old(self).wf(),
            old(self).stage is AwaitingAddress,
        ensures
            final(self).wf(),
            final(self).payload == old(self).payload,
            final(self).cpf_limpo@ == old(self).cpf_limpo@,
            r is Ok <==> local_phone_ok(old(self).payload.telefone@),
            r matches Err(e) ==> (e matches AppError::ValidationError(m) && m@
                == "Telefone inválido. Use formato: 11984353470"@ && final(self).stage == old(
                self,
            ).stage),
            r matches Ok(req) ==> final(self).stage is AwaitingOperation && req.simulation_id@
                == old(self).payload.simulation_id@ && operation_borrower_ok(
                req.borrower,
                old(self).payload,
                old(self).cpf_limpo@,
                address,
            ),
    {
        let phone = crate::termo::parse_local_phone(self.payload.telefone.as_str())?;
        let (ddd, numero) = phone;
        let cep_chars = str_chars(address.cep.as_str());
        let postal = remove_char(&cep_chars, '-');
        let borrower = Borrower {
            name: self.payload.nome.clone(),
            email: self.payload.email.clone(),
            phone: BorrowerPhone {
                country_code: lit("55"),
                area_code: ddd,
                number: numero,
            },
            political_exposition: false,
            address: BorrowerAddress {
                postal_code: chars_to_string(&postal),
                city: address.localidade.clone(),
                state: address.uf.clone(),
                number: lit("0"),
                street: address.logradouro.clone(),
                complement: Some(address.complemento.clone()),
                neighborhood: address.bairro.clone(),
            },
            birth_date: self.payload.data_nascimento.clone(),
            mother_name: self.payload.mae.clone(),
            nationality: lit("Brasileiro"),
            gender: self.payload.genero.clone(),
            person_type: lit("natural"),
            marital_status: lit("single"),
            individual_document_number: self.cpf_limpo.clone(),
            document_identification_date: lit("2010-10-10"),
            document_issuer: lit("SSP"),
            document_identification_type: lit("rg"),
            document_identification_number: self.cpf_limpo.clone(),
            bank: BorrowerBank {
                transfer_method: lit("pix"),
                pix_key: self.payload.chave_pix.clone(),
                pix_key_type: self.payload.tipo_chave_pix.clone(),
            },
            work_data: WorkData {
                employer_name: lit("Empresa"),
                employer_document_number: lit("00000000000000"),
                registration_number: lit("123456789"),
            },
        };
        let simulation_id = self.payload.simulation_id.clone();
        self.stage = ProposalStage::AwaitingOperation;
        Ok(CreateOperationRequest { borrower, simulation_id })
    }
}

/// The borrower profile an operation request must carry for a given
/// payload, validated identifier and address record.
pub open spec fn operation_borrower_ok(
    b: Borrower,
    payload: CriarPropostaRequestCompleta,
    cpf_limpo: Seq<char>,
    address: ViaCepResponse,
) -> bool {
    b.name@ == payload.nome@ && b.email@ == payload.email@ && b.phone.country_code@ == "55"@
        && b.phone.area_code@ == spec_phone_split(payload.telefone@).0 && b.phone.number@
        == spec_phone_split(payload.telefone@).1 && b.political_exposition == false
        && b.address.postal_code@ == spec_remove_char(address.cep@, '-') && b.address.city@
        == address.localidade@ && b.address.state@ == address.uf@ && b.address.number@ == "0"@
        && b.address.street@ == address.logradouro@ && (b.address.complement matches Some(c)
        && c@ == address.complemento@) && b.address.neighborhood@ == address.bairro@
        && b.birth_date@ == payload.data_nascimento@ && b.mother_name@ == payload.mae@
        && b.nationality@ == "Brasileiro"@ && b.gender@ == payload.genero@ && b.person_type@
        == "natural"@ && b.marital_status@ == "single"@ && b.individual_document_number@
        == cpf_limpo && b.document_identification_date@ == "2010-10-10"@ && b.document_issuer@
        == "SSP"@ && b.document_identification_type@ == "rg"@ && b.document_identification_number@
        == cpf_limpo && b.bank.transfer_method@ == "pix"@ && b.bank.pix_key@ == payload.chave_pix@
        && b.bank.pix_key_type@ == payload.tipo_chave_pix@ && b.work_data.employer_name@
        == "Empresa"@ && b.work_data.employer_document_number@ == "00000000000000"@
        && b.work_data.registration_number@ == "123456789"@
}

/// An owned copy of a string literal.
fn lit(s: &str) -> (r: String)
    ensures
        r@ == s@,
{
    let v = str_chars(s);
    chars_to_string(&v)
}

/// The front-end's response once the platform has created the operation:
/// its identifier and the formalization link.
pub fn finish_criar_proposta(response: CreateOperationResponse) -> (r: CriarPropostaResponse)
    ensures
        r.operation_id@ == response.id@,
        r.formalization_url@ == response.formalization_url@,
        r.status@ == "sucesso"@,
        r.mensagem@ == "Proposta criada com sucesso! Acesse o link para formalizar."@,
{
    let mut m: Vec<char> = Vec::new();
    push_str_chars(&mut m, "Proposta criada com sucesso! Acesse o link para formalizar.");
    CriarPropostaResponse {
        operation_id: response.id,
        formalization_url: response.formalization_url,
        status: lit("sucesso"),
        mensagem: chars_to_string(&m),
    }
}

/// The front-end's view of a polled operation: its identifier, its
/// platform-owned status verbatim, and the provider tag.
pub fn finish_consultar_operacao(operation: OperationResponse) -> (r: ConsultarOperacaoResponse)
    ensures
        r.operation_id@ == operation.id@,
        r.status@ == operation.status@,
        r.provider@ == operation.provider@,
        r.mensagem@ == "Operação consultada com sucesso"@,
{
    ConsultarOperacaoResponse {
        operation_id: operation.id,
        status: operation.status,
        provider: operation.provider,
        mensagem: lit("Operação consultada com sucesso"),
    }
}

} // verus!
