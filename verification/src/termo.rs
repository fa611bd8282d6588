//! The consent-term stage of the origination pipeline: validate the
//! borrower's identifier, enrich it with the person record, parse the
//! caller's phone number, derive the ISO birth date from the provider's
//! compact date, and assemble the term-creation request; then map the
//! authorization consultation into the front-end's response.

use vstd::prelude::*;

use crate::error::{validation_error, AppError};
use crate::models::{
    AutorizarTermoResponse, ConsultDataResponse, CriarTermoRequest, CriarTermoResponse,
    CreateTermoRequest, HighConsultResponse, PhoneNumber,
};
use crate::text_util::{chars_to_string, push_str_chars, spec_digits, str_chars};

verus! {

/// A caller-supplied phone number is accepted when its digits form a ten-
/// or eleven-digit local number: two area-code digits and the subscriber
/// number.
pub open spec fn local_phone_ok(telefone: Seq<char>) -> bool {
    spec_digits(telefone).len() == 10 || spec_digits(telefone).len() == 11
}

/// The `(area code, subscriber number)` split of an accepted phone number.
pub open spec fn spec_phone_split(telefone: Seq<char>) -> (Seq<char>, Seq<char>)
    recommends
        local_phone_ok(telefone),
{
    let d = spec_digits(telefone);
    (d.subrange(0, 2), d.subrange(2, d.len() as int))
}

/// Splits a caller-supplied phone number into area code and subscriber
/// number; anything but ten or eleven digits is rejected.
pub fn parse_local_phone(telefone: &str) -> (r: Result<(String, String), AppError>)
    ensures
        r is Ok <==> local_phone_ok(telefone@),
        r matches Ok(p) ==> p.0@ == spec_phone_split(telefone@).0 && p.1@ == spec_phone_split(
            telefone@,
        ).1,
        r matches Err(e) ==> (e matches AppError::ValidationError(m) && m@
            == "Telefone inválido. Use formato: 11984353470"@),
{
    let cs = str_chars(telefone);
    let d = crate::text_util::digits_of(&cs);
    if d.len() == 10 || d.len() == 11 {
        let mut ddd: Vec<char> = Vec::new();
        ddd.push(d[0]);
        ddd.push(d[1]);
        let mut numero: Vec<char> = Vec::new();
        let mut i: usize = 2;
        while i < d.len()
            invariant
                2 <= i <= d@.len(),
                d@ == spec_digits(telefone@),
                numero@ == d@.subrange(2, i as int),
            decreases d@.len() - i,
        {
            numero.push(d[i]);
            proof {
                assert(d@.subrange(2, i + 1) =~= d@.subrange(2, i as int).push(d@[i as int]));
            }
            i += 1;
        }
        proof {
            assert(ddd@ =~= spec_phone_split(telefone@).0);
        }
        Ok((chars_to_string(&ddd), chars_to_string(&numero)))
    } else {
        Err(validation_error("Telefone inválido. Use formato: 11984353470"))
    }
}

/// The ISO form `YYYY-MM-DD` of a compact date's first eight characters.
pub open spec fn spec_iso_date(nasc: Seq<char>) -> Seq<char>
    recommends
        nasc.len() >= 8,
{
    nasc.subrange(0, 4) + seq!['-'] + nasc.subrange(4, 6) + seq!['-'] + nasc.subrange(6, 8)
}

/// Derives the ISO birth date from the enrichment provider's compact
/// `YYYYMMDD` date. A record whose date is shorter than eight characters
/// cannot be used and is reported as an internal failure.
pub fn compact_date_to_iso(nasc: &str) -> (r: Result<String, AppError>)
    ensures
        r is Ok <==> nasc@.len() >= 8,
        r matches Ok(v) ==> v@ == spec_iso_date(nasc@),
        r matches Err(e) ==> (e matches AppError::InternalError(m) && m@
            == "Data de nascimento inválida no cadastro"@),
{
    let cs = str_chars(nasc);
    if cs.len() < 8 {
        let m = str_chars("Data de nascimento inválida no cadastro");
        return Err(AppError::InternalError(chars_to_string(&m)));
    }
    let mut out: Vec<char> = Vec::new();
    out.push(cs[0]);
    out.push(cs[1]);
    out.push(cs[2]);
    out.push(cs[3]);
    out.push('-');
    out.push(cs[4]);
    out.push(cs[5]);
    out.push('-');
    out.push(cs[6]);
    out.push(cs[7]);
    proof {
        assert(out@ =~= spec_iso_date(nasc@));
    }
    Ok(chars_to_string(&out))
}

/// Assembles the term-creation request from the validated identifier, the
/// person record and the caller's contact data: the person record signs
/// under its registered name, the phone splits into country code `55`,
/// area code and number, and the birth date is the provider's date in ISO
/// form. The phone is parsed before the date, so a bad phone is the error
/// reported even when the record's date is also bad.
pub fn build_create_termo_request(
    payload: &CriarTermoRequest,
    cpf_limpo: &str,
    person: &HighConsultResponse,
) -> (r: Result<CreateTermoRequest, AppError>)
    ensures
        r is Ok <==> local_phone_ok(payload.telefone@) && person.nasc@.len() >= 8,
        r matches Ok(req) ==> req.borrower_document_number@ == cpf_limpo@ && req.signer_name@
            == person.nome@ && req.signer_email@ == payload.email@
            && req.signer_phone.country_code@ == "55"@ && req.signer_phone.area_code@
            == spec_phone_split(payload.telefone@).0 && req.signer_phone.phone_number@
            == spec_phone_split(payload.telefone@).1 && req.birth_date@ == spec_iso_date(
            person.nasc@,
        ) && req.gender@ == "male"@ && req.provider@ == "QI"@,
        !local_phone_ok(payload.telefone@) ==> (r matches Err(e)
            && e matches AppError::ValidationError(m) && m@
            == "Telefone inválido. Use formato: 11984353470"@),
        local_phone_ok(payload.telefone@) && person.nasc@.len() < 8 ==> (r matches Err(e)
            && e matches AppError::InternalError(m) && m@
            == "Data de nascimento inválida no cadastro"@),
{
    let phone = parse_local_phone(payload.telefone.as_str())?;
    let (ddd, numero) = phone;
    let birth = compact_date_to_iso(person.nasc.as_str())?;
    let country = str_chars("55");
    let gender = str_chars("male");
    let provider = str_chars("QI");
    let doc = str_chars(cpf_limpo);
    Ok(
        CreateTermoRequest {
            borrower_document_number: chars_to_string(&doc),
            signer_name: person.nome.clone(),
            signer_email: payload.email.clone(),
            signer_phone: PhoneNumber {
                country_code: chars_to_string(&country),
                area_code: ddd,
                phone_number: numero,
            },
            birth_date: birth,
            gender: chars_to_string(&gender),
            provider: chars_to_string(&provider),
        },
    )
}

/// The front-end's response once the platform has created the term: the
/// new term identifier and a message naming the signer.
pub fn finish_criar_termo(termo_id: String, signer_nome: &str) -> (r: CriarTermoResponse)
    ensures
        r.termo_id@ == termo_id@,
        r.status@ == "sucesso"@,
        r.mensagem@ == "Termo criado com sucesso para "@ + signer_nome@
            + ". Aguardando autorização."@,
{
    let mut m: Vec<char> = Vec::new();
    push_str_chars(&mut m, "Termo criado com sucesso para ");
    push_str_chars(&mut m, signer_nome);
    push_str_chars(&mut m, ". Aguardando autorização.");
    let status = str_chars("sucesso");
    CriarTermoResponse {
        termo_id,
        status: chars_to_string(&status),
        mensagem: chars_to_string(&m),
    }
}

/// Where one authorization run stands: which call it owes next.
#[derive(Debug)]
pub enum AuthorizationStage {
    AwaitingAuthorize,
    AwaitingConsult,
    Done,
}

/// The term-authorization stage as a state machine: authorize the signed
/// term, then fetch the consultation it unlocked — both calls keyed by the
/// one term identifier the caller supplied, in that order.
#[derive(Debug)]
pub struct AuthorizationFlow {
    pub termo_id: String,
    pub stage: AuthorizationStage,
}

impl AuthorizationFlow {
    /// Opens the run; the authorization call comes first, keyed by the
    /// given identifier.
    pub fn start(termo_id: String) -> (r: AuthorizationFlow)
        ensures
            r.termo_id@ == termo_id@,
            r.stage is AwaitingAuthorize,
    {
        AuthorizationFlow { termo_id, stage: AuthorizationStage::AwaitingAuthorize }
    }

    /// The identifier the pending call must be keyed by: always the one
    /// the run was opened with.
    pub fn key(&self) -> (r: &str)
        ensures
            r@ == self.termo_id@,
    {
        self.termo_id.as_str()
    }

    /// Records that the platform accepted the authorization; the
    /// consultation fetch is now owed, for the same identifier.
    pub fn on_authorized(&mut self)
        requires
            old(self).stage is AwaitingAuthorize,
        ensures
            final(self).termo_id@ == old(self).termo_id@,
            final(self).stage is AwaitingConsult,
    {
        self.stage = AuthorizationStage::AwaitingConsult;
    }

    /// Accepts the consultation and closes the run with the front-end's
    /// response for it.
    pub fn on_consult(&mut self, consult: &ConsultDataResponse) -> (r: AutorizarTermoResponse)
        requires
            old(self).stage is AwaitingConsult,
        ensures
            final(self).termo_id@ == old(self).termo_id@,
            final(self).stage is Done,
            r.consult_id@ == consult.id@,
            r.nome@ == consult.name@,
            r.margem_disponivel@ == consult.margin_base_value@,
            r.parcelas_min == consult.simulation_limit.installments_min,
            r.parcelas_max == consult.simulation_limit.installments_max,
            r.status@ == consult.status@,
            r.mensagem@ == "Termo autorizado! Margem disponível: R$ "@
                + consult.margin_base_value@,
    {
        self.stage = AuthorizationStage::Done;
        finish_autorizar_termo(consult)
    }
}

/// The front-end's response once a term is authorized: the consultation's
/// identifier, the borrower's name, the available margin and the
/// installment bounds, surfaced to the caller for the simulation stage.
pub fn finish_autorizar_termo(consult: &ConsultDataResponse) -> (r: AutorizarTermoResponse)
    ensures
        r.consult_id@ == consult.id@,
        r.nome@ == consult.name@,
        r.margem_disponivel@ == consult.margin_base_value@,
        r.parcelas_min == consult.simulation_limit.installments_min,
        r.parcelas_max == consult.simulation_limit.installments_max,
        r.status@ == consult.status@,
        r.mensagem@ == "Termo autorizado! Margem disponível: R$ "@ + consult.margin_base_value@,
{
    let mut m: Vec<char> = Vec::new();
    push_str_chars(&mut m, "Termo autorizado! Margem disponível: R$ ");
    push_str_chars(&mut m, consult.margin_base_value.as_str());
    AutorizarTermoResponse {
        consult_id: consult.id.clone(),
        nome: consult.name.clone(),
        margem_disponivel: consult.margin_base_value.clone(),
        parcelas_min: consult.simulation_limit.installments_min,
        parcelas_max: consult.simulation_limit.installments_max,
        status: consult.status.clone(),
        mensagem: chars_to_string(&m),
    }
}

} // verus!
