use volt_credito::error::AppError;
use volt_credito::models::{
    CreateOperationResponse, CriarPropostaRequestCompleta, CriarTermoRequest, HighConsultResponse,
    OperationResponse, SimulationResponse, ViaCepResponse,
};
use volt_credito::proposta::{finish_consultar_operacao, finish_criar_proposta, ProposalFlow};
use volt_credito::simulacao::{
    build_simulation_request, collect_simulacoes, finish_gerar_simulacoes, plan_simulacoes,
};
use volt_credito::termo::{
    build_create_termo_request, compact_date_to_iso, finish_criar_termo, parse_local_phone,
};

fn person() -> HighConsultResponse {
    HighConsultResponse {
        nome: "Maria da Silva".to_string(),
        nasc: "19900515".to_string(),
        mae: "Ana da Silva".to_string(),
        endereco: "Avenida Paulista, 1000".to_string(),
        cidade: "São Paulo".to_string(),
        uf: "SP".to_string(),
        email: None,
        cep: "01310-100".to_string(),
        bairro: "Bela Vista".to_string(),
    }
}

fn address() -> ViaCepResponse {
    ViaCepResponse {
        cep: "01310-100".to_string(),
        logradouro: "Avenida Paulista".to_string(),
        complemento: "até 610".to_string(),
        bairro: "Bela Vista".to_string(),
        localidade: "São Paulo".to_string(),
        uf: "SP".to_string(),
        ibge: None,
        gia: None,
        ddd: None,
        siafi: None,
    }
}

fn offer(parcelas: i32, id: &str) -> SimulationResponse {
    SimulationResponse {
        id_simulation: id.to_string(),
        installment_value: "350.10".to_string(),
        number_of_installments: parcelas,
        operation_amount: "4201.20".to_string(),
        issue_amount: "4000.00".to_string(),
        iof_amount: "38.00".to_string(),
        monthly_interest_rate: "1.80".to_string(),
        disbursed_issue_amount: "3962.00".to_string(),
        disbursement_amount: "3962.00".to_string(),
        first_installment_date: "2025-01-10".to_string(),
        is_insured: false,
        insurance_amount: None,
        provider: "QI".to_string(),
        simulation_config_id: "cfg-9".to_string(),
        simulation_config_slug: "default".to_string(),
    }
}

#[test]
fn phone_parsing_accepts_ten_and_eleven_digits() {
    assert_eq!(
        parse_local_phone("11984353470").unwrap(),
        ("11".to_string(), "984353470".to_string())
    );
    assert_eq!(
        parse_local_phone("(11) 3243-0000").unwrap(),
        ("11".to_string(), "32430000".to_string())
    );
    let e = parse_local_phone("12345").unwrap_err();
    assert!(
        matches!(&e, AppError::ValidationError(m) if m == "Telefone inválido. Use formato: 11984353470")
    );
}

#[test]
fn compact_dates_become_iso() {
    assert_eq!(compact_date_to_iso("19900515").unwrap(), "1990-05-15");
    assert!(compact_date_to_iso("1990").is_err());
}

#[test]
fn term_request_combines_identifier_enrichment_and_contact() {
    let payload = CriarTermoRequest {
        cpf: "529.982.247-25".to_string(),
        telefone: "11984353470".to_string(),
        email: "maria@example.com".to_string(),
    };
    let req = build_create_termo_request(&payload, "52998224725", &person()).unwrap();
    assert_eq!(req.borrower_document_number, "52998224725");
    assert_eq!(req.signer_name, "Maria da Silva");
    assert_eq!(req.signer_email, "maria@example.com");
    assert_eq!(req.signer_phone.country_code, "55");
    assert_eq!(req.signer_phone.area_code, "11");
    assert_eq!(req.signer_phone.phone_number, "984353470");
    assert_eq!(req.birth_date, "1990-05-15");
    assert_eq!(req.gender, "male");
    assert_eq!(req.provider, "QI");
    let resp = finish_criar_termo(req.borrower_document_number.clone(), &req.signer_name);
    assert_eq!(resp.status, "sucesso");
    assert_eq!(
        resp.mensagem,
        "Termo criado com sucesso para Maria da Silva. Aguardando autorização."
    );
}

#[test]
fn authorization_flow_keys_both_calls_by_the_same_identifier() {
    let mut flow = volt_credito::termo::AuthorizationFlow::start("t-9".to_string());
    assert_eq!(flow.key(), "t-9");
    flow.on_authorized();
    assert_eq!(flow.key(), "t-9");
    let consult = volt_credito::models::ConsultDataResponse {
        id: "c-1".to_string(),
        status: "authorized".to_string(),
        partner_id: String::new(),
        created_at: String::new(),
        updated_at: String::new(),
        document_number: "52998224725".to_string(),
        name: "Maria da Silva".to_string(),
        partner_internal_id: String::new(),
        birth_date: "1990-05-15".to_string(),
        gender: "female".to_string(),
        phone_number: "11984353470".to_string(),
        description: None,
        margin_base_value: "512.44".to_string(),
        consult_eligible: true,
        admission_date: None,
        termination_date: None,
        employer_document_number: String::new(),
        employer_name: String::new(),
        worker_category_code: 0,
        registration_number: String::new(),
        admission_date_months_difference: 0,
        simulation_limit: volt_credito::models::SimulationLimit {
            month_min: 1,
            month_max: 24,
            installments_min: 8,
            installments_max: 18,
        },
        recommended_simulation_installment_value: "350.10".to_string(),
    };
    let resp = flow.on_consult(&consult);
    assert_eq!(resp.consult_id, "c-1");
    assert_eq!(resp.nome, "Maria da Silva");
    assert_eq!(resp.margem_disponivel, "512.44");
    assert_eq!(resp.parcelas_min, 8);
    assert_eq!(resp.parcelas_max, 18);
    assert_eq!(resp.status, "authorized");
    assert_eq!(
        resp.mensagem,
        "Termo autorizado! Margem disponível: R$ 512.44"
    );
}

#[test]
fn candidate_counts_filter_to_the_consultation_bounds() {
    assert_eq!(plan_simulacoes(8, 18), vec![8, 10, 12, 18]);
    assert_eq!(plan_simulacoes(6, 24), vec![6, 8, 10, 12, 18, 24]);
    assert_eq!(plan_simulacoes(25, 30), Vec::<i32>::new());
    assert_eq!(plan_simulacoes(12, 12), vec![12]);
}

#[test]
fn simulation_request_carries_count_and_configuration() {
    let req = build_simulation_request("c-1", 12, "cfg-9");
    assert_eq!(req.consult_id, "c-1");
    assert_eq!(req.number_of_installments, 12);
    assert_eq!(req.config_id, "cfg-9");
}

#[test]
fn all_failed_simulations_fail_the_stage() {
    let e = collect_simulacoes(vec![None, None, None, None]).unwrap_err();
    assert!(matches!(&e, AppError::V8Error(m) if m == "Nenhuma simulação foi gerada"));
    assert!(collect_simulacoes(Vec::new()).is_err());
}

#[test]
fn partial_simulation_success_keeps_only_the_successes() {
    let sims = collect_simulacoes(vec![
        None,
        Some(offer(8, "s-8")),
        None,
        Some(offer(12, "s-12")),
    ])
    .unwrap();
    assert_eq!(sims.len(), 2);
    assert_eq!(sims[0].id_simulation, "s-8");
    assert_eq!(sims[1].id_simulation, "s-12");
    let resp = finish_gerar_simulacoes(sims);
    assert_eq!(resp.status, "sucesso");
    assert_eq!(resp.mensagem, "2 simulações geradas com sucesso");
    assert_eq!(resp.simulacoes.len(), 2);
    assert_eq!(resp.simulacoes[0].parcelas, 8);
    assert_eq!(resp.simulacoes[0].valor_parcela, "350.10");
    assert_eq!(resp.simulacoes[1].simulation_id, "s-12");
}

fn proposal_payload() -> CriarPropostaRequestCompleta {
    CriarPropostaRequestCompleta {
        cpf: "529.982.247-25".to_string(),
        nome: "Maria da Silva".to_string(),
        email: "maria@example.com".to_string(),
        telefone: "11984353470".to_string(),
        data_nascimento: "1990-05-15".to_string(),
        genero: "female".to_string(),
        mae: "Ana da Silva".to_string(),
        simulation_id: "s-12".to_string(),
        chave_pix: "11984353470".to_string(),
        tipo_chave_pix: "phone".to_string(),
    }
}

#[test]
fn proposal_flow_keys_the_address_lookup_by_the_person_record() {
    let mut flow = ProposalFlow::start(proposal_payload()).unwrap();
    assert_eq!(flow.person_key(), "52998224725");
    let cep = flow.on_person(person());
    assert_eq!(cep, "01310-100");
}

#[test]
fn proposal_flow_assembles_the_full_operation_request() {
    let mut flow = ProposalFlow::start(proposal_payload()).unwrap();
    let _cep = flow.on_person(person());
    let req = flow.on_address(address()).unwrap();
    assert_eq!(req.simulation_id, "s-12");
    let b = &req.borrower;
    assert_eq!(b.name, "Maria da Silva");
    assert_eq!(b.phone.country_code, "55");
    assert_eq!(b.phone.area_code, "11");
    assert_eq!(b.phone.number, "984353470");
    assert_eq!(b.address.postal_code, "01310100");
    assert_eq!(b.address.city, "São Paulo");
    assert_eq!(b.address.state, "SP");
    assert_eq!(b.address.street, "Avenida Paulista");
    assert_eq!(b.address.number, "0");
    assert_eq!(b.address.complement.as_deref(), Some("até 610"));
    assert_eq!(b.address.neighborhood, "Bela Vista");
    assert_eq!(b.birth_date, "1990-05-15");
    assert_eq!(b.mother_name, "Ana da Silva");
    assert_eq!(b.nationality, "Brasileiro");
    assert_eq!(b.gender, "female");
    assert_eq!(b.person_type, "natural");
    assert_eq!(b.marital_status, "single");
    assert_eq!(b.individual_document_number, "52998224725");
    assert_eq!(b.document_identification_number, "52998224725");
    assert_eq!(b.bank.transfer_method, "pix");
    assert_eq!(b.bank.pix_key, "11984353470");
    assert_eq!(b.bank.pix_key_type, "phone");
    assert_eq!(b.work_data.employer_name, "Empresa");
}

#[test]
fn proposal_flow_rejects_an_invalid_identifier_up_front() {
    let mut payload = proposal_payload();
    payload.cpf = "11111111111".to_string();
    let e = ProposalFlow::start(payload).unwrap_err();
    assert!(
        matches!(&e, AppError::ValidationError(m) if m == "CPF inválido: todos os dígitos são iguais")
    );
}

#[test]
fn proposal_flow_rejects_a_bad_phone_at_assembly() {
    let mut payload = proposal_payload();
    payload.telefone = "12".to_string();
    let mut flow = ProposalFlow::start(payload).unwrap();
    let _cep = flow.on_person(person());
    let e = flow.on_address(address()).unwrap_err();
    assert!(
        matches!(&e, AppError::ValidationError(m) if m == "Telefone inválido. Use formato: 11984353470")
    );
}

#[test]
fn operation_responses_map_to_the_front_end_shapes() {
    let resp = finish_criar_proposta(CreateOperationResponse {
        id: "op-1".to_string(),
        formalization_url: "https://sign.example.test/op-1".to_string(),
    });
    assert_eq!(resp.operation_id, "op-1");
    assert_eq!(resp.formalization_url, "https://sign.example.test/op-1");
    assert_eq!(resp.status, "sucesso");
    assert_eq!(
        resp.mensagem,
        "Proposta criada com sucesso! Acesse o link para formalizar."
    );
    let polled = finish_consultar_operacao(OperationResponse {
        id: "op-1".to_string(),
        status: "pending_signature".to_string(),
        provider: "QI".to_string(),
    });
    assert_eq!(polled.operation_id, "op-1");
    assert_eq!(polled.status, "pending_signature");
    assert_eq!(polled.provider, "QI");
    assert_eq!(polled.mensagem, "Operação consultada com sucesso");
}
