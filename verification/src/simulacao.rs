//! The simulation stage of the origination pipeline: filter the fixed
//! candidate set of installment counts to those within the consultation's
//! bounds, build one simulation request per surviving count, and collect
//! the offers that came back — tolerating per-offer failure but failing
//! the whole stage when no offer was produced.

use vstd::prelude::*;

use crate::error::AppError;
use crate::models::{
    CreateSimulationRequest, GerarSimulacoesResponse, SimulacaoResumo, SimulationResponse,
};
use crate::text_util::{
    chars_to_string, decimal_string, push_all, push_str_chars, spec_decimal, str_chars,
};

verus! {

/// The fixed candidate installment counts, in the order they are tried.
pub open spec fn spec_candidatos() -> Seq<i32> {
    seq![6i32, 8i32, 10i32, 12i32, 18i32, 24i32]
}

/// The candidates of `cands` lying within `[min, max]`, in order.
pub open spec fn spec_filter_bounds(cands: Seq<i32>, min: i32, max: i32) -> Seq<i32>
    decreases cands.len(),
{
    if cands.len() == 0 {
        Seq::<i32>::empty()
    } else {
        spec_filter_bounds(cands.drop_last(), min, max)
            + if min <= cands.last() && cands.last() <= max {
                seq![cands.last()]
            } else {
                Seq::<i32>::empty()
            }
    }
}

/// The installment counts to simulate for a consultation whose bounds are
/// `[min_parcelas, max_parcelas]`: the fixed candidates within the bounds,
/// in order.
pub fn plan_simulacoes(min_parcelas: i32, max_parcelas: i32) -> (r: Vec<i32>)
    ensures
        r@ == spec_filter_bounds(spec_candidatos(), min_parcelas, max_parcelas),
{
    let mut cands: Vec<i32> = Vec::new();
    cands.push(6);
    cands.push(8);
    cands.push(10);
    cands.push(12);
    cands.push(18);
    cands.push(24);
    proof {
        assert(cands@ =~= spec_candidatos());
    }
    let mut r: Vec<i32> = Vec::new();
    let mut i: usize = 0;
    while i < cands.len()
        invariant
            i <= cands@.len(),
            cands@ == spec_candidatos(),
            r@ == spec_filter_bounds(cands@.subrange(0, i as int), min_parcelas, max_parcelas),
        decreases cands@.len() - i,
    {
        let p = cands[i];
        proof {
            assert(cands@.subrange(0, i + 1).drop_last() =~= cands@.subrange(0, i as int));
            assert(cands@.subrange(0, i + 1).last() == cands@[i as int]);
        }
        if min_parcelas <= p && p <= max_parcelas {
            r.push(p);
        }
        i += 1;
    }
    proof {
        assert(cands@.subrange(0, cands@.len() as int) =~= cands@);
    }
    r
}

/// The simulation request for one installment count: the consultation it
/// belongs to, the count, and the configured simulation configuration.
pub fn build_simulation_request(consult_id: &str, parcelas: i32, config_id: &str) -> (r:
    CreateSimulationRequest)
    ensures
        r.consult_id@ == consult_id@,
        r.number_of_installments == parcelas,
        r.config_id@ == config_id@,
{
    let cid = str_chars(consult_id);
    let cfg = str_chars(config_id);
    CreateSimulationRequest {
        consult_id: chars_to_string(&cid),
        number_of_installments: parcelas,
        config_id: chars_to_string(&cfg),
    }
}

/// The offers among the per-count outcomes, in the order they were tried.
pub open spec fn spec_sucessos(s: Seq<Option<SimulationResponse>>) -> Seq<SimulationResponse>
    decreases s.len(),
{
    if s.len() == 0 {
        Seq::<SimulationResponse>::empty()
    } else {
        (match s[0] {
            Some(sim) => seq![sim],
            None => Seq::<SimulationResponse>::empty(),
        }) + spec_sucessos(s.subrange(1, s.len() as int))
    }
}

/// Collects the offers that came back, one outcome per attempted count: a
/// failed count is skipped, the stage fails only when every count failed
/// (or none was attempted), and on success the offers are exactly the
/// successful outcomes in order.
pub fn collect_simulacoes(outcomes: Vec<Option<SimulationResponse>>) -> (r: Result<
    Vec<SimulationResponse>,
    AppError,
>)
    ensures
        r is Ok <==> spec_sucessos(outcomes@).len() > 0,
        r matches Ok(v) ==> v@ == spec_sucessos(outcomes@),
        r matches Err(e) ==> (e matches AppError::V8Error(m) && m@
            == "Nenhuma simulação foi gerada"@),
{
    let mut rest = outcomes;
    let mut sims: Vec<SimulationResponse> = Vec::new();
    proof {
        assert(rest@.subrange(0, 0) =~= Seq::<Option<SimulationResponse>>::empty());
    }
    let ghost all = rest@;
    while rest.len() > 0
        invariant
            spec_sucessos(all) == sims@ + spec_sucessos(rest@),
        decreases rest@.len(),
    {
        let ghost pre = rest@;
        let head = rest.remove(0);
        proof {
            assert(pre.remove(0) =~= pre.subrange(1, pre.len() as int));
        }
        match head {
            Some(sim) => {
                sims.push(sim);
            },
            None => {},
        }
    }
    proof {
        assert(spec_sucessos(rest@) =~= Seq::<SimulationResponse>::empty());
        assert(sims@ + spec_sucessos(rest@) =~= sims@);
    }
    if sims.len() == 0 {
        let m = str_chars("Nenhuma simulação foi gerada");
        Err(AppError::V8Error(chars_to_string(&m)))
    } else {
        Ok(sims)
    }
}

/// One offer in the front-end's summary shape: the count, the amounts, the
/// monthly rate, the first due date and the offer's identifier.
pub fn map_simulacao_resumo(sim: SimulationResponse) -> (r: SimulacaoResumo)
    ensures
        r.parcelas == sim.number_of_installments,
        r.valor_parcela@ == sim.installment_value@,
        r.valor_total@ == sim.operation_amount@,
        r.valor_liberado@ == sim.disbursement_amount@,
        r.taxa_juros_mensal@ == sim.monthly_interest_rate@,
        r.primeira_parcela@ == sim.first_installment_date@,
        r.simulation_id@ == sim.id_simulation@,
{
    SimulacaoResumo {
        parcelas: sim.number_of_installments,
        valor_parcela: sim.installment_value,
        valor_total: sim.operation_amount,
        valor_liberado: sim.disbursement_amount,
        taxa_juros_mensal: sim.monthly_interest_rate,
        primeira_parcela: sim.first_installment_date,
        simulation_id: sim.id_simulation,
    }
}

/// The stage's one summary corresponds to the offer it was mapped from.
pub open spec fn resumo_matches(r: SimulacaoResumo, sim: SimulationResponse) -> bool {
    r.parcelas == sim.number_of_installments && r.valor_parcela@ == sim.installment_value@
        && r.valor_total@ == sim.operation_amount@ && r.valor_liberado@ == sim.disbursement_amount@
        && r.taxa_juros_mensal@ == sim.monthly_interest_rate@ && r.primeira_parcela@
        == sim.first_installment_date@ && r.simulation_id@ == sim.id_simulation@
}

/// The front-end's response for the collected offers: each offer in
/// summary shape, in order, and a message counting them.
pub fn finish_gerar_simulacoes(sims: Vec<SimulationResponse>) -> (r: GerarSimulacoesResponse)
    ensures
        r.simulacoes@.len() == sims@.len(),
        forall|i: int|
            0 <= i < sims@.len() ==> resumo_matches(#[trigger] r.simulacoes@[i], sims@[i]),
        r.status@ == "sucesso"@,
        r.mensagem@ == spec_decimal(sims@.len() as nat) + " simulações geradas com sucesso"@,
{
    let ghost all = sims@;
    let count: u64 = sims.len() as u64;
    let mut rest = sims;
    let mut resumos: Vec<SimulacaoResumo> = Vec::new();
    while rest.len() > 0
        invariant
            resumos@.len() + rest@.len() == all.len(),
            rest@ == all.subrange(resumos@.len() as int, all.len() as int),
            forall|i: int|
                0 <= i < resumos@.len() ==> resumo_matches(#[trigger] resumos@[i], all[i]),
        decreases rest@.len(),
    {
        let ghost pre = rest@;
        let head = rest.remove(0);
        proof {
            assert(pre.remove(0) =~= all.subrange(resumos@.len() as int + 1, all.len() as int));
            assert(head == all[resumos@.len() as int]);
        }
        let resumo = map_simulacao_resumo(head);
        resumos.push(resumo);
    }
    let mut m: Vec<char> = Vec::new();
    let digits = decimal_string(count);
    push_all(&mut m, &digits);
    push_str_chars(&mut m, " simulações geradas com sucesso");
    let status = str_chars("sucesso");
    GerarSimulacoesResponse {
        simulacoes: resumos,
        status: chars_to_string(&status),
        mensagem: chars_to_string(&m),
    }
}

} // verus!

