use vstd::prelude::*;
use crate::enhance::chain::{UnitModel, document_valid};
use crate::enhance::steps::{
    EngineModel, RunStep, ScriptOutcomeModel, awaits_script, current, finished, run_order,
    settle, step_plain, step_script,
};
use crate::model::Fields;

verus! {

/// The built-in steps frame every run: the defaults step is the first and
/// the tunnel toggle the last, the units of the registry lie between them in
/// their own order, and a run over an empty registry has these two steps.
pub proof fn law_builtin_order(units: Seq<UnitModel>)
    ensures
        run_order(units).len() == units.len() + 2,
        run_order(units).first() == RunStep::DefaultsMerge,
        run_order(units).last() == RunStep::TunnelToggle,
        forall|i: int| 0 <= i < units.len() ==> run_order(units)[i + 1] == RunStep::Unit(units[i]),
        units.len() == 0 ==> run_order(units) == seq![
            RunStep::DefaultsMerge,
            RunStep::TunnelToggle,
        ],
{
}

/// The script failed: it raised an error, ran out of time, or returned what
/// is no valid document.
pub open spec fn failed(outcome: ScriptOutcomeModel) -> bool {
    match outcome {
        ScriptOutcomeModel::Returned { document, .. } => !document_valid(document),
        ScriptOutcomeModel::Raised { .. } => true,
        ScriptOutcomeModel::TimedOut { .. } => true,
    }
}

/// A script unit that fails is skipped: the document and the touched keys
/// stay as they were before the step, the step is counted and logged, and
/// the steps behind it are taken on the document as it was before the step.
pub proof fn law_fail_soft(e: EngineModel, outcome: ScriptOutcomeModel)
    requires
        awaits_script(e),
        failed(outcome),
    ensures
        step_script(e, outcome).config == e.config,
        step_script(e, outcome).exists_keys == e.exists_keys,
        step_script(e, outcome).units == e.units,
        step_script(e, outcome).position == e.position + 1,
        step_script(e, outcome).chain_logs.len() == e.chain_logs.len() + 1,
        !(step_script(e, outcome).chain_logs.last().verdict is Applied),
        settle(step_script(e, outcome)).config == settle(
            EngineModel { position: e.position + 1, ..e },
        ).config,
{
    let after = step_script(e, outcome);
    let bare = EngineModel { position: e.position + 1, ..e };
    lemma_settle_ignores_logs(after, bare);
}

/// The state in which a run ends when each script it meets gives what
/// `oracle` says for the source of the script and the document handed to it.
pub open spec fn completed(
    e: EngineModel,
    oracle: spec_fn(Seq<char>, Fields) -> ScriptOutcomeModel,
) -> EngineModel
    decreases run_order(e.units).len() - e.position,
{
    if finished(e) {
        e
    } else if awaits_script(e) {
        completed(step_script(e, oracle(current(e)->Unit_0.body->Script_0, e.config)), oracle)
    } else {
        completed(step_plain(e), oracle)
    }
}

/// Two states of a run that differ in their logs alone.
pub open spec fn same_but_logs(a: EngineModel, b: EngineModel) -> bool {
    &&& a.config == b.config
    &&& a.units == b.units
    &&& a.enable_tun == b.enable_tun
    &&& a.position == b.position
    &&& a.exists_keys == b.exists_keys
}

/// The logs have no say in where a run comes to rest.
pub proof fn lemma_settle_ignores_logs(a: EngineModel, b: EngineModel)
    requires
        same_but_logs(a, b),
    ensures
        same_but_logs(settle(a), settle(b)),
    decreases run_order(a.units).len() - a.position,
{
    if !(finished(a) || awaits_script(a)) {
        lemma_settle_ignores_logs(step_plain(a), step_plain(b));
    }
}

/// A run is determined by its base document, its registry, the tunnel flag
/// and what the scripts give: two runs that agree in these end with the same
/// document and the same touched keys, whatever was logged before.
pub proof fn law_run_deterministic(
    first: EngineModel,
    second: EngineModel,
    oracle: spec_fn(Seq<char>, Fields) -> ScriptOutcomeModel,
)
    requires
        same_but_logs(first, second),
    ensures
        completed(first, oracle).config == completed(second, oracle).config,
        completed(first, oracle).exists_keys == completed(second, oracle).exists_keys,
    decreases run_order(first.units).len() - first.position,
{
    if finished(first) {
    } else if awaits_script(first) {
        let outcome = oracle(current(first)->Unit_0.body->Script_0, first.config);
        law_run_deterministic(step_script(first, outcome), step_script(second, outcome), oracle);
    } else {
        law_run_deterministic(step_plain(first), step_plain(second), oracle);
    }
}

/// Coming to rest is part of the way to the end of the run.
pub proof fn law_settle_keeps_end(
    e: EngineModel,
    oracle: spec_fn(Seq<char>, Fields) -> ScriptOutcomeModel,
)
    ensures
        completed(settle(e), oracle) == completed(e, oracle),
    decreases run_order(e.units).len() - e.position,
{
    if !(finished(e) || awaits_script(e)) {
        law_settle_keeps_end(step_plain(e), oracle);
    }
}

/// Where a run waits for a script and is given what the oracle says, the
/// state it comes to rest in leads to the same end.
pub proof fn law_resolve_keeps_end(
    e: EngineModel,
    oracle: spec_fn(Seq<char>, Fields) -> ScriptOutcomeModel,
)
    requires
        awaits_script(e),
    ensures
        completed(
            settle(step_script(e, oracle(current(e)->Unit_0.body->Script_0, e.config))),
            oracle,
        ) == completed(e, oracle),
{
    law_settle_keeps_end(
        step_script(e, oracle(current(e)->Unit_0.body->Script_0, e.config)),
        oracle,
    );
}

} // verus!
