use vstd::prelude::*;
use crate::enhance::chain::{BodyModel, UnitModel, document_valid};
use crate::enhance::logs::{LogModel, MessageModel, StepKind, VerdictModel};
use crate::enhance::touched::touched;
use crate::enhance::tun::tun_toggled;
use crate::merge::merged;
use crate::model::Fields;

verus! {

/// One step of a run.
pub enum RunStep {
    /// The built-in step that opens every run.
    DefaultsMerge,
    /// A unit of the registry.
    Unit(UnitModel),
    /// The built-in step that closes every run.
    TunnelToggle,
}

/// The steps of a run in the order in which they are taken: the built-in
/// defaults step, the units of the registry in their order, the built-in
/// tunnel toggle.
pub open spec fn run_order(units: Seq<UnitModel>) -> Seq<RunStep> {
    seq![RunStep::DefaultsMerge] + units.map_values(|unit: UnitModel| RunStep::Unit(unit))
        + seq![RunStep::TunnelToggle]
}

/// What a script handed back, or how it failed.
pub enum ScriptOutcomeModel {
    Returned { document: Fields, messages: Seq<MessageModel> },
    Raised { message: Seq<char>, messages: Seq<MessageModel> },
    TimedOut { messages: Seq<MessageModel> },
}

/// The state of a run: the document as the steps taken so far left it, how
/// many steps were taken, the keys they touched and their logs.
pub struct EngineModel {
    pub config: Fields,
    pub units: Seq<UnitModel>,
    pub enable_tun: bool,
    pub position: nat,
    pub exists_keys: Seq<Seq<char>>,
    pub chain_logs: Seq<LogModel>,
}

/// The state in which a run starts.
pub open spec fn initial(base: Fields, units: Seq<UnitModel>, enable_tun: bool) -> EngineModel {
    EngineModel {
        config: base,
        units,
        enable_tun,
        position: 0,
        exists_keys: Seq::empty(),
        chain_logs: Seq::empty(),
    }
}

/// Every step of the run was taken.
pub open spec fn finished(e: EngineModel) -> bool {
    e.position >= run_order(e.units).len()
}

/// The step that is taken next.
pub open spec fn current(e: EngineModel) -> RunStep {
    run_order(e.units)[e.position as int]
}

/// The next step is a script unit: the run waits for what the script gives.
pub open spec fn awaits_script(e: EngineModel) -> bool {
    &&& !finished(e)
    &&& current(e) matches RunStep::Unit(unit)
    &&& unit.body is Script
}

/// The state after a step succeeded with `output`: `output` is the document,
/// the keys in which it differs from the document before are touched, and the
/// log is added.
pub open spec fn applied(e: EngineModel, output: Fields, log: LogModel) -> EngineModel {
    EngineModel {
        config: output,
        position: e.position + 1,
        exists_keys: touched(e.exists_keys, e.config, output),
        chain_logs: e.chain_logs.push(log),
        ..e
    }
}

/// The state after a step that leaves the document alone: only the log is
/// added.
pub open spec fn passed(e: EngineModel, log: LogModel) -> EngineModel {
    EngineModel { position: e.position + 1, chain_logs: e.chain_logs.push(log), ..e }
}

/// The log of a step that succeeded without messages.
pub open spec fn quiet_log(name: Seq<char>, kind: StepKind) -> LogModel {
    LogModel { name, kind, verdict: VerdictModel::Applied, messages: Seq::empty() }
}

/// The state after the next step, where that step needs no script.
pub open spec fn step_plain(e: EngineModel) -> EngineModel {
    match current(e) {
        RunStep::DefaultsMerge => passed(e, quiet_log("defaults-merge"@, StepKind::DefaultsMerge)),
        RunStep::Unit(unit) => match unit.body {
            BodyModel::Merge(patch) => applied(
                e,
                merged(e.config, patch),
                quiet_log(unit.name, StepKind::Merge),
            ),
            BodyModel::Script(_) => e,
        },
        RunStep::TunnelToggle => applied(
            e,
            tun_toggled(e.config, e.enable_tun),
            quiet_log("tunnel-toggle"@, StepKind::TunnelToggle),
        ),
    }
}

/// The log of a script step.
pub open spec fn script_log(
    e: EngineModel,
    verdict: VerdictModel,
    messages: Seq<MessageModel>,
) -> LogModel {
    LogModel { name: current(e)->Unit_0.name, kind: StepKind::Script, verdict, messages }
}

/// The state after the script that the run waits for gave `outcome`. A valid
/// document that it returned becomes the document. A script that raised an
/// error, ran out of time or returned no valid document leaves the document
/// as it was before the step.
pub open spec fn step_script(e: EngineModel, outcome: ScriptOutcomeModel) -> EngineModel {
    match outcome {
        ScriptOutcomeModel::Returned { document, messages } => if document_valid(document) {
            applied(e, document, script_log(e, VerdictModel::Applied, messages))
        } else {
            passed(e, script_log(e, VerdictModel::InvalidOutput, messages))
        },
        ScriptOutcomeModel::Raised { message, messages } => passed(
            e,
            script_log(e, VerdictModel::Raised(message), messages),
        ),
        ScriptOutcomeModel::TimedOut { messages } => passed(
            e,
            script_log(e, VerdictModel::TimedOut, messages),
        ),
    }
}

/// The state in which the run comes to rest: every step that needs no script
/// is taken, up to the next script unit or the end of the run.
pub open spec fn settle(e: EngineModel) -> EngineModel
    decreases run_order(e.units).len() - e.position,
{
    if finished(e) || awaits_script(e) {
        e
    } else {
        settle(step_plain(e))
    }
}

/// The log `log` belongs to the step `step`: it goes by the name of the step
/// and is of its kind, and only the log of a script tells of a failure.
pub open spec fn log_fits(log: LogModel, step: RunStep) -> bool {
    match step {
        RunStep::DefaultsMerge => log == quiet_log("defaults-merge"@, StepKind::DefaultsMerge),
        RunStep::Unit(unit) => match unit.body {
            BodyModel::Merge(_) => log == quiet_log(unit.name, StepKind::Merge),
            BodyModel::Script(_) => log.name == unit.name && log.kind == StepKind::Script,
        },
        RunStep::TunnelToggle => log == quiet_log("tunnel-toggle"@, StepKind::TunnelToggle),
    }
}

/// What a finished run hands out.
pub struct ResultModel {
    pub config: Fields,
    pub exists_keys: Seq<Seq<char>>,
    pub chain_logs: Seq<LogModel>,
}

/// The result that a state holds.
pub open spec fn result_of(e: EngineModel) -> ResultModel {
    ResultModel { config: e.config, exists_keys: e.exists_keys, chain_logs: e.chain_logs }
}

} // verus!
