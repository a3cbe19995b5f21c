use vstd::prelude::*;
use crate::document::Document;
use crate::enhance::chain::{
    BodyModel, ChainBody, ChainRegistry, UnitModel, document_valid, units_wf,
};
use crate::enhance::logs::{
    ChainLog, LogMessage, StepKind, Verdict, logs_view, messages_view, names_view,
};
use crate::enhance::steps::{
    EngineModel, ResultModel, RunStep, ScriptOutcomeModel, awaits_script, current, finished,
    initial, log_fits, quiet_log, result_of, run_order, settle, step_plain, step_script,
};
use crate::enhance::touched::{extend_touched, law_touched_once};
use crate::enhance::tun::{lemma_tun_toggled_within, lemma_tun_toggled_wf, tun_toggled, use_tun};
use crate::merge::{apply_merge, lemma_merged_within, lemma_merged_wf, merged};
use crate::validate::MAX_NESTING;

verus! {

/// What a script handed back, or how it failed, with the messages it left.
#[derive(Debug)]
pub enum ScriptOutcome {
    /// The routine returned this document.
    Returned { document: Document, messages: Vec<LogMessage> },
    /// The routine raised an error.
    Raised { message: String, messages: Vec<LogMessage> },
    /// The routine did not end within its time.
    TimedOut { messages: Vec<LogMessage> },
}

impl View for ScriptOutcome {
    type V = ScriptOutcomeModel;

    open spec fn view(&self) -> ScriptOutcomeModel {
        match self {
            ScriptOutcome::Returned { document, messages } => ScriptOutcomeModel::Returned {
                document: document@,
                messages: messages_view(messages@),
            },
            ScriptOutcome::Raised { message, messages } => ScriptOutcomeModel::Raised {
                message: message@,
                messages: messages_view(messages@),
            },
            ScriptOutcome::TimedOut { messages } => ScriptOutcomeModel::TimedOut {
                messages: messages_view(messages@),
            },
        }
    }
}

/// The outcome of a run: the final document, the top-level keys that the
/// steps touched, and one log for each step, in the order of the run.
#[derive(Debug, PartialEq)]
pub struct EnhancementResult {
    pub config: Document,
    pub exists_keys: Vec<String>,
    pub chain_logs: Vec<ChainLog>,
}

impl View for EnhancementResult {
    type V = ResultModel;

    open spec fn view(&self) -> ResultModel {
        ResultModel {
            config: self.config@,
            exists_keys: names_view(self.exists_keys@),
            chain_logs: logs_view(self.chain_logs@),
        }
    }
}

/// Why a run could not start.
#[derive(Debug, PartialEq, Eq)]
pub enum RunError {
    /// The base document could not be loaded; the text says why.
    BaseUnavailable(String),
    /// What was loaded as the base is no valid document.
    BaseInvalid,
}

/// The script that a run waits for, and the document to hand to it.
#[derive(Debug)]
pub struct ScriptRequest<'a> {
    pub name: &'a String,
    pub source: &'a String,
    pub config: &'a Document,
}

/// Where a run stands: before the step named, or behind the last one.
#[derive(Debug, Clone, Copy)]
enum Phase {
    Defaults,
    Unit(usize),
    Tunnel,
    Done,
}

/// How many steps of a run over `count` units lie before `phase`.
spec fn steps_before(phase: Phase, count: nat) -> nat {
    match phase {
        Phase::Defaults => 0,
        Phase::Unit(index) => (index + 1) as nat,
        Phase::Tunnel => count + 1,
        Phase::Done => count + 2,
    }
}

/// A run of the chain registry over a base document. Between two calls it
/// rests before a script unit, whose outcome it waits for, or at the end.
#[derive(Debug)]
pub struct Engine {
    config: Document,
    registry: ChainRegistry,
    enable_tun: bool,
    phase: Phase,
    exists_keys: Vec<String>,
    chain_logs: Vec<ChainLog>,
}

impl View for Engine {
    type V = EngineModel;

    closed spec fn view(&self) -> EngineModel {
        EngineModel {
            config: self.config@,
            units: self.registry@,
            enable_tun: self.enable_tun,
            position: steps_before(self.phase, self.registry@.len()),
            exists_keys: names_view(self.exists_keys@),
            chain_logs: logs_view(self.chain_logs@),
        }
    }
}

/// What holds of the state of every run: the document is valid, the registry
/// is well formed, each step taken has left one log, the logs stand in the
/// order of the steps, and no key is listed twice among the touched keys.
pub open spec fn state_wf(e: EngineModel) -> bool {
    &&& document_valid(e.config)
    &&& units_wf(e.units)
    &&& e.position <= run_order(e.units).len()
    &&& e.chain_logs.len() == e.position
    &&& forall|i: int|
        0 <= i < e.chain_logs.len() ==> log_fits(#[trigger] e.chain_logs[i], run_order(e.units)[i])
    &&& e.exists_keys.no_duplicates()
}

/// The step at `position`, for a position inside the run.
proof fn lemma_run_order(units: Seq<UnitModel>, position: int)
    requires
        0 <= position < units.len() + 2,
    ensures
        run_order(units).len() == units.len() + 2,
        position == 0 ==> run_order(units)[position] == RunStep::DefaultsMerge,
        0 < position <= units.len() ==> run_order(units)[position] == RunStep::Unit(
            units[position - 1],
        ),
        position == units.len() + 1 ==> run_order(units)[position] == RunStep::TunnelToggle,
{
}

impl Engine {
    /// The run stands before a step that it has, or behind the last.
    pub closed spec fn in_range(&self) -> bool {
        self.phase matches Phase::Unit(index) ==> index < self.registry@.len()
    }

    /// The state of the run is as `state_wf` says, and the run is at rest.
    /// Every engine that `run` gives is of this kind, and `resolve` keeps it
    /// so.
    pub open spec fn wf(&self) -> bool {
        &&& state_wf(self@)
        &&& self.in_range()
        &&& finished(self@) || awaits_script(self@)
    }

    /// Adds the log of a step that succeeded without messages.
    fn log_quiet(&mut self, name: String, kind: StepKind)
        ensures
            final(self)@ == (EngineModel {
                chain_logs: old(self)@.chain_logs.push(quiet_log(name@, kind)),
                ..old(self)@
            }),
            final(self).phase == old(self).phase,
    {
        let log = ChainLog { name, kind, verdict: Verdict::Applied, messages: Vec::new() };
        assert(log@ == quiet_log(name@, kind)) by {
            assert(log@.messages =~= Seq::empty());
        }
        let ghost before = logs_view(self.chain_logs@);
        self.chain_logs.push(log);
        assert(logs_view(self.chain_logs@) =~= before.push(log@));
    }

    /// Moves on to the step behind the unit at `index`.
    fn leave_unit(&mut self, index: usize)
        requires
            index < old(self).registry@.len(),
        ensures
            final(self)@ == (EngineModel { position: (index + 2) as nat, ..old(self)@ }),
            final(self).in_range(),
    {
        let count: usize = self.registry.len();
        if index + 1 < count {
            self.phase = Phase::Unit(index + 1);
        } else {
            self.phase = Phase::Tunnel;
        }
    }

    /// Takes the next step, which needs no script.
    fn step(&mut self)
        requires
            state_wf(old(self)@),
            old(self).in_range(),
            !finished(old(self)@),
            !awaits_script(old(self)@),
        ensures
            final(self)@ == step_plain(old(self)@),
            state_wf(final(self)@),
            final(self).in_range(),
    {
        proof {
            lemma_run_order(self@.units, self@.position as int);
        }
        match self.phase {
            Phase::Defaults => {
                self.log_quiet("defaults-merge".to_owned(), StepKind::DefaultsMerge);
                if self.registry.len() > 0 {
                    self.phase = Phase::Unit(0);
                } else {
                    self.phase = Phase::Tunnel;
                }
            },
            Phase::Unit(index) => {
                let unit = self.registry.unit_at(index);
                match &unit.body {
                    ChainBody::Merge(patch) => {
                        proof {
                            lemma_merged_wf(self.config@, patch@);
                            lemma_merged_within(self.config@, patch@, MAX_NESTING as nat);
                            law_touched_once(
                                self@.exists_keys,
                                self.config@,
                                merged(self.config@, patch@),
                            );
                        }
                        let output = apply_merge(&self.config, patch);
                        extend_touched(&mut self.exists_keys, &self.config, &output);
                        let name = unit.name.clone();
                        self.config = output;
                        self.log_quiet(name, StepKind::Merge);
                        self.leave_unit(index);
                    },
                    ChainBody::Script(_) => {},
                }
            },
            Phase::Tunnel => {
                proof {
                    lemma_tun_toggled_wf(self.config@, self.enable_tun);
                    lemma_tun_toggled_within(self.config@, self.enable_tun, MAX_NESTING as nat);
                    law_touched_once(
                        self@.exists_keys,
                        self.config@,
                        tun_toggled(self.config@, self.enable_tun),
                    );
                }
                let output = use_tun(self.config.clone(), self.enable_tun);
                extend_touched(&mut self.exists_keys, &self.config, &output);
                self.config = output;
                self.log_quiet("tunnel-toggle".to_owned(), StepKind::TunnelToggle);
                self.phase = Phase::Done;
            },
            Phase::Done => {},
        }
    }

    /// Whether the next step is a script unit.
    fn at_script(&self) -> (b: bool)
        requires
            self.in_range(),
        ensures
            b == awaits_script(self@),
    {
        proof {
            lemma_run_order(self@.units, 0);
            if self@.position < self@.units.len() + 2 {
                lemma_run_order(self@.units, self@.position as int);
            }
        }
        match self.phase {
            Phase::Unit(index) => match &self.registry.unit_at(index).body {
                ChainBody::Script(_) => true,
                ChainBody::Merge(_) => false,
            },
            _ => false,
        }
    }

    /// Whether every step of the run was taken.
    pub fn is_finished(&self) -> (b: bool)
        requires
            self.wf(),
        ensures
            b == finished(self@),
    {
        proof {
            lemma_run_order(self@.units, 0);
        }
        match self.phase {
            Phase::Done => true,
            _ => false,
        }
    }

    /// Takes steps until the run comes to rest.
    fn come_to_rest(&mut self)
        requires
            state_wf(old(self)@),
            old(self).in_range(),
        ensures
            final(self)@ == settle(old(self)@),
            final(self).wf(),
    {
        proof {
            lemma_run_order(self@.units, 0);
        }
        while !matches!(self.phase, Phase::Done) && !self.at_script()
            invariant
                state_wf(self@),
                self.in_range(),
                run_order(self@.units).len() == self@.units.len() + 2,
                settle(self@) == settle(old(self)@),
            decreases run_order(self@.units).len() - self@.position,
        {
            self.step();
        }
    }

    /// Starts a run of `registry` over `base` and takes every step up to the
    /// first script unit, or to the end where the registry has none.
    fn start(base: Document, registry: ChainRegistry, enable_tun: bool) -> (e: Engine)
        requires
            document_valid(base@),
            registry.wf(),
        ensures
            e@ == settle(initial(base@, registry@, enable_tun)),
            e.wf(),
    {
        let mut e = Engine {
            config: base,
            registry,
            enable_tun,
            phase: Phase::Defaults,
            exists_keys: Vec::new(),
            chain_logs: Vec::new(),
        };
        proof {
            lemma_run_order(e@.units, 0);
            assert(e@.exists_keys =~= Seq::empty());
            assert(e@.chain_logs =~= Seq::empty());
        }
        e.come_to_rest();
        e
    }

    /// The script unit that the run waits for, with the document to hand to
    /// it; nothing where the run is finished.
    pub fn pending(&self) -> (r: Option<ScriptRequest<'_>>)
        requires
            self.wf(),
        ensures
            r is Some == awaits_script(self@),
            r matches Some(request) ==> {
                &&& current(self@) matches RunStep::Unit(unit)
                &&& unit.name == request.name@
                &&& unit.body == BodyModel::Script(request.source@)
                &&& request.config@ == self@.config
            },
    {
        if !self.at_script() {
            return None;
        }
        proof {
            lemma_run_order(self@.units, self@.position as int);
        }
        match self.phase {
            Phase::Unit(index) => {
                let unit = self.registry.unit_at(index);
                match &unit.body {
                    ChainBody::Script(source) => Some(
                        ScriptRequest { name: &unit.name, source, config: &self.config },
                    ),
                    ChainBody::Merge(_) => None,
                }
            },
            _ => None,
        }
    }

    /// Takes the outcome of the script that the run waits for, then every
    /// step up to the next script unit or the end. A document that the script
    /// returned becomes the document of the run if it is valid. In every
    /// other case the step is logged as failed and the run goes on with the
    /// document as it was before the step. Where the run waits for no script,
    /// nothing changes and the answer is `false`.
    pub fn resolve(&mut self, outcome: ScriptOutcome) -> (taken: bool)
        requires
            old(self).wf(),
        ensures
            taken == awaits_script(old(self)@),
            taken ==> final(self)@ == settle(step_script(old(self)@, outcome@)),
            !taken ==> final(self)@ == old(self)@,
            final(self).wf(),
    {
        if !self.at_script() {
            return false;
        }
        proof {
            lemma_run_order(self@.units, self@.position as int);
        }
        let index: usize = match self.phase {
            Phase::Unit(index) => index,
            _ => 0,
        };
        let name = self.registry.unit_at(index).name.clone();
        let ghost before = logs_view(self.chain_logs@);
        let log = match outcome {
            ScriptOutcome::Returned { document, messages } => {
                if document.is_valid(MAX_NESTING) {
                    proof {
                        law_touched_once(self@.exists_keys, self.config@, document@);
                    }
                    extend_touched(&mut self.exists_keys, &self.config, &document);
                    self.config = document;
                    ChainLog { name, kind: StepKind::Script, verdict: Verdict::Applied, messages }
                } else {
                    ChainLog {
                        name,
                        kind: StepKind::Script,
                        verdict: Verdict::InvalidOutput,
                        messages,
                    }
                }
            },
            ScriptOutcome::Raised { message, messages } => ChainLog {
                name,
                kind: StepKind::Script,
                verdict: Verdict::Raised(message),
                messages,
            },
            ScriptOutcome::TimedOut { messages } => ChainLog {
                name,
                kind: StepKind::Script,
                verdict: Verdict::TimedOut,
                messages,
            },
        };
        self.chain_logs.push(log);
        assert(logs_view(self.chain_logs@) =~= before.push(log@));
        self.leave_unit(index);
        self.come_to_rest();
        true
    }

    /// Hands out the result of a finished run; a run that still waits for a
    /// script is handed back as it is.
    pub fn finish(self) -> (r: Result<EnhancementResult, Engine>)
        requires
            self.wf(),
        ensures
            match r {
                Ok(result) => {
                    &&& finished(self@)
                    &&& result@ == result_of(self@)
                    &&& document_valid(result@.config)
                    &&& result@.chain_logs.len() == self@.units.len() + 2
                },
                Err(engine) => !finished(self@) && engine == self,
            },
    {
        if self.is_finished() {
            Ok(
                EnhancementResult {
                    config: self.config,
                    exists_keys: self.exists_keys,
                    chain_logs: self.chain_logs,
                },
            )
        } else {
            Err(self)
        }
    }
}

/// Runs `registry` over a base document, with the tunnel device switched as
/// `enable_tun` says. `base` is what loading the base document gave. The run
/// fails only where no base document was loaded, or what was loaded is no
/// valid document; a unit that fails does not end it. The engine that comes
/// back has taken every step up to the first script unit.
pub fn run(base: Result<Document, String>, registry: ChainRegistry, enable_tun: bool) -> (r: Result<
    Engine,
    RunError,
>)
    requires
        registry.wf(),
    ensures
        match r {
            Ok(engine) => {
                &&& base matches Ok(document)
                &&& document_valid(document@)
                &&& engine@ == settle(initial(document@, registry@, enable_tun))
                &&& engine.wf()
            },
            Err(RunError::BaseUnavailable(reason)) => base == Err::<Document, String>(reason),
            Err(RunError::BaseInvalid) => base matches Ok(document) && !document_valid(document@),
        },
{
    match base {
        Ok(document) => {
            if document.is_valid(MAX_NESTING) {
                Ok(Engine::start(document, registry, enable_tun))
            } else {
                Err(RunError::BaseInvalid)
            }
        },
        Err(reason) => Err(RunError::BaseUnavailable(reason)),
    }
}

} // verus!
