use vstd::prelude::*;
use crate::document::Document;
use crate::enhance::engine::EnhancementResult;
use crate::enhance::logs::ChainLog;

verus! {

/// What the last run left for the file writer and for diagnostics: the final
/// document, the touched keys and the logs of the steps.
#[derive(Debug, PartialEq)]
pub struct IRuntime {
    pub config: Option<Document>,
    pub exists_keys: Vec<String>,
    pub chain_logs: Vec<ChainLog>,
}

impl IRuntime {
    /// The state before any run: no document, no keys, no logs.
    pub fn new() -> (r: IRuntime)
        ensures
            r.config is None,
            r.exists_keys@.len() == 0,
            r.chain_logs@.len() == 0,
    {
        IRuntime { config: None, exists_keys: Vec::new(), chain_logs: Vec::new() }
    }

    /// The state that holds the outcome of a run.
    pub open spec fn holding(result: EnhancementResult) -> IRuntime {
        IRuntime {
            config: Some(result.config),
            exists_keys: result.exists_keys,
            chain_logs: result.chain_logs,
        }
    }

    /// The state that holds the outcome of a run.
    pub fn of(result: EnhancementResult) -> (r: IRuntime)
        ensures
            r == IRuntime::holding(result),
    {
        IRuntime {
            config: Some(result.config),
            exists_keys: result.exists_keys,
            chain_logs: result.chain_logs,
        }
    }
}

} // verus!
