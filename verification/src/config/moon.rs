use vstd::prelude::*;
use crate::document::Document;
use crate::model::Fields;

verus! {

/// Settings that are kept beside the base configuration and that no step of
/// a run reads.
#[derive(Debug)]
pub struct IMoon(pub Document);

impl IMoon {
    /// No settings.
    pub fn new() -> (r: IMoon)
        ensures
            r.0@ == Fields::empty(),
            r.0.wf(),
    {
        IMoon(Document::new())
    }
}

} // verus!
