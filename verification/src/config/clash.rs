use vstd::prelude::*;
use crate::document::Document;
use crate::model::Fields;

verus! {

/// The base configuration that every run starts from.
#[derive(Debug)]
pub struct IClashTemp(pub Document);

impl IClashTemp {
    /// The empty base configuration.
    pub fn new() -> (r: IClashTemp)
        ensures
            r.0@ == Fields::empty(),
            r.0.wf(),
    {
        IClashTemp(Document::new())
    }
}

} // verus!
