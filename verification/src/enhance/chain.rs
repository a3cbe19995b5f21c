use vstd::prelude::*;
use crate::document::Document;
use crate::model::{Fields, fields_wf, fields_within};
use crate::validate::MAX_NESTING;

verus! {

/// The two kinds of chain unit.
#[derive(Debug, Clone, Copy, PartialEq, Eq, Structural)]
pub enum ChainKind {
    Merge,
    Script,
}

/// What a chain unit does to a document.
#[derive(Debug)]
pub enum ChainBody {
    /// A patch that is merged over the document.
    Merge(Document),
    /// The source text of a routine that rewrites the document.
    Script(String),
}

/// One named transformation step.
#[derive(Debug)]
pub struct ChainUnit {
    pub name: String,
    pub body: ChainBody,
}

/// What a chain body is: a patch, or the text of a script.
pub enum BodyModel {
    Merge(Fields),
    Script(Seq<char>),
}

/// What a chain unit is: a name and a body.
pub struct UnitModel {
    pub name: Seq<char>,
    pub body: BodyModel,
}

impl View for ChainBody {
    type V = BodyModel;

    open spec fn view(&self) -> BodyModel {
        match self {
            ChainBody::Merge(patch) => BodyModel::Merge(patch@),
            ChainBody::Script(source) => BodyModel::Script(source@),
        }
    }
}

impl View for ChainUnit {
    type V = UnitModel;

    open spec fn view(&self) -> UnitModel {
        UnitModel { name: self.name@, body: self.body@ }
    }
}

/// A document is valid where no mapping in it holds a key twice and it nests
/// no deeper than the limit.
pub open spec fn document_valid(m: Fields) -> bool {
    fields_wf(m) && fields_within(m, MAX_NESTING as nat)
}

/// A unit can be loaded where its patch, if it has one, is a valid document.
pub open spec fn unit_loadable(unit: UnitModel) -> bool {
    unit.body matches BodyModel::Merge(patch) ==> document_valid(patch)
}

/// Some unit among `units` goes by `name`.
pub open spec fn has_name(units: Seq<UnitModel>, name: Seq<char>) -> bool {
    exists|i: int| 0 <= i < units.len() && (#[trigger] units[i]).name == name
}

/// No two units share a name, and every unit can be loaded.
pub open spec fn units_wf(units: Seq<UnitModel>) -> bool {
    &&& forall|i: int, j: int|
        0 <= i < j < units.len() ==> (#[trigger] units[i]).name != (#[trigger] units[j]).name
    &&& forall|i: int| 0 <= i < units.len() ==> unit_loadable(#[trigger] units[i])
}

/// Why a unit was kept out of a registry.
#[derive(Debug, Clone, Copy, PartialEq, Eq, Structural)]
pub enum RegistryError {
    /// A unit of that name is in the registry already.
    DuplicateName,
    /// The patch of a merge unit is no valid document.
    MalformedPatch,
}

impl ChainUnit {
    /// The kind of this unit.
    pub fn kind(&self) -> (k: ChainKind)
        ensures
            k == match self@.body {
                BodyModel::Merge(_) => ChainKind::Merge,
                BodyModel::Script(_) => ChainKind::Script,
            },
    {
        match &self.body {
            ChainBody::Merge(_) => ChainKind::Merge,
            ChainBody::Script(_) => ChainKind::Script,
        }
    }
}

/// The chain units of one run, in the order in which they apply.
#[derive(Debug)]
pub struct ChainRegistry {
    units: Vec<ChainUnit>,
}

impl View for ChainRegistry {
    type V = Seq<UnitModel>;

    closed spec fn view(&self) -> Seq<UnitModel> {
        self.units@.map_values(|unit: ChainUnit| unit@)
    }
}

impl ChainRegistry {
    /// No two units of this registry share a name, and every merge patch in
    /// it is a valid document. Every registry that `new` and `push` give is
    /// of this kind.
    pub open spec fn wf(&self) -> bool {
        units_wf(self@)
    }

    /// The registry without units.
    pub fn new() -> (r: ChainRegistry)
        ensures
            r@ == Seq::<UnitModel>::empty(),
            r.wf(),
    {
        let r = ChainRegistry { units: Vec::new() };
        r
    }

    /// The number of units.
    pub fn len(&self) -> (n: usize)
        ensures
            n == self@.len(),
    {
        self.units.len()
    }

    /// The unit at `index`.
    pub fn unit_at(&self, index: usize) -> (unit: &ChainUnit)
        requires
            index < self@.len(),
        ensures
            unit@ == self@[index as int],
    {
        &self.units[index]
    }

    /// Whether a unit of this registry goes by `name`.
    pub fn contains_name(&self, name: &str) -> (b: bool)
        ensures
            b == has_name(self@, name@),
    {
        let owned = name.to_owned();
        let mut i: usize = 0;
        while i < self.units.len()
            invariant
                i <= self.units.len(),
                owned@ == name@,
                forall|j: int| 0 <= j < i ==> (#[trigger] self@[j]).name != name@,
            decreases self.units.len() - i,
        {
            if self.units[i].name == owned {
                assert(self@[i as int].name == name@);
                return true;
            }
            i += 1;
        }
        false
    }

    /// Adds `unit` behind the units that are there. A unit whose name is
    /// taken, and a merge unit whose patch is no valid document, is refused
    /// and leaves the registry as it was.
    pub fn push(&mut self, unit: ChainUnit) -> (r: Result<(), RegistryError>)
        ensures
            r == if has_name(old(self)@, unit@.name) {
                Err::<(), RegistryError>(RegistryError::DuplicateName)
            } else if !unit_loadable(unit@) {
                Err(RegistryError::MalformedPatch)
            } else {
                Ok(())
            },
            r is Ok ==> final(self)@ == old(self)@.push(unit@),
            r is Err ==> final(self)@ == old(self)@,
            old(self).wf() ==> final(self).wf(),
    {
        if self.contains_name(unit.name.as_str()) {
            return Err(RegistryError::DuplicateName);
        }
        let loadable = match &unit.body {
            ChainBody::Merge(patch) => patch.is_valid(MAX_NESTING),
            ChainBody::Script(_) => true,
        };
        if !loadable {
            return Err(RegistryError::MalformedPatch);
        }
        self.units.push(unit);
        Ok(())
    }
}

} // verus!
