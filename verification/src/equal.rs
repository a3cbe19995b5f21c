use vstd::prelude::*;
use vstd::std_specs::cmp::PartialEqSpecImpl;
use crate::document::{Document, Scalar, Value, sequence_view};

verus! {

impl Scalar {
    /// Whether two scalars are the same: of one kind and of one content.
    pub fn same(&self, other: &Scalar) -> (b: bool)
        ensures
            b == (self@ == other@),
    {
        match (self, other) {
            (Scalar::Null, Scalar::Null) => true,
            (Scalar::Bool(a), Scalar::Bool(b)) => *a == *b,
            (Scalar::Int(a), Scalar::Int(b)) => *a == *b,
            (Scalar::UInt(a), Scalar::UInt(b)) => *a == *b,
            (Scalar::Float(a), Scalar::Float(b)) => *a == *b,
            (Scalar::Str(a), Scalar::Str(b)) => *a == *b,
            _ => false,
        }
    }
}

impl Value {
    /// Whether two values are the same tree: the same scalars, the same items
    /// in the same order, the same entries in the same order.
    #[verifier::loop_isolation(false)]
    pub fn same(&self, other: &Value) -> (b: bool)
        ensures
            b == (self@ == other@),
        decreases self,
    {
        match (self, other) {
            (Value::Scalar(a), Value::Scalar(b)) => a.same(b),
            (Value::Sequence(a), Value::Sequence(b)) => {
                if a.len() != b.len() {
                    assert(sequence_view(a@).len() != sequence_view(b@).len());
                    return false;
                }
                let mut i: usize = 0;
                while i < a.len()
                    invariant
                        i <= a.len(),
                        a.len() == b.len(),
                        forall|j: int| 0 <= j < i ==> (#[trigger] a[j])@ == b[j]@,
                    decreases a.len() - i,
                {
                    if !a[i].same(&b[i]) {
                        assert(sequence_view(a@)[i as int] != sequence_view(b@)[i as int]);
                        return false;
                    }
                    i += 1;
                }
                assert(sequence_view(a@) =~= sequence_view(b@));
                true
            },
            (Value::Mapping(a), Value::Mapping(b)) => a.same(b),
            _ => false,
        }
    }
}

impl PartialEq for Scalar {
    fn eq(&self, other: &Scalar) -> (b: bool) {
        self.same(other)
    }
}

impl PartialEqSpecImpl for Scalar {
    open spec fn obeys_eq_spec() -> bool {
        true
    }

    open spec fn eq_spec(&self, other: &Scalar) -> bool {
        self@ == other@
    }
}

impl PartialEq for Value {
    fn eq(&self, other: &Value) -> (b: bool) {
        self.same(other)
    }
}

impl PartialEqSpecImpl for Value {
    open spec fn obeys_eq_spec() -> bool {
        true
    }

    open spec fn eq_spec(&self, other: &Value) -> bool {
        self@ == other@
    }
}

impl PartialEq for Document {
    fn eq(&self, other: &Document) -> (b: bool) {
        self.same(other)
    }
}

impl PartialEqSpecImpl for Document {
    open spec fn obeys_eq_spec() -> bool {
        true
    }

    open spec fn eq_spec(&self, other: &Document) -> bool {
        self@ == other@
    }
}

} // verus!
