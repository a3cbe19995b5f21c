use vstd::prelude::*;
use crate::document::{Scalar, Value, sequence_view};

verus! {

impl Clone for Scalar {
    fn clone(&self) -> (r: Scalar)
        ensures
            r@ == self@,
    {
        match self {
            Scalar::Null => Scalar::Null,
            Scalar::Bool(b) => Scalar::Bool(*b),
            Scalar::Int(i) => Scalar::Int(*i),
            Scalar::UInt(u) => Scalar::UInt(*u),
            Scalar::Float(bits) => Scalar::Float(*bits),
            Scalar::Str(s) => Scalar::Str(s.clone()),
        }
    }
}

impl Clone for Value {
    /// A deep copy: the same tree, sharing nothing with this one.
    #[verifier::loop_isolation(false)]
    fn clone(&self) -> (r: Value)
        ensures
            r@ == self@,
        decreases self,
    {
        match self {
            Value::Scalar(s) => Value::Scalar(s.clone()),
            Value::Sequence(items) => {
                let mut copy: Vec<Value> = Vec::new();
                let mut i: usize = 0;
                while i < items.len()
                    invariant
                        i <= items.len(),
                        copy.len() == i,
                        forall|j: int| 0 <= j < i ==> (#[trigger] copy[j])@ == items[j]@,
                    decreases items.len() - i,
                {
                    copy.push(items[i].clone());
                    i += 1;
                }
                let r = Value::Sequence(copy);
                assert(sequence_view(copy@) =~= sequence_view(items@));
                r
            },
            Value::Mapping(m) => Value::Mapping(m.clone()),
        }
    }
}

} // verus!
