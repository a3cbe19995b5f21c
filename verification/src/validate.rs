use vstd::prelude::*;
use crate::document::{Document, Value, sequence_view};
use crate::model::{fields_wf, fields_within, node_wf, node_within, unique_keys};

verus! {

/// The deepest nesting of sequences and mappings that a document may have.
pub const MAX_NESTING: usize = 128;

impl Value {
    /// Whether every mapping in this value has unique keys and nothing in it
    /// nests deeper than `depth` levels.
    #[verifier::loop_isolation(false)]
    pub fn is_valid(&self, depth: usize) -> (b: bool)
        ensures
            b == (node_wf(self@) && node_within(self@, depth as nat)),
        decreases self@,
    {
        match self {
            Value::Scalar(_) => true,
            Value::Sequence(items) => {
                if depth == 0 {
                    return false;
                }
                let ghost nodes = self@->Sequence_0;
                assert(nodes == sequence_view(items@));
                let mut i: usize = 0;
                while i < items.len()
                    invariant
                        i <= items.len(),
                        forall|j: int|
                            0 <= j < i ==> node_wf(#[trigger] nodes[j]) && node_within(
                                nodes[j],
                                (depth - 1) as nat,
                            ),
                    decreases items.len() - i,
                {
                    assert(decreases_to!(nodes => nodes[i as int]));
                    if !items[i].is_valid(depth - 1) {
                        assert(!node_wf(nodes[i as int]) || !node_within(
                            nodes[i as int],
                            (depth - 1) as nat,
                        ));
                        return false;
                    }
                    i += 1;
                }
                true
            },
            Value::Mapping(m) => {
                assert(self@->Mapping_0 == m@);
                m.is_valid(depth)
            },
        }
    }
}

impl Document {
    /// Whether no key occurs twice among the entries of this mapping itself.
    pub fn has_unique_keys(&self) -> (b: bool)
        ensures
            b == unique_keys(self@),
    {
        let mut j: usize = 0;
        while j < self.len()
            invariant
                j <= self@.len(),
                forall|a: int, b: int|
                    0 <= a < b < j ==> (#[trigger] self@[a]).0 != (#[trigger] self@[b]).0,
            decreases self@.len() - j,
        {
            let mut i: usize = 0;
            while i < j
                invariant
                    i <= j < self@.len(),
                    forall|a: int| 0 <= a < i ==> (#[trigger] self@[a]).0 != self@[j as int].0,
                decreases j - i,
            {
                if *self.key_at(i) == *self.key_at(j) {
                    return false;
                }
                i += 1;
            }
            j += 1;
        }
        true
    }

    /// Whether this mapping is a valid document: no key occurs twice in it or
    /// in any mapping nested in it, and it nests at most `depth` levels deep,
    /// itself counted.
    pub fn is_valid(&self, depth: usize) -> (b: bool)
        ensures
            b == (fields_wf(self@) && fields_within(self@, depth as nat)),
        decreases self@,
    {
        if depth == 0 {
            return false;
        }
        if !self.has_unique_keys() {
            return false;
        }
        let mut i: usize = 0;
        while i < self.len()
            invariant
                i <= self@.len(),
                depth > 0,
                forall|j: int|
                    0 <= j < i ==> node_wf((#[trigger] self@[j]).1) && node_within(
                        self@[j].1,
                        (depth - 1) as nat,
                    ),
            decreases self@.len() - i,
        {
            if !self.value_at(i).is_valid(depth - 1) {
                return false;
            }
            i += 1;
        }
        true
    }
}

} // verus!
