use vstd::prelude::*;
use crate::model::{
    Atom, Fields, Node, fields_wf, first_at, has_key, lemma_position_is, lemma_with_entry_wf,
    lookup, node_wf, with_entry,
};

verus! {

/// A scalar leaf of a document.
#[derive(Debug)]
pub enum Scalar {
    Null,
    Bool(bool),
    Int(i64),
    UInt(u64),
    /// A floating-point number, held as its IEEE-754 bit pattern.
    Float(u64),
    Str(String),
}

/// A node of a document: a scalar, an ordered sequence, or a nested mapping.
#[derive(Debug)]
pub enum Value {
    Scalar(Scalar),
    Sequence(Vec<Value>),
    Mapping(Document),
}

/// One key of a mapping together with its value.
#[derive(Debug)]
pub struct Entry {
    pub key: String,
    pub value: Value,
}

/// A structured document: a mapping from string keys to values that keeps
/// the order in which the keys came.
#[derive(Debug)]
pub struct Document {
    entries: Vec<Entry>,
}

impl View for Scalar {
    type V = Atom;

    open spec fn view(&self) -> Atom {
        match self {
            Scalar::Null => Atom::Null,
            Scalar::Bool(b) => Atom::Bool(*b),
            Scalar::Int(i) => Atom::Int(*i),
            Scalar::UInt(u) => Atom::UInt(*u),
            Scalar::Float(bits) => Atom::Float(*bits),
            Scalar::Str(s) => Atom::Str(s@),
        }
    }
}

impl View for Value {
    type V = Node;

    open spec fn view(&self) -> Node
        decreases self,
    {
        match self {
            Value::Scalar(s) => Node::Scalar(s@),
            Value::Sequence(items) => Node::Sequence(sequence_view(items@)),
            Value::Mapping(m) => Node::Mapping(m@),
        }
    }
}

/// The nodes that the items of a sequence stand for, in order.
pub open spec fn sequence_view(items: Seq<Value>) -> Seq<Node>
    decreases items,
{
    // Every index that is asked for lies in range; the other branch is there
    // for the sake of termination alone.
    Seq::new(
        items.len(),
        |i: int|
            if 0 <= i < items.len() {
                items[i]@
            } else {
                Node::Scalar(Atom::Null)
            },
    )
}

/// What the entries of a list stand for, in order.
pub open spec fn entries_view(entries: Seq<Entry>) -> Fields
    decreases entries,
{
    Seq::new(
        entries.len(),
        |i: int|
            if 0 <= i < entries.len() {
                entries[i]@
            } else {
                (Seq::empty(), Node::Scalar(Atom::Null))
            },
    )
}

impl View for Entry {
    type V = (Seq<char>, Node);

    open spec fn view(&self) -> (Seq<char>, Node)
        decreases self,
    {
        (self.key@, self.value@)
    }
}

impl View for Document {
    type V = Fields;

    closed spec fn view(&self) -> Fields
        decreases self,
    {
        entries_view(self.entries@)
    }
}

impl Value {
    /// Every mapping inside this value has unique keys.
    pub open spec fn wf(&self) -> bool {
        node_wf(self@)
    }

    /// The mapping that this value is, if it is one.
    pub fn as_mapping(&self) -> (r: Option<&Document>)
        ensures
            match r {
                Some(m) => self@ == Node::Mapping(m@),
                None => !(self@ is Mapping),
            },
    {
        match self {
            Value::Mapping(m) => Some(m),
            _ => None,
        }
    }
}

impl Document {
    /// No key occurs twice in this document, nor in any mapping nested in it.
    pub open spec fn wf(&self) -> bool {
        fields_wf(self@)
    }

    /// The empty document.
    pub fn new() -> (r: Document)
        ensures
            r@ == Fields::empty(),
            r.wf(),
    {
        Document { entries: Vec::new() }
    }

    /// The document with the given entries, in their order. Nothing is
    /// checked: where a key occurs twice the result is not well formed.
    pub fn from_entries(entries: Vec<Entry>) -> (r: Document)
        ensures
            r@ == entries_view(entries@),
    {
        Document { entries }
    }

    /// The number of entries.
    pub fn len(&self) -> (n: usize)
        ensures
            n == self@.len(),
    {
        self.entries.len()
    }

    /// The index of the first entry under `key`, or the number of entries
    /// where there is none.
    fn find(&self, key: &String) -> (i: usize)
        ensures
            i <= self@.len(),
            i < self@.len() ==> first_at(self@, key@, i as int),
            i == self@.len() ==> !has_key(self@, key@),
    {
        let mut i: usize = 0;
        while i < self.entries.len()
            invariant
                i <= self.entries.len(),
                forall|j: int| 0 <= j < i ==> (#[trigger] self@[j]).0 != key@,
            decreases self.entries.len() - i,
        {
            if self.entries[i].key == *key {
                return i;
            }
            i += 1;
        }
        i
    }

    /// Whether some entry stands under `key`.
    pub fn contains_key(&self, key: &str) -> (b: bool)
        ensures
            b == has_key(self@, key@),
    {
        let owned = key.to_owned();
        let i: usize = self.find(&owned);
        i < self.entries.len()
    }

    /// The value under `key`, if there is one.
    pub fn get(&self, key: &str) -> (r: Option<&Value>)
        ensures
            match r {
                Some(v) => lookup(self@, key@) == Some(v@),
                None => lookup(self@, key@) is None,
            },
    {
        let owned = key.to_owned();
        let i: usize = self.find(&owned);
        if i < self.entries.len() {
            proof {
                lemma_position_is(self@, key@, i as int);
            }
            Some(&self.entries[i].value)
        } else {
            None
        }
    }

    /// Sets `key` to `value`: an entry under `key` keeps its place and takes
    /// the new value, a new key is added at the end.
    pub fn set(&mut self, key: String, value: Value)
        ensures
            final(self)@ == with_entry(old(self)@, key@, value@),
            old(self).wf() && value.wf() ==> final(self).wf(),
    {
        proof {
            if self.wf() && value.wf() {
                lemma_with_entry_wf(self@, key@, value@);
            }
        }
        let i: usize = self.find(&key);
        if i < self.entries.len() {
            proof {
                lemma_position_is(self@, key@, i as int);
            }
            self.entries.set(i, Entry { key, value });
            assert(self@ =~= with_entry(old(self)@, key@, value@));
        } else {
            self.entries.push(Entry { key, value });
            assert(self@ =~= with_entry(old(self)@, key@, value@));
        }
    }

    /// The key of the entry at `index`.
    pub fn key_at(&self, index: usize) -> (k: &String)
        requires
            index < self@.len(),
        ensures
            k@ == self@[index as int].0,
    {
        &self.entries[index].key
    }

    /// The value of the entry at `index`.
    pub fn value_at(&self, index: usize) -> (v: &Value)
        requires
            index < self@.len(),
        ensures
            v@ == self@[index as int].1,
    {
        &self.entries[index].value
    }
}

impl Clone for Entry {
    fn clone(&self) -> (r: Entry)
        ensures
            r@ == self@,
        decreases self,
    {
        Entry { key: self.key.clone(), value: self.value.clone() }
    }
}

impl Clone for Document {
    /// A deep copy: the same entries in the same order.
    fn clone(&self) -> (r: Document)
        ensures
            r@ == self@,
        decreases self,
    {
        let mut copy: Vec<Entry> = Vec::new();
        let mut i: usize = 0;
        while i < self.entries.len()
            invariant
                i <= self.entries.len(),
                copy.len() == i,
                forall|j: int| 0 <= j < i ==> (#[trigger] copy[j])@ == self.entries[j]@,
            decreases self.entries.len() - i,
        {
            copy.push(self.entries[i].clone());
            i += 1;
        }
        let r = Document { entries: copy };
        r
    }
}

impl Document {
    /// Whether two documents hold the same keys with the same values, in the
    /// same order.
    pub fn same(&self, other: &Document) -> (b: bool)
        ensures
            b == (self@ == other@),
        decreases self,
    {
        if self.entries.len() != other.entries.len() {
            assert(self@.len() != other@.len());
            return false;
        }
        let mut i: usize = 0;
        while i < self.entries.len()
            invariant
                i <= self.entries.len(),
                self.entries.len() == other.entries.len(),
                forall|j: int| 0 <= j < i ==> (#[trigger] self@[j]) == other@[j],
            decreases self.entries.len() - i,
        {
            if !(self.entries[i].key == other.entries[i].key) {
                assert(self@[i as int] != other@[i as int]);
                return false;
            }
            if !self.entries[i].value.same(&other.entries[i].value) {
                assert(self@[i as int] != other@[i as int]);
                return false;
            }
            i += 1;
        }
        assert(self@ =~= other@);
        true
    }
}

} // verus!
