use vstd::prelude::*;
use crate::enhance::chain::ChainKind;

verus! {

/// One entry of the profile store: the name of a chain unit and its kind.
#[derive(Debug, PartialEq, Eq)]
pub struct PrfItem {
    pub uid: String,
    pub itype: ChainKind,
}

/// What an entry of the profile store is.
pub struct ItemModel {
    pub uid: Seq<char>,
    pub itype: ChainKind,
}

impl View for PrfItem {
    type V = ItemModel;

    open spec fn view(&self) -> ItemModel {
        ItemModel { uid: self.uid@, itype: self.itype }
    }
}

impl PrfItem {
    /// The entry of a merge unit.
    pub fn from_merge(uid: String) -> (r: PrfItem)
        ensures
            r@ == (ItemModel { uid: uid@, itype: ChainKind::Merge }),
    {
        PrfItem { uid, itype: ChainKind::Merge }
    }

    /// The entry of a script unit.
    pub fn from_script(uid: String) -> (r: PrfItem)
        ensures
            r@ == (ItemModel { uid: uid@, itype: ChainKind::Script }),
    {
        PrfItem { uid, itype: ChainKind::Script }
    }
}

/// Some entry among `items` goes by `uid`.
pub open spec fn has_uid(items: Seq<ItemModel>, uid: Seq<char>) -> bool {
    exists|i: int| 0 <= i < items.len() && (#[trigger] items[i]).uid == uid
}

/// The index of the first entry that goes by `uid`, if there is one.
pub open spec fn first_uid(items: Seq<ItemModel>, uid: Seq<char>, i: int) -> bool {
    &&& 0 <= i < items.len()
    &&& items[i].uid == uid
    &&& forall|j: int| 0 <= j < i ==> (#[trigger] items[j]).uid != uid
}

/// The profile store: the entries from which the chain units are loaded.
#[derive(Debug)]
pub struct IProfiles {
    items: Vec<PrfItem>,
}

impl View for IProfiles {
    type V = Seq<ItemModel>;

    closed spec fn view(&self) -> Seq<ItemModel> {
        self.items@.map_values(|item: PrfItem| item@)
    }
}

impl IProfiles {
    /// The store without entries.
    pub fn new() -> (r: IProfiles)
        ensures
            r@ == Seq::<ItemModel>::empty(),
    {
        let r = IProfiles { items: Vec::new() };
        r
    }

    /// The number of entries.
    pub fn len(&self) -> (n: usize)
        ensures
            n == self@.len(),
    {
        self.items.len()
    }

    /// The entry at `index`.
    pub fn item_at(&self, index: usize) -> (item: &PrfItem)
        requires
            index < self@.len(),
        ensures
            item@ == self@[index as int],
    {
        &self.items[index]
    }

    /// The first entry that goes by `uid`, if there is one.
    pub fn get_item(&self, uid: &str) -> (r: Option<&PrfItem>)
        ensures
            r is Some == has_uid(self@, uid@),
            r matches Some(item) ==> exists|i: int| first_uid(self@, uid@, i) && self@[i] == item@,
    {
        let owned = uid.to_owned();
        let mut i: usize = 0;
        while i < self.items.len()
            invariant
                i <= self.items.len(),
                owned@ == uid@,
                forall|j: int| 0 <= j < i ==> (#[trigger] self@[j]).uid != uid@,
            decreases self.items.len() - i,
        {
            if self.items[i].uid == owned {
                assert(first_uid(self@, uid@, i as int));
                return Some(&self.items[i]);
            }
            i += 1;
        }
        None
    }

    /// Adds `item` behind the entries that are there.
    pub fn append_item(&mut self, item: PrfItem)
        ensures
            final(self)@ == old(self)@.push(item@),
    {
        self.items.push(item);
    }
}

} // verus!
