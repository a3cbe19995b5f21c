use vstd::prelude::*;

verus! {

/// A value together with a draft of its next state. The draft stays apart
/// from the value until it is applied, and can be discarded without a trace.
#[derive(Debug)]
pub struct Draft<T> {
    committed: T,
    pending: Option<T>,
}

impl<T> Draft<T> {
    /// The value that was applied last.
    pub closed spec fn committed(&self) -> T {
        self.committed
    }

    /// The draft, if there is one.
    pub closed spec fn pending(&self) -> Option<T> {
        self.pending
    }

    /// The draft where there is one, the applied value otherwise.
    pub open spec fn newest(&self) -> T {
        match self.pending() {
            Some(draft) => draft,
            None => self.committed(),
        }
    }

    /// A value without a draft.
    pub fn new(data: T) -> (r: Draft<T>)
        ensures
            r.committed() == data,
            r.pending() is None,
    {
        Draft { committed: data, pending: None }
    }

    /// The value that was applied last.
    pub fn data(&self) -> (r: &T)
        ensures
            *r == self.committed(),
    {
        &self.committed
    }

    /// The applied value, to change it in place. The draft stays.
    pub fn data_mut(&mut self) -> (r: &mut T)
        ensures
            *r == old(self).committed(),
            final(self).committed() == *final(r),
            final(self).pending() == old(self).pending(),
    {
        &mut self.committed
    }

    /// The draft where there is one, the applied value otherwise.
    pub fn latest(&self) -> (r: &T)
        ensures
            *r == self.newest(),
    {
        match &self.pending {
            Some(draft) => draft,
            None => &self.committed,
        }
    }

    /// Whether there is a draft.
    pub fn has_draft(&self) -> (b: bool)
        ensures
            b == self.pending() is Some,
    {
        self.pending.is_some()
    }

    /// Puts `value` in place of the draft. The applied value stays.
    pub fn set_draft(&mut self, value: T)
        ensures
            final(self).pending() == Some(value),
            final(self).committed() == old(self).committed(),
    {
        self.pending = Some(value);
    }

    /// Makes the draft the applied value, in one step, and hands out the
    /// value that it replaces. Without a draft nothing changes.
    pub fn apply(&mut self) -> (previous: Option<T>)
        ensures
            final(self).pending() is None,
            final(self).committed() == old(self).newest(),
            previous == if old(self).pending() is Some {
                Some(old(self).committed())
            } else {
                None
            },
    {
        match self.pending.take() {
            Some(draft) => {
                let mut value = draft;
                core::mem::swap(&mut self.committed, &mut value);
                Some(value)
            },
            None => None,
        }
    }

    /// Drops the draft and hands it out. The applied value stays.
    pub fn discard(&mut self) -> (dropped: Option<T>)
        ensures
            final(self).pending() is None,
            final(self).committed() == old(self).committed(),
            dropped == old(self).pending(),
    {
        self.pending.take()
    }
}

} // verus!
