//! Validator indices and the table that maps them to public identities.

use vstd::prelude::*;

verus! {

/// The index of a validator in the table of all validators.
#[derive(Clone, Copy, Debug, PartialEq, Eq, PartialOrd, Ord, Hash)]
pub struct ValidatorIndex(pub u32);

/// The table of validators: the public identity of each, by index.
#[derive(Clone, Debug, PartialEq, Eq)]
pub struct Validators<VID> {
    ids: Vec<VID>,
}

impl<VID> View for Validators<VID> {
    type V = Seq<VID>;

    /// The identities, in index order.
    closed spec fn view(&self) -> Seq<VID> {
        self.ids@
    }
}

impl<VID> Validators<VID> {
    /// The identity registered under `idx`, if there is one.
    pub open spec fn id_spec(&self, idx: ValidatorIndex) -> Option<VID> {
        if idx.0 < self@.len() {
            Some(self@[idx.0 as int])
        } else {
            None
        }
    }

    /// Makes the table in which the validator with index `i` has identity
    /// `ids[i]`.
    pub fn from_ids(ids: Vec<VID>) -> (validators: Self)
        ensures
            validators@ == ids@,
    {
        Validators { ids }
    }

    /// Returns the number of validators.
    pub fn len(&self) -> (len: usize)
        ensures
            len == self@.len(),
    {
        self.ids.len()
    }

    /// Returns the identity of the validator with the given index, or `None`
    /// if no validator has that index.
    pub fn id(&self, idx: ValidatorIndex) -> (id: Option<&VID>)
        ensures
            match id {
                Some(id) => self.id_spec(idx) == Some(*id),
                None => self.id_spec(idx) is None,
            },
    {
        let i: usize = idx.0 as usize;
        if i < self.ids.len() {
            Some(&self.ids[i])
        } else {
            None
        }
    }
}

} // verus!
