use vstd::prelude::*;

use crate::errors::ProfileError;
use crate::instructions::{
    apply_update, delete_user, initialize_user, opt_age, opt_text, update_result, update_user,
};
use crate::state::{valid_record, UserData, UserDataView};

verus! {

/// The store slot that holds one identity's record. A slot is absent until
/// the record is created, stays active through any number of updates, and
/// becomes absent again only through a confirmed deletion. The surrounding
/// runtime resolves the caller's identity to its slot and persists it; this
/// type carries the lifecycle rules themselves.
pub struct UserAccount {
    record: Option<UserData>,
}

impl View for UserAccount {
    type V = Option<UserDataView>;

    closed spec fn view(&self) -> Option<UserDataView> {
        match self.record {
            Some(d) => Some(d@),
            None => None,
        }
    }
}

impl UserAccount {
    /// The store invariant: whatever record the slot holds satisfies the
    /// record constraints — non-empty name and bio, age strictly over 18.
    pub open spec fn inv(&self) -> bool {
        self@ matches Some(d) ==> valid_record(d)
    }

    /// An absent slot, before any record was created.
    pub fn new() -> (a: UserAccount)
        ensures
            a@ is None,
    {
        UserAccount { record: None }
    }

    /// Whether a record currently exists in the slot.
    pub fn has_record(&self) -> (b: bool)
        ensures
            b == (self@ is Some),
    {
        self.record.is_some()
    }

    /// The stored record, if any.
    pub fn get(&self) -> (r: Option<&UserData>)
        ensures
            match r {
                Some(d) => self@ == Some(d@),
                None => self@ is None,
            },
    {
        self.record.as_ref()
    }

    /// Creates the record for this slot's identity. The slot must be
    /// absent: a second creation over an existing record is refused by the
    /// surrounding runtime's allocation, not here. Succeeds exactly when
    /// the initial fields are lawful, and then stores them exactly as
    /// given; otherwise the slot stays absent and the error is
    /// `InvalidData`.
    pub fn create(&mut self, data: UserData) -> (r: Result<(), ProfileError>)
        requires
            old(self)@ is None,
        ensures
            r is Ok <==> valid_record(data@),
            r is Ok ==> final(self)@ == Some(data@),
            r is Err ==> r->Err_0 == ProfileError::InvalidData && final(self)@ is None,
            final(self).inv(),
    {
        match initialize_user(data) {
            Ok(d) => {
                self.record = Some(d);
                Ok(())
            },
            Err(e) => Err(e),
        }
    }

    /// Applies a partial update to the stored record. The result is the
    /// first validation failure in field order, or success; an error leaves
    /// the record exactly as it was, and success writes exactly the
    /// supplied fields. The record invariant is preserved either way.
    pub fn update(
        &mut self,
        name: Option<String>,
        bio: Option<String>,
        age: Option<i8>,
    ) -> (r: Result<(), ProfileError>)
        requires
            old(self)@ is Some,
            old(self).inv(),
        ensures
            r == update_result(opt_text(name), opt_text(bio), opt_age(age)),
            r is Err ==> final(self)@ == old(self)@,
            r is Ok ==> final(self)@ == Some(
                apply_update(old(self)@->0, opt_text(name), opt_text(bio), opt_age(age)),
            ),
            final(self).inv(),
    {
        match &mut self.record {
            Some(d) => update_user(d, name, bio, age),
            // Unreachable: the precondition says a record exists.
            None => Err(ProfileError::InvalidData),
        }
    }

    /// Removes the record when the caller has confirmed the deletion;
    /// refuses with `FailedToDeleteAccount` otherwise, leaving the record
    /// exactly as it was. Deletion is terminal: on success the slot is
    /// absent and a later lookup finds nothing.
    pub fn delete(&mut self, confirm_deletion: bool) -> (r: Result<(), ProfileError>)
        requires
            old(self)@ is Some,
        ensures
            r is Ok <==> confirm_deletion,
            r is Ok ==> final(self)@ is None,
            r is Err ==> r->Err_0 == ProfileError::FailedToDeleteAccount
                && final(self)@ == old(self)@,
            old(self).inv() ==> final(self).inv(),
    {
        match delete_user(confirm_deletion) {
            Ok(()) => {
                self.record = None;
                Ok(())
            },
            Err(e) => Err(e),
        }
    }
}

} // verus!
