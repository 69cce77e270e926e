use vstd::prelude::*;

use crate::errors::ProfileError;
use crate::state::{
    age_error, bio_error, name_error, valid_record, UserData, UserDataView, MAX_TEXT_LEN,
};

verus! {

/// The character sequence carried by an optional text argument.
pub open spec fn opt_text(o: Option<String>) -> Option<Seq<char>> {
    match o {
        Some(s) => Some(s@),
        None => None,
    }
}

/// The integer carried by an optional age argument.
pub open spec fn opt_age(o: Option<i8>) -> Option<int> {
    match o {
        Some(a) => Some(a as int),
        None => None,
    }
}

/// The first validation failure of an update, in argument order: the name
/// checks run first, then the bio checks, then the age check. A field that
/// is absent raises nothing.
pub open spec fn first_update_error(
    name: Option<Seq<char>>,
    bio: Option<Seq<char>>,
    age: Option<int>,
) -> Option<ProfileError> {
    let ne = match name {
        Some(n) => name_error(n),
        None => None,
    };
    let be = match bio {
        Some(b) => bio_error(b),
        None => None,
    };
    let ae = match age {
        Some(a) => age_error(a),
        None => None,
    };
    if ne is Some {
        ne
    } else if be is Some {
        be
    } else {
        ae
    }
}

/// What an update returns: its first validation failure, or success.
pub open spec fn update_result(
    name: Option<Seq<char>>,
    bio: Option<Seq<char>>,
    age: Option<int>,
) -> Result<(), ProfileError> {
    match first_update_error(name, bio, age) {
        Some(e) => Err(e),
        None => Ok(()),
    }
}

/// The record after an update writes the fields that are present; absent
/// fields are left as they were.
pub open spec fn apply_update(
    d: UserDataView,
    name: Option<Seq<char>>,
    bio: Option<Seq<char>>,
    age: Option<int>,
) -> UserDataView {
    UserDataView {
        name: match name {
            Some(n) => n,
            None => d.name,
        },
        bio: match bio {
            Some(b) => b,
            None => d.bio,
        },
        age: match age {
            Some(a) => a,
            None => d.age,
        },
    }
}

/// Validates the initial fields of a record: creation succeeds exactly when
/// the age is strictly over 18 and neither name nor bio is empty, and the
/// record is stored with the three fields exactly as given. Any violation is
/// reported as the single error `InvalidData`. Note the asymmetry with the
/// update path: creation applies no length cap to name or bio, so a record
/// can enter the store with texts past the cap that an update would refuse.
pub fn initialize_user(data: UserData) -> (r: Result<UserData, ProfileError>)
    ensures
        r is Ok <==> valid_record(data@),
        r matches Ok(d) ==> d == data,
        r is Err ==> r->Err_0 == ProfileError::InvalidData,
{
    if data.age > 18 && !data.name.as_str().is_empty() && !data.bio.as_str().is_empty() {
        Ok(data)
    } else {
        Err(ProfileError::InvalidData)
    }
}

/// Applies a partial update to the record. Each supplied field is validated
/// in argument order (name, bio, age) and the first failure aborts the whole
/// call before any field is written, so an error leaves the record exactly
/// as it was. On success every supplied field is written and every absent
/// field is untouched; in particular an update that supplies nothing
/// succeeds and changes nothing.
pub fn update_user(
    account: &mut UserData,
    name: Option<String>,
    bio: Option<String>,
    age: Option<i8>,
) -> (r: Result<(), ProfileError>)
    ensures
        r == update_result(opt_text(name), opt_text(bio), opt_age(age)),
        r is Err ==> *final(account) == *old(account),
        r is Ok ==> final(account)@ == apply_update(
            old(account)@,
            opt_text(name),
            opt_text(bio),
            opt_age(age),
        ),
{
    if let Some(name_value) = &name {
        if name_value.as_str().is_empty() {
            return Err(ProfileError::EmptyName);
        }
        if name_value.as_str().as_bytes().len() > MAX_TEXT_LEN {
            return Err(ProfileError::NameTooLong);
        }
    }
    if let Some(bio_value) = &bio {
        if bio_value.as_str().is_empty() {
            return Err(ProfileError::EmptyBio);
        }
        if bio_value.as_str().as_bytes().len() > MAX_TEXT_LEN {
            return Err(ProfileError::BioTooLong);
        }
    }
    if let Some(age_value) = age {
        if age_value <= 18 {
            return Err(ProfileError::InvalidAge);
        }
    }
    if let Some(name_value) = name {
        account.name = name_value;
    }
    if let Some(bio_value) = bio {
        account.bio = bio_value;
    }
    if let Some(age_value) = age {
        account.age = age_value;
    }
    Ok(())
}

/// Gates deletion on the explicit confirmation flag: the caller's opt-in is
/// the one condition, and without it the record must stay. Succeeds exactly
/// when `confirm_deletion` is true; otherwise `FailedToDeleteAccount`.
pub fn delete_user(confirm_deletion: bool) -> (r: Result<(), ProfileError>)
    ensures
        r is Ok <==> confirm_deletion,
        r is Err ==> r->Err_0 == ProfileError::FailedToDeleteAccount,
{
    if confirm_deletion {
        Ok(())
    } else {
        Err(ProfileError::FailedToDeleteAccount)
    }
}

/// An update that supplies no field never fails and leaves any record
/// exactly as it was, whatever the record holds.
pub proof fn lemma_update_absent_fields_is_noop(d: UserDataView)
    ensures
        update_result(None, None, None) is Ok,
        apply_update(d, None, None, None) == d,
{
}

/// An update that supplies only a lawful age keeps the name and the bio
/// as they were and stores exactly the new age.
pub proof fn lemma_update_age_only(d: UserDataView, age: int)
    requires
        18 < age,
    ensures
        update_result(None, None, Some(age)) is Ok,
        apply_update(d, None, None, Some(age)) == (UserDataView { age, ..d }),
{
}

/// An empty name aborts an update before any later field is examined:
/// whatever bio and age were supplied, even lawful ones, the result is
/// `EmptyName` and no field is written.
pub proof fn lemma_empty_name_short_circuits(
    name: Seq<char>,
    bio: Option<Seq<char>>,
    age: Option<int>,
)
    requires
        name.len() == 0,
    ensures
        update_result(Some(name), bio, age) == Err::<(), ProfileError>(ProfileError::EmptyName),
{
}

/// A successful update preserves the record invariant: starting from a
/// record the store may hold, whatever fields the update wrote, the result
/// is again one the store may hold.
pub proof fn lemma_update_preserves_validity(
    d: UserDataView,
    name: Option<Seq<char>>,
    bio: Option<Seq<char>>,
    age: Option<int>,
)
    requires
        valid_record(d),
        first_update_error(name, bio, age) is None,
    ensures
        valid_record(apply_update(d, name, bio, age)),
{
}

} // verus!
