use vstd::prelude::*;

use crate::errors::ProfileError;

verus! {

/// Longest name or bio, in bytes, that an update accepts.
pub const MAX_TEXT_LEN: usize = 50;

/// One identity's profile record.
#[derive(Debug, Clone, PartialEq, Eq)]
pub struct UserData {
    pub name: String,
    pub bio: String,
    pub age: i8,
}

/// The mathematical content of a record: both texts as character sequences
/// and the age as an unbounded integer.
#[verifier::ext_equal]
pub struct UserDataView {
    pub name: Seq<char>,
    pub bio: Seq<char>,
    pub age: int,
}

impl View for UserData {
    type V = UserDataView;

    open spec fn view(&self) -> UserDataView {
        UserDataView { name: self.name@, bio: self.bio@, age: self.age as int }
    }
}

/// Byte length of a text value, the length that `str::len` reports.
pub open spec fn text_bytes(s: Seq<char>) -> nat {
    vstd::utf8::encode_utf8(s).len()
}

/// The check an update applies to a supplied name, and the error it raises.
/// Emptiness is tested before the length cap.
pub open spec fn name_error(s: Seq<char>) -> Option<ProfileError> {
    if s.len() == 0 {
        Some(ProfileError::EmptyName)
    } else if text_bytes(s) > MAX_TEXT_LEN {
        Some(ProfileError::NameTooLong)
    } else {
        None
    }
}

/// The check an update applies to a supplied bio, and the error it raises.
pub open spec fn bio_error(s: Seq<char>) -> Option<ProfileError> {
    if s.len() == 0 {
        Some(ProfileError::EmptyBio)
    } else if text_bytes(s) > MAX_TEXT_LEN {
        Some(ProfileError::BioTooLong)
    } else {
        None
    }
}

/// The check every write applies to a supplied age: it must be strictly
/// greater than 18.
pub open spec fn age_error(a: int) -> Option<ProfileError> {
    if a <= 18 {
        Some(ProfileError::InvalidAge)
    } else {
        None
    }
}

/// The constraints creation demands of a record, and the invariant of every
/// record the store holds: non-empty name and bio, age strictly over 18.
/// Creation applies no length cap; only updates do.
pub open spec fn valid_record(d: UserDataView) -> bool {
    d.age > 18 && d.name.len() > 0 && d.bio.len() > 0
}

} // verus!
