use vstd::prelude::*;

verus! {

/// The closed set of failures the profile operations can raise. Every error
/// is returned synchronously to the caller and leaves the stored record
/// untouched; there is no retry or recovery beyond reporting the kind.
#[derive(Clone, Copy, Debug, PartialEq, Eq, Structural)]
pub enum ProfileError {
    /// An age was supplied that is not strictly greater than 18.
    InvalidAge,
    /// Creation was attempted with an age of 18 or less, an empty name, or
    /// an empty bio.
    InvalidData,
    /// An update supplied an empty name.
    EmptyName,
    /// An update supplied an empty bio.
    EmptyBio,
    /// Deletion was attempted without the explicit confirmation flag.
    FailedToDeleteAccount,
    /// An update supplied a name longer than the length cap.
    NameTooLong,
    /// An update supplied a bio longer than the length cap.
    BioTooLong,
}

impl ProfileError {
    /// The fixed, human-readable message attached to each error kind.
    pub open spec fn spec_message(self) -> Seq<char> {
        match self {
            ProfileError::InvalidAge => "Age must be over 18"@,
            ProfileError::InvalidData => "Invalid data: age must be over 18 and name/bio cannot be empty"@,
            ProfileError::EmptyName => "Name must not be empty"@,
            ProfileError::EmptyBio => "Bio must not be empty"@,
            ProfileError::FailedToDeleteAccount => "Failed to delete user account"@,
            ProfileError::NameTooLong => "The provided name is too long"@,
            ProfileError::BioTooLong => "The provided bio is too long"@,
        }
    }

    /// Returns the message for this error kind.
    pub fn message(&self) -> (m: &'static str)
        ensures
            m@ == self.spec_message(),
    {
        match self {
            ProfileError::InvalidAge => "Age must be over 18",
            ProfileError::InvalidData => "Invalid data: age must be over 18 and name/bio cannot be empty",
            ProfileError::EmptyName => "Name must not be empty",
            ProfileError::EmptyBio => "Bio must not be empty",
            ProfileError::FailedToDeleteAccount => "Failed to delete user account",
            ProfileError::NameTooLong => "The provided name is too long",
            ProfileError::BioTooLong => "The provided bio is too long",
        }
    }
}

} // verus!
