use vstd::prelude::*;

verus! {

/// Why an inbound `(email, name)` pair was rejected before any storage write.
/// Always client-caused; surfaced as a field-level client error.
#[derive(Clone, Copy, Debug, PartialEq, Eq, Structural)]
pub enum ValidationError {
    /// The email address does not satisfy email-address syntax.
    InvalidEmail,
    /// The display name exceeds 256 user-perceived characters.
    NameTooLong,
    /// The display name is empty after trimming.
    NameEmpty,
    /// The display name contains a character from the forbidden set.
    NameForbiddenCharacter,
}

impl ValidationError {
    /// The name of the offending field.
    pub fn field(&self) -> (r: &'static str)
        ensures
            *self == ValidationError::InvalidEmail ==> r@ == "email"@,
            *self != ValidationError::InvalidEmail ==> r@ == "name"@,
    {
        match self {
            ValidationError::InvalidEmail => "email",
            _ => "name",
        }
    }

    /// The rule the offending field violates.
    pub fn rule(&self) -> (r: &'static str)
        ensures
            *self == ValidationError::InvalidEmail ==> r@ == "not a valid email address"@,
            *self == ValidationError::NameTooLong ==> r@ == "name length exceeds 256 characters"@,
            *self == ValidationError::NameEmpty ==> r@ == "name is empty"@,
            *self == ValidationError::NameForbiddenCharacter ==> r@
                == "name contains forbidden character(s)"@,
    {
        match self {
            ValidationError::InvalidEmail => "not a valid email address",
            ValidationError::NameTooLong => "name length exceeds 256 characters",
            ValidationError::NameEmpty => "name is empty",
            ValidationError::NameForbiddenCharacter => "name contains forbidden character(s)",
        }
    }
}

/// A transaction, connectivity or constraint failure at the storage boundary.
/// Caller-opaque: surfaced as a server-class outcome, never with detail.
#[derive(Clone, Copy, Debug, PartialEq, Eq, Structural)]
pub struct StorageError;

} // verus!
