use vstd::prelude::*;

verus! {

/// Why a raw value was refused by one of the validators.
#[derive(Debug, Clone, Copy, PartialEq, Eq, Structural)]
pub enum ValidationError {
    /// The name is empty, or made of whitespace only.
    EmptyOrWhitespace,
    /// The name has more grapheme clusters than allowed.
    TooLong,
    /// The name holds one of the characters that are never accepted.
    ForbiddenCharacter,
    /// The email address does not follow the address grammar.
    InvalidFormat,
}

impl ValidationError {
    pub open spec fn message_spec(self) -> Seq<char> {
        match self {
            ValidationError::EmptyOrWhitespace => "name is empty or whitespace"@,
            ValidationError::TooLong => "name is too long"@,
            ValidationError::ForbiddenCharacter => "name contains a forbidden character"@,
            ValidationError::InvalidFormat => "email is not a valid address"@,
        }
    }

    /// A short text that says what was wrong with the submission.
    pub fn message(&self) -> (r: String)
        ensures
            r@ == self.message_spec(),
    {
        match self {
            ValidationError::EmptyOrWhitespace => String::from_str("name is empty or whitespace"),
            ValidationError::TooLong => String::from_str("name is too long"),
            ValidationError::ForbiddenCharacter => String::from_str(
                "name contains a forbidden character",
            ),
            ValidationError::InvalidFormat => String::from_str("email is not a valid address"),
        }
    }
}

} // verus!
