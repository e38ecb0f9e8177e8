use vstd::prelude::*;

verus! {

/// Why an operation on the blog store was refused. Every refusal leaves the
/// store as it was.
#[derive(Clone, Copy, Debug, PartialEq, Eq, Structural)]
pub enum BlogError {
    /// The title is longer than the operation allows.
    TitleTooLong,
    /// The content is longer than the operation allows.
    ContentTooLong,
    /// The caller is not the record's author.
    Unauthorized,
    /// A sequence counter would pass `u64::MAX`.
    NumericalOverflow,
    /// The comment is longer than allowed.
    CommentTooLong,
    /// A record already occupies the derived address.
    AlreadyExists,
    /// No record of the expected kind is stored at the address.
    AccountNotFound,
    /// The address does not follow from the record's seeds and the bump.
    InvalidAddress,
    /// Replacement text does not fit the space allocated when the record
    /// was created.
    CapacityExceeded,
}

impl BlogError {
    /// The message shown for this error.
    pub fn message(&self) -> (r: String)
        ensures
            r@ == match *self {
                BlogError::TitleTooLong => "Title too long"@,
                BlogError::ContentTooLong => "Content too long"@,
                BlogError::Unauthorized => "Unauthorized"@,
                BlogError::NumericalOverflow => "Numerical overflow"@,
                BlogError::CommentTooLong => "Comment too long"@,
                BlogError::AlreadyExists => "Account already exists"@,
                BlogError::AccountNotFound => "Account not found"@,
                BlogError::InvalidAddress => "Invalid address"@,
                BlogError::CapacityExceeded => "Account capacity exceeded"@,
            },
    {
        match self {
            BlogError::TitleTooLong => String::from_str("Title too long"),
            BlogError::ContentTooLong => String::from_str("Content too long"),
            BlogError::Unauthorized => String::from_str("Unauthorized"),
            BlogError::NumericalOverflow => String::from_str("Numerical overflow"),
            BlogError::CommentTooLong => String::from_str("Comment too long"),
            BlogError::AlreadyExists => String::from_str("Account already exists"),
            BlogError::AccountNotFound => String::from_str("Account not found"),
            BlogError::InvalidAddress => String::from_str("Invalid address"),
            BlogError::CapacityExceeded => String::from_str("Account capacity exceeded"),
        }
    }
}

} // verus!
