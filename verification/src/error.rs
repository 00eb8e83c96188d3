//! The kinds of failure that an operation can report.

use vstd::prelude::*;

verus! {

/// Why an operation was refused. Every failure leaves all records as they were.
#[derive(Clone, Copy, Debug, PartialEq, Eq, Structural)]
pub enum PlatformError {
    /// A user's name or avatar is empty.
    EmptyUserData,
    /// A post's content is empty.
    EmptyPostContent,
    /// A comment's content is empty.
    EmptyCommentContent,
    /// The user is already in the post's like set.
    AlreadyLiked,
    /// A profile exists for this authority.
    AlreadyRegistered,
    /// The platform record exists.
    AlreadyInitialized,
    /// The address of a record to create is occupied.
    AddressAlreadyInUse,
    /// No record is stored at the address.
    NotFound,
    /// The record at the address is of another kind than the one asked for.
    SchemaMismatch,
    /// The caller is not the authority of the profile it presents.
    Unauthorized,
    /// A counter is at its largest value.
    CounterOverflow,
    /// A text is longer than the space reserved for it.
    ContentTooLong,
    /// No address can be derived from the seeds.
    AddressDerivationError,
    /// The host gave no clock reading.
    ClockUnavailable,
}

impl PlatformError {
    /// The words that describe each kind of failure.
    pub open spec fn text(self) -> Seq<char> {
        match self {
            PlatformError::EmptyUserData => "User data cannot be empty"@,
            PlatformError::EmptyPostContent => "Post content cannot be empty"@,
            PlatformError::EmptyCommentContent => "Comment content cannot be empty"@,
            PlatformError::AlreadyLiked => "User has already liked this post"@,
            PlatformError::AlreadyRegistered => "User is already registered"@,
            PlatformError::AlreadyInitialized => "Platform is already initialized"@,
            PlatformError::AddressAlreadyInUse => "Address is already in use"@,
            PlatformError::NotFound => "No record at this address"@,
            PlatformError::SchemaMismatch => "Record is of another kind"@,
            PlatformError::Unauthorized => "Caller is not the authority of this profile"@,
            PlatformError::CounterOverflow => "Counter cannot grow further"@,
            PlatformError::ContentTooLong => "Text exceeds its reserved length"@,
            PlatformError::AddressDerivationError => "No address can be derived from these seeds"@,
            PlatformError::ClockUnavailable => "Host clock is unavailable"@,
        }
    }

    /// The description of the failure.
    pub fn message(&self) -> (r: &'static str)
        ensures
            r@ == self.text(),
    {
        match self {
            PlatformError::EmptyUserData => "User data cannot be empty",
            PlatformError::EmptyPostContent => "Post content cannot be empty",
            PlatformError::EmptyCommentContent => "Comment content cannot be empty",
            PlatformError::AlreadyLiked => "User has already liked this post",
            PlatformError::AlreadyRegistered => "User is already registered",
            PlatformError::AlreadyInitialized => "Platform is already initialized",
            PlatformError::AddressAlreadyInUse => "Address is already in use",
            PlatformError::NotFound => "No record at this address",
            PlatformError::SchemaMismatch => "Record is of another kind",
            PlatformError::Unauthorized => "Caller is not the authority of this profile",
            PlatformError::CounterOverflow => "Counter cannot grow further",
            PlatformError::ContentTooLong => "Text exceeds its reserved length",
            PlatformError::AddressDerivationError => "No address can be derived from these seeds",
            PlatformError::ClockUnavailable => "Host clock is unavailable",
        }
    }
}

} // verus!
