//! The checks on the texts that an operation is handed.

use vstd::prelude::*;
use vstd::utf8::encode_utf8;
use crate::constant::{TEXT_LENGTH, USER_NAME_LENGTH, USER_URL_LENGTH};
use crate::error::PlatformError;

verus! {

/// The bytes that a text takes when stored.
pub open spec fn text_bytes(text: Seq<char>) -> Seq<u8> {
    encode_utf8(text)
}

/// What the check of a new user's name and avatar gives: `EmptyUserData`
/// where one of them is empty, else `ContentTooLong` where one of them
/// exceeds its limit.
pub open spec fn user_data_outcome(name: Seq<char>, avatar: Seq<char>) -> Result<
    (),
    PlatformError,
> {
    if name.len() == 0 || avatar.len() == 0 {
        Err(PlatformError::EmptyUserData)
    } else if text_bytes(name).len() > USER_NAME_LENGTH || text_bytes(avatar).len()
        > USER_URL_LENGTH {
        Err(PlatformError::ContentTooLong)
    } else {
        Ok(())
    }
}

/// What the check of a content gives: the given error where it is empty,
/// else `ContentTooLong` where it exceeds `TEXT_LENGTH` bytes.
pub open spec fn content_outcome(content: Seq<char>, empty: PlatformError) -> Result<
    (),
    PlatformError,
> {
    if content.len() == 0 {
        Err(empty)
    } else if text_bytes(content).len() > TEXT_LENGTH {
        Err(PlatformError::ContentTooLong)
    } else {
        Ok(())
    }
}

/// What the check of a post's content gives.
pub open spec fn post_content_outcome(content: Seq<char>) -> Result<(), PlatformError> {
    content_outcome(content, PlatformError::EmptyPostContent)
}

/// What the check of a comment's content gives.
pub open spec fn comment_content_outcome(content: Seq<char>) -> Result<(), PlatformError> {
    content_outcome(content, PlatformError::EmptyCommentContent)
}

/// The number of bytes that a text takes when stored.
pub fn byte_length(text: &String) -> (n: usize)
    ensures
        n == text_bytes(text@).len(),
{
    text.as_str().as_bytes().len()
}

/// Checks a new user's name and avatar.
pub fn check_user_data(name: &String, avatar: &String) -> (r: Result<(), PlatformError>)
    ensures
        r == user_data_outcome(name@, avatar@),
{
    if name.as_str().is_empty() || avatar.as_str().is_empty() {
        Err(PlatformError::EmptyUserData)
    } else if byte_length(name) > USER_NAME_LENGTH || byte_length(avatar) > USER_URL_LENGTH {
        Err(PlatformError::ContentTooLong)
    } else {
        Ok(())
    }
}

/// Checks a post's content.
pub fn check_post_content(content: &String) -> (r: Result<(), PlatformError>)
    ensures
        r == post_content_outcome(content@),
{
    if content.as_str().is_empty() {
        Err(PlatformError::EmptyPostContent)
    } else if byte_length(content) > TEXT_LENGTH {
        Err(PlatformError::ContentTooLong)
    } else {
        Ok(())
    }
}

/// Checks a comment's content.
pub fn check_comment_content(content: &String) -> (r: Result<(), PlatformError>)
    ensures
        r == comment_content_outcome(content@),
{
    if content.as_str().is_empty() {
        Err(PlatformError::EmptyCommentContent)
    } else if byte_length(content) > TEXT_LENGTH {
        Err(PlatformError::ContentTooLong)
    } else {
        Ok(())
    }
}

} // verus!
