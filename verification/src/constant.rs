//! Limits of the stored texts, namespace tags and space budgets.

use vstd::prelude::*;

verus! {

/// Most bytes of a post's or a comment's content.
pub const TEXT_LENGTH: usize = 1024;

/// Most bytes of a user's name.
pub const USER_NAME_LENGTH: usize = 100;

/// Most bytes of a user's avatar URL.
pub const USER_URL_LENGTH: usize = 255;

/// Namespace tag of user profiles: the bytes of "user".
pub const USER_TAG: [u8; 4] = [117, 115, 101, 114];

/// Namespace tag of posts: the bytes of "post".
pub const POST_TAG: [u8; 4] = [112, 111, 115, 116];

/// Namespace tag of comments: the bytes of "comment".
pub const COMMENT_TAG: [u8; 7] = [99, 111, 109, 109, 101, 110, 116];

/// Namespace tag of the platform record: the bytes of "platform".
pub const PLATFORM_TAG: [u8; 8] = [112, 108, 97, 116, 102, 111, 114, 109];

/// Bytes allocated to the platform record: a marker of its kind, the
/// authority's key and the counter.
pub const PLATFORM_SPACE: u64 = 8 + 32 + 8;

/// Bytes allocated to a user profile: marker, key, the two texts at their
/// limits, each behind its length, and the counter.
pub const USER_SPACE: u64 = 8 + 32 + 4 + 100 + 4 + 255 + 8;

/// Bytes allocated to a post.
pub const POST_SPACE: u64 = 7137 + 8;

/// Bytes allocated to a comment: marker, three keys, the content at its limit
/// behind its length, and the time of creation.
pub const COMMENT_SPACE: u64 = 8 + 32 + 32 + 32 + 4 + 1024 + 8;

} // verus!
