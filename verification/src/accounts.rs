//! The records that each operation names, and the key that signs for it.

use vstd::prelude::*;
use crate::address::Address;

verus! {

/// How the address of a new post is derived.
#[derive(Clone, Copy, Debug, PartialEq, Eq, Structural)]
pub enum AddressingProfile {
    /// From the author's key and the content: an author cannot post the same
    /// content twice.
    ContentAddressed,
    /// From the platform's post counter at the time of creation.
    SequenceAddressed,
}

/// What `create_post` works on: the signing key, the platform record and the
/// profile that the post is written under.
#[derive(Clone, Copy, Debug)]
pub struct CreatePost {
    pub authority: Address,
    pub platform: Address,
    pub profile: Address,
}

/// What a `CreatePost` stands for.
pub struct CreatePostView {
    pub authority: Seq<u8>,
    pub platform: Seq<u8>,
    pub profile: Seq<u8>,
}

impl View for CreatePost {
    type V = CreatePostView;

    open spec fn view(&self) -> CreatePostView {
        CreatePostView {
            authority: self.authority@,
            platform: self.platform@,
            profile: self.profile@,
        }
    }
}

/// What `like_post` works on: the post, and the profile of the user who
/// likes it.
#[derive(Clone, Copy, Debug)]
pub struct LikePost {
    pub post: Address,
    pub user: Address,
}

/// What a `LikePost` stands for.
pub struct LikePostView {
    pub post: Seq<u8>,
    pub user: Seq<u8>,
}

impl View for LikePost {
    type V = LikePostView;

    open spec fn view(&self) -> LikePostView {
        LikePostView { post: self.post@, user: self.user@ }
    }
}

/// What `comment_post` works on: the signing key, the post, and the profile
/// that the comment is written under.
#[derive(Clone, Copy, Debug)]
pub struct CommentPost {
    pub authority: Address,
    pub post: Address,
    pub profile: Address,
}

/// What a `CommentPost` stands for.
pub struct CommentPostView {
    pub authority: Seq<u8>,
    pub post: Seq<u8>,
    pub profile: Seq<u8>,
}

impl View for CommentPost {
    type V = CommentPostView;

    open spec fn view(&self) -> CommentPostView {
        CommentPostView { authority: self.authority@, post: self.post@, profile: self.profile@ }
    }
}

} // verus!
