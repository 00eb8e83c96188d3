//! What an operation hands out for the host to publish once it has succeeded.

use vstd::prelude::*;
use crate::address::Address;

verus! {

/// A one-way event that follows a successful change.
pub enum Notification {
    PostCreated { post: Address, author: Address, content: String },
    Liked { post: Address, user: Address },
    CommentCreated { comment: Address, post: Address, author: Address, content: String },
}

/// What a `Notification` stands for.
pub enum NotificationView {
    PostCreated { post: Seq<u8>, author: Seq<u8>, content: Seq<char> },
    Liked { post: Seq<u8>, user: Seq<u8> },
    CommentCreated { comment: Seq<u8>, post: Seq<u8>, author: Seq<u8>, content: Seq<char> },
}

impl View for Notification {
    type V = NotificationView;

    open spec fn view(&self) -> NotificationView {
        match self {
            Notification::PostCreated { post, author, content } => NotificationView::PostCreated {
                post: post@,
                author: author@,
                content: content@,
            },
            Notification::Liked { post, user } => NotificationView::Liked {
                post: post@,
                user: user@,
            },
            Notification::CommentCreated {
                comment,
                post,
                author,
                content,
            } => NotificationView::CommentCreated {
                comment: comment@,
                post: post@,
                author: author@,
                content: content@,
            },
        }
    }
}

} // verus!
