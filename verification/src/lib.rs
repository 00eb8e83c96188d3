//! A ledger-backed social graph: platform, user profiles, posts, comments and
//! likes, held as records at deterministically derived addresses and changed
//! only through a small set of validated operations.

pub mod address;
pub mod constant;
pub mod error;
pub mod validate;
pub mod states;
pub mod store;
pub mod accounts;
pub mod event;
pub mod model;
pub mod ledger;
pub mod clock;
pub mod laws;

pub use crate::accounts::{AddressingProfile, CommentPost, CreatePost, LikePost};
pub use crate::address::Address;
pub use crate::error::PlatformError;
pub use crate::event::Notification;
pub use crate::ledger::{
    comment_address, comment_post, comment_post_at, create_post, create_post_at,
    initialize_platform, initialize_platform_at, like_post, post_address, signup_user,
    signup_user_at, Ledger,
};
pub use crate::states::{Comment, Platform, Record, UserPost, UserProfile};
