//! The state of a deployment as a mathematical value, and each operation as
//! a function from the state before to the state after.

use vstd::prelude::*;
use vstd::bytes::spec_u64_to_le_bytes;
use crate::accounts::{AddressingProfile, CommentPostView, CreatePostView, LikePostView};
use crate::address::program_address;
use crate::constant::{
    COMMENT_SPACE, COMMENT_TAG, PLATFORM_SPACE, PLATFORM_TAG, POST_SPACE, POST_TAG, USER_SPACE,
    USER_TAG,
};
use crate::validate::{
    comment_content_outcome, post_content_outcome, text_bytes, user_data_outcome,
};
use crate::error::PlatformError;
use crate::event::NotificationView;
use crate::states::{
    CommentView, PlatformView, RecordView, UserPost, UserPostView, UserProfileView,
};
use crate::store::SlotView;

verus! {

/// The seeds of the platform record: its tag alone.
pub open spec fn platform_seeds() -> Seq<Seq<u8>> {
    seq![PLATFORM_TAG@]
}

/// The seeds of an authority's profile: the tag and the authority's key.
pub open spec fn user_seeds(authority: Seq<u8>) -> Seq<Seq<u8>> {
    seq![USER_TAG@, authority]
}

/// The seeds of a post. Content-addressed: the tag, the author's key and the
/// content's bytes. Sequence-addressed: the tag and the platform's post
/// counter, least significant byte first.
pub open spec fn post_seeds(
    profile: AddressingProfile,
    authority: Seq<u8>,
    content: Seq<char>,
    sequence: u64,
) -> Seq<Seq<u8>> {
    match profile {
        AddressingProfile::ContentAddressed => seq![POST_TAG@, authority, text_bytes(content)],
        AddressingProfile::SequenceAddressed => seq![POST_TAG@, spec_u64_to_le_bytes(sequence)],
    }
}

/// The seeds of a comment: the tag, the post's address and the post's comment
/// counter, least significant byte first.
pub open spec fn comment_seeds(post: Seq<u8>, sequence: u64) -> Seq<Seq<u8>> {
    seq![COMMENT_TAG@, post, spec_u64_to_le_bytes(sequence)]
}

/// The state of a deployment.
pub struct LedgerView {
    /// The key of the program that owns the records.
    pub program: Seq<u8>,
    /// How post addresses are derived.
    pub profile: AddressingProfile,
    /// What each occupied address holds.
    pub records: Map<Seq<u8>, SlotView>,
}

impl LedgerView {
    /// Every stored record is consistent: its texts are non-empty and within
    /// their limits, and each post's like count equals the size of its like
    /// set.
    pub open spec fn consistent(self) -> bool {
        forall|key: Seq<u8>| #[trigger]
            self.records.contains_key(key) ==> self.records[key].record.consistent()
    }

    /// The state with one address set to a record and its space.
    pub open spec fn with(self, key: Seq<u8>, space: u64, record: RecordView) -> LedgerView {
        LedgerView { records: self.records.insert(key, SlotView { space, record }), ..self }
    }

    /// The state with the record at an occupied address changed.
    pub open spec fn with_record(self, key: Seq<u8>, record: RecordView) -> LedgerView {
        self.with(key, self.records[key].space, record)
    }

    /// The platform record at an address: `NotFound` where the address is
    /// free, `SchemaMismatch` where it holds another kind.
    pub open spec fn platform_at(self, key: Seq<u8>) -> Result<PlatformView, PlatformError> {
        if !self.records.contains_key(key) {
            Err(PlatformError::NotFound)
        } else {
            match self.records[key].record {
                RecordView::Platform(p) => Ok(p),
                _ => Err(PlatformError::SchemaMismatch),
            }
        }
    }

    /// The user profile at an address, with the same failures.
    pub open spec fn user_at(self, key: Seq<u8>) -> Result<UserProfileView, PlatformError> {
        if !self.records.contains_key(key) {
            Err(PlatformError::NotFound)
        } else {
            match self.records[key].record {
                RecordView::User(u) => Ok(u),
                _ => Err(PlatformError::SchemaMismatch),
            }
        }
    }

    /// The post at an address, with the same failures.
    pub open spec fn post_at(self, key: Seq<u8>) -> Result<UserPostView, PlatformError> {
        if !self.records.contains_key(key) {
            Err(PlatformError::NotFound)
        } else {
            match self.records[key].record {
                RecordView::Post(p) => Ok(p),
                _ => Err(PlatformError::SchemaMismatch),
            }
        }
    }

    /// The comment at an address, with the same failures.
    pub open spec fn comment_at(self, key: Seq<u8>) -> Result<CommentView, PlatformError> {
        if !self.records.contains_key(key) {
            Err(PlatformError::NotFound)
        } else {
            match self.records[key].record {
                RecordView::Comment(c) => Ok(c),
                _ => Err(PlatformError::SchemaMismatch),
            }
        }
    }

    /// Setting up the platform, given what the host derived from
    /// `platform_seeds`. On success the platform record stands at the derived
    /// address with a counter of zero, and the address is handed back.
    pub open spec fn initialize_platform(
        self,
        authority: Seq<u8>,
        derived: Option<(Seq<u8>, u8)>,
    ) -> Result<(LedgerView, Seq<u8>), PlatformError> {
        match derived {
            None => Err(PlatformError::AddressDerivationError),
            Some((address, _)) => if self.records.contains_key(address) {
                Err(PlatformError::AlreadyInitialized)
            } else {
                Ok(
                    (
                        self.with(
                            address,
                            PLATFORM_SPACE,
                            RecordView::Platform(PlatformView { authority, post_count: 0 }),
                        ),
                        address,
                    ),
                )
            },
        }
    }

    /// Registering a user, given what the host derived from `user_seeds`.
    pub open spec fn signup_user(
        self,
        authority: Seq<u8>,
        name: Seq<char>,
        avatar: Seq<char>,
        derived: Option<(Seq<u8>, u8)>,
    ) -> Result<(LedgerView, Seq<u8>), PlatformError> {
        if let Err(e) = user_data_outcome(name, avatar) {
            Err(e)
        } else {
            match derived {
                None => Err(PlatformError::AddressDerivationError),
                Some((address, _)) => if self.records.contains_key(address) {
                    Err(PlatformError::AlreadyRegistered)
                } else {
                    Ok(
                        (
                            self.with(
                                address,
                                USER_SPACE,
                                RecordView::User(
                                    UserProfileView { authority, name, avatar, post_count: 0 },
                                ),
                            ),
                            address,
                        ),
                    )
                },
            }
        }
    }

    /// The sequence number that a new post's seeds are built on: the
    /// platform's post counter. Fails as `create_post` does before it derives
    /// an address.
    pub open spec fn post_sequence(self, accounts: CreatePostView, content: Seq<char>) -> Result<
        u64,
        PlatformError,
    > {
        if let Err(e) = post_content_outcome(content) {
            Err(e)
        } else {
            match self.platform_at(accounts.platform) {
                Err(e) => Err(e),
                Ok(platform) => Ok(platform.post_count),
            }
        }
    }

    /// What the host derives for a new post: from `post_seeds` on the
    /// platform's post counter. Nothing where `post_sequence` fails.
    pub open spec fn post_address(self, accounts: CreatePostView, content: Seq<char>) -> Option<
        (Seq<u8>, u8),
    > {
        match self.post_sequence(accounts, content) {
            Ok(sequence) => program_address(
                post_seeds(self.profile, accounts.authority, content, sequence),
                self.program,
            ),
            Err(_) => None,
        }
    }

    /// Creating a post, given what the host derived from `post_seeds` and
    /// what its clock read. Every check comes before the first change, the
    /// clock's reading last.
    pub open spec fn create_post(
        self,
        accounts: CreatePostView,
        content: Seq<char>,
        derived: Option<(Seq<u8>, u8)>,
        now: Option<i64>,
    ) -> Result<(LedgerView, NotificationView), PlatformError> {
        match self.post_sequence(accounts, content) {
            Err(e) => Err(e),
            Ok(_) => match (derived, self.user_at(accounts.profile)) {
                (None, _) => Err(PlatformError::AddressDerivationError),
                (Some(_), Err(e)) => Err(e),
                (Some((address, _)), Ok(user)) => {
                    let platform = self.platform_at(accounts.platform).unwrap();
                    if let Err(e) = user.authorize(accounts.authority) {
                        Err(e)
                    } else if self.records.contains_key(address) {
                        Err(PlatformError::AddressAlreadyInUse)
                    } else if platform.post_count == u64::MAX || user.post_count == u64::MAX {
                        Err(PlatformError::CounterOverflow)
                    } else if now is None {
                        Err(PlatformError::ClockUnavailable)
                    } else {
                        let post = UserPostView {
                            authority: accounts.authority,
                            author: accounts.profile,
                            content,
                            likes: 0,
                            likes_by: Seq::empty(),
                            comment_count: 0,
                            created_at: now.unwrap(),
                        };
                        Ok(
                            (
                                self.with(address, POST_SPACE, RecordView::Post(post)).with_record(
                                    accounts.platform,
                                    RecordView::Platform(platform.advanced()),
                                ).with_record(
                                    accounts.profile,
                                    RecordView::User(user.advanced()),
                                ),
                                NotificationView::PostCreated {
                                    post: address,
                                    author: accounts.profile,
                                    content,
                                },
                            ),
                        )
                    }
                },
            },
        }
    }

    /// Liking a post.
    pub open spec fn like_post(self, accounts: LikePostView) -> Result<
        (LedgerView, NotificationView),
        PlatformError,
    > {
        match (self.post_at(accounts.post), self.user_at(accounts.user)) {
            (Err(e), _) => Err(e),
            (Ok(_), Err(e)) => Err(e),
            (Ok(post), Ok(_)) => match UserPost::like_outcome(post, accounts.user) {
                Err(e) => Err(e),
                Ok(liked) => Ok(
                    (
                        self.with_record(accounts.post, RecordView::Post(liked)),
                        NotificationView::Liked { post: accounts.post, user: accounts.user },
                    ),
                ),
            },
        }
    }

    /// The sequence number that a new comment's seeds are built on: the
    /// post's comment counter. Fails as `comment_post` does before it derives
    /// an address.
    pub open spec fn comment_sequence(
        self,
        accounts: CommentPostView,
        content: Seq<char>,
    ) -> Result<u64, PlatformError> {
        if let Err(e) = comment_content_outcome(content) {
            Err(e)
        } else {
            match self.post_at(accounts.post) {
                Err(e) => Err(e),
                Ok(post) => Ok(post.comment_count),
            }
        }
    }

    /// What the host derives for a new comment: from `comment_seeds` on the
    /// post's comment counter. Nothing where `comment_sequence` fails.
    pub open spec fn comment_address(
        self,
        accounts: CommentPostView,
        content: Seq<char>,
    ) -> Option<(Seq<u8>, u8)> {
        match self.comment_sequence(accounts, content) {
            Ok(sequence) => program_address(comment_seeds(accounts.post, sequence), self.program),
            Err(_) => None,
        }
    }

    /// Commenting on a post, given what the host derived from
    /// `comment_seeds` and what its clock read. Every check comes before the
    /// first change, the clock's reading last.
    pub open spec fn comment_post(
        self,
        accounts: CommentPostView,
        content: Seq<char>,
        derived: Option<(Seq<u8>, u8)>,
        now: Option<i64>,
    ) -> Result<(LedgerView, NotificationView), PlatformError> {
        match self.comment_sequence(accounts, content) {
            Err(e) => Err(e),
            Ok(_) => match (derived, self.user_at(accounts.profile)) {
                (None, _) => Err(PlatformError::AddressDerivationError),
                (Some(_), Err(e)) => Err(e),
                (Some((address, _)), Ok(_)) => {
                    let post = self.post_at(accounts.post).unwrap();
                    if self.records.contains_key(address) {
                        Err(PlatformError::AddressAlreadyInUse)
                    } else if post.comment_count == u64::MAX {
                        Err(PlatformError::CounterOverflow)
                    } else if now is None {
                        Err(PlatformError::ClockUnavailable)
                    } else {
                        let comment = CommentView {
                            authority: accounts.authority,
                            author: accounts.profile,
                            post: accounts.post,
                            content,
                            created_at: now.unwrap(),
                        };
                        Ok(
                            (
                                self.with(
                                    address,
                                    COMMENT_SPACE,
                                    RecordView::Comment(comment),
                                ).with_record(
                                    accounts.post,
                                    RecordView::Post(post.commented()),
                                ),
                                NotificationView::CommentCreated {
                                    comment: address,
                                    post: accounts.post,
                                    author: accounts.profile,
                                    content,
                                },
                            ),
                        )
                    }
                },
            },
        }
    }
}

} // verus!
