//! The kinds of record that the ledger stores, and what each one stands for.

use vstd::prelude::*;
use crate::address::Address;
use crate::error::PlatformError;
use crate::validate::{comment_content_outcome, post_content_outcome, user_data_outcome};

verus! {

/// The singleton record of a deployment: who set it up, and how many posts
/// were created.
pub struct Platform {
    pub authority: Address,
    pub post_count: u64,
}

/// What a `Platform` record stands for.
pub struct PlatformView {
    pub authority: Seq<u8>,
    pub post_count: u64,
}

/// The profile of one authority.
pub struct UserProfile {
    pub authority: Address,
    pub name: String,
    pub avatar: String,
    pub post_count: u64,
}

/// What a `UserProfile` record stands for.
pub struct UserProfileView {
    pub authority: Seq<u8>,
    pub name: Seq<char>,
    pub avatar: Seq<char>,
    pub post_count: u64,
}

/// A post: its content, who liked it, and how many comments it has.
pub struct UserPost {
    pub authority: Address,
    pub author: Address,
    pub content: String,
    pub likes: u64,
    pub likes_by: Vec<Address>,
    pub comment_count: u64,
    pub created_at: i64,
}

/// What a `UserPost` record stands for.
pub struct UserPostView {
    pub authority: Seq<u8>,
    pub author: Seq<u8>,
    pub content: Seq<char>,
    pub likes: u64,
    pub likes_by: Seq<Seq<u8>>,
    pub comment_count: u64,
    pub created_at: i64,
}

/// A comment on a post.
pub struct Comment {
    pub authority: Address,
    pub author: Address,
    pub post: Address,
    pub content: String,
    pub created_at: i64,
}

/// What a `Comment` record stands for.
pub struct CommentView {
    pub authority: Seq<u8>,
    pub author: Seq<u8>,
    pub post: Seq<u8>,
    pub content: Seq<char>,
    pub created_at: i64,
}

/// A stored record of any kind.
pub enum Record {
    Platform(Platform),
    User(UserProfile),
    Post(UserPost),
    Comment(Comment),
}

/// What a stored record stands for.
pub enum RecordView {
    Platform(PlatformView),
    User(UserProfileView),
    Post(UserPostView),
    Comment(CommentView),
}

/// The keys that a list of addresses holds, in order.
pub open spec fn keys_view(keys: Seq<Address>) -> Seq<Seq<u8>> {
    Seq::new(keys.len(), |i: int| keys[i]@)
}

impl View for Platform {
    type V = PlatformView;

    open spec fn view(&self) -> PlatformView {
        PlatformView { authority: self.authority@, post_count: self.post_count }
    }
}

impl View for UserProfile {
    type V = UserProfileView;

    open spec fn view(&self) -> UserProfileView {
        UserProfileView {
            authority: self.authority@,
            name: self.name@,
            avatar: self.avatar@,
            post_count: self.post_count,
        }
    }
}

impl View for UserPost {
    type V = UserPostView;

    open spec fn view(&self) -> UserPostView {
        UserPostView {
            authority: self.authority@,
            author: self.author@,
            content: self.content@,
            likes: self.likes,
            likes_by: keys_view(self.likes_by@),
            comment_count: self.comment_count,
            created_at: self.created_at,
        }
    }
}

impl View for Comment {
    type V = CommentView;

    open spec fn view(&self) -> CommentView {
        CommentView {
            authority: self.authority@,
            author: self.author@,
            post: self.post@,
            content: self.content@,
            created_at: self.created_at,
        }
    }
}

impl View for Record {
    type V = RecordView;

    open spec fn view(&self) -> RecordView {
        match self {
            Record::Platform(p) => RecordView::Platform(p@),
            Record::User(u) => RecordView::User(u@),
            Record::Post(p) => RecordView::Post(p@),
            Record::Comment(c) => RecordView::Comment(c@),
        }
    }
}

impl PlatformView {
    /// The platform after one more post.
    pub open spec fn advanced(self) -> PlatformView {
        PlatformView { post_count: (self.post_count + 1) as u64, ..self }
    }
}

impl UserProfileView {
    /// Whether a key may act for the profile: `Unauthorized` unless it is the
    /// profile's authority.
    pub open spec fn authorize(self, caller: Seq<u8>) -> Result<(), PlatformError> {
        if self.authority == caller {
            Ok(())
        } else {
            Err(PlatformError::Unauthorized)
        }
    }

    /// The profile after one more post.
    pub open spec fn advanced(self) -> UserProfileView {
        UserProfileView { post_count: (self.post_count + 1) as u64, ..self }
    }
}

impl UserPostView {
    /// The like count equals the size of the like set, and no user is in the
    /// set twice.
    pub open spec fn likes_consistent(self) -> bool {
        &&& self.likes == self.likes_by.len()
        &&& self.likes_by.no_duplicates()
    }

    /// The post after one more like, by a user.
    pub open spec fn liked(self, user: Seq<u8>) -> UserPostView {
        UserPostView {
            likes: (self.likes + 1) as u64,
            likes_by: self.likes_by.push(user),
            ..self
        }
    }

    /// The post after one more comment.
    pub open spec fn commented(self) -> UserPostView {
        UserPostView { comment_count: (self.comment_count + 1) as u64, ..self }
    }
}

impl RecordView {
    /// What must hold of a stored record: its texts passed the checks that
    /// they were created under, and a post's likes are consistent.
    pub open spec fn consistent(self) -> bool {
        match self {
            RecordView::Platform(_) => true,
            RecordView::User(u) => user_data_outcome(u.name, u.avatar) is Ok,
            RecordView::Post(p) => p.likes_consistent() && post_content_outcome(p.content) is Ok,
            RecordView::Comment(c) => comment_content_outcome(c.content) is Ok,
        }
    }
}

/// Whether a key is in a list of keys.
pub fn holds_key(keys: &Vec<Address>, key: &Address) -> (r: bool)
    ensures
        r == keys_view(keys@).contains(key@),
{
    let mut i: usize = 0;
    while i < keys.len()
        invariant
            i <= keys.len(),
            forall|j: int| 0 <= j < i ==> keys_view(keys@)[j] != key@,
        decreases keys.len() - i,
    {
        if keys[i].same(key) {
            assert(keys_view(keys@)[i as int] == key@);
            return true;
        }
        i += 1;
    }
    false
}

impl Platform {
    /// Reads the post counter and raises it by one: the sequence number of
    /// the next post. Fails with `CounterOverflow`, and changes nothing, where
    /// the counter is at its largest value.
    pub fn next_sequence(&mut self) -> (r: Result<u64, PlatformError>)
        ensures
            old(self).post_count < u64::MAX ==> r == Ok::<_, PlatformError>(old(self).post_count)
                && final(self)@ == old(self)@.advanced(),
            old(self).post_count == u64::MAX ==> r == Err::<u64, _>(
                PlatformError::CounterOverflow,
            ) && *final(self) == *old(self),
    {
        if self.post_count == u64::MAX {
            return Err(PlatformError::CounterOverflow);
        }
        let sequence = self.post_count;
        self.post_count = sequence + 1;
        Ok(sequence)
    }
}

impl UserProfile {
    /// Checks that a key may act for the profile: it must be the profile's
    /// authority.
    pub fn authorize(&self, caller: &Address) -> (r: Result<(), PlatformError>)
        ensures
            r == self@.authorize(caller@),
    {
        if self.authority.same(caller) {
            Ok(())
        } else {
            Err(PlatformError::Unauthorized)
        }
    }

    /// Raises the user's post counter by one. Fails with `CounterOverflow`,
    /// and changes nothing, where the counter is at its largest value.
    pub fn increment_post_count(&mut self) -> (r: Result<(), PlatformError>)
        ensures
            old(self).post_count < u64::MAX ==> r == Ok::<_, PlatformError>(()) && final(self)@
                == old(self)@.advanced(),
            old(self).post_count == u64::MAX ==> r == Err::<(), _>(
                PlatformError::CounterOverflow,
            ) && *final(self) == *old(self),
    {
        if self.post_count == u64::MAX {
            return Err(PlatformError::CounterOverflow);
        }
        self.post_count = self.post_count + 1;
        Ok(())
    }
}

impl UserPost {
    /// What `like` returns for a user: `AlreadyLiked` where the user is in
    /// the like set, `CounterOverflow` where the like count is at its largest
    /// value, else the post with the user added.
    pub open spec fn like_outcome(post: UserPostView, user: Seq<u8>) -> Result<
        UserPostView,
        PlatformError,
    > {
        if post.likes_by.contains(user) {
            Err(PlatformError::AlreadyLiked)
        } else if post.likes == u64::MAX {
            Err(PlatformError::CounterOverflow)
        } else {
            Ok(post.liked(user))
        }
    }

    /// Adds a user to the like set and raises the like count by one, both or
    /// neither. A consistent post stays consistent.
    pub fn like(&mut self, user: Address) -> (r: Result<(), PlatformError>)
        ensures
            match Self::like_outcome(old(self)@, user@) {
                Ok(next) => r == Ok::<_, PlatformError>(()) && final(self)@ == next,
                Err(e) => r == Err::<(), _>(e) && *final(self) == *old(self),
            },
            old(self)@.likes_consistent() ==> final(self)@.likes_consistent(),
    {
        if holds_key(&self.likes_by, &user) {
            return Err(PlatformError::AlreadyLiked);
        }
        if self.likes == u64::MAX {
            return Err(PlatformError::CounterOverflow);
        }
        self.likes_by.push(user);
        self.likes = self.likes + 1;
        proof {
            assert(keys_view(self.likes_by@) =~= old(self)@.likes_by.push(user@));
            if old(self)@.likes_consistent() {
                lemma_liked_consistent(old(self)@, user@);
            }
        }
        Ok(())
    }

    /// Reads the comment counter and raises it by one: the sequence number
    /// of the next comment. Fails with `CounterOverflow`, and changes
    /// nothing, where the counter is at its largest value.
    pub fn next_comment_sequence(&mut self) -> (r: Result<u64, PlatformError>)
        ensures
            old(self).comment_count < u64::MAX ==> r == Ok::<_, PlatformError>(
                old(self).comment_count,
            ) && final(self)@ == old(self)@.commented(),
            old(self).comment_count == u64::MAX ==> r == Err::<u64, _>(
                PlatformError::CounterOverflow,
            ) && *final(self) == *old(self),
    {
        if self.comment_count == u64::MAX {
            return Err(PlatformError::CounterOverflow);
        }
        let sequence = self.comment_count;
        self.comment_count = sequence + 1;
        Ok(sequence)
    }
}

/// A consistent post that a new user likes stays consistent.
pub proof fn lemma_liked_consistent(post: UserPostView, user: Seq<u8>)
    requires
        post.likes_consistent(),
        !post.likes_by.contains(user),
        post.likes < u64::MAX,
    ensures
        post.liked(user).likes_consistent(),
{
    let after = post.liked(user).likes_by;
    assert forall|i: int, j: int|
        0 <= i < after.len() && 0 <= j < after.len() && i != j implies after[i] != after[j] by {
        if i < post.likes_by.len() && j < post.likes_by.len() {
            assert(post.likes_by[i] != post.likes_by[j]);
        } else if i < post.likes_by.len() {
            assert(post.likes_by.contains(post.likes_by[i]));
        } else {
            assert(post.likes_by.contains(post.likes_by[j]));
        }
    }
}

} // verus!
