//! What holds of the operations, proved of the model that their contracts
//! are stated in.

use vstd::prelude::*;
use vstd::set_lib::lemma_len_subset;
use crate::accounts::{CommentPostView, CreatePostView, LikePostView};
use crate::address::program_address;
use crate::error::PlatformError;
use crate::model::{platform_seeds, post_seeds, user_seeds, LedgerView};
use crate::validate::user_data_outcome;
use crate::accounts::AddressingProfile;
use crate::states::{lemma_liked_consistent, RecordView, UserProfileView};

verus! {

/// One call of an operation, with everything that decides its outcome.
pub enum Operation {
    InitializePlatform { authority: Seq<u8>, derived: Option<(Seq<u8>, u8)> },
    SignupUser {
        authority: Seq<u8>,
        name: Seq<char>,
        avatar: Seq<char>,
        derived: Option<(Seq<u8>, u8)>,
    },
    CreatePost {
        accounts: CreatePostView,
        content: Seq<char>,
        derived: Option<(Seq<u8>, u8)>,
        now: Option<i64>,
    },
    LikePost { accounts: LikePostView },
    CommentPost {
        accounts: CommentPostView,
        content: Seq<char>,
        derived: Option<(Seq<u8>, u8)>,
        now: Option<i64>,
    },
}

impl LedgerView {
    /// The state after one call: the next state where the call succeeds, the
    /// same state where it fails.
    pub open spec fn step(self, op: Operation) -> LedgerView {
        match op {
            Operation::InitializePlatform { authority, derived } => match self.initialize_platform(
                authority,
                derived,
            ) {
                Ok((next, _)) => next,
                Err(_) => self,
            },
            Operation::SignupUser { authority, name, avatar, derived } => match self.signup_user(
                authority,
                name,
                avatar,
                derived,
            ) {
                Ok((next, _)) => next,
                Err(_) => self,
            },
            Operation::CreatePost { accounts, content, derived, now } => match self.create_post(
                accounts,
                content,
                derived,
                now,
            ) {
                Ok((next, _)) => next,
                Err(_) => self,
            },
            Operation::LikePost { accounts } => match self.like_post(accounts) {
                Ok((next, _)) => next,
                Err(_) => self,
            },
            Operation::CommentPost { accounts, content, derived, now } => match self.comment_post(
                accounts,
                content,
                derived,
                now,
            ) {
                Ok((next, _)) => next,
                Err(_) => self,
            },
        }
    }

    /// The state after a sequence of calls, one after the other.
    pub open spec fn run(self, ops: Seq<Operation>) -> LedgerView
        decreases ops.len(),
    {
        if ops.len() == 0 {
            self
        } else {
            self.run(ops.drop_last()).step(ops.last())
        }
    }

    /// The state of a deployment in which nothing was done yet.
    pub open spec fn is_empty(self) -> bool {
        self.records == Map::<Seq<u8>, crate::store::SlotView>::empty()
    }
}

/// One call keeps a consistent state consistent.
pub proof fn law_step_keeps_consistent(state: LedgerView, op: Operation)
    requires
        state.consistent(),
    ensures
        state.step(op).consistent(),
{
    match op {
        Operation::LikePost { accounts } => {
            if let Ok((next, _)) = state.like_post(accounts) {
                let post = state.post_at(accounts.post).unwrap();
                assert(state.records.contains_key(accounts.post));
                lemma_liked_consistent(post, accounts.user);
                assert forall|key: Seq<u8>| #[trigger]
                    next.records.contains_key(key) implies next.records[key].record.consistent() by {
                    if key != accounts.post {
                        assert(state.records.contains_key(key));
                    }
                }
            }
        },
        Operation::CreatePost { accounts, content, derived, now } => {
            if let Ok((next, _)) = state.create_post(accounts, content, derived, now) {
                assert forall|key: Seq<u8>| #[trigger]
                    next.records.contains_key(key) implies next.records[key].record.consistent() by {
                    if key != accounts.platform && key != accounts.profile
                        && key != derived.unwrap().0 {
                        assert(state.records.contains_key(key));
                    }
                }
            }
        },
        Operation::CommentPost { accounts, content, derived, now } => {
            if let Ok((next, _)) = state.comment_post(accounts, content, derived, now) {
                assert(state.records.contains_key(accounts.post));
                assert forall|key: Seq<u8>| #[trigger]
                    next.records.contains_key(key) implies next.records[key].record.consistent() by {
                    if key != accounts.post && key != derived.unwrap().0 {
                        assert(state.records.contains_key(key));
                    }
                }
            }
        },
        Operation::InitializePlatform { authority, derived } => {
            if let Ok((next, _)) = state.initialize_platform(authority, derived) {
                assert forall|key: Seq<u8>| #[trigger]
                    next.records.contains_key(key) implies next.records[key].record.consistent() by {
                    if key != derived.unwrap().0 {
                        assert(state.records.contains_key(key));
                    }
                }
            }
        },
        Operation::SignupUser { authority, name, avatar, derived } => {
            if let Ok((next, _)) = state.signup_user(authority, name, avatar, derived) {
                assert forall|key: Seq<u8>| #[trigger]
                    next.records.contains_key(key) implies next.records[key].record.consistent() by {
                    if key != derived.unwrap().0 {
                        assert(state.records.contains_key(key));
                    }
                }
            }
        },
    }
}

/// After every sequence of calls on an empty deployment, every stored record
/// is consistent: the like count of each post equals the size of its like
/// set, and no user is in a like set twice.
pub proof fn law_likes_match_like_set(start: LedgerView, ops: Seq<Operation>, post: Seq<u8>)
    requires
        start.is_empty(),
    ensures
        start.run(ops).consistent(),
        start.run(ops).post_at(post) is Ok ==> {
            let p = start.run(ops).post_at(post).unwrap();
            p.likes == p.likes_by.len() && p.likes_by.no_duplicates()
        },
    decreases ops.len(),
{
    if ops.len() == 0 {
    } else {
        law_likes_match_like_set(start, ops.drop_last(), post);
        law_step_keeps_consistent(start.run(ops.drop_last()), ops.last());
    }
    let end = start.run(ops);
    if end.post_at(post) is Ok {
        assert(end.records.contains_key(post));
    }
}

/// A post that was created raises the post counters of the platform and of
/// the author's profile by exactly one each, stands at the derived address
/// with no likes and no comments, and leaves every other record as it was.
pub proof fn law_create_post_counts(
    state: LedgerView,
    accounts: CreatePostView,
    content: Seq<char>,
    derived: Option<(Seq<u8>, u8)>,
    now: Option<i64>,
)
    requires
        state.create_post(accounts, content, derived, now) is Ok,
    ensures
        ({
            let next = state.create_post(accounts, content, derived, now).unwrap().0;
            let address = derived.unwrap().0;
            &&& next.platform_at(accounts.platform).unwrap().post_count
                == state.platform_at(accounts.platform).unwrap().post_count + 1
            &&& next.user_at(accounts.profile).unwrap().post_count == state.user_at(
                accounts.profile,
            ).unwrap().post_count + 1
            &&& !state.records.contains_key(address)
            &&& next.post_at(address) is Ok
            &&& next.post_at(address).unwrap().likes == 0
            &&& next.post_at(address).unwrap().comment_count == 0
            &&& next.post_at(address).unwrap().content == content
            &&& forall|key: Seq<u8>|
                key != accounts.platform && key != accounts.profile && key != address ==> (
                next.records.contains_key(key) <==> state.records.contains_key(key)) && (
                state.records.contains_key(key) ==> next.records[key] == state.records[key])
        }),
{
}

/// A first like by a user raises the post's like count by one; a second like
/// by the same user on the same post fails with `AlreadyLiked` and leaves the
/// state as it was.
pub proof fn law_like_once(state: LedgerView, accounts: LikePostView)
    requires
        state.like_post(accounts) is Ok,
    ensures
        ({
            let next = state.like_post(accounts).unwrap().0;
            &&& next.post_at(accounts.post).unwrap().likes == state.post_at(
                accounts.post,
            ).unwrap().likes + 1
            &&& next.post_at(accounts.post).unwrap().likes_by == state.post_at(
                accounts.post,
            ).unwrap().likes_by.push(accounts.user)
            &&& next.like_post(accounts) == Err::<(LedgerView, crate::event::NotificationView), _>(
                PlatformError::AlreadyLiked,
            )
            &&& next.step(Operation::LikePost { accounts }) == next
        }),
{
    let post = state.post_at(accounts.post).unwrap();
    let liked = post.liked(accounts.user);
    assert(liked.likes_by[post.likes_by.len() as int] == accounts.user);
    assert(liked.likes_by.contains(accounts.user));
}

/// A post with empty content is refused with `EmptyPostContent`, whatever
/// else is handed in, and no record is created or changed: where the address
/// that the post would have had was free, nothing is found there afterwards.
pub proof fn law_empty_post_rejected(
    state: LedgerView,
    accounts: CreatePostView,
    content: Seq<char>,
    derived: Option<(Seq<u8>, u8)>,
    now: Option<i64>,
)
    requires
        content.len() == 0,
    ensures
        state.create_post(accounts, content, derived, now) == Err::<
            (LedgerView, crate::event::NotificationView),
            _,
        >(PlatformError::EmptyPostContent),
        state.step(Operation::CreatePost { accounts, content, derived, now }) == state,
        derived is Some && !state.records.contains_key(derived.unwrap().0) ==> state.step(
            Operation::CreatePost { accounts, content, derived, now },
        ).post_at(derived.unwrap().0) == Err::<crate::states::UserPostView, _>(
            PlatformError::NotFound,
        ),
{
}

/// Two comments created one after the other on the same post stand at
/// different addresses, and the post's comment counter has gone up by two.
pub proof fn law_comments_in_sequence(
    state: LedgerView,
    first: CommentPostView,
    first_content: Seq<char>,
    first_derived: Option<(Seq<u8>, u8)>,
    first_now: Option<i64>,
    second: CommentPostView,
    second_content: Seq<char>,
    second_derived: Option<(Seq<u8>, u8)>,
    second_now: Option<i64>,
)
    requires
        first.post == second.post,
        state.comment_post(first, first_content, first_derived, first_now) is Ok,
        state.comment_post(first, first_content, first_derived, first_now).unwrap().0.comment_post(
            second,
            second_content,
            second_derived,
            second_now,
        ) is Ok,
    ensures
        ({
            let middle = state.comment_post(
                first,
                first_content,
                first_derived,
                first_now,
            ).unwrap().0;
            let end = middle.comment_post(
                second,
                second_content,
                second_derived,
                second_now,
            ).unwrap().0;
            &&& first_derived.unwrap().0 != second_derived.unwrap().0
            &&& middle.post_at(first.post).unwrap().comment_count == state.post_at(
                first.post,
            ).unwrap().comment_count + 1
            &&& end.post_at(first.post).unwrap().comment_count == state.post_at(
                first.post,
            ).unwrap().comment_count + 2
            &&& end.records.contains_key(first_derived.unwrap().0)
            &&& end.records.contains_key(second_derived.unwrap().0)
        }),
{
}

/// Once an authority has signed up, a second signup for the same authority
/// with a valid name and avatar fails with `AlreadyRegistered`, and the first
/// profile stays as it was created.
pub proof fn law_signup_once(
    state: LedgerView,
    authority: Seq<u8>,
    name: Seq<char>,
    avatar: Seq<char>,
    again_name: Seq<char>,
    again_avatar: Seq<char>,
)
    requires
        state.signup_user(
            authority,
            name,
            avatar,
            program_address(user_seeds(authority), state.program),
        ) is Ok,
        user_data_outcome(again_name, again_avatar) is Ok,
    ensures
        ({
            let derived = program_address(user_seeds(authority), state.program);
            let (next, address) = state.signup_user(authority, name, avatar, derived).unwrap();
            let again = Operation::SignupUser {
                authority,
                name: again_name,
                avatar: again_avatar,
                derived: program_address(user_seeds(authority), next.program),
            };
            &&& next.signup_user(
                authority,
                again_name,
                again_avatar,
                program_address(user_seeds(authority), next.program),
            ) == Err::<(LedgerView, Seq<u8>), _>(PlatformError::AlreadyRegistered)
            &&& next.step(again) == next
            &&& next.user_at(address) == Ok::<_, PlatformError>(
                UserProfileView { authority, name, avatar, post_count: 0 },
            )
        }),
{
}

/// Once the platform is set up, setting it up again fails with
/// `AlreadyInitialized` and leaves the state as it was: a deployment has one
/// platform record.
pub proof fn law_platform_once(state: LedgerView, authority: Seq<u8>, again: Seq<u8>)
    requires
        state.initialize_platform(
            authority,
            program_address(platform_seeds(), state.program),
        ) is Ok,
    ensures
        ({
            let derived = program_address(platform_seeds(), state.program);
            let (next, address) = state.initialize_platform(authority, derived).unwrap();
            &&& next.initialize_platform(again, program_address(platform_seeds(), next.program))
                == Err::<(LedgerView, Seq<u8>), _>(PlatformError::AlreadyInitialized)
            &&& next.platform_at(address) == Ok::<_, PlatformError>(
                crate::states::PlatformView { authority, post_count: 0 },
            )
        }),
{
}

/// Where posts are addressed by content, an author who has created a post
/// cannot create a second one with the same content: the second call finds
/// the derived address occupied.
pub proof fn law_same_content_collides(
    state: LedgerView,
    accounts: CreatePostView,
    content: Seq<char>,
    now: Option<i64>,
    later: Option<i64>,
)
    requires
        state.profile == AddressingProfile::ContentAddressed,
        state.create_post(accounts, content, state.post_address(accounts, content), now) is Ok,
    ensures
        ({
            let next = state.create_post(
                accounts,
                content,
                state.post_address(accounts, content),
                now,
            ).unwrap().0;
            &&& next.post_address(accounts, content) == state.post_address(accounts, content)
            &&& next.create_post(accounts, content, next.post_address(accounts, content), later)
                == Err::<(LedgerView, crate::event::NotificationView), _>(
                PlatformError::AddressAlreadyInUse,
            )
        }),
{
    let derived = state.post_address(accounts, content);
    let next = state.create_post(accounts, content, derived, now).unwrap().0;
    assert(next.post_sequence(accounts, content) is Ok);
    assert(post_seeds(
        next.profile,
        accounts.authority,
        content,
        next.post_sequence(accounts, content).unwrap(),
    ) == post_seeds(
        state.profile,
        accounts.authority,
        content,
        state.post_sequence(accounts, content).unwrap(),
    ));
}

/// How a stored record may differ from what it was: its kind and its fixed
/// fields stay, counters do not fall, and a like set only grows at its end.
pub open spec fn evolves(before: RecordView, after: RecordView) -> bool {
    match (before, after) {
        (RecordView::Platform(a), RecordView::Platform(b)) => {
            &&& b.authority == a.authority
            &&& a.post_count <= b.post_count
        },
        (RecordView::User(a), RecordView::User(b)) => {
            &&& b.authority == a.authority
            &&& b.name == a.name
            &&& b.avatar == a.avatar
            &&& a.post_count <= b.post_count
        },
        (RecordView::Post(a), RecordView::Post(b)) => {
            &&& b.authority == a.authority
            &&& b.author == a.author
            &&& b.content == a.content
            &&& b.created_at == a.created_at
            &&& a.comment_count <= b.comment_count
            &&& a.likes <= b.likes
            &&& a.likes_by.is_prefix_of(b.likes_by)
        },
        (RecordView::Comment(a), RecordView::Comment(b)) => a == b,
        _ => false,
    }
}

/// One call removes no record and moves none: each stays at its address with
/// its space, and differs from what it was only as `evolves` allows.
pub proof fn law_step_keeps_records(state: LedgerView, op: Operation, key: Seq<u8>)
    requires
        state.records.contains_key(key),
    ensures
        state.step(op).records.contains_key(key),
        state.step(op).records[key].space == state.records[key].space,
        evolves(state.records[key].record, state.step(op).records[key].record),
        state.step(op).program == state.program,
        state.step(op).profile == state.profile,
{
    match op {
        Operation::LikePost { accounts } => {
            if state.like_post(accounts) is Ok {
                let post = state.post_at(accounts.post).unwrap();
                assert(post.likes_by.is_prefix_of(post.liked(accounts.user).likes_by));
            }
        },
        _ => {},
    }
    let r = state.records[key].record;
    match r {
        RecordView::Post(p) => {
            assert(p.likes_by.is_prefix_of(p.likes_by));
        },
        _ => {},
    }
}

/// The same after every sequence of calls: records are created once, never
/// removed, and change only as `evolves` allows.
pub proof fn law_run_keeps_records(state: LedgerView, ops: Seq<Operation>, key: Seq<u8>)
    requires
        state.records.contains_key(key),
    ensures
        state.run(ops).records.contains_key(key),
        state.run(ops).records[key].space == state.records[key].space,
        evolves(state.records[key].record, state.run(ops).records[key].record),
        state.run(ops).program == state.program,
        state.run(ops).profile == state.profile,
    decreases ops.len(),
{
    if ops.len() == 0 {
        match state.records[key].record {
            RecordView::Post(p) => {
                assert(p.likes_by.is_prefix_of(p.likes_by));
            },
            _ => {},
        }
    } else {
        let middle = state.run(ops.drop_last());
        law_run_keeps_records(state, ops.drop_last(), key);
        law_step_keeps_records(middle, ops.last(), key);
        match (
            state.records[key].record,
            middle.records[key].record,
            state.run(ops).records[key].record,
        ) {
            (RecordView::Post(a), RecordView::Post(b), RecordView::Post(c)) => {
                assert(a.likes_by.is_prefix_of(c.likes_by)) by {
                    assert forall|i: int| 0 <= i < a.likes_by.len() implies a.likes_by[i]
                        == c.likes_by[i] by {
                        assert(a.likes_by[i] == b.likes_by[i]);
                        assert(b.likes_by[i] == c.likes_by[i]);
                    }
                }
            },
            _ => {},
        }
    }
}

impl LedgerView {
    /// The addresses of the comments stored for a post.
    pub open spec fn comments_on(self, post: Seq<u8>) -> Set<Seq<u8>> {
        Set::new(
            |key: Seq<u8>| self.comment_at(key) is Ok && self.comment_at(key).unwrap().post == post,
        )
    }

    /// Finitely many addresses are occupied, every comment belongs to a
    /// stored post, and the comment counter of every post equals the number
    /// of comments stored for it.
    pub open spec fn comments_counted(self) -> bool {
        &&& self.records.dom().finite()
        &&& forall|key: Seq<u8>| #[trigger]
            self.comment_at(key) is Ok ==> self.post_at(self.comment_at(key).unwrap().post) is Ok
        &&& forall|key: Seq<u8>| #[trigger]
            self.post_at(key) is Ok ==> self.comments_on(key).len() == self.post_at(
                key,
            ).unwrap().comment_count
    }
}

/// Where two states store the same comments, each post has the same
/// comments in both.
proof fn lemma_same_comments(state: LedgerView, next: LedgerView)
    requires
        forall|key: Seq<u8>| next.comment_at(key) is Ok <==> state.comment_at(key) is Ok,
        forall|key: Seq<u8>|
            state.comment_at(key) is Ok ==> next.comment_at(key) == state.comment_at(key),
    ensures
        forall|post: Seq<u8>| #[trigger] next.comments_on(post) == state.comments_on(post),
{
    assert forall|post: Seq<u8>| #[trigger] next.comments_on(post) == state.comments_on(post) by {
        assert(next.comments_on(post) =~= state.comments_on(post));
    }
}

/// One call keeps the comment counters in step with the stored comments.
pub proof fn law_step_keeps_comments_counted(state: LedgerView, op: Operation)
    requires
        state.comments_counted(),
    ensures
        state.step(op).comments_counted(),
{
    let next = state.step(op);
    match op {
        Operation::CommentPost { accounts, content, derived, now } => {
            if state.comment_post(accounts, content, derived, now) is Ok {
                let address = derived.unwrap().0;
                assert(next.records.dom() =~= state.records.dom().insert(address));
                assert forall|key: Seq<u8>| #[trigger]
                    next.post_at(key) is Ok implies next.comments_on(key).len() == next.post_at(
                    key,
                ).unwrap().comment_count by {
                    assert(state.post_at(key) is Ok);
                    lemma_len_subset(state.comments_on(key), state.records.dom());
                    if key == accounts.post {
                        assert(next.comments_on(key) =~= state.comments_on(key).insert(address));
                        assert(!state.comments_on(key).contains(address));
                    } else {
                        assert(next.comments_on(key) =~= state.comments_on(key));
                    }
                }
                assert forall|key: Seq<u8>| #[trigger]
                    next.comment_at(key) is Ok implies next.post_at(
                    next.comment_at(key).unwrap().post,
                ) is Ok by {
                    if key != address {
                        assert(state.comment_at(key) is Ok);
                    }
                }
            }
        },
        Operation::CreatePost { accounts, content, derived, now } => {
            if state.create_post(accounts, content, derived, now) is Ok {
                let address = derived.unwrap().0;
                assert(next.records.dom() =~= state.records.dom().insert(address));
                assert forall|key: Seq<u8>|
                    next.comment_at(key) is Ok <==> state.comment_at(key) is Ok by {}
                lemma_same_comments(state, next);
                assert forall|key: Seq<u8>| #[trigger]
                    next.post_at(key) is Ok implies next.comments_on(key).len() == next.post_at(
                    key,
                ).unwrap().comment_count by {
                    if key == address {
                        assert(state.comments_on(key) =~= Set::<Seq<u8>>::empty()) by {
                            assert forall|c: Seq<u8>| !state.comments_on(key).contains(c) by {
                                if state.comment_at(c) is Ok && state.comment_at(c).unwrap().post
                                    == key {
                                    assert(state.post_at(key) is Ok);
                                }
                            }
                        }
                    } else {
                        assert(state.post_at(key) is Ok);
                    }
                }
                assert forall|key: Seq<u8>| #[trigger]
                    next.comment_at(key) is Ok implies next.post_at(
                    next.comment_at(key).unwrap().post,
                ) is Ok by {
                    assert(state.comment_at(key) is Ok);
                }
            }
        },
        Operation::LikePost { accounts } => {
            if state.like_post(accounts) is Ok {
                assert(next.records.dom() =~= state.records.dom());
                lemma_same_comments(state, next);
                assert forall|key: Seq<u8>| #[trigger]
                    next.post_at(key) is Ok implies next.comments_on(key).len() == next.post_at(
                    key,
                ).unwrap().comment_count by {
                    assert(state.post_at(key) is Ok);
                }
                assert forall|key: Seq<u8>| #[trigger]
                    next.comment_at(key) is Ok implies next.post_at(
                    next.comment_at(key).unwrap().post,
                ) is Ok by {
                    assert(state.comment_at(key) is Ok);
                }
            }
        },
        Operation::InitializePlatform { authority, derived } => {
            if state.initialize_platform(authority, derived) is Ok {
                let address = derived.unwrap().0;
                assert(next.records.dom() =~= state.records.dom().insert(address));
                lemma_same_comments(state, next);
                assert forall|key: Seq<u8>| #[trigger]
                    next.post_at(key) is Ok implies next.comments_on(key).len() == next.post_at(
                    key,
                ).unwrap().comment_count by {
                    assert(state.post_at(key) is Ok);
                }
                assert forall|key: Seq<u8>| #[trigger]
                    next.comment_at(key) is Ok implies next.post_at(
                    next.comment_at(key).unwrap().post,
                ) is Ok by {
                    assert(state.comment_at(key) is Ok);
                }
            }
        },
        Operation::SignupUser { authority, name, avatar, derived } => {
            if state.signup_user(authority, name, avatar, derived) is Ok {
                let address = derived.unwrap().0;
                assert(next.records.dom() =~= state.records.dom().insert(address));
                lemma_same_comments(state, next);
                assert forall|key: Seq<u8>| #[trigger]
                    next.post_at(key) is Ok implies next.comments_on(key).len() == next.post_at(
                    key,
                ).unwrap().comment_count by {
                    assert(state.post_at(key) is Ok);
                }
                assert forall|key: Seq<u8>| #[trigger]
                    next.comment_at(key) is Ok implies next.post_at(
                    next.comment_at(key).unwrap().post,
                ) is Ok by {
                    assert(state.comment_at(key) is Ok);
                }
            }
        },
    }
}

/// After every sequence of calls on an empty deployment, the comment counter
/// of each post equals the number of comments created on it.
pub proof fn law_comment_count_matches(start: LedgerView, ops: Seq<Operation>, post: Seq<u8>)
    requires
        start.is_empty(),
    ensures
        start.run(ops).comments_counted(),
        start.run(ops).post_at(post) is Ok ==> start.run(ops).comments_on(post).len()
            == start.run(ops).post_at(post).unwrap().comment_count,
    decreases ops.len(),
{
    if ops.len() == 0 {
        assert(start.records.dom() =~= Set::<Seq<u8>>::empty());
    } else {
        law_comment_count_matches(start, ops.drop_last(), post);
        law_step_keeps_comments_counted(start.run(ops.drop_last()), ops.last());
    }
}

impl LedgerView {
    /// Whether a call was handed the address that the host derives for it
    /// in this state.
    pub open spec fn faithful(self, op: Operation) -> bool {
        match op {
            Operation::InitializePlatform { derived, .. } => derived == program_address(
                platform_seeds(),
                self.program,
            ),
            Operation::SignupUser { authority, derived, .. } => derived == program_address(
                user_seeds(authority),
                self.program,
            ),
            Operation::CreatePost { accounts, content, derived, .. } => derived
                == self.post_address(accounts, content),
            Operation::LikePost { .. } => true,
            Operation::CommentPost { accounts, content, derived, .. } => derived
                == self.comment_address(accounts, content),
        }
    }

    /// Whether every call of a sequence was faithful in the state it met.
    pub open spec fn faithful_run(self, ops: Seq<Operation>) -> bool
        decreases ops.len(),
    {
        ops.len() == 0 || (self.faithful_run(ops.drop_last()) && self.run(
            ops.drop_last(),
        ).faithful(ops.last()))
    }

    /// Every platform record stands at the address of the platform's seeds,
    /// and every profile at the address of its authority's seeds.
    pub open spec fn placed(self) -> bool {
        forall|key: Seq<u8>| #[trigger]
            self.records.contains_key(key) ==> match self.records[key].record {
                RecordView::Platform(_) => {
                    let derived = program_address(platform_seeds(), self.program);
                    derived is Some && derived.unwrap().0 == key
                },
                RecordView::User(u) => {
                    let derived = program_address(user_seeds(u.authority), self.program);
                    derived is Some && derived.unwrap().0 == key
                },
                _ => true,
            }
    }
}

/// One faithful call keeps every platform record and every profile at the
/// address of its seeds.
pub proof fn law_step_keeps_placed(state: LedgerView, op: Operation)
    requires
        state.placed(),
        state.faithful(op),
    ensures
        state.step(op).placed(),
{
    let next = state.step(op);
    assert forall|key: Seq<u8>| #[trigger] next.records.contains_key(key) implies match next.records[key].record {
        RecordView::Platform(_) => {
            let derived = program_address(platform_seeds(), next.program);
            derived is Some && derived.unwrap().0 == key
        },
        RecordView::User(u) => {
            let derived = program_address(user_seeds(u.authority), next.program);
            derived is Some && derived.unwrap().0 == key
        },
        _ => true,
    } by {
        if state.records.contains_key(key) {
            law_step_keeps_records(state, op, key);
        }
    }
}

/// After every sequence of faithful calls on an empty deployment there is at
/// most one platform record, and at most one profile for each authority.
pub proof fn law_one_platform_one_profile_each(
    start: LedgerView,
    ops: Seq<Operation>,
    first: Seq<u8>,
    second: Seq<u8>,
)
    requires
        start.is_empty(),
        start.faithful_run(ops),
    ensures
        start.run(ops).placed(),
        start.run(ops).platform_at(first) is Ok && start.run(ops).platform_at(second) is Ok
            ==> first == second,
        start.run(ops).user_at(first) is Ok && start.run(ops).user_at(second) is Ok
            && start.run(ops).user_at(first).unwrap().authority == start.run(ops).user_at(
            second,
        ).unwrap().authority ==> first == second,
    decreases ops.len(),
{
    if ops.len() > 0 {
        law_one_platform_one_profile_each(start, ops.drop_last(), first, second);
        law_step_keeps_placed(start.run(ops.drop_last()), ops.last());
    }
    let end = start.run(ops);
    if end.platform_at(first) is Ok && end.platform_at(second) is Ok {
        assert(end.records.contains_key(first) && end.records.contains_key(second));
    }
    if end.user_at(first) is Ok && end.user_at(second) is Ok {
        assert(end.records.contains_key(first) && end.records.contains_key(second));
    }
}

} // verus!
