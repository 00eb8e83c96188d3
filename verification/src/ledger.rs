//! The ledger of one deployment and the operations that change it.

use vstd::prelude::*;
use vstd::bytes::u64_to_le_bytes;
use vstd::slice::slice_to_vec;
use crate::clock::unix_timestamp;
use crate::accounts::{AddressingProfile, CommentPost, CreatePost, LikePost};
use crate::address::{derived_view, program_address, seed_bytes, Address};
use crate::constant::{
    COMMENT_SPACE, COMMENT_TAG, PLATFORM_SPACE, PLATFORM_TAG, POST_SPACE, POST_TAG, USER_SPACE,
    USER_TAG,
};
use crate::event::{Notification, NotificationView};
use crate::error::PlatformError;
use crate::model::{comment_seeds, platform_seeds, post_seeds, user_seeds, LedgerView};
use crate::validate::{check_comment_content, check_post_content, check_user_data};
use crate::states::{holds_key, keys_view};
use crate::states::{Comment, Platform, Record, UserPost, UserProfile};
use crate::store::{SlotView, Store};

verus! {

/// The records of one deployment, the key of the program that owns them, and
/// the way post addresses are derived.
pub struct Ledger {
    program: Address,
    profile: AddressingProfile,
    store: Store,
}

/// Whether an operation that hands back an address ended as the model says:
/// with the next state and the address, or with the error and the state as
/// it was.
pub open spec fn address_outcome(
    before: LedgerView,
    after: LedgerView,
    r: Result<Address, PlatformError>,
    expected: Result<(LedgerView, Seq<u8>), PlatformError>,
) -> bool {
    match expected {
        Ok((next, key)) => after == next && match r {
            Ok(address) => address@ == key,
            Err(_) => false,
        },
        Err(e) => after == before && r == Err::<Address, _>(e),
    }
}

/// Whether an operation that hands back a notification ended as the model
/// says: with the next state and the notification, or with the error and the
/// state as it was.
pub open spec fn event_outcome(
    before: LedgerView,
    after: LedgerView,
    r: Result<Notification, PlatformError>,
    expected: Result<(LedgerView, NotificationView), PlatformError>,
) -> bool {
    match expected {
        Ok((next, event)) => after == next && match r {
            Ok(notification) => notification@ == event,
            Err(_) => false,
        },
        Err(e) => after == before && match r {
            Ok(_) => false,
            Err(reported) => reported == e,
        },
    }
}

/// The bytes of an array as a vector.
pub fn bytes_of<const N: usize>(bytes: &[u8; N]) -> (v: Vec<u8>)
    ensures
        v@ == bytes@,
{
    let mut v: Vec<u8> = Vec::new();
    let mut i: usize = 0;
    while i < N
        invariant
            i <= N,
            v@ == bytes@.subrange(0, i as int),
        decreases N - i,
    {
        v.push(bytes[i]);
        assert(v@ =~= bytes@.subrange(0, i + 1));
        i += 1;
    }
    assert(v@ =~= bytes@);
    v
}

impl Ledger {
    /// The state that the ledger stands for.
    pub closed spec fn view(&self) -> LedgerView {
        LedgerView { program: self.program@, profile: self.profile, records: self.store@ }
    }

    /// No address is stored twice, and every stored record is consistent.
    pub closed spec fn wf(&self) -> bool {
        self.store.wf() && self@.consistent()
    }

    /// In a well-formed ledger every stored record is consistent: the like
    /// count of every post equals the size of its like set, and no user is in
    /// a like set twice.
    pub proof fn law_stored_records_consistent(&self, post: Seq<u8>)
        requires
            self.wf(),
        ensures
            self@.consistent(),
            self@.post_at(post) is Ok ==> self@.post_at(post).unwrap().likes_consistent(),
    {
        if self@.post_at(post) is Ok {
            assert(self@.records.contains_key(post));
        }
    }

    /// An empty ledger for a program.
    pub fn new(program: Address, profile: AddressingProfile) -> (ledger: Ledger)
        ensures
            ledger.wf(),
            ledger@ == (LedgerView {
                program: program@,
                profile,
                records: Map::<Seq<u8>, SlotView>::empty(),
            }),
    {
        Ledger { program, profile, store: Store::new() }
    }

    /// The key of the program that owns the records.
    pub fn program(&self) -> (a: Address)
        ensures
            a@ == self@.program,
    {
        self.program
    }

    /// How post addresses are derived.
    pub fn profile(&self) -> (p: AddressingProfile)
        ensures
            p == self@.profile,
    {
        self.profile
    }

    /// The platform record at an address.
    pub fn platform(&self, address: &Address) -> (r: Result<&Platform, PlatformError>)
        requires
            self.wf(),
        ensures
            match r {
                Ok(p) => self@.platform_at(address@) == Ok::<_, PlatformError>(p@),
                Err(e) => self@.platform_at(address@) == Err::<crate::states::PlatformView, _>(e),
            },
    {
        match self.store.load(address) {
            Err(e) => Err(e),
            Ok(Record::Platform(p)) => Ok(p),
            Ok(_) => Err(PlatformError::SchemaMismatch),
        }
    }

    /// The user profile at an address.
    pub fn user(&self, address: &Address) -> (r: Result<&UserProfile, PlatformError>)
        requires
            self.wf(),
        ensures
            match r {
                Ok(u) => self@.user_at(address@) == Ok::<_, PlatformError>(u@),
                Err(e) => self@.user_at(address@) == Err::<crate::states::UserProfileView, _>(e),
            },
    {
        match self.store.load(address) {
            Err(e) => Err(e),
            Ok(Record::User(u)) => Ok(u),
            Ok(_) => Err(PlatformError::SchemaMismatch),
        }
    }

    /// The post at an address.
    pub fn post(&self, address: &Address) -> (r: Result<&UserPost, PlatformError>)
        requires
            self.wf(),
        ensures
            match r {
                Ok(p) => self@.post_at(address@) == Ok::<_, PlatformError>(p@),
                Err(e) => self@.post_at(address@) == Err::<crate::states::UserPostView, _>(e),
            },
    {
        match self.store.load(address) {
            Err(e) => Err(e),
            Ok(Record::Post(p)) => Ok(p),
            Ok(_) => Err(PlatformError::SchemaMismatch),
        }
    }

    /// The comment at an address.
    pub fn comment(&self, address: &Address) -> (r: Result<&Comment, PlatformError>)
        requires
            self.wf(),
        ensures
            match r {
                Ok(c) => self@.comment_at(address@) == Ok::<_, PlatformError>(c@),
                Err(e) => self@.comment_at(address@) == Err::<crate::states::CommentView, _>(e),
            },
    {
        match self.store.load(address) {
            Err(e) => Err(e),
            Ok(Record::Comment(c)) => Ok(c),
            Ok(_) => Err(PlatformError::SchemaMismatch),
        }
    }

    /// Whether a record is stored at an address.
    pub fn contains(&self, address: &Address) -> (r: bool)
        requires
            self.wf(),
        ensures
            r == self@.records.contains_key(address@),
    {
        self.store.contains(address)
    }

    /// The space allocated at an address, if it is occupied.
    pub fn space(&self, address: &Address) -> (r: Option<u64>)
        requires
            self.wf(),
        ensures
            match r {
                Some(space) => self@.records.contains_key(address@) && space
                    == self@.records[address@].space,
                None => !self@.records.contains_key(address@),
            },
    {
        self.store.space(address)
    }
}

/// Sets up the platform at the address that the host derived from the
/// platform's seeds.
pub fn initialize_platform_at(
    ledger: &mut Ledger,
    authority: Address,
    derived: Option<(Address, u8)>,
) -> (r: Result<Address, PlatformError>)
    requires
        old(ledger).wf(),
    ensures
        final(ledger).wf(),
        address_outcome(
            old(ledger)@,
            final(ledger)@,
            r,
            old(ledger)@.initialize_platform(authority@, derived_view(derived)),
        ),
{
    let address = match derived {
        None => { return Err(PlatformError::AddressDerivationError); },
        Some((a, _)) => a,
    };
    let record = Record::Platform(Platform { authority, post_count: 0 });
    match ledger.store.create(address, record, PLATFORM_SPACE) {
        Err(_) => Err(PlatformError::AlreadyInitialized),
        Ok(()) => Ok(address),
    }
}

/// Sets up the platform: creates its singleton record with a post counter of
/// zero and the caller as authority. Fails with `AlreadyInitialized` where
/// the record exists.
pub fn initialize_platform(ledger: &mut Ledger, authority: Address) -> (r: Result<
    Address,
    PlatformError,
>)
    requires
        old(ledger).wf(),
    ensures
        final(ledger).wf(),
        address_outcome(
            old(ledger)@,
            final(ledger)@,
            r,
            old(ledger)@.initialize_platform(
                authority@,
                program_address(platform_seeds(), old(ledger)@.program),
            ),
        ),
{
    let derived = match crate::address::derive_address(bytes_of(&PLATFORM_TAG), Vec::new(), &ledger.program) {
        Ok(pair) => Some(pair),
        Err(_) => None,
    };
    assert(seq![PLATFORM_TAG@] + seed_bytes(Seq::<Vec<u8>>::empty()) =~= platform_seeds());
    initialize_platform_at(ledger, authority, derived)
}

/// Registers a user at the address that the host derived from the
/// authority's seeds.
pub fn signup_user_at(
    ledger: &mut Ledger,
    authority: Address,
    name: String,
    avatar: String,
    derived: Option<(Address, u8)>,
) -> (r: Result<Address, PlatformError>)
    requires
        old(ledger).wf(),
    ensures
        final(ledger).wf(),
        address_outcome(
            old(ledger)@,
            final(ledger)@,
            r,
            old(ledger)@.signup_user(authority@, name@, avatar@, derived_view(derived)),
        ),
{
    if let Err(e) = check_user_data(&name, &avatar) {
        return Err(e);
    }
    let address = match derived {
        None => { return Err(PlatformError::AddressDerivationError); },
        Some((a, _)) => a,
    };
    let record = Record::User(UserProfile { authority, name, avatar, post_count: 0 });
    match ledger.store.create(address, record, USER_SPACE) {
        Err(_) => Err(PlatformError::AlreadyRegistered),
        Ok(()) => Ok(address),
    }
}

/// Registers a user: creates the profile of an authority, with a post counter
/// of zero, at the address derived from the authority's key. Fails with
/// `EmptyUserData` where the name or the avatar is empty, with
/// `ContentTooLong` where one of them exceeds its limit, and with
/// `AlreadyRegistered` where the authority has a profile.
pub fn signup_user(ledger: &mut Ledger, authority: Address, name: String, avatar: String) -> (r:
    Result<Address, PlatformError>)
    requires
        old(ledger).wf(),
    ensures
        final(ledger).wf(),
        address_outcome(
            old(ledger)@,
            final(ledger)@,
            r,
            old(ledger)@.signup_user(
                authority@,
                name@,
                avatar@,
                program_address(user_seeds(authority@), old(ledger)@.program),
            ),
        ),
{
    let mut seeds: Vec<Vec<u8>> = Vec::new();
    seeds.push(bytes_of(&authority.bytes));
    assert(seq![USER_TAG@] + seed_bytes(seeds@) =~= user_seeds(authority@));
    let derived = match crate::address::derive_address(bytes_of(&USER_TAG), seeds, &ledger.program) {
        Ok(pair) => Some(pair),
        Err(_) => None,
    };
    signup_user_at(ledger, authority, name, avatar, derived)
}

/// Records that a user likes a post: adds the user's profile address to the
/// post's like set and raises its like count by one. Fails with
/// `AlreadyLiked` where the user is in the set. Any registered user may like
/// any post, their own included.
pub fn like_post(ledger: &mut Ledger, accounts: &LikePost) -> (r: Result<
    Notification,
    PlatformError,
>)
    requires
        old(ledger).wf(),
    ensures
        final(ledger).wf(),
        event_outcome(old(ledger)@, final(ledger)@, r, old(ledger)@.like_post(accounts@)),
{
    match ledger.post(&accounts.post) {
        Err(e) => { return Err(e); },
        Ok(post) => {
            match ledger.user(&accounts.user) {
                Err(e) => { return Err(e); },
                Ok(_) => {},
            }
            if holds_key(&post.likes_by, &accounts.user) {
                return Err(PlatformError::AlreadyLiked);
            }
            if post.likes == u64::MAX {
                return Err(PlatformError::CounterOverflow);
            }
        },
    }
    match ledger.store.load_mut(&accounts.post) {
        Ok(Record::Post(post)) => {
            let _ = post.like(accounts.user);
        },
        _ => {},
    }
    proof {
        assert(ledger@.records =~= old(ledger)@.like_post(accounts@).unwrap().0.records);
    }
    Ok(Notification::Liked { post: accounts.post, user: accounts.user })
}

/// Creates a post at the address that the host derived from the post's
/// seeds, with the clock's reading as its time of creation.
pub fn create_post_at(
    ledger: &mut Ledger,
    accounts: &CreatePost,
    content: String,
    derived: Option<(Address, u8)>,
    now: Option<i64>,
) -> (r: Result<Notification, PlatformError>)
    requires
        old(ledger).wf(),
    ensures
        final(ledger).wf(),
        event_outcome(
            old(ledger)@,
            final(ledger)@,
            r,
            old(ledger)@.create_post(accounts@, content@, derived_view(derived), now),
        ),
{
    if let Err(e) = check_post_content(&content) {
        return Err(e);
    }
    let platform_count = match ledger.platform(&accounts.platform) {
        Err(e) => { return Err(e); },
        Ok(platform) => platform.post_count,
    };
    let address = match derived {
        None => { return Err(PlatformError::AddressDerivationError); },
        Some((a, _)) => a,
    };
    match ledger.user(&accounts.profile) {
        Err(e) => { return Err(e); },
        Ok(user) => {
            if let Err(e) = user.authorize(&accounts.authority) {
                return Err(e);
            }
            if ledger.store.contains(&address) {
                return Err(PlatformError::AddressAlreadyInUse);
            }
            if platform_count == u64::MAX || user.post_count == u64::MAX {
                return Err(PlatformError::CounterOverflow);
            }
        },
    }
    let created_at = match now {
        None => { return Err(PlatformError::ClockUnavailable); },
        Some(seconds) => seconds,
    };
    let announced = content.clone();
    let post = UserPost {
        authority: accounts.authority,
        author: accounts.profile,
        content,
        likes: 0,
        likes_by: Vec::new(),
        comment_count: 0,
        created_at,
    };
    assert(keys_view(post.likes_by@) =~= Seq::<Seq<u8>>::empty());
    let _ = ledger.store.create(address, Record::Post(post), POST_SPACE);
    match ledger.store.load_mut(&accounts.platform) {
        Ok(Record::Platform(platform)) => {
            let _ = platform.next_sequence();
        },
        _ => {},
    }
    match ledger.store.load_mut(&accounts.profile) {
        Ok(Record::User(user)) => {
            let _ = user.increment_post_count();
        },
        _ => {},
    }
    proof {
        let expected = old(ledger)@.create_post(
            accounts@,
            content@,
            derived_view(derived),
            now,
        ).unwrap().0;
        assert(ledger@.records =~= expected.records);
    }
    Ok(
        Notification::PostCreated { post: address, author: accounts.profile, content: announced },
    )
}

/// Comments on a post at the address that the host derived from the
/// comment's seeds, with the clock's reading as its time of creation.
pub fn comment_post_at(
    ledger: &mut Ledger,
    accounts: &CommentPost,
    content: String,
    derived: Option<(Address, u8)>,
    now: Option<i64>,
) -> (r: Result<Notification, PlatformError>)
    requires
        old(ledger).wf(),
    ensures
        final(ledger).wf(),
        event_outcome(
            old(ledger)@,
            final(ledger)@,
            r,
            old(ledger)@.comment_post(accounts@, content@, derived_view(derived), now),
        ),
{
    if let Err(e) = check_comment_content(&content) {
        return Err(e);
    }
    let comment_count = match ledger.post(&accounts.post) {
        Err(e) => { return Err(e); },
        Ok(post) => post.comment_count,
    };
    let address = match derived {
        None => { return Err(PlatformError::AddressDerivationError); },
        Some((a, _)) => a,
    };
    match ledger.user(&accounts.profile) {
        Err(e) => { return Err(e); },
        Ok(_) => {},
    }
    if ledger.store.contains(&address) {
        return Err(PlatformError::AddressAlreadyInUse);
    }
    if comment_count == u64::MAX {
        return Err(PlatformError::CounterOverflow);
    }
    let created_at = match now {
        None => { return Err(PlatformError::ClockUnavailable); },
        Some(seconds) => seconds,
    };
    let announced = content.clone();
    let comment = Comment {
        authority: accounts.authority,
        author: accounts.profile,
        post: accounts.post,
        content,
        created_at,
    };
    let _ = ledger.store.create(address, Record::Comment(comment), COMMENT_SPACE);
    match ledger.store.load_mut(&accounts.post) {
        Ok(Record::Post(post)) => {
            let _ = post.next_comment_sequence();
        },
        _ => {},
    }
    proof {
        let expected = old(ledger)@.comment_post(
            accounts@,
            content@,
            derived_view(derived),
            now,
        ).unwrap().0;
        assert(ledger@.records =~= expected.records);
    }
    Ok(
        Notification::CommentCreated {
            comment: address,
            post: accounts.post,
            author: accounts.profile,
            content: announced,
        },
    )
}

/// The address that the host derives for a new post, as the ledger's
/// addressing profile says: from the author's key and the content, or from
/// the platform's post counter. Fails as `create_post` does before it
/// derives an address: on empty or overlong content, and where the platform
/// record cannot be loaded.
pub fn post_address(ledger: &Ledger, accounts: &CreatePost, content: &String) -> (r: Result<
    Option<(Address, u8)>,
    PlatformError,
>)
    requires
        ledger.wf(),
    ensures
        match ledger@.post_sequence(accounts@, content@) {
            Err(e) => r == Err::<Option<(Address, u8)>, _>(e),
            Ok(_) => match r {
                Ok(derived) => derived_view(derived) == ledger@.post_address(accounts@, content@),
                Err(_) => false,
            },
        },
{
    if let Err(e) = check_post_content(content) {
        return Err(e);
    }
    let sequence = match ledger.platform(&accounts.platform) {
        Err(e) => { return Err(e); },
        Ok(platform) => platform.post_count,
    };
    let mut seeds: Vec<Vec<u8>> = Vec::new();
    match ledger.profile {
        AddressingProfile::ContentAddressed => {
            seeds.push(bytes_of(&accounts.authority.bytes));
            seeds.push(slice_to_vec(content.as_str().as_bytes()));
        },
        AddressingProfile::SequenceAddressed => {
            seeds.push(u64_to_le_bytes(sequence));
        },
    }
    assert(seq![POST_TAG@] + seed_bytes(seeds@) =~= post_seeds(
        ledger@.profile,
        accounts@.authority,
        content@,
        sequence,
    ));
    match crate::address::derive_address(bytes_of(&POST_TAG), seeds, &ledger.program) {
        Ok(pair) => Ok(Some(pair)),
        Err(_) => Ok(None),
    }
}

/// Creates a post under a profile: a record with no likes and no comments,
/// at the address derived as the ledger's addressing profile says, and the
/// post counters of the platform and of the profile each raised by one.
/// Fails with `EmptyPostContent` where the content is empty, with
/// `ContentTooLong` where it exceeds its limit, with `Unauthorized` where the
/// signing key is not the profile's authority, and with `AddressAlreadyInUse`
/// where the derived address is occupied. The clock's reading becomes the
/// time of creation: the outcome is the model's for some reading.
pub fn create_post(ledger: &mut Ledger, accounts: &CreatePost, content: String) -> (r: Result<
    Notification,
    PlatformError,
>)
    requires
        old(ledger).wf(),
    ensures
        final(ledger).wf(),
        exists|now: Option<i64>|
            event_outcome(
                old(ledger)@,
                final(ledger)@,
                r,
                #[trigger] old(ledger)@.create_post(
                    accounts@,
                    content@,
                    old(ledger)@.post_address(accounts@, content@),
                    now,
                ),
            ),
{
    let ghost before = ledger@;
    let ghost target = before.post_address(accounts@, content@);
    let derived = match post_address(ledger, accounts, &content) {
        Err(e) => {
            assert(event_outcome(
                before,
                ledger@,
                Err(e),
                before.create_post(accounts@, content@, target, None),
            ));
            return Err(e);
        },
        Ok(derived) => derived,
    };
    let now = match unix_timestamp() {
        Ok(seconds) => Some(seconds),
        Err(_) => None,
    };
    let r = create_post_at(ledger, accounts, content, derived, now);
    assert(event_outcome(
        before,
        ledger@,
        r,
        before.create_post(accounts@, content@, target, now),
    ));
    r
}

/// The address that the host derives for a new comment: from the post's
/// address and its comment counter. Fails as `comment_post` does before it
/// derives an address: on empty or overlong content, and where the post
/// cannot be loaded.
pub fn comment_address(ledger: &Ledger, accounts: &CommentPost, content: &String) -> (r: Result<
    Option<(Address, u8)>,
    PlatformError,
>)
    requires
        ledger.wf(),
    ensures
        match ledger@.comment_sequence(accounts@, content@) {
            Err(e) => r == Err::<Option<(Address, u8)>, _>(e),
            Ok(_) => match r {
                Ok(derived) => derived_view(derived) == ledger@.comment_address(
                    accounts@,
                    content@,
                ),
                Err(_) => false,
            },
        },
{
    if let Err(e) = check_comment_content(content) {
        return Err(e);
    }
    let sequence = match ledger.post(&accounts.post) {
        Err(e) => { return Err(e); },
        Ok(post) => post.comment_count,
    };
    let mut seeds: Vec<Vec<u8>> = Vec::new();
    seeds.push(bytes_of(&accounts.post.bytes));
    seeds.push(u64_to_le_bytes(sequence));
    assert(seq![COMMENT_TAG@] + seed_bytes(seeds@) =~= comment_seeds(accounts@.post, sequence));
    match crate::address::derive_address(bytes_of(&COMMENT_TAG), seeds, &ledger.program) {
        Ok(pair) => Ok(Some(pair)),
        Err(_) => Ok(None),
    }
}

/// Comments on a post under a profile: a record at the address derived from
/// the post's address and its comment counter, and that counter raised by
/// one. Fails with `EmptyCommentContent` where the content is empty, with
/// `ContentTooLong` where it exceeds its limit, and with
/// `AddressAlreadyInUse` where the derived address is occupied. The clock's
/// reading becomes the time of creation: the outcome is the model's for some
/// reading.
pub fn comment_post(ledger: &mut Ledger, accounts: &CommentPost, content: String) -> (r: Result<
    Notification,
    PlatformError,
>)
    requires
        old(ledger).wf(),
    ensures
        final(ledger).wf(),
        exists|now: Option<i64>|
            event_outcome(
                old(ledger)@,
                final(ledger)@,
                r,
                #[trigger] old(ledger)@.comment_post(
                    accounts@,
                    content@,
                    old(ledger)@.comment_address(accounts@, content@),
                    now,
                ),
            ),
{
    let ghost before = ledger@;
    let ghost target = before.comment_address(accounts@, content@);
    let derived = match comment_address(ledger, accounts, &content) {
        Err(e) => {
            assert(event_outcome(
                before,
                ledger@,
                Err(e),
                before.comment_post(accounts@, content@, target, None),
            ));
            return Err(e);
        },
        Ok(derived) => derived,
    };
    let now = match unix_timestamp() {
        Ok(seconds) => Some(seconds),
        Err(_) => None,
    };
    let r = comment_post_at(ledger, accounts, content, derived, now);
    assert(event_outcome(
        before,
        ledger@,
        r,
        before.comment_post(accounts@, content@, target, now),
    ));
    r
}

} // verus!
