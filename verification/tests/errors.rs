use anchor_lang::prelude::ProgramError;
use post_creator::clock::{timestamp_of, unix_timestamp};
use post_creator::constant::{
    COMMENT_SPACE, PLATFORM_SPACE, POST_SPACE, TEXT_LENGTH, USER_NAME_LENGTH, USER_SPACE,
    USER_URL_LENGTH,
};
use post_creator::{
    comment_address, comment_post_at, create_post_at, initialize_platform,
    initialize_platform_at, like_post, post_address, signup_user, signup_user_at, Address,
    AddressingProfile, CommentPost, CreatePost, Ledger, LikePost, Notification, PlatformError,
};

fn key(tag: u8) -> Address {
    Address::new([tag; 32])
}

struct World {
    ledger: Ledger,
    platform: Address,
    ada: Address,
    bob: Address,
    post: Address,
}

fn world() -> World {
    let mut ledger = Ledger::new(key(9), AddressingProfile::SequenceAddressed);
    let platform = initialize_platform(&mut ledger, key(1)).unwrap();
    let ada = signup_user(&mut ledger, key(2), "ada".to_string(), "http://x/a.png".to_string())
        .unwrap();
    let bob = signup_user(&mut ledger, key(3), "bob".to_string(), "http://x/b.png".to_string())
        .unwrap();
    let accounts = CreatePost { authority: key(2), platform, profile: ada };
    let content = "hello".to_string();
    let derived = post_address(&ledger, &accounts, &content).unwrap();
    let post = match create_post_at(&mut ledger, &accounts, content, derived, Some(1)) {
        Ok(Notification::PostCreated { post, .. }) => post,
        _ => panic!("the post was not created"),
    };
    World { ledger, platform, ada, bob, post }
}

#[test]
fn limits_and_space_budgets() {
    assert_eq!(TEXT_LENGTH, 1024);
    assert_eq!(USER_NAME_LENGTH, 100);
    assert_eq!(USER_URL_LENGTH, 255);
    assert_eq!(PLATFORM_SPACE, 48);
    assert_eq!(USER_SPACE, 411);
    assert_eq!(POST_SPACE, 7145);
    assert_eq!(COMMENT_SPACE, 1140);
    let w = world();
    assert_eq!(w.ledger.space(&w.platform), Some(48));
    assert_eq!(w.ledger.space(&w.ada), Some(411));
    assert_eq!(w.ledger.space(&w.post), Some(7145));
    assert_eq!(w.ledger.space(&key(77)), None);
}

#[test]
fn comment_is_allocated_its_space() {
    let mut w = world();
    let accounts = CommentPost { authority: key(3), post: w.post, profile: w.bob };
    let content = "nice".to_string();
    let derived = comment_address(&w.ledger, &accounts, &content).unwrap();
    comment_post_at(&mut w.ledger, &accounts, content, derived, Some(2)).unwrap();
    assert_eq!(w.ledger.space(&derived.unwrap().0), Some(1140));
}

#[test]
fn signup_refuses_empty_name_or_avatar() {
    let mut ledger = Ledger::new(key(9), AddressingProfile::SequenceAddressed);
    let r = signup_user(&mut ledger, key(2), String::new(), "http://x/a.png".to_string());
    assert!(matches!(r, Err(PlatformError::EmptyUserData)));
    let r = signup_user(&mut ledger, key(2), "ada".to_string(), String::new());
    assert!(matches!(r, Err(PlatformError::EmptyUserData)));
    // nothing was created: the same authority can still sign up
    assert!(signup_user(&mut ledger, key(2), "ada".to_string(), "a".to_string()).is_ok());
}

#[test]
fn signup_refuses_overlong_name_or_avatar() {
    let mut ledger = Ledger::new(key(9), AddressingProfile::SequenceAddressed);
    let r = signup_user(&mut ledger, key(2), "n".repeat(101), "a".to_string());
    assert!(matches!(r, Err(PlatformError::ContentTooLong)));
    let r = signup_user(&mut ledger, key(2), "n".to_string(), "a".repeat(256));
    assert!(matches!(r, Err(PlatformError::ContentTooLong)));
    // lengths count bytes: fifty-one two-byte letters are 102 bytes
    let r = signup_user(&mut ledger, key(2), "é".repeat(51), "a".to_string());
    assert!(matches!(r, Err(PlatformError::ContentTooLong)));
    // an empty name is reported before an overlong avatar
    let r = signup_user(&mut ledger, key(2), String::new(), "a".repeat(256));
    assert!(matches!(r, Err(PlatformError::EmptyUserData)));
    let at = signup_user(&mut ledger, key(2), "n".repeat(100), "a".repeat(255)).unwrap();
    assert_eq!(ledger.user(&at).unwrap().name.len(), 100);
    let at = signup_user(&mut ledger, key(3), "é".repeat(50), "a".to_string()).unwrap();
    assert_eq!(ledger.user(&at).unwrap().name.len(), 100);
}

#[test]
fn signup_without_an_address_fails() {
    let mut ledger = Ledger::new(key(9), AddressingProfile::SequenceAddressed);
    let r = signup_user_at(&mut ledger, key(2), "ada".to_string(), "a".to_string(), None);
    assert!(matches!(r, Err(PlatformError::AddressDerivationError)));
    let r = initialize_platform_at(&mut ledger, key(1), None);
    assert!(matches!(r, Err(PlatformError::AddressDerivationError)));
    assert!(!ledger.contains(&key(2)));
}

#[test]
fn signup_at_an_occupied_address_fails() {
    let mut w = world();
    let r = signup_user_at(
        &mut w.ledger,
        key(5),
        "eve".to_string(),
        "e".to_string(),
        Some((w.post, 255)),
    );
    assert!(matches!(r, Err(PlatformError::AlreadyRegistered)));
    let r = initialize_platform_at(&mut w.ledger, key(5), Some((w.ada, 255)));
    assert!(matches!(r, Err(PlatformError::AlreadyInitialized)));
    assert_eq!(w.ledger.post(&w.post).unwrap().content, "hello");
    assert_eq!(w.ledger.user(&w.ada).unwrap().name, "ada");
}

#[test]
fn post_refuses_overlong_content() {
    let mut w = world();
    let accounts = CreatePost { authority: key(2), platform: w.platform, profile: w.ada };
    let long = "x".repeat(1025);
    assert!(matches!(
        post_address(&w.ledger, &accounts, &long),
        Err(PlatformError::ContentTooLong)
    ));
    let r = create_post_at(&mut w.ledger, &accounts, long, Some((key(50), 255)), Some(2));
    assert!(matches!(r, Err(PlatformError::ContentTooLong)));
    assert!(!w.ledger.contains(&key(50)));
    let full = "x".repeat(1024);
    let derived = post_address(&w.ledger, &accounts, &full).unwrap();
    assert!(create_post_at(&mut w.ledger, &accounts, full, derived, Some(2)).is_ok());
    assert_eq!(w.ledger.platform(&w.platform).unwrap().post_count, 2);
}

#[test]
fn post_needs_platform_and_profile() {
    let mut ledger = Ledger::new(key(9), AddressingProfile::SequenceAddressed);
    let accounts = CreatePost { authority: key(2), platform: key(40), profile: key(41) };
    assert!(matches!(
        post_address(&ledger, &accounts, &"hello".to_string()),
        Err(PlatformError::NotFound)
    ));
    let r = create_post_at(&mut ledger, &accounts, "hello".to_string(), Some((key(50), 1)), Some(2));
    assert!(matches!(r, Err(PlatformError::NotFound)));
    let platform = initialize_platform(&mut ledger, key(1)).unwrap();
    let accounts = CreatePost { authority: key(2), platform, profile: key(41) };
    let r = create_post_at(&mut ledger, &accounts, "hello".to_string(), Some((key(50), 1)), Some(2));
    assert!(matches!(r, Err(PlatformError::NotFound)));
    // the platform is no profile, and a profile is no platform
    let accounts = CreatePost { authority: key(2), platform, profile: platform };
    let r = create_post_at(&mut ledger, &accounts, "hello".to_string(), Some((key(50), 1)), Some(2));
    assert!(matches!(r, Err(PlatformError::SchemaMismatch)));
    let ada = signup_user(&mut ledger, key(2), "ada".to_string(), "a".to_string()).unwrap();
    let accounts = CreatePost { authority: key(2), platform: ada, profile: ada };
    let r = create_post_at(&mut ledger, &accounts, "hello".to_string(), Some((key(50), 1)), Some(2));
    assert!(matches!(r, Err(PlatformError::SchemaMismatch)));
    assert!(!ledger.contains(&key(50)));
    assert_eq!(ledger.platform(&platform).unwrap().post_count, 0);
}

#[test]
fn post_under_another_users_profile_is_unauthorized() {
    let mut w = world();
    let accounts = CreatePost { authority: key(3), platform: w.platform, profile: w.ada };
    let content = "mine".to_string();
    let derived = post_address(&w.ledger, &accounts, &content).unwrap();
    let r = create_post_at(&mut w.ledger, &accounts, content, derived, Some(2));
    assert!(matches!(r, Err(PlatformError::Unauthorized)));
    assert!(!w.ledger.contains(&derived.unwrap().0));
    assert_eq!(w.ledger.platform(&w.platform).unwrap().post_count, 1);
    assert_eq!(w.ledger.user(&w.ada).unwrap().post_count, 1);
}

#[test]
fn post_at_an_occupied_address_fails() {
    let mut w = world();
    let accounts = CreatePost { authority: key(2), platform: w.platform, profile: w.ada };
    let r = create_post_at(&mut w.ledger, &accounts, "two".to_string(), Some((w.post, 255)), Some(2));
    assert!(matches!(r, Err(PlatformError::AddressAlreadyInUse)));
    assert_eq!(w.ledger.post(&w.post).unwrap().content, "hello");
    assert_eq!(w.ledger.platform(&w.platform).unwrap().post_count, 1);
}

#[test]
fn post_without_a_clock_reading_fails_last() {
    let mut w = world();
    let accounts = CreatePost { authority: key(2), platform: w.platform, profile: w.ada };
    let content = "two".to_string();
    let derived = post_address(&w.ledger, &accounts, &content).unwrap();
    let r = create_post_at(&mut w.ledger, &accounts, content, derived, None);
    assert!(matches!(r, Err(PlatformError::ClockUnavailable)));
    assert!(!w.ledger.contains(&derived.unwrap().0));
    assert_eq!(w.ledger.platform(&w.platform).unwrap().post_count, 1);
    // every other failure is reported before the clock's
    let r = create_post_at(&mut w.ledger, &accounts, String::new(), None, None);
    assert!(matches!(r, Err(PlatformError::EmptyPostContent)));
    let r = create_post_at(&mut w.ledger, &accounts, "two".to_string(), None, None);
    assert!(matches!(r, Err(PlatformError::AddressDerivationError)));
    let r = create_post_at(&mut w.ledger, &accounts, "two".to_string(), Some((w.post, 1)), None);
    assert!(matches!(r, Err(PlatformError::AddressAlreadyInUse)));
}

#[test]
fn like_needs_a_post_and_a_profile() {
    let mut w = world();
    let r = like_post(&mut w.ledger, &LikePost { post: key(60), user: w.bob });
    assert!(matches!(r, Err(PlatformError::NotFound)));
    let r = like_post(&mut w.ledger, &LikePost { post: w.ada, user: w.bob });
    assert!(matches!(r, Err(PlatformError::SchemaMismatch)));
    let r = like_post(&mut w.ledger, &LikePost { post: w.post, user: key(61) });
    assert!(matches!(r, Err(PlatformError::NotFound)));
    let r = like_post(&mut w.ledger, &LikePost { post: w.post, user: w.platform });
    assert!(matches!(r, Err(PlatformError::SchemaMismatch)));
    assert_eq!(w.ledger.post(&w.post).unwrap().likes, 0);
    assert!(w.ledger.post(&w.post).unwrap().likes_by.is_empty());
}

#[test]
fn comment_refuses_empty_and_overlong_content() {
    let mut w = world();
    let accounts = CommentPost { authority: key(3), post: w.post, profile: w.bob };
    assert!(matches!(
        comment_address(&w.ledger, &accounts, &String::new()),
        Err(PlatformError::EmptyCommentContent)
    ));
    let r = comment_post_at(&mut w.ledger, &accounts, String::new(), Some((key(70), 1)), Some(2));
    assert!(matches!(r, Err(PlatformError::EmptyCommentContent)));
    let r = comment_post_at(&mut w.ledger, &accounts, "x".repeat(1025), Some((key(70), 1)), Some(2));
    assert!(matches!(r, Err(PlatformError::ContentTooLong)));
    assert!(!w.ledger.contains(&key(70)));
    assert_eq!(w.ledger.post(&w.post).unwrap().comment_count, 0);
    let r = comment_post_at(&mut w.ledger, &accounts, "x".repeat(1024), Some((key(70), 1)), Some(2));
    assert!(r.is_ok());
    assert_eq!(w.ledger.post(&w.post).unwrap().comment_count, 1);
}

#[test]
fn comment_needs_post_profile_address_and_clock() {
    let mut w = world();
    let accounts = CommentPost { authority: key(3), post: key(60), profile: w.bob };
    assert!(matches!(
        comment_address(&w.ledger, &accounts, &"nice".to_string()),
        Err(PlatformError::NotFound)
    ));
    let r = comment_post_at(&mut w.ledger, &accounts, "nice".to_string(), Some((key(70), 1)), Some(2));
    assert!(matches!(r, Err(PlatformError::NotFound)));
    let accounts = CommentPost { authority: key(3), post: w.bob, profile: w.bob };
    let r = comment_post_at(&mut w.ledger, &accounts, "nice".to_string(), Some((key(70), 1)), Some(2));
    assert!(matches!(r, Err(PlatformError::SchemaMismatch)));
    let accounts = CommentPost { authority: key(3), post: w.post, profile: key(61) };
    let r = comment_post_at(&mut w.ledger, &accounts, "nice".to_string(), Some((key(70), 1)), Some(2));
    assert!(matches!(r, Err(PlatformError::NotFound)));
    let accounts = CommentPost { authority: key(3), post: w.post, profile: w.post };
    let r = comment_post_at(&mut w.ledger, &accounts, "nice".to_string(), Some((key(70), 1)), Some(2));
    assert!(matches!(r, Err(PlatformError::SchemaMismatch)));
    let accounts = CommentPost { authority: key(3), post: w.post, profile: w.bob };
    let r = comment_post_at(&mut w.ledger, &accounts, "nice".to_string(), None, Some(2));
    assert!(matches!(r, Err(PlatformError::AddressDerivationError)));
    let r = comment_post_at(&mut w.ledger, &accounts, "nice".to_string(), Some((w.ada, 1)), Some(2));
    assert!(matches!(r, Err(PlatformError::AddressAlreadyInUse)));
    let r = comment_post_at(&mut w.ledger, &accounts, "nice".to_string(), Some((key(70), 1)), None);
    assert!(matches!(r, Err(PlatformError::ClockUnavailable)));
    assert!(!w.ledger.contains(&key(70)));
    assert_eq!(w.ledger.post(&w.post).unwrap().comment_count, 0);
}

#[test]
fn clock_answer_becomes_time_or_unavailable() {
    assert_eq!(timestamp_of(Ok(1_700_000_000)), Ok(1_700_000_000));
    assert_eq!(timestamp_of(Ok(0)), Ok(0));
    assert_eq!(timestamp_of(Ok(-5)), Ok(-5));
    assert_eq!(timestamp_of(Ok(i64::MAX)), Ok(i64::MAX));
    assert_eq!(
        timestamp_of(Err(ProgramError::UnsupportedSysvar)),
        Err(PlatformError::ClockUnavailable)
    );
    assert_eq!(
        timestamp_of(Err(ProgramError::InvalidArgument)),
        Err(PlatformError::ClockUnavailable)
    );
    assert_eq!(timestamp_of(Err(ProgramError::Custom(7))), Err(PlatformError::ClockUnavailable));
}

#[test]
fn clock_reports_a_time_or_that_it_is_unavailable() {
    match unix_timestamp() {
        Ok(_) => {}
        Err(e) => assert_eq!(e, PlatformError::ClockUnavailable),
    }
}

#[test]
fn every_error_has_its_message() {
    assert_eq!(PlatformError::EmptyUserData.message(), "User data cannot be empty");
    assert_eq!(PlatformError::EmptyPostContent.message(), "Post content cannot be empty");
    assert_eq!(PlatformError::EmptyCommentContent.message(), "Comment content cannot be empty");
    assert_eq!(PlatformError::AlreadyLiked.message(), "User has already liked this post");
    let all = [
        PlatformError::EmptyUserData,
        PlatformError::EmptyPostContent,
        PlatformError::EmptyCommentContent,
        PlatformError::AlreadyLiked,
        PlatformError::AlreadyRegistered,
        PlatformError::AlreadyInitialized,
        PlatformError::AddressAlreadyInUse,
        PlatformError::NotFound,
        PlatformError::SchemaMismatch,
        PlatformError::Unauthorized,
        PlatformError::CounterOverflow,
        PlatformError::ContentTooLong,
        PlatformError::AddressDerivationError,
        PlatformError::ClockUnavailable,
    ];
    for (i, a) in all.iter().enumerate() {
        assert!(!a.message().is_empty());
        for b in all.iter().skip(i + 1) {
            assert_ne!(a.message(), b.message());
        }
    }
}
