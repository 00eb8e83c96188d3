use post_creator::states::holds_key;
use post_creator::store::Store;
use post_creator::{Address, Platform, PlatformError, Record, UserPost, UserProfile};

fn key(tag: u8) -> Address {
    Address::new([tag; 32])
}

fn blank_post() -> UserPost {
    UserPost {
        authority: key(2),
        author: key(3),
        content: "hello".to_string(),
        likes: 0,
        likes_by: Vec::new(),
        comment_count: 0,
        created_at: 7,
    }
}

#[test]
fn addresses_compare_by_their_bytes() {
    let mut bytes = [5u8; 32];
    assert!(Address::new(bytes).same(&key(5)));
    bytes[31] = 6;
    assert!(!Address::new(bytes).same(&key(5)));
    bytes[31] = 5;
    bytes[0] = 4;
    assert!(!Address::new(bytes).same(&key(5)));
    assert_eq!(key(5).bytes, [5u8; 32]);
}

#[test]
fn next_sequence_reads_then_raises() {
    let mut platform = Platform { authority: key(1), post_count: 0 };
    assert_eq!(platform.next_sequence(), Ok(0));
    assert_eq!(platform.next_sequence(), Ok(1));
    assert_eq!(platform.post_count, 2);
    platform.post_count = u64::MAX - 1;
    assert_eq!(platform.next_sequence(), Ok(u64::MAX - 1));
    assert_eq!(platform.next_sequence(), Err(PlatformError::CounterOverflow));
    assert_eq!(platform.post_count, u64::MAX);
    assert!(platform.authority.same(&key(1)));
}

#[test]
fn increment_post_count_stops_at_the_top() {
    let mut user = UserProfile {
        authority: key(2),
        name: "ada".to_string(),
        avatar: "a".to_string(),
        post_count: 41,
    };
    assert_eq!(user.increment_post_count(), Ok(()));
    assert_eq!(user.post_count, 42);
    user.post_count = u64::MAX;
    assert_eq!(user.increment_post_count(), Err(PlatformError::CounterOverflow));
    assert_eq!(user.post_count, u64::MAX);
    assert_eq!(user.name, "ada");
}

#[test]
fn like_adds_a_user_once() {
    let mut post = blank_post();
    assert_eq!(post.like(key(4)), Ok(()));
    assert_eq!(post.like(key(5)), Ok(()));
    assert_eq!(post.like(key(4)), Err(PlatformError::AlreadyLiked));
    assert_eq!(post.likes, 2);
    assert_eq!(post.likes_by.len(), 2);
    assert!(post.likes_by[0].same(&key(4)));
    assert!(post.likes_by[1].same(&key(5)));
    assert!(holds_key(&post.likes_by, &key(5)));
    assert!(!holds_key(&post.likes_by, &key(6)));
    assert_eq!(post.content, "hello");
    assert_eq!(post.comment_count, 0);
}

#[test]
fn like_refuses_a_full_counter() {
    let mut post = blank_post();
    post.likes = u64::MAX;
    assert_eq!(post.like(key(4)), Err(PlatformError::CounterOverflow));
    assert_eq!(post.likes, u64::MAX);
    assert!(post.likes_by.is_empty());
}

#[test]
fn next_comment_sequence_reads_then_raises() {
    let mut post = blank_post();
    assert_eq!(post.next_comment_sequence(), Ok(0));
    assert_eq!(post.next_comment_sequence(), Ok(1));
    assert_eq!(post.comment_count, 2);
    post.comment_count = u64::MAX;
    assert_eq!(post.next_comment_sequence(), Err(PlatformError::CounterOverflow));
    assert_eq!(post.comment_count, u64::MAX);
    assert_eq!(post.likes, 0);
}

#[test]
fn store_creates_once_and_loads() {
    let mut store = Store::new();
    assert!(!store.contains(&key(1)));
    assert!(matches!(store.load(&key(1)), Err(PlatformError::NotFound)));
    assert_eq!(store.space(&key(1)), None);
    let platform = Record::Platform(Platform { authority: key(7), post_count: 3 });
    assert_eq!(store.create(key(1), platform, 48), Ok(()));
    assert!(store.contains(&key(1)));
    assert_eq!(store.space(&key(1)), Some(48));
    match store.load(&key(1)) {
        Ok(Record::Platform(p)) => assert_eq!(p.post_count, 3),
        _ => panic!("the platform record is not there"),
    }
    let other = Record::Platform(Platform { authority: key(8), post_count: 9 });
    assert_eq!(store.create(key(1), other, 50), Err(PlatformError::AddressAlreadyInUse));
    assert_eq!(store.space(&key(1)), Some(48));
    match store.load(&key(1)) {
        Ok(Record::Platform(p)) => {
            assert_eq!(p.post_count, 3);
            assert!(p.authority.same(&key(7)));
        }
        _ => panic!("the platform record is not there"),
    }
    assert_eq!(store.create(key(2), Record::Post(blank_post()), 7145), Ok(()));
    assert!(store.contains(&key(1)));
    assert!(store.contains(&key(2)));
    assert!(!store.contains(&key(3)));
}

#[test]
fn store_changes_a_record_in_place() {
    let mut store = Store::new();
    store.create(key(1), Record::Post(blank_post()), 7145).unwrap();
    store.create(key(2), Record::Platform(Platform { authority: key(7), post_count: 0 }), 48)
        .unwrap();
    assert!(matches!(store.load_mut(&key(3)), Err(PlatformError::NotFound)));
    match store.load_mut(&key(1)) {
        Ok(Record::Post(post)) => {
            post.like(key(4)).unwrap();
        }
        _ => panic!("the post is not there"),
    }
    match store.load(&key(1)) {
        Ok(Record::Post(post)) => {
            assert_eq!(post.likes, 1);
            assert_eq!(post.content, "hello");
        }
        _ => panic!("the post is not there"),
    }
    assert_eq!(store.space(&key(1)), Some(7145));
    match store.load(&key(2)) {
        Ok(Record::Platform(p)) => assert_eq!(p.post_count, 0),
        _ => panic!("the platform record is not there"),
    }
}
