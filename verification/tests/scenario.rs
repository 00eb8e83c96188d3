use post_creator::{
    comment_address, comment_post_at, create_post_at, initialize_platform, like_post,
    post_address, signup_user, Address, AddressingProfile, CommentPost, CreatePost, Ledger,
    LikePost, Notification, PlatformError,
};

fn key(tag: u8) -> Address {
    Address::new([tag; 32])
}

#[test]
fn platform_user_post_like_comment() {
    let mut ledger = Ledger::new(key(9), AddressingProfile::SequenceAddressed);
    let platform = initialize_platform(&mut ledger, key(1)).unwrap();
    let u = signup_user(&mut ledger, key(2), "ada".to_string(), "http://x/a.png".to_string())
        .unwrap();
    let u2 = signup_user(&mut ledger, key(3), "bob".to_string(), "http://x/b.png".to_string())
        .unwrap();
    let u3 = signup_user(&mut ledger, key(4), "cy".to_string(), "http://x/c.png".to_string())
        .unwrap();
    assert_eq!(ledger.user(&u).unwrap().name, "ada");
    assert_eq!(ledger.user(&u).unwrap().avatar, "http://x/a.png");

    let accounts = CreatePost { authority: key(2), platform, profile: u };
    let content = "hello".to_string();
    let derived = post_address(&ledger, &accounts, &content).unwrap();
    assert!(derived.is_some());
    let event =
        create_post_at(&mut ledger, &accounts, content, derived, Some(1_700_000_000)).unwrap();
    let post = match event {
        Notification::PostCreated { post, author, content } => {
            assert!(author.same(&u));
            assert_eq!(content, "hello");
            post
        }
        _ => panic!("another notification than PostCreated"),
    };
    assert!(post.same(&derived.unwrap().0));
    assert_eq!(ledger.platform(&platform).unwrap().post_count, 1);
    assert_eq!(ledger.user(&u).unwrap().post_count, 1);
    assert_eq!(ledger.post(&post).unwrap().likes, 0);
    assert_eq!(ledger.post(&post).unwrap().content, "hello");
    assert_eq!(ledger.post(&post).unwrap().created_at, 1_700_000_000);

    let like = LikePost { post, user: u2 };
    match like_post(&mut ledger, &like) {
        Ok(Notification::Liked { post: liked, user }) => {
            assert!(liked.same(&post));
            assert!(user.same(&u2));
        }
        _ => panic!("the first like did not go through"),
    }
    assert_eq!(ledger.post(&post).unwrap().likes, 1);
    assert!(matches!(like_post(&mut ledger, &like), Err(PlatformError::AlreadyLiked)));
    assert_eq!(ledger.post(&post).unwrap().likes, 1);
    assert_eq!(ledger.post(&post).unwrap().likes_by.len(), 1);

    let comment = CommentPost { authority: key(4), post, profile: u3 };
    let content = "nice".to_string();
    let derived = comment_address(&ledger, &comment, &content).unwrap();
    let event = comment_post_at(&mut ledger, &comment, content, derived, Some(1_700_000_001));
    match event {
        Ok(Notification::CommentCreated { comment: at, post: on, author, content }) => {
            assert!(at.same(&derived.unwrap().0));
            assert!(on.same(&post));
            assert!(author.same(&u3));
            assert_eq!(content, "nice");
            let stored = ledger.comment(&at).unwrap();
            assert_eq!(stored.content, "nice");
            assert_eq!(stored.created_at, 1_700_000_001);
            assert!(stored.post.same(&post));
            assert!(stored.author.same(&u3));
            assert!(stored.authority.same(&key(4)));
        }
        _ => panic!("the comment did not go through"),
    }
    assert_eq!(ledger.post(&post).unwrap().comment_count, 1);
}
