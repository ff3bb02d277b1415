use chrono::{NaiveDate, NaiveDateTime};
use hacker_clone::auth::{authorize, begin_login, finish_login, register};
use hacker_clone::errors::ServerError;
use hacker_clone::models::{Comment, LoginUser, NewUserForm, Post, PostForm, User};
use hacker_clone::pages::{
    comment, comment_at, post_page, process_submission, process_submission_at, user_profile,
    PostPage, Profile,
};
use hacker_clone::session::SessionIdentity;
use hacker_clone::store::ContentStore;

fn signup(username: &str, password: &str) -> NewUserForm {
    NewUserForm {
        username: username.to_string(),
        email: format!("{}@x.com", username),
        password: password.to_string(),
    }
}

fn credentials(username: &str, password: &str) -> LoginUser {
    LoginUser { username: username.to_string(), password: password.to_string() }
}

/// Stands in for the password hasher: the "hash" of a password is the
/// password between brackets.
fn toy_hash(password: &str) -> String {
    format!("[{}]", password)
}

fn toy_verify(stored_hash: &str, password: &str) -> Result<bool, ServerError> {
    if stored_hash.starts_with('[') {
        Ok(stored_hash == toy_hash(password))
    } else {
        Err(ServerError::HashingFailure)
    }
}

fn login(store: &ContentStore, form: &LoginUser) -> Result<SessionIdentity, ServerError> {
    let attempt = begin_login(store, form)?;
    let verified = toy_verify(attempt.stored_hash(), &form.password);
    finish_login(attempt, verified)
}

fn board() -> ContentStore {
    let mut store = ContentStore::new();
    register(&mut store, signup("alice", "secret1"), toy_hash("secret1")).unwrap();
    register(&mut store, signup("bob", "hunter2"), toy_hash("hunter2")).unwrap();
    store
}

fn noon(day: u32) -> NaiveDateTime {
    NaiveDate::from_ymd_opt(2021, 5, day).unwrap().and_hms_opt(12, 0, 0).unwrap()
}

fn link(title: &str) -> PostForm {
    PostForm { title: title.to_string(), link: format!("https://x/{}", title) }
}

#[test]
fn register_stores_the_hash_not_the_password() {
    let mut store = ContentStore::new();
    let user = register(&mut store, signup("alice", "secret1"), "HASH".to_string()).unwrap();
    assert_eq!(
        user,
        User {
            id: 1,
            username: "alice".to_string(),
            email: "alice@x.com".to_string(),
            password: "HASH".to_string(),
        }
    );
    assert_eq!(store.find_user_by_username("alice"), Ok(user));
}

#[test]
fn register_twice_is_a_duplicate_and_distinct_names_succeed() {
    let mut store = ContentStore::new();
    assert!(register(&mut store, signup("alice", "a"), toy_hash("a")).is_ok());
    assert_eq!(
        register(&mut store, signup("alice", "b"), toy_hash("b")),
        Err(ServerError::DuplicateUsername)
    );
    assert_eq!(register(&mut store, signup("bob", "b"), toy_hash("b")).unwrap().id, 2);
    assert_eq!(register(&mut store, signup("", "b"), toy_hash("b")), Err(ServerError::ConstraintViolation));
}

#[test]
fn login_with_the_right_password_is_bound_to_the_user() {
    let store = board();
    let identity = login(&store, &credentials("alice", "secret1")).unwrap();
    assert_eq!(identity.username(), "alice");
    assert_eq!(authorize(&store, &identity).unwrap().id, 1);
    let identity = login(&store, &credentials("bob", "hunter2")).unwrap();
    assert_eq!(identity.username(), "bob");
    assert_eq!(authorize(&store, &identity).unwrap().id, 2);
}

#[test]
fn login_failures_are_all_invalid_credentials() {
    let mut store = board();
    register(&mut store, signup("carol", "x"), "garbled".to_string()).unwrap();
    assert_eq!(login(&store, &credentials("alice", "wrong")), Err(ServerError::InvalidCredentials));
    assert_eq!(login(&store, &credentials("alice", "hunter2")), Err(ServerError::InvalidCredentials));
    assert_eq!(login(&store, &credentials("nobody", "secret1")), Err(ServerError::InvalidCredentials));
    assert_eq!(login(&store, &credentials("", "")), Err(ServerError::InvalidCredentials));
    assert_eq!(login(&store, &credentials("carol", "x")), Err(ServerError::InvalidCredentials));
}

#[test]
fn begin_login_hands_out_the_stored_hash() {
    let store = board();
    let attempt = begin_login(&store, &credentials("bob", "anything")).unwrap();
    assert_eq!(attempt.stored_hash(), "[hunter2]");
    assert!(matches!(
        begin_login(&store, &credentials("nobody", "anything")),
        Err(ServerError::InvalidCredentials)
    ));
}

#[test]
fn finish_login_needs_the_hashers_yes() {
    let store = board();
    let form = credentials("alice", "secret1");
    assert_eq!(
        finish_login(begin_login(&store, &form).unwrap(), Ok(true)).unwrap().username(),
        "alice"
    );
    assert_eq!(
        finish_login(begin_login(&store, &form).unwrap(), Ok(false)),
        Err(ServerError::InvalidCredentials)
    );
    for e in [ServerError::HashingFailure, ServerError::StoreFailure, ServerError::NotFound] {
        assert_eq!(
            finish_login(begin_login(&store, &form).unwrap(), Err(e)),
            Err(ServerError::InvalidCredentials)
        );
    }
}

#[test]
fn token_round_trip_keeps_the_username() {
    let store = board();
    let identity = login(&store, &credentials("alice", "secret1")).unwrap();
    let token = identity.token().to_string();
    let restored = SessionIdentity::from_token(token);
    assert_eq!(restored, identity);
    assert_eq!(restored.username(), "alice");
    let other = login(&store, &credentials("bob", "hunter2")).unwrap();
    assert_ne!(other.token(), identity.token());
}

#[test]
fn authorize_refuses_an_identity_without_a_user() {
    let store = board();
    let stranger = SessionIdentity::from_token("mallory".to_string());
    assert_eq!(authorize(&store, &stranger), Err(ServerError::Unauthenticated));
    let empty = SessionIdentity::from_token(String::new());
    assert_eq!(authorize(&store, &empty), Err(ServerError::Unauthenticated));
}

#[test]
fn submission_needs_a_logged_in_user() {
    let mut store = board();
    assert_eq!(process_submission(&mut store, None, link("T")), Err(ServerError::Unauthenticated));
    let stranger = SessionIdentity::from_token("mallory".to_string());
    assert_eq!(
        process_submission(&mut store, Some(&stranger), link("T")),
        Err(ServerError::Unauthenticated)
    );
    assert_eq!(store.list_posts_with_authors(), vec![]);
    let bob = login(&store, &credentials("bob", "hunter2")).unwrap();
    let post = process_submission(&mut store, Some(&bob), link("T")).unwrap();
    assert_eq!((post.id, post.title.as_str(), post.link.as_str(), post.author), (1, "T", "https://x/T", 2));
    assert_eq!(store.find_post(1), Ok(post));
}

#[test]
fn comment_checks_identity_then_post_then_user() {
    let mut store = board();
    let alice = login(&store, &credentials("alice", "secret1")).unwrap();
    let stranger = SessionIdentity::from_token("mallory".to_string());
    process_submission(&mut store, Some(&alice), link("T")).unwrap();
    assert_eq!(comment(&mut store, None, 9, "c".to_string(), None), Err(ServerError::Unauthenticated));
    assert_eq!(comment(&mut store, None, 1, "c".to_string(), None), Err(ServerError::Unauthenticated));
    assert_eq!(
        comment(&mut store, Some(&stranger), 9, "c".to_string(), None),
        Err(ServerError::NotFound)
    );
    assert_eq!(
        comment(&mut store, Some(&stranger), 1, "c".to_string(), None),
        Err(ServerError::Unauthenticated)
    );
    assert_eq!(comment(&mut store, Some(&alice), 9, "c".to_string(), None), Err(ServerError::NotFound));
    assert_eq!(
        comment(&mut store, Some(&alice), 1, "c".to_string(), Some(1)),
        Err(ServerError::ConstraintViolation)
    );
    assert_eq!(store.list_comments_for_post(1), vec![]);
    let stored = comment(&mut store, Some(&alice), 1, "c".to_string(), None).unwrap();
    assert_eq!((stored.id, stored.post_id, stored.user_id, stored.parent_comment_id), (1, 1, 1, None));
}

#[test]
fn post_page_shows_post_author_and_comments() {
    let mut store = board();
    let alice = login(&store, &credentials("alice", "secret1")).unwrap();
    let bob = login(&store, &credentials("bob", "hunter2")).unwrap();
    let post = process_submission(&mut store, Some(&bob), link("T")).unwrap();
    process_submission(&mut store, Some(&alice), link("U")).unwrap();
    let first = comment(&mut store, Some(&alice), 1, "nice".to_string(), None).unwrap();
    comment(&mut store, Some(&alice), 2, "elsewhere".to_string(), None).unwrap();
    let second = comment(&mut store, Some(&bob), 1, "thanks".to_string(), Some(first.id)).unwrap();
    let page = post_page(&store, 1).unwrap();
    assert_eq!(page.post, post);
    assert_eq!(page.user.username, "bob");
    assert_eq!(page.user.id, page.post.author);
    assert_eq!(page.comments.len(), 2);
    assert_eq!(page.comments[0].0, first);
    assert_eq!(page.comments[0].1.username, "alice");
    assert_eq!(page.comments[1].0, second);
    assert_eq!(page.comments[1].1.username, "bob");
    assert_eq!(post_page(&store, 3), Err(ServerError::NotFound));
}

#[test]
fn user_profile_shows_posts_and_comments_of_the_user() {
    let mut store = board();
    let alice = login(&store, &credentials("alice", "secret1")).unwrap();
    let bob = login(&store, &credentials("bob", "hunter2")).unwrap();
    process_submission(&mut store, Some(&bob), link("T")).unwrap();
    process_submission(&mut store, Some(&alice), link("U")).unwrap();
    process_submission(&mut store, Some(&bob), link("V")).unwrap();
    comment(&mut store, Some(&alice), 1, "nice".to_string(), None).unwrap();
    comment(&mut store, Some(&bob), 1, "thanks".to_string(), Some(1)).unwrap();
    let profile = user_profile(&store, "bob").unwrap();
    assert_eq!(profile.user.id, 2);
    assert_eq!(profile.posts.iter().map(|p| p.id).collect::<Vec<i32>>(), vec![1, 3]);
    assert_eq!(profile.comments.iter().map(|c| c.id).collect::<Vec<i32>>(), vec![2]);
    let profile = user_profile(&store, "alice").unwrap();
    assert_eq!(profile.posts.iter().map(|p| p.id).collect::<Vec<i32>>(), vec![2]);
    assert_eq!(profile.comments.iter().map(|c| c.id).collect::<Vec<i32>>(), vec![1]);
    assert_eq!(user_profile(&store, "carol"), Err(ServerError::NotFound));
}

#[test]
fn scenario_alice_registers_logs_in_posts_and_comments() {
    let mut store = ContentStore::new();
    let form = NewUserForm {
        username: "alice".to_string(),
        email: "alice@x.com".to_string(),
        password: "secret1".to_string(),
    };
    let alice = register(&mut store, form, toy_hash("secret1")).unwrap();
    assert_eq!(alice.id, 1);
    assert_eq!(alice.username, "alice");
    assert_eq!(alice.email, "alice@x.com");
    assert_ne!(alice.password, "secret1");

    let again = NewUserForm {
        username: "alice".to_string(),
        email: "alice@y.com".to_string(),
        password: "secret2".to_string(),
    };
    assert_eq!(register(&mut store, again, toy_hash("secret2")), Err(ServerError::DuplicateUsername));

    let identity = login(&store, &credentials("alice", "secret1")).unwrap();
    assert_eq!(identity.username(), "alice");
    assert_eq!(login(&store, &credentials("alice", "wrong")), Err(ServerError::InvalidCredentials));

    let before = chrono::Local::now().naive_utc();
    let post = process_submission(
        &mut store,
        Some(&identity),
        PostForm { title: "T".to_string(), link: "https://x".to_string() },
    )
    .unwrap();
    let after = chrono::Local::now().naive_utc();
    assert_eq!(post.title, "T");
    assert_eq!(post.link, "https://x");
    assert_eq!(post.author, alice.id);
    assert!(before <= post.created_at && post.created_at <= after);

    let first = comment(&mut store, Some(&identity), post.id, "nice".to_string(), None).unwrap();
    let listed = store.list_comments_for_post(post.id);
    assert_eq!(listed.len(), 1);
    assert_eq!(listed[0].0.comment, "nice");
    assert_eq!(listed[0].0.parent_comment_id, None);
    assert_eq!(listed[0].1, alice);

    let reply =
        comment(&mut store, Some(&identity), post.id, "indeed".to_string(), Some(first.id)).unwrap();
    let listed = store.list_comments_for_post(post.id);
    assert_eq!(listed.len(), 2);
    assert_eq!(listed[1].0, reply);
    assert_eq!(listed[1].0.parent_comment_id, Some(first.id));
    assert_eq!(store.list_posts_with_authors(), vec![(post, alice)]);
}

#[test]
fn submission_at_stores_exactly_what_was_submitted() {
    let mut store = board();
    let bob = login(&store, &credentials("bob", "hunter2")).unwrap();
    let expected = Post {
        id: 1,
        title: "T".to_string(),
        link: "https://x/T".to_string(),
        author: 2,
        created_at: noon(1),
    };
    assert_eq!(process_submission_at(&mut store, Some(&bob), link("T"), noon(1)), Ok(expected));
    assert_eq!(
        process_submission_at(&mut store, None, link("U"), noon(2)),
        Err(ServerError::Unauthenticated)
    );
    let second = process_submission_at(&mut store, Some(&bob), link("U"), noon(2)).unwrap();
    assert_eq!((second.id, second.created_at), (2, noon(2)));
}

#[test]
fn comment_at_stores_exactly_what_was_written() {
    let mut store = board();
    let alice = login(&store, &credentials("alice", "secret1")).unwrap();
    let bob = login(&store, &credentials("bob", "hunter2")).unwrap();
    process_submission_at(&mut store, Some(&bob), link("T"), noon(1)).unwrap();
    let root = Comment {
        id: 1,
        comment: "nice".to_string(),
        post_id: 1,
        user_id: 1,
        parent_comment_id: None,
        created_at: noon(2),
    };
    assert_eq!(
        comment_at(&mut store, Some(&alice), 1, "nice".to_string(), None, noon(2)),
        Ok(root)
    );
    let reply = Comment {
        id: 2,
        comment: "thanks".to_string(),
        post_id: 1,
        user_id: 2,
        parent_comment_id: Some(1),
        created_at: noon(3),
    };
    assert_eq!(
        comment_at(&mut store, Some(&bob), 1, "thanks".to_string(), Some(1), noon(3)),
        Ok(reply)
    );
    assert_eq!(
        comment_at(&mut store, Some(&bob), 1, "lost".to_string(), Some(3), noon(4)),
        Err(ServerError::ConstraintViolation)
    );
    assert_eq!(
        comment_at(&mut store, Some(&bob), 2, "lost".to_string(), None, noon(4)),
        Err(ServerError::NotFound)
    );
    assert_eq!(store.list_comments_for_post(1).len(), 2);
}

#[test]
fn pages_are_exact_for_known_timestamps() {
    let mut store = board();
    let alice = login(&store, &credentials("alice", "secret1")).unwrap();
    let post = process_submission_at(&mut store, Some(&alice), link("T"), noon(1)).unwrap();
    let note =
        comment_at(&mut store, Some(&alice), 1, "nice".to_string(), None, noon(2)).unwrap();
    let alice_row = store.find_user_by_username("alice").unwrap();
    assert_eq!(
        post_page(&store, 1),
        Ok(PostPage {
            post: post.clone(),
            user: alice_row.clone(),
            comments: vec![(note.clone(), alice_row.clone())],
        })
    );
    assert_eq!(
        user_profile(&store, "alice"),
        Ok(Profile { user: alice_row, posts: vec![post], comments: vec![note] })
    );
    let bob_row = store.find_user_by_username("bob").unwrap();
    assert_eq!(
        user_profile(&store, "bob"),
        Ok(Profile { user: bob_row, posts: vec![], comments: vec![] })
    );
}
