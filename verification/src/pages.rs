//! What the pages of the board show and what their forms do, as plain data:
//! the caller renders the values and turns the errors into responses.

use vstd::prelude::*;
use crate::auth::{authorize, authorized};
use crate::errors::ServerError;
use crate::models::{
    current_timestamp, parent_ref, Comment, CommentRow, NewComment, NewPost, Post, PostForm,
    PostRow, User,
};
use crate::session::SessionIdentity;
use crate::store::{comment_author_rows, comment_rows, outcome, post_rows, ContentStore};
use crate::tables::Tables;

verus! {

/// What the page of one post shows.
#[derive(Debug, PartialEq, Eq)]
pub struct PostPage {
    pub post: Post,
    /// The author of the post.
    pub user: User,
    /// The comments on the post, each beside its author, oldest first.
    pub comments: Vec<(Comment, User)>,
}

/// What the profile of one user shows.
#[derive(Debug, PartialEq, Eq)]
pub struct Profile {
    pub user: User,
    /// The posts of the user, oldest first.
    pub posts: Vec<Post>,
    /// The comments of the user, oldest first.
    pub comments: Vec<Comment>,
}

/// The username that the caller's identity is bound to, if the caller has
/// presented one.
pub open spec fn presented(identity: Option<&SessionIdentity>) -> Option<Seq<char>> {
    match identity {
        Some(identity) => Some(identity@),
        None => None,
    }
}

/// What a submission does to the tables and returns, had it been stamped
/// with `created_at`: the caller must be logged in as a user, who becomes the
/// author of the new post.
pub open spec fn submission(
    tables: Tables,
    caller: Option<Seq<char>>,
    title: Seq<char>,
    link: Seq<char>,
    created_at: chrono::NaiveDateTime,
) -> (Tables, Result<PostRow, ServerError>) {
    match caller {
        None => (tables, Err(ServerError::Unauthenticated)),
        Some(username) => match authorized(tables, username) {
            Err(e) => (tables, Err(e)),
            Ok(user) => tables.create_post(title, link, user.id, created_at),
        },
    }
}

/// What commenting does to the tables and returns, had the comment been
/// stamped with `created_at`: the caller must be logged in, the post must
/// exist, and the caller becomes the author of the new comment.
pub open spec fn commenting(
    tables: Tables,
    caller: Option<Seq<char>>,
    post_id: int,
    text: Seq<char>,
    parent_comment_id: Option<int>,
    created_at: chrono::NaiveDateTime,
) -> (Tables, Result<CommentRow, ServerError>) {
    match caller {
        None => (tables, Err(ServerError::Unauthenticated)),
        Some(username) => match tables.post_with_id(post_id) {
            None => (tables, Err(ServerError::NotFound)),
            Some(post) => match authorized(tables, username) {
                Err(e) => (tables, Err(e)),
                Ok(user) => tables.create_comment(
                    text,
                    post.id,
                    user.id,
                    parent_comment_id,
                    created_at,
                ),
            },
        },
    }
}

/// The page of the post `post_id`: the post, its author and its comments.
/// An id that names no post gives `NotFound`.
pub fn post_page(store: &ContentStore, post_id: i32) -> (result: Result<PostPage, ServerError>)
    ensures
        match store@.post_with_id(post_id as int) {
            Some(post) => {
                &&& result is Ok
                &&& result->Ok_0.post@ == post
                &&& result->Ok_0.user@ == store@.author(post.author)
                &&& result->Ok_0.user@.id == post.author
                &&& comment_author_rows(result->Ok_0.comments@) == store@.comments_for_post(
                    post_id as int,
                )
            },
            None => result is Err && result->Err_0 == ServerError::NotFound,
        },
{
    proof {
        use_type_invariant(store);
    }
    let post = match store.find_post(post_id) {
        Ok(post) => post,
        Err(e) => {
            return Err(e);
        },
    };
    assert(store@.has_user(post@.author));
    let user = match store.find_user_by_id(post.author) {
        Ok(user) => user,
        Err(e) => {
            return Err(e);
        },
    };
    let comments = store.list_comments_for_post(post_id);
    Ok(PostPage { post, user, comments })
}

/// The profile of the user `username`: the account with its posts and its
/// comments. A username that names no user gives `NotFound`.
pub fn user_profile(store: &ContentStore, username: &str) -> (result: Result<Profile, ServerError>)
    ensures
        match store@.user_named(username@) {
            Some(user) => {
                &&& result is Ok
                &&& result->Ok_0.user@ == user
                &&& post_rows(result->Ok_0.posts@) == store@.posts_by_user(user.id)
                &&& comment_rows(result->Ok_0.comments@) == store@.comments_by_user(user.id)
            },
            None => result is Err && result->Err_0 == ServerError::NotFound,
        },
{
    let user = match store.find_user_by_username(username) {
        Ok(user) => user,
        Err(e) => {
            return Err(e);
        },
    };
    let posts = store.list_posts_by_user(user.id);
    let comments = store.list_comments_by_user(user.id);
    Ok(Profile { user, posts, comments })
}

/// Stores the link that the caller submits, with the caller as its author and
/// `created_at` as its timestamp. A caller without an identity, or with one
/// that resolves to no user, is refused with `Unauthenticated`; a refused
/// submission leaves the store as it was.
pub fn process_submission_at(
    store: &mut ContentStore,
    identity: Option<&SessionIdentity>,
    form: PostForm,
    created_at: chrono::NaiveDateTime,
) -> (result: Result<Post, ServerError>)
    ensures
        final(store)@.valid(),
        (final(store)@, outcome(result)) == submission(
            old(store)@,
            presented(identity),
            form.title@,
            form.link@,
            created_at,
        ),
{
    proof {
        use_type_invariant(&*store);
    }
    let identity = match identity {
        Some(identity) => identity,
        None => {
            return Err(ServerError::Unauthenticated);
        },
    };
    let user = match authorize(store, identity) {
        Ok(user) => user,
        Err(e) => {
            return Err(e);
        },
    };
    store.insert_post(NewPost::stamped(form, user.id, created_at))
}

/// Stores the link that the caller submits, as `process_submission_at` does,
/// with the time of the call as its timestamp.
pub fn process_submission(
    store: &mut ContentStore,
    identity: Option<&SessionIdentity>,
    form: PostForm,
) -> (result: Result<Post, ServerError>)
    ensures
        final(store)@.valid(),
        exists|created_at: chrono::NaiveDateTime|
            (final(store)@, outcome(result)) == #[trigger] submission(
                old(store)@,
                presented(identity),
                form.title@,
                form.link@,
                created_at,
            ),
{
    process_submission_at(store, identity, form, current_timestamp())
}

/// Stores the comment that the caller leaves on the post `post_id`, with the
/// caller as its author and `created_at` as its timestamp; with
/// `parent_comment_id` the comment replies to that comment.
///
/// A caller without an identity is refused with `Unauthenticated`, a missing
/// post with `NotFound`, an identity that resolves to no user with
/// `Unauthenticated`, and a parent that is no comment on this post with
/// `ConstraintViolation`. A refused comment leaves the store as it was.
pub fn comment_at(
    store: &mut ContentStore,
    identity: Option<&SessionIdentity>,
    post_id: i32,
    text: String,
    parent_comment_id: Option<i32>,
    created_at: chrono::NaiveDateTime,
) -> (result: Result<Comment, ServerError>)
    ensures
        final(store)@.valid(),
        (final(store)@, outcome(result)) == commenting(
            old(store)@,
            presented(identity),
            post_id as int,
            text@,
            parent_ref(parent_comment_id),
            created_at,
        ),
{
    proof {
        use_type_invariant(&*store);
    }
    let identity = match identity {
        Some(identity) => identity,
        None => {
            return Err(ServerError::Unauthenticated);
        },
    };
    let post = match store.find_post(post_id) {
        Ok(post) => post,
        Err(e) => {
            return Err(e);
        },
    };
    let user = match authorize(store, identity) {
        Ok(user) => user,
        Err(e) => {
            return Err(e);
        },
    };
    store.insert_comment(
        NewComment::stamped(text, post.id, user.id, parent_comment_id, created_at),
    )
}

/// Stores the comment that the caller leaves on the post `post_id`, as
/// `comment_at` does, with the time of the call as its timestamp.
pub fn comment(
    store: &mut ContentStore,
    identity: Option<&SessionIdentity>,
    post_id: i32,
    text: String,
    parent_comment_id: Option<i32>,
) -> (result: Result<Comment, ServerError>)
    ensures
        final(store)@.valid(),
        exists|created_at: chrono::NaiveDateTime|
            (final(store)@, outcome(result)) == #[trigger] commenting(
                old(store)@,
                presented(identity),
                post_id as int,
                text@,
                parent_ref(parent_comment_id),
                created_at,
            ),
{
    comment_at(store, identity, post_id, text, parent_comment_id, current_timestamp())
}

} // verus!
