//! The records of the content model, the forms they are made from, and the
//! mathematical rows that the contracts speak of.

use vstd::prelude::*;

verus! {

/// `chrono::NaiveDateTime`, a date and time without a zone. The library
/// carries timestamps through and never looks inside one.
#[verifier::external_type_specification]
#[verifier::external_body]
pub struct ExNaiveDateTime(chrono::NaiveDateTime);

/// Reads the wall clock with `chrono::Local::now` and keeps the UTC date and
/// time of that instant (`DateTime::naive_utc`). The value changes from call
/// to call, so nothing is stated of it.
#[verifier::external_body]
pub(crate) fn current_timestamp() -> chrono::NaiveDateTime {
    chrono::Local::now().naive_utc()
}

/// A row of `users`, as the contracts see it.
pub struct UserRow {
    pub id: int,
    pub username: Seq<char>,
    pub email: Seq<char>,
    pub password: Seq<char>,
}

/// A row of `posts`, as the contracts see it.
pub struct PostRow {
    pub id: int,
    pub title: Seq<char>,
    pub link: Seq<char>,
    pub author: int,
    pub created_at: chrono::NaiveDateTime,
}

/// A row of `comments`, as the contracts see it.
pub struct CommentRow {
    pub id: int,
    pub comment: Seq<char>,
    pub post_id: int,
    pub user_id: int,
    pub parent_comment_id: Option<int>,
    pub created_at: chrono::NaiveDateTime,
}

/// A registered account. `password` always holds a hash.
#[derive(Debug, PartialEq, Eq)]
pub struct User {
    pub id: i32,
    pub username: String,
    pub email: String,
    pub password: String,
}

impl View for User {
    type V = UserRow;

    open spec fn view(&self) -> UserRow {
        UserRow {
            id: self.id as int,
            username: self.username@,
            email: self.email@,
            password: self.password@,
        }
    }
}

impl Clone for User {
    fn clone(&self) -> (copy: User)
        ensures
            copy == *self,
    {
        User {
            id: self.id,
            username: self.username.clone(),
            email: self.email.clone(),
            password: self.password.clone(),
        }
    }
}

/// What a visitor types into the sign-up form. `password` is plaintext.
#[derive(Debug, PartialEq, Eq)]
pub struct NewUserForm {
    pub username: String,
    pub email: String,
    pub password: String,
}

/// What a visitor types into the login form.
#[derive(Debug, PartialEq, Eq)]
pub struct LoginUser {
    pub username: String,
    pub password: String,
}

/// An account ready to be stored: it has no id yet, and its password is hashed.
#[derive(Debug, PartialEq, Eq)]
pub struct NewUser {
    pub username: String,
    pub email: String,
    pub password: String,
}

impl NewUser {
    /// Builds the account to store from a sign-up form and the hash of the
    /// form's password. The plaintext is dropped here and goes no further.
    pub fn new(form: NewUserForm, password_hash: String) -> (user: NewUser)
        ensures
            user.username@ == form.username@,
            user.email@ == form.email@,
            user.password@ == password_hash@,
    {
        NewUser { username: form.username, email: form.email, password: password_hash }
    }
}

/// What a member types into the submission form.
#[derive(Debug, PartialEq, Eq)]
pub struct PostForm {
    pub title: String,
    pub link: String,
}

/// A post ready to be stored.
#[derive(Debug, PartialEq, Eq)]
pub struct NewPost {
    pub title: String,
    pub link: String,
    pub author: i32,
    pub created_at: chrono::NaiveDateTime,
}

impl NewPost {
    /// The post that `uid` submits with `form` at the instant `created_at`.
    pub fn stamped(form: PostForm, uid: i32, created_at: chrono::NaiveDateTime) -> (post: NewPost)
        ensures
            post.title@ == form.title@,
            post.link@ == form.link@,
            post.author == uid,
            post.created_at == created_at,
    {
        NewPost { title: form.title, link: form.link, author: uid, created_at }
    }

    /// The post that `uid` submits with `form`, stamped with the time of the call.
    pub fn from_post_form(form: PostForm, uid: i32) -> (post: NewPost)
        ensures
            post.title@ == form.title@,
            post.link@ == form.link@,
            post.author == uid,
    {
        NewPost::stamped(form, uid, current_timestamp())
    }
}

/// A submitted link.
#[derive(Debug, PartialEq, Eq)]
pub struct Post {
    pub id: i32,
    pub title: String,
    pub link: String,
    pub author: i32,
    pub created_at: chrono::NaiveDateTime,
}

impl View for Post {
    type V = PostRow;

    open spec fn view(&self) -> PostRow {
        PostRow {
            id: self.id as int,
            title: self.title@,
            link: self.link@,
            author: self.author as int,
            created_at: self.created_at,
        }
    }
}

impl Clone for Post {
    fn clone(&self) -> (copy: Post)
        ensures
            copy == *self,
    {
        Post {
            id: self.id,
            title: self.title.clone(),
            link: self.link.clone(),
            author: self.author,
            created_at: self.created_at,
        }
    }
}

/// A comment on a post. One without `parent_comment_id` starts a thread; one
/// with it replies to that comment.
#[derive(Debug, PartialEq, Eq)]
pub struct Comment {
    pub id: i32,
    pub comment: String,
    pub post_id: i32,
    pub user_id: i32,
    pub parent_comment_id: Option<i32>,
    pub created_at: chrono::NaiveDateTime,
}

/// The parent reference of a comment as a mathematical integer.
pub open spec fn parent_ref(parent: Option<i32>) -> Option<int> {
    match parent {
        Some(id) => Some(id as int),
        None => None,
    }
}

impl View for Comment {
    type V = CommentRow;

    open spec fn view(&self) -> CommentRow {
        CommentRow {
            id: self.id as int,
            comment: self.comment@,
            post_id: self.post_id as int,
            user_id: self.user_id as int,
            parent_comment_id: parent_ref(self.parent_comment_id),
            created_at: self.created_at,
        }
    }
}

impl Clone for Comment {
    fn clone(&self) -> (copy: Comment)
        ensures
            copy == *self,
    {
        Comment {
            id: self.id,
            comment: self.comment.clone(),
            post_id: self.post_id,
            user_id: self.user_id,
            parent_comment_id: self.parent_comment_id,
            created_at: self.created_at,
        }
    }
}

/// A comment ready to be stored.
#[derive(Debug, PartialEq, Eq)]
pub struct NewComment {
    pub comment: String,
    pub post_id: i32,
    pub user_id: i32,
    pub parent_comment_id: Option<i32>,
    pub created_at: chrono::NaiveDateTime,
}

impl NewComment {
    /// The comment that `user_id` leaves on `post_id` at the instant `created_at`.
    pub fn stamped(
        comment: String,
        post_id: i32,
        user_id: i32,
        parent_comment_id: Option<i32>,
        created_at: chrono::NaiveDateTime,
    ) -> (new_comment: NewComment)
        ensures
            new_comment.comment@ == comment@,
            new_comment.post_id == post_id,
            new_comment.user_id == user_id,
            new_comment.parent_comment_id == parent_comment_id,
            new_comment.created_at == created_at,
    {
        NewComment { comment, post_id, user_id, parent_comment_id, created_at }
    }

    /// The comment that `user_id` leaves on `post_id`, stamped with the time of
    /// the call.
    pub fn new(
        comment: String,
        post_id: i32,
        user_id: i32,
        parent_comment_id: Option<i32>,
    ) -> (new_comment: NewComment)
        ensures
            new_comment.comment@ == comment@,
            new_comment.post_id == post_id,
            new_comment.user_id == user_id,
            new_comment.parent_comment_id == parent_comment_id,
    {
        NewComment::stamped(comment, post_id, user_id, parent_comment_id, current_timestamp())
    }
}

} // verus!
