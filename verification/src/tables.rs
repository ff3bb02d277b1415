//! The relational content model as mathematics: three tables of rows, the
//! rules of the schema, and what each query returns.

use vstd::prelude::*;
use crate::errors::ServerError;
use crate::models::{CommentRow, PostRow, UserRow};

verus! {

/// The content of a store: its rows, table by table, in insertion order.
pub struct Tables {
    pub users: Seq<UserRow>,
    pub posts: Seq<PostRow>,
    pub comments: Seq<CommentRow>,
}

/// The id that a table hands to its next row: one past the newest id, or 1.
pub open spec fn following_id(newest: Option<int>) -> int {
    match newest {
        Some(id) => id + 1,
        None => 1,
    }
}

impl Tables {
    pub open spec fn empty() -> Tables {
        Tables { users: Seq::empty(), posts: Seq::empty(), comments: Seq::empty() }
    }

    pub open spec fn has_user(self, id: int) -> bool {
        exists|i: int| 0 <= i < self.users.len() && self.users[i].id == id
    }

    pub open spec fn has_username(self, name: Seq<char>) -> bool {
        exists|i: int| 0 <= i < self.users.len() && self.users[i].username == name
    }

    pub open spec fn has_post(self, id: int) -> bool {
        exists|i: int| 0 <= i < self.posts.len() && self.posts[i].id == id
    }

    pub open spec fn has_comment(self, id: int) -> bool {
        exists|i: int| 0 <= i < self.comments.len() && self.comments[i].id == id
    }

    /// The user with this id, if there is one.
    pub open spec fn user_with_id(self, id: int) -> Option<UserRow> {
        if self.has_user(id) {
            Some(self.users[choose|i: int| 0 <= i < self.users.len() && self.users[i].id == id])
        } else {
            None
        }
    }

    /// The user with this username, if there is one.
    pub open spec fn user_named(self, name: Seq<char>) -> Option<UserRow> {
        if self.has_username(name) {
            Some(
                self.users[choose|i: int|
                    0 <= i < self.users.len() && self.users[i].username == name],
            )
        } else {
            None
        }
    }

    /// The post with this id, if there is one.
    pub open spec fn post_with_id(self, id: int) -> Option<PostRow> {
        if self.has_post(id) {
            Some(self.posts[choose|i: int| 0 <= i < self.posts.len() && self.posts[i].id == id])
        } else {
            None
        }
    }

    /// The comment with this id, if there is one.
    pub open spec fn comment_with_id(self, id: int) -> Option<CommentRow> {
        if self.has_comment(id) {
            Some(
                self.comments[choose|i: int|
                    0 <= i < self.comments.len() && self.comments[i].id == id],
            )
        } else {
            None
        }
    }

    /// `users(id PK, username UNIQUE)`: ids are positive and grow with the
    /// position of the row, usernames are non-empty and pairwise distinct.
    pub open spec fn users_valid(self) -> bool {
        &&& forall|i: int|
            0 <= i < self.users.len() ==> 0 < (#[trigger] self.users[i]).id <= i32::MAX
        &&& forall|i: int, j: int|
            0 <= i < j < self.users.len() ==> self.users[i].id < self.users[j].id
        &&& forall|i: int| 0 <= i < self.users.len() ==> (#[trigger] self.users[i]).username.len() > 0
        &&& forall|i: int, j: int|
            0 <= i < j < self.users.len() ==> self.users[i].username != self.users[j].username
    }

    /// `posts(id PK, author FK)`: ids are positive and grow with the position
    /// of the row, and every author is a user.
    pub open spec fn posts_valid(self) -> bool {
        &&& forall|i: int|
            0 <= i < self.posts.len() ==> 0 < (#[trigger] self.posts[i]).id <= i32::MAX
        &&& forall|i: int, j: int|
            0 <= i < j < self.posts.len() ==> self.posts[i].id < self.posts[j].id
        &&& forall|i: int|
            0 <= i < self.posts.len() ==> self.has_user((#[trigger] self.posts[i]).author)
    }

    /// Whether `parent` may be the parent of a comment on `post_id` that is
    /// stored at position `at`: no parent at all, or an earlier comment on the
    /// same post.
    pub open spec fn parent_in_thread(self, parent: Option<int>, post_id: int, at: int) -> bool {
        match parent {
            Some(parent_id) => exists|k: int|
                0 <= k < at && k < self.comments.len() && self.comments[k].id == parent_id
                    && self.comments[k].post_id == post_id,
            None => true,
        }
    }

    /// `comments(id PK, post_id FK, user_id FK, parent_comment_id FK NULLABLE)`:
    /// ids are positive and grow with the position of the row, every comment
    /// sits on a post and has a user as its author, and a reply answers an
    /// earlier comment on the same post.
    pub open spec fn comments_valid(self) -> bool {
        &&& forall|i: int|
            0 <= i < self.comments.len() ==> 0 < (#[trigger] self.comments[i]).id <= i32::MAX
        &&& forall|i: int, j: int|
            0 <= i < j < self.comments.len() ==> self.comments[i].id < self.comments[j].id
        &&& forall|i: int|
            0 <= i < self.comments.len() ==> self.has_post((#[trigger] self.comments[i]).post_id)
        &&& forall|i: int|
            0 <= i < self.comments.len() ==> self.has_user((#[trigger] self.comments[i]).user_id)
        &&& forall|i: int|
            0 <= i < self.comments.len() ==> self.parent_in_thread(
                (#[trigger] self.comments[i]).parent_comment_id,
                self.comments[i].post_id,
                i,
            )
    }

    /// Every rule of the schema holds.
    pub open spec fn valid(self) -> bool {
        &&& self.users_valid()
        &&& self.posts_valid()
        &&& self.comments_valid()
    }

    pub open spec fn next_user_id(self) -> int {
        following_id(if self.users.len() == 0 { None } else { Some(self.users.last().id) })
    }

    pub open spec fn next_post_id(self) -> int {
        following_id(if self.posts.len() == 0 { None } else { Some(self.posts.last().id) })
    }

    pub open spec fn next_comment_id(self) -> int {
        following_id(if self.comments.len() == 0 { None } else { Some(self.comments.last().id) })
    }

    /// Whether a new user may be stored under `username`, and if so under
    /// which id.
    pub open spec fn admit_user(self, username: Seq<char>) -> Result<int, ServerError> {
        if username.len() == 0 {
            Err(ServerError::ConstraintViolation)
        } else if self.has_username(username) {
            Err(ServerError::DuplicateUsername)
        } else if self.next_user_id() > i32::MAX {
            Err(ServerError::StoreFailure)
        } else {
            Ok(self.next_user_id())
        }
    }

    /// Whether a new post by `author` may be stored, and if so under which id.
    pub open spec fn admit_post(self, author: int) -> Result<int, ServerError> {
        if !self.has_user(author) {
            Err(ServerError::ConstraintViolation)
        } else if self.next_post_id() > i32::MAX {
            Err(ServerError::StoreFailure)
        } else {
            Ok(self.next_post_id())
        }
    }

    /// Whether a new comment may be stored, and if so under which id.
    pub open spec fn admit_comment(self, post_id: int, user_id: int, parent: Option<int>) -> Result<
        int,
        ServerError,
    > {
        if !self.has_post(post_id) || !self.has_user(user_id) || !self.parent_in_thread(
            parent,
            post_id,
            self.comments.len() as int,
        ) {
            Err(ServerError::ConstraintViolation)
        } else if self.next_comment_id() > i32::MAX {
            Err(ServerError::StoreFailure)
        } else {
            Ok(self.next_comment_id())
        }
    }

    pub open spec fn with_user(self, row: UserRow) -> Tables {
        Tables { users: self.users.push(row), ..self }
    }

    pub open spec fn with_post(self, row: PostRow) -> Tables {
        Tables { posts: self.posts.push(row), ..self }
    }

    pub open spec fn with_comment(self, row: CommentRow) -> Tables {
        Tables { comments: self.comments.push(row), ..self }
    }

    /// What `createUser` does to the tables and returns: the new row is added
    /// at the end, or the tables stay as they are and the refusal is reported.
    pub open spec fn create_user(
        self,
        username: Seq<char>,
        email: Seq<char>,
        password: Seq<char>,
    ) -> (Tables, Result<UserRow, ServerError>) {
        match self.admit_user(username) {
            Ok(id) => {
                let row = UserRow { id, username, email, password };
                (self.with_user(row), Ok(row))
            },
            Err(e) => (self, Err(e)),
        }
    }

    /// What `createPost` does to the tables and returns.
    pub open spec fn create_post(
        self,
        title: Seq<char>,
        link: Seq<char>,
        author: int,
        created_at: chrono::NaiveDateTime,
    ) -> (Tables, Result<PostRow, ServerError>) {
        match self.admit_post(author) {
            Ok(id) => {
                let row = PostRow { id, title, link, author, created_at };
                (self.with_post(row), Ok(row))
            },
            Err(e) => (self, Err(e)),
        }
    }

    /// What `createComment` does to the tables and returns.
    pub open spec fn create_comment(
        self,
        comment: Seq<char>,
        post_id: int,
        user_id: int,
        parent_comment_id: Option<int>,
        created_at: chrono::NaiveDateTime,
    ) -> (Tables, Result<CommentRow, ServerError>) {
        match self.admit_comment(post_id, user_id, parent_comment_id) {
            Ok(id) => {
                let row = CommentRow {
                    id,
                    comment,
                    post_id,
                    user_id,
                    parent_comment_id,
                    created_at,
                };
                (self.with_comment(row), Ok(row))
            },
            Err(e) => (self, Err(e)),
        }
    }

    /// The author of a row, looked up by id.
    pub open spec fn author(self, user_id: int) -> UserRow {
        self.user_with_id(user_id).unwrap()
    }

    /// Every post, in the order of the table, beside its author.
    pub open spec fn posts_with_authors(self) -> Seq<(PostRow, UserRow)> {
        self.posts.map_values(|p: PostRow| (p, self.author(p.author)))
    }

    /// Picks the comments on one post.
    pub open spec fn on_post(post_id: int) -> spec_fn(CommentRow) -> bool {
        |c: CommentRow| c.post_id == post_id
    }

    /// Picks the posts of one author.
    pub open spec fn posted_by(user_id: int) -> spec_fn(PostRow) -> bool {
        |p: PostRow| p.author == user_id
    }

    /// Picks the comments of one author.
    pub open spec fn commented_by(user_id: int) -> spec_fn(CommentRow) -> bool {
        |c: CommentRow| c.user_id == user_id
    }

    /// Puts a comment beside its author.
    pub open spec fn beside_author(self) -> spec_fn(CommentRow) -> (CommentRow, UserRow) {
        |c: CommentRow| (c, self.author(c.user_id))
    }

    /// The comments on one post, in the order of the table, each beside its
    /// author. The list is flat: replies are not nested under their parents.
    pub open spec fn comments_for_post(self, post_id: int) -> Seq<(CommentRow, UserRow)> {
        self.comments.filter(Self::on_post(post_id)).map_values(self.beside_author())
    }

    /// The posts of one author, in the order of the table.
    pub open spec fn posts_by_user(self, user_id: int) -> Seq<PostRow> {
        self.posts.filter(Self::posted_by(user_id))
    }

    /// The comments of one author, in the order of the table.
    pub open spec fn comments_by_user(self, user_id: int) -> Seq<CommentRow> {
        self.comments.filter(Self::commented_by(user_id))
    }

    /// Every row of `earlier` is still there, at the position it had.
    pub open spec fn extends(self, earlier: Tables) -> bool {
        &&& earlier.users.is_prefix_of(self.users)
        &&& earlier.posts.is_prefix_of(self.posts)
        &&& earlier.comments.is_prefix_of(self.comments)
    }

    /// Inserts never remove or move a row, so what was found is found again.
    pub proof fn lemma_extends_keeps(self, earlier: Tables)
        requires
            self.extends(earlier),
        ensures
            forall|id: int| earlier.has_user(id) ==> self.has_user(id),
            forall|name: Seq<char>| earlier.has_username(name) ==> self.has_username(name),
            forall|id: int| earlier.has_post(id) ==> self.has_post(id),
            forall|id: int| earlier.has_comment(id) ==> self.has_comment(id),
            forall|parent: Option<int>, post_id: int, at: int|
                earlier.parent_in_thread(parent, post_id, at) ==> self.parent_in_thread(
                    parent,
                    post_id,
                    at,
                ),
    {
        assert forall|id: int| earlier.has_user(id) implies self.has_user(id) by {
            let k = choose|k: int| 0 <= k < earlier.users.len() && earlier.users[k].id == id;
            assert(self.users[k] == earlier.users[k]);
        }
        assert forall|name: Seq<char>| earlier.has_username(name) implies self.has_username(
            name,
        ) by {
            let k = choose|k: int|
                0 <= k < earlier.users.len() && earlier.users[k].username == name;
            assert(self.users[k] == earlier.users[k]);
        }
        assert forall|id: int| earlier.has_post(id) implies self.has_post(id) by {
            let k = choose|k: int| 0 <= k < earlier.posts.len() && earlier.posts[k].id == id;
            assert(self.posts[k] == earlier.posts[k]);
        }
        assert forall|id: int| earlier.has_comment(id) implies self.has_comment(id) by {
            let k = choose|k: int|
                0 <= k < earlier.comments.len() && earlier.comments[k].id == id;
            assert(self.comments[k] == earlier.comments[k]);
        }
        assert forall|parent: Option<int>, post_id: int, at: int|
            earlier.parent_in_thread(parent, post_id, at) implies self.parent_in_thread(
            parent,
            post_id,
            at,
        ) by {
            if let Some(parent_id) = parent {
                let k = choose|k: int|
                    0 <= k < at && k < earlier.comments.len() && earlier.comments[k].id
                        == parent_id && earlier.comments[k].post_id == post_id;
                assert(self.comments[k] == earlier.comments[k]);
            }
        }
    }

    /// An admitted user leaves the rules of the schema intact.
    pub proof fn lemma_user_keeps_valid(self, row: UserRow)
        requires
            self.valid(),
            self.admit_user(row.username) == Ok::<int, ServerError>(row.id),
        ensures
            self.with_user(row).valid(),
            self.with_user(row).extends(self),
    {
        let after = self.with_user(row);
        after.lemma_extends_keeps(self);
    }

    /// An admitted post leaves the rules of the schema intact.
    pub proof fn lemma_post_keeps_valid(self, row: PostRow)
        requires
            self.valid(),
            self.admit_post(row.author) == Ok::<int, ServerError>(row.id),
        ensures
            self.with_post(row).valid(),
            self.with_post(row).extends(self),
    {
        let after = self.with_post(row);
        after.lemma_extends_keeps(self);
    }

    /// An admitted comment leaves the rules of the schema intact.
    pub proof fn lemma_comment_keeps_valid(self, row: CommentRow)
        requires
            self.valid(),
            self.admit_comment(row.post_id, row.user_id, row.parent_comment_id) == Ok::<
                int,
                ServerError,
            >(row.id),
        ensures
            self.with_comment(row).valid(),
            self.with_comment(row).extends(self),
    {
        let after = self.with_comment(row);
        after.lemma_extends_keeps(self);
    }

    /// Ids are keys: two rows of a table with the same id are the same row,
    /// and so are two users with the same username.
    pub proof fn lemma_keys(self)
        requires
            self.valid(),
        ensures
            forall|i: int|
                0 <= i < self.users.len() ==> self.user_with_id((#[trigger] self.users[i]).id)
                    == Some(self.users[i]),
            forall|i: int|
                0 <= i < self.users.len() ==> self.user_named((#[trigger] self.users[i]).username)
                    == Some(self.users[i]),
            forall|i: int|
                0 <= i < self.posts.len() ==> self.post_with_id((#[trigger] self.posts[i]).id)
                    == Some(self.posts[i]),
            forall|i: int|
                0 <= i < self.comments.len() ==> self.comment_with_id(
                    (#[trigger] self.comments[i]).id,
                ) == Some(self.comments[i]),
    {
        assert forall|i: int| 0 <= i < self.users.len() implies self.user_with_id(
            (#[trigger] self.users[i]).id,
        ) == Some(self.users[i]) by {
            let id = self.users[i].id;
            let k = choose|k: int| 0 <= k < self.users.len() && self.users[k].id == id;
            assert(k == i) by {
                if k < i {
                    assert(self.users[k].id < self.users[i].id);
                } else if i < k {
                    assert(self.users[i].id < self.users[k].id);
                }
            }
        }
        assert forall|i: int| 0 <= i < self.users.len() implies self.user_named(
            (#[trigger] self.users[i]).username,
        ) == Some(self.users[i]) by {
            let name = self.users[i].username;
            let k = choose|k: int| 0 <= k < self.users.len() && self.users[k].username == name;
            assert(k == i) by {
                if k < i {
                    assert(self.users[k].username != self.users[i].username);
                } else if i < k {
                    assert(self.users[i].username != self.users[k].username);
                }
            }
        }
        assert forall|i: int| 0 <= i < self.posts.len() implies self.post_with_id(
            (#[trigger] self.posts[i]).id,
        ) == Some(self.posts[i]) by {
            let id = self.posts[i].id;
            let k = choose|k: int| 0 <= k < self.posts.len() && self.posts[k].id == id;
            assert(k == i) by {
                if k < i {
                    assert(self.posts[k].id < self.posts[i].id);
                } else if i < k {
                    assert(self.posts[i].id < self.posts[k].id);
                }
            }
        }
        assert forall|i: int| 0 <= i < self.comments.len() implies self.comment_with_id(
            (#[trigger] self.comments[i]).id,
        ) == Some(self.comments[i]) by {
            let id = self.comments[i].id;
            let k = choose|k: int| 0 <= k < self.comments.len() && self.comments[k].id == id;
            assert(k == i) by {
                if k < i {
                    assert(self.comments[k].id < self.comments[i].id);
                } else if i < k {
                    assert(self.comments[i].id < self.comments[k].id);
                }
            }
        }
    }

    /// A username can be registered once: after a registration has succeeded,
    /// another one under the same username is refused with
    /// `DuplicateUsername`, whatever else it holds, and changes nothing.
    pub proof fn law_username_registers_once(
        self,
        username: Seq<char>,
        email: Seq<char>,
        password: Seq<char>,
        other_email: Seq<char>,
        other_password: Seq<char>,
    )
        requires
            self.valid(),
            self.create_user(username, email, password).1 is Ok,
        ensures
            ({
                let after = self.create_user(username, email, password).0;
                after.create_user(username, other_email, other_password) == (
                    after,
                    Err::<UserRow, ServerError>(ServerError::DuplicateUsername),
                )
            }),
    {
        let after = self.create_user(username, email, password).0;
        let n = self.users.len() as int;
        assert(after.users[n].username == username);
    }

    /// Registrations under distinct usernames do not stand in each other's
    /// way: where neither username is taken or empty and two ids are left,
    /// both succeed, one after the other, and get distinct ids.
    pub proof fn law_distinct_usernames_register(
        self,
        username: Seq<char>,
        email: Seq<char>,
        password: Seq<char>,
        other_username: Seq<char>,
        other_email: Seq<char>,
        other_password: Seq<char>,
    )
        requires
            self.valid(),
            username != other_username,
            username.len() > 0,
            other_username.len() > 0,
            !self.has_username(username),
            !self.has_username(other_username),
            self.next_user_id() < i32::MAX,
        ensures
            ({
                let (after, first) = self.create_user(username, email, password);
                let (last, second) = after.create_user(other_username, other_email, other_password);
                &&& first is Ok
                &&& second is Ok
                &&& first->Ok_0.id != second->Ok_0.id
                &&& last.valid()
                &&& last.user_named(username) == Some(first->Ok_0)
                &&& last.user_named(other_username) == Some(second->Ok_0)
            }),
    {
        let (after, first) = self.create_user(username, email, password);
        let row = first->Ok_0;
        self.lemma_user_keeps_valid(row);
        let n = self.users.len() as int;
        assert(after.users[n] == row);
        assert(!after.has_username(other_username)) by {
            if after.has_username(other_username) {
                let k = choose|k: int|
                    0 <= k < after.users.len() && after.users[k].username == other_username;
                if k < n {
                    assert(self.users[k].username == other_username);
                }
            }
        }
        let (last, second) = after.create_user(other_username, other_email, other_password);
        let other_row = second->Ok_0;
        after.lemma_user_keeps_valid(other_row);
        assert(last.users[n] == row);
        assert(last.users[n + 1] == other_row);
        last.lemma_keys();
    }

    /// The join of posts and users is exact: one row for each post, in the
    /// order of the posts, and the user beside a post is the stored user
    /// whose id the post names as its author.
    pub proof fn law_posts_with_authors(self)
        requires
            self.valid(),
        ensures
            self.posts_with_authors().len() == self.posts.len(),
            forall|i: int|
                0 <= i < self.posts.len() ==> {
                    &&& (#[trigger] self.posts_with_authors()[i]).0 == self.posts[i]
                    &&& self.posts_with_authors()[i].1.id == self.posts[i].author
                    &&& self.users.contains(self.posts_with_authors()[i].1)
                },
    {
        assert forall|i: int| 0 <= i < self.posts.len() implies {
            &&& (#[trigger] self.posts_with_authors()[i]).0 == self.posts[i]
            &&& self.posts_with_authors()[i].1.id == self.posts[i].author
            &&& self.users.contains(self.posts_with_authors()[i].1)
        } by {
            assert(self.has_user(self.posts[i].author));
        }
    }

    /// The comments listed for a post are exactly the comments on that post,
    /// each beside the stored user who wrote it.
    pub proof fn law_comments_for_post(self, post_id: int)
        requires
            self.valid(),
        ensures
            forall|i: int|
                0 <= i < self.comments_for_post(post_id).len() ==> {
                    &&& (#[trigger] self.comments_for_post(post_id)[i]).0.post_id == post_id
                    &&& self.comments.contains(self.comments_for_post(post_id)[i].0)
                    &&& self.comments_for_post(post_id)[i].1.id == self.comments_for_post(
                        post_id,
                    )[i].0.user_id
                    &&& self.users.contains(self.comments_for_post(post_id)[i].1)
                },
            forall|k: int|
                0 <= k < self.comments.len() && self.comments[k].post_id == post_id
                    ==> self.comments_for_post(post_id).contains(
                    (#[trigger] self.comments[k], self.author(self.comments[k].user_id)),
                ),
    {
        let picked = Self::on_post(post_id);
        let on = self.comments.filter(picked);
        let rows = self.comments_for_post(post_id);
        assert forall|i: int| 0 <= i < rows.len() implies {
            &&& (#[trigger] rows[i]).0.post_id == post_id
            &&& self.comments.contains(rows[i].0)
            &&& rows[i].1.id == rows[i].0.user_id
            &&& self.users.contains(rows[i].1)
        } by {
            assert(rows[i].0 == on[i]);
            assert(on.contains(on[i]));
            self.comments.lemma_filter_pred(picked, i);
            self.comments.lemma_filter_contains_rev(picked, on[i]);
            let k = choose|k: int| 0 <= k < self.comments.len() && self.comments[k] == on[i];
            assert(self.has_user(self.comments[k].user_id));
        }
        assert forall|k: int|
            0 <= k < self.comments.len() && self.comments[k].post_id
                == post_id implies self.comments_for_post(post_id).contains(
            (#[trigger] self.comments[k], self.author(self.comments[k].user_id)),
        ) by {
            let c = self.comments[k];
            assert(picked(c));
            self.comments.lemma_filter_contains(picked, k);
            let j = choose|j: int| 0 <= j < on.len() && on[j] == c;
            assert(rows[j] == (c, self.author(c.user_id)));
        }
    }

    /// In every store a reply answers an older comment on its own post.
    pub proof fn law_replies_stay_on_their_post(self, i: int)
        requires
            self.valid(),
            0 <= i < self.comments.len(),
            self.comments[i].parent_comment_id is Some,
        ensures
            ({
                let reply = self.comments[i];
                let parent = self.comment_with_id(reply.parent_comment_id.unwrap());
                &&& parent is Some
                &&& parent.unwrap().post_id == reply.post_id
                &&& parent.unwrap().id < reply.id
            }),
    {
        let reply = self.comments[i];
        let parent_id = reply.parent_comment_id.unwrap();
        assert(self.parent_in_thread(reply.parent_comment_id, reply.post_id, i));
        let k = choose|k: int|
            0 <= k < i && k < self.comments.len() && self.comments[k].id == parent_id
                && self.comments[k].post_id == reply.post_id;
        self.lemma_keys();
        assert(self.comment_with_id(self.comments[k].id) == Some(self.comments[k]));
    }

    /// Threads hold together: a comment stored with a parent is found again
    /// under its id with that parent, and is listed with the comments of its
    /// post; a comment stored without a parent has none. The parent of a
    /// stored reply is an older comment on the same post.
    pub proof fn law_comment_keeps_parent(
        self,
        comment: Seq<char>,
        post_id: int,
        user_id: int,
        parent_comment_id: Option<int>,
        created_at: chrono::NaiveDateTime,
    )
        requires
            self.valid(),
            self.create_comment(comment, post_id, user_id, parent_comment_id, created_at).1 is Ok,
        ensures
            ({
                let (after, stored) = self.create_comment(
                    comment,
                    post_id,
                    user_id,
                    parent_comment_id,
                    created_at,
                );
                let row = stored->Ok_0;
                &&& row.parent_comment_id == parent_comment_id
                &&& after.comment_with_id(row.id) == Some(row)
                &&& after.comments_for_post(post_id).contains((row, after.author(user_id)))
                &&& parent_comment_id matches Some(parent_id) ==> {
                    &&& after.comment_with_id(parent_id) is Some
                    &&& after.comment_with_id(parent_id).unwrap().post_id == post_id
                    &&& parent_id < row.id
                }
            }),
    {
        let (after, stored) = self.create_comment(
            comment,
            post_id,
            user_id,
            parent_comment_id,
            created_at,
        );
        let row = stored->Ok_0;
        let n = self.comments.len() as int;
        self.lemma_comment_keeps_valid(row);
        after.lemma_keys();
        assert(after.comments[n] == row);
        after.law_comments_for_post(post_id);
        if let Some(parent_id) = parent_comment_id {
            let k = choose|k: int|
                0 <= k < n && k < self.comments.len() && self.comments[k].id == parent_id
                    && self.comments[k].post_id == post_id;
            assert(after.comments[k] == self.comments[k]);
            assert(after.comments[k].id < after.comments[n].id);
        }
    }
}

} // verus!
