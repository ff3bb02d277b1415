//! The content store: users, posts and comments held under the rules of the
//! schema, with typed inserts and lookups.

use vstd::prelude::*;
use crate::errors::ServerError;
use crate::models::{
    current_timestamp, parent_ref, Comment, CommentRow, NewComment, NewPost, NewUser, Post,
    PostRow, User, UserRow,
};
use crate::tables::Tables;

verus! {

pub open spec fn user_rows(users: Seq<User>) -> Seq<UserRow> {
    users.map_values(|u: User| u@)
}

pub open spec fn post_rows(posts: Seq<Post>) -> Seq<PostRow> {
    posts.map_values(|p: Post| p@)
}

pub open spec fn comment_rows(comments: Seq<Comment>) -> Seq<CommentRow> {
    comments.map_values(|c: Comment| c@)
}

pub open spec fn post_author_rows(rows: Seq<(Post, User)>) -> Seq<(PostRow, UserRow)> {
    rows.map_values(|r: (Post, User)| (r.0@, r.1@))
}

pub open spec fn comment_author_rows(rows: Seq<(Comment, User)>) -> Seq<(CommentRow, UserRow)> {
    rows.map_values(|r: (Comment, User)| (r.0@, r.1@))
}

/// The tables that these records make up.
pub open spec fn tables_of(users: Seq<User>, posts: Seq<Post>, comments: Seq<Comment>) -> Tables {
    Tables { users: user_rows(users), posts: post_rows(posts), comments: comment_rows(comments) }
}

/// What a fallible operation returned, with the record replaced by its row.
pub open spec fn outcome<T: View>(result: Result<T, ServerError>) -> Result<T::V, ServerError> {
    match result {
        Ok(record) => Ok(record@),
        Err(e) => Err(e),
    }
}

/// A lookup that found nothing reports `NotFound`.
pub open spec fn or_not_found<R>(row: Option<R>) -> Result<R, ServerError> {
    match row {
        Some(r) => Ok(r),
        None => Err(ServerError::NotFound),
    }
}

/// The three tables of the board. Rows enter through the `create_*` and
/// `insert_*` operations only, so the rules of the schema hold at all times.
pub struct ContentStore {
    users: Vec<User>,
    posts: Vec<Post>,
    comments: Vec<Comment>,
}

impl View for ContentStore {
    type V = Tables;

    closed spec fn view(&self) -> Tables {
        tables_of(self.users@, self.posts@, self.comments@)
    }
}

/// Whether the users obey the rules of their table.
fn users_obey(users: &Vec<User>, Ghost(tables): Ghost<Tables>) -> (ok: bool)
    requires
        tables.users == user_rows(users@),
    ensures
        ok == tables.users_valid(),
{
    let mut i: usize = 0;
    while i < users.len()
        invariant
            i <= users.len(),
            tables.users == user_rows(users@),
            forall|a: int| 0 <= a < i ==> 0 < (#[trigger] tables.users[a]).id <= i32::MAX,
            forall|a: int, b: int| 0 <= a < b < i ==> tables.users[a].id < tables.users[b].id,
            forall|a: int| 0 <= a < i ==> (#[trigger] tables.users[a]).username.len() > 0,
            forall|a: int, b: int|
                0 <= a < b < i ==> tables.users[a].username != tables.users[b].username,
        decreases users.len() - i,
    {
        assert(tables.users[i as int] == users@[i as int]@);
        if users[i].id <= 0 || users[i].username.as_str().is_empty() {
            return false;
        }
        if i > 0 {
            assert(tables.users[i - 1] == users@[i - 1]@);
            if users[i - 1].id >= users[i].id {
                return false;
            }
        }
        let mut j: usize = 0;
        while j < i
            invariant
                j <= i < users.len(),
                tables.users == user_rows(users@),
                forall|a: int| 0 <= a < j ==> tables.users[a].username != tables.users[i as int].username,
            decreases i - j,
        {
            if users[j].username == users[i].username {
                assert(tables.users[j as int].username == tables.users[i as int].username);
                return false;
            }
            j += 1;
        }
        i += 1;
    }
    true
}

/// Where the user with this id stands, if there is one.
fn user_at(users: &Vec<User>, id: i32, Ghost(tables): Ghost<Tables>) -> (at: Option<usize>)
    requires
        tables.users == user_rows(users@),
    ensures
        match at {
            Some(i) => i < tables.users.len() && tables.users[i as int].id == id,
            None => !tables.has_user(id as int),
        },
{
    let mut i: usize = 0;
    while i < users.len()
        invariant
            i <= users.len(),
            tables.users == user_rows(users@),
            forall|k: int| 0 <= k < i ==> tables.users[k].id != id,
        decreases users.len() - i,
    {
        if users[i].id == id {
            return Some(i);
        }
        i += 1;
    }
    None
}

/// Where the post with this id stands, if there is one.
fn post_at(posts: &Vec<Post>, id: i32, Ghost(tables): Ghost<Tables>) -> (at: Option<usize>)
    requires
        tables.posts == post_rows(posts@),
    ensures
        match at {
            Some(i) => i < tables.posts.len() && tables.posts[i as int].id == id,
            None => !tables.has_post(id as int),
        },
{
    let mut i: usize = 0;
    while i < posts.len()
        invariant
            i <= posts.len(),
            tables.posts == post_rows(posts@),
            forall|k: int| 0 <= k < i ==> tables.posts[k].id != id,
        decreases posts.len() - i,
    {
        if posts[i].id == id {
            return Some(i);
        }
        i += 1;
    }
    None
}

/// Whether the posts obey the rules of their table.
fn posts_obey(users: &Vec<User>, posts: &Vec<Post>, Ghost(tables): Ghost<Tables>) -> (ok: bool)
    requires
        tables.users == user_rows(users@),
        tables.posts == post_rows(posts@),
    ensures
        ok == tables.posts_valid(),
{
    let mut i: usize = 0;
    while i < posts.len()
        invariant
            i <= posts.len(),
            tables.users == user_rows(users@),
            tables.posts == post_rows(posts@),
            forall|a: int| 0 <= a < i ==> 0 < (#[trigger] tables.posts[a]).id <= i32::MAX,
            forall|a: int, b: int| 0 <= a < b < i ==> tables.posts[a].id < tables.posts[b].id,
            forall|a: int| 0 <= a < i ==> tables.has_user((#[trigger] tables.posts[a]).author),
        decreases posts.len() - i,
    {
        assert(tables.posts[i as int] == posts@[i as int]@);
        if posts[i].id <= 0 {
            return false;
        }
        if i > 0 {
            assert(tables.posts[i - 1] == posts@[i - 1]@);
            if posts[i - 1].id >= posts[i].id {
                return false;
            }
        }
        if user_at(users, posts[i].author, Ghost(tables)).is_none() {
            return false;
        }
        i += 1;
    }
    true
}

/// Whether an earlier comment on `post_id` has the id `parent_id`, where
/// earlier means before the position `at`.
fn thread_holds(
    comments: &Vec<Comment>,
    parent_id: i32,
    post_id: i32,
    at: usize,
    Ghost(tables): Ghost<Tables>,
) -> (yes: bool)
    requires
        tables.comments == comment_rows(comments@),
        at <= comments.len(),
    ensures
        yes == tables.parent_in_thread(Some(parent_id as int), post_id as int, at as int),
{
    let mut k: usize = 0;
    while k < at
        invariant
            k <= at <= comments.len(),
            tables.comments == comment_rows(comments@),
            forall|a: int|
                0 <= a < k ==> !((#[trigger] tables.comments[a]).id == parent_id
                    && tables.comments[a].post_id == post_id),
        decreases at - k,
    {
        if comments[k].id == parent_id && comments[k].post_id == post_id {
            assert(tables.comments[k as int] == comments@[k as int]@);
            return true;
        }
        k += 1;
    }
    false
}

/// Whether the comments obey the rules of their table.
fn comments_obey(
    users: &Vec<User>,
    posts: &Vec<Post>,
    comments: &Vec<Comment>,
    Ghost(tables): Ghost<Tables>,
) -> (ok: bool)
    requires
        tables == tables_of(users@, posts@, comments@),
    ensures
        ok == tables.comments_valid(),
{
    let mut i: usize = 0;
    while i < comments.len()
        invariant
            i <= comments.len(),
            tables == tables_of(users@, posts@, comments@),
            forall|a: int| 0 <= a < i ==> 0 < (#[trigger] tables.comments[a]).id <= i32::MAX,
            forall|a: int, b: int|
                0 <= a < b < i ==> tables.comments[a].id < tables.comments[b].id,
            forall|a: int| 0 <= a < i ==> tables.has_post((#[trigger] tables.comments[a]).post_id),
            forall|a: int| 0 <= a < i ==> tables.has_user((#[trigger] tables.comments[a]).user_id),
            forall|a: int|
                0 <= a < i ==> tables.parent_in_thread(
                    (#[trigger] tables.comments[a]).parent_comment_id,
                    tables.comments[a].post_id,
                    a,
                ),
        decreases comments.len() - i,
    {
        assert(tables.comments[i as int] == comments@[i as int]@);
        if comments[i].id <= 0 {
            return false;
        }
        if i > 0 {
            assert(tables.comments[i - 1] == comments@[i - 1]@);
            if comments[i - 1].id >= comments[i].id {
                return false;
            }
        }
        if post_at(posts, comments[i].post_id, Ghost(tables)).is_none() {
            return false;
        }
        if user_at(users, comments[i].user_id, Ghost(tables)).is_none() {
            return false;
        }
        let threaded = match comments[i].parent_comment_id {
            Some(parent_id) => thread_holds(
                comments,
                parent_id,
                comments[i].post_id,
                i,
                Ghost(tables),
            ),
            None => true,
        };
        if !threaded {
            return false;
        }
        i += 1;
    }
    true
}

impl ContentStore {
    /// The rules of the schema hold of every store, at all times.
    #[verifier::type_invariant]
    pub open spec fn inv(&self) -> bool {
        self@.valid()
    }

    /// A store with no rows.
    pub fn new() -> (store: ContentStore)
        ensures
            store@ == Tables::empty(),
            store@.valid(),
    {
        let store = ContentStore { users: Vec::new(), posts: Vec::new(), comments: Vec::new() };
        assert(store@.users =~= Seq::empty());
        assert(store@.posts =~= Seq::empty());
        assert(store@.comments =~= Seq::empty());
        store
    }

    /// The store that holds these rows, as they were read from a backing
    /// database, in the order of their tables. Rows that break a rule of the
    /// schema are refused with `ConstraintViolation`.
    pub fn from_rows(users: Vec<User>, posts: Vec<Post>, comments: Vec<Comment>) -> (result: Result<
        ContentStore,
        ServerError,
    >)
        ensures
            result is Ok <==> tables_of(users@, posts@, comments@).valid(),
            match result {
                Ok(store) => store@ == tables_of(users@, posts@, comments@),
                Err(e) => e == ServerError::ConstraintViolation,
            },
    {
        let ghost tables = tables_of(users@, posts@, comments@);
        if users_obey(&users, Ghost(tables)) && posts_obey(&users, &posts, Ghost(tables))
            && comments_obey(&users, &posts, &comments, Ghost(tables)) {
            Ok(ContentStore { users, posts, comments })
        } else {
            Err(ServerError::ConstraintViolation)
        }
    }

    /// Moves the tables out and leaves an empty store behind.
    fn take(&mut self) -> (taken: ContentStore)
        ensures
            taken == *old(self),
            final(self)@ == Tables::empty(),
    {
        let mut taken = ContentStore::new();
        core::mem::swap(self, &mut taken);
        taken
    }

    fn user_position_by_name(&self, username: &str) -> (at: Option<usize>)
        ensures
            match at {
                Some(i) => i < self@.users.len() && self@.users[i as int].username == username@,
                None => !self@.has_username(username@),
            },
    {
        let wanted = username.to_owned();
        let mut i: usize = 0;
        while i < self.users.len()
            invariant
                i <= self.users.len(),
                wanted@ == username@,
                forall|k: int| 0 <= k < i ==> self@.users[k].username != username@,
            decreases self.users.len() - i,
        {
            if self.users[i].username == wanted {
                return Some(i);
            }
            i += 1;
        }
        None
    }

    /// The user registered under `username`, or `NotFound`.
    pub fn find_user_by_username(&self, username: &str) -> (result: Result<User, ServerError>)
        ensures
            outcome(result) == or_not_found(self@.user_named(username@)),
    {
        proof {
            use_type_invariant(self);
        }
        match self.user_position_by_name(username) {
            Some(i) => {
                assert(self@.has_username(username@));
                Ok(self.users[i].clone())
            },
            None => Err(ServerError::NotFound),
        }
    }

    /// The user with this id, or `NotFound`.
    pub fn find_user_by_id(&self, id: i32) -> (result: Result<User, ServerError>)
        ensures
            outcome(result) == or_not_found(self@.user_with_id(id as int)),
    {
        proof {
            use_type_invariant(self);
        }
        match user_at(&self.users, id, Ghost(self@)) {
            Some(i) => {
                assert(self@.has_user(id as int));
                Ok(self.users[i].clone())
            },
            None => Err(ServerError::NotFound),
        }
    }

    /// The post with this id, or `NotFound`.
    pub fn find_post(&self, id: i32) -> (result: Result<Post, ServerError>)
        ensures
            outcome(result) == or_not_found(self@.post_with_id(id as int)),
    {
        proof {
            use_type_invariant(self);
        }
        match post_at(&self.posts, id, Ghost(self@)) {
            Some(i) => {
                assert(self@.has_post(id as int));
                Ok(self.posts[i].clone())
            },
            None => Err(ServerError::NotFound),
        }
    }

    /// Whether a new comment on `post_id` may name `parent` as its parent.
    fn parent_admissible(&self, parent: Option<i32>, post_id: i32) -> (yes: bool)
        ensures
            yes == self@.parent_in_thread(
                parent_ref(parent),
                post_id as int,
                self@.comments.len() as int,
            ),
    {
        match parent {
            None => true,
            Some(parent_id) => thread_holds(
                &self.comments,
                parent_id,
                post_id,
                self.comments.len(),
                Ghost(self@),
            ),
        }
    }

    /// Stores a new user under the next free id and returns the stored row.
    ///
    /// An empty username is refused with `ConstraintViolation`, a username
    /// that is taken with `DuplicateUsername`; `StoreFailure` reports that the
    /// ids have run out. A refused insert leaves the store as it was.
    pub fn create_user(&mut self, new_user: NewUser) -> (result: Result<User, ServerError>)
        ensures
            final(self)@.valid(),
            (final(self)@, outcome(result)) == old(self)@.create_user(
                new_user.username@,
                new_user.email@,
                new_user.password@,
            ),
    {
        proof {
            use_type_invariant(&*self);
        }
        if new_user.username.as_str().is_empty() {
            return Err(ServerError::ConstraintViolation);
        }
        if self.user_position_by_name(new_user.username.as_str()).is_some() {
            return Err(ServerError::DuplicateUsername);
        }
        let count = self.users.len();
        let id: i32 = if count == 0 {
            1
        } else {
            let newest = self.users[count - 1].id;
            if newest == i32::MAX {
                return Err(ServerError::StoreFailure);
            }
            newest + 1
        };
        let user = User {
            id,
            username: new_user.username,
            email: new_user.email,
            password: new_user.password,
        };
        let stored = user.clone();
        let ContentStore { mut users, posts, comments } = self.take();
        proof {
            old(self)@.lemma_user_keeps_valid(user@);
            assert(user_rows(users@.push(user)) =~= user_rows(users@).push(user@));
        }
        users.push(user);
        *self = ContentStore { users, posts, comments };
        Ok(stored)
    }

    /// Stores a new post under the next free id and returns the stored row.
    ///
    /// A post whose author is no user is refused with `ConstraintViolation`;
    /// `StoreFailure` reports that the ids have run out. A refused insert
    /// leaves the store as it was.
    pub fn insert_post(&mut self, new_post: NewPost) -> (result: Result<Post, ServerError>)
        ensures
            final(self)@.valid(),
            (final(self)@, outcome(result)) == old(self)@.create_post(
                new_post.title@,
                new_post.link@,
                new_post.author as int,
                new_post.created_at,
            ),
    {
        proof {
            use_type_invariant(&*self);
        }
        if user_at(&self.users, new_post.author, Ghost(self@)).is_none() {
            return Err(ServerError::ConstraintViolation);
        }
        let count = self.posts.len();
        let id: i32 = if count == 0 {
            1
        } else {
            let newest = self.posts[count - 1].id;
            if newest == i32::MAX {
                return Err(ServerError::StoreFailure);
            }
            newest + 1
        };
        let post = Post {
            id,
            title: new_post.title,
            link: new_post.link,
            author: new_post.author,
            created_at: new_post.created_at,
        };
        let stored = post.clone();
        let ContentStore { users, mut posts, comments } = self.take();
        proof {
            old(self)@.lemma_post_keeps_valid(post@);
            assert(post_rows(posts@.push(post)) =~= post_rows(posts@).push(post@));
        }
        posts.push(post);
        *self = ContentStore { users, posts, comments };
        Ok(stored)
    }

    /// Stores a new post by `author_id`, stamped with the time of the call.
    ///
    /// Everything but the timestamp is as `insert_post` has it.
    pub fn create_post(&mut self, title: String, link: String, author_id: i32) -> (result: Result<
        Post,
        ServerError,
    >)
        ensures
            final(self)@.valid(),
            exists|created_at: chrono::NaiveDateTime|
                (final(self)@, outcome(result)) == #[trigger] old(self)@.create_post(
                    title@,
                    link@,
                    author_id as int,
                    created_at,
                ),
    {
        let new_post = NewPost { title, link, author: author_id, created_at: current_timestamp() };
        self.insert_post(new_post)
    }

    /// Stores a new comment under the next free id and returns the stored row.
    ///
    /// The comment is refused with `ConstraintViolation` unless its post and
    /// its author exist and its parent, if it names one, is a comment on the
    /// same post; `StoreFailure` reports that the ids have run out. A refused
    /// insert leaves the store as it was.
    pub fn insert_comment(&mut self, new_comment: NewComment) -> (result: Result<
        Comment,
        ServerError,
    >)
        ensures
            final(self)@.valid(),
            (final(self)@, outcome(result)) == old(self)@.create_comment(
                new_comment.comment@,
                new_comment.post_id as int,
                new_comment.user_id as int,
                parent_ref(new_comment.parent_comment_id),
                new_comment.created_at,
            ),
    {
        proof {
            use_type_invariant(&*self);
        }
        if post_at(&self.posts, new_comment.post_id, Ghost(self@)).is_none() {
            return Err(ServerError::ConstraintViolation);
        }
        if user_at(&self.users, new_comment.user_id, Ghost(self@)).is_none() {
            return Err(ServerError::ConstraintViolation);
        }
        if !self.parent_admissible(new_comment.parent_comment_id, new_comment.post_id) {
            return Err(ServerError::ConstraintViolation);
        }
        let count = self.comments.len();
        let id: i32 = if count == 0 {
            1
        } else {
            let newest = self.comments[count - 1].id;
            if newest == i32::MAX {
                return Err(ServerError::StoreFailure);
            }
            newest + 1
        };
        let comment = Comment {
            id,
            comment: new_comment.comment,
            post_id: new_comment.post_id,
            user_id: new_comment.user_id,
            parent_comment_id: new_comment.parent_comment_id,
            created_at: new_comment.created_at,
        };
        let stored = comment.clone();
        let ContentStore { users, posts, mut comments } = self.take();
        proof {
            old(self)@.lemma_comment_keeps_valid(comment@);
            assert(comment_rows(comments@.push(comment)) =~= comment_rows(comments@).push(
                comment@,
            ));
        }
        comments.push(comment);
        *self = ContentStore { users, posts, comments };
        Ok(stored)
    }

    /// Stores a new comment by `author_id` on `post_id`, stamped with the
    /// time of the call.
    ///
    /// Everything but the timestamp is as `insert_comment` has it.
    pub fn create_comment(
        &mut self,
        text: String,
        post_id: i32,
        author_id: i32,
        parent_comment_id: Option<i32>,
    ) -> (result: Result<Comment, ServerError>)
        ensures
            final(self)@.valid(),
            exists|created_at: chrono::NaiveDateTime|
                (final(self)@, outcome(result)) == #[trigger] old(self)@.create_comment(
                    text@,
                    post_id as int,
                    author_id as int,
                    parent_ref(parent_comment_id),
                    created_at,
                ),
    {
        let new_comment = NewComment::new(text, post_id, author_id, parent_comment_id);
        self.insert_comment(new_comment)
    }

    /// The user that a row names as its author.
    fn author(&self, user_id: i32) -> (user: User)
        requires
            self@.has_user(user_id as int),
        ensures
            user@ == self@.author(user_id as int),
    {
        proof {
            use_type_invariant(self);
        }
        let ghost at = choose|k: int| 0 <= k < self@.users.len() && self@.users[k].id == user_id;
        let mut i: usize = 0;
        while self.users[i].id != user_id
            invariant
                0 <= i <= at < self.users.len(),
                self@.users[at].id == user_id,
            decreases at - i,
        {
            i += 1;
        }
        assert(self@.users[i as int].id == user_id);
        self.users[i].clone()
    }

    /// Every post beside its author: one row per post, in the order in which
    /// the posts were stored.
    pub fn list_posts_with_authors(&self) -> (rows: Vec<(Post, User)>)
        ensures
            post_author_rows(rows@) == self@.posts_with_authors(),
            rows@.len() == self@.posts.len(),
            forall|i: int|
                0 <= i < rows@.len() ==> {
                    &&& (#[trigger] rows@[i]).0@ == self@.posts[i]
                    &&& rows@[i].1.id == rows@[i].0.author
                    &&& self@.users.contains(rows@[i].1@)
                },
    {
        proof {
            use_type_invariant(self);
        }
        let mut rows: Vec<(Post, User)> = Vec::new();
        let mut i: usize = 0;
        while i < self.posts.len()
            invariant
                i <= self.posts.len(),
                self@.valid(),
                rows@.len() == i,
                forall|k: int|
                    0 <= k < i ==> {
                        &&& (#[trigger] rows@[k]).0@ == self@.posts[k]
                        &&& rows@[k].1@ == self@.author(self@.posts[k].author)
                    },
            decreases self.posts.len() - i,
        {
            let post = self.posts[i].clone();
            assert(self@.has_user(self@.posts[i as int].author));
            let user = self.author(post.author);
            rows.push((post, user));
            i += 1;
        }
        assert(post_author_rows(rows@) =~= self@.posts_with_authors());
        rows
    }

    /// The comments on a post, each beside its author, in the order in which
    /// they were stored. The list is flat; a post without comments, or an id
    /// that names no post, gives the empty list.
    pub fn list_comments_for_post(&self, post_id: i32) -> (rows: Vec<(Comment, User)>)
        ensures
            comment_author_rows(rows@) == self@.comments_for_post(post_id as int),
    {
        proof {
            use_type_invariant(self);
        }
        let ghost picked = Tables::on_post(post_id as int);
        let ghost paired = self@.beside_author();
        let mut rows: Vec<(Comment, User)> = Vec::new();
        let mut i: usize = 0;
        assert(self@.comments.take(0) =~= Seq::empty());
        assert(self@.comments.take(0).filter(picked) =~= Seq::empty()) by {
            reveal(Seq::filter);
        }
        assert(comment_author_rows(rows@) =~= Seq::empty());
        while i < self.comments.len()
            invariant
                i <= self.comments.len(),
                self@.valid(),
                picked == Tables::on_post(post_id as int),
                paired == self@.beside_author(),
                comment_author_rows(rows@) == self@.comments.take(i as int).filter(
                    picked,
                ).map_values(paired),
            decreases self.comments.len() - i,
        {
            let ghost before = self@.comments.take(i as int);
            let ghost row = self@.comments[i as int];
            proof {
                assert(self@.comments.take(i + 1) =~= before.push(row));
                before.lemma_filter_push(row, picked);
            }
            if self.comments[i].post_id == post_id {
                let comment = self.comments[i].clone();
                assert(self@.has_user(row.user_id));
                let user = self.author(comment.user_id);
                proof {
                    before.filter(picked).lemma_push_map_commute(paired, row);
                    assert(comment_author_rows(rows@.push((comment, user)))
                        =~= comment_author_rows(rows@).push((comment@, user@)));
                }
                rows.push((comment, user));
            }
            i += 1;
        }
        assert(self@.comments.take(i as int) =~= self@.comments);
        rows
    }

    /// The posts that a user submitted, in the order in which they were
    /// stored.
    pub fn list_posts_by_user(&self, user_id: i32) -> (posts: Vec<Post>)
        ensures
            post_rows(posts@) == self@.posts_by_user(user_id as int),
    {
        proof {
            use_type_invariant(self);
        }
        let ghost picked = Tables::posted_by(user_id as int);
        let mut posts: Vec<Post> = Vec::new();
        let mut i: usize = 0;
        assert(self@.posts.take(0) =~= Seq::empty());
        assert(self@.posts.take(0).filter(picked) =~= Seq::empty()) by {
            reveal(Seq::filter);
        }
        assert(post_rows(posts@) =~= Seq::empty());
        while i < self.posts.len()
            invariant
                i <= self.posts.len(),
                picked == Tables::posted_by(user_id as int),
                post_rows(posts@) == self@.posts.take(i as int).filter(picked),
            decreases self.posts.len() - i,
        {
            let ghost before = self@.posts.take(i as int);
            let ghost row = self@.posts[i as int];
            proof {
                assert(self@.posts.take(i + 1) =~= before.push(row));
                before.lemma_filter_push(row, picked);
            }
            if self.posts[i].author == user_id {
                let post = self.posts[i].clone();
                assert(post_rows(posts@.push(post)) =~= post_rows(posts@).push(post@));
                posts.push(post);
            }
            i += 1;
        }
        assert(self@.posts.take(i as int) =~= self@.posts);
        posts
    }

    /// The comments that a user wrote, in the order in which they were
    /// stored.
    pub fn list_comments_by_user(&self, user_id: i32) -> (comments: Vec<Comment>)
        ensures
            comment_rows(comments@) == self@.comments_by_user(user_id as int),
    {
        proof {
            use_type_invariant(self);
        }
        let ghost picked = Tables::commented_by(user_id as int);
        let mut comments: Vec<Comment> = Vec::new();
        let mut i: usize = 0;
        assert(self@.comments.take(0) =~= Seq::empty());
        assert(self@.comments.take(0).filter(picked) =~= Seq::empty()) by {
            reveal(Seq::filter);
        }
        assert(comment_rows(comments@) =~= Seq::empty());
        while i < self.comments.len()
            invariant
                i <= self.comments.len(),
                picked == Tables::commented_by(user_id as int),
                comment_rows(comments@) == self@.comments.take(i as int).filter(picked),
            decreases self.comments.len() - i,
        {
            let ghost before = self@.comments.take(i as int);
            let ghost row = self@.comments[i as int];
            proof {
                assert(self@.comments.take(i + 1) =~= before.push(row));
                before.lemma_filter_push(row, picked);
            }
            if self.comments[i].user_id == user_id {
                let comment = self.comments[i].clone();
                assert(comment_rows(comments@.push(comment)) =~= comment_rows(comments@).push(
                    comment@,
                ));
                comments.push(comment);
            }
            i += 1;
        }
        assert(self@.comments.take(i as int) =~= self@.comments);
        comments
    }
}

} // verus!
