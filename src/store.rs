//! An in-memory store with the semantics of the three tables: identifiers are
//! handed out in insertion order starting at 1, `sessions.user_id` and
//! `posts.author_id` must name an existing user, and emails may be kept unique.
use vstd::prelude::*;

use crate::model::{Post, PostView, Session, SessionView, User, UserView};

verus! {

/// Why an insert was refused.
#[derive(PartialEq, Eq, Structural, Debug, Clone, Copy)]
pub enum StoreError {
    /// The referenced user does not exist.
    UnknownUser,
    /// The email is registered already and the store keeps emails unique.
    DuplicateEmail,
    /// Every positive `i32` identifier of the table is in use.
    TableFull,
}

/// The contents of the three tables, and whether emails must be unique.
pub struct Tables {
    pub users: Seq<UserView>,
    pub sessions: Seq<SessionView>,
    pub posts: Seq<PostView>,
    pub unique_emails: bool,
}

/// A table of `len` rows can take one more row with a positive `i32` identifier.
pub open spec fn has_room(len: nat) -> bool {
    len < i32::MAX
}

/// User row `i` has exactly this email and exactly this password.
pub open spec fn credentials_match(
    users: Seq<UserView>,
    i: int,
    email: Seq<char>,
    password: Seq<char>,
) -> bool {
    0 <= i < users.len() && users[i].email == email && users[i].password == password
}

/// Row `i` is the first user row whose credentials match.
pub open spec fn first_match(
    users: Seq<UserView>,
    i: int,
    email: Seq<char>,
    password: Seq<char>,
) -> bool {
    &&& credentials_match(users, i, email, password)
    &&& forall|j: int| 0 <= j < i ==> !#[trigger] credentials_match(users, j, email, password)
}

/// The identifier of the first of `users` with these credentials, if any.
pub open spec fn login_in(users: Seq<UserView>, email: Seq<char>, password: Seq<char>) -> Option<
    int,
> {
    if exists|i: int| #[trigger] first_match(users, i, email, password) {
        let i = choose|i: int| #[trigger] first_match(users, i, email, password);
        Some(users[i].id)
    } else {
        None
    }
}

impl Tables {
    /// Row `i` of each table has identifier `i + 1`.
    pub open spec fn wf(self) -> bool {
        &&& self.users.len() <= i32::MAX
        &&& self.sessions.len() <= i32::MAX
        &&& self.posts.len() <= i32::MAX
        &&& forall|i: int| 0 <= i < self.users.len() ==> #[trigger] self.users[i].id == i + 1
        &&& forall|i: int| 0 <= i < self.sessions.len() ==> #[trigger] self.sessions[i].id == i + 1
        &&& forall|i: int| 0 <= i < self.posts.len() ==> #[trigger] self.posts[i].id == i + 1
    }

    pub open spec fn user_exists(self, id: int) -> bool {
        exists|i: int| 0 <= i < self.users.len() && #[trigger] self.users[i].id == id
    }

    pub open spec fn session_exists(self, id: int) -> bool {
        exists|i: int| 0 <= i < self.sessions.len() && #[trigger] self.sessions[i].id == id
    }

    pub open spec fn email_taken(self, email: Seq<char>) -> bool {
        exists|i: int| 0 <= i < self.users.len() && #[trigger] self.users[i].email == email
    }

    /// The identifier of the first user with these credentials, if any.
    pub open spec fn login(self, email: Seq<char>, password: Seq<char>) -> Option<int> {
        login_in(self.users, email, password)
    }

    /// The tables after registering a user, and the outcome.
    pub open spec fn create_user(
        self,
        email: Seq<char>,
        name: Seq<char>,
        password: Seq<char>,
    ) -> (Tables, Result<(), StoreError>) {
        if self.unique_emails && self.email_taken(email) {
            (self, Err(StoreError::DuplicateEmail))
        } else if !has_room(self.users.len()) {
            (self, Err(StoreError::TableFull))
        } else {
            let row = UserView { id: self.users.len() as int + 1, email, name, password };
            (
                Tables {
                    users: self.users.push(row),
                    sessions: self.sessions,
                    posts: self.posts,
                    unique_emails: self.unique_emails,
                },
                Ok(()),
            )
        }
    }

    /// The tables after opening a session for `user_id`, and the outcome.
    pub open spec fn create_session(self, user_id: int) -> (Tables, Result<int, StoreError>) {
        if !self.user_exists(user_id) {
            (self, Err(StoreError::UnknownUser))
        } else if !has_room(self.sessions.len()) {
            (self, Err(StoreError::TableFull))
        } else {
            let id = self.sessions.len() as int + 1;
            (
                Tables {
                    users: self.users,
                    sessions: self.sessions.push(SessionView { id, user_id }),
                    posts: self.posts,
                    unique_emails: self.unique_emails,
                },
                Ok(id),
            )
        }
    }

    /// The tables after adding a post by `author_id`, and the outcome.
    pub open spec fn insert_post(self, body: Seq<char>, author_id: int) -> (
        Tables,
        Result<int, StoreError>,
    ) {
        if !self.user_exists(author_id) {
            (self, Err(StoreError::UnknownUser))
        } else if !has_room(self.posts.len()) {
            (self, Err(StoreError::TableFull))
        } else {
            let id = self.posts.len() as int + 1;
            (
                Tables {
                    users: self.users,
                    sessions: self.sessions,
                    posts: self.posts.push(PostView { id, body, author_id }),
                    unique_emails: self.unique_emails,
                },
                Ok(id),
            )
        }
    }
}

/// In well-formed tables a user, session or post exists exactly when its
/// identifier lies between 1 and the number of rows.
pub proof fn lemma_ids_dense(t: Tables)
    requires
        t.wf(),
    ensures
        forall|id: int| #[trigger] t.user_exists(id) <==> 1 <= id <= t.users.len(),
        forall|id: int| #[trigger] t.session_exists(id) <==> 1 <= id <= t.sessions.len(),
{
    assert forall|id: int| #[trigger] t.user_exists(id) <==> 1 <= id <= t.users.len() by {
        if 1 <= id <= t.users.len() {
            assert(t.users[id - 1].id == id);
        }
    }
    assert forall|id: int| #[trigger] t.session_exists(id) <==> 1 <= id <= t.sessions.len() by {
        if 1 <= id <= t.sessions.len() {
            assert(t.sessions[id - 1].id == id);
        }
    }
}

/// Users, sessions and posts held in memory.
pub struct MemStore {
    users: Vec<User>,
    sessions: Vec<Session>,
    posts: Vec<Post>,
    unique_emails: bool,
}

impl View for MemStore {
    type V = Tables;

    closed spec fn view(&self) -> Tables {
        Tables {
            users: self.users@.map_values(|u: User| u@),
            sessions: self.sessions@.map_values(|s: Session| s@),
            posts: self.posts@.map_values(|p: Post| p@),
            unique_emails: self.unique_emails,
        }
    }
}

impl MemStore {
    pub open spec fn wf(&self) -> bool {
        self@.wf()
    }

    /// An empty store; `unique_emails` says whether a second user with a
    /// registered email is refused.
    pub fn new(unique_emails: bool) -> (r: MemStore)
        ensures
            r.wf(),
            r@.users.len() == 0,
            r@.sessions.len() == 0,
            r@.posts.len() == 0,
            r@.unique_emails == unique_emails,
    {
        MemStore { users: Vec::new(), sessions: Vec::new(), posts: Vec::new(), unique_emails }
    }

    /// Whether a session with this identifier exists; presence alone makes it valid.
    pub fn check_session_id(&self, session_id: i32) -> (r: bool)
        requires
            self.wf(),
        ensures
            r == self@.session_exists(session_id as int),
    {
        if session_id >= 1 && (session_id as usize) <= self.sessions.len() {
            assert(self@.sessions[session_id - 1].id == session_id);
            true
        } else {
            false
        }
    }

    /// Whether some user has exactly this email.
    pub fn check_email_exists(&self, email: &str) -> (r: bool)
        requires
            self.wf(),
        ensures
            r == self@.email_taken(email@),
    {
        let key = email.to_owned();
        let mut i: usize = 0;
        while i < self.users.len()
            invariant
                i <= self.users.len(),
                key@ == email@,
                forall|j: int| 0 <= j < i ==> self@.users[j].email != email@,
            decreases self.users.len() - i,
        {
            if self.users[i].email == key {
                assert(self@.users[i as int].email == email@);
                return true;
            }
            i = i + 1;
        }
        false
    }

    /// The identifier of the first user whose email and password both equal the
    /// given ones exactly, or `None`; an unknown email and a wrong password give
    /// the same `None`.
    pub fn get_user_id_from_login(&self, email: &str, password: &str) -> (r: Option<i32>)
        requires
            self.wf(),
        ensures
            r matches Some(id) ==> self@.login(email@, password@) == Some(id as int),
            r is None ==> self@.login(email@, password@) is None,
    {
        let key = email.to_owned();
        let secret = password.to_owned();
        let mut i: usize = 0;
        while i < self.users.len()
            invariant
                i <= self.users.len(),
                key@ == email@,
                secret@ == password@,
                forall|j: int| 0 <= j < i ==> !#[trigger] credentials_match(self@.users, j, email@, password@),
            decreases self.users.len() - i,
        {
            if self.users[i].email == key && self.users[i].password == secret {
                let ghost u = self@.users;
                assert(first_match(u, i as int, email@, password@));
                proof {
                    let c = choose|c: int| #[trigger] first_match(u, c, email@, password@);
                    if c < i {
                        assert(!credentials_match(u, c, email@, password@));
                    } else if c > i {
                        assert(!credentials_match(u, i as int, email@, password@));
                    }
                }
                return Some(self.users[i].id);
            }
            i = i + 1;
        }
        proof {
            let u = self@.users;
            assert forall|c: int| !#[trigger] first_match(u, c, email@, password@) by {
                if 0 <= c < u.len() {
                    assert(!credentials_match(u, c, email@, password@));
                }
            }
        }
        None
    }

    /// Registers a user with the three given fields and the next identifier.
    /// Where emails are unique, a registered email is refused.
    pub fn create_user(&mut self, email: &str, name: &str, password: &str) -> (r: Result<
        (),
        StoreError,
    >)
        requires
            old(self).wf(),
        ensures
            final(self).wf(),
            (final(self)@, r) == old(self)@.create_user(email@, name@, password@),
    {
        if self.unique_emails && self.check_email_exists(email) {
            return Err(StoreError::DuplicateEmail);
        }
        if self.users.len() >= i32::MAX as usize {
            return Err(StoreError::TableFull);
        }
        let id = (self.users.len() + 1) as i32;
        let user = User {
            id,
            email: email.to_owned(),
            name: name.to_owned(),
            password: password.to_owned(),
        };
        self.users.push(user);
        proof {
            let t = old(self)@.create_user(email@, name@, password@).0;
            assert(self@.users =~= t.users);
        }
        Ok(())
    }

    /// Opens a session for an existing user and returns its identifier.
    pub fn create_session(&mut self, user_id: i32) -> (r: Result<i32, StoreError>)
        requires
            old(self).wf(),
        ensures
            final(self).wf(),
            final(self)@ == old(self)@.create_session(user_id as int).0,
            match (r, old(self)@.create_session(user_id as int).1) {
                (Ok(a), Ok(b)) => a == b,
                (Err(a), Err(b)) => a == b,
                _ => false,
            },
    {
        if !(user_id >= 1 && (user_id as usize) <= self.users.len()) {
            proof {
                let t = self@;
                assert forall|i: int| 0 <= i < t.users.len() implies #[trigger] t.users[i].id
                    != user_id by {}
            }
            return Err(StoreError::UnknownUser);
        }
        assert(self@.users[user_id - 1].id == user_id);
        if self.sessions.len() >= i32::MAX as usize {
            return Err(StoreError::TableFull);
        }
        let id = (self.sessions.len() + 1) as i32;
        self.sessions.push(Session { id, user_id });
        proof {
            let t = old(self)@.create_session(user_id as int).0;
            assert(self@.sessions =~= t.sessions);
        }
        Ok(id)
    }

    /// Adds a post by an existing user and returns its identifier.
    pub fn insert_post(&mut self, body: &str, author_id: i32) -> (r: Result<i32, StoreError>)
        requires
            old(self).wf(),
        ensures
            final(self).wf(),
            final(self)@ == old(self)@.insert_post(body@, author_id as int).0,
            match (r, old(self)@.insert_post(body@, author_id as int).1) {
                (Ok(a), Ok(b)) => a == b,
                (Err(a), Err(b)) => a == b,
                _ => false,
            },
    {
        if !(author_id >= 1 && (author_id as usize) <= self.users.len()) {
            proof {
                let t = self@;
                assert forall|i: int| 0 <= i < t.users.len() implies #[trigger] t.users[i].id
                    != author_id by {}
            }
            return Err(StoreError::UnknownUser);
        }
        assert(self@.users[author_id - 1].id == author_id);
        if self.posts.len() >= i32::MAX as usize {
            return Err(StoreError::TableFull);
        }
        let id = (self.posts.len() + 1) as i32;
        self.posts.push(Post { id, body: body.to_owned(), author_id });
        proof {
            let t = old(self)@.insert_post(body@, author_id as int).0;
            assert(self@.posts =~= t.posts);
        }
        Ok(id)
    }

    /// Every post, in insertion order.
    pub fn get_posts(&self) -> (r: Vec<Post>)
        requires
            self.wf(),
        ensures
            r@.map_values(|p: Post| p@) == self@.posts,
    {
        let mut out: Vec<Post> = Vec::new();
        let mut i: usize = 0;
        while i < self.posts.len()
            invariant
                i <= self.posts.len(),
                out@.len() == i,
                forall|j: int| 0 <= j < i ==> #[trigger] out@[j]@ == self@.posts[j],
            decreases self.posts.len() - i,
        {
            out.push(self.posts[i].duplicate());
            i = i + 1;
        }
        assert(out@.map_values(|p: Post| p@) =~= self@.posts);
        out
    }
}

} // verus!
