//! The records that the three tables hold, and their mathematical views.
use vstd::prelude::*;

verus! {

/// A registered account: a row of `users(id, email, name, password)`.
pub struct User {
    pub id: i32,
    pub email: String,
    pub name: String,
    pub password: String,
}

/// A login session: a row of `sessions(id, user_id)`.
pub struct Session {
    pub id: i32,
    pub user_id: i32,
}

/// A post: a row of `posts(id, body, author_id)`.
pub struct Post {
    pub id: i32,
    pub body: String,
    pub author_id: i32,
}

/// The identifier column alone, as a login lookup selects it.
pub struct UserId {
    pub id: i32,
}

/// What a `User` row holds, with its text as character sequences.
pub struct UserView {
    pub id: int,
    pub email: Seq<char>,
    pub name: Seq<char>,
    pub password: Seq<char>,
}

/// What a `Session` row holds.
pub struct SessionView {
    pub id: int,
    pub user_id: int,
}

/// What a `Post` row holds.
pub struct PostView {
    pub id: int,
    pub body: Seq<char>,
    pub author_id: int,
}

impl View for User {
    type V = UserView;

    open spec fn view(&self) -> UserView {
        UserView {
            id: self.id as int,
            email: self.email@,
            name: self.name@,
            password: self.password@,
        }
    }
}

impl View for Session {
    type V = SessionView;

    open spec fn view(&self) -> SessionView {
        SessionView { id: self.id as int, user_id: self.user_id as int }
    }
}

impl View for Post {
    type V = PostView;

    open spec fn view(&self) -> PostView {
        PostView { id: self.id as int, body: self.body@, author_id: self.author_id as int }
    }
}

impl Post {
    /// A copy of the post, field for field.
    pub fn duplicate(&self) -> (r: Post)
        ensures
            r@ == self@,
    {
        Post { id: self.id, body: self.body.clone(), author_id: self.author_id }
    }
}

} // verus!
