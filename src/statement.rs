//! The statements that the database layer runs against `users(id, email, name,
//! password)`, `sessions(id, user_id)` and `posts(id, body, author_id)`, with
//! the values bound to their placeholders, and how a fetched row is read.
use vstd::prelude::*;

use crate::model::UserId;

verus! {

pub const SESSION_BY_ID: &'static str = "SELECT id, user_id FROM sessions WHERE id=$1";

pub const USER_BY_LOGIN: &'static str = "SELECT id FROM users WHERE email=$1 AND password=$2";

pub const USER_BY_EMAIL: &'static str = "SELECT id FROM users WHERE email=$1";

pub const INSERT_USER: &'static str = "INSERT INTO users (email, name, password) VALUES ($1, $2, $3)";

pub const INSERT_SESSION: &'static str = "INSERT INTO sessions (user_id) VALUES ($1) RETURNING id";

pub const ALL_POSTS: &'static str = "SELECT id, body, author_id FROM posts";

/// A value bound to a placeholder.
pub enum Param {
    Int(i32),
    Text(String),
}

pub enum ParamView {
    Int(int),
    Text(Seq<char>),
}

impl View for Param {
    type V = ParamView;

    open spec fn view(&self) -> ParamView {
        match self {
            Param::Int(v) => ParamView::Int(*v as int),
            Param::Text(s) => ParamView::Text(s@),
        }
    }
}

/// SQL text and the values for `$1`, `$2`, ... in order.
pub struct Statement {
    pub sql: &'static str,
    pub params: Vec<Param>,
}

impl Statement {
    pub open spec fn bound(&self) -> Seq<ParamView> {
        self.params@.map_values(|p: Param| p@)
    }
}

/// Looks a session up by its identifier.
pub fn session_lookup(session_id: i32) -> (r: Statement)
    ensures
        r.sql@ == SESSION_BY_ID@,
        r.bound() == seq![ParamView::Int(session_id as int)],
{
    let params = vec![Param::Int(session_id)];
    let r = Statement { sql: SESSION_BY_ID, params };
    assert(r.bound() =~= seq![ParamView::Int(session_id as int)]);
    r
}

/// Looks up the user whose email and password both equal the given ones.
pub fn login_lookup(email: &str, password: &str) -> (r: Statement)
    ensures
        r.sql@ == USER_BY_LOGIN@,
        r.bound() == seq![ParamView::Text(email@), ParamView::Text(password@)],
{
    let params = vec![Param::Text(email.to_owned()), Param::Text(password.to_owned())];
    let r = Statement { sql: USER_BY_LOGIN, params };
    assert(r.bound() =~= seq![ParamView::Text(email@), ParamView::Text(password@)]);
    r
}

/// Looks up a user by email.
pub fn email_lookup(email: &str) -> (r: Statement)
    ensures
        r.sql@ == USER_BY_EMAIL@,
        r.bound() == seq![ParamView::Text(email@)],
{
    let params = vec![Param::Text(email.to_owned())];
    let r = Statement { sql: USER_BY_EMAIL, params };
    assert(r.bound() =~= seq![ParamView::Text(email@)]);
    r
}

/// Inserts a user with the three given fields.
pub fn user_insert(email: &str, name: &str, password: &str) -> (r: Statement)
    ensures
        r.sql@ == INSERT_USER@,
        r.bound() == seq![
            ParamView::Text(email@),
            ParamView::Text(name@),
            ParamView::Text(password@),
        ],
{
    let params = vec![
        Param::Text(email.to_owned()),
        Param::Text(name.to_owned()),
        Param::Text(password.to_owned()),
    ];
    let r = Statement { sql: INSERT_USER, params };
    assert(r.bound() =~= seq![
        ParamView::Text(email@),
        ParamView::Text(name@),
        ParamView::Text(password@),
    ]);
    r
}

/// Inserts a session for `user_id` and returns the new identifier.
pub fn session_insert(user_id: i32) -> (r: Statement)
    ensures
        r.sql@ == INSERT_SESSION@,
        r.bound() == seq![ParamView::Int(user_id as int)],
{
    let params = vec![Param::Int(user_id)];
    let r = Statement { sql: INSERT_SESSION, params };
    assert(r.bound() =~= seq![ParamView::Int(user_id as int)]);
    r
}

/// Selects every post.
pub fn posts_select() -> (r: Statement)
    ensures
        r.sql@ == ALL_POSTS@,
        r.bound().len() == 0,
{
    Statement { sql: ALL_POSTS, params: Vec::new() }
}

/// The outcome of a login lookup: the identifier of the row found, or `None`.
pub fn login_outcome(row: Option<UserId>) -> (r: Option<i32>)
    ensures
        r == (match row {
            Some(u) => Some(u.id),
            None => None::<i32>,
        }),
{
    match row {
        Some(user) => Some(user.id),
        None => None,
    }
}

} // verus!
