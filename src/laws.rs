//! Properties that hold across the store's operations.
use vstd::prelude::*;

use crate::model::PostView;
use crate::store::{credentials_match, first_match, has_room, StoreError, Tables};

verus! {

/// Once a user is registered, the email check finds the email; where the users
/// table still has room, registering always leaves the email registered.
pub proof fn lemma_registered_email_exists(
    t: Tables,
    email: Seq<char>,
    name: Seq<char>,
    password: Seq<char>,
)
    requires
        t.wf(),
        has_room(t.users.len()),
    ensures
        t.create_user(email, name, password).0.email_taken(email),
{
    let n = t.create_user(email, name, password).0;
    if !(t.unique_emails && t.email_taken(email)) {
        assert(n.users[t.users.len() as int].email == email);
    }
}

/// Credentials that match no user give "not found", the same outcome for an
/// unknown email as for a known email with a wrong password.
pub proof fn lemma_unmatched_login_not_found(
    t: Tables,
    email: Seq<char>,
    password: Seq<char>,
    other_email: Seq<char>,
    other_password: Seq<char>,
)
    requires
        forall|i: int| !#[trigger] credentials_match(t.users, i, email, password),
        forall|i: int| !#[trigger] credentials_match(t.users, i, other_email, other_password),
    ensures
        t.login(email, password) is None,
        t.login(email, password) == t.login(other_email, other_password),
{
    assert(forall|i: int| !#[trigger] first_match(t.users, i, email, password));
    assert(forall|i: int| !#[trigger] first_match(t.users, i, other_email, other_password));
}

/// A user registered with credentials that no earlier user has is found by
/// them, under the identifier it was given, and not with another password.
pub proof fn lemma_registered_user_logs_in(
    t: Tables,
    email: Seq<char>,
    name: Seq<char>,
    password: Seq<char>,
    other_password: Seq<char>,
)
    requires
        t.wf(),
        forall|i: int| !#[trigger] credentials_match(t.users, i, email, password),
        forall|i: int| !#[trigger] credentials_match(t.users, i, email, other_password),
        other_password != password,
    ensures
        t.create_user(email, name, password).1 is Ok ==> t.create_user(email, name, password).0.login(
            email,
            password,
        ) == Some(t.users.len() as int + 1),
        t.create_user(email, name, password).0.login(email, other_password) is None,
{
    let n = t.create_user(email, name, password).0;
    let k = t.users.len() as int;
    if t.create_user(email, name, password).1 is Ok {
        assert forall|j: int| 0 <= j < k implies !#[trigger] credentials_match(n.users, j, email, password) by {
            assert(!credentials_match(t.users, j, email, password));
        }
        assert(first_match(n.users, k, email, password));
        let c = choose|c: int| #[trigger] first_match(n.users, c, email, password);
        if c < k {
            assert(!credentials_match(n.users, c, email, password));
        } else if c > k {
            assert(!credentials_match(n.users, k, email, password));
        }
    }
    assert forall|c: int| !#[trigger] first_match(n.users, c, email, other_password) by {
        if 0 <= c < k {
            assert(!credentials_match(t.users, c, email, other_password));
        }
    }
}

/// A session opened for an existing user is found by its identifier, and no
/// identifier above the number of sessions is.
pub proof fn lemma_created_session_exists(t: Tables, user_id: int)
    requires
        t.wf(),
        t.user_exists(user_id),
        has_room(t.sessions.len()),
    ensures
        t.create_session(user_id).1 is Ok,
        t.create_session(user_id).0.session_exists(t.create_session(user_id).1->Ok_0),
        t.create_session(user_id).0.wf(),
        forall|x: int|
            x > t.create_session(user_id).0.sessions.len() ==> !#[trigger] t.create_session(
                user_id,
            ).0.session_exists(x),
{
    let (n, r) = t.create_session(user_id);
    let k = t.sessions.len() as int;
    assert(n.sessions[k].id == k + 1);
    assert(n.wf()) by {
        assert forall|i: int| 0 <= i < n.sessions.len() implies #[trigger] n.sessions[i].id == i
            + 1 by {
            if i < k {
                assert(n.sessions[i] == t.sessions[i]);
            }
        }
    }
    assert forall|x: int| x > n.sessions.len() implies !#[trigger] n.session_exists(x) by {
        assert forall|i: int| 0 <= i < n.sessions.len() implies #[trigger] n.sessions[i].id
            != x by {}
    }
}

/// Opening a session for a user that does not exist fails and changes nothing.
pub proof fn lemma_session_for_unknown_user_fails(t: Tables, user_id: int)
    requires
        !t.user_exists(user_id),
    ensures
        t.create_session(user_id) == (t, Err::<int, StoreError>(StoreError::UnknownUser)),
{
}

/// A post added by an existing user is listed after the posts that were there,
/// with its body and author.
pub proof fn lemma_inserted_post_listed(t: Tables, body: Seq<char>, author_id: int)
    requires
        t.wf(),
        t.user_exists(author_id),
        has_room(t.posts.len()),
    ensures
        t.insert_post(body, author_id).1 is Ok,
        t.insert_post(body, author_id).0.posts == t.posts.push(
            PostView { id: t.posts.len() as int + 1, body, author_id },
        ),
{
}

/// Where emails are unique, two registrations with one new email end in one
/// success and one `DuplicateEmail`, the second leaving the tables as the first
/// left them.
pub proof fn lemma_duplicate_registration_refused(
    t: Tables,
    email: Seq<char>,
    name: Seq<char>,
    password: Seq<char>,
    other_name: Seq<char>,
    other_password: Seq<char>,
)
    requires
        t.wf(),
        t.unique_emails,
        !t.email_taken(email),
        has_room(t.users.len()),
    ensures
        t.create_user(email, name, password).1 is Ok,
        t.create_user(email, name, password).0.create_user(email, other_name, other_password) == (
        t.create_user(email, name, password).0,
        Err::<(), StoreError>(StoreError::DuplicateEmail),
        ),
{
    let n = t.create_user(email, name, password).0;
    assert(n.users[t.users.len() as int].email == email);
}

} // verus!
