use userdb::statement::{
    email_lookup, login_lookup, login_outcome, posts_select, session_insert, session_lookup,
    user_insert,
};
use userdb::{Param, UserId};

fn texts(params: &[Param]) -> Vec<String> {
    params
        .iter()
        .map(|p| match p {
            Param::Int(v) => format!("int:{}", v),
            Param::Text(s) => format!("text:{}", s),
        })
        .collect()
}

#[test]
fn session_lookup_binds_identifier() {
    let st = session_lookup(7);
    assert_eq!(st.sql, "SELECT id, user_id FROM sessions WHERE id=$1");
    assert_eq!(texts(&st.params), vec!["int:7"]);
}

#[test]
fn login_lookup_binds_email_then_password() {
    let st = login_lookup("a@x.com", "p1");
    assert_eq!(st.sql, "SELECT id FROM users WHERE email=$1 AND password=$2");
    assert_eq!(texts(&st.params), vec!["text:a@x.com", "text:p1"]);
}

#[test]
fn email_lookup_binds_email() {
    let st = email_lookup("a@x.com");
    assert_eq!(st.sql, "SELECT id FROM users WHERE email=$1");
    assert_eq!(texts(&st.params), vec!["text:a@x.com"]);
}

#[test]
fn user_insert_binds_three_fields() {
    let st = user_insert("a@x.com", "A", "p1");
    assert_eq!(st.sql, "INSERT INTO users (email, name, password) VALUES ($1, $2, $3)");
    assert_eq!(texts(&st.params), vec!["text:a@x.com", "text:A", "text:p1"]);
}

#[test]
fn session_insert_returns_identifier() {
    let st = session_insert(3);
    assert_eq!(st.sql, "INSERT INTO sessions (user_id) VALUES ($1) RETURNING id");
    assert_eq!(texts(&st.params), vec!["int:3"]);
}

#[test]
fn posts_select_binds_nothing() {
    let st = posts_select();
    assert_eq!(st.sql, "SELECT id, body, author_id FROM posts");
    assert!(st.params.is_empty());
}

#[test]
fn login_outcome_reads_identifier() {
    assert_eq!(login_outcome(Some(UserId { id: 42 })), Some(42));
    assert_eq!(login_outcome(None), None);
}
