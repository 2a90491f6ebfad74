use vstd::prelude::*;

use crate::error::{error_with, ApiError, ErrorKind};
use crate::model::User;
use crate::schema::CreateUserRequest;
use crate::sql::{copy_opt_text, opt_text_view, SqlArg, SqlValue, Statement};

verus! {

pub open spec fn is_insert_user(s: Statement, req: CreateUserRequest) -> bool {
    &&& s.text() == "INSERT INTO users (name, azure_id, email) VALUES ($1, $2, $3) RETURNING *"@
    &&& s.bound() == seq![
        SqlArg::OptText(opt_text_view(req.name)),
        SqlArg::OptText(opt_text_view(req.azure_id)),
        SqlArg::OptText(opt_text_view(req.email)),
    ]
}

/// The insert of a new user; its one row is the user.
pub fn insert_user_statement(req: &CreateUserRequest) -> (s: Statement)
    ensures
        is_insert_user(s, *req),
{
    let mut args: Vec<SqlValue> = Vec::new();
    args.push(SqlValue::OptText(copy_opt_text(&req.name)));
    args.push(SqlValue::OptText(copy_opt_text(&req.azure_id)));
    args.push(SqlValue::OptText(copy_opt_text(&req.email)));
    let s = Statement {
        sql: String::from_str("INSERT INTO users (name, azure_id, email) VALUES ($1, $2, $3) RETURNING *"),
        args,
    };
    assert(s.bound() =~= seq![
        SqlArg::OptText(opt_text_view(req.name)),
        SqlArg::OptText(opt_text_view(req.azure_id)),
        SqlArg::OptText(opt_text_view(req.email)),
    ]);
    s
}

fn by_id_statement(sql: &str, id: u128) -> (s: Statement)
    ensures
        s.text() == sql@,
        s.bound() == seq![SqlArg::Id(id)],
{
    let mut args: Vec<SqlValue> = Vec::new();
    args.push(SqlValue::Id(id));
    let s = Statement { sql: String::from_str(sql), args };
    assert(s.bound() =~= seq![SqlArg::Id(id)]);
    s
}

/// The lookup of one user by id; it yields at most one row.
pub fn get_user_statement(id: u128) -> (s: Statement)
    ensures
        s.text() == "SELECT * FROM users WHERE id = $1"@,
        s.bound() == seq![SqlArg::Id(id)],
{
    by_id_statement("SELECT * FROM users WHERE id = $1", id)
}

/// The deletion of one user by id.
pub fn delete_user_statement(id: u128) -> (s: Statement)
    ensures
        s.text() == "DELETE FROM users WHERE id = $1"@,
        s.bound() == seq![SqlArg::Id(id)],
{
    by_id_statement("DELETE FROM users WHERE id = $1", id)
}

/// The answer to a lookup by id: the user, or a not-found error when no row
/// came back.
pub fn user_or_not_found(found: Option<User>) -> (r: Result<User, ApiError>)
    ensures
        found is Some ==> r == Ok::<User, ApiError>(found->0),
        found is None ==> (r matches Err(e) && e.kind == ErrorKind::NotFound && e.message@
            == "user not found"@),
{
    match found {
        Some(u) => Ok(u),
        None => Err(error_with(ErrorKind::NotFound, "user not found")),
    }
}

/// The answer to a deletion: done when a row was removed, not found when
/// none was.
pub fn deletion_outcome(rows_affected: u64) -> (r: Result<(), ApiError>)
    ensures
        rows_affected > 0 ==> r is Ok,
        rows_affected == 0 ==> (r matches Err(e) && e.kind == ErrorKind::NotFound && e.message@
            == "user not found"@),
{
    if rows_affected > 0 {
        Ok(())
    } else {
        Err(error_with(ErrorKind::NotFound, "user not found"))
    }
}

/// A field of a partial update: the new value where one is given, else the
/// stored one.
pub open spec fn merged(given: Option<String>, stored: Option<String>) -> Option<Seq<char>> {
    if given is Some {
        opt_text_view(given)
    } else {
        opt_text_view(stored)
    }
}

pub open spec fn is_update_user(s: Statement, id: u128, name: Option<Seq<char>>, email: Option<Seq<char>>) -> bool {
    &&& s.text() == "UPDATE users SET name = $1, email = $2 WHERE id = $3 RETURNING *"@
    &&& s.bound() == seq![SqlArg::OptText(name), SqlArg::OptText(email), SqlArg::Id(id)]
}

fn pick(given: &Option<String>, stored: &Option<String>) -> (r: Option<String>)
    ensures
        opt_text_view(r) == merged(*given, *stored),
{
    if given.is_some() {
        copy_opt_text(given)
    } else {
        copy_opt_text(stored)
    }
}

/// The update of user `id`, given the stored row: name and email take the
/// values of `body` where it gives them and keep the stored ones elsewhere.
/// A user that does not exist is not found.
pub fn update_user_statement(id: u128, stored: Option<User>, body: &CreateUserRequest) -> (r: Result<
    Statement,
    ApiError,
>)
    ensures
        stored is Some ==> (r matches Ok(s) && is_update_user(
            s,
            id,
            merged(body.name, stored->0.name),
            merged(body.email, stored->0.email),
        )),
        stored is None ==> (r matches Err(e) && e.kind == ErrorKind::NotFound && e.message@
            == "user not found"@),
{
    match stored {
        Some(u) => {
            let mut args: Vec<SqlValue> = Vec::new();
            args.push(SqlValue::OptText(pick(&body.name, &u.name)));
            args.push(SqlValue::OptText(pick(&body.email, &u.email)));
            args.push(SqlValue::Id(id));
            let s = Statement {
                sql: String::from_str("UPDATE users SET name = $1, email = $2 WHERE id = $3 RETURNING *"),
                args,
            };
            assert(s.bound() =~= seq![
                SqlArg::OptText(merged(body.name, u.name)),
                SqlArg::OptText(merged(body.email, u.email)),
                SqlArg::Id(id),
            ]);
            Ok(s)
        },
        None => Err(error_with(ErrorKind::NotFound, "user not found")),
    }
}

} // verus!
