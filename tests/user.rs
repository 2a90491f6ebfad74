use project_factory::user::{
    delete_user_statement, deletion_outcome, get_user_statement, insert_user_statement, update_user_statement,
    user_or_not_found,
};
use project_factory::{CreateUserRequest, ErrorKind, SqlValue, User};

fn stored() -> User {
    User {
        id: 5,
        azure_id: Some("ext-5".to_string()),
        name: Some("Alice".to_string()),
        email: Some("alice@example.org".to_string()),
        team_id: None,
    }
}

#[test]
fn user_insert_binds_every_field() {
    let req = CreateUserRequest {
        azure_id: Some("ext-5".to_string()),
        name: Some("Alice".to_string()),
        email: None,
    };
    let s = insert_user_statement(&req);
    assert_eq!(s.sql, "INSERT INTO users (name, azure_id, email) VALUES ($1, $2, $3) RETURNING *");
    assert_eq!(
        s.args,
        vec![
            SqlValue::OptText(Some("Alice".to_string())),
            SqlValue::OptText(Some("ext-5".to_string())),
            SqlValue::OptText(None),
        ]
    );
}

#[test]
fn partial_update_keeps_stored_fields() {
    let body = CreateUserRequest { azure_id: None, name: Some("Alicia".to_string()), email: None };
    let s = update_user_statement(5, Some(stored()), &body).unwrap();
    assert_eq!(s.sql, "UPDATE users SET name = $1, email = $2 WHERE id = $3 RETURNING *");
    assert_eq!(
        s.args,
        vec![
            SqlValue::OptText(Some("Alicia".to_string())),
            SqlValue::OptText(Some("alice@example.org".to_string())),
            SqlValue::Id(5),
        ]
    );
}

#[test]
fn update_of_missing_user_is_not_found() {
    let body = CreateUserRequest { azure_id: None, name: None, email: None };
    let e = update_user_statement(5, None, &body).unwrap_err();
    assert_eq!(e.kind, ErrorKind::NotFound);
    assert_eq!(e.status(), 404);
}

#[test]
fn lookup_by_id_distinguishes_not_found() {
    assert_eq!(user_or_not_found(Some(stored())), Ok(stored()));
    let e = user_or_not_found(None).unwrap_err();
    assert_eq!(e.kind, ErrorKind::NotFound);
    assert_eq!(e.message, "user not found");
    let s = get_user_statement(5);
    assert_eq!(s.sql, "SELECT * FROM users WHERE id = $1");
    assert_eq!(s.args, vec![SqlValue::Id(5)]);
}

#[test]
fn deletion_of_missing_user_is_not_found() {
    assert_eq!(deletion_outcome(1), Ok(()));
    assert_eq!(deletion_outcome(0).unwrap_err().status(), 404);
    let s = delete_user_statement(5);
    assert_eq!(s.sql, "DELETE FROM users WHERE id = $1");
}
