use project_factory::team::{members_found, TeamStage};
use project_factory::{
    CreateTeamRequest, DbFailure, ErrorKind, SqlValue, Team, TeamAction, TeamCreation, TeamEvent, User,
};

fn user(id: u128, azure: &str) -> User {
    User {
        id,
        azure_id: Some(azure.to_string()),
        name: Some(format!("user {}", id)),
        email: None,
        team_id: None,
    }
}

fn request(name: &str, ids: &[&str]) -> CreateTeamRequest {
    CreateTeamRequest {
        azure_id: None,
        name: name.to_string(),
        description: Some("the team".to_string()),
        user_ids: ids.iter().map(|s| s.to_string()).collect(),
    }
}

fn team_row(id: u128, name: &str) -> Team {
    Team { id, azure_id: None, name: name.to_string(), description: Some("the team".to_string()) }
}

/// Runs a creation up to the member lookup.
fn until_lookup(req: CreateTeamRequest) -> TeamCreation {
    let (flow, act) = TeamCreation::start(req);
    assert_eq!(act, TeamAction::Begin);
    let (flow, act) = flow.step(TeamEvent::Begun);
    match act {
        TeamAction::FindMembers(s) => {
            assert_eq!(s.sql, "SELECT * FROM users WHERE azure_id = ANY($1::varchar[])");
            assert_eq!(s.args.len(), 1);
        },
        other => panic!("unexpected action {:?}", other),
    }
    flow
}

#[test]
fn team_with_existing_members_links_each_and_replies_with_them() {
    let flow = until_lookup(request("Core", &["ext-1", "ext-2"]));
    let found = vec![user(11, "ext-1"), user(12, "ext-2")];
    let (flow, act) = flow.step(TeamEvent::MembersFound(found.clone()));
    match act {
        TeamAction::InsertTeam(s) => {
            assert_eq!(
                s.sql,
                "INSERT INTO teams (name, description, azure_id) VALUES ($1, $2, $3) RETURNING *"
            );
            assert_eq!(
                s.args,
                vec![
                    SqlValue::Text("Core".to_string()),
                    SqlValue::OptText(Some("the team".to_string())),
                    SqlValue::OptText(None),
                ]
            );
        },
        other => panic!("unexpected action {:?}", other),
    }
    let (flow, act) = flow.step(TeamEvent::TeamInserted(team_row(7, "Core")));
    match act {
        TeamAction::LinkMembers(v) => {
            assert_eq!(v.len(), 2);
            for (s, uid) in v.iter().zip([11u128, 12u128]) {
                assert_eq!(s.sql, "INSERT INTO team_users (team_id, user_id) VALUES ($1, $2)");
                assert_eq!(s.args, vec![SqlValue::Id(7), SqlValue::Id(uid)]);
            }
        },
        other => panic!("unexpected action {:?}", other),
    }
    let (flow, act) = flow.step(TeamEvent::MembersLinked);
    assert_eq!(act, TeamAction::Commit);
    let (flow, act) = flow.step(TeamEvent::Committed);
    match act {
        TeamAction::Reply(r) => {
            assert_eq!(r.name, "Core");
            assert_eq!(r.id, 7);
            assert_eq!(r.users, Some(found));
        },
        other => panic!("unexpected action {:?}", other),
    }
    assert_eq!(flow.stage, TeamStage::Finished);
}

#[test]
fn team_with_missing_member_aborts_before_any_write() {
    let flow = until_lookup(request("Ghost", &["ext-missing"]));
    let (flow, act) = flow.step(TeamEvent::MembersFound(vec![]));
    match act {
        TeamAction::Abort(e) => {
            assert_eq!(e.kind, ErrorKind::MembersNotFound);
            assert_eq!(e.status(), 400);
            assert_eq!(e.message, "One or more users not found");
        },
        other => panic!("unexpected action {:?}", other),
    }
    assert_eq!(flow.stage, TeamStage::Finished);
    let (_, act) = flow.step(TeamEvent::TeamInserted(team_row(1, "Ghost")));
    assert!(matches!(act, TeamAction::Abort(e) if e.kind == ErrorKind::Internal));
}

#[test]
fn team_with_one_of_two_members_missing_aborts() {
    let flow = until_lookup(request("Half", &["ext-1", "ext-9"]));
    let (_, act) = flow.step(TeamEvent::MembersFound(vec![user(11, "ext-1")]));
    assert!(matches!(act, TeamAction::Abort(e) if e.kind == ErrorKind::MembersNotFound));
}

#[test]
fn team_without_members_links_none() {
    let flow = until_lookup(request("Solo", &[]));
    let (flow, act) = flow.step(TeamEvent::MembersFound(vec![]));
    assert!(matches!(act, TeamAction::InsertTeam(_)));
    let (flow, act) = flow.step(TeamEvent::TeamInserted(team_row(3, "Solo")));
    assert_eq!(act, TeamAction::LinkMembers(vec![]));
    let (flow, _) = flow.step(TeamEvent::MembersLinked);
    let (_, act) = flow.step(TeamEvent::Committed);
    assert!(matches!(act, TeamAction::Reply(r) if r.users == Some(vec![])));
}

#[test]
fn failed_membership_insert_rolls_back() {
    let flow = until_lookup(request("Core", &["ext-1"]));
    let (flow, _) = flow.step(TeamEvent::MembersFound(vec![user(11, "ext-1")]));
    let (flow, _) = flow.step(TeamEvent::TeamInserted(team_row(7, "Core")));
    let failure = DbFailure { pool_exhausted: false, message: "duplicate key".to_string() };
    let (_, act) = flow.step(TeamEvent::Failed(failure));
    match act {
        TeamAction::Abort(e) => {
            assert_eq!(e.kind, ErrorKind::Database);
            assert_eq!(e.status(), 500);
            assert_eq!(e.message, "duplicate key");
        },
        other => panic!("unexpected action {:?}", other),
    }
}

#[test]
fn failed_commit_is_a_transaction_error() {
    let flow = until_lookup(request("Core", &[]));
    let (flow, _) = flow.step(TeamEvent::MembersFound(vec![]));
    let (flow, _) = flow.step(TeamEvent::TeamInserted(team_row(7, "Core")));
    let (flow, _) = flow.step(TeamEvent::MembersLinked);
    let failure = DbFailure { pool_exhausted: false, message: "connection reset".to_string() };
    let (_, act) = flow.step(TeamEvent::Failed(failure));
    assert!(matches!(act, TeamAction::Abort(e) if e.kind == ErrorKind::Transaction && e.status() == 500));
}

#[test]
fn exhausted_pool_is_unavailable() {
    let (flow, _) = TeamCreation::start(request("Core", &[]));
    let failure = DbFailure { pool_exhausted: true, message: "pool timed out".to_string() };
    let (_, act) = flow.step(TeamEvent::Failed(failure));
    assert!(matches!(act, TeamAction::Abort(e) if e.kind == ErrorKind::Unavailable && e.status() == 503));
}

#[test]
fn result_out_of_order_aborts() {
    let (flow, _) = TeamCreation::start(request("Core", &[]));
    let (_, act) = flow.step(TeamEvent::Committed);
    assert!(matches!(act, TeamAction::Abort(e) if e.kind == ErrorKind::Internal));
}

#[test]
fn member_match_needs_every_id_and_equal_count() {
    let ids = vec!["a".to_string(), "b".to_string()];
    assert!(members_found(&ids, &vec![user(1, "b"), user(2, "a")]));
    assert!(!members_found(&ids, &vec![user(1, "a")]));
    assert!(!members_found(&ids, &vec![user(1, "a"), user(2, "c")]));
    let dup = vec!["a".to_string(), "a".to_string()];
    assert!(!members_found(&dup, &vec![user(1, "a")]));
    assert!(!members_found(&dup, &vec![user(1, "a"), user(2, "z")]));
}
