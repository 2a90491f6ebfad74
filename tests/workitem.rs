use project_factory::workitem::{references_of, Policy, RefTarget, WorkItemStage};
use project_factory::{
    CreateWorkItemRequest, DbFailure, ErrorKind, SqlValue, WorkItem, WorkItemAction, WorkItemCreation,
    WorkItemEvent,
};

fn request(assignee: Option<&str>, parent: Option<&str>) -> CreateWorkItemRequest {
    CreateWorkItemRequest {
        azure_id: Some("wi-1".to_string()),
        title: "Fix login".to_string(),
        w_type: "Bug".to_string(),
        state: "New".to_string(),
        project: "Apollo".to_string(),
        assigned_to_id: assignee.map(|s| s.to_string()),
        created_by_id: "ext-creator".to_string(),
        priority: Some(2),
        severity: None,
        description: None,
        area_path: None,
        iteration_path: None,
        parent_id: parent.map(|s| s.to_string()),
        tags: Some(vec!["auth".to_string()]),
        url: "https://example.org/wi/1".to_string(),
    }
}

fn row(id: u128, parent: Option<u128>) -> WorkItem {
    WorkItem {
        id,
        azure_id: Some("wi-1".to_string()),
        title: "Fix login".to_string(),
        type_: "Bug".to_string(),
        state: "New".to_string(),
        project: 100,
        assigned_to_id: Some(200),
        created_by_id: 300,
        created_date: 0,
        changed_date: None,
        priority: Some(2),
        severity: None,
        description: None,
        area_path: None,
        iteration_path: None,
        parent_id: parent,
        tags: Some(vec!["auth".to_string()]),
        url: "https://example.org/wi/1".to_string(),
        assigned_to: None,
        created_by: None,
    }
}

fn lookup_of(act: &WorkItemAction) -> (String, Vec<SqlValue>) {
    match act {
        WorkItemAction::Lookup(s) => (s.sql.clone(), s.args.clone()),
        other => panic!("unexpected action {:?}", other),
    }
}

#[test]
fn references_are_resolved_in_order_with_their_policies() {
    let refs = references_of(&request(Some("ext-a"), Some("ext-p")));
    let shape: Vec<(RefTarget, &str, Policy)> =
        refs.iter().map(|r| (r.target, r.key.as_str(), r.policy)).collect();
    assert_eq!(
        shape,
        vec![
            (RefTarget::Project, "Apollo", Policy::Required),
            (RefTarget::Assignee, "ext-a", Policy::Required),
            (RefTarget::Creator, "ext-creator", Policy::Required),
            (RefTarget::Parent, "ext-p", Policy::Soft),
        ]
    );
    assert_eq!(references_of(&request(None, None)).len(), 2);
}

#[test]
fn unresolved_parent_still_creates_the_work_item_without_parent() {
    let (flow, _) = WorkItemCreation::start(request(Some("ext-a"), Some("ext-nowhere")));
    let (flow, act) = flow.step(WorkItemEvent::Begun);
    assert_eq!(
        lookup_of(&act),
        (
            "SELECT id FROM projects WHERE name = $1 LIMIT 1".to_string(),
            vec![SqlValue::Text("Apollo".to_string())]
        )
    );
    let (flow, act) = flow.step(WorkItemEvent::Resolved(Some(100)));
    assert_eq!(
        lookup_of(&act),
        (
            "SELECT id FROM users WHERE azure_id = $1 LIMIT 1".to_string(),
            vec![SqlValue::Text("ext-a".to_string())]
        )
    );
    let (flow, _) = flow.step(WorkItemEvent::Resolved(Some(200)));
    let (flow, act) = flow.step(WorkItemEvent::Resolved(Some(300)));
    assert_eq!(
        lookup_of(&act),
        (
            "SELECT id FROM work_items WHERE azure_id = $1 LIMIT 1".to_string(),
            vec![SqlValue::Text("ext-nowhere".to_string())]
        )
    );
    let (flow, act) = flow.step(WorkItemEvent::Resolved(None));
    match act {
        WorkItemAction::Insert(s) => {
            assert!(s.sql.starts_with("INSERT INTO work_items (azure_id, title, w_type, state, project"));
            assert!(s.sql.ends_with("$13, $14, $15) RETURNING *"));
            assert_eq!(
                s.args,
                vec![
                    SqlValue::OptText(Some("wi-1".to_string())),
                    SqlValue::Text("Fix login".to_string()),
                    SqlValue::Text("Bug".to_string()),
                    SqlValue::Text("New".to_string()),
                    SqlValue::Id(100),
                    SqlValue::OptId(Some(200)),
                    SqlValue::Id(300),
                    SqlValue::OptInt(Some(2)),
                    SqlValue::OptText(None),
                    SqlValue::OptText(None),
                    SqlValue::OptText(None),
                    SqlValue::OptText(None),
                    SqlValue::OptId(None),
                    SqlValue::OptTextList(Some(vec!["auth".to_string()])),
                    SqlValue::Text("https://example.org/wi/1".to_string()),
                ]
            );
        },
        other => panic!("unexpected action {:?}", other),
    }
    let (flow, act) = flow.step(WorkItemEvent::Inserted(row(1, None)));
    assert_eq!(act, WorkItemAction::Commit);
    let (flow, act) = flow.step(WorkItemEvent::Committed);
    match act {
        WorkItemAction::Reply(w) => assert_eq!(w.parent_id, None),
        other => panic!("unexpected action {:?}", other),
    }
    assert_eq!(flow.stage, WorkItemStage::Finished);
}

#[test]
fn failed_parent_lookup_is_a_database_error() {
    let (flow, _) = WorkItemCreation::start(request(None, Some("ext-p")));
    let (flow, _) = flow.step(WorkItemEvent::Begun);
    let (flow, _) = flow.step(WorkItemEvent::Resolved(Some(100)));
    let (flow, _) = flow.step(WorkItemEvent::Resolved(Some(300)));
    let failure = DbFailure { pool_exhausted: false, message: "timeout".to_string() };
    let (flow, act) = flow.step(WorkItemEvent::Failed(failure));
    match act {
        WorkItemAction::Abort(e) => {
            assert_eq!(e.kind, ErrorKind::Database);
            assert_eq!(e.status(), 500);
            assert_eq!(e.message, "timeout");
        },
        other => panic!("unexpected action {:?}", other),
    }
    assert_eq!(flow.stage, WorkItemStage::Finished);
}

#[test]
fn resolved_parent_is_linked() {
    let (flow, _) = WorkItemCreation::start(request(None, Some("ext-p")));
    let (flow, _) = flow.step(WorkItemEvent::Begun);
    let (flow, _) = flow.step(WorkItemEvent::Resolved(Some(100)));
    let (flow, _) = flow.step(WorkItemEvent::Resolved(Some(300)));
    let (_, act) = flow.step(WorkItemEvent::Resolved(Some(55)));
    assert!(matches!(act, WorkItemAction::Insert(s) if s.args[12] == SqlValue::OptId(Some(55))));
}

#[test]
fn unresolved_assignee_fails_the_creation() {
    let (flow, _) = WorkItemCreation::start(request(Some("ext-ghost"), None));
    let (flow, _) = flow.step(WorkItemEvent::Begun);
    let (flow, _) = flow.step(WorkItemEvent::Resolved(Some(100)));
    let (flow, act) = flow.step(WorkItemEvent::Resolved(None));
    match act {
        WorkItemAction::Abort(e) => {
            assert_eq!(e.kind, ErrorKind::DependencyNotFound);
            assert_eq!(e.message, "assignee not found");
            assert_eq!(e.status(), 500);
        },
        other => panic!("unexpected action {:?}", other),
    }
    assert_eq!(flow.stage, WorkItemStage::Finished);
}

#[test]
fn unresolved_creator_fails_the_creation() {
    let (flow, _) = WorkItemCreation::start(request(None, None));
    let (flow, _) = flow.step(WorkItemEvent::Begun);
    let (flow, _) = flow.step(WorkItemEvent::Resolved(Some(100)));
    let (_, act) = flow.step(WorkItemEvent::Resolved(None));
    assert!(matches!(act, WorkItemAction::Abort(e) if e.kind == ErrorKind::DependencyNotFound && e.message == "creator not found"));
}

#[test]
fn unresolved_project_fails_the_creation() {
    let (flow, _) = WorkItemCreation::start(request(None, None));
    let (flow, _) = flow.step(WorkItemEvent::Begun);
    let (_, act) = flow.step(WorkItemEvent::Resolved(None));
    assert!(matches!(act, WorkItemAction::Abort(e) if e.message == "project not found"));
}

#[test]
fn failed_required_lookup_is_a_database_error() {
    let (flow, _) = WorkItemCreation::start(request(None, None));
    let (flow, _) = flow.step(WorkItemEvent::Begun);
    let failure = DbFailure { pool_exhausted: false, message: "syntax".to_string() };
    let (_, act) = flow.step(WorkItemEvent::Failed(failure));
    assert!(matches!(act, WorkItemAction::Abort(e) if e.kind == ErrorKind::Database && e.message == "syntax"));
}

#[test]
fn work_item_without_assignee_or_parent_is_inserted() {
    let (flow, _) = WorkItemCreation::start(request(None, None));
    let (flow, _) = flow.step(WorkItemEvent::Begun);
    let (flow, _) = flow.step(WorkItemEvent::Resolved(Some(100)));
    let (_, act) = flow.step(WorkItemEvent::Resolved(Some(300)));
    match act {
        WorkItemAction::Insert(s) => {
            assert_eq!(s.args[4], SqlValue::Id(100));
            assert_eq!(s.args[5], SqlValue::OptId(None));
            assert_eq!(s.args[6], SqlValue::Id(300));
        },
        other => panic!("unexpected action {:?}", other),
    }
}
