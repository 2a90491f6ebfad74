use project_factory::project::ProjectStage;
use project_factory::{
    CreateProjectRequest, ErrorKind, ProjectAction, ProjectCreation, ProjectEvent, ProjectModel, SqlValue,
};

fn request(team: Option<u128>) -> CreateProjectRequest {
    CreateProjectRequest {
        azure_id: None,
        name: "Apollo".to_string(),
        description: Some("moon".to_string()),
        url: None,
        template: Some("Agile".to_string()),
        begin_date: None,
        end_date: None,
        team_id: team,
    }
}

#[test]
fn project_without_team_fails_as_team_not_found() {
    let (flow, act) = ProjectCreation::start(request(None));
    assert!(matches!(act, ProjectAction::Abort(e)
        if e.kind == ErrorKind::DependencyNotFound && e.status() == 500 && e.message == "team not found"));
    assert_eq!(flow.stage, ProjectStage::Finished);
}

#[test]
fn project_with_unknown_team_fails() {
    let (flow, _) = ProjectCreation::start(request(Some(9)));
    let (flow, act) = flow.step(ProjectEvent::Begun);
    match act {
        ProjectAction::FindTeam(s) => {
            assert_eq!(s.sql, "SELECT id FROM teams WHERE id = $1");
            assert_eq!(s.args, vec![SqlValue::Id(9)]);
        },
        other => panic!("unexpected action {:?}", other),
    }
    let (_, act) = flow.step(ProjectEvent::TeamFound(None));
    assert!(matches!(act, ProjectAction::Abort(e)
        if e.kind == ErrorKind::DependencyNotFound && e.status() == 500 && e.message == "team not found"));
}

#[test]
fn project_is_created_under_its_team() {
    let (flow, _) = ProjectCreation::start(request(Some(9)));
    let (flow, _) = flow.step(ProjectEvent::Begun);
    let (flow, act) = flow.step(ProjectEvent::TeamFound(Some(9)));
    match act {
        ProjectAction::Insert(s) => assert_eq!(
            s.args,
            vec![
                SqlValue::OptText(None),
                SqlValue::Text("Apollo".to_string()),
                SqlValue::OptText(Some("moon".to_string())),
                SqlValue::OptText(None),
                SqlValue::OptText(Some("Agile".to_string())),
                SqlValue::Id(9),
            ]
        ),
        other => panic!("unexpected action {:?}", other),
    }
    let inserted = ProjectModel {
        id: 42,
        azure_id: None,
        name: Some("Apollo".to_string()),
        description: Some("moon".to_string()),
        url: None,
        template: Some("Agile".to_string()),
        team_id: None,
    };
    let (flow, act) = flow.step(ProjectEvent::Inserted(inserted));
    assert_eq!(act, ProjectAction::Commit);
    let (_, act) = flow.step(ProjectEvent::Committed);
    match act {
        ProjectAction::Reply(p) => {
            assert_eq!(p.id, 42);
            assert_eq!(p.team_id, Some(9));
        },
        other => panic!("unexpected action {:?}", other),
    }
}
