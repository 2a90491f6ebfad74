use vstd::prelude::*;

use crate::error::{error_with, failure_error, failure_kind, ApiError, DbFailure, ErrorKind};
use crate::model::ProjectModel;
use crate::schema::CreateProjectRequest;
use crate::sql::{copy_opt_text, opt_text_view, SqlArg, SqlValue, Statement};

verus! {

pub open spec fn is_find_team(s: Statement, team_id: u128) -> bool {
    &&& s.text() == "SELECT id FROM teams WHERE id = $1"@
    &&& s.bound() == seq![SqlArg::Id(team_id)]
}

pub open spec fn is_insert_project(s: Statement, req: CreateProjectRequest, team_id: u128) -> bool {
    &&& s.text()
        == "INSERT INTO projects (azure_id, name, description, url, template, team_id) VALUES ($1, $2, $3, $4, $5, $6) RETURNING *"@
    &&& s.bound() == seq![
        SqlArg::OptText(opt_text_view(req.azure_id)),
        SqlArg::Text(req.name@),
        SqlArg::OptText(opt_text_view(req.description)),
        SqlArg::OptText(opt_text_view(req.url)),
        SqlArg::OptText(opt_text_view(req.template)),
        SqlArg::Id(team_id),
    ]
}

/// The lookup of the team that a new project belongs to, by id.
pub fn find_team_statement(team_id: u128) -> (s: Statement)
    ensures
        is_find_team(s, team_id),
{
    let mut args: Vec<SqlValue> = Vec::new();
    args.push(SqlValue::Id(team_id));
    let s = Statement { sql: String::from_str("SELECT id FROM teams WHERE id = $1"), args };
    assert(s.bound() =~= seq![SqlArg::Id(team_id)]);
    s
}

/// The insert of a project row under the team `team_id`.
pub fn insert_project_statement(req: &CreateProjectRequest, team_id: u128) -> (s: Statement)
    ensures
        is_insert_project(s, *req, team_id),
{
    let mut args: Vec<SqlValue> = Vec::new();
    args.push(SqlValue::OptText(copy_opt_text(&req.azure_id)));
    args.push(SqlValue::Text(req.name.clone()));
    args.push(SqlValue::OptText(copy_opt_text(&req.description)));
    args.push(SqlValue::OptText(copy_opt_text(&req.url)));
    args.push(SqlValue::OptText(copy_opt_text(&req.template)));
    args.push(SqlValue::Id(team_id));
    let s = Statement {
        sql: String::from_str(
            "INSERT INTO projects (azure_id, name, description, url, template, team_id) VALUES ($1, $2, $3, $4, $5, $6) RETURNING *",
        ),
        args,
    };
    assert(s.bound() =~= seq![
        SqlArg::OptText(opt_text_view(req.azure_id)),
        SqlArg::Text(req.name@),
        SqlArg::OptText(opt_text_view(req.description)),
        SqlArg::OptText(opt_text_view(req.url)),
        SqlArg::OptText(opt_text_view(req.template)),
        SqlArg::Id(team_id),
    ]);
    s
}

/// Where a project creation stands.
#[derive(Debug, Clone, Copy, PartialEq, Eq, Structural)]
pub enum ProjectStage {
    Begin,
    FindTeam,
    Insert,
    Commit,
    Finished,
}

/// A project creation in progress: the team is looked up and the project
/// row inserted in one transaction.
#[derive(Debug)]
pub struct ProjectCreation {
    pub request: CreateProjectRequest,
    pub stage: ProjectStage,
    /// The team, once found.
    pub team: Option<u128>,
    /// The project row, once inserted.
    pub inserted: Option<ProjectModel>,
}

/// The result of the last action, as the database layer reports it.
#[derive(Debug, Clone, PartialEq)]
pub enum ProjectEvent {
    Begun,
    /// The id of the team found, if any.
    TeamFound(Option<u128>),
    Inserted(ProjectModel),
    Committed,
    Failed(DbFailure),
}

/// What the database layer does next.
#[derive(Debug, Clone, PartialEq)]
pub enum ProjectAction {
    Begin,
    /// Run the team lookup; it yields at most one id.
    FindTeam(Statement),
    /// Run the project insert; its one row is the project.
    Insert(Statement),
    Commit,
    /// Roll the transaction back, if one is open, and answer with the error.
    Abort(ApiError),
    /// The transaction is committed: answer with the created project.
    Reply(ProjectModel),
}

pub open spec fn answers(stage: ProjectStage, ev: ProjectEvent) -> bool {
    match stage {
        ProjectStage::Begin => ev is Begun,
        ProjectStage::FindTeam => ev is TeamFound,
        ProjectStage::Insert => ev is Inserted,
        ProjectStage::Commit => ev is Committed,
        ProjectStage::Finished => false,
    }
}

pub open spec fn aborts(act: ProjectAction, kind: ErrorKind, message: Seq<char>) -> bool {
    match act {
        ProjectAction::Abort(e) => e.kind == kind && e.message@ == message,
        _ => false,
    }
}

/// The reply: the inserted row, tied to the team found.
pub open spec fn replies_with(r: ProjectModel, row: ProjectModel, team: u128) -> bool {
    &&& r.id == row.id
    &&& r.azure_id == row.azure_id
    &&& r.name == row.name
    &&& r.description == row.description
    &&& r.url == row.url
    &&& r.template == row.template
    &&& r.team_id == Some(team)
}

/// One step of a project creation: a missing team fails the creation before
/// the insert.
pub open spec fn project_step(
    pre: ProjectCreation,
    ev: ProjectEvent,
    post: ProjectCreation,
    act: ProjectAction,
) -> bool {
    &&& post.request == pre.request
    &&& if pre.stage == ProjectStage::Finished {
        &&& post.stage == ProjectStage::Finished
        &&& aborts(act, ErrorKind::Internal, "project creation already finished"@)
    } else if ev is Failed {
        &&& post.stage == ProjectStage::Finished
        &&& match ev {
            ProjectEvent::Failed(f) => aborts(
                act,
                failure_kind(pre.stage == ProjectStage::Begin || pre.stage == ProjectStage::Commit, f),
                f.message@,
            ),
            _ => false,
        }
    } else if !answers(pre.stage, ev) {
        &&& post.stage == ProjectStage::Finished
        &&& aborts(act, ErrorKind::Internal, "unexpected result for the project creation step"@)
    } else {
        match ev {
            ProjectEvent::Begun => if pre.request.team_id is Some {
                &&& post.stage == ProjectStage::FindTeam
                &&& post.team == pre.team
                &&& act matches ProjectAction::FindTeam(s) && is_find_team(
                    s,
                    pre.request.team_id->0,
                )
            } else {
                &&& post.stage == ProjectStage::Finished
                &&& aborts(act, ErrorKind::DependencyNotFound, "team not found"@)
            },
            ProjectEvent::TeamFound(found) => match found {
                Some(t) => {
                    &&& post.stage == ProjectStage::Insert
                    &&& post.team == Some(t)
                    &&& act matches ProjectAction::Insert(s) && is_insert_project(s, pre.request, t)
                },
                None => {
                    &&& post.stage == ProjectStage::Finished
                    &&& aborts(act, ErrorKind::DependencyNotFound, "team not found"@)
                },
            },
            ProjectEvent::Inserted(row) => {
                &&& post.stage == ProjectStage::Commit
                &&& post.team == pre.team
                &&& post.inserted == Some(row)
                &&& act is Commit
            },
            _ => {
                &&& post.stage == ProjectStage::Finished
                &&& if pre.team is Some && pre.inserted is Some {
                    act matches ProjectAction::Reply(r) && replies_with(
                        r,
                        pre.inserted->0,
                        pre.team->0,
                    )
                } else {
                    aborts(act, ErrorKind::Internal, "no project row to reply with"@)
                }
            },
        }
    }
}

impl ProjectCreation {
    /// Starts a project creation. A request that names no team fails at
    /// once, as a team that is not found, before any transaction is opened.
    pub fn start(request: CreateProjectRequest) -> (r: (ProjectCreation, ProjectAction))
        ensures
            r.0.request == request,
            r.0.team is None,
            r.0.inserted is None,
            request.team_id is Some ==> r.0.stage == ProjectStage::Begin && r.1 is Begin,
            request.team_id is None ==> r.0.stage == ProjectStage::Finished && aborts(
                r.1,
                ErrorKind::DependencyNotFound,
                "team not found"@,
            ),
    {
        if request.team_id.is_some() {
            (ProjectCreation { request, stage: ProjectStage::Begin, team: None, inserted: None }, ProjectAction::Begin)
        } else {
            let e = error_with(ErrorKind::DependencyNotFound, "team not found");
            (
                ProjectCreation { request, stage: ProjectStage::Finished, team: None, inserted: None },
                ProjectAction::Abort(e),
            )
        }
    }

    /// Takes the result of the last action and gives the next one.
    pub fn step(self, ev: ProjectEvent) -> (r: (ProjectCreation, ProjectAction))
        ensures
            project_step(self, ev, r.0, r.1),
    {
        let mut s = self;
        if s.stage == ProjectStage::Finished {
            let e = error_with(ErrorKind::Internal, "project creation already finished");
            return (s, ProjectAction::Abort(e));
        }
        match ev {
            ProjectEvent::Failed(f) => {
                let control = s.stage == ProjectStage::Begin || s.stage == ProjectStage::Commit;
                s.stage = ProjectStage::Finished;
                (s, ProjectAction::Abort(failure_error(control, f)))
            },
            ProjectEvent::Begun if s.stage == ProjectStage::Begin => {
                match s.request.team_id {
                    Some(t) => {
                        s.stage = ProjectStage::FindTeam;
                        (s, ProjectAction::FindTeam(find_team_statement(t)))
                    },
                    None => {
                        s.stage = ProjectStage::Finished;
                        (s, ProjectAction::Abort(error_with(ErrorKind::DependencyNotFound, "team not found")))
                    },
                }
            },
            ProjectEvent::TeamFound(found) if s.stage == ProjectStage::FindTeam => {
                match found {
                    Some(t) => {
                        let ins = insert_project_statement(&s.request, t);
                        s.stage = ProjectStage::Insert;
                        s.team = Some(t);
                        (s, ProjectAction::Insert(ins))
                    },
                    None => {
                        s.stage = ProjectStage::Finished;
                        (s, ProjectAction::Abort(error_with(ErrorKind::DependencyNotFound, "team not found")))
                    },
                }
            },
            ProjectEvent::Inserted(row) if s.stage == ProjectStage::Insert => {
                s.stage = ProjectStage::Commit;
                s.inserted = Some(row);
                (s, ProjectAction::Commit)
            },
            ProjectEvent::Committed if s.stage == ProjectStage::Commit => {
                s.stage = ProjectStage::Finished;
                match (s.team, s.inserted.take()) {
                    (Some(t), Some(row)) => {
                        let reply = ProjectModel {
                            id: row.id,
                            azure_id: row.azure_id,
                            name: row.name,
                            description: row.description,
                            url: row.url,
                            template: row.template,
                            team_id: Some(t),
                        };
                        (s, ProjectAction::Reply(reply))
                    },
                    _ => (s, ProjectAction::Abort(error_with(ErrorKind::Internal, "no project row to reply with"))),
                }
            },
            _ => {
                s.stage = ProjectStage::Finished;
                let e = error_with(ErrorKind::Internal, "unexpected result for the project creation step");
                (s, ProjectAction::Abort(e))
            },
        }
    }
}

} // verus!
