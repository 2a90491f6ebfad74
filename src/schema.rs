use vstd::prelude::*;

verus! {

/// Body of a team creation: the team's fields and the external ids of the
/// users that become its members.
#[derive(Debug, Clone, PartialEq)]
pub struct CreateTeamRequest {
    pub azure_id: Option<String>,
    pub name: String,
    pub description: Option<String>,
    pub user_ids: Vec<String>,
}

/// Body of a user creation, and of a partial user update.
#[derive(Debug, Clone, PartialEq)]
pub struct CreateUserRequest {
    pub azure_id: Option<String>,
    pub name: Option<String>,
    pub email: Option<String>,
}

/// Body of a project creation. Dates are microseconds since the Unix epoch.
#[derive(Debug, Clone, PartialEq)]
pub struct CreateProjectRequest {
    pub azure_id: Option<String>,
    pub name: String,
    pub description: Option<String>,
    pub url: Option<String>,
    pub template: Option<String>,
    pub begin_date: Option<i64>,
    pub end_date: Option<i64>,
    pub team_id: Option<u128>,
}

/// Body of a work item creation. `project` is a project name; the user
/// references and `parent_id` are external ids.
#[derive(Debug, Clone, PartialEq)]
pub struct CreateWorkItemRequest {
    pub azure_id: Option<String>,
    pub title: String,
    pub w_type: String,
    pub state: String,
    pub project: String,
    pub assigned_to_id: Option<String>,
    pub created_by_id: String,
    pub priority: Option<i32>,
    pub severity: Option<String>,
    pub description: Option<String>,
    pub area_path: Option<String>,
    pub iteration_path: Option<String>,
    pub parent_id: Option<String>,
    pub tags: Option<Vec<String>>,
    pub url: String,
}

/// Body of a notification creation.
#[derive(Debug, Clone, PartialEq)]
pub struct CreateNotificationRequest {
    pub subject: Option<String>,
    pub sender_id: u128,
    pub receiver_id: u128,
    pub message: Option<String>,
}

/// Query parameters of the list endpoints.
#[derive(Debug, Clone, PartialEq)]
pub struct FilterOptions {
    pub page: Option<i32>,
    pub limit: Option<i32>,
    pub name: Option<String>,
    pub email: Option<String>,
}

} // verus!
