use vstd::prelude::*;

verus! {

/// A team. Ids are UUIDs held as 128-bit integers.
#[derive(Debug, Clone, PartialEq)]
pub struct Team {
    pub id: u128,
    pub azure_id: Option<String>,
    pub name: String,
    pub description: Option<String>,
}

/// A created team together with the users that became its members.
#[derive(Debug, Clone, PartialEq)]
pub struct TeamResponse {
    pub id: u128,
    pub azure_id: Option<String>,
    pub name: String,
    pub description: Option<String>,
    pub users: Option<Vec<User>>,
}

/// A membership row: one user in one team.
#[derive(Debug, Clone, Copy, PartialEq, Eq, Structural)]
pub struct TeamUser {
    pub team_id: u128,
    pub user_id: u128,
}

#[derive(Debug, Clone, PartialEq)]
pub struct User {
    pub id: u128,
    pub azure_id: Option<String>,
    pub name: Option<String>,
    pub email: Option<String>,
    pub team_id: Option<u128>,
}

#[derive(Debug, Clone, PartialEq)]
pub struct ProjectModel {
    pub id: u128,
    pub azure_id: Option<String>,
    pub name: Option<String>,
    pub description: Option<String>,
    pub url: Option<String>,
    pub template: Option<String>,
    pub team_id: Option<u128>,
}

/// A work item. Dates are microseconds since the Unix epoch.
#[derive(Debug, Clone, PartialEq)]
pub struct WorkItem {
    pub id: u128,
    pub azure_id: Option<String>,
    pub title: String,
    pub type_: String,
    pub state: String,
    pub project: u128,
    pub assigned_to_id: Option<u128>,
    pub created_by_id: u128,
    pub created_date: i64,
    pub changed_date: Option<i64>,
    pub priority: Option<i32>,
    pub severity: Option<String>,
    pub description: Option<String>,
    pub area_path: Option<String>,
    pub iteration_path: Option<String>,
    pub parent_id: Option<u128>,
    pub tags: Option<Vec<String>>,
    pub url: String,
    pub assigned_to: Option<User>,
    pub created_by: Option<User>,
}

/// A notification. `creation_time` is in microseconds since the Unix epoch.
#[derive(Debug, Clone, PartialEq)]
pub struct Notification {
    pub id: i32,
    pub subject: Option<String>,
    pub sender_id: u128,
    pub receiver_id: u128,
    pub message: Option<String>,
    pub creation_time: i64,
    pub closed: bool,
    pub receiver: Option<User>,
    pub sender: Option<User>,
}

} // verus!
