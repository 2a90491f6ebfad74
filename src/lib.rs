//! Data-access core of a project-tracking backend: request and record types,
//! parameterized SQL statements, list queries with pagination and substring
//! filters, and the decision logic of the transactional create operations
//! (teams with their members, projects, work items with their references).
//!
//! The database itself is driven by the caller: each creation is a state
//! machine that names the next statement to run inside the transaction and
//! takes back what the database reported.

pub mod error;
pub mod listing;
pub mod model;
pub mod pattern;
pub mod project;
pub mod schema;
pub mod sql;
pub mod team;
pub mod user;
pub mod workitem;

pub use error::{ApiError, DbFailure, ErrorKind};
pub use listing::{list_query, page_window, Listing, PageWindow};
pub use model::{Notification, ProjectModel, Team, TeamResponse, TeamUser, User, WorkItem};
pub use project::{ProjectAction, ProjectCreation, ProjectEvent};
pub use schema::{
    CreateNotificationRequest, CreateProjectRequest, CreateTeamRequest, CreateUserRequest,
    CreateWorkItemRequest, FilterOptions,
};
pub use sql::{SqlValue, Statement};
pub use team::{TeamAction, TeamCreation, TeamEvent};
pub use workitem::{WorkItemAction, WorkItemCreation, WorkItemEvent};
