//! The records the tracker stores and the request bodies it accepts.

use vstd::prelude::*;

verus! {

/// A stored bug report.
#[derive(Debug)]
pub struct Bug {
    pub bug_id: i64,
    pub title: String,
    pub description: String,
    pub reported_by: String,
    pub reported_at: String,
    pub bug_type: String,
    pub severity: String,
    pub progress_status: String,
    pub project_id: String,
    pub developer_id: Option<String>,
}

/// A bug report as submitted.
#[derive(Debug)]
pub struct NewBug {
    pub title: String,
    pub description: String,
    pub reported_by: String,
    pub bug_type: String,
    pub severity: String,
    pub project_id: String,
}

/// A change to a bug: each field that is given replaces the stored one.
#[derive(Debug)]
pub struct UpdateBugAdmin {
    pub description: Option<String>,
    pub severity: Option<String>,
    pub bug_type: Option<String>,
    pub progress_status: Option<String>,
    pub developer_id: Option<String>,
}

/// The part of a bug that a developer may change.
#[derive(Debug)]
pub struct UpdateBugDeveloper {
    pub severity: Option<String>,
    pub progress_status: Option<String>,
}

/// A sign-in attempt.
#[derive(Debug)]
pub struct LoginRequest {
    pub username: String,
    pub password: String,
}

/// A stored project.
#[derive(Debug, Clone)]
pub struct Project {
    pub project_id: i64,
    pub name: String,
    pub description: String,
    pub created_at: String,
    pub created_by: String,
}

/// A project as submitted.
#[derive(Debug)]
pub struct NewProject {
    pub name: String,
    pub description: String,
    pub created_by: String,
}

/// A change to a project: each field that is given replaces the stored one.
#[derive(Debug)]
pub struct UpdateProjectAdmin {
    pub name: Option<String>,
    pub description: Option<String>,
}

/// A stored account.
#[derive(Debug, Clone)]
pub struct User {
    pub user_id: String,
    pub name: String,
    pub role: String,
    pub username: String,
    pub hashed_password: String,
}

/// An account as submitted for registration.
#[derive(Debug)]
pub struct NewUser {
    pub name: String,
    pub role: String,
    pub username: String,
    pub password: String,
}

/// A change to an account.
#[derive(Debug)]
pub struct UpdateUser {
    pub name: Option<String>,
    pub username: Option<String>,
    pub hashed_password: Option<String>,
}

/// The form that hands a bug to a developer.
pub struct AssignBugForm {
    pub bug_id: i64,
    pub developer_id: String,
}

/// The request that adds an account to a project's members.
pub struct AssignMemberToProjectRequest {
    pub username: String,
}

} // verus!
