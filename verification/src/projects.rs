//! Projects: what is stored for a new one, how a change is applied, the
//! answers to each project request, and the steps that add a member.

use vstd::prelude::*;
use crate::models::{NewProject, Project, UpdateProjectAdmin};
use crate::reply::{Body, Reply, text_reply};
use crate::text::joined;
use crate::clock::{date_time_text, now_rfc3339_text};
use crate::bugs::{or_keep, row_matched};

verus! {

/// The answer to a request for all projects.
pub fn project_list_reply(listed: Result<Vec<Project>, String>) -> (r: Reply)
    ensures
        match listed {
            Ok(ps) => r.status == 200 && r.body == Body::Projects(ps),
            Err(e) => text_reply(r, 500, "DB error: "@ + e@),
        },
{
    match listed {
        Ok(ps) => Reply { status: 200, body: Body::Projects(ps) },
        Err(e) => Reply { status: 500, body: Body::Text(joined("DB error: ", e.as_str())) },
    }
}

/// The values a new project is stored with; its number is given by the
/// store.
#[derive(Debug)]
pub struct NewProjectRow {
    pub name: String,
    pub description: String,
    pub created_by: String,
    pub created_at: String,
}

/// The row stored for a submitted project created at `created_at`.
pub fn project_row(project: &NewProject, created_at: String) -> (r: NewProjectRow)
    ensures
        r.name == project.name,
        r.description == project.description,
        r.created_by == project.created_by,
        r.created_at == created_at,
{
    NewProjectRow {
        name: project.name.clone(),
        description: project.description.clone(),
        created_by: project.created_by.clone(),
        created_at,
    }
}

/// The row stored for a project submitted now; the creation time is written
/// in RFC 3339 form with the offset `+00:00`.
pub fn prepare_project(project: &NewProject) -> (r: NewProjectRow)
    ensures
        date_time_text(r.created_at@, 'T', "+00:00"@),
        r.name == project.name,
        r.description == project.description,
        r.created_by == project.created_by,
{
    let now = now_rfc3339_text();
    project_row(project, now)
}

/// The answer to a project submission once the store has been asked.
pub fn created_project_reply(stored: Result<Project, String>) -> (r: Reply)
    ensures
        match stored {
            Ok(p) => r.status == 200 && r.body == Body::Project(p),
            Err(e) => text_reply(r, 500, "Create failed: "@ + e@),
        },
{
    match stored {
        Ok(p) => Reply { status: 200, body: Body::Project(p) },
        Err(e) => Reply { status: 500, body: Body::Text(joined("Create failed: ", e.as_str())) },
    }
}

/// The project to change, or the answer 404 if it could not be read.
pub fn project_to_update<E>(found: Result<Project, E>) -> (r: Result<Project, Reply>)
    ensures
        match found {
            Ok(p) => r == Ok::<Project, Reply>(p),
            Err(_) => r matches Err(rep) && text_reply(rep, 404, "Project not found"@),
        },
{
    match found {
        Ok(p) => Ok(p),
        Err(_) => Err(Reply { status: 404, body: Body::Text("Project not found".to_owned()) }),
    }
}

/// The project after a change: name and description take the given values,
/// the others stay.
pub open spec fn updated_project(current: Project, update: UpdateProjectAdmin) -> Project {
    Project {
        name: or_keep(update.name, current.name),
        description: or_keep(update.description, current.description),
        ..current
    }
}

/// Applies a change to the stored project, giving the project to store.
pub fn apply_project_update(current: Project, update: &UpdateProjectAdmin) -> (r: Project)
    ensures
        r == updated_project(current, *update),
        update.name matches Some(n) ==> r.name == n,
        update.name is None ==> r.name == current.name,
        update.description matches Some(d) ==> r.description == d,
        update.description is None ==> r.description == current.description,
        r.project_id == current.project_id,
        r.created_at == current.created_at,
        r.created_by == current.created_by,
{
    let Project { project_id, name, description, created_at, created_by } = current;
    let name = match &update.name {
        Some(n) => n.clone(),
        None => name,
    };
    let description = match &update.description {
        Some(d) => d.clone(),
        None => description,
    };
    Project { project_id, name, description, created_at, created_by }
}

/// The answer to a change of a project once the store has been asked.
pub fn updated_project_reply(stored: Result<Project, String>) -> (r: Reply)
    ensures
        match stored {
            Ok(p) => r.status == 200 && r.body == Body::Project(p),
            Err(e) => text_reply(r, 500, "Update failed: "@ + e@),
        },
{
    match stored {
        Ok(p) => Reply { status: 200, body: Body::Project(p) },
        Err(e) => Reply { status: 500, body: Body::Text(joined("Update failed: ", e.as_str())) },
    }
}

/// The answer to a deletion of a project, given how many rows it removed.
pub fn project_deletion_reply(deleted: Result<u64, String>) -> (r: Reply)
    ensures
        match deleted {
            Ok(n) => if n == 0 {
                text_reply(r, 404, "Project not found"@)
            } else {
                text_reply(r, 200, "Project deleted"@)
            },
            Err(e) => text_reply(r, 500, "Delete failed: "@ + e@),
        },
{
    match deleted {
        Ok(n) => {
            if !row_matched(n) {
                Reply { status: 404, body: Body::Text("Project not found".to_owned()) }
            } else {
                Reply { status: 200, body: Body::Text("Project deleted".to_owned()) }
            }
        },
        Err(e) => Reply { status: 500, body: Body::Text(joined("Delete failed: ", e.as_str())) },
    }
}

/// What the store reported at a step of adding a member to a project.
pub enum MemberEvent {
    /// Whether a project with the number exists, or the store's message.
    ProjectChecked(Result<bool, String>),
    /// The account id of the user with the name, if any, or the store's
    /// message.
    UserLookedUp(Result<Option<String>, String>),
    /// Whether recording the membership succeeded, or the store's message.
    MemberSaved(Result<(), String>),
}

/// What to do next when adding a member to a project.
pub enum MemberAction {
    /// Look the user up by name.
    LookUpUser,
    /// Record the account as a member of the project.
    SaveMember(String),
    /// Answer the request.
    Respond(Reply),
}

/// The next action after an event. A project that is known to be missing
/// ends the request; a failed check of the project does not.
pub fn assign_member_step(event: MemberEvent) -> (r: MemberAction)
    ensures
        match event {
            MemberEvent::ProjectChecked(Ok(false)) => r matches MemberAction::Respond(rep)
                && text_reply(rep, 404, "Project not found"@),
            MemberEvent::ProjectChecked(_) => r is LookUpUser,
            MemberEvent::UserLookedUp(Ok(Some(id))) => r == MemberAction::SaveMember(id),
            MemberEvent::UserLookedUp(Ok(None)) => r matches MemberAction::Respond(rep)
                && text_reply(rep, 404, "User not found"@),
            MemberEvent::UserLookedUp(Err(e)) => r matches MemberAction::Respond(rep)
                && text_reply(rep, 500, "DB error: "@ + e@),
            MemberEvent::MemberSaved(Ok(_)) => r matches MemberAction::Respond(rep)
                && text_reply(rep, 200, "Member assigned to project successfully"@),
            MemberEvent::MemberSaved(Err(e)) => r matches MemberAction::Respond(rep)
                && text_reply(rep, 500, "Assignment failed: "@ + e@),
        },
{
    match event {
        MemberEvent::ProjectChecked(Ok(false)) => MemberAction::Respond(
            Reply { status: 404, body: Body::Text("Project not found".to_owned()) },
        ),
        MemberEvent::ProjectChecked(_) => MemberAction::LookUpUser,
        MemberEvent::UserLookedUp(Ok(Some(id))) => MemberAction::SaveMember(id),
        MemberEvent::UserLookedUp(Ok(None)) => MemberAction::Respond(
            Reply { status: 404, body: Body::Text("User not found".to_owned()) },
        ),
        MemberEvent::UserLookedUp(Err(e)) => MemberAction::Respond(
            Reply { status: 500, body: Body::Text(joined("DB error: ", e.as_str())) },
        ),
        MemberEvent::MemberSaved(Ok(_)) => MemberAction::Respond(
            Reply {
                status: 200,
                body: Body::Text("Member assigned to project successfully".to_owned()),
            },
        ),
        MemberEvent::MemberSaved(Err(e)) => MemberAction::Respond(
            Reply { status: 500, body: Body::Text(joined("Assignment failed: ", e.as_str())) },
        ),
    }
}

/// Each field a change gives is the project's afterwards, and each field it
/// does not give keeps its stored value.
pub proof fn lemma_project_change_sets_given_fields(current: Project, update: UpdateProjectAdmin)
    ensures
        update.name matches Some(n) ==> updated_project(current, update).name == n,
        update.name is None ==> updated_project(current, update).name == current.name,
        update.description matches Some(d) ==> updated_project(current, update).description == d,
        update.description is None ==> updated_project(current, update).description
            == current.description,
{
}

/// A change that gives no field leaves the project as it was.
pub proof fn lemma_empty_project_change_keeps_project(current: Project)
    ensures
        updated_project(current, UpdateProjectAdmin { name: None, description: None }) == current,
{
}

/// Applying the same change twice gives what applying it once gives.
pub proof fn lemma_project_change_idempotent(current: Project, update: UpdateProjectAdmin)
    ensures
        updated_project(updated_project(current, update), update) == updated_project(
            current,
            update,
        ),
{
}

/// Two changes in a row act as one change in which the later one's given
/// fields win.
pub proof fn lemma_project_changes_compose(
    current: Project,
    first: UpdateProjectAdmin,
    second: UpdateProjectAdmin,
)
    ensures
        updated_project(updated_project(current, first), second) == updated_project(
            current,
            UpdateProjectAdmin {
                name: if second.name is Some { second.name } else { first.name },
                description: if second.description is Some {
                    second.description
                } else {
                    first.description
                },
            },
        ),
{
}

/// No change touches a project's number, creation time or creator.
pub proof fn lemma_project_change_keeps_identity(current: Project, update: UpdateProjectAdmin)
    ensures
        updated_project(current, update).project_id == current.project_id,
        updated_project(current, update).created_at == current.created_at,
        updated_project(current, update).created_by == current.created_by,
{
}

} // verus!
