//! Bug reports: checking a submission, what is stored for it, how a change
//! is applied, and the answers to each bug request.

use vstd::prelude::*;
use crate::models::{AssignBugForm, Bug, NewBug, UpdateBugAdmin};
use crate::reply::{Body, Reply, text_reply};
use crate::text::{blank, is_blank, joined, lemma_blank_is_trim_empty, trimmed};
use crate::clock::{date_time_text, now_naive_utc_text};

verus! {

/// The message a submission is refused with, if one of its required fields
/// is blank (empty once trimmed); the fields are checked in this order.
pub open spec fn new_bug_problem(bug: NewBug) -> Option<Seq<char>> {
    if blank(bug.title@) {
        Some("Title is required."@)
    } else if blank(bug.description@) {
        Some("Description is required."@)
    } else if blank(bug.reported_by@) {
        Some("Reporter email is required."@)
    } else if blank(bug.severity@) {
        Some("Severity is required."@)
    } else {
        None
    }
}

/// Checks a submitted bug; a refusal is answered with 400 and the message.
pub fn check_new_bug(bug: &NewBug) -> (r: Result<(), Reply>)
    ensures
        match new_bug_problem(*bug) {
            None => r is Ok,
            Some(m) => r matches Err(rep) && text_reply(rep, 400, m),
        },
        r is Ok <==> (!blank(bug.title@) && !blank(bug.description@) && !blank(
            bug.reported_by@,
        ) && !blank(bug.severity@)),
        blank(bug.title@) ==> (r matches Err(rep) && text_reply(rep, 400, "Title is required."@)),
        r matches Err(rep) ==> rep.status == 400,
        r is Ok <==> (trimmed(bug.title@).len() > 0 && trimmed(bug.description@).len() > 0
            && trimmed(bug.reported_by@).len() > 0 && trimmed(bug.severity@).len() > 0),
{
    proof {
        lemma_blank_is_trim_empty(bug.title@);
        lemma_blank_is_trim_empty(bug.description@);
        lemma_blank_is_trim_empty(bug.reported_by@);
        lemma_blank_is_trim_empty(bug.severity@);
    }
    if is_blank(bug.title.as_str()) {
        return Err(Reply { status: 400, body: Body::Text("Title is required.".to_owned()) });
    }
    if is_blank(bug.description.as_str()) {
        return Err(Reply { status: 400, body: Body::Text("Description is required.".to_owned()) });
    }
    if is_blank(bug.reported_by.as_str()) {
        return Err(
            Reply { status: 400, body: Body::Text("Reporter email is required.".to_owned()) },
        );
    }
    if is_blank(bug.severity.as_str()) {
        return Err(Reply { status: 400, body: Body::Text("Severity is required.".to_owned()) });
    }
    Ok(())
}

/// The values a new bug is stored with; its number is given by the store.
#[derive(Debug)]
pub struct NewBugRow {
    pub title: String,
    pub description: String,
    pub reported_by: String,
    pub reported_at: String,
    pub bug_type: String,
    pub severity: String,
    pub progress_status: String,
    pub project_id: String,
    pub developer_id: Option<String>,
}

/// The row stored for a submitted bug reported at `reported_at`: the bug's
/// own fields, the status `new`, and no developer.
pub fn bug_row(bug: NewBug, reported_at: String) -> (r: NewBugRow)
    ensures
        r.title == bug.title,
        r.description == bug.description,
        r.reported_by == bug.reported_by,
        r.reported_at == reported_at,
        r.bug_type == bug.bug_type,
        r.severity == bug.severity,
        r.progress_status@ == "new"@,
        r.project_id == bug.project_id,
        r.developer_id is None,
{
    NewBugRow {
        title: bug.title,
        description: bug.description,
        reported_by: bug.reported_by,
        reported_at,
        bug_type: bug.bug_type,
        severity: bug.severity,
        progress_status: "new".to_owned(),
        project_id: bug.project_id,
        developer_id: None,
    }
}

/// The row stored for a bug submitted now; the report time is written as
/// `YYYY-MM-DD HH:MM:SS` with any fraction of a second.
pub fn prepare_bug(bug: NewBug) -> (r: NewBugRow)
    ensures
        date_time_text(r.reported_at@, ' ', Seq::empty()),
        r.title == bug.title,
        r.description == bug.description,
        r.reported_by == bug.reported_by,
        r.bug_type == bug.bug_type,
        r.severity == bug.severity,
        r.progress_status@ == "new"@,
        r.project_id == bug.project_id,
        r.developer_id is None,
{
    let reported_at = now_naive_utc_text();
    bug_row(bug, reported_at)
}

/// The given value, or else the current one.
pub open spec fn or_keep<T>(given: Option<T>, current: T) -> T {
    match given {
        Some(v) => v,
        None => current,
    }
}

/// The bug after a change: description, severity, type, status and developer
/// take the given values, the others stay. A developer, once assigned, is
/// only ever replaced, never removed.
pub open spec fn updated_bug(current: Bug, update: UpdateBugAdmin) -> Bug {
    Bug {
        description: or_keep(update.description, current.description),
        severity: or_keep(update.severity, current.severity),
        bug_type: or_keep(update.bug_type, current.bug_type),
        progress_status: or_keep(update.progress_status, current.progress_status),
        developer_id: match update.developer_id {
            Some(d) => Some(d),
            None => current.developer_id,
        },
        ..current
    }
}

/// Applies a change to the stored bug, giving the bug to store.
pub fn apply_bug_update(current: Bug, update: UpdateBugAdmin) -> (r: Bug)
    ensures
        r == updated_bug(current, update),
        update.description matches Some(d) ==> r.description == d,
        update.description is None ==> r.description == current.description,
        update.severity matches Some(s) ==> r.severity == s,
        update.severity is None ==> r.severity == current.severity,
        update.bug_type matches Some(t) ==> r.bug_type == t,
        update.bug_type is None ==> r.bug_type == current.bug_type,
        update.progress_status matches Some(p) ==> r.progress_status == p,
        update.progress_status is None ==> r.progress_status == current.progress_status,
        update.developer_id is Some ==> r.developer_id == update.developer_id,
        update.developer_id is None ==> r.developer_id == current.developer_id,
        r.bug_id == current.bug_id,
        r.title == current.title,
        r.reported_by == current.reported_by,
        r.reported_at == current.reported_at,
        r.project_id == current.project_id,
{
    let Bug {
        bug_id,
        title,
        description,
        reported_by,
        reported_at,
        bug_type,
        severity,
        progress_status,
        project_id,
        developer_id,
    } = current;
    let UpdateBugAdmin {
        description: new_description,
        severity: new_severity,
        bug_type: new_bug_type,
        progress_status: new_progress_status,
        developer_id: new_developer_id,
    } = update;
    Bug {
        bug_id,
        title,
        description: new_description.unwrap_or(description),
        reported_by,
        reported_at,
        bug_type: new_bug_type.unwrap_or(bug_type),
        severity: new_severity.unwrap_or(severity),
        progress_status: new_progress_status.unwrap_or(progress_status),
        project_id,
        developer_id: match new_developer_id {
            Some(d) => Some(d),
            None => developer_id,
        },
    }
}

/// Whether a write touched a row; one that touched none found no record.
pub fn row_matched(rows_affected: u64) -> (r: bool)
    ensures
        r == (rows_affected != 0),
{
    rows_affected != 0
}

/// The answer to a bug submission once the store has been asked: the stored
/// bug, or 500 with the store's message.
pub fn created_bug_reply(stored: Result<Bug, String>) -> (r: Reply)
    ensures
        match stored {
            Ok(b) => r.status == 200 && r.body == Body::Bug(b),
            Err(e) => text_reply(r, 500, "Failed: "@ + e@),
        },
{
    match stored {
        Ok(b) => Reply { status: 200, body: Body::Bug(b) },
        Err(e) => Reply { status: 500, body: Body::Text(joined("Failed: ", e.as_str())) },
    }
}

/// The answer to a request for all bugs.
pub fn bug_list_reply(listed: Result<Vec<Bug>, String>) -> (r: Reply)
    ensures
        match listed {
            Ok(bs) => r.status == 200 && r.body == Body::Bugs(bs),
            Err(e) => text_reply(r, 500, "Error: "@ + e@),
        },
{
    match listed {
        Ok(bs) => Reply { status: 200, body: Body::Bugs(bs) },
        Err(e) => Reply { status: 500, body: Body::Text(joined("Error: ", e.as_str())) },
    }
}

/// The answer to a request for one bug: the bug, or 404 whatever went wrong.
pub fn bug_lookup_reply<E>(found: Result<Bug, E>) -> (r: Reply)
    ensures
        match found {
            Ok(b) => r.status == 200 && r.body == Body::Bug(b),
            Err(_) => text_reply(r, 404, "Bug not found"@),
        },
{
    match found {
        Ok(b) => Reply { status: 200, body: Body::Bug(b) },
        Err(_) => Reply { status: 404, body: Body::Text("Bug not found".to_owned()) },
    }
}

/// The answer to a change of a bug: the changed bug, or 500 whatever went
/// wrong.
pub fn updated_bug_reply<E>(updated: Result<Bug, E>) -> (r: Reply)
    ensures
        match updated {
            Ok(b) => r.status == 200 && r.body == Body::Bug(b),
            Err(_) => text_reply(r, 500, "Update failed"@),
        },
{
    match updated {
        Ok(b) => Reply { status: 200, body: Body::Bug(b) },
        Err(_) => Reply { status: 500, body: Body::Text("Update failed".to_owned()) },
    }
}

/// The answer to a deletion of a bug, given how many rows it removed.
pub fn bug_deletion_reply(deleted: Result<u64, String>) -> (r: Reply)
    ensures
        match deleted {
            Ok(n) => if n == 0 {
                text_reply(r, 404, "Bug not found"@)
            } else {
                text_reply(r, 200, "Bug deleted"@)
            },
            Err(e) => text_reply(r, 500, "Error: "@ + e@),
        },
{
    match deleted {
        Ok(n) => {
            if !row_matched(n) {
                Reply { status: 404, body: Body::Text("Bug not found".to_owned()) }
            } else {
                Reply { status: 200, body: Body::Text("Bug deleted".to_owned()) }
            }
        },
        Err(e) => Reply { status: 500, body: Body::Text(joined("Error: ", e.as_str())) },
    }
}

/// The change that hands a bug to the developer named in the form, and
/// changes nothing else.
pub fn assignment_update(form: &AssignBugForm) -> (r: UpdateBugAdmin)
    ensures
        r.description is None,
        r.severity is None,
        r.bug_type is None,
        r.progress_status is None,
        r.developer_id == Some(form.developer_id),
{
    UpdateBugAdmin {
        description: None,
        severity: None,
        bug_type: None,
        progress_status: None,
        developer_id: Some(form.developer_id.clone()),
    }
}

/// The bug to show after an assignment, or the answer 400 if the change
/// failed.
pub fn assignment_outcome<E>(updated: Result<Bug, E>) -> (r: Result<Bug, Reply>)
    ensures
        match updated {
            Ok(b) => r == Ok::<Bug, Reply>(b),
            Err(_) => r matches Err(rep) && text_reply(rep, 400, "Invalid bug ID or developer ID"@),
        },
{
    match updated {
        Ok(b) => Ok(b),
        Err(_) => Err(
            Reply { status: 400, body: Body::Text("Invalid bug ID or developer ID".to_owned()) },
        ),
    }
}

/// The answer with the page that confirms an assignment, or 500 with the
/// template's message.
pub fn assignment_page_reply(rendered: Result<String, String>) -> (r: Reply)
    ensures
        match rendered {
            Ok(page) => text_reply(r, 200, page@),
            Err(e) => text_reply(r, 500, "Render error: "@ + e@),
        },
{
    match rendered {
        Ok(page) => Reply { status: 200, body: Body::Text(page) },
        Err(e) => Reply { status: 500, body: Body::Text(joined("Render error: ", e.as_str())) },
    }
}

/// The answer with the assignment form, or 500 with the template's message.
pub fn assign_form_reply(rendered: Result<String, String>) -> (r: Reply)
    ensures
        match rendered {
            Ok(page) => r.status == 200 && (r.body matches Body::Html(h) && h@ == page@),
            Err(e) => text_reply(r, 500, "Template error: "@ + e@),
        },
{
    match rendered {
        Ok(page) => Reply { status: 200, body: Body::Html(page) },
        Err(e) => Reply { status: 500, body: Body::Text(joined("Template error: ", e.as_str())) },
    }
}


/// The change that gives no field.
pub open spec fn no_bug_change() -> UpdateBugAdmin {
    UpdateBugAdmin {
        description: None,
        severity: None,
        bug_type: None,
        progress_status: None,
        developer_id: None,
    }
}

/// One change standing for `earlier` followed by `later`: each field of
/// `later` that is given, else that of `earlier`.
pub open spec fn layered(later: UpdateBugAdmin, earlier: UpdateBugAdmin) -> UpdateBugAdmin {
    UpdateBugAdmin {
        description: if later.description is Some { later.description } else { earlier.description },
        severity: if later.severity is Some { later.severity } else { earlier.severity },
        bug_type: if later.bug_type is Some { later.bug_type } else { earlier.bug_type },
        progress_status: if later.progress_status is Some {
            later.progress_status
        } else {
            earlier.progress_status
        },
        developer_id: if later.developer_id is Some {
            later.developer_id
        } else {
            earlier.developer_id
        },
    }
}

/// Each field a change gives is the bug's afterwards, and each field it does
/// not give keeps its stored value.
pub proof fn lemma_bug_change_sets_given_fields(current: Bug, update: UpdateBugAdmin)
    ensures
        update.description matches Some(d) ==> updated_bug(current, update).description == d,
        update.description is None ==> updated_bug(current, update).description
            == current.description,
        update.severity matches Some(s) ==> updated_bug(current, update).severity == s,
        update.severity is None ==> updated_bug(current, update).severity == current.severity,
        update.bug_type matches Some(t) ==> updated_bug(current, update).bug_type == t,
        update.bug_type is None ==> updated_bug(current, update).bug_type == current.bug_type,
        update.progress_status matches Some(p) ==> updated_bug(current, update).progress_status
            == p,
        update.progress_status is None ==> updated_bug(current, update).progress_status
            == current.progress_status,
        update.developer_id is Some ==> updated_bug(current, update).developer_id
            == update.developer_id,
        update.developer_id is None ==> updated_bug(current, update).developer_id
            == current.developer_id,
{
}

/// A submission is refused exactly when one of its title, description,
/// reporter or severity is empty once trimmed.
pub proof fn lemma_submission_refused_only_when_blank(bug: NewBug)
    ensures
        new_bug_problem(bug) is None <==> (!blank(bug.title@) && !blank(bug.description@)
            && !blank(bug.reported_by@) && !blank(bug.severity@)),
        blank(bug.title@) ==> new_bug_problem(bug) == Some("Title is required."@),
{
}

/// A change that gives no field leaves the bug as it was.
pub proof fn lemma_empty_bug_change_keeps_bug(current: Bug)
    ensures
        updated_bug(current, no_bug_change()) == current,
{
}

/// Applying the same change twice gives what applying it once gives.
pub proof fn lemma_bug_change_idempotent(current: Bug, update: UpdateBugAdmin)
    ensures
        updated_bug(updated_bug(current, update), update) == updated_bug(current, update),
{
}

/// Two changes in a row act as one change in which the later one's given
/// fields win.
pub proof fn lemma_bug_changes_compose(current: Bug, first: UpdateBugAdmin, second: UpdateBugAdmin)
    ensures
        updated_bug(updated_bug(current, first), second) == updated_bug(
            current,
            layered(second, first),
        ),
{
}

/// No change touches a bug's number, title, reporter, report time or
/// project.
pub proof fn lemma_bug_change_keeps_identity(current: Bug, update: UpdateBugAdmin)
    ensures
        updated_bug(current, update).bug_id == current.bug_id,
        updated_bug(current, update).title == current.title,
        updated_bug(current, update).reported_by == current.reported_by,
        updated_bug(current, update).reported_at == current.reported_at,
        updated_bug(current, update).project_id == current.project_id,
{
}

/// A bug that has a developer keeps one under every change.
pub proof fn lemma_assigned_bug_stays_assigned(current: Bug, update: UpdateBugAdmin)
    requires
        current.developer_id is Some,
    ensures
        updated_bug(current, update).developer_id is Some,
{
}

/// Assigning a bug sets its developer and changes nothing else.
pub proof fn lemma_assignment_changes_only_developer(current: Bug, form: AssignBugForm)
    ensures
        updated_bug(
            current,
            UpdateBugAdmin { developer_id: Some(form.developer_id), ..no_bug_change() },
        ) == (Bug { developer_id: Some(form.developer_id), ..current }),
{
}

} // verus!
