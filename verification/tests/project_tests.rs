use bug_tracker::models::{NewProject, Project, UpdateProjectAdmin};
use bug_tracker::projects::{
    apply_project_update, assign_member_step, created_project_reply, prepare_project,
    project_deletion_reply, project_list_reply, project_row, project_to_update,
    updated_project_reply, MemberAction, MemberEvent,
};
use bug_tracker::reply::{Body, Reply};

fn project() -> Project {
    Project {
        project_id: 2,
        name: "Tracker".to_string(),
        description: "Tracks bugs".to_string(),
        created_at: "2025-01-01T00:00:00+00:00".to_string(),
        created_by: "admin".to_string(),
    }
}

fn text_of(r: &Reply) -> &str {
    match &r.body {
        Body::Text(t) => t.as_str(),
        other => panic!("unexpected body {:?}", other),
    }
}

fn respond(a: MemberAction) -> Reply {
    match a {
        MemberAction::Respond(r) => r,
        _ => panic!("expected an answer"),
    }
}

#[test]
fn project_list_answers() {
    let r = project_list_reply(Ok(vec![project()]));
    assert_eq!(r.status, 200);
    assert!(matches!(r.body, Body::Projects(ref ps) if ps.len() == 1));
    let r = project_list_reply(Err("gone".to_string()));
    assert_eq!((r.status, text_of(&r)), (500, "DB error: gone"));
}

#[test]
fn a_new_project_row_copies_the_submission() {
    let np = NewProject {
        name: "N".to_string(),
        description: "D".to_string(),
        created_by: "C".to_string(),
    };
    let row = project_row(&np, "2025-02-02T00:00:00+00:00".to_string());
    assert_eq!(
        (row.name.as_str(), row.description.as_str(), row.created_by.as_str()),
        ("N", "D", "C")
    );
    assert_eq!(row.created_at, "2025-02-02T00:00:00+00:00");
    let now = prepare_project(&np);
    assert_eq!(now.name, "N");
    let t: Vec<char> = now.created_at.chars().collect();
    assert_eq!((t[4], t[7], t[10], t[13], t[16]), ('-', '-', 'T', ':', ':'));
    assert!(now.created_at.ends_with("+00:00"));
}

#[test]
fn project_creation_answers() {
    let r = created_project_reply(Ok(project()));
    assert_eq!(r.status, 200);
    let r = created_project_reply(Err("constraint".to_string()));
    assert_eq!((r.status, text_of(&r)), (500, "Create failed: constraint"));
}

#[test]
fn project_update_merges_given_fields() {
    let u = UpdateProjectAdmin { name: Some("Renamed".to_string()), description: None };
    let p = apply_project_update(project(), &u);
    assert_eq!(p.project_id, 2);
    assert_eq!(p.name, "Renamed");
    assert_eq!(p.description, "Tracks bugs");
    assert_eq!(p.created_by, "admin");
    let none = UpdateProjectAdmin { name: None, description: None };
    let q = apply_project_update(project(), &none);
    assert_eq!((q.name.as_str(), q.description.as_str()), ("Tracker", "Tracks bugs"));
}

#[test]
fn project_update_answers() {
    assert!(project_to_update::<()>(Ok(project())).is_ok());
    let r = project_to_update(Err(())).unwrap_err();
    assert_eq!((r.status, text_of(&r)), (404, "Project not found"));
    let r = updated_project_reply(Ok(project()));
    assert_eq!(r.status, 200);
    let r = updated_project_reply(Err("busy".to_string()));
    assert_eq!((r.status, text_of(&r)), (500, "Update failed: busy"));
}

#[test]
fn project_deletion_answers() {
    let r = project_deletion_reply(Ok(0));
    assert_eq!((r.status, text_of(&r)), (404, "Project not found"));
    let r = project_deletion_reply(Ok(3));
    assert_eq!((r.status, text_of(&r)), (200, "Project deleted"));
    let r = project_deletion_reply(Err("io".to_string()));
    assert_eq!((r.status, text_of(&r)), (500, "Delete failed: io"));
}

#[test]
fn member_assignment_steps() {
    let r = respond(assign_member_step(MemberEvent::ProjectChecked(Ok(false))));
    assert_eq!((r.status, text_of(&r)), (404, "Project not found"));
    assert!(matches!(
        assign_member_step(MemberEvent::ProjectChecked(Ok(true))),
        MemberAction::LookUpUser
    ));
    assert!(matches!(
        assign_member_step(MemberEvent::ProjectChecked(Err("x".to_string()))),
        MemberAction::LookUpUser
    ));
    match assign_member_step(MemberEvent::UserLookedUp(Ok(Some("u-1".to_string())))) {
        MemberAction::SaveMember(id) => assert_eq!(id, "u-1"),
        _ => panic!("expected to save the member"),
    }
    let r = respond(assign_member_step(MemberEvent::UserLookedUp(Ok(None))));
    assert_eq!((r.status, text_of(&r)), (404, "User not found"));
    let r = respond(assign_member_step(MemberEvent::UserLookedUp(Err("e1".to_string()))));
    assert_eq!((r.status, text_of(&r)), (500, "DB error: e1"));
    let r = respond(assign_member_step(MemberEvent::MemberSaved(Ok(()))));
    assert_eq!((r.status, text_of(&r)), (200, "Member assigned to project successfully"));
    let r = respond(assign_member_step(MemberEvent::MemberSaved(Err("e2".to_string()))));
    assert_eq!((r.status, text_of(&r)), (500, "Assignment failed: e2"));
}
