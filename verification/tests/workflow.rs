use event_groups::error::AppError;
use event_groups::model::{
    CreateEventRequest, CreateGroupRequest, CreateMemberRequest, Event, Group, GroupMember,
    GroupWithMembers, MembersForCreateGroupRequest, Timestamp, UpdateGroupRequest,
};
use event_groups::paging::Pagination;
use event_groups::protocol::{Action, GroupFields, Operation, Reply, Response, Statement};
use event_groups::workflow::{has_room, Phase, Workflow};

fn stamp(secs: i64) -> Timestamp {
    Timestamp { secs, nanos: 0 }
}

fn event_row(id: &str, limit: i64) -> Event {
    Event {
        id: id.to_string(),
        name: "n".to_string(),
        date_time: stamp(5),
        group_size_limit: limit,
        location: "l".to_string(),
        created_at: Some(stamp(1)),
    }
}

fn group_row(id: i64, event_id: &str, accepts_others: bool) -> Group {
    Group {
        id,
        event_id: event_id.to_string(),
        creator_name: "c".to_string(),
        creator_email: "c@x".to_string(),
        group_name: "g".to_string(),
        accepts_others,
        project_description: None,
        created_at: Some(stamp(2)),
    }
}

fn member_row(id: i64, group_id: i64, name: &str) -> GroupMember {
    GroupMember { id, group_id, name: name.to_string(), email: None }
}

fn wanted(name: &str) -> MembersForCreateGroupRequest {
    MembersForCreateGroupRequest { name: name.to_string(), email: None }
}

fn fields() -> GroupFields {
    GroupFields {
        creator_name: "c".to_string(),
        creator_email: "c@x".to_string(),
        group_name: "g".to_string(),
        accepts_others: true,
        project_description: Some("p".to_string()),
    }
}

fn update(members: Vec<MembersForCreateGroupRequest>) -> UpdateGroupRequest {
    UpdateGroupRequest {
        creator_name: "c".to_string(),
        creator_email: "c@x".to_string(),
        group_name: "g".to_string(),
        accepts_others: true,
        project_description: Some("p".to_string()),
        members,
    }
}

fn create(event_id: &str, members: Vec<MembersForCreateGroupRequest>) -> CreateGroupRequest {
    CreateGroupRequest {
        event_id: event_id.to_string(),
        creator_name: "c".to_string(),
        creator_email: "c@x".to_string(),
        group_name: "g".to_string(),
        accepts_others: true,
        project_description: Some("p".to_string()),
        members,
    }
}

fn add_member(group_id: i64, name: &str) -> Operation {
    Operation::CreateMember(CreateMemberRequest {
        group_id,
        name: name.to_string(),
        email: Some("m@x".to_string()),
    })
}

/// Feeds `replies` to the workflow of `operation` and gives the action after each move, the
/// first of them being the action the workflow starts with.
fn drive(operation: Operation, replies: Vec<Reply>) -> Vec<Action> {
    let (mut workflow, first) = Workflow::start(operation);
    let mut actions = vec![first];
    for reply in replies {
        let (next, action) = workflow.step(reply);
        workflow = next;
        actions.push(action);
    }
    actions
}

fn run(s: Statement) -> Action {
    Action::Run(s)
}

#[test]
fn update_group_sends_its_statements_in_order() {
    let actions = drive(
        Operation::UpdateGroup(7, update(vec![wanted("a"), wanted("b")])),
        vec![
            Reply::Done,
            Reply::Group(Some(group_row(7, "e", false))),
            Reply::Group(Some(group_row(7, "e", true))),
            Reply::Done,
            Reply::Member(member_row(20, 7, "a")),
            Reply::Member(member_row(21, 7, "b")),
            Reply::Done,
        ],
    );
    assert_eq!(
        actions,
        vec![
            run(Statement::Begin),
            run(Statement::SelectGroup { id: 7 }),
            run(Statement::UpdateGroup { id: 7, fields: fields() }),
            run(Statement::DeleteMembersOfGroup { group_id: 7 }),
            run(Statement::InsertMember { group_id: 7, member: wanted("a") }),
            run(Statement::InsertMember { group_id: 7, member: wanted("b") }),
            run(Statement::Commit),
            Action::Finish(Ok(Response::GroupWithMembers(GroupWithMembers {
                group: group_row(7, "e", true),
                members: vec![member_row(20, 7, "a"), member_row(21, 7, "b")],
            }))),
        ]
    );
}

#[test]
fn update_group_stops_at_a_missing_group() {
    let actions = drive(
        Operation::UpdateGroup(7, update(vec![wanted("a")])),
        vec![Reply::Done, Reply::Group(None)],
    );
    assert_eq!(
        actions.last(),
        Some(&Action::Finish(Err(AppError::NotFound("Group with ID 7 not found".to_string()))))
    );
}

#[test]
fn update_group_passes_a_failed_insert_on() {
    let actions = drive(
        Operation::UpdateGroup(7, update(vec![wanted("a"), wanted("b")])),
        vec![
            Reply::Done,
            Reply::Group(Some(group_row(7, "e", true))),
            Reply::Group(Some(group_row(7, "e", true))),
            Reply::Done,
            Reply::Member(member_row(20, 7, "a")),
            Reply::Failed("disk full".to_string()),
        ],
    );
    assert_eq!(
        actions.last(),
        Some(&Action::Finish(Err(AppError::Database("disk full".to_string()))))
    );
}

#[test]
fn create_group_sends_its_statements_in_order() {
    let actions = drive(
        Operation::CreateGroup(create("e1", vec![wanted("a"), wanted("b")])),
        vec![
            Reply::Done,
            Reply::Flag(true),
            Reply::Group(Some(group_row(3, "e1", true))),
            Reply::Member(member_row(1, 3, "a")),
            Reply::Member(member_row(2, 3, "b")),
            Reply::Done,
        ],
    );
    assert_eq!(
        actions,
        vec![
            run(Statement::Begin),
            run(Statement::EventExists { id: "e1".to_string() }),
            run(Statement::InsertGroup { event_id: "e1".to_string(), fields: fields() }),
            run(Statement::InsertMember { group_id: 3, member: wanted("a") }),
            run(Statement::InsertMember { group_id: 3, member: wanted("b") }),
            run(Statement::Commit),
            Action::Finish(Ok(Response::Group(group_row(3, "e1", true)))),
        ]
    );
}

#[test]
fn create_group_without_members_commits_right_after_the_group() {
    let actions = drive(
        Operation::CreateGroup(create("e1", vec![])),
        vec![Reply::Done, Reply::Flag(true), Reply::Group(Some(group_row(3, "e1", true)))],
    );
    assert_eq!(actions.last(), Some(&run(Statement::Commit)));
}

#[test]
fn create_group_stops_at_a_missing_event() {
    let actions = drive(
        Operation::CreateGroup(create("e1", vec![wanted("a")])),
        vec![Reply::Done, Reply::Flag(false)],
    );
    assert_eq!(
        actions.last(),
        Some(&Action::Finish(Err(AppError::NotFound("Event with ID e1 not found".to_string()))))
    );
}

#[test]
fn create_member_checks_openness_then_capacity_then_inserts() {
    let actions = drive(
        add_member(4, "Bob"),
        vec![
            Reply::Done,
            Reply::Group(Some(group_row(4, "e9", true))),
            Reply::Event(Some(event_row("e9", 2))),
            Reply::Count(1),
            Reply::Member(member_row(11, 4, "Bob")),
            Reply::Done,
        ],
    );
    assert_eq!(
        actions,
        vec![
            run(Statement::Begin),
            run(Statement::SelectGroup { id: 4 }),
            run(Statement::SelectEvent { id: "e9".to_string() }),
            run(Statement::CountMembersOfGroup { group_id: 4 }),
            run(Statement::InsertMember {
                group_id: 4,
                member: MembersForCreateGroupRequest {
                    name: "Bob".to_string(),
                    email: Some("m@x".to_string())
                },
            }),
            run(Statement::Commit),
            Action::Finish(Ok(Response::Member(member_row(11, 4, "Bob")))),
        ]
    );
}

#[test]
fn create_member_is_refused_when_the_count_equals_the_limit() {
    let replies = |count| {
        vec![
            Reply::Done,
            Reply::Group(Some(group_row(4, "e9", true))),
            Reply::Event(Some(event_row("e9", 2))),
            Reply::Count(count),
        ]
    };
    let full = Action::Finish(Err(AppError::BadRequest(
        "Group size limit of 2 has been reached".to_string(),
    )));
    assert_eq!(drive(add_member(4, "x"), replies(2)).last(), Some(&full));
    assert_eq!(drive(add_member(4, "x"), replies(3)).last(), Some(&full));
    assert!(matches!(
        drive(add_member(4, "x"), replies(1)).last(),
        Some(Action::Run(Statement::InsertMember { .. }))
    ));
}

#[test]
fn create_member_is_refused_by_a_closed_group_before_any_count() {
    let actions = drive(
        add_member(4, "x"),
        vec![Reply::Done, Reply::Group(Some(group_row(4, "e9", false)))],
    );
    assert_eq!(actions.len(), 3);
    assert_eq!(
        actions.last(),
        Some(&Action::Finish(Err(AppError::BadRequest(
            "Group with ID 4 does not accept new members".to_string()
        ))))
    );
}

#[test]
fn create_member_blames_the_store_for_a_missing_event() {
    let actions = drive(
        add_member(4, "x"),
        vec![Reply::Done, Reply::Group(Some(group_row(4, "e9", true))), Reply::Event(None)],
    );
    match actions.last() {
        Some(Action::Finish(Err(e))) => {
            assert!(matches!(e, AppError::Database(_)));
            assert_eq!(e.status_code(), 500);
        }
        other => panic!("unexpected {:?}", other),
    }
}

#[test]
fn delete_event_removes_members_then_groups_then_the_event() {
    let actions = drive(
        Operation::DeleteEvent("e1".to_string()),
        vec![Reply::Done, Reply::Flag(true), Reply::Done, Reply::Done, Reply::Done, Reply::Done],
    );
    assert_eq!(
        actions,
        vec![
            run(Statement::Begin),
            run(Statement::EventExists { id: "e1".to_string() }),
            run(Statement::DeleteMembersOfEvent { event_id: "e1".to_string() }),
            run(Statement::DeleteGroupsOfEvent { event_id: "e1".to_string() }),
            run(Statement::DeleteEvent { id: "e1".to_string() }),
            run(Statement::Commit),
            Action::Finish(Ok(Response::NoContent)),
        ]
    );
}

#[test]
fn delete_group_removes_members_then_the_group() {
    let actions = drive(
        Operation::DeleteGroup(5),
        vec![Reply::Done, Reply::Flag(true), Reply::Done, Reply::Done, Reply::Done],
    );
    assert_eq!(
        actions,
        vec![
            run(Statement::Begin),
            run(Statement::GroupExists { id: 5 }),
            run(Statement::DeleteMembersOfGroup { group_id: 5 }),
            run(Statement::DeleteGroup { id: 5 }),
            run(Statement::Commit),
            Action::Finish(Ok(Response::NoContent)),
        ]
    );
}

#[test]
fn delete_member_is_a_check_and_one_statement() {
    let actions = drive(Operation::DeleteMember(8), vec![Reply::Flag(true), Reply::Done]);
    assert_eq!(
        actions,
        vec![
            run(Statement::MemberExists { id: 8 }),
            run(Statement::DeleteMember { id: 8 }),
            Action::Finish(Ok(Response::NoContent)),
        ]
    );
    let missing = drive(Operation::DeleteMember(8), vec![Reply::Flag(false)]);
    assert_eq!(
        missing.last(),
        Some(&Action::Finish(Err(AppError::NotFound("Member with ID 8 not found".to_string()))))
    );
}

#[test]
fn list_event_groups_skips_the_member_query_when_there_are_no_groups() {
    let actions = drive(
        Operation::ListEventGroups("e1".to_string()),
        vec![Reply::Flag(true), Reply::Groups(vec![])],
    );
    assert_eq!(
        actions,
        vec![
            run(Statement::EventExists { id: "e1".to_string() }),
            run(Statement::SelectGroupsOfEvent { event_id: "e1".to_string() }),
            Action::Finish(Ok(Response::GroupsWithMembers(vec![]))),
        ]
    );
}

#[test]
fn list_event_groups_asks_once_for_all_members() {
    let actions = drive(
        Operation::ListEventGroups("e1".to_string()),
        vec![
            Reply::Flag(true),
            Reply::Groups(vec![group_row(2, "e1", true), group_row(1, "e1", true)]),
            Reply::Members(vec![member_row(5, 1, "a"), member_row(6, 2, "b"), member_row(7, 1, "c")]),
        ],
    );
    assert_eq!(actions.len(), 4);
    assert_eq!(actions[2], run(Statement::SelectMembersOfEvent { event_id: "e1".to_string() }));
    assert_eq!(
        actions[3],
        Action::Finish(Ok(Response::GroupsWithMembers(vec![
            GroupWithMembers { group: group_row(2, "e1", true), members: vec![member_row(6, 2, "b")] },
            GroupWithMembers {
                group: group_row(1, "e1", true),
                members: vec![member_row(5, 1, "a"), member_row(7, 1, "c")]
            },
        ])))
    );
}

#[test]
fn list_group_members_checks_the_group_first() {
    let actions = drive(
        Operation::ListGroupMembers(3),
        vec![Reply::Flag(true), Reply::Members(vec![member_row(1, 3, "a")])],
    );
    assert_eq!(
        actions,
        vec![
            run(Statement::GroupExists { id: 3 }),
            run(Statement::SelectMembersOfGroup { group_id: 3 }),
            Action::Finish(Ok(Response::Members(vec![member_row(1, 3, "a")]))),
        ]
    );
}

#[test]
fn listings_ask_for_the_window_of_their_page() {
    let (_, events) =
        Workflow::start(Operation::ListEvents(Pagination { page: Some(3), limit: Some(20) }));
    assert_eq!(events, run(Statement::ListEvents { limit: 20, offset: 40 }));
    let (_, groups) = Workflow::start(Operation::ListGroups(Pagination { page: None, limit: None }));
    assert_eq!(groups, run(Statement::ListGroups { limit: 10, offset: 0 }));
    let (w, bad) =
        Workflow::start(Operation::ListEvents(Pagination { page: Some(0), limit: Some(20) }));
    assert!(matches!(bad, Action::Finish(Err(AppError::ValidationError(_)))));
    assert_eq!(w.phase, Phase::Finished);
}

#[test]
fn event_operations_are_single_statements() {
    let fields = CreateEventRequest {
        name: "n".to_string(),
        date_time: stamp(5),
        group_size_limit: 2,
        location: "l".to_string(),
    };
    let created = drive(
        Operation::CreateEvent { id: "e1".to_string(), fields: fields.clone() },
        vec![Reply::Event(Some(event_row("e1", 2)))],
    );
    assert_eq!(
        created,
        vec![
            run(Statement::InsertEvent { id: "e1".to_string(), fields: fields.clone() }),
            Action::Finish(Ok(Response::Event(event_row("e1", 2)))),
        ]
    );
    let updated = drive(
        Operation::UpdateEvent("e1".to_string(), fields.clone()),
        vec![Reply::Event(None)],
    );
    assert_eq!(
        updated,
        vec![
            run(Statement::UpdateEvent { id: "e1".to_string(), fields }),
            Action::Finish(Err(AppError::NotFound("Event with ID e1 not found".to_string()))),
        ]
    );
}

#[test]
fn an_unexpected_reply_is_an_internal_error() {
    let actions = drive(Operation::GetGroup(1), vec![Reply::Count(3)]);
    match actions.last() {
        Some(Action::Finish(Err(e))) => {
            assert!(matches!(e, AppError::InternalServerError(_)));
            assert_eq!(e.status_code(), 500);
            assert_eq!(e.client_message(), "Internal server error");
        }
        other => panic!("unexpected {:?}", other),
    }
}

#[test]
fn a_finished_workflow_stays_finished() {
    let (workflow, _) = Workflow::start(Operation::GetGroup(1));
    let (workflow, first) = workflow.step(Reply::Group(None));
    assert!(matches!(first, Action::Finish(Err(AppError::NotFound(_)))));
    assert_eq!(workflow.phase, Phase::Finished);
    let (workflow, again) = workflow.step(Reply::Done);
    assert!(matches!(again, Action::Finish(Err(AppError::InternalServerError(_)))));
    assert_eq!(workflow.phase, Phase::Finished);
    assert_eq!(workflow.operation, Operation::GetGroup(1));
}

#[test]
fn every_operation_passes_a_store_failure_on_unchanged() {
    let operations = vec![
        Operation::ListEvents(Pagination::default()),
        Operation::GetEvent("e".to_string()),
        Operation::DeleteEvent("e".to_string()),
        Operation::ListGroups(Pagination::default()),
        Operation::CreateGroup(create("e", vec![wanted("a")])),
        Operation::GetGroup(1),
        Operation::UpdateGroup(1, update(vec![])),
        Operation::DeleteGroup(1),
        Operation::ListEventGroups("e".to_string()),
        add_member(1, "x"),
        Operation::DeleteMember(1),
        Operation::ListGroupMembers(1),
    ];
    for operation in operations {
        let actions = drive(operation, vec![Reply::Failed("connection reset".to_string())]);
        assert_eq!(
            actions.last(),
            Some(&Action::Finish(Err(AppError::Database("connection reset".to_string()))))
        );
    }
}

#[test]
fn a_group_has_room_while_its_count_is_below_the_limit() {
    assert!(has_room(0, 1));
    assert!(has_room(1, 2));
    assert!(!has_room(2, 2));
    assert!(!has_room(3, 2));
    assert!(!has_room(0, 0));
    assert!(!has_room(0, -1));
}

#[test]
fn a_negative_limit_ends_event_operations_before_any_statement() {
    let bad = CreateEventRequest {
        name: "n".to_string(),
        date_time: stamp(5),
        group_size_limit: -1,
        location: "l".to_string(),
    };
    let refused = Action::Finish(Err(AppError::ValidationError(
        "group_size_limit must not be negative".to_string(),
    )));
    let (w, created) =
        Workflow::start(Operation::CreateEvent { id: "e1".to_string(), fields: bad.clone() });
    assert_eq!(created, refused);
    assert_eq!(w.phase, Phase::Finished);
    let (w, updated) = Workflow::start(Operation::UpdateEvent("e1".to_string(), bad));
    assert_eq!(updated, refused);
    assert_eq!(w.phase, Phase::Finished);
}
