use event_groups::error::AppError;
use event_groups::model::{
    CreateEventRequest, CreateGroupRequest, CreateMemberRequest, Event, EventWithGroups, Group,
    GroupMember, GroupWithMembers, MembersForCreateGroupRequest, Timestamp, UpdateGroupRequest,
};
use event_groups::paging::Pagination;
use event_groups::engine::serve;
use event_groups::memory::MemoryStore;
use event_groups::protocol::{GroupFields, Operation, Reply, Response, Statement};
use event_groups::registry::Registry;

const NEW_YEAR_2025: Timestamp = Timestamp { secs: 1_735_689_600, nanos: 0 };

fn at(secs: i64) -> Timestamp {
    Timestamp { secs, nanos: 0 }
}

fn hackathon() -> CreateEventRequest {
    CreateEventRequest {
        name: "Hackathon".to_string(),
        date_time: NEW_YEAR_2025,
        group_size_limit: 2,
        location: "Hall A".to_string(),
    }
}

fn new_member(name: &str) -> MembersForCreateGroupRequest {
    MembersForCreateGroupRequest { name: name.to_string(), email: None }
}

fn new_group(event_id: &str, name: &str, accepts_others: bool, members: &[&str]) -> CreateGroupRequest {
    CreateGroupRequest {
        event_id: event_id.to_string(),
        creator_name: "Creator".to_string(),
        creator_email: "creator@example.org".to_string(),
        group_name: name.to_string(),
        accepts_others,
        project_description: None,
        members: members.iter().map(|m| new_member(m)).collect(),
    }
}

fn add(group_id: i64, name: &str) -> Operation {
    Operation::CreateMember(CreateMemberRequest { group_id, name: name.to_string(), email: None })
}

fn event_of(r: Result<Response, AppError>) -> Event {
    match r {
        Ok(Response::Event(e)) => e,
        other => panic!("expected an event, got {:?}", other),
    }
}

fn group_of(r: Result<Response, AppError>) -> Group {
    match r {
        Ok(Response::Group(g)) => g,
        other => panic!("expected a group, got {:?}", other),
    }
}

fn member_of(r: Result<Response, AppError>) -> GroupMember {
    match r {
        Ok(Response::Member(m)) => m,
        other => panic!("expected a member, got {:?}", other),
    }
}

fn group_with_members_of(r: Result<Response, AppError>) -> GroupWithMembers {
    match r {
        Ok(Response::GroupWithMembers(g)) => g,
        other => panic!("expected a group with members, got {:?}", other),
    }
}

fn members_of(r: Result<Response, AppError>) -> Vec<GroupMember> {
    match r {
        Ok(Response::Members(m)) => m,
        other => panic!("expected members, got {:?}", other),
    }
}

fn events_of(r: Result<Response, AppError>) -> Vec<Event> {
    match r {
        Ok(Response::Events(e)) => e,
        other => panic!("expected events, got {:?}", other),
    }
}

fn groups_of(r: Result<Response, AppError>) -> Vec<Group> {
    match r {
        Ok(Response::Groups(g)) => g,
        other => panic!("expected groups, got {:?}", other),
    }
}

fn all_groups(r: &mut Registry) -> Vec<Group> {
    groups_of(r.handle(
        Operation::ListGroups(Pagination { page: Some(1), limit: Some(1000) }),
        at(0),
    ))
}

fn names(members: &[GroupMember]) -> Vec<String> {
    members.iter().map(|m| m.name.clone()).collect()
}

#[test]
fn scenario_hackathon_fills_up_and_is_deleted() {
    let mut r = Registry::new();
    let e1 = event_of(r.handle(Operation::create_event(hackathon()), at(100)));
    assert_eq!(e1.name, "Hackathon");
    assert_eq!(e1.date_time, NEW_YEAR_2025);
    assert_eq!(e1.group_size_limit, 2);
    assert_eq!(e1.location, "Hall A");
    assert_eq!(e1.created_at, Some(at(100)));

    let g1 = group_of(r.handle(
        Operation::CreateGroup(new_group(&e1.id, "Team A", true, &["Alice"])),
        at(101),
    ));
    assert_eq!(g1.group_name, "Team A");
    assert_eq!(g1.event_id, e1.id);
    let fetched = group_with_members_of(r.handle(Operation::GetGroup(g1.id), at(102)));
    assert_eq!(names(&fetched.members), vec!["Alice"]);

    let bob = r.handle(add(g1.id, "Bob"), at(103));
    assert_eq!(bob.as_ref().map(|b| b.status_code()), Ok(200));
    assert_eq!(member_of(bob).name, "Bob");
    let fetched = group_with_members_of(r.handle(Operation::GetGroup(g1.id), at(104)));
    assert_eq!(names(&fetched.members), vec!["Alice", "Bob"]);

    let carl = r.handle(add(g1.id, "Carl"), at(105));
    let refused = carl.unwrap_err();
    assert_eq!(refused.status_code(), 400);
    assert_eq!(refused, AppError::BadRequest("Group size limit of 2 has been reached".to_string()));
    let fetched = group_with_members_of(r.handle(Operation::GetGroup(g1.id), at(106)));
    assert_eq!(names(&fetched.members), vec!["Alice", "Bob"]);

    let deleted = r.handle(Operation::DeleteEvent(e1.id.clone()), at(107));
    assert_eq!(deleted, Ok(Response::NoContent));
    assert_eq!(Response::NoContent.status_code(), 204);

    let gone = r.handle(Operation::GetGroup(g1.id), at(108)).unwrap_err();
    assert_eq!(gone.status_code(), 404);
    assert_eq!(gone, AppError::NotFound(format!("Group with ID {} not found", g1.id)));
}

#[test]
fn scenario_group_for_missing_event_is_refused() {
    let mut r = Registry::new();
    let refused = r
        .handle(Operation::CreateGroup(new_group("no-such-event", "Team", true, &["A", "B"])), at(1))
        .unwrap_err();
    assert_eq!(refused.status_code(), 404);
    assert_eq!(
        refused,
        AppError::NotFound("Event with ID no-such-event not found".to_string())
    );
    assert!(all_groups(&mut r).is_empty());
}

#[test]
fn deleting_an_event_takes_its_groups_and_members_and_no_others() {
    let mut r = Registry::new();
    let e1 = event_of(r.handle(Operation::create_event(hackathon()), at(1)));
    let e2 = event_of(r.handle(Operation::create_event(hackathon()), at(2)));
    let a = group_of(r.handle(Operation::CreateGroup(new_group(&e1.id, "A", true, &["a1", "a2"])), at(3)));
    let b = group_of(r.handle(Operation::CreateGroup(new_group(&e1.id, "B", false, &[])), at(4)));
    let c = group_of(r.handle(Operation::CreateGroup(new_group(&e2.id, "C", true, &["c1"])), at(5)));
    let a_members = members_of(r.handle(Operation::ListGroupMembers(a.id), at(6)));
    assert_eq!(a_members.len(), 2);

    assert_eq!(r.handle(Operation::DeleteEvent(e1.id.clone()), at(7)), Ok(Response::NoContent));

    assert_eq!(
        r.handle(Operation::GetEvent(e1.id.clone()), at(8)),
        Err(AppError::NotFound(format!("Event with ID {} not found", e1.id)))
    );
    for gone in [a.id, b.id] {
        assert_eq!(
            r.handle(Operation::GetGroup(gone), at(8)),
            Err(AppError::NotFound(format!("Group with ID {} not found", gone)))
        );
        assert_eq!(
            r.handle(Operation::ListGroupMembers(gone), at(8)),
            Err(AppError::NotFound(format!("Group with ID {} not found", gone)))
        );
    }
    for m in &a_members {
        assert_eq!(
            r.handle(Operation::DeleteMember(m.id), at(9)),
            Err(AppError::NotFound(format!("Member with ID {} not found", m.id)))
        );
    }
    let kept = group_with_members_of(r.handle(Operation::GetGroup(c.id), at(10)));
    assert_eq!(kept.group, c);
    assert_eq!(names(&kept.members), vec!["c1"]);
    assert_eq!(all_groups(&mut r), vec![c]);
    assert_eq!(
        r.handle(Operation::DeleteEvent(e1.id.clone()), at(11)),
        Err(AppError::NotFound(format!("Event with ID {} not found", e1.id)))
    );
}

#[test]
fn a_closed_group_refuses_members_whatever_its_size() {
    let mut r = Registry::new();
    let mut roomy = hackathon();
    roomy.group_size_limit = 100;
    let e = event_of(r.handle(Operation::create_event(roomy), at(1)));
    let g = group_of(r.handle(Operation::CreateGroup(new_group(&e.id, "Closed", false, &[])), at(2)));
    assert_eq!(
        r.handle(add(g.id, "Dora"), at(3)),
        Err(AppError::BadRequest(format!("Group with ID {} does not accept new members", g.id)))
    );
    assert!(members_of(r.handle(Operation::ListGroupMembers(g.id), at(4))).is_empty());
}

#[test]
fn adding_to_a_missing_group_is_not_found() {
    let mut r = Registry::new();
    assert_eq!(
        r.handle(add(77, "Eve"), at(1)),
        Err(AppError::NotFound("Group with ID 77 not found".to_string()))
    );
}

#[test]
fn a_limit_of_zero_admits_nobody() {
    let mut r = Registry::new();
    let mut none = hackathon();
    none.group_size_limit = 0;
    let e = event_of(r.handle(Operation::create_event(none), at(1)));
    let g = group_of(r.handle(Operation::CreateGroup(new_group(&e.id, "G", true, &[])), at(2)));
    assert_eq!(
        r.handle(add(g.id, "Fay"), at(3)),
        Err(AppError::BadRequest("Group size limit of 0 has been reached".to_string()))
    );
}

#[test]
fn initial_members_are_not_held_against_limit_or_openness() {
    let mut r = Registry::new();
    let e = event_of(r.handle(Operation::create_event(hackathon()), at(1)));
    let g = group_of(r.handle(
        Operation::CreateGroup(new_group(&e.id, "Big", false, &["a", "b", "c", "d"])),
        at(2),
    ));
    let members = members_of(r.handle(Operation::ListGroupMembers(g.id), at(3)));
    assert_eq!(names(&members), vec!["a", "b", "c", "d"]);
}

#[test]
fn lowering_the_limit_later_removes_nobody() {
    let mut r = Registry::new();
    let e = event_of(r.handle(Operation::create_event(hackathon()), at(1)));
    let g = group_of(r.handle(Operation::CreateGroup(new_group(&e.id, "G", true, &["a"])), at(2)));
    member_of(r.handle(add(g.id, "b"), at(3)));
    let mut tighter = hackathon();
    tighter.group_size_limit = 1;
    let changed = event_of(r.handle(Operation::UpdateEvent(e.id.clone(), tighter), at(4)));
    assert_eq!(changed.group_size_limit, 1);
    assert_eq!(changed.id, e.id);
    assert_eq!(changed.created_at, e.created_at);
    assert_eq!(members_of(r.handle(Operation::ListGroupMembers(g.id), at(5))).len(), 2);
    assert_eq!(
        r.handle(add(g.id, "c"), at(6)),
        Err(AppError::BadRequest("Group size limit of 1 has been reached".to_string()))
    );
}

#[test]
fn update_group_replaces_fields_and_members() {
    let mut r = Registry::new();
    let e = event_of(r.handle(Operation::create_event(hackathon()), at(1)));
    let g = group_of(r.handle(
        Operation::CreateGroup(new_group(&e.id, "Old", true, &["old1", "old2", "old3"])),
        at(2),
    ));
    let before = members_of(r.handle(Operation::ListGroupMembers(g.id), at(3)));
    let update = UpdateGroupRequest {
        creator_name: "New Creator".to_string(),
        creator_email: "new@example.org".to_string(),
        group_name: "New".to_string(),
        accepts_others: false,
        project_description: Some("A plan".to_string()),
        members: vec![
            MembersForCreateGroupRequest {
                name: "Zed".to_string(),
                email: Some("zed@example.org".to_string()),
            },
            new_member("Amy"),
        ],
    };
    let answered = group_with_members_of(r.handle(Operation::UpdateGroup(g.id, update), at(4)));
    assert_eq!(answered.group.id, g.id);
    assert_eq!(answered.group.event_id, e.id);
    assert_eq!(answered.group.created_at, g.created_at);
    assert_eq!(answered.group.group_name, "New");
    assert_eq!(answered.group.creator_name, "New Creator");
    assert_eq!(answered.group.creator_email, "new@example.org");
    assert!(!answered.group.accepts_others);
    assert_eq!(answered.group.project_description, Some("A plan".to_string()));
    assert_eq!(names(&answered.members), vec!["Zed", "Amy"]);
    assert_eq!(answered.members[0].email, Some("zed@example.org".to_string()));
    assert_eq!(answered.members[1].email, None);
    for m in &answered.members {
        assert_eq!(m.group_id, g.id);
        assert!(before.iter().all(|old| old.id != m.id));
    }
    let fetched = group_with_members_of(r.handle(Operation::GetGroup(g.id), at(5)));
    assert_eq!(fetched, answered);
}

#[test]
fn update_group_with_no_members_empties_the_group() {
    let mut r = Registry::new();
    let e = event_of(r.handle(Operation::create_event(hackathon()), at(1)));
    let g = group_of(r.handle(Operation::CreateGroup(new_group(&e.id, "G", true, &["a", "b"])), at(2)));
    let update = UpdateGroupRequest {
        creator_name: "c".to_string(),
        creator_email: "c@x".to_string(),
        group_name: "G".to_string(),
        accepts_others: true,
        project_description: None,
        members: vec![],
    };
    let answered = group_with_members_of(r.handle(Operation::UpdateGroup(g.id, update), at(3)));
    assert!(answered.members.is_empty());
    assert!(members_of(r.handle(Operation::ListGroupMembers(g.id), at(4))).is_empty());
}

#[test]
fn update_of_a_missing_group_is_not_found() {
    let mut r = Registry::new();
    let update = UpdateGroupRequest {
        creator_name: "c".to_string(),
        creator_email: "c@x".to_string(),
        group_name: "G".to_string(),
        accepts_others: true,
        project_description: None,
        members: vec![new_member("x")],
    };
    assert_eq!(
        r.handle(Operation::UpdateGroup(5, update), at(1)),
        Err(AppError::NotFound("Group with ID 5 not found".to_string()))
    );
}

#[test]
fn reading_twice_gives_the_same_answer() {
    let mut r = Registry::new();
    let e = event_of(r.handle(Operation::create_event(hackathon()), at(1)));
    group_of(r.handle(Operation::CreateGroup(new_group(&e.id, "A", true, &["a"])), at(2)));
    group_of(r.handle(Operation::CreateGroup(new_group(&e.id, "B", true, &[])), at(3)));
    let first = r.handle(Operation::GetEvent(e.id.clone()), at(4));
    let second = r.handle(Operation::GetEvent(e.id.clone()), at(99));
    assert!(first.is_ok());
    assert_eq!(first, second);
    let missing_first = r.handle(Operation::GetEvent("nope".to_string()), at(5));
    let missing_second = r.handle(Operation::GetEvent("nope".to_string()), at(6));
    assert_eq!(missing_first, missing_second);
}

#[test]
fn get_event_lists_its_groups_latest_first_without_members() {
    let mut r = Registry::new();
    let e = event_of(r.handle(Operation::create_event(hackathon()), at(1)));
    let other = event_of(r.handle(Operation::create_event(hackathon()), at(1)));
    let first = group_of(r.handle(Operation::CreateGroup(new_group(&e.id, "first", true, &["a"])), at(10)));
    let second = group_of(r.handle(Operation::CreateGroup(new_group(&e.id, "second", true, &[])), at(20)));
    group_of(r.handle(Operation::CreateGroup(new_group(&other.id, "else", true, &[])), at(30)));
    let got = r.handle(Operation::GetEvent(e.id.clone()), at(40));
    assert_eq!(
        got,
        Ok(Response::EventWithGroups(EventWithGroups { event: e, groups: vec![second, first] }))
    );
}

#[test]
fn events_are_listed_latest_date_first_in_pages() {
    let mut r = Registry::new();
    let mut ids = Vec::new();
    for (i, secs) in [300i64, 100, 500, 200, 400].iter().enumerate() {
        let fields = CreateEventRequest {
            name: format!("event {}", i),
            date_time: at(*secs),
            group_size_limit: 3,
            location: "somewhere".to_string(),
        };
        ids.push(event_of(r.handle(Operation::create_event(fields), at(1000 + i as i64))).id);
    }
    let page = |r: &mut Registry, page, limit| {
        events_of(r.handle(
            Operation::ListEvents(Pagination { page: Some(page), limit: Some(limit) }),
            at(0),
        ))
        .iter()
        .map(|e| e.date_time.secs)
        .collect::<Vec<i64>>()
    };
    assert_eq!(page(&mut r, 1, 10), vec![500, 400, 300, 200, 100]);
    assert_eq!(page(&mut r, 1, 2), vec![500, 400]);
    assert_eq!(page(&mut r, 2, 2), vec![300, 200]);
    assert_eq!(page(&mut r, 3, 2), vec![100]);
    assert_eq!(page(&mut r, 4, 2), Vec::<i64>::new());
    assert_eq!(page(&mut r, 1, 0), Vec::<i64>::new());
    let defaults = events_of(r.handle(Operation::ListEvents(Pagination { page: None, limit: None }), at(0)));
    assert_eq!(defaults.len(), 5);

    let moved = CreateEventRequest {
        name: "moved".to_string(),
        date_time: at(450),
        group_size_limit: 3,
        location: "elsewhere".to_string(),
    };
    event_of(r.handle(Operation::UpdateEvent(ids[1].clone(), moved), at(2000)));
    assert_eq!(page(&mut r, 1, 10), vec![500, 450, 400, 300, 200]);
}

#[test]
fn listing_page_zero_is_a_validation_error() {
    let mut r = Registry::new();
    let refused = r
        .handle(Operation::ListEvents(Pagination { page: Some(0), limit: Some(10) }), at(0))
        .unwrap_err();
    assert_eq!(refused.status_code(), 422);
    assert!(matches!(refused, AppError::ValidationError(_)));
    let refused = r
        .handle(Operation::ListGroups(Pagination { page: Some(0), limit: None }), at(0))
        .unwrap_err();
    assert_eq!(refused.status_code(), 422);
}

#[test]
fn groups_are_listed_latest_created_first() {
    let mut r = Registry::new();
    let e = event_of(r.handle(Operation::create_event(hackathon()), at(1)));
    let a = group_of(r.handle(Operation::CreateGroup(new_group(&e.id, "a", true, &[])), at(10)));
    let b = group_of(r.handle(Operation::CreateGroup(new_group(&e.id, "b", true, &[])), at(30)));
    let c = group_of(r.handle(Operation::CreateGroup(new_group(&e.id, "c", true, &[])), at(20)));
    assert_eq!(all_groups(&mut r), vec![b.clone(), c.clone(), a.clone()]);
    let second_page = groups_of(r.handle(
        Operation::ListGroups(Pagination { page: Some(2), limit: Some(2) }),
        at(0),
    ));
    assert_eq!(second_page, vec![a]);
}

#[test]
fn an_event_id_that_is_taken_is_a_database_error() {
    let mut r = Registry::new();
    let first = r.handle(
        Operation::CreateEvent { id: "fixed".to_string(), fields: hackathon() },
        at(1),
    );
    assert_eq!(event_of(first).id, "fixed");
    let second = r
        .handle(Operation::CreateEvent { id: "fixed".to_string(), fields: hackathon() }, at(2))
        .unwrap_err();
    assert_eq!(second.status_code(), 500);
    assert!(matches!(second, AppError::Database(_)));
    assert_eq!(second.client_message(), "Database error occurred");
    assert_eq!(
        events_of(r.handle(Operation::ListEvents(Pagination::default()), at(3))).len(),
        1
    );
}

#[test]
fn update_of_a_missing_event_is_not_found() {
    let mut r = Registry::new();
    assert_eq!(
        r.handle(Operation::UpdateEvent("ghost".to_string(), hackathon()), at(1)),
        Err(AppError::NotFound("Event with ID ghost not found".to_string()))
    );
}

#[test]
fn delete_group_takes_its_members_only() {
    let mut r = Registry::new();
    let e = event_of(r.handle(Operation::create_event(hackathon()), at(1)));
    let a = group_of(r.handle(Operation::CreateGroup(new_group(&e.id, "a", true, &["a1"])), at(2)));
    let b = group_of(r.handle(Operation::CreateGroup(new_group(&e.id, "b", true, &["b1"])), at(3)));
    let a1 = members_of(r.handle(Operation::ListGroupMembers(a.id), at(4)));
    assert_eq!(r.handle(Operation::DeleteGroup(a.id), at(5)), Ok(Response::NoContent));
    assert_eq!(
        r.handle(Operation::DeleteGroup(a.id), at(6)),
        Err(AppError::NotFound(format!("Group with ID {} not found", a.id)))
    );
    assert_eq!(
        r.handle(Operation::DeleteMember(a1[0].id), at(7)),
        Err(AppError::NotFound(format!("Member with ID {} not found", a1[0].id)))
    );
    assert_eq!(names(&members_of(r.handle(Operation::ListGroupMembers(b.id), at(8)))), vec!["b1"]);
    assert!(r.handle(Operation::GetEvent(e.id.clone()), at(9)).is_ok());
}

#[test]
fn delete_member_removes_one_row() {
    let mut r = Registry::new();
    let e = event_of(r.handle(Operation::create_event(hackathon()), at(1)));
    let g = group_of(r.handle(Operation::CreateGroup(new_group(&e.id, "g", true, &["x", "y"])), at(2)));
    let members = members_of(r.handle(Operation::ListGroupMembers(g.id), at(3)));
    assert_eq!(r.handle(Operation::DeleteMember(members[0].id), at(4)), Ok(Response::NoContent));
    assert_eq!(names(&members_of(r.handle(Operation::ListGroupMembers(g.id), at(5)))), vec!["y"]);
    member_of(r.handle(add(g.id, "z"), at(6)));
    assert_eq!(
        names(&members_of(r.handle(Operation::ListGroupMembers(g.id), at(7)))),
        vec!["y", "z"]
    );
}

#[test]
fn roster_of_an_event_attaches_members_to_each_group() {
    let mut r = Registry::new();
    let e = event_of(r.handle(Operation::create_event(hackathon()), at(1)));
    let other = event_of(r.handle(Operation::create_event(hackathon()), at(1)));
    let a = group_of(r.handle(Operation::CreateGroup(new_group(&e.id, "a", true, &["a1"])), at(10)));
    let b = group_of(r.handle(Operation::CreateGroup(new_group(&e.id, "b", true, &[])), at(20)));
    group_of(r.handle(Operation::CreateGroup(new_group(&other.id, "x", true, &["x1"])), at(30)));
    member_of(r.handle(add(a.id, "a2"), at(40)));
    let roster = match r.handle(Operation::ListEventGroups(e.id.clone()), at(50)) {
        Ok(Response::GroupsWithMembers(roster)) => roster,
        other => panic!("expected a roster, got {:?}", other),
    };
    assert_eq!(roster.len(), 2);
    assert_eq!(roster[0].group, b);
    assert!(roster[0].members.is_empty());
    assert_eq!(roster[1].group, a);
    assert_eq!(names(&roster[1].members), vec!["a1", "a2"]);

    let empty = event_of(r.handle(Operation::create_event(hackathon()), at(60)));
    assert_eq!(
        r.handle(Operation::ListEventGroups(empty.id.clone()), at(61)),
        Ok(Response::GroupsWithMembers(vec![]))
    );
    assert_eq!(
        r.handle(Operation::ListEventGroups("ghost".to_string()), at(62)),
        Err(AppError::NotFound("Event with ID ghost not found".to_string()))
    );
}

#[test]
fn a_member_whose_event_is_gone_is_a_database_error() {
    let mut store = MemoryStore::new();
    let reply = store.execute(
        Statement::InsertGroup {
            event_id: "vanished".to_string(),
            fields: GroupFields {
                creator_name: "c".to_string(),
                creator_email: "c@x".to_string(),
                group_name: "orphan".to_string(),
                accepts_others: true,
                project_description: None,
            },
        },
        at(1),
    );
    let orphan = match reply {
        Reply::Group(Some(g)) => g,
        other => panic!("expected a group, got {:?}", other),
    };
    let outcome = serve(&mut store, add(orphan.id, "nobody"), at(2)).unwrap_err();
    assert_eq!(outcome.status_code(), 500);
    assert!(matches!(outcome, AppError::Database(_)));
    assert_eq!(
        serve(&mut store, Operation::ListGroupMembers(orphan.id), at(3)),
        Ok(Response::Members(vec![]))
    );
}

#[test]
fn an_event_with_a_negative_limit_is_refused_and_not_stored() {
    let mut r = Registry::new();
    let mut bad = hackathon();
    bad.group_size_limit = -1;
    let refused = r.handle(Operation::create_event(bad), at(1)).unwrap_err();
    assert_eq!(refused.status_code(), 422);
    assert_eq!(
        refused,
        AppError::ValidationError("group_size_limit must not be negative".to_string())
    );
    assert!(events_of(r.handle(Operation::ListEvents(Pagination::default()), at(2))).is_empty());
    let mut lowest = hackathon();
    lowest.group_size_limit = i64::MIN;
    assert!(matches!(
        r.handle(Operation::create_event(lowest), at(3)),
        Err(AppError::ValidationError(_))
    ));
    let mut zero = hackathon();
    zero.group_size_limit = 0;
    assert_eq!(event_of(r.handle(Operation::create_event(zero), at(4))).group_size_limit, 0);
}

#[test]
fn an_update_to_a_negative_limit_is_refused_and_changes_nothing() {
    let mut r = Registry::new();
    let e = event_of(r.handle(Operation::create_event(hackathon()), at(1)));
    let mut bad = hackathon();
    bad.group_size_limit = -5;
    bad.name = "changed".to_string();
    assert_eq!(
        r.handle(Operation::UpdateEvent(e.id.clone(), bad), at(2)),
        Err(AppError::ValidationError("group_size_limit must not be negative".to_string()))
    );
    let listed = events_of(r.handle(Operation::ListEvents(Pagination::default()), at(3)));
    assert_eq!(listed, vec![e]);
    let mut ghost = hackathon();
    ghost.group_size_limit = -5;
    assert!(matches!(
        r.handle(Operation::UpdateEvent("ghost".to_string(), ghost), at(4)),
        Err(AppError::ValidationError(_))
    ));
}

#[test]
fn an_empty_registry_stores_the_first_event() {
    let mut r = Registry::new();
    let e = r.create_event(hackathon(), at(1)).unwrap();
    assert_eq!(e.name, "Hackathon");
    assert_eq!(e.date_time, NEW_YEAR_2025);
    assert_eq!(e.group_size_limit, 2);
    assert_eq!(e.location, "Hall A");
    assert!(!e.id.is_empty());
    assert_eq!(r.list_events(Pagination::default()).unwrap(), vec![e]);
    let mut bad = hackathon();
    bad.group_size_limit = -1;
    assert!(matches!(r.create_event(bad, at(2)), Err(AppError::ValidationError(_))));
    assert_eq!(r.list_events(Pagination::default()).unwrap().len(), 1);
}
