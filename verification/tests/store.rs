use event_groups::engine::{serve, serve_with_fault};
use event_groups::error::AppError;
use event_groups::memory::MemoryStore;
use event_groups::model::{
    CreateEventRequest, CreateGroupRequest, Event, GroupMember, MembersForCreateGroupRequest,
    Timestamp,
};
use event_groups::protocol::{Action, GroupFields, Operation, Reply, Response, Statement};
use event_groups::workflow::Workflow;

fn stamp(secs: i64, nanos: u32) -> Timestamp {
    Timestamp { secs, nanos }
}

fn event_fields(name: &str, date: Timestamp) -> CreateEventRequest {
    CreateEventRequest {
        name: name.to_string(),
        date_time: date,
        group_size_limit: 4,
        location: "here".to_string(),
    }
}

fn group_fields(name: &str) -> GroupFields {
    GroupFields {
        creator_name: "c".to_string(),
        creator_email: "c@x".to_string(),
        group_name: name.to_string(),
        accepts_others: true,
        project_description: None,
    }
}

fn wanted(name: &str) -> MembersForCreateGroupRequest {
    MembersForCreateGroupRequest { name: name.to_string(), email: None }
}

fn insert_event(store: &mut MemoryStore, id: &str, date: Timestamp) -> Event {
    match store.execute(
        Statement::InsertEvent { id: id.to_string(), fields: event_fields(id, date) },
        stamp(0, 0),
    ) {
        Reply::Event(Some(e)) => e,
        other => panic!("unexpected {:?}", other),
    }
}

fn insert_group(store: &mut MemoryStore, event_id: &str, name: &str, now: Timestamp) -> i64 {
    match store.execute(
        Statement::InsertGroup { event_id: event_id.to_string(), fields: group_fields(name) },
        now,
    ) {
        Reply::Group(Some(g)) => g.id,
        other => panic!("unexpected {:?}", other),
    }
}

fn insert_member(store: &mut MemoryStore, group_id: i64, name: &str) -> GroupMember {
    match store.execute(Statement::InsertMember { group_id, member: wanted(name) }, stamp(0, 0)) {
        Reply::Member(m) => m,
        other => panic!("unexpected {:?}", other),
    }
}

fn event_ids(store: &mut MemoryStore, limit: i64, offset: i64) -> Vec<String> {
    match store.execute(Statement::ListEvents { limit, offset }, stamp(0, 0)) {
        Reply::Events(es) => es.into_iter().map(|e| e.id).collect(),
        other => panic!("unexpected {:?}", other),
    }
}

fn member_names(store: &mut MemoryStore, group_id: i64) -> Vec<String> {
    match store.execute(Statement::SelectMembersOfGroup { group_id }, stamp(0, 0)) {
        Reply::Members(ms) => ms.into_iter().map(|m| m.name).collect(),
        other => panic!("unexpected {:?}", other),
    }
}

#[test]
fn a_new_store_is_empty() {
    let mut store = MemoryStore::new();
    assert_eq!(store.execute(Statement::ListEvents { limit: -1, offset: 0 }, stamp(0, 0)), Reply::Events(vec![]));
    assert_eq!(store.execute(Statement::ListGroups { limit: -1, offset: 0 }, stamp(0, 0)), Reply::Groups(vec![]));
    assert_eq!(store.execute(Statement::EventExists { id: "x".to_string() }, stamp(0, 0)), Reply::Flag(false));
    assert_eq!(store.execute(Statement::GroupExists { id: 1 }, stamp(0, 0)), Reply::Flag(false));
    assert_eq!(store.execute(Statement::MemberExists { id: 1 }, stamp(0, 0)), Reply::Flag(false));
    assert_eq!(store.execute(Statement::CountMembersOfGroup { group_id: 1 }, stamp(0, 0)), Reply::Count(0));
}

#[test]
fn events_keep_the_order_of_their_dates_down_to_the_nanosecond() {
    let mut store = MemoryStore::new();
    insert_event(&mut store, "b", stamp(10, 5));
    insert_event(&mut store, "d", stamp(9, 999_999_999));
    insert_event(&mut store, "a", stamp(10, 6));
    insert_event(&mut store, "c", stamp(10, 4));
    insert_event(&mut store, "e", stamp(-3, 0));
    assert_eq!(event_ids(&mut store, -1, 0), vec!["a", "b", "c", "d", "e"]);
}

#[test]
fn windows_follow_limit_and_offset() {
    let mut store = MemoryStore::new();
    for (i, id) in ["a", "b", "c", "d"].iter().enumerate() {
        insert_event(&mut store, id, stamp(100 - i as i64, 0));
    }
    assert_eq!(event_ids(&mut store, 2, 1), vec!["b", "c"]);
    assert_eq!(event_ids(&mut store, 10, 3), vec!["d"]);
    assert_eq!(event_ids(&mut store, 10, 4), Vec::<String>::new());
    assert_eq!(event_ids(&mut store, 10, 40), Vec::<String>::new());
    assert_eq!(event_ids(&mut store, 0, 0), Vec::<String>::new());
    assert_eq!(event_ids(&mut store, -1, 2), vec!["c", "d"]);
    assert_eq!(event_ids(&mut store, 3, -5), vec!["a", "b", "c"]);
    assert_eq!(event_ids(&mut store, i64::MAX, i64::MAX), Vec::<String>::new());
}

#[test]
fn inserted_rows_get_fresh_ids_and_the_time_of_their_creation() {
    let mut store = MemoryStore::new();
    let e = match store.execute(
        Statement::InsertEvent { id: "e".to_string(), fields: event_fields("E", stamp(50, 0)) },
        stamp(7, 8),
    ) {
        Reply::Event(Some(e)) => e,
        other => panic!("unexpected {:?}", other),
    };
    assert_eq!(
        e,
        Event {
            id: "e".to_string(),
            name: "E".to_string(),
            date_time: stamp(50, 0),
            group_size_limit: 4,
            location: "here".to_string(),
            created_at: Some(stamp(7, 8)),
        }
    );
    let g1 = insert_group(&mut store, "e", "one", stamp(1, 0));
    let g2 = insert_group(&mut store, "e", "two", stamp(2, 0));
    assert_eq!((g1, g2), (1, 2));
    let m1 = insert_member(&mut store, g1, "x");
    let m2 = insert_member(&mut store, g2, "y");
    assert_eq!(m1, GroupMember { id: 1, group_id: 1, name: "x".to_string(), email: None });
    assert_eq!(m2.id, 2);
    assert_eq!(store.execute(Statement::DeleteMember { id: 2 }, stamp(0, 0)), Reply::Done);
    assert_eq!(insert_member(&mut store, g2, "z").id, 3);
}

#[test]
fn statements_select_count_and_delete_by_owner() {
    let mut store = MemoryStore::new();
    insert_event(&mut store, "e1", stamp(1, 0));
    insert_event(&mut store, "e2", stamp(2, 0));
    let a = insert_group(&mut store, "e1", "a", stamp(1, 0));
    let b = insert_group(&mut store, "e1", "b", stamp(2, 0));
    let c = insert_group(&mut store, "e2", "c", stamp(3, 0));
    insert_member(&mut store, a, "a1");
    insert_member(&mut store, c, "c1");
    insert_member(&mut store, a, "a2");
    insert_member(&mut store, b, "b1");
    assert_eq!(store.execute(Statement::CountMembersOfGroup { group_id: a }, stamp(0, 0)), Reply::Count(2));
    assert_eq!(member_names(&mut store, a), vec!["a1", "a2"]);
    let under_e1 = match store.execute(Statement::SelectMembersOfEvent { event_id: "e1".to_string() }, stamp(0, 0)) {
        Reply::Members(ms) => ms.into_iter().map(|m| m.name).collect::<Vec<String>>(),
        other => panic!("unexpected {:?}", other),
    };
    assert_eq!(under_e1, vec!["a1", "a2", "b1"]);
    let of_e1 = match store.execute(Statement::SelectGroupsOfEvent { event_id: "e1".to_string() }, stamp(0, 0)) {
        Reply::Groups(gs) => gs.into_iter().map(|g| g.id).collect::<Vec<i64>>(),
        other => panic!("unexpected {:?}", other),
    };
    assert_eq!(of_e1, vec![b, a]);

    assert_eq!(store.execute(Statement::DeleteMembersOfEvent { event_id: "e1".to_string() }, stamp(0, 0)), Reply::Done);
    assert_eq!(member_names(&mut store, a), Vec::<String>::new());
    assert_eq!(member_names(&mut store, b), Vec::<String>::new());
    assert_eq!(member_names(&mut store, c), vec!["c1"]);
    assert_eq!(store.execute(Statement::DeleteGroupsOfEvent { event_id: "e1".to_string() }, stamp(0, 0)), Reply::Done);
    assert_eq!(store.execute(Statement::GroupExists { id: a }, stamp(0, 0)), Reply::Flag(false));
    assert_eq!(store.execute(Statement::GroupExists { id: c }, stamp(0, 0)), Reply::Flag(true));
    assert_eq!(store.execute(Statement::DeleteEvent { id: "e1".to_string() }, stamp(0, 0)), Reply::Done);
    assert_eq!(store.execute(Statement::SelectEvent { id: "e1".to_string() }, stamp(0, 0)), Reply::Event(None));
    assert_eq!(event_ids(&mut store, -1, 0), vec!["e2"]);
}

#[test]
fn update_group_changes_the_settable_fields_only() {
    let mut store = MemoryStore::new();
    let id = insert_group(&mut store, "e", "before", stamp(4, 0));
    let changed = GroupFields {
        creator_name: "new c".to_string(),
        creator_email: "new@x".to_string(),
        group_name: "after".to_string(),
        accepts_others: false,
        project_description: Some("d".to_string()),
    };
    let row = match store.execute(Statement::UpdateGroup { id, fields: changed }, stamp(99, 0)) {
        Reply::Group(Some(g)) => g,
        other => panic!("unexpected {:?}", other),
    };
    assert_eq!(row.id, id);
    assert_eq!(row.event_id, "e");
    assert_eq!(row.created_at, Some(stamp(4, 0)));
    assert_eq!(row.group_name, "after");
    assert!(!row.accepts_others);
    assert_eq!(store.execute(Statement::SelectGroup { id }, stamp(0, 0)), Reply::Group(Some(row)));
    assert_eq!(
        store.execute(Statement::UpdateGroup { id: id + 1, fields: group_fields("x") }, stamp(0, 0)),
        Reply::Group(None)
    );
}

#[test]
fn transactions_commit_or_roll_back() {
    let mut store = MemoryStore::new();
    insert_event(&mut store, "kept", stamp(1, 0));
    assert_eq!(store.execute(Statement::Commit, stamp(0, 0)), Reply::Failed("no transaction is open".to_string()));
    assert_eq!(store.execute(Statement::Begin, stamp(0, 0)), Reply::Done);
    assert_eq!(
        store.execute(Statement::Begin, stamp(0, 0)),
        Reply::Failed("a transaction is open already".to_string())
    );
    insert_event(&mut store, "dropped", stamp(2, 0));
    let g = insert_group(&mut store, "dropped", "g", stamp(3, 0));
    insert_member(&mut store, g, "m");
    assert_eq!(event_ids(&mut store, -1, 0), vec!["dropped", "kept"]);
    store.settle();
    assert_eq!(event_ids(&mut store, -1, 0), vec!["kept"]);
    assert_eq!(store.execute(Statement::GroupExists { id: g }, stamp(0, 0)), Reply::Flag(false));
    assert_eq!(insert_group(&mut store, "kept", "again", stamp(4, 0)), g);

    assert_eq!(store.execute(Statement::Begin, stamp(0, 0)), Reply::Done);
    insert_event(&mut store, "stays", stamp(5, 0));
    assert_eq!(store.execute(Statement::Commit, stamp(0, 0)), Reply::Done);
    store.settle();
    assert_eq!(event_ids(&mut store, -1, 0), vec!["stays", "kept"]);
}

#[test]
fn a_failure_in_the_middle_of_create_group_leaves_nothing_behind() {
    let mut store = MemoryStore::new();
    insert_event(&mut store, "e", stamp(1, 0));
    let request = CreateGroupRequest {
        event_id: "e".to_string(),
        creator_name: "c".to_string(),
        creator_email: "c@x".to_string(),
        group_name: "g".to_string(),
        accepts_others: true,
        project_description: None,
        members: vec![wanted("a"), wanted("b"), wanted("c")],
    };
    let (mut workflow, mut action) = Workflow::start(Operation::CreateGroup(request));
    let mut inserts = 0;
    let outcome = loop {
        match action {
            Action::Finish(outcome) => {
                store.settle();
                break outcome;
            }
            Action::Run(statement) => {
                let is_insert = matches!(statement, Statement::InsertMember { .. });
                let reply = if is_insert && inserts == 2 {
                    Reply::Failed("constraint violated".to_string())
                } else {
                    store.execute(statement, stamp(9, 0))
                };
                if is_insert {
                    inserts += 1;
                }
                let (next, then) = workflow.step(reply);
                workflow = next;
                action = then;
            }
        }
    };
    assert_eq!(outcome, Err(AppError::Database("constraint violated".to_string())));
    assert_eq!(store.execute(Statement::ListGroups { limit: -1, offset: 0 }, stamp(0, 0)), Reply::Groups(vec![]));
    assert_eq!(store.execute(Statement::MemberExists { id: 1 }, stamp(0, 0)), Reply::Flag(false));
    assert_eq!(store.execute(Statement::MemberExists { id: 2 }, stamp(0, 0)), Reply::Flag(false));
    assert_eq!(event_ids(&mut store, -1, 0), vec!["e"]);
}

#[test]
fn serve_runs_an_operation_to_its_end() {
    let mut store = MemoryStore::new();
    insert_event(&mut store, "e", stamp(1, 0));
    let g = insert_group(&mut store, "e", "g", stamp(2, 0));
    insert_member(&mut store, g, "m");
    assert_eq!(serve(&mut store, Operation::DeleteEvent("e".to_string()), stamp(3, 0)), Ok(Response::NoContent));
    assert_eq!(store.execute(Statement::Begin, stamp(0, 0)), Reply::Done);
    store.settle();
    assert_eq!(store.execute(Statement::MemberExists { id: 1 }, stamp(0, 0)), Reply::Flag(false));
    assert_eq!(
        serve(&mut store, Operation::DeleteEvent("e".to_string()), stamp(4, 0)),
        Err(AppError::NotFound("Event with ID e not found".to_string()))
    );
    assert_eq!(store.execute(Statement::Begin, stamp(0, 0)), Reply::Done);
}

#[test]
fn a_failure_at_any_statement_of_update_group_changes_nothing() {
    let request = || event_groups::model::UpdateGroupRequest {
        creator_name: "n".to_string(),
        creator_email: "n@x".to_string(),
        group_name: "renamed".to_string(),
        accepts_others: false,
        project_description: None,
        members: vec![wanted("p"), wanted("q")],
    };
    for fault_at in 0..7 {
        let mut store = MemoryStore::new();
        insert_event(&mut store, "e", stamp(1, 0));
        let g = insert_group(&mut store, "e", "g", stamp(2, 0));
        insert_member(&mut store, g, "old");
        let outcome = serve_with_fault(
            &mut store,
            Operation::UpdateGroup(g, request()),
            stamp(3, 0),
            fault_at,
            "lost connection".to_string(),
        );
        assert_eq!(outcome, Err(AppError::Database("lost connection".to_string())));
        assert_eq!(member_names(&mut store, g), vec!["old"]);
        match store.execute(Statement::SelectGroup { id: g }, stamp(0, 0)) {
            Reply::Group(Some(row)) => assert_eq!(row.group_name, "g"),
            other => panic!("unexpected {:?}", other),
        }
        assert_eq!(insert_member(&mut store, g, "next").id, 2);
    }
    let mut store = MemoryStore::new();
    insert_event(&mut store, "e", stamp(1, 0));
    let g = insert_group(&mut store, "e", "g", stamp(2, 0));
    insert_member(&mut store, g, "old");
    let outcome = serve_with_fault(
        &mut store,
        Operation::UpdateGroup(g, request()),
        stamp(3, 0),
        7,
        "never reached".to_string(),
    );
    assert!(outcome.is_ok());
    assert_eq!(member_names(&mut store, g), vec!["p", "q"]);
}

#[test]
fn a_failure_before_the_only_write_of_delete_member_changes_nothing() {
    for fault_at in 0..2 {
        let mut store = MemoryStore::new();
        let m = insert_member(&mut store, 1, "m");
        let outcome = serve_with_fault(
            &mut store,
            Operation::DeleteMember(m.id),
            stamp(0, 0),
            fault_at,
            "busy".to_string(),
        );
        assert_eq!(outcome, Err(AppError::Database("busy".to_string())));
        assert_eq!(store.execute(Statement::MemberExists { id: m.id }, stamp(0, 0)), Reply::Flag(true));
    }
}

#[test]
fn the_store_refuses_events_with_a_negative_limit() {
    let mut store = MemoryStore::new();
    insert_event(&mut store, "e", stamp(1, 0));
    let mut bad = event_fields("bad", stamp(2, 0));
    bad.group_size_limit = -1;
    assert_eq!(
        store.execute(Statement::InsertEvent { id: "f".to_string(), fields: bad.clone() }, stamp(0, 0)),
        Reply::Failed("group_size_limit must not be negative".to_string())
    );
    assert_eq!(
        store.execute(Statement::UpdateEvent { id: "e".to_string(), fields: bad }, stamp(0, 0)),
        Reply::Failed("group_size_limit must not be negative".to_string())
    );
    assert_eq!(event_ids(&mut store, -1, 0), vec!["e"]);
    match store.execute(Statement::SelectEvent { id: "e".to_string() }, stamp(0, 0)) {
        Reply::Event(Some(row)) => assert_eq!(row.group_size_limit, 4),
        other => panic!("unexpected {:?}", other),
    }
}
