use event_groups::ids::new_event_id;
use event_groups::model::{CreateEventRequest, Timestamp};
use event_groups::protocol::Operation;

#[test]
fn event_ids_are_random_uuids() {
    let id = new_event_id();
    assert_eq!(id.len(), 36);
    let parsed = uuid::Uuid::parse_str(&id).unwrap();
    assert_eq!(parsed.get_version_num(), 4);
    assert_eq!(parsed.to_string(), id);
    for (i, c) in id.chars().enumerate() {
        if i == 8 || i == 13 || i == 18 || i == 23 {
            assert_eq!(c, '-');
        } else {
            assert!(c.is_ascii_digit() || ('a'..='f').contains(&c));
        }
    }
    assert_eq!(id.chars().nth(14), Some('4'));
    assert!(matches!(id.chars().nth(19), Some('8') | Some('9') | Some('a') | Some('b')));
}

#[test]
fn event_ids_differ_from_call_to_call() {
    assert_ne!(new_event_id(), new_event_id());
}

#[test]
fn create_event_operation_keeps_the_fields_and_draws_an_id() {
    let fields = CreateEventRequest {
        name: "Hackathon".to_string(),
        date_time: Timestamp { secs: 1_735_689_600, nanos: 0 },
        group_size_limit: 2,
        location: "Hall A".to_string(),
    };
    match Operation::create_event(fields.clone()) {
        Operation::CreateEvent { id, fields: kept } => {
            assert_eq!(kept, fields);
            assert!(uuid::Uuid::parse_str(&id).is_ok());
        }
        other => panic!("unexpected operation {:?}", other),
    }
}
