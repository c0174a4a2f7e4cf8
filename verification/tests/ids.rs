use school_tasks::ids::parse_uuid;
use school_tasks::slot::Slot;
use school_tasks::subjects::Subjects;
use school_tasks::task::Task;
use school_tasks::transaction::Transaction;

const ID: &str = "67e55044-10b1-426f-9247-bb680e5fe0c8";
const VALUE: u128 = 0x67e55044_10b1_426f_9247_bb680e5fe0c8;

#[test]
fn uuid_text_is_parsed() {
    assert_eq!(parse_uuid(ID), Some(VALUE));
    assert_eq!(parse_uuid("67e5504410b1426f9247bb680e5fe0c8"), Some(VALUE));
    assert_eq!(parse_uuid("not a uuid"), None);
    assert_eq!(parse_uuid(""), None);
}

#[test]
fn identifiers_as_uuids() {
    let slot = Slot::new(ID.to_string(), "ali".to_string(), Subjects::Math, None, vec![]);
    assert_eq!(slot.uuid(), VALUE);
    assert_eq!(slot.checked_uuid(), Some(VALUE));
    let bad = Slot::new("slot-1".to_string(), "ali".to_string(), Subjects::Math, None, vec![]);
    assert_eq!(bad.checked_uuid(), None);

    let task = Task::new(ID.to_string(), "bob".to_string(), "t".to_string(), 0, Subjects::Math, (0, 0), (0, 0));
    assert_eq!(task.uuid(), VALUE);
    assert_eq!(task.checked_uuid(), Some(VALUE));

    let tr = Transaction::new(
        ID.to_string(),
        "00000000-0000-0000-0000-000000000001".to_string(),
        "bob".to_string(),
        "t".to_string(),
        0,
        true,
        (0, 0),
        1,
        Some((10, 0)),
        Some(2),
    );
    assert_eq!(tr.uuid(), VALUE);
    assert_eq!(tr.checked_uuid(), Some(VALUE));
    assert_eq!(tr.sender_slot_uuid(), 1);
    assert_eq!(tr.checked_sender_slot_uuid(), Some(1));
    assert!(tr.passed());
    assert_eq!(tr.time_of_ending(), Some((10, 0)));
    assert_eq!(tr.date_of_ending(), Some(2));
    assert_eq!(tr.date_of_rigestration(), 1);
    assert_eq!(tr.time_of_rigestration(), (0, 0));
    assert_eq!(tr.recipient_username(), "bob");
    assert_eq!(tr.sender_slot_id(), "00000000-0000-0000-0000-000000000001");
    assert_eq!(tr.task(), "t");
    assert_eq!(tr.price(), 0);
}
