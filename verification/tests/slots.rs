use school_tasks::dto::LocationData;
use school_tasks::slot::Slot;
use school_tasks::slots_component::{slot_exists, SlotAction, SlotsComponent};
use school_tasks::subjects::Subjects;
use school_tasks::task::Task;
use school_tasks::tasks_component::TasksComponent;
use school_tasks::transaction::Transaction;
use school_tasks::user::User;

fn transaction(id: &str) -> Transaction {
    Transaction::new(
        id.to_string(),
        "slot-1".to_string(),
        "bob".to_string(),
        "solve 5 problems".to_string(),
        10,
        false,
        (3600, 0),
        738000,
        None,
        None,
    )
}

fn slot(id: &str, subject: Subjects, limit: Option<i32>, pending: usize) -> Slot {
    let pending = (0..pending).map(|i| transaction(&format!("t{}", i))).collect();
    Slot::new(id.to_string(), "ali".to_string(), subject, limit, pending)
}

fn task(id: &str, owner: &str, subject: Subjects, secs: i64) -> Task {
    Task::new(id.to_string(), owner.to_string(), "do it".to_string(), 7, subject, (secs, 0), (secs + 100, 0))
}

fn user(name: &str, tasks: Vec<Task>) -> User {
    User::new(
        name.to_string(),
        "password1".to_string(),
        "First".to_string(),
        "Last".to_string(),
        5,
        3,
        format!("{}@example.com", name),
        SlotsComponent::new(name.to_string(), vec![]),
        vec![],
        TasksComponent::new(name.to_string(), tasks),
        LocationData { country: "UZ".to_string(), city: "Tashkent".to_string() },
    )
}

#[test]
fn slot_without_limit_always_allows() {
    assert!(slot("s", Subjects::Math, None, 0).can_allow_transaction());
    assert!(slot("s", Subjects::Math, None, 50).can_allow_transaction());
}

#[test]
fn slot_limit_counts_pending() {
    assert!(slot("s", Subjects::Math, Some(2), 1).can_allow_transaction());
    assert!(!slot("s", Subjects::Math, Some(2), 2).can_allow_transaction());
    assert!(!slot("s", Subjects::Math, Some(0), 0).can_allow_transaction());
    assert!(!slot("s", Subjects::Math, Some(-1), 0).can_allow_transaction());
}

#[test]
fn slot_accepts_only_its_subject_with_room() {
    let t = task("k", "bob", Subjects::Math, 1);
    assert_eq!(slot("s", Subjects::Math, Some(1), 0).accept_task(&t), Ok(()));
    assert_eq!(slot("s", Subjects::Physics, Some(1), 0).accept_task(&t), Err(()));
    assert_eq!(slot("s", Subjects::Math, Some(1), 1).accept_task(&t), Err(()));
}

#[test]
fn slot_deactivation_needs_no_pending() {
    let empty = slot("s", Subjects::Math, None, 0);
    assert!(empty.can_be_deactivated());
    assert_eq!(empty.deactivate(), Ok(()));
    let busy = slot("s", Subjects::Math, None, 1);
    assert!(!busy.can_be_deactivated());
    assert_eq!(busy.deactivate(), Err(()));
}

#[test]
fn slot_update_and_refresh() {
    let mut s = slot("s", Subjects::Biology, Some(3), 2);
    assert_eq!(s.limit(), Some(3));
    s.update_limit(None);
    assert_eq!(s.limit(), None);
    assert_eq!(s.subject(), Subjects::Biology);
    assert_eq!(s.pending_transactions().len(), 2);
    s.refresh(vec![]);
    assert_eq!(s.pending_transactions().len(), 0);
    assert_eq!(s.id(), "s");
    assert_eq!(s.owner_username(), "ali");
}

#[test]
fn first_slot_of_subject_is_found() {
    let comp = SlotsComponent::new(
        "ali".to_string(),
        vec![
            slot("a", Subjects::Math, None, 0),
            slot("b", Subjects::Physics, None, 0),
            slot("c", Subjects::Physics, None, 0),
        ],
    );
    assert_eq!(comp.get_slot(Subjects::Physics).map(|s| s.id()), Some("b".to_string()));
    assert!(comp.get_slot(Subjects::Chemistry).is_none());
    assert!(comp.is_slot_active(Subjects::Math));
    assert!(!comp.is_slot_active(Subjects::Chemistry));
    assert_eq!(comp.slots().len(), 3);
    assert_eq!(comp.owner_username(), "ali");
}

#[test]
fn get_slot_agrees_with_is_slot_active() {
    let comp = SlotsComponent::new("ali".to_string(), vec![slot("a", Subjects::Math, None, 0)]);
    for s in [Subjects::Math, Subjects::Economy] {
        assert_eq!(comp.get_slot(s).is_some(), comp.is_slot_active(s));
    }
}

#[test]
fn opening_a_slot() {
    let comp = SlotsComponent::new("ali".to_string(), vec![slot("a", Subjects::Math, None, 0)]);
    assert_eq!(comp.add_slot(Subjects::Math, true), Err(()));
    assert_eq!(comp.add_slot(Subjects::Math, false), Err(()));
    assert_eq!(comp.add_slot(Subjects::Geometry, true), Ok(SlotAction::Activate));
    assert_eq!(comp.add_slot(Subjects::Geometry, false), Ok(SlotAction::Create));
}

#[test]
fn closing_a_slot() {
    let comp = SlotsComponent::new(
        "ali".to_string(),
        vec![slot("a", Subjects::Math, None, 0), slot("b", Subjects::Physics, None, 1)],
    );
    assert_eq!(comp.remove_slot(Subjects::Math).map(|s| s.id()), Ok("a".to_string()));
    assert!(comp.remove_slot(Subjects::Physics).is_err());
    assert!(comp.remove_slot(Subjects::Literature).is_err());
}

#[test]
fn taking_a_task_on() {
    let comp = SlotsComponent::new(
        "ali".to_string(),
        vec![slot("a", Subjects::Math, Some(1), 0), slot("b", Subjects::Physics, Some(1), 1)],
    );
    let math = task("k1", "bob", Subjects::Math, 1);
    let physics = task("k2", "bob", Subjects::Physics, 1);
    let chemistry = task("k3", "bob", Subjects::Chemistry, 1);
    assert_eq!(comp.accept_task(&math).map(|s| s.id()), Ok("a".to_string()));
    assert_eq!(comp.accept_task(&physics).err(), Some("Task  can't be allowed".to_string()));
    assert_eq!(comp.accept_task(&chemistry).err(), Some("Slot doesn't exists".to_string()));
}

#[test]
fn registration_outcomes() {
    let ok = SlotsComponent::registration_outcome(Ok(transaction("t9")));
    assert_eq!(ok.map(|t| t.id()), Ok("t9".to_string()));
    let failed = SlotsComponent::registration_outcome(Err(()));
    assert_eq!(failed.err(), Some("Task  can't be allowed".to_string()));
}

#[test]
fn stored_slots_are_found_open_or_closed() {
    let slots = vec![slot("a", Subjects::Math, None, 0), slot("b", Subjects::Drowing, None, 0)];
    assert!(slot_exists(&slots, Subjects::Drowing));
    assert!(!slot_exists(&slots, Subjects::Economy));
    assert!(!slot_exists(&vec![], Subjects::Math));
}

#[test]
fn refreshing_the_component() {
    let mut comp = SlotsComponent::new("ali".to_string(), vec![]);
    assert!(!comp.is_slot_active(Subjects::Math));
    comp.refresh(vec![slot("a", Subjects::Math, None, 0)]);
    assert!(comp.is_slot_active(Subjects::Math));
}

#[test]
fn available_tasks_of_schoolmates() {
    let s = slot("a", Subjects::Math, None, 0);
    let mut users = vec![
        user("bob", vec![task("b1", "bob", Subjects::Math, 5), task("b2", "bob", Subjects::Physics, 1)]),
        user("eve", vec![task("e1", "eve", Subjects::Math, 2), task("e2", "eve", Subjects::Math, 9)]),
    ];
    let found = s.find_availible(&mut users);
    let ids: Vec<String> = found.iter().map(|t| t.id()).collect();
    assert_eq!(ids, vec!["b1", "e1", "e2"]);
    assert_eq!(users.len(), 2);
}
