use school_tasks::ordering::sort_by_publish_time;
use school_tasks::subjects::Subjects;
use school_tasks::task::Task;
use school_tasks::tasks_component::TasksComponent;

fn task(id: &str, subject: Subjects, secs: i64, nanos: u32) -> Task {
    Task::new(id.to_string(), "bob".to_string(), format!("task {}", id), 42, subject, (secs, nanos), (secs + 60, 0))
}

fn ids(v: &[Task]) -> Vec<String> {
    v.iter().map(|t| t.id()).collect()
}

#[test]
fn task_getters() {
    let t = task("x", Subjects::Economy, 100, 5);
    assert_eq!(t.id(), "x");
    assert_eq!(t.owner_username(), "bob");
    assert_eq!(t.task(), "task x");
    assert_eq!(t.price(), 42);
    assert_eq!(t.subject(), Subjects::Economy);
    assert_eq!(t.publish_time(), (100, 5));
    assert_eq!(t.target_finishing_time(), (160, 0));
    assert_eq!(t.clone().id(), "x");
}

#[test]
fn tasks_of_a_subject_keep_their_order() {
    let comp = TasksComponent::new(
        "bob".to_string(),
        vec![
            task("a", Subjects::Math, 1, 0),
            task("b", Subjects::Physics, 2, 0),
            task("c", Subjects::Math, 3, 0),
        ],
    );
    assert_eq!(ids(&comp.tasks(Subjects::Math)), vec!["a", "c"]);
    assert_eq!(ids(&comp.tasks(Subjects::Physics)), vec!["b"]);
    assert!(comp.tasks(Subjects::Biology).is_empty());
    assert_eq!(comp.all_tasks().len(), 3);
    assert_eq!(comp.owner_username(), "bob");
}

#[test]
fn refreshing_tasks() {
    let mut comp = TasksComponent::new("bob".to_string(), vec![]);
    comp.refresh(vec![task("a", Subjects::Math, 1, 0)]);
    assert_eq!(ids(&comp.tasks(Subjects::Math)), vec!["a"]);
}

#[test]
fn sorting_orders_by_publication() {
    let sorted = sort_by_publish_time(vec![
        task("late", Subjects::Math, 30, 0),
        task("early", Subjects::Math, 10, 0),
        task("middle", Subjects::Math, 20, 0),
        task("before", Subjects::Math, -5, 0),
    ]);
    assert_eq!(ids(&sorted), vec!["before", "early", "middle", "late"]);
}

#[test]
fn sorting_uses_nanoseconds() {
    let sorted = sort_by_publish_time(vec![
        task("b", Subjects::Math, 10, 900),
        task("a", Subjects::Math, 10, 100),
        task("c", Subjects::Math, 11, 0),
    ]);
    assert_eq!(ids(&sorted), vec!["a", "b", "c"]);
}

#[test]
fn sorting_is_stable() {
    let sorted = sort_by_publish_time(vec![
        task("x1", Subjects::Math, 5, 0),
        task("y", Subjects::Math, 1, 0),
        task("x2", Subjects::Physics, 5, 0),
        task("x3", Subjects::Biology, 5, 0),
        task("z", Subjects::Math, 9, 0),
    ]);
    assert_eq!(ids(&sorted), vec!["y", "x1", "x2", "x3", "z"]);
}

#[test]
fn sorting_sorted_input_changes_nothing() {
    let once = sort_by_publish_time(vec![
        task("c", Subjects::Math, 3, 0),
        task("a", Subjects::Math, 1, 0),
        task("b", Subjects::Math, 1, 0),
    ]);
    let twice = sort_by_publish_time(once.clone());
    assert_eq!(ids(&once), ids(&twice));
    assert!(sort_by_publish_time(vec![]).is_empty());
}
