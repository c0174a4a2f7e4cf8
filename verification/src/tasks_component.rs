use vstd::prelude::*;

use crate::subjects::Subjects;
use crate::task::{Task, TaskView};

verus! {

/// What a pupil's set of published tasks is.
pub struct TasksComponentView {
    pub tasks: Seq<TaskView>,
    pub owner: Seq<char>,
}

/// The tasks that a pupil has published.
pub struct TasksComponent {
    tasks: Vec<Task>,
    owner_username: String,
}

/// The views of a sequence of tasks.
pub open spec fn task_views(s: Seq<Task>) -> Seq<TaskView> {
    s.map_values(|t: Task| t@)
}

/// Whether a task is of `subject`.
pub open spec fn of_subject(subject: Subjects) -> spec_fn(TaskView) -> bool {
    |t: TaskView| t.subject == subject
}

/// Listing a subject's tasks keeps exactly the tasks of that subject: every
/// listed task has it, every task that has it is listed, in the order in
/// which they are kept, and nothing else is.
pub proof fn lemma_tasks_of_subject(all: Seq<TaskView>, subject: Subjects)
    ensures
        all.filter(of_subject(subject)) == all.filter(|t: TaskView| t.subject == subject),
        forall|i: int|
            0 <= i < all.filter(of_subject(subject)).len() ==> (#[trigger] all.filter(
                of_subject(subject),
            )[i]).subject == subject,
        forall|i: int|
            0 <= i < all.len() && #[trigger] all[i].subject == subject ==> all.filter(
                of_subject(subject),
            ).contains(all[i]),
{
    let f = |t: TaskView| t.subject == subject;
    assert(of_subject(subject) =~= f);
    assert forall|i: int| 0 <= i < all.filter(f).len() implies (#[trigger] all.filter(f)[i]).subject
        == subject by {
        all.lemma_filter_pred(f, i);
    }
    assert forall|i: int| 0 <= i < all.len() && #[trigger] all[i].subject == subject implies all.filter(
        f,
    ).contains(all[i]) by {
        all.lemma_filter_contains(f, i);
    }
}

impl View for TasksComponent {
    type V = TasksComponentView;

    closed spec fn view(&self) -> TasksComponentView {
        TasksComponentView { tasks: task_views(self.tasks@), owner: self.owner_username@ }
    }
}

/// A copy of `v` whose items have the same views.
fn clone_tasks(v: &Vec<Task>) -> (r: Vec<Task>)
    ensures
        task_views(r@) == task_views(v@),
{
    let mut r: Vec<Task> = Vec::new();
    let n = v.len();
    let mut i: usize = 0;
    while i < n
        invariant
            n == v@.len(),
            i <= n,
            r@.len() == i,
            forall|j: int| 0 <= j < i ==> r@[j]@ == v@[j]@,
        decreases n - i,
    {
        r.push(v[i].clone());
        i = i + 1;
    }
    assert(task_views(r@) =~= task_views(v@));
    r
}

impl Clone for TasksComponent {
    fn clone(&self) -> (r: Self)
        ensures
            r@ == self@,
    {
        TasksComponent { tasks: clone_tasks(&self.tasks), owner_username: self.owner_username.clone() }
    }
}

impl TasksComponent {
    /// The published tasks `tasks` of the pupil `owner_username`.
    pub fn new(owner_username: String, tasks: Vec<Task>) -> (r: TasksComponent)
        ensures
            r@ == (TasksComponentView { tasks: task_views(tasks@), owner: owner_username@ }),
    {
        TasksComponent { tasks, owner_username }
    }

    /// The username of the tasks' owner.
    pub fn owner_username(&self) -> (r: String)
        ensures
            r@ == self@.owner,
    {
        self.owner_username.clone()
    }

    /// Every published task.
    pub fn all_tasks(&self) -> (r: Vec<Task>)
        ensures
            task_views(r@) == self@.tasks,
    {
        clone_tasks(&self.tasks)
    }

    /// Replaces the published tasks by those read afresh.
    pub fn refresh(&mut self, tasks: Vec<Task>)
        ensures
            final(self)@ == (TasksComponentView { tasks: task_views(tasks@), ..old(self)@ }),
    {
        self.tasks = tasks;
    }

    /// The published tasks of `subjects`, in the order in which they are kept.
    pub fn tasks(&self, subjects: Subjects) -> (r: Vec<Task>)
        ensures
            task_views(r@) == self@.tasks.filter(of_subject(subjects)),
    {
        let ghost all = self@.tasks;
        let mut r: Vec<Task> = Vec::new();
        let n = self.tasks.len();
        let mut i: usize = 0;
        while i < n
            invariant
                n == all.len(),
                all == task_views(self.tasks@),
                i <= n,
                task_views(r@) == all.take(i as int).filter(of_subject(subjects)),
            decreases n - i,
        {
            let ghost before = r@;
            proof {
                reveal_with_fuel(Seq::<_>::filter, 1);
                assert(all.take(i + 1).drop_last() =~= all.take(i as int));
                assert(all.take(i + 1).last() == self.tasks@[i as int]@);
            }
            if self.tasks[i].subject() == subjects {
                r.push(self.tasks[i].clone());
                assert(task_views(r@) =~= task_views(before).push(self.tasks@[i as int]@));
            }
            i = i + 1;
        }
        assert(all.take(n as int) =~= all);
        r
    }
}

} // verus!
