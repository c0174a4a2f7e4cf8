use vstd::prelude::*;

use crate::ids::{parse_uuid, uuid_value};

use crate::subjects::Subjects;
use crate::task::{Task, TaskView};
use crate::tasks_component::of_subject;
use crate::user::{User, UserView};
use crate::tasks_component::task_views;
use crate::transaction::{Transaction, TransactionView};

verus! {

/// What a slot is.
pub struct SlotView {
    pub id: Seq<char>,
    pub owner: Seq<char>,
    pub subject: Subjects,
    pub limit: Option<i32>,
    pub pending: Seq<TransactionView>,
}

/// A pupil's offer to do other pupils' tasks in one subject, with an optional
/// limit on the number of tasks taken on at once.
pub struct Slot {
    id: String,
    owner_username: String,
    subject: Subjects,
    limit: Option<i32>,
    pending_transactions: Vec<Transaction>,
}

/// The views of a sequence of transactions.
pub open spec fn transaction_views(s: Seq<Transaction>) -> Seq<TransactionView> {
    s.map_values(|t: Transaction| t@)
}

/// Whether a slot with this limit and this many unfinished transactions
/// takes on one more: without a limit always, otherwise when the count,
/// taken as an `i32`, is below the limit.
pub open spec fn allows_transaction(limit: Option<i32>, pending: nat) -> bool {
    match limit {
        Some(l) => (pending as i32) < l,
        None => true,
    }
}

/// The tasks of `subject` that the accounts `users` published, account by account.
pub open spec fn tasks_of(users: Seq<UserView>, subject: Subjects) -> Seq<TaskView>
    decreases users.len(),
{
    if users.len() == 0 {
        Seq::empty()
    } else {
        tasks_of(users.drop_last(), subject) + users.last().tasks.tasks.filter(of_subject(subject))
    }
}

/// A slot that takes one more task on stays below its limit: where it
/// allows a transaction, the number of unfinished ones is below the limit.
/// Stated for counts that fit in an `i32`, the count being compared as one.
pub proof fn lemma_allowed_below_limit(limit: Option<i32>, pending: nat)
    requires
        allows_transaction(limit, pending),
        pending <= i32::MAX,
    ensures
        limit matches Some(l) ==> pending < l,
{
}

/// A slot without a limit takes on any number of tasks.
pub proof fn lemma_unlimited_allows(pending: nat)
    ensures
        allows_transaction(None, pending),
{
}

/// A slot with a limit takes one more task on exactly when its number of
/// unfinished transactions is below the limit (for counts that fit in an
/// `i32`); a slot without a limit always does.
pub proof fn lemma_allows_exactly_below_limit(limit: Option<i32>, pending: nat)
    requires
        pending <= i32::MAX,
    ensures
        allows_transaction(limit, pending) <==> match limit {
            Some(l) => pending < l,
            None => true,
        },
{
}

/// The tasks a slot could take on are all the schoolmates' published tasks,
/// schoolmate by schoolmate and each in its own order, keeping exactly those
/// whose subject is the slot's subject.
pub proof fn lemma_available_tasks_are_schoolmates_tasks(users: Seq<UserView>, subject: Subjects)
    ensures
        tasks_of(users, subject) == users.map_values(|u: UserView| u.tasks.tasks).flatten().filter(
            |t: TaskView| t.subject == subject,
        ),
    decreases users.len(),
{
    let f = |t: TaskView| t.subject == subject;
    let g = |u: UserView| u.tasks.tasks;
    assert(of_subject(subject) =~= f);
    let all = users.map_values(g);
    all.lemma_flatten_and_flatten_alt_are_equivalent();
    if users.len() == 0 {
        assert(all =~= Seq::<Seq<TaskView>>::empty());
        assert(all.flatten_alt() =~= Seq::<TaskView>::empty());
        reveal(Seq::filter);
        assert(Seq::<TaskView>::empty().filter(f) =~= Seq::<TaskView>::empty());
    } else {
        let rest = users.drop_last();
        lemma_available_tasks_are_schoolmates_tasks(rest, subject);
        let rest_all = rest.map_values(g);
        rest_all.lemma_flatten_and_flatten_alt_are_equivalent();
        assert(all.drop_last() =~= rest_all);
        assert(all.last() == users.last().tasks.tasks);
        assert(all.flatten_alt() == rest_all.flatten_alt() + users.last().tasks.tasks);
        Seq::filter_distributes_over_add(rest_all.flatten(), users.last().tasks.tasks, f);
    }
}

/// The views of a sequence of accounts.
pub open spec fn user_views(s: Seq<User>) -> Seq<UserView> {
    s.map_values(|u: User| u@)
}

impl View for Slot {
    type V = SlotView;

    closed spec fn view(&self) -> SlotView {
        SlotView {
            id: self.id@,
            owner: self.owner_username@,
            subject: self.subject,
            limit: self.limit,
            pending: transaction_views(self.pending_transactions@),
        }
    }
}

/// A copy of `v` whose items have the same views.
fn clone_transactions(v: &Vec<Transaction>) -> (r: Vec<Transaction>)
    ensures
        transaction_views(r@) == transaction_views(v@),
{
    let mut r: Vec<Transaction> = Vec::new();
    let n = v.len();
    let mut i: usize = 0;
    while i < n
        invariant
            n == v@.len(),
            i <= n,
            r@.len() == i,
            forall|j: int| 0 <= j < i ==> r@[j]@ == v@[j]@,
        decreases n - i,
    {
        r.push(v[i].clone());
        i = i + 1;
    }
    assert(transaction_views(r@) =~= transaction_views(v@));
    r
}

impl Clone for Slot {
    fn clone(&self) -> (r: Self)
        ensures
            r@ == self@,
    {
        Slot {
            id: self.id.clone(),
            owner_username: self.owner_username.clone(),
            subject: self.subject,
            limit: self.limit,
            pending_transactions: clone_transactions(&self.pending_transactions),
        }
    }
}

impl Slot {
    /// The 128-bit value of the slot's identifier; the identifier must spell a UUID.
    pub fn uuid(&self) -> (r: u128)
        requires
            uuid_value(self@.id) is Some,
        ensures
            uuid_value(self@.id) == Some(r),
    {
        match parse_uuid(self.id.as_str()) {
            Some(u) => u,
            None => 0,
        }
    }

    /// The 128-bit value of the slot's identifier, or `None` where the identifier spells no UUID.
    pub fn checked_uuid(&self) -> (r: Option<u128>)
        ensures
            r == uuid_value(self@.id),
    {
        match parse_uuid(self.id.as_str()) {
            Some(_) => Some(self.uuid()),
            None => None,
        }
    }

    /// A slot made of the given parts.
    pub fn new(
        id: String,
        owner_username: String,
        subject: Subjects,
        limit: Option<i32>,
        pending_transactions: Vec<Transaction>,
    ) -> (r: Slot)
        ensures
            r@ == (SlotView {
                id: id@,
                owner: owner_username@,
                subject,
                limit,
                pending: transaction_views(pending_transactions@),
            }),
    {
        Slot { id, owner_username, subject, limit, pending_transactions }
    }

    /// The slot's identifier.
    pub fn id(&self) -> (r: String)
        ensures
            r@ == self@.id,
    {
        self.id.clone()
    }

    /// The username of the slot's owner.
    pub fn owner_username(&self) -> (r: String)
        ensures
            r@ == self@.owner,
    {
        self.owner_username.clone()
    }

    /// The limit of unfinished transactions, if there is one.
    pub fn limit(&self) -> (r: Option<i32>)
        ensures
            r == self@.limit,
    {
        self.limit
    }

    /// The slot's subject.
    pub fn subject(&self) -> (r: Subjects)
        ensures
            r == self@.subject,
    {
        self.subject
    }

    /// The transactions that the slot took on and that are not finished.
    pub fn pending_transactions(&self) -> (r: Vec<Transaction>)
        ensures
            transaction_views(r@) == self@.pending,
    {
        clone_transactions(&self.pending_transactions)
    }

    /// Whether the slot may take on one more task.
    pub fn can_allow_transaction(&self) -> (r: bool)
        ensures
            r == allows_transaction(self@.limit, self@.pending.len()),
    {
        match self.limit {
            Some(limit) => (self.pending_transactions.len() as i32) < limit,
            None => true,
        }
    }

    /// Whether the slot may be closed: it has no unfinished transaction.
    pub fn can_be_deactivated(&self) -> (r: bool)
        ensures
            r == (self@.pending.len() == 0),
    {
        self.pending_transactions.len() == 0
    }

    /// Decides whether the slot takes `task` on: it must allow one more
    /// transaction and the task must be of the slot's subject. Registering
    /// the transaction is the caller's work.
    pub fn accept_task(&self, task: &Task) -> (r: Result<(), ()>)
        ensures
            r is Ok <==> (allows_transaction(self@.limit, self@.pending.len()) && task@.subject
                == self@.subject),
    {
        if !self.can_allow_transaction() {
            return Err(());
        }
        if task.subject() != self.subject() {
            return Err(());
        }
        Ok(())
    }

    /// Decides whether the slot may be closed; closing it is the caller's work.
    pub fn deactivate(&self) -> (r: Result<(), ()>)
        ensures
            r is Ok <==> self@.pending.len() == 0,
    {
        if !self.can_be_deactivated() {
            return Err(());
        }
        Ok(())
    }

    /// The tasks that the slot could take on among those published by
    /// `coschoollers`, the owner's schoolmates: the tasks of the slot's
    /// subject, schoolmate by schoolmate.
    pub fn find_availible(&self, coschoollers: &mut Vec<User>) -> (r: Vec<Task>)
        ensures
            task_views(r@) == tasks_of(user_views(old(coschoollers)@), self@.subject),
            user_views(final(coschoollers)@) == user_views(old(coschoollers)@),
    {
        let ghost users = user_views(coschoollers@);
        let mut tasks: Vec<Task> = Vec::new();
        let n = coschoollers.len();
        let mut i: usize = 0;
        while i < n
            invariant
                n == users.len(),
                user_views(coschoollers@) == users,
                i <= n,
                task_views(tasks@) == tasks_of(users.take(i as int), self@.subject),
            decreases n - i,
        {
            let mut found = coschoollers[i].tasks_component().tasks(self.subject());
            proof {
                assert(users.take(i + 1).drop_last() =~= users.take(i as int));
            }
            tasks.append(&mut found);
            i = i + 1;
        }
        assert(users.take(n as int) =~= users);
        tasks
    }

    /// Sets the limit of unfinished transactions.
    pub fn update_limit(&mut self, limit: Option<i32>)
        ensures
            final(self)@ == (SlotView { limit, ..old(self)@ }),
    {
        self.limit = limit;
    }

    /// Replaces the unfinished transactions by those read afresh.
    pub fn refresh(&mut self, pending_transactions: Vec<Transaction>)
        ensures
            final(self)@ == (SlotView { pending: transaction_views(pending_transactions@), ..old(self)@ }),
    {
        self.pending_transactions = pending_transactions;
    }
}

} // verus!
