use vstd::prelude::*;

use crate::slot::{allows_transaction, Slot, SlotView};
use crate::subjects::Subjects;
use crate::task::Task;
use crate::transaction::Transaction;

verus! {

/// What a pupil's set of open slots is.
pub struct SlotsComponentView {
    pub slots: Seq<SlotView>,
    pub owner: Seq<char>,
}

/// The slots that a pupil has open.
pub struct SlotsComponent {
    slots: Vec<Slot>,
    owner_username: String,
}

/// What opening a slot takes, once it is known not to be open already.
#[derive(Debug, Clone, Copy, PartialEq, Eq, Structural)]
pub enum SlotAction {
    /// The slot is stored but closed: reopen it and set its limit.
    Activate,
    /// The slot was never stored: store a new one.
    Create,
}

/// The views of a sequence of slots.
pub open spec fn slot_views(s: Seq<Slot>) -> Seq<SlotView> {
    s.map_values(|x: Slot| x@)
}

/// Whether some slot in `s` is of `subject`.
pub open spec fn has_subject(s: Seq<SlotView>, subject: Subjects) -> bool {
    exists|i: int| 0 <= i < s.len() && #[trigger] s[i].subject == subject
}

/// Whether `s[i]` is the first slot in `s` of `subject`.
pub open spec fn is_first_with_subject(s: Seq<SlotView>, subject: Subjects, i: int) -> bool {
    &&& 0 <= i < s.len()
    &&& s[i].subject == subject
    &&& forall|j: int| 0 <= j < i ==> #[trigger] s[j].subject != subject
}

/// The answer when no slot of the task's subject is open.
pub open spec fn no_slot_message() -> Seq<char> {
    "Slot doesn't exists"@
}

/// The answer when the slot of the task's subject does not take it on.
pub open spec fn rejected_message() -> Seq<char> {
    "Task  can't be allowed"@
}

/// Whether any of `slots` is of `subject`, open or closed.
pub fn slot_exists(slots: &Vec<Slot>, subject: Subjects) -> (r: bool)
    ensures
        r == has_subject(slot_views(slots@), subject),
{
    let ghost views = slot_views(slots@);
    let n = slots.len();
    let mut i: usize = 0;
    while i < n
        invariant
            n == views.len(),
            views == slot_views(slots@),
            i <= n,
            forall|j: int| 0 <= j < i ==> #[trigger] views[j].subject != subject,
        decreases n - i,
    {
        if slots[i].subject() == subject {
            assert(views[i as int].subject == subject);
            return true;
        }
        i = i + 1;
    }
    false
}

/// Where some slot is of `subject`, there is a first one: so `get_slot`,
/// `remove_slot` and `accept_task` pick a slot exactly where
/// `is_slot_active` holds.
pub proof fn lemma_first_with_subject(s: Seq<SlotView>, subject: Subjects)
    requires
        has_subject(s, subject),
    ensures
        exists|i: int| is_first_with_subject(s, subject, i),
    decreases s.len(),
{
    let s0 = s.drop_last();
    if has_subject(s0, subject) {
        lemma_first_with_subject(s0, subject);
        let i = choose|i: int| is_first_with_subject(s0, subject, i);
        assert(s[i] == s0[i]);
        assert forall|j: int| 0 <= j < i implies #[trigger] s[j].subject != subject by {
            assert(s[j] == s0[j]);
        }
        assert(is_first_with_subject(s, subject, i));
    } else {
        let k = choose|k: int| 0 <= k < s.len() && #[trigger] s[k].subject == subject;
        if k < s.len() - 1 {
            assert(s0[k].subject == subject);
        }
        assert forall|j: int| 0 <= j < s.len() - 1 implies #[trigger] s[j].subject != subject by {
            assert(s[j] == s0[j]);
        }
        assert(is_first_with_subject(s, subject, s.len() - 1));
    }
}

impl View for SlotsComponent {
    type V = SlotsComponentView;

    closed spec fn view(&self) -> SlotsComponentView {
        SlotsComponentView { slots: slot_views(self.slots@), owner: self.owner_username@ }
    }
}

/// A copy of `v` whose items have the same views.
fn clone_slots(v: &Vec<Slot>) -> (r: Vec<Slot>)
    ensures
        slot_views(r@) == slot_views(v@),
{
    let mut r: Vec<Slot> = Vec::new();
    let n = v.len();
    let mut i: usize = 0;
    while i < n
        invariant
            n == v@.len(),
            i <= n,
            r@.len() == i,
            forall|j: int| 0 <= j < i ==> r@[j]@ == v@[j]@,
        decreases n - i,
    {
        r.push(v[i].clone());
        i = i + 1;
    }
    assert(slot_views(r@) =~= slot_views(v@));
    r
}

impl Clone for SlotsComponent {
    fn clone(&self) -> (r: Self)
        ensures
            r@ == self@,
    {
        SlotsComponent { slots: clone_slots(&self.slots), owner_username: self.owner_username.clone() }
    }
}

impl SlotsComponent {
    /// The open slots `slots` of the pupil `owner_username`.
    pub fn new(owner_username: String, slots: Vec<Slot>) -> (r: SlotsComponent)
        ensures
            r@ == (SlotsComponentView { slots: slot_views(slots@), owner: owner_username@ }),
    {
        SlotsComponent { slots, owner_username }
    }

    /// The username of the slots' owner.
    pub fn owner_username(&self) -> (r: String)
        ensures
            r@ == self@.owner,
    {
        self.owner_username.clone()
    }

    /// The open slots.
    pub fn slots(&self) -> (r: Vec<Slot>)
        ensures
            slot_views(r@) == self@.slots,
    {
        clone_slots(&self.slots)
    }

    /// Replaces the open slots by those read afresh.
    pub fn refresh(&mut self, slots: Vec<Slot>)
        ensures
            final(self)@ == (SlotsComponentView { slots: slot_views(slots@), ..old(self)@ }),
    {
        self.slots = slots;
    }

    /// The index of the first open slot of `subject`, if there is one.
    fn position(&self, subject: Subjects) -> (r: Option<usize>)
        ensures
            match r {
                Some(i) => is_first_with_subject(self@.slots, subject, i as int),
                None => !has_subject(self@.slots, subject),
            },
    {
        let n = self.slots.len();
        let mut i: usize = 0;
        while i < n
            invariant
                n == self@.slots.len(),
                i <= n,
                forall|j: int| 0 <= j < i ==> #[trigger] self@.slots[j].subject != subject,
            decreases n - i,
        {
            if self.slots[i].subject() == subject {
                return Some(i);
            }
            i = i + 1;
        }
        None
    }

    /// The first open slot of `subject`, if there is one.
    pub fn get_slot(&self, subject: Subjects) -> (r: Option<Slot>)
        ensures
            match r {
                Some(slot) => exists|i: int|
                    is_first_with_subject(self@.slots, subject, i) && slot@ == self@.slots[i],
                None => !has_subject(self@.slots, subject),
            },
    {
        match self.position(subject) {
            Some(i) => Some(self.slots[i].clone()),
            None => None,
        }
    }

    /// Whether a slot of `subject` is open.
    pub fn is_slot_active(&self, subject: Subjects) -> (r: bool)
        ensures
            r == has_subject(self@.slots, subject),
    {
        self.position(subject).is_some()
    }

    /// Decides how to open a slot of `subject`: refused where one is open
    /// already; otherwise reopened where `stored` says that the pupil had one
    /// before, and created where not.
    pub fn add_slot(&self, subject: Subjects, stored: bool) -> (r: Result<SlotAction, ()>)
        ensures
            r == (if has_subject(self@.slots, subject) {
                Err(())
            } else if stored {
                Ok(SlotAction::Activate)
            } else {
                Ok(SlotAction::Create)
            }),
    {
        if self.is_slot_active(subject) {
            return Err(());
        }
        if stored {
            Ok(SlotAction::Activate)
        } else {
            Ok(SlotAction::Create)
        }
    }

    /// Decides which slot to close for `subject`: the first open one of that
    /// subject, refused where there is none or where it has unfinished
    /// transactions.
    pub fn remove_slot(&self, subject: Subjects) -> (r: Result<Slot, ()>)
        ensures
            !has_subject(self@.slots, subject) ==> r is Err,
            r matches Ok(slot) ==> (slot@.subject == subject && slot@.pending.len() == 0),
            forall|i: int|
                is_first_with_subject(self@.slots, subject, i) ==> if self@.slots[i].pending.len()
                    == 0 {
                    (r matches Ok(slot) && slot@ == self@.slots[i])
                } else {
                    r is Err
                },
    {
        match self.position(subject) {
            Some(i) => {
                let slot = self.slots[i].clone();
                match slot.deactivate() {
                    Ok(()) => Ok(slot),
                    Err(()) => Err(()),
                }
            },
            None => Err(()),
        }
    }

    /// Decides which slot takes `task` on: the first open slot of the task's
    /// subject, where it allows one more transaction. Registering the
    /// transaction is the caller's work; see `registration_outcome`.
    pub fn accept_task(&self, task: &Task) -> (r: Result<Slot, String>)
        ensures
            !has_subject(self@.slots, task@.subject) ==> (r matches Err(e) && e@
                == no_slot_message()),
            r matches Ok(slot) ==> (slot@.subject == task@.subject && allows_transaction(
                slot@.limit,
                slot@.pending.len(),
            )),
            forall|i: int|
                is_first_with_subject(self@.slots, task@.subject, i) ==> if allows_transaction(
                    self@.slots[i].limit,
                    self@.slots[i].pending.len(),
                ) {
                    (r matches Ok(slot) && slot@ == self@.slots[i])
                } else {
                    (r matches Err(e) && e@ == rejected_message())
                },
    {
        proof {
            reveal_strlit("Slot doesn't exists");
            reveal_strlit("Task  can't be allowed");
        }
        match self.get_slot(task.subject()) {
            Some(slot) => {
                match slot.accept_task(task) {
                    Ok(()) => Ok(slot),
                    Err(()) => Err(String::from_str("Task  can't be allowed")),
                }
            },
            None => Err(String::from_str("Slot doesn't exists")),
        }
    }

    /// The answer once the chosen slot tried to register the transaction:
    /// the transaction, or the rejection where registering failed.
    pub fn registration_outcome(registered: Result<Transaction, ()>) -> (r: Result<
        Transaction,
        String,
    >)
        ensures
            match registered {
                Ok(t) => (r matches Ok(u) && u@ == t@),
                Err(()) => (r matches Err(e) && e@ == rejected_message()),
            },
    {
        match registered {
            Ok(t) => Ok(t),
            Err(()) => Err(String::from_str("Task  can't be allowed")),
        }
    }
}

} // verus!
