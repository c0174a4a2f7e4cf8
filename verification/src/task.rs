use vstd::prelude::*;

use crate::ids::{parse_uuid, uuid_value};

use crate::subjects::Subjects;
use crate::time::Moment;

verus! {

/// What a task is.
pub struct TaskView {
    pub id: Seq<char>,
    pub owner: Seq<char>,
    pub text: Seq<char>,
    pub price: u64,
    pub subject: Subjects,
    pub publish_time: Moment,
    pub target_finishing_time: Moment,
}

/// A task that a pupil published for someone else to do. `price` is the
/// 64-bit encoding of the price that the owner offers.
pub struct Task {
    id: String,
    owner_username: String,
    task: String,
    price: u64,
    subject: Subjects,
    publish_time: Moment,
    target_finishing_time: Moment,
}

impl View for Task {
    type V = TaskView;

    closed spec fn view(&self) -> TaskView {
        TaskView {
            id: self.id@,
            owner: self.owner_username@,
            text: self.task@,
            price: self.price,
            subject: self.subject,
            publish_time: self.publish_time,
            target_finishing_time: self.target_finishing_time,
        }
    }
}

impl Clone for Task {
    fn clone(&self) -> (r: Self)
        ensures
            r@ == self@,
    {
        Task {
            id: self.id.clone(),
            owner_username: self.owner_username.clone(),
            task: self.task.clone(),
            price: self.price,
            subject: self.subject,
            publish_time: self.publish_time,
            target_finishing_time: self.target_finishing_time,
        }
    }
}

impl Task {
    /// The 128-bit value of the task's identifier; the identifier must spell a UUID.
    pub fn uuid(&self) -> (r: u128)
        requires
            uuid_value(self@.id) is Some,
        ensures
            uuid_value(self@.id) == Some(r),
    {
        match parse_uuid(self.id.as_str()) {
            Some(u) => u,
            None => 0,
        }
    }

    /// The 128-bit value of the task's identifier, or `None` where the identifier spells no UUID.
    pub fn checked_uuid(&self) -> (r: Option<u128>)
        ensures
            r == uuid_value(self@.id),
    {
        match parse_uuid(self.id.as_str()) {
            Some(_) => Some(self.uuid()),
            None => None,
        }
    }

    /// A task made of the given parts.
    pub fn new(
        id: String,
        owner_username: String,
        task: String,
        price: u64,
        subject: Subjects,
        publish_time: Moment,
        target_finishing_time: Moment,
    ) -> (r: Task)
        ensures
            r@ == (TaskView {
                id: id@,
                owner: owner_username@,
                text: task@,
                price,
                subject,
                publish_time,
                target_finishing_time,
            }),
    {
        Task { id, owner_username, task, price, subject, publish_time, target_finishing_time }
    }

    /// The task's identifier.
    pub fn id(&self) -> (r: String)
        ensures
            r@ == self@.id,
    {
        self.id.clone()
    }

    /// The username of the pupil who published the task.
    pub fn owner_username(&self) -> (r: String)
        ensures
            r@ == self@.owner,
    {
        self.owner_username.clone()
    }

    /// What is to be done.
    pub fn task(&self) -> (r: String)
        ensures
            r@ == self@.text,
    {
        self.task.clone()
    }

    /// The encoded price.
    pub fn price(&self) -> (r: u64)
        ensures
            r == self@.price,
    {
        self.price
    }

    /// The task's subject.
    pub fn subject(&self) -> (r: Subjects)
        ensures
            r == self@.subject,
    {
        self.subject
    }

    /// When the task was published.
    pub fn publish_time(&self) -> (r: Moment)
        ensures
            r == self@.publish_time,
    {
        self.publish_time
    }

    /// When the owner wants the task done.
    pub fn target_finishing_time(&self) -> (r: Moment)
        ensures
            r == self@.target_finishing_time,
    {
        self.target_finishing_time
    }
}

} // verus!
