use vstd::prelude::*;

use crate::ids::{parse_uuid, uuid_value};

use crate::time::{Day, TimeOfDay};

verus! {

/// What a transaction is.
pub struct TransactionView {
    pub id: Seq<char>,
    pub sender_slot: Seq<char>,
    pub recipient: Seq<char>,
    pub text: Seq<char>,
    pub price: u64,
    pub passed: bool,
    pub time_of_rigestration: TimeOfDay,
    pub date_of_rigestration: Day,
    pub time_of_ending: Option<TimeOfDay>,
    pub date_of_ending: Option<Day>,
}

/// A task taken on by a slot: the slot's owner does the task of the recipient.
/// `price` is the 64-bit encoding of the agreed price.
pub struct Transaction {
    id: String,
    sender_slot: String,
    recipient_username: String,
    task: String,
    price: u64,
    passed: bool,
    time_of_rigestration: TimeOfDay,
    date_of_rigestration: Day,
    time_of_ending: Option<TimeOfDay>,
    date_of_ending: Option<Day>,
}

impl View for Transaction {
    type V = TransactionView;

    closed spec fn view(&self) -> TransactionView {
        TransactionView {
            id: self.id@,
            sender_slot: self.sender_slot@,
            recipient: self.recipient_username@,
            text: self.task@,
            price: self.price,
            passed: self.passed,
            time_of_rigestration: self.time_of_rigestration,
            date_of_rigestration: self.date_of_rigestration,
            time_of_ending: self.time_of_ending,
            date_of_ending: self.date_of_ending,
        }
    }
}

impl Clone for Transaction {
    fn clone(&self) -> (r: Self)
        ensures
            r@ == self@,
    {
        Transaction {
            id: self.id.clone(),
            sender_slot: self.sender_slot.clone(),
            recipient_username: self.recipient_username.clone(),
            task: self.task.clone(),
            price: self.price,
            passed: self.passed,
            time_of_rigestration: self.time_of_rigestration,
            date_of_rigestration: self.date_of_rigestration,
            time_of_ending: self.time_of_ending,
            date_of_ending: self.date_of_ending,
        }
    }
}

impl Transaction {
    /// The 128-bit value of the sending slot's identifier; it must spell a UUID.
    pub fn sender_slot_uuid(&self) -> (r: u128)
        requires
            uuid_value(self@.sender_slot) is Some,
        ensures
            uuid_value(self@.sender_slot) == Some(r),
    {
        match parse_uuid(self.sender_slot.as_str()) {
            Some(u) => u,
            None => 0,
        }
    }

    /// The 128-bit value of the sending slot's identifier, or `None` where it spells no UUID.
    pub fn checked_sender_slot_uuid(&self) -> (r: Option<u128>)
        ensures
            r == uuid_value(self@.sender_slot),
    {
        match parse_uuid(self.sender_slot.as_str()) {
            Some(_) => Some(self.sender_slot_uuid()),
            None => None,
        }
    }

    /// The 128-bit value of the transaction's identifier; the identifier must spell a UUID.
    pub fn uuid(&self) -> (r: u128)
        requires
            uuid_value(self@.id) is Some,
        ensures
            uuid_value(self@.id) == Some(r),
    {
        match parse_uuid(self.id.as_str()) {
            Some(u) => u,
            None => 0,
        }
    }

    /// The 128-bit value of the transaction's identifier, or `None` where the identifier spells no UUID.
    pub fn checked_uuid(&self) -> (r: Option<u128>)
        ensures
            r == uuid_value(self@.id),
    {
        match parse_uuid(self.id.as_str()) {
            Some(_) => Some(self.uuid()),
            None => None,
        }
    }

    /// A transaction made of the given parts.
    pub fn new(
        id: String,
        sender_slot: String,
        recipient_username: String,
        task: String,
        price: u64,
        passed: bool,
        time_of_rigestration: TimeOfDay,
        date_of_rigestration: Day,
        time_of_ending: Option<TimeOfDay>,
        date_of_ending: Option<Day>,
    ) -> (r: Transaction)
        ensures
            r@ == (TransactionView {
                id: id@,
                sender_slot: sender_slot@,
                recipient: recipient_username@,
                text: task@,
                price,
                passed,
                time_of_rigestration,
                date_of_rigestration,
                time_of_ending,
                date_of_ending,
            }),
    {
        Transaction {
            id,
            sender_slot,
            recipient_username,
            task,
            price,
            passed,
            time_of_rigestration,
            date_of_rigestration,
            time_of_ending,
            date_of_ending,
        }
    }

    /// The transaction's identifier.
    pub fn id(&self) -> (r: String)
        ensures
            r@ == self@.id,
    {
        self.id.clone()
    }

    /// The identifier of the slot that took the task on.
    pub fn sender_slot_id(&self) -> (r: String)
        ensures
            r@ == self@.sender_slot,
    {
        self.sender_slot.clone()
    }

    /// The username of the task's owner.
    pub fn recipient_username(&self) -> (r: String)
        ensures
            r@ == self@.recipient,
    {
        self.recipient_username.clone()
    }

    /// What is to be done.
    pub fn task(&self) -> (r: String)
        ensures
            r@ == self@.text,
    {
        self.task.clone()
    }

    /// The encoded price.
    pub fn price(&self) -> (r: u64)
        ensures
            r == self@.price,
    {
        self.price
    }

    /// Whether the transaction is finished.
    pub fn passed(&self) -> (r: bool)
        ensures
            r == self@.passed,
    {
        self.passed
    }

    /// The time of day at which the transaction was registered.
    pub fn time_of_rigestration(&self) -> (r: TimeOfDay)
        ensures
            r == self@.time_of_rigestration,
    {
        self.time_of_rigestration
    }

    /// The day on which the transaction was registered.
    pub fn date_of_rigestration(&self) -> (r: Day)
        ensures
            r == self@.date_of_rigestration,
    {
        self.date_of_rigestration
    }

    /// The time of day at which the transaction was finished, if it was.
    pub fn time_of_ending(&self) -> (r: Option<TimeOfDay>)
        ensures
            r == self@.time_of_ending,
    {
        self.time_of_ending
    }

    /// The day on which the transaction was finished, if it was.
    pub fn date_of_ending(&self) -> (r: Option<Day>)
        ensures
            r == self@.date_of_ending,
    {
        self.date_of_ending
    }
}

} // verus!
