use vstd::prelude::*;

use crate::subjects::Subjects;

verus! {

/// Where a pupil lives.
pub struct LocationData {
    pub country: String,
    pub city: String,
}

impl Clone for LocationData {
    fn clone(&self) -> (r: Self)
        ensures
            r.country@ == self.country@,
            r.city@ == self.city@,
    {
        LocationData { country: self.country.clone(), city: self.city.clone() }
    }
}

/// A registration request.
pub struct UserDTO {
    pub username: String,
    pub password: String,
    pub first_name: String,
    pub last_name: String,
    pub class: i16,
    pub school: i32,
    pub email: String,
    pub location_data: LocationData,
}

/// A request to open (or reopen) a slot.
pub struct SlotDTO {
    pub subject: Subjects,
    pub limit: Option<i32>,
}

/// Sign-in credentials.
pub struct SingDto {
    pub username: String,
    pub password: String,
}

/// A new limit of pending transactions for a slot.
pub struct SlotLimitDTO {
    pub limit: Option<i32>,
}

} // verus!
