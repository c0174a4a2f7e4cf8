use vstd::prelude::*;

use crate::dto::LocationData;
use crate::slots_component::{SlotsComponent, SlotsComponentView};
use crate::tasks_component::{TasksComponent, TasksComponentView};

verus! {

/// What a pupil's account is.
pub struct UserView {
    pub username: Seq<char>,
    pub password: Seq<char>,
    pub first_name: Seq<char>,
    pub last_name: Seq<char>,
    pub class: i16,
    pub school: i32,
    pub email: Seq<char>,
    pub slots: SlotsComponentView,
    pub raiting: Seq<i16>,
    pub tasks: TasksComponentView,
    pub country: Seq<char>,
    pub city: Seq<char>,
}

/// A pupil's account, with the slots it has open and the tasks it published.
pub struct User {
    username: String,
    password: String,
    frirst_name: String,
    last_name: String,
    class: i16,
    school: i32,
    email: String,
    slots_component: SlotsComponent,
    raiting: Vec<i16>,
    tasks_component: TasksComponent,
    location_data: LocationData,
}

impl View for User {
    type V = UserView;

    closed spec fn view(&self) -> UserView {
        UserView {
            username: self.username@,
            password: self.password@,
            first_name: self.frirst_name@,
            last_name: self.last_name@,
            class: self.class,
            school: self.school,
            email: self.email@,
            slots: self.slots_component@,
            raiting: self.raiting@,
            tasks: self.tasks_component@,
            country: self.location_data.country@,
            city: self.location_data.city@,
        }
    }
}

impl Clone for User {
    fn clone(&self) -> (r: Self)
        ensures
            r@ == self@,
    {
        User {
            username: self.username.clone(),
            password: self.password.clone(),
            frirst_name: self.frirst_name.clone(),
            last_name: self.last_name.clone(),
            class: self.class,
            school: self.school,
            email: self.email.clone(),
            slots_component: self.slots_component.clone(),
            raiting: self.raiting.clone(),
            tasks_component: self.tasks_component.clone(),
            location_data: self.location_data.clone(),
        }
    }
}

impl User {
    /// An account made of the given parts.
    pub fn new(
        username: String,
        password: String,
        first_name: String,
        last_name: String,
        class: i16,
        school: i32,
        email: String,
        slots_component: SlotsComponent,
        raiting: Vec<i16>,
        tasks_component: TasksComponent,
        location_data: LocationData,
    ) -> (r: User)
        ensures
            r@ == (UserView {
                username: username@,
                password: password@,
                first_name: first_name@,
                last_name: last_name@,
                class,
                school,
                email: email@,
                slots: slots_component@,
                raiting: raiting@,
                tasks: tasks_component@,
                country: location_data.country@,
                city: location_data.city@,
            }),
    {
        User {
            username,
            password,
            frirst_name: first_name,
            last_name,
            class,
            school,
            email,
            slots_component,
            raiting,
            tasks_component,
            location_data,
        }
    }

    /// The account's username.
    pub fn username(&self) -> (r: String)
        ensures
            r@ == self@.username,
    {
        self.username.clone()
    }

    /// The account's password.
    pub fn password(&self) -> (r: String)
        ensures
            r@ == self@.password,
    {
        self.password.clone()
    }

    /// The pupil's first name.
    pub fn first_name(&self) -> (r: &str)
        ensures
            r@ == self@.first_name,
    {
        self.frirst_name.as_str()
    }

    /// The pupil's last name.
    pub fn last_name(&self) -> (r: &str)
        ensures
            r@ == self@.last_name,
    {
        self.last_name.as_str()
    }

    /// The pupil's class.
    pub fn class(&self) -> (r: i16)
        ensures
            r == self@.class,
    {
        self.class
    }

    /// The pupil's school number.
    pub fn school(&self) -> (r: i32)
        ensures
            r == self@.school,
    {
        self.school
    }

    /// The account's e-mail address.
    pub fn email(&self) -> (r: String)
        ensures
            r@ == self@.email,
    {
        self.email.clone()
    }

    /// The marks the pupil received, oldest first.
    pub fn raiting(&self) -> (r: Vec<i16>)
        ensures
            r@ == self@.raiting,
    {
        self.raiting.clone()
    }

    /// Where the pupil lives.
    pub fn location_data(&self) -> (r: LocationData)
        ensures
            r.country@ == self@.country,
            r.city@ == self@.city,
    {
        self.location_data.clone()
    }

    /// The pupil's open slots, to be changed in place.
    pub fn slots_component(&mut self) -> (r: &mut SlotsComponent)
        ensures
            r@ == old(self)@.slots,
            final(self)@ == (UserView { slots: final(r)@, ..old(self)@ }),
    {
        &mut self.slots_component
    }

    /// The pupil's published tasks, to be changed in place.
    pub fn tasks_component(&mut self) -> (r: &mut TasksComponent)
        ensures
            r@ == old(self)@.tasks,
            final(self)@ == (UserView { tasks: final(r)@, ..old(self)@ }),
    {
        &mut self.tasks_component
    }

    /// Replaces the slots and tasks by those read afresh.
    pub fn refresh(&mut self, slots_component: SlotsComponent, tasks_component: TasksComponent)
        ensures
            final(self)@ == (UserView {
                slots: slots_component@,
                tasks: tasks_component@,
                ..old(self)@
            }),
    {
        self.slots_component = slots_component;
        self.tasks_component = tasks_component;
    }

    /// Sets the e-mail address; storing it is the caller's work.
    pub fn change_email(&mut self, email: String)
        ensures
            final(self)@ == (UserView { email: email@, ..old(self)@ }),
    {
        self.email = email;
    }

    /// Adds a mark to the pupil's marks; storing it is the caller's work.
    pub fn rate(&mut self, mark: i16)
        ensures
            final(self)@ == (UserView { raiting: old(self)@.raiting.push(mark), ..old(self)@ }),
    {
        self.raiting.push(mark);
    }
}

/// The result of signing in.
pub type SingUpResult = Result<User, crate::errors::SingUpError>;

/// The result of registering.
pub type RegisterResult = Result<User, Vec<crate::errors::SingUpError>>;

} // verus!
