//! A record in its two forms: `CUser`, laid out for the caller to read, and
//! `User`, which the caller holds by handle and reaches through accessors.
use crate::cc::gender;
use vstd::prelude::*;
use vstd::string::*;

verus! {

/// The gender tag as it stands in a transparent record.
#[derive(Debug, Copy, Clone, PartialEq, Eq, Structural)]
pub enum Gender {
    Male,
    Female,
    Unknown,
}

impl Gender {
    /// The tag under which a variant crosses the boundary.
    pub open spec fn tag_of(self) -> u8 {
        match self {
            Gender::Male => 0,
            Gender::Female => 1,
            Gender::Unknown => 2,
        }
    }

    /// The variant that a tag stands for. A tag that names no variant stands for `Unknown`.
    pub open spec fn of_tag(tag: u8) -> Gender {
        if tag == 0 {
            Gender::Male
        } else if tag == 1 {
            Gender::Female
        } else {
            Gender::Unknown
        }
    }

    /// The tag under which this variant crosses the boundary.
    pub fn tag(&self) -> (tag: u8)
        ensures
            tag == self.tag_of(),
            Gender::of_tag(tag) == *self,
    {
        match self {
            Gender::Male => 0,
            Gender::Female => 1,
            Gender::Unknown => 2,
        }
    }

    /// The variant that a tag stands for. A tag that names no variant stands for `Unknown`.
    pub fn from_tag(tag: u8) -> (gender: Gender)
        ensures
            gender == Gender::of_tag(tag),
    {
        if tag == 0 {
            Gender::Male
        } else if tag == 1 {
            Gender::Female
        } else {
            Gender::Unknown
        }
    }
}

/// The transparent record. Its fields and their order are part of the contract.
#[derive(Debug, Clone, PartialEq, Eq)]
pub struct CUser {
    pub id: String,
    pub name: String,
    pub age: i32,
    pub gender: Gender,
    pub register_: bool,
}

/// The record that stays on the core's side.
#[derive(Debug, PartialEq, Eq, Clone)]
pub struct User {
    pub id: String,
    pub name: String,
    pub age: i32,
    pub gender: gender::Gender,
    pub register: bool,
}

/// What a transparent record holds.
pub struct CUserModel {
    pub id: Seq<char>,
    pub name: Seq<char>,
    pub age: i32,
    pub gender: Gender,
    pub register_: bool,
}

/// What an opaque record holds.
pub struct UserModel {
    pub id: Seq<char>,
    pub name: Seq<char>,
    pub age: i32,
    pub gender: gender::Gender,
    pub register: bool,
}

impl View for CUser {
    type V = CUserModel;

    open spec fn view(&self) -> CUserModel {
        CUserModel {
            id: self.id@,
            name: self.name@,
            age: self.age,
            gender: self.gender,
            register_: self.register_,
        }
    }
}

impl View for User {
    type V = UserModel;

    open spec fn view(&self) -> UserModel {
        UserModel {
            id: self.id@,
            name: self.name@,
            age: self.age,
            gender: self.gender,
            register: self.register,
        }
    }
}

/// The gender that a new record keeps for a tag: `Male` and `Female` stay,
/// and every other tag is taken for `Male`.
pub open spec fn stored_gender(tag: Gender) -> gender::Gender {
    match tag {
        Gender::Female => gender::Gender::Female,
        _ => gender::Gender::Male,
    }
}

/// The tag under which a record's gender is shown to the caller.
pub open spec fn shown_gender(kept: gender::Gender) -> Gender {
    match kept {
        gender::Gender::Male => Gender::Male,
        gender::Gender::Female => Gender::Female,
        gender::Gender::Unknown => Gender::Unknown,
    }
}

/// The transparent copy of an opaque record.
pub open spec fn transferred(user: UserModel) -> CUserModel {
    CUserModel {
        id: user.id,
        name: user.name,
        age: user.age,
        gender: shown_gender(user.gender),
        register_: user.register,
    }
}

impl User {
    /// A record that is not yet registered.
    pub fn new(id: String, name: String, age: i32, gender: gender::Gender) -> (user: User)
        ensures
            user@ == (UserModel { id: id@, name: name@, age, gender, register: false }),
    {
        User { id, name, age, gender, register: false }
    }
}

/// Creates a record and hands the caller the box that owns it.
pub fn cc_create_user(id: String, name: String, age: i32, gender: Gender) -> (user: Box<User>)
    ensures
        user@ == (UserModel {
            id: id@,
            name: name@,
            age,
            gender: stored_gender(gender),
            register: false,
        }),
{
    let gender = match gender {
        Gender::Male => gender::Gender::Male,
        Gender::Female => gender::Gender::Female,
        _ => gender::Gender::Male,
    };
    Box::new(User::new(id, name, age, gender))
}

/// Marks a record as registered and leaves the rest of it alone.
pub fn cc_register_user(user: &mut User)
    ensures
        final(user)@ == (UserModel { register: true, ..old(user)@ }),
{
    user.register = true;
}

/// A copy of the record's id.
pub fn cc_get_user_id(user: &User) -> (id: String)
    ensures
        id@ == user@.id,
{
    user.id.clone()
}

/// A copy of the record's name.
pub fn cc_get_user_name(user: &User) -> (name: String)
    ensures
        name@ == user@.name,
{
    user.name.clone()
}

/// The record's age.
pub fn cc_get_user_age(user: &User) -> (age: i32)
    ensures
        age == user@.age,
{
    user.age
}

/// The record's gender, as a transparent tag.
pub fn cc_get_user_gender(user: &User) -> (tag: Gender)
    ensures
        tag == shown_gender(user@.gender),
{
    match user.gender {
        gender::Gender::Male => Gender::Male,
        gender::Gender::Female => Gender::Female,
        _ => Gender::Unknown,
    }
}

/// Whether the record has been registered.
pub fn cc_is_user_register(user: &User) -> (registered: bool)
    ensures
        registered == user@.register,
{
    user.register
}

/// Copies an opaque record into a transparent one that the caller may read field by field.
pub fn cc_user_transfer(user: &User) -> (copy: CUser)
    ensures
        copy@ == transferred(user@),
{
    CUser {
        id: user.id.clone(),
        name: user.name.clone(),
        age: user.age,
        gender: cc_get_user_gender(user),
        register_: user.register,
    }
}

} // verus!
