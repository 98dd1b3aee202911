//! Users and administrators, and what is said of them.

use vstd::prelude::*;
use crate::text::{byte_list, byte_list_text, decimal_nat, decimal_u64, join, joined, texts};

verus! {

/// A user: a name, an age, and notes where there are any.
#[derive(Debug)]
pub struct User {
    pub name: String,
    pub age: u8,
    pub additional_info: Option<Vec<String>>,
}

/// A user under another type's name.
#[derive(Debug)]
pub struct Wrapper(pub User);

/// An administrator: a name and an identifier of 32 bytes.
#[derive(Debug)]
pub struct Administrator {
    pub name: String,
    pub identifier: [u8; 32],
}

/// Somebody known to the system.
#[derive(Debug)]
pub enum Person {
    User(User),
    Admin(Administrator),
}

/// Nothing, a person, or a person with an age.
#[derive(Debug)]
pub enum Something {
    A,
    B(Person),
    C { person: Person, age: u8 },
}

impl User {
    /// The sentence that introduces the user.
    pub open spec fn introduction(&self) -> Seq<char> {
        "The user is "@ + self.name@ + " and is "@ + decimal_nat(self.age as nat)
            + " years old."@
    }

    /// The line on the user's notes.
    pub open spec fn notes_line(&self) -> Seq<char> {
        match self.additional_info {
            Some(infos) => "Additional info [ "@ + joined(texts(infos@), ", "@) + " ]"@,
            None => "No additional info for user"@,
        }
    }

    /// The user with these fields.
    pub fn new(name: String, age: u8, additional_info: Option<Vec<String>>) -> (user: Self)
        ensures
            user.name == name,
            user.age == age,
            user.additional_info == additional_info,
    {
        User { name, age, additional_info }
    }

    /// Makes the user a year older.
    pub fn celebrate_birthday(&mut self)
        requires
            old(self).age < u8::MAX,
        ensures
            final(self).age == old(self).age + 1,
            final(self).name == old(self).name,
            final(self).additional_info == old(self).additional_info,
    {
        self.age = self.age + 1;
    }

    /// Writes the sentence that introduces the user.
    pub fn introduce(&self) -> (text: String)
        ensures
            text@ == self.introduction(),
    {
        let mut text = "The user is ".to_owned();
        text.append(self.name.as_str());
        text.append(" and is ");
        text.append(decimal_u64(self.age as u64).as_str());
        text.append(" years old.");
        text
    }
}

impl Administrator {
    /// The sentence that introduces the administrator.
    pub open spec fn introduction(&self) -> Seq<char> {
        "Administrator is: "@ + self.name@ + " and his ID is: "@ + byte_list(self.identifier@)
    }
}

impl Person {
    /// What is said of the person, line by line.
    pub open spec fn lines(&self) -> Seq<Seq<char>> {
        match self {
            Person::User(user) => seq![user.introduction(), user.notes_line()],
            Person::Admin(admin) => seq![admin.introduction()],
        }
    }
}

/// The user Alice, aged 30, without notes.
pub fn generate_user() -> (user: User)
    ensures
        user.name@ == "Alice"@,
        user.age == 30,
        user.additional_info is None,
{
    User { name: "Alice".to_owned(), age: 30, additional_info: None }
}

/// The administrator Bob, whose identifier is all zeros.
pub fn generate_admin() -> (admin: Administrator)
    ensures
        admin.name@ == "Bob"@,
        admin.identifier@ == Seq::new(32, |i: int| 0u8),
{
    let admin = Administrator { name: "Bob".to_owned(), identifier: [0u8;32] };
    assert(admin.identifier@ =~= Seq::new(32, |i: int| 0u8));
    admin
}

/// Writes what is said of the person: for a user the introduction and the
/// line on the notes, for an administrator the introduction.
pub fn person_lines(person: &Person) -> (lines: Vec<String>)
    ensures
        texts(lines@) == person.lines(),
{
    let mut lines: Vec<String> = Vec::new();
    match person {
        Person::User(user) => {
            lines.push(user.introduce());
            let notes = match &user.additional_info {
                Some(infos) => {
                    let mut line = "Additional info [ ".to_owned();
                    line.append(join(infos, ", ").as_str());
                    line.append(" ]");
                    line
                },
                None => "No additional info for user".to_owned(),
            };
            lines.push(notes);
        },
        Person::Admin(admin) => {
            let mut line = "Administrator is: ".to_owned();
            line.append(admin.name.as_str());
            line.append(" and his ID is: ");
            line.append(byte_list_text(&admin.identifier).as_str());
            lines.push(line);
        },
    }
    assert(texts(lines@) =~= person.lines());
    lines
}

} // verus!
