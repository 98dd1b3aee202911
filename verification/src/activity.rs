//! People and what they do.

use vstd::prelude::*;
use crate::text::{decimal_nat, decimal_u64};

verus! {

/// Something that can say what it does.
pub trait Action {
    /// What it does. Where an implementor says nothing else, the answer is a
    /// placeholder.
    fn action(&self) -> (text: String)
        default_ensures
            text@ == "ABCDEFG"@,
    {
        "ABCDEFG".to_owned()
    }
}

/// Somebody with a name, an age and an occupation, who may have
/// confidential notes.
pub struct Actor {
    pub name: String,
    pub age: u8,
    pub action: String,
    pub confidential_info: Option<Vec<String>>,
}

impl Action for Actor {
    fn action(&self) -> (text: String)
        ensures
            text@ == "ABCDEFG"@,
    {
        "ABCDEFG".to_owned()
    }
}

impl Actor {
    /// The sentence on the actor. It tells that there are confidential notes,
    /// not what they hold.
    pub open spec fn summary(&self) -> Seq<char> {
        if self.confidential_info is Some {
            self.name@ + " is "@ + decimal_nat(self.age as nat) + " years old, "@ + self.action@
                + " and has confidential data."@
        } else {
            self.name@ + " is "@ + decimal_nat(self.age as nat) + " years old and "@
                + self.action@ + "."@
        }
    }

    /// Writes the sentence on the actor.
    pub fn describe(&self) -> (text: String)
        ensures
            text@ == self.summary(),
    {
        let mut text = self.name.clone();
        text.append(" is ");
        text.append(decimal_u64(self.age as u64).as_str());
        match self.confidential_info {
            Some(_) => {
                text.append(" years old, ");
                text.append(self.action.as_str());
                text.append(" and has confidential data.");
            },
            None => {
                text.append(" years old and ");
                text.append(self.action.as_str());
                text.append(".");
            },
        }
        text
    }
}

/// Alice, aged 30, who breaks code and has no confidential notes.
pub fn generate_user() -> (actor: Actor)
    ensures
        actor.name@ == "Alice"@,
        actor.age == 30,
        actor.action@ == "breaks code"@,
        actor.confidential_info is None,
{
    Actor {
        name: "Alice".to_owned(),
        age: 30,
        action: "breaks code".to_owned(),
        confidential_info: None,
    }
}

} // verus!
