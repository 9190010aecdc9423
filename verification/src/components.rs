//! The component records that scripts can see, and how they look to a script.

use crate::text::{decimal, push_decimal};
use vstd::prelude::*;
use vstd::string::StringExecFns;

verus! {

/// How much life an entity has left.
///
/// A script never holds the record that lives in the world: it is handed a
/// copy, reads the copy's `value`, and can ask for the copy's text.
#[derive(Debug)]
pub struct Health {
    pub value: u32,
}

/// The text of a health record with the given value: `Health { value: 10 }`
/// for ten.
pub open spec fn health_text(value: u32) -> Seq<char> {
    "Health { value: "@ + decimal(value as nat) + " }"@
}

impl Health {
    /// The value, as scripts read it. The record is left as it is.
    pub fn get_value(&mut self) -> (value: u32)
        ensures
            value == old(self).value,
            *final(self) == *old(self),
    {
        self.value
    }

    /// The text that scripts print for the record.
    pub fn to_string(&self) -> (text: String)
        ensures
            text@ == health_text(self.value),
    {
        let mut text = String::from_str("Health { value: ");
        push_decimal(&mut text, self.value);
        text.append(" }");
        text
    }
}

impl Default for Health {
    /// A record with no life left.
    fn default() -> (health: Health)
        ensures
            health.value == 0,
    {
        Health { value: 0 }
    }
}

impl Clone for Health {
    /// A copy with the same value.
    fn clone(&self) -> (copy: Health)
        ensures
            copy == *self,
    {
        Health { value: self.value }
    }
}

} // verus!
