//! Declaration of one flag: an immutable descriptor owned by a command.

use vstd::prelude::*;

verus! {

/// Immutable descriptor of one flag recognized by a command: its name, an
/// optional short alias, whether a following token is consumed as its value,
/// an optional default value, and an optional documentation hint.
#[derive(Debug, Clone, PartialEq)]
pub struct Flag {
    pub name: String,
    pub alias: Option<String>,
    pub hint: Option<String>,
    pub default_value: Option<String>,
    pub accepts_value: bool,
}

/// The mathematical content of an optional string.
pub open spec fn opt_text(o: Option<String>) -> Option<Seq<char>> {
    match o {
        Some(s) => Some(s@),
        None => None,
    }
}

impl Flag {
    /// Returns a new flag with the given name, no alias, no hint, no default
    /// value, and not accepting a value.
    pub fn new(name: &str) -> (flag: Flag)
        ensures
            flag.name@ == name@,
            flag.alias is None,
            flag.hint is None,
            flag.default_value is None,
            !flag.accepts_value,
    {
        Flag {
            name: name.to_owned(),
            alias: None,
            hint: None,
            default_value: None,
            accepts_value: false,
        }
    }

    /// Sets the alias.
    pub fn with_alias(self, val: &str) -> (flag: Flag)
        ensures
            flag.name == self.name,
            flag.alias matches Some(a) && a@ == val@,
            flag.hint == self.hint,
            flag.default_value == self.default_value,
            flag.accepts_value == self.accepts_value,
    {
        Flag { alias: Some(val.to_owned()), ..self }
    }

    /// Sets the hint.
    pub fn with_hint(self, val: &str) -> (flag: Flag)
        ensures
            flag.name == self.name,
            flag.alias == self.alias,
            flag.hint matches Some(h) && h@ == val@,
            flag.default_value == self.default_value,
            flag.accepts_value == self.accepts_value,
    {
        Flag { hint: Some(val.to_owned()), ..self }
    }

    /// Sets the default value.
    pub fn with_default_value(self, val: &str) -> (flag: Flag)
        ensures
            flag.name == self.name,
            flag.alias == self.alias,
            flag.hint == self.hint,
            flag.default_value matches Some(d) && d@ == val@,
            flag.accepts_value == self.accepts_value,
    {
        Flag { default_value: Some(val.to_owned()), ..self }
    }

    /// Sets whether the flag consumes the following token as its value.
    pub fn with_value(self, accepts: bool) -> (flag: Flag)
        ensures
            flag.name == self.name,
            flag.alias == self.alias,
            flag.hint == self.hint,
            flag.default_value == self.default_value,
            flag.accepts_value == accepts,
    {
        Flag { accepts_value: accepts, ..self }
    }

    /// Returns the name.
    pub fn name(&self) -> (name: &String)
        ensures
            name == self.name,
    {
        &self.name
    }

    /// Returns the alias.
    pub fn alias(&self) -> (alias: &Option<String>)
        ensures
            alias == self.alias,
    {
        &self.alias
    }

    /// Returns the hint.
    pub fn hint(&self) -> (hint: &Option<String>)
        ensures
            hint == self.hint,
    {
        &self.hint
    }

    /// Returns the default value.
    pub fn default_value(&self) -> (default_value: &Option<String>)
        ensures
            default_value == self.default_value,
    {
        &self.default_value
    }

    /// Returns true if the flag consumes the following token as its value.
    pub fn accepts_value(&self) -> (accepts: bool)
        ensures
            accepts == self.accepts_value,
    {
        self.accepts_value
    }
}

} // verus!
