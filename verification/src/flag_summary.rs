//! Resolved view of one flag for one invocation.

use vstd::prelude::*;

verus! {

/// The mathematical content of a flag summary.
pub struct FlagSummaryV {
    pub name: Seq<char>,
    pub alias: Option<Seq<char>>,
    pub hint: Option<Seq<char>>,
    pub value: Option<Seq<char>>,
    pub default_value: Option<Seq<char>>,
    pub accepts_value: bool,
    pub provided: bool,
}

/// Resolved view of one declared flag for one invocation: the declaration's
/// fields together with the effective `value` (the provided value, else the
/// default) and `provided` (true only if the user actually supplied the
/// flag, independent of whether a default exists).
#[derive(Debug, Clone, PartialEq)]
pub struct FlagSummary {
    pub name: String,
    pub alias: Option<String>,
    pub hint: Option<String>,
    pub value: Option<String>,
    pub default_value: Option<String>,
    pub accepts_value: bool,
    pub provided: bool,
}

impl View for FlagSummary {
    type V = FlagSummaryV;

    open spec fn view(&self) -> FlagSummaryV {
        FlagSummaryV {
            name: self.name@,
            alias: crate::flag::opt_text(self.alias),
            hint: crate::flag::opt_text(self.hint),
            value: crate::flag::opt_text(self.value),
            default_value: crate::flag::opt_text(self.default_value),
            accepts_value: self.accepts_value,
            provided: self.provided,
        }
    }
}

impl FlagSummary {
    /// Returns a new instance with the given fields.
    pub fn with_name(
        name: &str,
        alias: Option<String>,
        hint: Option<String>,
        value: Option<String>,
        default_value: Option<String>,
        accepts_value: bool,
        provided: bool,
    ) -> (summary: FlagSummary)
        ensures
            summary@ == (FlagSummaryV {
                name: name@,
                alias: crate::flag::opt_text(alias),
                hint: crate::flag::opt_text(hint),
                value: crate::flag::opt_text(value),
                default_value: crate::flag::opt_text(default_value),
                accepts_value,
                provided,
            }),
    {
        FlagSummary {
            name: name.to_owned(),
            alias,
            hint,
            value,
            default_value,
            accepts_value,
            provided,
        }
    }

    /// Returns the name.
    pub fn name(&self) -> (name: &String)
        ensures
            name == self.name,
    {
        &self.name
    }

    /// Returns the alias.
    pub fn alias(&self) -> (alias: &Option<String>)
        ensures
            alias == self.alias,
    {
        &self.alias
    }

    /// Returns the hint.
    pub fn hint(&self) -> (hint: &Option<String>)
        ensures
            hint == self.hint,
    {
        &self.hint
    }

    /// Returns the effective value: the provided value if one was consumed,
    /// else the default value.
    pub fn value(&self) -> (value: &Option<String>)
        ensures
            value == self.value,
    {
        &self.value
    }

    /// Returns the default value.
    pub fn default_value(&self) -> (default_value: &Option<String>)
        ensures
            default_value == self.default_value,
    {
        &self.default_value
    }

    /// Returns true if the flag consumes the following token as its value.
    pub fn accepts_value(&self) -> (accepts: bool)
        ensures
            accepts == self.accepts_value,
    {
        self.accepts_value
    }

    /// Returns true if the user actually supplied the flag.
    pub fn provided(&self) -> (provided: bool)
        ensures
            provided == self.provided,
    {
        self.provided
    }
}

} // verus!
