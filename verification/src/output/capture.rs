//! Reading what a device reported while resources were built.

use vstd::prelude::*;
use crate::output::gpu::{ErrorTrap, Reports};

verus! {

impl Reports {
    /// The message to go by: that of the validation error if there was one,
    /// else that of the out-of-memory error, else that of the internal error.
    pub open spec fn spec_first(self) -> Option<String> {
        first_of_spec(self.validation, first_of_spec(self.memory, self.internal))
    }

    /// The message to go by as a text, empty if the device reported nothing.
    pub open spec fn spec_message(self) -> Seq<char> {
        match self.spec_first() {
            Some(message) => message@,
            None => Seq::empty(),
        }
    }

    /// The message to go by as a text, empty if the device reported nothing.
    pub fn message(self) -> (message: String)
        ensures
            message@ == self.spec_message(),
    {
        match self.first() {
            Some(message) => message,
            None => String::new(),
        }
    }

    /// The message to go by, if the device reported anything.
    pub fn first(self) -> (message: Option<String>)
        ensures
            message == self.spec_first(),
            message is None <==> self.validation is None && self.memory is None
                && self.internal is None,
    {
        first_of(self.validation, first_of(self.memory, self.internal))
    }
}

impl<'a> ErrorTrap<'a> {
    /// Closes the trap and returns the message to go by, if the device
    /// reported anything while the trap was open.
    pub(crate) fn report(self) -> Option<String> {
        match self.seal(()) {
            Ok(()) => None,
            Err(reports) => reports.first(),
        }
    }
}

/// `first` if it holds a message, else `second`.
pub open spec fn first_of_spec(first: Option<String>, second: Option<String>) -> Option<String> {
    if first is Some {
        first
    } else {
        second
    }
}

/// `first` if it holds a message, else `second`.
pub fn first_of(first: Option<String>, second: Option<String>) -> (chosen: Option<String>)
    ensures
        chosen == first_of_spec(first, second),
{
    match first {
        Some(message) => Some(message),
        None => second,
    }
}

} // verus!
