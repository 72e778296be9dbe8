//! Status codes exchanged with the host.
use vstd::prelude::*;

verus! {

/// Status values returned to the host by dispatch adapters.
#[derive(Clone, Copy, Debug, PartialEq, Eq, Structural)]
pub enum ReturnCode {
    /// Processing goes on normally.
    Success,
    /// Processing goes on, but the host must not pass the event further.
    SuccessEat,
    /// The event could not be handled.
    Error,
}

/// The integer the host expects for a status.
pub open spec fn return_code_value(code: ReturnCode) -> i32 {
    match code {
        ReturnCode::Success => 0i32,
        ReturnCode::SuccessEat => 1i32,
        ReturnCode::Error => -1i32,
    }
}

impl ReturnCode {
    /// The host's integer for this status: 0, 1 or -1.
    pub fn value(&self) -> (r: i32)
        ensures
            r == return_code_value(*self),
    {
        match self {
            ReturnCode::Success => 0,
            ReturnCode::SuccessEat => 1,
            ReturnCode::Error => -1,
        }
    }
}

/// Result of setting or resetting a configuration option.
#[derive(Clone, Copy, Debug, PartialEq, Eq, Structural)]
pub enum OptionChanged {
    /// The option was successfully changed.
    Changed,
    /// The option's value has not changed.
    Unchanged,
    /// The option was not found.
    NotFound,
    /// An error occurred changing the value.
    Error,
}

/// The host's integer for each outcome of setting an option.
pub open spec fn option_changed_value(o: OptionChanged) -> i32 {
    match o {
        OptionChanged::Changed => 2i32,
        OptionChanged::Unchanged => 1i32,
        OptionChanged::Error => 0i32,
        OptionChanged::NotFound => -1i32,
    }
}

/// The integers the host uses to report the outcome of setting an option.
pub open spec fn is_option_set_code(v: i32) -> bool {
    -1 <= v <= 2
}

impl OptionChanged {
    /// Reads the host's outcome code of an option update.
    pub fn from_int(v: i32) -> (r: OptionChanged)
        requires
            is_option_set_code(v),
        ensures
            option_changed_value(r) == v,
    {
        if v == 2 {
            OptionChanged::Changed
        } else if v == 1 {
            OptionChanged::Unchanged
        } else if v == 0 {
            OptionChanged::Error
        } else {
            OptionChanged::NotFound
        }
    }
}

} // verus!
