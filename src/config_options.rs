//! Typed handles on configuration options.
use vstd::prelude::*;
use crate::status::{is_option_set_code, option_changed_value, OptionChanged};
use crate::strings::{from_host, host_text};
use crate::weechat::Weechat;

verus! {

/// The value type of a configuration option.
#[derive(Clone, Copy, Debug, PartialEq, Eq, Structural)]
pub enum OptionType {
    Boolean,
    Integer,
    String,
    Color,
}

impl OptionType {
    /// The host's name of the type.
    pub fn as_str(&self) -> (r: &'static str)
        ensures
            *self == OptionType::Boolean ==> r@ == "boolean"@,
            *self == OptionType::Integer ==> r@ == "integer"@,
            *self == OptionType::String ==> r@ == "string"@,
            *self == OptionType::Color ==> r@ == "color"@,
    {
        match self {
            OptionType::Boolean => "boolean",
            OptionType::Integer => "integer",
            OptionType::String => "string",
            OptionType::Color => "color",
        }
    }
}

impl Default for OptionType {
    /// Options hold strings unless told otherwise.
    fn default() -> (r: OptionType)
        ensures
            r == OptionType::String,
    {
        OptionType::String
    }
}

/// Reads the host's outcome code of an option update; codes outside the
/// host's set give `None`.
pub fn option_changed_from_host(v: i32) -> (r: Option<OptionChanged>)
    ensures
        r is Some <==> is_option_set_code(v),
        r matches Some(o) ==> option_changed_value(o) == v,
{
    if is_option_set_code_exec(v) {
        Some(OptionChanged::from_int(v))
    } else {
        None
    }
}

fn is_option_set_code_exec(v: i32) -> (r: bool)
    ensures
        r == is_option_set_code(v),
{
    -1 <= v && v <= 2
}

/// A handle on a host configuration option.
#[derive(Clone, Copy, Debug)]
pub struct OptionHandle {
    ptr: usize,
    weechat: Weechat,
}

impl OptionHandle {
    /// The host's address of the option.
    pub closed spec fn host_ptr(self) -> usize {
        self.ptr
    }

    /// The context handle the option was reached through.
    pub closed spec fn context(self) -> Weechat {
        self.weechat
    }

    /// Pairs a host option with the context handle.
    pub fn from_ptrs(ptr: usize, weechat: Weechat) -> (r: OptionHandle)
        ensures
            r.host_ptr() == ptr,
            r.context() == weechat,
    {
        OptionHandle { ptr, weechat }
    }

    /// The host's address of the option.
    pub fn get_ptr(&self) -> (r: usize)
        ensures
            r == self.host_ptr(),
    {
        self.ptr
    }

    /// The context handle the option was reached through.
    pub fn get_weechat(&self) -> (r: Weechat)
        ensures
            r == self.context(),
    {
        self.weechat
    }

    /// Resets the option to its default value through the host's entry point
    /// `host_option_reset`, which gets the option and whether to run its
    /// change callback. The host's code is read as an outcome; an unknown
    /// code gives `None`.
    pub fn reset<H: FnOnce(usize, i32) -> i32>(&self, run_callback: bool, host_option_reset: H) -> (r: Option<OptionChanged>)
        requires
            forall|p: usize, c: i32| host_option_reset.requires((p, c)),
        ensures
            exists|code: i32|
                host_option_reset.ensures((self.host_ptr(), if run_callback { 1i32 } else { 0i32 }), code)
                    && (r is Some <==> is_option_set_code(code))
                    && (r matches Some(o) ==> option_changed_value(o) == code),
    {
        let flag: i32 = if run_callback { 1 } else { 0 };
        let code = host_option_reset(self.ptr, flag);
        option_changed_from_host(code)
    }
}

/// A configuration option with a string value.
#[derive(Clone, Copy, Debug)]
pub struct StringOption {
    pub handle: OptionHandle,
}

/// A configuration option with a boolean value.
#[derive(Clone, Copy, Debug)]
pub struct BooleanOption {
    pub handle: OptionHandle,
}

/// A configuration option with an integer value.
#[derive(Clone, Copy, Debug)]
pub struct IntegerOption {
    pub handle: OptionHandle,
}

/// A configuration option with a color value.
#[derive(Clone, Copy, Debug)]
pub struct ColorOption {
    pub handle: OptionHandle,
}

impl StringOption {
    /// The option's value, read from the host string that
    /// `host_config_string` returns for it.
    pub fn value<H: FnOnce(usize) -> Vec<u8>>(&self, host_config_string: H) -> (r: String)
        requires
            forall|p: usize| host_config_string.requires((p,)),
        ensures
            exists|b: Vec<u8>| host_config_string.ensures((self.handle.host_ptr(),), b) && r@ == host_text(b@),
    {
        let p = self.handle.get_ptr();
        let bytes = host_config_string(p);
        from_host(bytes.as_slice())
    }
}

impl ColorOption {
    /// The option's color name, read from the host string that
    /// `host_config_color` returns for it.
    pub fn value<H: FnOnce(usize) -> Vec<u8>>(&self, host_config_color: H) -> (r: String)
        requires
            forall|p: usize| host_config_color.requires((p,)),
        ensures
            exists|b: Vec<u8>| host_config_color.ensures((self.handle.host_ptr(),), b) && r@ == host_text(b@),
    {
        let p = self.handle.get_ptr();
        let bytes = host_config_color(p);
        from_host(bytes.as_slice())
    }
}

impl BooleanOption {
    /// The option's value: whether the host's integer for it is not 0.
    pub fn value<H: FnOnce(usize) -> i32>(&self, host_config_boolean: H) -> (r: bool)
        requires
            forall|p: usize| host_config_boolean.requires((p,)),
        ensures
            exists|v: i32| host_config_boolean.ensures((self.handle.host_ptr(),), v) && r == (v != 0),
    {
        let p = self.handle.get_ptr();
        let v = host_config_boolean(p);
        v != 0
    }
}

impl IntegerOption {
    /// The option's value as the host's entry point `host_config_integer`
    /// reports it.
    pub fn value<H: FnOnce(usize) -> i32>(&self, host_config_integer: H) -> (r: i32)
        requires
            forall|p: usize| host_config_integer.requires((p,)),
        ensures
            host_config_integer.ensures((self.handle.host_ptr(),), r),
    {
        let p = self.handle.get_ptr();
        host_config_integer(p)
    }
}

} // verus!
