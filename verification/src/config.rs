//! The server's settings and the limits that its policy puts on names and
//! values.

use vstd::prelude::*;
use vstd::utf8::encode_utf8;

verus! {

/// The number of bytes of a text in UTF-8, as `str::len` gives it.
pub open spec fn byte_len(s: Seq<char>) -> usize {
    encode_utf8(s).len() as usize
}

/// The server's settings.
#[derive(Debug, Clone)]
pub struct Config {
    pub bind: String,
    pub policy: Policy,
    pub mpsc_channel_buffer: usize,
}

/// Bounds, in bytes, on what clients may send.
#[derive(Debug, Clone, Copy, PartialEq, Eq, Structural)]
pub struct Policy {
    pub variable_name_max_length: usize,
    pub variable_name_min_length: usize,
    pub value_max_length: usize,
    pub username_max_length: usize,
    pub username_min_length: usize,
}

impl Policy {
    /// A user name is accepted when its length lies within the bounds.
    pub open spec fn username_ok(self, name: Seq<char>) -> bool {
        self.username_min_length <= byte_len(name) <= self.username_max_length
    }

    /// A variable name is accepted when its length lies within the bounds.
    pub open spec fn var_name_ok(self, name: Seq<char>) -> bool {
        self.variable_name_min_length <= byte_len(name) <= self.variable_name_max_length
    }

    /// A value is accepted when its JSON text is not too long.
    pub open spec fn value_ok(self, value: Seq<char>) -> bool {
        byte_len(value) <= self.value_max_length
    }

    /// Whether the policy accepts this user name.
    pub fn check_username(&self, name: &str) -> (ok: bool)
        ensures
            ok == self.username_ok(name@),
    {
        name.len() <= self.username_max_length && name.len() >= self.username_min_length
    }

    /// Whether the policy accepts this variable name.
    pub fn check_var_name(&self, name: &str) -> (ok: bool)
        ensures
            ok == self.var_name_ok(name@),
    {
        name.len() <= self.variable_name_max_length && name.len()
            >= self.variable_name_min_length
    }

    /// Whether the policy accepts a value with this JSON text.
    pub fn check_value(&self, text: &str) -> (ok: bool)
        ensures
            ok == self.value_ok(text@),
    {
        text.len() <= self.value_max_length
    }
}

} // verus!
