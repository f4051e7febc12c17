//! Plain diagnostics lines: each process tags its lines with a short role so that
//! controller and subject output interleave readably in one terminal.

use vstd::prelude::*;

use crate::text::{push_char, push_str, string_from};

verus! {

/// The process's role tag, set once.
pub struct Diag {
    role: Option<String>,
}

impl Diag {
    /// No role set yet.
    pub fn new() -> (r: Diag)
        ensures
            r.role_spec() is None,
    {
        Diag { role: None }
    }

    /// The role set, if any.
    pub closed spec fn role_spec(&self) -> Option<Seq<char>> {
        match self.role {
            Some(r) => Some(r@),
            None => None,
        }
    }

    /// The role tag shown on every line: the one set, else `harness`.
    pub open spec fn role_text(&self) -> Seq<char> {
        match self.role_spec() {
            Some(r) => r,
            None => "harness"@,
        }
    }

    /// Sets the role tag (`"controller"` / `"subject"`); only the first call has effect.
    pub fn set_role(&mut self, role: &str)
        ensures
            final(self).role_spec() == match old(self).role_spec() {
                Some(r) => Some(r),
                None => Some(role@),
            },
    {
        if self.role.is_none() {
            self.role = Some(string_from(role));
        }
    }

    /// The role tag shown on every line.
    pub fn role(&self) -> (r: String)
        ensures
            r@ == self.role_text(),
    {
        match &self.role {
            Some(r) => string_from(r.as_str()),
            None => string_from("harness"),
        }
    }

    /// The line for a message at `level`: `[role level] message`.
    pub fn line(&self, level: &str, msg: &str) -> (r: String)
        ensures
            r@ == seq!['['] + self.role_text() + seq![' '] + level@ + seq![']', ' '] + msg@,
    {
        let mut s = String::new();
        push_char(&mut s, '[');
        let role = self.role();
        push_str(&mut s, role.as_str());
        push_char(&mut s, ' ');
        push_str(&mut s, level);
        push_char(&mut s, ']');
        push_char(&mut s, ' ');
        push_str(&mut s, msg);
        s
    }
}

} // verus!
