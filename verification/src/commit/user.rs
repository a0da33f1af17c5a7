//! The author or committer of a commit: an optional name and an optional
//! email address.

use crate::strutil::{push_char, str_eq};
use vstd::prelude::*;
use vstd::string::*;

verus! {

/// Mathematical model of a `User`.
#[verifier::ext_equal]
pub struct UserV {
    pub name: Option<Seq<char>>,
    pub email: Option<Seq<char>>,
}

/// A commit's author or committer.
#[derive(Debug)]
pub struct User {
    pub name: Option<String>,
    pub email: Option<String>,
}

impl View for User {
    type V = UserV;

    open spec fn view(&self) -> UserV {
        UserV { name: self.name.deep_view(), email: self.email.deep_view() }
    }
}

/// The single-line rendering of a user: "name <email>", the name alone, the
/// bracketed email alone, or nothing at all.
pub open spec fn spec_user_string(u: UserV) -> Option<Seq<char>> {
    match u.name {
        Some(n) => match u.email {
            Some(e) => Some(n + seq![' ', '<'] + e + seq!['>']),
            None => Some(n),
        },
        None => match u.email {
            Some(e) => Some(seq!['<'] + e + seq!['>']),
            None => None,
        },
    }
}

fn opt_str_to_owned(s: Option<&str>) -> (r: Option<String>)
    ensures
        r.deep_view() == s.deep_view(),
{
    match s {
        Some(v) => Some(String::from_str(v)),
        None => None,
    }
}

/// Equality of two optional strings, character for character.
pub fn opt_string_eq(a: &Option<String>, b: &Option<String>) -> (r: bool)
    ensures
        r == (a.deep_view() == b.deep_view()),
{
    match (a, b) {
        (None, None) => true,
        (Some(x), Some(y)) => str_eq(x.as_str(), y.as_str()),
        _ => false,
    }
}

impl User {
    /// Build a user from the optional name and email the walk supplies.
    pub fn new(name: Option<&str>, email: Option<&str>) -> (r: Self)
        ensures
            r@ == (UserV { name: name.deep_view(), email: email.deep_view() }),
    {
        User { name: opt_str_to_owned(name), email: opt_str_to_owned(email) }
    }

    /// Render the user on one line, or nothing when both fields are absent.
    pub fn to_string(&self) -> (r: Option<String>)
        ensures
            r.deep_view() == spec_user_string(self@),
    {
        match (&self.name, &self.email) {
            (Some(n), Some(e)) => {
                let mut s = String::from_str(n.as_str());
                push_char(&mut s, ' ');
                push_char(&mut s, '<');
                s.append(e.as_str());
                push_char(&mut s, '>');
                proof {
                    assert(s@ =~= n@ + seq![' ', '<'] + e@ + seq!['>']);
                }
                Some(s)
            },
            (Some(n), None) => Some(String::from_str(n.as_str())),
            (None, Some(e)) => {
                let mut s = String::new();
                push_char(&mut s, '<');
                s.append(e.as_str());
                push_char(&mut s, '>');
                proof {
                    assert(s@ =~= seq!['<'] + e@ + seq!['>']);
                }
                Some(s)
            },
            (None, None) => None,
        }
    }
}

impl PartialEq for User {
    fn eq(&self, other: &User) -> (r: bool) {
        opt_string_eq(&self.name, &other.name) && opt_string_eq(&self.email, &other.email)
    }
}

impl vstd::std_specs::cmp::PartialEqSpecImpl for User {
    open spec fn obeys_eq_spec() -> bool {
        true
    }

    open spec fn eq_spec(&self, other: &User) -> bool {
        self@ == other@
    }
}

} // verus!
