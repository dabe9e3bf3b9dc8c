//! The closed set of HTTP verbs a request may use, and the case-insensitive
//! parser that admits a verb name.

use vstd::prelude::*;
use crate::errors::HttpError;

verus! {

/// The verbs a request can be sent with. The default is `Get`.
#[derive(Clone, Copy, Debug, PartialEq, Eq, Structural)]
pub enum Verb {
    Get,
    Post,
    Put,
    Delete,
}

impl Default for Verb {
    fn default() -> (r: Self)
        ensures
            r == Verb::Get,
    {
        Verb::Get
    }
}

/// `c` is the lower-case ASCII letter `l`, in either case.
pub open spec fn ci_match(c: char, l: char) -> bool {
    c == l || c as int == l as int - 32
}

/// The verb name spells "get", ignoring ASCII case.
pub open spec fn spells_get(s: Seq<char>) -> bool {
    s.len() == 3 && ci_match(s[0], 'g') && ci_match(s[1], 'e') && ci_match(s[2], 't')
}

/// The verb name spells "post", ignoring ASCII case.
pub open spec fn spells_post(s: Seq<char>) -> bool {
    s.len() == 4 && ci_match(s[0], 'p') && ci_match(s[1], 'o') && ci_match(s[2], 's') && ci_match(
        s[3],
        't',
    )
}

/// The verb name spells "put", ignoring ASCII case.
pub open spec fn spells_put(s: Seq<char>) -> bool {
    s.len() == 3 && ci_match(s[0], 'p') && ci_match(s[1], 'u') && ci_match(s[2], 't')
}

/// The verb name spells "delete", ignoring ASCII case.
pub open spec fn spells_delete(s: Seq<char>) -> bool {
    s.len() == 6 && ci_match(s[0], 'd') && ci_match(s[1], 'e') && ci_match(s[2], 'l') && ci_match(
        s[3],
        'e',
    ) && ci_match(s[4], 't') && ci_match(s[5], 'e')
}

/// What a verb name means: the verb it spells, ignoring ASCII case, or
/// nothing if it spells none of the four supported verbs.
pub open spec fn parse_verb_spec(s: Seq<char>) -> Option<Verb> {
    if spells_get(s) {
        Some(Verb::Get)
    } else if spells_post(s) {
        Some(Verb::Post)
    } else if spells_put(s) {
        Some(Verb::Put)
    } else if spells_delete(s) {
        Some(Verb::Delete)
    } else {
        None
    }
}

/// Whether `c` is the lower-case ASCII letter `l`, in either case.
fn ci_eq(c: char, l: char) -> (r: bool)
    requires
        'a' <= l <= 'z',
    ensures
        r == ci_match(c, l),
{
    c == l || c as u32 + 32 == l as u32
}

/// Parses a verb name, ignoring ASCII case; any name outside the supported
/// set is rejected with `UnsupportedVerbError`.
pub fn parse_verb(name: &str) -> (r: Result<Verb, HttpError>)
    ensures
        r == match parse_verb_spec(name@) {
            Some(v) => Ok::<Verb, HttpError>(v),
            None => Err::<Verb, HttpError>(HttpError::UnsupportedVerbError),
        },
{
    let n = name.unicode_len();
    if n == 3 {
        let c0 = name.get_char(0);
        let c1 = name.get_char(1);
        let c2 = name.get_char(2);
        if ci_eq(c0, 'g') && ci_eq(c1, 'e') && ci_eq(c2, 't') {
            Ok(Verb::Get)
        } else if ci_eq(c0, 'p') && ci_eq(c1, 'u') && ci_eq(c2, 't') {
            Ok(Verb::Put)
        } else {
            Err(HttpError::UnsupportedVerbError)
        }
    } else if n == 4 {
        let c0 = name.get_char(0);
        let c1 = name.get_char(1);
        let c2 = name.get_char(2);
        let c3 = name.get_char(3);
        if ci_eq(c0, 'p') && ci_eq(c1, 'o') && ci_eq(c2, 's') && ci_eq(c3, 't') {
            Ok(Verb::Post)
        } else {
            Err(HttpError::UnsupportedVerbError)
        }
    } else if n == 6 {
        let c0 = name.get_char(0);
        let c1 = name.get_char(1);
        let c2 = name.get_char(2);
        let c3 = name.get_char(3);
        let c4 = name.get_char(4);
        let c5 = name.get_char(5);
        if ci_eq(c0, 'd') && ci_eq(c1, 'e') && ci_eq(c2, 'l') && ci_eq(c3, 'e') && ci_eq(c4, 't')
            && ci_eq(c5, 'e') {
            Ok(Verb::Delete)
        } else {
            Err(HttpError::UnsupportedVerbError)
        }
    } else {
        Err(HttpError::UnsupportedVerbError)
    }
}

} // verus!
