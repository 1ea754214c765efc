//! Index-name resolution and charset validation.

use vstd::prelude::*;
use convert_case::{Case, Casing};
use crate::model::ConfigError;

verus! {

/// A character the index-name charset accepts: ASCII letters, digits,
/// hyphen and underscore.
pub open spec fn valid_name_char(c: char) -> bool {
    ('a' <= c && c <= 'z') || ('A' <= c && c <= 'Z') || ('0' <= c && c <= '9') || c == '-' || c
        == '_'
}

/// A valid index name: non-empty, every character in the accepted charset.
pub open spec fn valid_name(s: Seq<char>) -> bool {
    s.len() > 0 && (forall|i: int| 0 <= i < s.len() ==> valid_name_char(s[i]))
}

/// Charset validation of a candidate index name.
pub fn is_valid_name(name: &str) -> (r: bool)
    ensures
        r == valid_name(name@),
{
    let len = name.unicode_len();
    if len == 0 {
        return false;
    }
    let mut i: usize = 0;
    while i < len
        invariant
            i <= len,
            len == name@.len(),
            forall|j: int| 0 <= j < i ==> valid_name_char(name@[j]),
        decreases len - i,
    {
        let c = name.get_char(i);
        let ok = ('a' <= c && c <= 'z') || ('A' <= c && c <= 'Z') || ('0' <= c && c <= '9') || c
            == '-' || c == '_';
        if !ok {
            return false;
        }
        i = i + 1;
    }
    true
}

/// The lowercase, word-boundary-delimited form of an identifier, as the
/// case-conversion collaborator computes it.
pub uninterp spec fn snake_of(s: Seq<char>) -> Seq<char>;

/// Relies on convert_case::Casing::to_case with Case::Snake: the result is a
/// function of the input characters alone.
#[verifier::external_body]
pub(crate) fn to_snake_case(s: &str) -> (r: String)
    ensures
        r@ == snake_of(s@),
{
    s.to_case(Case::Snake)
}

/// The candidate index name and its source location: the explicit
/// override if one is given, else the case-folded type identifier with the
/// location of the type's definition.
pub open spec fn resolved_candidate(
    over: Option<(Seq<char>, usize)>,
    ident: Seq<char>,
    ident_span: usize,
) -> (Seq<char>, usize) {
    match over {
        Some(p) => p,
        None => (snake_of(ident), ident_span),
    }
}

/// Resolves the index name of a type and validates its charset: the
/// explicit override wins over the derived default, and either candidate
/// must be non-empty and drawn from the accepted charset.
pub fn resolve_index_name(over: Option<crate::model::NameOverride>, ident: &str, ident_span: usize) -> (r:
    Result<(String, usize), ConfigError>)
    ensures
        ({
            let c = resolved_candidate(crate::attrs::override_view(over), ident@, ident_span);
            match r {
                Ok(p) => valid_name(c.0) && p.0@ == c.0 && p.1 == c.1,
                Err(e) => !valid_name(c.0) && e == (ConfigError::InvalidName { span: c.1 }),
            }
        }),
{
    let (name, span): (String, usize) = match over {
        Some(nv) => (nv.value, nv.span),
        None => (to_snake_case(ident), ident_span),
    };
    if is_valid_name(name.as_str()) {
        Ok((name, span))
    } else {
        Err(ConfigError::InvalidName { span })
    }
}

} // verus!
