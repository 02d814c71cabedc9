//! Core of a CSDL (OData "Common Schema Definition Language") metadata
//! compiler: a qualified-name model, a pattern-based inclusion/exclusion
//! filter engine, property composition across inheritance chains, a
//! namespace-pruning optimizer for the compiled intermediate
//! representation, and an acronym-aware identifier case converter,
//! together with a few pure helpers for Redfish BMC payload patching.

use vstd::prelude::*;

pub mod account_patch;
pub mod assoc;
pub mod casemungler;
pub mod compiled;
pub mod compiled_properties;
pub mod context;
pub mod credentials;
pub mod edmx;
pub mod event_patch;
pub mod generator;
pub mod json;
pub mod laws;
pub mod mac_address;
pub mod names;
pub mod oem;
pub mod one_or_collection;
pub mod optimizer;
pub mod quirks;
pub mod text;

verus! {

/// Grammar of a CSDL simple identifier: a non-empty run of ASCII
/// letters, digits and underscores that does not start with a digit.
pub open spec fn is_simple_identifier(s: Seq<char>) -> bool {
    &&& s.len() > 0
    &&& is_identifier_start(s[0])
    &&& forall|i: int| 0 < i < s.len() ==> is_identifier_part(#[trigger] s[i])
}

/// First character of an identifier: an ASCII letter or an underscore.
pub open spec fn is_identifier_start(c: char) -> bool {
    ||| 'A' <= c <= 'Z'
    ||| 'a' <= c <= 'z'
    ||| c == '_'
}

/// Later character of an identifier: an ASCII letter, digit or underscore.
pub open spec fn is_identifier_part(c: char) -> bool {
    ||| is_identifier_start(c)
    ||| '0' <= c <= '9'
}

/// Decide `is_identifier_start` for one character.
pub fn check_identifier_start(c: char) -> (r: bool)
    ensures
        r == is_identifier_start(c),
{
    ('A' <= c && c <= 'Z') || ('a' <= c && c <= 'z') || c == '_'
}

/// Decide `is_identifier_part` for one character.
pub fn check_identifier_part(c: char) -> (r: bool)
    ensures
        r == is_identifier_part(c),
{
    check_identifier_start(c) || ('0' <= c && c <= '9')
}

} // verus!
