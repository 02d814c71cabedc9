//! MAC addresses as returned by the BMC.
//!
//! No particular format is enforced: whatever the server returns is
//! kept. The type only replaces untyped string references in
//! signatures.

use vstd::prelude::*;

verus! {

/// A MAC address, in whatever format the server returned it.
#[derive(Debug, Clone, Copy)]
pub struct MacAddress<'a> {
    s: &'a str,
}

impl<'a> View for MacAddress<'a> {
    type V = Seq<char>;

    closed spec fn view(&self) -> Seq<char> {
        self.s@
    }
}

impl<'a> MacAddress<'a> {
    /// Wrap a server-provided MAC address string.
    pub fn new(v: &'a str) -> (r: MacAddress<'a>)
        ensures
            r@ == v@,
    {
        MacAddress { s: v }
    }

    /// The string representation of the MAC address.
    pub fn as_str(&self) -> (r: &'a str)
        ensures
            r@ == self@,
    {
        self.s
    }
}

} // verus!
