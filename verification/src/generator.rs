//! What a code-generation backend consumes for one simple type: the
//! chosen identifier and the declared attributes. The backends
//! themselves (token emission) live outside the library.

use vstd::prelude::*;

use crate::compiled::SimpleTypeAttrs;
use crate::names::SimpleIdentifier;

verus! {

/// Type definition that maps to a simple type.
#[derive(Debug)]
pub struct SimpleDef {
    /// The identifier chosen for the generated type.
    pub name: SimpleIdentifier,
    /// The declared attributes of the simple type.
    pub attrs: SimpleTypeAttrs,
}

impl SimpleDef {
    /// Pair an identifier with the attributes it names.
    pub fn new(name: SimpleIdentifier, attrs: SimpleTypeAttrs) -> (r: SimpleDef)
        ensures
            r.name@ == name@,
            r.attrs == attrs,
    {
        SimpleDef { name, attrs }
    }
}

} // verus!
