//! The compiled intermediate representation: qualified-name-keyed
//! tables of simple, complex and entity types, plus the root
//! singleton bindings.

use vstd::prelude::*;

use crate::compiled_properties::CompiledProperties;
use crate::compiled_properties::CpsView;
use crate::edmx::EnumType;
use crate::edmx::TypeDefinition;
use crate::names::QnView;
use crate::names::QualifiedName;

verus! {

/// Declared attributes of a simple type: a type alias or an
/// enum-backed scalar.
#[derive(Debug)]
pub enum SimpleTypeAttrs {
    /// A named alias of an underlying type.
    TypeDefinition(TypeDefinition),
    /// An enumeration type.
    EnumType(EnumType),
}

/// A compiled structured type: the resolved properties of one complex
/// or entity type.
#[derive(Debug)]
pub struct CompiledStructured {
    /// Resolved properties and navigation properties.
    pub properties: CompiledProperties,
}

impl View for CompiledStructured {
    type V = CpsView;

    open spec fn view(&self) -> CpsView {
        self.properties@
    }
}

/// The whole resolved schema universe.
#[derive(Debug)]
pub struct Compiled {
    /// Simple types, keyed by qualified name.
    pub simple_types: Vec<(QualifiedName, SimpleTypeAttrs)>,
    /// Complex types, keyed by qualified name.
    pub complex_types: Vec<(QualifiedName, CompiledStructured)>,
    /// Entity types, keyed by qualified name.
    pub entity_types: Vec<(QualifiedName, CompiledStructured)>,
    /// Root singleton bindings: singleton name to entity type.
    pub root_singletons: Vec<(String, QualifiedName)>,
}

impl Compiled {
    /// The qualified names of the simple types, in table order.
    pub open spec fn simple_keys(&self) -> Seq<QnView> {
        self.simple_types@.map_values(|e: (QualifiedName, SimpleTypeAttrs)| e.0@)
    }

    /// Well-formedness of the table the optimizer walks: the simple
    /// type keys are well formed and pairwise distinct.
    pub open spec fn wf(&self) -> bool {
        &&& forall|i: int|
            0 <= i < self.simple_types@.len() ==> (#[trigger] self.simple_types@[i]).0.wf()
        &&& forall|i: int, j: int|
            0 <= i < j < self.simple_types@.len() ==> (#[trigger] self.simple_types@[i]).0@ != (
            #[trigger] self.simple_types@[j]).0@
    }
}

} // verus!
