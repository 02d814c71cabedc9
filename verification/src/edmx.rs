//! EDMX / CSDL schema elements, as plain data.
//!
//! These mirror the XML elements of a CSDL document after attribute
//! mapping. The raw `De*` forms and their `validate` conversions live
//! in the submodules.

/// 5.3 ComplexType and its raw form.
pub mod complex_type;

/// 5.1 EntityType and its raw form.
pub mod entity_type;

/// 6 Structural and navigation properties.
pub mod property;

/// 5 Schema.
pub mod schema;

use vstd::prelude::*;

use crate::names::QualifiedName;

verus! {

/// Reference to one namespace of a referenced schema document, with
/// its optional alias.
#[derive(Debug)]
pub struct SchemaInclude {
    /// `Namespace` attribute.
    pub namespace: crate::names::Namespace,
    /// `Alias` attribute.
    pub alias: Option<String>,
}

/// The value of a `Type` attribute: one value of the referenced type,
/// or a collection of them.
#[derive(Debug)]
pub enum TypeName {
    /// `Namespace.Type`
    One(QualifiedName),
    /// `Collection(Namespace.Type)`
    CollectionOf(QualifiedName),
}

impl Clone for TypeName {
    fn clone(&self) -> (r: Self)
        ensures
            self matches TypeName::One(v) ==> (r matches TypeName::One(w) && w@ == v@),
            self matches TypeName::CollectionOf(v) ==> (r matches TypeName::CollectionOf(w) && w@
                == v@),
    {
        match self {
            TypeName::One(v) => TypeName::One(v.clone()),
            TypeName::CollectionOf(v) => TypeName::CollectionOf(v.clone()),
        }
    }
}

/// Validation errors of the schema elements.
#[derive(Debug)]
pub enum ValidateError {
    /// An entity type declares more than one `Key` element.
    TooManyKeys,
    /// An error inside an entity type, wrapped with its name.
    EntityType(TypeName, Box<ValidateError>),
}

/// Entity type element, in the legacy flat form with raw attribute
/// strings.
#[derive(Debug)]
pub struct EntityType {
    /// `Name` attribute.
    pub name: String,
    /// `BaseType` attribute.
    pub base_type: Option<String>,
    /// `Abstract` attribute.
    pub is_abstract: Option<bool>,
    /// `OpenType` attribute.
    pub open_type: Option<bool>,
    /// `HasStream` attribute.
    pub has_stream: Option<bool>,
    /// `Key` child element.
    pub key: Option<Key>,
    /// Property and navigation property children, in order.
    pub items: Vec<EntityTypeItem>,
    /// Annotation children.
    pub annotations: Vec<Annotation>,
}

/// One child item of an entity type.
#[derive(Debug)]
pub enum EntityTypeItem {
    /// A structural property.
    Property(Property),
    /// A navigation property.
    NavigationProperty(NavigationProperty),
}

/// Key element: the property references forming the entity key.
#[derive(Debug)]
pub struct Key {
    /// `PropertyRef` children.
    pub property_refs: Vec<PropertyRef>,
}

/// PropertyRef element.
#[derive(Debug)]
pub struct PropertyRef {
    /// `Name` attribute.
    pub name: String,
    /// `Alias` attribute.
    pub alias: Option<String>,
}

/// Structural property element, flat form.
#[derive(Debug)]
pub struct Property {
    /// `Name` attribute.
    pub name: String,
    /// `Type` attribute.
    pub ptype: String,
    /// `Nullable` attribute.
    pub nullable: Option<bool>,
    /// `MaxLength` attribute.
    pub max_length: Option<String>,
    /// `Precision` attribute.
    pub precision: Option<i32>,
    /// `Scale` attribute: `variable` or a number.
    pub scale: Option<String>,
    /// `Unicode` attribute.
    pub unicode: Option<bool>,
    /// `DefaultValue` attribute.
    pub default_value: Option<String>,
    /// Annotation children.
    pub annotations: Vec<Annotation>,
}

/// Navigation property element, flat form.
#[derive(Debug)]
pub struct NavigationProperty {
    /// `Name` attribute.
    pub name: String,
    /// `Type` attribute.
    pub ptype: String,
    /// `Nullable` attribute.
    pub nullable: Option<bool>,
    /// `Partner` attribute.
    pub partner: Option<String>,
    /// `ContainsTarget` attribute.
    pub contains_target: Option<bool>,
    /// `ReferentialConstraint` children.
    pub referential_constraints: Vec<ReferentialConstraint>,
    /// `OnDelete` child.
    pub on_delete: Option<OnDelete>,
    /// Annotation children.
    pub annotations: Vec<Annotation>,
}

/// ReferentialConstraint element.
#[derive(Debug)]
pub struct ReferentialConstraint {
    /// `Property` attribute.
    pub property: String,
    /// `ReferencedProperty` attribute.
    pub referenced_property: String,
}

/// OnDelete element.
#[derive(Debug)]
pub struct OnDelete {
    /// `Action` attribute, such as `Cascade` or `None`.
    pub action: String,
}

/// Complex type element, flat form.
#[derive(Debug)]
pub struct ComplexType {
    /// `Name` attribute.
    pub name: String,
    /// `BaseType` attribute.
    pub base_type: Option<String>,
    /// `Abstract` attribute.
    pub is_abstract: Option<bool>,
    /// `OpenType` attribute.
    pub open_type: Option<bool>,
    /// Structural property children.
    pub properties: Vec<Property>,
    /// Navigation property children.
    pub navigation_properties: Vec<NavigationProperty>,
    /// Annotation children.
    pub annotations: Vec<Annotation>,
}

/// Enumeration type element.
#[derive(Debug)]
pub struct EnumType {
    /// `Name` attribute.
    pub name: String,
    /// `UnderlyingType` attribute.
    pub underlying_type: Option<String>,
    /// `IsFlags` attribute.
    pub is_flags: Option<bool>,
    /// `Member` children.
    pub members: Vec<EnumMember>,
    /// Annotation children.
    pub annotations: Vec<Annotation>,
}

/// One member of an enumeration type.
#[derive(Debug)]
pub struct EnumMember {
    /// `Name` attribute.
    pub name: String,
    /// `Value` attribute.
    pub value: Option<String>,
    /// Annotation children.
    pub annotations: Vec<Annotation>,
}

/// Type definition element: a named alias of an underlying type.
#[derive(Debug)]
pub struct TypeDefinition {
    /// `Name` attribute.
    pub name: String,
    /// `UnderlyingType` attribute.
    pub underlying_type: String,
    /// Annotation children.
    pub annotations: Vec<Annotation>,
}

/// Entity container element.
#[derive(Debug)]
pub struct EntityContainer {
    /// `Name` attribute.
    pub name: String,
    /// `EntitySet` children.
    pub entity_sets: Vec<EntitySet>,
    /// `Singleton` children.
    pub singletons: Vec<Singleton>,
    /// `ActionImport` children.
    pub action_imports: Vec<ActionImport>,
    /// `FunctionImport` children.
    pub function_imports: Vec<FunctionImport>,
    /// Annotation children.
    pub annotations: Vec<Annotation>,
}

/// Entity set element.
#[derive(Debug)]
pub struct EntitySet {
    /// `Name` attribute.
    pub name: String,
    /// `EntityType` attribute.
    pub entity_type: String,
    /// `NavigationPropertyBinding` children.
    pub navigation_property_bindings: Vec<NavigationPropertyBinding>,
    /// Annotation children.
    pub annotations: Vec<Annotation>,
}

/// Navigation property binding element.
#[derive(Debug)]
pub struct NavigationPropertyBinding {
    /// `Path` attribute.
    pub path: String,
    /// `Target` attribute.
    pub target: String,
}

/// Singleton element.
#[derive(Debug)]
pub struct Singleton {
    /// `Name` attribute.
    pub name: String,
    /// `Type` attribute.
    pub stype: String,
    /// `NavigationPropertyBinding` children.
    pub navigation_property_bindings: Vec<NavigationPropertyBinding>,
    /// Annotation children.
    pub annotations: Vec<Annotation>,
}

/// Action import element.
#[derive(Debug)]
pub struct ActionImport {
    /// `Name` attribute.
    pub name: String,
    /// `Action` attribute.
    pub action: String,
    /// Annotation children.
    pub annotations: Vec<Annotation>,
}

/// Function import element.
#[derive(Debug)]
pub struct FunctionImport {
    /// `Name` attribute.
    pub name: String,
    /// `Function` attribute.
    pub function: String,
    /// Annotation children.
    pub annotations: Vec<Annotation>,
}

/// Annotation element.
#[derive(Debug)]
pub struct Annotation {
    /// `Term` attribute.
    pub term: String,
    /// `String` attribute.
    pub string: Option<String>,
    /// `Bool` attribute.
    pub bool_value: Option<bool>,
    /// `Int` attribute.
    pub int_value: Option<i64>,
    /// `EnumMember` attribute.
    pub enum_member: Option<String>,
}

/// Annotations element: a targeted group of annotations.
#[derive(Debug)]
pub struct Annotations {
    /// `Target` attribute.
    pub target: String,
    /// `Qualifier` attribute.
    pub qualifier: Option<String>,
    /// Annotation children.
    pub annotations: Vec<Annotation>,
}

/// Term element.
#[derive(Debug)]
pub struct Term {
    /// `Name` attribute.
    pub name: String,
    /// `Type` attribute.
    pub ttype: Option<String>,
    /// `AppliesTo` attribute.
    pub applies_to: Option<String>,
    /// `DefaultValue` attribute.
    pub default_value: Option<String>,
    /// Annotation children.
    pub annotations: Vec<Annotation>,
}

} // verus!
