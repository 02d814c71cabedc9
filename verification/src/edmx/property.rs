//! Raw structural and navigation properties and their validation.

use vstd::prelude::*;

use crate::edmx::Annotation;
use crate::edmx::OnDelete;
use crate::edmx::ReferentialConstraint;
use crate::edmx::TypeName;
use crate::edmx::ValidateError;
use crate::names::PropertyName;

verus! {

/// Raw structural property, as deserialized.
#[derive(Debug)]
pub struct DeStructuralProperty {
    /// `Name` attribute.
    pub name: PropertyName,
    /// `Type` attribute.
    pub ptype: TypeName,
    /// `Nullable` attribute.
    pub nullable: Option<bool>,
    /// `MaxLength` attribute.
    pub max_length: Option<String>,
    /// `Precision` attribute.
    pub precision: Option<i32>,
    /// `Scale` attribute: `variable` or a number.
    pub scale: Option<String>,
    /// `Unicode` attribute.
    pub unicode: Option<bool>,
    /// `DefaultValue` attribute.
    pub default_value: Option<String>,
    /// Annotation children.
    pub annotations: Vec<Annotation>,
}

/// Raw navigation property, as deserialized.
#[derive(Debug)]
pub struct DeNavigationProperty {
    /// `Name` attribute.
    pub name: PropertyName,
    /// `Type` attribute.
    pub ptype: TypeName,
    /// `Nullable` attribute.
    pub nullable: Option<bool>,
    /// `Partner` attribute.
    pub partner: Option<String>,
    /// `ContainsTarget` attribute.
    pub contains_target: Option<bool>,
    /// `ReferentialConstraint` children.
    pub referential_constraints: Vec<ReferentialConstraint>,
    /// `OnDelete` child.
    pub on_delete: Option<OnDelete>,
    /// Annotation children.
    pub annotations: Vec<Annotation>,
}

/// A validated property: its name, and the raw attributes under their
/// structural or navigation kind.
#[derive(Debug)]
pub struct Property {
    /// Property name.
    pub name: PropertyName,
    /// The property attributes, by kind.
    pub attrs: PropertyAttrs,
}

/// The two kinds of property a type can declare.
#[derive(Debug)]
pub enum PropertyAttrs {
    /// A structural property.
    StructuralProperty(DeStructuralProperty),
    /// A navigation property.
    NavigationProperty(DeNavigationProperty),
}

impl DeStructuralProperty {
    /// Validation of a structural property: total, and keeps every
    /// attribute under the structural kind.
    pub fn validate(self) -> (r: Result<Property, ValidateError>)
        ensures
            r matches Ok(p) ==> ({
                &&& p.name == self.name
                &&& p.attrs matches PropertyAttrs::StructuralProperty(v) && v == self
            }),
            r is Ok,
    {
        let name = self.name.clone();
        Ok(Property { name, attrs: PropertyAttrs::StructuralProperty(self) })
    }
}

impl DeNavigationProperty {
    /// Validation of a navigation property: total, and keeps every
    /// attribute under the navigation kind.
    pub fn validate(self) -> (r: Result<Property, ValidateError>)
        ensures
            r matches Ok(p) ==> ({
                &&& p.name == self.name
                &&& p.attrs matches PropertyAttrs::NavigationProperty(v) && v == self
            }),
            r is Ok,
    {
        let name = self.name.clone();
        Ok(Property { name, attrs: PropertyAttrs::NavigationProperty(self) })
    }
}

} // verus!
