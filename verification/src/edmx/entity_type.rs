//! Raw entity type and its validation.

use vstd::prelude::*;

use crate::edmx::Annotation;
use crate::edmx::Key;
use crate::edmx::TypeName;
use crate::edmx::ValidateError;
use crate::edmx::property::DeNavigationProperty;
use crate::edmx::property::DeStructuralProperty;
use crate::edmx::property::Property;
use crate::edmx::property::PropertyAttrs;

verus! {

/// Raw entity type, as deserialized.
#[derive(Debug)]
pub struct DeEntityType {
    /// `Name` attribute.
    pub name: TypeName,
    /// `BaseType` attribute.
    pub base_type: Option<TypeName>,
    /// `Abstract` attribute.
    pub is_abstract: Option<bool>,
    /// `OpenType` attribute.
    pub open_type: Option<bool>,
    /// `HasStream` attribute.
    pub has_stream: Option<bool>,
    /// Child items, in order.
    pub items: Vec<DeEntityTypeItem>,
}

/// One child item of an entity type.
#[derive(Debug)]
pub enum DeEntityTypeItem {
    /// The entity key.
    Key(Key),
    /// A structural property.
    StructuralProperty(DeStructuralProperty),
    /// A navigation property.
    NavigationProperty(DeNavigationProperty),
    /// An annotation.
    Annotation(Annotation),
}

/// A validated entity type: its name, at most one key, the validated
/// properties in declaration order, and the annotations.
#[derive(Debug)]
pub struct EntityType {
    /// `Name` attribute.
    pub name: TypeName,
    /// The entity key, when one is declared.
    pub key: Option<Key>,
    /// Structural and navigation properties, in order.
    pub properties: Vec<Property>,
    /// Annotation children.
    pub annotations: Vec<Annotation>,
}

/// The keys among the child items, in order.
pub open spec fn keys_of(items: Seq<DeEntityTypeItem>) -> Seq<Key>
    decreases items.len(),
{
    if items.len() == 0 {
        Seq::empty()
    } else {
        keys_of(items.drop_last()) + (match items.last() {
            DeEntityTypeItem::Key(k) => seq![k],
            _ => Seq::empty(),
        })
    }
}

/// The validated properties of the child items, in order: each
/// structural or navigation property keeps its attributes under its
/// kind.
pub open spec fn properties_of(items: Seq<DeEntityTypeItem>) -> Seq<Property>
    decreases items.len(),
{
    if items.len() == 0 {
        Seq::empty()
    } else {
        properties_of(items.drop_last()) + (match items.last() {
            DeEntityTypeItem::StructuralProperty(p) => seq![
                Property { name: p.name, attrs: PropertyAttrs::StructuralProperty(p) },
            ],
            DeEntityTypeItem::NavigationProperty(p) => seq![
                Property { name: p.name, attrs: PropertyAttrs::NavigationProperty(p) },
            ],
            _ => Seq::empty(),
        })
    }
}

/// The annotations among the child items, in order.
pub open spec fn entity_annotations_of(items: Seq<DeEntityTypeItem>) -> Seq<Annotation>
    decreases items.len(),
{
    if items.len() == 0 {
        Seq::empty()
    } else {
        entity_annotations_of(items.drop_last()) + (match items.last() {
            DeEntityTypeItem::Annotation(a) => seq![a],
            _ => Seq::empty(),
        })
    }
}

impl DeEntityType {
    /// Validation of an entity type: the children are sorted into the
    /// key, the properties and the annotations; more than one key is
    /// an error, wrapped with the owning entity type's name.
    #[verifier::loop_isolation(false)]
    pub fn validate(self) -> (r: Result<EntityType, ValidateError>)
        ensures
            r is Ok <==> keys_of(self.items@).len() <= 1,
            r matches Ok(et) ==> {
                &&& et.name == self.name
                &&& et.key == (if keys_of(self.items@).len() == 0 {
                    None
                } else {
                    Some(keys_of(self.items@)[0])
                })
                &&& et.properties@ == properties_of(self.items@)
                &&& et.annotations@ == entity_annotations_of(self.items@)
            },
            r matches Err(e) ==> (e matches ValidateError::EntityType(n, inner) && n == self.name
                && *inner == ValidateError::TooManyKeys),
    {
        let ghost orig = self.items@;
        let mut items = self.items;
        let total = items.len();
        proof {
            assert(orig.len() == total);
        }
        let mut keys: Vec<Key> = Vec::new();
        let mut properties: Vec<Property> = Vec::new();
        let mut annotations: Vec<Annotation> = Vec::new();
        let mut k: usize = 0;
        proof {
            assert(orig.take(0) =~= Seq::<DeEntityTypeItem>::empty());
            assert(keys@ =~= keys_of(orig.take(0)));
            assert(properties@ =~= properties_of(orig.take(0)));
            assert(annotations@ =~= entity_annotations_of(orig.take(0)));
        }
        while items.len() > 0
            invariant
                0 <= k <= orig.len(),
                orig.len() <= usize::MAX,
                k + items@.len() == orig.len(),
                items@ == orig.skip(k as int),
                keys@ == keys_of(orig.take(k as int)),
                properties@ == properties_of(orig.take(k as int)),
                annotations@ == entity_annotations_of(orig.take(k as int)),
            decreases items@.len(),
        {
            let v = items.remove(0);
            proof {
                assert(v == orig[k as int]);
                assert(items@ =~= orig.skip(k + 1));
                assert(orig.take(k + 1).drop_last() =~= orig.take(k as int));
                assert(orig.take(k + 1).last() == orig[k as int]);
            }
            match v {
                DeEntityTypeItem::Key(key) => {
                    keys.push(key);
                },
                DeEntityTypeItem::StructuralProperty(p) => {
                    match p.validate() {
                        Ok(prop) => {
                            properties.push(prop);
                        },
                        Err(_) => {
                            proof {
                                assert(false);
                            }
                        },
                    }
                },
                DeEntityTypeItem::NavigationProperty(p) => {
                    match p.validate() {
                        Ok(prop) => {
                            properties.push(prop);
                        },
                        Err(_) => {
                            proof {
                                assert(false);
                            }
                        },
                    }
                },
                DeEntityTypeItem::Annotation(a) => {
                    annotations.push(a);
                },
            }
            proof {
                assert(keys@ =~= keys_of(orig.take(k + 1)));
                assert(properties@ =~= properties_of(orig.take(k + 1)));
                assert(annotations@ =~= entity_annotations_of(orig.take(k + 1)));
            }
            k += 1;
        }
        proof {
            assert(orig.take(orig.len() as int) =~= orig);
        }
        if keys.len() > 1 {
            return Err(ValidateError::EntityType(self.name, Box::new(ValidateError::TooManyKeys)));
        }
        let key = if keys.len() > 0 {
            let k0 = keys.remove(0);
            proof {
                assert(k0 == keys_of(orig)[0]);
            }
            Some(k0)
        } else {
            None
        };
        Ok(EntityType { name: self.name, key, properties, annotations })
    }
}

} // verus!
