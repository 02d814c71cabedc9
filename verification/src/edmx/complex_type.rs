//! Raw complex type and its validation.

use vstd::prelude::*;

use crate::edmx::Annotation;
use crate::edmx::TypeName;
use crate::edmx::ValidateError;
use crate::edmx::property::DeNavigationProperty;
use crate::edmx::property::DeStructuralProperty;

verus! {

/// Raw complex type, as deserialized.
#[derive(Debug)]
pub struct DeComplexType {
    /// `Name` attribute.
    pub name: TypeName,
    /// `BaseType` attribute.
    pub base_type: Option<TypeName>,
    /// `Abstract` attribute.
    pub is_abstract: Option<bool>,
    /// `OpenType` attribute.
    pub open_type: Option<bool>,
    /// `HasStream` attribute.
    pub has_stream: Option<bool>,
    /// Child items, in order.
    pub items: Vec<DeComplexTypeItem>,
}

/// One child item of a complex type.
#[derive(Debug)]
pub enum DeComplexTypeItem {
    /// A structural property.
    Property(DeStructuralProperty),
    /// A navigation property.
    NavigationProperty(DeNavigationProperty),
    /// An annotation.
    Annotation(Annotation),
}

/// A validated complex type: its name and annotations.
#[derive(Debug)]
pub struct ComplexType {
    /// `Name` attribute.
    pub name: TypeName,
    /// Annotation children.
    pub annotations: Vec<Annotation>,
}

/// The annotations among the child items, in order.
pub open spec fn complex_annotations_of(items: Seq<DeComplexTypeItem>) -> Seq<Annotation>
    decreases items.len(),
{
    if items.len() == 0 {
        Seq::empty()
    } else {
        complex_annotations_of(items.drop_last()) + (match items.last() {
            DeComplexTypeItem::Annotation(a) => seq![a],
            _ => Seq::empty(),
        })
    }
}

impl DeComplexType {
    /// Validation of a complex type: total; it keeps the name and the
    /// annotations among the children.
    #[verifier::loop_isolation(false)]
    pub fn validate(self) -> (r: Result<ComplexType, ValidateError>)
        ensures
            r is Ok,
            r matches Ok(ct) ==> ct.name == self.name && ct.annotations@
                == complex_annotations_of(self.items@),
    {
        let ghost orig = self.items@;
        let mut items = self.items;
        let total = items.len();
        proof {
            assert(orig.len() == total);
        }
        let mut annotations: Vec<Annotation> = Vec::new();
        let mut k: usize = 0;
        proof {
            assert(orig.take(0) =~= Seq::<DeComplexTypeItem>::empty());
            assert(annotations@ =~= complex_annotations_of(orig.take(0)));
        }
        while items.len() > 0
            invariant
                0 <= k <= orig.len(),
                orig.len() <= usize::MAX,
                k + items@.len() == orig.len(),
                items@ == orig.skip(k as int),
                annotations@ == complex_annotations_of(orig.take(k as int)),
            decreases items@.len(),
        {
            let v = items.remove(0);
            proof {
                assert(v == orig[k as int]);
                assert(items@ =~= orig.skip(k + 1));
                assert(orig.take(k + 1).drop_last() =~= orig.take(k as int));
                assert(orig.take(k + 1).last() == orig[k as int]);
            }
            match v {
                DeComplexTypeItem::Property(_) | DeComplexTypeItem::NavigationProperty(_) => {
                    proof {
                        assert(annotations@ =~= complex_annotations_of(orig.take(k + 1)));
                    }
                },
                DeComplexTypeItem::Annotation(a) => {
                    annotations.push(a);
                    proof {
                        assert(annotations@ =~= complex_annotations_of(orig.take(k + 1)));
                    }
                },
            }
            k += 1;
        }
        proof {
            assert(orig.take(orig.len() as int) =~= orig);
        }
        Ok(ComplexType { name: self.name, annotations })
    }
}

} // verus!
