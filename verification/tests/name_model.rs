//! Tests of the namespace and qualified-name model.

use csdl_compiler::names::IdentifierError;
use csdl_compiler::names::Namespace;
use csdl_compiler::names::QualifiedName;
use csdl_compiler::names::SimpleIdentifier;
use csdl_compiler::one_or_collection::OneOrCollection;

#[test]
fn simple_identifier_grammar() {
    assert!(SimpleIdentifier::parse("ServiceRoot").is_ok());
    assert!(SimpleIdentifier::parse("_private").is_ok());
    assert!(SimpleIdentifier::parse("v1_0_0").is_ok());
    assert_eq!(SimpleIdentifier::parse(""), Err(IdentifierError::NotAnIdentifier));
    assert_eq!(SimpleIdentifier::parse("1abc"), Err(IdentifierError::NotAnIdentifier));
    assert_eq!(SimpleIdentifier::parse("has-dash"), Err(IdentifierError::NotAnIdentifier));
    assert_eq!(SimpleIdentifier::parse("has.dot"), Err(IdentifierError::NotAnIdentifier));
}

#[test]
fn qualified_name_parse_splits_namespace_and_name() {
    let qn = QualifiedName::parse("ServiceRoot.v1_0_0.Root").expect("valid qualified name");
    assert_eq!(qn.namespace.len(), 2);
    assert_eq!(qn.namespace.get_id(0).expect("segment").as_str(), "ServiceRoot");
    assert_eq!(qn.namespace.get_id(1).expect("segment").as_str(), "v1_0_0");
    assert!(qn.namespace.get_id(2).is_none());
    assert_eq!(qn.name.as_str(), "Root");

    assert!(QualifiedName::parse("JustOneSegment").is_err());
    assert!(QualifiedName::parse("Bad-Segment.Name").is_err());
}

#[test]
fn namespace_parent_drops_the_trailing_segment() {
    let qn = QualifiedName::parse("A.sub.v1_0_0.Count").expect("valid qualified name");
    let parent = qn.namespace.parent().expect("three segments have a parent");
    assert_eq!(parent.len(), 2);
    assert_eq!(parent.get_id(1).expect("segment").as_str(), "sub");
    let top = parent.parent().expect("two segments have a parent");
    assert_eq!(top.len(), 1);
    assert_eq!(top.get_id(0).expect("segment").as_str(), "A");
    assert!(top.parent().is_none());
}

#[test]
fn namespace_new_rejects_no_segments() {
    assert!(Namespace::new(Vec::new()).is_none());
    let segments = vec![SimpleIdentifier::parse("Chassis").expect("valid identifier")];
    let ns = Namespace::new(segments).expect("one segment is enough");
    assert_eq!(ns.len(), 1);
}

#[test]
fn one_or_collection_keeps_its_shape() {
    let one: OneOrCollection<u32> = OneOrCollection::One(7);
    assert_eq!(*one.inner(), 7);
    let mapped = one.map(|v| v + 1);
    assert!(matches!(mapped, OneOrCollection::One(8)));

    let coll: OneOrCollection<u32> = OneOrCollection::Collection(3);
    assert_eq!(*coll.inner(), 3);
    let as_ref = coll.as_ref();
    assert!(matches!(as_ref, OneOrCollection::Collection(&3)));
    let mapped = coll.map(|v| v * 2);
    assert!(matches!(mapped, OneOrCollection::Collection(6)));
}
