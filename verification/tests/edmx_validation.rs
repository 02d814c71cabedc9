//! Tests of the raw schema element validation.

use csdl_compiler::edmx::Annotation;
use csdl_compiler::edmx::EnumType;
use csdl_compiler::edmx::Key;
use csdl_compiler::edmx::TypeDefinition;
use csdl_compiler::edmx::TypeName;
use csdl_compiler::edmx::ValidateError;
use csdl_compiler::edmx::complex_type::DeComplexType;
use csdl_compiler::edmx::complex_type::DeComplexTypeItem;
use csdl_compiler::edmx::entity_type::DeEntityType;
use csdl_compiler::edmx::entity_type::DeEntityTypeItem;
use csdl_compiler::edmx::property::DeStructuralProperty;
use csdl_compiler::edmx::property::PropertyAttrs;
use csdl_compiler::edmx::schema::DeSchema;
use csdl_compiler::edmx::schema::DeSchemaItem;
use csdl_compiler::edmx::schema::Type;
use csdl_compiler::names::PropertyName;
use csdl_compiler::names::QualifiedName;

fn tn(s: &str) -> TypeName {
    TypeName::One(QualifiedName::parse(s).expect("valid qualified name"))
}

fn structural(name: &str) -> DeStructuralProperty {
    DeStructuralProperty {
        name: PropertyName::parse(name).expect("valid name"),
        ptype: tn("Edm.String"),
        nullable: None,
        max_length: None,
        precision: None,
        scale: None,
        unicode: None,
        default_value: None,
        annotations: Vec::new(),
    }
}

fn annotation(term: &str) -> Annotation {
    Annotation {
        term: String::from(term),
        string: None,
        bool_value: None,
        int_value: None,
        enum_member: None,
    }
}

fn entity(items: Vec<DeEntityTypeItem>) -> DeEntityType {
    DeEntityType {
        name: tn("ServiceRoot.v1_0_0.Root"),
        base_type: None,
        is_abstract: None,
        open_type: None,
        has_stream: None,
        items,
    }
}

#[test]
fn entity_type_children_are_sorted_into_buckets() {
    let et = entity(vec![
        DeEntityTypeItem::Annotation(annotation("Redfish.Required")),
        DeEntityTypeItem::StructuralProperty(structural("Name")),
        DeEntityTypeItem::Key(Key { property_refs: Vec::new() }),
        DeEntityTypeItem::StructuralProperty(structural("Status")),
    ]);
    let validated = et.validate().expect("one key is fine");
    assert!(validated.key.is_some());
    assert_eq!(validated.properties.len(), 2);
    assert_eq!(validated.properties[0].name.as_str(), "Name");
    assert_eq!(validated.properties[1].name.as_str(), "Status");
    match &validated.properties[0].attrs {
        PropertyAttrs::StructuralProperty(p) => assert_eq!(p.name.as_str(), "Name"),
        PropertyAttrs::NavigationProperty(_) => panic!("kind must be preserved"),
    }
    assert_eq!(validated.annotations.len(), 1);
    assert_eq!(validated.annotations[0].term, "Redfish.Required");
}

#[test]
fn entity_type_with_two_keys_is_rejected() {
    let et = entity(vec![
        DeEntityTypeItem::Key(Key { property_refs: Vec::new() }),
        DeEntityTypeItem::Key(Key { property_refs: Vec::new() }),
    ]);
    match et.validate() {
        Err(ValidateError::EntityType(_, inner)) => {
            assert!(matches!(*inner, ValidateError::TooManyKeys));
        },
        _ => panic!("expected the wrapped too-many-keys error"),
    }
}

#[test]
fn complex_type_validation_keeps_annotations_only() {
    let ct = DeComplexType {
        name: tn("Resource.v1_0_0.Status"),
        base_type: None,
        is_abstract: None,
        open_type: None,
        has_stream: None,
        items: vec![
            DeComplexTypeItem::Property(structural("State")),
            DeComplexTypeItem::Annotation(annotation("OData.Description")),
        ],
    };
    let validated = ct.validate().expect("complex type validation is total");
    assert_eq!(validated.annotations.len(), 1);
    assert_eq!(validated.annotations[0].term, "OData.Description");
}

#[test]
fn schema_validation_indexes_by_name_with_later_winning() {
    let schema = DeSchema {
        namespace: String::from("ServiceRoot.v1_0_0"),
        alias: None,
        items: vec![
            DeSchemaItem::TypeDefinition(TypeDefinition {
                name: String::from("Health"),
                underlying_type: String::from("Edm.String"),
                annotations: Vec::new(),
            }),
            DeSchemaItem::Annotation(annotation("OData.Description")),
            DeSchemaItem::EnumType(EnumType {
                name: String::from("Health"),
                underlying_type: None,
                is_flags: None,
                members: Vec::new(),
                annotations: Vec::new(),
            }),
        ],
    };
    let validated = schema.validate().expect("schema validation is total");
    assert_eq!(validated.annotations.len(), 1);
    assert_eq!(validated.types.len(), 1);
    match validated.get_type("Health") {
        Some(Type::EnumType(e)) => assert_eq!(e.name, "Health"),
        _ => panic!("the later declaration must win"),
    }
    assert!(validated.get_type("Unknown").is_none());
}
