//! Tests of the namespace-pruning optimizer.

use csdl_compiler::compiled::Compiled;
use csdl_compiler::compiled::CompiledStructured;
use csdl_compiler::compiled::SimpleTypeAttrs;
use csdl_compiler::compiled_properties::CompiledNavProperty;
use csdl_compiler::compiled_properties::CompiledProperties;
use csdl_compiler::compiled_properties::CompiledProperty;
use csdl_compiler::compiled_properties::CompiledPropertyType;
use csdl_compiler::edmx::TypeDefinition;
use csdl_compiler::names::PropertyName;
use csdl_compiler::names::QualifiedName;
use csdl_compiler::optimizer::prune_simple_types_namespaces;

fn qn(s: &str) -> QualifiedName {
    QualifiedName::parse(s).expect("valid qualified name")
}

fn simple(s: &str) -> (QualifiedName, SimpleTypeAttrs) {
    (
        qn(s),
        SimpleTypeAttrs::TypeDefinition(TypeDefinition {
            name: String::from("T"),
            underlying_type: String::from("Edm.String"),
            annotations: Vec::new(),
        }),
    )
}

fn entity_with_ref(key: &str, target: &str) -> (QualifiedName, CompiledStructured) {
    (
        qn(key),
        CompiledStructured {
            properties: CompiledProperties {
                properties: vec![CompiledProperty {
                    name: PropertyName::parse("Value").expect("valid name"),
                    ptype: CompiledPropertyType::One(qn(target)),
                }],
                nav_properties: Vec::new(),
            },
        },
    )
}

#[test]
fn unique_names_hoist_to_top_ancestors() {
    let input = Compiled {
        simple_types: vec![simple("A.v1_0_0.Count"), simple("B.v1_0_0.Count")],
        complex_types: Vec::new(),
        entity_types: vec![
            entity_with_ref("A.v1_0_0.Thing", "A.v1_0_0.Count"),
            entity_with_ref("B.v1_0_0.Thing", "B.v1_0_0.Count"),
        ],
        root_singletons: Vec::new(),
    };

    let out = prune_simple_types_namespaces(input);

    // Both replaced entries leave the simple type table.
    assert_eq!(out.simple_types.len(), 0);

    // Counts are tracked per name and ancestor: each type hoists to
    // its own single-segment top ancestor without collision.
    let a_ref = &out.entity_types[0].1.properties.properties[0].ptype;
    match a_ref {
        CompiledPropertyType::One(t) => {
            assert_eq!(t.namespace.len(), 1);
            assert_eq!(t.namespace.get_id(0).expect("segment").as_str(), "A");
            assert_eq!(t.name.as_str(), "Count");
        },
        CompiledPropertyType::CollectionOf(_) => panic!("shape must be preserved"),
    }
    let b_ref = &out.entity_types[1].1.properties.properties[0].ptype;
    match b_ref {
        CompiledPropertyType::One(t) => {
            assert_eq!(t.namespace.get_id(0).expect("segment").as_str(), "B");
        },
        CompiledPropertyType::CollectionOf(_) => panic!("shape must be preserved"),
    }
}

#[test]
fn colliding_names_do_not_climb() {
    let input = Compiled {
        simple_types: vec![simple("A.v1_0_0.Count"), simple("A.v2_0_0.Count")],
        complex_types: vec![entity_with_ref("A.v1_0_0.Shape", "A.v1_0_0.Count")],
        entity_types: Vec::new(),
        root_singletons: Vec::new(),
    };

    let out = prune_simple_types_namespaces(input);

    // Both types register count 2 at ancestor `A`: neither is hoisted
    // past its declared namespace, and the table keeps both.
    assert_eq!(out.simple_types.len(), 2);
    assert_eq!(out.simple_types[0].0.namespace.len(), 2);
    assert_eq!(out.simple_types[1].0.namespace.len(), 2);

    // References stay untouched.
    match &out.complex_types[0].1.properties.properties[0].ptype {
        CompiledPropertyType::One(t) => {
            assert_eq!(t.namespace.len(), 2);
            assert_eq!(t.name.as_str(), "Count");
        },
        CompiledPropertyType::CollectionOf(_) => panic!("shape must be preserved"),
    }
}

#[test]
fn deep_namespaces_climb_while_unique() {
    let input = Compiled {
        simple_types: vec![simple("A.sub.v1_0_0.Count")],
        complex_types: Vec::new(),
        entity_types: vec![(
            qn("A.sub.v1_0_0.Thing"),
            CompiledStructured {
                properties: CompiledProperties {
                    properties: Vec::new(),
                    nav_properties: vec![CompiledNavProperty {
                        name: PropertyName::parse("Items").expect("valid name"),
                        ptype: CompiledPropertyType::CollectionOf(qn("A.sub.v1_0_0.Count")),
                    }],
                },
            },
        )],
        root_singletons: vec![(String::from("Service"), qn("A.sub.v1_0_0.Thing"))],
    };

    let out = prune_simple_types_namespaces(input);

    assert_eq!(out.simple_types.len(), 0);
    match &out.entity_types[0].1.properties.nav_properties[0].ptype {
        CompiledPropertyType::CollectionOf(t) => {
            assert_eq!(t.namespace.len(), 1);
            assert_eq!(t.namespace.get_id(0).expect("segment").as_str(), "A");
        },
        CompiledPropertyType::One(_) => panic!("shape must be preserved"),
    }
    // Root singleton bindings are not touched.
    assert_eq!(out.root_singletons.len(), 1);
    assert_eq!(out.root_singletons[0].0, "Service");
    assert_eq!(out.root_singletons[0].1.namespace.len(), 3);
}

#[test]
fn unrelated_references_are_untouched() {
    let input = Compiled {
        simple_types: vec![simple("A.v1_0_0.Count")],
        complex_types: vec![entity_with_ref("C.v1_0_0.Shape", "C.v1_0_0.Other")],
        entity_types: Vec::new(),
        root_singletons: Vec::new(),
    };

    let out = prune_simple_types_namespaces(input);

    assert_eq!(out.simple_types.len(), 0);
    match &out.complex_types[0].1.properties.properties[0].ptype {
        CompiledPropertyType::One(t) => {
            assert_eq!(t.namespace.len(), 2);
            assert_eq!(t.name.as_str(), "Other");
        },
        CompiledPropertyType::CollectionOf(_) => panic!("shape must be preserved"),
    }
}
