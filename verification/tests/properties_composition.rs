//! Tests of property composition across an inheritance chain.

use csdl_compiler::compiled_properties::CompiledNavProperty;
use csdl_compiler::compiled_properties::CompiledProperties;
use csdl_compiler::compiled_properties::CompiledProperty;
use csdl_compiler::compiled_properties::CompiledPropertyType;
use csdl_compiler::names::PropertyName;
use csdl_compiler::names::QualifiedName;

fn prop(name: &str) -> CompiledProperty {
    CompiledProperty {
        name: PropertyName::parse(name).expect("valid name"),
        ptype: CompiledPropertyType::One(
            QualifiedName::parse("Resource.v1_0_0.Value").expect("valid qualified name"),
        ),
    }
}

fn nav(name: &str) -> CompiledNavProperty {
    CompiledNavProperty {
        name: PropertyName::parse(name).expect("valid name"),
        ptype: CompiledPropertyType::CollectionOf(
            QualifiedName::parse("Resource.v1_0_0.Item").expect("valid qualified name"),
        ),
    }
}

fn table(props: Vec<CompiledProperty>, navs: Vec<CompiledNavProperty>) -> CompiledProperties {
    CompiledProperties { properties: props, nav_properties: navs }
}

#[test]
fn rev_join_orders_ancestors_first() {
    // The chain is ordered derived-to-root: the derived type, its
    // parent, then the root.
    let derived = table(vec![prop("DerivedOwn")], vec![nav("DerivedLink")]);
    let middle = table(vec![prop("MiddleOwn")], Vec::new());
    let root = table(vec![prop("RootFirst"), prop("RootSecond")], vec![nav("RootLink")]);

    let joined = CompiledProperties::rev_join(vec![derived, middle, root]);

    let names: Vec<&str> = joined.properties.iter().map(|p| p.name.as_str()).collect();
    assert_eq!(names, vec!["RootFirst", "RootSecond", "MiddleOwn", "DerivedOwn"]);
    let nav_names: Vec<&str> = joined.nav_properties.iter().map(|p| p.name.as_str()).collect();
    assert_eq!(nav_names, vec!["RootLink", "DerivedLink"]);
}

#[test]
fn rev_join_of_nothing_is_empty() {
    let joined = CompiledProperties::rev_join(Vec::new());
    assert!(joined.is_empty());
}

#[test]
fn is_empty_requires_both_lists_empty() {
    assert!(table(Vec::new(), Vec::new()).is_empty());
    assert!(!table(vec![prop("P")], Vec::new()).is_empty());
    assert!(!table(Vec::new(), vec![nav("N")]).is_empty());
    assert!(!table(vec![prop("P")], vec![nav("N")]).is_empty());
}
