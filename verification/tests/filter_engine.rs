//! Tests of the pattern-based filter engine.

use csdl_compiler::context::EntityTypeFilter;
use csdl_compiler::context::EntityTypeFilterPattern;
use csdl_compiler::context::FilterPatternError;
use csdl_compiler::context::PropertyFilter;
use csdl_compiler::context::PropertyPattern;
use csdl_compiler::context::PropetyPatternError;
use csdl_compiler::names::PropertyName;
use csdl_compiler::names::QualifiedName;

fn qn(s: &str) -> QualifiedName {
    QualifiedName::parse(s).expect("valid qualified name")
}

#[test]
fn two_wildcards_match_exactly_depth_two() {
    let pattern = EntityTypeFilterPattern::parse("*.*.Root").expect("valid pattern");
    assert!(pattern.matches(&qn("ServiceRoot.v1_0_0.Root")));
    assert!(!pattern.matches(&qn("ServiceRoot.Root")));
    assert!(!pattern.matches(&qn("ServiceRoot.v1_0_0.deep.Root")));
    assert!(!pattern.matches(&qn("ServiceRoot.v1_0_0.Other")));
}

#[test]
fn alternation_accepts_either_name() {
    let pattern = EntityTypeFilterPattern::parse("Some.*.Entity1|Entity2").expect("valid pattern");
    assert!(pattern.matches(&qn("Some.v1_0_0.Entity1")));
    assert!(pattern.matches(&qn("Some.v1_0_0.Entity2")));
    assert!(!pattern.matches(&qn("Some.v1_0_0.Entity3")));
    assert!(!pattern.matches(&qn("Other.v1_0_0.Entity1")));
}

#[test]
fn wildcard_name_accepts_any_name() {
    let pattern = EntityTypeFilterPattern::parse("ServiceRoot.*.*").expect("valid pattern");
    assert!(pattern.matches(&qn("ServiceRoot.v1_0_0.Root")));
    assert!(pattern.matches(&qn("ServiceRoot.v1_1_0.Anything")));
    assert!(!pattern.matches(&qn("Chassis.v1_0_0.Root")));
}

#[test]
fn invalid_identifier_is_reported() {
    match EntityTypeFilterPattern::parse("Service-Root.*.*") {
        Err(FilterPatternError::InvalidIdentifier(t)) => assert_eq!(t, "Service-Root"),
        _ => panic!("expected an invalid identifier error"),
    }
    match EntityTypeFilterPattern::parse("") {
        Err(FilterPatternError::InvalidIdentifier(t)) => assert_eq!(t, ""),
        _ => panic!("expected an invalid identifier error"),
    }
}

#[test]
fn empty_permissive_matches_all_empty_restrictive_none() {
    let permissive = EntityTypeFilter::new_permissive(Vec::new());
    let restrictive = EntityTypeFilter::new_restrictive(Vec::new());
    let name = qn("ServiceRoot.v1_0_0.Root");
    assert!(permissive.matches(&name));
    assert!(!restrictive.matches(&name));
}

#[test]
fn nonempty_filter_ignores_policy() {
    let p = EntityTypeFilterPattern::parse("ServiceRoot.*.*").expect("valid pattern");
    let q = EntityTypeFilterPattern::parse("ServiceRoot.*.*").expect("valid pattern");
    let permissive = EntityTypeFilter::new_permissive(vec![p]);
    let restrictive = EntityTypeFilter::new_restrictive(vec![q]);
    let inside = qn("ServiceRoot.v1_0_0.Root");
    let outside = qn("Chassis.v1_0_0.Chassis");
    assert!(permissive.matches(&inside));
    assert!(restrictive.matches(&inside));
    assert!(!permissive.matches(&outside));
    assert!(!restrictive.matches(&outside));
}

#[test]
fn service_root_versions_scenario() {
    let v1_0 = qn("ServiceRoot.v1_0_0.Root");
    let v1_1 = qn("ServiceRoot.v1_1_0.Root");

    let wildcard = EntityTypeFilter::new_restrictive(vec![
        EntityTypeFilterPattern::parse("ServiceRoot.*.*").expect("valid pattern"),
    ]);
    assert!(wildcard.matches(&v1_0));
    assert!(wildcard.matches(&v1_1));

    let exact = EntityTypeFilter::new_restrictive(vec![
        EntityTypeFilterPattern::parse("ServiceRoot.v1_0_0.Root").expect("valid pattern"),
    ]);
    assert!(exact.matches(&v1_0));
    assert!(!exact.matches(&v1_1));
}

#[test]
fn property_filter_unknown_name_never_matches() {
    let filter = PropertyFilter::new(vec![
        PropertyPattern::parse("ServiceRoot.*.*/Links").expect("valid property pattern"),
    ]);
    let links = PropertyName::parse("Links").expect("valid name");
    let other = PropertyName::parse("Oem").expect("valid name");
    assert!(filter.matches(qn("ServiceRoot.v1_0_0.Root"), &links));
    assert!(!filter.matches(qn("ServiceRoot.v1_0_0.Root"), &other));
    assert!(!filter.matches(qn("Chassis.v1_0_0.Chassis"), &links));
}

#[test]
fn property_pattern_errors() {
    match PropertyPattern::parse("ServiceRoot.*.*") {
        Err(PropetyPatternError::NoPropertyNameDefined) => {},
        _ => panic!("expected a missing property name error"),
    }
    match PropertyPattern::parse("Service-Root.*.*/Links") {
        Err(PropetyPatternError::TypeFilterPattern(FilterPatternError::InvalidIdentifier(t))) => {
            assert_eq!(t, "Service-Root");
        },
        _ => panic!("expected a type filter error"),
    }
    match PropertyPattern::parse("ServiceRoot.*.*/Bad-Name") {
        Err(PropetyPatternError::PropertyName(_)) => {},
        _ => panic!("expected a property name error"),
    }
}
