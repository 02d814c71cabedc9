//! Raw schema and its validation.

use vstd::prelude::*;

use crate::assoc::lemma_pairs_to_map_absent;
use crate::assoc::lemma_pairs_to_map_update;
use crate::assoc::pairs_to_map;
use crate::edmx::Annotation;
use crate::edmx::ComplexType;
use crate::edmx::EntityContainer;
use crate::edmx::EntityType;
use crate::edmx::EnumType;
use crate::edmx::Term;
use crate::edmx::TypeDefinition;
use crate::edmx::ValidateError;

verus! {

/// Raw schema, as deserialized.
#[derive(Debug)]
pub struct DeSchema {
    /// `Namespace` attribute.
    pub namespace: String,
    /// `Alias` attribute.
    pub alias: Option<String>,
    /// Child items, in order.
    pub items: Vec<DeSchemaItem>,
}

/// One child item of a schema.
#[derive(Debug)]
pub enum DeSchemaItem {
    /// An entity type.
    EntityType(EntityType),
    /// A complex type.
    ComplexType(ComplexType),
    /// An enumeration type.
    EnumType(EnumType),
    /// A type definition.
    TypeDefinition(TypeDefinition),
    /// An entity container.
    EntityContainer(EntityContainer),
    /// A term.
    Term(Term),
    /// An annotation.
    Annotation(Annotation),
}

/// One named declaration of a schema.
#[derive(Debug)]
pub enum Type {
    /// An entity type.
    EntityType(EntityType),
    /// A complex type.
    ComplexType(ComplexType),
    /// An enumeration type.
    EnumType(EnumType),
    /// A type definition.
    TypeDefinition(TypeDefinition),
    /// An entity container.
    EntityContainer(EntityContainer),
    /// A term.
    Term(Term),
}

/// A validated schema: its named declarations, indexed by name, and
/// the top-level annotations.
#[derive(Debug)]
pub struct Schema {
    /// Named declarations, keyed by their `Name` attribute; for a
    /// repeated name the later declaration wins.
    pub types: Vec<(String, Type)>,
    /// Top-level annotations, in order.
    pub annotations: Vec<Annotation>,
}

/// The name and converted declaration of one schema item; `None` for
/// an annotation.
pub open spec fn schema_item_entry(item: DeSchemaItem) -> Option<(Seq<char>, Type)> {
    match item {
        DeSchemaItem::EntityType(v) => Some((v.name@, Type::EntityType(v))),
        DeSchemaItem::ComplexType(v) => Some((v.name@, Type::ComplexType(v))),
        DeSchemaItem::EnumType(v) => Some((v.name@, Type::EnumType(v))),
        DeSchemaItem::TypeDefinition(v) => Some((v.name@, Type::TypeDefinition(v))),
        DeSchemaItem::EntityContainer(v) => Some((v.name@, Type::EntityContainer(v))),
        DeSchemaItem::Term(v) => Some((v.name@, Type::Term(v))),
        DeSchemaItem::Annotation(_) => None,
    }
}

/// The name-to-declaration map of the schema items: a later item with
/// the same name overrides an earlier one.
pub open spec fn schema_types_of(items: Seq<DeSchemaItem>) -> Map<Seq<char>, Type>
    decreases items.len(),
{
    if items.len() == 0 {
        Map::empty()
    } else {
        let m = schema_types_of(items.drop_last());
        match schema_item_entry(items.last()) {
            Some((k, v)) => m.insert(k, v),
            None => m,
        }
    }
}

/// The top-level annotations among the schema items, in order.
pub open spec fn schema_annotations_of(items: Seq<DeSchemaItem>) -> Seq<Annotation>
    decreases items.len(),
{
    if items.len() == 0 {
        Seq::empty()
    } else {
        schema_annotations_of(items.drop_last()) + (match items.last() {
            DeSchemaItem::Annotation(a) => seq![a],
            _ => Seq::empty(),
        })
    }
}

/// The map denoted by a schema's type table.
pub open spec fn types_view(s: Seq<(String, Type)>) -> Map<Seq<char>, Type> {
    pairs_to_map(s.map_values(|e: (String, Type)| (e.0@, e.1)))
}

impl Schema {
    /// The name-indexed declarations, as a map.
    pub open spec fn types_map(&self) -> Map<Seq<char>, Type> {
        types_view(self.types@)
    }

    /// Look up a declaration by name.
    #[verifier::loop_isolation(false)]
    pub fn get_type(&self, name: &str) -> (r: Option<&Type>)
        ensures
            r is Some <==> self.types_map().contains_key(name@),
            r matches Some(t) ==> *t == self.types_map()[name@],
    {
        let ghost entries = self.types@.map_values(|e: (String, Type)| (e.0@, e.1));
        let mut i: usize = self.types.len();
        while i > 0
            invariant
                0 <= i <= self.types@.len(),
                forall|j: int| i <= j < entries.len() ==> (#[trigger] entries[j]).0 != name@,
            decreases i,
        {
            i -= 1;
            if str_eq(self.types[i].0.as_str(), name) {
                proof {
                    crate::assoc::lemma_pairs_to_map_get(entries, i as int);
                }
                return Some(&self.types[i].1);
            }
        }
        proof {
            lemma_pairs_to_map_absent(entries, name@);
        }
        None
    }
}

/// Whether two strings hold the same characters.
pub fn str_eq(a: &str, b: &str) -> (r: bool)
    ensures
        r == (a@ == b@),
{
    let n = a.unicode_len();
    if n != b.unicode_len() {
        return false;
    }
    let mut i: usize = 0;
    while i < n
        invariant
            0 <= i <= n,
            n == a@.len(),
            a@.len() == b@.len(),
            forall|j: int| 0 <= j < i ==> a@[j] == b@[j],
        decreases n - i,
    {
        if a.get_char(i) != b.get_char(i) {
            return false;
        }
        i += 1;
    }
    proof {
        assert(a@ =~= b@);
    }
    true
}

impl DeSchema {
    /// Validation of a schema: total; the named declarations are
    /// indexed by name with the later declaration winning, and the
    /// top-level annotations are kept in order.
    #[verifier::loop_isolation(false)]
    pub fn validate(self) -> (r: Result<Schema, ValidateError>)
        ensures
            r is Ok,
            r matches Ok(s) ==> s.types_map() == schema_types_of(self.items@) && s.annotations@
                == schema_annotations_of(self.items@),
    {
        let ghost orig = self.items@;
        let mut items = self.items;
        let total = items.len();
        proof {
            assert(orig.len() == total);
        }
        let mut types: Vec<(String, Type)> = Vec::new();
        let mut annotations: Vec<Annotation> = Vec::new();
        let mut k: usize = 0;
        proof {
            assert(orig.take(0) =~= Seq::<DeSchemaItem>::empty());
            assert(types@.map_values(|e: (String, Type)| (e.0@, e.1)) =~= Seq::<
                (Seq<char>, Type),
            >::empty());
            assert(annotations@ =~= schema_annotations_of(orig.take(0)));
        }
        while items.len() > 0
            invariant
                0 <= k <= orig.len(),
                orig.len() <= usize::MAX,
                k + items@.len() == orig.len(),
                items@ == orig.skip(k as int),
                forall|a: int, b: int|
                    0 <= a < b < types@.len() ==> (#[trigger] types@[a]).0@ != (
                    #[trigger] types@[b]).0@,
                types_view(types@) == schema_types_of(orig.take(k as int)),
                annotations@ == schema_annotations_of(orig.take(k as int)),
            decreases items@.len(),
        {
            let v = items.remove(0);
            let ghost snap = types@;
            let ghost entries = snap.map_values(|e: (String, Type)| (e.0@, e.1));
            proof {
                assert(v == orig[k as int]);
                assert(items@ =~= orig.skip(k + 1));
                assert(orig.take(k + 1).drop_last() =~= orig.take(k as int));
                assert(orig.take(k + 1).last() == orig[k as int]);
            }
            match v {
                DeSchemaItem::Annotation(a) => {
                    annotations.push(a);
                    proof {
                        assert(annotations@ =~= schema_annotations_of(orig.take(k + 1)));
                    }
                },
                other => {
                    let (name, t) = match other {
                        DeSchemaItem::EntityType(v) => (v.name.clone(), Type::EntityType(v)),
                        DeSchemaItem::ComplexType(v) => (v.name.clone(), Type::ComplexType(v)),
                        DeSchemaItem::EnumType(v) => (v.name.clone(), Type::EnumType(v)),
                        DeSchemaItem::TypeDefinition(v) => (
                            v.name.clone(),
                            Type::TypeDefinition(v),
                        ),
                        DeSchemaItem::EntityContainer(v) => (
                            v.name.clone(),
                            Type::EntityContainer(v),
                        ),
                        DeSchemaItem::Term(v) => (v.name.clone(), Type::Term(v)),
                        DeSchemaItem::Annotation(_) => {
                            proof {
                                assert(false);
                            }
                            (String::new(), Type::Term(Term {
                                name: String::new(),
                                ttype: None,
                                applies_to: None,
                                default_value: None,
                                annotations: Vec::new(),
                            }))
                        },
                    };
                    proof {
                        assert(schema_item_entry(orig[k as int]) matches Some(e) && e.0 == name@
                            && e.1 == t);
                    }
                    let mut at: usize = 0;
                    let mut pos: Option<usize> = None;
                    while at < types.len()
                        invariant
                            0 <= at <= types@.len(),
                            pos is None ==> forall|j: int|
                                0 <= j < at ==> (#[trigger] types@[j]).0@ != name@,
                            pos matches Some(q) ==> q < types@.len() && types@[q as int].0@
                                == name@,
                        decreases types@.len() - at,
                    {
                        if str_eq(types[at].0.as_str(), name.as_str()) {
                            pos = Some(at);
                            break ;
                        }
                        at += 1;
                    }
                    match pos {
                        Some(q) => {
                            let _old = types.remove(q);
                            types.insert(q, (name, t));
                            proof {
                                let new_entries = types@.map_values(
                                    |e: (String, Type)| (e.0@, e.1),
                                );
                                assert(new_entries =~= entries.update(
                                    q as int,
                                    (entries[q as int].0, new_entries[q as int].1),
                                ));
                                assert(forall|j: int|
                                    0 <= j < entries.len() && j != q ==> (#[trigger] entries[j]).0
                                        != entries[q as int].0);
                                lemma_pairs_to_map_update(
                                    entries,
                                    q as int,
                                    new_entries[q as int].1,
                                );
                                assert(forall|j: int|
                                    0 <= j < new_entries.len() ==> (#[trigger] new_entries[j]).0
                                        == entries[j].0);
                                assert(types_view(types@) == schema_types_of(orig.take(k + 1)));
                                assert(annotations@ == schema_annotations_of(orig.take(k + 1)));
                            }
                        },
                        None => {
                            proof {
                                lemma_pairs_to_map_absent(entries, name@);
                            }
                            types.push((name, t));
                            proof {
                                let new_entries = types@.map_values(
                                    |e: (String, Type)| (e.0@, e.1),
                                );
                                assert(new_entries.drop_last() =~= entries);
                                assert(new_entries.last() == (name@, t));
                                assert(types_view(types@) == schema_types_of(orig.take(k + 1)));
                                assert(annotations@ == schema_annotations_of(orig.take(k + 1)));
                            }
                        },
                    }
                },
            }
            k += 1;
        }
        proof {
            assert(orig.take(orig.len() as int) =~= orig);
        }
        Ok(Schema { types, annotations })
    }
}

} // verus!
