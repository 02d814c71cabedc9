//! Namespace pruning for simple types.
//!
//! Namespaces are hierarchical (dot-separated). This optimization
//! moves each simple type to the highest ancestor namespace under
//! which its name is unique, keeping account of possible conflicts:
//! a type `T` in namespace `A.v1_0_0` moves to `A` only when no other
//! simple type named `T` sits anywhere under `A`.
//!
//! A replaced type's table entry is dropped and not reinserted under
//! the shorter qualified name: consumers resolve such a type purely
//! through the rewritten property references.

use vstd::prelude::*;

use crate::compiled::Compiled;
use crate::compiled::CompiledStructured;
use crate::compiled::SimpleTypeAttrs;
use crate::compiled_properties::CompiledNavProperty;
use crate::compiled_properties::CompiledProperties;
use crate::compiled_properties::CompiledProperty;
use crate::compiled_properties::CompiledPropertyType;
use crate::compiled_properties::CpView;
use crate::compiled_properties::CpsView;
use crate::compiled_properties::CptView;
use crate::names::Namespace;
use crate::names::QnView;
use crate::names::QualifiedName;

verus! {

/// Whether `p` is a proper, non-empty ancestor namespace of `q`: one
/// of the namespaces visited when walking from `q` up to the top.
pub open spec fn is_ancestor_of(p: Seq<Seq<char>>, q: Seq<Seq<char>>) -> bool {
    &&& 0 < p.len() < q.len()
    &&& p == q.take(p.len() as int)
}

/// How many of the given simple type names are called `name` and sit
/// strictly below the ancestor namespace `ns`.
pub open spec fn prefix_count(name: Seq<char>, ns: Seq<Seq<char>>, keys: Seq<QnView>) -> nat
    decreases keys.len(),
{
    if keys.len() == 0 {
        0
    } else {
        prefix_count(name, ns, keys.drop_last()) + (if keys.last().name == name && is_ancestor_of(
            ns,
            keys.last().namespace,
        ) {
            1nat
        } else {
            0nat
        })
    }
}

/// The climb of the replacement-selection pass: walk from `ns` upward
/// while each next ancestor counts exactly one type called `name`;
/// `best` is the highest ancestor accepted so far.
pub open spec fn climb(
    ns: Seq<Seq<char>>,
    name: Seq<char>,
    keys: Seq<QnView>,
    best: Option<Seq<Seq<char>>>,
) -> Option<Seq<Seq<char>>>
    decreases ns.len(),
{
    if ns.len() <= 1 {
        best
    } else {
        let parent = ns.drop_last();
        if prefix_count(name, parent, keys) == 1 {
            climb(parent, name, keys, Some(parent))
        } else {
            best
        }
    }
}

/// The replacement qualified name selected for `n`, if any: the same
/// name under the highest ancestor namespace where it is unique.
pub open spec fn replacement_of(n: QnView, keys: Seq<QnView>) -> Option<QnView> {
    match climb(n.namespace, n.name, keys, None) {
        Some(b) => Some(QnView { namespace: b, name: n.name }),
        None => None,
    }
}

/// A reference rewritten through the replacement map: a qualified
/// name that is a simple type key with a selected replacement moves
/// there; every other reference is untouched.
pub open spec fn rewrite_qn(q: QnView, keys: Seq<QnView>) -> QnView {
    if keys.contains(q) && replacement_of(q, keys) is Some {
        replacement_of(q, keys)->Some_0
    } else {
        q
    }
}

/// A property type rewritten through the replacement map, preserving
/// its `One` / `CollectionOf` shape.
pub open spec fn rewrite_cpt(t: CptView, keys: Seq<QnView>) -> CptView {
    match t {
        CptView::One(q) => CptView::One(rewrite_qn(q, keys)),
        CptView::CollectionOf(q) => CptView::CollectionOf(rewrite_qn(q, keys)),
    }
}

/// A property rewritten through the replacement map: only its type
/// reference changes.
pub open spec fn rewrite_cp(p: CpView, keys: Seq<QnView>) -> CpView {
    CpView { name: p.name, ptype: rewrite_cpt(p.ptype, keys) }
}

/// A property table rewritten through the replacement map.
pub open spec fn rewrite_cps(c: CpsView, keys: Seq<QnView>) -> CpsView {
    CpsView {
        properties: c.properties.map_values(|p: CpView| rewrite_cp(p, keys)),
        nav_properties: c.nav_properties.map_values(|p: CpView| rewrite_cp(p, keys)),
    }
}

/// The simple type entries that stay: those for which no replacement
/// was selected.
pub open spec fn kept_simple(
    t: Seq<(QualifiedName, SimpleTypeAttrs)>,
    keys: Seq<QnView>,
) -> Seq<(QualifiedName, SimpleTypeAttrs)>
    decreases t.len(),
{
    if t.len() == 0 {
        Seq::empty()
    } else {
        kept_simple(t.drop_last(), keys) + (if replacement_of(t.last().0@, keys) is Some {
            Seq::empty()
        } else {
            seq![t.last()]
        })
    }
}

/// Whether `p` is a proper, non-empty ancestor namespace of `q`.
fn check_ancestor_of(p: &Namespace, q: &Namespace) -> (r: bool)
    ensures
        r == is_ancestor_of(p@, q@),
{
    let plen = p.len();
    if plen == 0 || plen >= q.len() {
        return false;
    }
    let mut i: usize = 0;
    while i < plen
        invariant
            0 <= i <= plen,
            plen == p@.len(),
            0 < p@.len() < q@.len(),
            forall|j: int| 0 <= j < i ==> p@[j] == q@[j],
        decreases plen - i,
    {
        let pi = match p.get_id(i) {
            Some(id) => id,
            None => {
                proof {
                    assert(false);
                }
                return false;
            },
        };
        let qi = match q.get_id(i) {
            Some(id) => id,
            None => {
                proof {
                    assert(false);
                }
                return false;
            },
        };
        if !(pi == qi) {
            proof {
                assert(p@[i as int] != q@[i as int]);
                assert(q@.take(p@.len() as int)[i as int] == q@[i as int]);
            }
            return false;
        }
        i += 1;
    }
    proof {
        assert(p@ =~= q@.take(p@.len() as int));
    }
    true
}

/// The count of a type name below an ancestor namespace is bounded by
/// the number of simple type keys.
proof fn lemma_prefix_count_le(name: Seq<char>, ns: Seq<Seq<char>>, keys: Seq<QnView>)
    ensures
        prefix_count(name, ns, keys) <= keys.len(),
    decreases keys.len(),
{
    if keys.len() > 0 {
        lemma_prefix_count_le(name, ns, keys.drop_last());
    }
}

/// Count how many simple types called `name` sit strictly below the
/// ancestor namespace `ns`.
#[verifier::loop_isolation(false)]
fn count_below(
    simple_types: &Vec<(QualifiedName, SimpleTypeAttrs)>,
    name: &crate::names::SimpleIdentifier,
    ns: &Namespace,
) -> (r: u64)
    requires
        simple_types@.len() <= u64::MAX,
    ensures
        r == prefix_count(
            name@,
            ns@,
            simple_types@.map_values(|e: (QualifiedName, SimpleTypeAttrs)| e.0@),
        ),
{
    let ghost keys = simple_types@.map_values(|e: (QualifiedName, SimpleTypeAttrs)| e.0@);
    let mut count: u64 = 0;
    let mut i: usize = 0;
    proof {
        assert(keys.take(0) =~= Seq::<QnView>::empty());
    }
    while i < simple_types.len()
        invariant
            0 <= i <= keys.len(),
            count == prefix_count(name@, ns@, keys.take(i as int)),
        decreases keys.len() - i,
    {
        proof {
            assert(keys.take(i + 1).drop_last() =~= keys.take(i as int));
            assert(keys.take(i + 1).last() == keys[i as int]);
            lemma_prefix_count_le(name@, ns@, keys.take(i as int));
        }
        let entry_name = &simple_types[i].0.name;
        let entry_ns = &simple_types[i].0.namespace;
        if entry_name == name && check_ancestor_of(ns, entry_ns) {
            proof {
                assert(keys[i as int].name == name@ && is_ancestor_of(ns@, keys[i as int].namespace));
                assert(keys.take(i as int).len() <= keys.len());
            }
            count += 1;
        } else {
            proof {
                assert(!(keys[i as int].name == name@ && is_ancestor_of(
                    ns@,
                    keys[i as int].namespace,
                )));
            }
        }
        i += 1;
    }
    proof {
        assert(keys.take(keys.len() as int) =~= keys);
    }
    count
}

/// The replacement-selection climb, walking parents while the count
/// below the next ancestor is exactly one.
#[verifier::loop_isolation(false)]
fn climb_exec(
    simple_types: &Vec<(QualifiedName, SimpleTypeAttrs)>,
    name: &crate::names::SimpleIdentifier,
    namespace: Namespace,
    best: Option<Namespace>,
) -> (r: Option<Namespace>)
    requires
        simple_types@.len() <= u64::MAX,
        namespace.wf(),
        best matches Some(b) ==> b.wf(),
    ensures
        ({
            let keys = simple_types@.map_values(|e: (QualifiedName, SimpleTypeAttrs)| e.0@);
            let spec_best = match best {
                Some(b) => Some(b@),
                None => None,
            };
            match r {
                Some(b) => Some(b@) == climb(namespace@, name@, keys, spec_best) && b.wf(),
                None => climb(namespace@, name@, keys, spec_best) is None,
            }
        }),
    decreases namespace@.len(),
{
    let parent = match namespace.parent() {
        Some(p) => p,
        None => {
            return best;
        },
    };
    if count_below(simple_types, name, &parent) == 1 {
        let next = parent.clone();
        climb_exec(simple_types, name, parent, Some(next))
    } else {
        best
    }
}

/// Every entry of the replacement table pairs a simple type key with
/// the replacement selected for it.
pub open spec fn replacements_sound(
    re: Seq<(QualifiedName, QualifiedName)>,
    keys: Seq<QnView>,
) -> bool {
    forall|j: int|
        0 <= j < re.len() ==> keys.contains((#[trigger] re[j]).0@) && replacement_of(re[j].0@, keys)
            == Some(re[j].1@)
}

/// Every simple type key with a selected replacement has an entry in
/// the replacement table.
pub open spec fn replacements_complete(
    re: Seq<(QualifiedName, QualifiedName)>,
    keys: Seq<QnView>,
) -> bool {
    forall|m: int|
        0 <= m < keys.len() && replacement_of(#[trigger] keys[m], keys) is Some ==> exists|j: int|
            0 <= j < re.len() && (#[trigger] re[j]).0@ == keys[m]
}

/// Substitute one type reference through the replacement table:
/// unaffected references are returned untouched.
#[verifier::loop_isolation(false)]
fn replace_qn(
    replacements: &Vec<(QualifiedName, QualifiedName)>,
    q: &QualifiedName,
    Ghost(keys): Ghost<Seq<QnView>>,
) -> (r: QualifiedName)
    requires
        replacements_sound(replacements@, keys),
        replacements_complete(replacements@, keys),
    ensures
        r@ == rewrite_qn(q@, keys),
{
    let mut j: usize = 0;
    while j < replacements.len()
        invariant
            0 <= j <= replacements@.len(),
            forall|t: int| 0 <= t < j ==> (#[trigger] replacements@[t]).0@ != q@,
        decreases replacements@.len() - j,
    {
        if &replacements[j].0 == q {
            proof {
                assert(replacements@[j as int].0@ == q@);
                assert(replacement_of(q@, keys) == Some(replacements@[j as int].1@));
                assert(keys.contains(q@));
            }
            return replacements[j].1.clone();
        }
        j += 1;
    }
    proof {
        if keys.contains(q@) && replacement_of(q@, keys) is Some {
            let m = choose|m: int| 0 <= m < keys.len() && keys[m] == q@;
            assert(replacement_of(keys[m], keys) is Some);
            let t = choose|t: int|
                0 <= t < replacements@.len() && (#[trigger] replacements@[t]).0@ == keys[m];
            assert(false);
        }
    }
    q.clone()
}

/// Rewrite every property type reference of one structured type
/// through the replacement table.
#[verifier::loop_isolation(false)]
fn rewrite_properties(
    props: CompiledProperties,
    replacements: &Vec<(QualifiedName, QualifiedName)>,
    Ghost(keys): Ghost<Seq<QnView>>,
) -> (r: CompiledProperties)
    requires
        replacements_sound(replacements@, keys),
        replacements_complete(replacements@, keys),
    ensures
        r@ == rewrite_cps(props@, keys),
{
    let ghost orig = props@;
    let mut properties = props.properties;
    let mut nav_properties = props.nav_properties;
    let ghost total_p = properties@.len();
    let ghost total_n = nav_properties@.len();
    let mut new_properties: Vec<CompiledProperty> = Vec::new();
    let mut new_nav_properties: Vec<CompiledNavProperty> = Vec::new();
    while properties.len() > 0
        invariant
            replacements_sound(replacements@, keys),
            replacements_complete(replacements@, keys),
            new_properties@.len() + properties@.len() == total_p,
            properties@ == props.properties@.skip(new_properties@.len() as int),
            forall|t: int|
                0 <= t < new_properties@.len() ==> (#[trigger] new_properties@[t])@ == rewrite_cp(
                    orig.properties[t],
                    keys,
                ),
        decreases properties@.len(),
    {
        let ghost t0: int = new_properties@.len() as int;
        let p = properties.remove(0);
        proof {
            assert(p == props.properties@[t0]);
            assert(properties@ =~= props.properties@.skip(t0 + 1));
        }
        let ptype = match p.ptype {
            CompiledPropertyType::One(q) => CompiledPropertyType::One(
                replace_qn(replacements, &q, Ghost(keys)),
            ),
            CompiledPropertyType::CollectionOf(q) => CompiledPropertyType::CollectionOf(
                replace_qn(replacements, &q, Ghost(keys)),
            ),
        };
        new_properties.push(CompiledProperty { name: p.name, ptype });
        proof {
            assert(new_properties@[t0]@ == rewrite_cp(orig.properties[t0], keys));
        }
    }
    while nav_properties.len() > 0
        invariant
            replacements_sound(replacements@, keys),
            replacements_complete(replacements@, keys),
            new_nav_properties@.len() + nav_properties@.len() == total_n,
            nav_properties@ == props.nav_properties@.skip(new_nav_properties@.len() as int),
            forall|t: int|
                0 <= t < new_nav_properties@.len() ==> (#[trigger] new_nav_properties@[t])@
                    == rewrite_cp(orig.nav_properties[t], keys),
        decreases nav_properties@.len(),
    {
        let ghost t0: int = new_nav_properties@.len() as int;
        let p = nav_properties.remove(0);
        proof {
            assert(p == props.nav_properties@[t0]);
            assert(nav_properties@ =~= props.nav_properties@.skip(t0 + 1));
        }
        let ptype = match p.ptype {
            CompiledPropertyType::One(q) => CompiledPropertyType::One(
                replace_qn(replacements, &q, Ghost(keys)),
            ),
            CompiledPropertyType::CollectionOf(q) => CompiledPropertyType::CollectionOf(
                replace_qn(replacements, &q, Ghost(keys)),
            ),
        };
        new_nav_properties.push(CompiledNavProperty { name: p.name, ptype });
        proof {
            assert(new_nav_properties@[t0]@ == rewrite_cp(
                orig.nav_properties[t0],
                keys,
            ));
        }
    }
    let r = CompiledProperties { properties: new_properties, nav_properties: new_nav_properties };
    proof {
        assert(r@.properties =~= rewrite_cps(orig, keys).properties);
        assert(r@.nav_properties =~= rewrite_cps(orig, keys).nav_properties);
    }
    r
}

/// Rewrite every entry of one structured type table through the
/// replacement table, keeping the keys.
#[verifier::loop_isolation(false)]
fn rewrite_table(
    table: Vec<(QualifiedName, CompiledStructured)>,
    replacements: &Vec<(QualifiedName, QualifiedName)>,
    Ghost(keys): Ghost<Seq<QnView>>,
) -> (r: Vec<(QualifiedName, CompiledStructured)>)
    requires
        replacements_sound(replacements@, keys),
        replacements_complete(replacements@, keys),
    ensures
        r@.len() == table@.len(),
        forall|i: int|
            0 <= i < table@.len() ==> (#[trigger] r@[i]).0 == table@[i].0 && r@[i].1@
                == rewrite_cps(table@[i].1@, keys),
{
    let ghost orig = table@;
    let mut table = table;
    let mut out: Vec<(QualifiedName, CompiledStructured)> = Vec::new();
    while table.len() > 0
        invariant
            replacements_sound(replacements@, keys),
            replacements_complete(replacements@, keys),
            out@.len() + table@.len() == orig.len(),
            table@ == orig.skip(out@.len() as int),
            forall|i: int|
                0 <= i < out@.len() ==> (#[trigger] out@[i]).0 == orig[i].0 && out@[i].1@
                    == rewrite_cps(orig[i].1@, keys),
        decreases table@.len(),
    {
        let ghost t0: int = out@.len() as int;
        let (k, v) = table.remove(0);
        proof {
            assert((k, v) == orig[t0]);
            assert(table@ =~= orig.skip(t0 + 1));
        }
        let properties = rewrite_properties(v.properties, replacements, Ghost(keys));
        out.push((k, CompiledStructured { properties }));
    }
    out
}

/// Prune simple type namespaces: select for every simple type the
/// highest ancestor namespace under which its name counts exactly one
/// occurrence, drop the table entries of the types so replaced, and
/// rewrite every property reference to them across the complex and
/// entity type tables. Root singleton bindings are not touched.
#[verifier::loop_isolation(false)]
pub fn prune_simple_types_namespaces(input: Compiled) -> (r: Compiled)
    requires
        input.wf(),
    ensures
        r.simple_types@ == kept_simple(input.simple_types@, input.simple_keys()),
        r.complex_types@.len() == input.complex_types@.len(),
        forall|i: int|
            0 <= i < input.complex_types@.len() ==> (#[trigger] r.complex_types@[i]).0
                == input.complex_types@[i].0 && r.complex_types@[i].1@ == rewrite_cps(
                input.complex_types@[i].1@,
                input.simple_keys(),
            ),
        r.entity_types@.len() == input.entity_types@.len(),
        forall|i: int|
            0 <= i < input.entity_types@.len() ==> (#[trigger] r.entity_types@[i]).0
                == input.entity_types@[i].0 && r.entity_types@[i].1@ == rewrite_cps(
                input.entity_types@[i].1@,
                input.simple_keys(),
            ),
        r.root_singletons@ == input.root_singletons@,
{
    let ghost keys = input.simple_keys();
    let n = input.simple_types.len();
    proof {
        assert(keys.len() == n);
    }
    // Replacement selection: one climb per simple type.
    let mut replacements: Vec<(QualifiedName, QualifiedName)> = Vec::new();
    let mut i: usize = 0;
    while i < n
        invariant
            0 <= i <= n,
            n == keys.len(),
            replacements_sound(replacements@, keys),
            forall|m: int|
                0 <= m < i && replacement_of(#[trigger] keys[m], keys) is Some ==> exists|j: int|
                    0 <= j < replacements@.len() && (#[trigger] replacements@[j]).0@ == keys[m],
        decreases n - i,
    {
        let orig_qn = &input.simple_types[i].0;
        proof {
            assert(keys[i as int] == orig_qn@);
            assert(input.simple_types@[i as int].0.wf());
        }
        match climb_exec(&input.simple_types, &orig_qn.name, orig_qn.namespace.clone(), None) {
            Some(best) => {
                let new_qn = QualifiedName::new(best, orig_qn.name.clone());
                proof {
                    assert(replacement_of(keys[i as int], keys) == Some(new_qn@));
                }
                let ghost re_snap = replacements@;
                replacements.push((orig_qn.clone(), new_qn));
                proof {
                    assert(replacements@[replacements@.len() - 1].0@ == keys[i as int]);
                    assert(keys.contains(keys[i as int]));
                    assert forall|m: int|
                        0 <= m < i + 1 && replacement_of(#[trigger] keys[m], keys) is Some implies
                        exists|j: int|
                            0 <= j < replacements@.len() && (#[trigger] replacements@[j]).0@
                                == keys[m] by {
                        if m < i {
                            let j = choose|j: int|
                                0 <= j < re_snap.len() && (#[trigger] re_snap[j]).0@ == keys[m];
                            assert(replacements@[j].0@ == keys[m]);
                        } else {
                            assert(replacements@[replacements@.len() - 1].0@ == keys[m]);
                        }
                    };
                }
            },
            None => {
                proof {
                    assert(replacement_of(keys[i as int], keys) is None);
                }
            },
        }
        i += 1;
    }
    proof {
        assert(replacements_complete(replacements@, keys));
    }
    // Keep only the simple types for which no replacement was found.
    let ghost simple_orig = input.simple_types@;
    let mut simple_in = input.simple_types;
    let mut simple_out: Vec<(QualifiedName, SimpleTypeAttrs)> = Vec::new();
    let mut k: usize = 0;
    proof {
        assert(simple_orig.take(0) =~= Seq::<(QualifiedName, SimpleTypeAttrs)>::empty());
        assert(simple_out@ =~= kept_simple(simple_orig.take(0), keys));
    }
    while simple_in.len() > 0
        invariant
            0 <= k <= simple_orig.len(),
            k + simple_in@.len() == simple_orig.len(),
            simple_in@ == simple_orig.skip(k as int),
            replacements_sound(replacements@, keys),
            replacements_complete(replacements@, keys),
            keys == simple_orig.map_values(|e: (QualifiedName, SimpleTypeAttrs)| e.0@),
            simple_out@ == kept_simple(simple_orig.take(k as int), keys),
        decreases simple_in@.len(),
    {
        let entry = simple_in.remove(0);
        proof {
            assert(entry == simple_orig[k as int]);
            assert(simple_in@ =~= simple_orig.skip(k + 1));
            assert(simple_orig.take(k + 1).drop_last() =~= simple_orig.take(k as int));
            assert(simple_orig.take(k + 1).last() == simple_orig[k as int]);
        }
        let mut j: usize = 0;
        let mut replaced = false;
        while j < replacements.len()
            invariant
                0 <= j <= replacements@.len(),
                !replaced ==> forall|t: int|
                    0 <= t < j ==> (#[trigger] replacements@[t]).0@ != entry.0@,
                replaced ==> exists|t: int|
                    0 <= t < replacements@.len() && (#[trigger] replacements@[t]).0@ == entry.0@,
            decreases replacements@.len() - j,
        {
            if &replacements[j].0 == &entry.0 {
                replaced = true;
                proof {
                    assert(replacements@[j as int].0@ == entry.0@);
                }
                break ;
            }
            j += 1;
        }
        if replaced {
            proof {
                let t = choose|t: int|
                    0 <= t < replacements@.len() && (#[trigger] replacements@[t]).0@ == entry.0@;
                assert(replacement_of(entry.0@, keys) is Some);
                assert(simple_out@ =~= kept_simple(simple_orig.take(k + 1), keys));
            }
        } else {
            proof {
                assert(keys[k as int] == entry.0@);
                if replacement_of(entry.0@, keys) is Some {
                    let t = choose|t: int|
                        0 <= t < replacements@.len() && (#[trigger] replacements@[t]).0@ == keys[
                            k as int];
                    assert(false);
                }
            }
            simple_out.push(entry);
            proof {
                assert(simple_out@ =~= kept_simple(simple_orig.take(k + 1), keys));
            }
        }
        k += 1;
    }
    proof {
        assert(simple_orig.take(simple_orig.len() as int) =~= simple_orig);
    }
    // Rewrite the references across the structured type tables.
    let complex_types = rewrite_table(input.complex_types, &replacements, Ghost(keys));
    let entity_types = rewrite_table(input.entity_types, &replacements, Ghost(keys));
    Compiled {
        simple_types: simple_out,
        complex_types,
        entity_types,
        root_singletons: input.root_singletons,
    }
}

} // verus!
