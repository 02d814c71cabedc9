//! Laws relating the public operations of the filter engine, the
//! property composition and the namespace-pruning optimizer.

use vstd::prelude::*;

use crate::compiled_properties::CpView;
use crate::compiled_properties::CpsView;
use crate::context::FilterView;
use crate::context::PatternView;
use crate::context::PropertyPatternView;
use crate::context::filter_matches;
use crate::context::first_invalid_name_token;
use crate::context::first_invalid_ns_token;
use crate::context::grouped_patterns;
use crate::context::lemma_grouped_patterns_domain;
use crate::context::pattern_matches;
use crate::context::spec_name_tokens;
use crate::context::spec_parse_pattern;
use crate::is_identifier_part;
use crate::is_identifier_start;
use crate::is_simple_identifier;
use crate::names::QnView;
use crate::optimizer::climb;
use crate::optimizer::is_ancestor_of;
use crate::optimizer::prefix_count;
use crate::optimizer::replacement_of;
use crate::text::lemma_split_rec_no_sep;
use crate::text::lemma_split_rec_sep_append;
use crate::text::split_on;
use crate::text::split_rec;

verus! {

/// No identifier character is a dot or a vertical bar.
proof fn lemma_identifier_has_no_separator(name: Seq<char>)
    requires
        is_simple_identifier(name),
    ensures
        forall|i: int| 0 <= i < name.len() ==> name[i] != '.',
        forall|i: int| 0 <= i < name.len() ==> name[i] != '|',
{
    assert forall|i: int| 0 <= i < name.len() implies name[i] != '.' && name[i] != '|' by {
        if i == 0 {
            assert(is_identifier_start(name[0]));
        } else {
            assert(is_identifier_part(name[i]));
        }
    }
}

/// Parsing `*.*.` followed by a type's own name yields a pattern that
/// matches a qualified name exactly when its namespace has exactly
/// two segments and its name is that name.
pub proof fn lemma_wildcard_pattern_matches_depth_two(n: QnView)
    requires
        is_simple_identifier(n.name),
    ensures
        spec_parse_pattern(seq!['*', '.', '*', '.'] + n.name) is Ok,
        pattern_matches(spec_parse_pattern(seq!['*', '.', '*', '.'] + n.name)->Ok_0, n)
            <==> n.namespace.len() == 2,
{
    let s = seq!['*', '.', '*', '.'] + n.name;
    let star = seq!['*'];
    lemma_identifier_has_no_separator(n.name);

    // The fields of the pattern string around the dots.
    assert(s =~= star + seq!['.'] + (star + seq!['.'] + n.name));
    lemma_split_rec_sep_append(star, star + seq!['.'] + n.name, '.', Seq::empty());
    lemma_split_rec_sep_append(star, n.name, '.', Seq::empty());
    lemma_split_rec_no_sep(star, '.', Seq::empty());
    lemma_split_rec_no_sep(n.name, '.', Seq::empty());
    assert(Seq::empty() + star =~= star);
    assert(Seq::empty() + n.name =~= n.name);
    let fields = split_on(s, '.');
    assert(fields =~= seq![star, star, n.name]);

    // The final field is the name: a one-element alternation list.
    assert(n.name != star) by {
        if n.name == star {
            assert(is_identifier_start('*'));
        }
    }
    lemma_split_rec_no_sep(n.name, '|', Seq::empty());
    let names = spec_name_tokens(fields.last());
    assert(names =~= seq![n.name]);
    let none_left: Seq<Seq<char>> = Seq::empty();
    assert(first_invalid_name_token(none_left) is None);
    assert(seq![n.name].drop_first() =~= none_left);
    assert(first_invalid_name_token(seq![n.name]) is None);
    assert(first_invalid_name_token(names) is None);

    // Both namespace fields are wildcards.
    let ns_fields = fields.drop_last();
    assert(ns_fields =~= seq![star, star]);
    assert(first_invalid_ns_token(none_left) is None);
    assert(seq![star].drop_first() =~= none_left);
    assert(first_invalid_ns_token(seq![star]) is None);
    assert(seq![star, star].drop_first() =~= seq![star]);
    assert(first_invalid_ns_token(seq![star, star]) is None);
    assert(first_invalid_ns_token(ns_fields) is None);

    let p = spec_parse_pattern(s)->Ok_0;
    assert(p.ns_ids.len() == 2);
    assert(p.ns_ids[0] is None && p.ns_ids[1] is None);
    assert(p.names == seq![n.name]);
    assert(p.names.contains(n.name)) by {
        assert(p.names[0] == n.name);
    }
    if n.namespace.len() == 2 {
        assert(pattern_matches(p, n));
    }
}

/// A permissive filter built from zero patterns matches every
/// qualified name.
pub proof fn lemma_empty_permissive_matches_all(n: QnView)
    ensures
        filter_matches(FilterView { patterns: Seq::empty(), permissive: true }, n),
{
}

/// A restrictive filter built from zero patterns matches no qualified
/// name.
pub proof fn lemma_empty_restrictive_matches_none(n: QnView)
    ensures
        !filter_matches(FilterView { patterns: Seq::empty(), permissive: false }, n),
{
}

/// A property name that occurs in none of the constructing patterns
/// is indexed by no group, so the property filter built from them
/// matches it against no qualified type.
pub proof fn lemma_property_filter_unknown_name(patterns: Seq<PropertyPatternView>, pname: Seq<char>)
    requires
        forall|i: int| 0 <= i < patterns.len() ==> (#[trigger] patterns[i]).property_name != pname,
    ensures
        !grouped_patterns(patterns).contains_key(pname),
{
    lemma_grouped_patterns_domain(patterns, pname);
}

/// Composing a derived-to-root chain of three property tables lays
/// the root's properties first and the derived type's last, for the
/// structural and the navigation lists alike.
pub proof fn lemma_rev_join_chain(a: CpsView, b: CpsView, c: CpsView)
    ensures
        seq![a, b, c].map_values(|x: CpsView| x.properties).reverse().flatten() == c.properties
            + b.properties + a.properties,
        seq![a, b, c].map_values(|x: CpsView| x.nav_properties).reverse().flatten()
            == c.nav_properties + b.nav_properties + a.nav_properties,
{
    lemma_flatten_three(a.properties, b.properties, c.properties);
    lemma_flatten_three(a.nav_properties, b.nav_properties, c.nav_properties);
    assert(seq![a, b, c].map_values(|x: CpsView| x.properties) =~= seq![
        a.properties,
        b.properties,
        c.properties,
    ]);
    assert(seq![a, b, c].map_values(|x: CpsView| x.nav_properties) =~= seq![
        a.nav_properties,
        b.nav_properties,
        c.nav_properties,
    ]);
}

/// Flattening the reversal of three sequences concatenates them back
/// to front.
proof fn lemma_flatten_three(a: Seq<CpView>, b: Seq<CpView>, c: Seq<CpView>)
    ensures
        seq![a, b, c].reverse().flatten() == c + b + a,
{
    reveal_with_fuel(Seq::flatten, 5);
    assert(seq![a, b, c].reverse() =~= seq![c, b, a]);
    assert(seq![c, b, a].drop_first() =~= seq![b, a]);
    assert(seq![b, a].drop_first() =~= seq![a]);
    assert(seq![a].drop_first() =~= Seq::<Seq<CpView>>::empty());
    assert(seq![c, b, a].flatten() =~= c + b + a);
}

/// When exactly the key at `i` carries `name` below the ancestor
/// `ns`, the count there is exactly one.
proof fn lemma_prefix_count_unique(name: Seq<char>, ns: Seq<Seq<char>>, keys: Seq<QnView>, i: int)
    requires
        0 <= i < keys.len(),
        keys[i].name == name,
        is_ancestor_of(ns, keys[i].namespace),
        forall|j: int|
            0 <= j < keys.len() && j != i ==> !((#[trigger] keys[j]).name == name && is_ancestor_of(
                ns,
                keys[j].namespace,
            )),
    ensures
        prefix_count(name, ns, keys) == 1,
    decreases keys.len(),
{
    if i == keys.len() - 1 {
        lemma_prefix_count_zero(name, ns, keys.drop_last());
    } else {
        lemma_prefix_count_unique(name, ns, keys.drop_last(), i);
        assert(!(keys.last().name == name && is_ancestor_of(ns, keys.last().namespace))) by {
            assert(keys[keys.len() - 1] == keys.last());
        }
    }
}

/// When no key carries `name` below the ancestor `ns`, the count
/// there is zero.
proof fn lemma_prefix_count_zero(name: Seq<char>, ns: Seq<Seq<char>>, keys: Seq<QnView>)
    requires
        forall|j: int|
            0 <= j < keys.len() ==> !((#[trigger] keys[j]).name == name && is_ancestor_of(
                ns,
                keys[j].namespace,
            )),
    ensures
        prefix_count(name, ns, keys) == 0,
    decreases keys.len(),
{
    if keys.len() > 0 {
        lemma_prefix_count_zero(name, ns, keys.drop_last());
    }
}

/// When two distinct keys carry `name` below the ancestor `ns`, the
/// count there is at least two.
proof fn lemma_prefix_count_two(
    name: Seq<char>,
    ns: Seq<Seq<char>>,
    keys: Seq<QnView>,
    i: int,
    j: int,
)
    requires
        0 <= i < keys.len(),
        0 <= j < keys.len(),
        i != j,
        keys[i].name == name,
        is_ancestor_of(ns, keys[i].namespace),
        keys[j].name == name,
        is_ancestor_of(ns, keys[j].namespace),
    ensures
        prefix_count(name, ns, keys) >= 2,
    decreases keys.len(),
{
    if i == keys.len() - 1 || j == keys.len() - 1 {
        let other = if i == keys.len() - 1 {
            j
        } else {
            i
        };
        lemma_prefix_count_one_below(name, ns, keys.drop_last(), other);
    } else {
        lemma_prefix_count_two(name, ns, keys.drop_last(), i, j);
    }
}

/// When some key carries `name` below the ancestor `ns`, the count
/// there is at least one.
proof fn lemma_prefix_count_one_below(
    name: Seq<char>,
    ns: Seq<Seq<char>>,
    keys: Seq<QnView>,
    i: int,
)
    requires
        0 <= i < keys.len(),
        keys[i].name == name,
        is_ancestor_of(ns, keys[i].namespace),
    ensures
        prefix_count(name, ns, keys) >= 1,
    decreases keys.len(),
{
    if i < keys.len() - 1 {
        lemma_prefix_count_one_below(name, ns, keys.drop_last(), i);
    }
}

/// Walking upward while every ancestor counts one ends at the
/// single-segment top ancestor.
proof fn lemma_climb_to_top(
    ns: Seq<Seq<char>>,
    name: Seq<char>,
    keys: Seq<QnView>,
    best: Option<Seq<Seq<char>>>,
)
    requires
        ns.len() >= 1,
        forall|p: Seq<Seq<char>>|
            (0 < p.len() < ns.len() && p == ns.take(p.len() as int)) ==> #[trigger] prefix_count(name, p, keys) == 1,
    ensures
        climb(ns, name, keys, best) == (if ns.len() == 1 {
            best
        } else {
            Some(ns.take(1))
        }),
    decreases ns.len(),
{
    if ns.len() > 1 {
        let parent = ns.drop_last();
        assert(parent =~= ns.take(ns.len() - 1));
        assert(prefix_count(name, parent, keys) == 1);
        assert forall|p: Seq<Seq<char>>|
            (0 < p.len() < parent.len() && p == parent.take(p.len() as int)) implies #[trigger] prefix_count(name, p, keys) == 1 by {
            assert(parent.take(p.len() as int) =~= ns.take(p.len() as int));
        }
        lemma_climb_to_top(parent, name, keys, Some(parent));
        if parent.len() == 1 {
            assert(parent =~= ns.take(1));
        } else {
            assert(parent.take(1) =~= ns.take(1));
        }
    }
}

/// Namespace pruning, first half: a simple type, in a namespace of at
/// least two segments, whose name belongs to no other simple type
/// strictly below its top-level ancestor, is given a replacement in
/// the single-segment top ancestor namespace.
pub proof fn lemma_unique_name_hoists_to_top(keys: Seq<QnView>, i: int)
    requires
        0 <= i < keys.len(),
        keys[i].namespace.len() >= 2,
        forall|j: int|
            0 <= j < keys.len() && j != i ==> !((#[trigger] keys[j]).name == keys[i].name
                && is_ancestor_of(keys[i].namespace.take(1), keys[j].namespace)),
    ensures
        replacement_of(keys[i], keys) == Some(
            QnView { namespace: keys[i].namespace.take(1), name: keys[i].name },
        ),
{
    let n = keys[i];
    let top = n.namespace.take(1);
    assert forall|p: Seq<Seq<char>>|
        (0 < p.len() < n.namespace.len() && p == n.namespace.take(p.len() as int)) implies #[trigger] prefix_count(
        n.name,
        p,
        keys,
    ) == 1 by {
        assert(is_ancestor_of(p, n.namespace));
        assert forall|j: int|
            0 <= j < keys.len() && j != i implies !((#[trigger] keys[j]).name == n.name
            && is_ancestor_of(p, keys[j].namespace)) by {
            if keys[j].name == n.name && is_ancestor_of(p, keys[j].namespace) {
                assert(p == keys[j].namespace.take(p.len() as int));
                assert(keys[j].namespace.take(1) =~= p.take(1));
                assert(p.take(1) =~= n.namespace.take(1));
                assert(is_ancestor_of(top, keys[j].namespace));
            }
        }
        lemma_prefix_count_unique(n.name, p, keys, i);
    }
    lemma_climb_to_top(n.namespace, n.name, keys, None);
}

/// Namespace pruning, second half: a simple type whose name belongs
/// to another simple type strictly below its own immediate parent
/// namespace gets no replacement at all, so it does not climb past
/// that parent.
pub proof fn lemma_colliding_name_stays(keys: Seq<QnView>, i: int, j: int)
    requires
        0 <= i < keys.len(),
        0 <= j < keys.len(),
        i != j,
        keys[i].namespace.len() >= 2,
        keys[j].name == keys[i].name,
        is_ancestor_of(keys[i].namespace.drop_last(), keys[j].namespace),
    ensures
        replacement_of(keys[i], keys) is None,
{
    let n = keys[i];
    let parent = n.namespace.drop_last();
    assert(parent =~= n.namespace.take(n.namespace.len() - 1));
    assert(is_ancestor_of(parent, n.namespace));
    lemma_prefix_count_two(n.name, parent, keys, i, j);
    assert(climb(n.namespace, n.name, keys, None) is None);
}

} // verus!
