//! Pattern-based filter engine for qualified entity type names and
//! typed properties.
//!
//! Pattern grammar: `<seg>.<seg>.....<seg>` where every segment before
//! the last is either `*` or an exact identifier, and the final segment
//! is either `*` or a `|`-separated alternation of exact identifiers.
//! Property patterns append `/<PropertyName>` after a full type pattern.

use vstd::assert_by_contradiction;
use vstd::prelude::*;

use crate::is_simple_identifier;
use crate::names::IdentifierError;
use crate::names::PropertyName;
use crate::names::QnView;
use crate::names::QualifiedName;
use crate::names::SimpleIdentifier;
use crate::text::is_single_char;
use crate::text::last_split;
use crate::text::rsplit_once_str;
use crate::text::split_on;
use crate::text::split_str;
use crate::assoc::lemma_pairs_to_map_absent;
use crate::assoc::lemma_pairs_to_map_get;
use crate::assoc::lemma_pairs_to_map_update;
use crate::assoc::pairs_to_map;

verus! {

/// Errors that can occur while parsing filter patterns.
#[derive(Debug)]
pub enum FilterPatternError {
    /// The pattern string yields no name segment.
    EmptyPattern,
    /// The pattern contains an invalid identifier (carried along).
    InvalidIdentifier(String),
}

/// Errors that can occur while parsing property patterns.
#[derive(Debug)]
pub enum PropetyPatternError {
    /// No property name defined in the pattern.
    NoPropertyNameDefined,
    /// Type pattern error.
    TypeFilterPattern(FilterPatternError),
    /// Property name error.
    PropertyName(IdentifierError),
}

/// View of one optional segment matcher.
pub open spec fn opt_id_view(o: Option<SimpleIdentifier>) -> Option<Seq<char>> {
    match o {
        Some(id) => Some(id@),
        None => None,
    }
}

/// Mathematical value of an `EntityTypeFilterPattern`.
pub struct PatternView {
    /// One matcher per namespace segment: `None` is a wildcard,
    /// `Some(id)` requires the segment to equal `id`.
    pub ns_ids: Seq<Option<Seq<char>>>,
    /// Acceptable terminal names; empty means any name is accepted.
    pub names: Seq<Seq<char>>,
}

/// Whether the pattern matches a qualified name: the name must be among
/// the acceptable names (unless any name is accepted), the segment
/// counts must be exactly equal, and every non-wildcard segment must
/// equal the candidate's segment at the same position.
pub open spec fn pattern_matches(p: PatternView, n: QnView) -> bool {
    &&& p.names.len() > 0 ==> p.names.contains(n.name)
    &&& n.namespace.len() == p.ns_ids.len()
    &&& forall|d: int|
        0 <= d < p.ns_ids.len() ==> (#[trigger] p.ns_ids[d] matches Some(id) ==> n.namespace[d]
            == id)
}

/// First token of the alternation list that fails identifier
/// validation, if any.
pub open spec fn first_invalid_name_token(ts: Seq<Seq<char>>) -> Option<Seq<char>>
    decreases ts.len(),
{
    if ts.len() == 0 {
        None
    } else if !is_simple_identifier(ts[0]) {
        Some(ts[0])
    } else {
        first_invalid_name_token(ts.drop_first())
    }
}

/// First namespace segment that is neither `*` nor a valid identifier,
/// if any.
pub open spec fn first_invalid_ns_token(ts: Seq<Seq<char>>) -> Option<Seq<char>>
    decreases ts.len(),
{
    if ts.len() == 0 {
        None
    } else if ts[0] != seq!['*'] && !is_simple_identifier(ts[0]) {
        Some(ts[0])
    } else {
        first_invalid_ns_token(ts.drop_first())
    }
}

/// Acceptable-name list denoted by the final pattern segment: `*`
/// accepts any name (empty list), anything else is a `|`-alternation.
pub open spec fn spec_name_tokens(name_field: Seq<char>) -> Seq<Seq<char>> {
    if name_field == seq!['*'] {
        Seq::empty()
    } else {
        split_on(name_field, '|')
    }
}

/// Parse of a pattern string, as a mathematical function: the fields
/// around `.`, with the last field read as the acceptable-name list and
/// the earlier fields as segment matchers. `Err` carries the first
/// token that fails identifier validation (name tokens first, then
/// namespace tokens, left to right).
pub open spec fn spec_parse_pattern(s: Seq<char>) -> Result<PatternView, Seq<char>> {
    let fields = split_on(s, '.');
    let ns_fields = fields.drop_last();
    let names = spec_name_tokens(fields.last());
    if let Some(t) = first_invalid_name_token(names) {
        Err(t)
    } else if let Some(t) = first_invalid_ns_token(ns_fields) {
        Err(t)
    } else {
        Ok(
            PatternView {
                ns_ids: ns_fields.map_values(
                    |f: Seq<char>|
                        if f == seq!['*'] {
                            None
                        } else {
                            Some(f)
                        },
                ),
                names,
            },
        )
    }
}

/// One compiled wildcard rule over qualified names.
#[derive(Debug)]
pub struct EntityTypeFilterPattern {
    ns_ids: Vec<Option<SimpleIdentifier>>,
    names: Vec<SimpleIdentifier>,
}

impl View for EntityTypeFilterPattern {
    type V = PatternView;

    closed spec fn view(&self) -> PatternView {
        PatternView {
            ns_ids: self.ns_ids@.map_values(|o: Option<SimpleIdentifier>| opt_id_view(o)),
            names: self.names@.map_values(|id: SimpleIdentifier| id@),
        }
    }
}

impl Clone for EntityTypeFilterPattern {
    fn clone(&self) -> (r: Self)
        ensures
            r@ == self@,
    {
        let mut ns_ids: Vec<Option<SimpleIdentifier>> = Vec::new();
        let mut i: usize = 0;
        while i < self.ns_ids.len()
            invariant
                0 <= i <= self.ns_ids@.len(),
                ns_ids@.len() == i,
                forall|j: int| 0 <= j < i ==> opt_id_view(#[trigger] ns_ids@[j]) == self@.ns_ids[j],
            decreases self.ns_ids@.len() - i,
        {
            let o = match &self.ns_ids[i] {
                Some(id) => Some(id.clone()),
                None => None,
            };
            ns_ids.push(o);
            i += 1;
        }
        let mut names: Vec<SimpleIdentifier> = Vec::new();
        let mut k: usize = 0;
        while k < self.names.len()
            invariant
                0 <= k <= self.names@.len(),
                names@.len() == k,
                forall|j: int| 0 <= j < k ==> #[trigger] names@[j]@ == self@.names[j],
            decreases self.names@.len() - k,
        {
            names.push(self.names[k].clone());
            k += 1;
        }
        let r = EntityTypeFilterPattern { ns_ids, names };
        proof {
            assert(r@.ns_ids =~= self@.ns_ids);
            assert(r@.names =~= self@.names);
        }
        r
    }
}

impl EntityTypeFilterPattern {
    /// Whether `name` occurs among the identifiers of `ids`.
    fn contains_name(ids: &Vec<SimpleIdentifier>, name: &SimpleIdentifier) -> (r: bool)
        ensures
            r == ids@.map_values(|id: SimpleIdentifier| id@).contains(name@),
    {
        let ghost views = ids@.map_values(|id: SimpleIdentifier| id@);
        let mut i: usize = 0;
        while i < ids.len()
            invariant
                0 <= i <= ids@.len(),
                views == ids@.map_values(|id: SimpleIdentifier| id@),
                forall|j: int| 0 <= j < i ==> #[trigger] views[j] != name@,
            decreases ids@.len() - i,
        {
            if &ids[i] == name {
                proof {
                    assert(views[i as int] == name@);
                }
                return true;
            }
            i += 1;
        }
        proof {
            assert_by_contradiction!(!views.contains(name@), {
                let k = choose|k: int| 0 <= k < views.len() && views[k] == name@;
            });
        }
        false
    }

    /// Parse a pattern string such as `ServiceRoot.*.*`,
    /// `SomeNamespace.*.Entity1|Entity2` or `*.*.Entity1|Entity2`.
    #[verifier::loop_isolation(false)]
    pub fn parse(s: &str) -> (r: Result<EntityTypeFilterPattern, FilterPatternError>)
        ensures
            r is Ok <==> spec_parse_pattern(s@) is Ok,
            r matches Ok(p) ==> p@ == spec_parse_pattern(s@)->Ok_0,
            r matches Err(e) ==> e matches FilterPatternError::InvalidIdentifier(t) && t@
                == spec_parse_pattern(s@)->Err_0,
    {
        let mut fields = split_str(s, '.');
        let ghost spec_fields = split_on(s@, '.');
        let name_field = match fields.pop() {
            Some(f) => f,
            None => {
                proof {
                    assert(false);
                }
                return Err(FilterPatternError::EmptyPattern);
            },
        };
        proof {
            assert(name_field@ == spec_fields.last());
            assert(fields@.map_values(|f: String| f@) =~= spec_fields.drop_last());
        }
        let ghost ns_fields = spec_fields.drop_last();
        let ghost spec_names = spec_name_tokens(spec_fields.last());

        let mut names: Vec<SimpleIdentifier> = Vec::new();
        if !is_single_char(name_field.as_str(), '*') {
            let toks = split_str(name_field.as_str(), '|');
            proof {
                assert(toks@.map_values(|f: String| f@) == spec_names);
            }
            let mut i: usize = 0;
            while i < toks.len()
                invariant
                    0 <= i <= toks@.len(),
                    toks@.map_values(|f: String| f@) == spec_names,
                    names@.len() == i,
                    forall|j: int| 0 <= j < i ==> is_simple_identifier(#[trigger] spec_names[j]),
                    forall|j: int| 0 <= j < i ==> #[trigger] names@[j]@ == spec_names[j],
                decreases toks@.len() - i,
            {
                match SimpleIdentifier::parse(toks[i].as_str()) {
                    Ok(id) => {
                        names.push(id);
                    },
                    Err(_) => {
                        proof {
                            lemma_first_invalid_name_at(spec_names, i as int);
                            assert(toks@.map_values(|f: String| f@)[i as int] == toks@[i as int]@);
                        }
                        return Err(FilterPatternError::InvalidIdentifier(toks[i].clone()));
                    },
                }
                i += 1;
            }
        }
        proof {
            lemma_first_invalid_name_none(spec_names);
            assert(names@.map_values(|id: SimpleIdentifier| id@) =~= spec_names);
        }

        let mut ns_ids: Vec<Option<SimpleIdentifier>> = Vec::new();
        let mut i: usize = 0;
        while i < fields.len()
            invariant
                0 <= i <= fields@.len(),
                fields@.map_values(|f: String| f@) == ns_fields,
                ns_ids@.len() == i,
                forall|j: int|
                    0 <= j < i ==> (ns_fields[j] == seq!['*'] || is_simple_identifier(
                        #[trigger] ns_fields[j],
                    )),
                forall|j: int|
                    0 <= j < i ==> opt_id_view(#[trigger] ns_ids@[j]) == (if ns_fields[j]
                        == seq!['*'] {
                        None
                    } else {
                        Some(ns_fields[j])
                    }),
            decreases fields@.len() - i,
        {
            if is_single_char(fields[i].as_str(), '*') {
                ns_ids.push(None);
            } else {
                match SimpleIdentifier::parse(fields[i].as_str()) {
                    Ok(id) => {
                        ns_ids.push(Some(id));
                    },
                    Err(_) => {
                        proof {
                            lemma_first_invalid_ns_at(ns_fields, i as int);
                            assert(fields@.map_values(|f: String| f@)[i as int] == fields@[
                                i as int]@);
                        }
                        return Err(FilterPatternError::InvalidIdentifier(fields[i].clone()));
                    },
                }
            }
            i += 1;
        }
        let r = EntityTypeFilterPattern { ns_ids, names };
        proof {
            lemma_first_invalid_ns_none(ns_fields);
            assert(r@.ns_ids =~= ns_fields.map_values(
                |f: Seq<char>|
                    if f == seq!['*'] {
                        None
                    } else {
                        Some(f)
                    },
            ));
        }
        Ok(r)
    }

    /// Check whether this pattern matches the qualified name.
    #[verifier::loop_isolation(false)]
    pub fn matches(&self, typename: &QualifiedName) -> (r: bool)
        ensures
            r == pattern_matches(self@, typename@),
    {
        if self.names.len() > 0 {
            if !Self::contains_name(&self.names, &typename.name) {
                return false;
            }
        }
        if typename.namespace.len() != self.ns_ids.len() {
            return false;
        }
        let mut depth: usize = 0;
        while depth < self.ns_ids.len()
            invariant
                0 <= depth <= self.ns_ids@.len(),
                typename@.namespace.len() == self@.ns_ids.len(),
                self@.names.len() > 0 ==> self@.names.contains(typename@.name),
                forall|d: int|
                    0 <= d < depth ==> (#[trigger] self@.ns_ids[d] matches Some(id)
                        ==> typename@.namespace[d] == id),
            decreases self.ns_ids@.len() - depth,
        {
            if let Some(pattern_id) = &self.ns_ids[depth] {
                match typename.namespace.get_id(depth) {
                    Some(ns) => {
                        if !(pattern_id == ns) {
                            proof {
                                assert(self@.ns_ids[depth as int] matches Some(id)
                                    && typename@.namespace[depth as int] != id);
                            }
                            return false;
                        }
                    },
                    None => {
                        // The segment counts were checked equal above, so the
                        // lookup cannot be out of range.
                        proof {
                            assert(false);
                        }
                        return false;
                    },
                }
            }
            depth += 1;
        }
        true
    }
}

/// Mathematical value of an `EntityTypeFilter`.
pub struct FilterView {
    /// The compiled patterns, in order.
    pub patterns: Seq<PatternView>,
    /// Policy when no pattern is given: match all (permissive) or none.
    pub permissive: bool,
}

/// Filter-level match: with no patterns the policy decides; otherwise
/// the patterns are taken as a disjunction, whatever the policy.
pub open spec fn filter_matches(f: FilterView, n: QnView) -> bool {
    if f.patterns.len() == 0 {
        f.permissive
    } else {
        exists|i: int| 0 <= i < f.patterns.len() && pattern_matches(#[trigger] f.patterns[i], n)
    }
}

/// Entity type filter specified by wildcard patterns.
#[derive(Debug)]
pub struct EntityTypeFilter {
    patterns: Vec<EntityTypeFilterPattern>,
    permissive: bool,
}

impl View for EntityTypeFilter {
    type V = FilterView;

    closed spec fn view(&self) -> FilterView {
        FilterView {
            patterns: self.patterns@.map_values(|p: EntityTypeFilterPattern| p@),
            permissive: self.permissive,
        }
    }
}

impl Default for EntityTypeFilter {
    /// The default filter is permissive with no patterns: match all.
    fn default() -> (r: Self)
        ensures
            r@.patterns.len() == 0,
            r@.permissive,
    {
        EntityTypeFilter { patterns: Vec::new(), permissive: true }
    }
}

impl EntityTypeFilter {
    /// Create a new filter from a list of patterns. If patterns empty
    /// then matches nothing.
    pub fn new_restrictive(patterns: Vec<EntityTypeFilterPattern>) -> (r: Self)
        ensures
            r@.patterns == patterns@.map_values(|p: EntityTypeFilterPattern| p@),
            !r@.permissive,
    {
        EntityTypeFilter { patterns, permissive: false }
    }

    /// Create a new filter from a list of patterns. If patterns empty
    /// then matches anything.
    pub fn new_permissive(patterns: Vec<EntityTypeFilterPattern>) -> (r: Self)
        ensures
            r@.patterns == patterns@.map_values(|p: EntityTypeFilterPattern| p@),
            r@.permissive,
    {
        EntityTypeFilter { patterns, permissive: true }
    }

    /// Add one pattern at the end of the list.
    fn push_pattern(&mut self, p: EntityTypeFilterPattern)
        ensures
            final(self)@.patterns == old(self)@.patterns.push(p@),
            final(self)@.permissive == old(self)@.permissive,
    {
        self.patterns.push(p);
        proof {
            assert(self@.patterns =~= old(self)@.patterns.push(p@));
        }
    }

    /// Check whether the filter matches a qualified entity type name.
    #[verifier::loop_isolation(false)]
    pub fn matches(&self, typename: &QualifiedName) -> (r: bool)
        ensures
            r == filter_matches(self@, typename@),
    {
        let mut i: usize = 0;
        while i < self.patterns.len()
            invariant
                0 <= i <= self.patterns@.len(),
                forall|j: int|
                    0 <= j < i ==> !pattern_matches(#[trigger] self@.patterns[j], typename@),
            decreases self.patterns@.len() - i,
        {
            if self.patterns[i].matches(typename) {
                proof {
                    assert(self@.patterns[i as int] == self.patterns@[i as int]@);
                }
                return true;
            }
            proof {
                assert(self@.patterns[i as int] == self.patterns@[i as int]@);
            }
            i += 1;
        }
        if self.patterns.len() == 0 {
            self.permissive
        } else {
            false
        }
    }
}

/// Mathematical value of a `PropertyPattern`.
pub struct PropertyPatternView {
    /// The type pattern before the `/`.
    pub type_filter: PatternView,
    /// The property name after the `/`.
    pub property_name: Seq<char>,
}

/// Property pattern: `QualifiedTypePattern/PropertyName`, where
/// `QualifiedTypePattern` follows the entity type pattern grammar.
#[derive(Debug)]
pub struct PropertyPattern {
    type_filter: EntityTypeFilterPattern,
    property_name: PropertyName,
}

impl View for PropertyPattern {
    type V = PropertyPatternView;

    closed spec fn view(&self) -> PropertyPatternView {
        PropertyPatternView { type_filter: self.type_filter@, property_name: self.property_name@ }
    }
}

impl Clone for PropertyPattern {
    fn clone(&self) -> (r: Self)
        ensures
            r@ == self@,
    {
        PropertyPattern {
            type_filter: self.type_filter.clone(),
            property_name: self.property_name.clone(),
        }
    }
}

impl PropertyPattern {
    /// Parse a property pattern: the part after the last `/` is the
    /// property name, the part before it a type pattern.
    pub fn parse(s: &str) -> (r: Result<PropertyPattern, PropetyPatternError>)
        ensures
            last_split(s@, '/') is None <==> r matches Err(
                PropetyPatternError::NoPropertyNameDefined,
            ),
            last_split(s@, '/') matches Some((tf, pn)) ==> (spec_parse_pattern(tf) matches Err(t)
                ==> (r matches Err(PropetyPatternError::TypeFilterPattern(
                FilterPatternError::InvalidIdentifier(u),
            )) && u@ == t)),
            last_split(s@, '/') matches Some((tf, pn)) ==> (spec_parse_pattern(tf) is Ok
                && !is_simple_identifier(pn) ==> r matches Err(
                PropetyPatternError::PropertyName(IdentifierError::NotAnIdentifier),
            )),
            last_split(s@, '/') matches Some((tf, pn)) ==> (spec_parse_pattern(tf) is Ok
                && is_simple_identifier(pn) ==> (r matches Ok(p) && p@.type_filter
                == spec_parse_pattern(tf)->Ok_0 && p@.property_name == pn)),
    {
        if let Some((type_part, name_part)) = rsplit_once_str(s, '/') {
            let type_filter = match EntityTypeFilterPattern::parse(type_part.as_str()) {
                Ok(p) => p,
                Err(e) => {
                    return Err(PropetyPatternError::TypeFilterPattern(e));
                },
            };
            let property_name = match PropertyName::parse(name_part.as_str()) {
                Ok(n) => n,
                Err(e) => {
                    return Err(PropetyPatternError::PropertyName(e));
                },
            };
            Ok(PropertyPattern { type_filter, property_name })
        } else {
            Err(PropetyPatternError::NoPropertyNameDefined)
        }
    }
}

/// The type patterns of `ps`, grouped by property name in input order.
pub open spec fn grouped_patterns(ps: Seq<PropertyPatternView>) -> Map<Seq<char>, Seq<PatternView>>
    decreases ps.len(),
{
    if ps.len() == 0 {
        Map::empty()
    } else {
        let m = grouped_patterns(ps.drop_last());
        let p = ps.last();
        let prev = if m.contains_key(p.property_name) {
            m[p.property_name]
        } else {
            Seq::empty()
        };
        m.insert(p.property_name, prev.push(p.type_filter))
    }
}

/// A property name is grouped exactly when some pattern carries it.
pub proof fn lemma_grouped_patterns_domain(ps: Seq<PropertyPatternView>, k: Seq<char>)
    ensures
        grouped_patterns(ps).contains_key(k) <==> exists|i: int|
            0 <= i < ps.len() && ps[i].property_name == k,
    decreases ps.len(),
{
    if ps.len() > 0 {
        lemma_grouped_patterns_domain(ps.drop_last(), k);
        if ps.last().property_name == k {
            assert(ps[ps.len() - 1].property_name == k);
        } else if exists|i: int| 0 <= i < ps.len() && ps[i].property_name == k {
            let i = choose|i: int| 0 <= i < ps.len() && ps[i].property_name == k;
            assert(ps.drop_last()[i].property_name == k);
        }
    }
}

/// The map denoted by a property filter's search index.
pub open spec fn index_view(s: Seq<(PropertyName, EntityTypeFilter)>) -> Map<Seq<char>, FilterView> {
    pairs_to_map(s.map_values(|e: (PropertyName, EntityTypeFilter)| (e.0@, e.1@)))
}

/// Property filter: an aggregation of property patterns, indexed by
/// property name for faster match.
#[derive(Debug)]
pub struct PropertyFilter {
    search_index: Vec<(PropertyName, EntityTypeFilter)>,
}

impl View for PropertyFilter {
    type V = Map<Seq<char>, FilterView>;

    closed spec fn view(&self) -> Map<Seq<char>, FilterView> {
        index_view(self.search_index@)
    }
}

impl Default for PropertyFilter {
    /// The default property filter has no indexed names: match none.
    fn default() -> (r: Self)
        ensures
            r@ == Map::<Seq<char>, FilterView>::empty(),
    {
        let r = PropertyFilter { search_index: Vec::new() };
        proof {
            assert(r.search_index@.map_values(
                |e: (PropertyName, EntityTypeFilter)| (e.0@, e.1@),
            ) =~= Seq::<(Seq<char>, FilterView)>::empty());
        }
        r
    }
}

impl PropertyFilter {
    /// Position of the entry for `name` in the search index, if any.
    fn find_key(entries: &Vec<(PropertyName, EntityTypeFilter)>, name: &PropertyName) -> (r:
        Option<usize>)
        ensures
            r matches Some(at) ==> at < entries@.len() && entries@[at as int].0@ == name@,
            r is None ==> forall|j: int|
                0 <= j < entries@.len() ==> (#[trigger] entries@[j]).0@ != name@,
    {
        let mut at: usize = 0;
        while at < entries.len()
            invariant
                0 <= at <= entries@.len(),
                forall|j: int| 0 <= j < at ==> (#[trigger] entries@[j]).0@ != name@,
            decreases entries@.len() - at,
        {
            if entries[at].0 == *name {
                return Some(at);
            }
            at += 1;
        }
        None
    }

    /// Create a new filter from a list of patterns: the type patterns
    /// are grouped by property name, and each group becomes one
    /// restrictive entity type filter.
    #[verifier::loop_isolation(false)]
    pub fn new(patterns: Vec<PropertyPattern>) -> (r: Self)
        ensures
            forall|k: Seq<char>|
                r@.contains_key(k) <==> grouped_patterns(
                    patterns@.map_values(|p: PropertyPattern| p@),
                ).contains_key(k),
            forall|k: Seq<char>|
                #[trigger] r@.contains_key(k) ==> r@[k] == (FilterView {
                    patterns: grouped_patterns(patterns@.map_values(|p: PropertyPattern| p@))[k],
                    permissive: false,
                }),
    {
        let ghost pviews = patterns@.map_values(|p: PropertyPattern| p@);
        let mut search_index: Vec<(PropertyName, EntityTypeFilter)> = Vec::new();
        let mut idx: usize = 0;
        proof {
            assert(pviews.take(0) =~= Seq::<PropertyPatternView>::empty());
            assert(search_index@.map_values(|e: (PropertyName, EntityTypeFilter)| (e.0@, e.1@))
                =~= Seq::<(Seq<char>, FilterView)>::empty());
        }
        while idx < patterns.len()
            invariant
                0 <= idx <= patterns@.len(),
                forall|a: int, b: int|
                    0 <= a < b < search_index@.len() ==> (#[trigger] search_index@[a]).0@ != (
                    #[trigger] search_index@[b]).0@,
                forall|k: Seq<char>|
                    index_view(search_index@).contains_key(k) <==> grouped_patterns(
                        pviews.take(idx as int),
                    ).contains_key(k),
                forall|k: Seq<char>|
                    #[trigger] index_view(search_index@).contains_key(k) ==> index_view(
                        search_index@,
                    )[k] == (FilterView {
                        patterns: grouped_patterns(pviews.take(idx as int))[k],
                        permissive: false,
                    }),
            decreases patterns@.len() - idx,
        {
            let p = patterns[idx].clone();
            let ghost snap = search_index@;
            let ghost entries = snap.map_values(
                |e: (PropertyName, EntityTypeFilter)| (e.0@, e.1@),
            );
            let ghost m = index_view(snap);
            proof {
                assert(pviews.take(idx + 1).drop_last() =~= pviews.take(idx as int));
                assert(pviews.take(idx + 1).last() == pviews[idx as int]);
            }
            let found = Self::find_key(&search_index, &p.property_name);
            let ghost k0 = p@.property_name;
            let ghost g = grouped_patterns(pviews.take(idx as int));
            let ghost g1 = grouped_patterns(pviews.take(idx + 1));
            proof {
                assert(pviews[idx as int] == patterns@[idx as int]@);
                assert(forall|j: int|
                    0 <= j < entries.len() ==> (#[trigger] entries[j]).0 == snap[j].0@);
                assert(forall|k: Seq<char>|
                    index_view(snap).contains_key(k) <==> g.contains_key(k));
                assert(forall|k: Seq<char>|
                    #[trigger] index_view(snap).contains_key(k) ==> index_view(snap)[k]
                        == (FilterView { patterns: g[k], permissive: false }));
            }
            if let Some(at) = found {
                proof {
                    assert(snap[at as int].0@ == k0);
                }
                let mut pair = search_index.remove(at);
                proof {
                    assert(forall|j: int|
                        at < j < entries.len() ==> (#[trigger] entries[j]).0 != entries[
                            at as int].0);
                    lemma_pairs_to_map_get(entries, at as int);
                    assert(m.contains_key(k0) && m[k0] == entries[at as int].1);
                }
                pair.1.push_pattern(p.type_filter);
                search_index.insert(at, pair);
                proof {
                    let new_entries = search_index@.map_values(
                        |e: (PropertyName, EntityTypeFilter)| (e.0@, e.1@),
                    );
                    assert(new_entries =~= entries.update(
                        at as int,
                        (entries[at as int].0, new_entries[at as int].1),
                    ));
                    assert(forall|j: int|
                        0 <= j < entries.len() && j != at ==> (#[trigger] entries[j]).0
                            != entries[at as int].0);
                    lemma_pairs_to_map_update(entries, at as int, new_entries[at as int].1);
                    let v1 = new_entries[at as int].1;
                    assert(index_view(search_index@) == m.insert(k0, v1));
                    assert(m[k0] == (FilterView { patterns: g[k0], permissive: false }));
                    assert(v1 == (FilterView {
                        patterns: g[k0].push(pviews[idx as int].type_filter),
                        permissive: false,
                    }));
                    assert(g1 == g.insert(k0, g[k0].push(pviews[idx as int].type_filter)));
                    assert(forall|j: int|
                        0 <= j < new_entries.len() ==> (#[trigger] new_entries[j]).0 == entries[
                            j].0);
                    assert forall|k: Seq<char>|
                        index_view(search_index@).contains_key(k) <==> g1.contains_key(k) by {
                        if k != k0 {
                            assert(index_view(search_index@).contains_key(k) <==> index_view(
                                snap,
                            ).contains_key(k));
                        }
                    };
                    assert forall|k: Seq<char>| #[trigger]
                        index_view(search_index@).contains_key(k) implies index_view(
                        search_index@,
                    )[k] == (FilterView { patterns: g1[k], permissive: false }) by {
                        if k != k0 {
                            assert(index_view(snap).contains_key(k));
                            assert(index_view(search_index@)[k] == index_view(snap)[k]);
                            assert(g1[k] == g[k]);
                        }
                    };
                }
            } else {
                let mut group: Vec<EntityTypeFilterPattern> = Vec::new();
                group.push(p.type_filter);
                let tf = EntityTypeFilter::new_restrictive(group);
                proof {
                    lemma_pairs_to_map_absent(entries, k0);
                    assert(!m.contains_key(k0));
                    assert(!g.contains_key(k0));
                }
                search_index.push((p.property_name, tf));
                proof {
                    let new_entries = search_index@.map_values(
                        |e: (PropertyName, EntityTypeFilter)| (e.0@, e.1@),
                    );
                    assert(new_entries.drop_last() =~= entries);
                    assert(new_entries.last() == (k0, tf@));
                    assert(index_view(search_index@) == m.insert(k0, tf@));
                    assert(tf@.patterns =~= Seq::empty().push(pviews[idx as int].type_filter));
                    assert(g1 == g.insert(k0, Seq::empty().push(pviews[idx as int].type_filter)));
                    assert(tf@ == (FilterView { patterns: g1[k0], permissive: false }));
                    assert forall|k: Seq<char>|
                        index_view(search_index@).contains_key(k) <==> g1.contains_key(k) by {
                        if k != k0 {
                            assert(index_view(search_index@).contains_key(k) <==> index_view(
                                snap,
                            ).contains_key(k));
                        }
                    };
                    assert forall|k: Seq<char>| #[trigger]
                        index_view(search_index@).contains_key(k) implies index_view(
                        search_index@,
                    )[k] == (FilterView { patterns: g1[k], permissive: false }) by {
                        if k != k0 {
                            assert(index_view(snap).contains_key(k));
                            assert(index_view(search_index@)[k] == index_view(snap)[k]);
                            assert(g1[k] == g[k]);
                        }
                    };
                }
            }
            idx += 1;
        }
        proof {
            assert(pviews.take(patterns@.len() as int) =~= pviews);
        }
        PropertyFilter { search_index }
    }

    /// Check if a property named `pname` on the type `qtype` matches
    /// the filter: unindexed names never match, indexed names delegate
    /// to their restrictive entity type filter.
    #[verifier::loop_isolation(false)]
    pub fn matches(&self, qtype: QualifiedName, pname: &PropertyName) -> (r: bool)
        ensures
            r == (self@.contains_key(pname@) && filter_matches(self@[pname@], qtype@)),
    {
        let ghost entries = self.search_index@.map_values(
            |e: (PropertyName, EntityTypeFilter)| (e.0@, e.1@),
        );
        let mut i: usize = self.search_index.len();
        while i > 0
            invariant
                0 <= i <= self.search_index@.len(),
                entries == self.search_index@.map_values(
                    |e: (PropertyName, EntityTypeFilter)| (e.0@, e.1@),
                ),
                forall|j: int| i <= j < entries.len() ==> (#[trigger] entries[j]).0 != pname@,
            decreases i,
        {
            i -= 1;
            if self.search_index[i].0 == *pname {
                proof {
                    lemma_pairs_to_map_get(entries, i as int);
                }
                return self.search_index[i].1.matches(&qtype);
            }
        }
        proof {
            lemma_pairs_to_map_absent(entries, pname@);
        }
        false
    }
}

/// Compilation context: immutable data passed to all functions
/// involved in one compilation run.
#[derive(Debug)]
pub struct Context {
    /// Loaded, validated schemas.
    pub schema_index: Vec<crate::edmx::schema::Schema>,
    /// Compilation configuration.
    pub config: Config,
    /// Set of root entities that must be compiled.
    pub root_set_entities: Vec<QualifiedName>,
}

/// Compilation configuration: filter and include rules for entity
/// types during compilation.
#[derive(Debug)]
pub struct Config {
    /// Entity type filter applied during compilation.
    pub entity_type_filter: EntityTypeFilter,
    /// Array properties that should be generated as rigid.
    pub rigid_array_filter: PropertyFilter,
}

impl Default for Config {
    /// The default configuration compiles every entity type and makes
    /// no array property rigid.
    fn default() -> (r: Self)
        ensures
            r.entity_type_filter@.patterns.len() == 0,
            r.entity_type_filter@.permissive,
            r.rigid_array_filter@ == Map::<Seq<char>, FilterView>::empty(),
    {
        Config {
            entity_type_filter: EntityTypeFilter::default(),
            rigid_array_filter: PropertyFilter::default(),
        }
    }
}

/// All name tokens up to `i` are valid and the token at `i` is not:
/// that token is the first invalid one.
proof fn lemma_first_invalid_name_at(ts: Seq<Seq<char>>, i: int)
    requires
        0 <= i < ts.len(),
        forall|j: int| 0 <= j < i ==> is_simple_identifier(#[trigger] ts[j]),
        !is_simple_identifier(ts[i]),
    ensures
        first_invalid_name_token(ts) == Some(ts[i]),
    decreases i,
{
    if i == 0 {
    } else {
        lemma_first_invalid_name_at(ts.drop_first(), i - 1);
    }
}

/// When every name token is valid there is no first invalid one.
proof fn lemma_first_invalid_name_none(ts: Seq<Seq<char>>)
    requires
        forall|j: int| 0 <= j < ts.len() ==> is_simple_identifier(#[trigger] ts[j]),
    ensures
        first_invalid_name_token(ts) is None,
    decreases ts.len(),
{
    if ts.len() > 0 {
        lemma_first_invalid_name_none(ts.drop_first());
    }
}

/// Namespace-token form of `lemma_first_invalid_name_at`.
proof fn lemma_first_invalid_ns_at(ts: Seq<Seq<char>>, i: int)
    requires
        0 <= i < ts.len(),
        forall|j: int|
            0 <= j < i ==> (ts[j] == seq!['*'] || is_simple_identifier(#[trigger] ts[j])),
        ts[i] != seq!['*'],
        !is_simple_identifier(ts[i]),
    ensures
        first_invalid_ns_token(ts) == Some(ts[i]),
    decreases i,
{
    if i == 0 {
    } else {
        lemma_first_invalid_ns_at(ts.drop_first(), i - 1);
    }
}

/// Namespace-token form of `lemma_first_invalid_name_none`.
proof fn lemma_first_invalid_ns_none(ts: Seq<Seq<char>>)
    requires
        forall|j: int|
            0 <= j < ts.len() ==> (ts[j] == seq!['*'] || is_simple_identifier(#[trigger] ts[j])),
    ensures
        first_invalid_ns_token(ts) is None,
    decreases ts.len(),
{
    if ts.len() > 0 {
        lemma_first_invalid_ns_none(ts.drop_first());
    }
}

} // verus!
