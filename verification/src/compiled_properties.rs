//! Compiled properties and navigation properties of one type, and
//! their composition across an inheritance chain.

use vstd::prelude::*;

use crate::names::QnView;
use crate::names::QualifiedName;

verus! {

/// Mathematical value of a `CompiledPropertyType`.
pub enum CptView {
    /// A single value of the referenced type.
    One(QnView),
    /// A collection of values of the referenced type.
    CollectionOf(QnView),
}

/// Declared shape of a property: one value or a collection of values
/// of a referenced type.
#[derive(Debug)]
pub enum CompiledPropertyType {
    /// A single value of the referenced type.
    One(QualifiedName),
    /// A collection of values of the referenced type.
    CollectionOf(QualifiedName),
}

impl View for CompiledPropertyType {
    type V = CptView;

    open spec fn view(&self) -> CptView {
        match self {
            CompiledPropertyType::One(v) => CptView::One(v@),
            CompiledPropertyType::CollectionOf(v) => CptView::CollectionOf(v@),
        }
    }
}

impl CompiledPropertyType {
    /// The referenced qualified name.
    pub open spec fn spec_inner(&self) -> QualifiedName {
        match self {
            CompiledPropertyType::One(v) => *v,
            CompiledPropertyType::CollectionOf(v) => *v,
        }
    }

    /// Apply a transform to the referenced qualified name, preserving
    /// the `One` / `CollectionOf` shape.
    pub fn map<F: FnOnce(QualifiedName) -> QualifiedName>(self, f: F) -> (r: Self)
        requires
            call_requires(f, (self.spec_inner(),)),
        ensures
            self matches CompiledPropertyType::One(v) ==> (r matches CompiledPropertyType::One(w)
                && call_ensures(f, (v,), w)),
            self matches CompiledPropertyType::CollectionOf(v) ==> (r matches
                CompiledPropertyType::CollectionOf(w) && call_ensures(f, (v,), w)),
    {
        match self {
            CompiledPropertyType::One(v) => CompiledPropertyType::One(f(v)),
            CompiledPropertyType::CollectionOf(v) => CompiledPropertyType::CollectionOf(f(v)),
        }
    }
}

impl CompiledPropertyType {
    /// The compiled shape of a declared `Type` attribute value,
    /// keeping the one/collection shape.
    pub fn from_type_name(v: &crate::edmx::TypeName) -> (r: Self)
        ensures
            v matches crate::edmx::TypeName::One(q) ==> (r matches CompiledPropertyType::One(w)
                && w@ == q@),
            v matches crate::edmx::TypeName::CollectionOf(q) ==> (r matches
                CompiledPropertyType::CollectionOf(w) && w@ == q@),
    {
        match v {
            crate::edmx::TypeName::One(q) => CompiledPropertyType::One(q.clone()),
            crate::edmx::TypeName::CollectionOf(q) => CompiledPropertyType::CollectionOf(q.clone()),
        }
    }
}

impl Clone for CompiledPropertyType {
    fn clone(&self) -> (r: Self)
        ensures
            r@ == self@,
    {
        match self {
            CompiledPropertyType::One(v) => CompiledPropertyType::One(v.clone()),
            CompiledPropertyType::CollectionOf(v) => CompiledPropertyType::CollectionOf(v.clone()),
        }
    }
}

/// Mathematical value of a compiled (navigation) property.
pub struct CpView {
    /// Property name.
    pub name: Seq<char>,
    /// Declared shape and referenced type.
    pub ptype: CptView,
}

/// One resolved structural property.
#[derive(Debug)]
pub struct CompiledProperty {
    /// Property name.
    pub name: crate::names::PropertyName,
    /// Declared shape and referenced type.
    pub ptype: CompiledPropertyType,
}

impl View for CompiledProperty {
    type V = CpView;

    open spec fn view(&self) -> CpView {
        CpView { name: self.name@, ptype: self.ptype@ }
    }
}

impl Clone for CompiledProperty {
    fn clone(&self) -> (r: Self)
        ensures
            r@ == self@,
    {
        CompiledProperty { name: self.name.clone(), ptype: self.ptype.clone() }
    }
}

/// One resolved navigation edge to another resource.
#[derive(Debug)]
pub struct CompiledNavProperty {
    /// Property name.
    pub name: crate::names::PropertyName,
    /// Declared shape and referenced type.
    pub ptype: CompiledPropertyType,
}

impl View for CompiledNavProperty {
    type V = CpView;

    open spec fn view(&self) -> CpView {
        CpView { name: self.name@, ptype: self.ptype@ }
    }
}

impl Clone for CompiledNavProperty {
    fn clone(&self) -> (r: Self)
        ensures
            r@ == self@,
    {
        CompiledNavProperty { name: self.name.clone(), ptype: self.ptype.clone() }
    }
}

/// Mathematical value of a `CompiledProperties`.
pub struct CpsView {
    /// Structural properties, in order.
    pub properties: Seq<CpView>,
    /// Navigation properties, in order.
    pub nav_properties: Seq<CpView>,
}

/// Combination of all compiled properties and navigation properties of
/// one type.
#[derive(Debug)]
pub struct CompiledProperties {
    /// Structural properties, in order.
    pub properties: Vec<CompiledProperty>,
    /// Navigation properties, in order.
    pub nav_properties: Vec<CompiledNavProperty>,
}

impl View for CompiledProperties {
    type V = CpsView;

    open spec fn view(&self) -> CpsView {
        CpsView {
            properties: self.properties@.map_values(|p: CompiledProperty| p@),
            nav_properties: self.nav_properties@.map_values(|p: CompiledNavProperty| p@),
        }
    }
}

impl Default for CompiledProperties {
    /// No properties and no navigation properties.
    fn default() -> (r: Self)
        ensures
            r@.properties.len() == 0,
            r@.nav_properties.len() == 0,
    {
        CompiledProperties { properties: Vec::new(), nav_properties: Vec::new() }
    }
}

impl CompiledProperties {
    /// Join properties in reverse order: the input is ordered from the
    /// most-derived type to its most distant ancestor, and the result
    /// lays inherited properties out before locally declared ones.
    pub fn rev_join(src: Vec<CompiledProperties>) -> (r: Self)
        ensures
            r@.properties == src@.map_values(|c: CompiledProperties| c@.properties)
                .reverse().flatten(),
            r@.nav_properties == src@.map_values(|c: CompiledProperties| c@.nav_properties)
                .reverse().flatten(),
    {
        let ghost orig = src@;
        let mut src = src;
        let mut properties: Vec<CompiledProperty> = Vec::new();
        let mut nav_properties: Vec<CompiledNavProperty> = Vec::new();
        proof {
            assert(orig.skip(orig.len() as int) =~= Seq::<CompiledProperties>::empty());
            lemma_flatten_of_empty::<CpView>();
            assert(orig.skip(orig.len() as int).map_values(|c: CompiledProperties| c@.properties)
                .reverse() =~= Seq::<Seq<CpView>>::empty());
            assert(orig.skip(orig.len() as int).map_values(
                |c: CompiledProperties| c@.nav_properties,
            ).reverse() =~= Seq::<Seq<CpView>>::empty());
        }
        while src.len() > 0
            invariant
                src@.len() <= orig.len(),
                src@ == orig.take(src@.len() as int),
                properties@.map_values(|p: CompiledProperty| p@) == orig.skip(
                    src@.len() as int,
                ).map_values(|c: CompiledProperties| c@.properties).reverse().flatten(),
                nav_properties@.map_values(|p: CompiledNavProperty| p@) == orig.skip(
                    src@.len() as int,
                ).map_values(|c: CompiledProperties| c@.nav_properties).reverse().flatten(),
            decreases src@.len(),
        {
            let ghost i = src@.len() - 1;
            let mut c = match src.pop() {
                Some(c) => c,
                None => {
                    proof {
                        assert(false);
                    }
                    CompiledProperties { properties: Vec::new(), nav_properties: Vec::new() }
                },
            };
            proof {
                assert(orig.take(i + 1).last() == orig[i]);
                assert(orig.take(i + 1).drop_last() =~= orig.take(i));
                assert(c@ == orig[i]@);
            }
            let ghost props_before = properties@.map_values(|p: CompiledProperty| p@);
            let ghost navs_before = nav_properties@.map_values(|p: CompiledNavProperty| p@);
            properties.append(&mut c.properties);
            nav_properties.append(&mut c.nav_properties);
            proof {
                lemma_rev_join_step(orig.map_values(|c: CompiledProperties| c@.properties), i);
                lemma_rev_join_step(orig.map_values(|c: CompiledProperties| c@.nav_properties), i);
                assert(properties@.map_values(|p: CompiledProperty| p@) =~= props_before + orig[
                    i]@.properties);
                assert(nav_properties@.map_values(|p: CompiledNavProperty| p@) =~= navs_before
                    + orig[i]@.nav_properties);
                assert(orig.skip(i).map_values(|c: CompiledProperties| c@.properties) =~= orig
                    .map_values(|c: CompiledProperties| c@.properties).skip(i));
                assert(orig.skip(i + 1).map_values(|c: CompiledProperties| c@.properties)
                    =~= orig.map_values(|c: CompiledProperties| c@.properties).skip(i + 1));
                assert(orig.skip(i).map_values(|c: CompiledProperties| c@.nav_properties) =~= orig
                    .map_values(|c: CompiledProperties| c@.nav_properties).skip(i));
                assert(orig.skip(i + 1).map_values(|c: CompiledProperties| c@.nav_properties)
                    =~= orig.map_values(|c: CompiledProperties| c@.nav_properties).skip(i + 1));
            }
        }
        proof {
            assert(orig.skip(0) =~= orig);
            assert(properties@.map_values(|p: CompiledProperty| p@) == orig.map_values(
                |c: CompiledProperties| c@.properties,
            ).reverse().flatten());
            assert(nav_properties@.map_values(|p: CompiledNavProperty| p@) == orig.map_values(
                |c: CompiledProperties| c@.nav_properties,
            ).reverse().flatten());
        }
        CompiledProperties { properties, nav_properties }
    }

    /// No properties defined.
    pub fn is_empty(&self) -> (r: bool)
        ensures
            r == (self@.properties.len() == 0 && self@.nav_properties.len() == 0),
    {
        self.properties.len() == 0 && self.nav_properties.len() == 0
    }
}

/// Flattening no sequences yields no elements.
proof fn lemma_flatten_of_empty<A>()
    ensures
        Seq::<Seq<A>>::empty().flatten() == Seq::<A>::empty(),
{
    reveal_with_fuel(Seq::flatten, 2);
}

/// Processing one more chain element from the back extends the
/// flattened reversal by that element's sequence.
proof fn lemma_rev_join_step<A>(s: Seq<Seq<A>>, i: int)
    requires
        0 <= i < s.len(),
    ensures
        s.skip(i).reverse().flatten() == s.skip(i + 1).reverse().flatten() + s[i],
{
    let suffix = s.skip(i);
    assert(suffix.drop_first() =~= s.skip(i + 1));
    assert(suffix.reverse() =~= s.skip(i + 1).reverse().push(s[i]));
    lemma_flatten_push(s.skip(i + 1).reverse(), s[i]);
}

/// Flattening after pushing one sequence appends that sequence.
proof fn lemma_flatten_push<A>(s: Seq<Seq<A>>, x: Seq<A>)
    ensures
        s.push(x).flatten() == s.flatten() + x,
    decreases s.len(),
{
    if s.len() == 0 {
        lemma_flatten_of_empty::<A>();
        assert(s.push(x) =~= seq![x]);
        reveal_with_fuel(Seq::flatten, 3);
        assert(seq![x].flatten() =~= x);
        assert(s.flatten() + x =~= x);
    } else {
        lemma_flatten_push(s.drop_first(), x);
        assert(s.push(x).drop_first() =~= s.drop_first().push(x));
        assert(s.push(x).first() == s.first());
        assert(s.first() + (s.drop_first().flatten() + x) =~= (s.first()
            + s.drop_first().flatten()) + x);
    }
}

} // verus!
