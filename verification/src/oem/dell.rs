//! Dell OEM manager attributes: a name-indexed table of primitive
//! values, with typed accessors.

use vstd::prelude::*;

verus! {

/// A primitive attribute value: the shapes the accessors read, plus
/// an opaque catch-all for the rest (decimals among them).
#[derive(Debug)]
pub enum AttributeValue {
    /// A string value.
    Str(String),
    /// A boolean value.
    Bool(bool),
    /// An integer value.
    Integer(i64),
    /// Any other primitive value.
    Other,
}

/// The value of the first attribute named `k`: `None` when the name
/// is unknown, `Some(None)` when the attribute is null.
pub open spec fn attr_get(
    pairs: Seq<(String, Option<AttributeValue>)>,
    k: Seq<char>,
) -> Option<Option<AttributeValue>>
    decreases pairs.len(),
{
    if pairs.len() == 0 {
        None
    } else if pairs[0].0@ == k {
        Some(pairs[0].1)
    } else {
        attr_get(pairs.drop_first(), k)
    }
}

/// Dell OEM attributes of a manager.
#[derive(Debug)]
pub struct DellAttributes {
    /// The attribute table, when the resource carries one; a null
    /// attribute is kept as `None`.
    pub attributes: Option<Vec<(String, Option<AttributeValue>)>>,
}

/// Reference to one attribute.
#[derive(Debug)]
pub struct DellAttributeRef<'a> {
    value: Option<&'a AttributeValue>,
}

impl DellAttributes {
    /// The attribute named `k`, read through the optional table.
    pub open spec fn spec_attribute(&self, k: Seq<char>) -> Option<Option<AttributeValue>> {
        match self.attributes {
            Some(table) => attr_get(table@, k),
            None => None,
        }
    }

    /// Get an attribute by its key.
    #[verifier::loop_isolation(false)]
    pub fn attribute<'a>(&'a self, name: &str) -> (r: Option<DellAttributeRef<'a>>)
        ensures
            r is Some <==> self.spec_attribute(name@) is Some,
            r matches Some(a) ==> Some(a.value_view()) == self.spec_attribute(name@),
    {
        let table = match &self.attributes {
            Some(table) => table,
            None => {
                return None;
            },
        };
        let mut i: usize = 0;
        while i < table.len()
            invariant
                0 <= i <= table@.len(),
                forall|j: int| 0 <= j < i ==> (#[trigger] table@[j]).0@ != name@,
            decreases table@.len() - i,
        {
            if crate::edmx::schema::str_eq(table[i].0.as_str(), name) {
                proof {
                    lemma_attr_get_at(table@, name@, i as int);
                }
                let value = match &table[i].1 {
                    Some(v) => Some(v),
                    None => None,
                };
                let r = DellAttributeRef::new(value);
                proof {
                    assert(r.value_view() == table@[i as int].1);
                }
                return Some(r);
            }
            i += 1;
        }
        proof {
            lemma_attr_get_none(table@, name@);
        }
        None
    }
}

/// The first attribute named `k` sits at `i`: the lookup returns its
/// value.
proof fn lemma_attr_get_at(pairs: Seq<(String, Option<AttributeValue>)>, k: Seq<char>, i: int)
    requires
        0 <= i < pairs.len(),
        pairs[i].0@ == k,
        forall|j: int| 0 <= j < i ==> (#[trigger] pairs[j]).0@ != k,
    ensures
        attr_get(pairs, k) == Some(pairs[i].1),
    decreases i,
{
    if i > 0 {
        lemma_attr_get_at(pairs.drop_first(), k, i - 1);
        assert(forall|j: int|
            0 <= j < pairs.len() - 1 ==> #[trigger] pairs.drop_first()[j] == pairs[j + 1]);
    }
}

/// No attribute is named `k`: the lookup finds nothing.
proof fn lemma_attr_get_none(pairs: Seq<(String, Option<AttributeValue>)>, k: Seq<char>)
    requires
        forall|j: int| 0 <= j < pairs.len() ==> (#[trigger] pairs[j]).0@ != k,
    ensures
        attr_get(pairs, k) is None,
    decreases pairs.len(),
{
    if pairs.len() > 0 {
        lemma_attr_get_none(pairs.drop_first(), k);
    }
}

impl<'a> DellAttributeRef<'a> {
    /// The referenced value; `None` for a null attribute.
    pub closed spec fn value_view(&self) -> Option<AttributeValue> {
        match self.value {
            Some(v) => Some(*v),
            None => None,
        }
    }

    /// Wrap an attribute value reference.
    fn new(value: Option<&'a AttributeValue>) -> (r: Self)
        ensures
            r.value_view() == (match value {
                Some(v) => Some(*v),
                None => None,
            }),
    {
        DellAttributeRef { value }
    }

    /// Returns true if the attribute is null.
    pub fn is_null(&self) -> (r: bool)
        ensures
            r == (self.value_view() is None),
    {
        match self.value {
            None => true,
            Some(_) => false,
        }
    }

    /// Returns the string value of the attribute if it is a string.
    pub fn str_value(&self) -> (r: Option<&str>)
        ensures
            r is Some <==> self.value_view() matches Some(AttributeValue::Str(_)),
            r matches Some(s) ==> self.value_view() matches Some(AttributeValue::Str(v)) && s@
                == v@,
    {
        match self.value {
            Some(AttributeValue::Str(v)) => Some(v.as_str()),
            _ => None,
        }
    }

    /// Returns the boolean value of the attribute if it is a boolean.
    pub fn bool_value(&self) -> (r: Option<bool>)
        ensures
            r is Some <==> self.value_view() matches Some(AttributeValue::Bool(_)),
            r matches Some(b) ==> self.value_view() == Some(AttributeValue::Bool(b)),
    {
        match self.value {
            Some(AttributeValue::Bool(v)) => Some(*v),
            _ => None,
        }
    }

    /// Returns the integer value of the attribute if it is an
    /// integer.
    pub fn integer_value(&self) -> (r: Option<i64>)
        ensures
            r is Some <==> self.value_view() matches Some(AttributeValue::Integer(_)),
            r matches Some(n) ==> self.value_view() == Some(AttributeValue::Integer(n)),
    {
        match self.value {
            Some(AttributeValue::Integer(v)) => Some(*v),
            _ => None,
        }
    }
}

} // verus!
