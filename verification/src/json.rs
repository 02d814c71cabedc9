//! A model of JSON values, used by the payload patch helpers.

use vstd::prelude::*;

verus! {

/// Mathematical value of a `JsonVal`. An opaque leaf stands for any
/// carried-through value the patch logic never reads.
pub enum JsonView {
    /// JSON null.
    Null,
    /// A boolean.
    Bool(bool),
    /// A string.
    Str(Seq<char>),
    /// An array.
    Arr(Seq<JsonView>),
    /// An object: fields in order.
    Obj(Seq<(Seq<char>, JsonView)>),
    /// A value the model does not look into.
    Opaque,
}

/// Carrier for JSON values the model does not look into.
#[verifier::external_type_specification]
#[verifier::external_body]
pub struct ExJsonValue(serde_json::Value);

/// A JSON value: the shapes the patch logic reads, plus an opaque
/// carrier for everything else (numbers among them).
#[derive(Debug)]
pub enum JsonVal {
    /// JSON null.
    Null,
    /// A boolean.
    Bool(bool),
    /// A string.
    Str(String),
    /// An array.
    Arr(Vec<JsonVal>),
    /// An object: fields in order, keys unique.
    Obj(Vec<(String, JsonVal)>),
    /// A value the patch logic only carries through.
    Other(serde_json::Value),
}

/// The mathematical value of a JSON value.
pub open spec fn jview(v: JsonVal) -> JsonView
    decreases v, 1int,
{
    match v {
        JsonVal::Null => JsonView::Null,
        JsonVal::Bool(b) => JsonView::Bool(b),
        JsonVal::Str(s) => JsonView::Str(s@),
        JsonVal::Arr(items) => JsonView::Arr(jview_arr(items@)),
        JsonVal::Obj(fields) => JsonView::Obj(jview_obj(fields@)),
        JsonVal::Other(_) => JsonView::Opaque,
    }
}

/// The mathematical values of the elements of a JSON array.
pub open spec fn jview_arr(items: Seq<JsonVal>) -> Seq<JsonView>
    decreases items, 0int,
{
    if items.len() == 0 {
        Seq::empty()
    } else {
        jview_arr(items.drop_last()).push(jview(items.last()))
    }
}

/// The mathematical values of the fields of a JSON object.
pub open spec fn jview_obj(fields: Seq<(String, JsonVal)>) -> Seq<(Seq<char>, JsonView)>
    decreases fields, 0int,
{
    if fields.len() == 0 {
        Seq::empty()
    } else {
        jview_obj(fields.drop_last()).push((fields.last().0@, jview(fields.last().1)))
    }
}

/// The array view has one element per item, each the item's value.
pub proof fn lemma_jview_arr_index(items: Seq<JsonVal>)
    ensures
        jview_arr(items).len() == items.len(),
        forall|i: int| 0 <= i < items.len() ==> jview_arr(items)[i] == jview(#[trigger] items[i]),
    decreases items.len(),
{
    if items.len() > 0 {
        lemma_jview_arr_index(items.drop_last());
        assert forall|i: int| 0 <= i < items.len() implies jview_arr(items)[i] == jview(
            #[trigger] items[i],
        ) by {
            if i < items.len() - 1 {
                assert(items.drop_last()[i] == items[i]);
                assert(jview_arr(items.drop_last())[i] == jview(items.drop_last()[i]));
            } else {
                assert(items[i] == items.last());
            }
        };
    }
}

/// The object view has one pair per field, each carrying the field's
/// name and value.
pub proof fn lemma_jview_obj_index(fields: Seq<(String, JsonVal)>)
    ensures
        jview_obj(fields).len() == fields.len(),
        forall|i: int|
            0 <= i < fields.len() ==> jview_obj(fields)[i] == ((#[trigger] fields[i]).0@, jview(
                fields[i].1,
            )),
    decreases fields.len(),
{
    if fields.len() > 0 {
        lemma_jview_obj_index(fields.drop_last());
        assert forall|i: int| 0 <= i < fields.len() implies jview_obj(fields)[i] == ((
        #[trigger] fields[i]).0@, jview(fields[i].1)) by {
            if i < fields.len() - 1 {
                assert(fields.drop_last()[i] == fields[i]);
                assert(jview_obj(fields.drop_last())[i] == (fields.drop_last()[i].0@, jview(
                    fields.drop_last()[i].1,
                )));
            } else {
                assert(fields[i] == fields.last());
            }
        };
    }
}

/// The value of the first field named `k`, if any.
pub open spec fn obj_get(pairs: Seq<(Seq<char>, JsonView)>, k: Seq<char>) -> Option<JsonView>
    decreases pairs.len(),
{
    if pairs.len() == 0 {
        None
    } else if pairs[0].0 == k {
        Some(pairs[0].1)
    } else {
        obj_get(pairs.drop_first(), k)
    }
}

/// The object with the first field named `k` overwritten in place, or
/// with `(k, v)` appended when no field is named `k`.
pub open spec fn obj_set(
    pairs: Seq<(Seq<char>, JsonView)>,
    k: Seq<char>,
    v: JsonView,
) -> Seq<(Seq<char>, JsonView)>
    decreases pairs.len(),
{
    if pairs.len() == 0 {
        seq![(k, v)]
    } else if pairs[0].0 == k {
        seq![(k, v)] + pairs.drop_first()
    } else {
        seq![pairs[0]] + obj_set(pairs.drop_first(), k, v)
    }
}

/// The first field named `k` sits at `i`: the lookup returns its
/// value.
pub proof fn lemma_obj_get_at(pairs: Seq<(Seq<char>, JsonView)>, k: Seq<char>, i: int)
    requires
        0 <= i < pairs.len(),
        pairs[i].0 == k,
        forall|j: int| 0 <= j < i ==> (#[trigger] pairs[j]).0 != k,
    ensures
        obj_get(pairs, k) == Some(pairs[i].1),
    decreases i,
{
    if i > 0 {
        lemma_obj_get_at(pairs.drop_first(), k, i - 1);
        assert(forall|j: int|
            0 <= j < pairs.len() - 1 ==> #[trigger] pairs.drop_first()[j] == pairs[j + 1]);
    }
}

/// No field is named `k`: the lookup finds nothing.
pub proof fn lemma_obj_get_none(pairs: Seq<(Seq<char>, JsonView)>, k: Seq<char>)
    requires
        forall|j: int| 0 <= j < pairs.len() ==> (#[trigger] pairs[j]).0 != k,
    ensures
        obj_get(pairs, k) is None,
    decreases pairs.len(),
{
    if pairs.len() > 0 {
        lemma_obj_get_none(pairs.drop_first(), k);
    }
}

/// The first field named `k` sits at `i`: overwriting replaces that
/// pair and nothing else.
pub proof fn lemma_obj_set_at(pairs: Seq<(Seq<char>, JsonView)>, k: Seq<char>, v: JsonView, i: int)
    requires
        0 <= i < pairs.len(),
        pairs[i].0 == k,
        forall|j: int| 0 <= j < i ==> (#[trigger] pairs[j]).0 != k,
    ensures
        obj_set(pairs, k, v) == pairs.update(i, (k, v)),
    decreases i,
{
    if i == 0 {
        assert(seq![(k, v)] + pairs.drop_first() =~= pairs.update(0, (k, v)));
    } else {
        lemma_obj_set_at(pairs.drop_first(), k, v, i - 1);
        assert(forall|j: int|
            0 <= j < pairs.len() - 1 ==> #[trigger] pairs.drop_first()[j] == pairs[j + 1]);
        assert(seq![pairs[0]] + pairs.drop_first().update(i - 1, (k, v)) =~= pairs.update(
            i,
            (k, v),
        ));
    }
}

/// No field is named `k`: overwriting appends the new pair.
pub proof fn lemma_obj_set_absent(pairs: Seq<(Seq<char>, JsonView)>, k: Seq<char>, v: JsonView)
    requires
        forall|j: int| 0 <= j < pairs.len() ==> (#[trigger] pairs[j]).0 != k,
    ensures
        obj_set(pairs, k, v) == pairs.push((k, v)),
    decreases pairs.len(),
{
    if pairs.len() == 0 {
        assert(seq![(k, v)] =~= pairs.push((k, v)));
    } else {
        lemma_obj_set_absent(pairs.drop_first(), k, v);
        assert(seq![pairs[0]] + pairs.drop_first().push((k, v)) =~= pairs.push((k, v)));
    }
}

/// Whether some field of the object is named `k`.
#[verifier::loop_isolation(false)]
pub fn obj_contains_key(fields: &Vec<(String, JsonVal)>, key: &str) -> (r: bool)
    ensures
        r == (obj_get(jview_obj(fields@), key@) is Some),
{
    let ghost pairs = jview_obj(fields@);
    proof {
        lemma_jview_obj_index(fields@);
    }
    let mut i: usize = 0;
    while i < fields.len()
        invariant
            0 <= i <= fields@.len(),
            pairs == jview_obj(fields@),
            pairs.len() == fields@.len(),
            forall|j: int|
                0 <= j < fields@.len() ==> #[trigger] pairs[j] == (fields@[j].0@, jview(
                    fields@[j].1,
                )),
            forall|j: int| 0 <= j < i ==> (#[trigger] pairs[j]).0 != key@,
        decreases fields@.len() - i,
    {
        if crate::edmx::schema::str_eq(fields[i].0.as_str(), key) {
            proof {
                lemma_obj_get_at(pairs, key@, i as int);
            }
            return true;
        }
        i += 1;
    }
    proof {
        lemma_obj_get_none(pairs, key@);
    }
    false
}

/// The value of the first field named `key`, if any.
#[verifier::loop_isolation(false)]
pub fn obj_get_field<'a>(fields: &'a Vec<(String, JsonVal)>, key: &str) -> (r: Option<
    &'a JsonVal,
>)
    ensures
        r is Some <==> obj_get(jview_obj(fields@), key@) is Some,
        r matches Some(v) ==> obj_get(jview_obj(fields@), key@) == Some(jview(*v)),
{
    let ghost pairs = jview_obj(fields@);
    proof {
        lemma_jview_obj_index(fields@);
    }
    let mut i: usize = 0;
    while i < fields.len()
        invariant
            0 <= i <= fields@.len(),
            pairs == jview_obj(fields@),
            pairs.len() == fields@.len(),
            forall|j: int|
                0 <= j < fields@.len() ==> #[trigger] pairs[j] == (fields@[j].0@, jview(
                    fields@[j].1,
                )),
            forall|j: int| 0 <= j < i ==> (#[trigger] pairs[j]).0 != key@,
        decreases fields@.len() - i,
    {
        if crate::edmx::schema::str_eq(fields[i].0.as_str(), key) {
            proof {
                lemma_obj_get_at(pairs, key@, i as int);
            }
            return Some(&fields[i].1);
        }
        i += 1;
    }
    proof {
        lemma_obj_get_none(pairs, key@);
    }
    None
}

/// Overwrite the first field named `key` in place, or append the
/// field when the name is new.
#[verifier::loop_isolation(false)]
pub fn obj_set_field(fields: Vec<(String, JsonVal)>, key: String, value: JsonVal) -> (r: Vec<
    (String, JsonVal),
>)
    ensures
        jview_obj(r@) == obj_set(jview_obj(fields@), key@, jview(value)),
{
    let ghost pairs = jview_obj(fields@);
    let ghost kview = key@;
    let ghost vview = jview(value);
    proof {
        lemma_jview_obj_index(fields@);
    }
    let mut fields = fields;
    let mut i: usize = 0;
    while i < fields.len()
        invariant
            0 <= i <= fields@.len(),
            pairs == jview_obj(fields@),
            pairs.len() == fields@.len(),
            forall|j: int|
                0 <= j < fields@.len() ==> #[trigger] pairs[j] == (fields@[j].0@, jview(
                    fields@[j].1,
                )),
            forall|j: int| 0 <= j < i ==> (#[trigger] pairs[j]).0 != key@,
        decreases fields@.len() - i,
    {
        if crate::edmx::schema::str_eq(fields[i].0.as_str(), key.as_str()) {
            proof {
                lemma_obj_set_at(pairs, kview, vview, i as int);
            }
            let ghost before = fields@;
            let _old = fields.remove(i);
            fields.insert(i, (key, value));
            let ghost entry = fields@[i as int];
            proof {
                assert(entry.0@ == kview && jview(entry.1) == vview);
                assert(fields@ =~= before.update(i as int, entry));
                lemma_jview_obj_update(before, i as int, entry);
                assert(jview_obj(before).update(i as int, (entry.0@, jview(entry.1)))
                    == pairs.update(i as int, (kview, vview)));
            }
            return fields;
        }
        i += 1;
    }
    proof {
        lemma_obj_set_absent(pairs, kview, vview);
    }
    let ghost before = fields@;
    fields.push((key, value));
    let ghost entry = fields@[fields@.len() - 1];
    proof {
        assert(entry.0@ == kview && jview(entry.1) == vview);
        lemma_jview_obj_push(before, entry);
        assert(fields@.last() == entry);
    }
    fields
}

/// Updating one field updates its pair of the object view.
pub proof fn lemma_jview_obj_update(fields: Seq<(String, JsonVal)>, i: int, e: (String, JsonVal))
    requires
        0 <= i < fields.len(),
    ensures
        jview_obj(fields.update(i, e)) == jview_obj(fields).update(i, (e.0@, jview(e.1))),
{
    let upd = fields.update(i, e);
    lemma_jview_obj_index(fields);
    lemma_jview_obj_index(upd);
    let target = jview_obj(fields).update(i, (e.0@, jview(e.1)));
    assert forall|j: int| 0 <= j < upd.len() implies jview_obj(upd)[j] == target[j] by {
        if j == i {
            assert(upd[j] == e);
        } else {
            assert(upd[j] == fields[j]);
        }
    };
    assert(jview_obj(upd) =~= target);
}

/// Appending one field appends its pair to the object view.
proof fn lemma_jview_obj_push(fields: Seq<(String, JsonVal)>, e: (String, JsonVal))
    ensures
        jview_obj(fields.push(e)) == jview_obj(fields).push((e.0@, jview(e.1))),
{
    assert(fields.push(e).drop_last() =~= fields);
    assert(fields.push(e).last() == e);
}

} // verus!
