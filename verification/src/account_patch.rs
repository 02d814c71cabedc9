//! Patches for AccountService payloads: a default account type for
//! services that omit the required `AccountTypes`, and removal of
//! null entries from remote role mappings.

use vstd::prelude::*;

use crate::json::JsonVal;
use crate::json::JsonView;
use crate::json::jview;
use crate::json::jview_arr;
use crate::json::lemma_jview_arr_index;
use crate::json::obj_contains_key;
use crate::json::obj_get;
use crate::json::obj_get_field;
use crate::json::obj_set;
use crate::json::obj_set_field;

verus! {

/// A payload with a missing `AccountTypes` filled with the single
/// default value `Redfish`, as the schema prescribes.
pub open spec fn append_default_account_type_spec(v: JsonView) -> JsonView {
    match v {
        JsonView::Obj(p) => JsonView::Obj(
            if obj_get(p, "AccountTypes"@) is None {
                obj_set(p, "AccountTypes"@, JsonView::Arr(seq![JsonView::Str("Redfish"@)]))
            } else {
                p
            },
        ),
        _ => v,
    }
}

/// `AccountTypes` is required by the schema, but some services omit
/// it; give such a payload the default value `["Redfish"]`.
pub fn append_default_account_type(v: JsonVal) -> (r: JsonVal)
    ensures
        jview(r) == append_default_account_type_spec(jview(v)),
{
    let fields = match v {
        JsonVal::Obj(fields) => fields,
        other => {
            return other;
        },
    };
    if obj_contains_key(&fields, "AccountTypes") {
        return JsonVal::Obj(fields);
    }
    let mut default_types: Vec<JsonVal> = Vec::new();
    default_types.push(JsonVal::Str(String::from_str("Redfish")));
    proof {
        lemma_jview_arr_index(default_types@);
        assert(jview_arr(default_types@) =~= seq![JsonView::Str("Redfish"@)]);
    }
    JsonVal::Obj(
        obj_set_field(fields, String::from_str("AccountTypes"), JsonVal::Arr(default_types)),
    )
}

/// The elements that are not JSON null, in order.
pub open spec fn non_null_of(items: Seq<JsonView>) -> Seq<JsonView>
    decreases items.len(),
{
    if items.len() == 0 {
        Seq::empty()
    } else {
        non_null_of(items.drop_last()) + (if items.last() is Null {
            Seq::empty()
        } else {
            seq![items.last()]
        })
    }
}

/// One external account provider with null entries dropped from its
/// `RemoteRoleMapping` array; other shapes are untouched.
pub open spec fn patch_provider_spec(pv: JsonView) -> JsonView {
    match pv {
        JsonView::Obj(pp) => match obj_get(pp, "RemoteRoleMapping"@) {
            Some(JsonView::Arr(m)) => JsonView::Obj(
                obj_set(pp, "RemoteRoleMapping"@, JsonView::Arr(non_null_of(m))),
            ),
            _ => JsonView::Obj(pp),
        },
        _ => pv,
    }
}

/// One patch step: the provider under `key` is patched in place when
/// it is an object with a role-mapping array.
pub open spec fn patch_provider_step(
    p: Seq<(Seq<char>, JsonView)>,
    key: Seq<char>,
) -> Seq<(Seq<char>, JsonView)> {
    match obj_get(p, key) {
        Some(pv) => obj_set(p, key, patch_provider_spec(pv)),
        None => p,
    }
}

/// Overwriting a field with its own value leaves the object as it
/// was.
proof fn lemma_obj_set_same(pairs: Seq<(Seq<char>, JsonView)>, k: Seq<char>, i: int)
    requires
        0 <= i < pairs.len(),
        pairs[i].0 == k,
        forall|j: int| 0 <= j < i ==> (#[trigger] pairs[j]).0 != k,
    ensures
        obj_set(pairs, k, pairs[i].1) == pairs,
{
    crate::json::lemma_obj_set_at(pairs, k, pairs[i].1, i);
    assert(pairs.update(i, (k, pairs[i].1)) =~= pairs);
}

/// A payload with null entries dropped from the remote role mappings
/// of each of the four external account providers.
pub open spec fn remove_nulls_from_account_spec(v: JsonView) -> JsonView {
    match v {
        JsonView::Obj(p0) => {
            let p1 = patch_provider_step(p0, "ActiveDirectory"@);
            let p2 = patch_provider_step(p1, "LDAP"@);
            let p3 = patch_provider_step(p2, "TACACSplus"@);
            let p4 = patch_provider_step(p3, "OAuth2"@);
            JsonView::Obj(p4)
        },
        _ => v,
    }
}

/// Drop the null elements of one role-mapping array.
#[verifier::loop_isolation(false)]
fn drop_null_entries(items: Vec<JsonVal>) -> (r: Vec<JsonVal>)
    ensures
        jview_arr(r@) == non_null_of(jview_arr(items@)),
{
    let ghost evts = jview_arr(items@);
    proof {
        lemma_jview_arr_index(items@);
        assert(jview_arr(Seq::<JsonVal>::empty()) =~= Seq::<JsonView>::empty());
        assert(evts.take(0) =~= Seq::<JsonView>::empty());
        assert(non_null_of(evts.take(0)) =~= Seq::<JsonView>::empty());
    }
    let mut items = items;
    let total = items.len();
    proof {
        assert(evts.len() == total);
    }
    let mut out: Vec<JsonVal> = Vec::new();
    let mut k: usize = 0;
    while items.len() > 0
        invariant
            0 <= k <= evts.len(),
            evts.len() <= usize::MAX,
            k + items@.len() == evts.len(),
            forall|j: int| 0 <= j < items@.len() ==> jview(#[trigger] items@[j]) == evts[k + j],
            jview_arr(out@) == non_null_of(evts.take(k as int)),
        decreases items@.len(),
    {
        let ghost old_items = items@;
        let ghost out0 = jview_arr(out@);
        let e = items.remove(0);
        proof {
            assert(jview(e) == evts[k as int]);
            assert(forall|j: int|
                0 <= j < items@.len() ==> #[trigger] items@[j] == old_items[j + 1]);
            assert(evts.take(k + 1).drop_last() =~= evts.take(k as int));
            assert(evts.take(k + 1).last() == evts[k as int]);
        }
        let is_null = match &e {
            JsonVal::Null => true,
            _ => false,
        };
        if !is_null {
            let ghost before = out@;
            out.push(e);
            proof {
                assert(out@.drop_last() =~= before);
                assert(jview_arr(out@) =~= out0.push(jview(e)));
            }
        }
        proof {
            assert(jview_arr(out@) =~= non_null_of(evts.take(k + 1)));
        }
        k += 1;
    }
    proof {
        assert(evts.take(evts.len() as int) =~= evts);
    }
    out
}

/// Patch one external account provider field in place, when present.
#[verifier::loop_isolation(false)]
fn patch_provider_field(fields: Vec<(String, JsonVal)>, key: &str) -> (r: Vec<(String, JsonVal)>)
    ensures
        crate::json::jview_obj(r@) == patch_provider_step(crate::json::jview_obj(fields@), key@),
{
    let ghost v0 = crate::json::jview_obj(fields@);
    proof {
        crate::json::lemma_jview_obj_index(fields@);
    }
    let mut at: usize = 0;
    let n = fields.len();
    let mut found = false;
    while at < n && !found
        invariant
            0 <= at <= n,
            n == fields@.len(),
            v0 == crate::json::jview_obj(fields@),
            forall|j: int| 0 <= j < at ==> (#[trigger] v0[j]).0 != key@,
            found ==> at < n && v0[at as int].0 == key@,
        decreases n - at + (if found {
            0int
        } else {
            1int
        }),
    {
        if crate::edmx::schema::str_eq(fields[at].0.as_str(), key) {
            found = true;
        } else {
            at += 1;
        }
    }
    if !found {
        proof {
            crate::json::lemma_obj_get_none(v0, key@);
        }
        return fields;
    }
    proof {
        crate::json::lemma_obj_get_at(v0, key@, at as int);
    }
    let ghost fields0 = fields@;
    let mut fields = fields;
    let (pkey, pval) = fields.remove(at);
    proof {
        assert((pkey, pval) == fields0[at as int]);
        assert(pkey@ == key@);
        assert(jview(pval) == v0[at as int].1);
    }
    let mut provider_fields = match pval {
        JsonVal::Obj(pf) => pf,
        other => {
            fields.insert(at, (pkey, other));
            proof {
                assert(fields@ =~= fields0);
                lemma_obj_set_same(v0, key@, at as int);
            }
            return fields;
        },
    };
    let ghost pview = crate::json::jview_obj(provider_fields@);
    // Look for a role-mapping array inside the provider.
    let mut mat: usize = 0;
    let pn = provider_fields.len();
    let mut mfound = false;
    proof {
        crate::json::lemma_jview_obj_index(provider_fields@);
    }
    while mat < pn && !mfound
        invariant
            0 <= mat <= pn,
            pn == provider_fields@.len(),
            pview == crate::json::jview_obj(provider_fields@),
            forall|j: int| 0 <= j < mat ==> (#[trigger] pview[j]).0 != "RemoteRoleMapping"@,
            mfound ==> mat < pn && pview[mat as int].0 == "RemoteRoleMapping"@,
        decreases pn - mat + (if mfound {
            0int
        } else {
            1int
        }),
    {
        if crate::edmx::schema::str_eq(provider_fields[mat].0.as_str(), "RemoteRoleMapping") {
            mfound = true;
        } else {
            mat += 1;
        }
    }
    if !mfound {
        proof {
            crate::json::lemma_obj_get_none(pview, "RemoteRoleMapping"@);
        }
        fields.insert(at, (pkey, JsonVal::Obj(provider_fields)));
        proof {
            assert(fields@ =~= fields0);
            lemma_obj_set_same(v0, key@, at as int);
        }
        return fields;
    }
    proof {
        crate::json::lemma_obj_get_at(pview, "RemoteRoleMapping"@, mat as int);
    }
    let ghost pfields0 = provider_fields@;
    let (mkey, mval) = provider_fields.remove(mat);
    proof {
        assert((mkey, mval) == pfields0[mat as int]);
        assert(mkey@ == "RemoteRoleMapping"@);
        assert(jview(mval) == pview[mat as int].1);
    }
    let mapping = match mval {
        JsonVal::Arr(m) => m,
        other => {
            let ghost ov = jview(other);
            provider_fields.insert(mat, (mkey, other));
            let restored = JsonVal::Obj(provider_fields);
            let ghost rv = jview(restored);
            proof {
                assert(restored->Obj_0@ =~= pfields0);
                assert(rv == JsonView::Obj(pview));
                assert(v0[at as int].1 == JsonView::Obj(pview));
                assert(!(ov is Arr));
                assert(patch_provider_spec(v0[at as int].1) == v0[at as int].1);
            }
            fields.insert(at, (pkey, restored));
            proof {
                assert(fields@ =~= fields0.update(
                    at as int,
                    (fields0[at as int].0, fields@[at as int].1),
                ));
                crate::json::lemma_jview_obj_update(fields0, at as int, fields@[at as int]);
                crate::json::lemma_obj_set_at(v0, key@, rv, at as int);
                assert(fields@[at as int].0@ == key@);
            }
            return fields;
        },
    };
    let ghost mview = jview_arr(mapping@);
    let cleaned = drop_null_entries(mapping);
    let rebuilt = JsonVal::Arr(cleaned);
    let ghost rbv = jview(rebuilt);
    provider_fields.insert(mat, (mkey, rebuilt));
    proof {
        assert(provider_fields@ =~= pfields0.update(
            mat as int,
            (pfields0[mat as int].0, provider_fields@[mat as int].1),
        ));
        crate::json::lemma_jview_obj_update(
            pfields0,
            mat as int,
            provider_fields@[mat as int],
        );
        crate::json::lemma_obj_set_at(pview, "RemoteRoleMapping"@, rbv, mat as int);
        assert(provider_fields@[mat as int].0@ == "RemoteRoleMapping"@);
    }
    let patched = JsonVal::Obj(provider_fields);
    let ghost patched_view = jview(patched);
    proof {
        assert(patched_view == patch_provider_spec(v0[at as int].1));
    }
    fields.insert(at, (pkey, patched));
    proof {
        assert(fields@ =~= fields0.update(at as int, (fields0[at as int].0, fields@[at as int].1)));
        crate::json::lemma_jview_obj_update(fields0, at as int, fields@[at as int]);
        crate::json::lemma_obj_set_at(v0, key@, patched_view, at as int);
        assert(fields@[at as int].0@ == key@);
    }
    fields
}

/// Drop null entries from the remote role mappings of every external
/// account provider of the payload.
pub fn remove_nulls_from_account(v: JsonVal) -> (r: JsonVal)
    ensures
        jview(r) == remove_nulls_from_account_spec(jview(v)),
{
    let fields = match v {
        JsonVal::Obj(fields) => fields,
        other => {
            return other;
        },
    };
    let fields = patch_provider_field(fields, "ActiveDirectory");
    let fields = patch_provider_field(fields, "LDAP");
    let fields = patch_provider_field(fields, "TACACSplus");
    let fields = patch_provider_field(fields, "OAuth2");
    JsonVal::Obj(fields)
}

} // verus!
