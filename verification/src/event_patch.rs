//! Patches for EventService server-sent-event payloads: missing
//! member identifiers and `@odata.id` values are filled in, unknown
//! event types are replaced with `Other`, and compact timezone
//! offsets are normalized.

use vstd::prelude::*;

use crate::json::JsonVal;
use crate::json::JsonView;
use crate::json::jview;
use crate::json::jview_arr;
use crate::json::lemma_jview_arr_index;
use crate::json::lemma_jview_obj_index;
use crate::json::lemma_obj_get_at;
use crate::json::obj_contains_key;
use crate::json::obj_get;
use crate::json::obj_get_field;
use crate::json::obj_set;
use crate::json::obj_set_field;
use crate::text::string_from_chars;

verus! {

/// A timestamp whose last five characters are a sign and four offset
/// digits gets a colon inserted before the final two; anything else
/// is left alone.
pub open spec fn spec_fix_timestamp_offset(s: Seq<char>) -> Option<Seq<char>> {
    if s.len() < 5 {
        None
    } else if s[s.len() - 5] != '+' && s[s.len() - 5] != '-' {
        None
    } else {
        Some(s.take(s.len() - 2) + seq![':'] + s.skip(s.len() - 2))
    }
}

/// Normalize a compact timezone offset such as `-0600` to `-06:00`.
/// `None` means the input needs no fix.
pub fn fix_timestamp_offset(input: &str) -> (r: Option<String>)
    ensures
        r is Some <==> spec_fix_timestamp_offset(input@) is Some,
        r matches Some(f) ==> spec_fix_timestamp_offset(input@) == Some(f@),
{
    let n = input.unicode_len();
    if n < 5 {
        return None;
    }
    let sign = input.get_char(n - 5);
    if sign != '+' && sign != '-' {
        return None;
    }
    let prefix = input.substring_char(0, n - 2);
    let minutes = input.substring_char(n - 2, n);
    let mut out = String::from_str(prefix);
    out.append(":");
    out.append(minutes);
    proof {
        reveal_strlit(":");
        assert(out@ =~= input@.take(n - 2) + seq![':'] + input@.skip(n - 2));
    }
    Some(out)
}

/// The decimal digit character for one value below ten.
pub open spec fn digit_char(d: nat) -> char {
    (48 + d) as char
}

/// The decimal digits of a number, most significant first.
pub open spec fn dec_str(n: nat) -> Seq<char>
    decreases n,
{
    if n < 10 {
        seq![digit_char(n)]
    } else {
        dec_str(n / 10).push(digit_char(n % 10))
    }
}

/// The decimal digits of an index, as characters.
fn usize_to_dec_chars(x: usize) -> (r: Vec<char>)
    ensures
        r@ == dec_str(x as nat),
    decreases x,
{
    let d = (x % 10) as u8;
    let c = (48 + d) as char;
    proof {
        assert(c == digit_char((x % 10) as nat));
    }
    if x < 10 {
        let mut v: Vec<char> = Vec::new();
        v.push(c);
        proof {
            assert(v@ =~= seq![digit_char(x as nat)]);
        }
        v
    } else {
        let mut v = usize_to_dec_chars(x / 10);
        v.push(c);
        v
    }
}

/// The decimal representation of an index.
fn usize_to_string(x: usize) -> (r: String)
    ensures
        r@ == dec_str(x as nat),
{
    let chars = usize_to_dec_chars(x);
    string_from_chars(&chars)
}

/// One event record patched at position `index` of the events array:
/// a missing `MemberId` is filled from `EventId` or from the
/// position, an `EventType` outside the allowed list becomes `Other`,
/// a missing `@odata.id` is generated from the member identifier, and
/// a compact `EventTimestamp` offset is normalized.
pub open spec fn patch_record(rec: JsonView, index: int, allowed: Seq<Seq<char>>) -> JsonView {
    match rec {
        JsonView::Obj(rp0) => {
            let rp1 = if obj_get(rp0, "MemberId"@) is None {
                let fallback = match obj_get(rp0, "EventId"@) {
                    Some(JsonView::Str(s)) => s,
                    _ => dec_str(index as nat),
                };
                obj_set(rp0, "MemberId"@, JsonView::Str(fallback))
            } else {
                rp0
            };
            let rp2 = match obj_get(rp1, "EventType"@) {
                Some(JsonView::Str(t)) => if allowed.contains(t) {
                    rp1
                } else {
                    obj_set(rp1, "EventType"@, JsonView::Str("Other"@))
                },
                _ => rp1,
            };
            let rp3 = if obj_get(rp2, "@odata.id"@) is None {
                match obj_get(rp2, "MemberId"@) {
                    Some(JsonView::Str(m)) => obj_set(
                        rp2,
                        "@odata.id"@,
                        JsonView::Str("/redfish/v1/EventService/SSE"@ + "#/Events/"@ + m),
                    ),
                    _ => rp2,
                }
            } else {
                rp2
            };
            let rp4 = match obj_get(rp3, "EventTimestamp"@) {
                Some(JsonView::Str(ts)) => match spec_fix_timestamp_offset(ts) {
                    Some(f) => obj_set(rp3, "EventTimestamp"@, JsonView::Str(f)),
                    None => rp3,
                },
                _ => rp3,
            };
            JsonView::Obj(rp4)
        },
        _ => rec,
    }
}

/// An event payload normalized: a missing top-level `@odata.id` is
/// generated from `Id`, and every record of the `Events` array is
/// patched in place.
pub open spec fn normalize_spec(v: JsonView, allowed: Seq<Seq<char>>) -> JsonView {
    match v {
        JsonView::Obj(p0) => {
            let p1 = if obj_get(p0, "@odata.id"@) is None {
                match obj_get(p0, "Id"@) {
                    Some(JsonView::Str(id)) => obj_set(
                        p0,
                        "@odata.id"@,
                        JsonView::Str("/redfish/v1/EventService/SSE"@ + "#/Event"@ + id),
                    ),
                    _ => p0,
                }
            } else {
                p0
            };
            let p2 = match obj_get(p1, "Events"@) {
                Some(JsonView::Arr(evts)) => obj_set(
                    p1,
                    "Events"@,
                    JsonView::Arr(Seq::new(evts.len(), |i: int| patch_record(evts[i], i, allowed))),
                ),
                _ => p1,
            };
            JsonView::Obj(p2)
        },
        _ => v,
    }
}

/// Whether the string occurs in the list.
fn contains_str(list: &Vec<String>, s: &str) -> (r: bool)
    ensures
        r == list@.map_values(|x: String| x@).contains(s@),
{
    let ghost views = list@.map_values(|x: String| x@);
    let mut i: usize = 0;
    while i < list.len()
        invariant
            0 <= i <= list@.len(),
            views == list@.map_values(|x: String| x@),
            forall|j: int| 0 <= j < i ==> #[trigger] views[j] != s@,
        decreases list@.len() - i,
    {
        if crate::edmx::schema::str_eq(list[i].as_str(), s) {
            proof {
                assert(views[i as int] == s@);
            }
            return true;
        }
        i += 1;
    }
    proof {
        if views.contains(s@) {
            let k = choose|k: int| 0 <= k < views.len() && views[k] == s@;
        }
    }
    false
}

/// Patch one event record, found at position `index` of the events
/// array.
#[verifier::loop_isolation(false)]
fn patch_record_exec(rec: JsonVal, index: usize, allowed: &Vec<String>) -> (r: JsonVal)
    ensures
        jview(r) == patch_record(jview(rec), index as int, allowed@.map_values(|x: String| x@)),
{
    let ghost aviews = allowed@.map_values(|x: String| x@);
    let rp0 = match rec {
        JsonVal::Obj(fields) => fields,
        other => {
            return other;
        },
    };
    let ghost v0 = crate::json::jview_obj(rp0@);
    // Fall back to `EventId`, or to the record's position, for a
    // missing `MemberId`.
    let rp1 = if !obj_contains_key(&rp0, "MemberId") {
        let fallback = match obj_get_field(&rp0, "EventId") {
            Some(JsonVal::Str(s)) => s.clone(),
            _ => usize_to_string(index),
        };
        obj_set_field(rp0, String::from_str("MemberId"), JsonVal::Str(fallback))
    } else {
        rp0
    };
    let ghost v1 = crate::json::jview_obj(rp1@);
    // Replace an unknown `EventType` with `Other`.
    let rp2 = match obj_get_field(&rp1, "EventType") {
        Some(JsonVal::Str(t)) => {
            if contains_str(allowed, t.as_str()) {
                rp1
            } else {
                obj_set_field(rp1, String::from_str("EventType"), JsonVal::Str(String::from_str("Other")))
            }
        },
        _ => rp1,
    };
    let ghost v2 = crate::json::jview_obj(rp2@);
    // Generate a missing `@odata.id` from the member identifier.
    let rp3 = if !obj_contains_key(&rp2, "@odata.id") {
        match obj_get_field(&rp2, "MemberId") {
            Some(JsonVal::Str(m)) => {
                let generated = String::from_str("/redfish/v1/EventService/SSE").concat(
                    "#/Events/",
                ).concat(m.as_str());
                obj_set_field(rp2, String::from_str("@odata.id"), JsonVal::Str(generated))
            },
            _ => rp2,
        }
    } else {
        rp2
    };
    let ghost v3 = crate::json::jview_obj(rp3@);
    // Normalize a compact `EventTimestamp` offset.
    let rp4 = match obj_get_field(&rp3, "EventTimestamp") {
        Some(JsonVal::Str(ts)) => {
            match fix_timestamp_offset(ts.as_str()) {
                Some(fixed) => obj_set_field(
                    rp3,
                    String::from_str("EventTimestamp"),
                    JsonVal::Str(fixed),
                ),
                None => rp3,
            }
        },
        _ => rp3,
    };
    JsonVal::Obj(rp4)
}

/// Normalize an EventService SSE payload: generate a missing
/// top-level `@odata.id` from `Id`, and patch every record of the
/// `Events` array. Only event types in `allowed_event_types` are kept.
#[verifier::loop_isolation(false)]
pub fn normalize_event_payload(value: JsonVal, allowed_event_types: &Vec<String>) -> (r: JsonVal)
    ensures
        jview(r) == normalize_spec(jview(value), allowed_event_types@.map_values(|x: String| x@)),
{
    let ghost aviews = allowed_event_types@.map_values(|x: String| x@);
    let p0 = match value {
        JsonVal::Obj(fields) => fields,
        other => {
            return other;
        },
    };
    let ghost v0 = crate::json::jview_obj(p0@);
    let p1 = if !obj_contains_key(&p0, "@odata.id") {
        match obj_get_field(&p0, "Id") {
            Some(JsonVal::Str(id)) => {
                let generated = String::from_str("/redfish/v1/EventService/SSE").concat(
                    "#/Event",
                ).concat(id.as_str());
                obj_set_field(p0, String::from_str("@odata.id"), JsonVal::Str(generated))
            },
            _ => p0,
        }
    } else {
        p0
    };
    let ghost v1 = crate::json::jview_obj(p1@);
    // Rewrite the `Events` array in place, record by record.
    let n = p1.len();
    let mut p1 = p1;
    let ghost fields1 = p1@;
    proof {
        lemma_jview_obj_index(fields1);
    }
    let mut at: usize = 0;
    let mut found = false;
    while at < n && !found
        invariant
            0 <= at <= n,
            n == fields1.len(),
            p1@ == fields1,
            forall|j: int| 0 <= j < at ==> (#[trigger] v1[j]).0 != "Events"@,
            found ==> at < n && v1[at as int].0 == "Events"@,
        decreases n - at + (if found {
            0int
        } else {
            1int
        }),
    {
        if crate::edmx::schema::str_eq(p1[at].0.as_str(), "Events") {
            found = true;
        } else {
            at += 1;
        }
    }
    if !found {
        proof {
            crate::json::lemma_obj_get_none(v1, "Events"@);
        }
        return JsonVal::Obj(p1);
    }
    proof {
        lemma_obj_get_at(v1, "Events"@, at as int);
    }
    let (events_key, events_val) = p1.remove(at);
    proof {
        assert((events_key, events_val) == fields1[at as int]);
        assert(events_key@ == "Events"@);
        assert(jview(events_val) == v1[at as int].1);
    }
    let events = match events_val {
        JsonVal::Arr(events) => events,
        other => {
            // `Events` is not an array: put the pair back unchanged.
            p1.insert(at, (events_key, other));
            proof {
                assert(p1@ =~= fields1);
            }
            return JsonVal::Obj(p1);
        },
    };
    let ghost evts = jview_arr(events@);
    proof {
        lemma_jview_arr_index(events@);
        assert(v1[at as int].1 == JsonView::Arr(evts));
    }
    let total = events.len();
    let mut events = events;
    let mut patched: Vec<JsonVal> = Vec::new();
    while patched.len() < total
        invariant
            total == evts.len(),
            patched@.len() + events@.len() == total,
            forall|j: int|
                0 <= j < patched@.len() ==> jview(#[trigger] patched@[j]) == patch_record(
                    evts[j],
                    j,
                    aviews,
                ),
            forall|j: int|
                0 <= j < events@.len() ==> jview(#[trigger] events@[j]) == evts[patched@.len()
                    + j],
        decreases events@.len(),
    {
        let ghost done = patched@.len() as int;
        let ghost old_ev = events@;
        let e = events.remove(0);
        proof {
            assert(jview(e) == evts[done]);
            assert(forall|j: int| 0 <= j < events@.len() ==> #[trigger] events@[j] == old_ev[j + 1]);
        }
        let pe = patch_record_exec(e, patched.len(), allowed_event_types);
        patched.push(pe);
    }
    let rebuilt = JsonVal::Arr(patched);
    proof {
        lemma_jview_arr_index(patched@);
        assert forall|i: int| 0 <= i < evts.len() implies jview_arr(patched@)[i] == patch_record(
            evts[i],
            i,
            aviews,
        ) by {
            assert(jview_arr(patched@)[i] == jview(patched@[i]));
        };
        assert(jview_arr(patched@) =~= Seq::new(
            evts.len(),
            |i: int| patch_record(evts[i], i, aviews),
        ));
        assert(jview(rebuilt) == JsonView::Arr(
            Seq::new(evts.len(), |i: int| patch_record(evts[i], i, aviews)),
        ));
    }
    let ghost rb = jview(rebuilt);
    p1.insert(at, (events_key, rebuilt));
    proof {
        assert(p1@ =~= fields1.update(at as int, (events_key, rebuilt)));
        crate::json::lemma_jview_obj_update(fields1, at as int, (events_key, rebuilt));
        crate::json::lemma_obj_set_at(v1, "Events"@, rb, at as int);
    }
    JsonVal::Obj(p1)
}

} // verus!
