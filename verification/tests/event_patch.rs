//! Tests of the EventService payload patches.

use csdl_compiler::event_patch::fix_timestamp_offset;
use csdl_compiler::event_patch::normalize_event_payload;
use csdl_compiler::json::JsonVal;
use csdl_compiler::json::obj_get_field;

fn allowed_event_types() -> Vec<String> {
    vec![
        String::from("StatusChange"),
        String::from("ResourceUpdated"),
        String::from("ResourceAdded"),
        String::from("ResourceRemoved"),
        String::from("Alert"),
        String::from("MetricReport"),
        String::from("Other"),
    ]
}

fn record_with_event_type(t: &str) -> JsonVal {
    JsonVal::Obj(vec![(String::from("EventType"), JsonVal::Str(String::from(t)))])
}

fn event_type_of(record: &JsonVal) -> Option<&str> {
    let fields = match record {
        JsonVal::Obj(fields) => fields,
        _ => return None,
    };
    match obj_get_field(fields, "EventType") {
        Some(JsonVal::Str(s)) => Some(s.as_str()),
        _ => None,
    }
}

#[test]
fn normalizes_compact_offset() {
    let fixed = fix_timestamp_offset("2017-11-23T17:17:42-0600");
    assert_eq!(fixed, Some("2017-11-23T17:17:42-06:00".to_string()));
}

#[test]
fn keeps_rfc3339_offset_unchanged() {
    assert_eq!(fix_timestamp_offset("2017-11-23T17:17:42-06:00"), None);
}

#[test]
fn replaces_unknown_event_type_with_other() {
    let payload = JsonVal::Obj(vec![(
        String::from("Events"),
        JsonVal::Arr(vec![
            record_with_event_type("Event"),
            record_with_event_type("FooBar"),
            record_with_event_type("Alert"),
        ]),
    )]);

    let patched = normalize_event_payload(payload, &allowed_event_types());

    let fields = match &patched {
        JsonVal::Obj(fields) => fields,
        _ => panic!("patched payload is not an object"),
    };
    let events = match obj_get_field(fields, "Events") {
        Some(JsonVal::Arr(events)) => events,
        _ => panic!("events array"),
    };
    assert_eq!(event_type_of(&events[0]), Some("Other"));
    assert_eq!(event_type_of(&events[1]), Some("Other"));
    assert_eq!(event_type_of(&events[2]), Some("Alert"));
}

#[test]
fn fills_missing_member_and_odata_ids() {
    let payload = JsonVal::Obj(vec![
        (String::from("Id"), JsonVal::Str(String::from("42"))),
        (
            String::from("Events"),
            JsonVal::Arr(vec![JsonVal::Obj(vec![(
                String::from("EventTimestamp"),
                JsonVal::Str(String::from("2017-11-23T17:17:42-0600")),
            )])]),
        ),
    ]);

    let patched = normalize_event_payload(payload, &allowed_event_types());

    let fields = match &patched {
        JsonVal::Obj(fields) => fields,
        _ => panic!("patched payload is not an object"),
    };
    match obj_get_field(fields, "@odata.id") {
        Some(JsonVal::Str(id)) => {
            assert_eq!(id.as_str(), "/redfish/v1/EventService/SSE#/Event42");
        },
        _ => panic!("missing generated @odata.id"),
    }
    let events = match obj_get_field(fields, "Events") {
        Some(JsonVal::Arr(events)) => events,
        _ => panic!("events array"),
    };
    let record = match &events[0] {
        JsonVal::Obj(fields) => fields,
        _ => panic!("record is not an object"),
    };
    match obj_get_field(record, "MemberId") {
        Some(JsonVal::Str(m)) => assert_eq!(m.as_str(), "0"),
        _ => panic!("missing fallback MemberId"),
    }
    match obj_get_field(record, "@odata.id") {
        Some(JsonVal::Str(id)) => {
            assert_eq!(id.as_str(), "/redfish/v1/EventService/SSE#/Events/0");
        },
        _ => panic!("missing generated record @odata.id"),
    }
    match obj_get_field(record, "EventTimestamp") {
        Some(JsonVal::Str(ts)) => assert_eq!(ts.as_str(), "2017-11-23T17:17:42-06:00"),
        _ => panic!("missing normalized timestamp"),
    }
}
