use std::sync::{Arc, Mutex};

use moodyblues_sdk::codec::encode_trace_point;
use moodyblues_sdk::event::{EventType, Keyframe};
use moodyblues_sdk::json::{Json, JsonMap};
use moodyblues_sdk::point::{Metadata, TracePoint};
use moodyblues_sdk::trace::{self, Registry, Trace};
use moodyblues_sdk::version;

/// A sink that stores every reported point, reports a fixed address and a
/// frozen clock, so that records are deterministic.
struct Recorder(Arc<Mutex<Vec<TracePoint>>>);

impl Trace for Recorder {
    fn report(&self, point: TracePoint) {
        self.0.lock().expect("store poisoned").push(point);
    }

    fn metadata(&self) -> Metadata {
        Metadata {
            address: "0x0000000000000000000000000000000000000000".to_string(),
        }
    }

    fn now(&self) -> u64 {
        0
    }
}

fn to_value(j: &Json) -> serde_json::Value {
    match j {
        Json::Null => serde_json::Value::Null,
        Json::Bool(b) => serde_json::Value::Bool(*b),
        Json::Num(n) => serde_json::Value::Number(serde_json::Number::from(*n)),
        Json::Str(s) => serde_json::Value::String(s.clone()),
        Json::Arr(v) => serde_json::Value::Array(v.iter().map(to_value).collect()),
        Json::Obj(m) => {
            let mut map = serde_json::Map::new();
            for (k, v) in m.entries.iter() {
                map.insert(k.clone(), to_value(v));
            }
            serde_json::Value::Object(map)
        }
    }
}

#[test]
fn default_metadata_has_an_empty_address() {
    let m = Metadata::default();
    assert_eq!(m.address, "");
}

#[test]
fn test_tracer() {
    let store: Arc<Mutex<Vec<TracePoint>>> = Arc::new(Mutex::new(Vec::new()));
    let mut registry = Registry::new();
    registry
        .set_tracer(Recorder(store.clone()))
        .expect("init tracer failed");

    trace::start_epoch(&registry, 1);
    trace::start_round(&registry, 0, 1);
    let mut tag = JsonMap::new();
    tag.insert("hash".to_string(), Json::Str("0x00".to_string()));
    tag.insert("epoch_id".to_string(), Json::Num(1));
    tag.insert("round_id".to_string(), Json::Num(0));
    trace::custom(
        &registry,
        "broadcast_proposal".to_string(),
        Some(Json::Obj(tag)),
    );
    trace::receive_proposal(
        &registry,
        "receive_propose".to_string(),
        1,
        0,
        "0x".to_string(),
        "".to_string(),
        None,
    );
    trace::start_step(&registry, "propose".to_string(), 0, 1);
    trace::error(&registry, "check_failed".to_string(), None);

    let points: Vec<TracePoint> = std::mem::take(&mut *store.lock().expect("store poisoned"));
    assert_eq!(points.len(), 6);

    let address = "0x0000000000000000000000000000000000000000";
    let expected = vec![
        format!(
            r#"{{"timestamp":0,"event_name":"start_epoch","event_type":"keyframe",
                "tag":{{"epoch_id":1}},
                "metadata":{{"address":"{address}","v":"{v}"}}}}"#,
            address = address,
            v = version()
        ),
        format!(
            r#"{{"timestamp":0,"event_name":"start_round","event_type":"keyframe",
                "tag":{{"epoch_id":1,"round_id":0}},
                "metadata":{{"address":"{address}","v":"{v}"}}}}"#,
            address = address,
            v = version()
        ),
        format!(
            r#"{{"timestamp":0,"event_name":"broadcast_proposal","event_type":"custom",
                "tag":{{"epoch_id":1,"hash":"0x00","round_id":0}},
                "metadata":{{"address":"{address}","v":"{v}"}}}}"#,
            address = address,
            v = version()
        ),
        format!(
            r#"{{"timestamp":0,"event_name":"receive_propose","event_type":"propose",
                "tag":{{"epoch_id":1,"hash":"","proposer":"0x","round_id":0}},
                "metadata":{{"address":"{address}","v":"{v}"}}}}"#,
            address = address,
            v = version()
        ),
        format!(
            r#"{{"timestamp":0,"event_name":"start_step","event_type":"keyframe",
                "tag":{{"epoch_id":1,"round_id":0,"step_name":"propose"}},
                "metadata":{{"address":"{address}","v":"{v}"}}}}"#,
            address = address,
            v = version()
        ),
        format!(
            r#"{{"timestamp":0,"event_name":"check_failed","event_type":"error",
                "tag":{{}},
                "metadata":{{"address":"{address}","v":"{v}"}}}}"#,
            address = address,
            v = version()
        ),
    ];

    for (point, exp) in points.into_iter().zip(expected.iter()) {
        let encoded = encode_trace_point(point).expect("encoding must succeed");
        let actual = to_value(&encoded);
        let wanted: serde_json::Value = serde_json::from_str(exp).expect("expected must parse");
        assert_eq!(actual, wanted);
    }
}

#[test]
fn installing_a_sink_replaces_the_active_one_for_later_events_only() {
    let first: Arc<Mutex<Vec<TracePoint>>> = Arc::new(Mutex::new(Vec::new()));
    let second: Arc<Mutex<Vec<TracePoint>>> = Arc::new(Mutex::new(Vec::new()));

    // Before any installation the default sink is active: the event is
    // discarded and neither store sees it.
    let mut registry = Registry::new();
    trace::start_epoch(&registry, 1);
    assert_eq!(first.lock().expect("store").len(), 0);
    assert_eq!(second.lock().expect("store").len(), 0);

    registry
        .set_tracer(Recorder(first.clone()))
        .expect("install failed");
    trace::start_epoch(&registry, 2);
    assert_eq!(first.lock().expect("store").len(), 1);

    registry
        .set_tracer(Recorder(second.clone()))
        .expect("install failed");
    trace::start_epoch(&registry, 3);

    // The later installation took all subsequent events, and left the
    // already-reported one untouched.
    assert_eq!(second.lock().expect("store").len(), 1);
    let kept = first.lock().expect("store");
    assert_eq!(kept.len(), 1);
    assert_eq!(kept[0].event.event_name, "start_epoch");
    assert!(matches!(
        kept[0].event.event_type,
        EventType::Keyframe {
            frame_info: Keyframe::NewEpoch { epoch_id: 2 }
        }
    ));
    assert!(matches!(
        second.lock().expect("store")[0].event.event_type,
        EventType::Keyframe {
            frame_info: Keyframe::NewEpoch { epoch_id: 3 }
        }
    ));
}
