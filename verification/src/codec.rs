//! The trace-point codec: turns one `TracePoint` into a JSON document of a
//! fixed five-field shape, merging the typed fields of the event into the
//! caller-supplied attribute bag. A typed field always shadows a caller
//! key of the same name (last write wins).

use vstd::prelude::*;
use vstd::string::StringExecFns;

use crate::event::{EventType, Keyframe, TraceEvent};
use crate::json::{Json, JsonMap};
use crate::point::TracePoint;

verus! {

/// Returned when the caller-supplied tag is present but not a JSON
/// object: the codec refuses to produce output for it.
#[derive(Debug)]
pub struct CodecError;

/// The string under which each kind of event is encoded as `event_type`.
pub open spec fn type_label(ev: EventType) -> Seq<char> {
    match ev {
        EventType::Propose { .. } => "propose"@,
        EventType::Vote { .. } => "vote"@,
        EventType::Error => "error"@,
        EventType::Keyframe { .. } => "keyframe"@,
        EventType::Custom => "custom"@,
    }
}

/// Whether a caller-supplied tag has a shape the codec accepts: absent,
/// or a JSON object.
pub open spec fn tag_wf(tag: Option<Json>) -> bool {
    match tag {
        Option::None => true,
        Option::Some(j) => j is Obj,
    }
}

/// The attribute bag the encoding starts from: the caller's tag when
/// present, else an empty object.
pub open spec fn base_tag(tag: Option<Json>) -> Map<Seq<char>, Json> {
    match tag {
        Option::Some(Json::Obj(m)) => m@,
        _ => Map::empty(),
    }
}

/// The typed fields of an event, under their declared names and with
/// their declared values. `Error` and `Custom` carry none.
pub open spec fn typed_fields(ev: EventType) -> Map<Seq<char>, Json> {
    match ev {
        EventType::Propose { epoch_id, round_id, proposer, hash } => map![
            "epoch_id"@ => Json::Num(epoch_id),
            "round_id"@ => Json::Num(round_id),
            "proposer"@ => Json::Str(proposer),
            "hash"@ => Json::Str(hash),
        ],
        EventType::Vote { epoch_id, round_id, voter, hash } => map![
            "epoch_id"@ => Json::Num(epoch_id),
            "round_id"@ => Json::Num(round_id),
            "voter"@ => Json::Str(voter),
            "hash"@ => Json::Str(hash),
        ],
        EventType::Keyframe { frame_info } => match frame_info {
            Keyframe::NewEpoch { epoch_id } => map!["epoch_id"@ => Json::Num(epoch_id)],
            Keyframe::NewRound { round_id, epoch_id } => map![
                "round_id"@ => Json::Num(round_id),
                "epoch_id"@ => Json::Num(epoch_id),
            ],
            Keyframe::NewStep { step_name, round_id, epoch_id } => map![
                "step_name"@ => Json::Str(step_name),
                "round_id"@ => Json::Num(round_id),
                "epoch_id"@ => Json::Num(epoch_id),
            ],
        },
        EventType::Error => Map::empty(),
        EventType::Custom => Map::empty(),
    }
}

/// The encoded attribute bag: the caller's bag with the typed fields of
/// the event written over it. On a name both supply, the typed field
/// wins.
pub open spec fn merged_tag(ev: EventType, base: Map<Seq<char>, Json>) -> Map<Seq<char>, Json> {
    base.union_prefer_right(typed_fields(ev))
}

/// What it means for `out` to encode `point`: a JSON object of exactly
/// five fields — the timestamp, the event name, the lowercase event-type
/// label, the merged attribute bag (always an object, never null), and
/// the node metadata extended with the library's version string.
pub open spec fn is_encoding_of(out: Json, point: TracePoint) -> bool {
    match out {
        Json::Obj(top) => {
            &&& top@.dom() == set![
                "timestamp"@,
                "event_name"@,
                "event_type"@,
                "tag"@,
                "metadata"@,
            ]
            &&& top@["timestamp"@] == Json::Num(point.timestamp)
            &&& top@["event_name"@] == Json::Str(point.event.event_name)
            &&& match top@["event_type"@] {
                Json::Str(s) => s@ == type_label(point.event.event_type),
                _ => false,
            }
            &&& match top@["tag"@] {
                Json::Obj(bag) => bag@ == merged_tag(
                    point.event.event_type,
                    base_tag(point.event.tag),
                ),
                _ => false,
            }
            &&& match top@["metadata"@] {
                Json::Obj(md) => {
                    &&& md@.dom() == set!["address"@, "v"@]
                    &&& md@["address"@] == Json::Str(point.metadata.address)
                    &&& match md@["v"@] {
                        Json::Str(v) => v@ == crate::spec_version(),
                        _ => false,
                    }
                },
                _ => false,
            }
        },
        _ => false,
    }
}

/// The order in which this encoder writes the five fields of a record.
/// The order is not semantically significant, but it is stable, for test
/// reproducibility.
pub open spec fn field_order_stable(out: Json) -> bool {
    match out {
        Json::Obj(top) => top.entries@.map_values(|e: (String, Json)| e.0@) == seq![
            "timestamp"@,
            "event_name"@,
            "event_type"@,
            "tag"@,
            "metadata"@,
        ],
        _ => false,
    }
}

/// Encodes one trace point. Succeeds exactly when the caller-supplied tag
/// is absent or a JSON object; the result then encodes the point as
/// `is_encoding_of` states, its fields written in the stable order. The
/// point is consumed: its strings and its bag move into the document
/// unchanged.
pub fn encode_trace_point(point: TracePoint) -> (r: Result<Json, CodecError>)
    ensures
        r is Ok <==> tag_wf(point.event.tag),
        r matches Ok(out) ==> is_encoding_of(out, point),
        r matches Ok(out) ==> field_order_stable(out),
{
    let TracePoint { timestamp, event, metadata } = point;
    let TraceEvent { event_name, event_type, tag } = event;

    let mut bag: JsonMap = match tag {
        Option::None => JsonMap::new(),
        Option::Some(j) => match j {
            Json::Obj(m) => m,
            _ => {
                return Err(CodecError);
            },
        },
    };

    let label: &'static str = match &event_type {
        EventType::Propose { .. } => "propose",
        EventType::Vote { .. } => "vote",
        EventType::Error => "error",
        EventType::Keyframe { .. } => "keyframe",
        EventType::Custom => "custom",
    };

    let ghost base = bag@;
    match event_type {
        EventType::Propose { epoch_id, round_id, proposer, hash } => {
            bag.insert(String::from_str("epoch_id"), Json::Num(epoch_id));
            bag.insert(String::from_str("round_id"), Json::Num(round_id));
            bag.insert(String::from_str("proposer"), Json::Str(proposer));
            bag.insert(String::from_str("hash"), Json::Str(hash));
            proof {
                reveal_strlit("epoch_id");
                reveal_strlit("round_id");
                reveal_strlit("proposer");
                reveal_strlit("hash");
                assert(bag@ =~= merged_tag(point.event.event_type, base));
            }
        },
        EventType::Vote { epoch_id, round_id, voter, hash } => {
            bag.insert(String::from_str("epoch_id"), Json::Num(epoch_id));
            bag.insert(String::from_str("round_id"), Json::Num(round_id));
            bag.insert(String::from_str("voter"), Json::Str(voter));
            bag.insert(String::from_str("hash"), Json::Str(hash));
            proof {
                reveal_strlit("epoch_id");
                reveal_strlit("round_id");
                reveal_strlit("voter");
                reveal_strlit("hash");
                assert(bag@ =~= merged_tag(point.event.event_type, base));
            }
        },
        EventType::Keyframe { frame_info } => match frame_info {
            Keyframe::NewEpoch { epoch_id } => {
                bag.insert(String::from_str("epoch_id"), Json::Num(epoch_id));
                proof {
                    assert(bag@ =~= merged_tag(point.event.event_type, base));
                }
            },
            Keyframe::NewRound { round_id, epoch_id } => {
                bag.insert(String::from_str("round_id"), Json::Num(round_id));
                bag.insert(String::from_str("epoch_id"), Json::Num(epoch_id));
                proof {
                    reveal_strlit("round_id");
                    reveal_strlit("epoch_id");
                    assert(bag@ =~= merged_tag(point.event.event_type, base));
                }
            },
            Keyframe::NewStep { step_name, round_id, epoch_id } => {
                bag.insert(String::from_str("step_name"), Json::Str(step_name));
                bag.insert(String::from_str("round_id"), Json::Num(round_id));
                bag.insert(String::from_str("epoch_id"), Json::Num(epoch_id));
                proof {
                    reveal_strlit("step_name");
                    reveal_strlit("round_id");
                    reveal_strlit("epoch_id");
                    assert(bag@ =~= merged_tag(point.event.event_type, base));
                }
            },
        },
        EventType::Error => {
            proof {
                assert(bag@ =~= merged_tag(point.event.event_type, base));
            }
        },
        EventType::Custom => {
            proof {
                assert(bag@ =~= merged_tag(point.event.event_type, base));
            }
        },
    }

    let mut md = JsonMap::new();
    md.insert(String::from_str("address"), Json::Str(metadata.address));
    md.insert(String::from_str("v"), Json::Str(String::from_str(crate::version())));
    proof {
        reveal_strlit("address");
        reveal_strlit("v");
        assert(md@.dom() =~= set!["address"@, "v"@]);
        assert("address"@.len() == 7);
        assert("v"@.len() == 1);
        assert("address"@ != "v"@);
        assert(md@["address"@] == Json::Str(point.metadata.address));
        assert(md@["v"@] matches Json::Str(v) && v@ == crate::spec_version());
    }

    let mut top = JsonMap::new();
    top.insert(String::from_str("timestamp"), Json::Num(timestamp));
    top.insert(String::from_str("event_name"), Json::Str(event_name));
    top.insert(String::from_str("event_type"), Json::Str(String::from_str(label)));
    top.insert(String::from_str("tag"), Json::Obj(bag));
    top.insert(String::from_str("metadata"), Json::Obj(md));
    proof {
        reveal_strlit("timestamp");
        reveal_strlit("event_name");
        reveal_strlit("event_type");
        reveal_strlit("tag");
        reveal_strlit("metadata");
        assert(top@.dom() =~= set![
            "timestamp"@,
            "event_name"@,
            "event_type"@,
            "tag"@,
            "metadata"@,
        ]);
        assert("timestamp"@.len() == 9);
        assert("event_name"@.len() == 10);
        assert("event_type"@.len() == 10);
        assert("tag"@.len() == 3);
        assert("metadata"@.len() == 8);
        assert("event_name"@[6] == 'n');
        assert("event_type"@[6] == 't');
        assert(top@["timestamp"@] == Json::Num(point.timestamp));
        assert(top@["event_name"@] == Json::Str(point.event.event_name));
        assert(top@["event_type"@] matches Json::Str(s)
            && s@ == type_label(point.event.event_type));
        assert(top@["tag"@] matches Json::Obj(b)
            && b@ == merged_tag(point.event.event_type, base_tag(point.event.tag)));
        assert(top@["metadata"@] is Obj);
        assert(top.entries@.map_values(|e: (String, Json)| e.0@) =~= seq![
            "timestamp"@,
            "event_name"@,
            "event_type"@,
            "tag"@,
            "metadata"@,
        ]);
    }
    Ok(Json::Obj(top))
}

/// With an empty caller bag, the encoded bag of a `Propose`, `Vote` or
/// `Keyframe` event holds exactly the typed fields of the variant, under
/// their declared names and with their declared values.
pub proof fn lemma_empty_tag_yields_exact_typed_fields(ev: EventType)
    requires
        ev is Propose || ev is Vote || ev is Keyframe,
    ensures
        merged_tag(ev, Map::empty()) == typed_fields(ev),
{
    assert(merged_tag(ev, Map::empty()) =~= typed_fields(ev));
}

/// A typed field always wins over a caller-supplied key of the same name:
/// whatever bag the caller supplied, the encoded bag maps each typed
/// field's name to the typed field's value.
pub proof fn lemma_typed_field_shadows_caller_key(
    ev: EventType,
    base: Map<Seq<char>, Json>,
    key: Seq<char>,
)
    requires
        typed_fields(ev).dom().contains(key),
    ensures
        merged_tag(ev, base).dom().contains(key),
        merged_tag(ev, base)[key] == typed_fields(ev)[key],
{
}

/// A caller-supplied key that no typed field shadows passes through the
/// merge unchanged, with the caller's value.
pub proof fn lemma_caller_key_without_collision_is_kept(
    ev: EventType,
    base: Map<Seq<char>, Json>,
    key: Seq<char>,
)
    requires
        base.dom().contains(key),
        !typed_fields(ev).dom().contains(key),
    ensures
        merged_tag(ev, base).dom().contains(key),
        merged_tag(ev, base)[key] == base[key],
{
}

/// An `Error` or `Custom` event with no caller tag encodes its bag as the
/// empty object (the record still carries an object under `tag`, never
/// null: see `is_encoding_of`).
pub proof fn lemma_error_custom_empty_bag(ev: EventType)
    requires
        ev is Error || ev is Custom,
    ensures
        merged_tag(ev, base_tag(Option::None)) == Map::<Seq<char>, Json>::empty(),
{
    assert(merged_tag(ev, base_tag(Option::None)) =~= Map::<Seq<char>, Json>::empty());
}

} // verus!
