use scratch_blocks::block_names::{unsupported, unused};
use scratch_blocks::blocks::{
    links_of, Backdrop, BackdropByName, BackdropByNumber, BackdropWithName, Block, BlockType,
    Costume, CostumeByName, CostumeByNumber, CostumeWithName, CreateCloneOf, DataGetVariable,
    DataInsertAtList, DraggableOption, Forever, Glide, GlidePos, Goto, GotoOption, IfThenElse,
    InvalidOpcode, KeyPressed, Move, Point, PointOption, ProceduresDefinition, UnusedOpcode, Value,
};
use scratch_blocks::error::{DecodeError, Mode};
use scratch_blocks::json::{Json, Number};
use scratch_blocks::raw::RawBlock;

fn text(s: &str) -> Json {
    Json::String(s.to_string())
}

fn object(entries: Vec<(&str, Json)>) -> Json {
    Json::Object(entries.into_iter().map(|(k, v)| (k.to_string(), v)).collect())
}

fn input(value: Json) -> Json {
    Json::Array(vec![Json::Number(Number::Unsigned(1)), value])
}

fn field(value: Json) -> Json {
    Json::Array(vec![value, Json::Null])
}

fn record(opcode: &str, inputs: Vec<(&str, Json)>, fields: Vec<(&str, Json)>) -> Json {
    object(vec![
        ("opcode", text(opcode)),
        ("next", text("after")),
        ("parent", text("before")),
        ("inputs", object(inputs)),
        ("fields", object(fields)),
    ])
}

fn bare(opcode: &str) -> RawBlock {
    RawBlock {
        opcode: opcode.to_string(),
        next: Some("after".to_string()),
        parent: Some("before".to_string()),
        inputs: vec![],
        fields: vec![],
        params: vec![],
        mutation: None,
    }
}

fn prev() -> Option<String> {
    Some("before".to_string())
}

fn next() -> Option<String> {
    Some("after".to_string())
}

const UNSUPPORTED: [&str; 13] = [
    "motion_scroll_right",
    "motion_scroll_up",
    "motion_align_scene",
    "motion_xscroll",
    "motion_yscroll",
    "looks_changestretchby",
    "looks_setstretchto",
    "event_whentouchingobject",
    "control_for_each",
    "sensing_of",
    "sensing_loud",
    "sensing_askandwait",
    "sensing_userid",
];

const UNUSED: [&str; 3] = ["motion_goto", "sound_beats_menu", "motion_glideto"];

#[test]
fn unsupported_opcodes_fail_in_both_modes() {
    for opcode in UNSUPPORTED {
        assert!(unsupported(opcode));
        assert!(!unused(opcode));
        for mode in [Mode::Development, Mode::Production] {
            assert_eq!(BlockType::decode(&bare(opcode), mode), Err(DecodeError::UnsupportedOpcode));
            assert_eq!(
                BlockType::from_json(&record(opcode, vec![], vec![]), mode),
                Err(DecodeError::UnsupportedOpcode)
            );
        }
    }
}

#[test]
fn unused_opcodes_keep_their_name() {
    for opcode in UNUSED {
        assert!(unused(opcode));
        assert!(!unsupported(opcode));
        for mode in [Mode::Development, Mode::Production] {
            assert_eq!(
                BlockType::decode(&bare(opcode), mode),
                Ok(BlockType::UnusedOpcode(UnusedOpcode {
                    name: opcode.to_string(),
                    prev: prev(),
                    next: next(),
                }))
            );
        }
    }
}

#[test]
fn opcodes_outside_the_closed_set_follow_the_mode() {
    for opcode in [
        "",
        "nonsense",
        "MOTION_MOVESTEPS",
        "motion_movesteps ",
        "motion_move",
        "control_start_as_clone",
        "control_get_counter",
        "pen_clear",
        "\u{1F600}",
    ] {
        assert!(!unsupported(opcode));
        assert!(!unused(opcode));
        assert_eq!(
            BlockType::decode(&bare(opcode), Mode::Development),
            Err(DecodeError::UnrecognizedOpcode)
        );
        assert_eq!(
            BlockType::decode(&bare(opcode), Mode::Production),
            Ok(BlockType::InvalidOpcode(InvalidOpcode {
                name: opcode.to_string(),
                prev: prev(),
                next: next(),
            }))
        );
    }
}

#[test]
fn nodes_without_attributes_carry_their_links() {
    for mode in [Mode::Development, Mode::Production] {
        assert_eq!(
            BlockType::decode(&bare("control_forever"), mode),
            Ok(BlockType::Forever(Forever { prev: prev(), next: next() }))
        );
    }
}

#[test]
fn missing_positional_slots_are_absent() {
    let node = BlockType::from_json(
        &record("control_if_else", vec![("CONDITION", input(text("c")))], vec![]),
        Mode::Development,
    );
    assert_eq!(
        node,
        Ok(BlockType::IfThenElse(IfThenElse {
            condition: Some(Value::String("c".to_string())),
            then_branch: None,
            otherwise: None,
            prev: prev(),
            next: next(),
        }))
    );
}

#[test]
fn positional_slots_skip_what_resolved_to_nothing() {
    let node = BlockType::from_json(
        &record(
            "control_if_else",
            vec![
                ("CONDITION", input(Json::Null)),
                ("SUBSTACK", input(text("s1"))),
                ("SUBSTACK2", input(text("s2"))),
            ],
            vec![],
        ),
        Mode::Development,
    );
    assert_eq!(
        node,
        Ok(BlockType::IfThenElse(IfThenElse {
            condition: Some(Value::String("s1".to_string())),
            then_branch: Some(Value::String("s2".to_string())),
            otherwise: None,
            prev: prev(),
            next: next(),
        }))
    );
}

#[test]
fn missing_named_slots_are_nothing() {
    for mode in [Mode::Development, Mode::Production] {
        assert_eq!(
            BlockType::decode(&bare("data_variable"), mode),
            Ok(BlockType::DataGetVariable(DataGetVariable {
                variable: Value::Null,
                prev: prev(),
                next: next(),
            }))
        );
        assert_eq!(
            BlockType::from_json(
                &record(
                    "data_insertatlist",
                    vec![("INDEX", input(text("3")))],
                    vec![("LIST", field(text("items")))]
                ),
                mode
            ),
            Ok(BlockType::DataInsertAtList(DataInsertAtList {
                item: Value::Null,
                index: Value::Number(Number::Unsigned(3)),
                list: Value::String("items".to_string()),
                prev: prev(),
                next: next(),
            }))
        );
    }
}

#[test]
fn costume_and_backdrop_menus_keep_their_field_and_links() {
    for mode in [Mode::Development, Mode::Production] {
        assert_eq!(
            BlockType::from_json(
                &record("looks_costume", vec![], vec![("COSTUME", field(text("costume1")))]),
                mode
            ),
            Ok(BlockType::Costume(Costume::WithName(CostumeWithName {
                name: Some(Value::String("costume1".to_string())),
                prev: prev(),
                next: next(),
            })))
        );
        assert_eq!(
            BlockType::decode(&bare("looks_costume"), mode),
            Ok(BlockType::Costume(Costume::WithName(CostumeWithName {
                name: None,
                prev: prev(),
                next: next(),
            })))
        );
        assert_eq!(
            BlockType::from_json(
                &record("looks_backdrops", vec![], vec![("BACKDROP", field(text("backdrop1")))]),
                mode
            ),
            Ok(BlockType::Backdrop(Backdrop::WithName(BackdropWithName {
                name: Some(Value::String("backdrop1".to_string())),
                prev: prev(),
                next: next(),
            })))
        );
    }
}

#[test]
fn costume_reporter_reads_number_or_name() {
    for mode in [Mode::Development, Mode::Production] {
        assert_eq!(
            BlockType::from_json(
                &record("looks_costumenumbername", vec![], vec![("N", field(text("number")))]),
                mode
            ),
            Ok(BlockType::Costume(Costume::ByNumber(CostumeByNumber {
                prev: prev(),
                next: next()
            })))
        );
        assert_eq!(
            BlockType::from_json(
                &record("looks_costumenumbername", vec![], vec![("N", field(text("name")))]),
                mode
            ),
            Ok(BlockType::Costume(Costume::ByName(CostumeByName { prev: prev(), next: next() })))
        );
        assert_eq!(
            BlockType::from_json(
                &record("looks_backdropnumbername", vec![], vec![("N", field(text("number")))]),
                mode
            ),
            Ok(BlockType::Backdrop(Backdrop::ByNumber(BackdropByNumber {
                prev: prev(),
                next: next()
            })))
        );
        assert_eq!(
            BlockType::from_json(
                &record("looks_backdropnumbername", vec![], vec![("N", field(text("name")))]),
                mode
            ),
            Ok(BlockType::Backdrop(Backdrop::ByName(BackdropByName { prev: prev(), next: next() })))
        );
    }
}

#[test]
fn reporter_with_another_option_follows_the_mode() {
    for fields in [
        vec![],
        vec![("NUMBER_NAME", field(text("size")))],
        vec![("NUMBER_NAME", field(text("7")))],
    ] {
        let costume = record("looks_costumenumbername", vec![], fields.clone());
        assert_eq!(
            BlockType::from_json(&costume, Mode::Development),
            Err(DecodeError::InvalidOption)
        );
        assert_eq!(
            BlockType::from_json(&costume, Mode::Production),
            Ok(BlockType::Costume(Costume::WithName(CostumeWithName {
                name: None,
                prev: prev(),
                next: next(),
            })))
        );
        let backdrop = record("looks_backdropnumbername", vec![], fields);
        assert_eq!(
            BlockType::from_json(&backdrop, Mode::Development),
            Err(DecodeError::InvalidOption)
        );
        assert_eq!(
            BlockType::from_json(&backdrop, Mode::Production),
            Ok(BlockType::Backdrop(Backdrop::WithName(BackdropWithName {
                name: None,
                prev: prev(),
                next: next(),
            })))
        );
    }
}

#[test]
fn definition_names_its_prototype() {
    for mode in [Mode::Development, Mode::Production] {
        assert_eq!(
            BlockType::from_json(
                &record(
                    "procedures_definition",
                    vec![("custom_block", input(text("proto")))],
                    vec![]
                ),
                mode
            ),
            Ok(BlockType::ProceduresDefinition(ProceduresDefinition {
                block: "proto".to_string(),
                prev: prev(),
                next: next(),
            }))
        );
    }
}

#[test]
fn definition_without_a_named_prototype_follows_the_mode() {
    let digits = vec![("custom_block", input(text("12")))];
    let misnamed = vec![("other", input(text("x")))];
    for inputs in [vec![], digits, misnamed] {
        let definition = record("procedures_definition", inputs.clone(), vec![]);
        assert_eq!(
            BlockType::from_json(&definition, Mode::Development),
            Err(DecodeError::UnsupportedOpcode)
        );
        assert_eq!(
            BlockType::from_json(&definition, Mode::Production),
            Ok(BlockType::InvalidOpcode(InvalidOpcode {
                name: "procedures_definition".to_string(),
                prev: prev(),
                next: next(),
            }))
        );
    }
}

#[test]
fn option_outside_its_table_follows_the_mode_in_dispatch() {
    let goto = record("motion_goto_menu", vec![("TO", input(text("Sprite1")))], vec![]);
    assert_eq!(BlockType::from_json(&goto, Mode::Development), Err(DecodeError::InvalidOption));
    assert_eq!(
        BlockType::from_json(&goto, Mode::Production),
        Ok(BlockType::Goto(Goto::Option(GotoOption { option: None, prev: prev(), next: next() })))
    );
    let key = record("sensing_keypressed", vec![("KEY_OPTION", input(text("1")))], vec![]);
    assert_eq!(BlockType::from_json(&key, Mode::Development), Err(DecodeError::InvalidOption));
    assert_eq!(
        BlockType::from_json(&key, Mode::Production),
        Ok(BlockType::KeyPressed(KeyPressed { key: None, prev: prev(), next: next() }))
    );
    let clone = record("control_create_clone_of", vec![], vec![]);
    assert_eq!(BlockType::from_json(&clone, Mode::Development), Err(DecodeError::InvalidOption));
    assert_eq!(
        BlockType::from_json(&clone, Mode::Production),
        Ok(BlockType::CreateCloneOf(CreateCloneOf { of: None, prev: prev(), next: next() }))
    );
}

#[test]
fn extraction_errors_come_before_dispatch() {
    for mode in [Mode::Development, Mode::Production] {
        assert_eq!(BlockType::from_json(&object(vec![]), mode), Err(DecodeError::MissingOpcode));
        assert_eq!(
            BlockType::from_json(&object(vec![("opcode", Json::Null)]), mode),
            Err(DecodeError::NotAString)
        );
        assert_eq!(
            BlockType::from_json(&object(vec![("opcode", text("nonsense"))]), mode),
            Err(DecodeError::MissingInputsOrFields)
        );
        assert_eq!(
            BlockType::from_json(
                &record("nonsense", vec![("A", Json::Array(vec![]))], vec![]),
                mode
            ),
            Err(DecodeError::MalformedValue)
        );
    }
}

#[test]
fn accessors_answer_for_every_kind_of_node() {
    let linked = BlockType::decode(&bare("motion_xposition"), Mode::Production).unwrap();
    assert_eq!(linked.prev(), prev());
    assert_eq!(linked.next(), next());
    let union = BlockType::decode(&bare("motion_gotoxy"), Mode::Production).unwrap();
    assert_eq!(union.prev(), prev());
    assert_eq!(union.next(), next());
    let menu = BlockType::decode(&bare("looks_costume"), Mode::Production).unwrap();
    assert_eq!(menu.prev(), prev());
    assert_eq!(menu.next(), next());
    let reporter = BlockType::decode(&bare("looks_backdropnumbername"), Mode::Production).unwrap();
    assert_eq!(reporter.prev(), prev());
    assert_eq!(reporter.next(), next());
    assert_eq!(BlockType::Stray.prev(), None);
    assert_eq!(BlockType::Stray.next(), None);
    let mut unlinked = bare("sound_volume");
    unlinked.parent = None;
    unlinked.next = None;
    let node = BlockType::decode(&unlinked, Mode::Development).unwrap();
    assert_eq!(node.prev(), None);
    assert_eq!(node.next(), None);
    let sentinel = BlockType::decode(&bare("nonsense"), Mode::Production).unwrap();
    assert_eq!(sentinel.prev(), prev());
    assert_eq!(sentinel.next(), next());
}

#[test]
fn decode_all_keeps_identifiers_and_order() {
    let records = vec![
        ("b2".to_string(), record("looks_show", vec![], vec![])),
        ("a1".to_string(), record("control_forever", vec![], vec![])),
        ("c3".to_string(), record("future_block", vec![], vec![])),
    ];
    let nodes = BlockType::decode_all(&records, Mode::Production).unwrap();
    assert_eq!(nodes.len(), 3);
    assert_eq!(nodes[0].0, "b2");
    assert!(matches!(nodes[0].1, BlockType::ShowSprite(_)));
    assert_eq!(nodes[1].0, "a1");
    assert!(matches!(nodes[1].1, BlockType::Forever(_)));
    assert_eq!(nodes[2].0, "c3");
    assert!(matches!(nodes[2].1, BlockType::InvalidOpcode(_)));
    assert_eq!(BlockType::decode_all(&vec![], Mode::Development), Ok(vec![]));
}

#[test]
fn decode_all_fails_with_the_first_failure() {
    let records = vec![
        ("a".to_string(), record("looks_show", vec![], vec![])),
        ("b".to_string(), record("future_block", vec![], vec![])),
        ("c".to_string(), object(vec![])),
    ];
    assert_eq!(
        BlockType::decode_all(&records, Mode::Development),
        Err(DecodeError::UnrecognizedOpcode)
    );
    assert_eq!(BlockType::decode_all(&records, Mode::Production), Err(DecodeError::MissingOpcode));
}

#[test]
fn palettes_decline_the_opcodes_of_other_palettes() {
    let mode = Mode::Production;
    let say = bare("looks_say");
    assert!(BlockType::decode_motion(&say, mode).is_none());
    assert!(BlockType::decode_looks(&say, mode).is_some());
    assert!(BlockType::decode_sound(&say, mode).is_none());
    assert!(BlockType::decode_event(&say, mode).is_none());
    assert!(BlockType::decode_control(&say, mode).is_none());
    assert!(BlockType::decode_sensing(&say, mode).is_none());
    assert!(BlockType::decode_operator(&say, mode).is_none());
    assert!(BlockType::decode_data(&say, mode).is_none());
    assert!(BlockType::decode_procedures(&say, mode).is_none());
    assert!(BlockType::decode_motion(&bare("motion_sety"), mode).is_some());
    assert!(BlockType::decode_sound(&bare("sound_play"), mode).is_some());
    assert!(BlockType::decode_event(&bare("event_broadcast"), mode).is_some());
    assert!(BlockType::decode_control(&bare("control_stop"), mode).is_some());
    assert!(BlockType::decode_sensing(&bare("sensing_timer"), mode).is_some());
    assert!(BlockType::decode_operator(&bare("operator_not"), mode).is_some());
    assert!(BlockType::decode_data(&bare("data_variable"), mode).is_some());
    assert!(BlockType::decode_procedures(&bare("procedures_call"), mode).is_some());
    for declined in ["motion_goto", "sensing_of", "nonsense"] {
        assert!(BlockType::decode_motion(&bare(declined), mode).is_none());
        assert!(BlockType::decode_sensing(&bare(declined), mode).is_none());
    }
}

#[test]
fn node_types_answer_for_their_own_links() {
    let step = Move { steps: None, prev: prev(), next: None };
    assert_eq!(step.prev(), prev());
    assert_eq!(step.next(), None);
    let glide = Glide::Pos(GlidePos { x: None, y: None, prev: None, next: next() });
    assert_eq!(glide.prev(), None);
    assert_eq!(glide.next(), next());
    let point = Point::Towards(PointOption { option: None, prev: prev(), next: next() });
    assert_eq!(point.prev(), prev());
    assert_eq!(point.next(), next());
    let costume = Costume::ByName(CostumeByName { prev: prev(), next: next() });
    assert_eq!(costume.prev(), prev());
    assert_eq!(costume.next(), next());
    let picked = Backdrop::WithName(BackdropWithName {
        name: Some(Value::String("woods".to_string())),
        prev: None,
        next: next(),
    });
    assert_eq!(picked.prev(), None);
    assert_eq!(picked.next(), next());
    assert_eq!(links_of(&picked), (None, next()));
    assert_eq!(links_of(&step), (prev(), None));
    assert_eq!(links_of(&BlockType::Stray), (None, None));
    let option = BlockType::DraggableOption(DraggableOption::Draggable);
    assert_eq!(option.prev(), None);
    assert_eq!(option.next(), None);
}
