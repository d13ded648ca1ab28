use scratch_blocks::error::DecodeError;
use scratch_blocks::json::{find, Json, Number};
use scratch_blocks::raw::{number_items, read_link, resolve_slots, value_at, value_named, RawBlock};
use scratch_blocks::value::Value;

fn text(s: &str) -> Json {
    Json::String(s.to_string())
}

fn unsigned(n: u64) -> Json {
    Json::Number(Number::Unsigned(n))
}

fn object(entries: Vec<(&str, Json)>) -> Json {
    Json::Object(entries.into_iter().map(|(k, v)| (k.to_string(), v)).collect())
}

fn entries(list: Vec<(&str, Json)>) -> Vec<(String, Json)> {
    list.into_iter().map(|(k, v)| (k.to_string(), v)).collect()
}

fn slot(key: &str, value: Value) -> (String, Value) {
    (key.to_string(), value)
}

fn input(value: Json) -> Json {
    Json::Array(vec![unsigned(1), value])
}

fn field(value: Json) -> Json {
    Json::Array(vec![value, Json::Null])
}

#[test]
fn extract_reads_every_part_of_a_record() {
    let record = object(vec![
        ("opcode", text("data_setvariableto")),
        ("next", text("n")),
        ("parent", text("p")),
        ("inputs", object(vec![("VALUE", input(Json::Array(vec![unsigned(10), text("7")])))])),
        ("fields", object(vec![("VARIABLE", Json::Array(vec![text("score"), text("id1")]))])),
        ("params", object(vec![("X", field(text("px")))])),
        ("mutation", object(vec![("warp", Json::Bool(true))])),
        ("shadow", Json::Bool(false)),
        ("topLevel", Json::Bool(false)),
    ]);
    let raw = RawBlock::extract(&record).unwrap();
    assert_eq!(raw.opcode, "data_setvariableto");
    assert_eq!(raw.next, Some("n".to_string()));
    assert_eq!(raw.parent, Some("p".to_string()));
    assert_eq!(raw.inputs, vec![slot("VALUE", Value::Number(Number::Unsigned(7)))]);
    assert_eq!(raw.fields, vec![slot("VARIABLE", Value::String("score".to_string()))]);
    assert_eq!(raw.params, vec![slot("X", Value::String("px".to_string()))]);
    assert_eq!(raw.mutation, Some(object(vec![("warp", Json::Bool(true))])));
}

#[test]
fn record_without_opcode_is_rejected() {
    let record = object(vec![("inputs", object(vec![])), ("fields", object(vec![]))]);
    assert_eq!(RawBlock::extract(&record), Err(DecodeError::MissingOpcode));
    assert_eq!(RawBlock::extract(&object(vec![])), Err(DecodeError::MissingOpcode));
}

#[test]
fn scalar_record_has_no_opcode() {
    assert_eq!(RawBlock::extract(&Json::Null), Err(DecodeError::MissingOpcode));
    assert_eq!(RawBlock::extract(&text("opcode")), Err(DecodeError::MissingOpcode));
    assert_eq!(RawBlock::extract(&unsigned(3)), Err(DecodeError::MissingOpcode));
    assert_eq!(RawBlock::extract(&Json::Bool(true)), Err(DecodeError::MissingOpcode));
}

#[test]
fn record_in_sequence_form_has_no_opcode() {
    let record = Json::Array(vec![unsigned(12), text("my variable"), text("id"), unsigned(0)]);
    assert_eq!(RawBlock::extract(&record), Err(DecodeError::MissingOpcode));
    let named = Json::Array(vec![text("opcode"), text("motion_movesteps")]);
    assert_eq!(RawBlock::extract(&named), Err(DecodeError::MissingOpcode));
    assert_eq!(RawBlock::extract(&Json::Array(vec![])), Err(DecodeError::MissingOpcode));
}

#[test]
fn opcode_that_is_not_text_is_rejected() {
    for opcode in [unsigned(5), Json::Null, Json::Bool(true), Json::Array(vec![]), object(vec![])] {
        let record =
            object(vec![("opcode", opcode), ("inputs", object(vec![])), ("fields", object(vec![]))]);
        assert_eq!(RawBlock::extract(&record), Err(DecodeError::NotAString));
    }
}

#[test]
fn opcode_is_checked_before_the_collections() {
    let record = object(vec![("opcode", unsigned(1))]);
    assert_eq!(RawBlock::extract(&record), Err(DecodeError::NotAString));
    let record = object(vec![("inputs", unsigned(1))]);
    assert_eq!(RawBlock::extract(&record), Err(DecodeError::MissingOpcode));
}

#[test]
fn record_without_inputs_or_fields_is_rejected() {
    let no_inputs = object(vec![("opcode", text("looks_show")), ("fields", object(vec![]))]);
    assert_eq!(RawBlock::extract(&no_inputs), Err(DecodeError::MissingInputsOrFields));
    let no_fields = object(vec![("opcode", text("looks_show")), ("inputs", object(vec![]))]);
    assert_eq!(RawBlock::extract(&no_fields), Err(DecodeError::MissingInputsOrFields));
    let neither = object(vec![("opcode", text("looks_show"))]);
    assert_eq!(RawBlock::extract(&neither), Err(DecodeError::MissingInputsOrFields));
}

#[test]
fn collection_that_is_not_a_mapping_is_rejected() {
    for bad in [Json::Null, Json::Array(vec![]), text("x"), unsigned(1)] {
        let record = object(vec![
            ("opcode", text("looks_show")),
            ("inputs", bad.clone()),
            ("fields", object(vec![])),
        ]);
        assert_eq!(RawBlock::extract(&record), Err(DecodeError::MissingInputsOrFields));
        let record = object(vec![
            ("opcode", text("looks_show")),
            ("inputs", object(vec![])),
            ("fields", bad.clone()),
        ]);
        assert_eq!(RawBlock::extract(&record), Err(DecodeError::MissingInputsOrFields));
        let record = object(vec![
            ("opcode", text("looks_show")),
            ("inputs", object(vec![])),
            ("fields", object(vec![])),
            ("params", bad.clone()),
        ]);
        assert_eq!(RawBlock::extract(&record), Err(DecodeError::MissingInputsOrFields));
    }
}

#[test]
fn empty_collections_are_accepted_and_params_are_optional() {
    let record = object(vec![
        ("opcode", text("looks_show")),
        ("inputs", object(vec![])),
        ("fields", object(vec![])),
    ]);
    let raw = RawBlock::extract(&record).unwrap();
    assert_eq!(raw.opcode, "looks_show");
    assert!(raw.inputs.is_empty());
    assert!(raw.fields.is_empty());
    assert!(raw.params.is_empty());
    assert_eq!(raw.next, None);
    assert_eq!(raw.parent, None);
    assert_eq!(raw.mutation, None);
}

#[test]
fn inputs_resolve_at_offset_one_and_fields_at_offset_zero() {
    let cell = Json::Array(vec![text("first"), text("second")]);
    let record = object(vec![
        ("opcode", text("looks_show")),
        ("inputs", object(vec![("A", cell.clone())])),
        ("fields", object(vec![("A", cell.clone())])),
        ("params", object(vec![("A", cell.clone())])),
    ]);
    let raw = RawBlock::extract(&record).unwrap();
    assert_eq!(raw.inputs, vec![slot("A", Value::String("second".to_string()))]);
    assert_eq!(raw.fields, vec![slot("A", Value::String("first".to_string()))]);
    assert_eq!(raw.params, vec![slot("A", Value::String("first".to_string()))]);
}

#[test]
fn slots_that_resolve_to_nothing_are_dropped() {
    let record = object(vec![
        ("opcode", text("looks_show")),
        (
            "inputs",
            object(vec![
                ("A", input(Json::Null)),
                ("B", input(text("kept"))),
                ("C", input(text(""))),
                ("D", input(text("5"))),
            ]),
        ),
        ("fields", object(vec![("F", field(Json::Null))])),
    ]);
    let raw = RawBlock::extract(&record).unwrap();
    assert_eq!(
        raw.inputs,
        vec![
            slot("B", Value::String("kept".to_string())),
            slot("D", Value::Number(Number::Unsigned(5)))
        ]
    );
    assert!(raw.fields.is_empty());
    assert_eq!(raw.input(0), Some(Value::String("kept".to_string())));
    assert_eq!(raw.input(1), Some(Value::Number(Number::Unsigned(5))));
    assert_eq!(raw.input(2), None);
    assert_eq!(raw.field(0), None);
}

#[test]
fn malformed_cell_fails_the_record() {
    let record = object(vec![
        ("opcode", text("looks_show")),
        ("inputs", object(vec![("A", input(text("ok"))), ("B", Json::Array(vec![unsigned(1)]))])),
        ("fields", object(vec![])),
    ]);
    assert_eq!(RawBlock::extract(&record), Err(DecodeError::MalformedValue));
    let record = object(vec![
        ("opcode", text("looks_show")),
        ("inputs", object(vec![])),
        ("fields", object(vec![("F", field(object(vec![])))])),
    ]);
    assert_eq!(RawBlock::extract(&record), Err(DecodeError::MalformedValue));
    let record = object(vec![
        ("opcode", text("looks_show")),
        ("inputs", object(vec![])),
        ("fields", object(vec![("F", field(text("99999999999999999999999")))])),
    ]);
    assert_eq!(
        RawBlock::extract(&record).map(|raw| raw.fields),
        Ok(vec![slot("F", Value::Number(Number::Large("99999999999999999999999".to_string())))])
    );
    let record = object(vec![
        ("opcode", text("looks_show")),
        ("inputs", object(vec![])),
        ("fields", object(vec![])),
        ("params", object(vec![("P", Json::Bool(true))])),
    ]);
    assert_eq!(RawBlock::extract(&record), Err(DecodeError::MalformedValue));
}

#[test]
fn links_are_copied_without_stray_quotes() {
    let record = object(vec![
        ("opcode", text("looks_show")),
        ("inputs", object(vec![])),
        ("fields", object(vec![])),
        ("next", text("\"abc\"")),
        ("parent", text("x\"y")),
    ]);
    let raw = RawBlock::extract(&record).unwrap();
    assert_eq!(raw.next, Some("abc".to_string()));
    assert_eq!(raw.parent, Some("x\"y".to_string()));
    assert_eq!(raw.next(), Some("abc".to_string()));
    assert_eq!(raw.prev(), Some("x\"y".to_string()));
}

#[test]
fn links_that_are_not_text_are_absent() {
    for link in [Json::Null, unsigned(7), Json::Bool(true), Json::Array(vec![]), object(vec![])] {
        let record = object(vec![
            ("opcode", text("looks_show")),
            ("inputs", object(vec![])),
            ("fields", object(vec![])),
            ("next", link.clone()),
            ("parent", link.clone()),
        ]);
        let raw = RawBlock::extract(&record).unwrap();
        assert_eq!(raw.next, None);
        assert_eq!(raw.parent, None);
    }
    assert_eq!(read_link(None), None);
    assert_eq!(read_link(Some(&text("id"))), Some("id".to_string()));
}

#[test]
fn last_entry_of_a_repeated_key_wins() {
    let record = object(vec![
        ("opcode", text("looks_hide")),
        ("inputs", object(vec![])),
        ("fields", object(vec![])),
        ("opcode", text("looks_show")),
        ("next", text("a")),
        ("next", text("b")),
    ]);
    let raw = RawBlock::extract(&record).unwrap();
    assert_eq!(raw.opcode, "looks_show");
    assert_eq!(raw.next, Some("b".to_string()));
    let list = entries(vec![("k", unsigned(1)), ("j", unsigned(2)), ("k", unsigned(3))]);
    assert_eq!(find(&list, "k"), Some(&unsigned(3)));
    assert_eq!(find(&list, "j"), Some(&unsigned(2)));
    assert_eq!(find(&list, "i"), None);
    assert_eq!(find(&list, ""), None);
}

#[test]
fn number_items_uses_positions_from_one() {
    let items = vec![text("a"), Json::Null, unsigned(3)];
    let keyed = number_items(&items);
    assert_eq!(keyed, entries(vec![("1", text("a")), ("2", Json::Null), ("3", unsigned(3))]));
    let many: Vec<Json> = (0..12).map(|i| unsigned(i)).collect();
    let keyed = number_items(&many);
    assert_eq!(keyed[9].0, "10");
    assert_eq!(keyed[11].0, "12");
    assert_eq!(keyed[11].1, unsigned(11));
    assert!(number_items(&vec![]).is_empty());
}

#[test]
fn resolve_slots_keeps_order_and_stops_at_the_first_failure() {
    let cells = entries(vec![
        ("Z", input(text("1"))),
        ("A", input(text("two"))),
        ("M", input(Json::Null)),
    ]);
    assert_eq!(
        resolve_slots(&cells, 1),
        Ok(vec![
            slot("Z", Value::Number(Number::Unsigned(1))),
            slot("A", Value::String("two".to_string()))
        ])
    );
    let cells = entries(vec![("A", input(text("1"))), ("B", Json::Array(vec![]))]);
    assert_eq!(resolve_slots(&cells, 1), Err(DecodeError::MalformedValue));
    assert_eq!(resolve_slots(&entries(vec![]), 0), Ok(vec![]));
}

#[test]
fn slots_are_read_by_position_and_by_name() {
    let slots = vec![
        slot("A", Value::Number(Number::Unsigned(1))),
        slot("B", Value::String("b".to_string())),
        slot("A", Value::Number(Number::Unsigned(3))),
    ];
    assert_eq!(value_at(&slots, 0), Some(Value::Number(Number::Unsigned(1))));
    assert_eq!(value_at(&slots, 2), Some(Value::Number(Number::Unsigned(3))));
    assert_eq!(value_at(&slots, 3), None);
    assert_eq!(value_named(&slots, "A"), Value::Number(Number::Unsigned(3)));
    assert_eq!(value_named(&slots, "B"), Value::String("b".to_string()));
    assert_eq!(value_named(&slots, "C"), Value::Null);
}

#[test]
fn raw_record_reads_named_slots() {
    let record = object(vec![
        ("opcode", text("data_setvariableto")),
        ("inputs", object(vec![("VALUE", input(text("v")))])),
        ("fields", object(vec![("VARIABLE", field(text("f")))])),
        ("params", object(vec![("VARIABLE", field(text("p")))])),
    ]);
    let raw = RawBlock::extract(&record).unwrap();
    assert_eq!(raw.input_named("VALUE"), Value::String("v".to_string()));
    assert_eq!(raw.field_named("VARIABLE"), Value::String("f".to_string()));
    assert_eq!(raw.param_named("VARIABLE"), Value::String("p".to_string()));
    assert_eq!(raw.input_named("VARIABLE"), Value::Null);
    assert_eq!(raw.field_named("VALUE"), Value::Null);
    assert_eq!(raw.param_named("X"), Value::Null);
}

#[test]
fn json_clone_is_deep_and_equal() {
    let value = object(vec![
        ("a", Json::Array(vec![unsigned(1), text("x"), object(vec![("b", Json::Null)])])),
        ("c", Json::Bool(true)),
        ("d", Json::Number(Number::Signed(-1))),
    ]);
    assert_eq!(value.clone(), value);
}
