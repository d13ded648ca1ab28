use scratch_blocks::blocks::{BlockType, Mutation, MutationVisitor, ProceduresPrototype};
use scratch_blocks::error::{DecodeError, Mode};
use scratch_blocks::json::{Json, Number};

fn text(s: &str) -> Json {
    Json::String(s.to_string())
}

fn object(entries: Vec<(&str, Json)>) -> Json {
    Json::Object(entries.into_iter().map(|(k, v)| (k.to_string(), v)).collect())
}

fn full_payload() -> Json {
    object(vec![
        ("tagName", text("mutation")),
        ("proccode", text("perlin %n %n")),
        ("argumentnames", text("[\"x\",\"y\"]")),
        ("argumentids", text("[\"input0\",\"input1\"]")),
        ("argumentdefaults", text("[1,1]")),
        ("warp", Json::Bool(true)),
        ("children", Json::Array(vec![])),
    ])
}

fn full_mutation() -> Mutation {
    Mutation {
        tag_name: Some(text("mutation")),
        proccode: Some(text("perlin %n %n")),
        argument_names: Some(text("[\"x\",\"y\"]")),
        argument_ids: Some(text("[\"input0\",\"input1\"]")),
        argument_defaults: Some(text("[1,1]")),
        warp: true,
        children: Some(Json::Array(vec![])),
    }
}

#[test]
fn mutation_keeps_every_entry_as_it_came() {
    assert_eq!(MutationVisitor::visit_map(&full_payload()), Ok(full_mutation()));
}

#[test]
fn mutation_needs_only_its_warp_flag() {
    let payload = object(vec![("warp", Json::Bool(false))]);
    assert_eq!(
        MutationVisitor::visit_map(&payload),
        Ok(Mutation {
            tag_name: None,
            proccode: None,
            argument_names: None,
            argument_ids: None,
            argument_defaults: None,
            warp: false,
            children: None,
        })
    );
}

#[test]
fn mutation_ignores_other_entries_and_their_order() {
    let payload = object(vec![
        ("children", Json::Null),
        ("hasnext", text("true")),
        ("warp", Json::Bool(true)),
        ("proccode", Json::Number(Number::Unsigned(4))),
    ]);
    let mutation = MutationVisitor::visit_map(&payload).unwrap();
    assert_eq!(mutation.children, Some(Json::Null));
    assert_eq!(mutation.proccode, Some(Json::Number(Number::Unsigned(4))));
    assert_eq!(mutation.tag_name, None);
    assert!(mutation.warp);
}

#[test]
fn mutation_without_a_boolean_warp_is_rejected() {
    let missing = object(vec![("tagName", text("mutation"))]);
    assert_eq!(MutationVisitor::visit_map(&missing), Err(DecodeError::MissingWarpFlag));
    for warp in [text("true"), Json::Null, Json::Number(Number::Unsigned(1)), Json::Array(vec![])] {
        let payload = object(vec![("warp", warp)]);
        assert_eq!(MutationVisitor::visit_map(&payload), Err(DecodeError::MissingWarpFlag));
    }
    assert_eq!(MutationVisitor::visit_map(&object(vec![])), Err(DecodeError::MissingWarpFlag));
}

#[test]
fn mutation_that_is_not_a_mapping_is_rejected() {
    let sequence = Json::Array(vec![Json::Bool(true)]);
    for payload in [Json::Null, Json::Bool(true), text("warp"), sequence] {
        assert_eq!(MutationVisitor::visit_map(&payload), Err(DecodeError::MissingWarpFlag));
    }
}

#[test]
fn last_warp_entry_wins() {
    let payload = object(vec![("warp", Json::Bool(true)), ("warp", Json::Bool(false))]);
    assert_eq!(MutationVisitor::visit_map(&payload).map(|m| m.warp), Ok(false));
    let payload = object(vec![("warp", Json::Bool(true)), ("warp", text("false"))]);
    assert_eq!(MutationVisitor::visit_map(&payload), Err(DecodeError::MissingWarpFlag));
}

#[test]
fn prototype_record_embeds_its_mutation() {
    let record = object(vec![
        ("opcode", text("procedures_prototype")),
        ("next", Json::Null),
        ("parent", text("def")),
        ("inputs", object(vec![])),
        ("fields", object(vec![])),
        ("mutation", full_payload()),
    ]);
    for mode in [Mode::Development, Mode::Production] {
        assert_eq!(
            BlockType::from_json(&record, mode),
            Ok(BlockType::ProceduresPrototype(ProceduresPrototype {
                mutation: full_mutation(),
                prev: Some("def".to_string()),
                next: None,
            }))
        );
    }
}

#[test]
fn prototype_record_without_a_mutation_is_rejected() {
    let record = object(vec![
        ("opcode", text("procedures_prototype")),
        ("inputs", object(vec![])),
        ("fields", object(vec![])),
    ]);
    for mode in [Mode::Development, Mode::Production] {
        assert_eq!(BlockType::from_json(&record, mode), Err(DecodeError::MissingWarpFlag));
    }
    let record = object(vec![
        ("opcode", text("procedures_prototype")),
        ("inputs", object(vec![])),
        ("fields", object(vec![])),
        ("mutation", text("{\"warp\":true}")),
    ]);
    for mode in [Mode::Development, Mode::Production] {
        assert_eq!(BlockType::from_json(&record, mode), Err(DecodeError::MissingWarpFlag));
    }
}
