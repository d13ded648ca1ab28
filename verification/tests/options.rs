use scratch_blocks::blocks::{
    CurrentTimeOption, DraggableOption, EventOption, Key, LayerDirection, LayerOption,
    MovementOption, RotationStyle, SensingOption, SoundEffect, SpriteOption, Value,
};
use scratch_blocks::error::{DecodeError, Mode};
use scratch_blocks::json::Number;

fn tag(s: &str) -> Option<Value> {
    Some(Value::String(s.to_string()))
}

fn number(n: u64) -> Option<Value> {
    Some(Value::Number(Number::Unsigned(n)))
}

#[test]
fn unmatched_tag_is_an_error_in_development_only() {
    assert_eq!(Mode::Development.on_unmatched::<Key>(), Err(DecodeError::InvalidOption));
    assert_eq!(Mode::Production.on_unmatched::<Key>(), Ok(None));
}

#[test]
fn movement_option_decodes_its_table() {
    for mode in [Mode::Development, Mode::Production] {
        assert_eq!(
            MovementOption::from(tag("_random_"), mode),
            Ok(Some(MovementOption::RandomPosition))
        );
        assert_eq!(
            MovementOption::from(tag("_mouse_"), mode),
            Ok(Some(MovementOption::MousePointer))
        );
        assert_eq!(MovementOption::from(None, mode), Ok(None));
    }
    assert_eq!(MovementOption::parse("_mouse_"), Some(MovementOption::MousePointer));
    assert_eq!(MovementOption::parse("_Mouse_"), None);
    assert_eq!(MovementOption::parse(""), None);
}

#[test]
fn movement_option_outside_its_table_follows_the_mode() {
    for bad in [tag("Sprite1"), tag("_RANDOM_"), number(1), Some(Value::Null)] {
        assert_eq!(
            MovementOption::from(bad.clone(), Mode::Development),
            Err(DecodeError::InvalidOption)
        );
        assert_eq!(MovementOption::from(bad, Mode::Production), Ok(None));
    }
}

#[test]
fn rotation_style_decodes_its_table() {
    let mode = Mode::Development;
    assert_eq!(RotationStyle::from(tag("left-right"), mode), Ok(Some(RotationStyle::LeftRight)));
    assert_eq!(RotationStyle::from(tag("don't rotate"), mode), Ok(Some(RotationStyle::DontRotate)));
    assert_eq!(RotationStyle::from(tag("all around"), mode), Ok(Some(RotationStyle::AllAround)));
    assert_eq!(RotationStyle::from(tag("upside down"), mode), Err(DecodeError::InvalidOption));
    assert_eq!(RotationStyle::from(tag("upside down"), Mode::Production), Ok(None));
}

#[test]
fn layer_option_decodes_its_table() {
    let mode = Mode::Development;
    assert_eq!(LayerOption::from(tag("front"), mode), Ok(Some(LayerOption::Front)));
    assert_eq!(LayerOption::from(tag("back"), mode), Ok(Some(LayerOption::Back)));
    assert_eq!(LayerOption::from(tag("middle"), mode), Err(DecodeError::InvalidOption));
    assert_eq!(LayerOption::from(tag("middle"), Mode::Production), Ok(None));
    assert_eq!(LayerOption::from(None, mode), Ok(None));
}

#[test]
fn layer_direction_decodes_its_table() {
    let mode = Mode::Development;
    assert_eq!(LayerDirection::from(tag("forward"), mode), Ok(Some(LayerDirection::Forward)));
    assert_eq!(LayerDirection::from(tag("backward"), mode), Ok(Some(LayerDirection::Backward)));
    assert_eq!(LayerDirection::from(tag("sideways"), mode), Err(DecodeError::InvalidOption));
    assert_eq!(LayerDirection::from(tag("sideways"), Mode::Production), Ok(None));
    assert_eq!(LayerDirection::from(number(2), mode), Err(DecodeError::InvalidOption));
    assert_eq!(LayerDirection::from(None, mode), Ok(None));
    assert_eq!(LayerDirection::parse("forward"), Some(LayerDirection::Forward));
    assert_eq!(LayerDirection::parse("forwards"), None);
}

#[test]
fn event_option_decodes_its_table() {
    let mode = Mode::Development;
    assert_eq!(EventOption::from(tag("loudness"), mode), Ok(Some(EventOption::Loudness)));
    assert_eq!(EventOption::from(tag("timer"), mode), Ok(Some(EventOption::Timer)));
    assert_eq!(EventOption::from(tag("TIMER"), mode), Err(DecodeError::InvalidOption));
    assert_eq!(EventOption::from(tag("TIMER"), Mode::Production), Ok(None));
}

#[test]
fn draggable_option_decodes_its_table() {
    let mode = Mode::Development;
    assert_eq!(DraggableOption::from(tag("draggable"), mode), Ok(Some(DraggableOption::Draggable)));
    assert_eq!(
        DraggableOption::from(tag("not draggable"), mode),
        Ok(Some(DraggableOption::NotDraggable))
    );
    assert_eq!(DraggableOption::from(tag("sticky"), mode), Err(DecodeError::InvalidOption));
    assert_eq!(DraggableOption::from(tag("sticky"), Mode::Production), Ok(None));
}

#[test]
fn current_time_option_decodes_its_table() {
    let mode = Mode::Production;
    assert_eq!(CurrentTimeOption::from(tag("year"), mode), Ok(Some(CurrentTimeOption::Year)));
    assert_eq!(CurrentTimeOption::from(tag("month"), mode), Ok(Some(CurrentTimeOption::Month)));
    assert_eq!(CurrentTimeOption::from(tag("date"), mode), Ok(Some(CurrentTimeOption::Date)));
    assert_eq!(
        CurrentTimeOption::from(tag("day of week"), mode),
        Ok(Some(CurrentTimeOption::DayOfWeek))
    );
    assert_eq!(CurrentTimeOption::from(tag("hour"), mode), Ok(Some(CurrentTimeOption::Hour)));
    assert_eq!(CurrentTimeOption::from(tag("minute"), mode), Ok(Some(CurrentTimeOption::Minute)));
    assert_eq!(CurrentTimeOption::from(tag("second"), mode), Ok(Some(CurrentTimeOption::Second)));
    assert_eq!(CurrentTimeOption::from(tag("century"), mode), Ok(None));
    assert_eq!(
        CurrentTimeOption::from(tag("century"), Mode::Development),
        Err(DecodeError::InvalidOption)
    );
}

#[test]
fn sound_effect_decodes_its_table() {
    let mode = Mode::Development;
    assert_eq!(SoundEffect::from(tag("PITCH"), mode), Ok(Some(SoundEffect::Pitch)));
    assert_eq!(SoundEffect::from(tag("PAN"), mode), Ok(Some(SoundEffect::Pan)));
    assert_eq!(SoundEffect::from(tag("pitch"), mode), Err(DecodeError::InvalidOption));
    assert_eq!(SoundEffect::from(tag("pitch"), Mode::Production), Ok(None));
}

#[test]
fn key_decodes_named_keys_and_characters() {
    for mode in [Mode::Development, Mode::Production] {
        assert_eq!(Key::from(tag("up arrow"), mode), Ok(Some(Key::UpArrow)));
        assert_eq!(Key::from(tag("down arrow"), mode), Ok(Some(Key::DownArrow)));
        assert_eq!(Key::from(tag("right arrow"), mode), Ok(Some(Key::RightArrow)));
        assert_eq!(Key::from(tag("left arrow"), mode), Ok(Some(Key::LeftArrow)));
        assert_eq!(Key::from(tag("space"), mode), Ok(Some(Key::Space)));
        assert_eq!(Key::from(tag("any"), mode), Ok(Some(Key::Any)));
        assert_eq!(Key::from(tag("a"), mode), Ok(Some(Key::Alphanumerical('a'))));
        assert_eq!(Key::from(tag("zebra"), mode), Ok(Some(Key::Alphanumerical('z'))));
        assert_eq!(Key::from(tag("é"), mode), Ok(Some(Key::Alphanumerical('é'))));
        assert_eq!(Key::from(None, mode), Ok(None));
    }
}

#[test]
fn key_that_is_not_a_tag_follows_the_mode() {
    for bad in [number(1), Some(Value::Null), tag("")] {
        assert_eq!(Key::from(bad.clone(), Mode::Development), Err(DecodeError::InvalidOption));
        assert_eq!(Key::from(bad, Mode::Production), Ok(None));
    }
    assert_eq!(Key::parse(""), None);
    assert_eq!(Key::parse("space"), Some(Key::Space));
    assert_eq!(Key::parse("spac"), Some(Key::Alphanumerical('s')));
}

#[test]
fn sprite_option_decodes_any_text() {
    for mode in [Mode::Development, Mode::Production] {
        assert_eq!(SpriteOption::from(tag("_myself_"), mode), Ok(Some(SpriteOption::Myself)));
        assert_eq!(
            SpriteOption::from(tag("Sprite1"), mode),
            Ok(Some(SpriteOption::Sprite("Sprite1".to_string())))
        );
    }
}

#[test]
fn sprite_option_without_a_text_follows_the_mode() {
    for bad in [None, number(3), Some(Value::Null)] {
        assert_eq!(
            SpriteOption::from(bad.clone(), Mode::Development),
            Err(DecodeError::InvalidOption)
        );
        assert_eq!(SpriteOption::from(bad, Mode::Production), Ok(None));
    }
}

#[test]
fn sensing_option_decodes_any_text_and_nothing_else() {
    assert_eq!(SensingOption::from(tag("_mouse_")), Some(SensingOption::MousePointer));
    assert_eq!(SensingOption::from(tag("_edge_")), Some(SensingOption::Edge));
    assert_eq!(
        SensingOption::from(tag("Sprite1")),
        Some(SensingOption::Sprite(Value::String("Sprite1".to_string())))
    );
    assert_eq!(SensingOption::from(None), None);
    assert_eq!(SensingOption::from(number(1)), None);
    assert_eq!(SensingOption::from(Some(Value::Null)), None);
}
