use scratch_blocks::blocks::{
    links_of, Absolute, Add, And, Answer, Backdrop, BackdropWithName, Block, BlockType, Broadcast,
    BroadcastAndWait, ChangeEffectBy, ChangeLayer, ChangeSize, ChangeVolumeBy, ChangeX, ChangeY,
    ClearGraphicEffects, ClearSoundEffects, ColorTouchingColor, Contains, Costume, CostumeWithName,
    CreateCloneOf, CurrentTime, CurrentTimeOption, DataAddToList, DataChangeVariableBy,
    DataDeleteAllOfList, DataDeleteOfList, DataGetVariable, DataHideVariable, DataInsertAtList,
    DataItemOfList, DataLengthOfList, DataListContainsItem, DataListContents, DataReplaceItemOfList,
    DataSetVariableTo, DataShowVariable, DaysSince2000, DeleteClone, Direction, DistanceTo, Divide,
    DraggableOption, EqualTo, EventOption, Forever, Glide, GlideOption, GlidePos, Goto, GotoLayer,
    GotoOption, GotoPos, GreaterThen, HideAllSprites, HideSprite, IfOnEdgeBounce, IfThen,
    IfThenElse, Join, Key, KeyPressed, LayerDirection, LayerOption, LengthOf, LesserThen, LetterOf,
    Loudness, Modulo, MouseDown, MouseX, MouseY, Move, MovementOption, Mul, NextBackdrop,
    NextCostume, Not, Or, PickRandom, PlaySound, PlaySoundUntilDone, Point, PointDirection,
    PointOption, ProceduresCall, ProceduresDeclaration, Repeat, RepeatUntil, ResetTimer, RotateLeft,
    RotateRight, RotationStyle, Round, Say, SayForever, SensingOption, SetDragMode, SetEffectTo,
    SetRotationStyle, SetSize, SetVolumeTo, SetX, SetY, ShowSprite, Size, SoundEffect,
    SoundEffectsMenu, SoundSoundsMenu, SpriteOption, StopAll, StopAllSounds, Sub, SwitchBackdrop,
    SwitchBackdropAndWait, SwitchCostume, Think, ThinkForever, Timer, Touching, TouchingColor,
    TouchingMenu, Username, Value, Volume, WaitSeconds, WaitUntil, WhenBackdropSwitchesTo,
    WhenGreenFlagClicked, WhenIRecieveBroadcast, WhenKeyPressed, WhenOptionGreaterThen,
    WhenSpriteClicked, WhenStageClicked, XPosition, YPosition,
};
use scratch_blocks::error::Mode;
use scratch_blocks::json::{Json, Number};

fn text(s: &str) -> Json {
    Json::String(s.to_string())
}

fn text_value(s: &str) -> Value {
    Value::String(s.to_string())
}

fn prev() -> Option<String> {
    Some("before".to_string())
}

fn next() -> Option<String> {
    Some("after".to_string())
}

/// A record with the given opcode whose inputs, fields and parameters hold
/// the given texts, each wrapped as the format wraps it.
fn record(
    opcode: &str,
    inputs: Vec<(&str, &str)>,
    fields: Vec<(&str, &str)>,
    params: Vec<(&str, &str)>,
) -> Json {
    let one = Json::Number(Number::Unsigned(1));
    let ten = Json::Number(Number::Unsigned(10));
    let inputs = inputs
        .into_iter()
        .map(|(k, v)| {
            let literal = Json::Array(vec![ten.clone(), text(v)]);
            (k.to_string(), Json::Array(vec![one.clone(), literal]))
        })
        .collect();
    let fields = fields
        .into_iter()
        .map(|(k, v)| (k.to_string(), Json::Array(vec![text(v), Json::Null])))
        .collect();
    let params = params
        .into_iter()
        .map(|(k, v)| (k.to_string(), Json::Array(vec![text(v), Json::Null])))
        .collect();
    Json::Object(vec![
        ("opcode".to_string(), text(opcode)),
        ("next".to_string(), text("after")),
        ("parent".to_string(), text("before")),
        ("inputs".to_string(), Json::Object(inputs)),
        ("fields".to_string(), Json::Object(fields)),
        ("params".to_string(), Json::Object(params)),
    ])
}

fn decodes_to(record: Json, expected: BlockType) {
    for mode in [Mode::Development, Mode::Production] {
        assert_eq!(BlockType::from_json(&record, mode), Ok(expected.clone()));
    }
}

#[test]
fn motion_opcodes_decode_to_their_nodes() {
    decodes_to(
        record("motion_movesteps", vec![("I0", "in0")], vec![], vec![]),
        BlockType::Move(Move { steps: Some(text_value("in0")), prev: prev(), next: next() }),
    );
    decodes_to(
        record("motion_gotoxy", vec![("I0", "in0"), ("I1", "in1")], vec![], vec![]),
        BlockType::Goto(
            Goto::Pos(
                GotoPos {
                    x: Some(text_value("in0")),
                    y: Some(text_value("in1")),
                    prev: prev(),
                    next: next(),
                },
            ),
        ),
    );
    decodes_to(
        record("motion_goto_menu", vec![("I0", "_random_")], vec![], vec![]),
        BlockType::Goto(
            Goto::Option(
                GotoOption {
                    option: Some(MovementOption::RandomPosition),
                    prev: prev(),
                    next: next(),
                },
            ),
        ),
    );
    decodes_to(
        record("motion_turnleft", vec![("I0", "in0")], vec![], vec![]),
        BlockType::RotateLeft(
            RotateLeft { degrees: Some(text_value("in0")), prev: prev(), next: next() },
        ),
    );
    decodes_to(
        record("motion_turnright", vec![("I0", "in0")], vec![], vec![]),
        BlockType::RotateRight(
            RotateRight { degrees: Some(text_value("in0")), prev: prev(), next: next() },
        ),
    );
    decodes_to(
        record("motion_pointtowards_menu", vec![], vec![], vec![]),
        BlockType::Point(
            Point::Towards(
                PointOption { option: Some(text_value("_mouse_")), prev: prev(), next: next() },
            ),
        ),
    );
    decodes_to(
        record("motion_pointindirection", vec![("I0", "in0"), ("I1", "in1")], vec![], vec![]),
        BlockType::Point(
            Point::Direction(
                PointDirection {
                    x: Some(text_value("in0")),
                    y: Some(text_value("in1")),
                    prev: prev(),
                    next: next(),
                },
            ),
        ),
    );
    decodes_to(
        record("motion_pointtowards", vec![("I0", "in0")], vec![], vec![]),
        BlockType::Point(
            Point::Towards(
                PointOption { option: Some(text_value("in0")), prev: prev(), next: next() },
            ),
        ),
    );
    decodes_to(
        record("motion_glidesecstoxy", vec![("I0", "in0"), ("I1", "in1")], vec![], vec![]),
        BlockType::Glide(
            Glide::Pos(
                GlidePos {
                    x: Some(text_value("in0")),
                    y: Some(text_value("in1")),
                    prev: prev(),
                    next: next(),
                },
            ),
        ),
    );
    decodes_to(
        record("motion_glideto_menu", vec![], vec![("F0", "_random_")], vec![]),
        BlockType::Glide(
            Glide::Option(
                GlideOption {
                    option: Some(MovementOption::RandomPosition),
                    prev: prev(),
                    next: next(),
                },
            ),
        ),
    );
    decodes_to(
        record("motion_ifonedgebounce", vec![], vec![], vec![]),
        BlockType::IfOnEdgeBounce(IfOnEdgeBounce { prev: prev(), next: next() }),
    );
    decodes_to(
        record("motion_setrotationstyle", vec![("I0", "left-right")], vec![], vec![]),
        BlockType::SetRotationStyle(
            SetRotationStyle { style: Some(RotationStyle::LeftRight), prev: prev(), next: next() },
        ),
    );
    decodes_to(
        record("motion_changexby", vec![("I0", "in0")], vec![], vec![]),
        BlockType::ChangeX(ChangeX { x: Some(text_value("in0")), prev: prev(), next: next() }),
    );
    decodes_to(
        record("motion_setx", vec![("I0", "in0")], vec![], vec![]),
        BlockType::SetX(SetX { x: Some(text_value("in0")), prev: prev(), next: next() }),
    );
    decodes_to(
        record("motion_changeyby", vec![("I0", "in0")], vec![], vec![]),
        BlockType::ChangeY(ChangeY { y: Some(text_value("in0")), prev: prev(), next: next() }),
    );
    decodes_to(
        record("motion_sety", vec![("I0", "in0")], vec![], vec![]),
        BlockType::SetY(SetY { y: Some(text_value("in0")), prev: prev(), next: next() }),
    );
    decodes_to(
        record("motion_xposition", vec![], vec![], vec![]),
        BlockType::XPosition(XPosition { prev: prev(), next: next() }),
    );
    decodes_to(
        record("motion_yposition", vec![], vec![], vec![]),
        BlockType::YPosition(YPosition { prev: prev(), next: next() }),
    );
    decodes_to(
        record("motion_direction", vec![], vec![], vec![]),
        BlockType::Direction(Direction { prev: prev(), next: next() }),
    );
}

#[test]
fn looks_opcodes_decode_to_their_nodes() {
    decodes_to(
        record("looks_say", vec![("I0", "in0")], vec![], vec![]),
        BlockType::SayForever(
            SayForever { message: Some(text_value("in0")), prev: prev(), next: next() },
        ),
    );
    decodes_to(
        record("looks_sayforsecs", vec![("I0", "in0"), ("I1", "in1")], vec![], vec![]),
        BlockType::Say(
            Say {
                message: Some(text_value("in0")),
                secs: Some(text_value("in1")),
                prev: prev(),
                next: next(),
            },
        ),
    );
    decodes_to(
        record("looks_think", vec![("I0", "in0")], vec![], vec![]),
        BlockType::ThinkForever(
            ThinkForever { message: Some(text_value("in0")), prev: prev(), next: next() },
        ),
    );
    decodes_to(
        record("looks_thinkforsecs", vec![("I0", "in0"), ("I1", "in1")], vec![], vec![]),
        BlockType::Think(
            Think {
                message: Some(text_value("in0")),
                secs: Some(text_value("in1")),
                prev: prev(),
                next: next(),
            },
        ),
    );
    decodes_to(
        record("looks_show", vec![], vec![], vec![]),
        BlockType::ShowSprite(ShowSprite { prev: prev(), next: next() }),
    );
    decodes_to(
        record("looks_hide", vec![], vec![], vec![]),
        BlockType::HideSprite(HideSprite { prev: prev(), next: next() }),
    );
    decodes_to(
        record("looks_hideallsprites", vec![], vec![], vec![]),
        BlockType::HideAllSprites(HideAllSprites { prev: prev(), next: next() }),
    );
    decodes_to(
        record("looks_switchcostumeto", vec![("I0", "in0")], vec![], vec![]),
        BlockType::SwitchCostume(
            SwitchCostume { costume: Some(text_value("in0")), prev: prev(), next: next() },
        ),
    );
    decodes_to(
        record("looks_switchbackdropto", vec![("I0", "in0")], vec![], vec![]),
        BlockType::SwitchBackdrop(
            SwitchBackdrop { backdrop: Some(text_value("in0")), prev: prev(), next: next() },
        ),
    );
    decodes_to(
        record("looks_switchbackdroptoandwait", vec![("I0", "in0")], vec![], vec![]),
        BlockType::SwitchBackdropAndWait(
            SwitchBackdropAndWait { backdrop: Some(text_value("in0")), prev: prev(), next: next() },
        ),
    );
    decodes_to(
        record("looks_nextcostume", vec![], vec![], vec![]),
        BlockType::NextCostume(NextCostume { prev: prev(), next: next() }),
    );
    decodes_to(
        record("looks_nextbackdrop", vec![], vec![], vec![]),
        BlockType::NextBackdrop(NextBackdrop { prev: prev(), next: next() }),
    );
    decodes_to(
        record("looks_changeeffectby", vec![("I0", "in0"), ("I1", "in1")], vec![], vec![]),
        BlockType::ChangeEffectBy(
            ChangeEffectBy {
                effect: Some(text_value("in0")),
                units: Some(text_value("in1")),
                prev: prev(),
                next: next(),
            },
        ),
    );
    decodes_to(
        record("looks_seteffectto", vec![("I0", "in0"), ("I1", "in1")], vec![], vec![]),
        BlockType::SetEffectTo(
            SetEffectTo {
                effect: Some(text_value("in0")),
                percentage: Some(text_value("in1")),
                prev: prev(),
                next: next(),
            },
        ),
    );
    decodes_to(
        record("looks_cleargraphiceffects", vec![], vec![], vec![]),
        BlockType::ClearGraphicEffects(ClearGraphicEffects { prev: prev(), next: next() }),
    );
    decodes_to(
        record("looks_changesizeby", vec![("I0", "in0")], vec![], vec![]),
        BlockType::ChangeSize(
            ChangeSize { units: Some(text_value("in0")), prev: prev(), next: next() },
        ),
    );
    decodes_to(
        record("looks_setsizeto", vec![("I0", "in0")], vec![], vec![]),
        BlockType::SetSize(
            SetSize { percentage: Some(text_value("in0")), prev: prev(), next: next() },
        ),
    );
    decodes_to(
        record("looks_gotofrontback", vec![("I0", "front")], vec![], vec![]),
        BlockType::GotoLayer(
            GotoLayer { option: Some(LayerOption::Front), prev: prev(), next: next() },
        ),
    );
    decodes_to(
        record(
            "looks_goforwardbackwardlayers",
            vec![("I0", "forward"), ("I1", "in1")],
            vec![],
            vec![],
        ),
        BlockType::ChangeLayer(
            ChangeLayer {
                direction: Some(LayerDirection::Forward),
                by: Some(text_value("in1")),
                prev: prev(),
                next: next(),
            },
        ),
    );
    decodes_to(
        record("looks_size", vec![], vec![], vec![]),
        BlockType::Size(Size { prev: prev(), next: next() }),
    );
    decodes_to(
        record("looks_costume", vec![], vec![("F0", "fd0")], vec![]),
        BlockType::Costume(
            Costume::WithName(
                CostumeWithName { name: Some(text_value("fd0")), prev: prev(), next: next() },
            ),
        ),
    );
    decodes_to(
        record("looks_backdrops", vec![], vec![("F0", "fd0")], vec![]),
        BlockType::Backdrop(
            Backdrop::WithName(
                BackdropWithName { name: Some(text_value("fd0")), prev: prev(), next: next() },
            ),
        ),
    );
}

#[test]
fn sound_opcodes_decode_to_their_nodes() {
    decodes_to(
        record("sound_play", vec![("I0", "in0")], vec![], vec![]),
        BlockType::PlaySound(
            PlaySound { sound: Some(text_value("in0")), prev: prev(), next: next() },
        ),
    );
    decodes_to(
        record("sound_playuntildone", vec![("I0", "in0")], vec![], vec![]),
        BlockType::PlaySoundUntilDone(
            PlaySoundUntilDone { sound: Some(text_value("in0")), prev: prev(), next: next() },
        ),
    );
    decodes_to(
        record("sound_stopallsounds", vec![], vec![], vec![]),
        BlockType::StopAllSounds(StopAllSounds { prev: prev(), next: next() }),
    );
    decodes_to(
        record("sound_seteffectto", vec![("I0", "in0"), ("I1", "in1")], vec![], vec![]),
        BlockType::SetEffectTo(
            SetEffectTo {
                effect: Some(text_value("in0")),
                percentage: Some(text_value("in1")),
                prev: prev(),
                next: next(),
            },
        ),
    );
    decodes_to(
        record("sound_changeeffectby", vec![("I0", "in0"), ("I1", "in1")], vec![], vec![]),
        BlockType::ChangeEffectBy(
            ChangeEffectBy {
                effect: Some(text_value("in0")),
                units: Some(text_value("in1")),
                prev: prev(),
                next: next(),
            },
        ),
    );
    decodes_to(
        record("sound_cleareffects", vec![], vec![], vec![]),
        BlockType::ClearSoundEffects(ClearSoundEffects { prev: prev(), next: next() }),
    );
    decodes_to(
        record("sound_setvolumeto", vec![("I0", "in0")], vec![], vec![]),
        BlockType::SetVolumeTo(
            SetVolumeTo { percentage: Some(text_value("in0")), prev: prev(), next: next() },
        ),
    );
    decodes_to(
        record("sound_changevolumeby", vec![("I0", "in0")], vec![], vec![]),
        BlockType::ChangeVolumeBy(
            ChangeVolumeBy { units: Some(text_value("in0")), prev: prev(), next: next() },
        ),
    );
    decodes_to(
        record("sound_volume", vec![], vec![], vec![]),
        BlockType::Volume(Volume { prev: prev(), next: next() }),
    );
    decodes_to(
        record("sound_sounds_menu", vec![("I0", "in0")], vec![], vec![]),
        BlockType::SoundSoundsMenu(
            SoundSoundsMenu { option: Some(text_value("in0")), prev: prev(), next: next() },
        ),
    );
    decodes_to(
        record("sound_effects_menu", vec![("I0", "PITCH")], vec![], vec![]),
        BlockType::SoundEffectsMenu(
            SoundEffectsMenu { option: Some(SoundEffect::Pitch), prev: prev(), next: next() },
        ),
    );
}

#[test]
fn event_opcodes_decode_to_their_nodes() {
    decodes_to(
        record("event_broadcast", vec![("I0", "in0")], vec![], vec![]),
        BlockType::Broadcast(
            Broadcast { broadcast: Some(text_value("in0")), prev: prev(), next: next() },
        ),
    );
    decodes_to(
        record("event_broadcastandwait", vec![("I0", "in0")], vec![], vec![]),
        BlockType::BroadcastAndWait(
            BroadcastAndWait { broadcast: Some(text_value("in0")), prev: prev(), next: next() },
        ),
    );
    decodes_to(
        record("event_whengreaterthan", vec![("I0", "loudness"), ("I1", "in1")], vec![], vec![]),
        BlockType::WhenOptionGreaterThen(
            WhenOptionGreaterThen {
                option: Some(EventOption::Loudness),
                by: Some(text_value("in1")),
                prev: prev(),
                next: next(),
            },
        ),
    );
    decodes_to(
        record("event_whenflagclicked", vec![], vec![], vec![]),
        BlockType::WhenGreenFlagClicked(WhenGreenFlagClicked { prev: prev(), next: next() }),
    );
    decodes_to(
        record("event_whenkeypressed", vec![("I0", "space")], vec![], vec![]),
        BlockType::WhenKeyPressed(
            WhenKeyPressed { key: Some(Key::Space), prev: prev(), next: next() },
        ),
    );
    decodes_to(
        record("event_whenthisspriteclicked", vec![], vec![], vec![]),
        BlockType::WhenSpriteClicked(WhenSpriteClicked { prev: prev(), next: next() }),
    );
    decodes_to(
        record("event_whenstageclicked", vec![], vec![], vec![]),
        BlockType::WhenStageClicked(WhenStageClicked { prev: prev(), next: next() }),
    );
    decodes_to(
        record("event_whenbackdropswitchesto", vec![("I0", "in0")], vec![], vec![]),
        BlockType::WhenBackdropSwitchesTo(
            WhenBackdropSwitchesTo {
                backdrop: Some(text_value("in0")),
                prev: prev(),
                next: next(),
            },
        ),
    );
    decodes_to(
        record("event_whenbroadcastreceived", vec![], vec![("F0", "fd0")], vec![]),
        BlockType::WhenIRecieveBroadcast(
            WhenIRecieveBroadcast {
                broadcast: Some(text_value("fd0")),
                prev: prev(),
                next: next(),
            },
        ),
    );
}

#[test]
fn control_opcodes_decode_to_their_nodes() {
    decodes_to(
        record("control_repeat", vec![("I0", "in0")], vec![], vec![]),
        BlockType::Repeat(Repeat { units: Some(text_value("in0")), prev: prev(), next: next() }),
    );
    decodes_to(
        record("control_repeat_until", vec![("I0", "in0")], vec![], vec![]),
        BlockType::RepeatUntil(
            RepeatUntil { condition: Some(text_value("in0")), prev: prev(), next: next() },
        ),
    );
    decodes_to(
        record("control_while", vec![("I0", "in0")], vec![], vec![]),
        BlockType::RepeatUntil(
            RepeatUntil { condition: Some(text_value("in0")), prev: prev(), next: next() },
        ),
    );
    decodes_to(
        record("control_forever", vec![], vec![], vec![]),
        BlockType::Forever(Forever { prev: prev(), next: next() }),
    );
    decodes_to(
        record("control_wait", vec![("I0", "in0")], vec![], vec![]),
        BlockType::WaitSeconds(
            WaitSeconds { seconds: Some(text_value("in0")), prev: prev(), next: next() },
        ),
    );
    decodes_to(
        record("control_wait_until", vec![("I0", "in0")], vec![], vec![]),
        BlockType::WaitUntil(
            WaitUntil { condition: Some(text_value("in0")), prev: prev(), next: next() },
        ),
    );
    decodes_to(
        record("control_if", vec![("I0", "in0"), ("I1", "in1")], vec![], vec![]),
        BlockType::IfThen(
            IfThen {
                condition: Some(text_value("in0")),
                then_branch: Some(text_value("in1")),
                prev: prev(),
                next: next(),
            },
        ),
    );
    decodes_to(
        record(
            "control_if_else",
            vec![("I0", "in0"), ("I1", "in1"), ("I2", "in2")],
            vec![],
            vec![],
        ),
        BlockType::IfThenElse(
            IfThenElse {
                condition: Some(text_value("in0")),
                then_branch: Some(text_value("in1")),
                otherwise: Some(text_value("in2")),
                prev: prev(),
                next: next(),
            },
        ),
    );
    decodes_to(
        record("control_stop", vec![], vec![], vec![]),
        BlockType::StopAll(StopAll { prev: prev(), next: next() }),
    );
    decodes_to(
        record("control_create_clone_of", vec![("I0", "_myself_")], vec![], vec![]),
        BlockType::CreateCloneOf(
            CreateCloneOf { of: Some(SpriteOption::Myself), prev: prev(), next: next() },
        ),
    );
    decodes_to(
        record("control_delete_this_clone", vec![], vec![], vec![]),
        BlockType::DeleteClone(DeleteClone { prev: prev(), next: next() }),
    );
}

#[test]
fn sensing_opcodes_decode_to_their_nodes() {
    decodes_to(
        record("sensing_touchingobjectmenu", vec![], vec![("F0", "Sprite1")], vec![]),
        BlockType::TouchingMenu(
            TouchingMenu {
                touching: Some(SensingOption::Sprite(text_value("Sprite1"))),
                prev: prev(),
                next: next(),
            },
        ),
    );
    decodes_to(
        record("sensing_touchingobject", vec![("I0", "in0")], vec![], vec![]),
        BlockType::Touching(
            Touching { touching: Some(text_value("in0")), prev: prev(), next: next() },
        ),
    );
    decodes_to(
        record("sensing_touchingcolor", vec![("I0", "in0")], vec![], vec![]),
        BlockType::TouchingColor(
            TouchingColor { color: Some(text_value("in0")), prev: prev(), next: next() },
        ),
    );
    decodes_to(
        record("sensing_coloristouchingcolor", vec![("I0", "in0"), ("I1", "in1")], vec![], vec![]),
        BlockType::ColorTouchingColor(
            ColorTouchingColor {
                color1: Some(text_value("in0")),
                color2: Some(text_value("in1")),
                prev: prev(),
                next: next(),
            },
        ),
    );
    decodes_to(
        record("sensing_distanceto", vec![("I0", "Sprite1")], vec![], vec![]),
        BlockType::DistanceTo(
            DistanceTo {
                to: Some(SensingOption::Sprite(text_value("Sprite1"))),
                prev: prev(),
                next: next(),
            },
        ),
    );
    decodes_to(
        record("sensing_timer", vec![], vec![], vec![]),
        BlockType::Timer(Timer { prev: prev(), next: next() }),
    );
    decodes_to(
        record("sensing_resettimer", vec![], vec![], vec![]),
        BlockType::ResetTimer(ResetTimer { prev: prev(), next: next() }),
    );
    decodes_to(
        record("sensing_mousex", vec![], vec![], vec![]),
        BlockType::MouseX(MouseX { prev: prev(), next: next() }),
    );
    decodes_to(
        record("sensing_mousey", vec![], vec![], vec![]),
        BlockType::MouseY(MouseY { prev: prev(), next: next() }),
    );
    decodes_to(
        record("sensing_setdragmode", vec![("I0", "draggable")], vec![], vec![]),
        BlockType::SetDragMode(
            SetDragMode { option: Some(DraggableOption::Draggable), prev: prev(), next: next() },
        ),
    );
    decodes_to(
        record("sensing_mousedown", vec![], vec![], vec![]),
        BlockType::MouseDown(MouseDown { prev: prev(), next: next() }),
    );
    decodes_to(
        record("sensing_keypressed", vec![("I0", "space")], vec![], vec![]),
        BlockType::KeyPressed(KeyPressed { key: Some(Key::Space), prev: prev(), next: next() }),
    );
    decodes_to(
        record("sensing_current", vec![("I0", "year")], vec![], vec![]),
        BlockType::CurrentTime(
            CurrentTime { option: Some(CurrentTimeOption::Year), prev: prev(), next: next() },
        ),
    );
    decodes_to(
        record("sensing_dayssince2000", vec![], vec![], vec![]),
        BlockType::DaysSince2000(DaysSince2000 { prev: prev(), next: next() }),
    );
    decodes_to(
        record("sensing_loudness", vec![], vec![], vec![]),
        BlockType::Loudness(Loudness { prev: prev(), next: next() }),
    );
    decodes_to(
        record("sensing_answer", vec![], vec![], vec![]),
        BlockType::Answer(Answer { prev: prev(), next: next() }),
    );
    decodes_to(
        record("sensing_username", vec![], vec![], vec![]),
        BlockType::Username(Username { prev: prev(), next: next() }),
    );
}

#[test]
fn operator_opcodes_decode_to_their_nodes() {
    decodes_to(
        record("operator_add", vec![("I0", "in0"), ("I1", "in1")], vec![], vec![]),
        BlockType::Add(
            Add {
                a: Some(text_value("in0")),
                b: Some(text_value("in1")),
                prev: prev(),
                next: next(),
            },
        ),
    );
    decodes_to(
        record("operator_subtract", vec![("I0", "in0"), ("I1", "in1")], vec![], vec![]),
        BlockType::Sub(
            Sub {
                a: Some(text_value("in0")),
                b: Some(text_value("in1")),
                prev: prev(),
                next: next(),
            },
        ),
    );
    decodes_to(
        record("operator_multiply", vec![("I0", "in0"), ("I1", "in1")], vec![], vec![]),
        BlockType::Mul(
            Mul {
                a: Some(text_value("in0")),
                b: Some(text_value("in1")),
                prev: prev(),
                next: next(),
            },
        ),
    );
    decodes_to(
        record("operator_divide", vec![("I0", "in0"), ("I1", "in1")], vec![], vec![]),
        BlockType::Divide(
            Divide {
                a: Some(text_value("in0")),
                b: Some(text_value("in1")),
                prev: prev(),
                next: next(),
            },
        ),
    );
    decodes_to(
        record("operator_lt", vec![("I0", "in0"), ("I1", "in1")], vec![], vec![]),
        BlockType::LesserThen(
            LesserThen {
                a: Some(text_value("in0")),
                b: Some(text_value("in1")),
                prev: prev(),
                next: next(),
            },
        ),
    );
    decodes_to(
        record("operator_equals", vec![("I0", "in0"), ("I1", "in1")], vec![], vec![]),
        BlockType::EqualTo(
            EqualTo {
                a: Some(text_value("in0")),
                b: Some(text_value("in1")),
                prev: prev(),
                next: next(),
            },
        ),
    );
    decodes_to(
        record("operator_gt", vec![("I0", "in0"), ("I1", "in1")], vec![], vec![]),
        BlockType::GreaterThen(
            GreaterThen {
                a: Some(text_value("in0")),
                b: Some(text_value("in1")),
                prev: prev(),
                next: next(),
            },
        ),
    );
    decodes_to(
        record("operator_and", vec![("I0", "in0"), ("I1", "in1")], vec![], vec![]),
        BlockType::And(
            And {
                a: Some(text_value("in0")),
                b: Some(text_value("in1")),
                prev: prev(),
                next: next(),
            },
        ),
    );
    decodes_to(
        record("operator_or", vec![("I0", "in0"), ("I1", "in1")], vec![], vec![]),
        BlockType::Or(
            Or {
                a: Some(text_value("in0")),
                b: Some(text_value("in1")),
                prev: prev(),
                next: next(),
            },
        ),
    );
    decodes_to(
        record("operator_not", vec![("I0", "in0")], vec![], vec![]),
        BlockType::Not(Not { a: Some(text_value("in0")), prev: prev(), next: next() }),
    );
    decodes_to(
        record("operator_random", vec![("I0", "in0"), ("I1", "in1")], vec![], vec![]),
        BlockType::PickRandom(
            PickRandom {
                min: Some(text_value("in0")),
                max: Some(text_value("in1")),
                prev: prev(),
                next: next(),
            },
        ),
    );
    decodes_to(
        record("operator_join", vec![("I0", "in0"), ("I1", "in1")], vec![], vec![]),
        BlockType::Join(
            Join {
                a: Some(text_value("in0")),
                b: Some(text_value("in1")),
                prev: prev(),
                next: next(),
            },
        ),
    );
    decodes_to(
        record("operator_letter_of", vec![("I0", "in0"), ("I1", "in1")], vec![], vec![]),
        BlockType::LetterOf(
            LetterOf {
                index: Some(text_value("in0")),
                a: Some(text_value("in1")),
                prev: prev(),
                next: next(),
            },
        ),
    );
    decodes_to(
        record("operator_length", vec![("I0", "in0")], vec![], vec![]),
        BlockType::LengthOf(LengthOf { a: Some(text_value("in0")), prev: prev(), next: next() }),
    );
    decodes_to(
        record("operator_contains", vec![("I0", "in0"), ("I1", "in1")], vec![], vec![]),
        BlockType::Contains(
            Contains {
                a: Some(text_value("in0")),
                b: Some(text_value("in1")),
                prev: prev(),
                next: next(),
            },
        ),
    );
    decodes_to(
        record("operator_mod", vec![("I0", "in0"), ("I1", "in1")], vec![], vec![]),
        BlockType::Modulo(
            Modulo {
                a: Some(text_value("in0")),
                b: Some(text_value("in1")),
                prev: prev(),
                next: next(),
            },
        ),
    );
    decodes_to(
        record("operator_round", vec![("I0", "in0")], vec![], vec![]),
        BlockType::Round(Round { a: Some(text_value("in0")), prev: prev(), next: next() }),
    );
    decodes_to(
        record("operator_mathop", vec![("I0", "in0")], vec![], vec![]),
        BlockType::Absolute(Absolute { a: Some(text_value("in0")), prev: prev(), next: next() }),
    );
}

#[test]
fn data_opcodes_decode_to_their_nodes() {
    decodes_to(
        record("data_variable", vec![], vec![], vec![("VARIABLE", "param variable")]),
        BlockType::DataGetVariable(
            DataGetVariable { variable: text_value("param variable"), prev: prev(), next: next() },
        ),
    );
    decodes_to(
        record(
            "data_setvariableto",
            vec![("VALUE", "in value")],
            vec![("VARIABLE", "field variable")],
            vec![],
        ),
        BlockType::DataSetVariableTo(
            DataSetVariableTo {
                variable: text_value("field variable"),
                value: text_value("in value"),
                prev: prev(),
                next: next(),
            },
        ),
    );
    decodes_to(
        record(
            "data_changevariableby",
            vec![("VALUE", "in value")],
            vec![("VARIABLE", "field variable")],
            vec![],
        ),
        BlockType::DataChangeVariableBy(
            DataChangeVariableBy {
                variable: text_value("field variable"),
                value: text_value("in value"),
                prev: prev(),
                next: next(),
            },
        ),
    );
    decodes_to(
        record("data_hidevariable", vec![], vec![("VARIABLE", "field variable")], vec![]),
        BlockType::DataHideVariable(
            DataHideVariable { variable: text_value("field variable"), prev: prev(), next: next() },
        ),
    );
    decodes_to(
        record("data_showvariable", vec![], vec![("VARIABLE", "field variable")], vec![]),
        BlockType::DataShowVariable(
            DataShowVariable { variable: text_value("field variable"), prev: prev(), next: next() },
        ),
    );
    decodes_to(
        record("data_listcontents", vec![], vec![("VARIABLE", "field variable")], vec![]),
        BlockType::DataListContents(
            DataListContents { variable: text_value("field variable"), prev: prev(), next: next() },
        ),
    );
    decodes_to(
        record("data_addtolist", vec![("ITEM", "in item")], vec![("LIST", "field list")], vec![]),
        BlockType::DataAddToList(
            DataAddToList {
                item: text_value("in item"),
                list: text_value("field list"),
                prev: prev(),
                next: next(),
            },
        ),
    );
    decodes_to(
        record(
            "data_deleteoflist",
            vec![("INDEX", "in index")],
            vec![("LIST", "field list")],
            vec![],
        ),
        BlockType::DataDeleteOfList(
            DataDeleteOfList {
                item: text_value("in index"),
                list: text_value("field list"),
                prev: prev(),
                next: next(),
            },
        ),
    );
    decodes_to(
        record("data_deletealloflist", vec![], vec![("LIST", "field list")], vec![]),
        BlockType::DataDeleteAllOfList(
            DataDeleteAllOfList { list: text_value("field list"), prev: prev(), next: next() },
        ),
    );
    decodes_to(
        record(
            "data_insertatlist",
            vec![("ITEM", "in item"), ("INDEX", "in index")],
            vec![("LIST", "field list")],
            vec![],
        ),
        BlockType::DataInsertAtList(
            DataInsertAtList {
                item: text_value("in item"),
                index: text_value("in index"),
                list: text_value("field list"),
                prev: prev(),
                next: next(),
            },
        ),
    );
    decodes_to(
        record(
            "data_replaceitemoflist",
            vec![("ITEM", "in item"), ("INDEX", "in index")],
            vec![("LIST", "field list")],
            vec![],
        ),
        BlockType::DataReplaceItemOfList(
            DataReplaceItemOfList {
                item: text_value("in item"),
                index: text_value("in index"),
                list: text_value("field list"),
                prev: prev(),
                next: next(),
            },
        ),
    );
    decodes_to(
        record(
            "data_itemoflist",
            vec![("INDEX", "in index")],
            vec![("LIST", "field list")],
            vec![],
        ),
        BlockType::DataItemOfList(
            DataItemOfList {
                index: text_value("in index"),
                list: text_value("field list"),
                prev: prev(),
                next: next(),
            },
        ),
    );
    decodes_to(
        record("data_lengthoflist", vec![], vec![("LIST", "field list")], vec![]),
        BlockType::DataLengthOfList(
            DataLengthOfList { list: text_value("field list"), prev: prev(), next: next() },
        ),
    );
    decodes_to(
        record(
            "data_listcontainsitem",
            vec![("ITEM", "in item")],
            vec![("LIST", "field list")],
            vec![],
        ),
        BlockType::DataListContainsItem(
            DataListContainsItem {
                input: text_value("in item"),
                list: text_value("field list"),
                prev: prev(),
                next: next(),
            },
        ),
    );
}

#[test]
fn procedure_opcodes_decode_to_their_nodes() {
    decodes_to(
        record("procedures_call", vec![], vec![], vec![]),
        BlockType::ProceduresCall(ProceduresCall { prev: prev(), next: next() }),
    );
    decodes_to(
        record("procedures_declaration", vec![], vec![], vec![]),
        BlockType::ProceduresDeclaration(ProceduresDeclaration { prev: prev(), next: next() }),
    );
}

#[test]
fn every_opcode_copies_both_links() {
    let opcodes = [
        "motion_movesteps", "motion_gotoxy", "motion_goto_menu", "motion_turnleft",
        "motion_turnright", "motion_pointtowards_menu", "motion_pointindirection",
        "motion_pointtowards", "motion_glidesecstoxy", "motion_glideto_menu",
        "motion_ifonedgebounce", "motion_setrotationstyle", "motion_changexby", "motion_setx",
        "motion_changeyby", "motion_sety", "motion_xposition", "motion_yposition",
        "motion_direction", "looks_say", "looks_sayforsecs", "looks_think", "looks_thinkforsecs",
        "looks_show", "looks_hide", "looks_hideallsprites", "looks_switchcostumeto",
        "looks_switchbackdropto", "looks_switchbackdroptoandwait", "looks_nextcostume",
        "looks_nextbackdrop", "looks_changeeffectby", "looks_seteffectto",
        "looks_cleargraphiceffects", "looks_changesizeby", "looks_setsizeto", "looks_gotofrontback",
        "looks_goforwardbackwardlayers", "looks_size", "looks_costume", "looks_costumenumbername",
        "looks_backdrops", "looks_backdropnumbername", "sound_play", "sound_playuntildone",
        "sound_stopallsounds", "sound_seteffectto", "sound_changeeffectby", "sound_cleareffects",
        "sound_setvolumeto", "sound_changevolumeby", "sound_volume", "sound_sounds_menu",
        "sound_effects_menu", "event_broadcast", "event_broadcastandwait", "event_whengreaterthan",
        "event_whenflagclicked", "event_whenkeypressed", "event_whenthisspriteclicked",
        "event_whenstageclicked", "event_whenbackdropswitchesto", "event_whenbroadcastreceived",
        "control_repeat", "control_repeat_until", "control_while", "control_forever",
        "control_wait", "control_wait_until", "control_if", "control_if_else", "control_stop",
        "control_create_clone_of", "control_delete_this_clone", "sensing_touchingobjectmenu",
        "sensing_touchingobject", "sensing_touchingcolor", "sensing_coloristouchingcolor",
        "sensing_distanceto", "sensing_timer", "sensing_resettimer", "sensing_mousex",
        "sensing_mousey", "sensing_setdragmode", "sensing_mousedown", "sensing_keypressed",
        "sensing_current", "sensing_dayssince2000", "sensing_loudness", "sensing_answer",
        "sensing_username", "operator_add", "operator_subtract", "operator_multiply",
        "operator_divide", "operator_lt", "operator_equals", "operator_gt", "operator_and",
        "operator_or", "operator_not", "operator_random", "operator_join", "operator_letter_of",
        "operator_length", "operator_contains", "operator_mod", "operator_round", "operator_mathop",
        "data_variable", "data_setvariableto", "data_changevariableby", "data_hidevariable",
        "data_showvariable", "data_listcontents", "data_addtolist", "data_deleteoflist",
        "data_deletealloflist", "data_insertatlist", "data_replaceitemoflist", "data_itemoflist",
        "data_lengthoflist", "data_listcontainsitem", "procedures_call", "procedures_declaration",
        "procedures_definition", "motion_goto", "sound_beats_menu", "motion_glideto",
    ];
    for opcode in opcodes {
        let record = record(opcode, vec![], vec![], vec![]);
        let node = BlockType::from_json(&record, Mode::Production).unwrap();
        assert_eq!(node.prev(), prev(), "{}", opcode);
        assert_eq!(node.next(), next(), "{}", opcode);
        assert_eq!(links_of(&node), (prev(), next()), "{}", opcode);
    }
}
