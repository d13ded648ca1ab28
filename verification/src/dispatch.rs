//! The dispatch table: from a record's opcode to its node.
use vstd::prelude::*;
use crate::block_names::{
    is_control, is_data, is_event, is_looks, is_motion, is_operator, is_procedures, is_sensing,
    is_sound, is_recognized, is_unsupported, is_unused, unsupported, unused,
    CONTROL_CREATE_CLONE_OF, CONTROL_DELETE_THIS_CLONE, CONTROL_FOREVER, CONTROL_IF,
    CONTROL_IF_ELSE, CONTROL_REPEAT, CONTROL_REPEAT_UNTIL, CONTROL_STOP, CONTROL_WAIT,
    CONTROL_WAIT_UNTIL, CONTROL_WHILE, DATA_ADD_TO_LIST, DATA_CHANGE_VARIABLE_BY,
    DATA_DELETE_ALL_OF_LIST, DATA_DELETE_OF_LIST, DATA_HIDE_VARIABLE, DATA_INSERT_AT_LIST,
    DATA_ITEM_OF_LIST, DATA_LENGTH_OF_LIST, DATA_LIST_CONTAINS_ITEM, DATA_LIST_CONTENTS,
    DATA_REPLACE_ITEM_OF_LIST, DATA_SET_VARIABLE_TO, DATA_SHOW_VARIABLE, DATA_VARIABLE,
    EVENT_BROADCAST, EVENT_BROADCAST_AND_WAIT, EVENT_WHEN_BACKDROP_SWITCHESTO,
    EVENT_WHEN_BROADCAST_RECEIVED, EVENT_WHEN_FLAG_CLICKED, EVENT_WHEN_GREATER_THAN,
    EVENT_WHEN_KEY_PRESSED, EVENT_WHEN_STAGE_CLICKED, EVENT_WHEN_THIS_SPRITECLICKED, LOOKS_BACKDROP,
    LOOKS_BACKDROP_NUMBER_NAME, LOOKS_CHANGE_EFFECT_BY, LOOKS_CHANGE_SIZE_BY,
    LOOKS_CLEAR_GRAPHICS_EFFECTS, LOOKS_COSTUME, LOOKS_COSTUME_NUMBER_NAME, LOOKS_GOTO_FRONT_BACK,
    LOOKS_GO_FORWARD_BACKWARD_LAYERS, LOOKS_HIDE, LOOKS_HIDE_ALL_SPRITES, LOOKS_NEXT_BACKDROP,
    LOOKS_NEXT_COSTUME, LOOKS_SAY, LOOKS_SAY_FOR_SECS, LOOKS_SET_EFFECT_TO, LOOKS_SET_SIZE_TO,
    LOOKS_SHOW, LOOKS_SIZE, LOOKS_SWITCH_BACKDROP_TO, LOOKS_SWITCH_BACKDROP_TO_AND_WAIT,
    LOOKS_SWITCH_COSTUME_TO, LOOKS_THINK, LOOKS_THINK_FOR_SECS, MOTION_CHANGE_X_BY,
    MOTION_CHANGE_Y_BY, MOTION_DIRECTION, MOTION_GLIDE_SECONDS_TO_XY, MOTION_GLIDE_TO_MENU,
    MOTION_GOTO_MENU, MOTION_GOTO_XY, MOTION_IF_ON_EDGE_BOUNCE, MOTION_MOVE, MOTION_POINT_DIRECTION,
    MOTION_POINT_MENU, MOTION_POINT_TOWARDS, MOTION_SET_ROTATION_STYLE, MOTION_SET_X, MOTION_SET_Y,
    MOTION_TURN_LEFT, MOTION_TURN_RIGHT, MOTION_XPOSITION, MOTION_YPOSITION, OPERATOR_ADD,
    OPERATOR_AND, OPERATOR_CONTAINS, OPERATOR_DIVIDE, OPERATOR_EQUALS, OPERATOR_GREATER_THEN,
    OPERATOR_JOIN, OPERATOR_LENGTH, OPERATOR_LESSER_THEN, OPERATOR_LETTER_OF, OPERATOR_MATHOP,
    OPERATOR_MOD, OPERATOR_MULTIPLY, OPERATOR_NOT, OPERATOR_OR, OPERATOR_RANDOM, OPERATOR_ROUND,
    OPERATOR_SUBTRACT, PROCEDURES_CALL, PROCEDURES_DECLARATION, PROCEDURES_DEFINITION,
    PROCEDURES_PROTOTYPE, SENSING_ANSWER, SENSING_COLOR_IS_TOUCHING_COLOR, SENSING_CURRENT,
    SENSING_DAYS_SINCE_2000, SENSING_DISTANCE_TO, SENSING_KEY_PRESSED, SENSING_LOUDNESS,
    SENSING_MOUSE_DOWN, SENSING_MOUSE_X, SENSING_MOUSE_Y, SENSING_RESET_TIMER,
    SENSING_SET_DRAG_MODE, SENSING_TIMER, SENSING_TOUCHING_COLOR, SENSING_TOUCHING_OBJECT,
    SENSING_TOUCHING_OBJECT_MENU, SENSING_USERNAME, SOUND_CHANGE_EFFECT_BY, SOUND_CHANGE_VOLUME_BY,
    SOUND_CLEAR_EFFECTS, SOUND_EFFECTS_MENU, SOUND_PLAY, SOUND_PLAY_UNTIL_DONE, SOUND_SET_EFFECT_TO,
    SOUND_SET_VOLUME_TO, SOUND_SOUNDS_MENU, SOUND_STOP_ALL_SOUNDS, SOUND_VOLUME,
};
use crate::blocks::{
    Absolute, AbsoluteView, Add, AddView, And, AndView, Answer, Backdrop, BackdropByName,
    BackdropByNumber, BackdropView, BackdropWithName, BackdropWithNameView, Block, BlockType,
    Broadcast, BroadcastAndWait, BroadcastAndWaitView, BroadcastView, ChangeEffectBy,
    ChangeEffectByView, ChangeLayer, ChangeLayerView, ChangeSize, ChangeSizeView, ChangeVolumeBy,
    ChangeVolumeByView, ChangeX, ChangeXView, ChangeY, ChangeYView, ClearGraphicEffects,
    ClearSoundEffects, ColorTouchingColor, ColorTouchingColorView, Contains, ContainsView, Costume,
    CostumeByName, CostumeByNumber, CostumeView, CostumeWithName, CostumeWithNameView,
    CreateCloneOf, CreateCloneOfView, CurrentTime, CurrentTimeOption, CurrentTimeView,
    DataAddToList, DataAddToListView, DataChangeVariableBy, DataChangeVariableByView,
    DataDeleteAllOfList, DataDeleteAllOfListView, DataDeleteOfList, DataDeleteOfListView,
    DataGetVariable, DataGetVariableView, DataHideVariable, DataHideVariableView, DataInsertAtList,
    DataInsertAtListView, DataItemOfList, DataItemOfListView, DataLengthOfList,
    DataLengthOfListView, DataListContainsItem, DataListContainsItemView, DataListContents,
    DataListContentsView, DataReplaceItemOfList, DataReplaceItemOfListView, DataSetVariableTo,
    DataSetVariableToView, DataShowVariable, DataShowVariableView, DaysSince2000, DeleteClone,
    Direction, DistanceTo, DistanceToView, Divide, DivideView, DraggableOption, EqualTo,
    EqualToView, EventOption, Forever, Glide, GlideOption, GlideOptionView, GlidePos, GlidePosView,
    GlideView, Goto, GotoLayer, GotoLayerView, GotoOption, GotoOptionView, GotoPos, GotoPosView,
    GotoView, GreaterThen, GreaterThenView, HideAllSprites, HideSprite, IfOnEdgeBounce, IfThen,
    IfThenElse, IfThenElseView, IfThenView, InvalidOpcode, InvalidOpcodeView, Join, JoinView, Key,
    KeyPressed, KeyPressedView, LayerDirection, LayerOption, LengthOf, LengthOfView, LesserThen,
    LesserThenView, LetterOf, LetterOfView, Loudness, Modulo, ModuloView, MouseDown, MouseX, MouseY,
    Move, MoveView, MovementOption, Mul, MulView, MutationVisitor, NextBackdrop, NextCostume,
    NodeView, Not, NotView, Or, OrView, PickRandom, PickRandomView, PlaySound, PlaySoundUntilDone,
    PlaySoundUntilDoneView, PlaySoundView, Point, PointDirection, PointDirectionView, PointOption,
    PointOptionView, PointView, ProceduresCall, ProceduresDeclaration, ProceduresDefinition,
    ProceduresDefinitionView, ProceduresPrototype, ProceduresPrototypeView, Repeat, RepeatUntil,
    RepeatUntilView, RepeatView, ResetTimer, RotateLeft, RotateLeftView, RotateRight,
    RotateRightView, RotationStyle, Round, RoundView, Say, SayForever, SayForeverView, SayView,
    SensingOption, SetDragMode, SetDragModeView, SetEffectTo, SetEffectToView, SetRotationStyle,
    SetRotationStyleView, SetSize, SetSizeView, SetVolumeTo, SetVolumeToView, SetX, SetXView, SetY,
    SetYView, ShowSprite, Size, SoundEffect, SoundEffectsMenu, SoundEffectsMenuView,
    SoundSoundsMenu, SoundSoundsMenuView, SpriteOption, StopAll, StopAllSounds, Sub, SubView,
    SwitchBackdrop, SwitchBackdropAndWait, SwitchBackdropAndWaitView, SwitchBackdropView,
    SwitchCostume, SwitchCostumeView, Think, ThinkForever, ThinkForeverView, ThinkView, Timer,
    Touching, TouchingColor, TouchingColorView, TouchingMenu, TouchingMenuView, TouchingView,
    UnusedOpcode, UnusedOpcodeView, Username, Value, ValueView, Volume, WaitSeconds,
    WaitSecondsView, WaitUntil, WaitUntilView, WhenBackdropSwitchesTo, WhenBackdropSwitchesToView,
    WhenGreenFlagClicked, WhenIRecieveBroadcast, WhenIRecieveBroadcastView, WhenKeyPressed,
    WhenKeyPressedView, WhenOptionGreaterThen, WhenOptionGreaterThenView, WhenSpriteClicked,
    WhenStageClicked, XPosition, YPosition,
};
use crate::error::{outcome, DecodeError, Mode};
use crate::json::{lookup, Json, JsonView};
use crate::raw::{extracted, keyed, lemma_extraction_failures, RawBlock, RawBlockView};
use crate::text::same_text;

verus! {

/// Whether an attempt at decoding went as it should: it gave something
/// exactly where it applies, and then an outcome whose model is `expected`.
pub open spec fn attempted(
    r: Option<Result<BlockType, DecodeError>>,
    applies: bool,
    expected: Result<NodeView, DecodeError>,
) -> bool {
    match r {
        Some(result) => applies && outcome(result) == expected,
        None => !applies,
    }
}

/// The text that a value holds, if it is a text.
pub open spec fn text_of(value: Option<ValueView>) -> Option<Seq<char>> {
    match value {
        Some(ValueView::String(text)) => Some(text),
        _ => None,
    }
}

impl NodeView {
    /// What a record with one of the motion opcodes decodes to.
    pub open spec fn motion(raw: RawBlockView, mode: Mode) -> Result<NodeView, DecodeError> {
        let op = raw.opcode;
        let prev = raw.parent;
        let next = raw.next;
        if op == MOTION_MOVE@ {
            Ok(NodeView::Move(MoveView { steps: raw.input(0), prev, next }))
        } else if op == MOTION_GOTO_XY@ {
            Ok(
                NodeView::Goto(
                    GotoView::Pos(GotoPosView { x: raw.input(0), y: raw.input(1), prev, next }),
                ),
            )
        } else if op == MOTION_GOTO_MENU@ {
            match MovementOption::decoded(raw.input(0), mode) {
                Ok(option) => Ok(
                    NodeView::Goto(GotoView::Option(GotoOptionView { option, prev, next })),
                ),
                Err(e) => Err(e),
            }
        } else if op == MOTION_TURN_LEFT@ {
            Ok(NodeView::RotateLeft(RotateLeftView { degrees: raw.input(0), prev, next }))
        } else if op == MOTION_TURN_RIGHT@ {
            Ok(NodeView::RotateRight(RotateRightView { degrees: raw.input(0), prev, next }))
        } else if op == MOTION_POINT_MENU@ {
            Ok(
                NodeView::Point(
                    PointView::Towards(
                        PointOptionView { option: Some(ValueView::String("_mouse_"@)), prev, next },
                    ),
                ),
            )
        } else if op == MOTION_POINT_DIRECTION@ {
            Ok(
                NodeView::Point(
                    PointView::Direction(
                        PointDirectionView { x: raw.input(0), y: raw.input(1), prev, next },
                    ),
                ),
            )
        } else if op == MOTION_POINT_TOWARDS@ {
            Ok(
                NodeView::Point(
                    PointView::Towards(PointOptionView { option: raw.input(0), prev, next }),
                ),
            )
        } else if op == MOTION_GLIDE_SECONDS_TO_XY@ {
            Ok(
                NodeView::Glide(
                    GlideView::Pos(GlidePosView { x: raw.input(0), y: raw.input(1), prev, next }),
                ),
            )
        } else if op == MOTION_GLIDE_TO_MENU@ {
            match MovementOption::decoded(raw.field(0), mode) {
                Ok(option) => Ok(
                    NodeView::Glide(GlideView::Option(GlideOptionView { option, prev, next })),
                ),
                Err(e) => Err(e),
            }
        } else if op == MOTION_IF_ON_EDGE_BOUNCE@ {
            Ok(NodeView::IfOnEdgeBounce(raw.links()))
        } else if op == MOTION_SET_ROTATION_STYLE@ {
            match RotationStyle::decoded(raw.input(0), mode) {
                Ok(style) => Ok(
                    NodeView::SetRotationStyle(SetRotationStyleView { style, prev, next }),
                ),
                Err(e) => Err(e),
            }
        } else if op == MOTION_CHANGE_X_BY@ {
            Ok(NodeView::ChangeX(ChangeXView { x: raw.input(0), prev, next }))
        } else if op == MOTION_SET_X@ {
            Ok(NodeView::SetX(SetXView { x: raw.input(0), prev, next }))
        } else if op == MOTION_CHANGE_Y_BY@ {
            Ok(NodeView::ChangeY(ChangeYView { y: raw.input(0), prev, next }))
        } else if op == MOTION_SET_Y@ {
            Ok(NodeView::SetY(SetYView { y: raw.input(0), prev, next }))
        } else if op == MOTION_XPOSITION@ {
            Ok(NodeView::XPosition(raw.links()))
        } else if op == MOTION_YPOSITION@ {
            Ok(NodeView::YPosition(raw.links()))
        } else if op == MOTION_DIRECTION@ {
            Ok(NodeView::Direction(raw.links()))
        } else {
            Err(DecodeError::UnrecognizedOpcode)
        }
    }

    /// What a record with one of the looks opcodes decodes to.
    pub open spec fn looks(raw: RawBlockView, mode: Mode) -> Result<NodeView, DecodeError> {
        let op = raw.opcode;
        let prev = raw.parent;
        let next = raw.next;
        if op == LOOKS_SAY@ {
            Ok(NodeView::SayForever(SayForeverView { message: raw.input(0), prev, next }))
        } else if op == LOOKS_SAY_FOR_SECS@ {
            Ok(NodeView::Say(SayView { message: raw.input(0), secs: raw.input(1), prev, next }))
        } else if op == LOOKS_THINK@ {
            Ok(NodeView::ThinkForever(ThinkForeverView { message: raw.input(0), prev, next }))
        } else if op == LOOKS_THINK_FOR_SECS@ {
            Ok(NodeView::Think(ThinkView { message: raw.input(0), secs: raw.input(1), prev, next }))
        } else if op == LOOKS_SHOW@ {
            Ok(NodeView::ShowSprite(raw.links()))
        } else if op == LOOKS_HIDE@ {
            Ok(NodeView::HideSprite(raw.links()))
        } else if op == LOOKS_HIDE_ALL_SPRITES@ {
            Ok(NodeView::HideAllSprites(raw.links()))
        } else if op == LOOKS_SWITCH_COSTUME_TO@ {
            Ok(NodeView::SwitchCostume(SwitchCostumeView { costume: raw.input(0), prev, next }))
        } else if op == LOOKS_SWITCH_BACKDROP_TO@ {
            Ok(NodeView::SwitchBackdrop(SwitchBackdropView { backdrop: raw.input(0), prev, next }))
        } else if op == LOOKS_SWITCH_BACKDROP_TO_AND_WAIT@ {
            Ok(
                NodeView::SwitchBackdropAndWait(
                    SwitchBackdropAndWaitView { backdrop: raw.input(0), prev, next },
                ),
            )
        } else if op == LOOKS_NEXT_COSTUME@ {
            Ok(NodeView::NextCostume(raw.links()))
        } else if op == LOOKS_NEXT_BACKDROP@ {
            Ok(NodeView::NextBackdrop(raw.links()))
        } else if op == LOOKS_CHANGE_EFFECT_BY@ {
            Ok(
                NodeView::ChangeEffectBy(
                    ChangeEffectByView { effect: raw.input(0), units: raw.input(1), prev, next },
                ),
            )
        } else if op == LOOKS_SET_EFFECT_TO@ {
            Ok(
                NodeView::SetEffectTo(
                    SetEffectToView { effect: raw.input(0), percentage: raw.input(1), prev, next },
                ),
            )
        } else if op == LOOKS_CLEAR_GRAPHICS_EFFECTS@ {
            Ok(NodeView::ClearGraphicEffects(raw.links()))
        } else if op == LOOKS_CHANGE_SIZE_BY@ {
            Ok(NodeView::ChangeSize(ChangeSizeView { units: raw.input(0), prev, next }))
        } else if op == LOOKS_SET_SIZE_TO@ {
            Ok(NodeView::SetSize(SetSizeView { percentage: raw.input(0), prev, next }))
        } else if op == LOOKS_GOTO_FRONT_BACK@ {
            match LayerOption::decoded(raw.input(0), mode) {
                Ok(option) => Ok(NodeView::GotoLayer(GotoLayerView { option, prev, next })),
                Err(e) => Err(e),
            }
        } else if op == LOOKS_GO_FORWARD_BACKWARD_LAYERS@ {
            match LayerDirection::decoded(raw.input(0), mode) {
                Ok(direction) => Ok(
                    NodeView::ChangeLayer(
                        ChangeLayerView { direction, by: raw.input(1), prev, next },
                    ),
                ),
                Err(e) => Err(e),
            }
        } else if op == LOOKS_SIZE@ {
            Ok(NodeView::Size(raw.links()))
        } else if op == LOOKS_COSTUME@ {
            Ok(
                NodeView::Costume(
                    CostumeView::WithName(CostumeWithNameView { name: raw.field(0), prev, next }),
                ),
            )
        } else if op == LOOKS_COSTUME_NUMBER_NAME@ {
            Self::costume_reporter(raw, mode)
        } else if op == LOOKS_BACKDROP@ {
            Ok(
                NodeView::Backdrop(
                    BackdropView::WithName(BackdropWithNameView { name: raw.field(0), prev, next }),
                ),
            )
        } else if op == LOOKS_BACKDROP_NUMBER_NAME@ {
            Self::backdrop_reporter(raw, mode)
        } else {
            Err(DecodeError::UnrecognizedOpcode)
        }
    }

    /// What a record with one of the sound opcodes decodes to.
    pub open spec fn sound(raw: RawBlockView, mode: Mode) -> Result<NodeView, DecodeError> {
        let op = raw.opcode;
        let prev = raw.parent;
        let next = raw.next;
        if op == SOUND_PLAY@ {
            Ok(NodeView::PlaySound(PlaySoundView { sound: raw.input(0), prev, next }))
        } else if op == SOUND_PLAY_UNTIL_DONE@ {
            Ok(
                NodeView::PlaySoundUntilDone(
                    PlaySoundUntilDoneView { sound: raw.input(0), prev, next },
                ),
            )
        } else if op == SOUND_STOP_ALL_SOUNDS@ {
            Ok(NodeView::StopAllSounds(raw.links()))
        } else if op == SOUND_SET_EFFECT_TO@ {
            Ok(
                NodeView::SetEffectTo(
                    SetEffectToView { effect: raw.input(0), percentage: raw.input(1), prev, next },
                ),
            )
        } else if op == SOUND_CHANGE_EFFECT_BY@ {
            Ok(
                NodeView::ChangeEffectBy(
                    ChangeEffectByView { effect: raw.input(0), units: raw.input(1), prev, next },
                ),
            )
        } else if op == SOUND_CLEAR_EFFECTS@ {
            Ok(NodeView::ClearSoundEffects(raw.links()))
        } else if op == SOUND_SET_VOLUME_TO@ {
            Ok(NodeView::SetVolumeTo(SetVolumeToView { percentage: raw.input(0), prev, next }))
        } else if op == SOUND_CHANGE_VOLUME_BY@ {
            Ok(NodeView::ChangeVolumeBy(ChangeVolumeByView { units: raw.input(0), prev, next }))
        } else if op == SOUND_VOLUME@ {
            Ok(NodeView::Volume(raw.links()))
        } else if op == SOUND_SOUNDS_MENU@ {
            Ok(NodeView::SoundSoundsMenu(SoundSoundsMenuView { option: raw.input(0), prev, next }))
        } else if op == SOUND_EFFECTS_MENU@ {
            match SoundEffect::decoded(raw.input(0), mode) {
                Ok(option) => Ok(
                    NodeView::SoundEffectsMenu(SoundEffectsMenuView { option, prev, next }),
                ),
                Err(e) => Err(e),
            }
        } else {
            Err(DecodeError::UnrecognizedOpcode)
        }
    }

    /// What a record with one of the event opcodes decodes to.
    pub open spec fn event(raw: RawBlockView, mode: Mode) -> Result<NodeView, DecodeError> {
        let op = raw.opcode;
        let prev = raw.parent;
        let next = raw.next;
        if op == EVENT_BROADCAST@ {
            Ok(NodeView::Broadcast(BroadcastView { broadcast: raw.input(0), prev, next }))
        } else if op == EVENT_BROADCAST_AND_WAIT@ {
            Ok(
                NodeView::BroadcastAndWait(
                    BroadcastAndWaitView { broadcast: raw.input(0), prev, next },
                ),
            )
        } else if op == EVENT_WHEN_GREATER_THAN@ {
            match EventOption::decoded(raw.input(0), mode) {
                Ok(option) => Ok(
                    NodeView::WhenOptionGreaterThen(
                        WhenOptionGreaterThenView { option, by: raw.input(1), prev, next },
                    ),
                ),
                Err(e) => Err(e),
            }
        } else if op == EVENT_WHEN_FLAG_CLICKED@ {
            Ok(NodeView::WhenGreenFlagClicked(raw.links()))
        } else if op == EVENT_WHEN_KEY_PRESSED@ {
            match Key::decoded(raw.input(0), mode) {
                Ok(key) => Ok(NodeView::WhenKeyPressed(WhenKeyPressedView { key, prev, next })),
                Err(e) => Err(e),
            }
        } else if op == EVENT_WHEN_THIS_SPRITECLICKED@ {
            Ok(NodeView::WhenSpriteClicked(raw.links()))
        } else if op == EVENT_WHEN_STAGE_CLICKED@ {
            Ok(NodeView::WhenStageClicked(raw.links()))
        } else if op == EVENT_WHEN_BACKDROP_SWITCHESTO@ {
            Ok(
                NodeView::WhenBackdropSwitchesTo(
                    WhenBackdropSwitchesToView { backdrop: raw.input(0), prev, next },
                ),
            )
        } else if op == EVENT_WHEN_BROADCAST_RECEIVED@ {
            Ok(
                NodeView::WhenIRecieveBroadcast(
                    WhenIRecieveBroadcastView { broadcast: raw.field(0), prev, next },
                ),
            )
        } else {
            Err(DecodeError::UnrecognizedOpcode)
        }
    }

    /// What a record with one of the control opcodes decodes to.
    pub open spec fn control(raw: RawBlockView, mode: Mode) -> Result<NodeView, DecodeError> {
        let op = raw.opcode;
        let prev = raw.parent;
        let next = raw.next;
        if op == CONTROL_REPEAT@ {
            Ok(NodeView::Repeat(RepeatView { units: raw.input(0), prev, next }))
        } else if op == CONTROL_REPEAT_UNTIL@ {
            Ok(NodeView::RepeatUntil(RepeatUntilView { condition: raw.input(0), prev, next }))
        } else if op == CONTROL_WHILE@ {
            Ok(NodeView::RepeatUntil(RepeatUntilView { condition: raw.input(0), prev, next }))
        } else if op == CONTROL_FOREVER@ {
            Ok(NodeView::Forever(raw.links()))
        } else if op == CONTROL_WAIT@ {
            Ok(NodeView::WaitSeconds(WaitSecondsView { seconds: raw.input(0), prev, next }))
        } else if op == CONTROL_WAIT_UNTIL@ {
            Ok(NodeView::WaitUntil(WaitUntilView { condition: raw.input(0), prev, next }))
        } else if op == CONTROL_IF@ {
            Ok(
                NodeView::IfThen(
                    IfThenView { condition: raw.input(0), then_branch: raw.input(1), prev, next },
                ),
            )
        } else if op == CONTROL_IF_ELSE@ {
            Ok(
                NodeView::IfThenElse(
                    IfThenElseView {
                        condition: raw.input(0),
                        then_branch: raw.input(1),
                        otherwise: raw.input(2),
                        prev,
                        next,
                    },
                ),
            )
        } else if op == CONTROL_STOP@ {
            Ok(NodeView::StopAll(raw.links()))
        } else if op == CONTROL_CREATE_CLONE_OF@ {
            match SpriteOption::decoded(raw.input(0), mode) {
                Ok(of) => Ok(NodeView::CreateCloneOf(CreateCloneOfView { of, prev, next })),
                Err(e) => Err(e),
            }
        } else if op == CONTROL_DELETE_THIS_CLONE@ {
            Ok(NodeView::DeleteClone(raw.links()))
        } else {
            Err(DecodeError::UnrecognizedOpcode)
        }
    }

    /// What a record with one of the sensing opcodes decodes to.
    pub open spec fn sensing(raw: RawBlockView, mode: Mode) -> Result<NodeView, DecodeError> {
        let op = raw.opcode;
        let prev = raw.parent;
        let next = raw.next;
        if op == SENSING_TOUCHING_OBJECT_MENU@ {
            Ok(
                NodeView::TouchingMenu(
                    TouchingMenuView { touching: SensingOption::decoded(raw.field(0)), prev, next },
                ),
            )
        } else if op == SENSING_TOUCHING_OBJECT@ {
            Ok(NodeView::Touching(TouchingView { touching: raw.input(0), prev, next }))
        } else if op == SENSING_TOUCHING_COLOR@ {
            Ok(NodeView::TouchingColor(TouchingColorView { color: raw.input(0), prev, next }))
        } else if op == SENSING_COLOR_IS_TOUCHING_COLOR@ {
            Ok(
                NodeView::ColorTouchingColor(
                    ColorTouchingColorView {
                        color1: raw.input(0),
                        color2: raw.input(1),
                        prev,
                        next,
                    },
                ),
            )
        } else if op == SENSING_DISTANCE_TO@ {
            Ok(
                NodeView::DistanceTo(
                    DistanceToView { to: SensingOption::decoded(raw.input(0)), prev, next },
                ),
            )
        } else if op == SENSING_TIMER@ {
            Ok(NodeView::Timer(raw.links()))
        } else if op == SENSING_RESET_TIMER@ {
            Ok(NodeView::ResetTimer(raw.links()))
        } else if op == SENSING_MOUSE_X@ {
            Ok(NodeView::MouseX(raw.links()))
        } else if op == SENSING_MOUSE_Y@ {
            Ok(NodeView::MouseY(raw.links()))
        } else if op == SENSING_SET_DRAG_MODE@ {
            match DraggableOption::decoded(raw.input(0), mode) {
                Ok(option) => Ok(NodeView::SetDragMode(SetDragModeView { option, prev, next })),
                Err(e) => Err(e),
            }
        } else if op == SENSING_MOUSE_DOWN@ {
            Ok(NodeView::MouseDown(raw.links()))
        } else if op == SENSING_KEY_PRESSED@ {
            match Key::decoded(raw.input(0), mode) {
                Ok(key) => Ok(NodeView::KeyPressed(KeyPressedView { key, prev, next })),
                Err(e) => Err(e),
            }
        } else if op == SENSING_CURRENT@ {
            match CurrentTimeOption::decoded(raw.input(0), mode) {
                Ok(option) => Ok(NodeView::CurrentTime(CurrentTimeView { option, prev, next })),
                Err(e) => Err(e),
            }
        } else if op == SENSING_DAYS_SINCE_2000@ {
            Ok(NodeView::DaysSince2000(raw.links()))
        } else if op == SENSING_LOUDNESS@ {
            Ok(NodeView::Loudness(raw.links()))
        } else if op == SENSING_ANSWER@ {
            Ok(NodeView::Answer(raw.links()))
        } else if op == SENSING_USERNAME@ {
            Ok(NodeView::Username(raw.links()))
        } else {
            Err(DecodeError::UnrecognizedOpcode)
        }
    }

    /// What a record with one of the operator opcodes decodes to.
    pub open spec fn operator(raw: RawBlockView, mode: Mode) -> Result<NodeView, DecodeError> {
        let op = raw.opcode;
        let prev = raw.parent;
        let next = raw.next;
        if op == OPERATOR_ADD@ {
            Ok(NodeView::Add(AddView { a: raw.input(0), b: raw.input(1), prev, next }))
        } else if op == OPERATOR_SUBTRACT@ {
            Ok(NodeView::Sub(SubView { a: raw.input(0), b: raw.input(1), prev, next }))
        } else if op == OPERATOR_MULTIPLY@ {
            Ok(NodeView::Mul(MulView { a: raw.input(0), b: raw.input(1), prev, next }))
        } else if op == OPERATOR_DIVIDE@ {
            Ok(NodeView::Divide(DivideView { a: raw.input(0), b: raw.input(1), prev, next }))
        } else if op == OPERATOR_LESSER_THEN@ {
            Ok(
                NodeView::LesserThen(
                    LesserThenView { a: raw.input(0), b: raw.input(1), prev, next },
                ),
            )
        } else if op == OPERATOR_EQUALS@ {
            Ok(NodeView::EqualTo(EqualToView { a: raw.input(0), b: raw.input(1), prev, next }))
        } else if op == OPERATOR_GREATER_THEN@ {
            Ok(
                NodeView::GreaterThen(
                    GreaterThenView { a: raw.input(0), b: raw.input(1), prev, next },
                ),
            )
        } else if op == OPERATOR_AND@ {
            Ok(NodeView::And(AndView { a: raw.input(0), b: raw.input(1), prev, next }))
        } else if op == OPERATOR_OR@ {
            Ok(NodeView::Or(OrView { a: raw.input(0), b: raw.input(1), prev, next }))
        } else if op == OPERATOR_NOT@ {
            Ok(NodeView::Not(NotView { a: raw.input(0), prev, next }))
        } else if op == OPERATOR_RANDOM@ {
            Ok(
                NodeView::PickRandom(
                    PickRandomView { min: raw.input(0), max: raw.input(1), prev, next },
                ),
            )
        } else if op == OPERATOR_JOIN@ {
            Ok(NodeView::Join(JoinView { a: raw.input(0), b: raw.input(1), prev, next }))
        } else if op == OPERATOR_LETTER_OF@ {
            Ok(
                NodeView::LetterOf(
                    LetterOfView { index: raw.input(0), a: raw.input(1), prev, next },
                ),
            )
        } else if op == OPERATOR_LENGTH@ {
            Ok(NodeView::LengthOf(LengthOfView { a: raw.input(0), prev, next }))
        } else if op == OPERATOR_CONTAINS@ {
            Ok(NodeView::Contains(ContainsView { a: raw.input(0), b: raw.input(1), prev, next }))
        } else if op == OPERATOR_MOD@ {
            Ok(NodeView::Modulo(ModuloView { a: raw.input(0), b: raw.input(1), prev, next }))
        } else if op == OPERATOR_ROUND@ {
            Ok(NodeView::Round(RoundView { a: raw.input(0), prev, next }))
        } else if op == OPERATOR_MATHOP@ {
            Ok(NodeView::Absolute(AbsoluteView { a: raw.input(0), prev, next }))
        } else {
            Err(DecodeError::UnrecognizedOpcode)
        }
    }

    /// What a record with one of the data opcodes decodes to.
    pub open spec fn data(raw: RawBlockView, mode: Mode) -> Result<NodeView, DecodeError> {
        let op = raw.opcode;
        let prev = raw.parent;
        let next = raw.next;
        if op == DATA_VARIABLE@ {
            Ok(
                NodeView::DataGetVariable(
                    DataGetVariableView { variable: raw.param_named("VARIABLE"@), prev, next },
                ),
            )
        } else if op == DATA_SET_VARIABLE_TO@ {
            Ok(
                NodeView::DataSetVariableTo(
                    DataSetVariableToView {
                        variable: raw.field_named("VARIABLE"@),
                        value: raw.input_named("VALUE"@),
                        prev,
                        next,
                    },
                ),
            )
        } else if op == DATA_CHANGE_VARIABLE_BY@ {
            Ok(
                NodeView::DataChangeVariableBy(
                    DataChangeVariableByView {
                        variable: raw.field_named("VARIABLE"@),
                        value: raw.input_named("VALUE"@),
                        prev,
                        next,
                    },
                ),
            )
        } else if op == DATA_HIDE_VARIABLE@ {
            Ok(
                NodeView::DataHideVariable(
                    DataHideVariableView { variable: raw.field_named("VARIABLE"@), prev, next },
                ),
            )
        } else if op == DATA_SHOW_VARIABLE@ {
            Ok(
                NodeView::DataShowVariable(
                    DataShowVariableView { variable: raw.field_named("VARIABLE"@), prev, next },
                ),
            )
        } else if op == DATA_LIST_CONTENTS@ {
            Ok(
                NodeView::DataListContents(
                    DataListContentsView { variable: raw.field_named("VARIABLE"@), prev, next },
                ),
            )
        } else if op == DATA_ADD_TO_LIST@ {
            Ok(
                NodeView::DataAddToList(
                    DataAddToListView {
                        item: raw.input_named("ITEM"@),
                        list: raw.field_named("LIST"@),
                        prev,
                        next,
                    },
                ),
            )
        } else if op == DATA_DELETE_OF_LIST@ {
            Ok(
                NodeView::DataDeleteOfList(
                    DataDeleteOfListView {
                        item: raw.input_named("INDEX"@),
                        list: raw.field_named("LIST"@),
                        prev,
                        next,
                    },
                ),
            )
        } else if op == DATA_DELETE_ALL_OF_LIST@ {
            Ok(
                NodeView::DataDeleteAllOfList(
                    DataDeleteAllOfListView { list: raw.field_named("LIST"@), prev, next },
                ),
            )
        } else if op == DATA_INSERT_AT_LIST@ {
            Ok(
                NodeView::DataInsertAtList(
                    DataInsertAtListView {
                        item: raw.input_named("ITEM"@),
                        index: raw.input_named("INDEX"@),
                        list: raw.field_named("LIST"@),
                        prev,
                        next,
                    },
                ),
            )
        } else if op == DATA_REPLACE_ITEM_OF_LIST@ {
            Ok(
                NodeView::DataReplaceItemOfList(
                    DataReplaceItemOfListView {
                        item: raw.input_named("ITEM"@),
                        index: raw.input_named("INDEX"@),
                        list: raw.field_named("LIST"@),
                        prev,
                        next,
                    },
                ),
            )
        } else if op == DATA_ITEM_OF_LIST@ {
            Ok(
                NodeView::DataItemOfList(
                    DataItemOfListView {
                        index: raw.input_named("INDEX"@),
                        list: raw.field_named("LIST"@),
                        prev,
                        next,
                    },
                ),
            )
        } else if op == DATA_LENGTH_OF_LIST@ {
            Ok(
                NodeView::DataLengthOfList(
                    DataLengthOfListView { list: raw.field_named("LIST"@), prev, next },
                ),
            )
        } else if op == DATA_LIST_CONTAINS_ITEM@ {
            Ok(
                NodeView::DataListContainsItem(
                    DataListContainsItemView {
                        input: raw.input_named("ITEM"@),
                        list: raw.field_named("LIST"@),
                        prev,
                        next,
                    },
                ),
            )
        } else {
            Err(DecodeError::UnrecognizedOpcode)
        }
    }

    /// What a record with one of the procedure opcodes decodes to.
    pub open spec fn procedures(raw: RawBlockView, mode: Mode) -> Result<NodeView, DecodeError> {
        let op = raw.opcode;
        let prev = raw.parent;
        let next = raw.next;
        if op == PROCEDURES_CALL@ {
            Ok(NodeView::ProceduresCall(raw.links()))
        } else if op == PROCEDURES_DECLARATION@ {
            Ok(NodeView::ProceduresDeclaration(raw.links()))
        } else if op == PROCEDURES_DEFINITION@ {
            Self::definition(raw, mode)
        } else if op == PROCEDURES_PROTOTYPE@ {
            Self::prototype(raw)
        } else {
            Err(DecodeError::UnrecognizedOpcode)
        }
    }

    /// What a costume reporter decodes to: the reading that its option
    /// names, `number` or `name`. Any other option is an error in development
    /// and leaves the reporter without a reading in production.
    pub open spec fn costume_reporter(raw: RawBlockView, mode: Mode) -> Result<NodeView, DecodeError> {
        let option = text_of(raw.field(0));
        if option == Some("number"@) {
            Ok(NodeView::Costume(CostumeView::ByNumber(raw.links())))
        } else if option == Some("name"@) {
            Ok(NodeView::Costume(CostumeView::ByName(raw.links())))
        } else {
            match mode {
                Mode::Development => Err(DecodeError::InvalidOption),
                Mode::Production => Ok(
                    NodeView::Costume(
                        CostumeView::WithName(
                            CostumeWithNameView { name: None, prev: raw.parent, next: raw.next },
                        ),
                    ),
                ),
            }
        }
    }

    /// What a backdrop reporter decodes to: the reading that its option
    /// names, `number` or `name`. Any other option is an error in development
    /// and leaves the reporter without a reading in production.
    pub open spec fn backdrop_reporter(raw: RawBlockView, mode: Mode) -> Result<
        NodeView,
        DecodeError,
    > {
        let option = text_of(raw.field(0));
        if option == Some("number"@) {
            Ok(NodeView::Backdrop(BackdropView::ByNumber(raw.links())))
        } else if option == Some("name"@) {
            Ok(NodeView::Backdrop(BackdropView::ByName(raw.links())))
        } else {
            match mode {
                Mode::Development => Err(DecodeError::InvalidOption),
                Mode::Production => Ok(
                    NodeView::Backdrop(
                        BackdropView::WithName(
                            BackdropWithNameView { name: None, prev: raw.parent, next: raw.next },
                        ),
                    ),
                ),
            }
        }
    }

    /// What a procedure definition decodes to. Its `custom_block` input is
    /// the text that names the prototype. A definition without that text has
    /// no node: it is an error in development, and in production the
    /// sentinel that keeps the opcode.
    pub open spec fn definition(raw: RawBlockView, mode: Mode) -> Result<NodeView, DecodeError> {
        match raw.input_named("custom_block"@) {
            ValueView::String(block) => Ok(
                NodeView::ProceduresDefinition(
                    ProceduresDefinitionView { block, prev: raw.parent, next: raw.next },
                ),
            ),
            _ => match mode {
                Mode::Development => Err(DecodeError::UnsupportedOpcode),
                Mode::Production => Ok(
                    NodeView::InvalidOpcode(
                        InvalidOpcodeView { name: raw.opcode, prev: raw.parent, next: raw.next },
                    ),
                ),
            },
        }
    }

    /// What a procedure prototype decodes to. The record must carry a
    /// signature payload that decodes.
    pub open spec fn prototype(raw: RawBlockView) -> Result<NodeView, DecodeError> {
        match raw.mutation {
            Some(payload) => match MutationVisitor::visited(payload) {
                Ok(mutation) => Ok(
                    NodeView::ProceduresPrototype(
                        ProceduresPrototypeView { mutation, prev: raw.parent, next: raw.next },
                    ),
                ),
                Err(e) => Err(e),
            },
            None => Err(DecodeError::MissingWarpFlag),
        }
    }

    /// What a record with an opcode outside the closed set decodes to: an
    /// error in development, and a sentinel that keeps the name in production.
    pub open spec fn unrecognized(raw: RawBlockView, mode: Mode) -> Result<NodeView, DecodeError> {
        match mode {
            Mode::Development => Err(DecodeError::UnrecognizedOpcode),
            Mode::Production => Ok(
                NodeView::InvalidOpcode(
                    InvalidOpcodeView { name: raw.opcode, prev: raw.parent, next: raw.next },
                ),
            ),
        }
    }

    /// What an extracted record decodes to.
    ///
    /// An opcode without a node is an error whatever the mode. An opcode of
    /// the editor's scaffolding becomes a sentinel that keeps its name. An
    /// opcode with a node becomes that node, built from the slots that the
    /// table names. Any other opcode is unrecognized.
    pub open spec fn decoded(raw: RawBlockView, mode: Mode) -> Result<NodeView, DecodeError> {
        if is_unsupported(raw.opcode) {
            Err(DecodeError::UnsupportedOpcode)
        } else if is_unused(raw.opcode) {
            Ok(
                NodeView::UnusedOpcode(
                    UnusedOpcodeView { name: raw.opcode, prev: raw.parent, next: raw.next },
                ),
            )
        } else if is_motion(raw.opcode) {
            Self::motion(raw, mode)
        } else if is_looks(raw.opcode) {
            Self::looks(raw, mode)
        } else if is_sound(raw.opcode) {
            Self::sound(raw, mode)
        } else if is_event(raw.opcode) {
            Self::event(raw, mode)
        } else if is_control(raw.opcode) {
            Self::control(raw, mode)
        } else if is_sensing(raw.opcode) {
            Self::sensing(raw, mode)
        } else if is_operator(raw.opcode) {
            Self::operator(raw, mode)
        } else if is_data(raw.opcode) {
            Self::data(raw, mode)
        } else if is_procedures(raw.opcode) {
            Self::procedures(raw, mode)
        } else {
            Self::unrecognized(raw, mode)
        }
    }

    /// What a raw record decodes to: what it extracts to, decoded.
    pub open spec fn of_record(payload: JsonView, mode: Mode) -> Result<NodeView, DecodeError> {
        match extracted(payload) {
            Ok(raw) => Self::decoded(raw, mode),
            Err(e) => Err(e),
        }
    }

    /// What a mapping of records decodes to: every record decoded and kept
    /// under its identifier, in entry order. The first record that fails to
    /// decode fails the whole.
    pub open spec fn of_records(records: Seq<(Seq<char>, JsonView)>, mode: Mode) -> Result<
        Seq<(Seq<char>, NodeView)>,
        DecodeError,
    >
        decreases records.len(),
    {
        if records.len() == 0 {
            Ok(Seq::empty())
        } else {
            match Self::of_records(records.drop_last(), mode) {
                Err(e) => Err(e),
                Ok(before) => match Self::of_record(records.last().1, mode) {
                    Err(e) => Err(e),
                    Ok(node) => Ok(before.push((records.last().0, node))),
                },
            }
        }
    }
}

impl BlockType {
    /// Decodes a record with one of the motion opcodes; gives `None` for any
    /// other opcode.
    pub fn decode_motion(raw: &RawBlock, mode: Mode) -> (r: Option<Result<BlockType, DecodeError>>)
        ensures
            attempted(r, is_motion(raw@.opcode), NodeView::motion(raw@, mode)),
    {
        let op = raw.opcode.as_str();
        if same_text(op, MOTION_MOVE) {
            return Some(
                Ok(
                    BlockType::Move(
                        Move { steps: raw.input(0), prev: raw.prev(), next: raw.next() },
                    ),
                ),
            );
        }
        if same_text(op, MOTION_GOTO_XY) {
            return Some(
                Ok(
                    BlockType::Goto(
                        Goto::Pos(
                            GotoPos {
                                x: raw.input(0),
                                y: raw.input(1),
                                prev: raw.prev(),
                                next: raw.next(),
                            },
                        ),
                    ),
                ),
            );
        }
        if same_text(op, MOTION_GOTO_MENU) {
            return Some(
                match MovementOption::from(raw.input(0), mode) {
                    Ok(option) => Ok(
                        BlockType::Goto(
                            Goto::Option(GotoOption { option, prev: raw.prev(), next: raw.next() }),
                        ),
                    ),
                    Err(e) => Err(e),
                },
            );
        }
        if same_text(op, MOTION_TURN_LEFT) {
            return Some(
                Ok(
                    BlockType::RotateLeft(
                        RotateLeft { degrees: raw.input(0), prev: raw.prev(), next: raw.next() },
                    ),
                ),
            );
        }
        if same_text(op, MOTION_TURN_RIGHT) {
            return Some(
                Ok(
                    BlockType::RotateRight(
                        RotateRight { degrees: raw.input(0), prev: raw.prev(), next: raw.next() },
                    ),
                ),
            );
        }
        if same_text(op, MOTION_POINT_MENU) {
            return Some(
                Ok(
                    BlockType::Point(
                        Point::Towards(
                            PointOption {
                                option: Some(Value::String("_mouse_".to_owned())),
                                prev: raw.prev(),
                                next: raw.next(),
                            },
                        ),
                    ),
                ),
            );
        }
        if same_text(op, MOTION_POINT_DIRECTION) {
            return Some(
                Ok(
                    BlockType::Point(
                        Point::Direction(
                            PointDirection {
                                x: raw.input(0),
                                y: raw.input(1),
                                prev: raw.prev(),
                                next: raw.next(),
                            },
                        ),
                    ),
                ),
            );
        }
        if same_text(op, MOTION_POINT_TOWARDS) {
            return Some(
                Ok(
                    BlockType::Point(
                        Point::Towards(
                            PointOption {
                                option: raw.input(0),
                                prev: raw.prev(),
                                next: raw.next(),
                            },
                        ),
                    ),
                ),
            );
        }
        if same_text(op, MOTION_GLIDE_SECONDS_TO_XY) {
            return Some(
                Ok(
                    BlockType::Glide(
                        Glide::Pos(
                            GlidePos {
                                x: raw.input(0),
                                y: raw.input(1),
                                prev: raw.prev(),
                                next: raw.next(),
                            },
                        ),
                    ),
                ),
            );
        }
        if same_text(op, MOTION_GLIDE_TO_MENU) {
            return Some(
                match MovementOption::from(raw.field(0), mode) {
                    Ok(option) => Ok(
                        BlockType::Glide(
                            Glide::Option(
                                GlideOption { option, prev: raw.prev(), next: raw.next() },
                            ),
                        ),
                    ),
                    Err(e) => Err(e),
                },
            );
        }
        if same_text(op, MOTION_IF_ON_EDGE_BOUNCE) {
            return Some(
                Ok(
                    BlockType::IfOnEdgeBounce(
                        IfOnEdgeBounce { prev: raw.prev(), next: raw.next() },
                    ),
                ),
            );
        }
        if same_text(op, MOTION_SET_ROTATION_STYLE) {
            return Some(
                match RotationStyle::from(raw.input(0), mode) {
                    Ok(style) => Ok(
                        BlockType::SetRotationStyle(
                            SetRotationStyle { style, prev: raw.prev(), next: raw.next() },
                        ),
                    ),
                    Err(e) => Err(e),
                },
            );
        }
        if same_text(op, MOTION_CHANGE_X_BY) {
            return Some(
                Ok(
                    BlockType::ChangeX(
                        ChangeX { x: raw.input(0), prev: raw.prev(), next: raw.next() },
                    ),
                ),
            );
        }
        if same_text(op, MOTION_SET_X) {
            return Some(
                Ok(BlockType::SetX(SetX { x: raw.input(0), prev: raw.prev(), next: raw.next() })),
            );
        }
        if same_text(op, MOTION_CHANGE_Y_BY) {
            return Some(
                Ok(
                    BlockType::ChangeY(
                        ChangeY { y: raw.input(0), prev: raw.prev(), next: raw.next() },
                    ),
                ),
            );
        }
        if same_text(op, MOTION_SET_Y) {
            return Some(
                Ok(BlockType::SetY(SetY { y: raw.input(0), prev: raw.prev(), next: raw.next() })),
            );
        }
        if same_text(op, MOTION_XPOSITION) {
            return Some(Ok(BlockType::XPosition(XPosition { prev: raw.prev(), next: raw.next() })));
        }
        if same_text(op, MOTION_YPOSITION) {
            return Some(Ok(BlockType::YPosition(YPosition { prev: raw.prev(), next: raw.next() })));
        }
        if same_text(op, MOTION_DIRECTION) {
            return Some(Ok(BlockType::Direction(Direction { prev: raw.prev(), next: raw.next() })));
        }
        None
    }

    /// Decodes a record with one of the looks opcodes; gives `None` for any
    /// other opcode.
    pub fn decode_looks(raw: &RawBlock, mode: Mode) -> (r: Option<Result<BlockType, DecodeError>>)
        ensures
            attempted(r, is_looks(raw@.opcode), NodeView::looks(raw@, mode)),
    {
        let op = raw.opcode.as_str();
        if same_text(op, LOOKS_SAY) {
            return Some(
                Ok(
                    BlockType::SayForever(
                        SayForever { message: raw.input(0), prev: raw.prev(), next: raw.next() },
                    ),
                ),
            );
        }
        if same_text(op, LOOKS_SAY_FOR_SECS) {
            return Some(
                Ok(
                    BlockType::Say(
                        Say {
                            message: raw.input(0),
                            secs: raw.input(1),
                            prev: raw.prev(),
                            next: raw.next(),
                        },
                    ),
                ),
            );
        }
        if same_text(op, LOOKS_THINK) {
            return Some(
                Ok(
                    BlockType::ThinkForever(
                        ThinkForever { message: raw.input(0), prev: raw.prev(), next: raw.next() },
                    ),
                ),
            );
        }
        if same_text(op, LOOKS_THINK_FOR_SECS) {
            return Some(
                Ok(
                    BlockType::Think(
                        Think {
                            message: raw.input(0),
                            secs: raw.input(1),
                            prev: raw.prev(),
                            next: raw.next(),
                        },
                    ),
                ),
            );
        }
        if same_text(op, LOOKS_SHOW) {
            return Some(
                Ok(BlockType::ShowSprite(ShowSprite { prev: raw.prev(), next: raw.next() })),
            );
        }
        if same_text(op, LOOKS_HIDE) {
            return Some(
                Ok(BlockType::HideSprite(HideSprite { prev: raw.prev(), next: raw.next() })),
            );
        }
        if same_text(op, LOOKS_HIDE_ALL_SPRITES) {
            return Some(
                Ok(
                    BlockType::HideAllSprites(
                        HideAllSprites { prev: raw.prev(), next: raw.next() },
                    ),
                ),
            );
        }
        if same_text(op, LOOKS_SWITCH_COSTUME_TO) {
            return Some(
                Ok(
                    BlockType::SwitchCostume(
                        SwitchCostume { costume: raw.input(0), prev: raw.prev(), next: raw.next() },
                    ),
                ),
            );
        }
        if same_text(op, LOOKS_SWITCH_BACKDROP_TO) {
            return Some(
                Ok(
                    BlockType::SwitchBackdrop(
                        SwitchBackdrop {
                            backdrop: raw.input(0),
                            prev: raw.prev(),
                            next: raw.next(),
                        },
                    ),
                ),
            );
        }
        if same_text(op, LOOKS_SWITCH_BACKDROP_TO_AND_WAIT) {
            return Some(
                Ok(
                    BlockType::SwitchBackdropAndWait(
                        SwitchBackdropAndWait {
                            backdrop: raw.input(0),
                            prev: raw.prev(),
                            next: raw.next(),
                        },
                    ),
                ),
            );
        }
        if same_text(op, LOOKS_NEXT_COSTUME) {
            return Some(
                Ok(BlockType::NextCostume(NextCostume { prev: raw.prev(), next: raw.next() })),
            );
        }
        if same_text(op, LOOKS_NEXT_BACKDROP) {
            return Some(
                Ok(BlockType::NextBackdrop(NextBackdrop { prev: raw.prev(), next: raw.next() })),
            );
        }
        if same_text(op, LOOKS_CHANGE_EFFECT_BY) {
            return Some(
                Ok(
                    BlockType::ChangeEffectBy(
                        ChangeEffectBy {
                            effect: raw.input(0),
                            units: raw.input(1),
                            prev: raw.prev(),
                            next: raw.next(),
                        },
                    ),
                ),
            );
        }
        if same_text(op, LOOKS_SET_EFFECT_TO) {
            return Some(
                Ok(
                    BlockType::SetEffectTo(
                        SetEffectTo {
                            effect: raw.input(0),
                            percentage: raw.input(1),
                            prev: raw.prev(),
                            next: raw.next(),
                        },
                    ),
                ),
            );
        }
        if same_text(op, LOOKS_CLEAR_GRAPHICS_EFFECTS) {
            return Some(
                Ok(
                    BlockType::ClearGraphicEffects(
                        ClearGraphicEffects { prev: raw.prev(), next: raw.next() },
                    ),
                ),
            );
        }
        if same_text(op, LOOKS_CHANGE_SIZE_BY) {
            return Some(
                Ok(
                    BlockType::ChangeSize(
                        ChangeSize { units: raw.input(0), prev: raw.prev(), next: raw.next() },
                    ),
                ),
            );
        }
        if same_text(op, LOOKS_SET_SIZE_TO) {
            return Some(
                Ok(
                    BlockType::SetSize(
                        SetSize { percentage: raw.input(0), prev: raw.prev(), next: raw.next() },
                    ),
                ),
            );
        }
        if same_text(op, LOOKS_GOTO_FRONT_BACK) {
            return Some(
                match LayerOption::from(raw.input(0), mode) {
                    Ok(option) => Ok(
                        BlockType::GotoLayer(
                            GotoLayer { option, prev: raw.prev(), next: raw.next() },
                        ),
                    ),
                    Err(e) => Err(e),
                },
            );
        }
        if same_text(op, LOOKS_GO_FORWARD_BACKWARD_LAYERS) {
            return Some(
                match LayerDirection::from(raw.input(0), mode) {
                    Ok(direction) => Ok(
                        BlockType::ChangeLayer(
                            ChangeLayer {
                                direction,
                                by: raw.input(1),
                                prev: raw.prev(),
                                next: raw.next(),
                            },
                        ),
                    ),
                    Err(e) => Err(e),
                },
            );
        }
        if same_text(op, LOOKS_SIZE) {
            return Some(Ok(BlockType::Size(Size { prev: raw.prev(), next: raw.next() })));
        }
        if same_text(op, LOOKS_COSTUME) {
            return Some(
                Ok(
                    BlockType::Costume(
                        Costume::WithName(
                            CostumeWithName {
                                name: raw.field(0),
                                prev: raw.prev(),
                                next: raw.next(),
                            },
                        ),
                    ),
                ),
            );
        }
        if same_text(op, LOOKS_COSTUME_NUMBER_NAME) {
            return Some(Self::decode_costume_reporter(raw, mode));
        }
        if same_text(op, LOOKS_BACKDROP) {
            return Some(
                Ok(
                    BlockType::Backdrop(
                        Backdrop::WithName(
                            BackdropWithName {
                                name: raw.field(0),
                                prev: raw.prev(),
                                next: raw.next(),
                            },
                        ),
                    ),
                ),
            );
        }
        if same_text(op, LOOKS_BACKDROP_NUMBER_NAME) {
            return Some(Self::decode_backdrop_reporter(raw, mode));
        }
        None
    }

    /// Decodes a record with one of the sound opcodes; gives `None` for any
    /// other opcode.
    pub fn decode_sound(raw: &RawBlock, mode: Mode) -> (r: Option<Result<BlockType, DecodeError>>)
        ensures
            attempted(r, is_sound(raw@.opcode), NodeView::sound(raw@, mode)),
    {
        let op = raw.opcode.as_str();
        if same_text(op, SOUND_PLAY) {
            return Some(
                Ok(
                    BlockType::PlaySound(
                        PlaySound { sound: raw.input(0), prev: raw.prev(), next: raw.next() },
                    ),
                ),
            );
        }
        if same_text(op, SOUND_PLAY_UNTIL_DONE) {
            return Some(
                Ok(
                    BlockType::PlaySoundUntilDone(
                        PlaySoundUntilDone {
                            sound: raw.input(0),
                            prev: raw.prev(),
                            next: raw.next(),
                        },
                    ),
                ),
            );
        }
        if same_text(op, SOUND_STOP_ALL_SOUNDS) {
            return Some(
                Ok(BlockType::StopAllSounds(StopAllSounds { prev: raw.prev(), next: raw.next() })),
            );
        }
        if same_text(op, SOUND_SET_EFFECT_TO) {
            return Some(
                Ok(
                    BlockType::SetEffectTo(
                        SetEffectTo {
                            effect: raw.input(0),
                            percentage: raw.input(1),
                            prev: raw.prev(),
                            next: raw.next(),
                        },
                    ),
                ),
            );
        }
        if same_text(op, SOUND_CHANGE_EFFECT_BY) {
            return Some(
                Ok(
                    BlockType::ChangeEffectBy(
                        ChangeEffectBy {
                            effect: raw.input(0),
                            units: raw.input(1),
                            prev: raw.prev(),
                            next: raw.next(),
                        },
                    ),
                ),
            );
        }
        if same_text(op, SOUND_CLEAR_EFFECTS) {
            return Some(
                Ok(
                    BlockType::ClearSoundEffects(
                        ClearSoundEffects { prev: raw.prev(), next: raw.next() },
                    ),
                ),
            );
        }
        if same_text(op, SOUND_SET_VOLUME_TO) {
            return Some(
                Ok(
                    BlockType::SetVolumeTo(
                        SetVolumeTo {
                            percentage: raw.input(0),
                            prev: raw.prev(),
                            next: raw.next(),
                        },
                    ),
                ),
            );
        }
        if same_text(op, SOUND_CHANGE_VOLUME_BY) {
            return Some(
                Ok(
                    BlockType::ChangeVolumeBy(
                        ChangeVolumeBy { units: raw.input(0), prev: raw.prev(), next: raw.next() },
                    ),
                ),
            );
        }
        if same_text(op, SOUND_VOLUME) {
            return Some(Ok(BlockType::Volume(Volume { prev: raw.prev(), next: raw.next() })));
        }
        if same_text(op, SOUND_SOUNDS_MENU) {
            return Some(
                Ok(
                    BlockType::SoundSoundsMenu(
                        SoundSoundsMenu {
                            option: raw.input(0),
                            prev: raw.prev(),
                            next: raw.next(),
                        },
                    ),
                ),
            );
        }
        if same_text(op, SOUND_EFFECTS_MENU) {
            return Some(
                match SoundEffect::from(raw.input(0), mode) {
                    Ok(option) => Ok(
                        BlockType::SoundEffectsMenu(
                            SoundEffectsMenu { option, prev: raw.prev(), next: raw.next() },
                        ),
                    ),
                    Err(e) => Err(e),
                },
            );
        }
        None
    }

    /// Decodes a record with one of the event opcodes; gives `None` for any
    /// other opcode.
    pub fn decode_event(raw: &RawBlock, mode: Mode) -> (r: Option<Result<BlockType, DecodeError>>)
        ensures
            attempted(r, is_event(raw@.opcode), NodeView::event(raw@, mode)),
    {
        let op = raw.opcode.as_str();
        if same_text(op, EVENT_BROADCAST) {
            return Some(
                Ok(
                    BlockType::Broadcast(
                        Broadcast { broadcast: raw.input(0), prev: raw.prev(), next: raw.next() },
                    ),
                ),
            );
        }
        if same_text(op, EVENT_BROADCAST_AND_WAIT) {
            return Some(
                Ok(
                    BlockType::BroadcastAndWait(
                        BroadcastAndWait {
                            broadcast: raw.input(0),
                            prev: raw.prev(),
                            next: raw.next(),
                        },
                    ),
                ),
            );
        }
        if same_text(op, EVENT_WHEN_GREATER_THAN) {
            return Some(
                match EventOption::from(raw.input(0), mode) {
                    Ok(option) => Ok(
                        BlockType::WhenOptionGreaterThen(
                            WhenOptionGreaterThen {
                                option,
                                by: raw.input(1),
                                prev: raw.prev(),
                                next: raw.next(),
                            },
                        ),
                    ),
                    Err(e) => Err(e),
                },
            );
        }
        if same_text(op, EVENT_WHEN_FLAG_CLICKED) {
            return Some(
                Ok(
                    BlockType::WhenGreenFlagClicked(
                        WhenGreenFlagClicked { prev: raw.prev(), next: raw.next() },
                    ),
                ),
            );
        }
        if same_text(op, EVENT_WHEN_KEY_PRESSED) {
            return Some(
                match Key::from(raw.input(0), mode) {
                    Ok(key) => Ok(
                        BlockType::WhenKeyPressed(
                            WhenKeyPressed { key, prev: raw.prev(), next: raw.next() },
                        ),
                    ),
                    Err(e) => Err(e),
                },
            );
        }
        if same_text(op, EVENT_WHEN_THIS_SPRITECLICKED) {
            return Some(
                Ok(
                    BlockType::WhenSpriteClicked(
                        WhenSpriteClicked { prev: raw.prev(), next: raw.next() },
                    ),
                ),
            );
        }
        if same_text(op, EVENT_WHEN_STAGE_CLICKED) {
            return Some(
                Ok(
                    BlockType::WhenStageClicked(
                        WhenStageClicked { prev: raw.prev(), next: raw.next() },
                    ),
                ),
            );
        }
        if same_text(op, EVENT_WHEN_BACKDROP_SWITCHESTO) {
            return Some(
                Ok(
                    BlockType::WhenBackdropSwitchesTo(
                        WhenBackdropSwitchesTo {
                            backdrop: raw.input(0),
                            prev: raw.prev(),
                            next: raw.next(),
                        },
                    ),
                ),
            );
        }
        if same_text(op, EVENT_WHEN_BROADCAST_RECEIVED) {
            return Some(
                Ok(
                    BlockType::WhenIRecieveBroadcast(
                        WhenIRecieveBroadcast {
                            broadcast: raw.field(0),
                            prev: raw.prev(),
                            next: raw.next(),
                        },
                    ),
                ),
            );
        }
        None
    }

    /// Decodes a record with one of the control opcodes; gives `None` for any
    /// other opcode.
    pub fn decode_control(raw: &RawBlock, mode: Mode) -> (r: Option<Result<BlockType, DecodeError>>)
        ensures
            attempted(r, is_control(raw@.opcode), NodeView::control(raw@, mode)),
    {
        let op = raw.opcode.as_str();
        if same_text(op, CONTROL_REPEAT) {
            return Some(
                Ok(
                    BlockType::Repeat(
                        Repeat { units: raw.input(0), prev: raw.prev(), next: raw.next() },
                    ),
                ),
            );
        }
        if same_text(op, CONTROL_REPEAT_UNTIL) {
            return Some(
                Ok(
                    BlockType::RepeatUntil(
                        RepeatUntil { condition: raw.input(0), prev: raw.prev(), next: raw.next() },
                    ),
                ),
            );
        }
        if same_text(op, CONTROL_WHILE) {
            return Some(
                Ok(
                    BlockType::RepeatUntil(
                        RepeatUntil { condition: raw.input(0), prev: raw.prev(), next: raw.next() },
                    ),
                ),
            );
        }
        if same_text(op, CONTROL_FOREVER) {
            return Some(Ok(BlockType::Forever(Forever { prev: raw.prev(), next: raw.next() })));
        }
        if same_text(op, CONTROL_WAIT) {
            return Some(
                Ok(
                    BlockType::WaitSeconds(
                        WaitSeconds { seconds: raw.input(0), prev: raw.prev(), next: raw.next() },
                    ),
                ),
            );
        }
        if same_text(op, CONTROL_WAIT_UNTIL) {
            return Some(
                Ok(
                    BlockType::WaitUntil(
                        WaitUntil { condition: raw.input(0), prev: raw.prev(), next: raw.next() },
                    ),
                ),
            );
        }
        if same_text(op, CONTROL_IF) {
            return Some(
                Ok(
                    BlockType::IfThen(
                        IfThen {
                            condition: raw.input(0),
                            then_branch: raw.input(1),
                            prev: raw.prev(),
                            next: raw.next(),
                        },
                    ),
                ),
            );
        }
        if same_text(op, CONTROL_IF_ELSE) {
            return Some(
                Ok(
                    BlockType::IfThenElse(
                        IfThenElse {
                            condition: raw.input(0),
                            then_branch: raw.input(1),
                            otherwise: raw.input(2),
                            prev: raw.prev(),
                            next: raw.next(),
                        },
                    ),
                ),
            );
        }
        if same_text(op, CONTROL_STOP) {
            return Some(Ok(BlockType::StopAll(StopAll { prev: raw.prev(), next: raw.next() })));
        }
        if same_text(op, CONTROL_CREATE_CLONE_OF) {
            return Some(
                match SpriteOption::from(raw.input(0), mode) {
                    Ok(of) => Ok(
                        BlockType::CreateCloneOf(
                            CreateCloneOf { of, prev: raw.prev(), next: raw.next() },
                        ),
                    ),
                    Err(e) => Err(e),
                },
            );
        }
        if same_text(op, CONTROL_DELETE_THIS_CLONE) {
            return Some(
                Ok(BlockType::DeleteClone(DeleteClone { prev: raw.prev(), next: raw.next() })),
            );
        }
        None
    }

    /// Decodes a record with one of the sensing opcodes; gives `None` for any
    /// other opcode.
    pub fn decode_sensing(raw: &RawBlock, mode: Mode) -> (r: Option<Result<BlockType, DecodeError>>)
        ensures
            attempted(r, is_sensing(raw@.opcode), NodeView::sensing(raw@, mode)),
    {
        let op = raw.opcode.as_str();
        if same_text(op, SENSING_TOUCHING_OBJECT_MENU) {
            return Some(
                Ok(
                    BlockType::TouchingMenu(
                        TouchingMenu {
                            touching: SensingOption::from(raw.field(0)),
                            prev: raw.prev(),
                            next: raw.next(),
                        },
                    ),
                ),
            );
        }
        if same_text(op, SENSING_TOUCHING_OBJECT) {
            return Some(
                Ok(
                    BlockType::Touching(
                        Touching { touching: raw.input(0), prev: raw.prev(), next: raw.next() },
                    ),
                ),
            );
        }
        if same_text(op, SENSING_TOUCHING_COLOR) {
            return Some(
                Ok(
                    BlockType::TouchingColor(
                        TouchingColor { color: raw.input(0), prev: raw.prev(), next: raw.next() },
                    ),
                ),
            );
        }
        if same_text(op, SENSING_COLOR_IS_TOUCHING_COLOR) {
            return Some(
                Ok(
                    BlockType::ColorTouchingColor(
                        ColorTouchingColor {
                            color1: raw.input(0),
                            color2: raw.input(1),
                            prev: raw.prev(),
                            next: raw.next(),
                        },
                    ),
                ),
            );
        }
        if same_text(op, SENSING_DISTANCE_TO) {
            return Some(
                Ok(
                    BlockType::DistanceTo(
                        DistanceTo {
                            to: SensingOption::from(raw.input(0)),
                            prev: raw.prev(),
                            next: raw.next(),
                        },
                    ),
                ),
            );
        }
        if same_text(op, SENSING_TIMER) {
            return Some(Ok(BlockType::Timer(Timer { prev: raw.prev(), next: raw.next() })));
        }
        if same_text(op, SENSING_RESET_TIMER) {
            return Some(
                Ok(BlockType::ResetTimer(ResetTimer { prev: raw.prev(), next: raw.next() })),
            );
        }
        if same_text(op, SENSING_MOUSE_X) {
            return Some(Ok(BlockType::MouseX(MouseX { prev: raw.prev(), next: raw.next() })));
        }
        if same_text(op, SENSING_MOUSE_Y) {
            return Some(Ok(BlockType::MouseY(MouseY { prev: raw.prev(), next: raw.next() })));
        }
        if same_text(op, SENSING_SET_DRAG_MODE) {
            return Some(
                match DraggableOption::from(raw.input(0), mode) {
                    Ok(option) => Ok(
                        BlockType::SetDragMode(
                            SetDragMode { option, prev: raw.prev(), next: raw.next() },
                        ),
                    ),
                    Err(e) => Err(e),
                },
            );
        }
        if same_text(op, SENSING_MOUSE_DOWN) {
            return Some(Ok(BlockType::MouseDown(MouseDown { prev: raw.prev(), next: raw.next() })));
        }
        if same_text(op, SENSING_KEY_PRESSED) {
            return Some(
                match Key::from(raw.input(0), mode) {
                    Ok(key) => Ok(
                        BlockType::KeyPressed(
                            KeyPressed { key, prev: raw.prev(), next: raw.next() },
                        ),
                    ),
                    Err(e) => Err(e),
                },
            );
        }
        if same_text(op, SENSING_CURRENT) {
            return Some(
                match CurrentTimeOption::from(raw.input(0), mode) {
                    Ok(option) => Ok(
                        BlockType::CurrentTime(
                            CurrentTime { option, prev: raw.prev(), next: raw.next() },
                        ),
                    ),
                    Err(e) => Err(e),
                },
            );
        }
        if same_text(op, SENSING_DAYS_SINCE_2000) {
            return Some(
                Ok(BlockType::DaysSince2000(DaysSince2000 { prev: raw.prev(), next: raw.next() })),
            );
        }
        if same_text(op, SENSING_LOUDNESS) {
            return Some(Ok(BlockType::Loudness(Loudness { prev: raw.prev(), next: raw.next() })));
        }
        if same_text(op, SENSING_ANSWER) {
            return Some(Ok(BlockType::Answer(Answer { prev: raw.prev(), next: raw.next() })));
        }
        if same_text(op, SENSING_USERNAME) {
            return Some(Ok(BlockType::Username(Username { prev: raw.prev(), next: raw.next() })));
        }
        None
    }

    /// Decodes a record with one of the operator opcodes; gives `None` for any
    /// other opcode.
    pub fn decode_operator(raw: &RawBlock, mode: Mode) -> (r: Option<Result<BlockType, DecodeError>>)
        ensures
            attempted(r, is_operator(raw@.opcode), NodeView::operator(raw@, mode)),
    {
        let op = raw.opcode.as_str();
        if same_text(op, OPERATOR_ADD) {
            return Some(
                Ok(
                    BlockType::Add(
                        Add {
                            a: raw.input(0),
                            b: raw.input(1),
                            prev: raw.prev(),
                            next: raw.next(),
                        },
                    ),
                ),
            );
        }
        if same_text(op, OPERATOR_SUBTRACT) {
            return Some(
                Ok(
                    BlockType::Sub(
                        Sub {
                            a: raw.input(0),
                            b: raw.input(1),
                            prev: raw.prev(),
                            next: raw.next(),
                        },
                    ),
                ),
            );
        }
        if same_text(op, OPERATOR_MULTIPLY) {
            return Some(
                Ok(
                    BlockType::Mul(
                        Mul {
                            a: raw.input(0),
                            b: raw.input(1),
                            prev: raw.prev(),
                            next: raw.next(),
                        },
                    ),
                ),
            );
        }
        if same_text(op, OPERATOR_DIVIDE) {
            return Some(
                Ok(
                    BlockType::Divide(
                        Divide {
                            a: raw.input(0),
                            b: raw.input(1),
                            prev: raw.prev(),
                            next: raw.next(),
                        },
                    ),
                ),
            );
        }
        if same_text(op, OPERATOR_LESSER_THEN) {
            return Some(
                Ok(
                    BlockType::LesserThen(
                        LesserThen {
                            a: raw.input(0),
                            b: raw.input(1),
                            prev: raw.prev(),
                            next: raw.next(),
                        },
                    ),
                ),
            );
        }
        if same_text(op, OPERATOR_EQUALS) {
            return Some(
                Ok(
                    BlockType::EqualTo(
                        EqualTo {
                            a: raw.input(0),
                            b: raw.input(1),
                            prev: raw.prev(),
                            next: raw.next(),
                        },
                    ),
                ),
            );
        }
        if same_text(op, OPERATOR_GREATER_THEN) {
            return Some(
                Ok(
                    BlockType::GreaterThen(
                        GreaterThen {
                            a: raw.input(0),
                            b: raw.input(1),
                            prev: raw.prev(),
                            next: raw.next(),
                        },
                    ),
                ),
            );
        }
        if same_text(op, OPERATOR_AND) {
            return Some(
                Ok(
                    BlockType::And(
                        And {
                            a: raw.input(0),
                            b: raw.input(1),
                            prev: raw.prev(),
                            next: raw.next(),
                        },
                    ),
                ),
            );
        }
        if same_text(op, OPERATOR_OR) {
            return Some(
                Ok(
                    BlockType::Or(
                        Or { a: raw.input(0), b: raw.input(1), prev: raw.prev(), next: raw.next() },
                    ),
                ),
            );
        }
        if same_text(op, OPERATOR_NOT) {
            return Some(
                Ok(BlockType::Not(Not { a: raw.input(0), prev: raw.prev(), next: raw.next() })),
            );
        }
        if same_text(op, OPERATOR_RANDOM) {
            return Some(
                Ok(
                    BlockType::PickRandom(
                        PickRandom {
                            min: raw.input(0),
                            max: raw.input(1),
                            prev: raw.prev(),
                            next: raw.next(),
                        },
                    ),
                ),
            );
        }
        if same_text(op, OPERATOR_JOIN) {
            return Some(
                Ok(
                    BlockType::Join(
                        Join {
                            a: raw.input(0),
                            b: raw.input(1),
                            prev: raw.prev(),
                            next: raw.next(),
                        },
                    ),
                ),
            );
        }
        if same_text(op, OPERATOR_LETTER_OF) {
            return Some(
                Ok(
                    BlockType::LetterOf(
                        LetterOf {
                            index: raw.input(0),
                            a: raw.input(1),
                            prev: raw.prev(),
                            next: raw.next(),
                        },
                    ),
                ),
            );
        }
        if same_text(op, OPERATOR_LENGTH) {
            return Some(
                Ok(
                    BlockType::LengthOf(
                        LengthOf { a: raw.input(0), prev: raw.prev(), next: raw.next() },
                    ),
                ),
            );
        }
        if same_text(op, OPERATOR_CONTAINS) {
            return Some(
                Ok(
                    BlockType::Contains(
                        Contains {
                            a: raw.input(0),
                            b: raw.input(1),
                            prev: raw.prev(),
                            next: raw.next(),
                        },
                    ),
                ),
            );
        }
        if same_text(op, OPERATOR_MOD) {
            return Some(
                Ok(
                    BlockType::Modulo(
                        Modulo {
                            a: raw.input(0),
                            b: raw.input(1),
                            prev: raw.prev(),
                            next: raw.next(),
                        },
                    ),
                ),
            );
        }
        if same_text(op, OPERATOR_ROUND) {
            return Some(
                Ok(BlockType::Round(Round { a: raw.input(0), prev: raw.prev(), next: raw.next() })),
            );
        }
        if same_text(op, OPERATOR_MATHOP) {
            return Some(
                Ok(
                    BlockType::Absolute(
                        Absolute { a: raw.input(0), prev: raw.prev(), next: raw.next() },
                    ),
                ),
            );
        }
        None
    }

    /// Decodes a record with one of the data opcodes; gives `None` for any
    /// other opcode.
    pub fn decode_data(raw: &RawBlock, mode: Mode) -> (r: Option<Result<BlockType, DecodeError>>)
        ensures
            attempted(r, is_data(raw@.opcode), NodeView::data(raw@, mode)),
    {
        let op = raw.opcode.as_str();
        if same_text(op, DATA_VARIABLE) {
            return Some(
                Ok(
                    BlockType::DataGetVariable(
                        DataGetVariable {
                            variable: raw.param_named("VARIABLE"),
                            prev: raw.prev(),
                            next: raw.next(),
                        },
                    ),
                ),
            );
        }
        if same_text(op, DATA_SET_VARIABLE_TO) {
            return Some(
                Ok(
                    BlockType::DataSetVariableTo(
                        DataSetVariableTo {
                            variable: raw.field_named("VARIABLE"),
                            value: raw.input_named("VALUE"),
                            prev: raw.prev(),
                            next: raw.next(),
                        },
                    ),
                ),
            );
        }
        if same_text(op, DATA_CHANGE_VARIABLE_BY) {
            return Some(
                Ok(
                    BlockType::DataChangeVariableBy(
                        DataChangeVariableBy {
                            variable: raw.field_named("VARIABLE"),
                            value: raw.input_named("VALUE"),
                            prev: raw.prev(),
                            next: raw.next(),
                        },
                    ),
                ),
            );
        }
        if same_text(op, DATA_HIDE_VARIABLE) {
            return Some(
                Ok(
                    BlockType::DataHideVariable(
                        DataHideVariable {
                            variable: raw.field_named("VARIABLE"),
                            prev: raw.prev(),
                            next: raw.next(),
                        },
                    ),
                ),
            );
        }
        if same_text(op, DATA_SHOW_VARIABLE) {
            return Some(
                Ok(
                    BlockType::DataShowVariable(
                        DataShowVariable {
                            variable: raw.field_named("VARIABLE"),
                            prev: raw.prev(),
                            next: raw.next(),
                        },
                    ),
                ),
            );
        }
        if same_text(op, DATA_LIST_CONTENTS) {
            return Some(
                Ok(
                    BlockType::DataListContents(
                        DataListContents {
                            variable: raw.field_named("VARIABLE"),
                            prev: raw.prev(),
                            next: raw.next(),
                        },
                    ),
                ),
            );
        }
        if same_text(op, DATA_ADD_TO_LIST) {
            return Some(
                Ok(
                    BlockType::DataAddToList(
                        DataAddToList {
                            item: raw.input_named("ITEM"),
                            list: raw.field_named("LIST"),
                            prev: raw.prev(),
                            next: raw.next(),
                        },
                    ),
                ),
            );
        }
        if same_text(op, DATA_DELETE_OF_LIST) {
            return Some(
                Ok(
                    BlockType::DataDeleteOfList(
                        DataDeleteOfList {
                            item: raw.input_named("INDEX"),
                            list: raw.field_named("LIST"),
                            prev: raw.prev(),
                            next: raw.next(),
                        },
                    ),
                ),
            );
        }
        if same_text(op, DATA_DELETE_ALL_OF_LIST) {
            return Some(
                Ok(
                    BlockType::DataDeleteAllOfList(
                        DataDeleteAllOfList {
                            list: raw.field_named("LIST"),
                            prev: raw.prev(),
                            next: raw.next(),
                        },
                    ),
                ),
            );
        }
        if same_text(op, DATA_INSERT_AT_LIST) {
            return Some(
                Ok(
                    BlockType::DataInsertAtList(
                        DataInsertAtList {
                            item: raw.input_named("ITEM"),
                            index: raw.input_named("INDEX"),
                            list: raw.field_named("LIST"),
                            prev: raw.prev(),
                            next: raw.next(),
                        },
                    ),
                ),
            );
        }
        if same_text(op, DATA_REPLACE_ITEM_OF_LIST) {
            return Some(
                Ok(
                    BlockType::DataReplaceItemOfList(
                        DataReplaceItemOfList {
                            item: raw.input_named("ITEM"),
                            index: raw.input_named("INDEX"),
                            list: raw.field_named("LIST"),
                            prev: raw.prev(),
                            next: raw.next(),
                        },
                    ),
                ),
            );
        }
        if same_text(op, DATA_ITEM_OF_LIST) {
            return Some(
                Ok(
                    BlockType::DataItemOfList(
                        DataItemOfList {
                            index: raw.input_named("INDEX"),
                            list: raw.field_named("LIST"),
                            prev: raw.prev(),
                            next: raw.next(),
                        },
                    ),
                ),
            );
        }
        if same_text(op, DATA_LENGTH_OF_LIST) {
            return Some(
                Ok(
                    BlockType::DataLengthOfList(
                        DataLengthOfList {
                            list: raw.field_named("LIST"),
                            prev: raw.prev(),
                            next: raw.next(),
                        },
                    ),
                ),
            );
        }
        if same_text(op, DATA_LIST_CONTAINS_ITEM) {
            return Some(
                Ok(
                    BlockType::DataListContainsItem(
                        DataListContainsItem {
                            input: raw.input_named("ITEM"),
                            list: raw.field_named("LIST"),
                            prev: raw.prev(),
                            next: raw.next(),
                        },
                    ),
                ),
            );
        }
        None
    }

    /// Decodes a record with one of the procedure opcodes; gives `None` for any
    /// other opcode.
    pub fn decode_procedures(raw: &RawBlock, mode: Mode) -> (r: Option<Result<BlockType, DecodeError>>)
        ensures
            attempted(r, is_procedures(raw@.opcode), NodeView::procedures(raw@, mode)),
    {
        let op = raw.opcode.as_str();
        if same_text(op, PROCEDURES_CALL) {
            return Some(
                Ok(
                    BlockType::ProceduresCall(
                        ProceduresCall { prev: raw.prev(), next: raw.next() },
                    ),
                ),
            );
        }
        if same_text(op, PROCEDURES_DECLARATION) {
            return Some(
                Ok(
                    BlockType::ProceduresDeclaration(
                        ProceduresDeclaration { prev: raw.prev(), next: raw.next() },
                    ),
                ),
            );
        }
        if same_text(op, PROCEDURES_DEFINITION) {
            return Some(Self::decode_definition(raw, mode));
        }
        if same_text(op, PROCEDURES_PROTOTYPE) {
            return Some(Self::decode_prototype(raw));
        }
        None
    }

    /// Decodes a costume reporter.
    fn decode_costume_reporter(raw: &RawBlock, mode: Mode) -> (r: Result<BlockType, DecodeError>)
        ensures
            outcome(r) == NodeView::costume_reporter(raw@, mode),
    {
        if let Some(Value::String(option)) = raw.field(0) {
            if same_text(option.as_str(), "number") {
                return Ok(
                    BlockType::Costume(
                        Costume::ByNumber(CostumeByNumber { prev: raw.prev(), next: raw.next() }),
                    ),
                );
            }
            if same_text(option.as_str(), "name") {
                return Ok(
                    BlockType::Costume(
                        Costume::ByName(CostumeByName { prev: raw.prev(), next: raw.next() }),
                    ),
                );
            }
        }
        match mode {
            Mode::Development => Err(DecodeError::InvalidOption),
            Mode::Production => Ok(
                BlockType::Costume(
                    Costume::WithName(
                        CostumeWithName { name: None, prev: raw.prev(), next: raw.next() },
                    ),
                ),
            ),
        }
    }

    /// Decodes a backdrop reporter.
    fn decode_backdrop_reporter(raw: &RawBlock, mode: Mode) -> (r: Result<BlockType, DecodeError>)
        ensures
            outcome(r) == NodeView::backdrop_reporter(raw@, mode),
    {
        if let Some(Value::String(option)) = raw.field(0) {
            if same_text(option.as_str(), "number") {
                return Ok(
                    BlockType::Backdrop(
                        Backdrop::ByNumber(BackdropByNumber { prev: raw.prev(), next: raw.next() }),
                    ),
                );
            }
            if same_text(option.as_str(), "name") {
                return Ok(
                    BlockType::Backdrop(
                        Backdrop::ByName(BackdropByName { prev: raw.prev(), next: raw.next() }),
                    ),
                );
            }
        }
        match mode {
            Mode::Development => Err(DecodeError::InvalidOption),
            Mode::Production => Ok(
                BlockType::Backdrop(
                    Backdrop::WithName(
                        BackdropWithName { name: None, prev: raw.prev(), next: raw.next() },
                    ),
                ),
            ),
        }
    }

    /// Decodes a procedure definition.
    fn decode_definition(raw: &RawBlock, mode: Mode) -> (r: Result<BlockType, DecodeError>)
        ensures
            outcome(r) == NodeView::definition(raw@, mode),
    {
        match raw.input_named("custom_block") {
            Value::String(block) => Ok(
                BlockType::ProceduresDefinition(
                    ProceduresDefinition { block, prev: raw.prev(), next: raw.next() },
                ),
            ),
            _ => match mode {
                Mode::Development => Err(DecodeError::UnsupportedOpcode),
                Mode::Production => Ok(
                    BlockType::InvalidOpcode(
                        InvalidOpcode {
                            name: raw.opcode.clone(),
                            prev: raw.prev(),
                            next: raw.next(),
                        },
                    ),
                ),
            },
        }
    }

    /// Decodes a procedure prototype.
    fn decode_prototype(raw: &RawBlock) -> (r: Result<BlockType, DecodeError>)
        ensures
            outcome(r) == NodeView::prototype(raw@),
    {
        match &raw.mutation {
            Some(payload) => match MutationVisitor::visit_map(payload) {
                Ok(mutation) => Ok(
                    BlockType::ProceduresPrototype(
                        ProceduresPrototype { mutation, prev: raw.prev(), next: raw.next() },
                    ),
                ),
                Err(e) => Err(e),
            },
            None => Err(DecodeError::MissingWarpFlag),
        }
    }

    /// Decodes an extracted record into its node. The node carries the
    /// links of the record.
    pub fn decode(raw: &RawBlock, mode: Mode) -> (r: Result<BlockType, DecodeError>)
        ensures
            outcome(r) == NodeView::decoded(raw@, mode),
            r matches Ok(node) ==> node.links() == raw@.links(),
    {
        proof {
            if NodeView::decoded(raw@, mode) is Ok {
                lemma_links_are_copied(raw@, mode);
            }
        }
        let op = raw.opcode.as_str();
        if unsupported(op) {
            return Err(DecodeError::UnsupportedOpcode);
        }
        if unused(op) {
            return Ok(
                BlockType::UnusedOpcode(
                    UnusedOpcode { name: raw.opcode.clone(), prev: raw.prev(), next: raw.next() },
                ),
            );
        }
        if let Some(result) = Self::decode_motion(raw, mode) {
            return result;
        }
        if let Some(result) = Self::decode_looks(raw, mode) {
            return result;
        }
        if let Some(result) = Self::decode_sound(raw, mode) {
            return result;
        }
        if let Some(result) = Self::decode_event(raw, mode) {
            return result;
        }
        if let Some(result) = Self::decode_control(raw, mode) {
            return result;
        }
        if let Some(result) = Self::decode_sensing(raw, mode) {
            return result;
        }
        if let Some(result) = Self::decode_operator(raw, mode) {
            return result;
        }
        if let Some(result) = Self::decode_data(raw, mode) {
            return result;
        }
        if let Some(result) = Self::decode_procedures(raw, mode) {
            return result;
        }
        match mode {
            Mode::Development => Err(DecodeError::UnrecognizedOpcode),
            Mode::Production => Ok(
                BlockType::InvalidOpcode(
                    InvalidOpcode { name: raw.opcode.clone(), prev: raw.prev(), next: raw.next() },
                ),
            ),
        }
    }

    /// Decodes one raw record into its node. The node carries the links
    /// that the record extracts to.
    pub fn from_json(payload: &Json, mode: Mode) -> (r: Result<BlockType, DecodeError>)
        ensures
            outcome(r) == NodeView::of_record(payload@, mode),
            r matches Ok(node) ==> node.links() == extracted(payload@)->Ok_0.links(),
    {
        match RawBlock::extract(payload) {
            Ok(raw) => Self::decode(&raw, mode),
            Err(e) => Err(e),
        }
    }

    /// Decodes a mapping of records, identifier by identifier.
    pub fn decode_all(records: &Vec<(String, Json)>, mode: Mode) -> (r: Result<
        Vec<(String, BlockType)>,
        DecodeError,
    >)
        ensures
            outcome(r) == NodeView::of_records(records.deep_view(), mode),
    {
        let ghost all = records.deep_view();
        let mut nodes: Vec<(String, BlockType)> = Vec::new();
        let mut i: usize = 0;
        assert(nodes.deep_view() =~= Seq::empty());
        while i < records.len()
            invariant
                i <= records.len(),
                all == records.deep_view(),
                NodeView::of_records(all.subrange(0, i as int), mode) == Ok::<
                    Seq<(Seq<char>, NodeView)>,
                    DecodeError,
                >(nodes.deep_view()),
            decreases records.len() - i,
        {
            let ghost before = nodes.deep_view();
            proof {
                let longer = all.subrange(0, i + 1);
                assert(longer.drop_last() =~= all.subrange(0, i as int));
                assert(longer.last() == all[i as int]);
                assert(all[i as int] == (records@[i as int].0@, records@[i as int].1@));
            }
            match Self::from_json(&records[i].1, mode) {
                Err(e) => {
                    proof {
                        lemma_failure_persists(all, mode, i + 1);
                    }
                    return Err(e);
                },
                Ok(node) => {
                    let id = records[i].0.clone();
                    nodes.push((id, node));
                    assert(nodes.deep_view() =~= before.push((records@[i as int].0@, node@)));
                },
            }
            i += 1;
        }
        assert(all.subrange(0, i as int) =~= all);
        Ok(nodes)
    }
}

/// Once a record has failed to decode, no later record undoes the failure.
pub proof fn lemma_failure_persists(records: Seq<(Seq<char>, JsonView)>, mode: Mode, k: int)
    requires
        0 <= k <= records.len(),
        NodeView::of_records(records.subrange(0, k), mode) is Err,
    ensures
        NodeView::of_records(records, mode) == NodeView::of_records(records.subrange(0, k), mode),
    decreases records.len() - k,
{
    if k == records.len() {
        assert(records.subrange(0, k) =~= records);
    } else {
        let longer = records.subrange(0, k + 1);
        assert(longer.drop_last() =~= records.subrange(0, k));
        lemma_failure_persists(records, mode, k + 1);
    }
}

/// Decoding is a function of the record: whatever two runs give for records
/// with the same model, they give outcomes with the same model.
pub proof fn lemma_same_record_same_node(
    a: Json,
    b: Json,
    mode: Mode,
    first: Result<BlockType, DecodeError>,
    second: Result<BlockType, DecodeError>,
)
    requires
        a@ == b@,
        outcome(first) == NodeView::of_record(a@, mode),
        outcome(second) == NodeView::of_record(b@, mode),
    ensures
        outcome(first) == outcome(second),
{
}

/// In production, an opcode outside the closed set decodes to the sentinel
/// that keeps its name and the record's links.
pub proof fn lemma_production_keeps_unrecognized(raw: RawBlockView)
    requires
        !is_recognized(raw.opcode),
    ensures
        NodeView::decoded(raw, Mode::Production) matches Ok(NodeView::InvalidOpcode(node))
            && node == (InvalidOpcodeView { name: raw.opcode, prev: raw.parent, next: raw.next }),
{
}

/// Production decoding is total but for two cases: an extracted record
/// fails to decode only where its opcode has no node, or where it is a
/// procedure prototype whose signature does not decode.
pub proof fn lemma_production_is_total(raw: RawBlockView)
    ensures
        NodeView::decoded(raw, Mode::Production) is Err ==> is_unsupported(raw.opcode) || (
        raw.opcode == PROCEDURES_PROTOTYPE@ && NodeView::prototype(raw) is Err),
        NodeView::decoded(raw, Mode::Production) matches Err(e) ==> e
            == DecodeError::UnsupportedOpcode || e == DecodeError::MissingWarpFlag,
{
}

/// In production, nothing unknown fails a record: neither an opcode outside
/// the closed set nor an option outside its table is an error.
pub proof fn lemma_production_tolerates_the_unknown(payload: JsonView)
    ensures
        NodeView::of_record(payload, Mode::Production) matches Err(e) ==> e
            != DecodeError::UnrecognizedOpcode && e != DecodeError::InvalidOption,
{
    if extracted(payload) is Ok {
        lemma_production_is_total(extracted(payload)->Ok_0);
    } else {
        lemma_extraction_failures(payload);
    }
}

/// In development, an opcode outside the closed set is an error; and an
/// opcode that is known but has no node is an error whatever the mode.
pub proof fn lemma_development_is_strict(raw: RawBlockView, mode: Mode)
    ensures
        !is_recognized(raw.opcode) ==> NodeView::decoded(raw, Mode::Development) matches Err(
            DecodeError::UnrecognizedOpcode,
        ),
        is_unsupported(raw.opcode) ==> NodeView::decoded(raw, mode) matches Err(
            DecodeError::UnsupportedOpcode,
        ),
{
}

/// A node decoded under one of the motion opcodes has its record's links.
proof fn lemma_motion_links(raw: RawBlockView, mode: Mode)
    requires
        NodeView::motion(raw, mode) is Ok,
    ensures
        NodeView::motion(raw, mode)->Ok_0.links() == raw.links(),
{
}

/// A node decoded under one of the looks opcodes has its record's links.
proof fn lemma_looks_links(raw: RawBlockView, mode: Mode)
    requires
        NodeView::looks(raw, mode) is Ok,
    ensures
        NodeView::looks(raw, mode)->Ok_0.links() == raw.links(),
{
}

/// A node decoded under one of the sound opcodes has its record's links.
proof fn lemma_sound_links(raw: RawBlockView, mode: Mode)
    requires
        NodeView::sound(raw, mode) is Ok,
    ensures
        NodeView::sound(raw, mode)->Ok_0.links() == raw.links(),
{
}

/// A node decoded under one of the event opcodes has its record's links.
proof fn lemma_event_links(raw: RawBlockView, mode: Mode)
    requires
        NodeView::event(raw, mode) is Ok,
    ensures
        NodeView::event(raw, mode)->Ok_0.links() == raw.links(),
{
}

/// A node decoded under one of the control opcodes has its record's links.
proof fn lemma_control_links(raw: RawBlockView, mode: Mode)
    requires
        NodeView::control(raw, mode) is Ok,
    ensures
        NodeView::control(raw, mode)->Ok_0.links() == raw.links(),
{
}

/// A node decoded under one of the sensing opcodes has its record's links.
proof fn lemma_sensing_links(raw: RawBlockView, mode: Mode)
    requires
        NodeView::sensing(raw, mode) is Ok,
    ensures
        NodeView::sensing(raw, mode)->Ok_0.links() == raw.links(),
{
}

/// A node decoded under one of the operator opcodes has its record's links.
proof fn lemma_operator_links(raw: RawBlockView, mode: Mode)
    requires
        NodeView::operator(raw, mode) is Ok,
    ensures
        NodeView::operator(raw, mode)->Ok_0.links() == raw.links(),
{
}

/// A node decoded under one of the data opcodes has its record's links.
proof fn lemma_data_links(raw: RawBlockView, mode: Mode)
    requires
        NodeView::data(raw, mode) is Ok,
    ensures
        NodeView::data(raw, mode)->Ok_0.links() == raw.links(),
{
}

/// A node decoded under one of the procedure opcodes has its record's links.
proof fn lemma_procedures_links(raw: RawBlockView, mode: Mode)
    requires
        NodeView::procedures(raw, mode) is Ok,
    ensures
        NodeView::procedures(raw, mode)->Ok_0.links() == raw.links(),
{
}

/// The links of a decoded node are those of its record, whatever its kind.
/// So a record without a link gives a node without that link.
pub proof fn lemma_links_are_copied(raw: RawBlockView, mode: Mode)
    requires
        NodeView::decoded(raw, mode) is Ok,
    ensures
        NodeView::decoded(raw, mode)->Ok_0.links() == raw.links(),
{
    if is_unsupported(raw.opcode) || is_unused(raw.opcode) {
    } else if is_motion(raw.opcode) {
        lemma_motion_links(raw, mode);
    } else if is_looks(raw.opcode) {
        lemma_looks_links(raw, mode);
    } else if is_sound(raw.opcode) {
        lemma_sound_links(raw, mode);
    } else if is_event(raw.opcode) {
        lemma_event_links(raw, mode);
    } else if is_control(raw.opcode) {
        lemma_control_links(raw, mode);
    } else if is_sensing(raw.opcode) {
        lemma_sensing_links(raw, mode);
    } else if is_operator(raw.opcode) {
        lemma_operator_links(raw, mode);
    } else if is_data(raw.opcode) {
        lemma_data_links(raw, mode);
    } else if is_procedures(raw.opcode) {
        lemma_procedures_links(raw, mode);
    }
}

/// Whatever node decoding gives for a record, the node's accessors answer
/// with the links of the record: `prev` with its parent, `next` with its
/// next.
pub proof fn lemma_accessors_give_the_records_links(raw: RawBlock, mode: Mode, node: BlockType)
    requires
        NodeView::decoded(raw@, mode) == Ok::<NodeView, DecodeError>(node@),
    ensures
        node.links() == raw@.links(),
{
    lemma_links_are_copied(raw@, mode);
}

/// A record that has no `parent` entry decodes to a node without a previous
/// link, and one that has no `next` entry to a node without a next link.
pub proof fn lemma_missing_links_are_absent(payload: JsonView, mode: Mode)
    requires
        NodeView::of_record(payload, mode) is Ok,
    ensures
        lookup(keyed(payload), "parent"@) is None ==> NodeView::of_record(
            payload,
            mode,
        )->Ok_0.links().prev is None,
        lookup(keyed(payload), "next"@) is None ==> NodeView::of_record(
            payload,
            mode,
        )->Ok_0.links().next is None,
{
    lemma_links_are_copied(extracted(payload)->Ok_0, mode);
}

} // verus!
