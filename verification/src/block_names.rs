//! The opcode names of the format, and the classes the decoder sorts them into.
use vstd::prelude::*;
use crate::text::same_text;

verus! {

// Motion.
pub const MOTION_MOVE: &'static str = "motion_movesteps";
pub const MOTION_GOTO_XY: &'static str = "motion_gotoxy";
pub const MOTION_GOTO_MENU: &'static str = "motion_goto_menu";
pub const MOTION_TURN_LEFT: &'static str = "motion_turnleft";
pub const MOTION_TURN_RIGHT: &'static str = "motion_turnright";
pub const MOTION_POINT_MENU: &'static str = "motion_pointtowards_menu";
pub const MOTION_POINT_DIRECTION: &'static str = "motion_pointindirection";
pub const MOTION_POINT_TOWARDS: &'static str = "motion_pointtowards";
pub const MOTION_GLIDE_SECONDS_TO_XY: &'static str = "motion_glidesecstoxy";
pub const MOTION_GLIDE_TO_MENU: &'static str = "motion_glideto_menu";
pub const MOTION_IF_ON_EDGE_BOUNCE: &'static str = "motion_ifonedgebounce";
pub const MOTION_SET_ROTATION_STYLE: &'static str = "motion_setrotationstyle";
pub const MOTION_CHANGE_X_BY: &'static str = "motion_changexby";
pub const MOTION_SET_X: &'static str = "motion_setx";
pub const MOTION_CHANGE_Y_BY: &'static str = "motion_changeyby";
pub const MOTION_SET_Y: &'static str = "motion_sety";
pub const MOTION_XPOSITION: &'static str = "motion_xposition";
pub const MOTION_YPOSITION: &'static str = "motion_yposition";
pub const MOTION_DIRECTION: &'static str = "motion_direction";

// Looks.
pub const LOOKS_SAY: &'static str = "looks_say";
pub const LOOKS_SAY_FOR_SECS: &'static str = "looks_sayforsecs";
pub const LOOKS_THINK: &'static str = "looks_think";
pub const LOOKS_THINK_FOR_SECS: &'static str = "looks_thinkforsecs";
pub const LOOKS_SHOW: &'static str = "looks_show";
pub const LOOKS_HIDE: &'static str = "looks_hide";
pub const LOOKS_HIDE_ALL_SPRITES: &'static str = "looks_hideallsprites";
pub const LOOKS_SWITCH_COSTUME_TO: &'static str = "looks_switchcostumeto";
pub const LOOKS_SWITCH_BACKDROP_TO: &'static str = "looks_switchbackdropto";
pub const LOOKS_SWITCH_BACKDROP_TO_AND_WAIT: &'static str = "looks_switchbackdroptoandwait";
pub const LOOKS_NEXT_COSTUME: &'static str = "looks_nextcostume";
pub const LOOKS_NEXT_BACKDROP: &'static str = "looks_nextbackdrop";
pub const LOOKS_CHANGE_EFFECT_BY: &'static str = "looks_changeeffectby";
pub const LOOKS_SET_EFFECT_TO: &'static str = "looks_seteffectto";
pub const LOOKS_CLEAR_GRAPHICS_EFFECTS: &'static str = "looks_cleargraphiceffects";
pub const LOOKS_CHANGE_SIZE_BY: &'static str = "looks_changesizeby";
pub const LOOKS_SET_SIZE_TO: &'static str = "looks_setsizeto";
pub const LOOKS_GOTO_FRONT_BACK: &'static str = "looks_gotofrontback";
pub const LOOKS_GO_FORWARD_BACKWARD_LAYERS: &'static str = "looks_goforwardbackwardlayers";
pub const LOOKS_SIZE: &'static str = "looks_size";
pub const LOOKS_COSTUME: &'static str = "looks_costume";
pub const LOOKS_COSTUME_NUMBER_NAME: &'static str = "looks_costumenumbername";
pub const LOOKS_BACKDROP: &'static str = "looks_backdrops";
pub const LOOKS_BACKDROP_NUMBER_NAME: &'static str = "looks_backdropnumbername";

// Sound.
pub const SOUND_PLAY: &'static str = "sound_play";
pub const SOUND_PLAY_UNTIL_DONE: &'static str = "sound_playuntildone";
pub const SOUND_STOP_ALL_SOUNDS: &'static str = "sound_stopallsounds";
pub const SOUND_SET_EFFECT_TO: &'static str = "sound_seteffectto";
pub const SOUND_CHANGE_EFFECT_BY: &'static str = "sound_changeeffectby";
pub const SOUND_CLEAR_EFFECTS: &'static str = "sound_cleareffects";
pub const SOUND_SET_VOLUME_TO: &'static str = "sound_setvolumeto";
pub const SOUND_CHANGE_VOLUME_BY: &'static str = "sound_changevolumeby";
pub const SOUND_VOLUME: &'static str = "sound_volume";
pub const SOUND_SOUNDS_MENU: &'static str = "sound_sounds_menu";
pub const SOUND_EFFECTS_MENU: &'static str = "sound_effects_menu";

// Events.
pub const EVENT_BROADCAST: &'static str = "event_broadcast";
pub const EVENT_BROADCAST_AND_WAIT: &'static str = "event_broadcastandwait";
pub const EVENT_WHEN_GREATER_THAN: &'static str = "event_whengreaterthan";
pub const EVENT_WHEN_FLAG_CLICKED: &'static str = "event_whenflagclicked";
pub const EVENT_WHEN_KEY_PRESSED: &'static str = "event_whenkeypressed";
pub const EVENT_WHEN_THIS_SPRITECLICKED: &'static str = "event_whenthisspriteclicked";
pub const EVENT_WHEN_STAGE_CLICKED: &'static str = "event_whenstageclicked";
pub const EVENT_WHEN_BACKDROP_SWITCHESTO: &'static str = "event_whenbackdropswitchesto";
pub const EVENT_WHEN_BROADCAST_RECEIVED: &'static str = "event_whenbroadcastreceived";

// Control.
pub const CONTROL_REPEAT: &'static str = "control_repeat";
pub const CONTROL_REPEAT_UNTIL: &'static str = "control_repeat_until";
pub const CONTROL_WHILE: &'static str = "control_while";
pub const CONTROL_FOREVER: &'static str = "control_forever";
pub const CONTROL_WAIT: &'static str = "control_wait";
pub const CONTROL_WAIT_UNTIL: &'static str = "control_wait_until";
pub const CONTROL_IF: &'static str = "control_if";
pub const CONTROL_IF_ELSE: &'static str = "control_if_else";
pub const CONTROL_STOP: &'static str = "control_stop";
pub const CONTROL_CREATE_CLONE_OF: &'static str = "control_create_clone_of";
pub const CONTROL_DELETE_THIS_CLONE: &'static str = "control_delete_this_clone";

// Sensing.
pub const SENSING_TOUCHING_OBJECT_MENU: &'static str = "sensing_touchingobjectmenu";
pub const SENSING_TOUCHING_OBJECT: &'static str = "sensing_touchingobject";
pub const SENSING_TOUCHING_COLOR: &'static str = "sensing_touchingcolor";
pub const SENSING_COLOR_IS_TOUCHING_COLOR: &'static str = "sensing_coloristouchingcolor";
pub const SENSING_DISTANCE_TO: &'static str = "sensing_distanceto";
pub const SENSING_TIMER: &'static str = "sensing_timer";
pub const SENSING_RESET_TIMER: &'static str = "sensing_resettimer";
pub const SENSING_MOUSE_X: &'static str = "sensing_mousex";
pub const SENSING_MOUSE_Y: &'static str = "sensing_mousey";
pub const SENSING_SET_DRAG_MODE: &'static str = "sensing_setdragmode";
pub const SENSING_MOUSE_DOWN: &'static str = "sensing_mousedown";
pub const SENSING_KEY_PRESSED: &'static str = "sensing_keypressed";
pub const SENSING_CURRENT: &'static str = "sensing_current";
pub const SENSING_DAYS_SINCE_2000: &'static str = "sensing_dayssince2000";
pub const SENSING_LOUDNESS: &'static str = "sensing_loudness";
pub const SENSING_ANSWER: &'static str = "sensing_answer";
pub const SENSING_USERNAME: &'static str = "sensing_username";

// Operators.
pub const OPERATOR_ADD: &'static str = "operator_add";
pub const OPERATOR_SUBTRACT: &'static str = "operator_subtract";
pub const OPERATOR_MULTIPLY: &'static str = "operator_multiply";
pub const OPERATOR_DIVIDE: &'static str = "operator_divide";
pub const OPERATOR_LESSER_THEN: &'static str = "operator_lt";
pub const OPERATOR_EQUALS: &'static str = "operator_equals";
pub const OPERATOR_GREATER_THEN: &'static str = "operator_gt";
pub const OPERATOR_AND: &'static str = "operator_and";
pub const OPERATOR_OR: &'static str = "operator_or";
pub const OPERATOR_NOT: &'static str = "operator_not";
pub const OPERATOR_RANDOM: &'static str = "operator_random";
pub const OPERATOR_JOIN: &'static str = "operator_join";
pub const OPERATOR_LETTER_OF: &'static str = "operator_letter_of";
pub const OPERATOR_LENGTH: &'static str = "operator_length";
pub const OPERATOR_CONTAINS: &'static str = "operator_contains";
pub const OPERATOR_MOD: &'static str = "operator_mod";
pub const OPERATOR_ROUND: &'static str = "operator_round";
pub const OPERATOR_MATHOP: &'static str = "operator_mathop";

// Data.
pub const DATA_VARIABLE: &'static str = "data_variable";
pub const DATA_SET_VARIABLE_TO: &'static str = "data_setvariableto";
pub const DATA_CHANGE_VARIABLE_BY: &'static str = "data_changevariableby";
pub const DATA_HIDE_VARIABLE: &'static str = "data_hidevariable";
pub const DATA_SHOW_VARIABLE: &'static str = "data_showvariable";
pub const DATA_LIST_CONTENTS: &'static str = "data_listcontents";
pub const DATA_ADD_TO_LIST: &'static str = "data_addtolist";
pub const DATA_DELETE_OF_LIST: &'static str = "data_deleteoflist";
pub const DATA_DELETE_ALL_OF_LIST: &'static str = "data_deletealloflist";
pub const DATA_INSERT_AT_LIST: &'static str = "data_insertatlist";
pub const DATA_REPLACE_ITEM_OF_LIST: &'static str = "data_replaceitemoflist";
pub const DATA_ITEM_OF_LIST: &'static str = "data_itemoflist";
pub const DATA_LENGTH_OF_LIST: &'static str = "data_lengthoflist";
pub const DATA_LIST_CONTAINS_ITEM: &'static str = "data_listcontainsitem";

// Custom procedures.
pub const PROCEDURES_CALL: &'static str = "procedures_call";
pub const PROCEDURES_DECLARATION: &'static str = "procedures_declaration";
pub const PROCEDURES_DEFINITION: &'static str = "procedures_definition";
pub const PROCEDURES_PROTOTYPE: &'static str = "procedures_prototype";

// Known to the format, with no node of their own.
pub const MOTION_SCROLL_RIGHT: &'static str = "motion_scroll_right";
pub const MOTION_SCROLL_UP: &'static str = "motion_scroll_up";
pub const MOTION_ALIGN_SCENE: &'static str = "motion_align_scene";
pub const MOTION_XSCROLL: &'static str = "motion_xscroll";
pub const MOTION_YSCROLL: &'static str = "motion_yscroll";
pub const LOOKS_CHANGE_STRETCH_BY: &'static str = "looks_changestretchby";
pub const LOOKS_SET_STRETCH_TO: &'static str = "looks_setstretchto";
pub const EVENT_WHEN_TOUCHING_OBJECT: &'static str = "event_whentouchingobject";
pub const CONTROL_FOR_EACH: &'static str = "control_for_each";
pub const SENSING_OF: &'static str = "sensing_of";
pub const SENSING_LOUD: &'static str = "sensing_loud";
pub const SENSING_ASK_AND_WAIT: &'static str = "sensing_askandwait";
pub const SENSING_USER_ID: &'static str = "sensing_userid";

// Scaffolding of the editor.
pub const MOTION_GOTO: &'static str = "motion_goto";
pub const SOUNDS_BEATS_MENU: &'static str = "sound_beats_menu";
pub const MOTION_GLIDE_TO: &'static str = "motion_glideto";

/// Whether `opcode` is one of the motion opcodes that have a node.
pub open spec fn is_motion(opcode: Seq<char>) -> bool {
    ||| opcode == MOTION_MOVE@
    ||| opcode == MOTION_GOTO_XY@
    ||| opcode == MOTION_GOTO_MENU@
    ||| opcode == MOTION_TURN_LEFT@
    ||| opcode == MOTION_TURN_RIGHT@
    ||| opcode == MOTION_POINT_MENU@
    ||| opcode == MOTION_POINT_DIRECTION@
    ||| opcode == MOTION_POINT_TOWARDS@
    ||| opcode == MOTION_GLIDE_SECONDS_TO_XY@
    ||| opcode == MOTION_GLIDE_TO_MENU@
    ||| opcode == MOTION_IF_ON_EDGE_BOUNCE@
    ||| opcode == MOTION_SET_ROTATION_STYLE@
    ||| opcode == MOTION_CHANGE_X_BY@
    ||| opcode == MOTION_SET_X@
    ||| opcode == MOTION_CHANGE_Y_BY@
    ||| opcode == MOTION_SET_Y@
    ||| opcode == MOTION_XPOSITION@
    ||| opcode == MOTION_YPOSITION@
    ||| opcode == MOTION_DIRECTION@
}

/// Whether `opcode` is one of the looks opcodes that have a node.
pub open spec fn is_looks(opcode: Seq<char>) -> bool {
    ||| opcode == LOOKS_SAY@
    ||| opcode == LOOKS_SAY_FOR_SECS@
    ||| opcode == LOOKS_THINK@
    ||| opcode == LOOKS_THINK_FOR_SECS@
    ||| opcode == LOOKS_SHOW@
    ||| opcode == LOOKS_HIDE@
    ||| opcode == LOOKS_HIDE_ALL_SPRITES@
    ||| opcode == LOOKS_SWITCH_COSTUME_TO@
    ||| opcode == LOOKS_SWITCH_BACKDROP_TO@
    ||| opcode == LOOKS_SWITCH_BACKDROP_TO_AND_WAIT@
    ||| opcode == LOOKS_NEXT_COSTUME@
    ||| opcode == LOOKS_NEXT_BACKDROP@
    ||| opcode == LOOKS_CHANGE_EFFECT_BY@
    ||| opcode == LOOKS_SET_EFFECT_TO@
    ||| opcode == LOOKS_CLEAR_GRAPHICS_EFFECTS@
    ||| opcode == LOOKS_CHANGE_SIZE_BY@
    ||| opcode == LOOKS_SET_SIZE_TO@
    ||| opcode == LOOKS_GOTO_FRONT_BACK@
    ||| opcode == LOOKS_GO_FORWARD_BACKWARD_LAYERS@
    ||| opcode == LOOKS_SIZE@
    ||| opcode == LOOKS_COSTUME@
    ||| opcode == LOOKS_COSTUME_NUMBER_NAME@
    ||| opcode == LOOKS_BACKDROP@
    ||| opcode == LOOKS_BACKDROP_NUMBER_NAME@
}

/// Whether `opcode` is one of the sound opcodes that have a node.
pub open spec fn is_sound(opcode: Seq<char>) -> bool {
    ||| opcode == SOUND_PLAY@
    ||| opcode == SOUND_PLAY_UNTIL_DONE@
    ||| opcode == SOUND_STOP_ALL_SOUNDS@
    ||| opcode == SOUND_SET_EFFECT_TO@
    ||| opcode == SOUND_CHANGE_EFFECT_BY@
    ||| opcode == SOUND_CLEAR_EFFECTS@
    ||| opcode == SOUND_SET_VOLUME_TO@
    ||| opcode == SOUND_CHANGE_VOLUME_BY@
    ||| opcode == SOUND_VOLUME@
    ||| opcode == SOUND_SOUNDS_MENU@
    ||| opcode == SOUND_EFFECTS_MENU@
}

/// Whether `opcode` is one of the events opcodes that have a node.
pub open spec fn is_event(opcode: Seq<char>) -> bool {
    ||| opcode == EVENT_BROADCAST@
    ||| opcode == EVENT_BROADCAST_AND_WAIT@
    ||| opcode == EVENT_WHEN_GREATER_THAN@
    ||| opcode == EVENT_WHEN_FLAG_CLICKED@
    ||| opcode == EVENT_WHEN_KEY_PRESSED@
    ||| opcode == EVENT_WHEN_THIS_SPRITECLICKED@
    ||| opcode == EVENT_WHEN_STAGE_CLICKED@
    ||| opcode == EVENT_WHEN_BACKDROP_SWITCHESTO@
    ||| opcode == EVENT_WHEN_BROADCAST_RECEIVED@
}

/// Whether `opcode` is one of the control opcodes that have a node.
pub open spec fn is_control(opcode: Seq<char>) -> bool {
    ||| opcode == CONTROL_REPEAT@
    ||| opcode == CONTROL_REPEAT_UNTIL@
    ||| opcode == CONTROL_WHILE@
    ||| opcode == CONTROL_FOREVER@
    ||| opcode == CONTROL_WAIT@
    ||| opcode == CONTROL_WAIT_UNTIL@
    ||| opcode == CONTROL_IF@
    ||| opcode == CONTROL_IF_ELSE@
    ||| opcode == CONTROL_STOP@
    ||| opcode == CONTROL_CREATE_CLONE_OF@
    ||| opcode == CONTROL_DELETE_THIS_CLONE@
}

/// Whether `opcode` is one of the sensing opcodes that have a node.
pub open spec fn is_sensing(opcode: Seq<char>) -> bool {
    ||| opcode == SENSING_TOUCHING_OBJECT_MENU@
    ||| opcode == SENSING_TOUCHING_OBJECT@
    ||| opcode == SENSING_TOUCHING_COLOR@
    ||| opcode == SENSING_COLOR_IS_TOUCHING_COLOR@
    ||| opcode == SENSING_DISTANCE_TO@
    ||| opcode == SENSING_TIMER@
    ||| opcode == SENSING_RESET_TIMER@
    ||| opcode == SENSING_MOUSE_X@
    ||| opcode == SENSING_MOUSE_Y@
    ||| opcode == SENSING_SET_DRAG_MODE@
    ||| opcode == SENSING_MOUSE_DOWN@
    ||| opcode == SENSING_KEY_PRESSED@
    ||| opcode == SENSING_CURRENT@
    ||| opcode == SENSING_DAYS_SINCE_2000@
    ||| opcode == SENSING_LOUDNESS@
    ||| opcode == SENSING_ANSWER@
    ||| opcode == SENSING_USERNAME@
}

/// Whether `opcode` is one of the operators opcodes that have a node.
pub open spec fn is_operator(opcode: Seq<char>) -> bool {
    ||| opcode == OPERATOR_ADD@
    ||| opcode == OPERATOR_SUBTRACT@
    ||| opcode == OPERATOR_MULTIPLY@
    ||| opcode == OPERATOR_DIVIDE@
    ||| opcode == OPERATOR_LESSER_THEN@
    ||| opcode == OPERATOR_EQUALS@
    ||| opcode == OPERATOR_GREATER_THEN@
    ||| opcode == OPERATOR_AND@
    ||| opcode == OPERATOR_OR@
    ||| opcode == OPERATOR_NOT@
    ||| opcode == OPERATOR_RANDOM@
    ||| opcode == OPERATOR_JOIN@
    ||| opcode == OPERATOR_LETTER_OF@
    ||| opcode == OPERATOR_LENGTH@
    ||| opcode == OPERATOR_CONTAINS@
    ||| opcode == OPERATOR_MOD@
    ||| opcode == OPERATOR_ROUND@
    ||| opcode == OPERATOR_MATHOP@
}

/// Whether `opcode` is one of the data opcodes that have a node.
pub open spec fn is_data(opcode: Seq<char>) -> bool {
    ||| opcode == DATA_VARIABLE@
    ||| opcode == DATA_SET_VARIABLE_TO@
    ||| opcode == DATA_CHANGE_VARIABLE_BY@
    ||| opcode == DATA_HIDE_VARIABLE@
    ||| opcode == DATA_SHOW_VARIABLE@
    ||| opcode == DATA_LIST_CONTENTS@
    ||| opcode == DATA_ADD_TO_LIST@
    ||| opcode == DATA_DELETE_OF_LIST@
    ||| opcode == DATA_DELETE_ALL_OF_LIST@
    ||| opcode == DATA_INSERT_AT_LIST@
    ||| opcode == DATA_REPLACE_ITEM_OF_LIST@
    ||| opcode == DATA_ITEM_OF_LIST@
    ||| opcode == DATA_LENGTH_OF_LIST@
    ||| opcode == DATA_LIST_CONTAINS_ITEM@
}

/// Whether `opcode` is one of the custom procedures opcodes that have a node.
pub open spec fn is_procedures(opcode: Seq<char>) -> bool {
    ||| opcode == PROCEDURES_CALL@
    ||| opcode == PROCEDURES_DECLARATION@
    ||| opcode == PROCEDURES_DEFINITION@
    ||| opcode == PROCEDURES_PROTOTYPE@
}

/// Whether `opcode` has a node of its own.
pub open spec fn is_mapped(opcode: Seq<char>) -> bool {
    ||| is_motion(opcode)
    ||| is_looks(opcode)
    ||| is_sound(opcode)
    ||| is_event(opcode)
    ||| is_control(opcode)
    ||| is_sensing(opcode)
    ||| is_operator(opcode)
    ||| is_data(opcode)
    ||| is_procedures(opcode)
}

/// Whether `opcode` is known to the format but has no node.
pub open spec fn is_unsupported(opcode: Seq<char>) -> bool {
    ||| opcode == MOTION_SCROLL_RIGHT@
    ||| opcode == MOTION_SCROLL_UP@
    ||| opcode == MOTION_ALIGN_SCENE@
    ||| opcode == MOTION_XSCROLL@
    ||| opcode == MOTION_YSCROLL@
    ||| opcode == LOOKS_CHANGE_STRETCH_BY@
    ||| opcode == LOOKS_SET_STRETCH_TO@
    ||| opcode == EVENT_WHEN_TOUCHING_OBJECT@
    ||| opcode == CONTROL_FOR_EACH@
    ||| opcode == SENSING_OF@
    ||| opcode == SENSING_LOUD@
    ||| opcode == SENSING_ASK_AND_WAIT@
    ||| opcode == SENSING_USER_ID@
}

/// Whether `opcode` is scaffolding that says nothing of its own.
pub open spec fn is_unused(opcode: Seq<char>) -> bool {
    ||| opcode == MOTION_GOTO@
    ||| opcode == SOUNDS_BEATS_MENU@
    ||| opcode == MOTION_GLIDE_TO@
}

/// Whether `opcode` belongs to the closed set that the format defines.
pub open spec fn is_recognized(opcode: Seq<char>) -> bool {
    is_mapped(opcode) || is_unsupported(opcode) || is_unused(opcode)
}

/// Tells whether `opcode` is known to the format but has no node.
pub fn unsupported(opcode: &str) -> (yes: bool)
    ensures
        yes == is_unsupported(opcode@),
{
    same_text(opcode, MOTION_SCROLL_RIGHT)
    || same_text(opcode, MOTION_SCROLL_UP)
    || same_text(opcode, MOTION_ALIGN_SCENE)
    || same_text(opcode, MOTION_XSCROLL)
    || same_text(opcode, MOTION_YSCROLL)
    || same_text(opcode, LOOKS_CHANGE_STRETCH_BY)
    || same_text(opcode, LOOKS_SET_STRETCH_TO)
    || same_text(opcode, EVENT_WHEN_TOUCHING_OBJECT)
    || same_text(opcode, CONTROL_FOR_EACH)
    || same_text(opcode, SENSING_OF)
    || same_text(opcode, SENSING_LOUD)
    || same_text(opcode, SENSING_ASK_AND_WAIT)
    || same_text(opcode, SENSING_USER_ID)
}

/// Tells whether `opcode` is scaffolding that says nothing of its own.
pub fn unused(opcode: &str) -> (yes: bool)
    ensures
        yes == is_unused(opcode@),
{
    same_text(opcode, MOTION_GOTO)
    || same_text(opcode, SOUNDS_BEATS_MENU)
    || same_text(opcode, MOTION_GLIDE_TO)
}

} // verus!
