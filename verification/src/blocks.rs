//! The node model: every kind of block, and the links that they share.
use vstd::prelude::*;
pub use crate::block_defs::control::{
    CreateCloneOf, CreateCloneOfView, DeleteClone, Forever, IfThen, IfThenElse, IfThenElseView,
    IfThenView, Repeat, RepeatUntil, RepeatUntilView, RepeatView, SpriteOption, SpriteOptionView,
    StopAll, WaitSeconds, WaitSecondsView, WaitUntil, WaitUntilView, WhenIStartAsAClone,
};
pub use crate::block_defs::custom::{
    Mutation, MutationView, MutationVisitor, ProceduresCall, ProceduresDeclaration,
    ProceduresDefinition, ProceduresDefinitionView, ProceduresPrototype, ProceduresPrototypeView,
};
pub use crate::block_defs::data::{
    DataAddToList, DataAddToListView, DataChangeVariableBy, DataChangeVariableByView,
    DataDeleteAllOfList, DataDeleteAllOfListView, DataDeleteOfList, DataDeleteOfListView,
    DataGetVariable, DataGetVariableView, DataHideList, DataHideListView, DataHideVariable,
    DataHideVariableView, DataInsertAtList, DataInsertAtListView, DataItemOfList,
    DataItemOfListView, DataLengthOfList, DataLengthOfListView, DataListContainsItem,
    DataListContainsItemView, DataListContents, DataListContentsView, DataListIndexAll,
    DataListIndexAllRandom, DataReplaceItemOfList, DataReplaceItemOfListView, DataSetVariableTo,
    DataSetVariableToView, DataShowList, DataShowListView, DataShowVariable, DataShowVariableView,
};
pub use crate::block_defs::events::{
    Broadcast, BroadcastAndWait, BroadcastAndWaitView, BroadcastView, EventOption, Key,
    WhenBackdropSwitchesTo, WhenBackdropSwitchesToView, WhenGreenFlagClicked, WhenIRecieveBroadcast,
    WhenIRecieveBroadcastView, WhenKeyPressed, WhenKeyPressedView, WhenOptionGreaterThen,
    WhenOptionGreaterThenView, WhenSpriteClicked, WhenStageClicked,
};
pub use crate::block_defs::look::{
    Backdrop, BackdropByName, BackdropByNumber, BackdropView, BackdropWithName,
    BackdropWithNameView, ChangeLayer, ChangeLayerView, ChangeSize, ChangeSizeView,
    ClearGraphicEffects, Costume, CostumeByName, CostumeByNumber, CostumeView, CostumeWithName,
    CostumeWithNameView, GotoLayer, GotoLayerView, HideAllSprites, HideSprite, LayerDirection,
    LayerDirectionView, LayerOption, NextBackdrop, NextCostume, Say, SayForever, SayForeverView,
    SayView, SetSize, SetSizeView, ShowSprite, Size, SwitchBackdrop, SwitchBackdropAndWait,
    SwitchBackdropAndWaitView, SwitchBackdropView, SwitchCostume, SwitchCostumeAndWait,
    SwitchCostumeAndWaitView, SwitchCostumeView, Think, ThinkForever, ThinkForeverView, ThinkView,
};
pub use crate::block_defs::motion::{
    ChangeX, ChangeXView, ChangeY, ChangeYView, Direction, Glide, GlideOption, GlideOptionView,
    GlidePos, GlidePosView, GlideView, Goto, GotoOption, GotoOptionView, GotoPos, GotoPosView,
    GotoView, IfOnEdgeBounce, Move, MoveView, MovementOption, Point, PointDirection,
    PointDirectionView, PointOption, PointOptionView, PointTowardsMenu, PointTowardsMenuView,
    PointView, RotateLeft, RotateLeftView, RotateRight, RotateRightView, RotationStyle,
    SetRotationStyle, SetRotationStyleView, SetX, SetXView, SetY, SetYView, XPosition, YPosition,
};
pub use crate::block_defs::operators::{
    Absolute, AbsoluteView, Add, AddView, And, AndView, Contains, ContainsView, Divide, DivideView,
    EqualTo, EqualToView, GreaterThen, GreaterThenView, Join, JoinView, LengthOf, LengthOfView,
    LesserThen, LesserThenView, LetterOf, LetterOfView, Modulo, ModuloView, Mul, MulView, Not,
    NotView, Or, OrView, PickRandom, PickRandomView, Round, RoundView, Sub, SubView,
};
pub use crate::block_defs::sensing::{
    Answer, BackdropOf, BackdropOfOption, BackdropOfView, ColorTouchingColor,
    ColorTouchingColorView, CurrentTime, CurrentTimeOption, CurrentTimeView, DaysSince2000,
    DistanceTo, DistanceToView, DraggableOption, KeyPressed, KeyPressedView, Loudness, MouseDown,
    MouseX, MouseY, ResetTimer, SensingOption, SensingOptionView, SetDragMode, SetDragModeView,
    Timer, Touching, TouchingColor, TouchingColorView, TouchingMenu, TouchingMenuView, TouchingView,
    Username,
};
pub use crate::block_defs::sound::{
    ChangeEffectBy, ChangeEffectByView, ChangeVolumeBy, ChangeVolumeByView, ClearSoundEffects,
    PlaySound, PlaySoundUntilDone, PlaySoundUntilDoneView, PlaySoundView, SetEffectTo,
    SetEffectToView, SetVolumeTo, SetVolumeToView, SoundEffect, SoundEffectsMenu,
    SoundEffectsMenuView, SoundSoundsMenu, SoundSoundsMenuView, StartSound, StartSoundView,
    StopAllSounds, Volume,
};
use crate::raw::clone_link;
pub use crate::value::{Value, ValueView};

verus! {

/// The model of a node's links: the identifiers of the node before it and
/// of the node after it.
pub ghost struct Links {
    pub prev: Option<Seq<char>>,
    pub next: Option<Seq<char>>,
}

/// Any node that is linked to the node before it and the node after it.
pub trait Block {
    /// The links of this node.
    spec fn links(&self) -> Links;

    /// The identifier of the node before this one, if there is one.
    fn prev(&self) -> (id: Option<String>)
        ensures
            id.deep_view() == self.links().prev,
    ;

    /// The identifier of the node after this one, if there is one.
    fn next(&self) -> (id: Option<String>)
        ensures
            id.deep_view() == self.links().next,
    ;
}

/// An opcode that the format emits as scaffolding of the editor; only its name is kept.
#[derive(Debug, Clone, PartialEq)]
pub struct UnusedOpcode {
    pub name: String,
    pub prev: Option<String>,
    pub next: Option<String>,
}

/// The mathematical model of [`UnusedOpcode`].
pub ghost struct UnusedOpcodeView {
    pub name: Seq<char>,
    pub prev: Option<Seq<char>>,
    pub next: Option<Seq<char>>,
}

impl DeepView for UnusedOpcode {
    type V = UnusedOpcodeView;

    open spec fn deep_view(&self) -> UnusedOpcodeView {
        UnusedOpcodeView {
            name: self.name.deep_view(),
            prev: self.prev.deep_view(),
            next: self.next.deep_view(),
        }
    }
}

impl Block for UnusedOpcode {
    open spec fn links(&self) -> Links {
        Links { prev: self.prev.deep_view(), next: self.next.deep_view() }
    }

    fn prev(&self) -> (id: Option<String>) {
        clone_link(&self.prev)
    }

    fn next(&self) -> (id: Option<String>) {
        clone_link(&self.next)
    }
}

/// An opcode outside the closed set; only its name is kept.
#[derive(Debug, Clone, PartialEq)]
pub struct InvalidOpcode {
    pub name: String,
    pub prev: Option<String>,
    pub next: Option<String>,
}

/// The mathematical model of [`InvalidOpcode`].
pub ghost struct InvalidOpcodeView {
    pub name: Seq<char>,
    pub prev: Option<Seq<char>>,
    pub next: Option<Seq<char>>,
}

impl DeepView for InvalidOpcode {
    type V = InvalidOpcodeView;

    open spec fn deep_view(&self) -> InvalidOpcodeView {
        InvalidOpcodeView {
            name: self.name.deep_view(),
            prev: self.prev.deep_view(),
            next: self.next.deep_view(),
        }
    }
}

impl Block for InvalidOpcode {
    open spec fn links(&self) -> Links {
        Links { prev: self.prev.deep_view(), next: self.next.deep_view() }
    }

    fn prev(&self) -> (id: Option<String>) {
        clone_link(&self.prev)
    }

    fn next(&self) -> (id: Option<String>) {
        clone_link(&self.next)
    }
}

/// One decoded block.
#[derive(Debug, Clone, PartialEq)]
pub enum BlockType {
    // Motion blocks
    Move(Move),
    RotateLeft(RotateLeft),
    RotateRight(RotateRight),
    /// Goes to a named target, or to an x and y coordinate.
    Goto(Goto),
    /// Glides to a named target, or to an x and y coordinate.
    Glide(Glide),
    /// Points towards a target, or in a direction.
    Point(Point),
    ChangeX(ChangeX),
    SetX(SetX),
    ChangeY(ChangeY),
    SetY(SetY),
    IfOnEdgeBounce(IfOnEdgeBounce),
    SetRotationStyle(SetRotationStyle),
    XPosition(XPosition),
    YPosition(YPosition),
    Direction(Direction),
    // Looks blocks
    Say(Say),
    SayForever(SayForever),
    Think(Think),
    ThinkForever(ThinkForever),
    SwitchCostume(SwitchCostume),
    NextCostume(NextCostume),
    SwitchBackdrop(SwitchBackdrop),
    SwitchBackdropAndWait(SwitchBackdropAndWait),
    NextBackdrop(NextBackdrop),
    ChangeSize(ChangeSize),
    SetSize(SetSize),
    ClearGraphicEffects(ClearGraphicEffects),
    ShowSprite(ShowSprite),
    HideSprite(HideSprite),
    HideAllSprites(HideAllSprites),
    GotoLayer(GotoLayer),
    ChangeLayer(ChangeLayer),
    Costume(Costume),
    Backdrop(Backdrop),
    Size(Size),
    // Sound blocks
    PlaySound(PlaySound),
    PlaySoundUntilDone(PlaySoundUntilDone),
    StartSound(StartSound),
    StopAllSounds(StopAllSounds),
    ChangeEffectBy(ChangeEffectBy),
    SetEffectTo(SetEffectTo),
    ClearSoundEffects(ClearSoundEffects),
    ChangeVolumeBy(ChangeVolumeBy),
    SetVolumeTo(SetVolumeTo),
    Volume(Volume),
    // Event blocks
    WhenGreenFlagClicked(WhenGreenFlagClicked),
    WhenKeyPressed(WhenKeyPressed),
    WhenSpriteClicked(WhenSpriteClicked),
    WhenStageClicked(WhenStageClicked),
    WhenBackdropSwitchesTo(WhenBackdropSwitchesTo),
    WhenOptionGreaterThen(WhenOptionGreaterThen),
    WhenIRecieveBroadcast(WhenIRecieveBroadcast),
    Broadcast(Broadcast),
    BroadcastAndWait(BroadcastAndWait),
    // Control blocks
    WaitSeconds(WaitSeconds),
    Repeat(Repeat),
    Forever(Forever),
    IfThen(IfThen),
    IfThenElse(IfThenElse),
    WaitUntil(WaitUntil),
    RepeatUntil(RepeatUntil),
    StopAll(StopAll),
    WhenIStartAsAClone(WhenIStartAsAClone),
    CreateCloneOf(CreateCloneOf),
    DeleteClone(DeleteClone),
    // Sensing blocks
    Touching(Touching),
    TouchingMenu(TouchingMenu),
    TouchingColor(TouchingColor),
    ColorTouchingColor(ColorTouchingColor),
    DistanceTo(DistanceTo),
    Answer(Answer),
    KeyPressed(KeyPressed),
    MouseDown(MouseDown),
    MouseX(MouseX),
    MouseY(MouseY),
    DraggableOption(DraggableOption),
    SetDragMode(SetDragMode),
    Loudness(Loudness),
    Timer(Timer),
    ResetTimer(ResetTimer),
    BackdropOf(BackdropOf),
    CurrentTime(CurrentTime),
    DaysSince2000(DaysSince2000),
    Username(Username),
    // Operator blocks
    Add(Add),
    Sub(Sub),
    Mul(Mul),
    Divide(Divide),
    PickRandom(PickRandom),
    GreaterThen(GreaterThen),
    LesserThen(LesserThen),
    EqualTo(EqualTo),
    And(And),
    Or(Or),
    Not(Not),
    Join(Join),
    LetterOf(LetterOf),
    LengthOf(LengthOf),
    Contains(Contains),
    Modulo(Modulo),
    Round(Round),
    Absolute(Absolute),
    // Menus
    SoundEffectsMenu(SoundEffectsMenu),
    SoundSoundsMenu(SoundSoundsMenu),
    PointTowardsMenu(PointTowardsMenu),
    // Data blocks
    DataGetVariable(DataGetVariable),
    DataSetVariableTo(DataSetVariableTo),
    DataChangeVariableBy(DataChangeVariableBy),
    DataShowVariable(DataShowVariable),
    DataHideVariable(DataHideVariable),
    DataListContents(DataListContents),
    DataListIndexAll(DataListIndexAll),
    DataListIndexAllRandom(DataListIndexAllRandom),
    DataAddToList(DataAddToList),
    DataDeleteOfList(DataDeleteOfList),
    DataDeleteAllOfList(DataDeleteAllOfList),
    DataInsertAtList(DataInsertAtList),
    DataReplaceItemOfList(DataReplaceItemOfList),
    DataItemOfList(DataItemOfList),
    DataLengthOfList(DataLengthOfList),
    DataListContainsItem(DataListContainsItem),
    ShowList(DataShowList),
    HideList(DataHideList),
    // Custom procedures
    ProceduresCall(ProceduresCall),
    ProceduresDeclaration(ProceduresDeclaration),
    ProceduresDefinition(ProceduresDefinition),
    ProceduresPrototype(ProceduresPrototype),
    // Sentinels
    /// An opcode that the format emits as scaffolding, with nothing of its own to say.
    UnusedOpcode(UnusedOpcode),
    /// An opcode outside the closed set, kept so that decoding can go on.
    InvalidOpcode(InvalidOpcode),
    /// A block that is connected to nothing.
    Stray,
}

/// The mathematical model of a [`BlockType`].
pub ghost enum NodeView {
    Move(MoveView),
    RotateLeft(RotateLeftView),
    RotateRight(RotateRightView),
    Goto(GotoView),
    Glide(GlideView),
    Point(PointView),
    ChangeX(ChangeXView),
    SetX(SetXView),
    ChangeY(ChangeYView),
    SetY(SetYView),
    IfOnEdgeBounce(Links),
    SetRotationStyle(SetRotationStyleView),
    XPosition(Links),
    YPosition(Links),
    Direction(Links),
    Say(SayView),
    SayForever(SayForeverView),
    Think(ThinkView),
    ThinkForever(ThinkForeverView),
    SwitchCostume(SwitchCostumeView),
    NextCostume(Links),
    SwitchBackdrop(SwitchBackdropView),
    SwitchBackdropAndWait(SwitchBackdropAndWaitView),
    NextBackdrop(Links),
    ChangeSize(ChangeSizeView),
    SetSize(SetSizeView),
    ClearGraphicEffects(Links),
    ShowSprite(Links),
    HideSprite(Links),
    HideAllSprites(Links),
    GotoLayer(GotoLayerView),
    ChangeLayer(ChangeLayerView),
    Costume(CostumeView),
    Backdrop(BackdropView),
    Size(Links),
    PlaySound(PlaySoundView),
    PlaySoundUntilDone(PlaySoundUntilDoneView),
    StartSound(StartSoundView),
    StopAllSounds(Links),
    ChangeEffectBy(ChangeEffectByView),
    SetEffectTo(SetEffectToView),
    ClearSoundEffects(Links),
    ChangeVolumeBy(ChangeVolumeByView),
    SetVolumeTo(SetVolumeToView),
    Volume(Links),
    WhenGreenFlagClicked(Links),
    WhenKeyPressed(WhenKeyPressedView),
    WhenSpriteClicked(Links),
    WhenStageClicked(Links),
    WhenBackdropSwitchesTo(WhenBackdropSwitchesToView),
    WhenOptionGreaterThen(WhenOptionGreaterThenView),
    WhenIRecieveBroadcast(WhenIRecieveBroadcastView),
    Broadcast(BroadcastView),
    BroadcastAndWait(BroadcastAndWaitView),
    WaitSeconds(WaitSecondsView),
    Repeat(RepeatView),
    Forever(Links),
    IfThen(IfThenView),
    IfThenElse(IfThenElseView),
    WaitUntil(WaitUntilView),
    RepeatUntil(RepeatUntilView),
    StopAll(Links),
    WhenIStartAsAClone(Links),
    CreateCloneOf(CreateCloneOfView),
    DeleteClone(Links),
    Touching(TouchingView),
    TouchingMenu(TouchingMenuView),
    TouchingColor(TouchingColorView),
    ColorTouchingColor(ColorTouchingColorView),
    DistanceTo(DistanceToView),
    Answer(Links),
    KeyPressed(KeyPressedView),
    MouseDown(Links),
    MouseX(Links),
    MouseY(Links),
    DraggableOption(DraggableOption),
    SetDragMode(SetDragModeView),
    Loudness(Links),
    Timer(Links),
    ResetTimer(Links),
    BackdropOf(BackdropOfView),
    CurrentTime(CurrentTimeView),
    DaysSince2000(Links),
    Username(Links),
    Add(AddView),
    Sub(SubView),
    Mul(MulView),
    Divide(DivideView),
    PickRandom(PickRandomView),
    GreaterThen(GreaterThenView),
    LesserThen(LesserThenView),
    EqualTo(EqualToView),
    And(AndView),
    Or(OrView),
    Not(NotView),
    Join(JoinView),
    LetterOf(LetterOfView),
    LengthOf(LengthOfView),
    Contains(ContainsView),
    Modulo(ModuloView),
    Round(RoundView),
    Absolute(AbsoluteView),
    SoundEffectsMenu(SoundEffectsMenuView),
    SoundSoundsMenu(SoundSoundsMenuView),
    PointTowardsMenu(PointTowardsMenuView),
    DataGetVariable(DataGetVariableView),
    DataSetVariableTo(DataSetVariableToView),
    DataChangeVariableBy(DataChangeVariableByView),
    DataShowVariable(DataShowVariableView),
    DataHideVariable(DataHideVariableView),
    DataListContents(DataListContentsView),
    DataListIndexAll(Links),
    DataListIndexAllRandom(Links),
    DataAddToList(DataAddToListView),
    DataDeleteOfList(DataDeleteOfListView),
    DataDeleteAllOfList(DataDeleteAllOfListView),
    DataInsertAtList(DataInsertAtListView),
    DataReplaceItemOfList(DataReplaceItemOfListView),
    DataItemOfList(DataItemOfListView),
    DataLengthOfList(DataLengthOfListView),
    DataListContainsItem(DataListContainsItemView),
    ShowList(DataShowListView),
    HideList(DataHideListView),
    ProceduresCall(Links),
    ProceduresDeclaration(Links),
    ProceduresDefinition(ProceduresDefinitionView),
    ProceduresPrototype(ProceduresPrototypeView),
    UnusedOpcode(UnusedOpcodeView),
    InvalidOpcode(InvalidOpcodeView),
    Stray,
}

impl NodeView {
    /// The links of the node. Every kind that decoding gives carries both; a
    /// dragging option on its own and a stray block carry none.
    pub open spec fn links(self) -> Links {
        match self {
            NodeView::Move(node) => Links { prev: node.prev, next: node.next },
            NodeView::RotateLeft(node) => Links { prev: node.prev, next: node.next },
            NodeView::RotateRight(node) => Links { prev: node.prev, next: node.next },
            NodeView::Goto(node) => node.links(),
            NodeView::Glide(node) => node.links(),
            NodeView::Point(node) => node.links(),
            NodeView::ChangeX(node) => Links { prev: node.prev, next: node.next },
            NodeView::SetX(node) => Links { prev: node.prev, next: node.next },
            NodeView::ChangeY(node) => Links { prev: node.prev, next: node.next },
            NodeView::SetY(node) => Links { prev: node.prev, next: node.next },
            NodeView::IfOnEdgeBounce(node) => node,
            NodeView::SetRotationStyle(node) => Links { prev: node.prev, next: node.next },
            NodeView::XPosition(node) => node,
            NodeView::YPosition(node) => node,
            NodeView::Direction(node) => node,
            NodeView::Say(node) => Links { prev: node.prev, next: node.next },
            NodeView::SayForever(node) => Links { prev: node.prev, next: node.next },
            NodeView::Think(node) => Links { prev: node.prev, next: node.next },
            NodeView::ThinkForever(node) => Links { prev: node.prev, next: node.next },
            NodeView::SwitchCostume(node) => Links { prev: node.prev, next: node.next },
            NodeView::NextCostume(node) => node,
            NodeView::SwitchBackdrop(node) => Links { prev: node.prev, next: node.next },
            NodeView::SwitchBackdropAndWait(node) => Links { prev: node.prev, next: node.next },
            NodeView::NextBackdrop(node) => node,
            NodeView::ChangeSize(node) => Links { prev: node.prev, next: node.next },
            NodeView::SetSize(node) => Links { prev: node.prev, next: node.next },
            NodeView::ClearGraphicEffects(node) => node,
            NodeView::ShowSprite(node) => node,
            NodeView::HideSprite(node) => node,
            NodeView::HideAllSprites(node) => node,
            NodeView::GotoLayer(node) => Links { prev: node.prev, next: node.next },
            NodeView::ChangeLayer(node) => Links { prev: node.prev, next: node.next },
            NodeView::Costume(node) => node.links(),
            NodeView::Backdrop(node) => node.links(),
            NodeView::Size(node) => node,
            NodeView::PlaySound(node) => Links { prev: node.prev, next: node.next },
            NodeView::PlaySoundUntilDone(node) => Links { prev: node.prev, next: node.next },
            NodeView::StartSound(node) => Links { prev: node.prev, next: node.next },
            NodeView::StopAllSounds(node) => node,
            NodeView::ChangeEffectBy(node) => Links { prev: node.prev, next: node.next },
            NodeView::SetEffectTo(node) => Links { prev: node.prev, next: node.next },
            NodeView::ClearSoundEffects(node) => node,
            NodeView::ChangeVolumeBy(node) => Links { prev: node.prev, next: node.next },
            NodeView::SetVolumeTo(node) => Links { prev: node.prev, next: node.next },
            NodeView::Volume(node) => node,
            NodeView::WhenGreenFlagClicked(node) => node,
            NodeView::WhenKeyPressed(node) => Links { prev: node.prev, next: node.next },
            NodeView::WhenSpriteClicked(node) => node,
            NodeView::WhenStageClicked(node) => node,
            NodeView::WhenBackdropSwitchesTo(node) => Links { prev: node.prev, next: node.next },
            NodeView::WhenOptionGreaterThen(node) => Links { prev: node.prev, next: node.next },
            NodeView::WhenIRecieveBroadcast(node) => Links { prev: node.prev, next: node.next },
            NodeView::Broadcast(node) => Links { prev: node.prev, next: node.next },
            NodeView::BroadcastAndWait(node) => Links { prev: node.prev, next: node.next },
            NodeView::WaitSeconds(node) => Links { prev: node.prev, next: node.next },
            NodeView::Repeat(node) => Links { prev: node.prev, next: node.next },
            NodeView::Forever(node) => node,
            NodeView::IfThen(node) => Links { prev: node.prev, next: node.next },
            NodeView::IfThenElse(node) => Links { prev: node.prev, next: node.next },
            NodeView::WaitUntil(node) => Links { prev: node.prev, next: node.next },
            NodeView::RepeatUntil(node) => Links { prev: node.prev, next: node.next },
            NodeView::StopAll(node) => node,
            NodeView::WhenIStartAsAClone(node) => node,
            NodeView::CreateCloneOf(node) => Links { prev: node.prev, next: node.next },
            NodeView::DeleteClone(node) => node,
            NodeView::Touching(node) => Links { prev: node.prev, next: node.next },
            NodeView::TouchingMenu(node) => Links { prev: node.prev, next: node.next },
            NodeView::TouchingColor(node) => Links { prev: node.prev, next: node.next },
            NodeView::ColorTouchingColor(node) => Links { prev: node.prev, next: node.next },
            NodeView::DistanceTo(node) => Links { prev: node.prev, next: node.next },
            NodeView::Answer(node) => node,
            NodeView::KeyPressed(node) => Links { prev: node.prev, next: node.next },
            NodeView::MouseDown(node) => node,
            NodeView::MouseX(node) => node,
            NodeView::MouseY(node) => node,
            NodeView::DraggableOption(_) => Links { prev: None, next: None },
            NodeView::SetDragMode(node) => Links { prev: node.prev, next: node.next },
            NodeView::Loudness(node) => node,
            NodeView::Timer(node) => node,
            NodeView::ResetTimer(node) => node,
            NodeView::BackdropOf(node) => Links { prev: node.prev, next: node.next },
            NodeView::CurrentTime(node) => Links { prev: node.prev, next: node.next },
            NodeView::DaysSince2000(node) => node,
            NodeView::Username(node) => node,
            NodeView::Add(node) => Links { prev: node.prev, next: node.next },
            NodeView::Sub(node) => Links { prev: node.prev, next: node.next },
            NodeView::Mul(node) => Links { prev: node.prev, next: node.next },
            NodeView::Divide(node) => Links { prev: node.prev, next: node.next },
            NodeView::PickRandom(node) => Links { prev: node.prev, next: node.next },
            NodeView::GreaterThen(node) => Links { prev: node.prev, next: node.next },
            NodeView::LesserThen(node) => Links { prev: node.prev, next: node.next },
            NodeView::EqualTo(node) => Links { prev: node.prev, next: node.next },
            NodeView::And(node) => Links { prev: node.prev, next: node.next },
            NodeView::Or(node) => Links { prev: node.prev, next: node.next },
            NodeView::Not(node) => Links { prev: node.prev, next: node.next },
            NodeView::Join(node) => Links { prev: node.prev, next: node.next },
            NodeView::LetterOf(node) => Links { prev: node.prev, next: node.next },
            NodeView::LengthOf(node) => Links { prev: node.prev, next: node.next },
            NodeView::Contains(node) => Links { prev: node.prev, next: node.next },
            NodeView::Modulo(node) => Links { prev: node.prev, next: node.next },
            NodeView::Round(node) => Links { prev: node.prev, next: node.next },
            NodeView::Absolute(node) => Links { prev: node.prev, next: node.next },
            NodeView::SoundEffectsMenu(node) => Links { prev: node.prev, next: node.next },
            NodeView::SoundSoundsMenu(node) => Links { prev: node.prev, next: node.next },
            NodeView::PointTowardsMenu(node) => Links { prev: node.prev, next: node.next },
            NodeView::DataGetVariable(node) => Links { prev: node.prev, next: node.next },
            NodeView::DataSetVariableTo(node) => Links { prev: node.prev, next: node.next },
            NodeView::DataChangeVariableBy(node) => Links { prev: node.prev, next: node.next },
            NodeView::DataShowVariable(node) => Links { prev: node.prev, next: node.next },
            NodeView::DataHideVariable(node) => Links { prev: node.prev, next: node.next },
            NodeView::DataListContents(node) => Links { prev: node.prev, next: node.next },
            NodeView::DataListIndexAll(node) => node,
            NodeView::DataListIndexAllRandom(node) => node,
            NodeView::DataAddToList(node) => Links { prev: node.prev, next: node.next },
            NodeView::DataDeleteOfList(node) => Links { prev: node.prev, next: node.next },
            NodeView::DataDeleteAllOfList(node) => Links { prev: node.prev, next: node.next },
            NodeView::DataInsertAtList(node) => Links { prev: node.prev, next: node.next },
            NodeView::DataReplaceItemOfList(node) => Links { prev: node.prev, next: node.next },
            NodeView::DataItemOfList(node) => Links { prev: node.prev, next: node.next },
            NodeView::DataLengthOfList(node) => Links { prev: node.prev, next: node.next },
            NodeView::DataListContainsItem(node) => Links { prev: node.prev, next: node.next },
            NodeView::ShowList(node) => Links { prev: node.prev, next: node.next },
            NodeView::HideList(node) => Links { prev: node.prev, next: node.next },
            NodeView::ProceduresCall(node) => node,
            NodeView::ProceduresDeclaration(node) => node,
            NodeView::ProceduresDefinition(node) => Links { prev: node.prev, next: node.next },
            NodeView::ProceduresPrototype(node) => Links { prev: node.prev, next: node.next },
            NodeView::UnusedOpcode(node) => Links { prev: node.prev, next: node.next },
            NodeView::InvalidOpcode(node) => Links { prev: node.prev, next: node.next },
            NodeView::Stray => Links { prev: None, next: None },
        }
    }
}

impl DeepView for BlockType {
    type V = NodeView;

    open spec fn deep_view(&self) -> NodeView {
        match self {
            BlockType::Move(node) => NodeView::Move(node.deep_view()),
            BlockType::RotateLeft(node) => NodeView::RotateLeft(node.deep_view()),
            BlockType::RotateRight(node) => NodeView::RotateRight(node.deep_view()),
            BlockType::Goto(node) => NodeView::Goto(node.deep_view()),
            BlockType::Glide(node) => NodeView::Glide(node.deep_view()),
            BlockType::Point(node) => NodeView::Point(node.deep_view()),
            BlockType::ChangeX(node) => NodeView::ChangeX(node.deep_view()),
            BlockType::SetX(node) => NodeView::SetX(node.deep_view()),
            BlockType::ChangeY(node) => NodeView::ChangeY(node.deep_view()),
            BlockType::SetY(node) => NodeView::SetY(node.deep_view()),
            BlockType::IfOnEdgeBounce(node) => NodeView::IfOnEdgeBounce(node.deep_view()),
            BlockType::SetRotationStyle(node) => NodeView::SetRotationStyle(node.deep_view()),
            BlockType::XPosition(node) => NodeView::XPosition(node.deep_view()),
            BlockType::YPosition(node) => NodeView::YPosition(node.deep_view()),
            BlockType::Direction(node) => NodeView::Direction(node.deep_view()),
            BlockType::Say(node) => NodeView::Say(node.deep_view()),
            BlockType::SayForever(node) => NodeView::SayForever(node.deep_view()),
            BlockType::Think(node) => NodeView::Think(node.deep_view()),
            BlockType::ThinkForever(node) => NodeView::ThinkForever(node.deep_view()),
            BlockType::SwitchCostume(node) => NodeView::SwitchCostume(node.deep_view()),
            BlockType::NextCostume(node) => NodeView::NextCostume(node.deep_view()),
            BlockType::SwitchBackdrop(node) => NodeView::SwitchBackdrop(node.deep_view()),
            BlockType::SwitchBackdropAndWait(node) => NodeView::SwitchBackdropAndWait(
                node.deep_view(),
            ),
            BlockType::NextBackdrop(node) => NodeView::NextBackdrop(node.deep_view()),
            BlockType::ChangeSize(node) => NodeView::ChangeSize(node.deep_view()),
            BlockType::SetSize(node) => NodeView::SetSize(node.deep_view()),
            BlockType::ClearGraphicEffects(node) => NodeView::ClearGraphicEffects(node.deep_view()),
            BlockType::ShowSprite(node) => NodeView::ShowSprite(node.deep_view()),
            BlockType::HideSprite(node) => NodeView::HideSprite(node.deep_view()),
            BlockType::HideAllSprites(node) => NodeView::HideAllSprites(node.deep_view()),
            BlockType::GotoLayer(node) => NodeView::GotoLayer(node.deep_view()),
            BlockType::ChangeLayer(node) => NodeView::ChangeLayer(node.deep_view()),
            BlockType::Costume(node) => NodeView::Costume(node.deep_view()),
            BlockType::Backdrop(node) => NodeView::Backdrop(node.deep_view()),
            BlockType::Size(node) => NodeView::Size(node.deep_view()),
            BlockType::PlaySound(node) => NodeView::PlaySound(node.deep_view()),
            BlockType::PlaySoundUntilDone(node) => NodeView::PlaySoundUntilDone(node.deep_view()),
            BlockType::StartSound(node) => NodeView::StartSound(node.deep_view()),
            BlockType::StopAllSounds(node) => NodeView::StopAllSounds(node.deep_view()),
            BlockType::ChangeEffectBy(node) => NodeView::ChangeEffectBy(node.deep_view()),
            BlockType::SetEffectTo(node) => NodeView::SetEffectTo(node.deep_view()),
            BlockType::ClearSoundEffects(node) => NodeView::ClearSoundEffects(node.deep_view()),
            BlockType::ChangeVolumeBy(node) => NodeView::ChangeVolumeBy(node.deep_view()),
            BlockType::SetVolumeTo(node) => NodeView::SetVolumeTo(node.deep_view()),
            BlockType::Volume(node) => NodeView::Volume(node.deep_view()),
            BlockType::WhenGreenFlagClicked(node) => NodeView::WhenGreenFlagClicked(
                node.deep_view(),
            ),
            BlockType::WhenKeyPressed(node) => NodeView::WhenKeyPressed(node.deep_view()),
            BlockType::WhenSpriteClicked(node) => NodeView::WhenSpriteClicked(node.deep_view()),
            BlockType::WhenStageClicked(node) => NodeView::WhenStageClicked(node.deep_view()),
            BlockType::WhenBackdropSwitchesTo(node) => NodeView::WhenBackdropSwitchesTo(
                node.deep_view(),
            ),
            BlockType::WhenOptionGreaterThen(node) => NodeView::WhenOptionGreaterThen(
                node.deep_view(),
            ),
            BlockType::WhenIRecieveBroadcast(node) => NodeView::WhenIRecieveBroadcast(
                node.deep_view(),
            ),
            BlockType::Broadcast(node) => NodeView::Broadcast(node.deep_view()),
            BlockType::BroadcastAndWait(node) => NodeView::BroadcastAndWait(node.deep_view()),
            BlockType::WaitSeconds(node) => NodeView::WaitSeconds(node.deep_view()),
            BlockType::Repeat(node) => NodeView::Repeat(node.deep_view()),
            BlockType::Forever(node) => NodeView::Forever(node.deep_view()),
            BlockType::IfThen(node) => NodeView::IfThen(node.deep_view()),
            BlockType::IfThenElse(node) => NodeView::IfThenElse(node.deep_view()),
            BlockType::WaitUntil(node) => NodeView::WaitUntil(node.deep_view()),
            BlockType::RepeatUntil(node) => NodeView::RepeatUntil(node.deep_view()),
            BlockType::StopAll(node) => NodeView::StopAll(node.deep_view()),
            BlockType::WhenIStartAsAClone(node) => NodeView::WhenIStartAsAClone(node.deep_view()),
            BlockType::CreateCloneOf(node) => NodeView::CreateCloneOf(node.deep_view()),
            BlockType::DeleteClone(node) => NodeView::DeleteClone(node.deep_view()),
            BlockType::Touching(node) => NodeView::Touching(node.deep_view()),
            BlockType::TouchingMenu(node) => NodeView::TouchingMenu(node.deep_view()),
            BlockType::TouchingColor(node) => NodeView::TouchingColor(node.deep_view()),
            BlockType::ColorTouchingColor(node) => NodeView::ColorTouchingColor(node.deep_view()),
            BlockType::DistanceTo(node) => NodeView::DistanceTo(node.deep_view()),
            BlockType::Answer(node) => NodeView::Answer(node.deep_view()),
            BlockType::KeyPressed(node) => NodeView::KeyPressed(node.deep_view()),
            BlockType::MouseDown(node) => NodeView::MouseDown(node.deep_view()),
            BlockType::MouseX(node) => NodeView::MouseX(node.deep_view()),
            BlockType::MouseY(node) => NodeView::MouseY(node.deep_view()),
            BlockType::DraggableOption(node) => NodeView::DraggableOption(node.deep_view()),
            BlockType::SetDragMode(node) => NodeView::SetDragMode(node.deep_view()),
            BlockType::Loudness(node) => NodeView::Loudness(node.deep_view()),
            BlockType::Timer(node) => NodeView::Timer(node.deep_view()),
            BlockType::ResetTimer(node) => NodeView::ResetTimer(node.deep_view()),
            BlockType::BackdropOf(node) => NodeView::BackdropOf(node.deep_view()),
            BlockType::CurrentTime(node) => NodeView::CurrentTime(node.deep_view()),
            BlockType::DaysSince2000(node) => NodeView::DaysSince2000(node.deep_view()),
            BlockType::Username(node) => NodeView::Username(node.deep_view()),
            BlockType::Add(node) => NodeView::Add(node.deep_view()),
            BlockType::Sub(node) => NodeView::Sub(node.deep_view()),
            BlockType::Mul(node) => NodeView::Mul(node.deep_view()),
            BlockType::Divide(node) => NodeView::Divide(node.deep_view()),
            BlockType::PickRandom(node) => NodeView::PickRandom(node.deep_view()),
            BlockType::GreaterThen(node) => NodeView::GreaterThen(node.deep_view()),
            BlockType::LesserThen(node) => NodeView::LesserThen(node.deep_view()),
            BlockType::EqualTo(node) => NodeView::EqualTo(node.deep_view()),
            BlockType::And(node) => NodeView::And(node.deep_view()),
            BlockType::Or(node) => NodeView::Or(node.deep_view()),
            BlockType::Not(node) => NodeView::Not(node.deep_view()),
            BlockType::Join(node) => NodeView::Join(node.deep_view()),
            BlockType::LetterOf(node) => NodeView::LetterOf(node.deep_view()),
            BlockType::LengthOf(node) => NodeView::LengthOf(node.deep_view()),
            BlockType::Contains(node) => NodeView::Contains(node.deep_view()),
            BlockType::Modulo(node) => NodeView::Modulo(node.deep_view()),
            BlockType::Round(node) => NodeView::Round(node.deep_view()),
            BlockType::Absolute(node) => NodeView::Absolute(node.deep_view()),
            BlockType::SoundEffectsMenu(node) => NodeView::SoundEffectsMenu(node.deep_view()),
            BlockType::SoundSoundsMenu(node) => NodeView::SoundSoundsMenu(node.deep_view()),
            BlockType::PointTowardsMenu(node) => NodeView::PointTowardsMenu(node.deep_view()),
            BlockType::DataGetVariable(node) => NodeView::DataGetVariable(node.deep_view()),
            BlockType::DataSetVariableTo(node) => NodeView::DataSetVariableTo(node.deep_view()),
            BlockType::DataChangeVariableBy(node) => NodeView::DataChangeVariableBy(
                node.deep_view(),
            ),
            BlockType::DataShowVariable(node) => NodeView::DataShowVariable(node.deep_view()),
            BlockType::DataHideVariable(node) => NodeView::DataHideVariable(node.deep_view()),
            BlockType::DataListContents(node) => NodeView::DataListContents(node.deep_view()),
            BlockType::DataListIndexAll(node) => NodeView::DataListIndexAll(node.deep_view()),
            BlockType::DataListIndexAllRandom(node) => NodeView::DataListIndexAllRandom(
                node.deep_view(),
            ),
            BlockType::DataAddToList(node) => NodeView::DataAddToList(node.deep_view()),
            BlockType::DataDeleteOfList(node) => NodeView::DataDeleteOfList(node.deep_view()),
            BlockType::DataDeleteAllOfList(node) => NodeView::DataDeleteAllOfList(node.deep_view()),
            BlockType::DataInsertAtList(node) => NodeView::DataInsertAtList(node.deep_view()),
            BlockType::DataReplaceItemOfList(node) => NodeView::DataReplaceItemOfList(
                node.deep_view(),
            ),
            BlockType::DataItemOfList(node) => NodeView::DataItemOfList(node.deep_view()),
            BlockType::DataLengthOfList(node) => NodeView::DataLengthOfList(node.deep_view()),
            BlockType::DataListContainsItem(node) => NodeView::DataListContainsItem(
                node.deep_view(),
            ),
            BlockType::ShowList(node) => NodeView::ShowList(node.deep_view()),
            BlockType::HideList(node) => NodeView::HideList(node.deep_view()),
            BlockType::ProceduresCall(node) => NodeView::ProceduresCall(node.deep_view()),
            BlockType::ProceduresDeclaration(node) => NodeView::ProceduresDeclaration(
                node.deep_view(),
            ),
            BlockType::ProceduresDefinition(node) => NodeView::ProceduresDefinition(
                node.deep_view(),
            ),
            BlockType::ProceduresPrototype(node) => NodeView::ProceduresPrototype(node.deep_view()),
            BlockType::UnusedOpcode(node) => NodeView::UnusedOpcode(node.deep_view()),
            BlockType::InvalidOpcode(node) => NodeView::InvalidOpcode(node.deep_view()),
            BlockType::Stray => NodeView::Stray,
        }
    }
}

impl View for BlockType {
    type V = NodeView;

    open spec fn view(&self) -> NodeView {
        self.deep_view()
    }
}

impl Block for BlockType {
    open spec fn links(&self) -> Links {
        self@.links()
    }

    fn prev(&self) -> (id: Option<String>) {
        match self {
            BlockType::Move(node) => node.prev(),
            BlockType::RotateLeft(node) => node.prev(),
            BlockType::RotateRight(node) => node.prev(),
            BlockType::Goto(node) => node.prev(),
            BlockType::Glide(node) => node.prev(),
            BlockType::Point(node) => node.prev(),
            BlockType::ChangeX(node) => node.prev(),
            BlockType::SetX(node) => node.prev(),
            BlockType::ChangeY(node) => node.prev(),
            BlockType::SetY(node) => node.prev(),
            BlockType::IfOnEdgeBounce(node) => node.prev(),
            BlockType::SetRotationStyle(node) => node.prev(),
            BlockType::XPosition(node) => node.prev(),
            BlockType::YPosition(node) => node.prev(),
            BlockType::Direction(node) => node.prev(),
            BlockType::Say(node) => node.prev(),
            BlockType::SayForever(node) => node.prev(),
            BlockType::Think(node) => node.prev(),
            BlockType::ThinkForever(node) => node.prev(),
            BlockType::SwitchCostume(node) => node.prev(),
            BlockType::NextCostume(node) => node.prev(),
            BlockType::SwitchBackdrop(node) => node.prev(),
            BlockType::SwitchBackdropAndWait(node) => node.prev(),
            BlockType::NextBackdrop(node) => node.prev(),
            BlockType::ChangeSize(node) => node.prev(),
            BlockType::SetSize(node) => node.prev(),
            BlockType::ClearGraphicEffects(node) => node.prev(),
            BlockType::ShowSprite(node) => node.prev(),
            BlockType::HideSprite(node) => node.prev(),
            BlockType::HideAllSprites(node) => node.prev(),
            BlockType::GotoLayer(node) => node.prev(),
            BlockType::ChangeLayer(node) => node.prev(),
            BlockType::Costume(node) => node.prev(),
            BlockType::Backdrop(node) => node.prev(),
            BlockType::Size(node) => node.prev(),
            BlockType::PlaySound(node) => node.prev(),
            BlockType::PlaySoundUntilDone(node) => node.prev(),
            BlockType::StartSound(node) => node.prev(),
            BlockType::StopAllSounds(node) => node.prev(),
            BlockType::ChangeEffectBy(node) => node.prev(),
            BlockType::SetEffectTo(node) => node.prev(),
            BlockType::ClearSoundEffects(node) => node.prev(),
            BlockType::ChangeVolumeBy(node) => node.prev(),
            BlockType::SetVolumeTo(node) => node.prev(),
            BlockType::Volume(node) => node.prev(),
            BlockType::WhenGreenFlagClicked(node) => node.prev(),
            BlockType::WhenKeyPressed(node) => node.prev(),
            BlockType::WhenSpriteClicked(node) => node.prev(),
            BlockType::WhenStageClicked(node) => node.prev(),
            BlockType::WhenBackdropSwitchesTo(node) => node.prev(),
            BlockType::WhenOptionGreaterThen(node) => node.prev(),
            BlockType::WhenIRecieveBroadcast(node) => node.prev(),
            BlockType::Broadcast(node) => node.prev(),
            BlockType::BroadcastAndWait(node) => node.prev(),
            BlockType::WaitSeconds(node) => node.prev(),
            BlockType::Repeat(node) => node.prev(),
            BlockType::Forever(node) => node.prev(),
            BlockType::IfThen(node) => node.prev(),
            BlockType::IfThenElse(node) => node.prev(),
            BlockType::WaitUntil(node) => node.prev(),
            BlockType::RepeatUntil(node) => node.prev(),
            BlockType::StopAll(node) => node.prev(),
            BlockType::WhenIStartAsAClone(node) => node.prev(),
            BlockType::CreateCloneOf(node) => node.prev(),
            BlockType::DeleteClone(node) => node.prev(),
            BlockType::Touching(node) => node.prev(),
            BlockType::TouchingMenu(node) => node.prev(),
            BlockType::TouchingColor(node) => node.prev(),
            BlockType::ColorTouchingColor(node) => node.prev(),
            BlockType::DistanceTo(node) => node.prev(),
            BlockType::Answer(node) => node.prev(),
            BlockType::KeyPressed(node) => node.prev(),
            BlockType::MouseDown(node) => node.prev(),
            BlockType::MouseX(node) => node.prev(),
            BlockType::MouseY(node) => node.prev(),
            BlockType::DraggableOption(_) => None,
            BlockType::SetDragMode(node) => node.prev(),
            BlockType::Loudness(node) => node.prev(),
            BlockType::Timer(node) => node.prev(),
            BlockType::ResetTimer(node) => node.prev(),
            BlockType::BackdropOf(node) => node.prev(),
            BlockType::CurrentTime(node) => node.prev(),
            BlockType::DaysSince2000(node) => node.prev(),
            BlockType::Username(node) => node.prev(),
            BlockType::Add(node) => node.prev(),
            BlockType::Sub(node) => node.prev(),
            BlockType::Mul(node) => node.prev(),
            BlockType::Divide(node) => node.prev(),
            BlockType::PickRandom(node) => node.prev(),
            BlockType::GreaterThen(node) => node.prev(),
            BlockType::LesserThen(node) => node.prev(),
            BlockType::EqualTo(node) => node.prev(),
            BlockType::And(node) => node.prev(),
            BlockType::Or(node) => node.prev(),
            BlockType::Not(node) => node.prev(),
            BlockType::Join(node) => node.prev(),
            BlockType::LetterOf(node) => node.prev(),
            BlockType::LengthOf(node) => node.prev(),
            BlockType::Contains(node) => node.prev(),
            BlockType::Modulo(node) => node.prev(),
            BlockType::Round(node) => node.prev(),
            BlockType::Absolute(node) => node.prev(),
            BlockType::SoundEffectsMenu(node) => node.prev(),
            BlockType::SoundSoundsMenu(node) => node.prev(),
            BlockType::PointTowardsMenu(node) => node.prev(),
            BlockType::DataGetVariable(node) => node.prev(),
            BlockType::DataSetVariableTo(node) => node.prev(),
            BlockType::DataChangeVariableBy(node) => node.prev(),
            BlockType::DataShowVariable(node) => node.prev(),
            BlockType::DataHideVariable(node) => node.prev(),
            BlockType::DataListContents(node) => node.prev(),
            BlockType::DataListIndexAll(node) => node.prev(),
            BlockType::DataListIndexAllRandom(node) => node.prev(),
            BlockType::DataAddToList(node) => node.prev(),
            BlockType::DataDeleteOfList(node) => node.prev(),
            BlockType::DataDeleteAllOfList(node) => node.prev(),
            BlockType::DataInsertAtList(node) => node.prev(),
            BlockType::DataReplaceItemOfList(node) => node.prev(),
            BlockType::DataItemOfList(node) => node.prev(),
            BlockType::DataLengthOfList(node) => node.prev(),
            BlockType::DataListContainsItem(node) => node.prev(),
            BlockType::ShowList(node) => node.prev(),
            BlockType::HideList(node) => node.prev(),
            BlockType::ProceduresCall(node) => node.prev(),
            BlockType::ProceduresDeclaration(node) => node.prev(),
            BlockType::ProceduresDefinition(node) => node.prev(),
            BlockType::ProceduresPrototype(node) => node.prev(),
            BlockType::UnusedOpcode(node) => node.prev(),
            BlockType::InvalidOpcode(node) => node.prev(),
            BlockType::Stray => None,
        }
    }

    fn next(&self) -> (id: Option<String>) {
        match self {
            BlockType::Move(node) => node.next(),
            BlockType::RotateLeft(node) => node.next(),
            BlockType::RotateRight(node) => node.next(),
            BlockType::Goto(node) => node.next(),
            BlockType::Glide(node) => node.next(),
            BlockType::Point(node) => node.next(),
            BlockType::ChangeX(node) => node.next(),
            BlockType::SetX(node) => node.next(),
            BlockType::ChangeY(node) => node.next(),
            BlockType::SetY(node) => node.next(),
            BlockType::IfOnEdgeBounce(node) => node.next(),
            BlockType::SetRotationStyle(node) => node.next(),
            BlockType::XPosition(node) => node.next(),
            BlockType::YPosition(node) => node.next(),
            BlockType::Direction(node) => node.next(),
            BlockType::Say(node) => node.next(),
            BlockType::SayForever(node) => node.next(),
            BlockType::Think(node) => node.next(),
            BlockType::ThinkForever(node) => node.next(),
            BlockType::SwitchCostume(node) => node.next(),
            BlockType::NextCostume(node) => node.next(),
            BlockType::SwitchBackdrop(node) => node.next(),
            BlockType::SwitchBackdropAndWait(node) => node.next(),
            BlockType::NextBackdrop(node) => node.next(),
            BlockType::ChangeSize(node) => node.next(),
            BlockType::SetSize(node) => node.next(),
            BlockType::ClearGraphicEffects(node) => node.next(),
            BlockType::ShowSprite(node) => node.next(),
            BlockType::HideSprite(node) => node.next(),
            BlockType::HideAllSprites(node) => node.next(),
            BlockType::GotoLayer(node) => node.next(),
            BlockType::ChangeLayer(node) => node.next(),
            BlockType::Costume(node) => node.next(),
            BlockType::Backdrop(node) => node.next(),
            BlockType::Size(node) => node.next(),
            BlockType::PlaySound(node) => node.next(),
            BlockType::PlaySoundUntilDone(node) => node.next(),
            BlockType::StartSound(node) => node.next(),
            BlockType::StopAllSounds(node) => node.next(),
            BlockType::ChangeEffectBy(node) => node.next(),
            BlockType::SetEffectTo(node) => node.next(),
            BlockType::ClearSoundEffects(node) => node.next(),
            BlockType::ChangeVolumeBy(node) => node.next(),
            BlockType::SetVolumeTo(node) => node.next(),
            BlockType::Volume(node) => node.next(),
            BlockType::WhenGreenFlagClicked(node) => node.next(),
            BlockType::WhenKeyPressed(node) => node.next(),
            BlockType::WhenSpriteClicked(node) => node.next(),
            BlockType::WhenStageClicked(node) => node.next(),
            BlockType::WhenBackdropSwitchesTo(node) => node.next(),
            BlockType::WhenOptionGreaterThen(node) => node.next(),
            BlockType::WhenIRecieveBroadcast(node) => node.next(),
            BlockType::Broadcast(node) => node.next(),
            BlockType::BroadcastAndWait(node) => node.next(),
            BlockType::WaitSeconds(node) => node.next(),
            BlockType::Repeat(node) => node.next(),
            BlockType::Forever(node) => node.next(),
            BlockType::IfThen(node) => node.next(),
            BlockType::IfThenElse(node) => node.next(),
            BlockType::WaitUntil(node) => node.next(),
            BlockType::RepeatUntil(node) => node.next(),
            BlockType::StopAll(node) => node.next(),
            BlockType::WhenIStartAsAClone(node) => node.next(),
            BlockType::CreateCloneOf(node) => node.next(),
            BlockType::DeleteClone(node) => node.next(),
            BlockType::Touching(node) => node.next(),
            BlockType::TouchingMenu(node) => node.next(),
            BlockType::TouchingColor(node) => node.next(),
            BlockType::ColorTouchingColor(node) => node.next(),
            BlockType::DistanceTo(node) => node.next(),
            BlockType::Answer(node) => node.next(),
            BlockType::KeyPressed(node) => node.next(),
            BlockType::MouseDown(node) => node.next(),
            BlockType::MouseX(node) => node.next(),
            BlockType::MouseY(node) => node.next(),
            BlockType::DraggableOption(_) => None,
            BlockType::SetDragMode(node) => node.next(),
            BlockType::Loudness(node) => node.next(),
            BlockType::Timer(node) => node.next(),
            BlockType::ResetTimer(node) => node.next(),
            BlockType::BackdropOf(node) => node.next(),
            BlockType::CurrentTime(node) => node.next(),
            BlockType::DaysSince2000(node) => node.next(),
            BlockType::Username(node) => node.next(),
            BlockType::Add(node) => node.next(),
            BlockType::Sub(node) => node.next(),
            BlockType::Mul(node) => node.next(),
            BlockType::Divide(node) => node.next(),
            BlockType::PickRandom(node) => node.next(),
            BlockType::GreaterThen(node) => node.next(),
            BlockType::LesserThen(node) => node.next(),
            BlockType::EqualTo(node) => node.next(),
            BlockType::And(node) => node.next(),
            BlockType::Or(node) => node.next(),
            BlockType::Not(node) => node.next(),
            BlockType::Join(node) => node.next(),
            BlockType::LetterOf(node) => node.next(),
            BlockType::LengthOf(node) => node.next(),
            BlockType::Contains(node) => node.next(),
            BlockType::Modulo(node) => node.next(),
            BlockType::Round(node) => node.next(),
            BlockType::Absolute(node) => node.next(),
            BlockType::SoundEffectsMenu(node) => node.next(),
            BlockType::SoundSoundsMenu(node) => node.next(),
            BlockType::PointTowardsMenu(node) => node.next(),
            BlockType::DataGetVariable(node) => node.next(),
            BlockType::DataSetVariableTo(node) => node.next(),
            BlockType::DataChangeVariableBy(node) => node.next(),
            BlockType::DataShowVariable(node) => node.next(),
            BlockType::DataHideVariable(node) => node.next(),
            BlockType::DataListContents(node) => node.next(),
            BlockType::DataListIndexAll(node) => node.next(),
            BlockType::DataListIndexAllRandom(node) => node.next(),
            BlockType::DataAddToList(node) => node.next(),
            BlockType::DataDeleteOfList(node) => node.next(),
            BlockType::DataDeleteAllOfList(node) => node.next(),
            BlockType::DataInsertAtList(node) => node.next(),
            BlockType::DataReplaceItemOfList(node) => node.next(),
            BlockType::DataItemOfList(node) => node.next(),
            BlockType::DataLengthOfList(node) => node.next(),
            BlockType::DataListContainsItem(node) => node.next(),
            BlockType::ShowList(node) => node.next(),
            BlockType::HideList(node) => node.next(),
            BlockType::ProceduresCall(node) => node.next(),
            BlockType::ProceduresDeclaration(node) => node.next(),
            BlockType::ProceduresDefinition(node) => node.next(),
            BlockType::ProceduresPrototype(node) => node.next(),
            BlockType::UnusedOpcode(node) => node.next(),
            BlockType::InvalidOpcode(node) => node.next(),
            BlockType::Stray => None,
        }
    }
}

/// Reads both links of a linked node, whatever its type.
pub fn links_of<B: Block>(node: &B) -> (links: (Option<String>, Option<String>))
    ensures
        links.0.deep_view() == node.links().prev,
        links.1.deep_view() == node.links().next,
{
    (node.prev(), node.next())
}

} // verus!
