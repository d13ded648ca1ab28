//! Motion blocks: moving, turning and pointing the sprite.
use vstd::prelude::*;
use crate::blocks::{Block, Links};
use crate::error::{DecodeError, Mode};
use crate::raw::clone_link;
use crate::text::same_text;
use crate::value::{Value, ValueView};

verus! {

/// Moves the sprite a number of steps.
#[derive(Debug, Clone, PartialEq)]
pub struct Move {
    pub steps: Option<Value>,
    pub prev: Option<String>,
    pub next: Option<String>,
}

/// The mathematical model of [`Move`].
pub ghost struct MoveView {
    pub steps: Option<ValueView>,
    pub prev: Option<Seq<char>>,
    pub next: Option<Seq<char>>,
}

impl DeepView for Move {
    type V = MoveView;

    open spec fn deep_view(&self) -> MoveView {
        MoveView {
            steps: self.steps.deep_view(),
            prev: self.prev.deep_view(),
            next: self.next.deep_view(),
        }
    }
}

impl Block for Move {
    open spec fn links(&self) -> Links {
        Links { prev: self.prev.deep_view(), next: self.next.deep_view() }
    }

    fn prev(&self) -> (id: Option<String>) {
        clone_link(&self.prev)
    }

    fn next(&self) -> (id: Option<String>) {
        clone_link(&self.next)
    }
}

/// Turns the sprite counterclockwise.
#[derive(Debug, Clone, PartialEq)]
pub struct RotateLeft {
    pub degrees: Option<Value>,
    pub prev: Option<String>,
    pub next: Option<String>,
}

/// The mathematical model of [`RotateLeft`].
pub ghost struct RotateLeftView {
    pub degrees: Option<ValueView>,
    pub prev: Option<Seq<char>>,
    pub next: Option<Seq<char>>,
}

impl DeepView for RotateLeft {
    type V = RotateLeftView;

    open spec fn deep_view(&self) -> RotateLeftView {
        RotateLeftView {
            degrees: self.degrees.deep_view(),
            prev: self.prev.deep_view(),
            next: self.next.deep_view(),
        }
    }
}

impl Block for RotateLeft {
    open spec fn links(&self) -> Links {
        Links { prev: self.prev.deep_view(), next: self.next.deep_view() }
    }

    fn prev(&self) -> (id: Option<String>) {
        clone_link(&self.prev)
    }

    fn next(&self) -> (id: Option<String>) {
        clone_link(&self.next)
    }
}

/// Turns the sprite clockwise.
#[derive(Debug, Clone, PartialEq)]
pub struct RotateRight {
    pub degrees: Option<Value>,
    pub prev: Option<String>,
    pub next: Option<String>,
}

/// The mathematical model of [`RotateRight`].
pub ghost struct RotateRightView {
    pub degrees: Option<ValueView>,
    pub prev: Option<Seq<char>>,
    pub next: Option<Seq<char>>,
}

impl DeepView for RotateRight {
    type V = RotateRightView;

    open spec fn deep_view(&self) -> RotateRightView {
        RotateRightView {
            degrees: self.degrees.deep_view(),
            prev: self.prev.deep_view(),
            next: self.next.deep_view(),
        }
    }
}

impl Block for RotateRight {
    open spec fn links(&self) -> Links {
        Links { prev: self.prev.deep_view(), next: self.next.deep_view() }
    }

    fn prev(&self) -> (id: Option<String>) {
        clone_link(&self.prev)
    }

    fn next(&self) -> (id: Option<String>) {
        clone_link(&self.next)
    }
}

/// A named target that a motion block can send the sprite to.
#[derive(Debug, Clone, Copy, PartialEq, Eq, Structural)]
pub enum MovementOption {
    RandomPosition,
    MousePointer,
}

impl DeepView for MovementOption {
    type V = MovementOption;

    open spec fn deep_view(&self) -> MovementOption {
        *self
    }
}

impl MovementOption {
    /// The option that `tag` names in the table, if it names one.
    pub open spec fn tagged(tag: Seq<char>) -> Option<MovementOption> {
        if tag == "_random_"@ {
            Some(MovementOption::RandomPosition)
        } else if tag == "_mouse_"@ {
            Some(MovementOption::MousePointer)
        } else {
            None
        }
    }

    /// What an operand decodes to: nothing for a missing operand, the
    /// option for a tag of the table, and for anything else what `mode`
    /// makes of an unmatched tag.
    pub open spec fn decoded(val: Option<ValueView>, mode: Mode) -> Result<
        Option<MovementOption>,
        DecodeError,
    > {
        match val {
            None => Ok(None),
            Some(ValueView::String(tag)) => match Self::tagged(tag) {
                Some(option) => Ok(Some(option)),
                None => mode.unmatched(),
            },
            Some(_) => mode.unmatched(),
        }
    }

    /// Looks `tag` up in the table.
    pub fn parse(tag: &str) -> (found: Option<MovementOption>)
        ensures
            found == Self::tagged(tag@),
    {
        if same_text(tag, "_random_") {
            Some(MovementOption::RandomPosition)
        } else if same_text(tag, "_mouse_") {
            Some(MovementOption::MousePointer)
        } else {
            None
        }
    }

    /// Decodes an operand.
    pub fn from(val: Option<Value>, mode: Mode) -> (r: Result<Option<MovementOption>, DecodeError>)
        ensures
            r == Self::decoded(val.deep_view(), mode),
    {
        match val {
            None => Ok(None),
            Some(Value::String(tag)) => match Self::parse(tag.as_str()) {
                Some(option) => Ok(Some(option)),
                None => mode.on_unmatched(),
            },
            Some(_) => mode.on_unmatched(),
        }
    }
}

/// Puts the sprite at a point.
#[derive(Debug, Clone, PartialEq)]
pub struct GotoPos {
    pub x: Option<Value>,
    pub y: Option<Value>,
    pub prev: Option<String>,
    pub next: Option<String>,
}

/// The mathematical model of [`GotoPos`].
pub ghost struct GotoPosView {
    pub x: Option<ValueView>,
    pub y: Option<ValueView>,
    pub prev: Option<Seq<char>>,
    pub next: Option<Seq<char>>,
}

impl DeepView for GotoPos {
    type V = GotoPosView;

    open spec fn deep_view(&self) -> GotoPosView {
        GotoPosView {
            x: self.x.deep_view(),
            y: self.y.deep_view(),
            prev: self.prev.deep_view(),
            next: self.next.deep_view(),
        }
    }
}

impl Block for GotoPos {
    open spec fn links(&self) -> Links {
        Links { prev: self.prev.deep_view(), next: self.next.deep_view() }
    }

    fn prev(&self) -> (id: Option<String>) {
        clone_link(&self.prev)
    }

    fn next(&self) -> (id: Option<String>) {
        clone_link(&self.next)
    }
}

/// Puts the sprite at a named target.
#[derive(Debug, Clone, PartialEq)]
pub struct GotoOption {
    pub option: Option<MovementOption>,
    pub prev: Option<String>,
    pub next: Option<String>,
}

/// The mathematical model of [`GotoOption`].
pub ghost struct GotoOptionView {
    pub option: Option<MovementOption>,
    pub prev: Option<Seq<char>>,
    pub next: Option<Seq<char>>,
}

impl DeepView for GotoOption {
    type V = GotoOptionView;

    open spec fn deep_view(&self) -> GotoOptionView {
        GotoOptionView {
            option: self.option.deep_view(),
            prev: self.prev.deep_view(),
            next: self.next.deep_view(),
        }
    }
}

impl Block for GotoOption {
    open spec fn links(&self) -> Links {
        Links { prev: self.prev.deep_view(), next: self.next.deep_view() }
    }

    fn prev(&self) -> (id: Option<String>) {
        clone_link(&self.prev)
    }

    fn next(&self) -> (id: Option<String>) {
        clone_link(&self.next)
    }
}

/// Puts the sprite somewhere: at a point, or at a named target.
#[derive(Debug, Clone, PartialEq)]
pub enum Goto {
    Pos(GotoPos),
    Option(GotoOption),
}

/// The mathematical model of [`Goto`].
pub ghost enum GotoView {
    Pos(GotoPosView),
    Option(GotoOptionView),
}

impl GotoView {
    /// The links of the node.
    pub open spec fn links(self) -> Links {
        match self {
            GotoView::Pos(inner) => Links { prev: inner.prev, next: inner.next },
            GotoView::Option(inner) => Links { prev: inner.prev, next: inner.next },
        }
    }
}

impl DeepView for Goto {
    type V = GotoView;

    open spec fn deep_view(&self) -> GotoView {
        match self {
            Goto::Pos(inner) => GotoView::Pos(inner.deep_view()),
            Goto::Option(inner) => GotoView::Option(inner.deep_view()),
        }
    }
}

impl Block for Goto {
    open spec fn links(&self) -> Links {
        self.deep_view().links()
    }

    fn prev(&self) -> (id: Option<String>) {
        match self {
            Goto::Pos(inner) => inner.prev(),
            Goto::Option(inner) => inner.prev(),
        }
    }

    fn next(&self) -> (id: Option<String>) {
        match self {
            Goto::Pos(inner) => inner.next(),
            Goto::Option(inner) => inner.next(),
        }
    }
}

/// Glides the sprite to a point.
#[derive(Debug, Clone, PartialEq)]
pub struct GlidePos {
    pub x: Option<Value>,
    pub y: Option<Value>,
    pub prev: Option<String>,
    pub next: Option<String>,
}

/// The mathematical model of [`GlidePos`].
pub ghost struct GlidePosView {
    pub x: Option<ValueView>,
    pub y: Option<ValueView>,
    pub prev: Option<Seq<char>>,
    pub next: Option<Seq<char>>,
}

impl DeepView for GlidePos {
    type V = GlidePosView;

    open spec fn deep_view(&self) -> GlidePosView {
        GlidePosView {
            x: self.x.deep_view(),
            y: self.y.deep_view(),
            prev: self.prev.deep_view(),
            next: self.next.deep_view(),
        }
    }
}

impl Block for GlidePos {
    open spec fn links(&self) -> Links {
        Links { prev: self.prev.deep_view(), next: self.next.deep_view() }
    }

    fn prev(&self) -> (id: Option<String>) {
        clone_link(&self.prev)
    }

    fn next(&self) -> (id: Option<String>) {
        clone_link(&self.next)
    }
}

/// Glides the sprite to a named target.
#[derive(Debug, Clone, PartialEq)]
pub struct GlideOption {
    pub option: Option<MovementOption>,
    pub prev: Option<String>,
    pub next: Option<String>,
}

/// The mathematical model of [`GlideOption`].
pub ghost struct GlideOptionView {
    pub option: Option<MovementOption>,
    pub prev: Option<Seq<char>>,
    pub next: Option<Seq<char>>,
}

impl DeepView for GlideOption {
    type V = GlideOptionView;

    open spec fn deep_view(&self) -> GlideOptionView {
        GlideOptionView {
            option: self.option.deep_view(),
            prev: self.prev.deep_view(),
            next: self.next.deep_view(),
        }
    }
}

impl Block for GlideOption {
    open spec fn links(&self) -> Links {
        Links { prev: self.prev.deep_view(), next: self.next.deep_view() }
    }

    fn prev(&self) -> (id: Option<String>) {
        clone_link(&self.prev)
    }

    fn next(&self) -> (id: Option<String>) {
        clone_link(&self.next)
    }
}

/// Glides the sprite somewhere: to a point, or to a named target.
#[derive(Debug, Clone, PartialEq)]
pub enum Glide {
    Pos(GlidePos),
    Option(GlideOption),
}

/// The mathematical model of [`Glide`].
pub ghost enum GlideView {
    Pos(GlidePosView),
    Option(GlideOptionView),
}

impl GlideView {
    /// The links of the node.
    pub open spec fn links(self) -> Links {
        match self {
            GlideView::Pos(inner) => Links { prev: inner.prev, next: inner.next },
            GlideView::Option(inner) => Links { prev: inner.prev, next: inner.next },
        }
    }
}

impl DeepView for Glide {
    type V = GlideView;

    open spec fn deep_view(&self) -> GlideView {
        match self {
            Glide::Pos(inner) => GlideView::Pos(inner.deep_view()),
            Glide::Option(inner) => GlideView::Option(inner.deep_view()),
        }
    }
}

impl Block for Glide {
    open spec fn links(&self) -> Links {
        self.deep_view().links()
    }

    fn prev(&self) -> (id: Option<String>) {
        match self {
            Glide::Pos(inner) => inner.prev(),
            Glide::Option(inner) => inner.prev(),
        }
    }

    fn next(&self) -> (id: Option<String>) {
        match self {
            Glide::Pos(inner) => inner.next(),
            Glide::Option(inner) => inner.next(),
        }
    }
}

/// Points the sprite in a direction.
#[derive(Debug, Clone, PartialEq)]
pub struct PointDirection {
    pub x: Option<Value>,
    pub y: Option<Value>,
    pub prev: Option<String>,
    pub next: Option<String>,
}

/// The mathematical model of [`PointDirection`].
pub ghost struct PointDirectionView {
    pub x: Option<ValueView>,
    pub y: Option<ValueView>,
    pub prev: Option<Seq<char>>,
    pub next: Option<Seq<char>>,
}

impl DeepView for PointDirection {
    type V = PointDirectionView;

    open spec fn deep_view(&self) -> PointDirectionView {
        PointDirectionView {
            x: self.x.deep_view(),
            y: self.y.deep_view(),
            prev: self.prev.deep_view(),
            next: self.next.deep_view(),
        }
    }
}

impl Block for PointDirection {
    open spec fn links(&self) -> Links {
        Links { prev: self.prev.deep_view(), next: self.next.deep_view() }
    }

    fn prev(&self) -> (id: Option<String>) {
        clone_link(&self.prev)
    }

    fn next(&self) -> (id: Option<String>) {
        clone_link(&self.next)
    }
}

/// Points the sprite towards a target.
#[derive(Debug, Clone, PartialEq)]
pub struct PointOption {
    pub option: Option<Value>,
    pub prev: Option<String>,
    pub next: Option<String>,
}

/// The mathematical model of [`PointOption`].
pub ghost struct PointOptionView {
    pub option: Option<ValueView>,
    pub prev: Option<Seq<char>>,
    pub next: Option<Seq<char>>,
}

impl DeepView for PointOption {
    type V = PointOptionView;

    open spec fn deep_view(&self) -> PointOptionView {
        PointOptionView {
            option: self.option.deep_view(),
            prev: self.prev.deep_view(),
            next: self.next.deep_view(),
        }
    }
}

impl Block for PointOption {
    open spec fn links(&self) -> Links {
        Links { prev: self.prev.deep_view(), next: self.next.deep_view() }
    }

    fn prev(&self) -> (id: Option<String>) {
        clone_link(&self.prev)
    }

    fn next(&self) -> (id: Option<String>) {
        clone_link(&self.next)
    }
}

/// Points the sprite: in a direction, or towards a target.
#[derive(Debug, Clone, PartialEq)]
pub enum Point {
    Direction(PointDirection),
    Towards(PointOption),
}

/// The mathematical model of [`Point`].
pub ghost enum PointView {
    Direction(PointDirectionView),
    Towards(PointOptionView),
}

impl PointView {
    /// The links of the node.
    pub open spec fn links(self) -> Links {
        match self {
            PointView::Direction(inner) => Links { prev: inner.prev, next: inner.next },
            PointView::Towards(inner) => Links { prev: inner.prev, next: inner.next },
        }
    }
}

impl DeepView for Point {
    type V = PointView;

    open spec fn deep_view(&self) -> PointView {
        match self {
            Point::Direction(inner) => PointView::Direction(inner.deep_view()),
            Point::Towards(inner) => PointView::Towards(inner.deep_view()),
        }
    }
}

impl Block for Point {
    open spec fn links(&self) -> Links {
        self.deep_view().links()
    }

    fn prev(&self) -> (id: Option<String>) {
        match self {
            Point::Direction(inner) => inner.prev(),
            Point::Towards(inner) => inner.prev(),
        }
    }

    fn next(&self) -> (id: Option<String>) {
        match self {
            Point::Direction(inner) => inner.next(),
            Point::Towards(inner) => inner.next(),
        }
    }
}

/// Lists what the sprite can point towards.
#[derive(Debug, Clone, PartialEq)]
pub struct PointTowardsMenu {
    pub option: Option<Point>,
    pub prev: Option<String>,
    pub next: Option<String>,
}

/// The mathematical model of [`PointTowardsMenu`].
pub ghost struct PointTowardsMenuView {
    pub option: Option<PointView>,
    pub prev: Option<Seq<char>>,
    pub next: Option<Seq<char>>,
}

impl DeepView for PointTowardsMenu {
    type V = PointTowardsMenuView;

    open spec fn deep_view(&self) -> PointTowardsMenuView {
        PointTowardsMenuView {
            option: self.option.deep_view(),
            prev: self.prev.deep_view(),
            next: self.next.deep_view(),
        }
    }
}

impl Block for PointTowardsMenu {
    open spec fn links(&self) -> Links {
        Links { prev: self.prev.deep_view(), next: self.next.deep_view() }
    }

    fn prev(&self) -> (id: Option<String>) {
        clone_link(&self.prev)
    }

    fn next(&self) -> (id: Option<String>) {
        clone_link(&self.next)
    }
}

/// Adds to the x coordinate of the sprite.
#[derive(Debug, Clone, PartialEq)]
pub struct ChangeX {
    pub x: Option<Value>,
    pub prev: Option<String>,
    pub next: Option<String>,
}

/// The mathematical model of [`ChangeX`].
pub ghost struct ChangeXView {
    pub x: Option<ValueView>,
    pub prev: Option<Seq<char>>,
    pub next: Option<Seq<char>>,
}

impl DeepView for ChangeX {
    type V = ChangeXView;

    open spec fn deep_view(&self) -> ChangeXView {
        ChangeXView {
            x: self.x.deep_view(),
            prev: self.prev.deep_view(),
            next: self.next.deep_view(),
        }
    }
}

impl Block for ChangeX {
    open spec fn links(&self) -> Links {
        Links { prev: self.prev.deep_view(), next: self.next.deep_view() }
    }

    fn prev(&self) -> (id: Option<String>) {
        clone_link(&self.prev)
    }

    fn next(&self) -> (id: Option<String>) {
        clone_link(&self.next)
    }
}

/// Sets the x coordinate of the sprite.
#[derive(Debug, Clone, PartialEq)]
pub struct SetX {
    pub x: Option<Value>,
    pub prev: Option<String>,
    pub next: Option<String>,
}

/// The mathematical model of [`SetX`].
pub ghost struct SetXView {
    pub x: Option<ValueView>,
    pub prev: Option<Seq<char>>,
    pub next: Option<Seq<char>>,
}

impl DeepView for SetX {
    type V = SetXView;

    open spec fn deep_view(&self) -> SetXView {
        SetXView { x: self.x.deep_view(), prev: self.prev.deep_view(), next: self.next.deep_view() }
    }
}

impl Block for SetX {
    open spec fn links(&self) -> Links {
        Links { prev: self.prev.deep_view(), next: self.next.deep_view() }
    }

    fn prev(&self) -> (id: Option<String>) {
        clone_link(&self.prev)
    }

    fn next(&self) -> (id: Option<String>) {
        clone_link(&self.next)
    }
}

/// Adds to the y coordinate of the sprite.
#[derive(Debug, Clone, PartialEq)]
pub struct ChangeY {
    pub y: Option<Value>,
    pub prev: Option<String>,
    pub next: Option<String>,
}

/// The mathematical model of [`ChangeY`].
pub ghost struct ChangeYView {
    pub y: Option<ValueView>,
    pub prev: Option<Seq<char>>,
    pub next: Option<Seq<char>>,
}

impl DeepView for ChangeY {
    type V = ChangeYView;

    open spec fn deep_view(&self) -> ChangeYView {
        ChangeYView {
            y: self.y.deep_view(),
            prev: self.prev.deep_view(),
            next: self.next.deep_view(),
        }
    }
}

impl Block for ChangeY {
    open spec fn links(&self) -> Links {
        Links { prev: self.prev.deep_view(), next: self.next.deep_view() }
    }

    fn prev(&self) -> (id: Option<String>) {
        clone_link(&self.prev)
    }

    fn next(&self) -> (id: Option<String>) {
        clone_link(&self.next)
    }
}

/// Sets the y coordinate of the sprite.
#[derive(Debug, Clone, PartialEq)]
pub struct SetY {
    pub y: Option<Value>,
    pub prev: Option<String>,
    pub next: Option<String>,
}

/// The mathematical model of [`SetY`].
pub ghost struct SetYView {
    pub y: Option<ValueView>,
    pub prev: Option<Seq<char>>,
    pub next: Option<Seq<char>>,
}

impl DeepView for SetY {
    type V = SetYView;

    open spec fn deep_view(&self) -> SetYView {
        SetYView { y: self.y.deep_view(), prev: self.prev.deep_view(), next: self.next.deep_view() }
    }
}

impl Block for SetY {
    open spec fn links(&self) -> Links {
        Links { prev: self.prev.deep_view(), next: self.next.deep_view() }
    }

    fn prev(&self) -> (id: Option<String>) {
        clone_link(&self.prev)
    }

    fn next(&self) -> (id: Option<String>) {
        clone_link(&self.next)
    }
}

/// Turns the sprite around when it touches the edge.
#[derive(Debug, Clone, PartialEq)]
pub struct IfOnEdgeBounce {
    pub prev: Option<String>,
    pub next: Option<String>,
}

impl DeepView for IfOnEdgeBounce {
    type V = Links;

    open spec fn deep_view(&self) -> Links {
        Links { prev: self.prev.deep_view(), next: self.next.deep_view() }
    }
}

impl Block for IfOnEdgeBounce {
    open spec fn links(&self) -> Links {
        Links { prev: self.prev.deep_view(), next: self.next.deep_view() }
    }

    fn prev(&self) -> (id: Option<String>) {
        clone_link(&self.prev)
    }

    fn next(&self) -> (id: Option<String>) {
        clone_link(&self.next)
    }
}

/// How a sprite turns when its direction changes.
#[derive(Debug, Clone, Copy, PartialEq, Eq, Structural)]
pub enum RotationStyle {
    LeftRight,
    DontRotate,
    AllAround,
}

impl DeepView for RotationStyle {
    type V = RotationStyle;

    open spec fn deep_view(&self) -> RotationStyle {
        *self
    }
}

impl RotationStyle {
    /// The option that `tag` names in the table, if it names one.
    pub open spec fn tagged(tag: Seq<char>) -> Option<RotationStyle> {
        if tag == "left-right"@ {
            Some(RotationStyle::LeftRight)
        } else if tag == "don't rotate"@ {
            Some(RotationStyle::DontRotate)
        } else if tag == "all around"@ {
            Some(RotationStyle::AllAround)
        } else {
            None
        }
    }

    /// What an operand decodes to: nothing for a missing operand, the
    /// option for a tag of the table, and for anything else what `mode`
    /// makes of an unmatched tag.
    pub open spec fn decoded(val: Option<ValueView>, mode: Mode) -> Result<
        Option<RotationStyle>,
        DecodeError,
    > {
        match val {
            None => Ok(None),
            Some(ValueView::String(tag)) => match Self::tagged(tag) {
                Some(option) => Ok(Some(option)),
                None => mode.unmatched(),
            },
            Some(_) => mode.unmatched(),
        }
    }

    /// Looks `tag` up in the table.
    pub fn parse(tag: &str) -> (found: Option<RotationStyle>)
        ensures
            found == Self::tagged(tag@),
    {
        if same_text(tag, "left-right") {
            Some(RotationStyle::LeftRight)
        } else if same_text(tag, "don't rotate") {
            Some(RotationStyle::DontRotate)
        } else if same_text(tag, "all around") {
            Some(RotationStyle::AllAround)
        } else {
            None
        }
    }

    /// Decodes an operand.
    pub fn from(val: Option<Value>, mode: Mode) -> (r: Result<Option<RotationStyle>, DecodeError>)
        ensures
            r == Self::decoded(val.deep_view(), mode),
    {
        match val {
            None => Ok(None),
            Some(Value::String(tag)) => match Self::parse(tag.as_str()) {
                Some(option) => Ok(Some(option)),
                None => mode.on_unmatched(),
            },
            Some(_) => mode.on_unmatched(),
        }
    }
}

/// Sets how the sprite turns.
#[derive(Debug, Clone, PartialEq)]
pub struct SetRotationStyle {
    pub style: Option<RotationStyle>,
    pub prev: Option<String>,
    pub next: Option<String>,
}

/// The mathematical model of [`SetRotationStyle`].
pub ghost struct SetRotationStyleView {
    pub style: Option<RotationStyle>,
    pub prev: Option<Seq<char>>,
    pub next: Option<Seq<char>>,
}

impl DeepView for SetRotationStyle {
    type V = SetRotationStyleView;

    open spec fn deep_view(&self) -> SetRotationStyleView {
        SetRotationStyleView {
            style: self.style.deep_view(),
            prev: self.prev.deep_view(),
            next: self.next.deep_view(),
        }
    }
}

impl Block for SetRotationStyle {
    open spec fn links(&self) -> Links {
        Links { prev: self.prev.deep_view(), next: self.next.deep_view() }
    }

    fn prev(&self) -> (id: Option<String>) {
        clone_link(&self.prev)
    }

    fn next(&self) -> (id: Option<String>) {
        clone_link(&self.next)
    }
}

/// Reads the x coordinate of the sprite.
#[derive(Debug, Clone, PartialEq)]
pub struct XPosition {
    pub prev: Option<String>,
    pub next: Option<String>,
}

impl DeepView for XPosition {
    type V = Links;

    open spec fn deep_view(&self) -> Links {
        Links { prev: self.prev.deep_view(), next: self.next.deep_view() }
    }
}

impl Block for XPosition {
    open spec fn links(&self) -> Links {
        Links { prev: self.prev.deep_view(), next: self.next.deep_view() }
    }

    fn prev(&self) -> (id: Option<String>) {
        clone_link(&self.prev)
    }

    fn next(&self) -> (id: Option<String>) {
        clone_link(&self.next)
    }
}

/// Reads the y coordinate of the sprite.
#[derive(Debug, Clone, PartialEq)]
pub struct YPosition {
    pub prev: Option<String>,
    pub next: Option<String>,
}

impl DeepView for YPosition {
    type V = Links;

    open spec fn deep_view(&self) -> Links {
        Links { prev: self.prev.deep_view(), next: self.next.deep_view() }
    }
}

impl Block for YPosition {
    open spec fn links(&self) -> Links {
        Links { prev: self.prev.deep_view(), next: self.next.deep_view() }
    }

    fn prev(&self) -> (id: Option<String>) {
        clone_link(&self.prev)
    }

    fn next(&self) -> (id: Option<String>) {
        clone_link(&self.next)
    }
}

/// Reads the direction of the sprite.
#[derive(Debug, Clone, PartialEq)]
pub struct Direction {
    pub prev: Option<String>,
    pub next: Option<String>,
}

impl DeepView for Direction {
    type V = Links;

    open spec fn deep_view(&self) -> Links {
        Links { prev: self.prev.deep_view(), next: self.next.deep_view() }
    }
}

impl Block for Direction {
    open spec fn links(&self) -> Links {
        Links { prev: self.prev.deep_view(), next: self.next.deep_view() }
    }

    fn prev(&self) -> (id: Option<String>) {
        clone_link(&self.prev)
    }

    fn next(&self) -> (id: Option<String>) {
        clone_link(&self.next)
    }
}
} // verus!
