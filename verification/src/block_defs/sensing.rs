//! Sensing blocks: touching, the mouse, the keyboard, the timer and the clock.
use vstd::prelude::*;
use crate::block_defs::events::Key;
use crate::blocks::{Block, Links};
use crate::error::{DecodeError, Mode};
use crate::raw::clone_link;
use crate::text::same_text;
use crate::value::{Value, ValueView};

verus! {

/// What a sensing block senses.
#[derive(Debug, Clone, PartialEq)]
pub enum SensingOption {
    MousePointer,
    Edge,
    /// The sprite that this text names.
    Sprite(Value),
}

/// The mathematical model of [`SensingOption`].
pub ghost enum SensingOptionView {
    MousePointer,
    Edge,
    Sprite(ValueView),
}

impl DeepView for SensingOption {
    type V = SensingOptionView;

    open spec fn deep_view(&self) -> SensingOptionView {
        match self {
            SensingOption::MousePointer => SensingOptionView::MousePointer,
            SensingOption::Edge => SensingOptionView::Edge,
            SensingOption::Sprite(name) => SensingOptionView::Sprite(name@),
        }
    }
}

impl SensingOption {
    /// What an operand decodes to: for a text, the mouse pointer under the
    /// tag `_mouse_`, the edge under `_edge_`, and otherwise the sprite that
    /// the text names; nothing for anything else.
    pub open spec fn decoded(val: Option<ValueView>) -> Option<SensingOptionView> {
        match val {
            Some(ValueView::String(tag)) => if tag == "_mouse_"@ {
                Some(SensingOptionView::MousePointer)
            } else if tag == "_edge_"@ {
                Some(SensingOptionView::Edge)
            } else {
                Some(SensingOptionView::Sprite(ValueView::String(tag)))
            },
            _ => None,
        }
    }

    /// Decodes an operand.
    pub fn from(val: Option<Value>) -> (option: Option<SensingOption>)
        ensures
            option.deep_view() == Self::decoded(val.deep_view()),
    {
        match val {
            Some(Value::String(tag)) => {
                if same_text(tag.as_str(), "_mouse_") {
                    Some(SensingOption::MousePointer)
                } else if same_text(tag.as_str(), "_edge_") {
                    Some(SensingOption::Edge)
                } else {
                    Some(SensingOption::Sprite(Value::String(tag)))
                }
            },
            _ => None,
        }
    }
}

/// Whether the sprite touches a target.
#[derive(Debug, Clone, PartialEq)]
pub struct Touching {
    pub touching: Option<Value>,
    pub prev: Option<String>,
    pub next: Option<String>,
}

/// The mathematical model of [`Touching`].
pub ghost struct TouchingView {
    pub touching: Option<ValueView>,
    pub prev: Option<Seq<char>>,
    pub next: Option<Seq<char>>,
}

impl DeepView for Touching {
    type V = TouchingView;

    open spec fn deep_view(&self) -> TouchingView {
        TouchingView {
            touching: self.touching.deep_view(),
            prev: self.prev.deep_view(),
            next: self.next.deep_view(),
        }
    }
}

impl Block for Touching {
    open spec fn links(&self) -> Links {
        Links { prev: self.prev.deep_view(), next: self.next.deep_view() }
    }

    fn prev(&self) -> (id: Option<String>) {
        clone_link(&self.prev)
    }

    fn next(&self) -> (id: Option<String>) {
        clone_link(&self.next)
    }
}

/// Lists what the sprite can touch.
#[derive(Debug, Clone, PartialEq)]
pub struct TouchingMenu {
    pub touching: Option<SensingOption>,
    pub prev: Option<String>,
    pub next: Option<String>,
}

/// The mathematical model of [`TouchingMenu`].
pub ghost struct TouchingMenuView {
    pub touching: Option<SensingOptionView>,
    pub prev: Option<Seq<char>>,
    pub next: Option<Seq<char>>,
}

impl DeepView for TouchingMenu {
    type V = TouchingMenuView;

    open spec fn deep_view(&self) -> TouchingMenuView {
        TouchingMenuView {
            touching: self.touching.deep_view(),
            prev: self.prev.deep_view(),
            next: self.next.deep_view(),
        }
    }
}

impl Block for TouchingMenu {
    open spec fn links(&self) -> Links {
        Links { prev: self.prev.deep_view(), next: self.next.deep_view() }
    }

    fn prev(&self) -> (id: Option<String>) {
        clone_link(&self.prev)
    }

    fn next(&self) -> (id: Option<String>) {
        clone_link(&self.next)
    }
}

/// Whether the sprite touches a color.
#[derive(Debug, Clone, PartialEq)]
pub struct TouchingColor {
    pub color: Option<Value>,
    pub prev: Option<String>,
    pub next: Option<String>,
}

/// The mathematical model of [`TouchingColor`].
pub ghost struct TouchingColorView {
    pub color: Option<ValueView>,
    pub prev: Option<Seq<char>>,
    pub next: Option<Seq<char>>,
}

impl DeepView for TouchingColor {
    type V = TouchingColorView;

    open spec fn deep_view(&self) -> TouchingColorView {
        TouchingColorView {
            color: self.color.deep_view(),
            prev: self.prev.deep_view(),
            next: self.next.deep_view(),
        }
    }
}

impl Block for TouchingColor {
    open spec fn links(&self) -> Links {
        Links { prev: self.prev.deep_view(), next: self.next.deep_view() }
    }

    fn prev(&self) -> (id: Option<String>) {
        clone_link(&self.prev)
    }

    fn next(&self) -> (id: Option<String>) {
        clone_link(&self.next)
    }
}

/// Whether one color on the sprite touches another color.
#[derive(Debug, Clone, PartialEq)]
pub struct ColorTouchingColor {
    pub color1: Option<Value>,
    pub color2: Option<Value>,
    pub prev: Option<String>,
    pub next: Option<String>,
}

/// The mathematical model of [`ColorTouchingColor`].
pub ghost struct ColorTouchingColorView {
    pub color1: Option<ValueView>,
    pub color2: Option<ValueView>,
    pub prev: Option<Seq<char>>,
    pub next: Option<Seq<char>>,
}

impl DeepView for ColorTouchingColor {
    type V = ColorTouchingColorView;

    open spec fn deep_view(&self) -> ColorTouchingColorView {
        ColorTouchingColorView {
            color1: self.color1.deep_view(),
            color2: self.color2.deep_view(),
            prev: self.prev.deep_view(),
            next: self.next.deep_view(),
        }
    }
}

impl Block for ColorTouchingColor {
    open spec fn links(&self) -> Links {
        Links { prev: self.prev.deep_view(), next: self.next.deep_view() }
    }

    fn prev(&self) -> (id: Option<String>) {
        clone_link(&self.prev)
    }

    fn next(&self) -> (id: Option<String>) {
        clone_link(&self.next)
    }
}

/// The distance from the sprite to a target.
#[derive(Debug, Clone, PartialEq)]
pub struct DistanceTo {
    pub to: Option<SensingOption>,
    pub prev: Option<String>,
    pub next: Option<String>,
}

/// The mathematical model of [`DistanceTo`].
pub ghost struct DistanceToView {
    pub to: Option<SensingOptionView>,
    pub prev: Option<Seq<char>>,
    pub next: Option<Seq<char>>,
}

impl DeepView for DistanceTo {
    type V = DistanceToView;

    open spec fn deep_view(&self) -> DistanceToView {
        DistanceToView {
            to: self.to.deep_view(),
            prev: self.prev.deep_view(),
            next: self.next.deep_view(),
        }
    }
}

impl Block for DistanceTo {
    open spec fn links(&self) -> Links {
        Links { prev: self.prev.deep_view(), next: self.next.deep_view() }
    }

    fn prev(&self) -> (id: Option<String>) {
        clone_link(&self.prev)
    }

    fn next(&self) -> (id: Option<String>) {
        clone_link(&self.next)
    }
}

/// Reads the last answer typed by the user.
#[derive(Debug, Clone, PartialEq)]
pub struct Answer {
    pub prev: Option<String>,
    pub next: Option<String>,
}

impl DeepView for Answer {
    type V = Links;

    open spec fn deep_view(&self) -> Links {
        Links { prev: self.prev.deep_view(), next: self.next.deep_view() }
    }
}

impl Block for Answer {
    open spec fn links(&self) -> Links {
        Links { prev: self.prev.deep_view(), next: self.next.deep_view() }
    }

    fn prev(&self) -> (id: Option<String>) {
        clone_link(&self.prev)
    }

    fn next(&self) -> (id: Option<String>) {
        clone_link(&self.next)
    }
}

/// Whether a key is held down.
#[derive(Debug, Clone, PartialEq)]
pub struct KeyPressed {
    pub key: Option<Key>,
    pub prev: Option<String>,
    pub next: Option<String>,
}

/// The mathematical model of [`KeyPressed`].
pub ghost struct KeyPressedView {
    pub key: Option<Key>,
    pub prev: Option<Seq<char>>,
    pub next: Option<Seq<char>>,
}

impl DeepView for KeyPressed {
    type V = KeyPressedView;

    open spec fn deep_view(&self) -> KeyPressedView {
        KeyPressedView {
            key: self.key.deep_view(),
            prev: self.prev.deep_view(),
            next: self.next.deep_view(),
        }
    }
}

impl Block for KeyPressed {
    open spec fn links(&self) -> Links {
        Links { prev: self.prev.deep_view(), next: self.next.deep_view() }
    }

    fn prev(&self) -> (id: Option<String>) {
        clone_link(&self.prev)
    }

    fn next(&self) -> (id: Option<String>) {
        clone_link(&self.next)
    }
}

/// Whether the mouse button is held down.
#[derive(Debug, Clone, PartialEq)]
pub struct MouseDown {
    pub prev: Option<String>,
    pub next: Option<String>,
}

impl DeepView for MouseDown {
    type V = Links;

    open spec fn deep_view(&self) -> Links {
        Links { prev: self.prev.deep_view(), next: self.next.deep_view() }
    }
}

impl Block for MouseDown {
    open spec fn links(&self) -> Links {
        Links { prev: self.prev.deep_view(), next: self.next.deep_view() }
    }

    fn prev(&self) -> (id: Option<String>) {
        clone_link(&self.prev)
    }

    fn next(&self) -> (id: Option<String>) {
        clone_link(&self.next)
    }
}

/// Reads the x coordinate of the mouse pointer.
#[derive(Debug, Clone, PartialEq)]
pub struct MouseX {
    pub prev: Option<String>,
    pub next: Option<String>,
}

impl DeepView for MouseX {
    type V = Links;

    open spec fn deep_view(&self) -> Links {
        Links { prev: self.prev.deep_view(), next: self.next.deep_view() }
    }
}

impl Block for MouseX {
    open spec fn links(&self) -> Links {
        Links { prev: self.prev.deep_view(), next: self.next.deep_view() }
    }

    fn prev(&self) -> (id: Option<String>) {
        clone_link(&self.prev)
    }

    fn next(&self) -> (id: Option<String>) {
        clone_link(&self.next)
    }
}

/// Reads the y coordinate of the mouse pointer.
#[derive(Debug, Clone, PartialEq)]
pub struct MouseY {
    pub prev: Option<String>,
    pub next: Option<String>,
}

impl DeepView for MouseY {
    type V = Links;

    open spec fn deep_view(&self) -> Links {
        Links { prev: self.prev.deep_view(), next: self.next.deep_view() }
    }
}

impl Block for MouseY {
    open spec fn links(&self) -> Links {
        Links { prev: self.prev.deep_view(), next: self.next.deep_view() }
    }

    fn prev(&self) -> (id: Option<String>) {
        clone_link(&self.prev)
    }

    fn next(&self) -> (id: Option<String>) {
        clone_link(&self.next)
    }
}

/// Whether a sprite can be dragged.
#[derive(Debug, Clone, Copy, PartialEq, Eq, Structural)]
pub enum DraggableOption {
    Draggable,
    NotDraggable,
}

impl DeepView for DraggableOption {
    type V = DraggableOption;

    open spec fn deep_view(&self) -> DraggableOption {
        *self
    }
}

impl DraggableOption {
    /// The option that `tag` names in the table, if it names one.
    pub open spec fn tagged(tag: Seq<char>) -> Option<DraggableOption> {
        if tag == "draggable"@ {
            Some(DraggableOption::Draggable)
        } else if tag == "not draggable"@ {
            Some(DraggableOption::NotDraggable)
        } else {
            None
        }
    }

    /// What an operand decodes to: nothing for a missing operand, the
    /// option for a tag of the table, and for anything else what `mode`
    /// makes of an unmatched tag.
    pub open spec fn decoded(val: Option<ValueView>, mode: Mode) -> Result<
        Option<DraggableOption>,
        DecodeError,
    > {
        match val {
            None => Ok(None),
            Some(ValueView::String(tag)) => match Self::tagged(tag) {
                Some(option) => Ok(Some(option)),
                None => mode.unmatched(),
            },
            Some(_) => mode.unmatched(),
        }
    }

    /// Looks `tag` up in the table.
    pub fn parse(tag: &str) -> (found: Option<DraggableOption>)
        ensures
            found == Self::tagged(tag@),
    {
        if same_text(tag, "draggable") {
            Some(DraggableOption::Draggable)
        } else if same_text(tag, "not draggable") {
            Some(DraggableOption::NotDraggable)
        } else {
            None
        }
    }

    /// Decodes an operand.
    pub fn from(val: Option<Value>, mode: Mode) -> (r: Result<Option<DraggableOption>, DecodeError>)
        ensures
            r == Self::decoded(val.deep_view(), mode),
    {
        match val {
            None => Ok(None),
            Some(Value::String(tag)) => match Self::parse(tag.as_str()) {
                Some(option) => Ok(Some(option)),
                None => mode.on_unmatched(),
            },
            Some(_) => mode.on_unmatched(),
        }
    }
}

/// Sets whether the sprite can be dragged.
#[derive(Debug, Clone, PartialEq)]
pub struct SetDragMode {
    pub option: Option<DraggableOption>,
    pub prev: Option<String>,
    pub next: Option<String>,
}

/// The mathematical model of [`SetDragMode`].
pub ghost struct SetDragModeView {
    pub option: Option<DraggableOption>,
    pub prev: Option<Seq<char>>,
    pub next: Option<Seq<char>>,
}

impl DeepView for SetDragMode {
    type V = SetDragModeView;

    open spec fn deep_view(&self) -> SetDragModeView {
        SetDragModeView {
            option: self.option.deep_view(),
            prev: self.prev.deep_view(),
            next: self.next.deep_view(),
        }
    }
}

impl Block for SetDragMode {
    open spec fn links(&self) -> Links {
        Links { prev: self.prev.deep_view(), next: self.next.deep_view() }
    }

    fn prev(&self) -> (id: Option<String>) {
        clone_link(&self.prev)
    }

    fn next(&self) -> (id: Option<String>) {
        clone_link(&self.next)
    }
}

/// Reads the loudness of the microphone.
#[derive(Debug, Clone, PartialEq)]
pub struct Loudness {
    pub prev: Option<String>,
    pub next: Option<String>,
}

impl DeepView for Loudness {
    type V = Links;

    open spec fn deep_view(&self) -> Links {
        Links { prev: self.prev.deep_view(), next: self.next.deep_view() }
    }
}

impl Block for Loudness {
    open spec fn links(&self) -> Links {
        Links { prev: self.prev.deep_view(), next: self.next.deep_view() }
    }

    fn prev(&self) -> (id: Option<String>) {
        clone_link(&self.prev)
    }

    fn next(&self) -> (id: Option<String>) {
        clone_link(&self.next)
    }
}

/// Reads the timer.
#[derive(Debug, Clone, PartialEq)]
pub struct Timer {
    pub prev: Option<String>,
    pub next: Option<String>,
}

impl DeepView for Timer {
    type V = Links;

    open spec fn deep_view(&self) -> Links {
        Links { prev: self.prev.deep_view(), next: self.next.deep_view() }
    }
}

impl Block for Timer {
    open spec fn links(&self) -> Links {
        Links { prev: self.prev.deep_view(), next: self.next.deep_view() }
    }

    fn prev(&self) -> (id: Option<String>) {
        clone_link(&self.prev)
    }

    fn next(&self) -> (id: Option<String>) {
        clone_link(&self.next)
    }
}

/// Sets the timer back to zero.
#[derive(Debug, Clone, PartialEq)]
pub struct ResetTimer {
    pub prev: Option<String>,
    pub next: Option<String>,
}

impl DeepView for ResetTimer {
    type V = Links;

    open spec fn deep_view(&self) -> Links {
        Links { prev: self.prev.deep_view(), next: self.next.deep_view() }
    }
}

impl Block for ResetTimer {
    open spec fn links(&self) -> Links {
        Links { prev: self.prev.deep_view(), next: self.next.deep_view() }
    }

    fn prev(&self) -> (id: Option<String>) {
        clone_link(&self.prev)
    }

    fn next(&self) -> (id: Option<String>) {
        clone_link(&self.next)
    }
}

/// A property of the stage that a sprite can read.
#[derive(Debug, Clone, Copy, PartialEq, Eq, Structural)]
pub enum BackdropOfOption {
    BackdropNumber,
    BackdropName,
    Volume,
    MyVariable,
}

impl DeepView for BackdropOfOption {
    type V = BackdropOfOption;

    open spec fn deep_view(&self) -> BackdropOfOption {
        *self
    }
}

/// Reads a property of the stage.
#[derive(Debug, Clone, PartialEq)]
pub struct BackdropOf {
    pub backdrop: BackdropOfOption,
    pub prev: Option<String>,
    pub next: Option<String>,
}

/// The mathematical model of [`BackdropOf`].
pub ghost struct BackdropOfView {
    pub backdrop: BackdropOfOption,
    pub prev: Option<Seq<char>>,
    pub next: Option<Seq<char>>,
}

impl DeepView for BackdropOf {
    type V = BackdropOfView;

    open spec fn deep_view(&self) -> BackdropOfView {
        BackdropOfView {
            backdrop: self.backdrop.deep_view(),
            prev: self.prev.deep_view(),
            next: self.next.deep_view(),
        }
    }
}

impl Block for BackdropOf {
    open spec fn links(&self) -> Links {
        Links { prev: self.prev.deep_view(), next: self.next.deep_view() }
    }

    fn prev(&self) -> (id: Option<String>) {
        clone_link(&self.prev)
    }

    fn next(&self) -> (id: Option<String>) {
        clone_link(&self.next)
    }
}

/// A unit of the current time.
#[derive(Debug, Clone, Copy, PartialEq, Eq, Structural)]
pub enum CurrentTimeOption {
    Year,
    Month,
    Date,
    DayOfWeek,
    Hour,
    Minute,
    Second,
}

impl DeepView for CurrentTimeOption {
    type V = CurrentTimeOption;

    open spec fn deep_view(&self) -> CurrentTimeOption {
        *self
    }
}

impl CurrentTimeOption {
    /// The option that `tag` names in the table, if it names one.
    pub open spec fn tagged(tag: Seq<char>) -> Option<CurrentTimeOption> {
        if tag == "year"@ {
            Some(CurrentTimeOption::Year)
        } else if tag == "month"@ {
            Some(CurrentTimeOption::Month)
        } else if tag == "date"@ {
            Some(CurrentTimeOption::Date)
        } else if tag == "day of week"@ {
            Some(CurrentTimeOption::DayOfWeek)
        } else if tag == "hour"@ {
            Some(CurrentTimeOption::Hour)
        } else if tag == "minute"@ {
            Some(CurrentTimeOption::Minute)
        } else if tag == "second"@ {
            Some(CurrentTimeOption::Second)
        } else {
            None
        }
    }

    /// What an operand decodes to: nothing for a missing operand, the
    /// option for a tag of the table, and for anything else what `mode`
    /// makes of an unmatched tag.
    pub open spec fn decoded(val: Option<ValueView>, mode: Mode) -> Result<
        Option<CurrentTimeOption>,
        DecodeError,
    > {
        match val {
            None => Ok(None),
            Some(ValueView::String(tag)) => match Self::tagged(tag) {
                Some(option) => Ok(Some(option)),
                None => mode.unmatched(),
            },
            Some(_) => mode.unmatched(),
        }
    }

    /// Looks `tag` up in the table.
    pub fn parse(tag: &str) -> (found: Option<CurrentTimeOption>)
        ensures
            found == Self::tagged(tag@),
    {
        if same_text(tag, "year") {
            Some(CurrentTimeOption::Year)
        } else if same_text(tag, "month") {
            Some(CurrentTimeOption::Month)
        } else if same_text(tag, "date") {
            Some(CurrentTimeOption::Date)
        } else if same_text(tag, "day of week") {
            Some(CurrentTimeOption::DayOfWeek)
        } else if same_text(tag, "hour") {
            Some(CurrentTimeOption::Hour)
        } else if same_text(tag, "minute") {
            Some(CurrentTimeOption::Minute)
        } else if same_text(tag, "second") {
            Some(CurrentTimeOption::Second)
        } else {
            None
        }
    }

    /// Decodes an operand.
    pub fn from(val: Option<Value>, mode: Mode) -> (r: Result<Option<CurrentTimeOption>, DecodeError>)
        ensures
            r == Self::decoded(val.deep_view(), mode),
    {
        match val {
            None => Ok(None),
            Some(Value::String(tag)) => match Self::parse(tag.as_str()) {
                Some(option) => Ok(Some(option)),
                None => mode.on_unmatched(),
            },
            Some(_) => mode.on_unmatched(),
        }
    }
}

/// Reads one unit of the current time.
#[derive(Debug, Clone, PartialEq)]
pub struct CurrentTime {
    pub option: Option<CurrentTimeOption>,
    pub prev: Option<String>,
    pub next: Option<String>,
}

/// The mathematical model of [`CurrentTime`].
pub ghost struct CurrentTimeView {
    pub option: Option<CurrentTimeOption>,
    pub prev: Option<Seq<char>>,
    pub next: Option<Seq<char>>,
}

impl DeepView for CurrentTime {
    type V = CurrentTimeView;

    open spec fn deep_view(&self) -> CurrentTimeView {
        CurrentTimeView {
            option: self.option.deep_view(),
            prev: self.prev.deep_view(),
            next: self.next.deep_view(),
        }
    }
}

impl Block for CurrentTime {
    open spec fn links(&self) -> Links {
        Links { prev: self.prev.deep_view(), next: self.next.deep_view() }
    }

    fn prev(&self) -> (id: Option<String>) {
        clone_link(&self.prev)
    }

    fn next(&self) -> (id: Option<String>) {
        clone_link(&self.next)
    }
}

/// Reads the number of days since the year 2000.
#[derive(Debug, Clone, PartialEq)]
pub struct DaysSince2000 {
    pub prev: Option<String>,
    pub next: Option<String>,
}

impl DeepView for DaysSince2000 {
    type V = Links;

    open spec fn deep_view(&self) -> Links {
        Links { prev: self.prev.deep_view(), next: self.next.deep_view() }
    }
}

impl Block for DaysSince2000 {
    open spec fn links(&self) -> Links {
        Links { prev: self.prev.deep_view(), next: self.next.deep_view() }
    }

    fn prev(&self) -> (id: Option<String>) {
        clone_link(&self.prev)
    }

    fn next(&self) -> (id: Option<String>) {
        clone_link(&self.next)
    }
}

/// Reads the name of the user.
#[derive(Debug, Clone, PartialEq)]
pub struct Username {
    pub prev: Option<String>,
    pub next: Option<String>,
}

impl DeepView for Username {
    type V = Links;

    open spec fn deep_view(&self) -> Links {
        Links { prev: self.prev.deep_view(), next: self.next.deep_view() }
    }
}

impl Block for Username {
    open spec fn links(&self) -> Links {
        Links { prev: self.prev.deep_view(), next: self.next.deep_view() }
    }

    fn prev(&self) -> (id: Option<String>) {
        clone_link(&self.prev)
    }

    fn next(&self) -> (id: Option<String>) {
        clone_link(&self.next)
    }
}
} // verus!
