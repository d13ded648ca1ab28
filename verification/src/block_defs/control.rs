//! Control blocks: waiting, looping, branching and clones.
use vstd::prelude::*;
use crate::blocks::{Block, Links};
use crate::error::{outcome, DecodeError, Mode};
use crate::raw::clone_link;
use crate::text::same_text;
use crate::value::{Value, ValueView};

verus! {

/// Pauses the script for a number of seconds.
#[derive(Debug, Clone, PartialEq)]
pub struct WaitSeconds {
    pub seconds: Option<Value>,
    pub prev: Option<String>,
    pub next: Option<String>,
}

/// The mathematical model of [`WaitSeconds`].
pub ghost struct WaitSecondsView {
    pub seconds: Option<ValueView>,
    pub prev: Option<Seq<char>>,
    pub next: Option<Seq<char>>,
}

impl DeepView for WaitSeconds {
    type V = WaitSecondsView;

    open spec fn deep_view(&self) -> WaitSecondsView {
        WaitSecondsView {
            seconds: self.seconds.deep_view(),
            prev: self.prev.deep_view(),
            next: self.next.deep_view(),
        }
    }
}

impl Block for WaitSeconds {
    open spec fn links(&self) -> Links {
        Links { prev: self.prev.deep_view(), next: self.next.deep_view() }
    }

    fn prev(&self) -> (id: Option<String>) {
        clone_link(&self.prev)
    }

    fn next(&self) -> (id: Option<String>) {
        clone_link(&self.next)
    }
}

/// Runs its body a number of times.
#[derive(Debug, Clone, PartialEq)]
pub struct Repeat {
    pub units: Option<Value>,
    pub prev: Option<String>,
    pub next: Option<String>,
}

/// The mathematical model of [`Repeat`].
pub ghost struct RepeatView {
    pub units: Option<ValueView>,
    pub prev: Option<Seq<char>>,
    pub next: Option<Seq<char>>,
}

impl DeepView for Repeat {
    type V = RepeatView;

    open spec fn deep_view(&self) -> RepeatView {
        RepeatView {
            units: self.units.deep_view(),
            prev: self.prev.deep_view(),
            next: self.next.deep_view(),
        }
    }
}

impl Block for Repeat {
    open spec fn links(&self) -> Links {
        Links { prev: self.prev.deep_view(), next: self.next.deep_view() }
    }

    fn prev(&self) -> (id: Option<String>) {
        clone_link(&self.prev)
    }

    fn next(&self) -> (id: Option<String>) {
        clone_link(&self.next)
    }
}

/// Runs its body without end.
#[derive(Debug, Clone, PartialEq)]
pub struct Forever {
    pub prev: Option<String>,
    pub next: Option<String>,
}

impl DeepView for Forever {
    type V = Links;

    open spec fn deep_view(&self) -> Links {
        Links { prev: self.prev.deep_view(), next: self.next.deep_view() }
    }
}

impl Block for Forever {
    open spec fn links(&self) -> Links {
        Links { prev: self.prev.deep_view(), next: self.next.deep_view() }
    }

    fn prev(&self) -> (id: Option<String>) {
        clone_link(&self.prev)
    }

    fn next(&self) -> (id: Option<String>) {
        clone_link(&self.next)
    }
}

/// Runs its body when the condition holds.
#[derive(Debug, Clone, PartialEq)]
pub struct IfThen {
    pub condition: Option<Value>,
    pub then_branch: Option<Value>,
    pub prev: Option<String>,
    pub next: Option<String>,
}

/// The mathematical model of [`IfThen`].
pub ghost struct IfThenView {
    pub condition: Option<ValueView>,
    pub then_branch: Option<ValueView>,
    pub prev: Option<Seq<char>>,
    pub next: Option<Seq<char>>,
}

impl DeepView for IfThen {
    type V = IfThenView;

    open spec fn deep_view(&self) -> IfThenView {
        IfThenView {
            condition: self.condition.deep_view(),
            then_branch: self.then_branch.deep_view(),
            prev: self.prev.deep_view(),
            next: self.next.deep_view(),
        }
    }
}

impl Block for IfThen {
    open spec fn links(&self) -> Links {
        Links { prev: self.prev.deep_view(), next: self.next.deep_view() }
    }

    fn prev(&self) -> (id: Option<String>) {
        clone_link(&self.prev)
    }

    fn next(&self) -> (id: Option<String>) {
        clone_link(&self.next)
    }
}

/// Runs one of two bodies, chosen by the condition.
#[derive(Debug, Clone, PartialEq)]
pub struct IfThenElse {
    pub condition: Option<Value>,
    pub then_branch: Option<Value>,
    pub otherwise: Option<Value>,
    pub prev: Option<String>,
    pub next: Option<String>,
}

/// The mathematical model of [`IfThenElse`].
pub ghost struct IfThenElseView {
    pub condition: Option<ValueView>,
    pub then_branch: Option<ValueView>,
    pub otherwise: Option<ValueView>,
    pub prev: Option<Seq<char>>,
    pub next: Option<Seq<char>>,
}

impl DeepView for IfThenElse {
    type V = IfThenElseView;

    open spec fn deep_view(&self) -> IfThenElseView {
        IfThenElseView {
            condition: self.condition.deep_view(),
            then_branch: self.then_branch.deep_view(),
            otherwise: self.otherwise.deep_view(),
            prev: self.prev.deep_view(),
            next: self.next.deep_view(),
        }
    }
}

impl Block for IfThenElse {
    open spec fn links(&self) -> Links {
        Links { prev: self.prev.deep_view(), next: self.next.deep_view() }
    }

    fn prev(&self) -> (id: Option<String>) {
        clone_link(&self.prev)
    }

    fn next(&self) -> (id: Option<String>) {
        clone_link(&self.next)
    }
}

/// Pauses the script until the condition holds.
#[derive(Debug, Clone, PartialEq)]
pub struct WaitUntil {
    pub condition: Option<Value>,
    pub prev: Option<String>,
    pub next: Option<String>,
}

/// The mathematical model of [`WaitUntil`].
pub ghost struct WaitUntilView {
    pub condition: Option<ValueView>,
    pub prev: Option<Seq<char>>,
    pub next: Option<Seq<char>>,
}

impl DeepView for WaitUntil {
    type V = WaitUntilView;

    open spec fn deep_view(&self) -> WaitUntilView {
        WaitUntilView {
            condition: self.condition.deep_view(),
            prev: self.prev.deep_view(),
            next: self.next.deep_view(),
        }
    }
}

impl Block for WaitUntil {
    open spec fn links(&self) -> Links {
        Links { prev: self.prev.deep_view(), next: self.next.deep_view() }
    }

    fn prev(&self) -> (id: Option<String>) {
        clone_link(&self.prev)
    }

    fn next(&self) -> (id: Option<String>) {
        clone_link(&self.next)
    }
}

/// Runs its body until the condition holds.
#[derive(Debug, Clone, PartialEq)]
pub struct RepeatUntil {
    pub condition: Option<Value>,
    pub prev: Option<String>,
    pub next: Option<String>,
}

/// The mathematical model of [`RepeatUntil`].
pub ghost struct RepeatUntilView {
    pub condition: Option<ValueView>,
    pub prev: Option<Seq<char>>,
    pub next: Option<Seq<char>>,
}

impl DeepView for RepeatUntil {
    type V = RepeatUntilView;

    open spec fn deep_view(&self) -> RepeatUntilView {
        RepeatUntilView {
            condition: self.condition.deep_view(),
            prev: self.prev.deep_view(),
            next: self.next.deep_view(),
        }
    }
}

impl Block for RepeatUntil {
    open spec fn links(&self) -> Links {
        Links { prev: self.prev.deep_view(), next: self.next.deep_view() }
    }

    fn prev(&self) -> (id: Option<String>) {
        clone_link(&self.prev)
    }

    fn next(&self) -> (id: Option<String>) {
        clone_link(&self.next)
    }
}

/// Stops scripts.
#[derive(Debug, Clone, PartialEq)]
pub struct StopAll {
    pub prev: Option<String>,
    pub next: Option<String>,
}

impl DeepView for StopAll {
    type V = Links;

    open spec fn deep_view(&self) -> Links {
        Links { prev: self.prev.deep_view(), next: self.next.deep_view() }
    }
}

impl Block for StopAll {
    open spec fn links(&self) -> Links {
        Links { prev: self.prev.deep_view(), next: self.next.deep_view() }
    }

    fn prev(&self) -> (id: Option<String>) {
        clone_link(&self.prev)
    }

    fn next(&self) -> (id: Option<String>) {
        clone_link(&self.next)
    }
}

/// Starts a script in every new clone.
#[derive(Debug, Clone, PartialEq)]
pub struct WhenIStartAsAClone {
    pub prev: Option<String>,
    pub next: Option<String>,
}

impl DeepView for WhenIStartAsAClone {
    type V = Links;

    open spec fn deep_view(&self) -> Links {
        Links { prev: self.prev.deep_view(), next: self.next.deep_view() }
    }
}

impl Block for WhenIStartAsAClone {
    open spec fn links(&self) -> Links {
        Links { prev: self.prev.deep_view(), next: self.next.deep_view() }
    }

    fn prev(&self) -> (id: Option<String>) {
        clone_link(&self.prev)
    }

    fn next(&self) -> (id: Option<String>) {
        clone_link(&self.next)
    }
}

/// What a clone block makes a clone of.
#[derive(Debug, Clone, PartialEq)]
pub enum SpriteOption {
    /// The sprite that runs the block.
    Myself,
    /// The sprite of this name.
    Sprite(String),
}

/// The mathematical model of [`SpriteOption`].
pub ghost enum SpriteOptionView {
    Myself,
    Sprite(Seq<char>),
}

impl DeepView for SpriteOption {
    type V = SpriteOptionView;

    open spec fn deep_view(&self) -> SpriteOptionView {
        match self {
            SpriteOption::Myself => SpriteOptionView::Myself,
            SpriteOption::Sprite(name) => SpriteOptionView::Sprite(name@),
        }
    }
}

impl SpriteOption {
    /// What an operand decodes to: for a text, the running sprite under the
    /// tag `_myself_` and otherwise the sprite that the text names; for
    /// anything else, a missing operand included, what `mode` makes of an
    /// unmatched tag.
    pub open spec fn decoded(val: Option<ValueView>, mode: Mode) -> Result<
        Option<SpriteOptionView>,
        DecodeError,
    > {
        match val {
            Some(ValueView::String(tag)) => if tag == "_myself_"@ {
                Ok(Some(SpriteOptionView::Myself))
            } else {
                Ok(Some(SpriteOptionView::Sprite(tag)))
            },
            _ => mode.unmatched(),
        }
    }

    /// Decodes an operand.
    pub fn from(val: Option<Value>, mode: Mode) -> (r: Result<Option<SpriteOption>, DecodeError>)
        ensures
            outcome(r) == Self::decoded(val.deep_view(), mode),
    {
        match val {
            Some(Value::String(tag)) => {
                if same_text(tag.as_str(), "_myself_") {
                    Ok(Some(SpriteOption::Myself))
                } else {
                    Ok(Some(SpriteOption::Sprite(tag)))
                }
            },
            _ => mode.on_unmatched(),
        }
    }
}

/// Makes a clone of a sprite.
#[derive(Debug, Clone, PartialEq)]
pub struct CreateCloneOf {
    pub of: Option<SpriteOption>,
    pub prev: Option<String>,
    pub next: Option<String>,
}

/// The mathematical model of [`CreateCloneOf`].
pub ghost struct CreateCloneOfView {
    pub of: Option<SpriteOptionView>,
    pub prev: Option<Seq<char>>,
    pub next: Option<Seq<char>>,
}

impl DeepView for CreateCloneOf {
    type V = CreateCloneOfView;

    open spec fn deep_view(&self) -> CreateCloneOfView {
        CreateCloneOfView {
            of: self.of.deep_view(),
            prev: self.prev.deep_view(),
            next: self.next.deep_view(),
        }
    }
}

impl Block for CreateCloneOf {
    open spec fn links(&self) -> Links {
        Links { prev: self.prev.deep_view(), next: self.next.deep_view() }
    }

    fn prev(&self) -> (id: Option<String>) {
        clone_link(&self.prev)
    }

    fn next(&self) -> (id: Option<String>) {
        clone_link(&self.next)
    }
}

/// Removes the clone that runs it.
#[derive(Debug, Clone, PartialEq)]
pub struct DeleteClone {
    pub prev: Option<String>,
    pub next: Option<String>,
}

impl DeepView for DeleteClone {
    type V = Links;

    open spec fn deep_view(&self) -> Links {
        Links { prev: self.prev.deep_view(), next: self.next.deep_view() }
    }
}

impl Block for DeleteClone {
    open spec fn links(&self) -> Links {
        Links { prev: self.prev.deep_view(), next: self.next.deep_view() }
    }

    fn prev(&self) -> (id: Option<String>) {
        clone_link(&self.prev)
    }

    fn next(&self) -> (id: Option<String>) {
        clone_link(&self.next)
    }
}
} // verus!
