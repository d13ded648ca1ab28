//! Looks blocks: speech, costumes, backdrops, size and layers.
use vstd::prelude::*;
use crate::blocks::{Block, Links};
use crate::error::{outcome, DecodeError, Mode};
use crate::raw::clone_link;
use crate::text::same_text;
use crate::value::{Value, ValueView};

verus! {

/// Shows a speech bubble until another replaces it.
#[derive(Debug, Clone, PartialEq)]
pub struct SayForever {
    pub message: Option<Value>,
    pub prev: Option<String>,
    pub next: Option<String>,
}

/// The mathematical model of [`SayForever`].
pub ghost struct SayForeverView {
    pub message: Option<ValueView>,
    pub prev: Option<Seq<char>>,
    pub next: Option<Seq<char>>,
}

impl DeepView for SayForever {
    type V = SayForeverView;

    open spec fn deep_view(&self) -> SayForeverView {
        SayForeverView {
            message: self.message.deep_view(),
            prev: self.prev.deep_view(),
            next: self.next.deep_view(),
        }
    }
}

impl Block for SayForever {
    open spec fn links(&self) -> Links {
        Links { prev: self.prev.deep_view(), next: self.next.deep_view() }
    }

    fn prev(&self) -> (id: Option<String>) {
        clone_link(&self.prev)
    }

    fn next(&self) -> (id: Option<String>) {
        clone_link(&self.next)
    }
}

/// Shows a speech bubble for a number of seconds.
#[derive(Debug, Clone, PartialEq)]
pub struct Say {
    pub message: Option<Value>,
    pub secs: Option<Value>,
    pub prev: Option<String>,
    pub next: Option<String>,
}

/// The mathematical model of [`Say`].
pub ghost struct SayView {
    pub message: Option<ValueView>,
    pub secs: Option<ValueView>,
    pub prev: Option<Seq<char>>,
    pub next: Option<Seq<char>>,
}

impl DeepView for Say {
    type V = SayView;

    open spec fn deep_view(&self) -> SayView {
        SayView {
            message: self.message.deep_view(),
            secs: self.secs.deep_view(),
            prev: self.prev.deep_view(),
            next: self.next.deep_view(),
        }
    }
}

impl Block for Say {
    open spec fn links(&self) -> Links {
        Links { prev: self.prev.deep_view(), next: self.next.deep_view() }
    }

    fn prev(&self) -> (id: Option<String>) {
        clone_link(&self.prev)
    }

    fn next(&self) -> (id: Option<String>) {
        clone_link(&self.next)
    }
}

/// Shows a thought bubble for a number of seconds.
#[derive(Debug, Clone, PartialEq)]
pub struct Think {
    pub message: Option<Value>,
    pub secs: Option<Value>,
    pub prev: Option<String>,
    pub next: Option<String>,
}

/// The mathematical model of [`Think`].
pub ghost struct ThinkView {
    pub message: Option<ValueView>,
    pub secs: Option<ValueView>,
    pub prev: Option<Seq<char>>,
    pub next: Option<Seq<char>>,
}

impl DeepView for Think {
    type V = ThinkView;

    open spec fn deep_view(&self) -> ThinkView {
        ThinkView {
            message: self.message.deep_view(),
            secs: self.secs.deep_view(),
            prev: self.prev.deep_view(),
            next: self.next.deep_view(),
        }
    }
}

impl Block for Think {
    open spec fn links(&self) -> Links {
        Links { prev: self.prev.deep_view(), next: self.next.deep_view() }
    }

    fn prev(&self) -> (id: Option<String>) {
        clone_link(&self.prev)
    }

    fn next(&self) -> (id: Option<String>) {
        clone_link(&self.next)
    }
}

/// Shows a thought bubble until another replaces it.
#[derive(Debug, Clone, PartialEq)]
pub struct ThinkForever {
    pub message: Option<Value>,
    pub prev: Option<String>,
    pub next: Option<String>,
}

/// The mathematical model of [`ThinkForever`].
pub ghost struct ThinkForeverView {
    pub message: Option<ValueView>,
    pub prev: Option<Seq<char>>,
    pub next: Option<Seq<char>>,
}

impl DeepView for ThinkForever {
    type V = ThinkForeverView;

    open spec fn deep_view(&self) -> ThinkForeverView {
        ThinkForeverView {
            message: self.message.deep_view(),
            prev: self.prev.deep_view(),
            next: self.next.deep_view(),
        }
    }
}

impl Block for ThinkForever {
    open spec fn links(&self) -> Links {
        Links { prev: self.prev.deep_view(), next: self.next.deep_view() }
    }

    fn prev(&self) -> (id: Option<String>) {
        clone_link(&self.prev)
    }

    fn next(&self) -> (id: Option<String>) {
        clone_link(&self.next)
    }
}

/// Puts a costume on the sprite.
#[derive(Debug, Clone, PartialEq)]
pub struct SwitchCostume {
    pub costume: Option<Value>,
    pub prev: Option<String>,
    pub next: Option<String>,
}

/// The mathematical model of [`SwitchCostume`].
pub ghost struct SwitchCostumeView {
    pub costume: Option<ValueView>,
    pub prev: Option<Seq<char>>,
    pub next: Option<Seq<char>>,
}

impl DeepView for SwitchCostume {
    type V = SwitchCostumeView;

    open spec fn deep_view(&self) -> SwitchCostumeView {
        SwitchCostumeView {
            costume: self.costume.deep_view(),
            prev: self.prev.deep_view(),
            next: self.next.deep_view(),
        }
    }
}

impl Block for SwitchCostume {
    open spec fn links(&self) -> Links {
        Links { prev: self.prev.deep_view(), next: self.next.deep_view() }
    }

    fn prev(&self) -> (id: Option<String>) {
        clone_link(&self.prev)
    }

    fn next(&self) -> (id: Option<String>) {
        clone_link(&self.next)
    }
}

/// Puts a costume on the sprite and waits.
#[derive(Debug, Clone, PartialEq)]
pub struct SwitchCostumeAndWait {
    pub costume: Option<Value>,
    pub prev: Option<String>,
    pub next: Option<String>,
}

/// The mathematical model of [`SwitchCostumeAndWait`].
pub ghost struct SwitchCostumeAndWaitView {
    pub costume: Option<ValueView>,
    pub prev: Option<Seq<char>>,
    pub next: Option<Seq<char>>,
}

impl DeepView for SwitchCostumeAndWait {
    type V = SwitchCostumeAndWaitView;

    open spec fn deep_view(&self) -> SwitchCostumeAndWaitView {
        SwitchCostumeAndWaitView {
            costume: self.costume.deep_view(),
            prev: self.prev.deep_view(),
            next: self.next.deep_view(),
        }
    }
}

impl Block for SwitchCostumeAndWait {
    open spec fn links(&self) -> Links {
        Links { prev: self.prev.deep_view(), next: self.next.deep_view() }
    }

    fn prev(&self) -> (id: Option<String>) {
        clone_link(&self.prev)
    }

    fn next(&self) -> (id: Option<String>) {
        clone_link(&self.next)
    }
}

/// Puts the next costume on the sprite.
#[derive(Debug, Clone, PartialEq)]
pub struct NextCostume {
    pub prev: Option<String>,
    pub next: Option<String>,
}

impl DeepView for NextCostume {
    type V = Links;

    open spec fn deep_view(&self) -> Links {
        Links { prev: self.prev.deep_view(), next: self.next.deep_view() }
    }
}

impl Block for NextCostume {
    open spec fn links(&self) -> Links {
        Links { prev: self.prev.deep_view(), next: self.next.deep_view() }
    }

    fn prev(&self) -> (id: Option<String>) {
        clone_link(&self.prev)
    }

    fn next(&self) -> (id: Option<String>) {
        clone_link(&self.next)
    }
}

/// Shows a backdrop on the stage.
#[derive(Debug, Clone, PartialEq)]
pub struct SwitchBackdrop {
    pub backdrop: Option<Value>,
    pub prev: Option<String>,
    pub next: Option<String>,
}

/// The mathematical model of [`SwitchBackdrop`].
pub ghost struct SwitchBackdropView {
    pub backdrop: Option<ValueView>,
    pub prev: Option<Seq<char>>,
    pub next: Option<Seq<char>>,
}

impl DeepView for SwitchBackdrop {
    type V = SwitchBackdropView;

    open spec fn deep_view(&self) -> SwitchBackdropView {
        SwitchBackdropView {
            backdrop: self.backdrop.deep_view(),
            prev: self.prev.deep_view(),
            next: self.next.deep_view(),
        }
    }
}

impl Block for SwitchBackdrop {
    open spec fn links(&self) -> Links {
        Links { prev: self.prev.deep_view(), next: self.next.deep_view() }
    }

    fn prev(&self) -> (id: Option<String>) {
        clone_link(&self.prev)
    }

    fn next(&self) -> (id: Option<String>) {
        clone_link(&self.next)
    }
}

/// Shows a backdrop and waits for the scripts it starts.
#[derive(Debug, Clone, PartialEq)]
pub struct SwitchBackdropAndWait {
    pub backdrop: Option<Value>,
    pub prev: Option<String>,
    pub next: Option<String>,
}

/// The mathematical model of [`SwitchBackdropAndWait`].
pub ghost struct SwitchBackdropAndWaitView {
    pub backdrop: Option<ValueView>,
    pub prev: Option<Seq<char>>,
    pub next: Option<Seq<char>>,
}

impl DeepView for SwitchBackdropAndWait {
    type V = SwitchBackdropAndWaitView;

    open spec fn deep_view(&self) -> SwitchBackdropAndWaitView {
        SwitchBackdropAndWaitView {
            backdrop: self.backdrop.deep_view(),
            prev: self.prev.deep_view(),
            next: self.next.deep_view(),
        }
    }
}

impl Block for SwitchBackdropAndWait {
    open spec fn links(&self) -> Links {
        Links { prev: self.prev.deep_view(), next: self.next.deep_view() }
    }

    fn prev(&self) -> (id: Option<String>) {
        clone_link(&self.prev)
    }

    fn next(&self) -> (id: Option<String>) {
        clone_link(&self.next)
    }
}

/// Shows the next backdrop on the stage.
#[derive(Debug, Clone, PartialEq)]
pub struct NextBackdrop {
    pub prev: Option<String>,
    pub next: Option<String>,
}

impl DeepView for NextBackdrop {
    type V = Links;

    open spec fn deep_view(&self) -> Links {
        Links { prev: self.prev.deep_view(), next: self.next.deep_view() }
    }
}

impl Block for NextBackdrop {
    open spec fn links(&self) -> Links {
        Links { prev: self.prev.deep_view(), next: self.next.deep_view() }
    }

    fn prev(&self) -> (id: Option<String>) {
        clone_link(&self.prev)
    }

    fn next(&self) -> (id: Option<String>) {
        clone_link(&self.next)
    }
}

/// Grows or shrinks the sprite by a number of units.
#[derive(Debug, Clone, PartialEq)]
pub struct ChangeSize {
    pub units: Option<Value>,
    pub prev: Option<String>,
    pub next: Option<String>,
}

/// The mathematical model of [`ChangeSize`].
pub ghost struct ChangeSizeView {
    pub units: Option<ValueView>,
    pub prev: Option<Seq<char>>,
    pub next: Option<Seq<char>>,
}

impl DeepView for ChangeSize {
    type V = ChangeSizeView;

    open spec fn deep_view(&self) -> ChangeSizeView {
        ChangeSizeView {
            units: self.units.deep_view(),
            prev: self.prev.deep_view(),
            next: self.next.deep_view(),
        }
    }
}

impl Block for ChangeSize {
    open spec fn links(&self) -> Links {
        Links { prev: self.prev.deep_view(), next: self.next.deep_view() }
    }

    fn prev(&self) -> (id: Option<String>) {
        clone_link(&self.prev)
    }

    fn next(&self) -> (id: Option<String>) {
        clone_link(&self.next)
    }
}

/// Sets the size of the sprite to a percentage.
#[derive(Debug, Clone, PartialEq)]
pub struct SetSize {
    pub percentage: Option<Value>,
    pub prev: Option<String>,
    pub next: Option<String>,
}

/// The mathematical model of [`SetSize`].
pub ghost struct SetSizeView {
    pub percentage: Option<ValueView>,
    pub prev: Option<Seq<char>>,
    pub next: Option<Seq<char>>,
}

impl DeepView for SetSize {
    type V = SetSizeView;

    open spec fn deep_view(&self) -> SetSizeView {
        SetSizeView {
            percentage: self.percentage.deep_view(),
            prev: self.prev.deep_view(),
            next: self.next.deep_view(),
        }
    }
}

impl Block for SetSize {
    open spec fn links(&self) -> Links {
        Links { prev: self.prev.deep_view(), next: self.next.deep_view() }
    }

    fn prev(&self) -> (id: Option<String>) {
        clone_link(&self.prev)
    }

    fn next(&self) -> (id: Option<String>) {
        clone_link(&self.next)
    }
}

/// Removes every graphic effect from the sprite.
#[derive(Debug, Clone, PartialEq)]
pub struct ClearGraphicEffects {
    pub prev: Option<String>,
    pub next: Option<String>,
}

impl DeepView for ClearGraphicEffects {
    type V = Links;

    open spec fn deep_view(&self) -> Links {
        Links { prev: self.prev.deep_view(), next: self.next.deep_view() }
    }
}

impl Block for ClearGraphicEffects {
    open spec fn links(&self) -> Links {
        Links { prev: self.prev.deep_view(), next: self.next.deep_view() }
    }

    fn prev(&self) -> (id: Option<String>) {
        clone_link(&self.prev)
    }

    fn next(&self) -> (id: Option<String>) {
        clone_link(&self.next)
    }
}

/// Shows the sprite.
#[derive(Debug, Clone, PartialEq)]
pub struct ShowSprite {
    pub prev: Option<String>,
    pub next: Option<String>,
}

impl DeepView for ShowSprite {
    type V = Links;

    open spec fn deep_view(&self) -> Links {
        Links { prev: self.prev.deep_view(), next: self.next.deep_view() }
    }
}

impl Block for ShowSprite {
    open spec fn links(&self) -> Links {
        Links { prev: self.prev.deep_view(), next: self.next.deep_view() }
    }

    fn prev(&self) -> (id: Option<String>) {
        clone_link(&self.prev)
    }

    fn next(&self) -> (id: Option<String>) {
        clone_link(&self.next)
    }
}

/// Hides the sprite.
#[derive(Debug, Clone, PartialEq)]
pub struct HideSprite {
    pub prev: Option<String>,
    pub next: Option<String>,
}

impl DeepView for HideSprite {
    type V = Links;

    open spec fn deep_view(&self) -> Links {
        Links { prev: self.prev.deep_view(), next: self.next.deep_view() }
    }
}

impl Block for HideSprite {
    open spec fn links(&self) -> Links {
        Links { prev: self.prev.deep_view(), next: self.next.deep_view() }
    }

    fn prev(&self) -> (id: Option<String>) {
        clone_link(&self.prev)
    }

    fn next(&self) -> (id: Option<String>) {
        clone_link(&self.next)
    }
}

/// Hides every sprite.
#[derive(Debug, Clone, PartialEq)]
pub struct HideAllSprites {
    pub prev: Option<String>,
    pub next: Option<String>,
}

impl DeepView for HideAllSprites {
    type V = Links;

    open spec fn deep_view(&self) -> Links {
        Links { prev: self.prev.deep_view(), next: self.next.deep_view() }
    }
}

impl Block for HideAllSprites {
    open spec fn links(&self) -> Links {
        Links { prev: self.prev.deep_view(), next: self.next.deep_view() }
    }

    fn prev(&self) -> (id: Option<String>) {
        clone_link(&self.prev)
    }

    fn next(&self) -> (id: Option<String>) {
        clone_link(&self.next)
    }
}

/// The end of the layer stack that a sprite can be sent to.
#[derive(Debug, Clone, Copy, PartialEq, Eq, Structural)]
pub enum LayerOption {
    Front,
    Back,
}

impl DeepView for LayerOption {
    type V = LayerOption;

    open spec fn deep_view(&self) -> LayerOption {
        *self
    }
}

impl LayerOption {
    /// The option that `tag` names in the table, if it names one.
    pub open spec fn tagged(tag: Seq<char>) -> Option<LayerOption> {
        if tag == "front"@ {
            Some(LayerOption::Front)
        } else if tag == "back"@ {
            Some(LayerOption::Back)
        } else {
            None
        }
    }

    /// What an operand decodes to: nothing for a missing operand, the
    /// option for a tag of the table, and for anything else what `mode`
    /// makes of an unmatched tag.
    pub open spec fn decoded(val: Option<ValueView>, mode: Mode) -> Result<
        Option<LayerOption>,
        DecodeError,
    > {
        match val {
            None => Ok(None),
            Some(ValueView::String(tag)) => match Self::tagged(tag) {
                Some(option) => Ok(Some(option)),
                None => mode.unmatched(),
            },
            Some(_) => mode.unmatched(),
        }
    }

    /// Looks `tag` up in the table.
    pub fn parse(tag: &str) -> (found: Option<LayerOption>)
        ensures
            found == Self::tagged(tag@),
    {
        if same_text(tag, "front") {
            Some(LayerOption::Front)
        } else if same_text(tag, "back") {
            Some(LayerOption::Back)
        } else {
            None
        }
    }

    /// Decodes an operand.
    pub fn from(val: Option<Value>, mode: Mode) -> (r: Result<Option<LayerOption>, DecodeError>)
        ensures
            r == Self::decoded(val.deep_view(), mode),
    {
        match val {
            None => Ok(None),
            Some(Value::String(tag)) => match Self::parse(tag.as_str()) {
                Some(option) => Ok(Some(option)),
                None => mode.on_unmatched(),
            },
            Some(_) => mode.on_unmatched(),
        }
    }
}

/// Sends the sprite to the front or the back.
#[derive(Debug, Clone, PartialEq)]
pub struct GotoLayer {
    pub option: Option<LayerOption>,
    pub prev: Option<String>,
    pub next: Option<String>,
}

/// The mathematical model of [`GotoLayer`].
pub ghost struct GotoLayerView {
    pub option: Option<LayerOption>,
    pub prev: Option<Seq<char>>,
    pub next: Option<Seq<char>>,
}

impl DeepView for GotoLayer {
    type V = GotoLayerView;

    open spec fn deep_view(&self) -> GotoLayerView {
        GotoLayerView {
            option: self.option.deep_view(),
            prev: self.prev.deep_view(),
            next: self.next.deep_view(),
        }
    }
}

impl Block for GotoLayer {
    open spec fn links(&self) -> Links {
        Links { prev: self.prev.deep_view(), next: self.next.deep_view() }
    }

    fn prev(&self) -> (id: Option<String>) {
        clone_link(&self.prev)
    }

    fn next(&self) -> (id: Option<String>) {
        clone_link(&self.next)
    }
}

/// The way a sprite moves through the layer stack.
#[derive(Debug, Clone, PartialEq)]
pub enum LayerDirection {
    Forward,
    Backward,
    /// A direction that is computed by another block.
    Value(Value),
}

/// The mathematical model of [`LayerDirection`].
pub ghost enum LayerDirectionView {
    Forward,
    Backward,
    Value(ValueView),
}

impl DeepView for LayerDirection {
    type V = LayerDirectionView;

    open spec fn deep_view(&self) -> LayerDirectionView {
        match self {
            LayerDirection::Forward => LayerDirectionView::Forward,
            LayerDirection::Backward => LayerDirectionView::Backward,
            LayerDirection::Value(value) => LayerDirectionView::Value(value@),
        }
    }
}

impl LayerDirection {
    /// The direction that `tag` names in the table, if it names one.
    pub open spec fn tagged(tag: Seq<char>) -> Option<LayerDirectionView> {
        if tag == "forward"@ {
            Some(LayerDirectionView::Forward)
        } else if tag == "backward"@ {
            Some(LayerDirectionView::Backward)
        } else {
            None
        }
    }

    /// What an operand decodes to: nothing for a missing operand, the
    /// direction for a tag of the table, and for anything else what `mode`
    /// makes of an unmatched tag.
    pub open spec fn decoded(val: Option<ValueView>, mode: Mode) -> Result<
        Option<LayerDirectionView>,
        DecodeError,
    > {
        match val {
            None => Ok(None),
            Some(ValueView::String(tag)) => match Self::tagged(tag) {
                Some(direction) => Ok(Some(direction)),
                None => mode.unmatched(),
            },
            Some(_) => mode.unmatched(),
        }
    }

    /// Looks `tag` up in the table.
    pub fn parse(tag: &str) -> (found: Option<LayerDirection>)
        ensures
            found.deep_view() == Self::tagged(tag@),
    {
        if same_text(tag, "forward") {
            Some(LayerDirection::Forward)
        } else if same_text(tag, "backward") {
            Some(LayerDirection::Backward)
        } else {
            None
        }
    }

    /// Decodes an operand.
    pub fn from(val: Option<Value>, mode: Mode) -> (r: Result<Option<LayerDirection>, DecodeError>)
        ensures
            outcome(r) == Self::decoded(val.deep_view(), mode),
    {
        match val {
            None => Ok(None),
            Some(Value::String(tag)) => match Self::parse(tag.as_str()) {
                Some(direction) => Ok(Some(direction)),
                None => mode.on_unmatched(),
            },
            Some(_) => mode.on_unmatched(),
        }
    }
}

/// Moves the sprite a number of layers forward or backward.
#[derive(Debug, Clone, PartialEq)]
pub struct ChangeLayer {
    pub direction: Option<LayerDirection>,
    pub by: Option<Value>,
    pub prev: Option<String>,
    pub next: Option<String>,
}

/// The mathematical model of [`ChangeLayer`].
pub ghost struct ChangeLayerView {
    pub direction: Option<LayerDirectionView>,
    pub by: Option<ValueView>,
    pub prev: Option<Seq<char>>,
    pub next: Option<Seq<char>>,
}

impl DeepView for ChangeLayer {
    type V = ChangeLayerView;

    open spec fn deep_view(&self) -> ChangeLayerView {
        ChangeLayerView {
            direction: self.direction.deep_view(),
            by: self.by.deep_view(),
            prev: self.prev.deep_view(),
            next: self.next.deep_view(),
        }
    }
}

impl Block for ChangeLayer {
    open spec fn links(&self) -> Links {
        Links { prev: self.prev.deep_view(), next: self.next.deep_view() }
    }

    fn prev(&self) -> (id: Option<String>) {
        clone_link(&self.prev)
    }

    fn next(&self) -> (id: Option<String>) {
        clone_link(&self.next)
    }
}

/// Reads the number of the current costume.
#[derive(Debug, Clone, PartialEq)]
pub struct CostumeByNumber {
    pub prev: Option<String>,
    pub next: Option<String>,
}

impl DeepView for CostumeByNumber {
    type V = Links;

    open spec fn deep_view(&self) -> Links {
        Links { prev: self.prev.deep_view(), next: self.next.deep_view() }
    }
}

impl Block for CostumeByNumber {
    open spec fn links(&self) -> Links {
        Links { prev: self.prev.deep_view(), next: self.next.deep_view() }
    }

    fn prev(&self) -> (id: Option<String>) {
        clone_link(&self.prev)
    }

    fn next(&self) -> (id: Option<String>) {
        clone_link(&self.next)
    }
}

/// Reads the name of the current costume.
#[derive(Debug, Clone, PartialEq)]
pub struct CostumeByName {
    pub prev: Option<String>,
    pub next: Option<String>,
}

impl DeepView for CostumeByName {
    type V = Links;

    open spec fn deep_view(&self) -> Links {
        Links { prev: self.prev.deep_view(), next: self.next.deep_view() }
    }
}

impl Block for CostumeByName {
    open spec fn links(&self) -> Links {
        Links { prev: self.prev.deep_view(), next: self.next.deep_view() }
    }

    fn prev(&self) -> (id: Option<String>) {
        clone_link(&self.prev)
    }

    fn next(&self) -> (id: Option<String>) {
        clone_link(&self.next)
    }
}

/// Picks a costume by name.
#[derive(Debug, Clone, PartialEq)]
pub struct CostumeWithName {
    pub name: Option<Value>,
    pub prev: Option<String>,
    pub next: Option<String>,
}

/// The mathematical model of [`CostumeWithName`].
pub ghost struct CostumeWithNameView {
    pub name: Option<ValueView>,
    pub prev: Option<Seq<char>>,
    pub next: Option<Seq<char>>,
}

impl DeepView for CostumeWithName {
    type V = CostumeWithNameView;

    open spec fn deep_view(&self) -> CostumeWithNameView {
        CostumeWithNameView {
            name: self.name.deep_view(),
            prev: self.prev.deep_view(),
            next: self.next.deep_view(),
        }
    }
}

impl Block for CostumeWithName {
    open spec fn links(&self) -> Links {
        Links { prev: self.prev.deep_view(), next: self.next.deep_view() }
    }

    fn prev(&self) -> (id: Option<String>) {
        clone_link(&self.prev)
    }

    fn next(&self) -> (id: Option<String>) {
        clone_link(&self.next)
    }
}

/// A costume reporter: the current costume by number or by name, or a costume picked by name.
#[derive(Debug, Clone, PartialEq)]
pub enum Costume {
    ByNumber(CostumeByNumber),
    ByName(CostumeByName),
    WithName(CostumeWithName),
}

/// The mathematical model of [`Costume`].
pub ghost enum CostumeView {
    ByNumber(Links),
    ByName(Links),
    WithName(CostumeWithNameView),
}

impl CostumeView {
    /// The links of the node.
    pub open spec fn links(self) -> Links {
        match self {
            CostumeView::ByNumber(inner) => inner,
            CostumeView::ByName(inner) => inner,
            CostumeView::WithName(inner) => Links { prev: inner.prev, next: inner.next },
        }
    }
}

impl DeepView for Costume {
    type V = CostumeView;

    open spec fn deep_view(&self) -> CostumeView {
        match self {
            Costume::ByNumber(inner) => CostumeView::ByNumber(inner.deep_view()),
            Costume::ByName(inner) => CostumeView::ByName(inner.deep_view()),
            Costume::WithName(inner) => CostumeView::WithName(inner.deep_view()),
        }
    }
}

impl Block for Costume {
    open spec fn links(&self) -> Links {
        self.deep_view().links()
    }

    fn prev(&self) -> (id: Option<String>) {
        match self {
            Costume::ByNumber(inner) => inner.prev(),
            Costume::ByName(inner) => inner.prev(),
            Costume::WithName(inner) => inner.prev(),
        }
    }

    fn next(&self) -> (id: Option<String>) {
        match self {
            Costume::ByNumber(inner) => inner.next(),
            Costume::ByName(inner) => inner.next(),
            Costume::WithName(inner) => inner.next(),
        }
    }
}

/// Reads the number of the current backdrop.
#[derive(Debug, Clone, PartialEq)]
pub struct BackdropByNumber {
    pub prev: Option<String>,
    pub next: Option<String>,
}

impl DeepView for BackdropByNumber {
    type V = Links;

    open spec fn deep_view(&self) -> Links {
        Links { prev: self.prev.deep_view(), next: self.next.deep_view() }
    }
}

impl Block for BackdropByNumber {
    open spec fn links(&self) -> Links {
        Links { prev: self.prev.deep_view(), next: self.next.deep_view() }
    }

    fn prev(&self) -> (id: Option<String>) {
        clone_link(&self.prev)
    }

    fn next(&self) -> (id: Option<String>) {
        clone_link(&self.next)
    }
}

/// Reads the name of the current backdrop.
#[derive(Debug, Clone, PartialEq)]
pub struct BackdropByName {
    pub prev: Option<String>,
    pub next: Option<String>,
}

impl DeepView for BackdropByName {
    type V = Links;

    open spec fn deep_view(&self) -> Links {
        Links { prev: self.prev.deep_view(), next: self.next.deep_view() }
    }
}

impl Block for BackdropByName {
    open spec fn links(&self) -> Links {
        Links { prev: self.prev.deep_view(), next: self.next.deep_view() }
    }

    fn prev(&self) -> (id: Option<String>) {
        clone_link(&self.prev)
    }

    fn next(&self) -> (id: Option<String>) {
        clone_link(&self.next)
    }
}

/// Picks a backdrop by name.
#[derive(Debug, Clone, PartialEq)]
pub struct BackdropWithName {
    pub name: Option<Value>,
    pub prev: Option<String>,
    pub next: Option<String>,
}

/// The mathematical model of [`BackdropWithName`].
pub ghost struct BackdropWithNameView {
    pub name: Option<ValueView>,
    pub prev: Option<Seq<char>>,
    pub next: Option<Seq<char>>,
}

impl DeepView for BackdropWithName {
    type V = BackdropWithNameView;

    open spec fn deep_view(&self) -> BackdropWithNameView {
        BackdropWithNameView {
            name: self.name.deep_view(),
            prev: self.prev.deep_view(),
            next: self.next.deep_view(),
        }
    }
}

impl Block for BackdropWithName {
    open spec fn links(&self) -> Links {
        Links { prev: self.prev.deep_view(), next: self.next.deep_view() }
    }

    fn prev(&self) -> (id: Option<String>) {
        clone_link(&self.prev)
    }

    fn next(&self) -> (id: Option<String>) {
        clone_link(&self.next)
    }
}

/// A backdrop reporter: the current backdrop by number or by name, or a backdrop picked by name.
#[derive(Debug, Clone, PartialEq)]
pub enum Backdrop {
    ByNumber(BackdropByNumber),
    ByName(BackdropByName),
    WithName(BackdropWithName),
}

/// The mathematical model of [`Backdrop`].
pub ghost enum BackdropView {
    ByNumber(Links),
    ByName(Links),
    WithName(BackdropWithNameView),
}

impl BackdropView {
    /// The links of the node.
    pub open spec fn links(self) -> Links {
        match self {
            BackdropView::ByNumber(inner) => inner,
            BackdropView::ByName(inner) => inner,
            BackdropView::WithName(inner) => Links { prev: inner.prev, next: inner.next },
        }
    }
}

impl DeepView for Backdrop {
    type V = BackdropView;

    open spec fn deep_view(&self) -> BackdropView {
        match self {
            Backdrop::ByNumber(inner) => BackdropView::ByNumber(inner.deep_view()),
            Backdrop::ByName(inner) => BackdropView::ByName(inner.deep_view()),
            Backdrop::WithName(inner) => BackdropView::WithName(inner.deep_view()),
        }
    }
}

impl Block for Backdrop {
    open spec fn links(&self) -> Links {
        self.deep_view().links()
    }

    fn prev(&self) -> (id: Option<String>) {
        match self {
            Backdrop::ByNumber(inner) => inner.prev(),
            Backdrop::ByName(inner) => inner.prev(),
            Backdrop::WithName(inner) => inner.prev(),
        }
    }

    fn next(&self) -> (id: Option<String>) {
        match self {
            Backdrop::ByNumber(inner) => inner.next(),
            Backdrop::ByName(inner) => inner.next(),
            Backdrop::WithName(inner) => inner.next(),
        }
    }
}

/// Reads the size of the sprite.
#[derive(Debug, Clone, PartialEq)]
pub struct Size {
    pub prev: Option<String>,
    pub next: Option<String>,
}

impl DeepView for Size {
    type V = Links;

    open spec fn deep_view(&self) -> Links {
        Links { prev: self.prev.deep_view(), next: self.next.deep_view() }
    }
}

impl Block for Size {
    open spec fn links(&self) -> Links {
        Links { prev: self.prev.deep_view(), next: self.next.deep_view() }
    }

    fn prev(&self) -> (id: Option<String>) {
        clone_link(&self.prev)
    }

    fn next(&self) -> (id: Option<String>) {
        clone_link(&self.next)
    }
}
} // verus!
