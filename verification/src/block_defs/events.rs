//! Event blocks: what starts a script, and messages between scripts.
use vstd::prelude::*;
use crate::blocks::{Block, Links};
use crate::error::{DecodeError, Mode};
use crate::raw::clone_link;
use crate::text::same_text;
use crate::value::{Value, ValueView};

verus! {

/// Starts a script when the green flag is clicked.
#[derive(Debug, Clone, PartialEq)]
pub struct WhenGreenFlagClicked {
    pub prev: Option<String>,
    pub next: Option<String>,
}

impl DeepView for WhenGreenFlagClicked {
    type V = Links;

    open spec fn deep_view(&self) -> Links {
        Links { prev: self.prev.deep_view(), next: self.next.deep_view() }
    }
}

impl Block for WhenGreenFlagClicked {
    open spec fn links(&self) -> Links {
        Links { prev: self.prev.deep_view(), next: self.next.deep_view() }
    }

    fn prev(&self) -> (id: Option<String>) {
        clone_link(&self.prev)
    }

    fn next(&self) -> (id: Option<String>) {
        clone_link(&self.next)
    }
}

/// A key of the keyboard.
#[derive(Debug, Clone, Copy, PartialEq, Eq, Structural)]
pub enum Key {
    LeftArrow,
    UpArrow,
    RightArrow,
    DownArrow,
    Space,
    Any,
    /// A key that types a character, such as a letter or a digit.
    Alphanumerical(char),
}

impl DeepView for Key {
    type V = Key;

    open spec fn deep_view(&self) -> Key {
        *self
    }
}

impl Key {
    /// The key that `tag` names: one of the six named keys, or else the key
    /// of the first character. The empty tag names no key.
    pub open spec fn tagged(tag: Seq<char>) -> Option<Key> {
        if tag == "up arrow"@ {
            Some(Key::UpArrow)
        } else if tag == "down arrow"@ {
            Some(Key::DownArrow)
        } else if tag == "right arrow"@ {
            Some(Key::RightArrow)
        } else if tag == "left arrow"@ {
            Some(Key::LeftArrow)
        } else if tag == "space"@ {
            Some(Key::Space)
        } else if tag == "any"@ {
            Some(Key::Any)
        } else if tag.len() > 0 {
            Some(Key::Alphanumerical(tag[0]))
        } else {
            None
        }
    }

    /// What an operand decodes to: nothing for a missing operand, the key
    /// that a text names, and for anything else what `mode` makes of an
    /// unmatched tag.
    pub open spec fn decoded(val: Option<ValueView>, mode: Mode) -> Result<
        Option<Key>,
        DecodeError,
    > {
        match val {
            None => Ok(None),
            Some(ValueView::String(tag)) => match Self::tagged(tag) {
                Some(key) => Ok(Some(key)),
                None => mode.unmatched(),
            },
            Some(_) => mode.unmatched(),
        }
    }

    /// Finds the key that `tag` names.
    pub fn parse(tag: &str) -> (found: Option<Key>)
        ensures
            found == Self::tagged(tag@),
    {
        if same_text(tag, "up arrow") {
            Some(Key::UpArrow)
        } else if same_text(tag, "down arrow") {
            Some(Key::DownArrow)
        } else if same_text(tag, "right arrow") {
            Some(Key::RightArrow)
        } else if same_text(tag, "left arrow") {
            Some(Key::LeftArrow)
        } else if same_text(tag, "space") {
            Some(Key::Space)
        } else if same_text(tag, "any") {
            Some(Key::Any)
        } else if !tag.is_empty() {
            Some(Key::Alphanumerical(tag.get_char(0)))
        } else {
            None
        }
    }

    /// Decodes an operand.
    pub fn from(val: Option<Value>, mode: Mode) -> (r: Result<Option<Key>, DecodeError>)
        ensures
            r == Self::decoded(val.deep_view(), mode),
    {
        match val {
            None => Ok(None),
            Some(Value::String(tag)) => match Self::parse(tag.as_str()) {
                Some(key) => Ok(Some(key)),
                None => mode.on_unmatched(),
            },
            Some(_) => mode.on_unmatched(),
        }
    }
}

/// Starts a script when a key is pressed.
#[derive(Debug, Clone, PartialEq)]
pub struct WhenKeyPressed {
    pub key: Option<Key>,
    pub prev: Option<String>,
    pub next: Option<String>,
}

/// The mathematical model of [`WhenKeyPressed`].
pub ghost struct WhenKeyPressedView {
    pub key: Option<Key>,
    pub prev: Option<Seq<char>>,
    pub next: Option<Seq<char>>,
}

impl DeepView for WhenKeyPressed {
    type V = WhenKeyPressedView;

    open spec fn deep_view(&self) -> WhenKeyPressedView {
        WhenKeyPressedView {
            key: self.key.deep_view(),
            prev: self.prev.deep_view(),
            next: self.next.deep_view(),
        }
    }
}

impl Block for WhenKeyPressed {
    open spec fn links(&self) -> Links {
        Links { prev: self.prev.deep_view(), next: self.next.deep_view() }
    }

    fn prev(&self) -> (id: Option<String>) {
        clone_link(&self.prev)
    }

    fn next(&self) -> (id: Option<String>) {
        clone_link(&self.next)
    }
}

/// Starts a script when the sprite is clicked.
#[derive(Debug, Clone, PartialEq)]
pub struct WhenSpriteClicked {
    pub prev: Option<String>,
    pub next: Option<String>,
}

impl DeepView for WhenSpriteClicked {
    type V = Links;

    open spec fn deep_view(&self) -> Links {
        Links { prev: self.prev.deep_view(), next: self.next.deep_view() }
    }
}

impl Block for WhenSpriteClicked {
    open spec fn links(&self) -> Links {
        Links { prev: self.prev.deep_view(), next: self.next.deep_view() }
    }

    fn prev(&self) -> (id: Option<String>) {
        clone_link(&self.prev)
    }

    fn next(&self) -> (id: Option<String>) {
        clone_link(&self.next)
    }
}

/// Starts a script when the stage is clicked.
#[derive(Debug, Clone, PartialEq)]
pub struct WhenStageClicked {
    pub prev: Option<String>,
    pub next: Option<String>,
}

impl DeepView for WhenStageClicked {
    type V = Links;

    open spec fn deep_view(&self) -> Links {
        Links { prev: self.prev.deep_view(), next: self.next.deep_view() }
    }
}

impl Block for WhenStageClicked {
    open spec fn links(&self) -> Links {
        Links { prev: self.prev.deep_view(), next: self.next.deep_view() }
    }

    fn prev(&self) -> (id: Option<String>) {
        clone_link(&self.prev)
    }

    fn next(&self) -> (id: Option<String>) {
        clone_link(&self.next)
    }
}

/// Starts a script when the stage shows a backdrop.
#[derive(Debug, Clone, PartialEq)]
pub struct WhenBackdropSwitchesTo {
    pub backdrop: Option<Value>,
    pub prev: Option<String>,
    pub next: Option<String>,
}

/// The mathematical model of [`WhenBackdropSwitchesTo`].
pub ghost struct WhenBackdropSwitchesToView {
    pub backdrop: Option<ValueView>,
    pub prev: Option<Seq<char>>,
    pub next: Option<Seq<char>>,
}

impl DeepView for WhenBackdropSwitchesTo {
    type V = WhenBackdropSwitchesToView;

    open spec fn deep_view(&self) -> WhenBackdropSwitchesToView {
        WhenBackdropSwitchesToView {
            backdrop: self.backdrop.deep_view(),
            prev: self.prev.deep_view(),
            next: self.next.deep_view(),
        }
    }
}

impl Block for WhenBackdropSwitchesTo {
    open spec fn links(&self) -> Links {
        Links { prev: self.prev.deep_view(), next: self.next.deep_view() }
    }

    fn prev(&self) -> (id: Option<String>) {
        clone_link(&self.prev)
    }

    fn next(&self) -> (id: Option<String>) {
        clone_link(&self.next)
    }
}

/// A measure that can start a script when it exceeds a value.
#[derive(Debug, Clone, Copy, PartialEq, Eq, Structural)]
pub enum EventOption {
    Loudness,
    Timer,
}

impl DeepView for EventOption {
    type V = EventOption;

    open spec fn deep_view(&self) -> EventOption {
        *self
    }
}

impl EventOption {
    /// The option that `tag` names in the table, if it names one.
    pub open spec fn tagged(tag: Seq<char>) -> Option<EventOption> {
        if tag == "loudness"@ {
            Some(EventOption::Loudness)
        } else if tag == "timer"@ {
            Some(EventOption::Timer)
        } else {
            None
        }
    }

    /// What an operand decodes to: nothing for a missing operand, the
    /// option for a tag of the table, and for anything else what `mode`
    /// makes of an unmatched tag.
    pub open spec fn decoded(val: Option<ValueView>, mode: Mode) -> Result<
        Option<EventOption>,
        DecodeError,
    > {
        match val {
            None => Ok(None),
            Some(ValueView::String(tag)) => match Self::tagged(tag) {
                Some(option) => Ok(Some(option)),
                None => mode.unmatched(),
            },
            Some(_) => mode.unmatched(),
        }
    }

    /// Looks `tag` up in the table.
    pub fn parse(tag: &str) -> (found: Option<EventOption>)
        ensures
            found == Self::tagged(tag@),
    {
        if same_text(tag, "loudness") {
            Some(EventOption::Loudness)
        } else if same_text(tag, "timer") {
            Some(EventOption::Timer)
        } else {
            None
        }
    }

    /// Decodes an operand.
    pub fn from(val: Option<Value>, mode: Mode) -> (r: Result<Option<EventOption>, DecodeError>)
        ensures
            r == Self::decoded(val.deep_view(), mode),
    {
        match val {
            None => Ok(None),
            Some(Value::String(tag)) => match Self::parse(tag.as_str()) {
                Some(option) => Ok(Some(option)),
                None => mode.on_unmatched(),
            },
            Some(_) => mode.on_unmatched(),
        }
    }
}

/// Starts a script when a measure exceeds a value.
#[derive(Debug, Clone, PartialEq)]
pub struct WhenOptionGreaterThen {
    pub option: Option<EventOption>,
    pub by: Option<Value>,
    pub prev: Option<String>,
    pub next: Option<String>,
}

/// The mathematical model of [`WhenOptionGreaterThen`].
pub ghost struct WhenOptionGreaterThenView {
    pub option: Option<EventOption>,
    pub by: Option<ValueView>,
    pub prev: Option<Seq<char>>,
    pub next: Option<Seq<char>>,
}

impl DeepView for WhenOptionGreaterThen {
    type V = WhenOptionGreaterThenView;

    open spec fn deep_view(&self) -> WhenOptionGreaterThenView {
        WhenOptionGreaterThenView {
            option: self.option.deep_view(),
            by: self.by.deep_view(),
            prev: self.prev.deep_view(),
            next: self.next.deep_view(),
        }
    }
}

impl Block for WhenOptionGreaterThen {
    open spec fn links(&self) -> Links {
        Links { prev: self.prev.deep_view(), next: self.next.deep_view() }
    }

    fn prev(&self) -> (id: Option<String>) {
        clone_link(&self.prev)
    }

    fn next(&self) -> (id: Option<String>) {
        clone_link(&self.next)
    }
}

/// Starts a script when a message arrives.
#[derive(Debug, Clone, PartialEq)]
pub struct WhenIRecieveBroadcast {
    pub broadcast: Option<Value>,
    pub prev: Option<String>,
    pub next: Option<String>,
}

/// The mathematical model of [`WhenIRecieveBroadcast`].
pub ghost struct WhenIRecieveBroadcastView {
    pub broadcast: Option<ValueView>,
    pub prev: Option<Seq<char>>,
    pub next: Option<Seq<char>>,
}

impl DeepView for WhenIRecieveBroadcast {
    type V = WhenIRecieveBroadcastView;

    open spec fn deep_view(&self) -> WhenIRecieveBroadcastView {
        WhenIRecieveBroadcastView {
            broadcast: self.broadcast.deep_view(),
            prev: self.prev.deep_view(),
            next: self.next.deep_view(),
        }
    }
}

impl Block for WhenIRecieveBroadcast {
    open spec fn links(&self) -> Links {
        Links { prev: self.prev.deep_view(), next: self.next.deep_view() }
    }

    fn prev(&self) -> (id: Option<String>) {
        clone_link(&self.prev)
    }

    fn next(&self) -> (id: Option<String>) {
        clone_link(&self.next)
    }
}

/// Sends a message to every sprite.
#[derive(Debug, Clone, PartialEq)]
pub struct Broadcast {
    pub broadcast: Option<Value>,
    pub prev: Option<String>,
    pub next: Option<String>,
}

/// The mathematical model of [`Broadcast`].
pub ghost struct BroadcastView {
    pub broadcast: Option<ValueView>,
    pub prev: Option<Seq<char>>,
    pub next: Option<Seq<char>>,
}

impl DeepView for Broadcast {
    type V = BroadcastView;

    open spec fn deep_view(&self) -> BroadcastView {
        BroadcastView {
            broadcast: self.broadcast.deep_view(),
            prev: self.prev.deep_view(),
            next: self.next.deep_view(),
        }
    }
}

impl Block for Broadcast {
    open spec fn links(&self) -> Links {
        Links { prev: self.prev.deep_view(), next: self.next.deep_view() }
    }

    fn prev(&self) -> (id: Option<String>) {
        clone_link(&self.prev)
    }

    fn next(&self) -> (id: Option<String>) {
        clone_link(&self.next)
    }
}

/// Sends a message and waits for its receivers to finish.
#[derive(Debug, Clone, PartialEq)]
pub struct BroadcastAndWait {
    pub broadcast: Option<Value>,
    pub prev: Option<String>,
    pub next: Option<String>,
}

/// The mathematical model of [`BroadcastAndWait`].
pub ghost struct BroadcastAndWaitView {
    pub broadcast: Option<ValueView>,
    pub prev: Option<Seq<char>>,
    pub next: Option<Seq<char>>,
}

impl DeepView for BroadcastAndWait {
    type V = BroadcastAndWaitView;

    open spec fn deep_view(&self) -> BroadcastAndWaitView {
        BroadcastAndWaitView {
            broadcast: self.broadcast.deep_view(),
            prev: self.prev.deep_view(),
            next: self.next.deep_view(),
        }
    }
}

impl Block for BroadcastAndWait {
    open spec fn links(&self) -> Links {
        Links { prev: self.prev.deep_view(), next: self.next.deep_view() }
    }

    fn prev(&self) -> (id: Option<String>) {
        clone_link(&self.prev)
    }

    fn next(&self) -> (id: Option<String>) {
        clone_link(&self.next)
    }
}
} // verus!
