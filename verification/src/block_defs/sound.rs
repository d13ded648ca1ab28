//! Sound blocks: playing sounds, effects and volume.
use vstd::prelude::*;
use crate::blocks::{Block, Links};
use crate::error::{DecodeError, Mode};
use crate::raw::clone_link;
use crate::text::same_text;
use crate::value::{Value, ValueView};

verus! {

/// Starts a sound.
#[derive(Debug, Clone, PartialEq)]
pub struct PlaySound {
    pub sound: Option<Value>,
    pub prev: Option<String>,
    pub next: Option<String>,
}

/// The mathematical model of [`PlaySound`].
pub ghost struct PlaySoundView {
    pub sound: Option<ValueView>,
    pub prev: Option<Seq<char>>,
    pub next: Option<Seq<char>>,
}

impl DeepView for PlaySound {
    type V = PlaySoundView;

    open spec fn deep_view(&self) -> PlaySoundView {
        PlaySoundView {
            sound: self.sound.deep_view(),
            prev: self.prev.deep_view(),
            next: self.next.deep_view(),
        }
    }
}

impl Block for PlaySound {
    open spec fn links(&self) -> Links {
        Links { prev: self.prev.deep_view(), next: self.next.deep_view() }
    }

    fn prev(&self) -> (id: Option<String>) {
        clone_link(&self.prev)
    }

    fn next(&self) -> (id: Option<String>) {
        clone_link(&self.next)
    }
}

/// Plays a sound to its end.
#[derive(Debug, Clone, PartialEq)]
pub struct PlaySoundUntilDone {
    pub sound: Option<Value>,
    pub prev: Option<String>,
    pub next: Option<String>,
}

/// The mathematical model of [`PlaySoundUntilDone`].
pub ghost struct PlaySoundUntilDoneView {
    pub sound: Option<ValueView>,
    pub prev: Option<Seq<char>>,
    pub next: Option<Seq<char>>,
}

impl DeepView for PlaySoundUntilDone {
    type V = PlaySoundUntilDoneView;

    open spec fn deep_view(&self) -> PlaySoundUntilDoneView {
        PlaySoundUntilDoneView {
            sound: self.sound.deep_view(),
            prev: self.prev.deep_view(),
            next: self.next.deep_view(),
        }
    }
}

impl Block for PlaySoundUntilDone {
    open spec fn links(&self) -> Links {
        Links { prev: self.prev.deep_view(), next: self.next.deep_view() }
    }

    fn prev(&self) -> (id: Option<String>) {
        clone_link(&self.prev)
    }

    fn next(&self) -> (id: Option<String>) {
        clone_link(&self.next)
    }
}

/// Starts a sound by name.
#[derive(Debug, Clone, PartialEq)]
pub struct StartSound {
    pub sound: String,
    pub prev: Option<String>,
    pub next: Option<String>,
}

/// The mathematical model of [`StartSound`].
pub ghost struct StartSoundView {
    pub sound: Seq<char>,
    pub prev: Option<Seq<char>>,
    pub next: Option<Seq<char>>,
}

impl DeepView for StartSound {
    type V = StartSoundView;

    open spec fn deep_view(&self) -> StartSoundView {
        StartSoundView {
            sound: self.sound.deep_view(),
            prev: self.prev.deep_view(),
            next: self.next.deep_view(),
        }
    }
}

impl Block for StartSound {
    open spec fn links(&self) -> Links {
        Links { prev: self.prev.deep_view(), next: self.next.deep_view() }
    }

    fn prev(&self) -> (id: Option<String>) {
        clone_link(&self.prev)
    }

    fn next(&self) -> (id: Option<String>) {
        clone_link(&self.next)
    }
}

/// Stops every sound.
#[derive(Debug, Clone, PartialEq)]
pub struct StopAllSounds {
    pub prev: Option<String>,
    pub next: Option<String>,
}

impl DeepView for StopAllSounds {
    type V = Links;

    open spec fn deep_view(&self) -> Links {
        Links { prev: self.prev.deep_view(), next: self.next.deep_view() }
    }
}

impl Block for StopAllSounds {
    open spec fn links(&self) -> Links {
        Links { prev: self.prev.deep_view(), next: self.next.deep_view() }
    }

    fn prev(&self) -> (id: Option<String>) {
        clone_link(&self.prev)
    }

    fn next(&self) -> (id: Option<String>) {
        clone_link(&self.next)
    }
}

/// Lists the sound effects.
#[derive(Debug, Clone, PartialEq)]
pub struct SoundEffectsMenu {
    pub option: Option<SoundEffect>,
    pub prev: Option<String>,
    pub next: Option<String>,
}

/// The mathematical model of [`SoundEffectsMenu`].
pub ghost struct SoundEffectsMenuView {
    pub option: Option<SoundEffect>,
    pub prev: Option<Seq<char>>,
    pub next: Option<Seq<char>>,
}

impl DeepView for SoundEffectsMenu {
    type V = SoundEffectsMenuView;

    open spec fn deep_view(&self) -> SoundEffectsMenuView {
        SoundEffectsMenuView {
            option: self.option.deep_view(),
            prev: self.prev.deep_view(),
            next: self.next.deep_view(),
        }
    }
}

impl Block for SoundEffectsMenu {
    open spec fn links(&self) -> Links {
        Links { prev: self.prev.deep_view(), next: self.next.deep_view() }
    }

    fn prev(&self) -> (id: Option<String>) {
        clone_link(&self.prev)
    }

    fn next(&self) -> (id: Option<String>) {
        clone_link(&self.next)
    }
}

/// Lists the sounds of the sprite.
#[derive(Debug, Clone, PartialEq)]
pub struct SoundSoundsMenu {
    pub option: Option<Value>,
    pub prev: Option<String>,
    pub next: Option<String>,
}

/// The mathematical model of [`SoundSoundsMenu`].
pub ghost struct SoundSoundsMenuView {
    pub option: Option<ValueView>,
    pub prev: Option<Seq<char>>,
    pub next: Option<Seq<char>>,
}

impl DeepView for SoundSoundsMenu {
    type V = SoundSoundsMenuView;

    open spec fn deep_view(&self) -> SoundSoundsMenuView {
        SoundSoundsMenuView {
            option: self.option.deep_view(),
            prev: self.prev.deep_view(),
            next: self.next.deep_view(),
        }
    }
}

impl Block for SoundSoundsMenu {
    open spec fn links(&self) -> Links {
        Links { prev: self.prev.deep_view(), next: self.next.deep_view() }
    }

    fn prev(&self) -> (id: Option<String>) {
        clone_link(&self.prev)
    }

    fn next(&self) -> (id: Option<String>) {
        clone_link(&self.next)
    }
}

/// An effect that can be applied to a sound.
#[derive(Debug, Clone, Copy, PartialEq, Eq, Structural)]
pub enum SoundEffect {
    Pitch,
    Pan,
}

impl DeepView for SoundEffect {
    type V = SoundEffect;

    open spec fn deep_view(&self) -> SoundEffect {
        *self
    }
}

impl SoundEffect {
    /// The option that `tag` names in the table, if it names one.
    pub open spec fn tagged(tag: Seq<char>) -> Option<SoundEffect> {
        if tag == "PITCH"@ {
            Some(SoundEffect::Pitch)
        } else if tag == "PAN"@ {
            Some(SoundEffect::Pan)
        } else {
            None
        }
    }

    /// What an operand decodes to: nothing for a missing operand, the
    /// option for a tag of the table, and for anything else what `mode`
    /// makes of an unmatched tag.
    pub open spec fn decoded(val: Option<ValueView>, mode: Mode) -> Result<
        Option<SoundEffect>,
        DecodeError,
    > {
        match val {
            None => Ok(None),
            Some(ValueView::String(tag)) => match Self::tagged(tag) {
                Some(option) => Ok(Some(option)),
                None => mode.unmatched(),
            },
            Some(_) => mode.unmatched(),
        }
    }

    /// Looks `tag` up in the table.
    pub fn parse(tag: &str) -> (found: Option<SoundEffect>)
        ensures
            found == Self::tagged(tag@),
    {
        if same_text(tag, "PITCH") {
            Some(SoundEffect::Pitch)
        } else if same_text(tag, "PAN") {
            Some(SoundEffect::Pan)
        } else {
            None
        }
    }

    /// Decodes an operand.
    pub fn from(val: Option<Value>, mode: Mode) -> (r: Result<Option<SoundEffect>, DecodeError>)
        ensures
            r == Self::decoded(val.deep_view(), mode),
    {
        match val {
            None => Ok(None),
            Some(Value::String(tag)) => match Self::parse(tag.as_str()) {
                Some(option) => Ok(Some(option)),
                None => mode.on_unmatched(),
            },
            Some(_) => mode.on_unmatched(),
        }
    }
}

/// Changes an effect by a number of units.
#[derive(Debug, Clone, PartialEq)]
pub struct ChangeEffectBy {
    pub effect: Option<Value>,
    pub units: Option<Value>,
    pub prev: Option<String>,
    pub next: Option<String>,
}

/// The mathematical model of [`ChangeEffectBy`].
pub ghost struct ChangeEffectByView {
    pub effect: Option<ValueView>,
    pub units: Option<ValueView>,
    pub prev: Option<Seq<char>>,
    pub next: Option<Seq<char>>,
}

impl DeepView for ChangeEffectBy {
    type V = ChangeEffectByView;

    open spec fn deep_view(&self) -> ChangeEffectByView {
        ChangeEffectByView {
            effect: self.effect.deep_view(),
            units: self.units.deep_view(),
            prev: self.prev.deep_view(),
            next: self.next.deep_view(),
        }
    }
}

impl Block for ChangeEffectBy {
    open spec fn links(&self) -> Links {
        Links { prev: self.prev.deep_view(), next: self.next.deep_view() }
    }

    fn prev(&self) -> (id: Option<String>) {
        clone_link(&self.prev)
    }

    fn next(&self) -> (id: Option<String>) {
        clone_link(&self.next)
    }
}

/// Sets an effect to a percentage.
#[derive(Debug, Clone, PartialEq)]
pub struct SetEffectTo {
    pub effect: Option<Value>,
    pub percentage: Option<Value>,
    pub prev: Option<String>,
    pub next: Option<String>,
}

/// The mathematical model of [`SetEffectTo`].
pub ghost struct SetEffectToView {
    pub effect: Option<ValueView>,
    pub percentage: Option<ValueView>,
    pub prev: Option<Seq<char>>,
    pub next: Option<Seq<char>>,
}

impl DeepView for SetEffectTo {
    type V = SetEffectToView;

    open spec fn deep_view(&self) -> SetEffectToView {
        SetEffectToView {
            effect: self.effect.deep_view(),
            percentage: self.percentage.deep_view(),
            prev: self.prev.deep_view(),
            next: self.next.deep_view(),
        }
    }
}

impl Block for SetEffectTo {
    open spec fn links(&self) -> Links {
        Links { prev: self.prev.deep_view(), next: self.next.deep_view() }
    }

    fn prev(&self) -> (id: Option<String>) {
        clone_link(&self.prev)
    }

    fn next(&self) -> (id: Option<String>) {
        clone_link(&self.next)
    }
}

/// Removes every sound effect.
#[derive(Debug, Clone, PartialEq)]
pub struct ClearSoundEffects {
    pub prev: Option<String>,
    pub next: Option<String>,
}

impl DeepView for ClearSoundEffects {
    type V = Links;

    open spec fn deep_view(&self) -> Links {
        Links { prev: self.prev.deep_view(), next: self.next.deep_view() }
    }
}

impl Block for ClearSoundEffects {
    open spec fn links(&self) -> Links {
        Links { prev: self.prev.deep_view(), next: self.next.deep_view() }
    }

    fn prev(&self) -> (id: Option<String>) {
        clone_link(&self.prev)
    }

    fn next(&self) -> (id: Option<String>) {
        clone_link(&self.next)
    }
}

/// Changes the volume by a number of units.
#[derive(Debug, Clone, PartialEq)]
pub struct ChangeVolumeBy {
    pub units: Option<Value>,
    pub prev: Option<String>,
    pub next: Option<String>,
}

/// The mathematical model of [`ChangeVolumeBy`].
pub ghost struct ChangeVolumeByView {
    pub units: Option<ValueView>,
    pub prev: Option<Seq<char>>,
    pub next: Option<Seq<char>>,
}

impl DeepView for ChangeVolumeBy {
    type V = ChangeVolumeByView;

    open spec fn deep_view(&self) -> ChangeVolumeByView {
        ChangeVolumeByView {
            units: self.units.deep_view(),
            prev: self.prev.deep_view(),
            next: self.next.deep_view(),
        }
    }
}

impl Block for ChangeVolumeBy {
    open spec fn links(&self) -> Links {
        Links { prev: self.prev.deep_view(), next: self.next.deep_view() }
    }

    fn prev(&self) -> (id: Option<String>) {
        clone_link(&self.prev)
    }

    fn next(&self) -> (id: Option<String>) {
        clone_link(&self.next)
    }
}

/// Sets the volume to a percentage.
#[derive(Debug, Clone, PartialEq)]
pub struct SetVolumeTo {
    pub percentage: Option<Value>,
    pub prev: Option<String>,
    pub next: Option<String>,
}

/// The mathematical model of [`SetVolumeTo`].
pub ghost struct SetVolumeToView {
    pub percentage: Option<ValueView>,
    pub prev: Option<Seq<char>>,
    pub next: Option<Seq<char>>,
}

impl DeepView for SetVolumeTo {
    type V = SetVolumeToView;

    open spec fn deep_view(&self) -> SetVolumeToView {
        SetVolumeToView {
            percentage: self.percentage.deep_view(),
            prev: self.prev.deep_view(),
            next: self.next.deep_view(),
        }
    }
}

impl Block for SetVolumeTo {
    open spec fn links(&self) -> Links {
        Links { prev: self.prev.deep_view(), next: self.next.deep_view() }
    }

    fn prev(&self) -> (id: Option<String>) {
        clone_link(&self.prev)
    }

    fn next(&self) -> (id: Option<String>) {
        clone_link(&self.next)
    }
}

/// Reads the volume.
#[derive(Debug, Clone, PartialEq)]
pub struct Volume {
    pub prev: Option<String>,
    pub next: Option<String>,
}

impl DeepView for Volume {
    type V = Links;

    open spec fn deep_view(&self) -> Links {
        Links { prev: self.prev.deep_view(), next: self.next.deep_view() }
    }
}

impl Block for Volume {
    open spec fn links(&self) -> Links {
        Links { prev: self.prev.deep_view(), next: self.next.deep_view() }
    }

    fn prev(&self) -> (id: Option<String>) {
        clone_link(&self.prev)
    }

    fn next(&self) -> (id: Option<String>) {
        clone_link(&self.next)
    }
}
} // verus!
