//! Voice effects: the presets and the state of the effect.

use vstd::prelude::*;
use crate::text::{check_range, range_refusal};
use crate::units::Milli;

verus! {

/// The voice effects that can be chosen.
#[derive(Debug, Clone, Copy, PartialEq, Eq, Structural)]
pub enum VoiceFxPreset {
    /// No effect.
    Off,
    /// Robot voice.
    Robot,
    /// Deep voice.
    Vader,
    /// High voice.
    Chipmunk,
    /// Megaphone.
    Megaphone,
    /// Echo.
    Echo,
    /// Radio.
    Radio,
}

/// The presets in the order in which they are offered.
pub open spec fn preset_order() -> Seq<VoiceFxPreset> {
    seq![
        VoiceFxPreset::Off,
        VoiceFxPreset::Robot,
        VoiceFxPreset::Vader,
        VoiceFxPreset::Chipmunk,
        VoiceFxPreset::Megaphone,
        VoiceFxPreset::Echo,
        VoiceFxPreset::Radio,
    ]
}

impl VoiceFxPreset {
    /// The name that a control surface shows.
    pub open spec fn spec_name(self) -> Seq<char> {
        match self {
            VoiceFxPreset::Off => "Aus"@,
            VoiceFxPreset::Robot => "Robot"@,
            VoiceFxPreset::Vader => "Vader"@,
            VoiceFxPreset::Chipmunk => "Chipmunk"@,
            VoiceFxPreset::Megaphone => "Megaphone"@,
            VoiceFxPreset::Echo => "Echo"@,
            VoiceFxPreset::Radio => "Radio"@,
        }
    }

    /// Every preset, in the order in which they are offered.
    pub fn all() -> (r: Vec<Self>)
        ensures
            r@ == preset_order(),
    {
        let mut v: Vec<VoiceFxPreset> = Vec::new();
        v.push(VoiceFxPreset::Off);
        v.push(VoiceFxPreset::Robot);
        v.push(VoiceFxPreset::Vader);
        v.push(VoiceFxPreset::Chipmunk);
        v.push(VoiceFxPreset::Megaphone);
        v.push(VoiceFxPreset::Echo);
        v.push(VoiceFxPreset::Radio);
        v
    }

    /// The name that a control surface shows.
    pub fn name(&self) -> (r: &'static str)
        ensures
            r@ == self.spec_name(),
    {
        match self {
            VoiceFxPreset::Off => "Aus",
            VoiceFxPreset::Robot => "Robot",
            VoiceFxPreset::Vader => "Vader",
            VoiceFxPreset::Chipmunk => "Chipmunk",
            VoiceFxPreset::Megaphone => "Megaphone",
            VoiceFxPreset::Echo => "Echo",
            VoiceFxPreset::Radio => "Radio",
        }
    }
}

/// The state of the voice effect.
#[derive(Debug, Clone, Copy, PartialEq, Eq, Structural)]
pub struct VoiceFxState {
    /// The chosen preset.
    pub preset: VoiceFxPreset,
    /// Whether the effect is on.
    pub enabled: bool,
    /// The share of the effect in the mix, in thousandths: 0 is the dry
    /// signal, 1000 the effect alone.
    pub dry_wet: Milli,
}

impl VoiceFxState {
    /// No preset, off, the effect alone.
    pub open spec fn initial() -> Self {
        VoiceFxState { preset: VoiceFxPreset::Off, enabled: false, dry_wet: 1_000 }
    }
}

impl Default for VoiceFxState {
    fn default() -> (r: Self)
        ensures
            r == Self::initial(),
    {
        VoiceFxState { preset: VoiceFxPreset::Off, enabled: false, dry_wet: 1_000 }
    }
}

/// What a mix is refused with, if it is.
pub open spec fn dry_wet_refusal(dry_wet: int) -> Option<Seq<char>> {
    range_refusal(dry_wet, 0, 1_000, "Dry/Wet außerhalb: "@, " (0.0-1.0)"@)
}

/// Owner of the state of the voice effect.
pub struct VoiceFxManager {
    /// The state.
    pub state: VoiceFxState,
}

impl VoiceFxManager {
    /// A manager with no preset, switched off.
    pub fn new() -> (r: Self)
        ensures
            r.state == VoiceFxState::initial(),
    {
        VoiceFxManager { state: VoiceFxState::default() }
    }

    /// Chooses a preset.
    pub fn set_preset(&mut self, preset: VoiceFxPreset)
        ensures
            final(self).state == (VoiceFxState { preset, ..old(self).state }),
    {
        self.state.preset = preset;
    }

    /// Switches the effect on or off.
    pub fn set_enabled(&mut self, enabled: bool)
        ensures
            final(self).state == (VoiceFxState { enabled, ..old(self).state }),
    {
        self.state.enabled = enabled;
    }

    /// Sets the mix; one outside 0..1 is refused and changes nothing.
    pub fn set_dry_wet(&mut self, dry_wet: Milli) -> (r: Result<(), String>)
        ensures
            match dry_wet_refusal(dry_wet as int) {
                Some(msg) => r is Err && r->Err_0@ == msg && final(self).state == old(self).state,
                None => r is Ok && final(self).state == (VoiceFxState {
                    dry_wet,
                    ..old(self).state
                }),
            },
    {
        match check_range(dry_wet, 0, 1_000, "Dry/Wet außerhalb: ", " (0.0-1.0)") {
            Err(e) => Err(e),
            Ok(_) => {
                self.state.dry_wet = dry_wet;
                Ok(())
            },
        }
    }

    /// The state.
    pub fn get_state(&self) -> (r: &VoiceFxState)
        ensures
            *r == self.state,
    {
        &self.state
    }
}

impl Default for VoiceFxManager {
    fn default() -> (r: Self)
        ensures
            r.state == VoiceFxState::initial(),
    {
        Self::new()
    }
}

} // verus!
