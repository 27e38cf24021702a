//! The effect chain of an input strip and its eight stages.
//!
//! The chain owns the controls of every stage, decides which stages run and
//! in which order, and keeps the state that is counted rather than computed:
//! the noise gate's machine, the limiter's delay lines, the auto-gain's window. The
//! arithmetic on samples is handed in by the caller as a [`StageKernel`].

pub mod autogain;
pub mod compressor;
pub mod deesser;
pub mod denoise;
pub mod eq;
pub mod gate;
pub mod hpf;
pub mod limiter;

use vstd::prelude::*;
use vstd::string::*;
use crate::fx::autogain::AutoGainModule;
use crate::fx::compressor::CompressorModule;
use crate::fx::deesser::DeEsserModule;
use crate::fx::denoise::DenoiseModule;
use crate::fx::eq::EqModule;
use crate::fx::gate::GateModule;
use crate::fx::hpf::HpfModule;
use crate::fx::limiter::LimiterModule;
use crate::text::{concat2, str_eq};
use crate::units::{clamped, samples_in, Milli, SAMPLE_RATE};

verus! {

/// The eight stages of the chain.
#[derive(Debug, Clone, Copy, PartialEq, Eq, Structural)]
pub enum FxModuleType {
    /// High-pass filter.
    Hpf,
    /// Denoiser.
    Denoise,
    /// Noise gate.
    Gate,
    /// De-esser.
    DeEsser,
    /// Three-band equalizer.
    Eq,
    /// Compressor.
    Compressor,
    /// Limiter.
    Limiter,
    /// Auto-gain.
    AutoGain,
}

/// The stages in the order in which a signal passes them.
pub open spec fn chain_order() -> Seq<FxModuleType> {
    seq![
        FxModuleType::Hpf,
        FxModuleType::Denoise,
        FxModuleType::Gate,
        FxModuleType::DeEsser,
        FxModuleType::Eq,
        FxModuleType::Compressor,
        FxModuleType::Limiter,
        FxModuleType::AutoGain,
    ]
}

impl FxModuleType {
    /// The short name that a control surface shows.
    pub open spec fn spec_name(self) -> Seq<char> {
        match self {
            FxModuleType::Hpf => "HPF"@,
            FxModuleType::Denoise => "AI-DN"@,
            FxModuleType::Gate => "GATE"@,
            FxModuleType::DeEsser => "DE-S"@,
            FxModuleType::Eq => "EQ"@,
            FxModuleType::Compressor => "COMP"@,
            FxModuleType::Limiter => "LIM"@,
            FxModuleType::AutoGain => "A-G"@,
        }
    }

    /// The colour of the stage: cyan and orange by turns along the chain,
    /// except that the equalizer and the limiter are both cyan.
    pub open spec fn spec_color(self) -> Seq<char> {
        match self {
            FxModuleType::Hpf | FxModuleType::Gate | FxModuleType::Eq | FxModuleType::Limiter
                => "cyan"@,
            _ => "orange"@,
        }
    }

    /// All stages in chain order.
    pub fn all() -> (r: Vec<Self>)
        ensures
            r@ == chain_order(),
    {
        let mut v: Vec<FxModuleType> = Vec::new();
        v.push(FxModuleType::Hpf);
        v.push(FxModuleType::Denoise);
        v.push(FxModuleType::Gate);
        v.push(FxModuleType::DeEsser);
        v.push(FxModuleType::Eq);
        v.push(FxModuleType::Compressor);
        v.push(FxModuleType::Limiter);
        v.push(FxModuleType::AutoGain);
        v
    }

    /// The short name that a control surface shows.
    pub fn name(&self) -> (r: &'static str)
        ensures
            r@ == self.spec_name(),
    {
        match self {
            FxModuleType::Hpf => "HPF",
            FxModuleType::Denoise => "AI-DN",
            FxModuleType::Gate => "GATE",
            FxModuleType::DeEsser => "DE-S",
            FxModuleType::Eq => "EQ",
            FxModuleType::Compressor => "COMP",
            FxModuleType::Limiter => "LIM",
            FxModuleType::AutoGain => "A-G",
        }
    }

    /// The colour of the stage.
    pub fn color(&self) -> (r: &'static str)
        ensures
            r@ == self.spec_color(),
    {
        match self {
            FxModuleType::Hpf | FxModuleType::Gate | FxModuleType::Eq | FxModuleType::Limiter
                => "cyan",
            _ => "orange",
        }
    }
}

/// A control that the chain's general setter reaches.
#[derive(Debug, Clone, Copy, PartialEq, Eq, Structural)]
pub enum FxParam {
    /// Cutoff of the high-pass filter.
    HpfFreq,
    /// Threshold of the denoiser.
    DenoiseThreshold,
    /// Threshold of the noise gate.
    GateThreshold,
    /// Attack of the noise gate.
    GateAttack,
    /// Hold of the noise gate.
    GateHold,
    /// Release of the noise gate.
    GateRelease,
    /// Threshold of the de-esser.
    DeEsserThreshold,
    /// Threshold of the compressor.
    CompressorThreshold,
    /// Ceiling of the limiter.
    LimiterCeiling,
    /// Release of the limiter.
    LimiterRelease,
    /// Target level of the auto-gain.
    AutoGainTargetLevel,
    /// Window of the auto-gain.
    AutoGainWindow,
    /// Attack of the auto-gain.
    AutoGainAttack,
    /// Release of the auto-gain.
    AutoGainRelease,
}

/// The control that `name` means at the stage `module_type`, if it means one.
/// The equalizer has none: its bands are set as a whole.
pub open spec fn param_named(module_type: FxModuleType, name: Seq<char>) -> Option<FxParam> {
    match module_type {
        FxModuleType::Hpf => if name == "freq"@ {
            Some(FxParam::HpfFreq)
        } else {
            None
        },
        FxModuleType::Denoise => if name == "threshold"@ {
            Some(FxParam::DenoiseThreshold)
        } else {
            None
        },
        FxModuleType::Gate => if name == "threshold"@ {
            Some(FxParam::GateThreshold)
        } else if name == "attack"@ {
            Some(FxParam::GateAttack)
        } else if name == "hold"@ {
            Some(FxParam::GateHold)
        } else if name == "release"@ {
            Some(FxParam::GateRelease)
        } else {
            None
        },
        FxModuleType::DeEsser => if name == "threshold"@ {
            Some(FxParam::DeEsserThreshold)
        } else {
            None
        },
        FxModuleType::Eq => None,
        FxModuleType::Compressor => if name == "threshold"@ {
            Some(FxParam::CompressorThreshold)
        } else {
            None
        },
        FxModuleType::Limiter => if name == "ceiling"@ {
            Some(FxParam::LimiterCeiling)
        } else if name == "release"@ {
            Some(FxParam::LimiterRelease)
        } else {
            None
        },
        FxModuleType::AutoGain => if name == "target_level"@ {
            Some(FxParam::AutoGainTargetLevel)
        } else if name == "window"@ {
            Some(FxParam::AutoGainWindow)
        } else if name == "attack"@ {
            Some(FxParam::AutoGainAttack)
        } else if name == "release"@ {
            Some(FxParam::AutoGainRelease)
        } else {
            None
        },
    }
}

/// The message for a name that means no control at the stage.
pub open spec fn unknown_param_message(module_type: FxModuleType, name: Seq<char>) -> Seq<char> {
    if module_type == FxModuleType::Eq {
        "EQ-Parameter müssen über set_low/mid/high gesetzt werden"@
    } else {
        "Unbekannter Parameter: "@ + name
    }
}

/// What a value for a control is refused with, if it is. The high-pass
/// filter and the noise gate limit a value to its range and refuse none.
pub open spec fn param_refusal(param: FxParam, value: int) -> Option<Seq<char>> {
    match param {
        FxParam::HpfFreq => None,
        FxParam::DenoiseThreshold => denoise::threshold_refusal(value),
        FxParam::GateThreshold => None,
        FxParam::GateAttack => None,
        FxParam::GateHold => None,
        FxParam::GateRelease => None,
        FxParam::DeEsserThreshold => deesser::threshold_refusal(value),
        FxParam::CompressorThreshold => compressor::threshold_refusal(value),
        FxParam::LimiterCeiling => limiter::ceiling_refusal(value),
        FxParam::LimiterRelease => limiter::release_refusal(value),
        FxParam::AutoGainTargetLevel => autogain::target_refusal(value),
        FxParam::AutoGainWindow => autogain::window_refusal(value),
        FxParam::AutoGainAttack => autogain::attack_refusal(value),
        FxParam::AutoGainRelease => autogain::release_refusal(value),
    }
}

/// Finds the control that `name` means at the stage `module_type`.
pub fn resolve_param(module_type: FxModuleType, name: &str) -> (r: Option<FxParam>)
    ensures
        r == param_named(module_type, name@),
{
    match module_type {
        FxModuleType::Hpf => if str_eq(name, "freq") {
            Some(FxParam::HpfFreq)
        } else {
            None
        },
        FxModuleType::Denoise => if str_eq(name, "threshold") {
            Some(FxParam::DenoiseThreshold)
        } else {
            None
        },
        FxModuleType::Gate => if str_eq(name, "threshold") {
            Some(FxParam::GateThreshold)
        } else if str_eq(name, "attack") {
            Some(FxParam::GateAttack)
        } else if str_eq(name, "hold") {
            Some(FxParam::GateHold)
        } else if str_eq(name, "release") {
            Some(FxParam::GateRelease)
        } else {
            None
        },
        FxModuleType::DeEsser => if str_eq(name, "threshold") {
            Some(FxParam::DeEsserThreshold)
        } else {
            None
        },
        FxModuleType::Eq => None,
        FxModuleType::Compressor => if str_eq(name, "threshold") {
            Some(FxParam::CompressorThreshold)
        } else {
            None
        },
        FxModuleType::Limiter => if str_eq(name, "ceiling") {
            Some(FxParam::LimiterCeiling)
        } else if str_eq(name, "release") {
            Some(FxParam::LimiterRelease)
        } else {
            None
        },
        FxModuleType::AutoGain => if str_eq(name, "target_level") {
            Some(FxParam::AutoGainTargetLevel)
        } else if str_eq(name, "window") {
            Some(FxParam::AutoGainWindow)
        } else if str_eq(name, "attack") {
            Some(FxParam::AutoGainAttack)
        } else if str_eq(name, "release") {
            Some(FxParam::AutoGainRelease)
        } else {
            None
        },
    }
}

/// One stage as a control surface shows it.
#[derive(Debug, Clone)]
pub struct FxModuleInfo {
    /// The stage.
    pub module_type: FxModuleType,
    /// Whether the stage runs, that is, is not bypassed.
    pub enabled: bool,
    /// The controls that are shown, by name, in thousandths.
    pub params: Vec<(String, Milli)>,
}

impl FxModuleInfo {
    /// The shown controls, names by their characters.
    pub open spec fn shown(&self) -> Seq<(Seq<char>, int)> {
        self.params@.map_values(|p: (String, Milli)| (p.0@, p.1 as int))
    }
}

/// The chain of one input strip.
pub struct FxChain<T> {
    /// High-pass filter.
    pub hpf: HpfModule,
    /// Denoiser.
    pub denoise: DenoiseModule,
    /// Noise gate.
    pub gate: GateModule,
    /// De-esser.
    pub deesser: DeEsserModule,
    /// Equalizer.
    pub eq: EqModule,
    /// Compressor.
    pub compressor: CompressorModule,
    /// Limiter.
    pub limiter: LimiterModule<T>,
    /// Auto-gain.
    pub autogain: AutoGainModule,
}

impl<T> FxChain<T> {
    /// Every stage is well-formed.
    pub open spec fn wf(&self) -> bool {
        &&& self.hpf.wf()
        &&& self.denoise.wf()
        &&& self.gate.wf()
        &&& self.deesser.wf()
        &&& self.eq.wf()
        &&& self.compressor.wf()
        &&& self.limiter.wf()
        &&& self.autogain.wf()
    }

    /// Whether the stage is skipped.
    pub open spec fn bypassed(&self, module_type: FxModuleType) -> bool {
        match module_type {
            FxModuleType::Hpf => self.hpf.bypassed,
            FxModuleType::Denoise => self.denoise.bypassed,
            FxModuleType::Gate => self.gate.bypassed,
            FxModuleType::DeEsser => self.deesser.bypassed,
            FxModuleType::Eq => self.eq.bypassed,
            FxModuleType::Compressor => self.compressor.bypassed,
            FxModuleType::Limiter => self.limiter.bypassed,
            FxModuleType::AutoGain => self.autogain.bypassed,
        }
    }

    /// The chain with the bypass of one stage switched.
    pub open spec fn with_bypass(self, module_type: FxModuleType, bypass: bool) -> Self {
        match module_type {
            FxModuleType::Hpf => FxChain { hpf: HpfModule { bypassed: bypass, ..self.hpf }, ..self },
            FxModuleType::Denoise => FxChain {
                denoise: DenoiseModule { bypassed: bypass, ..self.denoise },
                ..self
            },
            FxModuleType::Gate => FxChain {
                gate: GateModule { bypassed: bypass, ..self.gate },
                ..self
            },
            FxModuleType::DeEsser => FxChain {
                deesser: DeEsserModule { bypassed: bypass, ..self.deesser },
                ..self
            },
            FxModuleType::Eq => FxChain { eq: EqModule { bypassed: bypass, ..self.eq }, ..self },
            FxModuleType::Compressor => FxChain {
                compressor: CompressorModule { bypassed: bypass, ..self.compressor },
                ..self
            },
            FxModuleType::Limiter => FxChain {
                limiter: LimiterModule { bypassed: bypass, ..self.limiter },
                ..self
            },
            FxModuleType::AutoGain => FxChain {
                autogain: AutoGainModule { bypassed: bypass, ..self.autogain },
                ..self
            },
        }
    }

    /// The chain with one control set to a value that is not refused. The
    /// high-pass filter and the noise gate limit the value to its range.
    pub open spec fn with_param(self, param: FxParam, value: Milli) -> Self {
        match param {
            FxParam::HpfFreq => FxChain {
                hpf: HpfModule {
                    freq: clamped(value as int, hpf::MIN_FREQ as int, hpf::MAX_FREQ as int) as i32,
                    ..self.hpf
                },
                ..self
            },
            FxParam::DenoiseThreshold => FxChain {
                denoise: DenoiseModule { threshold_db: value, ..self.denoise },
                ..self
            },
            FxParam::GateThreshold => FxChain {
                gate: GateModule {
                    threshold_db: clamped(
                        value as int,
                        gate::MIN_THRESHOLD as int,
                        gate::MAX_THRESHOLD as int,
                    ) as i32,
                    ..self.gate
                },
                ..self
            },
            FxParam::GateAttack => FxChain {
                gate: GateModule {
                    attack_ms: clamped(
                        value as int,
                        gate::MIN_ATTACK as int,
                        gate::MAX_ATTACK as int,
                    ) as i32,
                    ..self.gate
                },
                ..self
            },
            FxParam::GateHold => {
                let hold = clamped(value as int, gate::MIN_HOLD as int, gate::MAX_HOLD as int);
                FxChain {
                    gate: GateModule {
                        hold_ms: hold as i32,
                        hold_samples: samples_in(hold, SAMPLE_RATE as int) as u64,
                        ..self.gate
                    },
                    ..self
                }
            },
            FxParam::GateRelease => FxChain {
                gate: GateModule {
                    release_ms: clamped(
                        value as int,
                        gate::MIN_RELEASE as int,
                        gate::MAX_RELEASE as int,
                    ) as i32,
                    ..self.gate
                },
                ..self
            },
            FxParam::DeEsserThreshold => FxChain {
                deesser: DeEsserModule { threshold_db: value, ..self.deesser },
                ..self
            },
            FxParam::CompressorThreshold => FxChain {
                compressor: CompressorModule { threshold_db: value, ..self.compressor },
                ..self
            },
            FxParam::LimiterCeiling => FxChain {
                limiter: LimiterModule { ceiling_db: value, ..self.limiter },
                ..self
            },
            FxParam::LimiterRelease => FxChain {
                limiter: LimiterModule { release_ms: value, ..self.limiter },
                ..self
            },
            FxParam::AutoGainTargetLevel => FxChain {
                autogain: AutoGainModule { target_level_db: value, ..self.autogain },
                ..self
            },
            FxParam::AutoGainWindow => FxChain {
                autogain: AutoGainModule {
                    window_ms: value,
                    rms_window_samples: samples_in(
                        value as int,
                        self.autogain.sample_rate as int,
                    ) as u64,
                    ..self.autogain
                },
                ..self
            },
            FxParam::AutoGainAttack => FxChain {
                autogain: AutoGainModule { attack_ms: value, ..self.autogain },
                ..self
            },
            FxParam::AutoGainRelease => FxChain {
                autogain: AutoGainModule { release_ms: value, ..self.autogain },
                ..self
            },
        }
    }

    /// The stages that run on a buffer, in the order in which they run: the
    /// chain order without the bypassed stages.
    pub open spec fn scheduled(&self) -> Seq<FxModuleType> {
        chain_order().filter(|m: FxModuleType| !self.bypassed(m))
    }

    /// A chain at the reference sample rate with every stage at its defaults
    /// and none bypassed.
    pub fn new() -> (r: Self)
        ensures
            r.wf(),
            r.hpf == HpfModule::initial(),
            r.denoise == DenoiseModule::initial(),
            r.gate == GateModule::initial(),
            r.deesser == DeEsserModule::initial(),
            r.eq == EqModule::initial(),
            r.compressor == CompressorModule::initial(SAMPLE_RATE),
            r.limiter.is_initial(SAMPLE_RATE),
            r.autogain == AutoGainModule::initial(SAMPLE_RATE),
            forall|m: FxModuleType| !r.bypassed(m),
    {
        FxChain {
            hpf: HpfModule::new(),
            denoise: DenoiseModule::new(SAMPLE_RATE),
            gate: GateModule::new(),
            deesser: DeEsserModule::new(SAMPLE_RATE),
            eq: EqModule::new(SAMPLE_RATE),
            compressor: CompressorModule::new(SAMPLE_RATE),
            limiter: LimiterModule::new(SAMPLE_RATE),
            autogain: AutoGainModule::new(SAMPLE_RATE),
        }
    }
}

/// The controls that a control surface shows for a stage, by name: the cutoff
/// of the high-pass filter and the four times of the noise gate.
pub open spec fn shown_params<T>(chain: FxChain<T>, module_type: FxModuleType) -> Seq<
    (Seq<char>, int),
> {
    match module_type {
        FxModuleType::Hpf => seq![("freq"@, chain.hpf.freq as int)],
        FxModuleType::Gate => seq![
            ("threshold"@, chain.gate.threshold_db as int),
            ("attack"@, chain.gate.attack_ms as int),
            ("hold"@, chain.gate.hold_ms as int),
            ("release"@, chain.gate.release_ms as int),
        ],
        _ => Seq::<(Seq<char>, int)>::empty(),
    }
}

/// Whether `info` shows the stage `module_type` of `chain` as it is.
pub open spec fn describes<T>(info: FxModuleInfo, chain: FxChain<T>, module_type: FxModuleType)
    -> bool {
    &&& info.module_type == module_type
    &&& info.enabled == !chain.bypassed(module_type)
    &&& info.shown() == shown_params(chain, module_type)
}

/// What a pass through the chain works on, at one point of the pass: the
/// kernel, the chain and the buffer of each channel.
pub type PassState<T, K> = (K, FxChain<T>, Seq<T>, Seq<T>);

/// The arithmetic on samples that belongs to the stages. The chain calls it
/// for each stage that runs, and never for a stage that is bypassed. What a
/// run computes is the kernel's own business: the chain knows of it only
/// that it is a run of this kernel, and that it keeps the length of both
/// buffers.
pub trait StageKernel<T>: Sized {
    /// Whether a run of `stage` can take kernel, chain and buffers from
    /// `before` to `after`. A kernel that says nothing of itself allows
    /// every outcome.
    open spec fn runs(
        before: PassState<T, Self>,
        stage: FxModuleType,
        after: PassState<T, Self>,
    ) -> bool {
        true
    }

    /// Runs one stage on a buffer of each channel.
    fn run(
        &mut self,
        stage: FxModuleType,
        chain: &mut FxChain<T>,
        left: &mut [T],
        right: &mut [T],
    )
        requires
            !old(chain).bypassed(stage),
        ensures
            Self::runs(
                (*old(self), *old(chain), old(left)@, old(right)@),
                stage,
                (*final(self), *final(chain), final(left)@, final(right)@),
            ),
            final(left)@.len() == old(left)@.len(),
            final(right)@.len() == old(right)@.len(),
    ;
}

/// A pass through the chain, by what it works on before the first stage,
/// between the stages and after the last, and by the record of the stages
/// that ran. Each stage has its turn in chain order. A stage that is
/// bypassed when its turn comes does not run and leaves kernel, chain and
/// buffers exactly as they are; any other stage runs: what comes after it is
/// what a run of the kernel made of what came before.
pub open spec fn is_pass<T, K: StageKernel<T>>(states: Seq<PassState<T, K>>, ran: Seq<bool>) -> bool {
    &&& states.len() == chain_order().len() + 1
    &&& ran.len() == chain_order().len()
    &&& forall|k: int|
        0 <= k < chain_order().len() ==> {
            &&& #[trigger] ran[k] == !states[k].1.bypassed(chain_order()[k])
            &&& !ran[k] ==> states[k + 1] == states[k]
            &&& ran[k] ==> K::runs(states[k], chain_order()[k], states[k + 1])
        }
}

impl<T> FxChain<T> {
    /// Sets a control by the name of its stage and its own name. A name that
    /// means no control, and a value that the stage refuses, give the message
    /// and change nothing.
    pub fn set_param(&mut self, module_type: FxModuleType, param_name: &str, value: Milli) -> (r:
        Result<(), String>)
        ensures
            match param_named(module_type, param_name@) {
                None => r is Err && r->Err_0@ == unknown_param_message(module_type, param_name@)
                    && *final(self) == *old(self),
                Some(param) => match param_refusal(param, value as int) {
                    Some(msg) => r is Err && r->Err_0@ == msg && *final(self) == *old(self),
                    None => r is Ok && *final(self) == old(self).with_param(param, value),
                },
            },
            old(self).wf() ==> final(self).wf(),
    {
        match resolve_param(module_type, param_name) {
            None => {
                match module_type {
                    FxModuleType::Eq => Err(
                        "EQ-Parameter müssen über set_low/mid/high gesetzt werden".to_owned(),
                    ),
                    _ => Err(concat2("Unbekannter Parameter: ", param_name)),
                }
            },
            Some(param) => self.apply_param(param, value),
        }
    }

    /// Sets one control to a value, unless the stage refuses it.
    pub fn apply_param(&mut self, param: FxParam, value: Milli) -> (r: Result<(), String>)
        ensures
            match param_refusal(param, value as int) {
                Some(msg) => r is Err && r->Err_0@ == msg && *final(self) == *old(self),
                None => r is Ok && *final(self) == old(self).with_param(param, value),
            },
            old(self).wf() ==> final(self).wf(),
    {
        match param {
            FxParam::HpfFreq => {
                self.hpf.set_freq(value);
                Ok(())
            },
            FxParam::DenoiseThreshold => self.denoise.set_threshold(value),
            FxParam::GateThreshold => {
                self.gate.set_threshold(value);
                Ok(())
            },
            FxParam::GateAttack => {
                self.gate.set_attack(value);
                Ok(())
            },
            FxParam::GateHold => {
                self.gate.set_hold(value);
                Ok(())
            },
            FxParam::GateRelease => {
                self.gate.set_release(value);
                Ok(())
            },
            FxParam::DeEsserThreshold => self.deesser.set_threshold(value),
            FxParam::CompressorThreshold => self.compressor.set_threshold(value),
            FxParam::LimiterCeiling => self.limiter.set_ceiling(value),
            FxParam::LimiterRelease => self.limiter.set_release(value),
            FxParam::AutoGainTargetLevel => self.autogain.set_target_level(value),
            FxParam::AutoGainWindow => self.autogain.set_window(value),
            FxParam::AutoGainAttack => self.autogain.set_attack(value),
            FxParam::AutoGainRelease => self.autogain.set_release(value),
        }
    }

    /// Whether the stage is skipped.
    pub fn is_bypassed(&self, module_type: FxModuleType) -> (r: bool)
        ensures
            r == self.bypassed(module_type),
    {
        match module_type {
            FxModuleType::Hpf => self.hpf.is_bypassed(),
            FxModuleType::Denoise => self.denoise.is_bypassed(),
            FxModuleType::Gate => self.gate.is_bypassed(),
            FxModuleType::DeEsser => self.deesser.is_bypassed(),
            FxModuleType::Eq => self.eq.is_bypassed(),
            FxModuleType::Compressor => self.compressor.is_bypassed(),
            FxModuleType::Limiter => self.limiter.is_bypassed(),
            FxModuleType::AutoGain => self.autogain.is_bypassed(),
        }
    }

    /// Switches the bypass of one stage; every stage has one.
    pub fn set_bypass(&mut self, module_type: FxModuleType, bypass: bool) -> (r: Result<
        (),
        String,
    >)
        ensures
            r is Ok,
            *final(self) == old(self).with_bypass(module_type, bypass),
            old(self).wf() ==> final(self).wf(),
    {
        match module_type {
            FxModuleType::Hpf => {
                self.hpf.set_bypass(bypass);
                Ok(())
            },
            FxModuleType::Denoise => {
                self.denoise.set_bypass(bypass);
                Ok(())
            },
            FxModuleType::Gate => {
                self.gate.set_bypass(bypass);
                Ok(())
            },
            FxModuleType::DeEsser => {
                self.deesser.set_bypass(bypass);
                Ok(())
            },
            FxModuleType::Eq => {
                self.eq.set_bypass(bypass);
                Ok(())
            },
            FxModuleType::Compressor => {
                self.compressor.set_bypass(bypass);
                Ok(())
            },
            FxModuleType::Limiter => {
                self.limiter.set_bypass(bypass);
                Ok(())
            },
            FxModuleType::AutoGain => {
                self.autogain.set_bypass(bypass);
                Ok(())
            },
        }
    }

    /// One stage as a control surface shows it; every stage can be shown.
    pub fn get_module_info(&self, module_type: FxModuleType) -> (r: Option<FxModuleInfo>)
        ensures
            r is Some,
            describes(r->0, *self, module_type),
    {
        let mut params: Vec<(String, Milli)> = Vec::new();
        match module_type {
            FxModuleType::Hpf => {
                params.push(("freq".to_owned(), self.hpf.get_freq()));
            },
            FxModuleType::Gate => {
                params.push(("threshold".to_owned(), self.gate.get_threshold()));
                params.push(("attack".to_owned(), self.gate.get_attack()));
                params.push(("hold".to_owned(), self.gate.get_hold()));
                params.push(("release".to_owned(), self.gate.get_release()));
            },
            _ => {},
        }
        let info = FxModuleInfo { module_type, enabled: !self.is_bypassed(module_type), params };
        assert(info.shown() =~= shown_params(*self, module_type));
        Some(info)
    }

    /// Every stage as a control surface shows it, in chain order.
    pub fn get_all_modules(&self) -> (r: Vec<FxModuleInfo>)
        ensures
            r@.len() == chain_order().len(),
            forall|i: int|
                0 <= i < r@.len() ==> describes(#[trigger] r@[i], *self, chain_order()[i]),
    {
        let all = FxModuleType::all();
        let mut out: Vec<FxModuleInfo> = Vec::new();
        let mut i: usize = 0;
        while i < all.len()
            invariant
                all@ == chain_order(),
                i <= all@.len(),
                out@.len() == i,
                forall|j: int| 0 <= j < i ==> describes(#[trigger] out@[j], *self, chain_order()[j]),
            decreases all@.len() - i,
        {
            match self.get_module_info(all[i]) {
                Some(info) => {
                    out.push(info);
                },
                None => {},
            }
            i += 1;
        }
        out
    }

    /// Clears what the stages have counted: the noise gate shuts, the delay lines
    /// of the limiter are emptied, the window of the auto-gain starts over.
    /// Every control stays as it is.
    pub fn reset(&mut self)
        ensures
            final(self).hpf == old(self).hpf,
            final(self).denoise == old(self).denoise,
            final(self).deesser == old(self).deesser,
            final(self).eq == old(self).eq,
            final(self).compressor == old(self).compressor,
            final(self).gate == (GateModule {
                state: gate::GateState::Closed,
                hold_counter: 0,
                ..old(self).gate
            }),
            final(self).limiter.controls() == old(self).limiter.controls(),
            final(self).limiter.lookahead_buffer_l@ == Seq::<T>::empty(),
            final(self).limiter.lookahead_buffer_r@ == Seq::<T>::empty(),
            final(self).autogain == (AutoGainModule { rms_sample_count: 0, ..old(self).autogain }),
            old(self).wf() ==> final(self).wf(),
    {
        self.gate.reset();
        self.limiter.reset();
        self.autogain.reset();
    }

    /// The stages that run on a buffer, in the order in which they run.
    pub fn active_stages(&self) -> (r: Vec<FxModuleType>)
        ensures
            r@ == self.scheduled(),
    {
        let all = FxModuleType::all();
        let ghost runs = |m: FxModuleType| !self.bypassed(m);
        let mut v: Vec<FxModuleType> = Vec::new();
        let mut i: usize = 0;
        proof {
            reveal(Seq::filter);
        }
        while i < all.len()
            invariant
                all@ == chain_order(),
                i <= all@.len(),
                runs == (|m: FxModuleType| !self.bypassed(m)),
                v@ == all@.take(i as int).filter(runs),
            decreases all@.len() - i,
        {
            let m = all[i];
            proof {
                assert(all@.take(i + 1) =~= all@.take(i as int).push(m));
                all@.take(i as int).lemma_filter_push(m, runs);
            }
            if !self.is_bypassed(m) {
                v.push(m);
            }
            i += 1;
        }
        assert(all@.take(i as int) =~= all@);
        v
    }

    /// The stage at a place of the chain, counted from 0.
    pub fn stage_at(place: usize) -> (r: FxModuleType)
        requires
            place < chain_order().len(),
        ensures
            r == chain_order()[place as int],
    {
        if place == 0 {
            FxModuleType::Hpf
        } else if place == 1 {
            FxModuleType::Denoise
        } else if place == 2 {
            FxModuleType::Gate
        } else if place == 3 {
            FxModuleType::DeEsser
        } else if place == 4 {
            FxModuleType::Eq
        } else if place == 5 {
            FxModuleType::Compressor
        } else if place == 6 {
            FxModuleType::Limiter
        } else {
            FxModuleType::AutoGain
        }
    }

    /// Sends a buffer of each channel through the chain, in place. Every
    /// stage has its turn, in chain order; a stage that is bypassed when its
    /// turn comes is left out, every other is run by the kernel. The answer
    /// records for each place of the chain whether its stage ran. The buffers
    /// keep their lengths. An empty buffer is no work: no stage runs. With
    /// every stage bypassed no stage runs either, and kernel, chain and
    /// buffers are left exactly as they were.
    pub fn process<K: StageKernel<T>>(
        &mut self,
        kernel: &mut K,
        buffer_l: &mut [T],
        buffer_r: &mut [T],
    ) -> (ran: [bool; 8])
        ensures
            final(buffer_l)@.len() == old(buffer_l)@.len(),
            final(buffer_r)@.len() == old(buffer_r)@.len(),
            old(buffer_l)@.len() == 0 ==> {
                &&& forall|k: int| 0 <= k < 8 ==> !ran@[k]
                &&& *final(self) == *old(self)
                &&& *final(kernel) == *old(kernel)
                &&& final(buffer_l)@ == old(buffer_l)@
                &&& final(buffer_r)@ == old(buffer_r)@
            },
            old(buffer_l)@.len() > 0 ==> exists|states: Seq<PassState<T, K>>|
                {
                    &&& is_pass(states, ran@)
                    &&& states[0] == (*old(kernel), *old(self), old(buffer_l)@, old(buffer_r)@)
                    &&& states[8] == (
                        *final(kernel),
                        *final(self),
                        final(buffer_l)@,
                        final(buffer_r)@,
                    )
                },
            (forall|m: FxModuleType| old(self).bypassed(m)) ==> *final(self) == *old(self)
                && *final(kernel) == *old(kernel) && final(buffer_l)@ == old(buffer_l)@
                && final(buffer_r)@ == old(buffer_r)@,
    {
        let mut ran: [bool; 8] = [false; 8];
        if buffer_l.len() == 0 {
            return ran;
        }
        let ghost start: PassState<T, K> = (*kernel, *self, buffer_l@, buffer_r@);
        let ghost mut states: Seq<PassState<T, K>> = seq![start];
        let mut place: usize = 0;
        while place < 8
            invariant
                place <= 8,
                states.len() == place + 1,
                states[0] == start,
                states[place as int] == (*kernel, *self, buffer_l@, buffer_r@),
                buffer_l@.len() == start.2.len(),
                buffer_r@.len() == start.3.len(),
                forall|k: int|
                    0 <= k < place ==> {
                        &&& #[trigger] ran@[k] == !states[k].1.bypassed(chain_order()[k])
                        &&& !ran@[k] ==> states[k + 1] == states[k]
                        &&& ran@[k] ==> K::runs(states[k], chain_order()[k], states[k + 1])
                    },
                (forall|m: FxModuleType| start.1.bypassed(m)) ==> states[place as int] == start,
            decreases 8 - place,
        {
            let stage = Self::stage_at(place);
            proof {
                if forall|m: FxModuleType| start.1.bypassed(m) {
                    assert(*self == start.1);
                    assert(start.1.bypassed(stage));
                }
            }
            let runs = !self.is_bypassed(stage);
            ran[place] = runs;
            if runs {
                kernel.run(stage, self, buffer_l, buffer_r);
            }
            proof {
                states = states.push((*kernel, *self, buffer_l@, buffer_r@));
            }
            place += 1;
        }
        assert(is_pass(states, ran@));
        ran
    }
}

impl<T> Default for FxChain<T> {
    fn default() -> (r: Self)
        ensures
            r.wf(),
            r.hpf == HpfModule::initial(),
            r.denoise == DenoiseModule::initial(),
            r.gate == GateModule::initial(),
            r.deesser == DeEsserModule::initial(),
            r.eq == EqModule::initial(),
            r.compressor == CompressorModule::initial(SAMPLE_RATE),
            r.limiter.is_initial(SAMPLE_RATE),
            r.autogain == AutoGainModule::initial(SAMPLE_RATE),
    {
        Self::new()
    }
}

/// With every stage bypassed, no stage runs.
pub proof fn lemma_all_bypassed_runs_nothing<T>(chain: FxChain<T>)
    requires
        forall|m: FxModuleType| chain.bypassed(m),
    ensures
        chain.scheduled() == Seq::<FxModuleType>::empty(),
{
    let runs = |m: FxModuleType| !chain.bypassed(m);
    chain_order().lemma_all_neg_filter_empty(runs);
}

/// A stage runs exactly if it is not bypassed.
pub proof fn lemma_scheduled_iff_not_bypassed<T>(chain: FxChain<T>, module_type: FxModuleType)
    ensures
        chain.scheduled().contains(module_type) <==> !chain.bypassed(module_type),
{
    broadcast use vstd::seq_lib::group_filter_ensures;

    lemma_rank(module_type);
}

/// The place of a stage in the chain, counted from 0.
pub open spec fn rank(module_type: FxModuleType) -> int {
    match module_type {
        FxModuleType::Hpf => 0,
        FxModuleType::Denoise => 1,
        FxModuleType::Gate => 2,
        FxModuleType::DeEsser => 3,
        FxModuleType::Eq => 4,
        FxModuleType::Compressor => 5,
        FxModuleType::Limiter => 6,
        FxModuleType::AutoGain => 7,
    }
}

/// Each stage stands in the chain once, at its place.
pub proof fn lemma_rank(module_type: FxModuleType)
    ensures
        chain_order()[rank(module_type)] == module_type,
        chain_order().no_duplicates(),
{
}

} // verus!
