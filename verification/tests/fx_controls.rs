use mixcore::fx::autogain::AutoGainModule;
use mixcore::fx::compressor::CompressorModule;
use mixcore::fx::deesser::DeEsserModule;
use mixcore::fx::denoise::DenoiseModule;
use mixcore::fx::eq::EqModule;
use mixcore::fx::gate::{
    EnvelopeMove, GateModule, GateState, DEFAULT_ATTACK, DEFAULT_HOLD, DEFAULT_RELEASE,
    DEFAULT_THRESHOLD, MAX_ATTACK, MAX_THRESHOLD, MIN_ATTACK, MIN_THRESHOLD,
};
use mixcore::fx::hpf::{HpfModule, DEFAULT_FREQ, MAX_FREQ, MIN_FREQ};
use mixcore::fx::limiter::{DelayLine, LimiterModule};
use mixcore::fx::{resolve_param, FxChain, FxModuleType, FxParam};

const SAMPLE_RATE: u32 = 48000;

#[test]
fn test_fx_module_type_all() {
    let modules = FxModuleType::all();
    assert_eq!(modules.len(), 8);
    assert_eq!(modules[0], FxModuleType::Hpf);
    assert_eq!(modules[7], FxModuleType::AutoGain);
}

#[test]
fn test_fx_module_names() {
    assert_eq!(FxModuleType::Hpf.name(), "HPF");
    assert_eq!(FxModuleType::Gate.name(), "GATE");
    assert_eq!(FxModuleType::Eq.name(), "EQ");
    assert_eq!(FxModuleType::Denoise.name(), "AI-DN");
    assert_eq!(FxModuleType::DeEsser.name(), "DE-S");
    assert_eq!(FxModuleType::Compressor.name(), "COMP");
    assert_eq!(FxModuleType::Limiter.name(), "LIM");
    assert_eq!(FxModuleType::AutoGain.name(), "A-G");
}

#[test]
fn test_fx_module_colors() {
    assert_eq!(FxModuleType::Hpf.color(), "cyan");
    assert_eq!(FxModuleType::Denoise.color(), "orange");
    assert_eq!(FxModuleType::Gate.color(), "cyan");
    assert_eq!(FxModuleType::DeEsser.color(), "orange");
    assert_eq!(FxModuleType::Eq.color(), "cyan");
    assert_eq!(FxModuleType::Compressor.color(), "orange");
    assert_eq!(FxModuleType::Limiter.color(), "cyan");
    assert_eq!(FxModuleType::AutoGain.color(), "orange");
}

#[test]
fn test_fx_chain_new() {
    let chain: FxChain<f32> = FxChain::new();
    assert!(!chain.hpf.is_bypassed());
    assert!(!chain.gate.is_bypassed());
    assert_eq!(chain.active_stages(), FxModuleType::all());
    assert_eq!(chain.limiter.lookahead_samples, 240);
    assert_eq!(chain.autogain.rms_window_samples, 48000);
    assert_eq!(chain.gate.hold_samples, 2400);
}

#[test]
fn test_get_all_modules() {
    let chain: FxChain<f32> = FxChain::new();
    let modules = chain.get_all_modules();
    assert_eq!(modules.len(), 8);
    assert_eq!(modules[0].module_type, FxModuleType::Hpf);
    assert_eq!(modules[1].module_type, FxModuleType::Denoise);
    assert_eq!(modules[2].module_type, FxModuleType::Gate);
    assert_eq!(modules[7].module_type, FxModuleType::AutoGain);
    assert!(modules.iter().all(|m| m.enabled));
    assert_eq!(modules[0].params, vec![("freq".to_string(), 80_000)]);
    assert_eq!(
        modules[2].params,
        vec![
            ("threshold".to_string(), -40_000),
            ("attack".to_string(), 5_000),
            ("hold".to_string(), 50_000),
            ("release".to_string(), 100_000),
        ]
    );
    assert!(modules[4].params.is_empty());
}

#[test]
fn test_module_info_follows_bypass() {
    let mut chain: FxChain<f32> = FxChain::new();
    chain.set_bypass(FxModuleType::Eq, true).unwrap();
    let info = chain.get_module_info(FxModuleType::Eq).unwrap();
    assert!(!info.enabled);
    assert!(chain.get_module_info(FxModuleType::Hpf).unwrap().enabled);
}

#[test]
fn test_set_param_dispatch() {
    let mut chain: FxChain<f32> = FxChain::new();
    chain.set_param(FxModuleType::Hpf, "freq", 120_000).unwrap();
    assert_eq!(chain.hpf.freq, 120_000);
    chain.set_param(FxModuleType::Hpf, "freq", 1_000).unwrap();
    assert_eq!(chain.hpf.freq, 20_000);
    chain.set_param(FxModuleType::Denoise, "threshold", -30_000).unwrap();
    assert_eq!(chain.denoise.threshold_db, -30_000);
    chain.set_param(FxModuleType::Gate, "threshold", -30_000).unwrap();
    chain.set_param(FxModuleType::Gate, "attack", 10_000).unwrap();
    chain.set_param(FxModuleType::Gate, "hold", 100_000).unwrap();
    chain.set_param(FxModuleType::Gate, "release", 200_000).unwrap();
    assert_eq!(chain.gate.threshold_db, -30_000);
    assert_eq!(chain.gate.attack_ms, 10_000);
    assert_eq!(chain.gate.hold_ms, 100_000);
    assert_eq!(chain.gate.hold_samples, 4800);
    assert_eq!(chain.gate.release_ms, 200_000);
    chain.set_param(FxModuleType::DeEsser, "threshold", -25_000).unwrap();
    assert_eq!(chain.deesser.threshold_db, -25_000);
    chain.set_param(FxModuleType::Compressor, "threshold", -30_000).unwrap();
    assert_eq!(chain.compressor.threshold_db, -30_000);
    chain.set_param(FxModuleType::Limiter, "ceiling", -1_000).unwrap();
    chain.set_param(FxModuleType::Limiter, "release", 100_000).unwrap();
    assert_eq!(chain.limiter.ceiling_db, -1_000);
    assert_eq!(chain.limiter.release_ms, 100_000);
    chain.set_param(FxModuleType::AutoGain, "target_level", -20_000).unwrap();
    chain.set_param(FxModuleType::AutoGain, "window", 500_000).unwrap();
    chain.set_param(FxModuleType::AutoGain, "attack", 50_000).unwrap();
    chain.set_param(FxModuleType::AutoGain, "release", 1_000_000).unwrap();
    assert_eq!(chain.autogain.target_level_db, -20_000);
    assert_eq!(chain.autogain.window_ms, 500_000);
    assert_eq!(chain.autogain.rms_window_samples, 24_000);
    assert_eq!(chain.autogain.attack_ms, 50_000);
    assert_eq!(chain.autogain.release_ms, 1_000_000);
}

#[test]
fn test_set_param_unknown() {
    let mut chain: FxChain<f32> = FxChain::new();
    assert_eq!(
        chain.set_param(FxModuleType::Hpf, "q", 1_000).unwrap_err(),
        "Unbekannter Parameter: q"
    );
    assert_eq!(
        chain.set_param(FxModuleType::Gate, "ceiling", 0).unwrap_err(),
        "Unbekannter Parameter: ceiling"
    );
    assert_eq!(
        chain.set_param(FxModuleType::Limiter, "threshold", 0).unwrap_err(),
        "Unbekannter Parameter: threshold"
    );
    assert_eq!(
        chain.set_param(FxModuleType::Eq, "gain", 0).unwrap_err(),
        "EQ-Parameter müssen über set_low/mid/high gesetzt werden"
    );
    assert_eq!(resolve_param(FxModuleType::AutoGain, "window"), Some(FxParam::AutoGainWindow));
    assert_eq!(resolve_param(FxModuleType::AutoGain, "freq"), None);
    assert_eq!(resolve_param(FxModuleType::Eq, "freq"), None);
}

#[test]
fn test_set_param_refused_value_changes_nothing() {
    let mut chain: FxChain<f32> = FxChain::new();
    assert_eq!(
        chain.set_param(FxModuleType::Limiter, "ceiling", 5_000).unwrap_err(),
        "Ceiling außerhalb des Bereichs: 5 dB (erlaubt: -20 bis 0 dB)"
    );
    assert_eq!(chain.limiter.ceiling_db, -300);
    assert_eq!(
        chain.set_param(FxModuleType::Limiter, "release", 5_500).unwrap_err(),
        "Release außerhalb des Bereichs: 5.5 ms (erlaubt: 10 bis 1000 ms)"
    );
    assert_eq!(
        chain.set_param(FxModuleType::Compressor, "threshold", -70_000).unwrap_err(),
        "Threshold außerhalb: -70 dB"
    );
    assert_eq!(
        chain.set_param(FxModuleType::AutoGain, "target_level", 250).unwrap_err(),
        "Target Level außerhalb des Bereichs: 0.25 dB (erlaubt: -40 bis 0 dB)"
    );
    assert_eq!(
        chain.set_param(FxModuleType::AutoGain, "window", 99_999).unwrap_err(),
        "Window außerhalb des Bereichs: 99.999 ms (erlaubt: 100 bis 5000 ms)"
    );
    assert_eq!(
        chain.set_param(FxModuleType::AutoGain, "attack", 5_000).unwrap_err(),
        "Attack außerhalb des Bereichs: 5 ms (erlaubt: 10 bis 1000 ms)"
    );
    assert_eq!(
        chain.set_param(FxModuleType::AutoGain, "release", 50_000).unwrap_err(),
        "Release außerhalb des Bereichs: 50 ms (erlaubt: 100 bis 5000 ms)"
    );
    assert_eq!(chain.autogain.window_ms, 1_000_000);
}

#[test]
fn test_chain_reset_keeps_controls() {
    let mut chain: FxChain<f32> = FxChain::new();
    chain.set_param(FxModuleType::Gate, "threshold", -20_000).unwrap();
    chain.gate.update_state(true, false);
    chain.limiter.push(0.5, 0.25);
    chain.autogain.count_sample();
    assert_eq!(chain.gate.state, GateState::Attack);
    assert_eq!(chain.limiter.lookahead_buffer_l.len(), 1);
    assert_eq!(chain.autogain.rms_sample_count, 1);
    chain.reset();
    assert_eq!(chain.gate.state, GateState::Closed);
    assert_eq!(chain.gate.threshold_db, -20_000);
    assert_eq!(chain.limiter.lookahead_buffer_l.len(), 0);
    assert_eq!(chain.limiter.lookahead_buffer_r.len(), 0);
    assert_eq!(chain.autogain.rms_sample_count, 0);
}

#[test]
fn test_hpf_new() {
    let hpf = HpfModule::new();
    assert_eq!(hpf.freq, DEFAULT_FREQ);
    assert!(!hpf.bypassed);
}

#[test]
fn test_hpf_set_freq() {
    let mut hpf = HpfModule::new();
    hpf.set_freq(100_000);
    assert_eq!(hpf.freq, 100_000);
    assert_eq!(hpf.get_freq(), 100_000);
}

#[test]
fn test_hpf_freq_clamp() {
    let mut hpf = HpfModule::new();
    hpf.set_freq(10_000);
    assert_eq!(hpf.freq, MIN_FREQ);
    hpf.set_freq(500_000);
    assert_eq!(hpf.freq, MAX_FREQ);
}

#[test]
fn test_gate_new() {
    let gate = GateModule::new();
    assert_eq!(gate.threshold_db, DEFAULT_THRESHOLD);
    assert_eq!(gate.attack_ms, DEFAULT_ATTACK);
    assert_eq!(gate.hold_ms, DEFAULT_HOLD);
    assert_eq!(gate.release_ms, DEFAULT_RELEASE);
    assert!(!gate.bypassed);
    assert_eq!(gate.state, GateState::Closed);
}

#[test]
fn test_gate_set_params() {
    let mut gate = GateModule::new();
    gate.set_threshold(-30_000);
    gate.set_attack(10_000);
    gate.set_hold(100_000);
    gate.set_release(200_000);

    assert_eq!(gate.get_threshold(), -30_000);
    assert_eq!(gate.get_attack(), 10_000);
    assert_eq!(gate.get_hold(), 100_000);
    assert_eq!(gate.get_release(), 200_000);
}

#[test]
fn test_gate_param_clamp() {
    let mut gate = GateModule::new();

    gate.set_threshold(-100_000);
    assert_eq!(gate.threshold_db, MIN_THRESHOLD);
    gate.set_threshold(10_000);
    assert_eq!(gate.threshold_db, MAX_THRESHOLD);

    gate.set_attack(10);
    assert_eq!(gate.attack_ms, MIN_ATTACK);
    gate.set_attack(100_000);
    assert_eq!(gate.attack_ms, MAX_ATTACK);

    gate.set_hold(-1);
    assert_eq!(gate.hold_ms, 0);
    assert_eq!(gate.hold_samples, 0);
    gate.set_hold(900_000);
    assert_eq!(gate.hold_ms, 500_000);
    assert_eq!(gate.hold_samples, 24_000);
    gate.set_release(1);
    assert_eq!(gate.release_ms, 5_000);
}

#[test]
fn test_gate_reset() {
    let mut gate = GateModule::new();
    gate.state = GateState::Open;
    gate.hold_counter = 17;

    gate.reset();

    assert_eq!(gate.state, GateState::Closed);
    assert_eq!(gate.hold_counter, 0);
}

#[test]
fn test_gate_walks_through_its_states() {
    let mut gate = GateModule::new();
    gate.set_hold(42);
    assert_eq!(gate.hold_samples, 2);
    assert_eq!(gate.next_move(false), EnvelopeMove::Still);
    gate.update_state(false, false);
    assert_eq!(gate.state, GateState::Closed);
    gate.update_state(true, false);
    assert_eq!(gate.state, GateState::Attack);
    assert_eq!(gate.next_move(false), EnvelopeMove::Rise);
    gate.update_state(false, false);
    assert_eq!(gate.state, GateState::Attack);
    gate.update_state(true, true);
    assert_eq!(gate.state, GateState::Open);
    assert_eq!(gate.next_move(true), EnvelopeMove::Still);
    gate.update_state(true, false);
    assert_eq!(gate.state, GateState::Open);
    gate.update_state(false, false);
    assert_eq!(gate.state, GateState::Hold);
    assert_eq!(gate.hold_counter, 2);
    gate.update_state(true, false);
    assert_eq!(gate.state, GateState::Open);
    gate.update_state(false, false);
    assert_eq!((gate.state, gate.hold_counter), (GateState::Hold, 2));
    gate.update_state(false, false);
    assert_eq!((gate.state, gate.hold_counter), (GateState::Hold, 1));
    gate.update_state(false, false);
    assert_eq!((gate.state, gate.hold_counter), (GateState::Hold, 0));
    gate.update_state(false, false);
    assert_eq!(gate.state, GateState::Release);
    assert_eq!(gate.next_move(false), EnvelopeMove::Fall);
    assert_eq!(gate.next_move(true), EnvelopeMove::Still);
    gate.update_state(true, false);
    assert_eq!(gate.state, GateState::Attack);
    gate.update_state(true, true);
    gate.update_state(false, false);
    gate.update_state(false, false);
    gate.update_state(false, false);
    gate.update_state(false, false);
    assert_eq!(gate.state, GateState::Release);
    gate.update_state(false, false);
    assert_eq!(gate.state, GateState::Release);
    gate.update_state(false, true);
    assert_eq!(gate.state, GateState::Closed);
}

#[test]
fn test_denoise_new() {
    let dn = DenoiseModule::new(SAMPLE_RATE);
    assert_eq!(dn.threshold_db, -40_000);
    assert_eq!(dn.reduction_db, 20_000);
    assert!(!dn.is_bypassed());
}

#[test]
fn denoise_test_set_threshold() {
    let mut dn = DenoiseModule::new(SAMPLE_RATE);
    dn.set_threshold(-30_000).unwrap();
    assert_eq!(dn.threshold_db, -30_000);
    dn.set_threshold(-60_000).unwrap();
    dn.set_threshold(-10_000).unwrap();
    assert_eq!(dn.threshold_db, -10_000);
}

#[test]
fn denoise_test_set_threshold_invalid() {
    let mut dn = DenoiseModule::new(SAMPLE_RATE);
    assert!(dn.set_threshold(-70_000).is_err());
    assert_eq!(dn.set_threshold(-5_000).unwrap_err(), "Threshold außerhalb: -5 dB");
    assert_eq!(dn.threshold_db, -40_000);
}

#[test]
fn denoise_test_bypass() {
    let mut dn = DenoiseModule::new(SAMPLE_RATE);
    dn.set_bypass(true);
    assert!(dn.is_bypassed());
    dn.set_bypass(false);
    assert!(!dn.is_bypassed());
}

#[test]
fn test_deesser_new() {
    let ds = DeEsserModule::new(SAMPLE_RATE);
    assert_eq!(ds.freq_hz, 7_000_000);
    assert_eq!(ds.threshold_db, -20_000);
    assert_eq!(ds.ratio, 4_000);
    assert!(!ds.is_bypassed());
}

#[test]
fn deesser_test_set_threshold() {
    let mut ds = DeEsserModule::new(SAMPLE_RATE);
    ds.set_threshold(-25_000).unwrap();
    assert_eq!(ds.threshold_db, -25_000);
}

#[test]
fn deesser_test_set_threshold_invalid() {
    let mut ds = DeEsserModule::new(SAMPLE_RATE);
    assert!(ds.set_threshold(-50_000).is_err());
    assert!(ds.set_threshold(5_000).is_err());
    assert_eq!(ds.set_threshold(1).unwrap_err(), "Threshold außerhalb: 0.001 dB");
    assert_eq!(ds.threshold_db, -20_000);
}

#[test]
fn deesser_test_bypass() {
    let mut ds = DeEsserModule::new(SAMPLE_RATE);
    ds.set_bypass(true);
    assert!(ds.is_bypassed());
    ds.set_bypass(false);
    assert!(!ds.is_bypassed());
}

#[test]
fn test_eq_new() {
    let eq = EqModule::new(48000);
    assert_eq!(eq.low.freq_hz, 80_000);
    assert_eq!(eq.mid.freq_hz, 1_000_000);
    assert_eq!(eq.high.freq_hz, 8_000_000);
    assert_eq!(eq.low.gain_db, 0);
    assert_eq!(eq.mid.q, 1_000);
    assert!(!eq.is_bypassed());
}

#[test]
fn test_set_low() {
    let mut eq = EqModule::new(48000);
    eq.set_low(100_000, 6_000, 1_500).unwrap();
    assert_eq!(eq.low.freq_hz, 100_000);
    assert_eq!(eq.low.gain_db, 6_000);
    assert_eq!(eq.low.q, 1_500);
    assert_eq!(eq.mid.freq_hz, 1_000_000);
}

#[test]
fn test_set_low_invalid() {
    let mut eq = EqModule::new(48000);
    assert!(eq.set_low(10_000, 0, 1_000).is_err());
    assert!(eq.set_low(100_000, 20_000, 1_000).is_err());
    assert!(eq.set_low(100_000, 0, 10_000).is_err());
    assert_eq!(eq.low.freq_hz, 80_000);
}

#[test]
fn test_eq_band_messages() {
    let mut eq = EqModule::new(48000);
    assert_eq!(eq.set_low(10_000, 99_000, 1).unwrap_err(), "Low Freq außerhalb: 10 Hz");
    assert_eq!(eq.set_mid(100_000, -12_500, 1_000).unwrap_err(), "Mid Gain außerhalb: -12.5 dB");
    assert_eq!(eq.set_high(100_000, 0, 250).unwrap_err(), "High Q außerhalb: 0.25");
    eq.set_mid(20_000, -12_000, 500).unwrap();
    eq.set_high(20_000_000, 12_000, 5_000).unwrap();
    assert_eq!(eq.mid.q, 500);
    assert_eq!(eq.high.freq_hz, 20_000_000);
}

#[test]
fn eq_test_bypass() {
    let mut eq = EqModule::new(48000);
    eq.set_bypass(true);
    assert!(eq.is_bypassed());
}

#[test]
fn test_compressor_new() {
    let comp = CompressorModule::new(SAMPLE_RATE);
    assert_eq!(comp.threshold_db, -20_000);
    assert_eq!(comp.ratio, 4_000);
    assert_eq!(comp.attack_ms, 5_000);
    assert_eq!(comp.release_ms, 100_000);
    assert!(!comp.is_bypassed());
}

#[test]
fn compressor_test_set_threshold() {
    let mut comp = CompressorModule::new(SAMPLE_RATE);
    comp.set_threshold(-30_000).unwrap();
    assert_eq!(comp.threshold_db, -30_000);
}

#[test]
fn compressor_test_set_threshold_invalid() {
    let mut comp = CompressorModule::new(SAMPLE_RATE);
    assert!(comp.set_threshold(-70_000).is_err());
    assert!(comp.set_threshold(5_000).is_err());
    assert_eq!(comp.threshold_db, -20_000);
}

#[test]
fn compressor_test_bypass() {
    let mut comp = CompressorModule::new(SAMPLE_RATE);
    comp.set_bypass(true);
    assert!(comp.is_bypassed());
    comp.set_bypass(false);
    assert!(!comp.is_bypassed());
}

#[test]
fn test_limiter_new() {
    let lim: LimiterModule<f32> = LimiterModule::new(SAMPLE_RATE);
    assert_eq!(lim.ceiling_db, -300);
    assert_eq!(lim.release_ms, 50_000);
    assert_eq!(lim.lookahead_samples, 240);
    assert!(!lim.is_bypassed());
}

#[test]
fn test_set_ceiling() {
    let mut lim: LimiterModule<f32> = LimiterModule::new(SAMPLE_RATE);
    lim.set_ceiling(-1_000).unwrap();
    assert_eq!(lim.ceiling_db, -1_000);
}

#[test]
fn test_set_ceiling_invalid() {
    let mut lim: LimiterModule<f32> = LimiterModule::new(SAMPLE_RATE);
    assert!(lim.set_ceiling(-25_000).is_err());
    assert!(lim.set_ceiling(5_000).is_err());
    assert!(lim.set_release(9_999).is_err());
    assert!(lim.set_release(1_000_001).is_err());
    assert_eq!(lim.ceiling_db, -300);
    assert_eq!(lim.release_ms, 50_000);
}

#[test]
fn limiter_test_bypass() {
    let mut lim: LimiterModule<f32> = LimiterModule::new(SAMPLE_RATE);
    lim.set_bypass(true);
    assert!(lim.is_bypassed());
}

#[test]
fn limiter_test_reset() {
    let mut lim: LimiterModule<f32> = LimiterModule::new(SAMPLE_RATE);
    lim.push(1.0, 0.5);
    assert_eq!(lim.lookahead_buffer_l.len(), 1);

    lim.reset();

    assert_eq!(lim.lookahead_buffer_l.len(), 0);
    assert_eq!(lim.lookahead_buffer_r.len(), 0);
}

#[test]
fn test_limiter_latency_is_the_lookahead() {
    let mut lim: LimiterModule<u32> = LimiterModule::new(2_000);
    assert_eq!(lim.lookahead_samples, 10);
    for n in 0..10u32 {
        assert_eq!(lim.push(n, n + 100), None);
    }
    for n in 10..50u32 {
        assert_eq!(lim.push(n, n + 100), Some((n - 10, n + 90)));
        assert_eq!(lim.lookahead_buffer_l.len(), 10);
        assert_eq!(*lim.lookahead_buffer_l.peek(0), n - 9);
        assert_eq!(*lim.lookahead_buffer_r.peek(9), n + 100);
    }
}

#[test]
fn test_delay_line_without_delay_hands_back_at_once() {
    let mut line: DelayLine<u8> = DelayLine::new();
    assert_eq!(line.push(7, 0), Some(7));
    assert_eq!(line.len(), 0);
    assert_eq!(line.push(8, 1), None);
    assert_eq!(line.push(9, 1), Some(8));
    line.clear();
    assert_eq!(line.len(), 0);
}

#[test]
fn test_autogain_new() {
    let ag = AutoGainModule::new(SAMPLE_RATE);
    assert_eq!(ag.target_level_db, -18_000);
    assert_eq!(ag.window_ms, 1_000_000);
    assert_eq!(ag.attack_ms, 100_000);
    assert_eq!(ag.release_ms, 500_000);
    assert_eq!(ag.rms_window_samples, 48_000);
    assert!(!ag.is_bypassed());
}

#[test]
fn test_set_target_level() {
    let mut ag = AutoGainModule::new(SAMPLE_RATE);

    ag.set_target_level(-20_000).unwrap();
    assert_eq!(ag.target_level_db, -20_000);

    ag.set_target_level(-12_000).unwrap();
    assert_eq!(ag.target_level_db, -12_000);
}

#[test]
fn test_set_target_level_invalid() {
    let mut ag = AutoGainModule::new(SAMPLE_RATE);

    let result = ag.set_target_level(-50_000);
    assert!(result.is_err());

    let result = ag.set_target_level(5_000);
    assert!(result.is_err());
    assert_eq!(ag.target_level_db, -18_000);
}

#[test]
fn test_set_window() {
    let mut ag = AutoGainModule::new(SAMPLE_RATE);

    ag.set_window(500_000).unwrap();
    assert_eq!(ag.window_ms, 500_000);
    assert_eq!(ag.rms_window_samples, 24_000);

    ag.set_window(2_000_000).unwrap();
    assert_eq!(ag.window_ms, 2_000_000);
    assert_eq!(ag.rms_window_samples, 96_000);
}

#[test]
fn autogain_test_bypass() {
    let mut ag = AutoGainModule::new(SAMPLE_RATE);

    ag.set_bypass(true);
    assert!(ag.is_bypassed());

    ag.set_bypass(false);
    assert!(!ag.is_bypassed());
}

#[test]
fn autogain_test_reset() {
    let mut ag = AutoGainModule::new(SAMPLE_RATE);
    ag.rms_sample_count = 100;

    ag.reset();

    assert_eq!(ag.rms_sample_count, 0);
    assert_eq!(ag.window_ms, 1_000_000);
}

#[test]
fn test_autogain_window_completes_every_window() {
    let mut ag = AutoGainModule::new(1_000);
    ag.set_window(100_000).unwrap();
    assert_eq!(ag.rms_window_samples, 100);
    let mut completed = Vec::new();
    for n in 1..=350u32 {
        if ag.count_sample() {
            completed.push(n);
        }
    }
    assert_eq!(completed, vec![100, 200, 300]);
    assert_eq!(ag.rms_sample_count, 50);
}
