use mixcore::bleeper::{fill_region, reverse_region, BleepMode, BleeperEngine};
use mixcore::ducking::DuckingEngine;
use mixcore::calibrate::CalibrateEngine;
use mixcore::config::AppConfig;
use mixcore::pipewire::{
    check_pipewire_available, map_bus_to_port, PipeWireInfo, PipeWireStatus,
};
use mixcore::recording::{ActiveRecording, RecordingFormat};
use mixcore::stt::{ProfanityCategory, SttEngineType};
use mixcore::updater::{UpdateInfo, UpdateManager};
use mixcore::voice_fx::{VoiceFxManager, VoiceFxPreset};

#[test]
fn test_all_presets() {
    let presets = VoiceFxPreset::all();
    assert_eq!(presets.len(), 7);
    assert!(presets.contains(&VoiceFxPreset::Off));
    assert!(presets.contains(&VoiceFxPreset::Robot));
    assert!(presets.contains(&VoiceFxPreset::Vader));
    assert!(presets.contains(&VoiceFxPreset::Chipmunk));
    assert!(presets.contains(&VoiceFxPreset::Megaphone));
    assert!(presets.contains(&VoiceFxPreset::Echo));
    assert!(presets.contains(&VoiceFxPreset::Radio));
}

#[test]
fn test_preset_names() {
    assert_eq!(VoiceFxPreset::Off.name(), "Aus");
    assert_eq!(VoiceFxPreset::Robot.name(), "Robot");
    assert_eq!(VoiceFxPreset::Vader.name(), "Vader");
    assert_eq!(VoiceFxPreset::Chipmunk.name(), "Chipmunk");
    assert_eq!(VoiceFxPreset::Megaphone.name(), "Megaphone");
    assert_eq!(VoiceFxPreset::Echo.name(), "Echo");
    assert_eq!(VoiceFxPreset::Radio.name(), "Radio");
}

#[test]
fn test_voice_fx_manager_new() {
    let mgr = VoiceFxManager::new();
    let state = mgr.get_state();
    assert_eq!(state.preset, VoiceFxPreset::Off);
    assert!(!state.enabled);
    assert_eq!(state.dry_wet, 1_000);
}

#[test]
fn test_set_preset() {
    let mut mgr = VoiceFxManager::new();
    mgr.set_preset(VoiceFxPreset::Robot);
    assert_eq!(mgr.get_state().preset, VoiceFxPreset::Robot);
}

#[test]
fn test_set_enabled() {
    let mut mgr = VoiceFxManager::new();
    mgr.set_enabled(true);
    assert!(mgr.get_state().enabled);
    mgr.set_enabled(false);
    assert!(!mgr.get_state().enabled);
}

#[test]
fn test_set_dry_wet() {
    let mut mgr = VoiceFxManager::new();
    mgr.set_dry_wet(500).unwrap();
    assert_eq!(mgr.get_state().dry_wet, 500);
}

#[test]
fn test_set_dry_wet_invalid() {
    let mut mgr = VoiceFxManager::new();
    assert!(mgr.set_dry_wet(-100).is_err());
    assert_eq!(mgr.set_dry_wet(1_500).unwrap_err(), "Dry/Wet außerhalb: 1.5 (0.0-1.0)");
    assert_eq!(mgr.get_state().dry_wet, 1_000);
}

#[test]
fn test_profanity_category() {
    assert_eq!(ProfanityCategory::Schimpf.as_str(), "schimpf");
    assert_eq!(ProfanityCategory::Beleid.as_str(), "beleid");
    assert_eq!(ProfanityCategory::Rass.as_str(), "rass");
    assert_eq!(ProfanityCategory::Custom.as_str(), "custom");

    assert_eq!(ProfanityCategory::from_str("schimpf"), Some(ProfanityCategory::Schimpf));
    assert_eq!(ProfanityCategory::from_str("invalid"), None);
}

#[test]
fn test_profanity_category_round_trip() {
    for c in [
        ProfanityCategory::Schimpf,
        ProfanityCategory::Beleid,
        ProfanityCategory::Rass,
        ProfanityCategory::Custom,
    ] {
        assert_eq!(ProfanityCategory::from_str(c.as_str()), Some(c));
    }
    assert_eq!(ProfanityCategory::from_str("Schimpf"), None);
    assert_eq!(ProfanityCategory::from_str(""), None);
}

#[test]
fn test_stt_engine_type() {
    assert_eq!(SttEngineType::Vosk.name(), "VOSK");
    assert_eq!(SttEngineType::Whisper.name(), "Whisper");
}

#[test]
fn test_update_manager_new() {
    let manager = UpdateManager::new();
    assert!(manager.is_auto_check_enabled());
}

#[test]
fn test_set_auto_check() {
    let mut manager = UpdateManager::new();

    manager.set_auto_check(false);
    assert!(!manager.is_auto_check_enabled());

    manager.set_auto_check(true);
    assert!(manager.is_auto_check_enabled());
}

#[test]
fn test_update_info() {
    let info = UpdateInfo {
        version: "0.4.0".to_string(),
        notes: "Neue Features".to_string(),
        url: "https://example.com/download".to_string(),
        date: "2026-02-15".to_string(),
        available: true,
    };

    assert_eq!(info.version, "0.4.0");
    assert!(info.available);
}

#[test]
fn test_pipewire_status_enum() {
    let status = PipeWireStatus::Connected;
    assert_eq!(status, PipeWireStatus::Connected);

    let error = PipeWireStatus::Error("test".to_string());
    assert!(matches!(error, PipeWireStatus::Error(_)));
}

#[test]
fn test_check_pipewire_available() {
    let info = PipeWireInfo {
        version: "1.0.5".to_string(),
        running: true,
        sample_rate: 48000,
        buffer_size: 256,
    };
    assert!(check_pipewire_available(&info).is_ok());
    let down = PipeWireInfo { running: false, ..info };
    let message = check_pipewire_available(&down).unwrap_err();
    assert!(message.starts_with("PipeWire ist nicht aktiv."));
    assert!(message.ends_with("pipewire pipewire-pulse wireplumber"));
}

#[test]
fn test_map_bus_to_port_valid() {
    let result = map_bus_to_port("A1");
    assert!(result.is_ok());
    assert_eq!(result.unwrap(), "inoX-Bus-A1:input_FL");

    let result = map_bus_to_port("B2");
    assert!(result.is_ok());
    assert_eq!(result.unwrap(), "inoX-Bus-B2:input_FL");
}

#[test]
fn test_map_bus_to_port_invalid() {
    let result = map_bus_to_port("X1");
    assert!(result.is_err());
    assert!(result.unwrap_err().contains("Ungültige Bus-ID"));
}

#[test]
fn test_calibration_recommends_quiet_room() {
    let mut engine = CalibrateEngine::new();
    let result = engine.run_calibration(480_000).unwrap();
    assert_eq!(result.recommended_gain_db, 0);
    assert_eq!(result.noise_floor_db, -60_000);
    assert_eq!(result.recommended_gate_db, -54_000);
    assert_eq!(result.recommended_hpf_hz, 80_000);
}

#[test]
fn test_app_config_defaults() {
    let config = AppConfig::default();
    assert_eq!(config.sample_rate, 48000);
    assert_eq!(config.buffer_size, 256);
    assert_eq!(config.theme, "dark");
    assert_eq!(config.language, "de");
}

#[test]
fn test_active_recording_record() {
    let rec = ActiveRecording {
        source_id: "A1".to_string(),
        format: RecordingFormat::Wav,
        path: "/tmp/a1.wav".to_string(),
        start_time: 10,
        samples_written: 0,
    };
    assert_eq!(rec.format, RecordingFormat::Wav);
    assert_ne!(rec.format, RecordingFormat::Flac);
}

#[test]
fn test_bleeper_engine_creation() {
    let engine = BleeperEngine::new();
    assert_eq!(engine.armed, false);
    assert_eq!(engine.tone_hz, 1_000_000);
    assert_eq!(engine.volume_db, -6_000);
    assert_eq!(engine.mode, BleepMode::Beep);
}

#[test]
fn test_censor_disabled() {
    let mut engine = BleeperEngine::new();
    engine.armed = false;
    engine.set_mode(BleepMode::Mute);

    let mut audio = vec![1.0f32; 100];
    assert_eq!(engine.censor(&mut audio, 10, 50, 0.0), None);

    assert_eq!(audio[10], 1.0);
    assert_eq!(audio[30], 1.0);
    assert_eq!(audio[49], 1.0);
}

#[test]
fn test_censor_mute_mode() {
    let mut engine = BleeperEngine::new();
    engine.armed = true;
    engine.set_mode(BleepMode::Mute);

    let mut audio = vec![0.8f32; 100];
    assert_eq!(engine.censor(&mut audio, 20, 40, 0.0), None);

    assert_eq!(audio[19], 0.8);
    assert_eq!(audio[20], 0.0);
    assert_eq!(audio[30], 0.0);
    assert_eq!(audio[39], 0.0);
    assert_eq!(audio[40], 0.8);
}

#[test]
fn test_censor_custom_mode_falls_back_to_silence() {
    let mut engine = BleeperEngine::new();
    engine.set_armed(true);
    engine.set_mode(BleepMode::Custom);

    let mut audio = vec![7u8; 6];
    assert_eq!(engine.censor(&mut audio, 0, 6, 0), None);
    assert_eq!(audio, vec![0u8; 6]);
}

#[test]
fn test_censor_leaves_tone_and_noise_to_the_caller() {
    let mut engine = BleeperEngine::new();
    engine.set_armed(true);
    let mut audio = vec![0.25f32; 20];
    assert_eq!(engine.censor(&mut audio, 5, 10, 0.0), Some(BleepMode::Beep));
    assert_eq!(audio, vec![0.25f32; 20]);
    engine.set_mode(BleepMode::Noise);
    assert_eq!(engine.censor(&mut audio, 5, 10, 0.0), Some(BleepMode::Noise));
    assert_eq!(engine.censor(&mut audio, 5, 21, 0.0), None);
    assert_eq!(audio, vec![0.25f32; 20]);
}

#[test]
fn test_censor_reverse_mode() {
    let mut engine = BleeperEngine::new();
    engine.armed = true;
    engine.set_mode(BleepMode::Reverse);

    let mut audio = vec![0.1f32, 0.2, 0.3, 0.4, 0.5, 0.6, 0.7, 0.8, 0.9, 1.0];
    assert_eq!(engine.censor(&mut audio, 2, 8, 0.0), None);

    assert_eq!(audio[0], 0.1);
    assert_eq!(audio[1], 0.2);
    assert_eq!(audio[2], 0.8);
    assert_eq!(audio[3], 0.7);
    assert_eq!(audio[4], 0.6);
    assert_eq!(audio[5], 0.5);
    assert_eq!(audio[6], 0.4);
    assert_eq!(audio[7], 0.3);
    assert_eq!(audio[8], 0.9);
    assert_eq!(audio[9], 1.0);

    engine.censor(&mut audio, 2, 8, 0.0);
    assert_eq!(audio, vec![0.1f32, 0.2, 0.3, 0.4, 0.5, 0.6, 0.7, 0.8, 0.9, 1.0]);
}

#[test]
fn test_censor_invalid_range() {
    let mut engine = BleeperEngine::new();
    engine.armed = true;
    engine.set_mode(BleepMode::Mute);

    let mut audio = vec![1.0f32; 100];

    engine.censor(&mut audio, 50, 50, 0.0);
    assert_eq!(audio[50], 1.0);

    engine.censor(&mut audio, 50, 200, 0.0);
    assert_eq!(audio[50], 1.0);

    engine.censor(&mut audio, 60, 50, 0.0);
    assert_eq!(audio, vec![1.0f32; 100]);

    engine.censor(&mut audio, 99, 100, 0.0);
    assert_eq!(audio[99], 0.0);
    assert_eq!(audio[98], 1.0);
}

#[test]
fn test_tone_and_volume_setters() {
    let mut engine = BleeperEngine::new();

    engine.set_tone(5_000_000);
    assert_eq!(engine.tone_hz, 2_000_000);

    engine.set_tone(100_000);
    assert_eq!(engine.tone_hz, 200_000);

    engine.set_volume(10_000);
    assert_eq!(engine.volume_db, 0);

    engine.set_volume(-50_000);
    assert_eq!(engine.volume_db, -30_000);
}

#[test]
fn test_regions() {
    let mut samples = vec![1, 2, 3, 4, 5];
    reverse_region(&mut samples, 1, 4);
    assert_eq!(samples, vec![1, 4, 3, 2, 5]);
    reverse_region(&mut samples, 0, 5);
    assert_eq!(samples, vec![5, 2, 3, 4, 1]);
    reverse_region(&mut samples, 2, 3);
    assert_eq!(samples, vec![5, 2, 3, 4, 1]);
    fill_region(&mut samples, 1, 3, 0);
    assert_eq!(samples, vec![5, 0, 0, 4, 1]);
    fill_region(&mut samples, 4, 4, 9);
    assert_eq!(samples, vec![5, 0, 0, 4, 1]);
}

#[test]
fn test_ducking_engine_creation() {
    let engine = DuckingEngine::new();
    assert_eq!(engine.enabled, false);
    assert_eq!(engine.params.amount_db, -15_000);
    assert_eq!(engine.params.attack_ms, 50_000);
    assert_eq!(engine.params.release_ms, 500_000);
    assert_eq!(engine.params.threshold_db, -30_000);
    assert_eq!(engine.sample_rate, 48_000);
}

#[test]
fn test_ducking_disabled() {
    let mut engine = DuckingEngine::new();
    engine.enabled = false;
    assert!(!engine.should_process(100, 100));
    engine.enabled = true;
    assert!(engine.should_process(100, 100));
    assert!(!engine.should_process(0, 100));
    assert!(!engine.should_process(100, 0));
}

#[test]
fn test_ducking_setters_clamp() {
    let mut engine = DuckingEngine::new();
    engine.set_amount(-40_000);
    assert_eq!(engine.params.amount_db, -30_000);
    engine.set_amount(5_000);
    assert_eq!(engine.params.amount_db, 0);
    engine.set_attack(100_000);
    assert_eq!(engine.params.attack_ms, 100_000);
    engine.set_attack(1);
    assert_eq!(engine.params.attack_ms, 10_000);
    engine.set_attack(900_000);
    assert_eq!(engine.params.attack_ms, 500_000);
    engine.set_release(10_000);
    assert_eq!(engine.params.release_ms, 50_000);
    engine.set_release(9_000_000);
    assert_eq!(engine.params.release_ms, 2_000_000);
    engine.set_threshold(-60_000);
    assert_eq!(engine.params.threshold_db, -50_000);
    engine.set_threshold(1);
    assert_eq!(engine.params.threshold_db, 0);
    assert!(!engine.enabled);
}
