use mixcore::measure::{calculate_peak_rms, calculate_peak_rms_channel, integer_sqrt};
use mixcore::metering::{
    hold_peak, measure_buffer, update_meter, BufferLevels, MeterState, MeteringEngine,
    PEAK_HOLD_FRAMES,
};
use mixcore::units::{Level, FULL_SCALE};

const MIN_DB: f32 = -60.0;

fn linear_to_db(level: Level) -> f32 {
    if level == 0 {
        MIN_DB
    } else {
        20.0 * (level as f32 / FULL_SCALE as f32).log10()
    }
}

fn magnitudes(samples: &[f32]) -> Vec<Level> {
    samples.iter().map(|x| (x.abs() as f64 * FULL_SCALE as f64) as Level).collect()
}

fn feed(engine: &mut MeteringEngine, id: &str, samples: &[f32], channels: u32) {
    engine.process_buffer(id, &magnitudes(samples), channels);
}

fn feed_mono(engine: &mut MeteringEngine, id: &str, samples: &[f32]) {
    feed(engine, id, samples, 1);
}

#[test]
fn test_metering_engine_new() {
    let engine = MeteringEngine::new();
    assert_eq!(engine.strip_count(), 0);
}

#[test]
fn test_register_strip() {
    let mut engine = MeteringEngine::new();
    engine.register_strip("hw-mic");
    assert_eq!(engine.strip_count(), 1);
    engine.register_strip("hw-mic");
    assert_eq!(engine.strip_count(), 1);
}

#[test]
fn test_unregister_strip() {
    let mut engine = MeteringEngine::new();
    engine.register_strip("hw-mic");
    engine.unregister_strip("hw-mic");
    assert_eq!(engine.strip_count(), 0);
    engine.unregister_strip("hw-mic");
    assert_eq!(engine.strip_count(), 0);
}

#[test]
fn test_process_mono_silence() {
    let mut engine = MeteringEngine::new();
    engine.register_strip("test");

    let silence = vec![0.0_f32; 256];
    feed_mono(&mut engine, "test", &silence);

    let levels = engine.get_strip_levels("test").unwrap();
    assert_eq!(linear_to_db(levels.peak_l), MIN_DB);
    assert_eq!(linear_to_db(levels.rms_l), MIN_DB);
    assert_eq!(levels.peak_r, 0);
    assert_eq!(levels.rms_r, 0);
    assert!(!levels.clipping);
}

#[test]
fn test_process_mono_signal() {
    let mut engine = MeteringEngine::new();
    engine.register_strip("test");

    let signal: Vec<f32> = (0..256)
        .map(|i| 0.5 * (2.0 * std::f32::consts::PI * i as f32 / 256.0).sin())
        .collect();

    feed_mono(&mut engine, "test", &signal);

    let levels = engine.get_strip_levels("test").unwrap();
    let peak_db = linear_to_db(levels.peak_l);
    assert!(peak_db > -7.0 && peak_db < -5.0, "peak was {}", peak_db);
    assert!(levels.rms_l < levels.peak_l);
    assert_eq!(levels.peak_l, levels.peak_r);
    assert!(!levels.clipping);
}

#[test]
fn test_process_stereo() {
    let mut engine = MeteringEngine::new();
    engine.register_strip("test");

    let mut stereo = Vec::with_capacity(512);
    for _ in 0..256 {
        stereo.push(0.5_f32);
        stereo.push(0.25_f32);
    }

    feed(&mut engine, "test", &stereo, 2);

    let levels = engine.get_strip_levels("test").unwrap();
    let l = linear_to_db(levels.peak_l);
    let r = linear_to_db(levels.peak_r);
    assert!(l > -7.0 && l < -5.0, "left peak was {}", l);
    assert!(r > -13.0 && r < -11.0, "right peak was {}", r);
    assert_eq!(levels.peak_l, 500_000);
    assert_eq!(levels.peak_r, 250_000);
    assert_eq!(levels.rms_l, 500_000);
    assert_eq!(levels.rms_r, 250_000);
}

#[test]
fn test_clipping_detection() {
    let mut engine = MeteringEngine::new();
    engine.register_strip("test");

    let signal = vec![1.0_f32; 256];
    feed_mono(&mut engine, "test", &signal);

    let levels = engine.get_strip_levels("test").unwrap();
    assert!(levels.clipping);
}

#[test]
fn test_reset_clipping() {
    let mut engine = MeteringEngine::new();
    engine.register_strip("test");

    let signal = vec![1.0_f32; 256];
    feed_mono(&mut engine, "test", &signal);
    assert!(engine.get_strip_levels("test").unwrap().clipping);

    engine.reset_clipping("test");
    assert!(!engine.get_strip_levels("test").unwrap().clipping);
    assert_eq!(engine.get_strip_levels("test").unwrap().peak_l, FULL_SCALE);
}

#[test]
fn test_clipping_persists_until_reset() {
    let mut engine = MeteringEngine::new();
    feed_mono(&mut engine, "test", &[1.0_f32; 16]);
    for _ in 0..500 {
        feed_mono(&mut engine, "test", &[0.0_f32; 16]);
        assert!(engine.get_strip_levels("test").unwrap().clipping);
    }
    engine.reset_clipping("other");
    assert!(engine.get_strip_levels("test").unwrap().clipping);
    engine.reset_clipping("test");
    assert!(!engine.get_strip_levels("test").unwrap().clipping);
    feed_mono(&mut engine, "test", &[0.999_f32; 16]);
    assert!(!engine.get_strip_levels("test").unwrap().clipping);
}

#[test]
fn test_get_levels_all() {
    let mut engine = MeteringEngine::new();
    engine.register_strip("strip-1");
    engine.register_strip("strip-2");

    let levels = engine.get_levels();
    assert_eq!(levels.len(), 2);
    assert!(levels.iter().any(|l| l.strip_id == "strip-1"));
    assert!(levels.iter().any(|l| l.strip_id == "strip-2"));
}

#[test]
fn test_process_empty_buffer() {
    let mut engine = MeteringEngine::new();
    engine.register_strip("test");

    feed_mono(&mut engine, "test", &[]);
    let levels = engine.get_strip_levels("test").unwrap();
    assert_eq!(linear_to_db(levels.peak_l), MIN_DB);
}

#[test]
fn test_empty_buffer_changes_nothing() {
    let mut engine = MeteringEngine::new();
    feed_mono(&mut engine, "a", &[1.0_f32; 8]);
    let before = engine.get_strip_levels("a").unwrap();
    for channels in [0, 1, 2, 7] {
        engine.process_buffer("a", &[], channels);
        let after = engine.get_strip_levels("a").unwrap();
        assert_eq!(before.peak_l, after.peak_l);
        assert_eq!(before.peak_r, after.peak_r);
        assert_eq!(before.rms_l, after.rms_l);
        assert_eq!(before.rms_r, after.rms_r);
        assert_eq!(before.clipping, after.clipping);
        assert_eq!(engine.strip_count(), 1);
    }
    engine.process_buffer("b", &[], 1);
    assert_eq!(engine.strip_count(), 1);
    assert!(engine.get_strip_levels("b").is_none());
    engine.process_buffer("b", &[5], 1);
    assert_eq!(engine.strip_count(), 2);
    assert_eq!(engine.get_strip_levels("b").unwrap().peak_l, 5);
}

#[test]
fn test_calculate_peak_rms() {
    let samples = magnitudes(&[0.0, 0.5, -0.3, 0.8, -0.1]);
    let (peak, rms) = calculate_peak_rms(&samples);
    assert_eq!(peak, 800_000);
    assert!(rms > 0 && rms < peak);
    assert_eq!(rms, 444_971);
    assert_eq!(calculate_peak_rms(&[]), (0, 0));
    assert_eq!(calculate_peak_rms(&[7]), (7, 7));
    assert_eq!(calculate_peak_rms(&[3, 4]), (4, 3));
    assert_eq!(calculate_peak_rms(&[u32::MAX, u32::MAX, u32::MAX]), (u32::MAX, u32::MAX));
}

#[test]
fn test_calculate_peak_rms_channel() {
    let samples = [10, 1, 20, 2, 30, 3, 40];
    assert_eq!(calculate_peak_rms_channel(&samples, 0, 2), (40, 27));
    assert_eq!(calculate_peak_rms_channel(&samples, 1, 2), (3, 2));
    assert_eq!(calculate_peak_rms_channel(&samples, 6, 2), (40, 40));
    assert_eq!(calculate_peak_rms_channel(&samples, 7, 2), (0, 0));
    assert_eq!(calculate_peak_rms_channel(&samples, 2, 3), (20, 14));
    assert_eq!(calculate_peak_rms_channel(&samples, 0, usize::MAX), (10, 10));
    assert_eq!(calculate_peak_rms_channel(&[5], 1, 2), (0, 0));
}

#[test]
fn test_measure_buffer() {
    let samples = [300_000, 400_000, 300_000, 400_000];
    assert_eq!(
        measure_buffer(&samples, 2),
        BufferLevels { peak_l: 300_000, peak_r: 400_000, rms_l: 300_000, rms_r: 400_000 }
    );
    assert_eq!(
        measure_buffer(&samples, 1),
        BufferLevels { peak_l: 400_000, peak_r: 400_000, rms_l: 353_553, rms_r: 353_553 }
    );
    assert_eq!(measure_buffer(&samples, 0), measure_buffer(&samples, 1));
    assert_eq!(measure_buffer(&samples, 6), measure_buffer(&samples, 2));
    assert_eq!(
        measure_buffer(&[9], 2),
        BufferLevels { peak_l: 9, peak_r: 0, rms_l: 9, rms_r: 0 }
    );
}

#[test]
fn test_integer_sqrt() {
    assert_eq!(integer_sqrt(0), 0);
    assert_eq!(integer_sqrt(1), 1);
    assert_eq!(integer_sqrt(3), 1);
    assert_eq!(integer_sqrt(4), 2);
    assert_eq!(integer_sqrt(99), 9);
    assert_eq!(integer_sqrt(100), 10);
    assert_eq!(integer_sqrt(1_000_000_000_000), 1_000_000);
    assert_eq!(integer_sqrt(999_999_999_999), 999_999);
    assert_eq!(integer_sqrt(u64::MAX as u128), u32::MAX);
    assert_eq!(integer_sqrt(u32::MAX as u128 * u32::MAX as u128), u32::MAX);
    assert_eq!(integer_sqrt(u32::MAX as u128 * u32::MAX as u128 - 1), u32::MAX - 1);
}

#[test]
fn test_peak_hold_then_fall() {
    let mut meter = MeterState::new();
    update_meter(&mut meter, 800_000, 400_000, 300_000, 200_000);
    assert_eq!(meter.held_peak_l, 800_000);
    assert_eq!(meter.peak_hold_l, PEAK_HOLD_FRAMES);
    assert_eq!(meter.rms_l, 300_000);
    for n in 1..=PEAK_HOLD_FRAMES {
        update_meter(&mut meter, 100_000, 100_000, 50_000, 50_000);
        assert_eq!(meter.held_peak_l, 800_000);
        assert_eq!(meter.held_peak_r, 400_000);
        assert_eq!(meter.peak_hold_l, PEAK_HOLD_FRAMES - n);
        assert_eq!(meter.peak_l, 100_000);
    }
    update_meter(&mut meter, 100_000, 100_000, 50_000, 50_000);
    assert_eq!(meter.held_peak_l, 755_248);
    assert_eq!(meter.held_peak_r, 377_624);
    update_meter(&mut meter, 100_000, 100_000, 50_000, 50_000);
    assert_eq!(meter.held_peak_l, 713_000);
    update_meter(&mut meter, 750_000, 100_000, 50_000, 50_000);
    assert_eq!(meter.held_peak_l, 750_000);
    assert_eq!(meter.peak_hold_l, PEAK_HOLD_FRAMES);
    assert!(!meter.clipping);
}

#[test]
fn test_fall_is_half_a_decibel() {
    let (held, hold) = hold_peak(1_000_000, 0, 0);
    assert_eq!((held, hold), (944_061, 0));
    let db = linear_to_db(held);
    assert!((db + 0.5).abs() < 0.001, "fall was {} dB", db);
    assert_eq!(hold_peak(1, 0, 0), (0, 0));
    assert_eq!(hold_peak(0, 0, 0), (0, PEAK_HOLD_FRAMES));
    assert_eq!(hold_peak(u32::MAX, 0, 5), (4_054_711_119, 0));
}
