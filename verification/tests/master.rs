use mixcore::master::MasterManager;

#[test]
fn test_master_manager_new() {
    let manager = MasterManager::new();
    let state = manager.get_state();

    assert_eq!(state.volume_db, 0);
    assert_eq!(state.limiter_ceiling_db, -100);
    assert!(!state.dim);
    assert!(!state.mono);
    assert!(!state.talkback);
    assert!(state.talkback_buses.is_empty());
}

#[test]
fn master_test_set_volume() {
    let mut manager = MasterManager::new();

    manager.set_volume(-10_000).unwrap();
    assert_eq!(manager.get_state().volume_db, -10_000);

    manager.set_volume(6_000).unwrap();
    assert_eq!(manager.get_state().volume_db, 6_000);

    manager.set_volume(-80_000).unwrap();
    assert_eq!(manager.get_state().volume_db, -80_000);

    manager.set_volume(12_000).unwrap();
    assert_eq!(manager.get_state().volume_db, 12_000);
}

#[test]
fn test_set_volume_invalid() {
    let mut manager = MasterManager::new();

    let result = manager.set_volume(-100_000);
    assert!(result.is_err());
    assert!(result.unwrap_err().contains("außerhalb des gültigen Bereichs"));

    let result = manager.set_volume(20_000);
    assert!(result.is_err());
    assert_eq!(
        result.unwrap_err(),
        "Master Volume außerhalb des gültigen Bereichs: 20 dB (erlaubt: -80 bis +12 dB)"
    );
    assert_eq!(manager.get_state().volume_db, 0);
}

#[test]
fn test_set_limiter() {
    let mut manager = MasterManager::new();

    manager.set_limiter(-3_000).unwrap();
    assert_eq!(manager.get_state().limiter_ceiling_db, -3_000);

    manager.set_limiter(-20_000).unwrap();
    assert_eq!(manager.get_state().limiter_ceiling_db, -20_000);

    manager.set_limiter(0).unwrap();
    assert_eq!(manager.get_state().limiter_ceiling_db, 0);
}

#[test]
fn test_set_limiter_invalid() {
    let mut manager = MasterManager::new();

    let result = manager.set_limiter(-30_000);
    assert!(result.is_err());

    let result = manager.set_limiter(5_000);
    assert!(result.is_err());
    assert_eq!(
        result.unwrap_err(),
        "Limiter Ceiling außerhalb des gültigen Bereichs: 5 dB (erlaubt: -20 bis 0 dB)"
    );
    assert_eq!(manager.get_state().limiter_ceiling_db, -100);
}

#[test]
fn test_set_dim() {
    let mut manager = MasterManager::new();

    manager.set_dim(true).unwrap();
    assert!(manager.get_state().dim);

    manager.set_dim(false).unwrap();
    assert!(!manager.get_state().dim);
}

#[test]
fn test_set_mono() {
    let mut manager = MasterManager::new();

    manager.set_mono(true).unwrap();
    assert!(manager.get_state().mono);

    manager.set_mono(false).unwrap();
    assert!(!manager.get_state().mono);
}

#[test]
fn test_set_talkback() {
    let mut manager = MasterManager::new();

    manager
        .set_talkback(true, vec!["A1".to_string(), "B1".to_string()])
        .unwrap();

    let state = manager.get_state();
    assert!(state.talkback);
    assert_eq!(state.talkback_buses.len(), 2);
    assert!(state.talkback_buses.contains(&"A1".to_string()));
    assert!(state.talkback_buses.contains(&"B1".to_string()));

    manager.set_talkback(false, vec![]).unwrap();
    assert!(!manager.get_state().talkback);
}

#[test]
fn test_set_talkback_invalid_bus() {
    let mut manager = MasterManager::new();

    let result = manager.set_talkback(true, vec!["X1".to_string()]);
    assert!(result.is_err());
    assert!(result.unwrap_err().contains("Ungültige Bus-ID"));

    let result = manager.set_talkback(
        true,
        vec!["A1".to_string(), "Q7".to_string(), "Z9".to_string()],
    );
    assert_eq!(result.unwrap_err(), "Ungültige Bus-ID für Talkback: Q7");
    assert!(!manager.get_state().talkback);
    assert!(manager.get_state().talkback_buses.is_empty());
}

#[test]
fn test_get_effective_volume_db() {
    let mut manager = MasterManager::new();

    manager.set_volume(0).unwrap();
    assert_eq!(manager.get_effective_volume_db(), 0);

    manager.set_volume(-6_000).unwrap();
    assert_eq!(manager.get_effective_volume_db(), -6_000);

    manager.set_dim(true).unwrap();
    assert_eq!(manager.get_effective_volume_db(), -26_000);

    manager.set_volume(0).unwrap();
    assert_eq!(manager.get_effective_volume_db(), -20_000);
}
