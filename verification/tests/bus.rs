use mixcore::bus::{
    is_valid_bus_id, BusManager, BusType, OutputBus, MAX_VOLUME_DB, MIN_VOLUME_DB,
};

#[test]
fn test_bus_manager_new() {
    let manager = BusManager::new();
    assert_eq!(manager.bus_count(), 4);
}

#[test]
fn test_get_buses_sorted() {
    let manager = BusManager::new();
    let buses = manager.get_buses();
    assert_eq!(buses.len(), 4);
    assert_eq!(buses[0].id, "A1");
    assert_eq!(buses[1].id, "A2");
    assert_eq!(buses[2].id, "B1");
    assert_eq!(buses[3].id, "B2");
}

#[test]
fn test_get_bus() {
    let manager = BusManager::new();
    let bus = manager.get_bus("A1").unwrap();
    assert_eq!(bus.name, "SPEAKERS");
    assert_eq!(bus.bus_type, BusType::Physical);
    assert_eq!(manager.get_bus("A2").unwrap().name, "HEADSET");
    assert_eq!(manager.get_bus("B1").unwrap().name, "STREAM");
    assert_eq!(manager.get_bus("B2").unwrap().name, "VOIP");
    assert_eq!(manager.get_bus("B2").unwrap().bus_type, BusType::Virtual);
    assert!(manager.get_bus("C1").is_none());
}

#[test]
fn bus_test_set_volume() {
    let mut manager = BusManager::new();
    manager.set_volume("A1", -10_500).unwrap();
    assert_eq!(manager.get_bus("A1").unwrap().volume_db, -10_500);
    assert_eq!(manager.get_bus("A2").unwrap().volume_db, 0);
}

#[test]
fn bus_test_set_volume_clamp() {
    let mut manager = BusManager::new();
    manager.set_volume("A1", 99_000).unwrap();
    assert_eq!(manager.get_bus("A1").unwrap().volume_db, MAX_VOLUME_DB);
    manager.set_volume("A1", -100_000).unwrap();
    assert_eq!(manager.get_bus("A1").unwrap().volume_db, MIN_VOLUME_DB);
}

#[test]
fn bus_test_set_volume_not_found() {
    let mut manager = BusManager::new();
    let result = manager.set_volume("X1", 0);
    assert!(result.is_err());
    assert_eq!(result.unwrap_err(), "Bus 'X1' nicht gefunden");
}

#[test]
fn bus_test_set_mute() {
    let mut manager = BusManager::new();
    manager.set_mute("A1", true).unwrap();
    assert!(manager.get_bus("A1").unwrap().muted);
    manager.set_mute("A1", false).unwrap();
    assert!(!manager.get_bus("A1").unwrap().muted);
    assert!(manager.set_mute("", true).is_err());
}

#[test]
fn test_set_recording() {
    let mut manager = BusManager::new();
    manager.set_recording("B1", true).unwrap();
    assert!(manager.get_bus("B1").unwrap().recording);
    assert!(!manager.get_bus("B2").unwrap().recording);
    assert!(manager.set_recording("B3", true).is_err());
}

#[test]
fn test_physical_bus_defaults() {
    let bus = OutputBus::new_physical("A1", "SPEAKERS");
    assert_eq!(bus.bus_type, BusType::Physical);
    assert_eq!(bus.volume_db, 0);
    assert!(!bus.muted);
    assert!(!bus.recording);
}

#[test]
fn test_virtual_bus_defaults() {
    let bus = OutputBus::new_virtual("B1", "STREAM");
    assert_eq!(bus.bus_type, BusType::Virtual);
}

#[test]
fn test_valid_bus_ids() {
    assert!(is_valid_bus_id("A1"));
    assert!(is_valid_bus_id("A2"));
    assert!(is_valid_bus_id("B1"));
    assert!(is_valid_bus_id("B2"));
    assert!(!is_valid_bus_id("a1"));
    assert!(!is_valid_bus_id("A3"));
    assert!(!is_valid_bus_id(""));
}
