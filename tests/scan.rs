use fitness_ble::catalog::{CYCLING_POWER_SERVICE, FTMS_SERVICE, HEART_RATE_SERVICE};
use fitness_ble::scan::{device_type, scan_devices};
use fitness_ble::types::{BleError, DeviceInfo, DeviceType};

fn record(id: &str, rssi: i16, services: &[&str]) -> DeviceInfo {
    DeviceInfo {
        id: id.to_string(),
        name: Some(format!("{} name", id)),
        rssi: Some(rssi),
        services: services.iter().map(|s| s.to_string()).collect(),
    }
}

#[test]
fn scan_coalesces_and_filters() {
    let results = vec![
        record("hrm", -60, &[HEART_RATE_SERVICE]),
        record("trainer", -70, &[CYCLING_POWER_SERVICE, FTMS_SERVICE]),
        record("hrm", -50, &[HEART_RATE_SERVICE]),
    ];
    let all = scan_devices(true, results.clone(), None).unwrap();
    assert_eq!(all.len(), 2);
    let hrm = all.iter().find(|d| d.id == "hrm").unwrap();
    assert_eq!(hrm.rssi, Some(-50));
    let trainers = scan_devices(true, results.clone(), Some(FTMS_SERVICE.to_string())).unwrap();
    assert_eq!(trainers.len(), 1);
    assert_eq!(trainers[0].id, "trainer");
    let none = scan_devices(true, results.clone(), Some("0000ffff-0000-1000-8000-00805f9b34fb".to_string())).unwrap();
    assert!(none.is_empty());
    assert!(scan_devices(true, vec![], None).unwrap().is_empty());
    assert!(matches!(scan_devices(false, results, None), Err(BleError::NotAvailable)));
}

#[test]
fn device_types_from_services() {
    assert_eq!(device_type(&record("a", 0, &[HEART_RATE_SERVICE])), DeviceType::HeartRateMonitor);
    assert_eq!(device_type(&record("b", 0, &[CYCLING_POWER_SERVICE])), DeviceType::SmartTrainer);
    assert_eq!(device_type(&record("c", 0, &[HEART_RATE_SERVICE, FTMS_SERVICE])), DeviceType::SmartTrainer);
    assert_eq!(device_type(&record("d", 0, &[])), DeviceType::Unknown);
}

#[test]
fn scan_keeps_device_whose_earlier_record_passes() {
    let results = vec![
        record("trainer", -80, &[FTMS_SERVICE]),
        record("trainer", -55, &[]),
        record("hrm", -60, &[HEART_RATE_SERVICE]),
    ];
    let found = scan_devices(true, results, Some(FTMS_SERVICE.to_string())).unwrap();
    assert_eq!(found.len(), 1);
    assert_eq!(found[0].id, "trainer");
    assert_eq!(found[0].rssi, Some(-55));
    assert_eq!(found[0].services, vec![FTMS_SERVICE.to_string()]);
}
