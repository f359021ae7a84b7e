use koda::sensor::{Measurement, Quantity, SensorError, SensorFault, SensorReader};

fn snapshot() -> Measurement {
    Measurement {
        temperature: "21.5".to_string(),
        humidity: "40.25".to_string(),
        pressure: "101325".to_string(),
    }
}

#[test]
fn quantities_come_in_fixed_order() {
    assert_eq!(Quantity::Temperature.next(), Some(Quantity::Humidity));
    assert_eq!(Quantity::Humidity.next(), Some(Quantity::Pressure));
    assert_eq!(Quantity::Pressure.next(), None);
}

#[test]
fn value_picks_the_field() {
    let snapshot = snapshot();
    assert_eq!(snapshot.value(Quantity::Temperature), "21.5");
    assert_eq!(snapshot.value(Quantity::Humidity), "40.25");
    assert_eq!(snapshot.value(Quantity::Pressure), "101325");
}

#[test]
fn clone_keeps_the_snapshot() {
    let snapshot = snapshot();
    assert_eq!(snapshot.clone(), snapshot);
}

#[test]
fn faults_map_to_errors() {
    assert_eq!(SensorFault::NoCalibrationData.error(), SensorError::NotInitialized);
    assert_eq!(SensorFault::Bus.error(), SensorError::BusFault);
    assert_eq!(SensorFault::InvalidData.error(), SensorError::BusFault);
    assert_eq!(SensorFault::CompensationFailed.error(), SensorError::BusFault);
    assert_eq!(SensorFault::UnsupportedChip.error(), SensorError::BusFault);
}

#[test]
fn read_before_initialization_is_refused() {
    let reader = SensorReader::new();
    assert!(!reader.initialized);
    assert_eq!(reader.read(Ok(snapshot())), Err(SensorError::NotInitialized));
    assert_eq!(reader.read(Err(SensorFault::Bus)), Err(SensorError::NotInitialized));
}

#[test]
fn read_after_initialization_gives_the_snapshot() {
    let mut reader = SensorReader::new();
    assert_eq!(reader.initialize(Ok(())), Ok(()));
    assert!(reader.initialized);
    assert_eq!(reader.read(Ok(snapshot())), Ok(snapshot()));
}

#[test]
fn read_after_initialization_reports_the_fault() {
    let mut reader = SensorReader::new();
    assert_eq!(reader.initialize(Ok(())), Ok(()));
    assert_eq!(reader.read(Err(SensorFault::Bus)), Err(SensorError::BusFault));
    assert_eq!(reader.read(Err(SensorFault::InvalidData)), Err(SensorError::BusFault));
    assert_eq!(reader.read(Err(SensorFault::NoCalibrationData)), Err(SensorError::NotInitialized));
}

#[test]
fn failed_initialization_leaves_the_reader_unready() {
    let mut reader = SensorReader::new();
    assert_eq!(reader.initialize(Err(SensorFault::Bus)), Err(SensorError::BusFault));
    assert!(!reader.initialized);
    assert_eq!(reader.initialize(Err(SensorFault::UnsupportedChip)), Err(SensorError::BusFault));
    assert_eq!(reader.read(Ok(snapshot())), Err(SensorError::NotInitialized));
    assert_eq!(reader.initialize(Ok(())), Ok(()));
    assert_eq!(reader.initialize(Err(SensorFault::Bus)), Err(SensorError::BusFault));
    assert!(reader.initialized);
}
