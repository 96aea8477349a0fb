use agrox::delegation::{Access, DelegationError, DelegationRecord, Phase};
use agrox::identity::Identity;
use agrox::key::{machine_key, machine_seeds, plant_key};
use agrox::sensor::{
    add_data, add_image, delegate, initialize, turn_off, turn_on, undelegate, AddData,
    DelegateInput, ErrorCode, Initialize, SensorData, TogglePower, UndelegateAccounts,
};

fn user() -> Identity {
    Identity { bytes: [5; 32] }
}

fn blank() -> SensorData {
    SensorData {
        readings: Vec::new(),
        image_data: Vec::new(),
        machine_id: String::new(),
        total_readings: 0,
        is_on: false,
    }
}

fn created(id: &str) -> SensorData {
    let mut ctx = Initialize { sensor_data: blank(), user: user() };
    initialize(&mut ctx, id.to_string()).unwrap();
    ctx.sensor_data
}

fn switched_on(id: &str) -> SensorData {
    let mut ctx = TogglePower { sensor_data: created(id), user: user(), access: Access::Granted };
    turn_on(&mut ctx).unwrap();
    ctx.sensor_data
}

#[test]
fn initialize_creates_an_empty_record_that_is_off() {
    let mut stale = blank();
    stale.is_on = true;
    stale.total_readings = 9;
    let mut ctx = Initialize { sensor_data: stale, user: user() };
    assert_eq!(initialize(&mut ctx, "s1".to_string()), Ok(()));
    assert_eq!(ctx.sensor_data.machine_id, "s1");
    assert!(ctx.sensor_data.readings.is_empty());
    assert!(ctx.sensor_data.image_data.is_empty());
    assert_eq!(ctx.sensor_data.total_readings, 0);
    assert!(!ctx.sensor_data.is_on);
}

#[test]
fn initialize_refuses_an_id_of_more_than_50_bytes() {
    let mut ctx = Initialize { sensor_data: blank(), user: user() };
    assert_eq!(initialize(&mut ctx, "i".repeat(51)), Err(ErrorCode::MachineIdTooLong));
    assert_eq!(ctx.sensor_data.machine_id, "");
    assert_eq!(initialize(&mut ctx, "i".repeat(50)), Ok(()));
    assert_eq!(ctx.sensor_data.machine_id.len(), 50);
}

#[test]
fn a_machine_is_switched_on_once_and_off_once() {
    let mut ctx = TogglePower { sensor_data: created("s1"), user: user(), access: Access::Granted };
    assert_eq!(turn_off(&mut ctx), Err(ErrorCode::MachineAlreadyOff));
    assert!(!ctx.sensor_data.is_on);
    assert_eq!(turn_on(&mut ctx), Ok(()));
    assert!(ctx.sensor_data.is_on);
    assert_eq!(turn_on(&mut ctx), Err(ErrorCode::MachineAlreadyOn));
    assert!(ctx.sensor_data.is_on);
    assert_eq!(turn_off(&mut ctx), Ok(()));
    assert!(!ctx.sensor_data.is_on);
    assert_eq!(turn_off(&mut ctx), Err(ErrorCode::MachineAlreadyOff));
}

#[test]
fn a_reading_needs_a_machine_that_is_on() {
    let mut ctx = AddData { sensor_data: created("s1"), user: user(), access: Access::Granted };
    assert_eq!(
        add_data(&mut ctx, 21.5f32.to_bits(), 60.0f32.to_bits(), 10),
        Err(ErrorCode::MachineNotOn)
    );
    assert!(ctx.sensor_data.readings.is_empty());
    assert_eq!(ctx.sensor_data.total_readings, 0);
    assert_eq!(add_image(&mut ctx, "img".to_string(), 10), Err(ErrorCode::MachineNotOn));
    assert_eq!(add_image(&mut ctx, "u".repeat(500), 10), Err(ErrorCode::MachineNotOn));
    assert!(ctx.sensor_data.image_data.is_empty());
}

#[test]
fn readings_are_appended_and_counted() {
    let mut ctx = AddData { sensor_data: switched_on("s1"), user: user(), access: Access::Granted };
    assert_eq!(add_data(&mut ctx, 21.5f32.to_bits(), 60.0f32.to_bits(), 10), Ok(()));
    assert_eq!(add_data(&mut ctx, 22.5f32.to_bits(), 61.0f32.to_bits(), 20), Ok(()));
    assert_eq!(ctx.sensor_data.total_readings, 2);
    assert_eq!(ctx.sensor_data.readings.len(), 2);
    assert_eq!(f32::from_bits(ctx.sensor_data.readings[0].temperature_c), 21.5);
    assert_eq!(f32::from_bits(ctx.sensor_data.readings[0].humidity), 60.0);
    assert_eq!(ctx.sensor_data.readings[0].timestamp, 10);
    assert_eq!(f32::from_bits(ctx.sensor_data.readings[1].temperature_c), 22.5);
    assert_eq!(ctx.sensor_data.readings[1].timestamp, 20);
    assert!(ctx.sensor_data.image_data.is_empty());
}

#[test]
fn a_record_holds_fifty_readings() {
    let mut ctx = AddData { sensor_data: switched_on("s1"), user: user(), access: Access::Granted };
    for i in 0..50 {
        assert_eq!(add_data(&mut ctx, i, i, 1), Ok(()));
    }
    assert_eq!(add_data(&mut ctx, 0, 0, 1), Err(ErrorCode::CapacityExceeded));
    assert_eq!(ctx.sensor_data.readings.len(), 50);
    assert_eq!(ctx.sensor_data.total_readings, 50);
    assert_eq!(SensorData::MAX_READINGS, 50);
}

#[test]
fn an_image_reference_of_more_than_100_bytes_is_refused() {
    let mut ctx = AddData { sensor_data: switched_on("s1"), user: user(), access: Access::Granted };
    assert_eq!(add_image(&mut ctx, "u".repeat(101), 5), Err(ErrorCode::UriTooLong));
    assert!(ctx.sensor_data.image_data.is_empty());
    assert_eq!(add_image(&mut ctx, "u".repeat(100), 5), Ok(()));
    assert_eq!(ctx.sensor_data.image_data.len(), 1);
    assert_eq!(ctx.sensor_data.image_data[0].image_uri, "u".repeat(100));
    assert_eq!(ctx.sensor_data.image_data[0].timestamp, 5);
    assert_eq!(ctx.sensor_data.total_readings, 0);
}

#[test]
fn a_record_holds_forty_image_references() {
    let mut ctx = AddData { sensor_data: switched_on("s1"), user: user(), access: Access::Granted };
    for _ in 0..40 {
        assert_eq!(add_image(&mut ctx, "img".to_string(), 1), Ok(()));
    }
    assert_eq!(add_image(&mut ctx, "img".to_string(), 1), Err(ErrorCode::CapacityExceeded));
    assert_eq!(add_image(&mut ctx, "u".repeat(101), 1), Err(ErrorCode::UriTooLong));
    assert_eq!(ctx.sensor_data.image_data.len(), 40);
    assert_eq!(SensorData::MAX_IMAGES, 40);
}

#[test]
fn the_size_of_a_full_record() {
    assert_eq!(SensorData::MAX_URI_LENGTH, 100);
    assert_eq!(SensorData::MAX_MACHINE_ID_LENGTH, 50);
    assert_eq!(SensorData::MAX_SIZE, 8 + 54 + 8 + 1 + 4 + 800 + 4 + 4480);
}

#[test]
fn a_sensor_record_is_delegated_under_the_seeds_of_its_machine() {
    let pda = DelegationRecord::new(machine_key("s1").unwrap(), vec![1, 2, 3]);
    let mut ctx = DelegateInput { payer: user(), pda, sensor_data: created("s1") };
    let ticket = delegate(&mut ctx).unwrap();
    assert_eq!(ticket.key, machine_key("s1").unwrap());
    assert_eq!(ticket.seeds, machine_seeds("s1"));
    assert_eq!(ticket.payer, user());
    assert_eq!(ticket.value, vec![1, 2, 3]);
    assert_eq!(ctx.pda.phase, Phase::Delegating);
    assert_eq!(delegate(&mut ctx).unwrap_err(), DelegationError::AlreadyDelegated);
    assert_eq!(ctx.pda.phase, Phase::Delegating);
}

#[test]
fn a_sensor_record_is_not_delegated_under_another_key() {
    let pda = DelegationRecord::new(plant_key("s1").unwrap(), Vec::new());
    let mut ctx = DelegateInput { payer: user(), pda, sensor_data: created("s1") };
    assert_eq!(delegate(&mut ctx).unwrap_err(), DelegationError::SeedMismatch);
    assert_eq!(ctx.pda.phase, Phase::Resident);
    let other = DelegationRecord::new(machine_key("s2").unwrap(), Vec::new());
    let mut ctx = DelegateInput { payer: user(), pda: other, sensor_data: created("s1") };
    assert_eq!(delegate(&mut ctx).unwrap_err(), DelegationError::SeedMismatch);
}

#[test]
fn a_sensor_record_that_was_not_delegated_is_not_brought_back() {
    let pda = DelegationRecord::new(machine_key("s1").unwrap(), Vec::new());
    let mut ctx = UndelegateAccounts { payer: user(), pda };
    assert_eq!(undelegate(&mut ctx).unwrap_err(), DelegationError::NotDelegated);
    assert_eq!(ctx.pda.phase, Phase::Resident);
    ctx.pda.phase = Phase::Delegated;
    let request = undelegate(&mut ctx).unwrap();
    assert_eq!(request.keys, vec![machine_key("s1").unwrap()]);
    assert_eq!(request.payer, user());
    assert_eq!(ctx.pda.phase, Phase::Committing);
}

#[test]
fn every_sensor_error_has_its_message() {
    assert_eq!(ErrorCode::UriTooLong.message(), "Image URI is too long");
    assert_eq!(ErrorCode::MachineIdTooLong.message(), "Machine ID is too long");
    assert_eq!(ErrorCode::MachineAlreadyOn.message(), "Machine is already turned on");
    assert_eq!(ErrorCode::MachineAlreadyOff.message(), "Machine is already turned off");
    assert_eq!(
        ErrorCode::MachineNotOn.message(),
        "Machine must be turned on to perform this action"
    );
}

#[test]
fn a_sensor_record_that_is_away_is_not_written() {
    for (access, error) in [
        (Access::Retry, ErrorCode::ResourceInTransit),
        (Access::Refused, ErrorCode::ResourceDelegated),
    ] {
        let mut power = TogglePower { sensor_data: created("s1"), user: user(), access };
        assert_eq!(turn_on(&mut power), Err(error));
        assert!(!power.sensor_data.is_on);
        assert_eq!(turn_off(&mut power), Err(ErrorCode::MachineAlreadyOff));
        let mut add = AddData { sensor_data: switched_on("s1"), user: user(), access };
        assert_eq!(add_data(&mut add, 1, 2, 3), Err(error));
        assert!(add.sensor_data.readings.is_empty());
        assert_eq!(add.sensor_data.total_readings, 0);
        assert_eq!(add_image(&mut add, "img".to_string(), 3), Err(error));
        assert!(add.sensor_data.image_data.is_empty());
        assert_eq!(add_image(&mut add, "u".repeat(101), 3), Err(ErrorCode::UriTooLong));
        let mut off = TogglePower { sensor_data: add.sensor_data, user: user(), access };
        assert_eq!(turn_off(&mut off), Err(error));
        assert!(off.sensor_data.is_on);
    }
}
