//! The single-sensor variant: one record for each machine, which holds the
//! readings and the image references of its one sensor and can be switched
//! on and off.

use crate::delegation::{
    committing, delegate_verdict, delegating, request_delegation, request_for,
    request_undelegation, ticket_for, undelegate_verdict, Access, CommitRequest, DelegationError,
    DelegationRecord, DelegationTicket,
};
use crate::identity::Identity;
use crate::key::{byte_len, machine_parts, machine_seeds};
use vstd::prelude::*;
use vstd::utf8::encode_utf8;

verus! {

/// One reading of the sensor. Temperature and humidity are kept as the bit
/// patterns of the single-precision numbers that the device sent.
#[derive(Debug)]
pub struct SensorReading {
    pub temperature_c: u32,
    pub humidity: u32,
    pub timestamp: i64,
}

pub struct SensorReadingView {
    pub temperature_c: u32,
    pub humidity: u32,
    pub timestamp: int,
}

impl View for SensorReading {
    type V = SensorReadingView;

    open spec fn view(&self) -> SensorReadingView {
        SensorReadingView {
            temperature_c: self.temperature_c,
            humidity: self.humidity,
            timestamp: self.timestamp as int,
        }
    }
}

/// One image reference of the sensor.
#[derive(Debug)]
pub struct ImageData {
    pub image_uri: String,
    pub timestamp: i64,
}

pub struct ImageDataView {
    pub image_uri: Seq<char>,
    pub timestamp: int,
}

impl View for ImageData {
    type V = ImageDataView;

    open spec fn view(&self) -> ImageDataView {
        ImageDataView { image_uri: self.image_uri@, timestamp: self.timestamp as int }
    }
}

/// The record of one machine and its sensor.
#[derive(Debug)]
pub struct SensorData {
    pub readings: Vec<SensorReading>,
    pub image_data: Vec<ImageData>,
    pub machine_id: String,
    pub total_readings: u64,
    pub is_on: bool,
}

pub struct SensorDataView {
    pub readings: Seq<SensorReadingView>,
    pub image_data: Seq<ImageDataView>,
    pub machine_id: Seq<char>,
    pub total_readings: nat,
    pub is_on: bool,
}

/// The models of the readings of a record, in order.
pub open spec fn readings_view(readings: Seq<SensorReading>) -> Seq<SensorReadingView> {
    readings.map_values(|reading: SensorReading| reading@)
}

/// The models of the image references of a record, in order.
pub open spec fn images_view(images: Seq<ImageData>) -> Seq<ImageDataView> {
    images.map_values(|image: ImageData| image@)
}

impl View for SensorData {
    type V = SensorDataView;

    open spec fn view(&self) -> SensorDataView {
        SensorDataView {
            readings: readings_view(self.readings@),
            image_data: images_view(self.image_data@),
            machine_id: self.machine_id@,
            total_readings: self.total_readings as nat,
            is_on: self.is_on,
        }
    }
}

impl SensorData {
    /// Longest image reference, in bytes.
    pub const MAX_URI_LENGTH: usize = 100;

    /// Longest machine id, in bytes.
    pub const MAX_MACHINE_ID_LENGTH: usize = 50;

    /// Most readings that a record holds.
    pub const MAX_READINGS: usize = 50;

    /// Most image references that a record holds.
    pub const MAX_IMAGES: usize = 40;

    /// Bytes of a full record: the id behind its length, the counter, the
    /// switch, and the two logs behind their lengths, each entry with its
    /// time.
    pub const MAX_SIZE: usize = 8 + (4 + 50) + 8 + 1 + 4 + (50 * (4 + 4 + 8)) + 4 + (40 * ((4 + 100)
        + 8));
}

impl SensorDataView {
    /// The invariant of a record: the counter counts the readings, the logs
    /// are within their capacity, and the id and every image reference are
    /// within their length.
    pub open spec fn wf(self) -> bool {
        &&& self.total_readings == self.readings.len()
        &&& self.readings.len() <= SensorData::MAX_READINGS
        &&& self.image_data.len() <= SensorData::MAX_IMAGES
        &&& encode_utf8(self.machine_id).len() <= SensorData::MAX_MACHINE_ID_LENGTH
        &&& forall|i: int|
            0 <= i < self.image_data.len() ==> encode_utf8(
                (#[trigger] self.image_data[i]).image_uri,
            ).len() <= SensorData::MAX_URI_LENGTH
    }
}

/// Why an operation on a sensor record was refused.
#[derive(Clone, Copy, Debug, PartialEq, Eq, Structural)]
pub enum ErrorCode {
    /// The image reference is longer than `SensorData::MAX_URI_LENGTH`.
    UriTooLong,
    /// The machine id is longer than `SensorData::MAX_MACHINE_ID_LENGTH`.
    MachineIdTooLong,
    /// The machine is on already.
    MachineAlreadyOn,
    /// The machine is off already.
    MachineAlreadyOff,
    /// The machine is off.
    MachineNotOn,
    /// The record already holds as many entries as it has room for.
    CapacityExceeded,
    /// The record is being handed over: try again later.
    ResourceInTransit,
    /// The record is owned by the other execution context.
    ResourceDelegated,
}

/// The message that belongs to each error.
pub open spec fn error_message(error: ErrorCode) -> Seq<char> {
    match error {
        ErrorCode::UriTooLong => "Image URI is too long"@,
        ErrorCode::MachineIdTooLong => "Machine ID is too long"@,
        ErrorCode::MachineAlreadyOn => "Machine is already turned on"@,
        ErrorCode::MachineAlreadyOff => "Machine is already turned off"@,
        ErrorCode::MachineNotOn => "Machine must be turned on to perform this action"@,
        ErrorCode::CapacityExceeded => "Capacity exceeded"@,
        ErrorCode::ResourceInTransit => "Resource is being handed over"@,
        ErrorCode::ResourceDelegated => "Resource is owned by the other context"@,
    }
}

impl ErrorCode {
    /// The message of the error.
    pub fn message(&self) -> (text: &'static str)
        ensures
            text@ == error_message(*self),
    {
        match self {
            ErrorCode::UriTooLong => "Image URI is too long",
            ErrorCode::MachineIdTooLong => "Machine ID is too long",
            ErrorCode::MachineAlreadyOn => "Machine is already turned on",
            ErrorCode::MachineAlreadyOff => "Machine is already turned off",
            ErrorCode::MachineNotOn => "Machine must be turned on to perform this action",
            ErrorCode::CapacityExceeded => "Capacity exceeded",
            ErrorCode::ResourceInTransit => "Resource is being handed over",
            ErrorCode::ResourceDelegated => "Resource is owned by the other context",
        }
    }
}

/// What the answer of the delegation controller means for an operation
/// that is otherwise in order: it goes ahead only if the executing context
/// owns the record.
pub open spec fn gate_verdict(access: Access) -> Result<(), ErrorCode> {
    match access {
        Access::Granted => Ok(()),
        Access::Retry => Err(ErrorCode::ResourceInTransit),
        Access::Refused => Err(ErrorCode::ResourceDelegated),
    }
}

/// Lets an operation through if the delegation controller granted the
/// executing context access to the record.
pub fn gate(access: Access) -> (result: Result<(), ErrorCode>)
    ensures
        result == gate_verdict(access),
{
    match access {
        Access::Granted => Ok(()),
        Access::Retry => Err(ErrorCode::ResourceInTransit),
        Access::Refused => Err(ErrorCode::ResourceDelegated),
    }
}

/// What the creation of a record works on.
#[derive(Debug)]
pub struct Initialize {
    pub sensor_data: SensorData,
    pub user: Identity,
}

/// What a new reading or image reference works on.
#[derive(Debug)]
pub struct AddData {
    pub sensor_data: SensorData,
    pub user: Identity,
    /// What the delegation controller answers to the context that asks to
    /// write the record.
    pub access: Access,
}

/// What switching the machine works on.
#[derive(Debug)]
pub struct TogglePower {
    pub sensor_data: SensorData,
    pub user: Identity,
    /// What the delegation controller answers to the context that asks to
    /// write the record.
    pub access: Access,
}

/// Whether a record may be created under the id, and why not.
pub open spec fn initialize_verdict(machine_id: Seq<char>) -> Result<(), ErrorCode> {
    if encode_utf8(machine_id).len() > SensorData::MAX_MACHINE_ID_LENGTH {
        Err(ErrorCode::MachineIdTooLong)
    } else {
        Ok(())
    }
}

/// The record as it is created: empty and switched off.
pub open spec fn fresh_sensor(machine_id: Seq<char>) -> SensorDataView {
    SensorDataView {
        readings: Seq::empty(),
        image_data: Seq::empty(),
        machine_id,
        total_readings: 0,
        is_on: false,
    }
}

/// Creates the record of the machine with the given id: no readings, no
/// image references, switched off. A refused creation changes nothing.
pub fn initialize(ctx: &mut Initialize, machine_id: String) -> (result: Result<(), ErrorCode>)
    ensures
        result == initialize_verdict(machine_id@),
        result is Err ==> *final(ctx) == *old(ctx),
        result is Ok ==> final(ctx).sensor_data@ == fresh_sensor(machine_id@) && final(ctx).user
            == old(ctx).user && final(ctx).sensor_data@.wf(),
{
    if byte_len(machine_id.as_str()) > SensorData::MAX_MACHINE_ID_LENGTH {
        return Err(ErrorCode::MachineIdTooLong);
    }
    ctx.sensor_data.readings = Vec::new();
    ctx.sensor_data.image_data = Vec::new();
    ctx.sensor_data.machine_id = machine_id;
    ctx.sensor_data.total_readings = 0;
    ctx.sensor_data.is_on = false;
    assert(readings_view(ctx.sensor_data.readings@) =~= Seq::empty());
    assert(images_view(ctx.sensor_data.image_data@) =~= Seq::empty());
    Ok(())
}

/// Whether the machine may be switched to the given state, and why not:
/// it is in that state already, or else the executing context does not own
/// the record.
pub open spec fn toggle_verdict(sensor: SensorDataView, on: bool, access: Access) -> Result<
    (),
    ErrorCode,
> {
    if sensor.is_on == on {
        if on {
            Err(ErrorCode::MachineAlreadyOn)
        } else {
            Err(ErrorCode::MachineAlreadyOff)
        }
    } else {
        gate_verdict(access)
    }
}

/// Switches the machine on, unless it is on already. A refused call
/// changes nothing.
pub fn turn_on(ctx: &mut TogglePower) -> (result: Result<(), ErrorCode>)
    ensures
        result == toggle_verdict(old(ctx).sensor_data@, true, old(ctx).access),
        result is Err ==> *final(ctx) == *old(ctx),
        result is Ok ==> final(ctx).sensor_data@ == (SensorDataView {
            is_on: true,
            ..old(ctx).sensor_data@
        }) && final(ctx).user == old(ctx).user && final(ctx).access == old(ctx).access,
{
    if ctx.sensor_data.is_on {
        return Err(ErrorCode::MachineAlreadyOn);
    }
    match gate(ctx.access) {
        Err(error) => {
            return Err(error);
        },
        Ok(_) => {},
    }
    ctx.sensor_data.is_on = true;
    Ok(())
}

/// Switches the machine off, unless it is off already. A refused call
/// changes nothing.
pub fn turn_off(ctx: &mut TogglePower) -> (result: Result<(), ErrorCode>)
    ensures
        result == toggle_verdict(old(ctx).sensor_data@, false, old(ctx).access),
        result is Err ==> *final(ctx) == *old(ctx),
        result is Ok ==> final(ctx).sensor_data@ == (SensorDataView {
            is_on: false,
            ..old(ctx).sensor_data@
        }) && final(ctx).user == old(ctx).user && final(ctx).access == old(ctx).access,
{
    if !ctx.sensor_data.is_on {
        return Err(ErrorCode::MachineAlreadyOff);
    }
    match gate(ctx.access) {
        Err(error) => {
            return Err(error);
        },
        Ok(_) => {},
    }
    ctx.sensor_data.is_on = false;
    Ok(())
}

/// Whether a reading is accepted, and why not. Of several reasons the
/// first in this order is given: the machine is off; the record holds as
/// many readings as it has room for; the executing context does not own the
/// record.
pub open spec fn add_data_verdict(sensor: SensorDataView, access: Access) -> Result<(), ErrorCode> {
    if !sensor.is_on {
        Err(ErrorCode::MachineNotOn)
    } else if sensor.readings.len() >= SensorData::MAX_READINGS {
        Err(ErrorCode::CapacityExceeded)
    } else {
        gate_verdict(access)
    }
}

/// Whether the counter that an accepted reading raises has room for it.
pub open spec fn add_data_headroom(sensor: SensorDataView) -> bool {
    sensor.total_readings < u64::MAX
}

/// The record after an accepted reading.
pub open spec fn after_add_data(
    sensor: SensorDataView,
    temperature_c: u32,
    humidity: u32,
    now: int,
) -> SensorDataView {
    SensorDataView {
        readings: sensor.readings.push(SensorReadingView { temperature_c, humidity, timestamp: now }),
        total_readings: sensor.total_readings + 1,
        ..sensor
    }
}

/// Appends a reading of the sensor, taken at the logical time `now`, to
/// the record of a machine that is on. A refused reading changes nothing.
pub fn add_data(ctx: &mut AddData, temperature_c: u32, humidity: u32, now: i64) -> (result: Result<
    (),
    ErrorCode,
>)
    requires
        add_data_verdict(old(ctx).sensor_data@, old(ctx).access) is Ok ==> add_data_headroom(
            old(ctx).sensor_data@,
        ),
    ensures
        result == add_data_verdict(old(ctx).sensor_data@, old(ctx).access),
        result is Err ==> *final(ctx) == *old(ctx),
        result is Ok ==> final(ctx).sensor_data@ == after_add_data(
            old(ctx).sensor_data@,
            temperature_c,
            humidity,
            now as int,
        ) && final(ctx).user == old(ctx).user && final(ctx).access == old(ctx).access,
        result is Ok && old(ctx).sensor_data@.wf() ==> final(ctx).sensor_data@.wf(),
{
    if !ctx.sensor_data.is_on {
        return Err(ErrorCode::MachineNotOn);
    }
    if ctx.sensor_data.readings.len() >= SensorData::MAX_READINGS {
        return Err(ErrorCode::CapacityExceeded);
    }
    match gate(ctx.access) {
        Err(error) => {
            return Err(error);
        },
        Ok(_) => {},
    }
    let ghost before = ctx.sensor_data.readings@;
    let new_reading = SensorReading { temperature_c, humidity, timestamp: now };
    ctx.sensor_data.readings.push(new_reading);
    ctx.sensor_data.total_readings += 1;
    assert(readings_view(ctx.sensor_data.readings@) =~= readings_view(before).push(
        SensorReadingView { temperature_c, humidity, timestamp: now as int },
    ));
    Ok(())
}

/// Whether an image reference is accepted, and why not. Of several reasons
/// the first in this order is given: the machine is off; the reference is
/// too long; the record holds as many references as it has room for; the
/// executing context does not own the record.
pub open spec fn add_image_verdict(
    sensor: SensorDataView,
    image_uri: Seq<char>,
    access: Access,
) -> Result<(), ErrorCode> {
    if !sensor.is_on {
        Err(ErrorCode::MachineNotOn)
    } else if encode_utf8(image_uri).len() > SensorData::MAX_URI_LENGTH {
        Err(ErrorCode::UriTooLong)
    } else if sensor.image_data.len() >= SensorData::MAX_IMAGES {
        Err(ErrorCode::CapacityExceeded)
    } else {
        gate_verdict(access)
    }
}

/// The record after an accepted image reference.
pub open spec fn after_add_image(sensor: SensorDataView, image_uri: Seq<char>, now: int) -> SensorDataView {
    SensorDataView {
        image_data: sensor.image_data.push(ImageDataView { image_uri, timestamp: now }),
        ..sensor
    }
}

/// Appends an image reference, taken at the logical time `now`, to the
/// record of a machine that is on. A refused reference changes nothing.
pub fn add_image(ctx: &mut AddData, image_uri: String, now: i64) -> (result: Result<(), ErrorCode>)
    ensures
        result == add_image_verdict(old(ctx).sensor_data@, image_uri@, old(ctx).access),
        result is Err ==> *final(ctx) == *old(ctx),
        result is Ok ==> final(ctx).sensor_data@ == after_add_image(
            old(ctx).sensor_data@,
            image_uri@,
            now as int,
        ) && final(ctx).user == old(ctx).user && final(ctx).access == old(ctx).access,
        result is Ok && old(ctx).sensor_data@.wf() ==> final(ctx).sensor_data@.wf(),
{
    if !ctx.sensor_data.is_on {
        return Err(ErrorCode::MachineNotOn);
    }
    if byte_len(image_uri.as_str()) > SensorData::MAX_URI_LENGTH {
        return Err(ErrorCode::UriTooLong);
    }
    if ctx.sensor_data.image_data.len() >= SensorData::MAX_IMAGES {
        return Err(ErrorCode::CapacityExceeded);
    }
    match gate(ctx.access) {
        Err(error) => {
            return Err(error);
        },
        Ok(_) => {},
    }
    let ghost before = ctx.sensor_data.image_data@;
    let new_image = ImageData { image_uri, timestamp: now };
    ctx.sensor_data.image_data.push(new_image);
    proof {
        let after = images_view(ctx.sensor_data.image_data@);
        assert(after =~= images_view(before).push(
            ImageDataView { image_uri: image_uri@, timestamp: now as int },
        ));
        if old(ctx).sensor_data@.wf() {
            assert forall|i: int| 0 <= i < after.len() implies encode_utf8(
                (#[trigger] after[i]).image_uri,
            ).len() <= SensorData::MAX_URI_LENGTH by {
                if i < before.len() {
                    assert(after[i] == images_view(before)[i]);
                }
            }
        }
    }
    Ok(())
}

/// What a delegation works on: who pays, the record of the resource, and
/// the sensor record whose id names it.
#[derive(Debug)]
pub struct DelegateInput {
    pub payer: Identity,
    pub pda: DelegationRecord,
    pub sensor_data: SensorData,
}

/// What a return works on: who pays, and the record of the resource.
#[derive(Debug)]
pub struct UndelegateAccounts {
    pub payer: Identity,
    pub pda: DelegationRecord,
}

/// Starts the handoff of a sensor record to the ephemeral context, under
/// the seeds of its machine. It must be owned by the base context and
/// stand under the key that those seeds derive. Returns what the
/// collaborator needs to carry the handoff out. A refused call changes
/// nothing.
pub fn delegate(ctx: &mut DelegateInput) -> (result: Result<DelegationTicket, DelegationError>)
    ensures
        delegate_verdict(old(ctx).pda@, machine_parts(old(ctx).sensor_data@.machine_id)) matches Err(
            error,
        ) ==> result == Err::<DelegationTicket, DelegationError>(error) && *final(ctx) == *old(ctx),
        delegate_verdict(old(ctx).pda@, machine_parts(old(ctx).sensor_data@.machine_id)) is Ok
            ==> result is Ok && final(ctx).pda@ == delegating(old(ctx).pda@) && final(ctx).payer
            == old(ctx).payer && final(ctx).sensor_data == old(ctx).sensor_data && ticket_for(
            result->Ok_0,
            old(ctx).pda@,
            machine_parts(old(ctx).sensor_data@.machine_id),
            old(ctx).payer,
        ),
{
    let payer = ctx.payer;
    let seeds = machine_seeds(ctx.sensor_data.machine_id.as_str());
    request_delegation(&mut ctx.pda, payer, seeds)
}

/// Starts, or starts again, the return of the resource to the base
/// context. It must be owned by the ephemeral context or be on its way
/// back already. A refused call changes nothing.
pub fn undelegate(ctx: &mut UndelegateAccounts) -> (result: Result<CommitRequest, DelegationError>)
    ensures
        undelegate_verdict(old(ctx).pda@) matches Err(error) ==> result == Err::<
            CommitRequest,
            DelegationError,
        >(error) && *final(ctx) == *old(ctx),
        undelegate_verdict(old(ctx).pda@) is Ok ==> result is Ok && final(ctx).pda@ == committing(
            old(ctx).pda@,
        ) && final(ctx).payer == old(ctx).payer && request_for(
            result->Ok_0,
            seq![old(ctx).pda@.key],
            old(ctx).payer,
        ),
{
    let payer = ctx.payer;
    request_undelegation(&mut ctx.pda, payer)
}

/// Nothing is written without ownership: a switch, a reading and an image
/// reference are accepted only if the delegation controller granted the
/// executing context access to the record.
pub proof fn law_writes_need_ownership(
    sensor: SensorDataView,
    on: bool,
    image_uri: Seq<char>,
    access: Access,
)
    ensures
        toggle_verdict(sensor, on, access) is Ok ==> access == Access::Granted,
        add_data_verdict(sensor, access) is Ok ==> access == Access::Granted,
        add_image_verdict(sensor, image_uri, access) is Ok ==> access == Access::Granted,
{
}

} // verus!
