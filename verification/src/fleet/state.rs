//! The records of the fleet registry and their mathematical models.

use crate::delegation::Access;
use crate::identity::Identity;
use crate::key::{framed, machine_parts, plant_parts, ResourceKey};
use vstd::prelude::*;
use vstd::utf8::encode_utf8;

verus! {

/// Longest machine id or plant name, in bytes.
pub const MAX_IDENTIFIER_LEN: usize = 32;

/// Longest image reference of a telemetry entry, in bytes.
pub const MAX_IMAGE_URL_LEN: usize = 96;

/// Reward credited for every accepted upload.
pub const UPLOAD_REWARD: u64 = 1;

/// Reward credited on top for an upload that carries an image reference.
pub const IMAGE_REWARD: u64 = 10;

/// Reward credited for every use of a telemetry entry.
pub const USE_REWARD: u64 = 2;

/// The model of a catalog: names with the keys of what they name, in the
/// order in which they were registered.
pub open spec fn entries_view(entries: Seq<(String, ResourceKey)>) -> Seq<(Seq<char>, Seq<u8>)> {
    entries.map_values(|entry: (String, ResourceKey)| (entry.0@, entry.1@))
}

/// Whether a catalog holds the name.
pub open spec fn registered(entries: Seq<(Seq<char>, Seq<u8>)>, name: Seq<char>) -> bool {
    exists|i: int| 0 <= i < entries.len() && (#[trigger] entries[i]).0 == name
}

/// Whether no name occurs twice in a catalog.
pub open spec fn names_unique(entries: Seq<(Seq<char>, Seq<u8>)>) -> bool {
    forall|i: int, j: int|
        0 <= i < j < entries.len() ==> (#[trigger] entries[i]).0 != (#[trigger] entries[j]).0
}

/// The key of the machine with the given id.
pub open spec fn machine_key_of(machine_id: Seq<char>) -> Seq<u8> {
    framed(machine_parts(machine_id))
}

/// The key of the plant with the given name.
pub open spec fn plant_key_of(plant_name: Seq<char>) -> Seq<u8> {
    framed(plant_parts(plant_name))
}

/// Whether an identifier is short enough to be registered.
pub open spec fn identifier_fits(identifier: Seq<char>) -> bool {
    encode_utf8(identifier).len() <= MAX_IDENTIFIER_LEN
}

/// The number of slots a catalog is given when it must hold `needed`
/// entries: what it has while that is enough, else twice as many, never
/// fewer than needed nor more than the limit.
pub open spec fn planned_slots(slots: nat, needed: nat, limit: nat) -> nat {
    if needed <= slots {
        slots
    } else if 2 * slots < needed {
        needed
    } else if 2 * slots > limit {
        limit
    } else {
        2 * slots
    }
}

/// The registry singleton: the catalog of machines and plants with the
/// counters of the whole system.
#[derive(Debug)]
pub struct Cluster {
    pub authority: Identity,
    pub machine_count: u64,
    pub total_data_uploads: u64,
    pub data_request_count: u64,
    pub plant_count: u64,
    pub machines: Vec<(String, ResourceKey)>,
    pub plants: Vec<(String, ResourceKey)>,
    /// Entry slots that the backing store of `machines` has room for.
    pub machine_slots: u64,
    /// Entry slots that the backing store of `plants` has room for.
    pub plant_slots: u64,
    /// Most machines this registry will ever hold, fixed when it is created.
    pub max_machines: u64,
    /// Most plants this registry will ever hold, fixed when it is created.
    pub max_plants: u64,
}

pub struct ClusterView {
    pub authority: Seq<u8>,
    pub machine_count: nat,
    pub total_data_uploads: nat,
    pub data_request_count: nat,
    pub plant_count: nat,
    pub machines: Seq<(Seq<char>, Seq<u8>)>,
    pub plants: Seq<(Seq<char>, Seq<u8>)>,
    pub machine_slots: nat,
    pub plant_slots: nat,
    pub max_machines: nat,
    pub max_plants: nat,
}

impl View for Cluster {
    type V = ClusterView;

    open spec fn view(&self) -> ClusterView {
        ClusterView {
            authority: self.authority@,
            machine_count: self.machine_count as nat,
            total_data_uploads: self.total_data_uploads as nat,
            data_request_count: self.data_request_count as nat,
            plant_count: self.plant_count as nat,
            machines: entries_view(self.machines@),
            plants: entries_view(self.plants@),
            machine_slots: self.machine_slots as nat,
            plant_slots: self.plant_slots as nat,
            max_machines: self.max_machines as nat,
            max_plants: self.max_plants as nat,
        }
    }
}

impl ClusterView {
    /// The invariant of the registry: the counters count the catalogs, no
    /// identifier occurs twice, every entry sits under the key derived from
    /// its identifier, and the catalogs fit their slots and their limits.
    pub open spec fn wf(self) -> bool {
        &&& self.machine_count == self.machines.len()
        &&& self.plant_count == self.plants.len()
        &&& names_unique(self.machines)
        &&& names_unique(self.plants)
        &&& forall|i: int|
            0 <= i < self.machines.len() ==> (#[trigger] self.machines[i]).1 == machine_key_of(
                self.machines[i].0,
            )
        &&& forall|i: int|
            0 <= i < self.plants.len() ==> (#[trigger] self.plants[i]).1 == plant_key_of(
                self.plants[i].0,
            )
        &&& self.machines.len() <= self.machine_slots <= self.max_machines
        &&& self.plants.len() <= self.plant_slots <= self.max_plants
    }
}

/// A registered field device.
#[derive(Debug)]
pub struct Machine {
    pub owner: Identity,
    pub machine_id: String,
    pub is_active: bool,
    pub data_count: u64,
    pub image_count: u64,
    pub rewards_earned: u64,
    pub last_data_timestamp: i64,
    pub last_image_timestamp: i64,
    pub data_used_count: u64,
    pub plants: Vec<(String, ResourceKey)>,
    pub plant_count: u64,
}

pub struct MachineView {
    pub owner: Seq<u8>,
    pub machine_id: Seq<char>,
    pub is_active: bool,
    pub data_count: nat,
    pub image_count: nat,
    pub rewards_earned: nat,
    pub last_data_timestamp: int,
    pub last_image_timestamp: int,
    pub data_used_count: nat,
    pub plants: Seq<(Seq<char>, Seq<u8>)>,
    pub plant_count: nat,
}

impl View for Machine {
    type V = MachineView;

    open spec fn view(&self) -> MachineView {
        MachineView {
            owner: self.owner@,
            machine_id: self.machine_id@,
            is_active: self.is_active,
            data_count: self.data_count as nat,
            image_count: self.image_count as nat,
            rewards_earned: self.rewards_earned as nat,
            last_data_timestamp: self.last_data_timestamp as int,
            last_image_timestamp: self.last_image_timestamp as int,
            data_used_count: self.data_used_count as nat,
            plants: entries_view(self.plants@),
            plant_count: self.plant_count as nat,
        }
    }
}

impl MachineView {
    /// The key under which the machine is stored.
    pub open spec fn key(self) -> Seq<u8> {
        machine_key_of(self.machine_id)
    }

    /// The machine as registration leaves it: switched off, with every
    /// counter at zero.
    pub open spec fn fresh(owner: Seq<u8>, machine_id: Seq<char>) -> MachineView {
        MachineView {
            owner,
            machine_id,
            is_active: false,
            data_count: 0,
            image_count: 0,
            rewards_earned: 0,
            last_data_timestamp: 0,
            last_image_timestamp: 0,
            data_used_count: 0,
            plants: Seq::empty(),
            plant_count: 0,
        }
    }
}

/// A cultivation unit that telemetry is reported against.
#[derive(Debug)]
pub struct PlantData {
    pub creator: Identity,
    pub plant_name: String,
    pub data_count: u64,
    pub image_count: u64,
    pub creation_timestamp: i64,
    pub last_update_timestamp: i64,
    /// The key of the one machine that reports on this plant.
    pub machine: ResourceKey,
}

pub struct PlantDataView {
    pub creator: Seq<u8>,
    pub plant_name: Seq<char>,
    pub data_count: nat,
    pub image_count: nat,
    pub creation_timestamp: int,
    pub last_update_timestamp: int,
    pub machine: Seq<u8>,
}

impl View for PlantData {
    type V = PlantDataView;

    open spec fn view(&self) -> PlantDataView {
        PlantDataView {
            creator: self.creator@,
            plant_name: self.plant_name@,
            data_count: self.data_count as nat,
            image_count: self.image_count as nat,
            creation_timestamp: self.creation_timestamp as int,
            last_update_timestamp: self.last_update_timestamp as int,
            machine: self.machine@,
        }
    }
}

impl PlantDataView {
    /// The key under which the plant is stored.
    pub open spec fn key(self) -> Seq<u8> {
        plant_key_of(self.plant_name)
    }
}

/// One telemetry record. The two readings are kept as the bit patterns of
/// the double-precision numbers that the device sent.
#[derive(Debug)]
pub struct DataEntry {
    pub timestamp: i64,
    pub temperature: u64,
    pub humidity: u64,
    pub image_url: Option<String>,
    pub used_count: u64,
}

pub struct DataEntryView {
    pub timestamp: int,
    pub temperature: u64,
    pub humidity: u64,
    pub image_url: Option<Seq<char>>,
    pub used_count: nat,
}

/// The model of an optional image reference.
pub open spec fn image_view(image_url: Option<String>) -> Option<Seq<char>> {
    match image_url {
        Some(url) => Some(url@),
        None => None,
    }
}

impl View for DataEntry {
    type V = DataEntryView;

    open spec fn view(&self) -> DataEntryView {
        DataEntryView {
            timestamp: self.timestamp as int,
            temperature: self.temperature,
            humidity: self.humidity,
            image_url: image_view(self.image_url),
            used_count: self.used_count as nat,
        }
    }
}

/// The telemetry ledger of one machine and one plant: an append-only log
/// with room for a fixed number of entries.
#[derive(Debug)]
pub struct IoTData {
    pub machine: ResourceKey,
    pub plant: ResourceKey,
    pub data_entries: Vec<DataEntry>,
    /// Most entries the ledger will ever hold, fixed when it is created.
    pub max_entries: u64,
}

pub struct IoTDataView {
    pub machine: Seq<u8>,
    pub plant: Seq<u8>,
    pub data_entries: Seq<DataEntryView>,
    pub max_entries: nat,
}

/// The models of the entries of a ledger, in order.
pub open spec fn log_view(entries: Seq<DataEntry>) -> Seq<DataEntryView> {
    entries.map_values(|entry: DataEntry| entry@)
}

impl View for IoTData {
    type V = IoTDataView;

    open spec fn view(&self) -> IoTDataView {
        IoTDataView {
            machine: self.machine@,
            plant: self.plant@,
            data_entries: log_view(self.data_entries@),
            max_entries: self.max_entries as nat,
        }
    }
}

impl IoTDataView {
    /// Whether the ledger has not been given to a machine and a plant yet.
    pub open spec fn unbound(self) -> bool {
        self.data_entries.len() == 0 && self.machine.len() == 0
    }

    /// The invariant of a ledger: it never holds more than its capacity.
    pub open spec fn wf(self) -> bool {
        self.data_entries.len() <= self.max_entries
    }
}

/// Why an operation of the fleet registry was refused.
#[derive(Clone, Copy, Debug, PartialEq, Eq, Structural)]
pub enum ErrorCode {
    /// The machine id is already registered.
    MachineIdAlreadyExists,
    /// The caller is not the identity that the operation asks for.
    Unauthorized,
    /// The machine is switched off.
    MachineNotActive,
    /// The machine has no rewards to claim.
    NoRewardsAvailable,
    /// The plant is not in the registry.
    UnregisteredPlant,
    /// The ledger has no entry at the index.
    InvalidDataEntryIndex,
    /// The plant belongs to another machine.
    PlantNotLinkedToMachine,
    /// The plant name is already registered.
    PlantNameAlreadyExists,
    /// The machine is not in the registry.
    UnregisteredMachine,
    /// A machine id or a plant name is longer than `MAX_IDENTIFIER_LEN`.
    IdentifierTooLong,
    /// An image reference is longer than `MAX_IMAGE_URL_LEN`.
    ImageUrlTooLong,
    /// The registry or the ledger already holds as much as it was created for.
    CapacityExceeded,
    /// The ledger belongs to another machine or plant.
    LedgerNotLinked,
    /// A resource of the working set is being handed over: try again later.
    ResourceInTransit,
    /// A resource of the working set is owned by the other execution context.
    ResourceDelegated,
}

impl ErrorCode {
    /// The message of the error.
    pub fn message(&self) -> (text: &'static str)
        ensures
            text@ == error_message(*self),
    {
        match self {
            ErrorCode::MachineIdAlreadyExists => "Machine ID already exists",
            ErrorCode::Unauthorized => "Unauthorized operation",
            ErrorCode::MachineNotActive => "Machine is not active",
            ErrorCode::NoRewardsAvailable => "No rewards available to claim",
            ErrorCode::UnregisteredPlant => "Unregistered plant",
            ErrorCode::InvalidDataEntryIndex => "Invalid data entry index",
            ErrorCode::PlantNotLinkedToMachine => "Plant not linked to the specified machine",
            ErrorCode::PlantNameAlreadyExists => "Plant name already exists",
            ErrorCode::UnregisteredMachine => "Unregistered machine",
            ErrorCode::IdentifierTooLong => "Identifier is too long",
            ErrorCode::ImageUrlTooLong => "Image URL is too long",
            ErrorCode::CapacityExceeded => "Capacity exceeded",
            ErrorCode::LedgerNotLinked => "Ledger not linked to the specified machine and plant",
            ErrorCode::ResourceInTransit => "Resource is being handed over",
            ErrorCode::ResourceDelegated => "Resource is owned by the other context",
        }
    }
}

/// The message that belongs to each error.
pub open spec fn error_message(error: ErrorCode) -> Seq<char> {
    match error {
        ErrorCode::MachineIdAlreadyExists => "Machine ID already exists"@,
        ErrorCode::Unauthorized => "Unauthorized operation"@,
        ErrorCode::MachineNotActive => "Machine is not active"@,
        ErrorCode::NoRewardsAvailable => "No rewards available to claim"@,
        ErrorCode::UnregisteredPlant => "Unregistered plant"@,
        ErrorCode::InvalidDataEntryIndex => "Invalid data entry index"@,
        ErrorCode::PlantNotLinkedToMachine => "Plant not linked to the specified machine"@,
        ErrorCode::PlantNameAlreadyExists => "Plant name already exists"@,
        ErrorCode::UnregisteredMachine => "Unregistered machine"@,
        ErrorCode::IdentifierTooLong => "Identifier is too long"@,
        ErrorCode::ImageUrlTooLong => "Image URL is too long"@,
        ErrorCode::CapacityExceeded => "Capacity exceeded"@,
        ErrorCode::LedgerNotLinked => "Ledger not linked to the specified machine and plant"@,
        ErrorCode::ResourceInTransit => "Resource is being handed over"@,
        ErrorCode::ResourceDelegated => "Resource is owned by the other context"@,
    }
}

/// What the answer of the delegation controller means for an operation
/// that is otherwise in order: it goes ahead only if the executing context
/// owns every resource that it writes.
pub open spec fn gate_verdict(access: Access) -> Result<(), ErrorCode> {
    match access {
        Access::Granted => Ok(()),
        Access::Retry => Err(ErrorCode::ResourceInTransit),
        Access::Refused => Err(ErrorCode::ResourceDelegated),
    }
}

/// Lets an operation through if the delegation controller granted the
/// executing context access to its working set.
pub fn gate(access: Access) -> (result: Result<(), ErrorCode>)
    ensures
        result == gate_verdict(access),
{
    match access {
        Access::Granted => Ok(()),
        Access::Retry => Err(ErrorCode::ResourceInTransit),
        Access::Refused => Err(ErrorCode::ResourceDelegated),
    }
}

} // verus!
