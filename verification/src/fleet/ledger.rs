//! The telemetry ledger: uploads and uses of entries.

use crate::fleet::accounts::{UploadData, UploadDataView, UseData, UseDataView};
use crate::fleet::registry::is_registered;
use crate::fleet::state::{
    gate, gate_verdict, identifier_fits, image_view, log_view, registered, ClusterView, DataEntry,
    DataEntryView, ErrorCode, IoTDataView, MachineView, PlantDataView, IMAGE_REWARD,
    MAX_IDENTIFIER_LEN, MAX_IMAGE_URL_LEN, UPLOAD_REWARD, USE_REWARD,
};
use crate::key::{byte_len, machine_key, plant_key};
use vstd::prelude::*;
use vstd::utf8::encode_utf8;

verus! {

/// The reward that one accepted upload earns.
pub open spec fn upload_reward(has_image: bool) -> nat {
    if has_image {
        (UPLOAD_REWARD + IMAGE_REWARD) as nat
    } else {
        UPLOAD_REWARD as nat
    }
}

/// Whether an image reference is short enough to be stored.
pub open spec fn image_fits(image_url: Option<Seq<char>>) -> bool {
    image_url matches Some(url) ==> encode_utf8(url).len() <= MAX_IMAGE_URL_LEN
}

/// Whether an upload is accepted, and why not. Of several reasons the
/// first in this order is given: the machine is off; an identifier is too
/// long; the plant is not in the registry; the plant belongs to another
/// machine; the ledger belongs to another machine or plant; the image
/// reference is too long; the ledger is full; the executing context does not
/// own the working set.
pub open spec fn upload_verdict(ctx: UploadDataView, image_url: Option<Seq<char>>) -> Result<
    (),
    ErrorCode,
> {
    if !ctx.machine.is_active {
        Err(ErrorCode::MachineNotActive)
    } else if !identifier_fits(ctx.machine.machine_id) || !identifier_fits(ctx.plant.plant_name) {
        Err(ErrorCode::IdentifierTooLong)
    } else if !registered(ctx.cluster.plants, ctx.plant.plant_name) {
        Err(ErrorCode::UnregisteredPlant)
    } else if ctx.plant.machine != ctx.machine.key() {
        Err(ErrorCode::PlantNotLinkedToMachine)
    } else if !ctx.data.unbound() && (ctx.data.machine != ctx.machine.key() || ctx.data.plant
        != ctx.plant.key()) {
        Err(ErrorCode::LedgerNotLinked)
    } else if !image_fits(image_url) {
        Err(ErrorCode::ImageUrlTooLong)
    } else if ctx.data.data_entries.len() >= ctx.data.max_entries {
        Err(ErrorCode::CapacityExceeded)
    } else {
        gate_verdict(ctx.access)
    }
}

/// Whether the counters that an accepted upload raises have room for it.
pub open spec fn upload_headroom(ctx: UploadDataView, has_image: bool) -> bool {
    &&& ctx.cluster.total_data_uploads < u64::MAX
    &&& ctx.machine.data_count < u64::MAX
    &&& ctx.plant.data_count < u64::MAX
    &&& ctx.machine.rewards_earned + upload_reward(has_image) <= u64::MAX
    &&& has_image ==> ctx.machine.image_count < u64::MAX && ctx.plant.image_count < u64::MAX
}

/// Whether the counters that an accepted upload raises have room for it.
pub fn has_upload_headroom(ctx: &UploadData, has_image: bool) -> (room: bool)
    ensures
        room == upload_headroom(ctx@, has_image),
{
    let reward: u64 = if has_image {
        UPLOAD_REWARD + IMAGE_REWARD
    } else {
        UPLOAD_REWARD
    };
    ctx.cluster.total_data_uploads < u64::MAX && ctx.machine.data_count < u64::MAX
        && ctx.plant.data_count < u64::MAX && ctx.machine.rewards_earned <= u64::MAX - reward && (
    !has_image || (ctx.machine.image_count < u64::MAX && ctx.plant.image_count < u64::MAX))
}

/// The entry that an upload appends.
pub open spec fn uploaded_entry(
    temperature: u64,
    humidity: u64,
    image_url: Option<Seq<char>>,
    now: int,
) -> DataEntryView {
    DataEntryView { timestamp: now, temperature, humidity, image_url, used_count: 0 }
}

/// The machine after an accepted upload.
pub open spec fn machine_after_upload(machine: MachineView, has_image: bool, now: int) -> MachineView {
    MachineView {
        data_count: machine.data_count + 1,
        last_data_timestamp: now,
        image_count: if has_image {
            machine.image_count + 1
        } else {
            machine.image_count
        },
        last_image_timestamp: if has_image {
            now
        } else {
            machine.last_image_timestamp
        },
        rewards_earned: machine.rewards_earned + upload_reward(has_image),
        ..machine
    }
}

/// The plant after an accepted upload.
pub open spec fn plant_after_upload(plant: PlantDataView, has_image: bool, now: int) -> PlantDataView {
    PlantDataView {
        data_count: plant.data_count + 1,
        last_update_timestamp: now,
        image_count: if has_image {
            plant.image_count + 1
        } else {
            plant.image_count
        },
        ..plant
    }
}

/// The working set after an accepted upload: the ledger, given to the
/// machine and the plant if it was new, holds one more entry at its end,
/// and the counters of machine, plant and registry have moved.
pub open spec fn after_upload(
    ctx: UploadDataView,
    temperature: u64,
    humidity: u64,
    image_url: Option<Seq<char>>,
    now: int,
) -> UploadDataView {
    UploadDataView {
        cluster: ClusterView {
            total_data_uploads: ctx.cluster.total_data_uploads + 1,
            ..ctx.cluster
        },
        machine: machine_after_upload(ctx.machine, image_url is Some, now),
        plant: plant_after_upload(ctx.plant, image_url is Some, now),
        data: IoTDataView {
            machine: ctx.machine.key(),
            plant: ctx.plant.key(),
            data_entries: ctx.data.data_entries.push(
                uploaded_entry(temperature, humidity, image_url, now),
            ),
            ..ctx.data
        },
        ..ctx
    }
}

/// Records one telemetry entry of an active machine for one of its plants,
/// at the logical time `now`, and credits the reward for it. Returns the
/// index of the new entry. A refused upload changes nothing.
pub fn upload_data(
    ctx: &mut UploadData,
    temperature: u64,
    humidity: u64,
    image_url: Option<String>,
    now: i64,
) -> (result: Result<u64, ErrorCode>)
    requires
        upload_verdict(old(ctx)@, image_view(image_url)) is Ok ==> upload_headroom(
            old(ctx)@,
            image_url is Some,
        ),
    ensures
        upload_verdict(old(ctx)@, image_view(image_url)) matches Err(error) ==> result == Err::<
            u64,
            ErrorCode,
        >(error) && *final(ctx) == *old(ctx),
        upload_verdict(old(ctx)@, image_view(image_url)) is Ok ==> result == Ok::<u64, ErrorCode>(
            old(ctx)@.data.data_entries.len() as u64,
        ) && final(ctx)@ == after_upload(
            old(ctx)@,
            temperature,
            humidity,
            image_view(image_url),
            now as int,
        ),
{
    if !ctx.machine.is_active {
        return Err(ErrorCode::MachineNotActive);
    }
    if byte_len(ctx.machine.machine_id.as_str()) > MAX_IDENTIFIER_LEN || byte_len(
        ctx.plant.plant_name.as_str(),
    ) > MAX_IDENTIFIER_LEN {
        return Err(ErrorCode::IdentifierTooLong);
    }
    if !is_registered(&ctx.cluster.plants, &ctx.plant.plant_name) {
        return Err(ErrorCode::UnregisteredPlant);
    }
    let machine_key = machine_key(ctx.machine.machine_id.as_str()).unwrap();
    let plant_key = plant_key(ctx.plant.plant_name.as_str()).unwrap();
    if ctx.plant.machine != machine_key {
        return Err(ErrorCode::PlantNotLinkedToMachine);
    }
    let unbound = ctx.data.data_entries.len() == 0 && ctx.data.machine.is_unset();
    if !unbound && (ctx.data.machine != machine_key || ctx.data.plant != plant_key) {
        return Err(ErrorCode::LedgerNotLinked);
    }
    let has_image = match &image_url {
        Some(url) => {
            if byte_len(url.as_str()) > MAX_IMAGE_URL_LEN {
                return Err(ErrorCode::ImageUrlTooLong);
            }
            true
        },
        None => false,
    };
    let index = ctx.data.data_entries.len();
    if index as u64 >= ctx.data.max_entries {
        return Err(ErrorCode::CapacityExceeded);
    }
    match gate(ctx.access) {
        Err(error) => {
            return Err(error);
        },
        Ok(_) => {},
    }
    let ghost before = ctx.data.data_entries@;
    let ghost image = image_view(image_url);
    if unbound {
        ctx.data.machine = machine_key;
        ctx.data.plant = plant_key;
    }
    let entry = DataEntry { timestamp: now, temperature, humidity, image_url, used_count: 0 };
    ctx.data.data_entries.push(entry);
    ctx.machine.data_count += 1;
    ctx.machine.last_data_timestamp = now;
    ctx.plant.data_count += 1;
    ctx.plant.last_update_timestamp = now;
    ctx.cluster.total_data_uploads += 1;
    if has_image {
        ctx.machine.image_count += 1;
        ctx.plant.image_count += 1;
        ctx.machine.last_image_timestamp = now;
        ctx.machine.rewards_earned += IMAGE_REWARD;
    }
    ctx.machine.rewards_earned += UPLOAD_REWARD;
    proof {
        assert(log_view(ctx.data.data_entries@) =~= log_view(before).push(
            uploaded_entry(temperature, humidity, image, now as int),
        ));
    }
    Ok(index as u64)
}

/// Whether a use of an entry is accepted, and why not. Of several reasons
/// the first in this order is given: the ledger has no entry at the index;
/// the id of the machine is too long; the ledger belongs to another
/// machine; the executing context does not own the working set.
pub open spec fn use_verdict(ctx: UseDataView, entry_index: u64) -> Result<(), ErrorCode> {
    if entry_index >= ctx.data.data_entries.len() {
        Err(ErrorCode::InvalidDataEntryIndex)
    } else if !identifier_fits(ctx.machine.machine_id) {
        Err(ErrorCode::IdentifierTooLong)
    } else if ctx.data.machine != ctx.machine.key() {
        Err(ErrorCode::LedgerNotLinked)
    } else {
        gate_verdict(ctx.access)
    }
}

/// Whether the counters that an accepted use raises have room for it.
pub open spec fn use_headroom(ctx: UseDataView, entry_index: u64) -> bool {
    &&& ctx.data.data_entries[entry_index as int].used_count < u64::MAX
    &&& ctx.machine.data_used_count < u64::MAX
    &&& ctx.cluster.data_request_count < u64::MAX
    &&& ctx.machine.rewards_earned + USE_REWARD <= u64::MAX
}

/// Whether the counters that a use of the entry at the index raises have
/// room for it. There is none for an entry that the ledger does not hold.
pub fn has_use_headroom(ctx: &UseData, entry_index: u64) -> (room: bool)
    ensures
        room == (entry_index < ctx@.data.data_entries.len() && use_headroom(ctx@, entry_index)),
{
    if entry_index >= ctx.data.data_entries.len() as u64 {
        return false;
    }
    let at = entry_index as usize;
    assert(log_view(ctx.data.data_entries@)[at as int] == ctx.data.data_entries@[at as int]@);
    ctx.data.data_entries[at].used_count < u64::MAX && ctx.machine.data_used_count < u64::MAX
        && ctx.cluster.data_request_count < u64::MAX && ctx.machine.rewards_earned <= u64::MAX
        - USE_REWARD
}

/// An entry after it was used once more: nothing but its counter moves.
pub open spec fn entry_after_use(entry: DataEntryView) -> DataEntryView {
    DataEntryView { used_count: entry.used_count + 1, ..entry }
}

/// The working set after an accepted use: the entry was used once more,
/// and the machine and the registry have counted and paid the use.
pub open spec fn after_use(ctx: UseDataView, entry_index: u64) -> UseDataView {
    UseDataView {
        cluster: ClusterView {
            data_request_count: ctx.cluster.data_request_count + 1,
            ..ctx.cluster
        },
        machine: MachineView {
            data_used_count: ctx.machine.data_used_count + 1,
            rewards_earned: ctx.machine.rewards_earned + USE_REWARD as nat,
            ..ctx.machine
        },
        data: IoTDataView {
            data_entries: ctx.data.data_entries.update(
                entry_index as int,
                entry_after_use(ctx.data.data_entries[entry_index as int]),
            ),
            ..ctx.data
        },
        ..ctx
    }
}

/// Counts one use of the entry at the index and credits the machine that
/// the ledger belongs to. Every call counts and pays, also a second one for the same entry.
/// A refused use changes nothing.
pub fn use_data(ctx: &mut UseData, entry_index: u64) -> (result: Result<(), ErrorCode>)
    requires
        use_verdict(old(ctx)@, entry_index) is Ok ==> use_headroom(old(ctx)@, entry_index),
    ensures
        result == use_verdict(old(ctx)@, entry_index),
        result is Err ==> *final(ctx) == *old(ctx),
        result is Ok ==> final(ctx)@ == after_use(old(ctx)@, entry_index),
{
    let held = ctx.data.data_entries.len();
    if entry_index >= held as u64 {
        return Err(ErrorCode::InvalidDataEntryIndex);
    }
    if byte_len(ctx.machine.machine_id.as_str()) > MAX_IDENTIFIER_LEN {
        return Err(ErrorCode::IdentifierTooLong);
    }
    if ctx.data.machine != machine_key(ctx.machine.machine_id.as_str()).unwrap() {
        return Err(ErrorCode::LedgerNotLinked);
    }
    match gate(ctx.access) {
        Err(error) => {
            return Err(error);
        },
        Ok(_) => {},
    }
    let at = entry_index as usize;
    let ghost before = ctx.data.data_entries@;
    assert(log_view(before)[at as int] == before[at as int]@);
    ctx.data.data_entries[at].used_count += 1;
    ctx.machine.data_used_count += 1;
    ctx.cluster.data_request_count += 1;
    ctx.machine.rewards_earned += USE_REWARD;
    proof {
        assert(log_view(ctx.data.data_entries@) =~= log_view(before).update(
            at as int,
            entry_after_use(log_view(before)[at as int]),
        ));
    }
    Ok(())
}

} // verus!
