//! The registry: creating it, registering machines, creating plants, and
//! switching machines on and off.

use crate::fleet::accounts::{
    ControlMachine, ControlMachineView, CreatePlant, CreatePlantView, Initialize, RegisterMachine,
    RegisterMachineView,
};
use crate::fleet::state::{
    entries_view, gate, gate_verdict, identifier_fits, machine_key_of, planned_slots,
    plant_key_of, registered,
    ClusterView, ErrorCode, MachineView, PlantDataView, MAX_IDENTIFIER_LEN,
};
use crate::identity::{authorize, authorized};
use crate::key::{byte_len, machine_key, plant_key, ResourceKey};
use vstd::prelude::*;

verus! {

/// Whether a catalog holds the name.
pub fn is_registered(entries: &Vec<(String, ResourceKey)>, name: &String) -> (found: bool)
    ensures
        found == registered(entries_view(entries@), name@),
{
    let mut i: usize = 0;
    while i < entries.len()
        invariant
            i <= entries.len(),
            forall|j: int| 0 <= j < i ==> (#[trigger] entries_view(entries@)[j]).0 != name@,
        decreases entries.len() - i,
    {
        if entries[i].0 == *name {
            assert(entries_view(entries@)[i as int].0 == name@);
            return true;
        }
        i += 1;
    }
    false
}

/// Plans the slots of a catalog that must hold `needed` entries.
pub fn plan_slots(slots: u64, needed: u64, limit: u64) -> (planned: u64)
    ensures
        planned == planned_slots(slots as nat, needed as nat, limit as nat),
{
    if needed <= slots {
        slots
    } else {
        match slots.checked_mul(2) {
            None => limit,
            Some(doubled) => {
                if doubled < needed {
                    needed
                } else if doubled > limit {
                    limit
                } else {
                    doubled
                }
            },
        }
    }
}

/// Planning never loses an entry: within the limit the planned slots hold
/// what is needed, are never fewer than before, and stay within the limit.
pub proof fn lemma_planned_slots_hold(slots: nat, needed: nat, limit: nat)
    requires
        slots <= limit,
        needed <= limit,
    ensures
        needed <= planned_slots(slots, needed, limit) <= limit,
        slots <= planned_slots(slots, needed, limit),
{
}

/// The registry as it is created: empty, with the limits it will keep.
pub open spec fn fresh_cluster(authority: Seq<u8>, max_machines: nat, max_plants: nat) -> ClusterView {
    ClusterView {
        authority,
        machine_count: 0,
        total_data_uploads: 0,
        data_request_count: 0,
        plant_count: 0,
        machines: Seq::empty(),
        plants: Seq::empty(),
        machine_slots: 0,
        plant_slots: 0,
        max_machines,
        max_plants,
    }
}

/// Creates the registry for the given authority. It starts empty and will
/// never hold more than `max_machines` machines and `max_plants` plants.
pub fn initialize(ctx: &mut Initialize, max_machines: u64, max_plants: u64)
    ensures
        final(ctx)@.cluster == fresh_cluster(
            old(ctx)@.authority,
            max_machines as nat,
            max_plants as nat,
        ),
        final(ctx)@.authority == old(ctx)@.authority,
        final(ctx)@.cluster.wf(),
{
    ctx.cluster.authority = ctx.authority;
    ctx.cluster.machine_count = 0;
    ctx.cluster.total_data_uploads = 0;
    ctx.cluster.data_request_count = 0;
    ctx.cluster.plant_count = 0;
    ctx.cluster.machines = Vec::new();
    ctx.cluster.plants = Vec::new();
    ctx.cluster.machine_slots = 0;
    ctx.cluster.plant_slots = 0;
    ctx.cluster.max_machines = max_machines;
    ctx.cluster.max_plants = max_plants;
    assert(entries_view(ctx.cluster.machines@) =~= Seq::empty());
    assert(entries_view(ctx.cluster.plants@) =~= Seq::empty());
}

/// Whether a registration is accepted, and why not. Of several reasons the
/// first in this order is given: the id is taken; the id is too long; the
/// registry is full; the executing context does not own the working set.
pub open spec fn register_verdict(ctx: RegisterMachineView, machine_id: Seq<char>) -> Result<
    (),
    ErrorCode,
> {
    if registered(ctx.cluster.machines, machine_id) {
        Err(ErrorCode::MachineIdAlreadyExists)
    } else if !identifier_fits(machine_id) {
        Err(ErrorCode::IdentifierTooLong)
    } else if ctx.cluster.machines.len() >= ctx.cluster.max_machines {
        Err(ErrorCode::CapacityExceeded)
    } else {
        gate_verdict(ctx.access)
    }
}

/// The registry after the registration of a machine.
pub open spec fn cluster_after_register(cluster: ClusterView, machine_id: Seq<char>) -> ClusterView {
    ClusterView {
        machines: cluster.machines.push((machine_id, machine_key_of(machine_id))),
        machine_count: cluster.machine_count + 1,
        machine_slots: planned_slots(
            cluster.machine_slots,
            cluster.machines.len() + 1,
            cluster.max_machines,
        ),
        ..cluster
    }
}

/// The working set after an accepted registration.
pub open spec fn after_register(ctx: RegisterMachineView, machine_id: Seq<char>) -> RegisterMachineView {
    RegisterMachineView {
        cluster: cluster_after_register(ctx.cluster, machine_id),
        machine: MachineView::fresh(ctx.user, machine_id),
        ..ctx
    }
}

/// An accepted registration keeps the invariant of the registry.
pub proof fn lemma_register_keeps_wf(cluster: ClusterView, machine_id: Seq<char>)
    requires
        cluster.wf(),
        !registered(cluster.machines, machine_id),
        cluster.machines.len() < cluster.max_machines,
    ensures
        cluster_after_register(cluster, machine_id).wf(),
{
    let after = cluster_after_register(cluster, machine_id);
    lemma_planned_slots_hold(
        cluster.machine_slots,
        cluster.machines.len() + 1,
        cluster.max_machines,
    );
    assert forall|i: int, j: int| 0 <= i < j < after.machines.len() implies (
    #[trigger] after.machines[i]).0 != (#[trigger] after.machines[j]).0 by {
        if j < cluster.machines.len() {
            assert(after.machines[i] == cluster.machines[i]);
            assert(after.machines[j] == cluster.machines[j]);
        } else {
            assert(after.machines[i] == cluster.machines[i]);
        }
    }
    assert forall|i: int| 0 <= i < after.machines.len() implies (#[trigger] after.machines[i]).1
        == machine_key_of(after.machines[i].0) by {
        if i < cluster.machines.len() {
            assert(after.machines[i] == cluster.machines[i]);
        }
    }
}

/// Registers a machine under a new id. The caller becomes its owner; the
/// machine starts switched off with every counter at zero. Returns the key
/// of the machine. A refused registration changes nothing.
pub fn register_machine(ctx: &mut RegisterMachine, machine_id: String) -> (result: Result<
    ResourceKey,
    ErrorCode,
>)
    requires
        register_verdict(old(ctx)@, machine_id@) is Ok ==> old(ctx)@.cluster.machine_count
            < u64::MAX,
    ensures
        register_verdict(old(ctx)@, machine_id@) matches Err(error) ==> result == Err::<
            ResourceKey,
            ErrorCode,
        >(error) && *final(ctx) == *old(ctx),
        register_verdict(old(ctx)@, machine_id@) is Ok ==> result is Ok && result->Ok_0@
            == machine_key_of(machine_id@) && final(ctx)@ == after_register(
            old(ctx)@,
            machine_id@,
        ),
        old(ctx)@.cluster.wf() ==> final(ctx)@.cluster.wf(),
{
    if is_registered(&ctx.cluster.machines, &machine_id) {
        return Err(ErrorCode::MachineIdAlreadyExists);
    }
    if byte_len(machine_id.as_str()) > MAX_IDENTIFIER_LEN {
        return Err(ErrorCode::IdentifierTooLong);
    }
    let held = ctx.cluster.machines.len();
    if held as u64 >= ctx.cluster.max_machines {
        return Err(ErrorCode::CapacityExceeded);
    }
    match gate(ctx.access) {
        Err(error) => {
            return Err(error);
        },
        Ok(_) => {},
    }
    let key = machine_key(machine_id.as_str()).unwrap();
    let ghost before = ctx.cluster.machines@;
    proof {
        if old(ctx)@.cluster.wf() {
            lemma_register_keeps_wf(old(ctx)@.cluster, machine_id@);
        }
    }
    ctx.machine.owner = ctx.user;
    ctx.machine.machine_id = machine_id.clone();
    ctx.machine.is_active = false;
    ctx.machine.data_count = 0;
    ctx.machine.image_count = 0;
    ctx.machine.rewards_earned = 0;
    ctx.machine.last_data_timestamp = 0;
    ctx.machine.last_image_timestamp = 0;
    ctx.machine.data_used_count = 0;
    ctx.machine.plants = Vec::new();
    ctx.machine.plant_count = 0;
    ctx.cluster.machine_slots = plan_slots(
        ctx.cluster.machine_slots,
        held as u64 + 1,
        ctx.cluster.max_machines,
    );
    ctx.cluster.machines.push((machine_id, key.clone()));
    ctx.cluster.machine_count += 1;
    proof {
        assert(entries_view(ctx.machine.plants@) =~= Seq::empty());
        assert(entries_view(ctx.cluster.machines@) =~= entries_view(before).push(
            (machine_id@, machine_key_of(machine_id@)),
        ));
    }
    Ok(key)
}

/// Whether the creation of a plant is accepted, and why not. Of several
/// reasons the first in this order is given: the caller does not own the
/// machine; the name is taken; the machine is not in the registry; an
/// identifier is too long; the registry is full; the executing context does
/// not own the working set.
pub open spec fn create_plant_verdict(ctx: CreatePlantView, plant_name: Seq<char>) -> Result<
    (),
    ErrorCode,
> {
    if !authorized(ctx.user, ctx.machine.owner) {
        Err(ErrorCode::Unauthorized)
    } else if registered(ctx.cluster.plants, plant_name) {
        Err(ErrorCode::PlantNameAlreadyExists)
    } else if !registered(ctx.cluster.machines, ctx.machine.machine_id) {
        Err(ErrorCode::UnregisteredMachine)
    } else if !identifier_fits(plant_name) || !identifier_fits(ctx.machine.machine_id) {
        Err(ErrorCode::IdentifierTooLong)
    } else if ctx.cluster.plants.len() >= ctx.cluster.max_plants {
        Err(ErrorCode::CapacityExceeded)
    } else {
        gate_verdict(ctx.access)
    }
}

/// Whether the counters that an accepted creation raises have room for it.
pub open spec fn create_plant_headroom(ctx: CreatePlantView) -> bool {
    ctx.cluster.plant_count < u64::MAX && ctx.machine.plant_count < u64::MAX
}

/// Whether the counters that an accepted creation raises have room for it.
pub fn has_create_plant_headroom(ctx: &CreatePlant) -> (room: bool)
    ensures
        room == create_plant_headroom(ctx@),
{
    ctx.cluster.plant_count < u64::MAX && ctx.machine.plant_count < u64::MAX
}

/// The plant as its creation leaves it: bound to its machine for good,
/// with every counter at zero.
pub open spec fn fresh_plant(
    creator: Seq<u8>,
    plant_name: Seq<char>,
    machine_id: Seq<char>,
    now: int,
) -> PlantDataView {
    PlantDataView {
        creator,
        plant_name,
        data_count: 0,
        image_count: 0,
        creation_timestamp: now,
        last_update_timestamp: 0,
        machine: machine_key_of(machine_id),
    }
}

/// The registry after the creation of a plant.
pub open spec fn cluster_after_create_plant(cluster: ClusterView, plant_name: Seq<char>) -> ClusterView {
    ClusterView {
        plants: cluster.plants.push((plant_name, plant_key_of(plant_name))),
        plant_count: cluster.plant_count + 1,
        plant_slots: planned_slots(cluster.plant_slots, cluster.plants.len() + 1, cluster.max_plants),
        ..cluster
    }
}

/// The working set after an accepted creation of a plant.
pub open spec fn after_create_plant(ctx: CreatePlantView, plant_name: Seq<char>, now: int) -> CreatePlantView {
    CreatePlantView {
        cluster: cluster_after_create_plant(ctx.cluster, plant_name),
        plant: fresh_plant(ctx.user, plant_name, ctx.machine.machine_id, now),
        machine: MachineView {
            plants: ctx.machine.plants.push((plant_name, plant_key_of(plant_name))),
            plant_count: ctx.machine.plant_count + 1,
            ..ctx.machine
        },
        ..ctx
    }
}

/// An accepted creation of a plant keeps the invariant of the registry.
pub proof fn lemma_create_plant_keeps_wf(cluster: ClusterView, plant_name: Seq<char>)
    requires
        cluster.wf(),
        !registered(cluster.plants, plant_name),
        cluster.plants.len() < cluster.max_plants,
    ensures
        cluster_after_create_plant(cluster, plant_name).wf(),
{
    let after = cluster_after_create_plant(cluster, plant_name);
    lemma_planned_slots_hold(cluster.plant_slots, cluster.plants.len() + 1, cluster.max_plants);
    assert forall|i: int, j: int| 0 <= i < j < after.plants.len() implies (
    #[trigger] after.plants[i]).0 != (#[trigger] after.plants[j]).0 by {
        if j < cluster.plants.len() {
            assert(after.plants[i] == cluster.plants[i]);
            assert(after.plants[j] == cluster.plants[j]);
        } else {
            assert(after.plants[i] == cluster.plants[i]);
        }
    }
    assert forall|i: int| 0 <= i < after.plants.len() implies (#[trigger] after.plants[i]).1
        == plant_key_of(after.plants[i].0) by {
        if i < cluster.plants.len() {
            assert(after.plants[i] == cluster.plants[i]);
        }
    }
}

/// Creates a plant under a new name, at the logical time `now`, for a
/// registered machine that the caller owns. The plant is entered in the
/// registry and in the plant list of the machine. Returns the key of the
/// plant. A refused creation changes nothing.
pub fn create_plant(ctx: &mut CreatePlant, plant_name: String, now: i64) -> (result: Result<
    ResourceKey,
    ErrorCode,
>)
    requires
        create_plant_verdict(old(ctx)@, plant_name@) is Ok ==> create_plant_headroom(old(ctx)@),
    ensures
        create_plant_verdict(old(ctx)@, plant_name@) matches Err(error) ==> result == Err::<
            ResourceKey,
            ErrorCode,
        >(error) && *final(ctx) == *old(ctx),
        create_plant_verdict(old(ctx)@, plant_name@) is Ok ==> result is Ok && result->Ok_0@
            == plant_key_of(plant_name@) && final(ctx)@ == after_create_plant(
            old(ctx)@,
            plant_name@,
            now as int,
        ),
        old(ctx)@.cluster.wf() ==> final(ctx)@.cluster.wf(),
{
    if !authorize(&ctx.user, &ctx.machine.owner) {
        return Err(ErrorCode::Unauthorized);
    }
    if is_registered(&ctx.cluster.plants, &plant_name) {
        return Err(ErrorCode::PlantNameAlreadyExists);
    }
    if !is_registered(&ctx.cluster.machines, &ctx.machine.machine_id) {
        return Err(ErrorCode::UnregisteredMachine);
    }
    if byte_len(plant_name.as_str()) > MAX_IDENTIFIER_LEN || byte_len(
        ctx.machine.machine_id.as_str(),
    ) > MAX_IDENTIFIER_LEN {
        return Err(ErrorCode::IdentifierTooLong);
    }
    let held = ctx.cluster.plants.len();
    if held as u64 >= ctx.cluster.max_plants {
        return Err(ErrorCode::CapacityExceeded);
    }
    match gate(ctx.access) {
        Err(error) => {
            return Err(error);
        },
        Ok(_) => {},
    }
    let key = plant_key(plant_name.as_str()).unwrap();
    let owner_key = machine_key(ctx.machine.machine_id.as_str()).unwrap();
    let ghost cluster_plants = ctx.cluster.plants@;
    let ghost machine_plants = ctx.machine.plants@;
    proof {
        if old(ctx)@.cluster.wf() {
            lemma_create_plant_keeps_wf(old(ctx)@.cluster, plant_name@);
        }
    }
    ctx.plant.creator = ctx.user;
    ctx.plant.plant_name = plant_name.clone();
    ctx.plant.data_count = 0;
    ctx.plant.image_count = 0;
    ctx.plant.creation_timestamp = now;
    ctx.plant.last_update_timestamp = 0;
    ctx.plant.machine = owner_key;
    ctx.cluster.plant_slots = plan_slots(
        ctx.cluster.plant_slots,
        held as u64 + 1,
        ctx.cluster.max_plants,
    );
    ctx.cluster.plants.push((plant_name.clone(), key.clone()));
    ctx.cluster.plant_count += 1;
    ctx.machine.plants.push((plant_name, key.clone()));
    ctx.machine.plant_count += 1;
    proof {
        assert(entries_view(ctx.cluster.plants@) =~= entries_view(cluster_plants).push(
            (plant_name@, plant_key_of(plant_name@)),
        ));
        assert(entries_view(ctx.machine.plants@) =~= entries_view(machine_plants).push(
            (plant_name@, plant_key_of(plant_name@)),
        ));
    }
    Ok(key)
}

/// Whether the caller may switch the machine, and why not: the caller does
/// not own the machine, or else the executing context does not own the
/// working set.
pub open spec fn control_verdict(ctx: ControlMachineView) -> Result<(), ErrorCode> {
    if !authorized(ctx.user, ctx.machine.owner) {
        Err(ErrorCode::Unauthorized)
    } else {
        gate_verdict(ctx.access)
    }
}

/// The working set after the machine was switched.
pub open spec fn after_control(ctx: ControlMachineView, active: bool) -> ControlMachineView {
    ControlMachineView { machine: MachineView { is_active: active, ..ctx.machine }, ..ctx }
}

/// Switches a machine on. Only its owner may; switching on a machine that
/// is on already leaves it on. A refused call changes nothing.
pub fn start_machine(ctx: &mut ControlMachine) -> (result: Result<(), ErrorCode>)
    ensures
        result == control_verdict(old(ctx)@),
        result is Err ==> *final(ctx) == *old(ctx),
        result is Ok ==> final(ctx)@ == after_control(old(ctx)@, true),
{
    if !authorize(&ctx.user, &ctx.machine.owner) {
        return Err(ErrorCode::Unauthorized);
    }
    match gate(ctx.access) {
        Err(error) => {
            return Err(error);
        },
        Ok(_) => {},
    }
    ctx.machine.is_active = true;
    Ok(())
}

/// Switches a machine off. Only its owner may; switching off a machine
/// that is off already leaves it off. A refused call changes nothing.
pub fn stop_machine(ctx: &mut ControlMachine) -> (result: Result<(), ErrorCode>)
    ensures
        result == control_verdict(old(ctx)@),
        result is Err ==> *final(ctx) == *old(ctx),
        result is Ok ==> final(ctx)@ == after_control(old(ctx)@, false),
{
    if !authorize(&ctx.user, &ctx.machine.owner) {
        return Err(ErrorCode::Unauthorized);
    }
    match gate(ctx.access) {
        Err(error) => {
            return Err(error);
        },
        Ok(_) => {},
    }
    ctx.machine.is_active = false;
    Ok(())
}

} // verus!
