//! What holds of the fleet registry over several operations.

use crate::delegation::{access_of, may_mutate, Access, DelegationState, ExecutionContext};
use crate::fleet::accounts::{
    ClaimRewardsView, ControlMachineView, CreatePlantView, RegisterMachineView, UploadDataView,
    UseDataView,
};
use crate::fleet::ledger::{
    after_upload, after_use, machine_after_upload, upload_verdict, use_verdict,
};
use crate::fleet::registry::{
    after_control, after_create_plant, after_register, control_verdict, create_plant_verdict,
    lemma_create_plant_keeps_wf, register_verdict,
};
use crate::fleet::rewards::{after_claim, claim_verdict};
use crate::fleet::state::{
    gate_verdict, machine_key_of, registered, ErrorCode, MachineView, IMAGE_REWARD, UPLOAD_REWARD, USE_REWARD,
};
use vstd::prelude::*;

verus! {

/// A machine id is registered once: an accepted registration raises the
/// machine count by exactly one, and every later registration of the same
/// id in the registry that it left is refused as a duplicate, whoever asks.
pub proof fn law_register_once(
    first: RegisterMachineView,
    machine_id: Seq<char>,
    second: RegisterMachineView,
)
    requires
        register_verdict(first, machine_id) is Ok,
        second.cluster == after_register(first, machine_id).cluster,
    ensures
        after_register(first, machine_id).cluster.machine_count == first.cluster.machine_count
            + 1,
        after_register(first, machine_id).cluster.machines.len() == first.cluster.machines.len()
            + 1,
        register_verdict(second, machine_id) == Err::<(), ErrorCode>(
            ErrorCode::MachineIdAlreadyExists,
        ),
{
    let machines = second.cluster.machines;
    let last = machines.len() - 1;
    assert(machines[last].0 == machine_id);
    assert(registered(machines, machine_id));
}

/// A registration never removes, moves or changes what the registry holds.
pub proof fn law_register_appends(ctx: RegisterMachineView, machine_id: Seq<char>)
    requires
        register_verdict(ctx, machine_id) is Ok,
    ensures
        forall|i: int|
            0 <= i < ctx.cluster.machines.len() ==> after_register(
                ctx,
                machine_id,
            ).cluster.machines[i] == ctx.cluster.machines[i],
        after_register(ctx, machine_id).cluster.plants == ctx.cluster.plants,
{
}

/// An upload for a machine that is switched off is refused as such,
/// whatever else holds of the working set.
pub proof fn law_inactive_upload_refused(ctx: UploadDataView, image_url: Option<Seq<char>>)
    requires
        !ctx.machine.is_active,
    ensures
        upload_verdict(ctx, image_url) == Err::<(), ErrorCode>(ErrorCode::MachineNotActive),
{
}

/// An upload appends: the entries that the ledger held keep their index
/// and their content, and the new entry stands behind them.
pub proof fn law_upload_appends(
    ctx: UploadDataView,
    temperature: u64,
    humidity: u64,
    image_url: Option<Seq<char>>,
    now: int,
)
    ensures
        after_upload(ctx, temperature, humidity, image_url, now).data.data_entries.len()
            == ctx.data.data_entries.len() + 1,
        forall|i: int|
            0 <= i < ctx.data.data_entries.len() ==> after_upload(
                ctx,
                temperature,
                humidity,
                image_url,
                now,
            ).data.data_entries[i] == ctx.data.data_entries[i],
        after_upload(ctx, temperature, humidity, image_url, now).plant.machine
            == ctx.plant.machine,
{
}

/// The machine after a run of accepted uploads, each given by whether it
/// carries an image reference and by its logical time.
pub open spec fn machine_after_uploads(machine: MachineView, uploads: Seq<(bool, int)>) -> MachineView
    decreases uploads.len(),
{
    if uploads.len() == 0 {
        machine
    } else {
        machine_after_upload(
            machine_after_uploads(machine, uploads.drop_last()),
            uploads.last().0,
            uploads.last().1,
        )
    }
}

/// The number of uploads in a run that carry an image reference.
pub open spec fn images_among(uploads: Seq<(bool, int)>) -> nat
    decreases uploads.len(),
{
    if uploads.len() == 0 {
        0
    } else {
        images_among(uploads.drop_last()) + if uploads.last().0 {
            1nat
        } else {
            0nat
        }
    }
}

/// A run of accepted uploads earns the upload reward for each of them and
/// the image reward on top for each that carries an image reference, and
/// the counters of the machine count the same.
pub proof fn law_upload_rewards(machine: MachineView, uploads: Seq<(bool, int)>)
    ensures
        machine_after_uploads(machine, uploads).rewards_earned == machine.rewards_earned
            + uploads.len() * UPLOAD_REWARD + images_among(uploads) * IMAGE_REWARD,
        machine_after_uploads(machine, uploads).data_count == machine.data_count + uploads.len(),
        machine_after_uploads(machine, uploads).image_count == machine.image_count + images_among(
            uploads,
        ),
        images_among(uploads) <= uploads.len(),
    decreases uploads.len(),
{
    if uploads.len() > 0 {
        law_upload_rewards(machine, uploads.drop_last());
    }
}

/// A use is not idempotent: two uses of one entry count twice on the
/// entry, on the machine and on the registry, and pay the use reward twice.
pub proof fn law_use_twice(ctx: UseDataView, entry_index: u64)
    requires
        use_verdict(ctx, entry_index) is Ok,
    ensures
        use_verdict(after_use(ctx, entry_index), entry_index) is Ok,
        after_use(after_use(ctx, entry_index), entry_index).data.data_entries[entry_index as int].used_count
            == ctx.data.data_entries[entry_index as int].used_count + 2,
        after_use(after_use(ctx, entry_index), entry_index).machine.rewards_earned
            == ctx.machine.rewards_earned + 2 * USE_REWARD,
        after_use(after_use(ctx, entry_index), entry_index).machine.data_used_count
            == ctx.machine.data_used_count + 2,
        after_use(after_use(ctx, entry_index), entry_index).cluster.data_request_count
            == ctx.cluster.data_request_count + 2,
{
}

/// A use changes nothing of an entry but its counter, and nothing of any
/// other entry.
pub proof fn law_use_keeps_entries(ctx: UseDataView, entry_index: u64)
    requires
        use_verdict(ctx, entry_index) is Ok,
    ensures
        after_use(ctx, entry_index).data.data_entries.len() == ctx.data.data_entries.len(),
        forall|i: int|
            0 <= i < ctx.data.data_entries.len() && i != entry_index ==> after_use(
                ctx,
                entry_index,
            ).data.data_entries[i] == ctx.data.data_entries[i],
        forall|i: int|
            0 <= i < ctx.data.data_entries.len() ==> after_use(
                ctx,
                entry_index,
            ).data.data_entries[i].used_count >= ctx.data.data_entries[i].used_count,
{
}

/// A balance is paid once: right after an accepted claim a second claim
/// finds nothing to pay.
pub proof fn law_claim_once(ctx: ClaimRewardsView)
    requires
        claim_verdict(ctx) is Ok,
    ensures
        after_claim(ctx).machine.rewards_earned == 0,
        claim_verdict(after_claim(ctx)) == Err::<(), ErrorCode>(ErrorCode::NoRewardsAvailable),
{
}

/// A ledger never outgrows the capacity it was created with, and its
/// capacity never changes: an accepted upload keeps the invariant of the
/// ledger and of the registry.
pub proof fn law_upload_keeps_capacity(
    ctx: UploadDataView,
    temperature: u64,
    humidity: u64,
    image_url: Option<Seq<char>>,
    now: int,
)
    requires
        upload_verdict(ctx, image_url) is Ok,
    ensures
        after_upload(ctx, temperature, humidity, image_url, now).data.wf(),
        after_upload(ctx, temperature, humidity, image_url, now).data.max_entries
            == ctx.data.max_entries,
        ctx.cluster.wf() ==> after_upload(ctx, temperature, humidity, image_url, now).cluster.wf(),
{
}

/// The balance of a machine only grows by what uploads and uses earn, and
/// only a claim takes it back to zero: an upload and a use raise it, a
/// registration of another machine, the creation of a plant and a switch
/// leave it as it is.
pub proof fn law_balance_moves_by_rule(
    upload: UploadDataView,
    image_url: Option<Seq<char>>,
    now: int,
    used: UseDataView,
    entry_index: u64,
    plant: CreatePlantView,
    plant_name: Seq<char>,
    control: ControlMachineView,
    active: bool,
)
    ensures
        after_upload(upload, 0, 0, image_url, now).machine.rewards_earned
            > upload.machine.rewards_earned,
        after_use(used, entry_index).machine.rewards_earned > used.machine.rewards_earned,
        after_create_plant(plant, plant_name, now).machine.rewards_earned
            == plant.machine.rewards_earned,
        after_control(control, active).machine.rewards_earned == control.machine.rewards_earned,
{
}

/// Nothing is written without ownership: whatever an operation is asked
/// to do, it is accepted only if the delegation controller granted the
/// executing context access to its working set. While a resource is
/// delegated or on its way, every operation on it is refused.
pub proof fn law_writes_need_ownership(
    register: RegisterMachineView,
    machine_id: Seq<char>,
    plant: CreatePlantView,
    plant_name: Seq<char>,
    control: ControlMachineView,
    upload: UploadDataView,
    image_url: Option<Seq<char>>,
    used: UseDataView,
    entry_index: u64,
    claim: ClaimRewardsView,
)
    ensures
        register_verdict(register, machine_id) is Ok ==> register.access == Access::Granted,
        create_plant_verdict(plant, plant_name) is Ok ==> plant.access == Access::Granted,
        control_verdict(control) is Ok ==> control.access == Access::Granted,
        upload_verdict(upload, image_url) is Ok ==> upload.access == Access::Granted,
        use_verdict(used, entry_index) is Ok ==> used.access == Access::Granted,
        claim_verdict(claim) is Ok ==> claim.access == Access::Granted,
{
}

/// What an operation is told when it is refused for want of ownership says
/// whether to try again: a resource on its way will come to rest, one that
/// the other context owns will not by waiting.
pub proof fn law_gate_tells_when_to_retry(state: DelegationState, context: ExecutionContext)
    ensures
        gate_verdict(access_of(state, context)) is Ok <==> may_mutate(state, context),
        gate_verdict(access_of(state, context)) == Err::<(), ErrorCode>(
            ErrorCode::ResourceInTransit,
        ) <==> state == DelegationState::Transitioning,
{
}

/// A plant is bound to a machine of the registry: the machine that a new
/// plant refers to is registered, under the very key that the plant keeps,
/// and the registry holds the plant under the key derived from its name.
pub proof fn law_plant_names_registered_machine(
    ctx: CreatePlantView,
    plant_name: Seq<char>,
    now: int,
)
    requires
        ctx.cluster.wf(),
        create_plant_verdict(ctx, plant_name) is Ok,
    ensures
        exists|i: int|
            0 <= i < ctx.cluster.machines.len() && (#[trigger] ctx.cluster.machines[i]).0
                == ctx.machine.machine_id && ctx.cluster.machines[i].1 == after_create_plant(
                ctx,
                plant_name,
                now,
            ).plant.machine,
        registered(after_create_plant(ctx, plant_name, now).cluster.plants, plant_name),
        after_create_plant(ctx, plant_name, now).cluster.wf(),
{
    let i = choose|i: int|
        0 <= i < ctx.cluster.machines.len() && (#[trigger] ctx.cluster.machines[i]).0
            == ctx.machine.machine_id;
    assert(ctx.cluster.machines[i].1 == machine_key_of(ctx.cluster.machines[i].0));
    let after = after_create_plant(ctx, plant_name, now).cluster.plants;
    assert(after[after.len() - 1].0 == plant_name);
    lemma_create_plant_keeps_wf(ctx.cluster, plant_name);
}

/// The catalogs of the registry are touched by registrations only: an
/// upload and a use keep the invariant of the registry and leave both
/// catalogs as they are, and a use keeps the invariant of the ledger.
pub proof fn law_catalogs_kept(
    upload: UploadDataView,
    image_url: Option<Seq<char>>,
    now: int,
    used: UseDataView,
    entry_index: u64,
)
    requires
        use_verdict(used, entry_index) is Ok,
    ensures
        after_upload(upload, 0, 0, image_url, now).cluster.machines == upload.cluster.machines,
        after_upload(upload, 0, 0, image_url, now).cluster.plants == upload.cluster.plants,
        after_use(used, entry_index).cluster.machines == used.cluster.machines,
        after_use(used, entry_index).cluster.plants == used.cluster.plants,
        used.cluster.wf() ==> after_use(used, entry_index).cluster.wf(),
        used.data.wf() ==> after_use(used, entry_index).data.wf(),
{
}

} // verus!
