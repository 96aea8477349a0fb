//! The room that each record takes when it is persisted: a header of fixed
//! size, and for the catalogs and the ledger one slot of fixed size for
//! each entry that they were planned for.

use crate::fleet::state::{
    identifier_fits, machine_key_of, plant_key_of, Cluster, IoTData, Machine, PlantData,
};
use crate::key::{lemma_framed_concat, lemma_framed_single, machine_parts, plant_parts};
use vstd::bytes::lemma_auto_spec_u32_to_from_le_bytes;
use vstd::prelude::*;

verus! {

/// Longest key of a machine, in bytes.
pub const MAX_MACHINE_KEY_LEN: usize = 47;

/// Longest key of a plant, in bytes.
pub const MAX_PLANT_KEY_LEN: usize = 45;

/// The key of a machine whose id may be registered fits the room that a
/// slot keeps for it.
pub proof fn law_machine_key_fits(machine_id: Seq<char>)
    requires
        identifier_fits(machine_id),
    ensures
        machine_key_of(machine_id).len() <= MAX_MACHINE_KEY_LEN,
{
    lemma_auto_spec_u32_to_from_le_bytes();
    let parts = machine_parts(machine_id);
    assert(parts =~= seq![parts[0]] + seq![parts[1]]);
    lemma_framed_concat(seq![parts[0]], seq![parts[1]]);
    lemma_framed_single(parts[0]);
    lemma_framed_single(parts[1]);
    assert(parts[0].len() == 7);
}

/// The key of a plant whose name may be registered fits the room that a
/// slot keeps for it.
pub proof fn law_plant_key_fits(plant_name: Seq<char>)
    requires
        identifier_fits(plant_name),
    ensures
        plant_key_of(plant_name).len() <= MAX_PLANT_KEY_LEN,
{
    lemma_auto_spec_u32_to_from_le_bytes();
    let parts = plant_parts(plant_name);
    assert(parts =~= seq![parts[0]] + seq![parts[1]]);
    lemma_framed_concat(seq![parts[0]], seq![parts[1]]);
    lemma_framed_single(parts[0]);
    lemma_framed_single(parts[1]);
    assert(parts[0].len() == 5);
}

/// Bytes of the given number of slots of the given size, unless they are
/// more than an address can count.
fn entries_space(entry_size: usize, slots: u64) -> (bytes: Option<usize>)
    requires
        entry_size > 0,
    ensures
        bytes is Some <==> entry_size * slots <= usize::MAX,
        bytes is Some ==> bytes->0 == entry_size * slots,
{
    if slots > usize::MAX as u64 {
        assert(entry_size * slots > usize::MAX) by (nonlinear_arith)
            requires
                entry_size >= 1,
                slots > usize::MAX,
        ;
        return None;
    }
    entry_size.checked_mul(slots as usize)
}

impl Cluster {
    /// Bytes of a registry without its catalog entries: the tag, the
    /// authority, the four counters, the slot numbers and limits of the two
    /// catalogs, and their two lengths.
    pub const BASE_SPACE: usize = 8 + 32 + 8 + 8 + 8 + 8 + 8 + 8 + 8 + 8 + 4 + 4;

    /// Bytes of one slot of the machine catalog: the id and the key, each
    /// behind its length.
    pub const MACHINE_ENTRY_SIZE: usize = 36 + 51;

    /// Bytes of one slot of the plant catalog: the name and the key, each
    /// behind its length.
    pub const PLANT_ENTRY_SIZE: usize = 36 + 49;

    /// Bytes of a registry with the given numbers of slots.
    pub open spec fn space_of(machine_slots: nat, plant_slots: nat) -> nat {
        (Self::BASE_SPACE + Self::MACHINE_ENTRY_SIZE * machine_slots + Self::PLANT_ENTRY_SIZE
            * plant_slots) as nat
    }

    /// Bytes of a registry with the given numbers of slots, unless they are
    /// more than an address can count.
    pub fn space(machine_slots: u64, plant_slots: u64) -> (bytes: Option<usize>)
        ensures
            bytes is Some <==> Self::space_of(machine_slots as nat, plant_slots as nat)
                <= usize::MAX,
            bytes is Some ==> bytes->0 == Self::space_of(machine_slots as nat, plant_slots as nat),
    {
        let machines = entries_space(Self::MACHINE_ENTRY_SIZE, machine_slots);
        let plants = entries_space(Self::PLANT_ENTRY_SIZE, plant_slots);
        match (machines, plants) {
            (Some(machines), Some(plants)) => {
                match Self::BASE_SPACE.checked_add(machines) {
                    Some(with_machines) => with_machines.checked_add(plants),
                    None => None,
                }
            },
            _ => None,
        }
    }
}

impl Machine {
    /// Bytes of a machine without the entries of its plant list.
    pub const BASE_SPACE: usize = 8 + 32 + 36 + 1 + 8 + 8 + 8 + 8 + 8 + 8 + 4 + 8;

    /// Bytes of one slot of the plant list.
    pub const PLANT_ENTRY_SIZE: usize = 36 + 49;

    /// Bytes of a machine with room for the given number of plants.
    pub open spec fn space_of(plant_slots: nat) -> nat {
        (Self::BASE_SPACE + Self::PLANT_ENTRY_SIZE * plant_slots) as nat
    }

    /// Bytes of a machine with room for the given number of plants, unless
    /// they are more than an address can count.
    pub fn space(plant_slots: u64) -> (bytes: Option<usize>)
        ensures
            bytes is Some <==> Self::space_of(plant_slots as nat) <= usize::MAX,
            bytes is Some ==> bytes->0 == Self::space_of(plant_slots as nat),
    {
        match entries_space(Self::PLANT_ENTRY_SIZE, plant_slots) {
            Some(plants) => Self::BASE_SPACE.checked_add(plants),
            None => None,
        }
    }
}

impl PlantData {
    /// Bytes of a plant.
    pub const SPACE: usize = 8 + 32 + 36 + 8 + 8 + 8 + 8 + 51;
}

impl IoTData {
    /// Bytes of a ledger without its entries: the tag, the two keys, the
    /// capacity and the length of the log.
    pub const BASE_SPACE: usize = 8 + 51 + 49 + 8 + 4;

    /// Bytes of one entry: the time, the two readings, the optional image
    /// reference and the use counter.
    pub const ENTRY_SPACE: usize = 8 + 8 + 8 + (1 + 100) + 8;

    /// Bytes of a ledger with room for the given number of entries.
    pub open spec fn space_of(max_entries: nat) -> nat {
        (Self::BASE_SPACE + Self::ENTRY_SPACE * max_entries) as nat
    }

    /// Bytes of a ledger with room for the given number of entries.
    pub fn space(max_entries: usize) -> (bytes: usize)
        requires
            Self::space_of(max_entries as nat) <= usize::MAX,
        ensures
            bytes == Self::space_of(max_entries as nat),
    {
        Self::BASE_SPACE + Self::ENTRY_SPACE * max_entries
    }
}

} // verus!
