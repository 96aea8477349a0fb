//! Resource keys.
//!
//! Every piece of state is addressed by a key that is computed from a
//! namespace and the stable identifiers of the resource, never from a
//! counter. The key is the concatenation of its parts, each preceded by
//! its length, so two different lists of parts never share a key, and the
//! same parts give the same key wherever the derivation runs.

use vstd::bytes::{
    lemma_auto_spec_u32_to_from_le_bytes, spec_u32_from_le_bytes, spec_u32_to_le_bytes,
    u32_to_le_bytes,
};
use vstd::prelude::*;
use vstd::utf8::{decode_utf8, encode_utf8, encode_utf8_decode_utf8};

verus! {

/// Namespace of the registry singleton: the bytes of `cluster`.
pub const CLUSTER_NAMESPACE: [u8; 7] = [99, 108, 117, 115, 116, 101, 114];

/// Namespace of machines: the bytes of `machine`.
pub const MACHINE_NAMESPACE: [u8; 7] = [109, 97, 99, 104, 105, 110, 101];

/// Namespace of plants: the bytes of `plant`.
pub const PLANT_NAMESPACE: [u8; 5] = [112, 108, 97, 110, 116];

/// Namespace of telemetry ledgers: the bytes of `data`.
pub const DATA_NAMESPACE: [u8; 4] = [100, 97, 116, 97];

/// Longest part, in bytes, that a key can be derived from.
pub const MAX_PART_LEN: usize = 0xffff_ffff;

/// The storage key of a resource. The empty key addresses nothing: it marks
/// a reference that has not been set.
#[derive(Debug, Eq)]
pub struct ResourceKey {
    pub bytes: Vec<u8>,
}

impl View for ResourceKey {
    type V = Seq<u8>;

    open spec fn view(&self) -> Seq<u8> {
        self.bytes@
    }
}

impl Clone for ResourceKey {
    fn clone(&self) -> (copy: Self)
        ensures
            copy@ == self@,
    {
        ResourceKey { bytes: copy_bytes(self.bytes.as_slice()) }
    }
}

impl PartialEq for ResourceKey {
    fn eq(&self, other: &ResourceKey) -> (same: bool) {
        if self.bytes.len() != other.bytes.len() {
            return false;
        }
        let mut i: usize = 0;
        while i < self.bytes.len()
            invariant
                i <= self.bytes.len(),
                self.bytes.len() == other.bytes.len(),
                forall|j: int| 0 <= j < i ==> self.bytes@[j] == other.bytes@[j],
            decreases self.bytes.len() - i,
        {
            if self.bytes[i] != other.bytes[i] {
                return false;
            }
            i += 1;
        }
        assert(self.bytes@ =~= other.bytes@);
        true
    }
}

impl vstd::std_specs::cmp::PartialEqSpecImpl for ResourceKey {
    open spec fn obeys_eq_spec() -> bool {
        true
    }

    open spec fn eq_spec(&self, other: &ResourceKey) -> bool {
        self@ == other@
    }
}

impl ResourceKey {
    /// The key that addresses nothing.
    pub fn unset() -> (key: ResourceKey)
        ensures
            key@ == Seq::<u8>::empty(),
    {
        ResourceKey { bytes: Vec::new() }
    }

    /// Whether this is the key that addresses nothing.
    pub fn is_unset(&self) -> (unset: bool)
        ensures
            unset == (self@.len() == 0),
    {
        self.bytes.len() == 0
    }
}

/// One part of a key as it is written into the key: its length as four
/// little-endian bytes, then the part itself.
pub open spec fn frame(part: Seq<u8>) -> Seq<u8> {
    spec_u32_to_le_bytes(part.len() as u32) + part
}

/// The key bytes of a list of parts: their frames, in order.
pub open spec fn framed(parts: Seq<Seq<u8>>) -> Seq<u8>
    decreases parts.len(),
{
    if parts.len() == 0 {
        Seq::empty()
    } else {
        frame(parts.first()) + framed(parts.drop_first())
    }
}

/// Whether every part is short enough for its length to be written in four
/// bytes.
pub open spec fn derivable(parts: Seq<Seq<u8>>) -> bool {
    forall|i: int| 0 <= i < parts.len() ==> (#[trigger] parts[i]).len() <= MAX_PART_LEN
}

/// The parts that a list of seeds holds.
pub open spec fn seed_views(seeds: Seq<Vec<u8>>) -> Seq<Seq<u8>> {
    seeds.map_values(|seed: Vec<u8>| seed@)
}

/// Seeds of the registry singleton.
pub open spec fn cluster_parts() -> Seq<Seq<u8>> {
    seq![CLUSTER_NAMESPACE@]
}

/// Seeds of the machine with the given id.
pub open spec fn machine_parts(machine_id: Seq<char>) -> Seq<Seq<u8>> {
    seq![MACHINE_NAMESPACE@, encode_utf8(machine_id)]
}

/// Seeds of the plant with the given name.
pub open spec fn plant_parts(plant_name: Seq<char>) -> Seq<Seq<u8>> {
    seq![PLANT_NAMESPACE@, encode_utf8(plant_name)]
}

/// Seeds of the telemetry ledger of a machine and a plant.
pub open spec fn data_parts(machine_id: Seq<char>, plant_name: Seq<char>) -> Seq<Seq<u8>> {
    seq![DATA_NAMESPACE@, encode_utf8(machine_id), encode_utf8(plant_name)]
}

/// Framing distributes over concatenation of part lists.
pub proof fn lemma_framed_concat(a: Seq<Seq<u8>>, b: Seq<Seq<u8>>)
    ensures
        framed(a + b) == framed(a) + framed(b),
    decreases a.len(),
{
    if a.len() == 0 {
        assert(a + b =~= b);
        assert(framed(a) + framed(b) =~= framed(b));
    } else {
        lemma_framed_concat(a.drop_first(), b);
        assert((a + b).drop_first() =~= a.drop_first() + b);
        assert((a + b).first() == a.first());
        assert(frame(a.first()) + (framed(a.drop_first()) + framed(b)) =~= (frame(a.first())
            + framed(a.drop_first())) + framed(b));
    }
}

/// The key bytes of a single part are its frame.
pub proof fn lemma_framed_single(part: Seq<u8>)
    ensures
        framed(seq![part]) == frame(part),
{
    let one = seq![part];
    assert(one.first() == part);
    assert(one.drop_first().len() == 0);
    assert(framed(one.drop_first()) =~= Seq::<u8>::empty());
    assert(framed(one) =~= frame(part));
}

/// A frame determines its part.
pub proof fn lemma_frame_prefix(p: Seq<u8>, q: Seq<u8>, rest_p: Seq<u8>, rest_q: Seq<u8>)
    requires
        p.len() <= MAX_PART_LEN,
        q.len() <= MAX_PART_LEN,
        frame(p) + rest_p == frame(q) + rest_q,
    ensures
        p == q,
        rest_p == rest_q,
{
    lemma_auto_spec_u32_to_from_le_bytes();
    let lp = spec_u32_to_le_bytes(p.len() as u32);
    let lq = spec_u32_to_le_bytes(q.len() as u32);
    let left = frame(p) + rest_p;
    let right = frame(q) + rest_q;
    assert(left.subrange(0, 4) =~= lp);
    assert(right.subrange(0, 4) =~= lq);
    assert(spec_u32_from_le_bytes(lp) == p.len() as u32);
    assert(spec_u32_from_le_bytes(lq) == q.len() as u32);
    assert(p.len() == q.len());
    assert(left.subrange(4, 4 + p.len() as int) =~= p);
    assert(right.subrange(4, 4 + q.len() as int) =~= q);
    assert(left.subrange(4 + p.len() as int, left.len() as int) =~= rest_p);
    assert(right.subrange(4 + q.len() as int, right.len() as int) =~= rest_q);
}

/// Keys are free of collisions: two lists of parts with the same key bytes
/// are the same list.
pub proof fn law_keys_collision_free(a: Seq<Seq<u8>>, b: Seq<Seq<u8>>)
    requires
        derivable(a),
        derivable(b),
        framed(a) == framed(b),
    ensures
        a == b,
    decreases a.len(),
{
    lemma_auto_spec_u32_to_from_le_bytes();
    if a.len() == 0 {
        if b.len() > 0 {
            assert(b.first() == b[0]);
            assert(framed(b).len() >= 4);
        }
        assert(a =~= b);
    } else if b.len() == 0 {
        assert(a.first() == a[0]);
        assert(framed(a).len() >= 4);
    } else {
        assert(a.first() == a[0]);
        assert(b.first() == b[0]);
        lemma_frame_prefix(a.first(), b.first(), framed(a.drop_first()), framed(b.drop_first()));
        assert forall|i: int| 0 <= i < a.drop_first().len() implies (#[trigger] a.drop_first()[i]).len()
            <= MAX_PART_LEN by {
            assert(a.drop_first()[i] == a[i + 1]);
        }
        assert forall|i: int| 0 <= i < b.drop_first().len() implies (#[trigger] b.drop_first()[i]).len()
            <= MAX_PART_LEN by {
            assert(b.drop_first()[i] == b[i + 1]);
        }
        law_keys_collision_free(a.drop_first(), b.drop_first());
        assert(a =~= seq![a.first()] + a.drop_first());
        assert(b =~= seq![b.first()] + b.drop_first());
    }
}

/// The key of a non-empty list of parts is never the unset key.
pub proof fn law_key_is_set(parts: Seq<Seq<u8>>)
    requires
        parts.len() > 0,
    ensures
        framed(parts).len() >= 4,
{
    lemma_auto_spec_u32_to_from_le_bytes();
}

/// Two identifiers with the same bytes are the same text.
pub proof fn lemma_identifier_bytes_injective(a: Seq<char>, b: Seq<char>)
    requires
        encode_utf8(a) == encode_utf8(b),
    ensures
        a == b,
{
    encode_utf8_decode_utf8(a);
    encode_utf8_decode_utf8(b);
    assert(decode_utf8(encode_utf8(a)) == a);
    assert(decode_utf8(encode_utf8(b)) == b);
}

/// Machines with different ids have different keys.
pub proof fn law_machine_keys_distinct(a: Seq<char>, b: Seq<char>)
    requires
        derivable(machine_parts(a)),
        derivable(machine_parts(b)),
        framed(machine_parts(a)) == framed(machine_parts(b)),
    ensures
        a == b,
{
    law_keys_collision_free(machine_parts(a), machine_parts(b));
    assert(machine_parts(a)[1] == machine_parts(b)[1]);
    lemma_identifier_bytes_injective(a, b);
}

/// Plants with different names have different keys.
pub proof fn law_plant_keys_distinct(a: Seq<char>, b: Seq<char>)
    requires
        derivable(plant_parts(a)),
        derivable(plant_parts(b)),
        framed(plant_parts(a)) == framed(plant_parts(b)),
    ensures
        a == b,
{
    law_keys_collision_free(plant_parts(a), plant_parts(b));
    assert(plant_parts(a)[1] == plant_parts(b)[1]);
    lemma_identifier_bytes_injective(a, b);
}

/// Ledgers of different machine and plant pairs have different keys.
pub proof fn law_data_keys_distinct(
    machine_a: Seq<char>,
    plant_a: Seq<char>,
    machine_b: Seq<char>,
    plant_b: Seq<char>,
)
    requires
        derivable(data_parts(machine_a, plant_a)),
        derivable(data_parts(machine_b, plant_b)),
        framed(data_parts(machine_a, plant_a)) == framed(data_parts(machine_b, plant_b)),
    ensures
        machine_a == machine_b,
        plant_a == plant_b,
{
    law_keys_collision_free(data_parts(machine_a, plant_a), data_parts(machine_b, plant_b));
    assert(data_parts(machine_a, plant_a)[1] == data_parts(machine_b, plant_b)[1]);
    assert(data_parts(machine_a, plant_a)[2] == data_parts(machine_b, plant_b)[2]);
    lemma_identifier_bytes_injective(machine_a, machine_b);
    lemma_identifier_bytes_injective(plant_a, plant_b);
}

/// A machine never shares its key with a plant.
pub proof fn law_namespaces_disjoint(machine_id: Seq<char>, plant_name: Seq<char>)
    requires
        derivable(machine_parts(machine_id)),
        derivable(plant_parts(plant_name)),
    ensures
        framed(machine_parts(machine_id)) != framed(plant_parts(plant_name)),
{
    if framed(machine_parts(machine_id)) == framed(plant_parts(plant_name)) {
        law_keys_collision_free(machine_parts(machine_id), plant_parts(plant_name));
        assert(machine_parts(machine_id)[0] == plant_parts(plant_name)[0]);
        assert(MACHINE_NAMESPACE@.len() == 7);
        assert(PLANT_NAMESPACE@.len() == 5);
    }
}

/// A copy of the given bytes.
pub fn copy_bytes(bytes: &[u8]) -> (copy: Vec<u8>)
    ensures
        copy@ == bytes@,
{
    let mut copy: Vec<u8> = Vec::new();
    let mut i: usize = 0;
    while i < bytes.len()
        invariant
            i <= bytes.len(),
            copy@ == bytes@.subrange(0, i as int),
        decreases bytes.len() - i,
    {
        copy.push(bytes[i]);
        assert(bytes@.subrange(0, i + 1) =~= bytes@.subrange(0, i as int).push(bytes@[i as int]));
        i += 1;
    }
    assert(bytes@.subrange(0, i as int) =~= bytes@);
    copy
}

/// Derives the key of the resource that the seeds name: the namespace
/// first, then the identifiers. There is a key unless a seed is too long
/// for its length to be written in four bytes.
pub fn derive_key(seeds: &Vec<Vec<u8>>) -> (key: Option<ResourceKey>)
    ensures
        key is Some <==> derivable(seed_views(seeds@)),
        key is Some ==> key->0@ == framed(seed_views(seeds@)),
{
    let ghost parts = seed_views(seeds@);
    let mut bytes: Vec<u8> = Vec::new();
    let mut i: usize = 0;
    assert(parts.take(0) =~= Seq::<Seq<u8>>::empty());
    while i < seeds.len()
        invariant
            i <= seeds.len(),
            parts == seed_views(seeds@),
            derivable(parts.take(i as int)),
            bytes@ == framed(parts.take(i as int)),
        decreases seeds.len() - i,
    {
        let seed = &seeds[i];
        assert(parts[i as int] == seed@);
        if seed.len() > MAX_PART_LEN {
            return None;
        }
        let prefix = u32_to_le_bytes(seed.len() as u32);
        let ghost before = bytes@;
        let mut j: usize = 0;
        while j < 4
            invariant
                j <= 4,
                prefix@.len() == 4,
                bytes@ == before + prefix@.subrange(0, j as int),
            decreases 4 - j,
        {
            bytes.push(prefix[j]);
            assert(prefix@.subrange(0, j + 1) =~= prefix@.subrange(0, j as int).push(
                prefix@[j as int],
            ));
            assert(bytes@ =~= before + prefix@.subrange(0, j + 1));
            j += 1;
        }
        assert(prefix@.subrange(0, 4) =~= prefix@);
        let ghost with_prefix = bytes@;
        let mut k: usize = 0;
        while k < seed.len()
            invariant
                k <= seed.len(),
                bytes@ == with_prefix + seed@.subrange(0, k as int),
            decreases seed.len() - k,
        {
            bytes.push(seed[k]);
            assert(seed@.subrange(0, k + 1) =~= seed@.subrange(0, k as int).push(seed@[k as int]));
            assert(bytes@ =~= with_prefix + seed@.subrange(0, k + 1));
            k += 1;
        }
        assert(seed@.subrange(0, seed@.len() as int) =~= seed@);
        proof {
            let next = parts.take(i + 1);
            assert(next =~= parts.take(i as int) + seq![seed@]);
            lemma_framed_concat(parts.take(i as int), seq![seed@]);
            lemma_framed_single(seed@);
            assert(bytes@ =~= framed(parts.take(i as int)) + frame(seed@));
            assert forall|n: int| 0 <= n < next.len() implies (#[trigger] next[n]).len()
                <= MAX_PART_LEN by {
                if n < i {
                    assert(next[n] == parts.take(i as int)[n]);
                }
            }
        }
        i += 1;
    }
    assert(parts.take(i as int) =~= parts);
    Some(ResourceKey { bytes })
}

/// The length of an identifier in bytes.
pub fn byte_len(identifier: &str) -> (len: usize)
    ensures
        len == encode_utf8(identifier@).len(),
{
    identifier.as_bytes().len()
}

/// The bytes of an identifier.
pub fn identifier_bytes(identifier: &str) -> (bytes: Vec<u8>)
    ensures
        bytes@ == encode_utf8(identifier@),
{
    copy_bytes(identifier.as_bytes())
}

/// Seeds of the registry singleton.
pub fn cluster_seeds() -> (seeds: Vec<Vec<u8>>)
    ensures
        seed_views(seeds@) == cluster_parts(),
{
    let mut seeds: Vec<Vec<u8>> = Vec::new();
    seeds.push(copy_bytes(CLUSTER_NAMESPACE.as_slice()));
    assert(seed_views(seeds@) =~= cluster_parts());
    seeds
}

/// Seeds of the machine with the given id.
pub fn machine_seeds(machine_id: &str) -> (seeds: Vec<Vec<u8>>)
    ensures
        seed_views(seeds@) == machine_parts(machine_id@),
{
    let mut seeds: Vec<Vec<u8>> = Vec::new();
    seeds.push(copy_bytes(MACHINE_NAMESPACE.as_slice()));
    seeds.push(identifier_bytes(machine_id));
    assert(seed_views(seeds@) =~= machine_parts(machine_id@));
    seeds
}

/// Seeds of the plant with the given name.
pub fn plant_seeds(plant_name: &str) -> (seeds: Vec<Vec<u8>>)
    ensures
        seed_views(seeds@) == plant_parts(plant_name@),
{
    let mut seeds: Vec<Vec<u8>> = Vec::new();
    seeds.push(copy_bytes(PLANT_NAMESPACE.as_slice()));
    seeds.push(identifier_bytes(plant_name));
    assert(seed_views(seeds@) =~= plant_parts(plant_name@));
    seeds
}

/// Seeds of the telemetry ledger of a machine and a plant.
pub fn data_seeds(machine_id: &str, plant_name: &str) -> (seeds: Vec<Vec<u8>>)
    ensures
        seed_views(seeds@) == data_parts(machine_id@, plant_name@),
{
    let mut seeds: Vec<Vec<u8>> = Vec::new();
    seeds.push(copy_bytes(DATA_NAMESPACE.as_slice()));
    seeds.push(identifier_bytes(machine_id));
    seeds.push(identifier_bytes(plant_name));
    assert(seed_views(seeds@) =~= data_parts(machine_id@, plant_name@));
    seeds
}

/// The key of the registry singleton.
pub fn cluster_key() -> (key: ResourceKey)
    ensures
        key@ == framed(cluster_parts()),
{
    let seeds = cluster_seeds();
    assert(derivable(cluster_parts())) by {
        assert(cluster_parts()[0].len() == 7);
    }
    derive_key(&seeds).unwrap()
}

/// The key of the machine with the given id, unless the id is longer than
/// `MAX_PART_LEN` bytes.
pub fn machine_key(machine_id: &str) -> (key: Option<ResourceKey>)
    ensures
        key is Some <==> encode_utf8(machine_id@).len() <= MAX_PART_LEN,
        key is Some ==> key->0@ == framed(machine_parts(machine_id@)),
{
    let seeds = machine_seeds(machine_id);
    proof {
        let parts = machine_parts(machine_id@);
        assert(parts[0].len() == 7);
        assert(parts[1] == encode_utf8(machine_id@));
    }
    derive_key(&seeds)
}

/// The key of the plant with the given name, unless the name is longer
/// than `MAX_PART_LEN` bytes.
pub fn plant_key(plant_name: &str) -> (key: Option<ResourceKey>)
    ensures
        key is Some <==> encode_utf8(plant_name@).len() <= MAX_PART_LEN,
        key is Some ==> key->0@ == framed(plant_parts(plant_name@)),
{
    let seeds = plant_seeds(plant_name);
    proof {
        let parts = plant_parts(plant_name@);
        assert(parts[0].len() == 5);
        assert(parts[1] == encode_utf8(plant_name@));
    }
    derive_key(&seeds)
}

/// The key of the telemetry ledger of a machine and a plant, unless the id
/// or the name is longer than `MAX_PART_LEN` bytes.
pub fn data_key(machine_id: &str, plant_name: &str) -> (key: Option<ResourceKey>)
    ensures
        key is Some <==> encode_utf8(machine_id@).len() <= MAX_PART_LEN && encode_utf8(
            plant_name@,
        ).len() <= MAX_PART_LEN,
        key is Some ==> key->0@ == framed(data_parts(machine_id@, plant_name@)),
{
    let seeds = data_seeds(machine_id, plant_name);
    proof {
        let parts = data_parts(machine_id@, plant_name@);
        assert(parts[0].len() == 4);
        assert(parts[1] == encode_utf8(machine_id@));
        assert(parts[2] == encode_utf8(plant_name@));
    }
    derive_key(&seeds)
}

} // verus!
