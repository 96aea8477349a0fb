use agrox::fleet::state::{IoTData, Machine, PlantData, Cluster};
use agrox::identity::{authorize, Identity};
use agrox::key::{
    byte_len, cluster_key, cluster_seeds, copy_bytes, data_key, data_seeds, derive_key,
    identifier_bytes, machine_key, machine_seeds, plant_key, plant_seeds, ResourceKey,
};

#[test]
fn the_guard_lets_the_owner_in_and_nobody_else() {
    let owner = Identity::new([7; 32]);
    let same = Identity { bytes: [7; 32] };
    let mut bytes = [7u8; 32];
    bytes[31] = 8;
    let other = Identity::new(bytes);
    assert!(authorize(&owner, &same));
    assert!(!authorize(&owner, &other));
    assert!(!authorize(&other, &owner));
    assert_eq!(owner, same);
    assert_ne!(owner, other);
}

#[test]
fn the_key_of_a_machine_is_its_framed_seeds() {
    let key = machine_key("m1").unwrap();
    assert_eq!(
        key.bytes,
        vec![7, 0, 0, 0, b'm', b'a', b'c', b'h', b'i', b'n', b'e', 2, 0, 0, 0, b'm', b'1']
    );
    assert_eq!(derive_key(&machine_seeds("m1")).unwrap(), key);
    assert_eq!(derive_key(&vec![b"machine".to_vec(), b"m1".to_vec()]).unwrap(), key);
}

#[test]
fn the_keys_of_the_other_resources() {
    assert_eq!(
        cluster_key().bytes,
        vec![7, 0, 0, 0, b'c', b'l', b'u', b's', b't', b'e', b'r']
    );
    assert_eq!(
        plant_key("p").unwrap().bytes,
        vec![5, 0, 0, 0, b'p', b'l', b'a', b'n', b't', 1, 0, 0, 0, b'p']
    );
    assert_eq!(
        data_key("m", "p").unwrap().bytes,
        vec![4, 0, 0, 0, b'd', b'a', b't', b'a', 1, 0, 0, 0, b'm', 1, 0, 0, 0, b'p']
    );
    assert_eq!(cluster_seeds(), vec![b"cluster".to_vec()]);
    assert_eq!(plant_seeds("basil"), vec![b"plant".to_vec(), b"basil".to_vec()]);
    assert_eq!(data_seeds("m1", "basil"), vec![b"data".to_vec(), b"m1".to_vec(), b"basil".to_vec()]);
}

#[test]
fn the_length_is_written_little_endian() {
    let part = vec![9u8; 258];
    let key = derive_key(&vec![part.clone()]).unwrap();
    assert_eq!(&key.bytes[0..4], &[2, 1, 0, 0]);
    assert_eq!(&key.bytes[4..], &part[..]);
    assert_eq!(key.bytes.len(), 262);
}

#[test]
fn identifiers_that_run_together_still_get_different_keys() {
    assert_ne!(data_key("ab", "c").unwrap(), data_key("a", "bc").unwrap());
    assert_ne!(data_key("", "abc").unwrap(), data_key("abc", "").unwrap());
    assert_ne!(machine_key("plant").unwrap(), plant_key("plant").unwrap());
    assert_ne!(machine_key("a").unwrap(), machine_key("b").unwrap());
    assert_eq!(machine_key("a").unwrap(), machine_key("a").unwrap());
    assert_ne!(
        derive_key(&vec![b"ab".to_vec(), b"c".to_vec()]).unwrap(),
        derive_key(&vec![b"a".to_vec(), b"bc".to_vec()]).unwrap()
    );
    assert_ne!(
        derive_key(&vec![b"abc".to_vec()]).unwrap(),
        derive_key(&vec![b"abc".to_vec(), Vec::new()]).unwrap()
    );
}

#[test]
fn no_seeds_give_the_unset_key_and_a_derived_key_is_set() {
    let none: Vec<Vec<u8>> = Vec::new();
    let empty = derive_key(&none).unwrap();
    assert!(empty.is_unset());
    assert_eq!(empty, ResourceKey::unset());
    assert!(!machine_key("").unwrap().is_unset());
    assert!(!cluster_key().is_unset());
}

#[test]
fn a_key_is_cloned_and_compared_by_its_bytes() {
    let key = machine_key("m1").unwrap();
    let copy = key.clone();
    assert_eq!(copy.bytes, key.bytes);
    assert_eq!(copy, key);
    let shorter = ResourceKey { bytes: key.bytes[..key.bytes.len() - 1].to_vec() };
    assert_ne!(shorter, key);
}

#[test]
fn identifiers_are_measured_and_copied_in_bytes() {
    assert_eq!(byte_len("abc"), 3);
    assert_eq!(byte_len("é"), 2);
    assert_eq!(byte_len(""), 0);
    assert_eq!(identifier_bytes("é"), vec![0xc3, 0xa9]);
    assert_eq!(copy_bytes(&[1, 2, 3]), vec![1, 2, 3]);
    assert_eq!(copy_bytes(&[]), Vec::<u8>::new());
}

#[test]
fn the_room_of_each_record() {
    assert_eq!(IoTData::BASE_SPACE, 120);
    assert_eq!(IoTData::ENTRY_SPACE, 133);
    assert_eq!(IoTData::space(0), 120);
    assert_eq!(IoTData::space(1), 253);
    assert_eq!(IoTData::space(100), 120 + 13300);
    assert_eq!(Cluster::BASE_SPACE, 112);
    assert_eq!(Cluster::MACHINE_ENTRY_SIZE, 87);
    assert_eq!(Cluster::PLANT_ENTRY_SIZE, 85);
    assert_eq!(Cluster::space(0, 0), Some(112));
    assert_eq!(Cluster::space(2, 3), Some(112 + 174 + 255));
    assert_eq!(Cluster::space(u64::MAX, 0), None);
    assert_eq!(Machine::BASE_SPACE, 137);
    assert_eq!(Machine::space(0), Some(137));
    assert_eq!(Machine::space(4), Some(137 + 340));
    assert_eq!(Machine::space(u64::MAX), None);
    assert_eq!(PlantData::SPACE, 159);
}
