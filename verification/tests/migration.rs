use pathfinder_core::storage::migration::{distinct_addresses, AddressSet};
use std::collections::HashSet;

fn address(high: u8, low: u8) -> [u8; 32] {
    let mut bytes = [0; 32];
    bytes[1] = high;
    bytes[31] = low;
    bytes
}

#[test]
fn every_address_is_interned_once() {
    // The first and the third differ only where the lookup does not look.
    let rows = vec![
        address(1, 1),
        address(1, 2),
        address(2, 1),
        address(1, 1),
        address(2, 1),
        address(0, 0),
        address(1, 2),
    ];
    let result = distinct_addresses(&rows);
    assert_eq!(result, vec![address(1, 1), address(1, 2), address(2, 1), address(0, 0)]);
    let expected: HashSet<_> = rows.into_iter().collect();
    assert_eq!(result.into_iter().collect::<HashSet<_>>(), expected);
}

#[test]
fn inserting_tells_whether_an_address_is_new() {
    let mut set = AddressSet::new();
    assert!(set.insert([0xff; 32]));
    assert!(!set.insert([0xff; 32]));
    assert!(set.insert([0xfe; 32]));
    assert_eq!(set.into_addresses(), vec![[0xff; 32], [0xfe; 32]]);
}

#[test]
fn many_addresses_are_interned() {
    let rows: Vec<[u8; 32]> = (0..60000u32)
        .map(|i| {
            let mut bytes = [0; 32];
            bytes[28..].copy_from_slice(&(i % 20000).to_be_bytes());
            bytes
        })
        .collect();
    let result = distinct_addresses(&rows);
    assert_eq!(result.len(), 20000);
    assert_eq!(result[..], rows[..20000]);
}
