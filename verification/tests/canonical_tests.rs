use moveos_verifier::canonical::{canonical_name, short_hex};
use moveos_verifier::types::{ModuleIdentity, StructIdentity};
use moveos_verifier::verify::reserved_context_address;

fn identity(address: Vec<u8>, module: &str, name: &str) -> StructIdentity {
    StructIdentity {
        module: ModuleIdentity {
            address,
            name: module.to_string(),
        },
        name: name.to_string(),
    }
}

#[test]
fn short_hex_of_reserved_address_is_2() {
    assert_eq!(short_hex(&reserved_context_address()), "2".to_string());
}

#[test]
fn short_hex_trims_leading_zero_digits() {
    assert_eq!(short_hex(&vec![0x01, 0x23]), "123".to_string());
    assert_eq!(short_hex(&vec![0x00, 0x05]), "5".to_string());
    assert_eq!(short_hex(&vec![0x00, 0x00, 0x10]), "10".to_string());
}

#[test]
fn short_hex_of_all_zero_address_is_0() {
    assert_eq!(short_hex(&vec![]), "0".to_string());
    assert_eq!(short_hex(&vec![0x00, 0x00]), "0".to_string());
}

#[test]
fn short_hex_keeps_full_digits() {
    assert_eq!(short_hex(&vec![0xab, 0xcd]), "abcd".to_string());
    assert_eq!(short_hex(&vec![0xff]), "ff".to_string());
    assert_eq!(short_hex(&vec![0x10, 0x02]), "1002".to_string());
}

#[test]
fn canonical_name_of_reserved_context() {
    let id = identity(
        reserved_context_address(),
        "storage_context",
        "StorageContext",
    );
    assert_eq!(
        canonical_name(&id),
        "0x2::storage_context::StorageContext".to_string()
    );
}

#[test]
fn canonical_name_trims_address() {
    let id = identity(vec![0x00, 0x01, 0x23], "coin", "Coin");
    assert_eq!(canonical_name(&id), "0x123::coin::Coin".to_string());
}

#[test]
fn canonical_name_of_zero_address() {
    let id = identity(vec![0x00], "empty", "Nothing");
    assert_eq!(canonical_name(&id), "0x0::empty::Nothing".to_string());
}
