use crowdfunding::address::{Address, AddressKind};
use crowdfunding::salt::deployment_salt;

#[test]
fn salt_of_zero_contract_is_digest_of_its_encoding() {
    let creator = Address::contract([0u8; 32]);
    let expected: [u8; 32] = [
        0x59, 0x79, 0xb0, 0xb6, 0xc0, 0x52, 0x99, 0xc6, 0x28, 0xc1, 0x61, 0xdf, 0x52, 0x40, 0xd5,
        0x71, 0xc2, 0xf0, 0x10, 0xbb, 0xb1, 0x95, 0xdd, 0x43, 0x46, 0xbc, 0x3b, 0x26, 0x24, 0x41,
        0x74, 0x4b,
    ];
    assert_eq!(deployment_salt(&creator), expected);
}

#[test]
fn salt_of_zero_account_is_digest_of_its_encoding() {
    let creator = Address::account([0u8; 32]);
    let expected: [u8; 32] = [
        0x02, 0x6b, 0xe9, 0xde, 0x17, 0x65, 0x46, 0xa6, 0xd0, 0xbe, 0xac, 0x78, 0x95, 0xe4, 0x26,
        0x47, 0x37, 0xc3, 0xb4, 0x34, 0x3a, 0x0e, 0xe1, 0xd1, 0x3c, 0xf5, 0x31, 0x6e, 0xcc, 0x0e,
        0xbc, 0x9c,
    ];
    assert_eq!(deployment_salt(&creator), expected);
}

#[test]
fn salt_of_counting_account_key() {
    let mut key = [0u8; 32];
    for (i, byte) in key.iter_mut().enumerate() {
        *byte = i as u8;
    }
    let creator = Address { kind: AddressKind::Account, key };
    let expected: [u8; 32] = [
        0x10, 0x05, 0x43, 0x2b, 0xb8, 0x8e, 0xda, 0xae, 0x3b, 0xfe, 0x0f, 0xc4, 0x20, 0x04, 0x7c,
        0x05, 0x73, 0x43, 0x50, 0x8f, 0x73, 0x4e, 0x1a, 0xd5, 0x5f, 0x45, 0xb0, 0x56, 0xb2, 0x25,
        0x2e, 0xcf,
    ];
    assert_eq!(deployment_salt(&creator), expected);
}

#[test]
fn salt_tells_kinds_and_keys_apart() {
    let account = deployment_salt(&Address::account([7u8; 32]));
    let contract = deployment_salt(&Address::contract([7u8; 32]));
    assert_eq!(
        account,
        [
            0xd4, 0xc3, 0x99, 0x82, 0x31, 0x7f, 0xee, 0x7c, 0x3c, 0x08, 0x4a, 0x7c, 0x35, 0x8e,
            0xe8, 0xe1, 0x2b, 0x4d, 0xe9, 0x71, 0x12, 0xf9, 0x5b, 0xfe, 0x3f, 0xeb, 0x98, 0xb0,
            0x66, 0x06, 0x5b, 0x5a
        ]
    );
    assert_eq!(
        contract,
        [
            0x2b, 0x8e, 0x18, 0x54, 0xed, 0x9a, 0x9d, 0xd8, 0xba, 0xa8, 0x58, 0xc1, 0x79, 0x75,
            0x92, 0xcb, 0x24, 0x63, 0xc3, 0xa2, 0x42, 0xfd, 0x68, 0x95, 0xa6, 0x08, 0xb9, 0x4e,
            0x88, 0x3f, 0x66, 0x12
        ]
    );
    assert_ne!(account, contract);
}

#[test]
fn salt_is_the_same_on_every_call() {
    let creator = Address::account([9u8; 32]);
    assert_eq!(deployment_salt(&creator), deployment_salt(&creator));
}
