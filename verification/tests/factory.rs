use crowdfunding::address::Address;
use crowdfunding::factory::{CrowdfundingFactory, Error};
use crowdfunding::project::ProjectData;

fn admin() -> Address {
    Address::account([1u8; 32])
}

fn creator() -> Address {
    Address::account([2u8; 32])
}

fn text(s: &str) -> String {
    String::from(s)
}

#[test]
fn test_initialize() {
    let admin = admin();

    let factory = CrowdfundingFactory::initialize(admin);

    assert_eq!(factory.get_projects(), Vec::<Address>::new());
}

#[test]
fn initialize_sets_admin_and_no_project_code() {
    let factory = CrowdfundingFactory::initialize(admin());
    assert_eq!(factory.get_admin(), admin());
    assert_eq!(factory.get_project_wasm_hash(), None);
}

#[test]
fn initialize_again_starts_over() {
    let mut factory = CrowdfundingFactory::initialize(admin());
    factory.set_project_wasm_hash(&admin(), [9u8; 32]).unwrap();
    factory.register_project(Address::contract([3u8; 32]));
    let factory = CrowdfundingFactory::initialize(creator());
    assert_eq!(factory.get_admin(), creator());
    assert_eq!(factory.get_project_wasm_hash(), None);
    assert!(factory.get_projects().is_empty());
}

#[test]
fn only_the_admin_sets_the_project_code() {
    let mut factory = CrowdfundingFactory::initialize(admin());
    assert_eq!(
        factory.set_project_wasm_hash(&creator(), [9u8; 32]),
        Err(Error::NotAuthorized)
    );
    assert_eq!(factory.get_project_wasm_hash(), None);
    assert_eq!(factory.set_project_wasm_hash(&admin(), [9u8; 32]), Ok(()));
    assert_eq!(factory.get_project_wasm_hash(), Some([9u8; 32]));
}

#[test]
fn an_account_and_a_contract_with_one_key_are_different_callers() {
    let mut factory = CrowdfundingFactory::initialize(Address::account([1u8; 32]));
    assert_eq!(
        factory.set_project_wasm_hash(&Address::contract([1u8; 32]), [9u8; 32]),
        Err(Error::NotAuthorized)
    );
}

#[test]
fn project_code_can_be_replaced() {
    let mut factory = CrowdfundingFactory::initialize(admin());
    factory.set_project_wasm_hash(&admin(), [9u8; 32]).unwrap();
    factory.set_project_wasm_hash(&admin(), [8u8; 32]).unwrap();
    assert_eq!(factory.get_project_wasm_hash(), Some([8u8; 32]));
}

#[test]
fn create_project_needs_project_code() {
    let factory = CrowdfundingFactory::initialize(admin());
    let result = factory.create_project(
        &creator(),
        creator(),
        text("Title"),
        text("Description"),
        text("https://example.com/image.jpg"),
        1_000,
    );
    assert_eq!(result.err(), Some(Error::ProjectWasmHashNotSet));
    assert!(factory.get_projects().is_empty());
}

#[test]
fn create_project_needs_the_creator_as_caller() {
    let mut factory = CrowdfundingFactory::initialize(admin());
    factory.set_project_wasm_hash(&admin(), [9u8; 32]).unwrap();
    let result = factory.create_project(
        &admin(),
        creator(),
        text("Title"),
        text("Description"),
        text("https://example.com/image.jpg"),
        1_000,
    );
    assert_eq!(result.err(), Some(Error::NotAuthorized));
}

#[test]
fn a_wrong_caller_is_reported_before_missing_project_code() {
    let factory = CrowdfundingFactory::initialize(admin());
    let result = factory.create_project(
        &admin(),
        creator(),
        text("Title"),
        text("Description"),
        text("https://example.com/image.jpg"),
        1_000,
    );
    assert_eq!(result.err(), Some(Error::NotAuthorized));
}

#[test]
fn create_project_names_code_salt_and_initial_state() {
    let mut factory = CrowdfundingFactory::initialize(admin());
    factory.set_project_wasm_hash(&admin(), [9u8; 32]).unwrap();
    let creator = Address::account([0u8; 32]);
    let deployment = factory
        .create_project(
            &creator,
            creator,
            text("Title"),
            text("Description"),
            text("https://example.com/image.jpg"),
            1_000,
        )
        .unwrap();
    assert_eq!(deployment.wasm_hash, [9u8; 32]);
    assert_eq!(
        deployment.salt,
        [
            0x02, 0x6b, 0xe9, 0xde, 0x17, 0x65, 0x46, 0xa6, 0xd0, 0xbe, 0xac, 0x78, 0x95, 0xe4,
            0x26, 0x47, 0x37, 0xc3, 0xb4, 0x34, 0x3a, 0x0e, 0xe1, 0xd1, 0x3c, 0xf5, 0x31, 0x6e,
            0xcc, 0x0e, 0xbc, 0x9c
        ]
    );
    assert_eq!(
        deployment.project.get_project_data(),
        ProjectData {
            title: text("Title"),
            description: text("Description"),
            image_url: text("https://example.com/image.jpg"),
            creator,
            deadline: 1_000,
        }
    );
    assert_eq!(deployment.project.get_total_funded(), 0);
    assert_eq!(deployment.project.get_token(), None);
    assert!(deployment.project.get_all_contributions().is_empty());
    assert!(factory.get_projects().is_empty());
}

#[test]
fn the_largest_deadline_survives_creation() {
    let mut factory = CrowdfundingFactory::initialize(admin());
    factory.set_project_wasm_hash(&admin(), [9u8; 32]).unwrap();
    let deployment = factory
        .create_project(&creator(), creator(), text("t"), text("d"), text("u"), u64::MAX)
        .unwrap();
    assert_eq!(deployment.project.get_project_data().deadline, u64::MAX);
}

#[test]
fn one_creator_always_gets_the_same_salt() {
    let mut factory = CrowdfundingFactory::initialize(admin());
    factory.set_project_wasm_hash(&admin(), [9u8; 32]).unwrap();
    let first = factory
        .create_project(&creator(), creator(), text("First"), text("d"), text("u"), 10)
        .unwrap();
    let second = factory
        .create_project(&creator(), creator(), text("Second"), text("e"), text("v"), 20)
        .unwrap();
    assert_eq!(first.salt, second.salt);
    let other = Address::account([3u8; 32]);
    let third = factory
        .create_project(&other, other, text("Third"), text("f"), text("w"), 30)
        .unwrap();
    assert_ne!(first.salt, third.salt);
}

#[test]
fn register_project_appends_and_returns_the_address() {
    let mut factory = CrowdfundingFactory::initialize(admin());
    let first = Address::contract([10u8; 32]);
    let second = Address::contract([11u8; 32]);
    assert_eq!(factory.register_project(first), first);
    assert_eq!(factory.get_projects(), vec![first]);
    assert_eq!(factory.register_project(second), second);
    assert_eq!(factory.get_projects(), vec![first, second]);
}

#[test]
fn registry_never_gets_shorter() {
    let mut factory = CrowdfundingFactory::initialize(admin());
    let mut length = factory.get_projects().len();
    for step in 0u8..12 {
        match step % 4 {
            0 => {
                factory.register_project(Address::contract([step; 32]));
            }
            1 => {
                let _ = factory.set_project_wasm_hash(&creator(), [step; 32]);
            }
            2 => {
                let _ = factory.set_project_wasm_hash(&admin(), [step; 32]);
            }
            _ => {
                let _ = factory.create_project(
                    &creator(),
                    creator(),
                    text("t"),
                    text("d"),
                    text("u"),
                    5,
                );
            }
        }
        let now = factory.get_projects().len();
        assert!(now >= length);
        length = now;
    }
    assert_eq!(length, 3);
}

#[test]
fn refused_factory_calls_change_nothing() {
    let mut factory = CrowdfundingFactory::initialize(admin());
    factory.set_project_wasm_hash(&admin(), [9u8; 32]).unwrap();
    factory.register_project(Address::contract([10u8; 32]));
    let _ = factory.set_project_wasm_hash(&creator(), [1u8; 32]);
    let _ = factory.create_project(&admin(), creator(), text("t"), text("d"), text("u"), 5);
    assert_eq!(factory.get_admin(), admin());
    assert_eq!(factory.get_project_wasm_hash(), Some([9u8; 32]));
    assert_eq!(factory.get_projects(), vec![Address::contract([10u8; 32])]);
}

#[test]
fn from_parts_holds_what_it_was_given() {
    let projects = vec![Address::contract([10u8; 32]), Address::contract([11u8; 32])];
    let factory = CrowdfundingFactory::from_parts(admin(), Some([4u8; 32]), projects.clone());
    assert_eq!(factory.get_admin(), admin());
    assert_eq!(factory.get_project_wasm_hash(), Some([4u8; 32]));
    assert_eq!(factory.get_projects(), projects);
}

#[test]
fn factory_error_codes() {
    assert_eq!(Error::NotAuthorized.code(), 1);
    assert_eq!(Error::ProjectWasmHashNotSet.code(), 2);
}
