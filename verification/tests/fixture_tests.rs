use rust_parser_helper::parse::parse_rust_source;

fn contract_fixture() -> &'static str {
    r#"
#![cfg_attr(not(feature = "std"), no_std)]

use ink_lang as ink;

#[ink::contract]
mod vulnerable_contract {
    use ink_storage::traits::SpreadAllocate;
    use ink_storage::Mapping;

    #[ink(storage)]
    #[derive(SpreadAllocate)]
    pub struct VulnerableContract {
        balances: Mapping<AccountId, Balance>,
        owner: AccountId,
        total_supply: Balance,
    }

    impl VulnerableContract {
        #[ink(constructor)]
        pub fn new() -> Self {
            ink_lang::utils::initialize_contract(|contract: &mut Self| {
                let caller = Self::env().caller();
                contract.owner = caller;
                contract.total_supply = 1000000;
            })
        }

        #[ink(message)]
        pub fn get_balance(&self, account: AccountId) -> Balance {
            self.balances.get(&account).unwrap()
        }

        #[ink(message)]
        pub fn unsafe_add(&self, a: u128, b: u128) -> u128 {
            a + b
        }

        #[ink(message)]
        pub fn unsafe_operation(&mut self) {
            unsafe {
                let ptr = &mut self.total_supply as *mut Balance;
                *ptr = 0;
            }
        }

        #[ink(message)]
        pub fn direct_balance_set(&mut self, account: AccountId, amount: Balance) {
            self.balances.insert(&account, &amount);
        }

        #[ink(message)]
        pub fn call_external(&self, contract_addr: AccountId) {
            let result = ink_env::call::build_call::<ink_env::DefaultEnvironment>()
                .call_type(ink_env::call::Call::new().callee(contract_addr))
                .exec();
        }

        #[ink(message)]
        pub fn unsafe_array_access(&self, arr: Vec<u32>, index: usize) -> u32 {
            arr[index]
        }

        #[ink(message)]
        pub fn unsafe_assert(&self, condition: bool) {
            assert!(condition);
        }

        #[ink(message)]
        pub fn unsafe_expect(&self, option: Option<u32>) -> u32 {
            option.expect("Value should exist")
        }
    }
}
"#
}

#[test]
fn fixture_is_classified_as_ink() {
    let r = parse_rust_source(contract_fixture());
    assert!(r.errors.is_empty());
    assert_eq!(r.contract_type, "ink");
}

#[test]
fn fixture_inventory_is_extracted() {
    let r = parse_rust_source(contract_fixture());

    assert_eq!(r.functions.len(), 0);

    assert_eq!(r.structs.len(), 1);
    let s = &r.structs[0];
    assert_eq!(s.name, "VulnerableContract");
    assert_eq!(s.visibility, "pub");
    assert_eq!(s.fields.len(), 3);
    assert_eq!(s.fields[0].name, "balances");
    assert_eq!(s.fields[1].name, "owner");
    assert_eq!(s.fields[2].name, "total_supply");
    assert_eq!(s.attributes.len(), 2);
    assert!(s.attributes[0].contains("ink"));
    assert!(s.attributes[1].contains("derive"));

    assert_eq!(r.impl_blocks.len(), 1);
    let i = &r.impl_blocks[0];
    assert_eq!(i.target_type, "VulnerableContract");
    assert_eq!(i.trait_name, None);
    assert_eq!(
        i.methods,
        vec![
            "new".to_string(),
            "get_balance".to_string(),
            "unsafe_add".to_string(),
            "unsafe_operation".to_string(),
            "direct_balance_set".to_string(),
            "call_external".to_string(),
            "unsafe_array_access".to_string(),
            "unsafe_assert".to_string(),
            "unsafe_expect".to_string(),
        ]
    );

    assert_eq!(r.traits.len(), 0);
    assert_eq!(r.uses.len(), 3);
    assert!(r.uses[0].contains("ink_lang"));
    assert!(r.uses[1].contains("SpreadAllocate"));
    assert!(r.uses[2].contains("Mapping"));
}
