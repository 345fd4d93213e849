use jsontests::fork::ForkSpec;
use jsontests::primitives::{H160, H256, U256};
use jsontests::account::Account;
use jsontests::vector::{
    public_to_address, Env, MultiTransaction, PostStateIndexes, PostStateResult, Test,
};

fn nibble(c: u8) -> u8 {
    match c {
        b'0'..=b'9' => c - b'0',
        b'a'..=b'f' => c - b'a' + 10,
        _ => panic!("not a hex digit"),
    }
}

fn unhex(s: &str) -> Vec<u8> {
    s.as_bytes().chunks(2).map(|p| nibble(p[0]) * 16 + nibble(p[1])).collect()
}

fn address(s: &str) -> H160 {
    let mut bytes = [0u8; 20];
    bytes.copy_from_slice(&unhex(s));
    H160 { bytes }
}

fn word(s: &str) -> H256 {
    let mut bytes = [0u8; 32];
    bytes.copy_from_slice(&unhex(s));
    H256 { bytes }
}

fn template() -> MultiTransaction {
    MultiTransaction {
        data: vec![vec![], vec![1, 2, 3]],
        gas_limit: vec![U256::from_u64(285000), U256::from_u64(100000), U256::from_u64(6000)],
        gas_price: U256::from_u64(1),
        nonce: U256::zero(),
        secret: Some(word("45a915e4d060149eb4365960e6a7a45f334393093061116b197e3240065ff2d8")),
        to: Some(address("095e7baea6a6c7c4c2dfeb977efac326af552d87")),
        value: vec![U256::from_u64(10), U256::zero()],
        access_lists: vec![vec![], vec![(H160::from_low_u64_be(7), vec![H256 { bytes: [9u8; 32] }])]],
    }
}

fn vector() -> Test {
    Test {
        env: Env {
            author: address("2adc25665018aa1fe0e6bc666dac8fc2697ff9ba"),
            difficulty: U256::from_u64(0x0100),
            gas_limit: U256::from_u64(0x01c9c380),
            number: U256::from_u64(4),
            timestamp: U256::from_u64(1),
        },
        pre_state: vec![(
            address("a94f5374fce5edbc8e2a8697c15331677e6ebf0b"),
            Account {
                nonce: U256::zero(),
                balance: U256::from_u64(0x0de0b6b3a7640000),
                code: vec![],
                storage: vec![(H256 { bytes: [1u8; 32] }, H256 { bytes: [2u8; 32] })],
            },
        )],
        post_states: vec![(ForkSpec::Istanbul, vec![])],
        transaction: template(),
    }
}

#[test]
fn caller_is_derived_from_the_secret_key() {
    let expected = address("a94f5374fce5edbc8e2a8697c15331677e6ebf0b");
    assert_eq!(vector().caller(), Some(expected));
    assert_eq!(vector().unwrap_caller(), expected);
}

#[test]
fn caller_of_another_key_is_another_address() {
    let mut test = vector();
    let mut bytes = [0u8; 32];
    bytes[31] = 1;
    test.transaction.secret = Some(H256 { bytes });
    assert_eq!(test.caller(), Some(address("7e5f4552091a69125d5dfcb7b8c2659029395bdf")));
}

#[test]
fn no_caller_without_a_usable_secret() {
    let mut test = vector();
    test.transaction.secret = None;
    assert_eq!(test.caller(), None);
    assert_eq!(test.vicinity(), None);
    test.transaction.secret = Some(H256 { bytes: [0u8; 32] });
    assert_eq!(test.caller(), None);
    test.transaction.secret = Some(H256 { bytes: [0xffu8; 32] });
    assert_eq!(test.caller(), None);
    assert_eq!(test.vicinity(), None);
}

#[test]
fn vicinity_takes_the_environment_verbatim() {
    let test = vector();
    let v = test.unwrap_to_vicinity();
    assert_eq!(v.gas_price, U256::from_u64(1));
    assert_eq!(v.origin, address("a94f5374fce5edbc8e2a8697c15331677e6ebf0b"));
    assert_eq!(v.chain_id, U256::from_u64(1));
    assert!(v.block_hashes.is_empty());
    assert_eq!(v.block_number, U256::from_u64(4));
    assert_eq!(v.block_coinbase, address("2adc25665018aa1fe0e6bc666dac8fc2697ff9ba"));
    assert_eq!(v.block_timestamp, U256::from_u64(1));
    assert_eq!(v.block_difficulty, U256::from_u64(0x0100));
    assert_eq!(v.block_gas_limit, U256::from_u64(0x01c9c380));
    assert_eq!(v.block_base_fee_per_gas, U256::zero());
    assert_eq!(test.vicinity(), Some(v));
}

#[test]
fn pre_state_is_copied_as_it_is() {
    let test = vector();
    assert_eq!(test.unwrap_to_pre_state(), test.pre_state);
}

#[test]
fn select_resolves_each_field_by_its_selector() {
    let t = template().select(&PostStateIndexes { data: 1, gas: 2, value: 0 }).unwrap();
    assert_eq!(t.data, vec![1, 2, 3]);
    assert_eq!(t.gas_limit, U256::from_u64(6000));
    assert_eq!(t.value, U256::from_u64(10));
    assert_eq!(t.access_list, vec![(H160::from_low_u64_be(7), vec![H256 { bytes: [9u8; 32] }])]);
    assert_eq!(t.gas_price, U256::from_u64(1));
    assert_eq!(t.nonce, U256::zero());
    assert_eq!(t.to, template().to);
    assert_eq!(t.secret, template().secret);
    let t = template().select(&PostStateIndexes { data: 0, gas: 0, value: 1 }).unwrap();
    assert_eq!(t.data, Vec::<u8>::new());
    assert_eq!(t.gas_limit, U256::from_u64(285000));
    assert_eq!(t.value, U256::zero());
    assert!(t.access_list.is_empty());
}

#[test]
fn select_without_access_lists_gives_an_empty_list() {
    let mut m = template();
    m.access_lists = vec![];
    let t = m.select(&PostStateIndexes { data: 1, gas: 0, value: 0 }).unwrap();
    assert!(t.access_list.is_empty());
    assert_eq!(t.data, vec![1, 2, 3]);
}

#[test]
fn select_refuses_selectors_past_the_alternatives() {
    assert_eq!(template().select(&PostStateIndexes { data: 2, gas: 0, value: 0 }), None);
    assert_eq!(template().select(&PostStateIndexes { data: 0, gas: 3, value: 0 }), None);
    assert_eq!(template().select(&PostStateIndexes { data: 0, gas: 0, value: 2 }), None);
    assert_eq!(template().select(&PostStateIndexes { data: u64::MAX, gas: 0, value: 0 }), None);
}

#[test]
fn post_state_result_holds_hash_and_selectors() {
    let r = PostStateResult {
        hash: H256 { bytes: [7u8; 32] },
        indexes: PostStateIndexes { data: 0, gas: 1, value: 2 },
    };
    assert_eq!(r.indexes.gas, 1);
    assert_eq!(r.hash.bytes[0], 7);
}

#[test]
fn address_is_the_tail_of_the_hash_of_the_public_key() {
    let generator = unhex(concat_hex());
    assert_eq!(generator.len(), 64);
    assert_eq!(public_to_address(&generator), address("7e5f4552091a69125d5dfcb7b8c2659029395bdf"));
}

fn concat_hex() -> &'static str {
    "79be667ef9dcbbac55a06295ce870b07029bfcdb2dce28d959f2815b16f81798\
483ada7726a3c4655da4fbfc0e1108a8fd17b448a68554199c47d08ffb10d4b8"
}
