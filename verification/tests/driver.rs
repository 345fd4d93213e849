use std::collections::BTreeMap;

use evm::executor::{PrecompileFailure, PrecompileFn, PrecompileOutput};
use jsontests::driver::{
    conclude_case, run_case, run_variant, test_run, CaseError, Event, Failure, FailureReason, Notice,
};
use jsontests::engine::{Exit, PrecompileTable};
use jsontests::fork::{ForkSettings, ForkSpec, Ruleset};
use jsontests::precompile::JsonPrecompile;
use jsontests::primitives::{H160, H256, U256};
use jsontests::trie::state_root;
use jsontests::account::Account;
use jsontests::vector::{
    CallRequest, CreateRequest, Env, MultiTransaction, PostStateIndexes, PostStateResult, Request,
    Test, Transaction, Vicinity,
};

const SENDER: &str = "a94f5374fce5edbc8e2a8697c15331677e6ebf0b";
const COINBASE: &str = "2adc25665018aa1fe0e6bc666dac8fc2697ff9ba";
const RECIPIENT: &str = "095e7baea6a6c7c4c2dfeb977efac326af552d87";
const CREATED: &str = "6295ee1b4f6dd65047762f924ecd367c17eabf8f";
const SECRET: &str = "45a915e4d060149eb4365960e6a7a45f334393093061116b197e3240065ff2d8";
const START: u64 = 1_000_000_000;

fn nibble(c: u8) -> u8 {
    match c {
        b'0'..=b'9' => c - b'0',
        b'a'..=b'f' => c - b'a' + 10,
        _ => panic!("not a hex digit"),
    }
}

fn unhex(s: &str) -> Vec<u8> {
    s.as_bytes().chunks(2).map(|p| nibble(p[0]) * 16 + nibble(p[1])).collect()
}

fn address(s: &str) -> H160 {
    let mut bytes = [0u8; 20];
    bytes.copy_from_slice(&unhex(s));
    H160 { bytes }
}

fn word(s: &str) -> H256 {
    let mut bytes = [0u8; 32];
    bytes.copy_from_slice(&unhex(s));
    H256 { bytes }
}

fn account(nonce: u64, balance: u64) -> Account {
    Account { nonce: U256::from_u64(nonce), balance: U256::from_u64(balance), code: vec![], storage: vec![] }
}

fn pre_state() -> Vec<(H160, Account)> {
    vec![(address(SENDER), account(0, START))]
}

fn berlin() -> ForkSettings {
    ForkSettings { ruleset: Ruleset::Berlin, delete_empty: true }
}

fn istanbul() -> ForkSettings {
    ForkSettings { ruleset: Ruleset::Istanbul, delete_empty: true }
}

fn vicinity(gas_price: U256) -> Vicinity {
    Vicinity {
        gas_price,
        origin: address(SENDER),
        chain_id: U256::one(),
        block_hashes: vec![],
        block_number: U256::from_u64(1),
        block_coinbase: address(COINBASE),
        block_timestamp: U256::from_u64(1000),
        block_difficulty: U256::from_u64(0x20000),
        block_gas_limit: U256::from_u64(10_000_000),
        block_base_fee_per_gas: U256::zero(),
    }
}

fn transfer(gas_limit: u64, value: u64, to: Option<H160>, data: Vec<u8>) -> Transaction {
    Transaction {
        data,
        gas_limit: U256::from_u64(gas_limit),
        gas_price: U256::from_u64(10),
        nonce: U256::zero(),
        to,
        value: U256::from_u64(value),
        access_list: vec![],
        secret: Some(word(SECRET)),
    }
}

fn after_transfer() -> Vec<(H160, Account)> {
    vec![
        (address(RECIPIENT), account(0, 1000)),
        (address(COINBASE), account(0, 210_000)),
        (address(SENDER), account(1, START - 1000 - 210_000)),
    ]
}

fn after_creation() -> Vec<(H160, Account)> {
    vec![
        (address(COINBASE), account(0, 530_040)),
        (address(CREATED), account(1, 0)),
        (address(SENDER), account(1, START - 530_040)),
    ]
}

fn recover(
    _input: &[u8],
    gas_limit: Option<u64>,
    _context: &evm::Context,
    _is_static: bool,
) -> Result<PrecompileOutput, PrecompileFailure> {
    match JsonPrecompile::charge(&U256::from_u64(3000), gas_limit) {
        Err(_) => Err(PrecompileFailure::Error { exit_status: evm::ExitError::OutOfGas }),
        Ok(cost) => {
            let done = JsonPrecompile::conclude(cost, vec![0u8; 32], Ok(())).unwrap();
            Ok(PrecompileOutput {
                exit_status: evm::ExitSucceed::Stopped,
                cost: done.cost,
                output: done.output,
                logs: vec![],
            })
        }
    }
}

fn precompiles() -> PrecompileTable {
    let mut map: BTreeMap<primitive_types::H160, PrecompileFn> = BTreeMap::new();
    for index in 1..=9 {
        map.insert(primitive_types::H160::from_low_u64_be(index), recover);
    }
    PrecompileTable(map)
}

fn precompiles_without(missing: &[u64]) -> PrecompileTable {
    let mut table = precompiles();
    for index in missing {
        table.0.remove(&primitive_types::H160::from_low_u64_be(*index));
    }
    table
}

fn vector(post_states: Vec<(ForkSpec, Vec<PostStateResult>)>) -> Test {
    Test {
        env: Env {
            author: address(COINBASE),
            difficulty: U256::from_u64(0x20000),
            gas_limit: U256::from_u64(10_000_000),
            number: U256::from_u64(1),
            timestamp: U256::from_u64(1000),
        },
        pre_state: pre_state(),
        post_states,
        transaction: MultiTransaction {
            data: vec![vec![]],
            gas_limit: vec![U256::from_u64(100_000), U256::from_u64(21_000)],
            gas_price: U256::from_u64(10),
            nonce: U256::zero(),
            secret: Some(word(SECRET)),
            to: Some(address(RECIPIENT)),
            value: vec![U256::from_u64(1000)],
            access_lists: vec![],
        },
    }
}

fn expect(hash: H256, gas: u64) -> PostStateResult {
    PostStateResult { hash, indexes: PostStateIndexes { data: 0, gas, value: 0 } }
}

#[test]
fn call_moves_value_and_settles_the_fee() {
    let tx = transfer(100_000, 1000, Some(address(RECIPIENT)), vec![]);
    let expected = state_root(&after_transfer());
    let outcome = run_case(
        &berlin(),
        &vicinity(U256::from_u64(10)),
        &address(SENDER),
        &pre_state(),
        &tx,
        &expected,
        &precompiles(),
    )
    .unwrap();
    assert_eq!(
        outcome.request,
        Request::Call(CallRequest {
            caller: address(SENDER),
            to: address(RECIPIENT),
            value: U256::from_u64(1000),
            data: vec![],
            gas_limit: 100_000,
            access_list: vec![],
        })
    );
    assert_eq!(outcome.exit, Exit::Succeed);
    assert_eq!(outcome.diff.len(), 3);
    assert_eq!(outcome.total_fee, U256::from_u64(1_000_000));
    assert_eq!(outcome.used_gas, 21_000);
    assert_eq!(outcome.settlement.coinbase_deposit, U256::from_u64(210_000));
    assert_eq!(outcome.settlement.sender_refund, U256::from_u64(790_000));
    assert_eq!(outcome.post_state, after_transfer());
    assert_eq!(outcome.root, expected);
    assert!(outcome.passed);
}

#[test]
fn creation_deploys_an_account_without_code() {
    let tx = transfer(100_000, 0, None, vec![0x00]);
    let expected = state_root(&after_creation());
    let outcome = run_case(
        &istanbul(),
        &vicinity(U256::from_u64(10)),
        &address(SENDER),
        &pre_state(),
        &tx,
        &expected,
        &precompiles(),
    )
    .unwrap();
    assert_eq!(
        outcome.request,
        Request::Create(CreateRequest {
            caller: address(SENDER),
            value: U256::zero(),
            init_code: vec![0x00],
            gas_limit: 100_000,
            access_list: vec![],
        })
    );
    assert_eq!(outcome.exit, Exit::Succeed);
    assert_eq!(outcome.used_gas, 53_004);
    assert_eq!(outcome.post_state, after_creation());
    assert!(outcome.passed);
}

#[test]
fn creation_vector_passes_and_reports_the_case() {
    let mut test = vector(vec![(ForkSpec::Istanbul, vec![expect(state_root(&after_creation()), 0)])]);
    test.transaction.to = None;
    test.transaction.data = vec![vec![0x00]];
    test.transaction.value = vec![U256::zero()];
    let report = test_run(&test, &precompiles(), &precompiles(), &|_| ());
    assert_eq!(report.failure, None);
    assert_eq!(report.events, vec![Event::Passed { fork: ForkSpec::Istanbul, index: 0 }]);
}

#[test]
fn creation_vector_with_another_hash_stops_with_fork_and_index() {
    let wrong = H256 { bytes: [0x11; 32] };
    let good = state_root(&after_creation());
    let mut test = vector(vec![(ForkSpec::Istanbul, vec![expect(good, 0), expect(wrong, 0), expect(good, 0)])]);
    test.transaction.to = None;
    test.transaction.data = vec![vec![0x00]];
    test.transaction.value = vec![U256::zero()];
    let report = test_run(&test, &precompiles(), &precompiles(), &|_| ());
    assert_eq!(report.events, vec![Event::Passed { fork: ForkSpec::Istanbul, index: 0 }]);
    assert_eq!(
        report.failure,
        Some(Failure {
            fork: ForkSpec::Istanbul,
            index: 1,
            reason: FailureReason::HashMismatch { expected: wrong, calculated: good },
        })
    );
}

#[test]
fn precompile_without_enough_gas_costs_the_fee_and_nothing_else() {
    let tx = transfer(23_999, 5, Some(H160::from_low_u64_be(1)), vec![]);
    let after = vec![
        (address(COINBASE), account(0, 239_990)),
        (address(SENDER), account(1, START - 239_990)),
    ];
    let outcome = run_case(
        &berlin(),
        &vicinity(U256::from_u64(10)),
        &address(SENDER),
        &pre_state(),
        &tx,
        &state_root(&after),
        &precompiles(),
    )
    .unwrap();
    assert_eq!(outcome.used_gas, 23_999);
    assert_eq!(outcome.exit, Exit::Error);
    assert_eq!(outcome.settlement.coinbase_deposit, U256::from_u64(239_990));
    assert_eq!(outcome.settlement.sender_refund, U256::zero());
    assert_eq!(outcome.post_state, after);
    assert!(outcome.passed);
}

#[test]
fn precompile_with_enough_gas_runs_and_is_charged_its_cost() {
    let tx = transfer(30_000, 5, Some(H160::from_low_u64_be(1)), vec![]);
    let after = vec![
        (H160::from_low_u64_be(1), account(0, 5)),
        (address(COINBASE), account(0, 240_000)),
        (address(SENDER), account(1, START - 5 - 240_000)),
    ];
    let outcome = run_case(
        &berlin(),
        &vicinity(U256::from_u64(10)),
        &address(SENDER),
        &pre_state(),
        &tx,
        &state_root(&after),
        &precompiles(),
    )
    .unwrap();
    assert_eq!(outcome.used_gas, 24_000);
    assert_eq!(outcome.settlement.sender_refund, U256::from_u64(60_000));
    assert_eq!(outcome.post_state, after);
    assert!(outcome.passed);
}

#[test]
fn same_case_twice_gives_the_same_root() {
    let tx = transfer(100_000, 1000, Some(address(RECIPIENT)), vec![1, 2, 3]);
    let run = || {
        run_case(
            &berlin(),
            &vicinity(U256::from_u64(10)),
            &address(SENDER),
            &pre_state(),
            &tx,
            &H256 { bytes: [0u8; 32] },
            &precompiles(),
        )
        .unwrap()
    };
    let first = run();
    let second = run();
    assert_eq!(first.root, second.root);
    assert_eq!(first, second);
}

#[test]
fn variants_start_from_the_same_pre_state() {
    let good = state_root(&after_transfer());
    let test = vector(vec![
        (ForkSpec::Berlin, vec![expect(good, 0), expect(good, 0)]),
        (ForkSpec::Istanbul, vec![expect(good, 0)]),
    ]);
    let before = test.clone();
    let report = test_run(&test, &precompiles(), &precompiles(), &|_| ());
    assert_eq!(report.failure, None);
    assert_eq!(
        report.events,
        vec![
            Event::Passed { fork: ForkSpec::Berlin, index: 0 },
            Event::Passed { fork: ForkSpec::Berlin, index: 1 },
            Event::Passed { fork: ForkSpec::Istanbul, index: 0 },
        ]
    );
    assert_eq!(test, before);
}

#[test]
fn zero_fee_leaves_no_coinbase_account_under_the_policy() {
    let tx = transfer(100_000, 1000, Some(address(RECIPIENT)), vec![]);
    let outcome = run_case(
        &berlin(),
        &vicinity(U256::zero()),
        &address(SENDER),
        &pre_state(),
        &tx,
        &H256 { bytes: [0u8; 32] },
        &precompiles(),
    )
    .unwrap();
    assert_eq!(outcome.total_fee, U256::zero());
    assert_eq!(
        outcome.post_state,
        vec![(address(RECIPIENT), account(0, 1000)), (address(SENDER), account(1, START - 1000))]
    );
    assert!(!outcome.passed);
}

#[test]
fn balance_below_the_fee_is_refused() {
    let tx = transfer(100_000, 0, Some(address(RECIPIENT)), vec![]);
    let poor = vec![(address(SENDER), account(0, 999_999))];
    let r = run_case(
        &berlin(),
        &vicinity(U256::from_u64(10)),
        &address(SENDER),
        &poor,
        &tx,
        &H256 { bytes: [0u8; 32] },
        &precompiles(),
    );
    assert_eq!(r, Err(CaseError::InsufficientBalance));
    let exact = vec![(address(SENDER), account(0, 1_000_000))];
    let r = run_case(
        &berlin(),
        &vicinity(U256::from_u64(10)),
        &address(SENDER),
        &exact,
        &tx,
        &H256 { bytes: [0u8; 32] },
        &precompiles(),
    );
    assert!(r.is_ok());
    let nobody = run_case(
        &berlin(),
        &vicinity(U256::from_u64(10)),
        &address(RECIPIENT),
        &pre_state(),
        &tx,
        &H256 { bytes: [0u8; 32] },
        &precompiles(),
    );
    assert_eq!(nobody, Err(CaseError::InsufficientBalance));
}

#[test]
fn fee_beyond_256_bits_is_refused() {
    let tx = transfer(100_000, 0, Some(address(RECIPIENT)), vec![]);
    let r = run_case(
        &berlin(),
        &vicinity(U256 { limbs: [0, 0, 0, 1 << 60] }),
        &address(SENDER),
        &pre_state(),
        &tx,
        &H256 { bytes: [0u8; 32] },
        &precompiles(),
    );
    assert_eq!(r, Err(CaseError::FeeOverflow));
}

#[test]
fn gas_limit_beyond_64_bits_is_refused() {
    let mut tx = transfer(0, 1000, Some(address(RECIPIENT)), vec![]);
    tx.gas_limit = U256 { limbs: [100_000, 7, 0, 0] };
    let r = run_case(
        &berlin(),
        &vicinity(U256::from_u64(10)),
        &address(SENDER),
        &pre_state(),
        &tx,
        &state_root(&after_transfer()),
        &precompiles(),
    );
    assert_eq!(r, Err(CaseError::GasLimitTooLarge));
    assert_eq!(tx.request(&address(SENDER)), None);
}

#[test]
fn transaction_short_of_intrinsic_gas_still_settles() {
    let tx = transfer(20_000, 1000, Some(address(RECIPIENT)), vec![]);
    let outcome = run_case(
        &berlin(),
        &vicinity(U256::from_u64(10)),
        &address(SENDER),
        &pre_state(),
        &tx,
        &H256 { bytes: [0u8; 32] },
        &precompiles(),
    )
    .unwrap();
    let sum = outcome.settlement.coinbase_deposit.limbs[0] + outcome.settlement.sender_refund.limbs[0];
    assert_eq!(sum, 200_000);
    assert_eq!(outcome.total_fee, U256::from_u64(200_000));
    assert_eq!(outcome.exit, Exit::Error);
    assert_eq!(outcome.used_gas, 20_000);
}

#[test]
fn bad_selectors_are_refused() {
    let test = vector(vec![]);
    let variant = PostStateResult {
        hash: H256 { bytes: [0u8; 32] },
        indexes: PostStateIndexes { data: 0, gas: 2, value: 0 },
    };
    let r = run_variant(&test, &berlin(), &variant, &precompiles());
    assert_eq!(r, Err(CaseError::BadIndexes));
    let test = vector(vec![(ForkSpec::Berlin, vec![variant])]);
    let report = test_run(&test, &precompiles(), &precompiles(), &|_| ());
    assert!(report.events.is_empty());
    assert_eq!(
        report.failure,
        Some(Failure {
            fork: ForkSpec::Berlin,
            index: 0,
            reason: FailureReason::Case(CaseError::BadIndexes),
        })
    );
}

#[test]
fn unsupported_forks_are_skipped_in_order() {
    let good = state_root(&after_transfer());
    let anything = expect(H256 { bytes: [0u8; 32] }, 0);
    let test = vector(vec![
        (ForkSpec::EIP150, vec![anything, anything]),
        (ForkSpec::Berlin, vec![expect(good, 0)]),
        (ForkSpec::London, vec![]),
        (ForkSpec::Istanbul, vec![]),
    ]);
    let report = test_run(&test, &precompiles(), &precompiles(), &|_| ());
    assert_eq!(report.failure, None);
    assert_eq!(
        report.events,
        vec![
            Event::Skipped { fork: ForkSpec::EIP150 },
            Event::Passed { fork: ForkSpec::Berlin, index: 0 },
            Event::Skipped { fork: ForkSpec::London },
        ]
    );
}

#[test]
fn missing_secret_stops_at_the_first_supported_fork() {
    let mut test = vector(vec![
        (ForkSpec::Frontier, vec![]),
        (ForkSpec::Istanbul, vec![]),
        (ForkSpec::Berlin, vec![]),
    ]);
    test.transaction.secret = None;
    let report = test_run(&test, &precompiles(), &precompiles(), &|_| ());
    assert_eq!(report.events, vec![Event::Skipped { fork: ForkSpec::Frontier }]);
    assert_eq!(
        report.failure,
        Some(Failure { fork: ForkSpec::Istanbul, index: 0, reason: FailureReason::NoSender })
    );
    test.post_states = vec![(ForkSpec::Frontier, vec![]), (ForkSpec::London, vec![])];
    let report = test_run(&test, &precompiles(), &precompiles(), &|_| ());
    assert_eq!(report.failure, None);
    assert_eq!(report.events.len(), 2);
}

#[test]
fn second_gas_alternative_is_all_used_by_a_plain_call() {
    let after = vec![
        (address(RECIPIENT), account(0, 1000)),
        (address(COINBASE), account(0, 210_000)),
        (address(SENDER), account(1, START - 1000 - 210_000)),
    ];
    let test = vector(vec![(ForkSpec::Berlin, vec![expect(state_root(&after), 1)])]);
    let report = test_run(&test, &precompiles(), &precompiles(), &|_| ());
    assert_eq!(report.failure, None);
    assert_eq!(report.events, vec![Event::Passed { fork: ForkSpec::Berlin, index: 0 }]);
}

#[test]
fn variant_runs_with_the_sender_and_context_of_the_vector() {
    let test = vector(vec![]);
    let variant = expect(state_root(&after_transfer()), 0);
    let outcome = run_variant(&test, &berlin(), &variant, &precompiles()).unwrap();
    assert_eq!(outcome.post_state, after_transfer());
    assert_eq!(outcome.total_fee, U256::from_u64(1_000_000));
    assert!(outcome.passed);
}

#[test]
fn worker_stack_is_sixteen_mebibytes() {
    assert_eq!(jsontests::driver::WORKER_STACK_SIZE, 16_777_216);
    assert_eq!(jsontests::precompile::PRICING_BLOCK, 0);
    assert_eq!(jsontests::vector::CHAIN_ID, 1);
}

#[test]
fn request_goes_by_the_recipient_and_carries_every_field() {
    let mut call = transfer(77, 5, Some(address(RECIPIENT)), vec![1, 2]);
    call.access_list = vec![(address(CREATED), vec![H256 { bytes: [7u8; 32] }])];
    assert_eq!(
        call.request(&address(SENDER)),
        Some(Request::Call(CallRequest {
            caller: address(SENDER),
            to: address(RECIPIENT),
            value: U256::from_u64(5),
            data: vec![1, 2],
            gas_limit: 77,
            access_list: vec![(address(CREATED), vec![H256 { bytes: [7u8; 32] }])],
        }))
    );
    let mut create = call.clone();
    create.to = None;
    assert_eq!(
        create.request(&address(COINBASE)),
        Some(Request::Create(CreateRequest {
            caller: address(COINBASE),
            value: U256::from_u64(5),
            init_code: vec![1, 2],
            gas_limit: 77,
            access_list: vec![(address(CREATED), vec![H256 { bytes: [7u8; 32] }])],
        }))
    );
}

#[test]
fn value_data_and_caller_reach_the_engine() {
    let code = vec![0x33, 0x60, 0x00, 0x55, 0x34, 0x60, 0x01, 0x55, 0x60, 0x00, 0x35, 0x60, 0x02, 0x55];
    let contract = Account { code, ..account(1, 0) };
    let mut before = pre_state();
    before.insert(0, (address(RECIPIENT), contract));
    let mut data = vec![0u8; 32];
    data[31] = 9;
    let tx = transfer(500_000, 4, Some(address(RECIPIENT)), data);
    let outcome = run_case(
        &istanbul(),
        &vicinity(U256::from_u64(10)),
        &address(SENDER),
        &before,
        &tx,
        &H256 { bytes: [0u8; 32] },
        &precompiles(),
    )
    .unwrap();
    let word = |n: u64| {
        let mut bytes = [0u8; 32];
        bytes[24..].copy_from_slice(&n.to_be_bytes());
        H256 { bytes }
    };
    let mut caller = [0u8; 32];
    caller[12..].copy_from_slice(&address(SENDER).bytes);
    assert_eq!(
        outcome.post_state[0].1.storage,
        vec![(word(0), H256 { bytes: caller }), (word(1), word(4)), (word(2), word(9))]
    );
    assert_eq!(outcome.post_state[0].1.balance, U256::from_u64(4));
}

#[test]
fn nonce_at_the_ceiling_is_refused() {
    let tx = transfer(100_000, 0, Some(address(RECIPIENT)), vec![]);
    let run = |before: Vec<(H160, Account)>| {
        run_case(
            &berlin(),
            &vicinity(U256::from_u64(10)),
            &address(SENDER),
            &before,
            &tx,
            &H256 { bytes: [0u8; 32] },
            &precompiles(),
        )
    };
    let with_nonce = |limbs: [u64; 4]| Account { nonce: U256 { limbs }, ..account(0, START) };
    let full = vec![(address(SENDER), with_nonce([u64::MAX; 4]))];
    assert_eq!(run(full), Err(CaseError::NonceTooLarge { address: address(SENDER) }));
    let ceiling = [0, u64::MAX, u64::MAX, u64::MAX];
    let other = vec![
        (address(SENDER), account(0, START)),
        (address(CREATED), with_nonce(ceiling)),
        (address(RECIPIENT), with_nonce(ceiling)),
    ];
    assert_eq!(run(other), Err(CaseError::NonceTooLarge { address: address(CREATED) }));
    let below = vec![(address(SENDER), with_nonce([u64::MAX, u64::MAX - 1, u64::MAX, u64::MAX]))];
    let outcome = run(below).unwrap();
    let sender = outcome.post_state.iter().find(|(a, _)| *a == address(SENDER)).unwrap();
    assert_eq!(sender.1.nonce, U256 { limbs: [0, u64::MAX, u64::MAX, u64::MAX] });
}

#[test]
fn outcome_is_made_from_the_answer_of_the_engine() {
    let request = transfer(100, 0, None, vec![]).request(&address(SENDER)).unwrap();
    let outcome = conclude_case(
        request.clone(),
        Exit::Revert,
        vec![5],
        U256::from_u64(1000),
        U256::from_u64(10),
        40,
        vec![],
        after_transfer(),
        &state_root(&after_transfer()),
    )
    .unwrap();
    assert_eq!(outcome.request, request);
    assert_eq!(outcome.exit, Exit::Revert);
    assert_eq!(outcome.output, vec![5]);
    assert_eq!(outcome.total_fee, U256::from_u64(1000));
    assert_eq!(outcome.used_gas, 40);
    assert_eq!(outcome.settlement.coinbase_deposit, U256::from_u64(400));
    assert_eq!(outcome.settlement.sender_refund, U256::from_u64(600));
    assert_eq!(outcome.post_state, after_transfer());
    assert_eq!(outcome.root, state_root(&after_transfer()));
    assert!(outcome.passed);
    let other = conclude_case(
        request.clone(),
        Exit::Succeed,
        vec![],
        U256::from_u64(1000),
        U256::from_u64(10),
        100,
        vec![],
        after_creation(),
        &state_root(&after_transfer()),
    )
    .unwrap();
    assert!(!other.passed);
    assert_eq!(other.settlement.sender_refund, U256::zero());
    let beyond = conclude_case(
        request,
        Exit::Succeed,
        vec![],
        U256::from_u64(1000),
        U256::from_u64(10),
        101,
        vec![],
        vec![],
        &H256 { bytes: [0u8; 32] },
    );
    assert_eq!(beyond, None);
}

#[test]
fn post_state_is_the_pre_state_after_the_recorded_diff() {
    let tx = transfer(100_000, 1000, Some(address(RECIPIENT)), vec![]);
    let outcome = run_case(
        &berlin(),
        &vicinity(U256::from_u64(10)),
        &address(SENDER),
        &pre_state(),
        &tx,
        &H256 { bytes: [0u8; 32] },
        &precompiles(),
    )
    .unwrap();
    let applied = jsontests::driver::apply_state_diff(&pre_state(), &outcome.diff, true);
    assert_eq!(applied, outcome.post_state);
}

#[test]
fn table_without_an_address_of_the_registry_is_refused() {
    let tx = transfer(100_000, 1000, Some(address(RECIPIENT)), vec![]);
    let run = |table: PrecompileTable| {
        run_case(
            &berlin(),
            &vicinity(U256::from_u64(10)),
            &address(SENDER),
            &pre_state(),
            &tx,
            &H256 { bytes: [0u8; 32] },
            &table,
        )
    };
    assert_eq!(
        run(precompiles_without(&[5])),
        Err(CaseError::MissingPrecompile { address: H160::from_low_u64_be(5) })
    );
    assert_eq!(
        run(precompiles_without(&[9, 3, 7])),
        Err(CaseError::MissingPrecompile { address: H160::from_low_u64_be(3) })
    );
    assert_eq!(
        run(PrecompileTable(BTreeMap::new())),
        Err(CaseError::MissingPrecompile { address: H160::from_low_u64_be(1) })
    );
    assert!(run(precompiles()).is_ok());
}

#[test]
fn each_fork_runs_with_its_own_table() {
    let good = state_root(&after_transfer());
    let test = vector(vec![
        (ForkSpec::Istanbul, vec![expect(good, 0)]),
        (ForkSpec::Berlin, vec![expect(good, 0)]),
    ]);
    let report = test_run(&test, &precompiles(), &precompiles_without(&[2]), &|_| ());
    assert_eq!(report.events, vec![Event::Passed { fork: ForkSpec::Istanbul, index: 0 }]);
    assert_eq!(
        report.failure,
        Some(Failure {
            fork: ForkSpec::Berlin,
            index: 0,
            reason: FailureReason::Case(CaseError::MissingPrecompile {
                address: H160::from_low_u64_be(2),
            }),
        })
    );
    let report = test_run(&test, &precompiles_without(&[2]), &precompiles(), &|_| ());
    assert!(report.events.is_empty());
    assert_eq!(report.failure.unwrap().fork, ForkSpec::Istanbul);
}

#[test]
fn access_list_is_charged_under_berlin_and_free_under_istanbul() {
    let mut tx = transfer(100_000, 1000, Some(address(RECIPIENT)), vec![]);
    tx.access_list = vec![(address(CREATED), vec![H256 { bytes: [7u8; 32] }])];
    let run = |settings: ForkSettings| {
        run_case(
            &settings,
            &vicinity(U256::from_u64(10)),
            &address(SENDER),
            &pre_state(),
            &tx,
            &H256 { bytes: [0u8; 32] },
            &precompiles(),
        )
        .unwrap()
    };
    let listed = run(berlin());
    assert_eq!(listed.used_gas, 21_000 + 2_400 + 1_900);
    assert_eq!(listed.settlement.coinbase_deposit, U256::from_u64(253_000));
    assert_eq!(run(istanbul()).used_gas, 21_000);
}

#[test]
fn call_runs_the_code_of_the_recipient_and_writes_its_storage() {
    let code = vec![0x60, 0x01, 0x60, 0x00, 0x55];
    let contract = Account { code: code.clone(), ..account(1, 0) };
    let mut before = pre_state();
    before.insert(0, (address(RECIPIENT), contract));
    let mut slot = [0u8; 32];
    slot[31] = 1;
    let written = Account {
        code,
        storage: vec![(H256 { bytes: [0u8; 32] }, H256 { bytes: slot })],
        ..account(1, 0)
    };
    let after = vec![
        (address(RECIPIENT), written),
        (address(COINBASE), account(0, 410_060)),
        (address(SENDER), account(1, START - 410_060)),
    ];
    let tx = transfer(100_000, 0, Some(address(RECIPIENT)), vec![]);
    let outcome = run_case(
        &istanbul(),
        &vicinity(U256::from_u64(10)),
        &address(SENDER),
        &before,
        &tx,
        &state_root(&after),
        &precompiles(),
    )
    .unwrap();
    assert_eq!(outcome.used_gas, 21_000 + 3 + 3 + 20_000);
    assert_eq!(outcome.post_state, after);
    assert!(outcome.passed);
}

#[test]
fn origin_and_coinbase_come_from_the_context() {
    let code = vec![0x32, 0x60, 0x00, 0x55, 0x41, 0x60, 0x01, 0x55];
    let contract = Account { code: code.clone(), ..account(1, 0) };
    let mut before = pre_state();
    before.insert(0, (address(RECIPIENT), contract));
    let tx = transfer(200_000, 0, Some(address(RECIPIENT)), vec![]);
    let outcome = run_case(
        &istanbul(),
        &vicinity(U256::from_u64(10)),
        &address(SENDER),
        &before,
        &tx,
        &H256 { bytes: [0u8; 32] },
        &precompiles(),
    )
    .unwrap();
    let mut origin = [0u8; 32];
    origin[12..].copy_from_slice(&address(SENDER).bytes);
    let mut coinbase = [0u8; 32];
    coinbase[12..].copy_from_slice(&address(COINBASE).bytes);
    let mut one = [0u8; 32];
    one[31] = 1;
    assert_eq!(
        outcome.post_state[0].1.storage,
        vec![
            (H256 { bytes: [0u8; 32] }, H256 { bytes: origin }),
            (H256 { bytes: one }, H256 { bytes: coinbase }),
        ]
    );
}

#[test]
fn block_metadata_and_gas_price_come_from_the_context() {
    let mut code = vec![];
    for (slot, opcode) in [0x43u8, 0x42, 0x44, 0x45, 0x3a, 0x46].iter().enumerate() {
        code.extend_from_slice(&[*opcode, 0x60, slot as u8, 0x55]);
    }
    let contract = Account { code, ..account(1, 0) };
    let mut before = pre_state();
    before.insert(0, (address(RECIPIENT), contract));
    let tx = transfer(500_000, 0, Some(address(RECIPIENT)), vec![]);
    let outcome = run_case(
        &istanbul(),
        &vicinity(U256::from_u64(10)),
        &address(SENDER),
        &before,
        &tx,
        &H256 { bytes: [0u8; 32] },
        &precompiles(),
    )
    .unwrap();
    let word = |n: u64| {
        let mut bytes = [0u8; 32];
        bytes[24..].copy_from_slice(&n.to_be_bytes());
        H256 { bytes }
    };
    let expected: Vec<(H256, H256)> = [1u64, 1000, 0x20000, 10_000_000, 10, 1]
        .iter()
        .enumerate()
        .map(|(slot, value)| (word(slot as u64), word(*value)))
        .collect();
    assert_eq!(outcome.post_state[0].1.storage, expected);
}

#[test]
fn notices_come_in_the_order_of_the_run() {
    let good = state_root(&after_transfer());
    let wrong = H256 { bytes: [0x11; 32] };
    let test = vector(vec![
        (ForkSpec::Homestead, vec![expect(good, 0)]),
        (ForkSpec::Berlin, vec![expect(good, 0), expect(wrong, 0), expect(good, 0)]),
    ]);
    let seen = std::cell::RefCell::new(Vec::new());
    let report = test_run(&test, &precompiles(), &precompiles(), &|notice| {
        seen.borrow_mut().push(notice)
    });
    assert_eq!(report.failure.unwrap().index, 1);
    assert_eq!(
        seen.into_inner(),
        vec![
            Notice::Skipping { fork: ForkSpec::Homestead },
            Notice::Running { fork: ForkSpec::Berlin, index: 0 },
            Notice::Passed { fork: ForkSpec::Berlin, index: 0 },
            Notice::Running { fork: ForkSpec::Berlin, index: 1 },
        ]
    );
}
