use jsontests::fork::{ForkSpec, Ruleset};
use jsontests::precompile::{ExitError, ExitSucceed, JsonPrecompile, PrecompileFailure};
use jsontests::primitives::{H160, U256};

fn out_of_gas() -> PrecompileFailure {
    PrecompileFailure::Error { exit_status: ExitError::OutOfGas }
}

#[test]
fn registry_of_istanbul_binds_one_to_nine() {
    let entries = JsonPrecompile::precompile(&ForkSpec::Istanbul).unwrap();
    assert_eq!(entries.len(), 9);
    for (i, entry) in entries.iter().enumerate() {
        assert_eq!(entry.address, H160::from_low_u64_be(i as u64 + 1));
        assert_eq!(entry.index, i as u64 + 1);
        assert_eq!(entry.ruleset, Ruleset::Istanbul);
    }
}

#[test]
fn registry_of_berlin_binds_one_to_nine() {
    let entries = JsonPrecompile::precompile(&ForkSpec::Berlin).unwrap();
    assert_eq!(entries.len(), 9);
    for (i, entry) in entries.iter().enumerate() {
        assert_eq!(entry.address, H160::from_low_u64_be(i as u64 + 1));
        assert_eq!(entry.index, i as u64 + 1);
        assert_eq!(entry.ruleset, Ruleset::Berlin);
    }
}

#[test]
fn unsupported_forks_have_no_registry() {
    for fork in [
        ForkSpec::Frontier,
        ForkSpec::Homestead,
        ForkSpec::EIP150,
        ForkSpec::EIP158,
        ForkSpec::Byzantium,
        ForkSpec::Constantinople,
        ForkSpec::ConstantinopleFix,
        ForkSpec::London,
        ForkSpec::HomesteadToDaoAt5,
    ] {
        assert_eq!(JsonPrecompile::precompile(&fork), None);
        assert_eq!(fork.settings(), None);
    }
}

#[test]
fn supported_forks_delete_empty_accounts() {
    let istanbul = ForkSpec::Istanbul.settings().unwrap();
    assert_eq!(istanbul.ruleset, Ruleset::Istanbul);
    assert!(istanbul.delete_empty);
    let berlin = ForkSpec::Berlin.settings().unwrap();
    assert_eq!(berlin.ruleset, Ruleset::Berlin);
    assert!(berlin.delete_empty);
}

#[test]
fn builtin_paths_and_fork_names() {
    assert_eq!(Ruleset::Istanbul.builtins_path(), "./res/istanbul_builtins.json");
    assert_eq!(Ruleset::Berlin.builtins_path(), "./res/berlin_builtins.json");
    assert_eq!(ForkSpec::Berlin.name(), "Berlin");
    assert_eq!(ForkSpec::EIP158ToByzantiumAt5.name(), "EIP158ToByzantiumAt5");
}

#[test]
fn limit_below_cost_is_out_of_gas() {
    let cost = U256::from_u64(3000);
    assert_eq!(JsonPrecompile::charge(&cost, Some(2999)), Err(out_of_gas()));
    assert_eq!(JsonPrecompile::charge(&cost, Some(0)), Err(out_of_gas()));
}

#[test]
fn limit_at_or_above_cost_charges_the_cost() {
    let cost = U256::from_u64(3000);
    assert_eq!(JsonPrecompile::charge(&cost, Some(3000)), Ok(3000));
    assert_eq!(JsonPrecompile::charge(&cost, Some(u64::MAX)), Ok(3000));
    assert_eq!(JsonPrecompile::charge(&U256::zero(), Some(0)), Ok(0));
}

#[test]
fn no_limit_charges_the_cost() {
    assert_eq!(JsonPrecompile::charge(&U256::from_u64(15), None), Ok(15));
    assert_eq!(JsonPrecompile::charge(&U256::from_u64(u64::MAX), None), Ok(u64::MAX));
}

#[test]
fn cost_beyond_u64_is_out_of_gas_under_any_limit() {
    let cost = U256 { limbs: [0, 1, 0, 0] };
    assert_eq!(JsonPrecompile::charge(&cost, Some(u64::MAX)), Err(out_of_gas()));
    let huge = U256 { limbs: [5, 0, 0, 1] };
    assert_eq!(JsonPrecompile::charge(&huge, Some(5)), Err(out_of_gas()));
}

#[test]
fn conclude_success_has_output_cost_and_no_logs() {
    let r = JsonPrecompile::conclude(60, vec![1, 2, 3], Ok(())).unwrap();
    assert_eq!(r.exit_status, ExitSucceed::Stopped);
    assert_eq!(r.cost, 60);
    assert_eq!(r.output, vec![1, 2, 3]);
    assert!(r.logs.is_empty());
}

#[test]
fn conclude_failure_wraps_the_message() {
    let r = JsonPrecompile::conclude(60, vec![1], Err("bad input".to_string()));
    assert_eq!(
        r,
        Err(PrecompileFailure::Error { exit_status: ExitError::Other("bad input".to_string()) })
    );
}

#[test]
fn registry_of_a_ruleset_is_that_of_its_fork() {
    assert_eq!(
        Some(JsonPrecompile::registry(Ruleset::Istanbul)),
        JsonPrecompile::precompile(&ForkSpec::Istanbul)
    );
    assert_eq!(
        Some(JsonPrecompile::registry(Ruleset::Berlin)),
        JsonPrecompile::precompile(&ForkSpec::Berlin)
    );
}
