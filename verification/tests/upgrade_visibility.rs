//! The upgrade-visibility scenarios: which program version executes after
//! deployments, upgrades, re-pointings, and slot advances.

use helloworld::account::{
    program_data_account, rent_exempt_account, upgradeable_program_account, UPGRADEABLE_LOADER_ID,
};
use helloworld::errors::LedgerError;
use helloworld::ledger::{
    set_non_upgradeable_program_account, simulate_transaction, simulate_transaction_with_account,
    Ledger,
};

#[test]
fn test_set_non_upgradeable_program_account_does_not_work() {
    let program_id = 100;

    let mut context = Ledger::new();

    set_non_upgradeable_program_account(&mut context, program_id, vec![0]);

    let result = simulate_transaction(&context, program_id);
    assert_eq!(
        result.unwrap()[1],
        "Program log: Hello World Rust program entrypoint 0"
    );

    set_non_upgradeable_program_account(&mut context, program_id, vec![1]);

    context.advance_slot(2).unwrap();

    let result = simulate_transaction(&context, program_id);
    assert_eq!(
        result.unwrap()[1],
        "Program log: Hello World Rust program entrypoint 0"
    );
}

#[test]
fn test_upgradeable_program_account_set_program_data_account_data_works() {
    let program_id = 100;

    let mut context = Ledger::new();

    let program_data_address = 200;
    context.set_account(program_id, upgradeable_program_account(program_data_address));

    context.set_account(program_data_address, program_data_account(&vec![0], 0));

    let result = simulate_transaction(&context, program_id);
    assert_eq!(
        result.unwrap()[1],
        "Program log: Hello World Rust program entrypoint 0"
    );

    context.set_account(program_data_address, program_data_account(&vec![1], 1));

    context.advance_slot(2).unwrap();

    let result = simulate_transaction(&context, program_id);
    assert_eq!(
        result.unwrap()[1],
        "Program log: Hello World Rust program entrypoint 1"
    );
}

#[test]
fn test_upgradeable_program_account_set_program_data_account_address_works() {
    let program_id = 100;

    let mut context = Ledger::new();

    let program_data_address = 200;
    context.set_account(program_id, upgradeable_program_account(program_data_address));

    context.set_account(program_data_address, program_data_account(&vec![1], 0));

    let result = simulate_transaction(&context, program_id);
    assert_eq!(
        result.unwrap()[1],
        "Program log: Hello World Rust program entrypoint 1"
    );

    context.advance_slot(2).unwrap();

    let program_data_address = 201;
    context.set_account(program_id, upgradeable_program_account(program_data_address));
    context.set_account(program_data_address, program_data_account(&vec![0], 2));

    context.advance_slot(3).unwrap();

    let result = simulate_transaction(&context, program_id);
    assert_eq!(
        result.unwrap()[1],
        "Program log: Hello World Rust program entrypoint 0"
    );
}

#[test]
fn test_set_non_program_account_works() {
    let program_id = 100;

    let mut context = Ledger::new();

    let program_data_address = 200;
    context.set_account(program_id, upgradeable_program_account(program_data_address));
    context.set_account(program_data_address, program_data_account(&vec![0], 0));

    let account_address = 300;

    context.set_account(
        account_address,
        rent_exempt_account(vec![123], UPGRADEABLE_LOADER_ID, true),
    );

    let result = simulate_transaction_with_account(&context, program_id, account_address);
    assert_eq!(
        result.unwrap()[1],
        "Program log: Hello World Rust program entrypoint 123"
    );

    context.set_account(
        account_address,
        rent_exempt_account(vec![234], UPGRADEABLE_LOADER_ID, true),
    );

    let result = simulate_transaction_with_account(&context, program_id, account_address);
    assert_eq!(
        result.unwrap()[1],
        "Program log: Hello World Rust program entrypoint 234"
    );
}

#[test]
fn executing_unchanged_state_twice_gives_identical_logs() {
    let program_id = 7;
    let mut context = Ledger::new();
    let program_data_address = 8;
    context.set_account(program_id, upgradeable_program_account(program_data_address));
    context.set_account(program_data_address, program_data_account(&vec![42], 0));

    let first = simulate_transaction(&context, program_id).unwrap();
    let second = simulate_transaction(&context, program_id).unwrap();
    assert_eq!(first, second);
    assert_eq!(
        first[1],
        "Program log: Hello World Rust program entrypoint 42"
    );
}

#[test]
fn visible_version_stays_visible_as_slots_pass() {
    let program_id = 7;
    let mut context = Ledger::new();
    let program_data_address = 8;
    context.set_account(program_id, upgradeable_program_account(program_data_address));
    context.set_account(program_data_address, program_data_account(&vec![5], 0));

    let result = simulate_transaction(&context, program_id);
    assert_eq!(
        result.unwrap()[1],
        "Program log: Hello World Rust program entrypoint 5"
    );

    context.advance_slot(50).unwrap();
    let result = simulate_transaction(&context, program_id);
    assert_eq!(
        result.unwrap()[1],
        "Program log: Hello World Rust program entrypoint 5"
    );
}

#[test]
fn plain_account_mutation_is_visible_with_no_slot_advance() {
    let program_id = 7;
    let mut context = Ledger::new();
    let program_data_address = 8;
    context.set_account(program_id, upgradeable_program_account(program_data_address));
    context.set_account(program_data_address, program_data_account(&vec![0], 0));

    let target = 9;
    context.set_account(target, rent_exempt_account(vec![17], 0, false));
    let result = simulate_transaction_with_account(&context, program_id, target);
    assert_eq!(
        result.unwrap()[1],
        "Program log: Hello World Rust program entrypoint 17"
    );

    context.set_account(target, rent_exempt_account(vec![18], 0, false));
    let result = simulate_transaction_with_account(&context, program_id, target);
    assert_eq!(
        result.unwrap()[1],
        "Program log: Hello World Rust program entrypoint 18"
    );
}

#[test]
fn upgrade_not_yet_past_slot_keeps_old_version_executing() {
    let program_id = 7;
    let mut context = Ledger::new();
    let program_data_address = 8;
    context.set_account(program_id, upgradeable_program_account(program_data_address));
    context.set_account(program_data_address, program_data_account(&vec![0], 0));

    let result = simulate_transaction(&context, program_id);
    assert_eq!(
        result.unwrap()[1],
        "Program log: Hello World Rust program entrypoint 0"
    );

    // the replacement is tagged at the current slot, which has not passed yet
    context.set_account(program_data_address, program_data_account(&vec![1], 1));
    let result = simulate_transaction(&context, program_id);
    assert_eq!(
        result.unwrap()[1],
        "Program log: Hello World Rust program entrypoint 0"
    );
}

#[test]
fn first_deployment_at_current_slot_is_not_visible() {
    let program_id = 7;
    let mut context = Ledger::new();
    let program_data_address = 8;
    context.set_account(program_id, upgradeable_program_account(program_data_address));
    // deployed at slot 1 while the environment is still at slot 1
    context.set_account(program_data_address, program_data_account(&vec![3], 1));

    let result = simulate_transaction(&context, program_id);
    assert_eq!(result, Err(LedgerError::ProgramNotVisible));

    context.advance_slot(2).unwrap();
    let result = simulate_transaction(&context, program_id);
    assert_eq!(
        result.unwrap()[1],
        "Program log: Hello World Rust program entrypoint 3"
    );
}
