//! Byte-exact codec checks, handler unit checks, the rent rule, and one
//! input for every error variant.

use helloworld::account::{
    clone_bytes, program_data_account, rent_exempt_account, upgradeable_program_account, Account,
    NON_UPGRADEABLE_LOADER_ID, UPGRADEABLE_LOADER_ID,
};
use helloworld::codec::{
    decode_program, decode_program_data, encode_program, encode_program_data,
    PROGRAM_DATA_HEADER_SIZE, PROGRAM_RECORD_SIZE,
};
use helloworld::errors::LedgerError;
use helloworld::handler::{decimal_string, handle_instruction};
use helloworld::ledger::{
    simulate_transaction, simulate_transaction_with_account, AccountRef, Ledger, Transaction,
};

#[test]
fn program_record_bytes_are_exact() {
    let encoded = encode_program(0x0102030405060708);
    assert_eq!(encoded.len(), PROGRAM_RECORD_SIZE);
    assert_eq!(encoded, vec![2, 0, 0, 0, 8, 7, 6, 5, 4, 3, 2, 1]);
    assert_eq!(decode_program(&encoded), Ok(0x0102030405060708));
}

#[test]
fn program_data_bytes_are_exact() {
    let encoded = encode_program_data(5, Some(7), &vec![9, 10]);
    assert_eq!(encoded.len(), PROGRAM_DATA_HEADER_SIZE + 2);
    assert_eq!(
        encoded,
        vec![3, 0, 0, 0, 5, 0, 0, 0, 0, 0, 0, 0, 1, 7, 0, 0, 0, 0, 0, 0, 0, 9, 10]
    );
    let (slot, authority, program) = decode_program_data(&encoded).unwrap();
    assert_eq!(slot, 5);
    assert_eq!(authority, Some(7));
    assert_eq!(program, vec![9, 10]);
}

#[test]
fn program_data_without_authority_roundtrips() {
    let encoded = encode_program_data(0, None, &vec![0]);
    assert_eq!(
        encoded,
        vec![3, 0, 0, 0, 0, 0, 0, 0, 0, 0, 0, 0, 0, 0, 0, 0, 0, 0, 0, 0, 0, 0]
    );
    let (slot, authority, program) = decode_program_data(&encoded).unwrap();
    assert_eq!(slot, 0);
    assert_eq!(authority, None);
    assert_eq!(program, vec![0]);
}

#[test]
fn malformed_layouts_are_rejected() {
    // wrong length for a Program record
    assert_eq!(
        decode_program(&vec![2, 0, 0, 0]),
        Err(LedgerError::MalformedLayout)
    );
    // wrong tag
    assert_eq!(
        decode_program(&vec![9, 0, 0, 0, 0, 0, 0, 0, 0, 0, 0, 0]),
        Err(LedgerError::MalformedLayout)
    );
    // too short for a ProgramData header
    assert_eq!(
        decode_program_data(&vec![3, 0, 0, 0]),
        Err(LedgerError::MalformedLayout)
    );
    // invalid authority flag
    let mut bad_flag = encode_program_data(0, None, &vec![]);
    bad_flag[12] = 2;
    assert_eq!(
        decode_program_data(&bad_flag),
        Err(LedgerError::MalformedLayout)
    );
    // authority flagged absent but authority bytes not zero
    let mut bad_padding = encode_program_data(0, None, &vec![]);
    bad_padding[14] = 1;
    assert_eq!(
        decode_program_data(&bad_padding),
        Err(LedgerError::MalformedLayout)
    );
}

#[test]
fn decimal_rendering_is_exact() {
    assert_eq!(decimal_string(0).as_str(), "0");
    assert_eq!(decimal_string(7).as_str(), "7");
    assert_eq!(decimal_string(10).as_str(), "10");
    assert_eq!(decimal_string(99).as_str(), "99");
    assert_eq!(decimal_string(100).as_str(), "100");
    assert_eq!(decimal_string(123).as_str(), "123");
    assert_eq!(decimal_string(234).as_str(), "234");
    assert_eq!(decimal_string(255).as_str(), "255");
}

#[test]
fn handler_reads_the_second_account() {
    let accounts = vec![
        Account::new(1, vec![9, 9], 0, false, 0),
        Account::new(1, vec![200, 1], 0, false, 0),
    ];
    let line = handle_instruction(&accounts).unwrap();
    assert_eq!(line.as_str(), "Hello World Rust program entrypoint 200");
}

#[test]
fn handler_fails_without_a_second_account() {
    let one = vec![Account::new(1, vec![9], 0, false, 0)];
    assert_eq!(
        handle_instruction(&one),
        Err(LedgerError::AccountIndexOutOfRange)
    );
    let empty_payload = vec![
        Account::new(1, vec![9], 0, false, 0),
        Account::new(1, vec![], 0, false, 0),
    ];
    assert_eq!(
        handle_instruction(&empty_payload),
        Err(LedgerError::AccountIndexOutOfRange)
    );
}

#[test]
fn transaction_with_short_reference_list_fails_instead_of_logging() {
    let program_id = 4;
    let mut context = Ledger::new();
    let program_data_address = 5;
    context.set_account(program_id, upgradeable_program_account(program_data_address));
    context.set_account(program_data_address, program_data_account(&vec![1], 0));

    let tx = Transaction::new(program_id, vec![AccountRef::readonly(program_id)], vec![]);
    assert_eq!(
        context.execute(&tx),
        Err(LedgerError::AccountIndexOutOfRange)
    );

    let no_refs = Transaction::new(program_id, vec![], vec![]);
    assert_eq!(
        context.execute(&no_refs),
        Err(LedgerError::AccountIndexOutOfRange)
    );
}

#[test]
fn executing_an_absent_or_plain_program_fails() {
    let context = Ledger::new();
    assert_eq!(
        simulate_transaction(&context, 1),
        Err(LedgerError::ProgramNotFound)
    );

    let mut context = Ledger::new();
    context.set_account(1, rent_exempt_account(vec![1], 0, false));
    assert_eq!(
        simulate_transaction(&context, 1),
        Err(LedgerError::ProgramNotFound)
    );
}

#[test]
fn dangling_references_fail_as_account_not_found() {
    let mut context = Ledger::new();
    // the Program record points at an address that holds no account
    context.set_account(1, upgradeable_program_account(2));
    assert_eq!(
        simulate_transaction(&context, 1),
        Err(LedgerError::AccountNotFound)
    );

    // the transaction names a target address that holds no account
    context.set_account(2, program_data_account(&vec![0], 0));
    assert_eq!(
        simulate_transaction_with_account(&context, 1, 3),
        Err(LedgerError::AccountNotFound)
    );
}

#[test]
fn malformed_program_account_fails_execution() {
    let mut context = Ledger::new();
    // executable and loader-owned, but the payload is no Program record
    context.set_account(1, rent_exempt_account(vec![1, 2, 3], UPGRADEABLE_LOADER_ID, true));
    assert_eq!(
        simulate_transaction(&context, 1),
        Err(LedgerError::MalformedLayout)
    );
}

#[test]
fn slot_must_strictly_advance() {
    let mut context = Ledger::new();
    assert_eq!(context.current_slot(), 1);
    assert_eq!(context.advance_slot(1), Err(LedgerError::SlotNotAdvancing));
    assert_eq!(context.advance_slot(0), Err(LedgerError::SlotNotAdvancing));
    assert_eq!(context.current_slot(), 1);
    assert_eq!(context.advance_slot(2), Ok(()));
    assert_eq!(context.current_slot(), 2);
    assert_eq!(context.advance_slot(2), Err(LedgerError::SlotNotAdvancing));
}

#[test]
fn rent_exempt_balances_follow_the_default_rent_rule() {
    // (128 + payload length) * 3480 lamports per byte-year, over two years
    let empty = rent_exempt_account(vec![], 0, false);
    assert_eq!(empty.balance, 890_880);
    let one_byte = rent_exempt_account(vec![5], 0, false);
    assert_eq!(one_byte.balance, 897_840);
    assert_eq!(one_byte.payload, vec![5]);
    assert_eq!(one_byte.epoch, 0);
}

#[test]
fn non_upgradeable_first_deployment_sticks() {
    let mut context = Ledger::new();
    context.set_account(
        1,
        rent_exempt_account(vec![7], NON_UPGRADEABLE_LOADER_ID, true),
    );
    context.set_account(
        1,
        rent_exempt_account(vec![8], NON_UPGRADEABLE_LOADER_ID, true),
    );
    assert_eq!(context.visible_program(1), Ok(vec![7]));
}

#[test]
fn clone_bytes_copies_exactly() {
    let v = vec![1, 2, 3];
    assert_eq!(clone_bytes(&v), v);
    let empty: Vec<u8> = vec![];
    assert_eq!(clone_bytes(&empty), empty);
}
