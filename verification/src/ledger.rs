//! The simulated execution environment: a set of accounts keyed by address,
//! a logical clock (the slot), and a cache of loaded program bytes per
//! address. The cache is what makes program upgrades slot-gated: an
//! executable account's stored payload is not necessarily the payload that
//! executes.
//!
//! The visibility rules: a non-upgradeable program executes the bytes it was
//! first deployed with, whatever is later written over its account. An
//! upgradeable program executes the bytes of the ProgramData account its
//! Program record points at — but only once the environment's slot has
//! passed the recorded deployment slot; until then the previously visible
//! version (remembered in the cache when the ProgramData payload was
//! overwritten) keeps executing. Accounts other than the executed program
//! are always read as stored, so their mutations are visible immediately.

use std::collections::HashMap;

use vstd::prelude::*;
use vstd::string::StringExecFns;

use crate::account::{
    clone_bytes, non_upgradeable_program_account, Account, AccountModel,
    NON_UPGRADEABLE_LOADER_ID, UPGRADEABLE_LOADER_ID,
};
use crate::codec::{decode_program, decode_program_data, spec_decode_program, spec_decode_program_data};
use crate::errors::LedgerError;
use crate::handler::{handle_instruction, payloads_of, spec_handle};

verus! {

broadcast use vstd::std_specs::hash::group_hash_axioms;

/// One account reference of a transaction: an address plus the access flags
/// the caller asks for.
#[derive(Clone, Copy, PartialEq, Eq, Structural)]
pub struct AccountRef {
    pub address: u64,
    pub writable: bool,
    pub signer: bool,
}

impl AccountRef {
    /// A read-only, non-signing reference to `address`.
    pub fn readonly(address: u64) -> (r: AccountRef)
        ensures
            r == (AccountRef { address, writable: false, signer: false }),
    {
        AccountRef { address, writable: false, signer: false }
    }
}

/// A transaction: the address of the program to run, the ordered account
/// references, and opaque instruction bytes (unused by this program, and
/// allowed to be empty).
pub struct Transaction {
    pub program_address: u64,
    pub refs: Vec<AccountRef>,
    pub instruction_data: Vec<u8>,
}

/// The mathematical value of a transaction.
pub struct TransactionModel {
    pub program_address: u64,
    pub refs: Seq<AccountRef>,
    pub instruction_data: Seq<u8>,
}

impl View for Transaction {
    type V = TransactionModel;

    open spec fn view(&self) -> TransactionModel {
        TransactionModel {
            program_address: self.program_address,
            refs: self.refs@,
            instruction_data: self.instruction_data@,
        }
    }
}

impl Transaction {
    /// Builds a transaction from its three parts.
    pub fn new(program_address: u64, refs: Vec<AccountRef>, instruction_data: Vec<u8>) -> (r:
        Transaction)
        ensures
            r@ == (TransactionModel {
                program_address,
                refs: refs@,
                instruction_data: instruction_data@,
            }),
    {
        Transaction { program_address, refs, instruction_data }
    }
}

/// The execution environment's state.
pub struct Ledger {
    /// The current account set, keyed by address.
    pub accounts: HashMap<u64, Account>,
    /// Loaded program bytes by address: for a non-upgradeable program the
    /// bytes it was first deployed with, for a ProgramData address the last
    /// version that became visible before its payload was overwritten.
    pub loaded: HashMap<u64, Vec<u8>>,
    /// The logical time. It starts just past the genesis slot and only
    /// moves forward.
    pub slot: u64,
}

/// The mathematical value of the environment's state.
pub struct LedgerModel {
    pub accounts: Map<u64, AccountModel>,
    pub loaded: Map<u64, Seq<u8>>,
    pub slot: u64,
}

impl View for Ledger {
    type V = LedgerModel;

    open spec fn view(&self) -> LedgerModel {
        LedgerModel {
            accounts: self.accounts@.map_values(|a: Account| a@),
            loaded: self.loaded@.map_values(|v: Vec<u8>| v@),
            slot: self.slot,
        }
    }
}

/// The ProgramData record an account holds, if its owner is the upgradeable
/// loader and its payload decodes: the deployment slot and the program bytes.
pub open spec fn program_data_record(a: AccountModel) -> Option<(u64, Seq<u8>)> {
    if a.owner == UPGRADEABLE_LOADER_ID && spec_decode_program_data(a.payload) is Ok {
        let (dslot, _authority, program) = spec_decode_program_data(a.payload)->Ok_0;
        Option::Some((dslot, program))
    } else {
        Option::None
    }
}

/// Which program bytes execute for the program at `address`, under the
/// slot-visibility rules described at the top of this module.
pub open spec fn visible_program_bytes(v: LedgerModel, address: u64) -> Result<
    Seq<u8>,
    LedgerError,
> {
    if !v.accounts.contains_key(address) {
        Result::Err(LedgerError::ProgramNotFound)
    } else {
        let a = v.accounts[address];
        if !a.executable {
            Result::Err(LedgerError::ProgramNotFound)
        } else if a.owner == NON_UPGRADEABLE_LOADER_ID {
            if v.loaded.contains_key(address) {
                Result::Ok(v.loaded[address])
            } else {
                Result::Ok(a.payload)
            }
        } else if a.owner == UPGRADEABLE_LOADER_ID {
            if spec_decode_program(a.payload) is Err {
                Result::Err(LedgerError::MalformedLayout)
            } else {
                let data_address = spec_decode_program(a.payload)->Ok_0;
                if !v.accounts.contains_key(data_address) {
                    Result::Err(LedgerError::AccountNotFound)
                } else {
                    match program_data_record(v.accounts[data_address]) {
                        Option::None => Result::Err(LedgerError::MalformedLayout),
                        Option::Some((dslot, program)) => {
                            if dslot < v.slot {
                                Result::Ok(program)
                            } else if v.loaded.contains_key(data_address) {
                                Result::Ok(v.loaded[data_address])
                            } else {
                                Result::Err(LedgerError::ProgramNotVisible)
                            }
                        },
                    }
                }
            }
        } else {
            Result::Err(LedgerError::ProgramNotFound)
        }
    }
}

/// The loaded-cache contents after upserting `account` at `address`. A
/// visible ProgramData payload about to be overwritten is remembered as the
/// previously visible version; the first deployment of a non-upgradeable
/// program is remembered as the version that will keep executing; any other
/// upsert leaves the cache unchanged.
pub open spec fn loaded_after_set(v: LedgerModel, address: u64, account: AccountModel) -> Map<
    u64,
    Seq<u8>,
> {
    if v.accounts.contains_key(address) && program_data_record(v.accounts[address]) is Some
        && program_data_record(v.accounts[address])->Some_0.0 < v.slot {
        v.loaded.insert(address, program_data_record(v.accounts[address])->Some_0.1)
    } else if account.executable && account.owner == NON_UPGRADEABLE_LOADER_ID
        && !v.loaded.contains_key(address) {
        v.loaded.insert(address, account.payload)
    } else {
        v.loaded
    }
}

/// The environment's state after upserting `account` at `address`: the
/// account set is updated at once, the slot does not move, and the cache is
/// maintained as `loaded_after_set` says.
pub open spec fn set_effect(v: LedgerModel, address: u64, account: AccountModel) -> LedgerModel {
    LedgerModel {
        accounts: v.accounts.insert(address, account),
        loaded: loaded_after_set(v, address, account),
        slot: v.slot,
    }
}

impl Ledger {
    /// A fresh environment: no accounts, nothing loaded, and the slot just
    /// past the genesis slot, so a version recorded at slot zero is already
    /// visible.
    pub fn new() -> (r: Ledger)
        ensures
            r@ == (LedgerModel {
                accounts: Map::<u64, AccountModel>::empty(),
                loaded: Map::<u64, Seq<u8>>::empty(),
                slot: 1,
            }),
    {
        let r = Ledger { accounts: HashMap::new(), loaded: HashMap::new(), slot: 1 };
        proof {
            assert(r@.accounts =~= Map::<u64, AccountModel>::empty());
            assert(r@.loaded =~= Map::<u64, Seq<u8>>::empty());
        }
        r
    }

    /// The environment's current slot.
    pub fn current_slot(&self) -> (r: u64)
        ensures
            r == self@.slot,
    {
        self.slot
    }

    /// Upserts an account's full state. The new state is in the account set
    /// at once; whether it is also what executes is governed by the
    /// visibility rules, through the cache update stated here.
    pub fn set_account(&mut self, address: u64, account: Account)
        ensures
            final(self)@ == set_effect(old(self)@, address, account@),
    {
        let ghost old_model = self@;
        let mut captured: Option<Vec<u8>> = Option::None;
        match self.accounts.get(&address) {
            Option::Some(prev) => {
                proof {
                    assert(old_model.accounts.contains_key(address));
                    assert(old_model.accounts[address] == prev@);
                }
                if prev.owner == UPGRADEABLE_LOADER_ID {
                    match decode_program_data(&prev.payload) {
                        Result::Ok((dslot, _authority, program)) => {
                            proof {
                                assert(program_data_record(prev@) == Option::Some(
                                    (dslot, program@),
                                ));
                            }
                            if dslot < self.slot {
                                captured = Option::Some(program);
                            }
                        },
                        Result::Err(_) => {
                            proof {
                                assert(program_data_record(prev@) is None);
                            }
                        },
                    }
                }
            },
            Option::None => {},
        }
        let ghost capture_wanted = old_model.accounts.contains_key(address)
            && program_data_record(old_model.accounts[address]) is Some && program_data_record(
            old_model.accounts[address],
        )->Some_0.0 < old_model.slot;
        proof {
            if capture_wanted {
                assert(captured matches Option::Some(p) && p@ == program_data_record(
                    old_model.accounts[address],
                )->Some_0.1);
            } else {
                assert(captured is None);
            }
        }
        match captured {
            Option::Some(program) => {
                let ghost program_view = program@;
                let ghost loaded_before = self.loaded@;
                self.loaded.insert(address, program);
                proof {
                    assert(self.loaded@ == loaded_before.insert(address, program));
                    assert(self@.loaded =~= old_model.loaded.insert(address, program_view));
                    assert(self@.loaded == loaded_after_set(old_model, address, account@));
                }
            },
            Option::None => {
                if account.executable && account.owner == NON_UPGRADEABLE_LOADER_ID
                    && !self.loaded.contains_key(&address) {
                    proof {
                        assert(!old_model.loaded.contains_key(address));
                    }
                    let copy = clone_bytes(&account.payload);
                    let ghost copy_snapshot = copy;
                    let ghost loaded_before = self.loaded@;
                    self.loaded.insert(address, copy);
                    proof {
                        assert(self.loaded@ == loaded_before.insert(address, copy_snapshot));
                        assert(self@.loaded =~= old_model.loaded.insert(
                            address,
                            account@.payload,
                        ));
                        assert(self@.loaded == loaded_after_set(old_model, address, account@));
                    }
                } else {
                    proof {
                        assert(self@.loaded =~= loaded_after_set(old_model, address, account@));
                    }
                }
            },
        }
        let ghost account_view = account@;
        self.accounts.insert(address, account);
        proof {
            assert(self@.accounts =~= old_model.accounts.insert(address, account_view));
            assert(self@ == set_effect(old_model, address, account_view));
        }
    }

    /// Moves the logical time forward to `target_slot`. Fails, changing
    /// nothing, unless the target is strictly beyond the current slot.
    pub fn advance_slot(&mut self, target_slot: u64) -> (r: Result<(), LedgerError>)
        ensures
            old(self)@.slot < target_slot ==> r == Result::<(), LedgerError>::Ok(())
                && final(self)@ == (LedgerModel { slot: target_slot, ..old(self)@ }),
            old(self)@.slot >= target_slot ==> r == Result::<(), LedgerError>::Err(
                LedgerError::SlotNotAdvancing,
            ) && final(self)@ == old(self)@,
    {
        if self.slot < target_slot {
            self.slot = target_slot;
            Result::Ok(())
        } else {
            Result::Err(LedgerError::SlotNotAdvancing)
        }
    }

    /// The program bytes that would execute right now for the program at
    /// `address`, under the visibility rules.
    pub fn visible_program(&self, address: u64) -> (r: Result<Vec<u8>, LedgerError>)
        ensures
            match r {
                Result::Ok(b) => visible_program_bytes(self@, address) == Result::<
                    Seq<u8>,
                    LedgerError,
                >::Ok(b@),
                Result::Err(e) => visible_program_bytes(self@, address) == Result::<
                    Seq<u8>,
                    LedgerError,
                >::Err(e),
            },
    {
        let a = match self.accounts.get(&address) {
            Option::None => {
                return Result::Err(LedgerError::ProgramNotFound);
            },
            Option::Some(a) => a,
        };
        proof {
            assert(self@.accounts.contains_key(address));
            assert(self@.accounts[address] == a@);
        }
        if !a.executable {
            return Result::Err(LedgerError::ProgramNotFound);
        }
        if a.owner == NON_UPGRADEABLE_LOADER_ID {
            match self.loaded.get(&address) {
                Option::Some(b) => {
                    proof {
                        assert(self@.loaded.contains_key(address));
                        assert(self@.loaded[address] == b@);
                    }
                    Result::Ok(clone_bytes(b))
                },
                Option::None => {
                    proof {
                        assert(!self@.loaded.contains_key(address));
                    }
                    Result::Ok(clone_bytes(&a.payload))
                },
            }
        } else if a.owner == UPGRADEABLE_LOADER_ID {
            let data_address = match decode_program(&a.payload) {
                Result::Err(_) => {
                    return Result::Err(LedgerError::MalformedLayout);
                },
                Result::Ok(d) => d,
            };
            let d = match self.accounts.get(&data_address) {
                Option::None => {
                    return Result::Err(LedgerError::AccountNotFound);
                },
                Option::Some(d) => d,
            };
            proof {
                assert(self@.accounts.contains_key(data_address));
                assert(self@.accounts[data_address] == d@);
            }
            if d.owner != UPGRADEABLE_LOADER_ID {
                return Result::Err(LedgerError::MalformedLayout);
            }
            match decode_program_data(&d.payload) {
                Result::Err(_) => Result::Err(LedgerError::MalformedLayout),
                Result::Ok((dslot, _authority, program)) => {
                    proof {
                        assert(program_data_record(d@) == Option::Some((dslot, program@)));
                    }
                    if dslot < self.slot {
                        Result::Ok(program)
                    } else {
                        match self.loaded.get(&data_address) {
                            Option::Some(b) => {
                                proof {
                                    assert(self@.loaded.contains_key(data_address));
                                    assert(self@.loaded[data_address] == b@);
                                }
                                Result::Ok(clone_bytes(b))
                            },
                            Option::None => {
                                proof {
                                    assert(!self@.loaded.contains_key(data_address));
                                }
                                Result::Err(LedgerError::ProgramNotVisible)
                            },
                        }
                    }
                },
            }
        } else {
            Result::Err(LedgerError::ProgramNotFound)
        }
    }
}

/// Whether every address the transaction references is resolvable: it is
/// the executed program itself or an account in the current set.
pub open spec fn all_refs_resolvable(v: LedgerModel, t: TransactionModel) -> bool {
    forall|i: int|
        0 <= i < t.refs.len() ==> (t.refs[i].address == t.program_address
            || v.accounts.contains_key(t.refs[i].address))
}

/// The payload the handler sees for reference `i`: the executed program's
/// account is presented in its loaded, visible form; any other account is
/// presented as stored.
pub open spec fn presented_payload(v: LedgerModel, t: TransactionModel, i: int) -> Seq<u8>
    recommends
        0 <= i < t.refs.len(),
{
    let address = t.refs[i].address;
    if address == t.program_address {
        visible_program_bytes(v, address)->Ok_0
    } else {
        v.accounts[address].payload
    }
}

/// The payloads the handler sees, in reference order.
pub open spec fn presented_payloads(v: LedgerModel, t: TransactionModel) -> Seq<Seq<u8>> {
    Seq::new(t.refs.len(), |i: int| presented_payload(v, t, i))
}

/// The log lines of a successful execution: the environment's invocation
/// line, then the handler's record as a program log line.
pub open spec fn spec_logs(record: Seq<char>) -> Seq<Seq<char>> {
    seq!["Program invoke [1]"@, "Program log: "@ + record]
}

/// The outcome of executing `t` against state `v`: the visible program is
/// resolved first, then every reference, then the instruction handler runs
/// on the presented payloads; the first failure is the transaction's.
pub open spec fn exec_outcome(v: LedgerModel, t: TransactionModel) -> Result<
    Seq<Seq<char>>,
    LedgerError,
> {
    if visible_program_bytes(v, t.program_address) is Err {
        Result::Err(visible_program_bytes(v, t.program_address)->Err_0)
    } else if !all_refs_resolvable(v, t) {
        Result::Err(LedgerError::AccountNotFound)
    } else {
        match spec_handle(presented_payloads(v, t)) {
            Result::Err(e) => Result::Err(e),
            Result::Ok(record) => Result::Ok(spec_logs(record)),
        }
    }
}

impl Ledger {
    /// Executes `tx` against the current state and returns the emitted log
    /// lines, or the failure outcome of an invalid transaction. The
    /// environment itself is left untouched: executing reads the state, so
    /// repeating it on an unchanged state repeats its outcome.
    pub fn execute(&self, tx: &Transaction) -> (r: Result<Vec<String>, LedgerError>)
        ensures
            match r {
                Result::Ok(logs) => exec_outcome(self@, tx@) matches Result::Ok(l) && logs@.len()
                    == l.len() && (forall|i: int| 0 <= i < l.len() ==> logs@[i]@ == l[i]),
                Result::Err(e) => exec_outcome(self@, tx@) == Result::<
                    Seq<Seq<char>>,
                    LedgerError,
                >::Err(e),
            },
    {
        let program_bytes = match self.visible_program(tx.program_address) {
            Result::Err(e) => {
                return Result::Err(e);
            },
            Result::Ok(b) => b,
        };
        let mut presented: Vec<Account> = Vec::new();
        let mut i: usize = 0;
        let n = tx.refs.len();
        while i < n
            invariant
                n == tx.refs@.len(),
                i <= n,
                visible_program_bytes(self@, tx@.program_address) == Result::<
                    Seq<u8>,
                    LedgerError,
                >::Ok(program_bytes@),
                presented@.len() == i,
                forall|j: int|
                    0 <= j < i ==> (tx.refs@[j].address == tx@.program_address
                        || self@.accounts.contains_key(tx.refs@[j].address)),
                forall|j: int| 0 <= j < i ==> presented@[j]@.payload == presented_payload(
                    self@,
                    tx@,
                    j,
                ),
            decreases n - i,
        {
            let rf = tx.refs[i];
            let entry: Account;
            if rf.address == tx.program_address {
                entry = match self.accounts.get(&rf.address) {
                    Option::Some(a) => a.with_payload(clone_bytes(&program_bytes)),
                    Option::None => {
                        proof {
                            assert(false);
                        }
                        Account::new(0, Vec::new(), 0, false, 0)
                    },
                };
            } else {
                entry = match self.accounts.get(&rf.address) {
                    Option::None => {
                        proof {
                            assert(!all_refs_resolvable(self@, tx@));
                        }
                        return Result::Err(LedgerError::AccountNotFound);
                    },
                    Option::Some(a) => {
                        proof {
                            assert(self@.accounts.contains_key(rf.address));
                            assert(self@.accounts[rf.address] == a@);
                        }
                        a.with_payload(clone_bytes(&a.payload))
                    },
                };
            }
            presented.push(entry);
            i = i + 1;
        }
        proof {
            assert(all_refs_resolvable(self@, tx@));
            assert(payloads_of(presented@) =~= presented_payloads(self@, tx@));
        }
        match handle_instruction(&presented) {
            Result::Err(e) => Result::Err(e),
            Result::Ok(line) => {
                let mut logs: Vec<String> = Vec::new();
                logs.push(String::from_str("Program invoke [1]"));
                let mut program_log = String::from_str("Program log: ");
                program_log.append(line.as_str());
                logs.push(program_log);
                proof {
                    let l = exec_outcome(self@, tx@)->Ok_0;
                    assert(logs@[0]@ == l[0]);
                    assert(logs@[1]@ == l[1]);
                }
                Result::Ok(logs)
            },
        }
    }
}

/// The ProgramData record the Program account at `address` points at, if
/// the pointer resolves: the stored version of the upgradeable program.
pub open spec fn stored_version(v: LedgerModel, address: u64) -> Option<(u64, Seq<u8>)> {
    if v.accounts.contains_key(address) && v.accounts[address].executable
        && v.accounts[address].owner == UPGRADEABLE_LOADER_ID && spec_decode_program(
        v.accounts[address].payload,
    ) is Ok {
        let data_address = spec_decode_program(v.accounts[address].payload)->Ok_0;
        if v.accounts.contains_key(data_address) {
            program_data_record(v.accounts[data_address])
        } else {
            Option::None
        }
    } else {
        Option::None
    }
}

/// The transaction the harness submits to observe a program's visible
/// version: the program's own reference at index 0 and, as the account the
/// handler reads, the program again at index 1.
pub open spec fn query_transaction_model(program_id: u64) -> TransactionModel {
    TransactionModel {
        program_address: program_id,
        refs: seq![
            (AccountRef { address: program_id, writable: false, signer: false }),
            (AccountRef { address: program_id, writable: false, signer: false }),
        ],
        instruction_data: Seq::empty(),
    }
}

/// The transaction that makes the program read `account_address`: the
/// program's own reference at index 0 and the target account at index 1.
pub open spec fn target_transaction_model(program_id: u64, account_address: u64) -> TransactionModel {
    TransactionModel {
        program_address: program_id,
        refs: seq![
            (AccountRef { address: program_id, writable: false, signer: false }),
            (AccountRef { address: account_address, writable: false, signer: false }),
        ],
        instruction_data: Seq::empty(),
    }
}

/// Deploys a non-upgradeable program by upserting, at `program_id`, an
/// executable account owned by the non-upgradeable loader whose payload is
/// the raw program bytes. Whether those bytes also execute is governed by
/// the cache: the first deployment at an address sticks.
pub fn set_non_upgradeable_program_account(env: &mut Ledger, program_id: u64, program: Vec<u8>)
    ensures
        ({
            let a = final(env)@.accounts[program_id];
            &&& a.payload == program@
            &&& a.owner == NON_UPGRADEABLE_LOADER_ID
            &&& a.executable
            &&& a.epoch == 0
            &&& a.rent_exempt()
            &&& final(env)@ == set_effect(old(env)@, program_id, a)
        }),
{
    let account = non_upgradeable_program_account(program);
    env.set_account(program_id, account);
}

/// Builds and executes the version-query transaction for `program_id`.
pub fn simulate_transaction(env: &Ledger, program_id: u64) -> (r: Result<Vec<String>, LedgerError>)
    ensures
        match r {
            Result::Ok(logs) => exec_outcome(env@, query_transaction_model(program_id)) matches Result::Ok(l)
                && logs@.len() == l.len() && (forall|i: int| 0 <= i < l.len() ==> logs@[i]@ == l[i]),
            Result::Err(e) => exec_outcome(env@, query_transaction_model(program_id)) == Result::<
                Seq<Seq<char>>,
                LedgerError,
            >::Err(e),
        },
{
    let mut refs: Vec<AccountRef> = Vec::new();
    refs.push(AccountRef::readonly(program_id));
    refs.push(AccountRef::readonly(program_id));
    let tx = Transaction::new(program_id, refs, Vec::new());
    proof {
        assert(tx@.refs =~= query_transaction_model(program_id).refs);
        assert(tx@.instruction_data =~= query_transaction_model(program_id).instruction_data);
        assert(tx@ == query_transaction_model(program_id));
    }
    env.execute(&tx)
}

/// Builds and executes the transaction that makes the program at
/// `program_id` read the account at `account_address`.
pub fn simulate_transaction_with_account(
    env: &Ledger,
    program_id: u64,
    account_address: u64,
) -> (r: Result<Vec<String>, LedgerError>)
    ensures
        match r {
            Result::Ok(logs) => exec_outcome(
                env@,
                target_transaction_model(program_id, account_address),
            ) matches Result::Ok(l) && logs@.len() == l.len() && (forall|i: int|
                0 <= i < l.len() ==> logs@[i]@ == l[i]),
            Result::Err(e) => exec_outcome(
                env@,
                target_transaction_model(program_id, account_address),
            ) == Result::<Seq<Seq<char>>, LedgerError>::Err(e),
        },
{
    let mut refs: Vec<AccountRef> = Vec::new();
    refs.push(AccountRef::readonly(program_id));
    refs.push(AccountRef::readonly(account_address));
    let tx = Transaction::new(program_id, refs, Vec::new());
    proof {
        assert(tx@.refs =~= target_transaction_model(program_id, account_address).refs);
        assert(tx@.instruction_data =~= target_transaction_model(
            program_id,
            account_address,
        ).instruction_data);
        assert(tx@ == target_transaction_model(program_id, account_address));
    }
    env.execute(&tx)
}

} // verus!
