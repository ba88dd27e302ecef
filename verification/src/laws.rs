//! Laws of the execution model, proved once and for all over the ledger's
//! mathematical state.

use vstd::prelude::*;

use crate::account::{AccountModel, NON_UPGRADEABLE_LOADER_ID};
use crate::errors::LedgerError;
use crate::ledger::{
    all_refs_resolvable, exec_outcome, presented_payload, presented_payloads, set_effect,
    stored_version, visible_program_bytes, LedgerModel, TransactionModel,
};

verus! {

/// Idempotent read: the outcome of executing a transaction is a function of
/// the ledger state and the transaction alone, so executing the same
/// unchanged state twice yields identical log output both times.
pub proof fn lemma_idempotent_read(
    v: LedgerModel,
    t: TransactionModel,
    r1: Result<Seq<Seq<char>>, LedgerError>,
    r2: Result<Seq<Seq<char>>, LedgerError>,
)
    requires
        r1 == exec_outcome(v, t),
        r2 == exec_outcome(v, t),
    ensures
        r1 == r2,
{
}

/// Version visibility monotonicity: on the upgradeable path, once the
/// stored version has become visible — its deployment slot lies before the
/// environment's slot — it is the version that executes, and it keeps
/// executing at every later slot as long as the account set and the cache
/// are unchanged, that is, until a later-slotted version supersedes it.
pub proof fn lemma_version_visibility_monotone(
    v1: LedgerModel,
    v2: LedgerModel,
    address: u64,
    deployment_slot: u64,
    program: Seq<u8>,
)
    requires
        v2.accounts == v1.accounts,
        v2.loaded == v1.loaded,
        v1.slot <= v2.slot,
        stored_version(v1, address) == Option::Some((deployment_slot, program)),
        deployment_slot < v1.slot,
    ensures
        visible_program_bytes(v1, address) == Result::<Seq<u8>, LedgerError>::Ok(program),
        visible_program_bytes(v2, address) == Result::<Seq<u8>, LedgerError>::Ok(program),
{
}

/// Immediate non-program mutation: upserting a plain, non-executable
/// account at an address other than the executed program's is visible to
/// the very next execution — the payload the handler is presented for that
/// reference is the new payload, with no slot advance required.
pub proof fn lemma_plain_mutation_immediate(
    v: LedgerModel,
    t: TransactionModel,
    i: int,
    address: u64,
    account: AccountModel,
)
    requires
        0 <= i < t.refs.len(),
        t.refs[i].address == address,
        address != t.program_address,
        !account.executable,
    ensures
        presented_payload(set_effect(v, address, account), t, i) == account.payload,
{
}

/// A non-upgradeable program's first deployment at a fresh address is the
/// version that executes there.
pub proof fn lemma_non_upgradeable_first_deployment_visible(
    v: LedgerModel,
    address: u64,
    account: AccountModel,
)
    requires
        !v.accounts.contains_key(address),
        !v.loaded.contains_key(address),
        account.executable,
        account.owner == NON_UPGRADEABLE_LOADER_ID,
    ensures
        visible_program_bytes(set_effect(v, address, account), address) == Result::<
            Seq<u8>,
            LedgerError,
        >::Ok(account.payload),
{
}

/// A deployed non-upgradeable program is effectively immutable: writing new
/// payload bytes over it does not change which bytes execute — the version
/// the cache loaded first keeps executing, whatever the slot does afterwards.
pub proof fn lemma_non_upgradeable_overwrite_not_visible(
    v: LedgerModel,
    address: u64,
    account: AccountModel,
)
    requires
        v.accounts.contains_key(address),
        v.accounts[address].owner == NON_UPGRADEABLE_LOADER_ID,
        v.loaded.contains_key(address),
        account.executable,
        account.owner == NON_UPGRADEABLE_LOADER_ID,
    ensures
        visible_program_bytes(set_effect(v, address, account), address) == Result::<
            Seq<u8>,
            LedgerError,
        >::Ok(v.loaded[address]),
{
}

/// Out-of-range access fails: a transaction whose referenced-account list
/// has fewer than two entries produces a failed execution, never a log.
pub proof fn lemma_short_reference_list_fails(v: LedgerModel, t: TransactionModel)
    requires
        t.refs.len() < 2,
    ensures
        exec_outcome(v, t) is Err,
{
    if visible_program_bytes(v, t.program_address) is Ok && all_refs_resolvable(v, t) {
        assert(presented_payloads(v, t).len() < 2);
    }
}

} // verus!
