//! The account model: one ledger-addressable storage slot, identified by an
//! address, holding a balance, an owner, an executable flag, a payload and an
//! epoch counter. Addresses and owner identifiers are plain 64-bit values.

use vstd::prelude::*;

use crate::codec::{encode_program, encode_program_data, program_data_bytes, program_record_bytes};

verus! {

/// Owner identifier of the loader that holds non-upgradeable programs: their
/// payload is the raw program bytes.
pub const NON_UPGRADEABLE_LOADER_ID: u64 = 2;

/// Owner identifier of the upgradeable loader: its accounts are Program
/// records and ProgramData records.
pub const UPGRADEABLE_LOADER_ID: u64 = 3;

/// The rent-exempt minimum balance of an account whose payload has the given
/// length. The rent-pricing rule is an outside policy; the value is fixed by
/// the payload length alone.
pub uninterp spec fn rent_minimum(payload_len: nat) -> u64;

/// Relies on solana_program::rent::Rent::minimum_balance: the rent-exempt
/// minimum balance under the default rent schedule, a value the payload
/// length alone determines.
#[verifier::external_body]
fn rent_exempt_minimum(payload_len: usize) -> (r: u64)
    ensures
        r == rent_minimum(payload_len as nat),
{
    solana_program::rent::Rent::default().minimum_balance(payload_len)
}

/// One account's full state. The address is not part of the state: the
/// ledger keys accounts by address.
pub struct Account {
    /// The balance, at least the rent-exempt minimum in every account the
    /// builders below produce.
    pub balance: u64,
    /// The stored byte payload.
    pub payload: Vec<u8>,
    /// The identifier of the program allowed to mutate the payload.
    pub owner: u64,
    /// Whether the account holds program code or program metadata.
    pub executable: bool,
    /// A monotonic counter, informational only.
    pub epoch: u64,
}

/// The mathematical value of an account: its payload as a byte sequence.
pub struct AccountModel {
    pub balance: u64,
    pub payload: Seq<u8>,
    pub owner: u64,
    pub executable: bool,
    pub epoch: u64,
}

impl AccountModel {
    /// The account's balance meets the rent-exempt minimum for its payload.
    pub open spec fn rent_exempt(self) -> bool {
        self.balance >= rent_minimum(self.payload.len())
    }
}

impl View for Account {
    type V = AccountModel;

    open spec fn view(&self) -> AccountModel {
        AccountModel {
            balance: self.balance,
            payload: self.payload@,
            owner: self.owner,
            executable: self.executable,
            epoch: self.epoch,
        }
    }
}

impl Account {
    /// Constructs an account from its five attributes.
    pub fn new(balance: u64, payload: Vec<u8>, owner: u64, executable: bool, epoch: u64) -> (r:
        Account)
        ensures
            r@ == (AccountModel { balance, payload: payload@, owner, executable, epoch }),
    {
        Account { balance, payload, owner, executable, epoch }
    }
}

impl Account {
    /// An account identical to this one except that it holds `payload`.
    pub fn with_payload(&self, payload: Vec<u8>) -> (r: Account)
        ensures
            r@ == (AccountModel { payload: payload@, ..self@ }),
    {
        Account {
            balance: self.balance,
            payload,
            owner: self.owner,
            executable: self.executable,
            epoch: self.epoch,
        }
    }
}

/// Copies a byte vector.
pub fn clone_bytes(v: &Vec<u8>) -> (r: Vec<u8>)
    ensures
        r@ == v@,
{
    let mut out: Vec<u8> = Vec::new();
    let mut i: usize = 0;
    while i < v.len()
        invariant
            i <= v@.len(),
            out@ == v@.subrange(0, i as int),
        decreases v@.len() - i,
    {
        out.push(v[i]);
        i = i + 1;
        proof {
            assert(out@ =~= v@.subrange(0, i as int));
        }
    }
    proof {
        assert(v@.subrange(0, v@.len() as int) =~= v@);
    }
    out
}

/// Builds an account that holds `payload` with exactly the rent-exempt
/// minimum balance for that payload (and at least one unit), at epoch zero.
pub fn rent_exempt_account(payload: Vec<u8>, owner: u64, executable: bool) -> (r: Account)
    ensures
        r@ == (AccountModel {
            balance: if rent_minimum(payload@.len()) >= 1 {
                rent_minimum(payload@.len())
            } else {
                1
            },
            payload: payload@,
            owner,
            executable,
            epoch: 0,
        }),
        r@.rent_exempt(),
{
    let min = rent_exempt_minimum(payload.len());
    let balance = if min >= 1 {
        min
    } else {
        1
    };
    Account::new(balance, payload, owner, executable, 0)
}

/// Builds the account of a non-upgradeable program: the raw program bytes as
/// payload, owned by the non-upgradeable loader, marked executable.
pub fn non_upgradeable_program_account(program: Vec<u8>) -> (r: Account)
    ensures
        r@.payload == program@,
        r@.owner == NON_UPGRADEABLE_LOADER_ID,
        r@.executable,
        r@.epoch == 0,
        r@.rent_exempt(),
{
    rent_exempt_account(program, NON_UPGRADEABLE_LOADER_ID, true)
}

/// Builds the Program account of an upgradeable deployment: the fixed-size
/// record pointing at `program_data_address`, owned by the upgradeable
/// loader, marked executable.
pub fn upgradeable_program_account(program_data_address: u64) -> (r: Account)
    ensures
        r@.payload == program_record_bytes(program_data_address),
        r@.owner == UPGRADEABLE_LOADER_ID,
        r@.executable,
        r@.epoch == 0,
        r@.rent_exempt(),
{
    rent_exempt_account(encode_program(program_data_address), UPGRADEABLE_LOADER_ID, true)
}

/// Builds the ProgramData account of an upgradeable deployment: the header
/// recording `deployment_slot` (with no upgrade authority) followed by the
/// program bytes, owned by the upgradeable loader.
pub fn program_data_account(program: &Vec<u8>, deployment_slot: u64) -> (r: Account)
    ensures
        r@.payload == program_data_bytes(deployment_slot, Option::None, program@),
        r@.owner == UPGRADEABLE_LOADER_ID,
        r@.executable,
        r@.epoch == 0,
        r@.rent_exempt(),
{
    rent_exempt_account(
        encode_program_data(deployment_slot, Option::None, program),
        UPGRADEABLE_LOADER_ID,
        true,
    )
}

} // verus!
