//! The instruction handler: given the accounts a transaction references, it
//! reads the first byte of the payload of the account at index 1 (index 0 is
//! by convention the program's own reference) and emits one log record with
//! that byte's decimal value.

use vstd::prelude::*;
use vstd::string::StringExecFns;

use crate::account::Account;
use crate::errors::LedgerError;

verus! {

/// The decimal digit character for `d`.
pub open spec fn digit_char(d: u8) -> char
    recommends
        d < 10,
{
    if d == 0 {
        '0'
    } else if d == 1 {
        '1'
    } else if d == 2 {
        '2'
    } else if d == 3 {
        '3'
    } else if d == 4 {
        '4'
    } else if d == 5 {
        '5'
    } else if d == 6 {
        '6'
    } else if d == 7 {
        '7'
    } else if d == 8 {
        '8'
    } else {
        '9'
    }
}

/// The decimal representation of `n`, without leading zeroes.
pub open spec fn decimal_chars(n: u8) -> Seq<char> {
    if n < 10 {
        seq![digit_char(n)]
    } else if n < 100 {
        seq![digit_char(n / 10), digit_char(n % 10)]
    } else {
        seq![digit_char(n / 100), digit_char((n / 10) % 10), digit_char(n % 10)]
    }
}

/// The log record the handler emits when it observes byte `n`.
pub open spec fn handler_log_record(n: u8) -> Seq<char> {
    "Hello World Rust program entrypoint "@ + decimal_chars(n)
}

/// What the handler returns, as a function of the referenced accounts'
/// payloads: the log record for the first byte of the payload at index 1, or
/// an out-of-range failure when there is no account at index 1 or its
/// payload has no first byte.
pub open spec fn spec_handle(payloads: Seq<Seq<u8>>) -> Result<Seq<char>, LedgerError> {
    if payloads.len() >= 2 && payloads[1].len() >= 1 {
        Result::Ok(handler_log_record(payloads[1][0]))
    } else {
        Result::Err(LedgerError::AccountIndexOutOfRange)
    }
}

/// The payloads of a sequence of accounts, in order.
pub open spec fn payloads_of(accounts: Seq<Account>) -> Seq<Seq<u8>> {
    accounts.map_values(|a: Account| a@.payload)
}

/// One decimal digit as a string slice.
fn digit_str(d: u8) -> (r: &'static str)
    requires
        d < 10,
    ensures
        r@ == seq![digit_char(d)],
{
    let r: &'static str = if d == 0 {
        "0"
    } else if d == 1 {
        "1"
    } else if d == 2 {
        "2"
    } else if d == 3 {
        "3"
    } else if d == 4 {
        "4"
    } else if d == 5 {
        "5"
    } else if d == 6 {
        "6"
    } else if d == 7 {
        "7"
    } else if d == 8 {
        "8"
    } else {
        "9"
    };
    proof {
        reveal_strlit("0");
        reveal_strlit("1");
        reveal_strlit("2");
        reveal_strlit("3");
        reveal_strlit("4");
        reveal_strlit("5");
        reveal_strlit("6");
        reveal_strlit("7");
        reveal_strlit("8");
        reveal_strlit("9");
        assert(r@ =~= seq![digit_char(d)]);
    }
    r
}

/// Renders `n` in decimal, without leading zeroes.
pub fn decimal_string(n: u8) -> (r: String)
    ensures
        r@ == decimal_chars(n),
{
    let mut s = String::new();
    if n >= 100 {
        s.append(digit_str(n / 100));
    }
    if n >= 10 {
        s.append(digit_str((n / 10) % 10));
    }
    s.append(digit_str(n % 10));
    proof {
        assert(s@ =~= decimal_chars(n));
    }
    s
}

/// Runs the instruction against the referenced accounts: reads the first
/// byte of the payload at index 1 and returns the log record carrying its
/// decimal value. Fails as out of range when fewer than two accounts are
/// supplied, or when the byte read itself is out of range because the
/// payload at index 1 is empty.
pub fn handle_instruction(accounts: &Vec<Account>) -> (r: Result<String, LedgerError>)
    ensures
        match r {
            Result::Ok(line) => spec_handle(payloads_of(accounts@)) == Result::<
                Seq<char>,
                LedgerError,
            >::Ok(line@),
            Result::Err(e) => spec_handle(payloads_of(accounts@)) == Result::<
                Seq<char>,
                LedgerError,
            >::Err(e),
        },
{
    proof {
        assert(payloads_of(accounts@).len() == accounts@.len());
        if accounts@.len() >= 2 {
            assert(payloads_of(accounts@)[1] == accounts@[1]@.payload);
        }
    }
    if accounts.len() < 2 {
        return Result::Err(LedgerError::AccountIndexOutOfRange);
    }
    let target = &accounts[1];
    if target.payload.len() == 0 {
        return Result::Err(LedgerError::AccountIndexOutOfRange);
    }
    let byte = target.payload[0];
    let mut line = String::from_str("Hello World Rust program entrypoint ");
    let digits = decimal_string(byte);
    line.append(digits.as_str());
    Result::Ok(line)
}

} // verus!
