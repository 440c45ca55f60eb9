//! Displayed accounts of a message: each account key paired with its
//! writability and signer flags and with where it came from.
//!
//! Whether an account is writable or a signer is the message
//! implementation's own judgment (header counts, instruction use, reserved
//! addresses); the glue around this library reads those flags off the
//! message and hands them in as plain values, one per account key.

use vstd::prelude::*;
use crate::address::Address;
use crate::transaction_status::ParsedAccount;
use crate::transaction_status::ParsedAccountSource;

verus! {

/// The displayed accounts of a legacy message: every account comes from
/// the transaction itself.
pub fn parse_legacy_message_accounts(
    keys: &Vec<Address>,
    writable: &Vec<bool>,
    signer: &Vec<bool>,
) -> (r: Vec<ParsedAccount>)
    requires
        writable@.len() == keys@.len(),
        signer@.len() == keys@.len(),
    ensures
        r@.len() == keys@.len(),
        forall|i: int|
            0 <= i < keys@.len() ==> r@[i] == (ParsedAccount {
                pubkey: keys@[i],
                writable: writable@[i],
                signer: signer@[i],
                source: Some(ParsedAccountSource::Transaction),
            }),
{
    let mut accounts: Vec<ParsedAccount> = Vec::new();
    let n = keys.len();
    let mut i: usize = 0;
    while i < n
        invariant
            i <= n,
            n == keys@.len(),
            writable@.len() == n,
            signer@.len() == n,
            accounts@.len() == i,
            forall|j: int|
                0 <= j < i ==> accounts@[j] == (ParsedAccount {
                    pubkey: keys@[j],
                    writable: writable@[j],
                    signer: signer@[j],
                    source: Some(ParsedAccountSource::Transaction),
                }),
        decreases n - i,
    {
        accounts.push(
            ParsedAccount {
                pubkey: keys[i],
                writable: writable[i],
                signer: signer[i],
                source: Some(ParsedAccountSource::Transaction),
            },
        );
        i = i + 1;
    }
    accounts
}

/// The displayed accounts of a loaded versioned message: the first
/// `num_static` keys are the transaction's own, the rest were loaded
/// through address lookup tables.
pub fn parse_v0_message_accounts(
    keys: &Vec<Address>,
    writable: &Vec<bool>,
    signer: &Vec<bool>,
    num_static: usize,
) -> (r: Vec<ParsedAccount>)
    requires
        writable@.len() == keys@.len(),
        signer@.len() == keys@.len(),
    ensures
        r@.len() == keys@.len(),
        forall|i: int|
            0 <= i < keys@.len() ==> r@[i] == (ParsedAccount {
                pubkey: keys@[i],
                writable: writable@[i],
                signer: signer@[i],
                source: Some(
                    if i < num_static {
                        ParsedAccountSource::Transaction
                    } else {
                        ParsedAccountSource::LookupTable
                    },
                ),
            }),
{
    let mut accounts: Vec<ParsedAccount> = Vec::new();
    let n = keys.len();
    let mut i: usize = 0;
    while i < n
        invariant
            i <= n,
            n == keys@.len(),
            writable@.len() == n,
            signer@.len() == n,
            accounts@.len() == i,
            forall|j: int|
                0 <= j < i ==> accounts@[j] == (ParsedAccount {
                    pubkey: keys@[j],
                    writable: writable@[j],
                    signer: signer@[j],
                    source: Some(
                        if j < num_static {
                            ParsedAccountSource::Transaction
                        } else {
                            ParsedAccountSource::LookupTable
                        },
                    ),
                }),
        decreases n - i,
    {
        let source = if i < num_static {
            ParsedAccountSource::Transaction
        } else {
            ParsedAccountSource::LookupTable
        };
        accounts.push(
            ParsedAccount {
                pubkey: keys[i],
                writable: writable[i],
                signer: signer[i],
                source: Some(source),
            },
        );
        i = i + 1;
    }
    accounts
}

} // verus!
