use vstd::prelude::*;
use candid::Principal;
use icrc_ledger_types::icrc1::account::Account;

verus! {

/// Identifiers of callers and canisters: carried through, never inspected.
#[verifier::external_type_specification]
#[verifier::external_body]
pub struct ExPrincipal(candid::Principal);

/// A ledger account: an owner and an optional 32-byte subaccount.
#[verifier::external_type_specification]
pub struct ExAccount(icrc_ledger_types::icrc1::account::Account);

/// Relies on the derived `Clone` of `Principal`, a `Copy` type: the clone is the same value.
pub assume_specification[ <candid::Principal as Clone>::clone ](p: &candid::Principal) -> (r: candid::Principal)
    ensures
        r == *p,
;

/// Relies on the derived `Clone` of `Account`, a `Copy` type: the clone is the same value.
pub assume_specification[ <icrc_ledger_types::icrc1::account::Account as Clone>::clone ](a: &icrc_ledger_types::icrc1::account::Account) -> (r: icrc_ledger_types::icrc1::account::Account)
    ensures
        r == *a,
;

/// The ledger account of `owner` with no subaccount.
pub fn default_account(owner: Principal) -> (r: Account)
    ensures
        r.owner == owner,
        r.subaccount is None,
{
    Account { owner, subaccount: None }
}

} // verus!
