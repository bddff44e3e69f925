//! The laws the library states of itself, each proved from the transition
//! relations that the operations' contracts establish.

use vstd::prelude::*;

use crate::contract::spec_get_owner;
use crate::contract::spec_instantiate;
use crate::contract::spec_native_denom;
use crate::contract::spec_sufficient;
use crate::contract::spec_transfer;
use crate::contract::spec_withdraw;
use crate::contract::spec_withdraw_response;
use crate::contract::store_unchanged;
use crate::error::ContractError;
use crate::error::StdError;
use crate::msg::Coin;
use crate::msg::GetOwnerResponse;
use crate::msg::Response;
use crate::state::Storage;

verus! {

/// Initialization law: after setup by a principal, the store records that
/// principal as owner and the owner query reports exactly it.
pub proof fn lemma_init_owner(
    s0: Storage,
    s1: Storage,
    sender: Seq<char>,
    r_init: Result<Response, StdError>,
    r_query: Result<GetOwnerResponse, StdError>,
)
    requires
        spec_instantiate(s0, s1, sender, r_init),
        spec_get_owner(s1, r_query),
    ensures
        s1.has_config(),
        s1.spec_owner() == sender,
        r_query matches Ok(resp) && resp.address@ == sender,
{
}

/// Balance non-negativity: balances are unsigned values, so in every
/// reachable store — hence after any sequence of transfers and withdrawals
/// — every queried balance is at least zero.
pub proof fn lemma_balance_nonnegative(s: Storage, k: Seq<char>)
    ensures
        0 <= s.spec_balance(k),
{
}

/// Transfer split law: a successful transfer of an even amount to two
/// distinct destinations raises each destination's balance by exactly half
/// the amount, and the two halves add up to the whole amount.
pub proof fn lemma_transfer_even_split(
    s0: Storage,
    s1: Storage,
    funds: Seq<Coin>,
    a1: Seq<char>,
    a2: Seq<char>,
    amount: u128,
    r: Result<Response, ContractError>,
)
    requires
        spec_transfer(s0, s1, funds, a1, a2, amount, r),
        r is Ok,
        amount % 2 == 0,
        a1 != a2,
    ensures
        s1.spec_balance(a1) == s0.spec_balance(a1) + amount / 2,
        s1.spec_balance(a2) == s0.spec_balance(a2) + amount / 2,
        amount / 2 + amount / 2 == amount,
{
}

/// Transfer odd-amount law: a successful transfer of an odd amount to two
/// distinct destinations raises each destination's balance by exactly
/// `(amount - 1) / 2`; the total credited is `amount - 1`, one unit being
/// dropped rather than credited to either side.
pub proof fn lemma_transfer_odd_split(
    s0: Storage,
    s1: Storage,
    funds: Seq<Coin>,
    a1: Seq<char>,
    a2: Seq<char>,
    amount: u128,
    r: Result<Response, ContractError>,
)
    requires
        spec_transfer(s0, s1, funds, a1, a2, amount, r),
        r is Ok,
        amount % 2 == 1,
        a1 != a2,
    ensures
        s1.spec_balance(a1) == s0.spec_balance(a1) + (amount - 1) / 2,
        s1.spec_balance(a2) == s0.spec_balance(a2) + (amount - 1) / 2,
        (s1.spec_balance(a1) - s0.spec_balance(a1)) + (s1.spec_balance(a2) - s0.spec_balance(a2))
            == amount - 1,
{
}

/// Insufficient funds law: a transfer whose attached payment does not cover
/// the declared amount fails with the insufficient-funds error and changes
/// no balance at all.
pub proof fn lemma_transfer_insufficient_funds(
    s0: Storage,
    s1: Storage,
    funds: Seq<Coin>,
    a1: Seq<char>,
    a2: Seq<char>,
    amount: u128,
    r: Result<Response, ContractError>,
)
    requires
        spec_transfer(s0, s1, funds, a1, a2, amount, r),
        !spec_sufficient(funds, spec_native_denom(), amount),
    ensures
        r == Result::<Response, ContractError>::Err(ContractError::InsufficientFundsSend),
        s1.spec_balance(a1) == s0.spec_balance(a1),
        s1.spec_balance(a2) == s0.spec_balance(a2),
        store_unchanged(s0, s1),
{
}

/// Withdraw exactness: a caller whose balance record covers the requested
/// amount is debited exactly that amount and handed exactly one payment
/// instruction over it. A caller with no record at all is rejected even for
/// a zero amount, so the law asks for a record.
pub proof fn lemma_withdraw_exact(
    s0: Storage,
    s1: Storage,
    caller: Seq<char>,
    amount: u128,
    r: Result<Response, ContractError>,
)
    requires
        spec_withdraw(s0, s1, caller, amount, r),
        s0.has_entry(caller),
        s0.spec_balance(caller) >= amount,
    ensures
        r matches Ok(resp) && spec_withdraw_response(resp, caller, amount),
        s1.spec_balance(caller) == s0.spec_balance(caller) - amount,
{
}

/// Withdraw rejection: a caller whose balance is below the requested amount
/// is rejected with the insufficient-balance error and nothing changes.
pub proof fn lemma_withdraw_rejected(
    s0: Storage,
    s1: Storage,
    caller: Seq<char>,
    amount: u128,
    r: Result<Response, ContractError>,
)
    requires
        spec_withdraw(s0, s1, caller, amount, r),
        s0.spec_balance(caller) < amount,
    ensures
        r == Result::<Response, ContractError>::Err(
            ContractError::InsufficientBalanceForWithdraw,
        ),
        s1.spec_balance(caller) == s0.spec_balance(caller),
        store_unchanged(s0, s1),
{
}

/// Default zero: a principal that was never credited has balance zero.
pub proof fn lemma_default_zero(s: Storage, k: Seq<char>)
    requires
        !s.has_entry(k),
    ensures
        s.spec_balance(k) == 0,
{
}

} // verus!
