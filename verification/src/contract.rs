//! The operations of the core: initialization, the two mutating commands,
//! and the read-only queries, each against an explicit ledger store. Every
//! operation's contract is a transition relation over the store's model.

use vstd::prelude::*;

use crate::error::ContractError;
use crate::error::StdError;
use crate::msg::BankMsg;
use crate::msg::Coin;
use crate::msg::ConfigResponse;
use crate::msg::ExecuteMsg;
use crate::msg::GetBalanceResponse;
use crate::msg::GetOwnerResponse;
use crate::msg::InstantiateMsg;
use crate::msg::MessageInfo;
use crate::msg::QueryMsg;
use crate::msg::QueryResponse;
use crate::msg::Response;
use crate::msg::coin;
use crate::msg::coins;
use crate::state::Config;
use crate::state::Storage;

verus! {

/// The single denomination this ledger accounts for.
pub open spec fn spec_native_denom() -> Seq<char> {
    "usei"@
}

/// Both stores hold the same configuration and the same balance records.
pub open spec fn store_unchanged(s0: Storage, s1: Storage) -> bool {
    &&& s1.spec_config() == s0.spec_config()
    &&& forall|k: Seq<char>| #[trigger] s1.spec_lookup(k) == s0.spec_lookup(k)
}

/// Whether the attached payment holds a coin of the given denomination
/// whose amount covers `amount`; a requirement of zero is trivially
/// covered.
pub open spec fn spec_sufficient(sent: Seq<Coin>, denom: Seq<char>, amount: u128) -> bool {
    amount == 0 || exists|i: int|
        0 <= i < sent.len() && (#[trigger] sent[i]).denom@ == denom && sent[i].amount >= amount
}

/// Check that the attached payment covers a required coin: success exactly
/// when no coin is required or some sent coin matches its denomination with
/// at least its amount.
pub fn assert_sent_sufficient_coin(sent: &[Coin], required: Option<Coin>) -> (r: Result<
    (),
    ContractError,
>)
    ensures
        (match required {
            None => r is Ok,
            Some(rc) => (r is Ok <==> spec_sufficient(sent@, rc.denom@, rc.amount)) && (r is Err
                ==> r == Result::<(), ContractError>::Err(ContractError::InsufficientFundsSend)),
        }),
{
    if required.is_none() {
        return Ok(());
    }
    let required_coin = required.unwrap();
    if required_coin.amount > 0 {
        let mut i: usize = 0;
        #[verifier::loop_isolation(false)]
        while i < sent.len()
            invariant
                i <= sent.len(),
                forall|j: int|
                    0 <= j < i ==> !((#[trigger] sent@[j]).denom@ == required_coin.denom@
                        && sent@[j].amount >= required_coin.amount),
            decreases sent.len() - i,
        {
            // a sent coin suffices when it matches the denomination and
            // carries at least the required amount
            if sent[i].denom == required_coin.denom && sent[i].amount >= required_coin.amount {
                proof {
                    assert((#[trigger] sent@[i as int]).denom@ == required_coin.denom@
                        && sent@[i as int].amount >= required_coin.amount);
                }
                return Ok(());
            }
            i = i + 1;
        }
        Err(ContractError::InsufficientFundsSend)
    } else {
        Ok(())
    }
}

/// Build the result that hands the host one outgoing payment instruction,
/// annotated with the action and its recipient.
fn send_tokens(to_address: String, amount: Vec<Coin>, action: &str) -> (r: Response)
    ensures
        r.messages@.len() == 1,
        r.messages@[0] == (BankMsg::Send { to_address, amount }),
        r.attributes@.len() == 2,
        r.attributes@[0].key@ == "action"@,
        r.attributes@[0].value@ == action@,
        r.attributes@[1].key@ == "to"@,
        r.attributes@[1].value@ == to_address@,
{
    Response::new().add_message(
        BankMsg::Send { to_address: to_address.clone(), amount },
    ).add_attribute("action", action).add_attribute("to", to_address.as_str())
}

/// The transition relation of initialization: record the caller as owner,
/// touch no balance, and hand back an empty result.
pub open spec fn spec_instantiate(
    s0: Storage,
    s1: Storage,
    sender: Seq<char>,
    r: Result<Response, StdError>,
) -> bool {
    &&& r matches Ok(resp) && resp.messages@.len() == 0 && resp.attributes@.len() == 0
    &&& s1.has_config()
    &&& s1.spec_owner() == sender
    &&& forall|k: Seq<char>| #[trigger] s1.spec_lookup(k) == s0.spec_lookup(k)
}

/// Record the calling principal as the owner. Never fails.
pub fn instantiate(store: &mut Storage, info: MessageInfo, _msg: InstantiateMsg) -> (r: Result<
    Response,
    StdError,
>)
    ensures
        spec_instantiate(*old(store), *final(store), info.sender@, r),
{
    let config = Config { owner: info.sender };
    store.save_config(config);
    Ok(Response::default())
}

/// Whether crediting half of the declared amount to each destination would
/// push a balance above the representable range; a repeated destination is
/// credited twice.
pub open spec fn spec_transfer_overflows(
    s0: Storage,
    a1: Seq<char>,
    a2: Seq<char>,
    amount: u128,
) -> bool {
    let half = amount / 2;
    if a1 == a2 {
        s0.spec_balance(a1) + half + half > u128::MAX
    } else {
        s0.spec_balance(a1) + half > u128::MAX || s0.spec_balance(a2) + half > u128::MAX
    }
}

/// The transition relation of the transfer operation: when the attached
/// payment covers the declared amount and no credit overflows, each
/// destination gains half of the amount under floor division — the
/// remainder of an odd amount is dropped, credited to no one — and nothing
/// else changes. On failure nothing changes at all.
pub open spec fn spec_transfer(
    s0: Storage,
    s1: Storage,
    funds: Seq<Coin>,
    a1: Seq<char>,
    a2: Seq<char>,
    amount: u128,
    r: Result<Response, ContractError>,
) -> bool {
    let half = amount / 2;
    if !spec_sufficient(funds, spec_native_denom(), amount) {
        &&& r == Result::<Response, ContractError>::Err(ContractError::InsufficientFundsSend)
        &&& store_unchanged(s0, s1)
    } else if spec_transfer_overflows(s0, a1, a2, amount) {
        &&& r == Result::<Response, ContractError>::Err(
            ContractError::Std(StdError::ArithmeticOverflow),
        )
        &&& store_unchanged(s0, s1)
    } else {
        &&& r matches Ok(resp) && resp.messages@.len() == 0 && resp.attributes@.len() == 0
        &&& s1.has_entry(a1) && s1.has_entry(a2)
        &&& (if a1 == a2 {
            s1.spec_balance(a1) == s0.spec_balance(a1) + half + half
        } else {
            s1.spec_balance(a1) == s0.spec_balance(a1) + half && s1.spec_balance(a2)
                == s0.spec_balance(a2) + half
        })
        &&& forall|k: Seq<char>|
            k != a1 && k != a2 ==> #[trigger] s1.spec_lookup(k) == s0.spec_lookup(k)
        &&& s1.spec_config() == s0.spec_config()
    }
}

/// Split the declared amount between the two destinations: validate the
/// attached payment, credit half to each destination with checked
/// arithmetic, and retain the attached payment. No payment instruction is
/// produced.
pub fn execute_transfer(
    store: &mut Storage,
    info: MessageInfo,
    address1: String,
    address2: String,
    amount: u128,
) -> (r: Result<Response, ContractError>)
    ensures
        spec_transfer(*old(store), *final(store), info.funds@, address1@, address2@, amount, r),
{
    match assert_sent_sufficient_coin(info.funds.as_slice(), Some(coin(amount, "usei"))) {
        Err(e) => {
            return Err(e);
        },
        Ok(_) => {},
    }
    let half = amount / 2;
    if address1 == address2 {
        let balance = store.get_balance(&address1);
        let once = match balance.checked_add(half) {
            None => {
                return Err(ContractError::Std(StdError::ArithmeticOverflow));
            },
            Some(v) => v,
        };
        let twice = match once.checked_add(half) {
            None => {
                return Err(ContractError::Std(StdError::ArithmeticOverflow));
            },
            Some(v) => v,
        };
        store.set_balance(address1, twice);
    } else {
        let balance1 = store.get_balance(&address1);
        let balance2 = store.get_balance(&address2);
        // both credits are checked before either is written, so a failing
        // call leaves no partial credit behind
        let credited1 = match balance1.checked_add(half) {
            None => {
                return Err(ContractError::Std(StdError::ArithmeticOverflow));
            },
            Some(v) => v,
        };
        let credited2 = match balance2.checked_add(half) {
            None => {
                return Err(ContractError::Std(StdError::ArithmeticOverflow));
            },
            Some(v) => v,
        };
        store.set_balance(address1, credited1);
        store.set_balance(address2, credited2);
    }
    Ok(Response::default())
}

/// Everything the withdraw relation promises of the success result:
/// exactly one payment instruction, paying the withdrawn amount of the
/// native denomination to the caller.
pub open spec fn spec_withdraw_response(r: Response, caller: Seq<char>, amount: u128) -> bool {
    &&& r.messages@.len() == 1
    &&& r.messages@[0] matches BankMsg::Send { to_address, amount: paid } && to_address@ == caller
        && paid@.len() == 1 && paid@[0].denom@ == spec_native_denom() && paid@[0].amount == amount
}

/// The transition relation of the withdraw operation: a caller with a
/// balance record covering the amount is debited exactly that amount and
/// handed a payment instruction for it; anyone else is rejected with
/// nothing changed. A caller with no record at all is rejected even for a
/// zero amount.
pub open spec fn spec_withdraw(
    s0: Storage,
    s1: Storage,
    caller: Seq<char>,
    amount: u128,
    r: Result<Response, ContractError>,
) -> bool {
    if !s0.has_entry(caller) || s0.spec_balance(caller) < amount {
        &&& r == Result::<Response, ContractError>::Err(
            ContractError::InsufficientBalanceForWithdraw,
        )
        &&& store_unchanged(s0, s1)
    } else {
        &&& r matches Ok(resp) && spec_withdraw_response(resp, caller, amount)
        &&& s1.has_entry(caller)
        &&& s1.spec_balance(caller) == s0.spec_balance(caller) - amount
        &&& forall|k: Seq<char>|
            k != caller ==> #[trigger] s1.spec_lookup(k) == s0.spec_lookup(k)
        &&& s1.spec_config() == s0.spec_config()
    }
}

/// Debit the caller by the requested amount and emit the payment
/// instruction the host must execute to hand the value back.
pub fn execute_withdraw(store: &mut Storage, info: MessageInfo, amount: u128) -> (r: Result<
    Response,
    ContractError,
>)
    ensures
        spec_withdraw(*old(store), *final(store), info.sender@, amount, r),
{
    let balance = store.may_load_balance(&info.sender);
    if balance.is_none() {
        return Err(ContractError::InsufficientBalanceForWithdraw);
    }
    let checked_balance = balance.unwrap();
    if checked_balance < amount {
        return Err(ContractError::InsufficientBalanceForWithdraw);
    }
    // defensive checked subtraction; the sufficiency check above makes the
    // failing branch unreachable
    let debited = match checked_balance.checked_sub(amount) {
        None => {
            return Err(ContractError::Std(StdError::ArithmeticUnderflow));
        },
        Some(v) => v,
    };
    store.set_balance(info.sender.clone(), debited);
    Ok(send_tokens(info.sender, coins(amount, "usei"), "withdraw"))
}

/// The transition relation of the command dispatcher: each command behaves
/// as its operation's relation says.
pub open spec fn spec_execute(
    s0: Storage,
    s1: Storage,
    info: MessageInfo,
    msg: ExecuteMsg,
    r: Result<Response, ContractError>,
) -> bool {
    match msg {
        ExecuteMsg::Transfer { address1, address2, amount } => spec_transfer(
            s0,
            s1,
            info.funds@,
            address1@,
            address2@,
            amount,
            r,
        ),
        ExecuteMsg::Withdraw { amount } => spec_withdraw(s0, s1, info.sender@, amount, r),
    }
}

/// Dispatch a mutating command to its operation.
pub fn execute(store: &mut Storage, info: MessageInfo, msg: ExecuteMsg) -> (r: Result<
    Response,
    ContractError,
>)
    ensures
        spec_execute(*old(store), *final(store), info, msg, r),
{
    match msg {
        ExecuteMsg::Transfer { address1, address2, amount } => execute_transfer(
            store,
            info,
            address1,
            address2,
            amount,
        ),
        ExecuteMsg::Withdraw { amount } => execute_withdraw(store, info, amount),
    }
}

/// What the owner query returns: the recorded owner's identity, or the
/// not-initialized error when setup never ran.
pub open spec fn spec_get_owner(s: Storage, r: Result<GetOwnerResponse, StdError>) -> bool {
    if s.has_config() {
        r matches Ok(resp) && resp.address@ == s.spec_owner()
    } else {
        r == Result::<GetOwnerResponse, StdError>::Err(StdError::NotInitialized)
    }
}

/// Resolve the owner query from the configuration record.
pub fn get_owner_resolver(store: &Storage) -> (r: Result<GetOwnerResponse, StdError>)
    ensures
        spec_get_owner(*store, r),
{
    let config = match store.get_config() {
        Err(e) => {
            return Err(e);
        },
        Ok(c) => c,
    };
    let address = config.owner;
    Ok(GetOwnerResponse { address })
}

/// What the balance query returns: the principal's balance, zero when no
/// record exists. It never fails.
pub open spec fn spec_get_balance(
    s: Storage,
    address: Seq<char>,
    r: Result<GetBalanceResponse, StdError>,
) -> bool {
    r matches Ok(resp) && resp.balance == s.spec_balance(address)
}

/// Resolve the balance query, reading an absent record as zero.
pub fn get_balance_resolver(store: &Storage, address: String) -> (r: Result<
    GetBalanceResponse,
    StdError,
>)
    ensures
        spec_get_balance(*store, address@, r),
{
    let balance = store.may_load_balance(&address);
    let checked_balance = if balance.is_some() {
        balance.unwrap()
    } else {
        0
    };
    Ok(GetBalanceResponse { balance: checked_balance })
}

/// The relation of the query dispatcher: each query is a pure projection
/// of the store.
pub open spec fn spec_query(s: Storage, msg: QueryMsg, r: Result<QueryResponse, StdError>) -> bool {
    match msg {
        QueryMsg::Config {  } => if s.has_config() {
            r matches Ok(QueryResponse::Config(resp)) && resp.spec_owner() == s.spec_owner()
        } else {
            r == Result::<QueryResponse, StdError>::Err(StdError::NotInitialized)
        },
        QueryMsg::GetOwner {  } => if s.has_config() {
            r matches Ok(QueryResponse::GetOwner(resp)) && resp.address@ == s.spec_owner()
        } else {
            r == Result::<QueryResponse, StdError>::Err(StdError::NotInitialized)
        },
        QueryMsg::GetBalance { address } => r matches Ok(QueryResponse::GetBalance(resp))
            && resp.balance == s.spec_balance(address@),
    }
}

/// Dispatch a read-only query to its resolver.
pub fn query(store: &Storage, msg: QueryMsg) -> (r: Result<QueryResponse, StdError>)
    ensures
        spec_query(*store, msg, r),
{
    match msg {
        QueryMsg::Config {  } => match store.get_config() {
            Err(e) => Err(e),
            Ok(config) => Ok(QueryResponse::Config(ConfigResponse::from(config))),
        },
        QueryMsg::GetOwner {  } => match get_owner_resolver(store) {
            Err(e) => Err(e),
            Ok(resp) => Ok(QueryResponse::GetOwner(resp)),
        },
        QueryMsg::GetBalance { address } => match get_balance_resolver(store, address) {
            Err(e) => Err(e),
            Ok(resp) => Ok(QueryResponse::GetBalance(resp)),
        },
    }
}

} // verus!
