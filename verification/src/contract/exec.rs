//! The two operations that a caller can execute: donating and paying out.

use crate::error::{result_view, ContractError, ContractErrorView, StdError, StdErrorView};
use crate::host::{
    coins_view, BankMsg, BankMsgView, Coin, CoinView, MessageInfo, MessageInfoView, Response,
    ResponseView,
};
use crate::state::{State, StateView, Store, StoreView};
use crate::text::{decimal_text, to_decimal};
use vstd::prelude::*;

verus! {

/// Whether `coin` counts as a donation: it is of the threshold's denomination
/// and strictly above the threshold's amount.
pub open spec fn counts(threshold: CoinView, coin: CoinView) -> bool {
    coin.denom == threshold.denom && coin.amount > threshold.amount
}

/// Whether any of `funds` counts as a donation.
pub open spec fn qualifies(threshold: CoinView, funds: Seq<CoinView>) -> bool {
    exists|i: int| 0 <= i < funds.len() && counts(threshold, #[trigger] funds[i])
}

/// Whether any of `funds` counts as a donation.
pub fn has_qualifying_fund(threshold: &Coin, funds: &Vec<Coin>) -> (found: bool)
    ensures
        found == qualifies(threshold@, coins_view(funds@)),
{
    let mut i: usize = 0;
    while i < funds.len()
        invariant
            i <= funds.len(),
            forall|j: int| 0 <= j < i ==> !counts(threshold@, #[trigger] coins_view(funds@)[j]),
        decreases funds.len() - i,
    {
        if funds[i].denom == threshold.denom && funds[i].amount > threshold.amount {
            assert(counts(threshold@, coins_view(funds@)[i as int]));
            return true;
        }
        i += 1;
    }
    false
}

/// The state after a donation with `funds`: the counter one higher where the
/// donation counts, and nothing else changed.
pub open spec fn donated(state: StateView, funds: Seq<CoinView>) -> StateView {
    if qualifies(state.minimal_donation, funds) {
        StateView { counter: state.counter + 1, ..state }
    } else {
        state
    }
}

/// Whether [`donate`] may be called: a donation that counts needs room for
/// the counter to grow.
pub open spec fn donate_defined(store: StoreView, info: MessageInfoView) -> bool {
    match store.load_state() {
        Ok(state) => qualifies(state.minimal_donation, info.funds) ==> state.counter < u128::MAX,
        Err(_) => true,
    }
}

/// The store after [`donate`]. The state is rewritten only where the
/// donation counts.
pub open spec fn donate_store(store: StoreView, info: MessageInfoView) -> StoreView {
    match store.load_state() {
        Ok(state) => if qualifies(state.minimal_donation, info.funds) {
            store.save_state(donated(state, info.funds))
        } else {
            store
        },
        Err(_) => store,
    }
}

/// What [`donate`] hands back: the name of the action, the caller, and the
/// counter as it stands after the donation.
pub open spec fn donate_response(store: StoreView, info: MessageInfoView) -> Result<
    ResponseView,
    StdErrorView,
> {
    match store.load_state() {
        Ok(state) => Ok(
            ResponseView::empty().add_attribute("action"@, "poke"@).add_attribute(
                "sender"@,
                info.sender,
            ).add_attribute("counter"@, decimal_text(donated(state, info.funds).counter)),
        ),
        Err(e) => Err(e),
    }
}

/// Whether [`donate`] may be called on `store` with `info`.
pub fn can_donate(store: &Store, info: &MessageInfo) -> (defined: bool)
    ensures
        defined == donate_defined(store@, info@),
{
    match store.load_state() {
        Ok(state) => state.counter < u128::MAX || !has_qualifying_fund(
            &state.minimal_donation,
            &info.funds,
        ),
        Err(_) => true,
    }
}

/// Takes a donation. Where one of the attached funds is of the threshold's
/// denomination and strictly above its amount, the counter grows by one,
/// however many funds count. Where none is, nothing changes, and the call
/// still succeeds.
pub fn donate(store: &mut Store, info: MessageInfo) -> (r: Result<Response, StdError>)
    requires
        donate_defined(old(store)@, info@),
    ensures
        final(store)@ == donate_store(old(store)@, info@),
        result_view(r) == donate_response(old(store)@, info@),
{
    let state = match store.load_state() {
        Ok(state) => state,
        Err(e) => {
            return Err(e);
        },
    };
    let mut counter: u128 = state.counter;
    if has_qualifying_fund(&state.minimal_donation, &info.funds) {
        counter = counter + 1;
        let state = State {
            counter,
            minimal_donation: state.minimal_donation.duplicate(),
            donating_parent: state.donating_parent,
        };
        store.save_state(state);
    }
    Ok(
        Response::new().add_attribute("action", "poke".to_owned()).add_attribute(
            "sender",
            info.sender,
        ).add_attribute("counter", to_decimal(counter)),
    )
}

/// Whether `sender` may ask for a payout from a store owned by `owner`.
pub open spec fn authorized(owner: Seq<char>, sender: Seq<char>) -> bool {
    sender == owner
}

/// Whether `sender` may ask for a payout from a store owned by `owner`.
pub fn is_authorized(owner: &String, sender: &String) -> (ok: bool)
    ensures
        ok == authorized(owner@, sender@),
{
    *sender == *owner
}

/// What [`withdraw`] hands back. The owner is loaded first; a caller other
/// than the owner is refused before the balance is looked at; the owner gets
/// one instruction that sends the whole balance to the owner.
pub open spec fn withdraw_response(
    store: StoreView,
    info: MessageInfoView,
    balance: Result<Seq<CoinView>, StdErrorView>,
) -> Result<ResponseView, ContractErrorView> {
    match store.load_owner() {
        Err(e) => Err(ContractErrorView::Std(e)),
        Ok(owner) => if !authorized(owner, info.sender) {
            Err(ContractErrorView::Unauthorized { owner })
        } else {
            match balance {
                Err(e) => Err(ContractErrorView::Std(e)),
                Ok(funds) => Ok(
                    ResponseView::empty().add_message(
                        BankMsgView::Send { to_address: owner, amount: funds },
                    ).add_attribute("action"@, "withdraw"@).add_attribute("sender"@, info.sender),
                ),
            }
        },
    }
}

/// The value of the host's answer on the contract's balance.
pub open spec fn balance_view(balance: Result<Vec<Coin>, StdError>) -> Result<
    Seq<CoinView>,
    StdErrorView,
> {
    match balance {
        Ok(funds) => Ok(coins_view(funds@)),
        Err(e) => Err(e@),
    }
}

/// Pays the contract's whole balance out to the owner.
///
/// `balance` is the host's answer on what the contract holds, in every
/// denomination. Only the owner may ask; anyone else is refused with the
/// owner's address. Nothing is stored: the store is only read.
pub fn withdraw(store: &Store, info: MessageInfo, balance: Result<Vec<Coin>, StdError>) -> (r:
    Result<Response, ContractError>)
    ensures
        result_view(r) == withdraw_response(store@, info@, balance_view(balance)),
{
    let owner = match store.load_owner() {
        Ok(owner) => owner,
        Err(e) => {
            return Err(ContractError::Std(e));
        },
    };
    if !is_authorized(owner, &info.sender) {
        return Err(ContractError::Unauthorized { owner: owner.clone() });
    }
    let funds = match balance {
        Ok(funds) => funds,
        Err(e) => {
            return Err(ContractError::Std(e));
        },
    };
    let bank_msg = BankMsg::Send { to_address: owner.clone(), amount: funds };
    Ok(
        Response::new().add_message(bank_msg).add_attribute(
            "action",
            "withdraw".to_owned(),
        ).add_attribute("sender", info.sender),
    )
}

} // verus!
