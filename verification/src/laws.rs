//! Laws of the state machine, proved once and for all inputs over the
//! transition functions that the operations' contracts are stated against.

use crate::contract::{
    burn_transition, exercise_transition, instantiate_transition, method_attr,
    transfer_transition,
};
use crate::error::ErrorView;
use crate::funds::same_funds;
use crate::msg::{BankMsgView, ResponseView};
use crate::state::{CoinView, StateView};
use vstd::prelude::*;

verus! {

/// Creation with an expiration not strictly in the future fails with
/// `Expired` and changes nothing, whatever else is asked.
pub proof fn lemma_create_expiry_not_in_future(
    state: Option<StateView>,
    sender: Seq<char>,
    funds: Seq<CoinView>,
    counter_offer: Seq<CoinView>,
    expires: int,
    height: int,
)
    requires
        expires <= height,
    ensures
        ({
            let t = instantiate_transition(state, sender, funds, counter_offer, expires, height);
            &&& t.state == state
            &&& t.result == Err::<ResponseView, ErrorView>(ErrorView::Expired)
        }),
{
}

/// Creation into an empty slot with an expiration strictly in the future
/// succeeds, declares no settlement, and stores the inputs exactly: the
/// caller as creator and first owner, the attached funds as collateral, and
/// the terms verbatim.
pub proof fn lemma_create_succeeds(
    state: Option<StateView>,
    sender: Seq<char>,
    funds: Seq<CoinView>,
    counter_offer: Seq<CoinView>,
    expires: int,
    height: int,
)
    requires
        state is None,
        expires > height,
    ensures
        ({
            let t = instantiate_transition(state, sender, funds, counter_offer, expires, height);
            &&& t.state == Some(
                StateView { creator: sender, owner: sender, collateral: funds, counter_offer, expires },
            )
            &&& t.result == Ok::<ResponseView, ErrorView>(
                ResponseView { messages: Seq::empty(), attributes: Seq::empty() },
            )
        }),
{
}

/// Transfer by anyone but the owner fails with `Unauthorized` and changes
/// nothing; transfer by the owner succeeds and changes the owner field
/// alone — creator, collateral, counter-offer and expiration are kept.
pub proof fn lemma_transfer_needs_owner(
    state: Option<StateView>,
    st: StateView,
    sender: Seq<char>,
    recipient: Seq<char>,
)
    requires
        state == Some(st),
    ensures
        ({
            let t = transfer_transition(state, sender, recipient);
            &&& sender != st.owner ==> t.state == state && t.result == Err::<
                ResponseView,
                ErrorView,
            >(ErrorView::Unauthorized)
            &&& sender == st.owner ==> t.result is Ok && t.state == Some(
                StateView { owner: recipient, ..st },
            )
        }),
{
}

/// Exercise by anyone but the owner fails with `Unauthorized` and changes
/// nothing; exercise by the owner passes that guard: whatever else happens,
/// the outcome is never `Unauthorized`.
pub proof fn lemma_exercise_needs_owner(
    state: Option<StateView>,
    st: StateView,
    sender: Seq<char>,
    funds: Seq<CoinView>,
    height: int,
)
    requires
        state == Some(st),
    ensures
        ({
            let t = exercise_transition(state, sender, funds, height);
            &&& sender != st.owner ==> t.state == state && t.result == Err::<
                ResponseView,
                ErrorView,
            >(ErrorView::Unauthorized)
            &&& sender == st.owner ==> t.result != Err::<ResponseView, ErrorView>(
                ErrorView::Unauthorized,
            )
        }),
{
}

/// Once the current height has reached the expiration, exercise always
/// fails and changes nothing, whatever the funds or the caller; for the
/// owner the failure is `Expired`.
pub proof fn lemma_exercise_after_expiry(
    state: Option<StateView>,
    st: StateView,
    sender: Seq<char>,
    funds: Seq<CoinView>,
    height: int,
)
    requires
        state == Some(st),
        height >= st.expires,
    ensures
        ({
            let t = exercise_transition(state, sender, funds, height);
            &&& t.state == state
            &&& t.result is Err
            &&& sender == st.owner ==> t.result == Err::<ResponseView, ErrorView>(ErrorView::Expired)
        }),
{
}

/// With attached funds that differ from the counter-offer as multisets,
/// exercise never succeeds and never emits settlement instructions; when the
/// owner calls before expiry, the failure is `DiffCounterOffer` carrying the
/// required counter-offer.
pub proof fn lemma_exercise_wrong_funds(
    state: Option<StateView>,
    st: StateView,
    sender: Seq<char>,
    funds: Seq<CoinView>,
    height: int,
)
    requires
        state == Some(st),
        !same_funds(funds, st.counter_offer),
    ensures
        ({
            let t = exercise_transition(state, sender, funds, height);
            &&& t.state == state
            &&& t.result is Err
            &&& sender == st.owner && height < st.expires ==> t.result == Err::<
                ResponseView,
                ErrorView,
            >(ErrorView::DiffCounterOffer { counter_offer: st.counter_offer })
        }),
{
}

/// A successful exercise destroys the record, so exercising again — with any
/// caller, funds or height — fails with `NotFound`.
pub proof fn lemma_exercise_not_repeatable(
    state: Option<StateView>,
    sender: Seq<char>,
    funds: Seq<CoinView>,
    height: int,
    later_sender: Seq<char>,
    later_funds: Seq<CoinView>,
    later_height: int,
)
    requires
        exercise_transition(state, sender, funds, height).result is Ok,
    ensures
        ({
            let t = exercise_transition(state, sender, funds, height);
            let again = exercise_transition(t.state, later_sender, later_funds, later_height);
            &&& t.state is None
            &&& again.result == Err::<ResponseView, ErrorView>(ErrorView::NotFound)
        }),
{
}

/// Burn before the expiration height always fails with `NotYetExpired` and
/// changes nothing, whatever the caller attached.
pub proof fn lemma_burn_before_expiry(
    state: Option<StateView>,
    st: StateView,
    funds: Seq<CoinView>,
    height: int,
)
    requires
        state == Some(st),
        height < st.expires,
    ensures
        ({
            let t = burn_transition(state, funds, height);
            &&& t.state == state
            &&& t.result == Err::<ResponseView, ErrorView>(ErrorView::NotYetExpired)
        }),
{
}

/// Burn at or after the expiration height with funds attached fails with
/// `FundsNotAllowed` and changes nothing.
pub proof fn lemma_burn_with_funds(
    state: Option<StateView>,
    st: StateView,
    funds: Seq<CoinView>,
    height: int,
)
    requires
        state == Some(st),
        height >= st.expires,
        funds.len() != 0,
    ensures
        ({
            let t = burn_transition(state, funds, height);
            &&& t.state == state
            &&& t.result == Err::<ResponseView, ErrorView>(ErrorView::FundsNotAllowed)
        }),
{
}

/// Burn at or after the expiration height with no funds attached succeeds
/// for any caller, declares exactly one settlement paying the full
/// collateral to the creator, and destroys the record.
pub proof fn lemma_burn_after_expiry(
    state: Option<StateView>,
    st: StateView,
    funds: Seq<CoinView>,
    height: int,
)
    requires
        state == Some(st),
        height >= st.expires,
        funds.len() == 0,
    ensures
        ({
            let t = burn_transition(state, funds, height);
            &&& t.state is None
            &&& t.result == Ok::<ResponseView, ErrorView>(
                ResponseView {
                    messages: seq![BankMsgView { to_address: st.creator, amount: st.collateral }],
                    attributes: seq![method_attr("try_burn"@)],
                },
            )
        }),
{
}

} // verus!
