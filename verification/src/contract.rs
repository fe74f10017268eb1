//! The option state machine: its transitions at the specification level, and
//! the verified operations that implement them.
//!
//! The machine owns one optional record — the store slot — and four commands:
//! create (instantiate), transfer, exercise, burn, plus one read-only
//! projection. Each operation validates its guards in order, the first
//! failure winning, and either leaves the slot untouched with an error or
//! commits the transition and declares its settlement instructions.

use crate::error::{ContractError, ErrorView};
use crate::funds::{funds_eq, same_funds};
use crate::msg::{
    Attribute, AttributeView, BankMsg, BankMsgView, ConfigResponse, Env, ExecuteMsg,
    InstantiateMsg, MessageInfo, QueryMsg, Response, ResponseView,
};
use crate::state::{clone_coins, clone_state, CoinView, State, StateView};
use vstd::prelude::*;

verus! {

/// The outcome of one command at the specification level: the record after
/// the call, and the result handed back to the host.
#[verifier::ext_equal]
pub ghost struct Transition {
    pub state: Option<StateView>,
    pub result: Result<ResponseView, ErrorView>,
}

/// The log attribute naming the method that ran.
pub open spec fn method_attr(name: Seq<char>) -> AttributeView {
    AttributeView { key: "method"@, value: name }
}

/// The mathematical value of a command's result.
pub open spec fn result_view(r: Result<Response, ContractError>) -> Result<
    ResponseView,
    ErrorView,
> {
    match r {
        Ok(resp) => Ok(resp@),
        Err(e) => Err(e@),
    }
}

/// Creation: demands an expiration strictly in the future and an empty slot,
/// then records the caller as creator and first owner, the attached funds as
/// collateral, and the terms verbatim. No settlement is declared: the
/// collateral is already escrowed by the surrounding ledger transaction.
pub open spec fn instantiate_transition(
    state: Option<StateView>,
    sender: Seq<char>,
    funds: Seq<CoinView>,
    counter_offer: Seq<CoinView>,
    expires: int,
    height: int,
) -> Transition {
    if expires <= height {
        Transition { state, result: Err(ErrorView::Expired) }
    } else if state is Some {
        Transition { state, result: Err(ErrorView::AlreadyExists) }
    } else {
        Transition {
            state: Some(
                StateView { creator: sender, owner: sender, collateral: funds, counter_offer, expires },
            ),
            result: Ok(
                ResponseView {
                    messages: Seq::empty(),
                    attributes: Seq::empty(),
                },
            ),
        }
    }
}

/// Transfer: only the current owner may hand the option on; the record keeps
/// every other field, and the log names the method and the new owner.
pub open spec fn transfer_transition(
    state: Option<StateView>,
    sender: Seq<char>,
    recipient: Seq<char>,
) -> Transition {
    match state {
        None => Transition { state, result: Err(ErrorView::NotFound) },
        Some(st) => if sender != st.owner {
            Transition { state, result: Err(ErrorView::Unauthorized) }
        } else {
            Transition {
                state: Some(StateView { owner: recipient, ..st }),
                result: Ok(
                    ResponseView {
                        messages: Seq::empty(),
                        attributes: seq![
                            method_attr("try_transfer"@),
                            AttributeView { key: "new owner"@, value: recipient },
                        ],
                    },
                ),
            }
        },
    }
}

/// Exercise: the owner pays the exact counter-offer before expiry. Guards are
/// checked in order — existence, ownership, expiry, funds — and the first
/// failure wins. On success the machine declares two settlements together,
/// counter-offer to the creator first, then collateral to the owner, and the
/// record is destroyed.
pub open spec fn exercise_transition(
    state: Option<StateView>,
    sender: Seq<char>,
    funds: Seq<CoinView>,
    height: int,
) -> Transition {
    match state {
        None => Transition { state, result: Err(ErrorView::NotFound) },
        Some(st) => if sender != st.owner {
            Transition { state, result: Err(ErrorView::Unauthorized) }
        } else if height >= st.expires {
            Transition { state, result: Err(ErrorView::Expired) }
        } else if !same_funds(funds, st.counter_offer) {
            Transition {
                state,
                result: Err(ErrorView::DiffCounterOffer { counter_offer: st.counter_offer }),
            }
        } else {
            Transition {
                state: None,
                result: Ok(
                    ResponseView {
                        messages: seq![
                            BankMsgView { to_address: st.creator, amount: st.counter_offer },
                            BankMsgView { to_address: st.owner, amount: st.collateral },
                        ],
                        attributes: seq![method_attr("try_execute"@)],
                    },
                ),
            }
        },
    }
}

/// Burn: once the option has expired and is still unexercised, anyone may
/// trigger the cleanup — there is deliberately no ownership check — provided
/// the call attaches no funds. The collateral goes back to the creator, the
/// counter-offer was never collected, and the record is destroyed.
pub open spec fn burn_transition(
    state: Option<StateView>,
    funds: Seq<CoinView>,
    height: int,
) -> Transition {
    match state {
        None => Transition { state, result: Err(ErrorView::NotFound) },
        Some(st) => if height < st.expires {
            Transition { state, result: Err(ErrorView::NotYetExpired) }
        } else if funds.len() != 0 {
            Transition { state, result: Err(ErrorView::FundsNotAllowed) }
        } else {
            Transition {
                state: None,
                result: Ok(
                    ResponseView {
                        messages: seq![
                            BankMsgView { to_address: st.creator, amount: st.collateral },
                        ],
                        attributes: seq![method_attr("try_burn"@)],
                    },
                ),
            }
        },
    }
}

/// The config projection: the record verbatim, or not-found.
pub open spec fn config_result(state: Option<StateView>) -> Result<StateView, ErrorView> {
    match state {
        None => Err(ErrorView::NotFound),
        Some(st) => Ok(st),
    }
}

/// The mathematical value of the query's result.
pub open spec fn config_view(r: Result<ConfigResponse, ContractError>) -> Result<
    StateView,
    ErrorView,
> {
    match r {
        Ok(resp) => Ok(resp@),
        Err(e) => Err(e@),
    }
}

/// Creates the option, as [`instantiate_transition`] describes.
pub fn instantiate(
    state: &mut Option<State>,
    env: Env,
    info: MessageInfo,
    msg: InstantiateMsg,
) -> (r: Result<Response, ContractError>)
    ensures
        ({
            let t = instantiate_transition(
                (*old(state)).deep_view(),
                info.sender@,
                info.funds.deep_view(),
                msg.counter_offer.deep_view(),
                msg.expires as int,
                env.height as int,
            );
            &&& (*final(state)).deep_view() == t.state
            &&& result_view(r) == t.result
        }),
{
    if msg.expires <= env.height {
        return Err(ContractError::Expired);
    }
    if state.is_some() {
        return Err(ContractError::AlreadyExists);
    }
    let record = State {
        creator: info.sender.clone(),
        owner: info.sender,
        collateral: info.funds,
        counter_offer: msg.counter_offer,
        expires: msg.expires,
    };
    *state = Some(record);
    let response = Response { messages: Vec::new(), attributes: Vec::new() };
    proof {
        assert(response.messages.deep_view() =~= Seq::<BankMsgView>::empty());
        assert(response.attributes.deep_view() =~= Seq::<AttributeView>::empty());
    }
    Ok(response)
}

/// Dispatches one command to its operation.
pub fn execute(
    state: &mut Option<State>,
    env: Env,
    info: MessageInfo,
    msg: ExecuteMsg,
) -> (r: Result<Response, ContractError>)
    ensures
        ({
            let pre = (*old(state)).deep_view();
            match msg {
                ExecuteMsg::Transfer { recipient } => {
                    let t = transfer_transition(pre, info.sender@, recipient@);
                    &&& (*final(state)).deep_view() == t.state
                    &&& result_view(r) == t.result
                },
                ExecuteMsg::Execute => {
                    let t = exercise_transition(
                        pre,
                        info.sender@,
                        info.funds.deep_view(),
                        env.height as int,
                    );
                    &&& (*final(state)).deep_view() == t.state
                    &&& result_view(r) == t.result
                },
                ExecuteMsg::Burn => {
                    let t = burn_transition(pre, info.funds.deep_view(), env.height as int);
                    &&& (*final(state)).deep_view() == t.state
                    &&& result_view(r) == t.result
                },
            }
        }),
{
    match msg {
        ExecuteMsg::Transfer { recipient } => try_transfer(state, info, recipient),
        ExecuteMsg::Execute => try_execute(state, env, info),
        ExecuteMsg::Burn => try_burn(state, env, info),
    }
}

/// Hands ownership on, as [`transfer_transition`] describes.
pub fn try_transfer(state: &mut Option<State>, info: MessageInfo, recipient: String) -> (r: Result<
    Response,
    ContractError,
>)
    ensures
        ({
            let t = transfer_transition((*old(state)).deep_view(), info.sender@, recipient@);
            &&& (*final(state)).deep_view() == t.state
            &&& result_view(r) == t.result
        }),
{
    match state {
        None => Err(ContractError::NotFound),
        Some(st) => {
            if !(info.sender == st.owner) {
                return Err(ContractError::Unauthorized);
            }
            st.owner = recipient.clone();
            let mut attributes: Vec<Attribute> = Vec::new();
            attributes.push(Attribute { key: "method".to_owned(), value: "try_transfer".to_owned() });
            attributes.push(Attribute { key: "new owner".to_owned(), value: recipient });
            let response = Response { messages: Vec::new(), attributes };
            proof {
                assert(response.messages.deep_view() =~= Seq::<BankMsgView>::empty());
                assert(response.attributes.deep_view() =~= seq![
                    method_attr("try_transfer"@),
                    AttributeView { key: "new owner"@, value: recipient@ },
                ]);
            }
            Ok(response)
        },
    }
}

/// Exercises the option, as [`exercise_transition`] describes.
pub fn try_execute(state: &mut Option<State>, env: Env, info: MessageInfo) -> (r: Result<
    Response,
    ContractError,
>)
    ensures
        ({
            let t = exercise_transition(
                (*old(state)).deep_view(),
                info.sender@,
                info.funds.deep_view(),
                env.height as int,
            );
            &&& (*final(state)).deep_view() == t.state
            &&& result_view(r) == t.result
        }),
{
    let response = match &*state {
        None => {
            return Err(ContractError::NotFound);
        },
        Some(st) => {
            if !(info.sender == st.owner) {
                return Err(ContractError::Unauthorized);
            }
            if env.height >= st.expires {
                return Err(ContractError::Expired);
            }
            if !funds_eq(&info.funds, &st.counter_offer) {
                let required = clone_coins(&st.counter_offer);
                proof {
                    assert(required.deep_view() =~= st.counter_offer.deep_view());
                }
                return Err(ContractError::DiffCounterOffer { counter_offer: required });
            }
            let pay_counter_offer = BankMsg {
                to_address: st.creator.clone(),
                amount: clone_coins(&st.counter_offer),
            };
            let pay_collateral = BankMsg {
                to_address: st.owner.clone(),
                amount: clone_coins(&st.collateral),
            };
            let mut messages: Vec<BankMsg> = Vec::new();
            messages.push(pay_counter_offer);
            messages.push(pay_collateral);
            let mut attributes: Vec<Attribute> = Vec::new();
            attributes.push(Attribute { key: "method".to_owned(), value: "try_execute".to_owned() });
            let response = Response { messages, attributes };
            proof {
                let st_v = (*old(state)).deep_view()->Some_0;
                assert(response.messages@[0].amount.deep_view() =~= st_v.counter_offer);
                assert(response.messages@[1].amount.deep_view() =~= st_v.collateral);
                assert(response.messages.deep_view() =~= seq![
                    BankMsgView { to_address: st_v.creator, amount: st_v.counter_offer },
                    BankMsgView { to_address: st_v.owner, amount: st_v.collateral },
                ]);
                assert(response.attributes.deep_view() =~= seq![method_attr("try_execute"@)]);
            }
            response
        },
    };
    *state = None;
    Ok(response)
}

/// Burns the expired option, as [`burn_transition`] describes.
pub fn try_burn(state: &mut Option<State>, env: Env, info: MessageInfo) -> (r: Result<
    Response,
    ContractError,
>)
    ensures
        ({
            let t = burn_transition(
                (*old(state)).deep_view(),
                info.funds.deep_view(),
                env.height as int,
            );
            &&& (*final(state)).deep_view() == t.state
            &&& result_view(r) == t.result
        }),
{
    let response = match &*state {
        None => {
            return Err(ContractError::NotFound);
        },
        Some(st) => {
            if env.height < st.expires {
                return Err(ContractError::NotYetExpired);
            }
            if info.funds.len() != 0 {
                return Err(ContractError::FundsNotAllowed);
            }
            let pay_collateral = BankMsg {
                to_address: st.creator.clone(),
                amount: clone_coins(&st.collateral),
            };
            let mut messages: Vec<BankMsg> = Vec::new();
            messages.push(pay_collateral);
            let mut attributes: Vec<Attribute> = Vec::new();
            attributes.push(Attribute { key: "method".to_owned(), value: "try_burn".to_owned() });
            let response = Response { messages, attributes };
            proof {
                let st_v = (*old(state)).deep_view()->Some_0;
                assert(response.messages@[0].amount.deep_view() =~= st_v.collateral);
                assert(response.messages.deep_view() =~= seq![
                    BankMsgView { to_address: st_v.creator, amount: st_v.collateral },
                ]);
                assert(response.attributes.deep_view() =~= seq![method_attr("try_burn"@)]);
            }
            response
        },
    };
    *state = None;
    Ok(response)
}

/// Dispatches the read-only query.
pub fn query(state: &Option<State>, msg: QueryMsg) -> (r: Result<ConfigResponse, ContractError>)
    ensures
        ({
            match msg {
                QueryMsg::Config => config_view(r) == config_result(state.deep_view()),
            }
        }),
{
    match msg {
        QueryMsg::Config => query_config(state),
    }
}

/// Returns the current record verbatim, as [`config_result`] describes. The
/// record is not touched.
pub fn query_config(state: &Option<State>) -> (r: Result<ConfigResponse, ContractError>)
    ensures
        config_view(r) == config_result(state.deep_view()),
{
    match state {
        None => Err(ContractError::NotFound),
        Some(st) => Ok(clone_state(st)),
    }
}

} // verus!
