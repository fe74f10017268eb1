use simple_option::contract::{execute, instantiate, query, query_config};
use simple_option::error::ContractError;
use simple_option::msg::{
    Attribute, BankMsg, Env, ExecuteMsg, InstantiateMsg, MessageInfo, QueryMsg,
};
use simple_option::state::{Coin, State};

fn coins(amount: u128, denom: &str) -> Vec<Coin> {
    vec![Coin { denom: denom.to_string(), amount }]
}

fn mock_env() -> Env {
    Env { height: 0 }
}

fn mock_info(sender: &str, funds: &[Coin]) -> MessageInfo {
    MessageInfo { sender: sender.to_string(), funds: funds.to_vec() }
}

#[test]
fn proper_initialization() {
    let mut state: Option<State> = None;
    let msg = InstantiateMsg { counter_offer: coins(40, "ETH"), expires: 100_000 };
    let info = mock_info("creator", &coins(1, "BTC"));

    let res = instantiate(&mut state, mock_env(), info, msg).unwrap();
    assert_eq!(0, res.messages.len());

    let value = query(&state, QueryMsg::Config).unwrap();
    assert_eq!(100_000, value.expires);
    assert_eq!("creator", value.owner);
    assert_eq!("creator", value.creator);
    assert_eq!(coins(1, "BTC"), value.collateral);
    assert_eq!(coins(40, "ETH"), value.counter_offer);
}

#[test]
fn transfer() {
    let mut state: Option<State> = None;
    let msg = InstantiateMsg { counter_offer: coins(40, "ETH"), expires: 100_000 };
    let info = mock_info("creator", &coins(1, "BTC"));

    let res = instantiate(&mut state, mock_env(), info, msg).unwrap();
    assert_eq!(0, res.messages.len());
    let _value = query(&state, QueryMsg::Config).unwrap();

    // random cant transfer
    let info = mock_info("anyone", &[]);
    let msg = ExecuteMsg::Transfer { recipient: "anyone".to_string() };
    let err = execute(&mut state, mock_env(), info, msg).unwrap_err();
    match err {
        ContractError::Unauthorized => {}
        _ => panic!("Must return unauthorized error"),
    }

    // owner can transfer
    let info = mock_info("creator", &[]);
    let msg = ExecuteMsg::Transfer { recipient: "someone".to_string() };
    let success = execute(&mut state, mock_env(), info, msg).unwrap();
    assert_eq!(success.attributes.len(), 2);
    assert_eq!(
        success.attributes[1],
        Attribute { key: "new owner".to_string(), value: "someone".to_string() }
    );

    let value = query(&state, QueryMsg::Config).unwrap();
    assert_eq!("someone", value.owner);
    assert_eq!("creator", value.creator);
}

#[test]
fn execute_test() {
    let mut state: Option<State> = None;
    let counter_offer = coins(40, "ETH");
    let msg = InstantiateMsg { counter_offer: counter_offer.clone(), expires: 100_000 };
    let collateral = coins(1, "BTC");
    let info = mock_info("creator", &collateral);
    let res = instantiate(&mut state, mock_env(), info, msg).unwrap();

    assert_eq!(0, res.messages.len());
    let _value = query(&state, QueryMsg::Config).unwrap();

    // random cant execute
    let info = mock_info("anyone", &counter_offer);
    let msg = ExecuteMsg::Transfer { recipient: "anyone".to_string() };
    let err = execute(&mut state, mock_env(), info, msg).unwrap_err();
    match err {
        ContractError::Unauthorized => {}
        _ => panic!("Must return unauthorized error"),
    }

    // expired cannot execute
    let info = mock_info("creator", &counter_offer);
    let env = Env { height: 200_000 };
    let err = execute(&mut state, env, info, ExecuteMsg::Execute).unwrap_err();
    match err {
        ContractError::Expired => {}
        _ => panic!("Must return unauthorized error"),
    }

    // wrong counter_offer cannot execute
    let info = mock_info("creator", &coins(39, "ADA"));
    let err = execute(&mut state, mock_env(), info, ExecuteMsg::Execute).unwrap_err();
    match &err {
        ContractError::DiffCounterOffer { counter_offer } => {
            assert_eq!(&coins(40, "ETH"), counter_offer);
        }
        e => panic!("unexpected error: {}", e.message()),
    }

    // proper execution
    let info = mock_info("creator", &counter_offer);
    let success = execute(&mut state, mock_env(), info, ExecuteMsg::Execute).unwrap();
    assert_eq!(success.messages.len(), 2);
    assert_eq!(
        success.messages[0],
        BankMsg { to_address: "creator".to_string(), amount: counter_offer.clone() }
    );
    assert_eq!(
        success.messages[1],
        BankMsg { to_address: "creator".to_string(), amount: collateral.clone() }
    );

    // check deleted
    let _ = query(&state, QueryMsg::Config).unwrap_err();
}

#[test]
fn burn() {
    let mut state: Option<State> = None;
    let counter_offer = coins(40, "ETH");
    let msg = InstantiateMsg { counter_offer: counter_offer.clone(), expires: 100_000 };
    let collateral = coins(1, "BTC");
    let info = mock_info("creator", &collateral);
    let res = instantiate(&mut state, mock_env(), info, msg).unwrap();

    assert_eq!(0, res.messages.len());
    let _value = query(&state, QueryMsg::Config).unwrap();

    // non-expired cannot burn
    let info = mock_info("creator", &[]);
    let err = execute(&mut state, mock_env(), info, ExecuteMsg::Burn).unwrap_err();
    match &err {
        ContractError::NotYetExpired => assert_eq!("Option not yet expired", err.message()),
        e => panic!("unexpected error: {}", e.message()),
    }

    // do not send funds to burn
    let info = mock_info("creator", &coins(136, "ADA"));
    let env = Env { height: 200_000 };
    let err = execute(&mut state, env, info, ExecuteMsg::Burn).unwrap_err();
    match &err {
        ContractError::FundsNotAllowed => assert_eq!("dont send funds with burn", err.message()),
        e => panic!("unexpected error: {}", e.message()),
    }

    // return funds if expired
    let info = mock_info("creator", &[]);
    let env = Env { height: 200_000 };
    let success = execute(&mut state, env, info, ExecuteMsg::Burn).unwrap();
    assert_eq!(success.messages.len(), 1);
    assert_eq!(success.attributes.len(), 1);
    assert_eq!(
        success.messages[0],
        BankMsg { to_address: "creator".to_string(), amount: collateral.clone() }
    );
}

#[test]
fn create_with_expiry_not_in_future_fails() {
    let mut state: Option<State> = None;
    let msg = InstantiateMsg { counter_offer: coins(40, "ETH"), expires: 100_000 };
    let info = mock_info("creator", &coins(1, "BTC"));
    let err = instantiate(&mut state, Env { height: 100_000 }, info, msg).unwrap_err();
    assert!(matches!(err, ContractError::Expired));
    assert!(state.is_none());

    let msg = InstantiateMsg { counter_offer: coins(40, "ETH"), expires: 0 };
    let info = mock_info("creator", &coins(1, "BTC"));
    let err = instantiate(&mut state, Env { height: 0 }, info, msg).unwrap_err();
    assert!(matches!(err, ContractError::Expired));
    assert!(state.is_none());
}

#[test]
fn create_over_existing_record_fails() {
    let mut state: Option<State> = None;
    let msg = InstantiateMsg { counter_offer: coins(40, "ETH"), expires: 100_000 };
    let info = mock_info("creator", &coins(1, "BTC"));
    instantiate(&mut state, mock_env(), info, msg).unwrap();

    let msg = InstantiateMsg { counter_offer: coins(7, "ADA"), expires: 100_000 };
    let info = mock_info("someone", &[]);
    let err = instantiate(&mut state, mock_env(), info, msg).unwrap_err();
    assert!(matches!(err, ContractError::AlreadyExists));

    // the record is untouched
    let value = query_config(&state).unwrap();
    assert_eq!("creator", value.creator);
    assert_eq!(coins(40, "ETH"), value.counter_offer);
}

#[test]
fn operations_on_missing_record_fail_not_found() {
    let mut state: Option<State> = None;

    let msg = ExecuteMsg::Transfer { recipient: "someone".to_string() };
    let err = execute(&mut state, mock_env(), mock_info("creator", &[]), msg).unwrap_err();
    assert!(matches!(err, ContractError::NotFound));

    let info = mock_info("creator", &coins(40, "ETH"));
    let err = execute(&mut state, mock_env(), info, ExecuteMsg::Execute).unwrap_err();
    assert!(matches!(err, ContractError::NotFound));

    let err = execute(&mut state, Env { height: 200_000 }, mock_info("creator", &[]), ExecuteMsg::Burn)
        .unwrap_err();
    assert!(matches!(err, ContractError::NotFound));

    let err = query(&state, QueryMsg::Config).unwrap_err();
    assert!(matches!(err, ContractError::NotFound));
}

#[test]
fn exercise_by_new_owner_after_transfer() {
    let mut state: Option<State> = None;
    let msg = InstantiateMsg { counter_offer: coins(40, "ETH"), expires: 100_000 };
    let info = mock_info("creator", &coins(1, "BTC"));
    instantiate(&mut state, mock_env(), info, msg).unwrap();

    let msg = ExecuteMsg::Transfer { recipient: "someone".to_string() };
    execute(&mut state, mock_env(), mock_info("creator", &[]), msg).unwrap();

    // the old owner may no longer exercise
    let info = mock_info("creator", &coins(40, "ETH"));
    let err = execute(&mut state, mock_env(), info, ExecuteMsg::Execute).unwrap_err();
    assert!(matches!(err, ContractError::Unauthorized));

    // past expiry even the new owner cannot exercise
    let info = mock_info("someone", &coins(40, "ETH"));
    let err = execute(&mut state, Env { height: 200_000 }, info, ExecuteMsg::Execute).unwrap_err();
    assert!(matches!(err, ContractError::Expired));

    // before expiry the new owner collects the collateral
    let info = mock_info("someone", &coins(40, "ETH"));
    let success = execute(&mut state, mock_env(), info, ExecuteMsg::Execute).unwrap();
    assert_eq!(success.messages.len(), 2);
    assert_eq!(
        success.messages[0],
        BankMsg { to_address: "creator".to_string(), amount: coins(40, "ETH") }
    );
    assert_eq!(
        success.messages[1],
        BankMsg { to_address: "someone".to_string(), amount: coins(1, "BTC") }
    );
    assert!(state.is_none());
}

#[test]
fn exercise_funds_match_in_any_order() {
    let mut state: Option<State> = None;
    let mut counter_offer = coins(40, "ETH");
    counter_offer.push(Coin { denom: "BTC".to_string(), amount: 2 });
    let msg = InstantiateMsg { counter_offer, expires: 100_000 };
    let info = mock_info("creator", &coins(1, "BTC"));
    instantiate(&mut state, mock_env(), info, msg).unwrap();

    // the same coins in the other order are an exact match
    let mut attached = coins(2, "BTC");
    attached.push(Coin { denom: "ETH".to_string(), amount: 40 });
    let info = mock_info("creator", &attached);
    let success = execute(&mut state, mock_env(), info, ExecuteMsg::Execute).unwrap();
    assert_eq!(success.messages.len(), 2);
    assert!(state.is_none());
}

#[test]
fn exercise_counts_repeated_coins() {
    let mut state: Option<State> = None;
    let mut counter_offer = coins(20, "ETH");
    counter_offer.push(Coin { denom: "ETH".to_string(), amount: 20 });
    let msg = InstantiateMsg { counter_offer, expires: 100_000 };
    let info = mock_info("creator", &coins(1, "BTC"));
    instantiate(&mut state, mock_env(), info, msg).unwrap();

    // one coin of the summed amount is not the recorded multiset
    let info = mock_info("creator", &coins(40, "ETH"));
    let err = execute(&mut state, mock_env(), info, ExecuteMsg::Execute).unwrap_err();
    assert!(matches!(err, ContractError::DiffCounterOffer { .. }));

    // the coin twice is
    let mut attached = coins(20, "ETH");
    attached.push(Coin { denom: "ETH".to_string(), amount: 20 });
    let info = mock_info("creator", &attached);
    execute(&mut state, mock_env(), info, ExecuteMsg::Execute).unwrap();
    assert!(state.is_none());
}

#[test]
fn exercise_twice_fails_not_found() {
    let mut state: Option<State> = None;
    let msg = InstantiateMsg { counter_offer: coins(40, "ETH"), expires: 100_000 };
    let info = mock_info("creator", &coins(1, "BTC"));
    instantiate(&mut state, mock_env(), info, msg).unwrap();

    let info = mock_info("creator", &coins(40, "ETH"));
    execute(&mut state, mock_env(), info, ExecuteMsg::Execute).unwrap();

    let info = mock_info("creator", &coins(40, "ETH"));
    let err = execute(&mut state, mock_env(), info, ExecuteMsg::Execute).unwrap_err();
    assert!(matches!(err, ContractError::NotFound));
}

#[test]
fn burn_deletes_record() {
    let mut state: Option<State> = None;
    let msg = InstantiateMsg { counter_offer: coins(40, "ETH"), expires: 100_000 };
    let info = mock_info("creator", &coins(1, "BTC"));
    instantiate(&mut state, mock_env(), info, msg).unwrap();

    execute(&mut state, Env { height: 100_000 }, mock_info("anyone", &[]), ExecuteMsg::Burn)
        .unwrap();
    assert!(state.is_none());

    let err = query(&state, QueryMsg::Config).unwrap_err();
    assert!(matches!(err, ContractError::NotFound));

    let err = execute(&mut state, Env { height: 200_000 }, mock_info("anyone", &[]), ExecuteMsg::Burn)
        .unwrap_err();
    assert!(matches!(err, ContractError::NotFound));
}
