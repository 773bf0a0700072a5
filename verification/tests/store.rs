use cosmwasm_std::{Response, StdError, StdResult};
use subscription_admin::admin::{conclude_write, dispatch_admin, AdminAction};
use subscription_admin::error::ContractError;
use subscription_admin::messages::{AdminExecuteMsg, PaymentOption, StoreRequest};

/// A state store as a host might keep one: the administrator, the valid
/// options, and a count of the writes it was asked for. It holds an option at
/// most once, takes a second insert of it as done, and takes the removal of an
/// option that is not there as done too.
struct Store {
    admin: Option<String>,
    options: Vec<PaymentOption>,
    writes: usize,
    strict: bool,
}

fn store(admin: Option<&str>, strict: bool) -> Store {
    Store { admin: admin.map(|a| a.to_string()), options: Vec::new(), writes: 0, strict }
}

fn is_contract_admin(store: &Store, caller: &str) -> StdResult<bool> {
    match &store.admin {
        Some(admin) => Ok(admin == caller),
        None => Err(StdError::not_found("admin")),
    }
}

fn write(store: &mut Store, request: StoreRequest) -> StdResult<()> {
    store.writes += 1;
    match request {
        StoreRequest::InsertOption(option) => {
            if store.options.contains(&option) {
                if store.strict {
                    return Err(StdError::generic_err("option exists"));
                }
            } else {
                store.options.push(option);
            }
        }
        StoreRequest::RemoveOption(option) => {
            if !store.options.contains(&option) && store.strict {
                return Err(StdError::not_found("option"));
            }
            store.options.retain(|held| *held != option);
        }
    }
    Ok(())
}

fn execute(store: &mut Store, caller: &str, command: AdminExecuteMsg) -> Result<Response, ContractError> {
    match dispatch_admin(is_contract_admin(store, caller), command)? {
        AdminAction::Respond(response) => Ok(response),
        AdminAction::Write(request) => conclude_write(write(store, request)),
    }
}

fn option(price: u128) -> PaymentOption {
    PaymentOption { denom: "uatom".to_string(), price, period_seconds: 2592000 }
}

fn add(price: u128) -> AdminExecuteMsg {
    AdminExecuteMsg::AddSubscriptionOption { subscription_option: option(price) }
}

fn remove(price: u128) -> AdminExecuteMsg {
    AdminExecuteMsg::RemoveSubscriptionOption { subscription_option: option(price) }
}

fn withdraw(amount: &str) -> AdminExecuteMsg {
    AdminExecuteMsg::Withdraw {
        denom: "uatom".to_string(),
        amount: amount.to_string(),
        beneficiary: "addr1".to_string(),
    }
}

#[test]
fn stranger_changes_nothing() {
    let mut held = store(Some("admin"), false);
    assert_eq!(execute(&mut held, "admin", add(5)), Ok(Response::new()));
    assert_eq!(held.writes, 1);
    for command in [add(6), remove(5), withdraw("1000000"), withdraw("abc")] {
        assert_eq!(execute(&mut held, "stranger", command), Err(ContractError::Unauthorized {}));
    }
    assert_eq!(held.writes, 1);
    assert_eq!(held.options, vec![option(5)]);
}

#[test]
fn store_without_admin_fails_the_command() {
    let mut held = store(None, false);
    for command in [add(5), remove(5), withdraw("1000000")] {
        assert_eq!(
            execute(&mut held, "admin", command),
            Err(ContractError::StateRead(StdError::not_found("admin")))
        );
    }
    assert_eq!(held.writes, 0);
    assert!(held.options.is_empty());
}

#[test]
fn withdraw_writes_nothing() {
    let mut held = store(Some("admin"), false);
    let response = execute(&mut held, "admin", withdraw("1000000")).unwrap();
    assert_eq!(response.messages.len(), 1);
    assert_eq!(execute(&mut held, "admin", withdraw("-5")), Err(ContractError::InvalidAmount {}));
    assert_eq!(execute(&mut held, "admin", withdraw("abc")), Err(ContractError::InvalidAmount {}));
    assert_eq!(held.writes, 0);
    assert!(held.options.is_empty());
}

#[test]
fn add_reaches_the_store_once() {
    let mut held = store(Some("admin"), false);
    let response = execute(&mut held, "admin", add(5)).unwrap();
    assert!(response.messages.is_empty());
    assert_eq!(held.writes, 1);
    assert_eq!(held.options, vec![option(5)]);
}

#[test]
fn add_then_remove_leaves_no_option() {
    let mut held = store(Some("admin"), false);
    assert_eq!(execute(&mut held, "admin", add(5)), Ok(Response::new()));
    assert_eq!(execute(&mut held, "admin", add(6)), Ok(Response::new()));
    assert_eq!(execute(&mut held, "admin", remove(5)), Ok(Response::new()));
    assert_eq!(held.options, vec![option(6)]);
    assert_eq!(execute(&mut held, "admin", remove(6)), Ok(Response::new()));
    assert!(held.options.is_empty());
    assert_eq!(held.writes, 4);
}

#[test]
fn remove_of_an_absent_option_is_as_the_store_says() {
    let mut lenient = store(Some("admin"), false);
    assert_eq!(execute(&mut lenient, "admin", add(5)), Ok(Response::new()));
    assert_eq!(execute(&mut lenient, "admin", remove(7)), Ok(Response::new()));
    assert_eq!(lenient.options, vec![option(5)]);
    assert_eq!(lenient.writes, 2);

    let mut strict = store(Some("admin"), true);
    assert_eq!(
        execute(&mut strict, "admin", remove(7)),
        Err(ContractError::StorageWrite(StdError::not_found("option")))
    );
    assert!(strict.options.is_empty());
    assert_eq!(strict.writes, 1);
}

#[test]
fn add_twice_keeps_the_options_sound() {
    let mut lenient = store(Some("admin"), false);
    assert_eq!(execute(&mut lenient, "admin", add(5)), Ok(Response::new()));
    assert_eq!(execute(&mut lenient, "admin", add(5)), Ok(Response::new()));
    assert_eq!(lenient.options, vec![option(5)]);
    assert_eq!(lenient.writes, 2);

    let mut strict = store(Some("admin"), true);
    assert_eq!(execute(&mut strict, "admin", add(5)), Ok(Response::new()));
    assert_eq!(
        execute(&mut strict, "admin", add(5)),
        Err(ContractError::StorageWrite(StdError::generic_err("option exists")))
    );
    assert_eq!(strict.options, vec![option(5)]);
    assert_eq!(strict.writes, 2);
}
