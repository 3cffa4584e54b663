use wagent::data_key::DataKey;
use wagent::env::{Env, EventData};
use wagent::error::WagentErrors;
use wagent::extend::{extend_data_ttl, BUMP_AMOUNT};
use wagent::guarantees::{
    initialize_twice, pay_stream_after_pay_same_order, pay_stream_twice_same_order,
    pay_twice_same_order,
};
use wagent::{Address, IWagent, Wagent};

#[allow(dead_code)]
struct SetupValues {
    env: Env,
    amount: i128,
    user: Address,
    admin: Address,
    xlm: Address,
    token: Address,
    fluxity: Address,
    wagent_address: Address,
}

fn setup(should_initialize: bool) -> SetupValues {
    let amount: i128 = 1000000000000;

    let admin: Address = 1;
    let user: Address = 2;
    let fluxity: Address = 3;
    let wagent_address: Address = 4;
    let token: Address = 5;
    let xlm: Address = 6;

    let mut env = Env::new(wagent_address, 0);

    env.token.mint(xlm, user, amount);
    env.token.mint(xlm, admin, amount);
    env.token.mint(token, user, amount);
    env.token.mint(token, admin, amount);

    if should_initialize {
        Wagent::initialize(&mut env, admin, fluxity).unwrap();
    }

    SetupValues { env, amount, user, admin, xlm, token, fluxity, wagent_address }
}

#[test]
fn test_initialize_contract() {
    let mut vars = setup(false);

    Wagent::initialize(&mut vars.env, vars.admin, vars.fluxity).unwrap();

    assert_eq!(Wagent::fluxity_address(&vars.env), Ok(vars.fluxity));
}

#[test]
fn test_initialize_contract_emits_event() {
    let mut vars = setup(false);

    Wagent::initialize(&mut vars.env, vars.admin, vars.fluxity).unwrap();

    let event = vars.env.events.last().unwrap();

    assert_eq!(
        (event.topic_a.as_str(), event.topic_b.as_str()),
        ("CONTRACT", "INIT")
    );
    assert_eq!(event.data, EventData::Addr(vars.admin));
}

#[test]
fn test_initialize_contract_sets_fluxity_address() {
    let mut vars = setup(false);

    Wagent::initialize(&mut vars.env, vars.admin, vars.fluxity).unwrap();

    assert_eq!(Wagent::fluxity_address(&vars.env), Ok(vars.fluxity));
}

#[test]
fn test_initialize_contract_called_twice_reverts() {
    let mut vars = setup(false);

    Wagent::initialize(&mut vars.env, vars.admin, vars.fluxity).unwrap();

    assert_eq!(
        Wagent::initialize(&mut vars.env, vars.admin, vars.fluxity),
        Err(WagentErrors::ContractAlreadyInitialized)
    );
}

#[test]
fn test_initialize_contract_sets_admin() {
    let mut vars = setup(false);

    Wagent::initialize(&mut vars.env, vars.admin, vars.fluxity).unwrap();

    assert_eq!(Wagent::admin(&vars.env), Ok(vars.admin));
}

#[test]
fn test_uninitialized_contract_throws_error_if_admin_is_called() {
    let vars = setup(false);

    assert_eq!(
        Wagent::admin(&vars.env),
        Err(WagentErrors::ContractNotInitialized)
    );
}

#[test]
fn test_pay() {
    let mut vars = setup(true);

    let amount: i128 = 1_0000000;

    vars.env
        .token
        .approve(vars.token, vars.user, vars.wagent_address, amount, 6311000);

    let user_balance_before = vars.env.token.balance(vars.token, vars.user);
    let admin_balance_before = vars.env.token.balance(vars.token, vars.admin);

    Wagent::pay(
        &mut vars.env,
        vars.token,
        vars.user,
        vars.admin,
        amount,
        String::from("66aea870d40479b0f9624a44"),
    )
    .unwrap();

    let user_balance_after = vars.env.token.balance(vars.token, vars.user);
    let admin_balance_after = vars.env.token.balance(vars.token, vars.admin);

    assert_eq!(user_balance_before, user_balance_after + amount);
    assert_eq!(admin_balance_before, admin_balance_after - amount);
}

#[test]
fn test_pay_when_contract_is_not_initialized_reverts() {
    let mut vars = setup(false);

    let amount: i128 = 1_0000000;

    vars.env
        .token
        .approve(vars.token, vars.user, vars.wagent_address, amount, 6311000);

    let result = Wagent::pay(
        &mut vars.env,
        vars.token,
        vars.user,
        vars.admin,
        amount,
        String::from("fkfhdkfh"),
    );

    assert_eq!(result, Err(WagentErrors::ContractNotInitialized));
}

#[test]
fn test_pay_should_set_order() {
    let mut vars = setup(true);

    let amount: i128 = 1_0000000;
    let order_id = String::from("fkfhdkfh");

    vars.env
        .token
        .approve(vars.token, vars.user, vars.wagent_address, amount, 6311000);

    Wagent::pay(
        &mut vars.env,
        vars.token,
        vars.user,
        vars.admin,
        amount,
        order_id.clone(),
    )
    .unwrap();

    let order = Wagent::order(&vars.env, order_id.clone()).unwrap();

    assert_eq!(order.id, order_id);
    assert_eq!(order.amount, amount);
    assert_eq!(order.lockup_id, None);
    assert_eq!(order.is_lockup, false);
    assert_eq!(order.sender, vars.user);
    assert_eq!(order.receiver, vars.admin);
    assert_eq!(order.token, vars.token);
    assert_eq!(order.submit_date, vars.env.timestamp);
}

#[test]
fn test_pay_twice_with_the_same_order_id_reverts() {
    let mut vars = setup(true);

    let amount: i128 = 1_0000000;
    let order_id = String::from("fkfhdkfh");

    vars.env
        .token
        .approve(vars.token, vars.user, vars.wagent_address, amount, 6311000);

    Wagent::pay(
        &mut vars.env,
        vars.token,
        vars.user,
        vars.admin,
        amount,
        order_id.clone(),
    )
    .unwrap();

    let result = Wagent::pay(
        &mut vars.env,
        vars.token,
        vars.user,
        vars.admin,
        amount,
        order_id,
    );

    assert_eq!(result, Err(WagentErrors::OrderAlreadyExists));
}

#[test]
fn test_pay_emits_event() {
    let mut vars = setup(true);

    let amount: i128 = 1_0000000;
    let order_id = String::from("fkfhdkfh");

    vars.env
        .token
        .approve(vars.token, vars.user, vars.wagent_address, amount, 6311000);

    Wagent::pay(
        &mut vars.env,
        vars.token,
        vars.user,
        vars.admin,
        amount,
        order_id.clone(),
    )
    .unwrap();

    let event = vars.env.events.last().unwrap();

    assert_eq!((event.topic_a.as_str(), event.topic_b.as_str()), ("PAY", "DIRECT"));
    assert_eq!(event.data, EventData::OrderId(order_id));
}

#[test]
fn test_pay_stream() {
    let mut vars = setup(true);

    let amount: i128 = 1_0000000;
    let order_id = String::from("fkfhdkfh");

    vars.env
        .token
        .approve(vars.token, vars.user, vars.wagent_address, amount, 6311000);

    let user_balance_before = vars.env.token.balance(vars.token, vars.user);
    let admin_balance_before = vars.env.token.balance(vars.token, vars.admin);

    Wagent::pay_stream(
        &mut vars.env,
        vars.token,
        vars.user,
        vars.admin,
        amount,
        order_id,
        1000,
        0,
    )
    .unwrap();

    let user_balance_after = vars.env.token.balance(vars.token, vars.user);
    let admin_balance_after = vars.env.token.balance(vars.token, vars.admin);

    assert_eq!(admin_balance_before, admin_balance_after);
    assert_eq!(user_balance_before, user_balance_after + amount);
}

#[test]
fn test_pay_stream_sets_order() {
    let mut vars = setup(true);

    let amount: i128 = 1_0000000;
    let order_id = String::from("fkfhdkfh");

    vars.env
        .token
        .approve(vars.token, vars.user, vars.wagent_address, amount, 6311000);

    let id = Wagent::pay_stream(
        &mut vars.env,
        vars.token,
        vars.user,
        vars.admin,
        amount,
        order_id.clone(),
        1000,
        0,
    )
    .unwrap();

    let order = Wagent::order(&vars.env, order_id.clone()).unwrap();

    assert_eq!(order.id, order_id);
    assert_eq!(order.amount, amount);
    assert_eq!(order.lockup_id, Some(id));
    assert_eq!(order.is_lockup, true);
    assert_eq!(order.sender, vars.user);
    assert_eq!(order.receiver, vars.admin);
    assert_eq!(order.token, vars.token);
    assert_eq!(order.submit_date, vars.env.timestamp);
}

#[test]
fn test_pay_stream_emits_event() {
    let mut vars = setup(true);

    let amount: i128 = 1_0000000;
    let order_id = String::from("fkfhdkfh");

    vars.env
        .token
        .approve(vars.token, vars.user, vars.wagent_address, amount, 6311000);

    Wagent::pay_stream(
        &mut vars.env,
        vars.token,
        vars.user,
        vars.admin,
        amount,
        order_id.clone(),
        1000,
        0,
    )
    .unwrap();

    let event = vars.env.events.last().unwrap();

    assert_eq!((event.topic_a.as_str(), event.topic_b.as_str()), ("PAY", "STREAM"));
    assert_eq!(event.data, EventData::OrderId(order_id));
}

#[test]
fn test_order_of_unknown_id_is_not_found() {
    let vars = setup(true);

    let result = Wagent::order(&vars.env, String::from("missing"));
    assert!(matches!(result, Err(WagentErrors::OrderNotFound)));
}

#[test]
fn test_pay_stream_moves_custody_to_the_streaming_service() {
    let mut vars = setup(true);

    let amount: i128 = 1_0000000;

    vars.env
        .token
        .approve(vars.token, vars.user, vars.wagent_address, amount, 6311000);

    Wagent::pay_stream(
        &mut vars.env,
        vars.token,
        vars.user,
        vars.admin,
        amount,
        String::from("fkfhdkfh"),
        1000,
        0,
    )
    .unwrap();

    assert_eq!(vars.env.token.balance(vars.token, vars.fluxity), amount);
    assert_eq!(vars.env.token.balance(vars.token, vars.wagent_address), 0);
    assert_eq!(vars.env.fluxity.lockups.len(), 1);
    assert_eq!(vars.env.fluxity.lockups[0].input.end_date, 1000);
    assert_eq!(vars.env.fluxity.lockups[0].input.spender, vars.wagent_address);
}

#[test]
fn test_pay_consumes_the_senders_allowance() {
    let mut vars = setup(true);

    let amount: i128 = 1_0000000;

    vars.env
        .token
        .approve(vars.token, vars.user, vars.wagent_address, amount, 6311000);

    Wagent::pay(
        &mut vars.env,
        vars.token,
        vars.user,
        vars.admin,
        amount,
        String::from("fkfhdkfh"),
    )
    .unwrap();

    let left = wagent::token::allowance_lookup(
        &vars.env.token.allowances,
        vars.token,
        vars.user,
        vars.wagent_address,
    );
    assert_eq!(left, 0);
}

#[test]
fn test_initialization_renews_the_configuration_tier_lifetime() {
    let mut vars = setup(false);

    assert_eq!(vars.env.instance.ttl, 0);

    Wagent::initialize(&mut vars.env, vars.admin, vars.fluxity).unwrap();

    assert_eq!(vars.env.instance.ttl, BUMP_AMOUNT);
}

#[test]
fn test_recorded_order_gets_the_bumped_lifetime() {
    let mut vars = setup(true);

    let amount: i128 = 1_0000000;

    vars.env
        .token
        .approve(vars.token, vars.user, vars.wagent_address, amount, 6311000);

    Wagent::pay(
        &mut vars.env,
        vars.token,
        vars.user,
        vars.admin,
        amount,
        String::from("fkfhdkfh"),
    )
    .unwrap();

    assert_eq!(vars.env.orders.len(), 1);
    assert_eq!(vars.env.orders[0].ttl, BUMP_AMOUNT);

    // Renewal is idempotent: the lifetime is already above the threshold.
    extend_data_ttl(&mut vars.env, &DataKey::Order(String::from("fkfhdkfh")));
    assert_eq!(vars.env.orders[0].ttl, BUMP_AMOUNT);

    // Renewing an absent key has no effect.
    extend_data_ttl(&mut vars.env, &DataKey::Order(String::from("missing")));
    assert_eq!(vars.env.orders.len(), 1);
    assert_eq!(vars.env.orders[0].ttl, BUMP_AMOUNT);
}

#[test]
fn test_guarantee_initialize_twice() {
    let mut vars = setup(false);

    let (r1, r2) = initialize_twice(&mut vars.env, vars.admin, vars.fluxity, 7, 8);

    assert_eq!(r1, Ok(()));
    assert_eq!(r2, Err(WagentErrors::ContractAlreadyInitialized));
    assert_eq!(Wagent::admin(&vars.env), Ok(vars.admin));
    assert_eq!(Wagent::fluxity_address(&vars.env), Ok(vars.fluxity));
    assert_eq!(vars.env.events.len(), 1);
}

#[test]
fn test_guarantee_pay_twice_same_order() {
    let mut vars = setup(true);

    let amount: i128 = 1_0000000;

    vars.env
        .token
        .approve(vars.token, vars.user, vars.wagent_address, amount, 6311000);

    let (r1, r2) = pay_twice_same_order(
        &mut vars.env,
        vars.token,
        vars.user,
        vars.admin,
        amount,
        String::from("fkfhdkfh"),
        42,
    );

    assert_eq!(r1, Ok(()));
    assert_eq!(r2, Err(WagentErrors::OrderAlreadyExists));

    let order = Wagent::order(&vars.env, String::from("fkfhdkfh")).unwrap();
    assert_eq!(order.amount, amount);
}

#[test]
fn test_guarantee_pay_stream_after_pay_same_order() {
    let mut vars = setup(true);

    let amount: i128 = 1_0000000;

    vars.env
        .token
        .approve(vars.token, vars.user, vars.wagent_address, amount, 6311000);

    let (r1, r2) = pay_stream_after_pay_same_order(
        &mut vars.env,
        vars.token,
        vars.user,
        vars.admin,
        amount,
        String::from("fkfhdkfh"),
        1000,
        0,
    );

    assert_eq!(r1, Ok(()));
    assert_eq!(r2, Err(WagentErrors::OrderAlreadyExists));

    let order = Wagent::order(&vars.env, String::from("fkfhdkfh")).unwrap();
    assert_eq!(order.is_lockup, false);
    assert_eq!(order.lockup_id, None);
}

#[test]
fn test_pay_stream_when_contract_is_not_initialized_reverts() {
    let mut vars = setup(false);

    let result = Wagent::pay_stream(
        &mut vars.env,
        vars.token,
        vars.user,
        vars.admin,
        1_0000000,
        String::from("fkfhdkfh"),
        1000,
        0,
    );

    assert_eq!(result, Err(WagentErrors::ContractNotInitialized));
}

#[test]
fn test_guarantee_pay_stream_twice_same_order() {
    let mut vars = setup(true);

    let amount: i128 = 1_0000000;

    vars.env
        .token
        .approve(vars.token, vars.user, vars.wagent_address, amount, 6311000);

    let (r1, r2) = pay_stream_twice_same_order(
        &mut vars.env,
        vars.token,
        vars.user,
        vars.admin,
        amount,
        String::from("fkfhdkfh"),
        1000,
        0,
    );

    assert_eq!(r1, Ok(0));
    assert_eq!(r2, Err(WagentErrors::OrderAlreadyExists));

    let order = Wagent::order(&vars.env, String::from("fkfhdkfh")).unwrap();
    assert_eq!(order.is_lockup, true);
    assert_eq!(order.lockup_id, Some(0));
}
