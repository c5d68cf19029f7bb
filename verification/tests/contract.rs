use burn_router::{
    execute, handle_receive, handle_receive_uusd, handle_swap_reply, handle_update_swap_pool_address,
    handle_update_tax_rate, instantiate, query, reply, try_execute, Coin, Config, ContractError,
    ContractMsg, ExecuteMsg, InstantiateMsg, QueryMsg, ReplyOn, Response, SubMsg,
};

const BURN_ADDRESS: &str = "terra1sk06e3dyexuq4shw77y3dsv480xv42mq73anxu";

fn coins(amount: u128, denom: &str) -> Vec<Coin> {
    vec![Coin { denom: denom.to_string(), amount }]
}

fn setup(sender: &str, pool: &str, tax_rate: u64) -> Config {
    instantiate(
        sender.to_string(),
        InstantiateMsg { swap_pool_address: pool.to_string(), tax_rate },
    )
}

fn swap_parts(m: &SubMsg) -> (String, Vec<Coin>) {
    match &m.msg {
        ContractMsg::WasmExecuteSwap { contract_addr, funds, .. } => {
            (contract_addr.clone(), funds.clone())
        }
        _ => panic!("Unexpected message type"),
    }
}

fn bank_parts(m: &SubMsg) -> (String, Vec<Coin>) {
    match &m.msg {
        ContractMsg::BankSend { to_address, amount } => (to_address.clone(), amount.clone()),
        _ => panic!("Unexpected message type"),
    }
}

#[test]
fn test_execute_with_uluna_directly() {
    let mut config = setup("sender", "some_swap_pool_address", 2500); // 25%
    let funds = coins(1000000, "uluna"); // 1 LUNC

    let res = execute(&mut config, "contract", "sender", &funds, ExecuteMsg::Receive {}).unwrap();

    assert_eq!(res.messages.len(), 2); // Expecting one for swap, one for potential burn after swap
    let (contract_addr, sent) = swap_parts(&res.messages[0]);
    assert_eq!(contract_addr, "some_swap_pool_address");
    assert_eq!(sent.len(), 1);
    assert_eq!(sent[0].denom, "uluna");
    assert_eq!(sent[0].amount, 250000u128); // 25% of 1,000,000

    assert!(res.attributes.iter().any(|a| a.key == "action" && a.value == "initiate_swap"));
}

#[test]
fn test_execute_with_uusd_directly() {
    let mut config = setup("sender", "some_swap_pool_address", 5000); // 50%, meaning 50% to swap
    let funds = coins(1000000, "uusd"); // 1 USTC

    let res = execute(&mut config, "contract", "sender", &funds, ExecuteMsg::Receive {}).unwrap();

    assert_eq!(res.messages.len(), 2); // Expecting one for swap, one for potential burn after swap
    let (contract_addr, sent) = swap_parts(&res.messages[0]);
    assert_eq!(contract_addr, "some_swap_pool_address");
    assert_eq!(sent.len(), 1);
    assert_eq!(sent[0].denom, "uusd");
    assert_eq!(sent[0].amount, 500000u128); // 50% of 1,000,000

    assert!(res.attributes.iter().any(|a| a.key == "action" && a.value == "initiate_swap"));
}

#[test]
fn primary_route_splits_and_arms_contingency() {
    // tax 1234: swap = floor(777777 * 1234 / 10000), contingency = full amount.
    let config = setup("sender", "pool", 1234);
    let funds = coins(777777, "uluna");
    let res = handle_receive(&config, "contract", &funds).unwrap();

    assert_eq!(res.messages.len(), 2);
    let swap = &res.messages[0];
    assert_eq!(swap.id, 1);
    assert_eq!(swap.reply_on, ReplyOn::Success);
    let (_, sent) = swap_parts(swap);
    assert_eq!(sent[0].amount, 777777u128 * 1234 / 10000);

    let contingency = &res.messages[1];
    assert_eq!(contingency.id, 3);
    assert_eq!(contingency.reply_on, ReplyOn::Error);
    let (to, burned) = bank_parts(contingency);
    assert_eq!(to, BURN_ADDRESS);
    assert_eq!(burned.len(), 1);
    assert_eq!(burned[0].denom, "uluna");
    assert_eq!(burned[0].amount, 777777u128);
}

#[test]
fn secondary_route_uses_complement_and_arms_contingency() {
    // tax 1234: swap = floor(999999 * (10000 - 1234) / 10000), contingency = full amount.
    let config = setup("sender", "pool", 1234);
    let funds = coins(999999, "uusd");
    let res = handle_receive_uusd(&config, "contract", &funds).unwrap();

    assert_eq!(res.messages.len(), 2);
    let swap = &res.messages[0];
    assert_eq!(swap.id, 2);
    assert_eq!(swap.reply_on, ReplyOn::Success);
    let (_, sent) = swap_parts(swap);
    assert_eq!(sent[0].denom, "uusd");
    assert_eq!(sent[0].amount, 999999u128 * (10000 - 1234) / 10000);

    let contingency = &res.messages[1];
    assert_eq!(contingency.id, 4);
    assert_eq!(contingency.reply_on, ReplyOn::Error);
    let (to, burned) = bank_parts(contingency);
    assert_eq!(to, BURN_ADDRESS);
    assert_eq!(burned[0].denom, "uusd");
    assert_eq!(burned[0].amount, 999999u128);
}

#[test]
fn secondary_route_clamps_oversized_tax_rate() {
    // An unvalidated stored rate above 10000 is clamped: complement share is 0.
    let config = setup("sender", "pool", 60000);
    let funds = coins(500, "uusd");
    let res = handle_receive_uusd(&config, "contract", &funds).unwrap();
    let (_, sent) = swap_parts(&res.messages[0]);
    assert_eq!(sent[0].amount, 0u128);
    let (_, burned) = bank_parts(&res.messages[1]);
    assert_eq!(burned[0].amount, 500u128);
}

#[test]
fn zero_rounded_swap_is_still_dispatched() {
    // A non-zero deposit whose swap share rounds to zero still dispatches.
    let config = setup("sender", "pool", 2500);
    let funds = coins(3, "uluna");
    let res = handle_receive(&config, "contract", &funds).unwrap();
    assert_eq!(res.messages.len(), 2);
    let (_, sent) = swap_parts(&res.messages[0]);
    assert_eq!(sent[0].amount, 0u128);
    let (_, burned) = bank_parts(&res.messages[1]);
    assert_eq!(burned[0].amount, 3u128);
}

#[test]
fn query_is_idempotent() {
    let config = setup("admin", "pool", 42);
    let first = query(&config, QueryMsg::Config {});
    let second = query(&config, QueryMsg::Config {});
    assert_eq!(first, second);
    assert_eq!(first.admin, "admin");
    assert_eq!(first.swap_pool_address, "pool");
    assert_eq!(first.tax_rate, 42);
}

#[test]
fn non_admin_updates_are_rejected() {
    let mut config = setup("admin", "pool", 100);
    let before = query(&config, QueryMsg::Config {});

    let r = handle_update_swap_pool_address(&mut config, "mallory", "evil_pool".to_string());
    assert_eq!(r.unwrap_err(), ContractError::Unauthorized {});
    assert_eq!(query(&config, QueryMsg::Config {}), before);

    let r = handle_update_tax_rate(&mut config, "mallory", 1);
    assert_eq!(r.unwrap_err(), ContractError::Unauthorized {});
    assert_eq!(query(&config, QueryMsg::Config {}), before);
}

#[test]
fn admin_updates_swap_pool_address() {
    let mut config = setup("admin", "pool", 100);
    let res = handle_update_swap_pool_address(&mut config, "admin", "pool2".to_string()).unwrap();
    assert_eq!(config.swap_pool_address, "pool2");
    assert_eq!(config.tax_rate, 100);
    assert!(res.messages.is_empty());
    assert!(res.attributes.iter().any(|a| a.key == "action" && a.value == "update_swap_pool_address"));
}

#[test]
fn tax_rate_boundary() {
    let mut config = setup("admin", "pool", 100);

    let res = handle_update_tax_rate(&mut config, "admin", 10000).unwrap();
    assert_eq!(config.tax_rate, 10000);
    assert!(res.attributes.iter().any(|a| a.key == "new_tax_rate" && a.value == "10000"));

    let r = handle_update_tax_rate(&mut config, "admin", 10001);
    assert_eq!(r.unwrap_err(), ContractError::InvalidTaxRate {});
    assert_eq!(config.tax_rate, 10000);
}

#[test]
fn scenario_primary_deposit_without_command() {
    let mut config = setup("sender", "pool1", 2500);
    let funds = coins(1000000, "uluna");
    let res = try_execute(&mut config, "contract", "sender", &funds, None).unwrap();

    assert_eq!(res.messages.len(), 2);
    let (pool, sent) = swap_parts(&res.messages[0]);
    assert_eq!(pool, "pool1");
    assert_eq!(sent[0].denom, "uluna");
    assert_eq!(sent[0].amount, 250000u128);
    let (to, burned) = bank_parts(&res.messages[1]);
    assert_eq!(to, BURN_ADDRESS);
    assert_eq!(burned[0].amount, 1000000u128);
    assert!(res.attributes.iter().any(|a| a.key == "action" && a.value == "initiate_swap"));
}

#[test]
fn scenario_secondary_deposit_uses_complement() {
    let mut config = setup("sender", "pool1", 5000);
    let funds = coins(1000000, "uusd");
    let res = execute(&mut config, "contract", "sender", &funds, ExecuteMsg::Receive {}).unwrap();
    let (_, sent) = swap_parts(&res.messages[0]);
    assert_eq!(sent[0].amount, 500000u128);
}

#[test]
fn scenario_success_reply_sweeps_both_balances() {
    let res = reply(1, 100, 50).unwrap();
    assert_eq!(res.messages.len(), 1);
    assert_eq!(res.messages[0].id, 0);
    assert_eq!(res.messages[0].reply_on, ReplyOn::Never);
    let (to, swept) = bank_parts(&res.messages[0]);
    assert_eq!(to, BURN_ADDRESS);
    assert_eq!(swept.len(), 2);
    assert_eq!(swept[0].denom, "uluna");
    assert_eq!(swept[0].amount, 100u128);
    assert_eq!(swept[1].denom, "uusd");
    assert_eq!(swept[1].amount, 50u128);
    assert!(res.attributes.iter().any(|a| a.key == "action" && a.value == "burn_after_swap"));
}

#[test]
fn secondary_success_reply_sweeps_secondary_first() {
    let res = reply(2, 100, 50).unwrap();
    let (_, swept) = bank_parts(&res.messages[0]);
    assert_eq!(swept[0].denom, "uusd");
    assert_eq!(swept[0].amount, 50u128);
    assert_eq!(swept[1].denom, "uluna");
    assert_eq!(swept[1].amount, 100u128);
}

#[test]
fn failure_replies_are_observational() {
    let res = reply(3, 0, 0).unwrap();
    assert!(res.messages.is_empty());
    assert!(res.attributes.iter().any(|a| a.key == "action" && a.value == "swap_failed_burn"));
    assert!(res.attributes.iter().any(|a| a.key == "memo" && a.value == "LUNC_BURN"));

    let res = reply(4, 0, 0).unwrap();
    assert!(res.messages.is_empty());
    assert!(res.attributes.iter().any(|a| a.key == "memo" && a.value == "USTC_BURN"));
}

#[test]
fn scenario_unrecognized_reply_tag() {
    let r = reply(99, 0, 0);
    assert_eq!(r.unwrap_err(), ContractError::UnknownReplyId { id: 99 });
}

#[test]
fn scenario_unparseable_command_without_funds() {
    let mut config = setup("sender", "pool", 2500);
    let funds: Vec<Coin> = Vec::new();
    let r = try_execute(&mut config, "contract", "sender", &funds, None);
    assert_eq!(r.unwrap_err(), ContractError::InvalidMessage {});
}

#[test]
fn unparseable_command_with_unrecognized_funds_fails_as_primary() {
    // Funds of a foreign denomination still take the primary fallback, which
    // then reports the missing primary asset: a defined failure, not a crash.
    let mut config = setup("sender", "pool", 2500);
    let funds = coins(10, "ufoo");
    let r = try_execute(&mut config, "contract", "sender", &funds, None);
    assert_eq!(r.unwrap_err(), ContractError::NoLunaReceived {});
}

#[test]
fn explicit_receive_without_funds_fails() {
    let mut config = setup("sender", "pool", 2500);
    let funds: Vec<Coin> = Vec::new();
    let r = execute(&mut config, "contract", "sender", &funds, ExecuteMsg::Receive {});
    assert_eq!(r.unwrap_err(), ContractError::NoLunaReceived {});
}

#[test]
fn secondary_route_without_secondary_asset_fails() {
    let config = setup("sender", "pool", 2500);
    let funds = coins(10, "ufoo");
    let r = handle_receive_uusd(&config, "contract", &funds);
    assert_eq!(r.unwrap_err(), ContractError::NoUstcReceived {});
}

#[test]
fn attached_funds_take_priority_over_command() {
    // A deposit of the primary asset routes to the swap even when the call
    // carries an admin command; the configuration stays untouched.
    let mut config = setup("admin", "pool", 2500);
    let funds = coins(1000, "uluna");
    let res = execute(
        &mut config,
        "contract",
        "admin",
        &funds,
        ExecuteMsg::UpdateTaxRate { tax_rate: 1 },
    )
    .unwrap();
    assert!(res.attributes.iter().any(|a| a.key == "action" && a.value == "initiate_swap"));
    assert_eq!(config.tax_rate, 2500);
}

#[test]
fn primary_asset_takes_priority_over_secondary() {
    let mut config = setup("sender", "pool", 2500);
    let funds = vec![
        Coin { denom: "uusd".to_string(), amount: 700 },
        Coin { denom: "uluna".to_string(), amount: 400 },
    ];
    let res = execute(&mut config, "contract", "sender", &funds, ExecuteMsg::Receive {}).unwrap();
    let (_, sent) = swap_parts(&res.messages[0]);
    assert_eq!(sent[0].denom, "uluna");
    assert_eq!(sent[0].amount, 400u128 * 2500 / 10000);
}

#[test]
fn parsed_admin_command_executes_without_funds() {
    let mut config = setup("admin", "pool", 2500);
    let funds: Vec<Coin> = Vec::new();
    let res = try_execute(
        &mut config,
        "contract",
        "admin",
        &funds,
        Some(ExecuteMsg::UpdateTaxRate { tax_rate: 777 }),
    )
    .unwrap();
    assert_eq!(config.tax_rate, 777);
    assert!(res.attributes.iter().any(|a| a.key == "new_tax_rate" && a.value == "777"));
}

#[test]
fn instantiate_does_not_validate_tax_rate() {
    // By design, only the update path bound-checks the rate.
    let config = setup("admin", "pool", 123456);
    assert_eq!(config.tax_rate, 123456);
    assert_eq!(config.admin, "admin");
}

#[test]
fn swap_instruction_directs_proceeds_to_contract() {
    let config = setup("sender", "pool", 2500);
    let funds = coins(1000, "uluna");
    let res: Response = handle_receive(&config, "the_contract_address", &funds).unwrap();
    match &res.messages[0].msg {
        ContractMsg::WasmExecuteSwap { swap, .. } => {
            assert_eq!(swap.offer_denom, "uluna");
            assert_eq!(swap.offer_amount, 250u128);
            assert_eq!(swap.to, "the_contract_address");
        }
        _ => panic!("Unexpected message type"),
    }
}
