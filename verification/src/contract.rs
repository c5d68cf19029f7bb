use vstd::prelude::*;
use crate::decimal::{decimal_digits, u64_to_decimal};
use crate::error::ContractError;
use crate::funds::{amount_of, coin_amount};
use crate::msg::{ExecuteMsg, InstantiateMsg, QueryMsg};
use crate::response::{Attribute, Coin, ContractMsg, ReplyOn, Response, SubMsg, SwapInstruction};
use crate::state::{Config, ConfigView};

verus! {

/// The denomination of the primary asset.
pub open spec fn primary_denom() -> Seq<char> {
    "uluna"@
}

/// The denomination of the secondary asset.
pub open spec fn secondary_denom() -> Seq<char> {
    "uusd"@
}

/// The hardcoded terminal burn destination.
pub open spec fn spec_burn_address() -> Seq<char> {
    "terra1sk06e3dyexuq4shw77y3dsv480xv42mq73anxu"@
}

/// The burn address as an executable value.
pub fn burn_address() -> (r: String)
    ensures
        r@ == spec_burn_address(),
{
    String::from_str("terra1sk06e3dyexuq4shw77y3dsv480xv42mq73anxu")
}

/// The tax rate as used by the secondary route: clamped defensively to the
/// full-percentage bound, since instantiation does not validate it.
pub open spec fn clamped_rate(rate: u64) -> u64 {
    if rate > 10000 {
        10000
    } else {
        rate
    }
}

/// How much of a primary-asset deposit is offered to the swap venue:
/// the tax-rate share, rounded down.
pub open spec fn primary_swap_amount(amount: u128, rate: u64) -> int {
    (amount * rate) / 10000
}

/// How much of a secondary-asset deposit is offered to the swap venue:
/// the complement of the (clamped) tax rate, rounded down.
pub open spec fn secondary_swap_amount(amount: u128, rate: u64) -> int {
    (amount * (10000 - clamped_rate(rate))) / 10000
}

/// An attached transfer routes to the primary path when it carries a
/// non-zero amount of the primary asset.
pub open spec fn routes_primary(funds: Seq<Coin>) -> bool {
    coin_amount(funds, primary_denom()) > 0
}

/// An attached transfer routes to the secondary path when it does not route
/// to the primary path but carries a non-zero amount of the secondary asset.
pub open spec fn routes_secondary(funds: Seq<Coin>) -> bool {
    !routes_primary(funds) && coin_amount(funds, secondary_denom()) > 0
}

/// One descriptive attribute with the given key and value.
pub open spec fn is_attr(a: Attribute, key: Seq<char>, value: Seq<char>) -> bool {
    a.key@ == key && a.value@ == value
}

/// A submessage that offers `amount` of `denom` to the swap venue at
/// `pool`, directs proceeds to `to`, and asks for a reply on success under
/// the tag `success_id`.
pub open spec fn is_swap_dispatch(
    m: SubMsg,
    pool: Seq<char>,
    to: Seq<char>,
    denom: Seq<char>,
    amount: int,
    success_id: u64,
) -> bool {
    &&& m.id == success_id
    &&& m.reply_on == ReplyOn::Success
    &&& m.msg matches ContractMsg::WasmExecuteSwap { contract_addr, swap, funds }
        && contract_addr@ == pool && swap.offer_denom@ == denom && swap.offer_amount == amount
        && swap.to@ == to && funds@.len() == 1 && funds@[0].denom@ == denom && funds@[0].amount
        == amount
}

/// A submessage that sends `amount` of `denom` to the burn address and asks
/// for a reply on error under the tag `failure_id`: the speculative
/// contingency burn of the full deposited amount.
pub open spec fn is_contingency_burn(
    m: SubMsg,
    denom: Seq<char>,
    amount: u128,
    failure_id: u64,
) -> bool {
    &&& m.id == failure_id
    &&& m.reply_on == ReplyOn::Error
    &&& m.msg matches ContractMsg::BankSend { to_address, amount: sent }
        && to_address@ == spec_burn_address() && sent@.len() == 1 && sent@[0].denom@ == denom
        && sent@[0].amount == amount
}

/// The full response of a successful routing decision: exactly one swap
/// dispatch for `swap_amount`, one contingency burn of the full deposit,
/// and the two descriptive attributes.
pub open spec fn is_route_response(
    resp: Response,
    config: ConfigView,
    contract_addr: Seq<char>,
    denom: Seq<char>,
    swap_amount: int,
    full_amount: u128,
    success_id: u64,
    failure_id: u64,
) -> bool {
    &&& resp.messages@.len() == 2
    &&& is_swap_dispatch(
        resp.messages@[0],
        config.swap_pool_address,
        contract_addr,
        denom,
        swap_amount,
        success_id,
    )
    &&& is_contingency_burn(resp.messages@[1], denom, full_amount, failure_id)
    &&& resp.attributes@.len() == 2
    &&& is_attr(resp.attributes@[0], "action"@, "initiate_swap"@)
    &&& is_attr(resp.attributes@[1], "memo"@, "LUNC_BURN_WITH_USTC_BUYBACK_N_BURN"@)
}

/// What the primary route produces: an error when no primary asset was
/// deposited, otherwise the swap-plus-contingency response.
pub open spec fn primary_receive_outcome(
    config: ConfigView,
    funds: Seq<Coin>,
    contract_addr: Seq<char>,
    r: Result<Response, ContractError>,
) -> bool {
    if coin_amount(funds, primary_denom()) == 0 {
        r == Err::<Response, ContractError>(ContractError::NoLunaReceived {})
    } else {
        r is Ok && is_route_response(
            r->Ok_0,
            config,
            contract_addr,
            primary_denom(),
            primary_swap_amount(coin_amount(funds, primary_denom()), config.tax_rate),
            coin_amount(funds, primary_denom()),
            1,
            3,
        )
    }
}

/// What the secondary route produces: an error when no secondary asset was
/// deposited, otherwise the swap-plus-contingency response with the
/// complement split.
pub open spec fn secondary_receive_outcome(
    config: ConfigView,
    funds: Seq<Coin>,
    contract_addr: Seq<char>,
    r: Result<Response, ContractError>,
) -> bool {
    if coin_amount(funds, secondary_denom()) == 0 {
        r == Err::<Response, ContractError>(ContractError::NoUstcReceived {})
    } else {
        r is Ok && is_route_response(
            r->Ok_0,
            config,
            contract_addr,
            secondary_denom(),
            secondary_swap_amount(coin_amount(funds, secondary_denom()), config.tax_rate),
            coin_amount(funds, secondary_denom()),
            2,
            4,
        )
    }
}

/// What updating the swap venue address does: rejected for a non-admin
/// caller with the configuration untouched, otherwise the address is
/// overwritten unconditionally.
pub open spec fn update_address_outcome(
    pre: ConfigView,
    post: ConfigView,
    sender: Seq<char>,
    address: Seq<char>,
    r: Result<Response, ContractError>,
) -> bool {
    if sender != pre.admin {
        &&& r == Err::<Response, ContractError>(ContractError::Unauthorized {})
        &&& post == pre
    } else {
        &&& r is Ok
        &&& post.admin == pre.admin
        &&& post.tax_rate == pre.tax_rate
        &&& post.swap_pool_address == address
        &&& r->Ok_0.messages@.len() == 0
        &&& r->Ok_0.attributes@.len() == 1
        &&& is_attr(r->Ok_0.attributes@[0], "action"@, "update_swap_pool_address"@)
    }
}

/// What updating the tax rate does: rejected for a non-admin caller or a
/// rate above 10000, in both cases with the configuration untouched;
/// otherwise the new rate is stored.
pub open spec fn update_tax_rate_outcome(
    pre: ConfigView,
    post: ConfigView,
    sender: Seq<char>,
    new_rate: u64,
    r: Result<Response, ContractError>,
) -> bool {
    if sender != pre.admin {
        &&& r == Err::<Response, ContractError>(ContractError::Unauthorized {})
        &&& post == pre
    } else if new_rate > 10000 {
        &&& r == Err::<Response, ContractError>(ContractError::InvalidTaxRate {})
        &&& post == pre
    } else {
        &&& r is Ok
        &&& post.admin == pre.admin
        &&& post.swap_pool_address == pre.swap_pool_address
        &&& post.tax_rate == new_rate
        &&& r->Ok_0.messages@.len() == 0
        &&& r->Ok_0.attributes@.len() == 2
        &&& is_attr(r->Ok_0.attributes@[0], "action"@, "update_tax_rate"@)
        &&& is_attr(r->Ok_0.attributes@[1], "new_tax_rate"@, decimal_digits(new_rate as nat))
    }
}

/// The whole dispatch decision of one invocation: attached funds classify
/// first (primary over secondary), and only when neither recognized asset
/// arrived with a non-zero amount is the structured command consulted.
pub open spec fn execute_outcome(
    pre: ConfigView,
    post: ConfigView,
    contract_addr: Seq<char>,
    sender: Seq<char>,
    funds: Seq<Coin>,
    msg: ExecuteMsg,
    r: Result<Response, ContractError>,
) -> bool {
    if routes_primary(funds) {
        post == pre && primary_receive_outcome(pre, funds, contract_addr, r)
    } else if routes_secondary(funds) {
        post == pre && secondary_receive_outcome(pre, funds, contract_addr, r)
    } else {
        match msg {
            ExecuteMsg::Receive {} => post == pre && primary_receive_outcome(
                pre,
                funds,
                contract_addr,
                r,
            ),
            ExecuteMsg::UpdateSwapPoolAddress { address } => update_address_outcome(
                pre,
                post,
                sender,
                address@,
                r,
            ),
            ExecuteMsg::UpdateTaxRate { tax_rate } => update_tax_rate_outcome(
                pre,
                post,
                sender,
                tax_rate,
                r,
            ),
        }
    }
}

/// Create the configuration record at contract initialization. The caller
/// becomes the admin; the tax rate is stored unvalidated, by design.
pub fn instantiate(sender: String, msg: InstantiateMsg) -> (c: Config)
    ensures
        c@.admin == sender@,
        c@.swap_pool_address == msg.swap_pool_address@,
        c@.tax_rate == msg.tax_rate,
{
    Config { admin: sender, swap_pool_address: msg.swap_pool_address, tax_rate: msg.tax_rate }
}

/// Answer a read-only query: the full configuration record, with no access
/// control.
pub fn query(config: &Config, msg: QueryMsg) -> (r: Config)
    ensures
        r@ == config@,
{
    match msg {
        QueryMsg::Config {} => Config {
            admin: config.admin.clone(),
            swap_pool_address: config.swap_pool_address.clone(),
            tax_rate: config.tax_rate,
        },
    }
}

/// The query result is determined by the configuration alone, so querying
/// twice without an intervening mutation returns identical results.
pub proof fn lemma_query_idempotent(c: ConfigView, r1: ConfigView, r2: ConfigView)
    requires
        r1 == c,
        r2 == c,
    ensures
        r1 == r2,
{
}

/// Route a primary-asset deposit: offer the tax-rate share of the deposit
/// to the swap venue (reply on success, tag 1) and arm a contingency burn
/// of the full deposit (reply on error, tag 3).
pub fn handle_receive(config: &Config, contract_address: &str, funds: &Vec<Coin>) -> (r: Result<
    Response,
    ContractError,
>)
    requires
        coin_amount(funds@, primary_denom()) * config.tax_rate <= u128::MAX,
    ensures
        primary_receive_outcome(config@, funds@, contract_address@, r),
{
    let amount = amount_of(funds, "uluna");
    if amount == 0 {
        return Err(ContractError::NoLunaReceived {});
    }
    let swap_amount: u128 = amount * (config.tax_rate as u128) / 10000;
    Ok(route_response(config, contract_address, "uluna", swap_amount, amount, 1, 3))
}

/// Route a secondary-asset deposit: offer the complement share of the
/// (clamped) tax rate to the swap venue (reply on success, tag 2) and arm a
/// contingency burn of the full deposit (reply on error, tag 4).
pub fn handle_receive_uusd(config: &Config, contract_address: &str, funds: &Vec<Coin>) -> (r:
    Result<Response, ContractError>)
    requires
        coin_amount(funds@, secondary_denom()) * (10000 - clamped_rate(config.tax_rate))
            <= u128::MAX,
    ensures
        secondary_receive_outcome(config@, funds@, contract_address@, r),
{
    let amount = amount_of(funds, "uusd");
    if amount == 0 {
        return Err(ContractError::NoUstcReceived {});
    }
    let tax_rate: u64 = if config.tax_rate > 10000 {
        10000
    } else {
        config.tax_rate
    };
    let swap_amount: u128 = amount * ((10000 - tax_rate) as u128) / 10000;
    Ok(route_response(config, contract_address, "uusd", swap_amount, amount, 2, 4))
}

/// Build the two-submessage routing response shared by both asset routes.
fn route_response(
    config: &Config,
    contract_address: &str,
    denom: &str,
    swap_amount: u128,
    full_amount: u128,
    success_id: u64,
    failure_id: u64,
) -> (resp: Response)
    ensures
        is_route_response(
            resp,
            config@,
            contract_address@,
            denom@,
            swap_amount as int,
            full_amount,
            success_id,
            failure_id,
        ),
{
    let mut swap_funds: Vec<Coin> = Vec::new();
    swap_funds.push(Coin { denom: String::from_str(denom), amount: swap_amount });
    let swap_dispatch = SubMsg {
        msg: ContractMsg::WasmExecuteSwap {
            contract_addr: config.swap_pool_address.clone(),
            swap: SwapInstruction {
                offer_denom: String::from_str(denom),
                offer_amount: swap_amount,
                to: String::from_str(contract_address),
            },
            funds: swap_funds,
        },
        id: success_id,
        reply_on: ReplyOn::Success,
    };
    let mut burn_coins: Vec<Coin> = Vec::new();
    burn_coins.push(Coin { denom: String::from_str(denom), amount: full_amount });
    let contingency = SubMsg {
        msg: ContractMsg::BankSend { to_address: burn_address(), amount: burn_coins },
        id: failure_id,
        reply_on: ReplyOn::Error,
    };
    let mut messages: Vec<SubMsg> = Vec::new();
    messages.push(swap_dispatch);
    messages.push(contingency);
    let mut attributes: Vec<Attribute> = Vec::new();
    attributes.push(
        Attribute { key: String::from_str("action"), value: String::from_str("initiate_swap") },
    );
    attributes.push(
        Attribute {
            key: String::from_str("memo"),
            value: String::from_str("LUNC_BURN_WITH_USTC_BUYBACK_N_BURN"),
        },
    );
    Response { messages, attributes }
}

/// Overwrite the swap venue address; admin only, no format validation.
pub fn handle_update_swap_pool_address(config: &mut Config, sender: &str, address: String) -> (r:
    Result<Response, ContractError>)
    ensures
        update_address_outcome(old(config)@, final(config)@, sender@, address@, r),
{
    let sender_owned: String = String::from_str(sender);
    if !(sender_owned == config.admin) {
        return Err(ContractError::Unauthorized {});
    }
    config.swap_pool_address = address;
    let mut attributes: Vec<Attribute> = Vec::new();
    attributes.push(
        Attribute {
            key: String::from_str("action"),
            value: String::from_str("update_swap_pool_address"),
        },
    );
    Ok(Response { messages: Vec::new(), attributes })
}

/// Store a new tax rate; admin only, bounded by 10000.
pub fn handle_update_tax_rate(config: &mut Config, sender: &str, tax_rate: u64) -> (r: Result<
    Response,
    ContractError,
>)
    ensures
        update_tax_rate_outcome(old(config)@, final(config)@, sender@, tax_rate, r),
{
    let sender_owned: String = String::from_str(sender);
    if !(sender_owned == config.admin) {
        return Err(ContractError::Unauthorized {});
    }
    if tax_rate > 10000 {
        return Err(ContractError::InvalidTaxRate {});
    }
    config.tax_rate = tax_rate;
    let mut attributes: Vec<Attribute> = Vec::new();
    attributes.push(
        Attribute { key: String::from_str("action"), value: String::from_str("update_tax_rate") },
    );
    attributes.push(
        Attribute { key: String::from_str("new_tax_rate"), value: u64_to_decimal(tax_rate) },
    );
    Ok(Response { messages: Vec::new(), attributes })
}

/// Dispatch one invocation: classify the attached funds first, and only
/// when neither recognized asset arrived with a non-zero amount act on the
/// structured command.
pub fn execute(
    config: &mut Config,
    contract_address: &str,
    sender: &str,
    funds: &Vec<Coin>,
    msg: ExecuteMsg,
) -> (r: Result<Response, ContractError>)
    requires
        coin_amount(funds@, primary_denom()) * old(config).tax_rate <= u128::MAX,
        coin_amount(funds@, secondary_denom()) * (10000 - clamped_rate(old(config).tax_rate))
            <= u128::MAX,
    ensures
        execute_outcome(old(config)@, final(config)@, contract_address@, sender@, funds@, msg, r),
{
    if amount_of(funds, "uluna") > 0 {
        return handle_receive(config, contract_address, funds);
    }
    if amount_of(funds, "uusd") > 0 {
        return handle_receive_uusd(config, contract_address, funds);
    }
    match msg {
        ExecuteMsg::Receive {} => handle_receive(config, contract_address, funds),
        ExecuteMsg::UpdateSwapPoolAddress { address } => handle_update_swap_pool_address(
            config,
            sender,
            address,
        ),
        ExecuteMsg::UpdateTaxRate { tax_rate } => handle_update_tax_rate(config, sender, tax_rate),
    }
}

/// Dispatch one invocation whose command payload may have failed to parse.
/// A parsed command goes through the normal dispatch; an unparseable
/// payload falls back to the primary route when any funds were attached,
/// and is an error otherwise. The asymmetry is deliberate: a transfer
/// without a well-formed command is accepted, an empty call is not.
pub fn try_execute(
    config: &mut Config,
    contract_address: &str,
    sender: &str,
    funds: &Vec<Coin>,
    parsed_msg: Option<ExecuteMsg>,
) -> (r: Result<Response, ContractError>)
    requires
        coin_amount(funds@, primary_denom()) * old(config).tax_rate <= u128::MAX,
        coin_amount(funds@, secondary_denom()) * (10000 - clamped_rate(old(config).tax_rate))
            <= u128::MAX,
    ensures
        parsed_msg matches Some(m) ==> execute_outcome(
            old(config)@,
            final(config)@,
            contract_address@,
            sender@,
            funds@,
            m,
            r,
        ),
        parsed_msg is None && funds@.len() > 0 ==> *final(config) == *old(config)
            && primary_receive_outcome(old(config)@, funds@, contract_address@, r),
        parsed_msg is None && funds@.len() == 0 ==> *final(config) == *old(config) && r == Err::<
            Response,
            ContractError,
        >(ContractError::InvalidMessage {}),
{
    match parsed_msg {
        Some(msg) => execute(config, contract_address, sender, funds, msg),
        None => {
            if funds.len() > 0 {
                handle_receive(config, contract_address, funds)
            } else {
                Err(ContractError::InvalidMessage {})
            }
        },
    }
}

/// A purely observational acknowledgement of a fired contingency burn: the
/// burn transfer itself was already dispatched speculatively at routing
/// time, so nothing is sent here.
pub open spec fn is_failure_ack(resp: Response, memo: Seq<char>) -> bool {
    &&& resp.messages@.len() == 0
    &&& resp.attributes@.len() == 2
    &&& is_attr(resp.attributes@[0], "action"@, "swap_failed_burn"@)
    &&& is_attr(resp.attributes@[1], "memo"@, memo)
}

/// The consolidated sweep after a successful swap: one plain transfer of
/// both recognized-asset balances to the burn address, resolved asset
/// first.
pub open spec fn is_sweep_response(
    resp: Response,
    denom: Seq<char>,
    balance: u128,
    other: Seq<char>,
    other_balance: u128,
) -> bool {
    &&& resp.messages@.len() == 1
    &&& resp.messages@[0].id == 0
    &&& resp.messages@[0].reply_on == ReplyOn::Never
    &&& resp.messages@[0].msg matches ContractMsg::BankSend { to_address, amount }
        && to_address@ == spec_burn_address() && amount@.len() == 2 && amount@[0].denom@ == denom
        && amount@[0].amount == balance && amount@[1].denom@ == other && amount@[1].amount
        == other_balance
    &&& resp.attributes@.len() == 2
    &&& is_attr(resp.attributes@[0], "action"@, "burn_after_swap"@)
    &&& is_attr(resp.attributes@[1], "memo"@, "LUNC_BURN_WITH_USTC_BUYBACK_N_BURN"@)
}

/// The other recognized denomination.
pub open spec fn other_denom(denom: Seq<char>) -> Seq<char> {
    if denom == primary_denom() {
        secondary_denom()
    } else {
        primary_denom()
    }
}

/// Sweep both recognized-asset balances to the burn address after a
/// successful swap of the given asset. The sweep deliberately includes the
/// other asset's full current balance, not just this swap's proceeds.
pub fn handle_swap_reply(token_denom: &str, balance: u128, other_balance: u128) -> (resp: Response)
    requires
        token_denom@ == primary_denom() || token_denom@ == secondary_denom(),
    ensures
        is_sweep_response(resp, token_denom@, balance, other_denom(token_denom@), other_balance),
{
    proof {
        reveal_strlit("uluna");
        reveal_strlit("uusd");
    }
    let uluna: String = String::from_str("uluna");
    let token_owned: String = String::from_str(token_denom);
    let other: &str = if token_owned == uluna {
        "uusd"
    } else {
        "uluna"
    };
    let mut swept: Vec<Coin> = Vec::new();
    swept.push(Coin { denom: token_owned, amount: balance });
    swept.push(Coin { denom: String::from_str(other), amount: other_balance });
    let mut messages: Vec<SubMsg> = Vec::new();
    messages.push(
        SubMsg {
            msg: ContractMsg::BankSend { to_address: burn_address(), amount: swept },
            id: 0,
            reply_on: ReplyOn::Never,
        },
    );
    let mut attributes: Vec<Attribute> = Vec::new();
    attributes.push(
        Attribute { key: String::from_str("action"), value: String::from_str("burn_after_swap") },
    );
    attributes.push(
        Attribute {
            key: String::from_str("memo"),
            value: String::from_str("LUNC_BURN_WITH_USTC_BUYBACK_N_BURN"),
        },
    );
    Response { messages, attributes }
}

/// The reply-reconciliation state machine, keyed by the correlation tag of
/// an inbound reply. Tags 1 and 2 are the success continuations of the two
/// swap routes and sweep both current balances (passed in by the caller,
/// primary first) to the burn address; tags 3 and 4 acknowledge a fired
/// contingency burn without further action; any other tag is surfaced as a
/// contract bug.
pub fn reply(id: u64, luna_balance: u128, ustc_balance: u128) -> (r: Result<
    Response,
    ContractError,
>)
    ensures
        id == 1 ==> r is Ok && is_sweep_response(
            r->Ok_0,
            primary_denom(),
            luna_balance,
            secondary_denom(),
            ustc_balance,
        ),
        id == 2 ==> r is Ok && is_sweep_response(
            r->Ok_0,
            secondary_denom(),
            ustc_balance,
            primary_denom(),
            luna_balance,
        ),
        id == 3 ==> r is Ok && is_failure_ack(r->Ok_0, "LUNC_BURN"@),
        id == 4 ==> r is Ok && is_failure_ack(r->Ok_0, "USTC_BURN"@),
        !(1 <= id <= 4) ==> r is Err && r->Err_0 == (ContractError::UnknownReplyId { id }),
{
    if id == 1 || id == 2 {
        let token_denom: &str = if id == 1 {
            "uluna"
        } else {
            "uusd"
        };
        let balance: u128 = if id == 1 {
            luna_balance
        } else {
            ustc_balance
        };
        let other_balance: u128 = if id == 1 {
            ustc_balance
        } else {
            luna_balance
        };
        Ok(handle_swap_reply(token_denom, balance, other_balance))
    } else if id == 3 {
        Ok(failure_ack("LUNC_BURN"))
    } else if id == 4 {
        Ok(failure_ack("USTC_BURN"))
    } else {
        Err(ContractError::UnknownReplyId { id })
    }
}

/// Build the observational response recording that a contingency burn
/// fired.
fn failure_ack(memo: &str) -> (resp: Response)
    ensures
        is_failure_ack(resp, memo@),
{
    let mut attributes: Vec<Attribute> = Vec::new();
    attributes.push(
        Attribute { key: String::from_str("action"), value: String::from_str("swap_failed_burn") },
    );
    attributes.push(Attribute { key: String::from_str("memo"), value: String::from_str(memo) });
    Response { messages: Vec::new(), attributes }
}

} // verus!
