//! The manager's entry points: initialisation, the replies to deployments,
//! the commands and the queries.

use vstd::prelude::*;
use vstd::string::StringExecFns;
use crate::error::ContractError;
use crate::msg::{
    Action, Call, Cw20ReceiveMsg, Deploy, ExecuteMsg, InitMsg, InstantiateMsg,
    ManagerConfigResponse, ManagerQueryMsg, MigrateMsg, QueryResponse, ReceiveMsg, Response,
    StockConfigResponse, StockListResponse, TokenMsg,
};
use crate::registry::{ascending, enumerates, Registry, StockInfo};
use crate::state::{Config, Phase, State};
use crate::swap::{
    pusd_swap_defined, stkn_for_pusd, stkn_swap_defined, pusd_for_stkn, swap_pusd_to_stkn,
    swap_stkn_to_pusd,
};

verus! {

/// The name under which the manager's version is stored.
pub const CONTRACT_NAME: &'static str = "stknmanager";

/// The reply id of the deployment of the PUSD token.
pub const INSTANTIATE_PUSD_ID: u64 = 1;

/// The reply id of the deployment of the staking module.
pub const INSTANTIATE_STAKING_ID: u64 = 2;

/// The reply id of the deployment of a stock.
pub const INSTANTIATE_STOCK_ID: u64 = 3;

/// `d` asks for the PUSD token: six decimals, the manager as its minter and
/// as the keeper of its marketing data, `admin` as its administrator.
pub open spec fn is_pusd_deploy(
    d: Deploy,
    code_id: u64,
    admin: Seq<char>,
    contract: Seq<char>,
    url: Seq<char>,
) -> bool {
    &&& d.code_id == code_id
    &&& d.admin@ == admin
    &&& d.label@ == "PUSD : stable coin of Stocken"@
    &&& d.reply_id == INSTANTIATE_PUSD_ID
    &&& match d.init {
        InitMsg::Token { name, symbol, decimals, minter, logo_url, marketing } => {
            &&& name@ == "PUSD"@
            &&& symbol@ == "PUSD"@
            &&& decimals == 6
            &&& minter@ == contract
            &&& logo_url@ == url
            &&& marketing@ == contract
        },
        _ => false,
    }
}

/// `d` asks for the staking module of `cfg`'s owner, with the three lock
/// tiers of 30, 60 and 120 days.
pub open spec fn is_staking_deploy(d: Deploy, cfg: Config, contract: Seq<char>) -> bool {
    &&& d.code_id == cfg.staking_code_id
    &&& d.admin@ == cfg.owner@
    &&& d.label@ == "STKN Staking"@
    &&& d.reply_id == INSTANTIATE_STAKING_ID
    &&& match d.init {
        InitMsg::Staking { owner, manager_address, lock_days, ratios } => {
            &&& owner@ == cfg.owner@
            &&& manager_address@ == contract
            &&& lock_days@ == seq![30u64, 60u64, 120u64]
            &&& ratios@ == seq![20000u64, 40000u64, 80000u64]
        },
        _ => false,
    }
}

/// `d` asks for a stock under the id after `cfg.max_stock_id`, owned and
/// administered by `cfg`'s owner, with `cfg`'s templates.
pub open spec fn is_stock_deploy(
    d: Deploy,
    cfg: Config,
    stock_name: Seq<char>,
    stock_symbol: Seq<char>,
    url: Seq<char>,
) -> bool {
    &&& d.code_id == cfg.stock_code_id
    &&& d.admin@ == cfg.owner@
    &&& d.label@ == "Stock Token : "@ + stock_name
    &&& d.reply_id == INSTANTIATE_STOCK_ID
    &&& match d.init {
        InitMsg::Stock {
            name,
            symbol,
            decimals,
            logo_url,
            marketing,
            id,
            owner,
            pool_code_id,
            shorting_code_id,
            trading_code_id,
            providing_code_id,
            cw20_code_id,
        } => {
            &&& name@ == stock_name
            &&& symbol@ == stock_symbol
            &&& decimals == 6
            &&& logo_url@ == url
            &&& marketing@ == cfg.owner@
            &&& id == cfg.max_stock_id + 1
            &&& owner@ == cfg.owner@
            &&& pool_code_id == cfg.pool_code_id
            &&& shorting_code_id == cfg.shorting_code_id
            &&& trading_code_id == cfg.trading_code_id
            &&& providing_code_id == cfg.providing_code_id
            &&& cw20_code_id == cfg.cw20_code_id
        },
        _ => false,
    }
}

/// The state and the response of an initialisation by `sender`.
pub open spec fn instantiate_post(
    sender: String,
    contract: Seq<char>,
    msg: InstantiateMsg,
    state: State,
    resp: Response,
) -> bool {
    &&& state.phase == Phase::PusdPending
    &&& state.config.owner == sender
    &&& state.config.stkn_address == msg.stkn_address
    &&& state.config.pusd_address == msg.stkn_address
    &&& state.config.staking_address == msg.stkn_address
    &&& state.config.cw20_code_id == msg.cw20_code_id
    &&& state.config.stock_code_id == msg.stock_code_id
    &&& state.config.staking_code_id == msg.staking_code_id
    &&& state.config.pool_code_id == msg.pool_code_id
    &&& state.config.shorting_code_id == msg.shorting_code_id
    &&& state.config.trading_code_id == msg.trading_code_id
    &&& state.config.providing_code_id == msg.providing_code_id
    &&& state.config.price == msg.price
    &&& state.config.max_stock_id == 0
    &&& state.config.enabled
    &&& state.config.providing_sync_interval == msg.providing_sync_interval
    &&& state.stocks@ == Map::<u32, StockInfo>::empty()
    &&& state.stocks.records() == Seq::<StockInfo>::empty()
    &&& resp.submessages@.len() == 1
    &&& is_pusd_deploy(resp.submessages@[0], msg.cw20_code_id, sender@, contract, msg.pusd_url@)
    &&& resp.messages@.len() == 0
    &&& resp.action == None::<Action>
}

/// What an initialisation by `sender` makes of `pre`, the place of the
/// manager's state: where a state is there, nothing but the error; else the
/// first state and the deployment of the PUSD token.
pub open spec fn start_post(
    pre: Option<State>,
    sender: String,
    contract: Seq<char>,
    msg: InstantiateMsg,
    post: Option<State>,
    r: Result<Response, ContractError>,
) -> bool {
    if pre is Some {
        &&& post == pre
        &&& r == Err::<Response, ContractError>(ContractError::AlreadyInitialized {  })
    } else {
        &&& post is Some
        &&& post->Some_0.wf()
        &&& r is Ok
        &&& instantiate_post(sender, contract, msg, post->Some_0, r->Ok_0)
    }
}

/// Creates the manager where there is none: `sender` becomes the owner, the
/// addresses of PUSD and of the staking module stand at the STKN address
/// until their deployments answer, and the host is asked to deploy the PUSD
/// token. A manager that exists is left as it is.
pub fn instantiate(
    state: &mut Option<State>,
    sender: String,
    contract: &String,
    msg: InstantiateMsg,
) -> (r: Result<Response, ContractError>)
    ensures
        start_post(*old(state), sender, contract@, msg, *final(state), r),
{
    if state.is_some() {
        return Err(ContractError::AlreadyInitialized {  });
    }
    let deploy = Deploy {
        code_id: msg.cw20_code_id,
        admin: sender.clone(),
        label: "PUSD : stable coin of Stocken".to_owned(),
        init: InitMsg::Token {
            name: "PUSD".to_owned(),
            symbol: "PUSD".to_owned(),
            decimals: 6,
            minter: contract.clone(),
            logo_url: msg.pusd_url.clone(),
            marketing: contract.clone(),
        },
        reply_id: INSTANTIATE_PUSD_ID,
    };
    let config = Config {
        owner: sender,
        pusd_address: msg.stkn_address.clone(),
        staking_address: msg.stkn_address.clone(),
        stkn_address: msg.stkn_address,
        cw20_code_id: msg.cw20_code_id,
        stock_code_id: msg.stock_code_id,
        staking_code_id: msg.staking_code_id,
        pool_code_id: msg.pool_code_id,
        shorting_code_id: msg.shorting_code_id,
        trading_code_id: msg.trading_code_id,
        providing_code_id: msg.providing_code_id,
        price: msg.price,
        max_stock_id: 0,
        enabled: true,
        providing_sync_interval: msg.providing_sync_interval,
    };
    let mut submessages: Vec<Deploy> = Vec::new();
    submessages.push(deploy);
    *state = Some(State { phase: Phase::PusdPending, config, stocks: Registry::new() });
    Ok(Response { submessages, messages: Vec::new(), action: None })
}

/// What `cw_utils::parse_reply_instantiate_data` makes of a successful reply
/// with the id `id` and the payload `data`: the deployed component's address,
/// or the text of the parse error.
pub uninterp spec fn instantiate_reply_address(id: u64, data: Seq<u8>) -> Result<Seq<char>, Seq<char>>;

/// Calls `cw_utils::parse_reply_instantiate_data` on a successful reply with
/// the id `id` and the payload `data`. The result is taken on trust to be a
/// function of the two: the address that the payload encodes, or the text of
/// the error with which the payload was refused.
#[verifier::external_body]
fn parse_instantiate_reply(id: u64, data: &Vec<u8>) -> (r: Result<String, String>)
    ensures
        match r {
            Ok(a) => instantiate_reply_address(id, data@) == Ok::<Seq<char>, Seq<char>>(a@),
            Err(e) => instantiate_reply_address(id, data@) == Err::<Seq<char>, Seq<char>>(e@),
        },
{
    let response = cosmwasm_std::SubMsgResponse {
        events: Vec::new(),
        data: Some(cosmwasm_std::Binary(data.clone())),
    };
    let msg = cosmwasm_std::Reply { id, result: cosmwasm_std::SubMsgResult::Ok(response) };
    match cw_utils::parse_reply_instantiate_data(msg) {
        Ok(parsed) => Ok(parsed.contract_address),
        Err(e) => Err(e.to_string()),
    }
}

/// The address of the component whose deployment the reply reports.
pub fn parse_reply_address(id: u64, data: &Vec<u8>) -> (r: Result<String, ContractError>)
    ensures
        match instantiate_reply_address(id, data@) {
            Ok(a) => r is Ok && r->Ok_0@ == a,
            Err(e) => r is Err && r->Err_0 is Std && r->Err_0->Std_msg@ == e,
        },
{
    match parse_instantiate_reply(id, data) {
        Ok(a) => Ok(a),
        Err(e) => Err(ContractError::Std { msg: e }),
    }
}

/// A reply with the id `id` is expected in `phase`.
pub open spec fn reply_expected(phase: Phase, id: u64) -> bool {
    ||| (phase == Phase::PusdPending && id == INSTANTIATE_PUSD_ID)
    ||| (phase == Phase::StakingPending && id == INSTANTIATE_STAKING_ID)
    ||| (phase == Phase::Ready && id == INSTANTIATE_STOCK_ID)
}

/// Where the reply of a stock is expected, one more stock id can be given.
pub open spec fn reply_in_range(state: State, id: u64) -> bool {
    (state.phase == Phase::Ready && id == INSTANTIATE_STOCK_ID) ==> state.config.max_stock_id
        < u32::MAX
}

/// The record of the stock deployed at `address` under `id`.
pub open spec fn stock_record(id: u32, address: String, c: StockConfigResponse) -> StockInfo {
    StockInfo {
        id,
        stock_address: address,
        pool_address: c.pool_address,
        shorting_address: c.shorting_address,
        trading_address: c.trading_address,
        providing_address: c.providing_address,
    }
}

/// What the reply `id`, which reports a component at `address`, makes of
/// `pre`. An expected PUSD reply records the address and asks for the
/// staking module; an expected staking reply records the address; an
/// expected stock reply counts the stock and, where the stock answered the
/// query for its components, registers it. Any other reply changes nothing.
pub open spec fn completion_post(
    pre: State,
    contract: Seq<char>,
    id: u64,
    address: String,
    stock_config: Result<StockConfigResponse, String>,
    post: State,
    r: Result<Response, ContractError>,
) -> bool {
    if pre.phase == Phase::PusdPending && id == INSTANTIATE_PUSD_ID {
        &&& post == (State {
            phase: Phase::StakingPending,
            config: Config { pusd_address: address, ..pre.config },
            stocks: pre.stocks,
        })
        &&& r is Ok
        &&& r->Ok_0.submessages@.len() == 1
        &&& is_staking_deploy(r->Ok_0.submessages@[0], pre.config, contract)
        &&& r->Ok_0.messages@.len() == 0
        &&& r->Ok_0.action == Some(Action::InstantiatePusd)
    } else if pre.phase == Phase::StakingPending && id == INSTANTIATE_STAKING_ID {
        &&& post == (State {
            phase: Phase::Ready,
            config: Config { staking_address: address, ..pre.config },
            stocks: pre.stocks,
        })
        &&& r is Ok
        &&& r->Ok_0.is_plain(Some(Action::InstantiateStaking))
    } else if pre.phase == Phase::Ready && id == INSTANTIATE_STOCK_ID {
        let new_id = (pre.config.max_stock_id + 1) as u32;
        &&& post.phase == Phase::Ready
        &&& post.config == (Config { max_stock_id: new_id, ..pre.config })
        &&& match stock_config {
            Ok(c) => {
                &&& post.stocks@ == pre.stocks@.insert(new_id, stock_record(new_id, address, c))
                &&& r is Ok
                &&& r->Ok_0.is_plain(Some(Action::InstantiateStock))
            },
            Err(e) => {
                &&& post.stocks == pre.stocks
                &&& r == Err::<Response, ContractError>(ContractError::Std { msg: e })
            },
        }
    } else {
        &&& post == pre
        &&& r == Err::<Response, ContractError>(ContractError::InvalidTokenReplyId {})
    }
}

/// Advances the deployment sequence on the reply `id`, which reports a
/// component at `address`. `stock_config` is the new stock's answer to the
/// query for its components, or the text of the failure; it is read only
/// for the reply of a stock. The stock id is counted before that answer is
/// looked at, and stays counted where the query failed.
pub fn on_completion(
    state: &mut State,
    contract: &String,
    id: u64,
    address: String,
    stock_config: Result<StockConfigResponse, String>,
) -> (r: Result<Response, ContractError>)
    requires
        old(state).wf(),
        reply_in_range(*old(state), id),
    ensures
        final(state).wf(),
        completion_post(*old(state), contract@, id, address, stock_config, *final(state), r),
{
    if id == INSTANTIATE_PUSD_ID && state.phase == Phase::PusdPending {
        state.config.pusd_address = address;
        state.phase = Phase::StakingPending;
        let mut lock_days: Vec<u64> = Vec::new();
        lock_days.push(30);
        lock_days.push(60);
        lock_days.push(120);
        let mut ratios: Vec<u64> = Vec::new();
        ratios.push(20000);
        ratios.push(40000);
        ratios.push(80000);
        proof {
            assert(lock_days@ =~= seq![30u64, 60u64, 120u64]);
            assert(ratios@ =~= seq![20000u64, 40000u64, 80000u64]);
        }
        let deploy = Deploy {
            code_id: state.config.staking_code_id,
            admin: state.config.owner.clone(),
            label: "STKN Staking".to_owned(),
            init: InitMsg::Staking {
                owner: state.config.owner.clone(),
                manager_address: contract.clone(),
                lock_days,
                ratios,
            },
            reply_id: INSTANTIATE_STAKING_ID,
        };
        let mut submessages: Vec<Deploy> = Vec::new();
        submessages.push(deploy);
        Ok(Response { submessages, messages: Vec::new(), action: Some(Action::InstantiatePusd) })
    } else if id == INSTANTIATE_STAKING_ID && state.phase == Phase::StakingPending {
        state.config.staking_address = address;
        state.phase = Phase::Ready;
        Ok(Response::plain(Some(Action::InstantiateStaking)))
    } else if id == INSTANTIATE_STOCK_ID && state.phase == Phase::Ready {
        state.config.max_stock_id = state.config.max_stock_id + 1;
        let new_id: u32 = state.config.max_stock_id;
        match stock_config {
            Ok(c) => {
                let record = StockInfo {
                    id: new_id,
                    stock_address: address,
                    pool_address: c.pool_address,
                    shorting_address: c.shorting_address,
                    trading_address: c.trading_address,
                    providing_address: c.providing_address,
                };
                state.stocks.put(new_id, record);
                Ok(Response::plain(Some(Action::InstantiateStock)))
            },
            Err(e) => Err(ContractError::Std { msg: e }),
        }
    } else {
        Err(ContractError::InvalidTokenReplyId {})
    }
}

/// What the reply `id` with the payload `data` makes of `pre`: where the
/// payload gives no address, nothing but the error; else what the reply
/// makes of `pre` with that address.
pub open spec fn reply_post(
    pre: State,
    contract: Seq<char>,
    id: u64,
    data: Seq<u8>,
    stock_config: Result<StockConfigResponse, String>,
    post: State,
    r: Result<Response, ContractError>,
) -> bool {
    match instantiate_reply_address(id, data) {
        Ok(a) => exists|address: String|
            address@ == a && #[trigger] completion_post(
                pre,
                contract,
                id,
                address,
                stock_config,
                post,
                r,
            ),
        Err(e) => post == pre && r is Err && r->Err_0 is Std && r->Err_0->Std_msg@ == e,
    }
}

/// Handles the host's reply to a deployment: reads the new component's
/// address from the payload and advances the deployment sequence with it.
pub fn reply(
    state: &mut State,
    contract: &String,
    id: u64,
    data: &Vec<u8>,
    stock_config: Result<StockConfigResponse, String>,
) -> (r: Result<Response, ContractError>)
    requires
        old(state).wf(),
        reply_in_range(*old(state), id),
    ensures
        final(state).wf(),
        reply_post(*old(state), contract@, id, data@, stock_config, *final(state), r),
{
    match parse_reply_address(id, data) {
        Ok(address) => on_completion(state, contract, id, address, stock_config),
        Err(e) => Err(e),
    }
}

/// `who` is the owner that `cfg` names.
pub open spec fn is_owner(cfg: Config, who: Seq<char>) -> bool {
    cfg.owner@ == who
}

/// `who` is the owner, the staking module, the STKN token or the PUSD token.
pub open spec fn is_config_party(cfg: Config, who: Seq<char>) -> bool {
    ||| cfg.owner@ == who
    ||| cfg.staking_address@ == who
    ||| cfg.stkn_address@ == who
    ||| cfg.pusd_address@ == who
}

/// `who` is one of the five addresses of the stock `info`.
pub open spec fn is_stock_party(info: StockInfo, who: Seq<char>) -> bool {
    ||| info.providing_address@ == who
    ||| info.trading_address@ == who
    ||| info.shorting_address@ == who
    ||| info.pool_address@ == who
    ||| info.stock_address@ == who
}

/// `who` may mint and transfer on behalf of the stock `id`.
pub open spec fn privileged(state: State, id: u32, who: Seq<char>) -> bool {
    ||| is_config_party(state.config, who)
    ||| (state.stocks@.contains_key(id) && is_stock_party(state.stocks@[id], who))
}

/// The error for a caller that is not privileged for `id`: the stock is not
/// registered, or it is and the caller is none of its addresses.
pub open spec fn privilege_error(state: State, id: u32) -> ContractError {
    if state.stocks@.contains_key(id) {
        ContractError::Unauthorized {  }
    } else {
        ContractError::NotFound { id }
    }
}

/// `r` turns the operation down with `e`.
pub open spec fn fails_with(r: Result<Response, ContractError>, e: ContractError) -> bool {
    r == Err::<Response, ContractError>(e)
}

/// `r` accepts the operation without instructions and reports `action`.
pub open spec fn plain_ok(r: Result<Response, ContractError>, action: Option<Action>) -> bool {
    r is Ok && r->Ok_0.is_plain(action)
}

/// `r` accepts the operation with exactly one instruction to a token and
/// reports `action`.
pub open spec fn one_call_ok(r: Result<Response, ContractError>, action: Action) -> bool {
    &&& r is Ok
    &&& r->Ok_0.submessages@.len() == 0
    &&& r->Ok_0.messages@.len() == 1
    &&& r->Ok_0.action == Some(action)
}

/// `c` tells the token at `token` to mint `amount` for `recipient`.
pub open spec fn is_mint(c: Call, token: Seq<char>, recipient: Seq<char>, amount: int) -> bool {
    &&& c.contract_addr@ == token
    &&& match c.msg {
        TokenMsg::Mint { recipient: to, amount: n } => to@ == recipient && n == amount,
        _ => false,
    }
}

/// `c` tells the token at `token` to burn `amount` of the manager's holding.
pub open spec fn is_burn(c: Call, token: Seq<char>, amount: int) -> bool {
    &&& c.contract_addr@ == token
    &&& match c.msg {
        TokenMsg::Burn { amount: n } => n == amount,
        _ => false,
    }
}

/// `c` tells the token at `token` to move `amount` to `recipient`.
pub open spec fn is_transfer(c: Call, token: Seq<char>, recipient: Seq<char>, amount: int) -> bool {
    &&& c.contract_addr@ == token
    &&& match c.msg {
        TokenMsg::Transfer { recipient: to, amount: n } => to@ == recipient && n == amount,
        _ => false,
    }
}

/// Passes the owner and nobody else.
pub fn check_owner(cfg: &Config, sender: &String) -> (r: Result<(), ContractError>)
    ensures
        is_owner(*cfg, sender@) ==> r is Ok,
        !is_owner(*cfg, sender@) ==> r == Err::<(), ContractError>(ContractError::Unauthorized {  }),
{
    if cfg.owner == *sender {
        Ok(())
    } else {
        Err(ContractError::Unauthorized {  })
    }
}

/// Passes while the manager is enabled.
pub fn check_enabled(cfg: &Config) -> (r: Result<(), ContractError>)
    ensures
        cfg.enabled ==> r is Ok,
        !cfg.enabled ==> r == Err::<(), ContractError>(ContractError::Disabled {  }),
{
    if cfg.enabled {
        Ok(())
    } else {
        Err(ContractError::Disabled {  })
    }
}

/// What the command to name a new owner makes of `pre`.
pub open spec fn update_owner_post(
    pre: State,
    sender: Seq<char>,
    owner: String,
    post: State,
    r: Result<Response, ContractError>,
) -> bool {
    if is_owner(pre.config, sender) {
        &&& post == (State { config: Config { owner, ..pre.config }, ..pre })
        &&& plain_ok(r, Some(Action::UpdateOwner))
    } else {
        post == pre && fails_with(r, ContractError::Unauthorized {  })
    }
}

/// The owner hands the manager to `owner`.
pub fn execute_update_owner(state: &mut State, sender: &String, owner: String) -> (r: Result<
    Response,
    ContractError,
>)
    requires
        old(state).wf(),
    ensures
        final(state).wf(),
        update_owner_post(*old(state), sender@, owner, *final(state), r),
{
    match check_owner(&state.config, sender) {
        Ok(_) => {},
        Err(e) => {
            return Err(e);
        },
    }
    state.config.owner = owner;
    Ok(Response::plain(Some(Action::UpdateOwner)))
}

/// What the command to switch the manager on or off makes of `pre`.
pub open spec fn update_enabled_post(
    pre: State,
    sender: Seq<char>,
    enabled: bool,
    post: State,
    r: Result<Response, ContractError>,
) -> bool {
    if is_owner(pre.config, sender) {
        &&& post == (State { config: Config { enabled, ..pre.config }, ..pre })
        &&& plain_ok(r, Some(Action::UpdateEnabled))
    } else {
        post == pre && fails_with(r, ContractError::Unauthorized {  })
    }
}

/// The owner switches the manager on or off.
pub fn execute_update_enabled(state: &mut State, sender: &String, enabled: bool) -> (r: Result<
    Response,
    ContractError,
>)
    requires
        old(state).wf(),
    ensures
        final(state).wf(),
        update_enabled_post(*old(state), sender@, enabled, *final(state), r),
{
    match check_owner(&state.config, sender) {
        Ok(_) => {},
        Err(e) => {
            return Err(e);
        },
    }
    state.config.enabled = enabled;
    Ok(Response::plain(Some(Action::UpdateEnabled)))
}

/// What the command to set the price makes of `pre`.
pub open spec fn update_price_post(
    pre: State,
    sender: Seq<char>,
    price: u128,
    post: State,
    r: Result<Response, ContractError>,
) -> bool {
    if is_owner(pre.config, sender) {
        &&& post == (State { config: Config { price, ..pre.config }, ..pre })
        &&& plain_ok(r, Some(Action::UpdatePrice))
    } else {
        post == pre && fails_with(r, ContractError::Unauthorized {  })
    }
}

/// The owner sets the price.
pub fn execute_update_price(state: &mut State, sender: &String, price: u128) -> (r: Result<
    Response,
    ContractError,
>)
    requires
        old(state).wf(),
    ensures
        final(state).wf(),
        update_price_post(*old(state), sender@, price, *final(state), r),
{
    match check_owner(&state.config, sender) {
        Ok(_) => {},
        Err(e) => {
            return Err(e);
        },
    }
    state.config.price = price;
    Ok(Response::plain(Some(Action::UpdatePrice)))
}

/// Where the command to add a stock is accepted, one more id can be given.
pub open spec fn add_stock_in_range(cfg: Config, sender: Seq<char>) -> bool {
    is_owner(cfg, sender) && cfg.enabled ==> cfg.max_stock_id < u32::MAX
}

/// The answer to the command to add a stock: from the owner, while the
/// manager is enabled, one deployment of a stock under the next id.
pub open spec fn add_stock_post(
    cfg: Config,
    sender: Seq<char>,
    name: Seq<char>,
    symbol: Seq<char>,
    url: Seq<char>,
    r: Result<Response, ContractError>,
) -> bool {
    if !is_owner(cfg, sender) {
        fails_with(r, ContractError::Unauthorized {  })
    } else if !cfg.enabled {
        fails_with(r, ContractError::Disabled {  })
    } else {
        &&& r is Ok
        &&& r->Ok_0.submessages@.len() == 1
        &&& is_stock_deploy(r->Ok_0.submessages@[0], cfg, name, symbol, url)
        &&& r->Ok_0.messages@.len() == 0
        &&& r->Ok_0.action == None::<Action>
    }
}

/// The owner asks for a new stock. Nothing is stored: the stock is counted
/// and registered when its deployment answers. The command is accepted in
/// every phase; a stock's reply is expected only once the manager is ready.
pub fn execute_add_stock(
    state: &State,
    sender: &String,
    name: String,
    symbol: String,
    url: String,
) -> (r: Result<Response, ContractError>)
    requires
        add_stock_in_range(state.config, sender@),
    ensures
        add_stock_post(state.config, sender@, name@, symbol@, url@, r),
{
    match check_owner(&state.config, sender) {
        Ok(_) => {},
        Err(e) => {
            return Err(e);
        },
    }
    match check_enabled(&state.config) {
        Ok(_) => {},
        Err(e) => {
            return Err(e);
        },
    }
    let cfg = &state.config;
    let label = "Stock Token : ".to_owned().concat(name.as_str());
    let deploy = Deploy {
        code_id: cfg.stock_code_id,
        admin: cfg.owner.clone(),
        label,
        init: InitMsg::Stock {
            name,
            symbol,
            decimals: 6,
            logo_url: url,
            marketing: cfg.owner.clone(),
            id: cfg.max_stock_id + 1,
            owner: cfg.owner.clone(),
            pool_code_id: cfg.pool_code_id,
            shorting_code_id: cfg.shorting_code_id,
            trading_code_id: cfg.trading_code_id,
            providing_code_id: cfg.providing_code_id,
            cw20_code_id: cfg.cw20_code_id,
        },
        reply_id: INSTANTIATE_STOCK_ID,
    };
    let mut submessages: Vec<Deploy> = Vec::new();
    submessages.push(deploy);
    Ok(Response { submessages, messages: Vec::new(), action: None })
}

/// What the command to remove the stock `id` makes of `pre`.
pub open spec fn remove_stock_post(
    pre: State,
    sender: Seq<char>,
    id: u32,
    post: State,
    r: Result<Response, ContractError>,
) -> bool {
    if is_owner(pre.config, sender) {
        &&& post.phase == pre.phase
        &&& post.config == pre.config
        &&& post.stocks@ == pre.stocks@.remove(id)
        &&& plain_ok(r, Some(Action::RemoveStock))
    } else {
        post == pre && fails_with(r, ContractError::Unauthorized {  })
    }
}

/// The owner removes the stock `id`; where there is none, nothing changes.
pub fn execute_remove_stock(state: &mut State, sender: &String, id: u32) -> (r: Result<
    Response,
    ContractError,
>)
    requires
        old(state).wf(),
    ensures
        final(state).wf(),
        remove_stock_post(*old(state), sender@, id, *final(state), r),
{
    match check_owner(&state.config, sender) {
        Ok(_) => {},
        Err(e) => {
            return Err(e);
        },
    }
    state.stocks.remove(id);
    Ok(Response::plain(Some(Action::RemoveStock)))
}

/// What the command to remove all stocks makes of `pre`.
pub open spec fn remove_all_stocks_post(
    pre: State,
    sender: Seq<char>,
    post: State,
    r: Result<Response, ContractError>,
) -> bool {
    if is_owner(pre.config, sender) {
        &&& post.phase == pre.phase
        &&& post.config == pre.config
        &&& post.stocks@ == Map::<u32, StockInfo>::empty()
        &&& post.stocks.records() == Seq::<StockInfo>::empty()
        &&& plain_ok(r, Some(Action::RemoveAllStock))
    } else {
        post == pre && fails_with(r, ContractError::Unauthorized {  })
    }
}

/// The owner removes every stock.
pub fn execute_remove_all_stocks(state: &mut State, sender: &String) -> (r: Result<
    Response,
    ContractError,
>)
    requires
        old(state).wf(),
    ensures
        final(state).wf(),
        remove_all_stocks_post(*old(state), sender@, *final(state), r),
{
    match check_owner(&state.config, sender) {
        Ok(_) => {},
        Err(e) => {
            return Err(e);
        },
    }
    state.stocks.remove_all();
    Ok(Response::plain(Some(Action::RemoveAllStock)))
}

/// Where the announcement leads to a swap, the swap can be priced.
pub open spec fn receive_in_range(cfg: Config, token: Seq<char>, wrapper: Cw20ReceiveMsg) -> bool {
    match wrapper.msg {
        ReceiveMsg::Swap { expected_amount } => cfg.enabled && wrapper.amount != 0 ==> {
            &&& token == cfg.stkn_address@ ==> stkn_swap_defined(
                cfg.price as nat,
                wrapper.amount as nat,
                expected_amount as nat,
            )
            &&& token != cfg.stkn_address@ && token == cfg.pusd_address@ ==> pusd_swap_defined(
                cfg.price as nat,
                wrapper.amount as nat,
                expected_amount as nat,
            )
        },
        ReceiveMsg::FundStkn {  } => true,
    }
}

/// The answer to a swap announced by the STKN token: PUSD is minted for the
/// sender.
pub open spec fn buy_pusd_post(
    cfg: Config,
    wrapper: Cw20ReceiveMsg,
    expected: u128,
    r: Result<Response, ContractError>,
) -> bool {
    &&& one_call_ok(r, Action::BuyPusd)
    &&& is_mint(
        r->Ok_0.messages@[0],
        cfg.pusd_address@,
        wrapper.sender@,
        pusd_for_stkn(cfg.price as nat, wrapper.amount as nat, expected as nat) as int,
    )
}

/// The answer to a swap announced by the PUSD token, while the manager holds
/// `balance` STKN: the PUSD is burnt and STKN goes to the sender, unless the
/// manager holds less than is due.
pub open spec fn buy_stkn_post(
    cfg: Config,
    wrapper: Cw20ReceiveMsg,
    expected: u128,
    balance: Result<u128, String>,
    r: Result<Response, ContractError>,
) -> bool {
    let out = stkn_for_pusd(cfg.price as nat, wrapper.amount as nat, expected as nat);
    match balance {
        Err(e) => fails_with(r, ContractError::Std { msg: e }),
        Ok(held) => if out > held {
            fails_with(r, ContractError::InsufficientStkn {  })
        } else {
            &&& r is Ok
            &&& r->Ok_0.submessages@.len() == 0
            &&& r->Ok_0.messages@.len() == 2
            &&& is_burn(r->Ok_0.messages@[0], cfg.pusd_address@, wrapper.amount as int)
            &&& is_transfer(r->Ok_0.messages@[1], cfg.stkn_address@, wrapper.sender@, out as int)
            &&& r->Ok_0.action == Some(Action::BuyStkn)
        },
    }
}

/// The answer to a token's announcement of a transfer to the manager.
pub open spec fn receive_post(
    cfg: Config,
    token: Seq<char>,
    wrapper: Cw20ReceiveMsg,
    balance: Result<u128, String>,
    r: Result<Response, ContractError>,
) -> bool {
    if !cfg.enabled {
        fails_with(r, ContractError::Disabled {  })
    } else if wrapper.amount == 0 {
        fails_with(r, ContractError::InvalidInput {  })
    } else {
        match wrapper.msg {
            ReceiveMsg::FundStkn {  } => if token == cfg.stkn_address@ {
                plain_ok(r, Some(Action::FundStkn))
            } else {
                fails_with(r, ContractError::UnacceptableToken {  })
            },
            ReceiveMsg::Swap { expected_amount } => if token == cfg.stkn_address@ {
                buy_pusd_post(cfg, wrapper, expected_amount, r)
            } else if token == cfg.pusd_address@ {
                buy_stkn_post(cfg, wrapper, expected_amount, balance, r)
            } else {
                fails_with(r, ContractError::UnacceptableToken {  })
            },
        }
    }
}

/// Handles the announcement `wrapper` of the token `token`. `stkn_balance`
/// is the STKN that the manager holds, or the text of the failed query; it
/// is read only for a swap of PUSD.
pub fn execute_receive(
    state: &State,
    token: &String,
    wrapper: Cw20ReceiveMsg,
    stkn_balance: Result<u128, String>,
) -> (r: Result<Response, ContractError>)
    requires
        receive_in_range(state.config, token@, wrapper),
    ensures
        receive_post(state.config, token@, wrapper, stkn_balance, r),
{
    match check_enabled(&state.config) {
        Ok(_) => {},
        Err(e) => {
            return Err(e);
        },
    }
    let cfg = &state.config;
    if wrapper.amount == 0 {
        return Err(ContractError::InvalidInput {  });
    }
    match wrapper.msg {
        ReceiveMsg::FundStkn {  } => {
            if *token != cfg.stkn_address {
                return Err(ContractError::UnacceptableToken {  });
            }
            Ok(Response::plain(Some(Action::FundStkn)))
        },
        ReceiveMsg::Swap { expected_amount } => {
            if *token != cfg.stkn_address && *token != cfg.pusd_address {
                return Err(ContractError::UnacceptableToken {  });
            }
            let mut messages: Vec<Call> = Vec::new();
            if *token == cfg.stkn_address {
                let pusd_amount: u128 = swap_stkn_to_pusd(cfg.price, wrapper.amount, expected_amount);
                messages.push(
                    Call {
                        contract_addr: cfg.pusd_address.clone(),
                        msg: TokenMsg::Mint { recipient: wrapper.sender, amount: pusd_amount },
                    },
                );
                Ok(Response { submessages: Vec::new(), messages, action: Some(Action::BuyPusd) })
            } else {
                let stkn_amount: u128 = swap_pusd_to_stkn(cfg.price, wrapper.amount, expected_amount);
                let held: u128 = match stkn_balance {
                    Ok(held) => held,
                    Err(e) => {
                        return Err(ContractError::Std { msg: e });
                    },
                };
                if stkn_amount > held {
                    return Err(ContractError::InsufficientStkn {  });
                }
                messages.push(
                    Call {
                        contract_addr: cfg.pusd_address.clone(),
                        msg: TokenMsg::Burn { amount: wrapper.amount },
                    },
                );
                messages.push(
                    Call {
                        contract_addr: cfg.stkn_address.clone(),
                        msg: TokenMsg::Transfer { recipient: wrapper.sender, amount: stkn_amount },
                    },
                );
                Ok(Response { submessages: Vec::new(), messages, action: Some(Action::BuyStkn) })
            }
        },
    }
}

/// Whether `address` is privileged for the stock `id`.
pub fn is_privileged(state: &State, id: u32, address: &String) -> (r: bool)
    requires
        state.wf(),
    ensures
        r == privileged(*state, id, address@),
{
    let config = &state.config;
    if config.owner == *address || config.staking_address == *address || config.stkn_address
        == *address || config.pusd_address == *address {
        return true;
    }
    match state.stocks.get(id) {
        Some(info) => info.providing_address == *address || info.trading_address == *address
            || info.shorting_address == *address || info.pool_address == *address
            || info.stock_address == *address,
        None => false,
    }
}

/// The answer to the capability check of `who` for the stock `id`.
pub open spec fn check_stock_subcontract_post(
    state: State,
    id: u32,
    who: Seq<char>,
    r: Result<Response, ContractError>,
) -> bool {
    if privileged(state, id, who) {
        plain_ok(r, Some(Action::CheckStockContracts))
    } else {
        fails_with(r, privilege_error(state, id))
    }
}

/// Passes the owner, the staking module, the two tokens and the five
/// addresses of the stock `id`, and nobody else.
pub fn check_stock_subcontract(state: &State, id: u32, address: &String) -> (r: Result<
    Response,
    ContractError,
>)
    requires
        state.wf(),
    ensures
        check_stock_subcontract_post(*state, id, address@, r),
{
    let config = &state.config;
    if config.owner == *address || config.staking_address == *address || config.stkn_address
        == *address || config.pusd_address == *address {
        return Ok(Response::plain(Some(Action::CheckStockContracts)));
    }
    let info = match state.stocks.get(id) {
        Some(info) => info,
        None => {
            return Err(ContractError::NotFound { id });
        },
    };
    if info.providing_address == *address || info.trading_address == *address
        || info.shorting_address == *address || info.pool_address == *address || info.stock_address
        == *address {
        Ok(Response::plain(Some(Action::CheckStockContracts)))
    } else {
        Err(ContractError::Unauthorized {  })
    }
}

/// The answer to the command to mint PUSD.
pub open spec fn mint_pusd_post(
    state: State,
    caller: Seq<char>,
    id: u32,
    recipient: Seq<char>,
    amount: u128,
    r: Result<Response, ContractError>,
) -> bool {
    if !state.config.enabled {
        fails_with(r, ContractError::Disabled {  })
    } else if !privileged(state, id, caller) {
        fails_with(r, privilege_error(state, id))
    } else {
        &&& one_call_ok(r, Action::MintPusd)
        &&& is_mint(r->Ok_0.messages@[0], state.config.pusd_address@, recipient, amount as int)
    }
}

/// A privileged caller has `amount` PUSD minted for `recipient`.
pub fn execute_mint_pusd(
    state: &State,
    caller: &String,
    id: u32,
    recipient: String,
    amount: u128,
) -> (r: Result<Response, ContractError>)
    requires
        state.wf(),
    ensures
        mint_pusd_post(*state, caller@, id, recipient@, amount, r),
{
    match check_enabled(&state.config) {
        Ok(_) => {},
        Err(e) => {
            return Err(e);
        },
    }
    match check_stock_subcontract(state, id, caller) {
        Ok(_) => {},
        Err(e) => {
            return Err(e);
        },
    }
    let mut messages: Vec<Call> = Vec::new();
    messages.push(
        Call {
            contract_addr: state.config.pusd_address.clone(),
            msg: TokenMsg::Mint { recipient, amount },
        },
    );
    Ok(Response { submessages: Vec::new(), messages, action: Some(Action::MintPusd) })
}

/// The answer to the command to mint the token of the stock `id`.
pub open spec fn mint_stock_post(
    state: State,
    caller: Seq<char>,
    id: u32,
    recipient: Seq<char>,
    amount: u128,
    r: Result<Response, ContractError>,
) -> bool {
    if !state.config.enabled {
        fails_with(r, ContractError::Disabled {  })
    } else if !privileged(state, id, caller) {
        fails_with(r, privilege_error(state, id))
    } else if !state.stocks@.contains_key(id) {
        fails_with(r, ContractError::NotFound { id })
    } else {
        &&& one_call_ok(r, Action::MintStock)
        &&& is_mint(
            r->Ok_0.messages@[0],
            state.stocks@[id].stock_address@,
            recipient,
            amount as int,
        )
    }
}

/// A privileged caller has `amount` of the stock's token minted for
/// `recipient`.
pub fn execute_mint_stock(
    state: &State,
    caller: &String,
    id: u32,
    recipient: String,
    amount: u128,
) -> (r: Result<Response, ContractError>)
    requires
        state.wf(),
    ensures
        mint_stock_post(*state, caller@, id, recipient@, amount, r),
{
    match check_enabled(&state.config) {
        Ok(_) => {},
        Err(e) => {
            return Err(e);
        },
    }
    match check_stock_subcontract(state, id, caller) {
        Ok(_) => {},
        Err(e) => {
            return Err(e);
        },
    }
    let info = match state.stocks.get(id) {
        Some(info) => info,
        None => {
            return Err(ContractError::NotFound { id });
        },
    };
    let mut messages: Vec<Call> = Vec::new();
    messages.push(
        Call { contract_addr: info.stock_address, msg: TokenMsg::Mint { recipient, amount } },
    );
    Ok(Response { submessages: Vec::new(), messages, action: Some(Action::MintStock) })
}

/// The answer to the command to move STKN out of the manager's holding.
pub open spec fn transfer_stkn_post(
    state: State,
    caller: Seq<char>,
    id: u32,
    recipient: Seq<char>,
    amount: u128,
    balance: Result<u128, String>,
    r: Result<Response, ContractError>,
) -> bool {
    if !state.config.enabled {
        fails_with(r, ContractError::Disabled {  })
    } else if !privileged(state, id, caller) {
        fails_with(r, privilege_error(state, id))
    } else {
        match balance {
            Err(e) => fails_with(r, ContractError::Std { msg: e }),
            Ok(held) => if held < amount {
                fails_with(r, ContractError::NotEnoughStkn {  })
            } else {
                &&& one_call_ok(r, Action::SendStkn)
                &&& is_transfer(
                    r->Ok_0.messages@[0],
                    state.config.stkn_address@,
                    recipient,
                    amount as int,
                )
            },
        }
    }
}

/// A privileged caller has `amount` STKN moved from the manager to
/// `recipient`. `stkn_balance` is the STKN that the manager holds, or the
/// text of the failed query.
pub fn execute_transfer_stkn(
    state: &State,
    caller: &String,
    id: u32,
    recipient: String,
    amount: u128,
    stkn_balance: Result<u128, String>,
) -> (r: Result<Response, ContractError>)
    requires
        state.wf(),
    ensures
        transfer_stkn_post(*state, caller@, id, recipient@, amount, stkn_balance, r),
{
    match check_enabled(&state.config) {
        Ok(_) => {},
        Err(e) => {
            return Err(e);
        },
    }
    match check_stock_subcontract(state, id, caller) {
        Ok(_) => {},
        Err(e) => {
            return Err(e);
        },
    }
    let held: u128 = match stkn_balance {
        Ok(held) => held,
        Err(e) => {
            return Err(ContractError::Std { msg: e });
        },
    };
    if held < amount {
        return Err(ContractError::NotEnoughStkn {  });
    }
    let mut messages: Vec<Call> = Vec::new();
    messages.push(
        Call {
            contract_addr: state.config.stkn_address.clone(),
            msg: TokenMsg::Transfer { recipient, amount },
        },
    );
    Ok(Response { submessages: Vec::new(), messages, action: Some(Action::SendStkn) })
}

/// Where the command adds a stock or announces a swap, its numbers fit.
pub open spec fn execute_in_range(state: State, sender: Seq<char>, msg: ExecuteMsg) -> bool {
    match msg {
        ExecuteMsg::AddStock { name, symbol, url } => add_stock_in_range(state.config, sender),
        ExecuteMsg::Receive(wrapper) => receive_in_range(state.config, sender, wrapper),
        _ => true,
    }
}

/// What the command `msg` of `sender` makes of `pre`, and its answer: those
/// of the operation that the command names.
pub open spec fn execute_post(
    pre: State,
    sender: Seq<char>,
    msg: ExecuteMsg,
    balance: Result<u128, String>,
    post: State,
    r: Result<Response, ContractError>,
) -> bool {
    match msg {
        ExecuteMsg::UpdateOwner { owner } => update_owner_post(pre, sender, owner, post, r),
        ExecuteMsg::UpdateEnabled { enabled } => update_enabled_post(pre, sender, enabled, post, r),
        ExecuteMsg::UpdatePrice { price } => update_price_post(pre, sender, price, post, r),
        ExecuteMsg::RemoveStock { id } => remove_stock_post(pre, sender, id, post, r),
        ExecuteMsg::RemoveAllStocks {  } => remove_all_stocks_post(pre, sender, post, r),
        ExecuteMsg::AddStock { name, symbol, url } => post == pre && add_stock_post(
            pre.config,
            sender,
            name@,
            symbol@,
            url@,
            r,
        ),
        ExecuteMsg::Receive(wrapper) => post == pre && receive_post(
            pre.config,
            sender,
            wrapper,
            balance,
            r,
        ),
        ExecuteMsg::MintPusd { id, recipient, amount } => post == pre && mint_pusd_post(
            pre,
            sender,
            id,
            recipient@,
            amount,
            r,
        ),
        ExecuteMsg::MintStock { id, recipient, amount } => post == pre && mint_stock_post(
            pre,
            sender,
            id,
            recipient@,
            amount,
            r,
        ),
        ExecuteMsg::TransferStkn { id, recipient, amount } => post == pre && transfer_stkn_post(
            pre,
            sender,
            id,
            recipient@,
            amount,
            balance,
            r,
        ),
    }
}

/// Carries out the command `msg` of `sender`. `stkn_balance` is the STKN
/// that the manager holds, or the text of the failed query; it is read only
/// for a swap of PUSD and for a transfer of STKN.
pub fn execute(
    state: &mut State,
    sender: &String,
    msg: ExecuteMsg,
    stkn_balance: Result<u128, String>,
) -> (r: Result<Response, ContractError>)
    requires
        old(state).wf(),
        execute_in_range(*old(state), sender@, msg),
    ensures
        final(state).wf(),
        execute_post(*old(state), sender@, msg, stkn_balance, *final(state), r),
{
    match msg {
        ExecuteMsg::UpdateOwner { owner } => execute_update_owner(state, sender, owner),
        ExecuteMsg::UpdateEnabled { enabled } => execute_update_enabled(state, sender, enabled),
        ExecuteMsg::UpdatePrice { price } => execute_update_price(state, sender, price),
        ExecuteMsg::RemoveStock { id } => execute_remove_stock(state, sender, id),
        ExecuteMsg::RemoveAllStocks {  } => execute_remove_all_stocks(state, sender),
        ExecuteMsg::AddStock { name, symbol, url } => execute_add_stock(
            state,
            sender,
            name,
            symbol,
            url,
        ),
        ExecuteMsg::Receive(wrapper) => execute_receive(state, sender, wrapper, stkn_balance),
        ExecuteMsg::MintPusd { id, recipient, amount } => execute_mint_pusd(
            state,
            sender,
            id,
            recipient,
            amount,
        ),
        ExecuteMsg::MintStock { id, recipient, amount } => execute_mint_stock(
            state,
            sender,
            id,
            recipient,
            amount,
        ),
        ExecuteMsg::TransferStkn { id, recipient, amount } => execute_transfer_stkn(
            state,
            sender,
            id,
            recipient,
            amount,
            stkn_balance,
        ),
    }
}

/// The configuration, together with the STKN that the manager holds.
pub fn query_config(state: &State, stkn_amount: u128) -> (r: ManagerConfigResponse)
    ensures
        r.owner == state.config.owner,
        r.stkn_address == state.config.stkn_address,
        r.pusd_address == state.config.pusd_address,
        r.staking_address == state.config.staking_address,
        r.cw20_code_id == state.config.cw20_code_id,
        r.stock_code_id == state.config.stock_code_id,
        r.pool_code_id == state.config.pool_code_id,
        r.staking_code_id == state.config.staking_code_id,
        r.shorting_code_id == state.config.shorting_code_id,
        r.trading_code_id == state.config.trading_code_id,
        r.providing_code_id == state.config.providing_code_id,
        r.price == state.config.price,
        r.stkn_amount == stkn_amount,
        r.max_stock_id == state.config.max_stock_id,
        r.enabled == state.config.enabled,
        r.providing_sync_interval == state.config.providing_sync_interval,
{
    let cfg = &state.config;
    ManagerConfigResponse {
        owner: cfg.owner.clone(),
        stkn_address: cfg.stkn_address.clone(),
        pusd_address: cfg.pusd_address.clone(),
        staking_address: cfg.staking_address.clone(),
        cw20_code_id: cfg.cw20_code_id,
        stock_code_id: cfg.stock_code_id,
        pool_code_id: cfg.pool_code_id,
        staking_code_id: cfg.staking_code_id,
        shorting_code_id: cfg.shorting_code_id,
        trading_code_id: cfg.trading_code_id,
        providing_code_id: cfg.providing_code_id,
        price: cfg.price,
        stkn_amount,
        max_stock_id: cfg.max_stock_id,
        enabled: cfg.enabled,
        providing_sync_interval: cfg.providing_sync_interval,
    }
}

/// The record of the stock `id`.
pub fn query_stock(state: &State, id: u32) -> (r: Result<StockInfo, ContractError>)
    requires
        state.wf(),
    ensures
        state.stocks@.contains_key(id) ==> r == Ok::<StockInfo, ContractError>(state.stocks@[id]),
        !state.stocks@.contains_key(id) ==> r == Err::<StockInfo, ContractError>(
            ContractError::NotFound { id },
        ),
{
    match state.stocks.get(id) {
        Some(info) => Ok(info),
        None => Err(ContractError::NotFound { id }),
    }
}

/// Whether `address` is privileged for the stock `id`: the answer of the
/// capability check, for every id, registered or not.
pub fn query_check_stock_subcontract(state: &State, id: u32, address: &String) -> (r: Result<
    bool,
    ContractError,
>)
    requires
        state.wf(),
    ensures
        r == Ok::<bool, ContractError>(privileged(*state, id, address@)),
{
    Ok(is_privileged(state, id, address))
}

/// All stocks, in ascending id order.
pub fn query_list_stocks(state: &State) -> (r: StockListResponse)
    requires
        state.wf(),
    ensures
        r.list@ == state.stocks.records(),
        ascending(r.list@),
        enumerates(r.list@, state.stocks@),
{
    StockListResponse { list: state.stocks.list() }
}

/// The answer to the query `msg`: that of the query that it names.
pub open spec fn query_post(
    state: State,
    msg: ManagerQueryMsg,
    balance: Result<u128, String>,
    r: Result<QueryResponse, ContractError>,
) -> bool {
    match msg {
        ManagerQueryMsg::Config {  } => if balance is Err {
            r == Err::<QueryResponse, ContractError>(ContractError::Std { msg: balance->Err_0 })
        } else {
            &&& r is Ok
            &&& r->Ok_0 is Config
            &&& r->Ok_0->Config_0.owner == state.config.owner
            &&& r->Ok_0->Config_0.stkn_address == state.config.stkn_address
            &&& r->Ok_0->Config_0.pusd_address == state.config.pusd_address
            &&& r->Ok_0->Config_0.staking_address == state.config.staking_address
            &&& r->Ok_0->Config_0.cw20_code_id == state.config.cw20_code_id
            &&& r->Ok_0->Config_0.stock_code_id == state.config.stock_code_id
            &&& r->Ok_0->Config_0.pool_code_id == state.config.pool_code_id
            &&& r->Ok_0->Config_0.staking_code_id == state.config.staking_code_id
            &&& r->Ok_0->Config_0.shorting_code_id == state.config.shorting_code_id
            &&& r->Ok_0->Config_0.trading_code_id == state.config.trading_code_id
            &&& r->Ok_0->Config_0.providing_code_id == state.config.providing_code_id
            &&& r->Ok_0->Config_0.price == state.config.price
            &&& r->Ok_0->Config_0.stkn_amount == balance->Ok_0
            &&& r->Ok_0->Config_0.max_stock_id == state.config.max_stock_id
            &&& r->Ok_0->Config_0.enabled == state.config.enabled
            &&& r->Ok_0->Config_0.providing_sync_interval == state.config.providing_sync_interval
        },
        ManagerQueryMsg::Stock { id } => if state.stocks@.contains_key(id) {
            r == Ok::<QueryResponse, ContractError>(QueryResponse::Stock(state.stocks@[id]))
        } else {
            r == Err::<QueryResponse, ContractError>(ContractError::NotFound { id })
        },
        ManagerQueryMsg::ListStocks {  } => {
            &&& r is Ok
            &&& r->Ok_0 is ListStocks
            &&& r->Ok_0->ListStocks_0.list@ == state.stocks.records()
        },
        ManagerQueryMsg::CheckStockSubcontract { id, address } => r == Ok::<
            QueryResponse,
            ContractError,
        >(QueryResponse::CheckStockSubcontract(privileged(state, id, address@))),
    }
}

/// Answers the query `msg`. `stkn_balance` is the STKN that the manager
/// holds, or the text of the failed query; it is read only for the query
/// for the configuration, which fails with that text where the query failed.
pub fn query(state: &State, msg: ManagerQueryMsg, stkn_balance: Result<u128, String>) -> (r: Result<
    QueryResponse,
    ContractError,
>)
    requires
        state.wf(),
    ensures
        query_post(*state, msg, stkn_balance, r),
{
    match msg {
        ManagerQueryMsg::Config {  } => {
            match stkn_balance {
                Ok(held) => Ok(QueryResponse::Config(query_config(state, held))),
                Err(e) => Err(ContractError::Std { msg: e }),
            }
        },
        ManagerQueryMsg::Stock { id } => match query_stock(state, id) {
            Ok(info) => Ok(QueryResponse::Stock(info)),
            Err(e) => Err(e),
        },
        ManagerQueryMsg::ListStocks {  } => Ok(QueryResponse::ListStocks(query_list_stocks(state))),
        ManagerQueryMsg::CheckStockSubcontract { id, address } => {
            match query_check_stock_subcontract(state, id, &address) {
                Ok(b) => Ok(QueryResponse::CheckStockSubcontract(b)),
                Err(e) => Err(e),
            }
        },
    }
}

/// Accepts a migration where the stored contract name is the manager's own.
pub fn migrate(previous_contract: String, msg: MigrateMsg) -> (r: Result<Response, ContractError>)
    ensures
        previous_contract@ == CONTRACT_NAME@ ==> plain_ok(r, None),
        previous_contract@ != CONTRACT_NAME@ ==> fails_with(
            r,
            ContractError::CannotMigrate { previous_contract },
        ),
{
    let own = CONTRACT_NAME.to_owned();
    if previous_contract != own {
        return Err(ContractError::CannotMigrate { previous_contract });
    }
    Ok(Response::plain(None))
}

} // verus!
