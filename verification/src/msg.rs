//! The commands and queries that the manager accepts, and the instructions
//! that it hands back to the host.

use vstd::prelude::*;
use crate::registry::StockInfo;

verus! {

/// The parameters of the one-time initialisation.
#[derive(Debug, PartialEq, Eq)]
pub struct InstantiateMsg {
    pub stkn_address: String,
    pub cw20_code_id: u64,
    pub stock_code_id: u64,
    pub pool_code_id: u64,
    pub staking_code_id: u64,
    pub shorting_code_id: u64,
    pub trading_code_id: u64,
    pub providing_code_id: u64,
    pub price: u128,
    pub pusd_url: String,
    pub providing_sync_interval: u64,
}

/// What a token says when it announces a transfer to the manager.
#[derive(Debug, PartialEq, Eq)]
pub enum ReceiveMsg {
    FundStkn {},
    Swap { expected_amount: u128 },
}

/// A token's announcement that `sender` moved `amount` to the manager.
#[derive(Debug, PartialEq, Eq)]
pub struct Cw20ReceiveMsg {
    pub sender: String,
    pub amount: u128,
    pub msg: ReceiveMsg,
}

/// The commands.
#[derive(Debug, PartialEq, Eq)]
pub enum ExecuteMsg {
    UpdateOwner { owner: String },
    UpdateEnabled { enabled: bool },
    UpdatePrice { price: u128 },
    RemoveStock { id: u32 },
    RemoveAllStocks {},
    AddStock { name: String, symbol: String, url: String },
    Receive(Cw20ReceiveMsg),
    MintPusd { id: u32, recipient: String, amount: u128 },
    MintStock { id: u32, recipient: String, amount: u128 },
    TransferStkn { id: u32, recipient: String, amount: u128 },
}

/// The migration command; it carries nothing.
#[derive(Clone, Debug, PartialEq, Eq)]
pub struct MigrateMsg {}

/// The queries.
#[derive(Debug, PartialEq, Eq)]
pub enum ManagerQueryMsg {
    Config {},
    Stock { id: u32 },
    ListStocks {},
    CheckStockSubcontract { id: u32, address: String },
}

/// What a freshly deployed stock reports of its components.
#[derive(Debug, PartialEq, Eq)]
pub struct StockConfigResponse {
    pub pool_address: String,
    pub shorting_address: String,
    pub trading_address: String,
    pub providing_address: String,
}

/// The answer to the query for the configuration.
#[derive(Debug, PartialEq, Eq)]
pub struct ManagerConfigResponse {
    pub owner: String,
    pub stkn_address: String,
    pub pusd_address: String,
    pub staking_address: String,
    pub cw20_code_id: u64,
    pub stock_code_id: u64,
    pub pool_code_id: u64,
    pub staking_code_id: u64,
    pub shorting_code_id: u64,
    pub trading_code_id: u64,
    pub providing_code_id: u64,
    pub price: u128,
    pub stkn_amount: u128,
    pub max_stock_id: u32,
    pub enabled: bool,
    pub providing_sync_interval: u64,
}

/// The answer to the query for all stocks.
#[derive(Debug, PartialEq, Eq)]
pub struct StockListResponse {
    pub list: Vec<StockInfo>,
}

/// The answer to a query.
#[derive(Debug, PartialEq, Eq)]
pub enum QueryResponse {
    Config(ManagerConfigResponse),
    Stock(StockInfo),
    ListStocks(StockListResponse),
    CheckStockSubcontract(bool),
}

/// The constructor payload of a component that the host is to deploy.
#[derive(Debug, PartialEq, Eq)]
pub enum InitMsg {
    /// A plain token with one minter.
    Token {
        name: String,
        symbol: String,
        decimals: u8,
        minter: String,
        logo_url: String,
        marketing: String,
    },
    /// The staking module with its lock tiers.
    Staking { owner: String, manager_address: String, lock_days: Vec<u64>, ratios: Vec<u64> },
    /// A stock with the templates of its components.
    Stock {
        name: String,
        symbol: String,
        decimals: u8,
        logo_url: String,
        marketing: String,
        id: u32,
        owner: String,
        pool_code_id: u64,
        shorting_code_id: u64,
        trading_code_id: u64,
        providing_code_id: u64,
        cw20_code_id: u64,
    },
}

/// An instruction to deploy a component; the host answers it later with a
/// reply that carries `reply_id`.
#[derive(Debug, PartialEq, Eq)]
pub struct Deploy {
    pub code_id: u64,
    pub admin: String,
    pub label: String,
    pub init: InitMsg,
    pub reply_id: u64,
}

/// What a token is told to do.
#[derive(Debug, PartialEq, Eq)]
pub enum TokenMsg {
    Mint { recipient: String, amount: u128 },
    Burn { amount: u128 },
    Transfer { recipient: String, amount: u128 },
}

/// An instruction to a deployed token.
#[derive(Debug, PartialEq, Eq)]
pub struct Call {
    pub contract_addr: String,
    pub msg: TokenMsg,
}

/// The name under which an accepted operation is reported.
#[derive(Clone, Copy, Debug, PartialEq, Eq, Structural)]
pub enum Action {
    InstantiatePusd,
    InstantiateStaking,
    InstantiateStock,
    UpdateOwner,
    UpdateEnabled,
    UpdatePrice,
    RemoveStock,
    RemoveAllStock,
    FundStkn,
    BuyPusd,
    BuyStkn,
    CheckStockContracts,
    MintPusd,
    MintStock,
    SendStkn,
}

/// What an accepted operation hands back to the host.
#[derive(Debug, PartialEq, Eq)]
pub struct Response {
    /// Deployments to start, each answered by a reply.
    pub submessages: Vec<Deploy>,
    /// Instructions to tokens, sent without waiting for an answer.
    pub messages: Vec<Call>,
    /// The name to report, where the operation has one.
    pub action: Option<Action>,
}

impl Response {
    /// The response holds no instruction and reports `action`.
    pub open spec fn is_plain(&self, action: Option<Action>) -> bool {
        self.submessages@.len() == 0 && self.messages@.len() == 0 && self.action == action
    }

    /// A response without instructions.
    pub fn plain(action: Option<Action>) -> (r: Self)
        ensures
            r.is_plain(action),
    {
        Response { submessages: Vec::new(), messages: Vec::new(), action }
    }
}

impl Action {
    /// The text of the name.
    pub fn label(&self) -> (r: String)
        ensures
            r@ == self.label_text(),
    {
        match self {
            Action::InstantiatePusd => "instantiate_pusd".to_owned(),
            Action::InstantiateStaking => "instantiate_staking".to_owned(),
            Action::InstantiateStock => "instantiate_stock".to_owned(),
            Action::UpdateOwner => "update_owner".to_owned(),
            Action::UpdateEnabled => "update_enabled".to_owned(),
            Action::UpdatePrice => "update_price".to_owned(),
            Action::RemoveStock => "remove_stock".to_owned(),
            Action::RemoveAllStock => "remove_all_stock".to_owned(),
            Action::FundStkn => "fund_stkn".to_owned(),
            Action::BuyPusd => "buy_pusd".to_owned(),
            Action::BuyStkn => "buy_stkn".to_owned(),
            Action::CheckStockContracts => "check_stock_contracts".to_owned(),
            Action::MintPusd => "mint_pusd".to_owned(),
            Action::MintStock => "mint_stock".to_owned(),
            Action::SendStkn => "send_stkn".to_owned(),
        }
    }

    /// The text of the name, as a sequence of characters.
    pub open spec fn label_text(&self) -> Seq<char> {
        match self {
            Action::InstantiatePusd => "instantiate_pusd"@,
            Action::InstantiateStaking => "instantiate_staking"@,
            Action::InstantiateStock => "instantiate_stock"@,
            Action::UpdateOwner => "update_owner"@,
            Action::UpdateEnabled => "update_enabled"@,
            Action::UpdatePrice => "update_price"@,
            Action::RemoveStock => "remove_stock"@,
            Action::RemoveAllStock => "remove_all_stock"@,
            Action::FundStkn => "fund_stkn"@,
            Action::BuyPusd => "buy_pusd"@,
            Action::BuyStkn => "buy_stkn"@,
            Action::CheckStockContracts => "check_stock_contracts"@,
            Action::MintPusd => "mint_pusd"@,
            Action::MintStock => "mint_stock"@,
            Action::SendStkn => "send_stkn"@,
        }
    }
}

} // verus!
