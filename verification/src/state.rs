//! What the manager keeps from one operation to the next.

use vstd::prelude::*;
use crate::registry::Registry;

verus! {

/// The manager's settings.
#[derive(Debug, PartialEq, Eq)]
pub struct Config {
    pub owner: String,
    pub stkn_address: String,
    pub pusd_address: String,
    pub staking_address: String,
    pub cw20_code_id: u64,
    pub stock_code_id: u64,
    pub staking_code_id: u64,
    pub pool_code_id: u64,
    pub shorting_code_id: u64,
    pub trading_code_id: u64,
    pub providing_code_id: u64,
    /// STKN per PUSD, scaled by `NORMAL_DECIMAL`.
    pub price: u128,
    /// The id that the latest deployed stock received.
    pub max_stock_id: u32,
    pub enabled: bool,
    pub providing_sync_interval: u64,
}

impl Clone for Config {
    fn clone(&self) -> (r: Self)
        ensures
            r == *self,
    {
        Config {
            owner: self.owner.clone(),
            stkn_address: self.stkn_address.clone(),
            pusd_address: self.pusd_address.clone(),
            staking_address: self.staking_address.clone(),
            cw20_code_id: self.cw20_code_id,
            stock_code_id: self.stock_code_id,
            staking_code_id: self.staking_code_id,
            pool_code_id: self.pool_code_id,
            shorting_code_id: self.shorting_code_id,
            trading_code_id: self.trading_code_id,
            providing_code_id: self.providing_code_id,
            price: self.price,
            max_stock_id: self.max_stock_id,
            enabled: self.enabled,
            providing_sync_interval: self.providing_sync_interval,
        }
    }
}

/// How far the deployment sequence has come. Before its initialisation the
/// manager has no state at all: the place of its state holds `None`.
#[derive(Clone, Copy, Debug, PartialEq, Eq, Structural)]
pub enum Phase {
    /// The PUSD token was asked for and has not answered.
    PusdPending,
    /// The staking module was asked for and has not answered.
    StakingPending,
    /// Both exist; stocks may be deployed.
    Ready,
}

impl Phase {
    /// The number under which the phase is stored.
    pub open spec fn code_of(self) -> u8 {
        match self {
            Phase::PusdPending => 0,
            Phase::StakingPending => 1,
            Phase::Ready => 2,
        }
    }

    /// The number under which the phase is stored.
    pub fn code(&self) -> (c: u8)
        ensures
            c == self.code_of(),
    {
        match self {
            Phase::PusdPending => 0,
            Phase::StakingPending => 1,
            Phase::Ready => 2,
        }
    }

    /// The phase that is stored under `code`; no phase for any other number.
    pub fn from_code(code: u8) -> (r: Option<Phase>)
        ensures
            code <= 2 ==> r is Some && r->Some_0.code_of() == code,
            code > 2 ==> r is None,
    {
        if code == 0 {
            Some(Phase::PusdPending)
        } else if code == 1 {
            Some(Phase::StakingPending)
        } else if code == 2 {
            Some(Phase::Ready)
        } else {
            None
        }
    }
}

/// The manager's whole durable state.
#[derive(Debug, PartialEq, Eq)]
pub struct State {
    pub phase: Phase,
    pub config: Config,
    pub stocks: Registry,
}

impl State {
    /// The registry is in order.
    pub open spec fn wf(&self) -> bool {
        self.stocks.wf()
    }
}

} // verus!
