//! Laws that hold of the manager's operations, stated over the predicates
//! of their contracts.

use vstd::prelude::*;
use crate::contract::{
    buy_stkn_post, check_stock_subcontract_post, completion_post, execute_post,
    is_config_party, is_owner, is_stock_party, is_transfer, privileged, reply_expected,
    start_post, INSTANTIATE_STOCK_ID,
};
use crate::error::ContractError;
use crate::msg::{Cw20ReceiveMsg, ExecuteMsg, InstantiateMsg, Response, StockConfigResponse};
use crate::registry::{ascending, enumerates, Registry, StockInfo};
use crate::state::{Phase, State};
use crate::swap::{pusd_for_stkn, stkn_for_pusd, NORMAL_DECIMAL};

verus! {

/// After `put` of `record` under `id`, `get` finds exactly `record` under
/// `id`, and under every other id what it found before.
pub proof fn law_put_then_get(before: Registry, after: Registry, id: u32, record: StockInfo)
    requires
        after@ == before@.insert(id, record),
    ensures
        after.found(id) == Some(record),
        forall|k: u32| k != id ==> after.found(k) == before.found(k),
{
}

/// After `remove` of `id`, `get` finds nothing under `id`, and under every
/// other id what it found before.
pub proof fn law_remove_then_get(before: Registry, after: Registry, id: u32)
    requires
        after@ == before@.remove(id),
    ensures
        after.found(id) is None,
        forall|k: u32| k != id ==> after.found(k) == before.found(k),
{
}

/// Removing twice is removing once.
pub proof fn law_remove_is_idempotent(before: Registry, once: Registry, twice: Registry, id: u32)
    requires
        once@ == before@.remove(id),
        twice@ == once@.remove(id),
    ensures
        twice@ == once@,
{
    assert(twice@ =~= once@);
}

/// The records of a well-formed registry stand in strictly ascending id
/// order, each is what the registry holds under its id, and nothing else is
/// held.
pub proof fn law_records_ascending(registry: Registry)
    requires
        registry.wf(),
    ensures
        ascending(registry.records()),
        forall|i: int, j: int|
            0 <= i < j < registry.records().len() ==> registry.records()[i].id
                < registry.records()[j].id,
        enumerates(registry.records(), registry@),
{
    assert forall|i: int| 0 <= i < registry.records().len() implies registry@.contains_key(
        #[trigger] registry.records()[i].id,
    ) && registry@[registry.records()[i].id] == registry.records()[i] by {
        crate::registry::lemma_pos(registry.records(), i);
    }
}

/// A registry that holds nothing lists nothing.
pub proof fn law_empty_lists_nothing(registry: Registry)
    requires
        registry.wf(),
        registry@ == Map::<u32, StockInfo>::empty(),
    ensures
        registry.records() == Seq::<StockInfo>::empty(),
{
    if registry.records().len() > 0 {
        crate::registry::lemma_pos(registry.records(), 0);
    }
    assert(registry.records() =~= Seq::<StockInfo>::empty());
}

/// A reply that is not expected in the current phase is turned down with
/// `InvalidTokenReplyId`, and the state stays as it was.
pub proof fn law_unexpected_reply_changes_nothing(
    pre: State,
    contract: Seq<char>,
    id: u64,
    address: String,
    stock_config: Result<StockConfigResponse, String>,
    post: State,
    r: Result<Response, ContractError>,
)
    requires
        completion_post(pre, contract, id, address, stock_config, post, r),
        !reply_expected(pre.phase, id),
    ensures
        post == pre,
        r == Err::<Response, ContractError>(ContractError::InvalidTokenReplyId {  }),
{
}

/// The phases follow one another in one order, and the stock counter moves
/// only on the expected reply of a stock, by exactly one.
pub proof fn law_reply_steps(
    pre: State,
    contract: Seq<char>,
    id: u64,
    address: String,
    stock_config: Result<StockConfigResponse, String>,
    post: State,
    r: Result<Response, ContractError>,
)
    requires
        completion_post(pre, contract, id, address, stock_config, post, r),
        pre.config.max_stock_id < u32::MAX,
    ensures
        post.phase == pre.phase || (pre.phase == Phase::PusdPending && post.phase
            == Phase::StakingPending) || (pre.phase == Phase::StakingPending && post.phase
            == Phase::Ready),
        post.config.max_stock_id == pre.config.max_stock_id + (if pre.phase == Phase::Ready && id
            == INSTANTIATE_STOCK_ID {
            1int
        } else {
            0int
        }),
        r is Ok ==> reply_expected(pre.phase, id),
{
}

/// No command moves the stock counter or the phase.
pub proof fn law_commands_keep_counter(
    pre: State,
    sender: Seq<char>,
    msg: ExecuteMsg,
    balance: Result<u128, String>,
    post: State,
    r: Result<Response, ContractError>,
)
    requires
        execute_post(pre, sender, msg, balance, post, r),
    ensures
        post.config.max_stock_id == pre.config.max_stock_id,
        post.phase == pre.phase,
{
}

/// Where `amount` STKN is what `expected` PUSD converts back to, the swap
/// pays exactly `expected`; else it pays the product with the price, rounded
/// down.
pub proof fn law_expected_amount_pins_pusd(price: nat, amount: nat, expected: nat)
    requires
        price > 0,
    ensures
        amount == (expected * NORMAL_DECIMAL as nat) / price ==> pusd_for_stkn(
            price,
            amount,
            expected,
        ) == expected,
        amount != (expected * NORMAL_DECIMAL as nat) / price ==> pusd_for_stkn(
            price,
            amount,
            expected,
        ) == (price * amount) / (NORMAL_DECIMAL as nat),
{
}

/// Where `amount` PUSD is what `expected` STKN converts back to, the swap
/// pays exactly `expected`; else it pays the quotient by the price, rounded
/// down.
pub proof fn law_expected_amount_pins_stkn(price: nat, amount: nat, expected: nat)
    requires
        price > 0,
    ensures
        amount == (price * expected) / (NORMAL_DECIMAL as nat) ==> stkn_for_pusd(
            price,
            amount,
            expected,
        ) == expected,
        amount != (price * expected) / (NORMAL_DECIMAL as nat) ==> stkn_for_pusd(
            price,
            amount,
            expected,
        ) == (amount * NORMAL_DECIMAL as nat) / price,
{
}

/// A swap of PUSD is turned down with `InsufficientStkn` exactly when the
/// STKN due exceeds what the manager holds; else exactly the STKN due goes
/// to the sender.
pub proof fn law_reserve_bounds_payout(
    cfg: crate::state::Config,
    wrapper: Cw20ReceiveMsg,
    expected: u128,
    held: u128,
    r: Result<Response, ContractError>,
)
    requires
        buy_stkn_post(cfg, wrapper, expected, Ok(held), r),
    ensures
        stkn_for_pusd(cfg.price as nat, wrapper.amount as nat, expected as nat) > held <==> r
            == Err::<Response, ContractError>(ContractError::InsufficientStkn {  }),
        stkn_for_pusd(cfg.price as nat, wrapper.amount as nat, expected as nat) <= held <==> r
            is Ok,
        r is Ok ==> r->Ok_0.messages@.len() == 2 && is_transfer(
            r->Ok_0.messages@[1],
            cfg.stkn_address@,
            wrapper.sender@,
            stkn_for_pusd(cfg.price as nat, wrapper.amount as nat, expected as nat) as int,
        ),
{
}

/// Each of the five addresses of a registered stock is privileged for it.
pub proof fn law_stock_parties_are_privileged(state: State, id: u32, who: Seq<char>)
    requires
        state.stocks@.contains_key(id),
        is_stock_party(state.stocks@[id], who),
    ensures
        privileged(state, id, who),
{
}

/// An address that is none of the configured parties and none of the
/// stock's five addresses is not privileged.
pub proof fn law_strangers_are_not_privileged(state: State, id: u32, who: Seq<char>)
    requires
        !is_config_party(state.config, who),
        state.stocks@.contains_key(id) ==> !is_stock_party(state.stocks@[id], who),
    ensures
        !privileged(state, id, who),
{
}

/// The owner is privileged for every stock id.
pub proof fn law_owner_is_privileged(state: State, id: u32, who: Seq<char>)
    requires
        is_owner(state.config, who),
    ensures
        privileged(state, id, who),
{
}

/// A command that is turned down leaves the state as it was.
pub proof fn law_rejected_command_changes_nothing(
    pre: State,
    sender: Seq<char>,
    msg: ExecuteMsg,
    balance: Result<u128, String>,
    post: State,
    r: Result<Response, ContractError>,
)
    requires
        execute_post(pre, sender, msg, balance, post, r),
        r is Err,
    ensures
        post == pre,
{
}

/// A reply that is turned down leaves the state as it was, but for the
/// stock counter where the new stock did not answer the query for its
/// components.
pub proof fn law_rejected_reply_keeps_registry(
    pre: State,
    contract: Seq<char>,
    id: u64,
    address: String,
    stock_config: Result<StockConfigResponse, String>,
    post: State,
    r: Result<Response, ContractError>,
)
    requires
        completion_post(pre, contract, id, address, stock_config, post, r),
        r is Err,
    ensures
        post.phase == pre.phase,
        post.stocks == pre.stocks,
        !(pre.phase == Phase::Ready && id == INSTANTIATE_STOCK_ID) ==> post == pre,
        pre.phase == Phase::Ready && id == INSTANTIATE_STOCK_ID ==> stock_config is Err
            && post.config == (crate::state::Config {
            max_stock_id: (pre.config.max_stock_id + 1) as u32,
            ..pre.config
        }),
{
}

/// Only the owner's commands change the configuration or the registry.
pub proof fn law_only_the_owner_changes_state(
    pre: State,
    sender: Seq<char>,
    msg: ExecuteMsg,
    balance: Result<u128, String>,
    post: State,
    r: Result<Response, ContractError>,
)
    requires
        execute_post(pre, sender, msg, balance, post, r),
        !is_owner(pre.config, sender),
    ensures
        post == pre,
{
}

/// An initialisation of a manager that exists is turned down and leaves
/// the manager as it is; only where there is none does it create one.
pub proof fn law_one_initialisation(
    pre: Option<State>,
    sender: String,
    contract: Seq<char>,
    msg: InstantiateMsg,
    post: Option<State>,
    r: Result<Response, ContractError>,
)
    requires
        start_post(pre, sender, contract, msg, post, r),
    ensures
        pre is Some ==> post == pre && r == Err::<Response, ContractError>(
            ContractError::AlreadyInitialized {  },
        ),
        r is Ok <==> pre is None,
        r is Ok ==> post is Some && post->Some_0.phase == Phase::PusdPending
            && post->Some_0.config.max_stock_id == 0,
{
}

/// The capability check passes exactly the privileged, so the mint and
/// transfer commands admit a caller exactly where the query answers `true`.
pub proof fn law_check_passes_the_privileged(
    state: State,
    id: u32,
    who: Seq<char>,
    r: Result<Response, ContractError>,
)
    requires
        check_stock_subcontract_post(state, id, who, r),
    ensures
        r is Ok <==> privileged(state, id, who),
{
}

/// Each of the four configured parties is privileged for every stock id,
/// registered or not.
pub proof fn law_config_parties_are_privileged(state: State, id: u32, who: Seq<char>)
    requires
        is_config_party(state.config, who),
    ensures
        privileged(state, id, who),
{
}

/// Different phases are stored under different numbers.
pub proof fn law_phase_codes_differ(a: Phase, b: Phase)
    ensures
        a.code_of() <= 2,
        a.code_of() == b.code_of() ==> a == b,
{
}

} // verus!
