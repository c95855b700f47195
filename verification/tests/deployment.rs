use stknmanager::contract::{
    execute, instantiate, on_completion, parse_reply_address, query_list_stocks, reply,
    INSTANTIATE_PUSD_ID, INSTANTIATE_STAKING_ID, INSTANTIATE_STOCK_ID,
};
use stknmanager::error::ContractError;
use stknmanager::msg::{
    Action, Deploy, ExecuteMsg, InitMsg, InstantiateMsg, Response, StockConfigResponse,
};
use stknmanager::registry::StockInfo;
use stknmanager::state::{Phase, State};

fn init_msg() -> InstantiateMsg {
    InstantiateMsg {
        stkn_address: "stkn".to_string(),
        cw20_code_id: 11,
        stock_code_id: 12,
        pool_code_id: 13,
        staking_code_id: 14,
        shorting_code_id: 15,
        trading_code_id: 16,
        providing_code_id: 17,
        price: 2_000_000,
        pusd_url: "https://pusd.example/logo.png".to_string(),
        providing_sync_interval: 3600,
    }
}

fn manager() -> String {
    "manager".to_string()
}

fn start() -> (State, Response) {
    let mut slot: Option<State> = None;
    let resp = instantiate(&mut slot, "owner".to_string(), &manager(), init_msg()).unwrap();
    (slot.unwrap(), resp)
}

fn fresh() -> State {
    start().0
}

fn ready() -> State {
    let mut s = fresh();
    on_completion(&mut s, &manager(), INSTANTIATE_PUSD_ID, "pusd".to_string(), no_config()).unwrap();
    on_completion(&mut s, &manager(), INSTANTIATE_STAKING_ID, "staking".to_string(), no_config())
        .unwrap();
    s
}

fn no_config() -> Result<StockConfigResponse, String> {
    Err("not asked".to_string())
}

fn stock_config(tag: &str) -> StockConfigResponse {
    StockConfigResponse {
        pool_address: format!("pool-{tag}"),
        shorting_address: format!("shorting-{tag}"),
        trading_address: format!("trading-{tag}"),
        providing_address: format!("providing-{tag}"),
    }
}

/// The payload of a reply to a deployment: field 1, length-delimited.
fn reply_payload(address: &str) -> Vec<u8> {
    let mut data = vec![0x0a, address.len() as u8];
    data.extend_from_slice(address.as_bytes());
    data
}

#[test]
fn instantiate_sets_the_config() {
    let (state, _) = start();
    assert_eq!(state.phase, Phase::PusdPending);
    let c = &state.config;
    assert_eq!(c.owner, "owner");
    assert_eq!(c.stkn_address, "stkn");
    assert_eq!(c.pusd_address, "stkn");
    assert_eq!(c.staking_address, "stkn");
    assert_eq!(c.cw20_code_id, 11);
    assert_eq!(c.stock_code_id, 12);
    assert_eq!(c.pool_code_id, 13);
    assert_eq!(c.staking_code_id, 14);
    assert_eq!(c.shorting_code_id, 15);
    assert_eq!(c.trading_code_id, 16);
    assert_eq!(c.providing_code_id, 17);
    assert_eq!(c.price, 2_000_000);
    assert_eq!(c.max_stock_id, 0);
    assert!(c.enabled);
    assert_eq!(c.providing_sync_interval, 3600);
    assert_eq!(state.stocks.list(), vec![]);
}

#[test]
fn instantiate_asks_for_the_pusd_token() {
    let (_, resp) = start();
    assert_eq!(
        resp,
        Response {
            submessages: vec![Deploy {
                code_id: 11,
                admin: "owner".to_string(),
                label: "PUSD : stable coin of Stocken".to_string(),
                init: InitMsg::Token {
                    name: "PUSD".to_string(),
                    symbol: "PUSD".to_string(),
                    decimals: 6,
                    minter: "manager".to_string(),
                    logo_url: "https://pusd.example/logo.png".to_string(),
                    marketing: "manager".to_string(),
                },
                reply_id: 1,
            }],
            messages: vec![],
            action: None,
        }
    );
}

#[test]
fn pusd_reply_records_the_address_and_asks_for_staking() {
    let mut s = fresh();
    let resp =
        on_completion(&mut s, &manager(), INSTANTIATE_PUSD_ID, "pusd".to_string(), no_config())
            .unwrap();
    assert_eq!(s.phase, Phase::StakingPending);
    assert_eq!(s.config.pusd_address, "pusd");
    assert_eq!(s.config.staking_address, "stkn");
    assert_eq!(
        resp,
        Response {
            submessages: vec![Deploy {
                code_id: 14,
                admin: "owner".to_string(),
                label: "STKN Staking".to_string(),
                init: InitMsg::Staking {
                    owner: "owner".to_string(),
                    manager_address: "manager".to_string(),
                    lock_days: vec![30, 60, 120],
                    ratios: vec![20000, 40000, 80000],
                },
                reply_id: 2,
            }],
            messages: vec![],
            action: Some(Action::InstantiatePusd),
        }
    );
}

#[test]
fn staking_reply_records_the_address() {
    let mut s = fresh();
    on_completion(&mut s, &manager(), 1, "pusd".to_string(), no_config()).unwrap();
    let resp = on_completion(&mut s, &manager(), 2, "staking".to_string(), no_config()).unwrap();
    assert_eq!(s.phase, Phase::Ready);
    assert_eq!(s.config.staking_address, "staking");
    assert_eq!(s.config.pusd_address, "pusd");
    assert_eq!(resp, Response { submessages: vec![], messages: vec![], action: Some(Action::InstantiateStaking) });
}

#[test]
fn reply_ids_are_one_two_three() {
    assert_eq!(INSTANTIATE_PUSD_ID, 1);
    assert_eq!(INSTANTIATE_STAKING_ID, 2);
    assert_eq!(INSTANTIATE_STOCK_ID, 3);
}

#[test]
fn unexpected_reply_is_turned_down_and_changes_nothing() {
    for id in [0u64, 2, 3, 4, u64::MAX] {
        let mut s = fresh();
        let r = on_completion(&mut s, &manager(), id, "x".to_string(), Ok(stock_config("x")));
        assert_eq!(r, Err(ContractError::InvalidTokenReplyId {}));
        assert_eq!(s, fresh());
    }
    for id in [0u64, 1, 3, 4] {
        let mut s = fresh();
        on_completion(&mut s, &manager(), 1, "pusd".to_string(), no_config()).unwrap();
        let mut before = fresh();
        on_completion(&mut before, &manager(), 1, "pusd".to_string(), no_config()).unwrap();
        let r = on_completion(&mut s, &manager(), id, "x".to_string(), Ok(stock_config("x")));
        assert_eq!(r, Err(ContractError::InvalidTokenReplyId {}));
        assert_eq!(s, before);
    }
    for id in [0u64, 1, 2, 4] {
        let mut s = ready();
        let r = on_completion(&mut s, &manager(), id, "x".to_string(), Ok(stock_config("x")));
        assert_eq!(r, Err(ContractError::InvalidTokenReplyId {}));
        assert_eq!(s, ready());
    }
}

#[test]
fn stock_reply_registers_the_stock() {
    let mut s = ready();
    let resp =
        on_completion(&mut s, &manager(), 3, "stock-a".to_string(), Ok(stock_config("a"))).unwrap();
    assert_eq!(resp, Response { submessages: vec![], messages: vec![], action: Some(Action::InstantiateStock) });
    assert_eq!(s.config.max_stock_id, 1);
    assert_eq!(s.phase, Phase::Ready);
    assert_eq!(
        s.stocks.get(1),
        Some(StockInfo {
            id: 1,
            stock_address: "stock-a".to_string(),
            pool_address: "pool-a".to_string(),
            shorting_address: "shorting-a".to_string(),
            trading_address: "trading-a".to_string(),
            providing_address: "providing-a".to_string(),
        })
    );
}

#[test]
fn failed_stock_query_keeps_the_id_counted() {
    let mut s = ready();
    let r = on_completion(&mut s, &manager(), 3, "stock-a".to_string(), Err("no answer".to_string()));
    assert_eq!(r, Err(ContractError::Std { msg: "no answer".to_string() }));
    assert_eq!(s.config.max_stock_id, 1);
    assert_eq!(s.stocks.list(), vec![]);
    on_completion(&mut s, &manager(), 3, "stock-b".to_string(), Ok(stock_config("b"))).unwrap();
    assert_eq!(s.config.max_stock_id, 2);
    assert_eq!(s.stocks.get(1), None);
    assert_eq!(s.stocks.get(2).unwrap().stock_address, "stock-b");
}

#[test]
fn two_stock_replies_get_consecutive_ids() {
    let mut s = ready();
    on_completion(&mut s, &manager(), 3, "stock-a".to_string(), Ok(stock_config("a"))).unwrap();
    on_completion(&mut s, &manager(), 3, "stock-b".to_string(), Ok(stock_config("b"))).unwrap();
    let ids: Vec<u32> = s.stocks.list().into_iter().map(|i| i.id).collect();
    assert_eq!(ids, vec![1, 2]);
}

#[test]
fn parse_reply_address_reads_the_first_field() {
    assert_eq!(parse_reply_address(1, &reply_payload("pusd-contract")), Ok("pusd-contract".to_string()));
    assert_eq!(parse_reply_address(3, &reply_payload("wasm1stock")), Ok("wasm1stock".to_string()));
    // the address is followed by the optional second field
    let mut data = reply_payload("abc");
    data.extend_from_slice(&[0x12, 2, 9, 9]);
    assert_eq!(parse_reply_address(2, &data), Ok("abc".to_string()));
}

#[test]
fn parse_reply_address_refuses_a_broken_payload() {
    // field 2 where field 1 is due
    let r = parse_reply_address(1, &vec![0x12, 1, 65]);
    assert!(matches!(r, Err(ContractError::Std { .. })));
    // announced length beyond the payload
    let r = parse_reply_address(1, &vec![0x0a, 5, 65]);
    assert!(matches!(r, Err(ContractError::Std { .. })));
}

#[test]
fn reply_with_a_broken_payload_changes_nothing() {
    let mut s = fresh();
    let r = reply(&mut s, &manager(), 1, &vec![0x0a, 5, 65], no_config());
    assert!(matches!(r, Err(ContractError::Std { .. })));
    assert_eq!(s, fresh());
}

#[test]
fn reply_advances_with_the_address_in_the_payload() {
    let mut s = fresh();
    reply(&mut s, &manager(), 1, &reply_payload("pusd-1"), no_config()).unwrap();
    assert_eq!(s.config.pusd_address, "pusd-1");
    reply(&mut s, &manager(), 2, &reply_payload("staking-1"), no_config()).unwrap();
    assert_eq!(s.config.staking_address, "staking-1");
    assert_eq!(s.phase, Phase::Ready);
    reply(&mut s, &manager(), 3, &reply_payload("stock-1"), Ok(stock_config("1"))).unwrap();
    assert_eq!(s.stocks.get(1).unwrap().stock_address, "stock-1");
}

#[test]
fn from_initialisation_to_the_first_stock() {
    let (mut s, _) = start();
    assert_eq!(s.config.price, 2_000_000);
    reply(&mut s, &manager(), 1, &reply_payload("pusd"), no_config()).unwrap();
    reply(&mut s, &manager(), 2, &reply_payload("staking"), no_config()).unwrap();
    assert_eq!(s.phase, Phase::Ready);

    let add = ExecuteMsg::AddStock {
        name: "Foo".to_string(),
        symbol: "FOO".to_string(),
        url: "https://foo.example/logo.png".to_string(),
    };
    let resp = execute(&mut s, &"owner".to_string(), add, Ok(0)).unwrap();
    assert_eq!(
        resp,
        Response {
            submessages: vec![Deploy {
                code_id: 12,
                admin: "owner".to_string(),
                label: "Stock Token : Foo".to_string(),
                init: InitMsg::Stock {
                    name: "Foo".to_string(),
                    symbol: "FOO".to_string(),
                    decimals: 6,
                    logo_url: "https://foo.example/logo.png".to_string(),
                    marketing: "owner".to_string(),
                    id: 1,
                    owner: "owner".to_string(),
                    pool_code_id: 13,
                    shorting_code_id: 15,
                    trading_code_id: 16,
                    providing_code_id: 17,
                    cw20_code_id: 11,
                },
                reply_id: 3,
            }],
            messages: vec![],
            action: None,
        }
    );
    assert_eq!(s.config.max_stock_id, 0);

    reply(&mut s, &manager(), 3, &reply_payload("foo-token"), Ok(stock_config("foo"))).unwrap();
    assert_eq!(
        query_list_stocks(&s).list,
        vec![StockInfo {
            id: 1,
            stock_address: "foo-token".to_string(),
            pool_address: "pool-foo".to_string(),
            shorting_address: "shorting-foo".to_string(),
            trading_address: "trading-foo".to_string(),
            providing_address: "providing-foo".to_string(),
        }]
    );
}

#[test]
fn second_initialisation_is_refused_and_changes_nothing() {
    let mut started = ready();
    on_completion(&mut started, &manager(), 3, "stock-a".to_string(), Ok(stock_config("a"))).unwrap();
    assert_eq!(started.config.max_stock_id, 1);
    let mut slot = Some(started);
    let mut again = init_msg();
    again.price = 9;
    let r = instantiate(&mut slot, "intruder".to_string(), &manager(), again);
    assert_eq!(r, Err(ContractError::AlreadyInitialized {}));
    let kept = slot.unwrap();
    assert_eq!(kept.config.owner, "owner");
    assert_eq!(kept.config.price, 2_000_000);
    assert_eq!(kept.config.max_stock_id, 1);
    assert_eq!(kept.phase, Phase::Ready);
    assert_eq!(kept.stocks.get(1).unwrap().stock_address, "stock-a");

    let mut pending = Some(fresh());
    let r = instantiate(&mut pending, "owner".to_string(), &manager(), init_msg());
    assert_eq!(r, Err(ContractError::AlreadyInitialized {}));
    assert_eq!(pending, Some(fresh()));
}

#[test]
fn phase_codes_round_trip() {
    for phase in [Phase::PusdPending, Phase::StakingPending, Phase::Ready] {
        assert_eq!(Phase::from_code(phase.code()), Some(phase));
    }
    assert_eq!(Phase::PusdPending.code(), 0);
    assert_eq!(Phase::StakingPending.code(), 1);
    assert_eq!(Phase::Ready.code(), 2);
    assert_eq!(Phase::from_code(3), None);
    assert_eq!(Phase::from_code(255), None);
}
