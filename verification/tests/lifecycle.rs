use open_edition_minter::contract::{
    execute, is_execute_in_range, sudo, update_status, FactoryAnswer, CONTRACT_NAME,
    CONTRACT_VERSION, NOT_ADMIN,
};
use open_edition_minter::create::{
    instantiate, is_instantiate_in_range, offset_in_range, validate_nft_data,
};
use open_edition_minter::handshake::{bind_collection, reply};
use open_edition_minter::migrate::migrate;
use open_edition_minter::update::{
    execute_update_end_time, execute_update_mint_price, execute_update_per_address_limit,
    execute_update_start_time, execute_update_start_trading_time,
};
use open_edition_minter::counts::MintCounts;
use open_edition_minter::error::{ContractError, PaymentError, StdFailure};
use open_edition_minter::msg::{
    ConfigResponse, EndTimeResponse, ExecuteMsg, MintCountResponse, MintPriceResponse,
    OpenEditionMinterCreateMsg, OpenEditionMinterInitMsgExtension, QueryMsg, QueryResponse, Reply,
    StartTimeResponse, StatusResponse, SubMsgResponse, SudoMsg, TotalMintCountResponse,
};
use open_edition_minter::query::{query, query_config, query_mint_price};
use open_edition_minter::response::{AttrValue, Attribute, CosmosMsg, ReplyOn, SubMsg};
use open_edition_minter::state::MinterState;
use open_edition_minter::types::{
    BlockInfo, Coin, CollectionInfo, CollectionParams, ContractInfo, Env, MessageInfo, Metadata,
    MinterParams, NftData, NftMetadataType, ParamsExtension, ParamsResponse, Status, Timestamp,
    Token,
};
use url::ParseError;

const DENOM: &str = "ustars";
const START: u64 = 1_000_000_000_000;
const END: u64 = 2_000_000_000_000;
const OFFSET_SECS: u64 = 60;

fn coin(amount: u128, denom: &str) -> Coin {
    Coin { denom: denom.to_string(), amount }
}

fn at(nanos: u64) -> Timestamp {
    Timestamp::from_nanos(nanos)
}

fn env_at(nanos: u64) -> Env {
    Env { block: BlockInfo { time: at(nanos) }, contract: ContractInfo { address: "minter".to_string() } }
}

fn info(sender: &str, funds: Vec<Coin>) -> MessageInfo {
    MessageInfo { sender: sender.to_string(), funds }
}

fn factory() -> FactoryAnswer {
    Ok(ParamsResponse {
        params: MinterParams {
            min_mint_price: Token::Fungible(coin(100, DENOM)),
            mint_fee_bps: 1_000,
            max_trading_offset_secs: OFFSET_SECS,
            extension: ParamsExtension {
                max_per_address_limit: 10,
                airdrop_mint_price: coin(200, DENOM),
                airdrop_mint_fee_bps: 5_000,
                dev_fee_address: "dev".to_string(),
            },
        },
    })
}

fn off_chain(uri: Option<&str>) -> NftData {
    NftData {
        nft_data_type: NftMetadataType::OffChainMetadata,
        extension: None,
        token_uri: uri.map(|u| u.to_string()),
    }
}

fn metadata(image: Option<&str>) -> Metadata {
    Metadata {
        image: image.map(|i| i.to_string()),
        image_data: None,
        external_url: None,
        description: None,
        name: Some("Edition".to_string()),
        attributes: None,
        background_color: None,
        animation_url: None,
        youtube_url: None,
    }
}

fn on_chain(image: Option<&str>) -> NftData {
    NftData {
        nft_data_type: NftMetadataType::OnChainMetadata,
        extension: Some(metadata(image)),
        token_uri: None,
    }
}

fn create_msg(nft_data: NftData, start_trading_time: Option<Timestamp>) -> OpenEditionMinterCreateMsg {
    OpenEditionMinterCreateMsg {
        init_msg: OpenEditionMinterInitMsgExtension {
            nft_data,
            start_time: at(START),
            end_time: at(END),
            mint_price: coin(1_000, DENOM),
            per_address_limit: 3,
            payment_address: Some("treasury".to_string()),
        },
        collection_params: CollectionParams {
            code_id: 7,
            name: "  Edition One ".to_string(),
            symbol: "ED".to_string(),
            info: CollectionInfo {
                creator: "creator".to_string(),
                description: "an edition".to_string(),
                image: "ipfs://bafy/cover".to_string(),
                external_link: None,
                explicit_content: Some(false),
                start_trading_time,
                royalty_info: None,
            },
        },
        allowed_burn_collections: Some(vec!["punks".to_string()]),
    }
}

fn instantiate_reply(id: u64, address: &str) -> Reply {
    let mut data = vec![0x0a, address.len() as u8];
    data.extend_from_slice(address.as_bytes());
    Reply { id, result: Ok(SubMsgResponse { data: Some(data) }) }
}

fn unbound() -> MinterState {
    instantiate(
        &env_at(START - 10),
        info("factory", vec![]),
        create_msg(off_chain(Some("ipfs://bafy/edition")), None),
        &factory(),
    )
    .unwrap()
    .0
}

fn bound() -> MinterState {
    let mut state = unbound();
    reply(&mut state, &env_at(START - 5), &instantiate_reply(1, "collection")).unwrap();
    state
}

fn attribute(key: &'static str, value: AttrValue) -> Attribute {
    Attribute { key, value }
}

#[test]
fn creation_stores_the_sale_and_asks_for_the_collection() {
    let funds = vec![coin(5, DENOM)];
    let (state, res) = instantiate(
        &env_at(START - 10),
        info("factory", funds.clone()),
        create_msg(off_chain(Some("  ipfs://bafy/edition \n")), None),
        &factory(),
    )
    .unwrap();
    assert_eq!(state.contract_version.contract, CONTRACT_NAME);
    assert_eq!(state.contract_version.version, CONTRACT_VERSION);
    assert_eq!(state.config.factory, "factory");
    assert_eq!(state.config.collection_code_id, 7);
    assert_eq!(state.config.extension.admin, "creator");
    assert_eq!(state.config.extension.payment_address, Some("treasury".to_string()));
    assert_eq!(state.config.extension.per_address_limit, 3);
    assert_eq!(state.config.extension.start_time, at(START));
    assert_eq!(state.config.extension.end_time, at(END));
    assert_eq!(state.config.extension.nft_data, off_chain(Some("ipfs://bafy/edition")));
    assert_eq!(state.config.mint_price, Token::Fungible(coin(1_000, DENOM)));
    assert_eq!(state.config.allowed_burn_collections, Some(vec!["punks".to_string()]));
    assert_eq!(state.status, Status { is_verified: false, is_blocked: false, is_explicit: false });
    assert_eq!(state.status, Status::default());
    assert_eq!(state.total_mint_count, 0);
    assert_eq!(state.token_index, 1);
    assert_eq!(state.sg721_address, None);
    assert_eq!(state.minter_addrs, MintCounts::new());
    assert!(state.check());

    let mut collection_info = create_msg(off_chain(None), None).collection_params.info;
    collection_info.start_trading_time = Some(at(START + OFFSET_SECS * 1_000_000_000));
    assert_eq!(
        res.messages,
        vec![SubMsg {
            msg: CosmosMsg::InstantiateSg721 {
                code_id: 7,
                name: "  Edition One ".to_string(),
                symbol: "ED".to_string(),
                minter: "minter".to_string(),
                collection_info,
                funds,
                admin: "creator".to_string(),
                label: "SG721-Edition One".to_string(),
            },
            id: 1,
            reply_on: ReplyOn::Success,
        }]
    );
    assert_eq!(
        res.attributes,
        vec![
            attribute("action", AttrValue::Text("instantiate")),
            attribute("contract_name", AttrValue::Text(CONTRACT_NAME)),
            attribute("contract_version", AttrValue::Text(CONTRACT_VERSION)),
            attribute("sender", AttrValue::Address("factory".to_string())),
        ]
    );
}

#[test]
fn creation_keeps_an_earlier_start_of_trading() {
    let wanted = at(START + 1);
    let (_, res) = instantiate(
        &env_at(START - 10),
        info("factory", vec![]),
        create_msg(off_chain(Some("ipfs://x")), Some(wanted)),
        &factory(),
    )
    .unwrap();
    match &res.messages[0].msg {
        CosmosMsg::InstantiateSg721 { collection_info, .. } => {
            assert_eq!(collection_info.start_trading_time, Some(wanted))
        }
        other => panic!("unexpected message {:?}", other),
    }
    let latest = at(START + OFFSET_SECS * 1_000_000_000);
    assert!(instantiate(
        &env_at(START - 10),
        info("factory", vec![]),
        create_msg(off_chain(Some("ipfs://x")), Some(latest)),
        &factory(),
    )
    .is_ok());
}

#[test]
fn creation_refuses_a_start_of_trading_past_the_offset() {
    let latest = at(START + OFFSET_SECS * 1_000_000_000);
    let late = at(latest.nanos() + 1);
    assert_eq!(
        instantiate(
            &env_at(START - 10),
            info("factory", vec![]),
            create_msg(off_chain(Some("ipfs://x")), Some(late)),
            &factory(),
        ),
        Err(ContractError::InvalidStartTradingTime(late, latest))
    );
}

#[test]
fn creation_fails_when_the_factory_does_not_answer() {
    assert_eq!(
        instantiate(
            &env_at(START - 10),
            info("someone", vec![]),
            create_msg(off_chain(Some("not a url")), None),
            &Err("no such contract".to_string()),
        ),
        Err(ContractError::Std(StdFailure::Host("no such contract".to_string())))
    );
}

#[test]
fn off_chain_template_needs_an_ipfs_locator() {
    assert_eq!(validate_nft_data(off_chain(None)), Err(ContractError::InvalidBaseTokenURI));
    assert_eq!(
        validate_nft_data(off_chain(Some("https://example.com/x"))),
        Err(ContractError::InvalidBaseTokenURI)
    );
    assert_eq!(
        validate_nft_data(off_chain(Some("bafy/edition"))),
        Err(ContractError::Parse(ParseError::RelativeUrlWithoutBase))
    );
    assert_eq!(
        validate_nft_data(off_chain(Some(" IPFS://bafy/edition "))),
        Ok(off_chain(Some("IPFS://bafy/edition")))
    );
    assert_eq!(
        instantiate(
            &env_at(START - 10),
            info("factory", vec![]),
            create_msg(off_chain(Some("https://example.com/x")), None),
            &factory(),
        ),
        Err(ContractError::InvalidBaseTokenURI)
    );
}

#[test]
fn on_chain_image_is_stored_as_a_written_out_url() {
    assert_eq!(
        validate_nft_data(on_chain(Some("  HTTPS://Example.com "))),
        Ok(on_chain(Some("https://example.com/")))
    );
    assert_eq!(validate_nft_data(on_chain(None)), Ok(on_chain(None)));
    assert_eq!(
        validate_nft_data(on_chain(Some("a.png"))),
        Err(ContractError::Parse(ParseError::RelativeUrlWithoutBase))
    );
    assert_eq!(
        validate_nft_data(on_chain(Some("https://"))),
        Err(ContractError::Parse(ParseError::EmptyHost))
    );
    let bare = NftData {
        nft_data_type: NftMetadataType::OnChainMetadata,
        extension: None,
        token_uri: Some("kept as it is".to_string()),
    };
    assert_eq!(
        validate_nft_data(NftData {
            nft_data_type: NftMetadataType::OnChainMetadata,
            extension: None,
            token_uri: Some("kept as it is".to_string()),
        }),
        Ok(bare)
    );
}

#[test]
fn acknowledgment_binds_the_collection_it_names() {
    let mut state = unbound();
    let res = reply(&mut state, &env_at(START - 5), &instantiate_reply(1, "contract2")).unwrap();
    assert_eq!(state.sg721_address, Some("contract2".to_string()));
    assert_eq!(
        res.attributes,
        vec![
            attribute("action", AttrValue::Text("instantiate_sg721_reply")),
            attribute("sg721_address", AttrValue::Address("contract2".to_string())),
        ]
    );
    assert!(res.messages.is_empty());
    let report = query_config(&state).unwrap();
    assert_eq!(report.sg721_address, "contract2");
}

#[test]
fn acknowledgment_under_another_token_is_refused() {
    let mut state = unbound();
    assert_eq!(
        reply(&mut state, &env_at(START - 5), &instantiate_reply(2, "contract2")),
        Err(ContractError::InvalidReplyID)
    );
    assert_eq!(state.sg721_address, None);
    assert_eq!(bind_collection(&mut state, 0, Some("c".to_string())), Err(ContractError::InvalidReplyID));
}

#[test]
fn acknowledgment_without_an_address_binds_nothing() {
    let mut state = unbound();
    let failed = Reply { id: 1, result: Err("out of gas".to_string()) };
    assert_eq!(
        reply(&mut state, &env_at(START - 5), &failed),
        Err(ContractError::InstantiateSg721Error)
    );
    let empty = Reply { id: 1, result: Ok(SubMsgResponse { data: None }) };
    assert_eq!(
        reply(&mut state, &env_at(START - 5), &empty),
        Err(ContractError::InstantiateSg721Error)
    );
    let broken = Reply { id: 1, result: Ok(SubMsgResponse { data: Some(vec![0x0a, 0x09, b'c']) }) };
    assert_eq!(
        reply(&mut state, &env_at(START - 5), &broken),
        Err(ContractError::InstantiateSg721Error)
    );
    assert_eq!(state.sg721_address, None);
    assert_eq!(bind_collection(&mut state, 1, None), Err(ContractError::InstantiateSg721Error));
}

#[test]
fn collection_is_bound_once() {
    let mut state = bound();
    assert!(reply(&mut state, &env_at(START), &instantiate_reply(1, "collection")).is_ok());
    assert_eq!(state.sg721_address, Some("collection".to_string()));
    assert_eq!(
        reply(&mut state, &env_at(START), &instantiate_reply(1, "another")),
        Err(ContractError::InstantiateSg721Error)
    );
    assert_eq!(state.sg721_address, Some("collection".to_string()));
}

#[test]
fn price_can_change_freely_before_the_start() {
    let mut state = bound();
    let admin = info("creator", vec![]);
    let res =
        execute_update_mint_price(&mut state, &env_at(START - 1), &admin, 5_000, &factory()).unwrap();
    assert_eq!(state.config.mint_price, Token::Fungible(coin(5_000, DENOM)));
    assert_eq!(
        res.attributes,
        vec![
            attribute("action", AttrValue::Text("update_mint_price")),
            attribute("sender", AttrValue::Address("creator".to_string())),
            attribute("mint_price", AttrValue::Number(5_000)),
        ]
    );
}

#[test]
fn price_only_falls_once_the_sale_is_live() {
    let mut state = bound();
    let admin = info("creator", vec![]);
    assert_eq!(
        execute_update_mint_price(&mut state, &env_at(START), &admin, 1_001, &factory()),
        Err(ContractError::UpdatedMintPriceTooHigh { allowed: 1_000, updated: 1_001 })
    );
    assert!(execute_update_mint_price(&mut state, &env_at(START), &admin, 1_000, &factory()).is_ok());
    assert!(execute_update_mint_price(&mut state, &env_at(START + 1), &admin, 400, &factory()).is_ok());
    assert_eq!(state.config.mint_price, Token::Fungible(coin(400, DENOM)));
    assert_eq!(
        execute_update_mint_price(&mut state, &env_at(START + 2), &admin, 401, &factory()),
        Err(ContractError::UpdatedMintPriceTooHigh { allowed: 400, updated: 401 })
    );
    assert_eq!(
        execute_update_mint_price(&mut state, &env_at(START + 2), &admin, 99, &factory()),
        Err(ContractError::InsufficientMintPrice { expected: 100, got: 99 })
    );
    assert!(execute_update_mint_price(&mut state, &env_at(START + 2), &admin, 100, &factory()).is_ok());
    assert_eq!(
        execute_update_mint_price(&mut state, &env_at(END), &admin, 100, &factory()),
        Err(ContractError::AfterMintEndTime)
    );
    assert_eq!(state.config.mint_price, Token::Fungible(coin(100, DENOM)));
}

#[test]
fn price_change_is_the_administrators_and_free_of_funds() {
    let mut state = bound();
    assert_eq!(
        execute_update_mint_price(&mut state, &env_at(START - 1), &info("buyer", vec![]), 500, &factory()),
        Err(ContractError::Unauthorized(NOT_ADMIN))
    );
    assert_eq!(
        execute_update_mint_price(
            &mut state,
            &env_at(START - 1),
            &info("creator", vec![coin(1, DENOM)]),
            500,
            &factory()
        ),
        Err(ContractError::Payment(PaymentError::NonPayable))
    );
    assert_eq!(
        execute_update_mint_price(
            &mut state,
            &env_at(START - 1),
            &info("creator", vec![]),
            500,
            &Err("down".to_string())
        ),
        Err(ContractError::Std(StdFailure::Host("down".to_string())))
    );
    let mut odd = factory().unwrap();
    odd.params.min_mint_price = Token::NonFungible("punks".to_string());
    assert_eq!(
        execute_update_mint_price(&mut state, &env_at(START - 1), &info("creator", vec![]), 500, &Ok(odd)),
        Err(ContractError::Std(StdFailure::GenericErr {
            msg: "non-fungible tokens do not have amounts"
        }))
    );
    assert_eq!(state.config.mint_price, Token::Fungible(coin(1_000, DENOM)));
}

#[test]
fn start_moves_only_before_the_sale_and_within_the_window() {
    let mut state = bound();
    let admin = info("creator", vec![]);
    let now = START - 100;
    assert_eq!(
        execute_update_start_time(&mut state, &env_at(now), &admin, at(now - 1)),
        Err(ContractError::InvalidStartTime(at(now - 1), at(now)))
    );
    assert_eq!(
        execute_update_start_time(&mut state, &env_at(now), &admin, at(END + 1)),
        Err(ContractError::InvalidStartTime(at(END), at(END + 1)))
    );
    assert_eq!(
        execute_update_start_time(&mut state, &env_at(now), &info("buyer", vec![]), at(now)),
        Err(ContractError::Unauthorized(NOT_ADMIN))
    );
    assert_eq!(
        execute_update_start_time(&mut state, &env_at(now), &info("creator", vec![coin(1, DENOM)]), at(now)),
        Err(ContractError::Payment(PaymentError::NonPayable))
    );
    assert_eq!(state.config.extension.start_time, at(START));
    let res = execute_update_start_time(&mut state, &env_at(now), &admin, at(END)).unwrap();
    assert_eq!(state.config.extension.start_time, at(END));
    assert_eq!(res.attributes[2], attribute("start_time", AttrValue::Time(at(END))));
    assert!(execute_update_start_time(&mut state, &env_at(now), &admin, at(now)).is_ok());
    assert_eq!(state.config.extension.start_time, at(now));
    assert_eq!(
        execute_update_start_time(&mut state, &env_at(now), &admin, at(now + 5)),
        Err(ContractError::AlreadyStarted)
    );
}

#[test]
fn end_moves_only_before_it_has_come_and_not_before_the_start() {
    let mut state = bound();
    let admin = info("creator", vec![]);
    let now = START + 100;
    assert_eq!(
        execute_update_end_time(&mut state, &env_at(now), &admin, at(now - 1)),
        Err(ContractError::InvalidEndTime(at(now - 1), at(now)))
    );
    assert_eq!(
        execute_update_end_time(&mut state, &env_at(START - 50), &admin, at(START - 1)),
        Err(ContractError::InvalidEndTime(at(START - 1), at(START)))
    );
    assert_eq!(
        execute_update_end_time(&mut state, &env_at(now), &info("buyer", vec![]), at(END + 1)),
        Err(ContractError::Unauthorized(NOT_ADMIN))
    );
    assert_eq!(
        execute_update_end_time(&mut state, &env_at(now), &info("creator", vec![coin(1, DENOM)]), at(END + 1)),
        Err(ContractError::Payment(PaymentError::NonPayable))
    );
    let res = execute_update_end_time(&mut state, &env_at(now), &admin, at(END + 7)).unwrap();
    assert_eq!(state.config.extension.end_time, at(END + 7));
    assert_eq!(res.attributes[0], attribute("action", AttrValue::Text("update_end_time")));
    assert_eq!(res.attributes[2], attribute("end_time", AttrValue::Time(at(END + 7))));
    assert!(execute_update_end_time(&mut state, &env_at(START - 50), &admin, at(START)).is_ok());
    assert_eq!(
        execute_update_end_time(&mut state, &env_at(START), &admin, at(END)),
        Err(ContractError::AlreadyStarted)
    );
}

#[test]
fn start_of_trading_is_passed_on_to_the_collection() {
    let mut state = bound();
    let admin = info("creator", vec![]);
    let before = format!("{:?}", state);
    let wanted = Some(at(START + 5));
    let res =
        execute_update_start_trading_time(&mut state, &env_at(START - 1), &admin, wanted, &factory())
            .unwrap();
    assert_eq!(
        res.messages,
        vec![SubMsg {
            msg: CosmosMsg::Sg721UpdateStartTradingTime {
                contract_addr: "collection".to_string(),
                start_time: wanted
            },
            id: 0,
            reply_on: ReplyOn::Never
        }]
    );
    assert_eq!(
        res.attributes,
        vec![
            attribute("action", AttrValue::Text("update_start_trading_time")),
            attribute("sender", AttrValue::Address("creator".to_string())),
        ]
    );
    assert_eq!(format!("{:?}", state), before);
    let res = execute_update_start_trading_time(&mut state, &env_at(START - 1), &admin, None, &factory())
        .unwrap();
    assert!(matches!(
        res.messages[0].msg,
        CosmosMsg::Sg721UpdateStartTradingTime { start_time: None, .. }
    ));
}

#[test]
fn start_of_trading_is_neither_past_nor_beyond_the_offset() {
    let mut state = bound();
    let admin = info("creator", vec![]);
    let latest = at(START + OFFSET_SECS * 1_000_000_000);
    assert_eq!(
        execute_update_start_trading_time(&mut state, &env_at(START), &admin, Some(at(START - 1)), &factory()),
        Err(ContractError::InvalidStartTradingTime(at(START), at(START - 1)))
    );
    assert_eq!(
        execute_update_start_trading_time(
            &mut state,
            &env_at(START),
            &admin,
            Some(at(latest.nanos() + 1)),
            &factory()
        ),
        Err(ContractError::InvalidStartTradingTime(at(latest.nanos() + 1), latest))
    );
    assert!(execute_update_start_trading_time(&mut state, &env_at(START), &admin, Some(latest), &factory())
        .is_ok());
    assert_eq!(
        execute_update_start_trading_time(&mut state, &env_at(START), &info("buyer", vec![]), None, &factory()),
        Err(ContractError::Unauthorized(NOT_ADMIN))
    );
    assert_eq!(
        execute_update_start_trading_time(
            &mut state,
            &env_at(START),
            &info("creator", vec![coin(1, DENOM)]),
            None,
            &factory()
        ),
        Err(ContractError::Payment(PaymentError::NonPayable))
    );
    assert_eq!(
        execute_update_start_trading_time(&mut state, &env_at(START), &admin, None, &Err("down".to_string())),
        Err(ContractError::Std(StdFailure::Host("down".to_string())))
    );
    let mut early = unbound();
    assert_eq!(
        execute_update_start_trading_time(&mut early, &env_at(START), &admin, None, &factory()),
        Err(ContractError::Std(StdFailure::NotFound { kind: "sg721_address" }))
    );
}

#[test]
fn cap_stays_between_one_and_the_factorys_maximum() {
    let mut state = bound();
    let admin = info("creator", vec![]);
    for got in [0u32, 11] {
        assert_eq!(
            execute_update_per_address_limit(&mut state, &env_at(START), &admin, got, &factory()),
            Err(ContractError::InvalidPerAddressLimit { max: 10, min: 1, got })
        );
    }
    assert_eq!(state.config.extension.per_address_limit, 3);
    assert!(execute_update_per_address_limit(&mut state, &env_at(START), &admin, 1, &factory()).is_ok());
    assert_eq!(state.config.extension.per_address_limit, 1);
    let res =
        execute_update_per_address_limit(&mut state, &env_at(START), &admin, 10, &factory()).unwrap();
    assert_eq!(state.config.extension.per_address_limit, 10);
    assert_eq!(
        res.attributes,
        vec![
            attribute("action", AttrValue::Text("update_per_address_limit")),
            attribute("sender", AttrValue::Address("creator".to_string())),
            attribute("limit", AttrValue::Number(10)),
        ]
    );
    assert_eq!(
        execute_update_per_address_limit(&mut state, &env_at(START), &info("buyer", vec![]), 2, &factory()),
        Err(ContractError::Unauthorized(NOT_ADMIN))
    );
    assert_eq!(
        execute_update_per_address_limit(
            &mut state,
            &env_at(START),
            &info("creator", vec![coin(1, DENOM)]),
            2,
            &factory()
        ),
        Err(ContractError::Payment(PaymentError::NonPayable))
    );
    assert_eq!(
        execute_update_per_address_limit(&mut state, &env_at(START), &admin, 2, &Err("down".to_string())),
        Err(ContractError::Std(StdFailure::Host("down".to_string())))
    );
}

#[test]
fn updates_are_dispatched_by_kind() {
    let mut state = bound();
    let admin = info("creator", vec![]);
    let env = env_at(START - 100);
    execute(&mut state, &env, &admin, ExecuteMsg::UpdateMintPrice { price: 700 }, &factory()).unwrap();
    execute(&mut state, &env, &admin, ExecuteMsg::UpdateStartTime(at(START + 1)), &factory()).unwrap();
    execute(&mut state, &env, &admin, ExecuteMsg::UpdateEndTime(at(END + 1)), &factory()).unwrap();
    execute(&mut state, &env, &admin, ExecuteMsg::UpdatePerAddressLimit { per_address_limit: 9 }, &factory())
        .unwrap();
    let res =
        execute(&mut state, &env, &admin, ExecuteMsg::UpdateStartTradingTime(None), &factory()).unwrap();
    assert_eq!(res.messages.len(), 1);
    assert_eq!(state.config.mint_price, Token::Fungible(coin(700, DENOM)));
    assert_eq!(state.config.extension.start_time, at(START + 1));
    assert_eq!(state.config.extension.end_time, at(END + 1));
    assert_eq!(state.config.extension.per_address_limit, 9);
}

#[test]
fn governance_overwrites_all_three_flags() {
    let mut state = bound();
    let res = sudo(
        &mut state,
        &env_at(START),
        SudoMsg::UpdateStatus { is_verified: true, is_blocked: false, is_explicit: true },
    )
    .unwrap();
    assert_eq!(state.status, Status { is_verified: true, is_blocked: false, is_explicit: true });
    assert_eq!(res.attributes, vec![attribute("action", AttrValue::Text("sudo_update_status"))]);
    assert!(update_status(&mut state, false, true, false).is_ok());
    assert_eq!(state.status, Status { is_verified: false, is_blocked: true, is_explicit: false });
    assert_eq!(
        query(&state, QueryMsg::Status, &factory()),
        Ok(QueryResponse::Status(StatusResponse {
            status: Status { is_verified: false, is_blocked: true, is_explicit: false }
        }))
    );
}

#[test]
fn queries_report_the_state() {
    let mut state = bound();
    execute(
        &mut state,
        &env_at(START + 1),
        &info("buyer", vec![coin(1_000, DENOM)]),
        ExecuteMsg::Mint,
        &factory(),
    )
    .unwrap();
    let before = format!("{:?}", state);
    assert_eq!(
        query(&state, QueryMsg::Config, &factory()),
        Ok(QueryResponse::Config(ConfigResponse {
            admin: "creator".to_string(),
            nft_data: off_chain(Some("ipfs://bafy/edition")),
            payment_address: Some("treasury".to_string()),
            per_address_limit: 3,
            end_time: at(END),
            sg721_address: "collection".to_string(),
            sg721_code_id: 7,
            start_time: at(START),
            mint_price: coin(1_000, DENOM),
            factory: "factory".to_string(),
        }))
    );
    assert_eq!(
        query(&state, QueryMsg::StartTime, &factory()),
        Ok(QueryResponse::StartTime(StartTimeResponse { start_time: at(START) }))
    );
    assert_eq!(
        query(&state, QueryMsg::EndTime, &factory()),
        Ok(QueryResponse::EndTime(EndTimeResponse { end_time: at(END) }))
    );
    assert_eq!(
        query(&state, QueryMsg::MintPrice, &factory()),
        Ok(QueryResponse::MintPrice(MintPriceResponse {
            public_price: coin(1_000, DENOM),
            airdrop_price: coin(200, DENOM),
            current_price: coin(1_000, DENOM),
        }))
    );
    assert_eq!(
        query(&state, QueryMsg::MintCount { address: "buyer".to_string() }, &factory()),
        Ok(QueryResponse::MintCount(MintCountResponse { address: "buyer".to_string(), count: 1 }))
    );
    assert_eq!(
        query(&state, QueryMsg::MintCount { address: "nobody".to_string() }, &factory()),
        Ok(QueryResponse::MintCount(MintCountResponse { address: "nobody".to_string(), count: 0 }))
    );
    assert_eq!(
        query(&state, QueryMsg::TotalMintCount, &factory()),
        Ok(QueryResponse::TotalMintCount(TotalMintCountResponse { count: 1 }))
    );
    assert_eq!(format!("{:?}", state), before);
}

#[test]
fn queries_fail_where_there_is_nothing_to_report() {
    let early = unbound();
    assert_eq!(query_config(&early), Err(StdFailure::NotFound { kind: "sg721_address" }));
    assert_eq!(
        query_mint_price(&early, &Err("down".to_string())),
        Err(StdFailure::Host("down".to_string()))
    );
    let mut odd = bound();
    odd.config.mint_price = Token::NonFungible("punks".to_string());
    let no_amount = StdFailure::GenericErr { msg: "non-fungible tokens do not have amounts" };
    assert_eq!(query_config(&odd), Err(StdFailure::GenericErr { msg: "non-fungible tokens do not have amounts" }));
    assert_eq!(query_mint_price(&odd, &factory()), Err(no_amount));
    assert_eq!(
        odd.config.mint_price.denom(),
        Err(StdFailure::GenericErr { msg: "non-fungible tokens do not have a denom" })
    );
}

#[test]
fn migration_goes_forward_only() {
    let mut state = bound();
    assert_eq!(migrate(&mut state, &env_at(START)).map(|r| r.messages.len()), Ok(0));
    assert_eq!(state.contract_version.version, CONTRACT_VERSION);

    state.contract_version.version = "0.0.9".to_string();
    assert!(migrate(&mut state, &env_at(START)).is_ok());
    assert_eq!(state.contract_version.version, CONTRACT_VERSION);
    assert_eq!(state.contract_version.contract, CONTRACT_NAME);

    state.contract_version.version = "99.0.0".to_string();
    assert_eq!(
        migrate(&mut state, &env_at(START)),
        Err(ContractError::Std(StdFailure::GenericErr {
            msg: "Cannot upgrade to a previous contract version"
        }))
    );
    assert_eq!(state.contract_version.version, "99.0.0");

    state.contract_version.version = "one".to_string();
    assert_eq!(
        migrate(&mut state, &env_at(START)),
        Err(ContractError::Std(StdFailure::GenericErr { msg: "Invalid contract version" }))
    );

    state.contract_version.version = "0.0.1".to_string();
    state.contract_version.contract = "crates.io:another".to_string();
    assert_eq!(
        migrate(&mut state, &env_at(START)),
        Err(ContractError::Std(StdFailure::GenericErr {
            msg: "Cannot upgrade to a different contract"
        }))
    );
    assert_eq!(state.contract_version.version, "0.0.1");
}

#[test]
fn malformed_states_are_told_apart() {
    let mut state = bound();
    assert!(state.check());
    state.token_index = 5;
    assert!(!state.check());
    state.token_index = 1;
    state.minter_addrs.set(&"a".to_string(), 1);
    assert!(!state.check());
    state.total_mint_count = 1;
    state.token_index = 2;
    assert!(state.check());
    state.minter_addrs.entries.push(open_edition_minter::counts::MintEntry {
        address: "a".to_string(),
        count: 0,
    });
    assert!(!state.check());
}

#[test]
fn counts_are_kept_by_address() {
    let mut counts = MintCounts::new();
    assert_eq!(counts.get(&"a".to_string()), 0);
    counts.set(&"a".to_string(), 2);
    counts.set(&"b".to_string(), 5);
    counts.set(&"a".to_string(), 3);
    assert_eq!(counts.get(&"a".to_string()), 3);
    assert_eq!(counts.get(&"b".to_string()), 5);
    assert_eq!(counts.find(&"b".to_string()), Some(1));
    assert_eq!(counts.find(&"c".to_string()), None);
    assert_eq!(counts.entries.len(), 2);
    counts.clear();
    assert_eq!(counts.get(&"a".to_string()), 0);
    assert_eq!(counts, MintCounts::new());
}

#[test]
fn offsets_are_in_range_up_to_the_end_of_the_clock() {
    assert!(offset_in_range(at(0), 18_446_744_073));
    assert!(!offset_in_range(at(0), 18_446_744_074));
    assert!(offset_in_range(at(u64::MAX), 0));
    assert!(!offset_in_range(at(u64::MAX), 1));
    assert!(offset_in_range(at(u64::MAX - 1_000_000_000), 1));
    assert!(is_instantiate_in_range(&create_msg(off_chain(None), None), &factory()));
    assert!(is_instantiate_in_range(&create_msg(off_chain(None), None), &Err("x".to_string())));
    let mut far = factory().unwrap();
    far.params.max_trading_offset_secs = u64::MAX;
    let far: FactoryAnswer = Ok(far);
    assert!(!is_instantiate_in_range(&create_msg(off_chain(None), None), &far));
    let state = bound();
    let admin = info("creator", vec![]);
    let msg = ExecuteMsg::UpdateStartTradingTime(None);
    assert!(is_execute_in_range(&state, &admin, &msg, &factory()));
    assert!(!is_execute_in_range(&state, &admin, &msg, &far));
    // whoever is refused before the offset is looked at is in range
    assert!(is_execute_in_range(&state, &info("buyer", vec![]), &msg, &far));
    assert!(is_execute_in_range(&unbound(), &admin, &msg, &far));
}
