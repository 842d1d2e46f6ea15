//! The creation of the controller: the check of the metadata template, the
//! start of trading, the first state and the request for the collection.

use crate::contract::{
    attr, Expected, FactoryAnswer, CONTRACT_NAME, CONTRACT_VERSION, INSTANTIATE_SG721_REPLY_ID,
    NANOS_PER_SECOND,
};
use crate::counts::MintCounts;
use crate::error::{ContractError, StdFailure};
use crate::msg::{ContractVersion, OpenEditionMinterCreateMsg};
use crate::outside::{parse_url, plus_seconds, trim, trimmed, url_parse};
use crate::response::{
    AttrValue, CosmosMsg, CosmosMsgView, ReplyOn, Response, ResponseView, SubMsg, SubMsgView,
};
use crate::state::{MinterState, StateView, FIRST_TOKEN_ID};
use crate::types::{
    addresses_of, CollectionInfo, Config, ConfigExtension, ConfigView, Env, MessageInfo, Metadata,
    MetadataView, NftData, NftDataView, NftMetadataType, Status, Timestamp, Token,
};
use vstd::prelude::*;
use vstd::string::StringExecFns;

verus! {

/// The metadata template as it is stored, or the reason why it is refused.
/// An off-chain template needs a locator that, trimmed, is a URL of scheme
/// `ipfs`, and is stored trimmed. The image of an on-chain template, if it has
/// one, must be a URL once trimmed, and is stored as that URL written out.
pub open spec fn validated_nft_data(data: NftDataView) -> Result<NftDataView, ContractError> {
    match data.nft_data_type {
        NftMetadataType::OffChainMetadata => match data.token_uri {
            None => Err(ContractError::InvalidBaseTokenURI),
            Some(uri) => match url_parse(trimmed(uri)) {
                Err(e) => Err(ContractError::Parse(e)),
                Ok((scheme, _)) => if scheme == "ipfs"@ {
                    Ok(NftDataView { token_uri: Some(trimmed(uri)), ..data })
                } else {
                    Err(ContractError::InvalidBaseTokenURI)
                },
            },
        },
        NftMetadataType::OnChainMetadata => match data.extension {
            None => Ok(data),
            Some(ext) => match ext.image {
                None => Ok(data),
                Some(image) => match url_parse(trimmed(image)) {
                    Err(e) => Err(ContractError::Parse(e)),
                    Ok((_, text)) => Ok(
                        NftDataView {
                            extension: Some(MetadataView { image: Some(text), ..ext }),
                            ..data
                        },
                    ),
                },
            },
        },
    }
}

/// Checks the metadata template and brings its locators into stored form.
pub fn validate_nft_data(data: NftData) -> (checked: Result<NftData, ContractError>)
    ensures
        match validated_nft_data(data@) {
            Ok(v) => checked matches Ok(d) && d@ == v,
            Err(e) => checked == Err::<NftData, ContractError>(e),
        },
{
    let NftData { nft_data_type, extension, token_uri } = data;
    match nft_data_type {
        NftMetadataType::OffChainMetadata => match token_uri {
            None => Err(ContractError::InvalidBaseTokenURI),
            Some(uri) => {
                let base = trim(uri.as_str());
                match parse_url(base.as_str()) {
                    Err(e) => Err(ContractError::Parse(e)),
                    Ok(url) => {
                        let wanted = "ipfs".to_owned();
                        if url.scheme == wanted {
                            Ok(NftData { nft_data_type, extension, token_uri: Some(base) })
                        } else {
                            Err(ContractError::InvalidBaseTokenURI)
                        }
                    },
                }
            },
        },
        NftMetadataType::OnChainMetadata => match extension {
            None => Ok(NftData { nft_data_type, extension: None, token_uri }),
            Some(ext) => {
                let Metadata {
                    image,
                    image_data,
                    external_url,
                    description,
                    name,
                    attributes,
                    background_color,
                    animation_url,
                    youtube_url,
                } = ext;
                let image = match image {
                    None => None,
                    Some(text) => {
                        let base = trim(text.as_str());
                        match parse_url(base.as_str()) {
                            Err(e) => {
                                return Err(ContractError::Parse(e));
                            },
                            Ok(url) => Some(url.text),
                        }
                    },
                };
                Ok(
                    NftData {
                        nft_data_type,
                        extension: Some(
                            Metadata {
                                image,
                                image_data,
                                external_url,
                                description,
                                name,
                                attributes,
                                background_color,
                                animation_url,
                                youtube_url,
                            },
                        ),
                        token_uri,
                    },
                )
            },
        },
    }
}

/// The latest time at which trading may start: the start of the sale plus the
/// offset that the factory allows.
pub open spec fn latest_trading_start(start_time: Timestamp, offset_secs: u64) -> int {
    start_time.nanos + offset_secs * NANOS_PER_SECOND
}

/// The state that a creation request leaves, given the metadata template in
/// stored form.
pub open spec fn created_state(
    info: MessageInfo,
    msg: OpenEditionMinterCreateMsg,
    nft_data: NftDataView,
) -> StateView {
    StateView {
        contract: CONTRACT_NAME@,
        version: CONTRACT_VERSION@,
        config: ConfigView {
            factory: info.sender,
            collection_code_id: msg.collection_params.code_id,
            admin: msg.collection_params.info.creator,
            payment_address: msg.init_msg.payment_address,
            nft_data,
            start_time: msg.init_msg.start_time,
            end_time: msg.init_msg.end_time,
            per_address_limit: msg.init_msg.per_address_limit,
            mint_price: Token::Fungible(msg.init_msg.mint_price),
            allowed_burn_collections: addresses_of(msg.allowed_burn_collections),
        },
        status: Status { is_verified: false, is_blocked: false, is_explicit: false },
        total_mint_count: 0,
        token_index: FIRST_TOKEN_ID,
        sg721_address: None,
        minter_addrs: Map::empty(),
    }
}

/// The response to a creation request: the request to create the collection,
/// sent under the token whose acknowledgment binds the collection, with the
/// time at which trading starts.
pub open spec fn created_response(
    env: Env,
    info: MessageInfo,
    msg: OpenEditionMinterCreateMsg,
    start_trading_time: Timestamp,
) -> ResponseView {
    ResponseView {
        messages: seq![
            SubMsgView {
                msg: CosmosMsgView::InstantiateSg721 {
                    code_id: msg.collection_params.code_id,
                    name: msg.collection_params.name,
                    symbol: msg.collection_params.symbol,
                    minter: env.contract.address,
                    collection_info: CollectionInfo {
                        start_trading_time: Some(start_trading_time),
                        ..msg.collection_params.info
                    },
                    funds: info.funds@,
                    admin: msg.collection_params.info.creator,
                    label: "SG721-"@ + trimmed(msg.collection_params.name@),
                },
                id: INSTANTIATE_SG721_REPLY_ID,
                reply_on: ReplyOn::Success,
            },
        ],
        attributes: seq![
            attr("action", AttrValue::Text("instantiate")),
            attr("contract_name", AttrValue::Text(CONTRACT_NAME)),
            attr("contract_version", AttrValue::Text(CONTRACT_VERSION)),
            attr("sender", AttrValue::Address(info.sender)),
        ],
    }
}

/// What a creation request is owed. It fails with the host's error where the
/// factory did not answer, with the template's fault where the metadata
/// template is refused, and with `InvalidStartTradingTime` where the requested
/// start of trading is later than the factory allows.
pub open spec fn instantiate_spec(
    env: Env,
    info: MessageInfo,
    msg: OpenEditionMinterCreateMsg,
    factory: FactoryAnswer,
) -> Expected {
    match factory {
        Err(e) => Err(ContractError::Std(StdFailure::Host(e))),
        Ok(answer) => match validated_nft_data(msg.init_msg.nft_data@) {
            Err(e) => Err(e),
            Ok(nft_data) => {
                let latest = Timestamp {
                    nanos: latest_trading_start(
                        msg.init_msg.start_time,
                        answer.params.max_trading_offset_secs,
                    ) as u64,
                };
                match msg.collection_params.info.start_trading_time {
                    Some(t) => if t.nanos > latest.nanos {
                        Err(ContractError::InvalidStartTradingTime(t, latest))
                    } else {
                        Ok(
                            (
                                created_state(info, msg, nft_data),
                                created_response(env, info, msg, t),
                            ),
                        )
                    },
                    None => Ok(
                        (
                            created_state(info, msg, nft_data),
                            created_response(env, info, msg, latest),
                        ),
                    ),
                }
            },
        },
    }
}

/// Whether the latest start of trading of a creation request can be held in
/// 64 bits.
pub open spec fn instantiate_in_range(
    msg: OpenEditionMinterCreateMsg,
    factory: FactoryAnswer,
) -> bool {
    match factory {
        Ok(answer) => latest_trading_start(
            msg.init_msg.start_time,
            answer.params.max_trading_offset_secs,
        ) <= u64::MAX,
        Err(_) => true,
    }
}

/// Whether the start of a sale plus an offset in seconds can be held in 64
/// bits.
pub fn offset_in_range(start_time: Timestamp, offset_secs: u64) -> (fits: bool)
    ensures
        fits == (latest_trading_start(start_time, offset_secs) <= u64::MAX),
{
    match offset_secs.checked_mul(NANOS_PER_SECOND) {
        None => false,
        Some(nanos) => start_time.nanos.checked_add(nanos).is_some(),
    }
}

/// Whether a creation request stays within what the machine can hold.
pub fn is_instantiate_in_range(msg: &OpenEditionMinterCreateMsg, factory: &FactoryAnswer) -> (fits:
    bool)
    ensures
        fits == instantiate_in_range(*msg, *factory),
{
    match factory {
        Ok(answer) => offset_in_range(
            msg.init_msg.start_time,
            answer.params.max_trading_offset_secs,
        ),
        Err(_) => true,
    }
}

/// Creates the controller for a sale. The sender is the factory; `factory` is
/// what it answered when the host asked it for its parameters. The creator and
/// the payment address in the request are addresses that the host has checked.
pub fn instantiate(
    env: &Env,
    info: MessageInfo,
    msg: OpenEditionMinterCreateMsg,
    factory: &FactoryAnswer,
) -> (created: Result<(MinterState, Response), ContractError>)
    requires
        instantiate_in_range(msg, *factory),
    ensures
        match instantiate_spec(*env, info, msg, *factory) {
            Ok((state, response)) => {
                &&& created matches Ok((s, r))
                &&& s@ == state
                &&& r@ == response
                &&& s.wf()
            },
            Err(e) => created == Err::<(MinterState, Response), ContractError>(e),
        },
{
    let params = match factory {
        Err(e) => {
            return Err(ContractError::Std(StdFailure::Host(e.clone())));
        },
        Ok(answer) => &answer.params,
    };
    let OpenEditionMinterCreateMsg { init_msg, collection_params, allowed_burn_collections } = msg;
    let nft_data = match validate_nft_data(init_msg.nft_data) {
        Err(e) => {
            return Err(e);
        },
        Ok(d) => d,
    };
    let latest = Timestamp {
        nanos: plus_seconds(init_msg.start_time.nanos, params.max_trading_offset_secs),
    };
    let start_trading_time = match collection_params.info.start_trading_time {
        Some(t) => {
            if t.nanos > latest.nanos {
                return Err(ContractError::InvalidStartTradingTime(t, latest));
            }
            t
        },
        None => latest,
    };
    let admin = collection_params.info.creator.clone();
    let name = trim(collection_params.name.as_str());
    let label = "SG721-".to_owned().concat(name.as_str());
    let config = Config {
        factory: info.sender.clone(),
        collection_code_id: collection_params.code_id,
        extension: ConfigExtension {
            admin: admin.clone(),
            payment_address: init_msg.payment_address,
            nft_data,
            start_time: init_msg.start_time,
            end_time: init_msg.end_time,
            per_address_limit: init_msg.per_address_limit,
        },
        mint_price: Token::Fungible(init_msg.mint_price),
        allowed_burn_collections,
    };
    let state = MinterState {
        contract_version: ContractVersion {
            contract: CONTRACT_NAME.to_owned(),
            version: CONTRACT_VERSION.to_owned(),
        },
        config,
        status: Status::default(),
        total_mint_count: 0,
        token_index: FIRST_TOKEN_ID,
        sg721_address: None,
        minter_addrs: MintCounts::new(),
    };
    let submsg = SubMsg {
        msg: CosmosMsg::InstantiateSg721 {
            code_id: collection_params.code_id,
            name: collection_params.name,
            symbol: collection_params.symbol,
            minter: env.contract.address.clone(),
            collection_info: CollectionInfo {
                creator: collection_params.info.creator,
                description: collection_params.info.description,
                image: collection_params.info.image,
                external_link: collection_params.info.external_link,
                explicit_content: collection_params.info.explicit_content,
                start_trading_time: Some(start_trading_time),
                royalty_info: collection_params.info.royalty_info,
            },
            funds: info.funds,
            admin,
            label,
        },
        id: INSTANTIATE_SG721_REPLY_ID,
        reply_on: ReplyOn::Success,
    };
    let response = Response::new()
        .add_attribute("action", AttrValue::Text("instantiate"))
        .add_attribute("contract_name", AttrValue::Text(CONTRACT_NAME))
        .add_attribute("contract_version", AttrValue::Text(CONTRACT_VERSION))
        .add_attribute("sender", AttrValue::Address(info.sender))
        .add_submessage(submsg);
    proof {
        let owed = created_response(*env, info, msg, start_trading_time);
        assert(response@.messages =~= owed.messages);
        assert(response@.attributes =~= owed.attributes);
    }
    Ok((state, response))
}

} // verus!
