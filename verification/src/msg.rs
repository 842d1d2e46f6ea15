//! The requests the controller takes and the answers to its queries.

use crate::types::{Coin, CollectionParams, NftData, NftDataView, Status, Timestamp};
use vstd::prelude::*;

verus! {

/// What an open edition is created with.
#[derive(Debug, PartialEq, Eq)]
pub struct OpenEditionMinterInitMsgExtension {
    pub nft_data: NftData,
    pub start_time: Timestamp,
    pub end_time: Timestamp,
    pub mint_price: Coin,
    pub per_address_limit: u32,
    pub payment_address: Option<String>,
}

/// The request that creates the controller.
#[derive(Debug, PartialEq, Eq)]
pub struct OpenEditionMinterCreateMsg {
    pub init_msg: OpenEditionMinterInitMsgExtension,
    pub collection_params: CollectionParams,
    pub allowed_burn_collections: Option<Vec<String>>,
}

/// The notice a collection sends with an item that was handed to the
/// controller.
#[derive(Debug, PartialEq, Eq)]
pub struct Cw721ReceiveMsg {
    pub sender: String,
    pub token_id: String,
    pub msg: Vec<u8>,
}

/// A request that changes the sale.
#[derive(Debug, PartialEq, Eq)]
pub enum ExecuteMsg {
    Mint,
    Purge,
    UpdateMintPrice { price: u128 },
    UpdateStartTime(Timestamp),
    UpdateEndTime(Timestamp),
    UpdateStartTradingTime(Option<Timestamp>),
    UpdatePerAddressLimit { per_address_limit: u32 },
    MintTo { recipient: String },
    ReceiveNft(Cw721ReceiveMsg),
}

/// A request that only the chain's governance can make.
#[derive(Clone, Copy, Debug, PartialEq, Eq, Structural)]
pub enum SudoMsg {
    UpdateStatus { is_verified: bool, is_blocked: bool, is_explicit: bool },
}

/// A question about the sale.
#[derive(Debug, PartialEq, Eq)]
pub enum QueryMsg {
    Config,
    Status,
    StartTime,
    EndTime,
    MintPrice,
    MintCount { address: String },
    TotalMintCount,
}

/// What a sub-message returned where it succeeded.
#[derive(Debug, PartialEq, Eq)]
pub struct SubMsgResponse {
    pub data: Option<Vec<u8>>,
}

/// The acknowledgment of a sub-message: the token it was sent under, and what
/// it returned or the words it failed with.
#[derive(Debug, PartialEq, Eq)]
pub struct Reply {
    pub id: u64,
    pub result: Result<SubMsgResponse, String>,
}

/// The name and version a contract's state was written by.
#[derive(Debug, PartialEq, Eq)]
pub struct ContractVersion {
    pub contract: String,
    pub version: String,
}

/// The answer to [`QueryMsg::Config`].
#[derive(Debug, PartialEq, Eq)]
pub struct ConfigResponse {
    pub admin: String,
    pub nft_data: NftData,
    pub payment_address: Option<String>,
    pub per_address_limit: u32,
    pub end_time: Timestamp,
    pub sg721_address: String,
    pub sg721_code_id: u64,
    pub start_time: Timestamp,
    pub mint_price: Coin,
    pub factory: String,
}

/// What a [`ConfigResponse`] holds.
pub struct ConfigResponseView {
    pub admin: String,
    pub nft_data: NftDataView,
    pub payment_address: Option<String>,
    pub per_address_limit: u32,
    pub end_time: Timestamp,
    pub sg721_address: String,
    pub sg721_code_id: u64,
    pub start_time: Timestamp,
    pub mint_price: Coin,
    pub factory: String,
}

impl View for ConfigResponse {
    type V = ConfigResponseView;

    open spec fn view(&self) -> ConfigResponseView {
        ConfigResponseView {
            admin: self.admin,
            nft_data: self.nft_data@,
            payment_address: self.payment_address,
            per_address_limit: self.per_address_limit,
            end_time: self.end_time,
            sg721_address: self.sg721_address,
            sg721_code_id: self.sg721_code_id,
            start_time: self.start_time,
            mint_price: self.mint_price,
            factory: self.factory,
        }
    }
}

/// The answer to [`QueryMsg::Status`].
#[derive(Clone, Copy, Debug, PartialEq, Eq, Structural)]
pub struct StatusResponse {
    pub status: Status,
}

/// The answer to [`QueryMsg::StartTime`].
#[derive(Clone, Copy, Debug, PartialEq, Eq, Structural)]
pub struct StartTimeResponse {
    pub start_time: Timestamp,
}

/// The answer to [`QueryMsg::EndTime`].
#[derive(Clone, Copy, Debug, PartialEq, Eq, Structural)]
pub struct EndTimeResponse {
    pub end_time: Timestamp,
}

/// The answer to [`QueryMsg::MintPrice`].
#[derive(Debug, PartialEq, Eq)]
pub struct MintPriceResponse {
    pub public_price: Coin,
    pub airdrop_price: Coin,
    pub current_price: Coin,
}

/// The answer to [`QueryMsg::MintCount`].
#[derive(Debug, PartialEq, Eq)]
pub struct MintCountResponse {
    pub address: String,
    pub count: u32,
}

/// The answer to [`QueryMsg::TotalMintCount`].
#[derive(Clone, Copy, Debug, PartialEq, Eq, Structural)]
pub struct TotalMintCountResponse {
    pub count: u32,
}

/// The answer to a [`QueryMsg`], one variant for each question.
#[derive(Debug, PartialEq, Eq)]
pub enum QueryResponse {
    Config(ConfigResponse),
    Status(StatusResponse),
    StartTime(StartTimeResponse),
    EndTime(EndTimeResponse),
    MintPrice(MintPriceResponse),
    MintCount(MintCountResponse),
    TotalMintCount(TotalMintCountResponse),
}

/// What a [`QueryResponse`] holds.
pub enum QueryResponseView {
    Config(ConfigResponseView),
    Status(StatusResponse),
    StartTime(StartTimeResponse),
    EndTime(EndTimeResponse),
    MintPrice(MintPriceResponse),
    MintCount(MintCountResponse),
    TotalMintCount(TotalMintCountResponse),
}

impl View for QueryResponse {
    type V = QueryResponseView;

    open spec fn view(&self) -> QueryResponseView {
        match *self {
            QueryResponse::Config(r) => QueryResponseView::Config(r@),
            QueryResponse::Status(r) => QueryResponseView::Status(r),
            QueryResponse::StartTime(r) => QueryResponseView::StartTime(r),
            QueryResponse::EndTime(r) => QueryResponseView::EndTime(r),
            QueryResponse::MintPrice(r) => QueryResponseView::MintPrice(r),
            QueryResponse::MintCount(r) => QueryResponseView::MintCount(r),
            QueryResponse::TotalMintCount(r) => QueryResponseView::TotalMintCount(r),
        }
    }
}

} // verus!
