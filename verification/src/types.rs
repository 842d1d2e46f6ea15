//! Plain data the controller works on: time, money, metadata, configuration.

use crate::error::StdFailure;
use vstd::prelude::*;

verus! {

/// A point in time, in nanoseconds since the epoch.
#[derive(Clone, Copy, Debug, PartialEq, Eq, PartialOrd, Ord, Hash, Structural)]
pub struct Timestamp {
    pub nanos: u64,
}

impl Timestamp {
    /// The point in time that many nanoseconds after the epoch.
    pub fn from_nanos(nanos: u64) -> (t: Timestamp)
        ensures
            t.nanos == nanos,
    {
        Timestamp { nanos }
    }

    /// The nanoseconds since the epoch.
    pub fn nanos(&self) -> (n: u64)
        ensures
            n == self.nanos,
    {
        self.nanos
    }
}

/// An amount of one denomination.
#[derive(Debug, PartialEq, Eq)]
pub struct Coin {
    pub denom: String,
    pub amount: u128,
}

impl Clone for Coin {
    fn clone(&self) -> (c: Self)
        ensures
            c == *self,
    {
        Coin { denom: self.denom.clone(), amount: self.amount }
    }
}

/// Builds a coin from an amount and a denomination.
pub fn coin(amount: u128, denom: &String) -> (c: Coin)
    ensures
        c == (Coin { denom: *denom, amount }),
{
    Coin { denom: denom.clone(), amount }
}

/// A fixed-point number with 18 fractional digits, held as its atomic units.
#[derive(Clone, Copy, Debug, PartialEq, Eq, Structural)]
pub struct Decimal {
    pub atomics: u128,
}

/// One attribute of an item's on-chain metadata.
#[derive(Debug, PartialEq, Eq)]
pub struct Trait {
    pub display_type: Option<String>,
    pub trait_type: String,
    pub value: String,
}

impl Clone for Trait {
    fn clone(&self) -> (t: Self)
        ensures
            t == *self,
    {
        Trait {
            display_type: self.display_type.clone(),
            trait_type: self.trait_type.clone(),
            value: self.value.clone(),
        }
    }
}

/// The view of an optional string: its characters.
pub open spec fn text_of(s: Option<String>) -> Option<Seq<char>> {
    match s {
        Some(t) => Some(t@),
        None => None,
    }
}

/// Metadata stored on chain with every item of the edition.
#[derive(Debug, PartialEq, Eq)]
pub struct Metadata {
    pub image: Option<String>,
    pub image_data: Option<String>,
    pub external_url: Option<String>,
    pub description: Option<String>,
    pub name: Option<String>,
    pub attributes: Option<Vec<Trait>>,
    pub background_color: Option<String>,
    pub animation_url: Option<String>,
    pub youtube_url: Option<String>,
}

/// What a [`Metadata`] holds: the image by its characters, the attributes as a
/// sequence.
pub struct MetadataView {
    pub image: Option<Seq<char>>,
    pub image_data: Option<String>,
    pub external_url: Option<String>,
    pub description: Option<String>,
    pub name: Option<String>,
    pub attributes: Option<Seq<Trait>>,
    pub background_color: Option<String>,
    pub animation_url: Option<String>,
    pub youtube_url: Option<String>,
}

impl View for Metadata {
    type V = MetadataView;

    open spec fn view(&self) -> MetadataView {
        MetadataView {
            image: text_of(self.image),
            image_data: self.image_data,
            external_url: self.external_url,
            description: self.description,
            name: self.name,
            attributes: match self.attributes {
                Some(a) => Some(a@),
                None => None,
            },
            background_color: self.background_color,
            animation_url: self.animation_url,
            youtube_url: self.youtube_url,
        }
    }
}

impl Clone for Metadata {
    fn clone(&self) -> (m: Self)
        ensures
            m@ == self@,
    {
        let attributes = match &self.attributes {
            Some(a) => {
                let b = a.clone();
                assert(b@ =~= a@);
                Some(b)
            },
            None => None,
        };
        Metadata {
            image: self.image.clone(),
            image_data: self.image_data.clone(),
            external_url: self.external_url.clone(),
            description: self.description.clone(),
            name: self.name.clone(),
            attributes,
            background_color: self.background_color.clone(),
            animation_url: self.animation_url.clone(),
            youtube_url: self.youtube_url.clone(),
        }
    }
}

/// Where an item's metadata lives.
#[derive(Clone, Copy, Debug, PartialEq, Eq, Structural)]
pub enum NftMetadataType {
    OnChainMetadata,
    OffChainMetadata,
}

/// The metadata template of the edition: its kind, and the inline metadata or
/// the locator that goes with the kind.
#[derive(Debug, PartialEq, Eq)]
pub struct NftData {
    pub nft_data_type: NftMetadataType,
    pub extension: Option<Metadata>,
    pub token_uri: Option<String>,
}

/// What an [`NftData`] holds.
pub struct NftDataView {
    pub nft_data_type: NftMetadataType,
    pub extension: Option<MetadataView>,
    pub token_uri: Option<Seq<char>>,
}

/// The view of optional metadata.
pub open spec fn metadata_of(m: Option<Metadata>) -> Option<MetadataView> {
    match m {
        Some(x) => Some(x@),
        None => None,
    }
}

impl View for NftData {
    type V = NftDataView;

    open spec fn view(&self) -> NftDataView {
        NftDataView {
            nft_data_type: self.nft_data_type,
            extension: metadata_of(self.extension),
            token_uri: text_of(self.token_uri),
        }
    }
}

impl Clone for NftData {
    fn clone(&self) -> (d: Self)
        ensures
            d@ == self@,
    {
        let extension = match &self.extension {
            Some(m) => Some(m.clone()),
            None => None,
        };
        NftData {
            nft_data_type: self.nft_data_type,
            extension,
            token_uri: self.token_uri.clone(),
        }
    }
}

/// Who sent a request, and the funds that came with it.
#[derive(Debug, PartialEq, Eq)]
pub struct MessageInfo {
    pub sender: String,
    pub funds: Vec<Coin>,
}

/// The block a request is executed in.
#[derive(Clone, Copy, Debug, PartialEq, Eq, Structural)]
pub struct BlockInfo {
    pub time: Timestamp,
}

/// The controller's own identity on chain.
#[derive(Debug, PartialEq, Eq)]
pub struct ContractInfo {
    pub address: String,
}

/// Where and when a request is executed.
#[derive(Debug, PartialEq, Eq)]
pub struct Env {
    pub block: BlockInfo,
    pub contract: ContractInfo,
}

/// A price: an amount of one denomination, or an item of another collection.
#[derive(Debug, PartialEq, Eq)]
pub enum Token {
    Fungible(Coin),
    NonFungible(String),
}

/// The denomination of a price, which an item of a collection lacks.
pub open spec fn denom_of(t: Token) -> Result<String, StdFailure> {
    match t {
        Token::Fungible(c) => Ok(c.denom),
        Token::NonFungible(_) => Err(
            StdFailure::GenericErr { msg: "non-fungible tokens do not have a denom" },
        ),
    }
}

/// The amount of a price, which an item of a collection lacks.
pub open spec fn amount_of(t: Token) -> Result<u128, StdFailure> {
    match t {
        Token::Fungible(c) => Ok(c.amount),
        Token::NonFungible(_) => Err(
            StdFailure::GenericErr { msg: "non-fungible tokens do not have amounts" },
        ),
    }
}

impl Token {
    /// A price of one denomination.
    pub fn new_fungible_token(amount: u128, denom: String) -> (t: Token)
        ensures
            t == Token::Fungible(Coin { denom, amount }),
    {
        Token::Fungible(Coin { denom, amount })
    }

    /// The denomination of the price.
    pub fn denom(&self) -> (d: Result<String, StdFailure>)
        ensures
            d == denom_of(*self),
    {
        match self {
            Token::Fungible(c) => Ok(c.denom.clone()),
            Token::NonFungible(_) => Err(
                StdFailure::GenericErr { msg: "non-fungible tokens do not have a denom" },
            ),
        }
    }

    /// The amount of the price.
    pub fn amount(&self) -> (a: Result<u128, StdFailure>)
        ensures
            a == amount_of(*self),
    {
        match self {
            Token::Fungible(c) => Ok(c.amount),
            Token::NonFungible(_) => Err(
                StdFailure::GenericErr { msg: "non-fungible tokens do not have amounts" },
            ),
        }
    }
}

/// How the edition is shown to the public.
#[derive(Clone, Copy, Debug, PartialEq, Eq, Structural)]
pub struct Status {
    pub is_verified: bool,
    pub is_blocked: bool,
    pub is_explicit: bool,
}

impl Default for Status {
    fn default() -> (s: Status)
        ensures
            s == (Status { is_verified: false, is_blocked: false, is_explicit: false }),
    {
        Status { is_verified: false, is_blocked: false, is_explicit: false }
    }
}

/// The part of the configuration that belongs to an open edition.
#[derive(Debug, PartialEq, Eq)]
pub struct ConfigExtension {
    pub admin: String,
    pub payment_address: Option<String>,
    pub nft_data: NftData,
    pub start_time: Timestamp,
    pub end_time: Timestamp,
    pub per_address_limit: u32,
}

/// The configuration of the sale.
#[derive(Debug, PartialEq, Eq)]
pub struct Config {
    pub factory: String,
    pub collection_code_id: u64,
    pub extension: ConfigExtension,
    pub mint_price: Token,
    pub allowed_burn_collections: Option<Vec<String>>,
}

/// What a [`Config`] holds: the metadata template by its view, the rest as it
/// is.
pub struct ConfigView {
    pub factory: String,
    pub collection_code_id: u64,
    pub admin: String,
    pub payment_address: Option<String>,
    pub nft_data: NftDataView,
    pub start_time: Timestamp,
    pub end_time: Timestamp,
    pub per_address_limit: u32,
    pub mint_price: Token,
    pub allowed_burn_collections: Option<Seq<String>>,
}

/// The view of an optional list of addresses.
pub open spec fn addresses_of(list: Option<Vec<String>>) -> Option<Seq<String>> {
    match list {
        Some(l) => Some(l@),
        None => None,
    }
}

impl View for Config {
    type V = ConfigView;

    open spec fn view(&self) -> ConfigView {
        ConfigView {
            factory: self.factory,
            collection_code_id: self.collection_code_id,
            admin: self.extension.admin,
            payment_address: self.extension.payment_address,
            nft_data: self.extension.nft_data@,
            start_time: self.extension.start_time,
            end_time: self.extension.end_time,
            per_address_limit: self.extension.per_address_limit,
            mint_price: self.mint_price,
            allowed_burn_collections: addresses_of(self.allowed_burn_collections),
        }
    }
}

/// The part of the factory's parameters that belongs to open editions.
#[derive(Debug, PartialEq, Eq)]
pub struct ParamsExtension {
    pub max_per_address_limit: u32,
    pub airdrop_mint_price: Coin,
    pub airdrop_mint_fee_bps: u64,
    pub dev_fee_address: String,
}

/// The factory's parameters as far as the controller reads them. They are asked
/// for anew with every request.
#[derive(Debug, PartialEq, Eq)]
pub struct MinterParams {
    pub min_mint_price: Token,
    pub mint_fee_bps: u64,
    pub max_trading_offset_secs: u64,
    pub extension: ParamsExtension,
}

/// What the factory answered to a query for its parameters.
#[derive(Debug, PartialEq, Eq)]
pub struct ParamsResponse {
    pub params: MinterParams,
}

/// The share of later sales that goes to the creator.
#[derive(Debug, PartialEq, Eq)]
pub struct RoyaltyInfoResponse {
    pub payment_address: String,
    pub share: Decimal,
}

/// What describes the collection that backs the edition.
#[derive(Debug, PartialEq, Eq)]
pub struct CollectionInfo {
    pub creator: String,
    pub description: String,
    pub image: String,
    pub external_link: Option<String>,
    pub explicit_content: Option<bool>,
    pub start_trading_time: Option<Timestamp>,
    pub royalty_info: Option<RoyaltyInfoResponse>,
}

/// The collection to create: the code to run and what to create it with.
#[derive(Debug, PartialEq, Eq)]
pub struct CollectionParams {
    pub code_id: u64,
    pub name: String,
    pub symbol: String,
    pub info: CollectionInfo,
}

} // verus!
