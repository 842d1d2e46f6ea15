//! What a request returns: attributes that describe what was done, and the
//! messages that the host is to dispatch.

use crate::types::{
    metadata_of, text_of, Coin, CollectionInfo, Metadata, MetadataView, Timestamp,
};
use vstd::prelude::*;

verus! {

/// The value of an attribute, as the value it was taken from.
#[derive(Debug, PartialEq, Eq)]
pub enum AttrValue {
    Text(&'static str),
    Address(String),
    Number(u128),
    Time(Timestamp),
}

/// One attribute of a response.
#[derive(Debug, PartialEq, Eq)]
pub struct Attribute {
    pub key: &'static str,
    pub value: AttrValue,
}

/// A message to another contract or to the bank.
#[allow(inconsistent_fields)]
#[derive(Debug, PartialEq, Eq)]
pub enum CosmosMsg {
    /// Pay an amount out of the controller's balance.
    BankSend { to_address: String, amount: Coin },
    /// Create the collection that backs the edition.
    InstantiateSg721 {
        code_id: u64,
        name: String,
        symbol: String,
        minter: String,
        collection_info: CollectionInfo,
        funds: Vec<Coin>,
        admin: String,
        label: String,
    },
    /// Create one item in the collection.
    Sg721Mint {
        contract_addr: String,
        token_id: u64,
        owner: String,
        extension: Option<Metadata>,
        token_uri: Option<String>,
    },
    /// Tell the collection from when on its items may be traded.
    Sg721UpdateStartTradingTime { contract_addr: String, start_time: Option<Timestamp> },
    /// Destroy an item of another collection.
    Cw721Burn { contract_addr: String, token_id: String },
}

/// What a [`CosmosMsg`] holds.
#[allow(inconsistent_fields)]
pub enum CosmosMsgView {
    BankSend { to_address: String, amount: Coin },
    InstantiateSg721 {
        code_id: u64,
        name: String,
        symbol: String,
        minter: String,
        collection_info: CollectionInfo,
        funds: Seq<Coin>,
        admin: String,
        label: Seq<char>,
    },
    Sg721Mint {
        contract_addr: String,
        token_id: u64,
        owner: String,
        extension: Option<MetadataView>,
        token_uri: Option<Seq<char>>,
    },
    Sg721UpdateStartTradingTime { contract_addr: String, start_time: Option<Timestamp> },
    Cw721Burn { contract_addr: String, token_id: String },
}

impl View for CosmosMsg {
    type V = CosmosMsgView;

    open spec fn view(&self) -> CosmosMsgView {
        match *self {
            CosmosMsg::BankSend { to_address, amount } => CosmosMsgView::BankSend {
                to_address,
                amount,
            },
            CosmosMsg::InstantiateSg721 {
                code_id,
                name,
                symbol,
                minter,
                collection_info,
                funds,
                admin,
                label,
            } => CosmosMsgView::InstantiateSg721 {
                code_id,
                name,
                symbol,
                minter,
                collection_info,
                funds: funds@,
                admin,
                label: label@,
            },
            CosmosMsg::Sg721Mint {
                contract_addr,
                token_id,
                owner,
                extension,
                token_uri,
            } => CosmosMsgView::Sg721Mint {
                contract_addr,
                token_id,
                owner,
                extension: metadata_of(extension),
                token_uri: text_of(token_uri),
            },
            CosmosMsg::Sg721UpdateStartTradingTime {
                contract_addr,
                start_time,
            } => CosmosMsgView::Sg721UpdateStartTradingTime { contract_addr, start_time },
            CosmosMsg::Cw721Burn { contract_addr, token_id } => CosmosMsgView::Cw721Burn {
                contract_addr,
                token_id,
            },
        }
    }
}

/// When the controller wants the acknowledgment of a message.
#[derive(Clone, Copy, Debug, PartialEq, Eq, Structural)]
pub enum ReplyOn {
    Always,
    Error,
    Success,
    Never,
}

/// A message with the token and the condition of its acknowledgment.
#[derive(Debug, PartialEq, Eq)]
pub struct SubMsg {
    pub msg: CosmosMsg,
    pub id: u64,
    pub reply_on: ReplyOn,
}

/// What a [`SubMsg`] holds.
pub struct SubMsgView {
    pub msg: CosmosMsgView,
    pub id: u64,
    pub reply_on: ReplyOn,
}

impl View for SubMsg {
    type V = SubMsgView;

    open spec fn view(&self) -> SubMsgView {
        SubMsgView { msg: self.msg@, id: self.id, reply_on: self.reply_on }
    }
}

/// A message sent without asking for its acknowledgment.
pub open spec fn plain(msg: CosmosMsgView) -> SubMsgView {
    SubMsgView { msg, id: 0, reply_on: ReplyOn::Never }
}

/// What a successful request returns.
#[derive(Debug, PartialEq, Eq)]
pub struct Response {
    pub messages: Vec<SubMsg>,
    pub attributes: Vec<Attribute>,
}

/// What a [`Response`] holds: its messages and its attributes, in order.
pub struct ResponseView {
    pub messages: Seq<SubMsgView>,
    pub attributes: Seq<Attribute>,
}

impl View for Response {
    type V = ResponseView;

    open spec fn view(&self) -> ResponseView {
        ResponseView {
            messages: Seq::new(self.messages@.len(), |i: int| self.messages@[i]@),
            attributes: self.attributes@,
        }
    }
}

impl Response {
    /// A response without messages and attributes.
    pub fn new() -> (r: Response)
        ensures
            r@ == (ResponseView { messages: Seq::empty(), attributes: Seq::empty() }),
    {
        let r = Response { messages: Vec::new(), attributes: Vec::new() };
        assert(r@.messages =~= Seq::empty());
        r
    }

    /// The response with one more attribute.
    pub fn add_attribute(self, key: &'static str, value: AttrValue) -> (r: Response)
        ensures
            r@ == (ResponseView {
                messages: self@.messages,
                attributes: self@.attributes.push(Attribute { key, value }),
            }),
    {
        let mut r = self;
        r.attributes.push(Attribute { key, value });
        assert(r@.messages =~= self@.messages);
        r
    }

    /// The response with one more message, sent without asking for its
    /// acknowledgment.
    pub fn add_message(self, msg: CosmosMsg) -> (r: Response)
        ensures
            r@ == (ResponseView {
                messages: self@.messages.push(plain(msg@)),
                attributes: self@.attributes,
            }),
    {
        self.add_submessage(SubMsg { msg, id: 0, reply_on: ReplyOn::Never })
    }

    /// The response with one more message.
    pub fn add_submessage(self, msg: SubMsg) -> (r: Response)
        ensures
            r@ == (ResponseView {
                messages: self@.messages.push(msg@),
                attributes: self@.attributes,
            }),
    {
        let mut r = self;
        r.messages.push(msg);
        assert(r@.messages =~= self@.messages.push(msg@));
        r
    }
}

} // verus!
