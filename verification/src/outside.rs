//! The calls this library makes into other crates, each behind a contract that
//! is stated here and believed, not proved.

use crate::error::PaymentError;
use crate::msg::{Reply, SubMsgResponse};
use crate::types::{text_of, Coin, MessageInfo};
use vstd::prelude::*;

verus! {

/// `url::ParseError`, the reason why a text is no URL. Nothing is said of what
/// it holds; it is handed on as it came.
#[verifier::external_type_specification]
#[verifier::external_body]
pub struct ExUrlParseError(url::ParseError);

/// The number of atomic units in one whole [`crate::types::Decimal`].
pub const DECIMAL_FRACTIONAL: u128 = 1_000_000_000_000_000_000u128;

/// `cosmwasm_std::Uint128 * cosmwasm_std::Decimal`: the product of an amount
/// and a decimal given by its atomic units, rounded down. The multiplication
/// panics where the product does not fit 128 bits, so such inputs are left out.
#[verifier::external_body]
pub(crate) fn mul_decimal(amount: u128, atomics: u128) -> (product: u128)
    requires
        amount * atomics / (DECIMAL_FRACTIONAL as int) <= u128::MAX,
    ensures
        product == amount * atomics / (DECIMAL_FRACTIONAL as int),
{
    let rate = cosmwasm_std::Decimal::new(cosmwasm_std::Uint128::new(atomics));
    (cosmwasm_std::Uint128::new(amount) * rate).u128()
}

/// `cosmwasm_std::Uint128::checked_sub`: the difference, or nothing where the
/// subtrahend is the larger.
#[verifier::external_body]
pub(crate) fn checked_sub(minuend: u128, subtrahend: u128) -> (difference: Option<u128>)
    ensures
        difference == if minuend >= subtrahend {
            Some((minuend - subtrahend) as u128)
        } else {
            None
        },
{
    let a = cosmwasm_std::Uint128::new(minuend);
    a.checked_sub(cosmwasm_std::Uint128::new(subtrahend)).ok().map(|d| d.u128())
}

/// `cosmwasm_std::Timestamp::plus_seconds`: the time that many seconds later,
/// in nanoseconds. The addition panics past the range of 64 bits, so such
/// inputs are left out.
#[verifier::external_body]
pub(crate) fn plus_seconds(nanos: u64, seconds: u64) -> (later: u64)
    requires
        nanos + seconds * 1_000_000_000 <= u64::MAX,
    ensures
        later == nanos + seconds * 1_000_000_000,
{
    cosmwasm_std::Timestamp::from_nanos(nanos).plus_seconds(seconds).nanos()
}

/// What `str::trim` returns for a text: the text without the white space at
/// its two ends.
pub uninterp spec fn trimmed(text: Seq<char>) -> Seq<char>;

/// `str::trim`, as an owned string.
#[verifier::external_body]
pub(crate) fn trim(text: &str) -> (t: String)
    ensures
        t@ == trimmed(text@),
{
    text.trim().to_string()
}

/// A URL that was parsed: its scheme, and the URL written out again.
pub struct ParsedUrl {
    pub scheme: String,
    pub text: String,
}

/// What `url::Url::parse` makes of a text: the scheme of the URL and its
/// serialization, or the error.
pub uninterp spec fn url_parse(text: Seq<char>) -> Result<(Seq<char>, Seq<char>), url::ParseError>;

/// `url::Url::parse`, then `Url::scheme` and the URL's `to_string`.
#[verifier::external_body]
pub(crate) fn parse_url(text: &str) -> (parsed: Result<ParsedUrl, url::ParseError>)
    ensures
        match parsed {
            Ok(u) => url_parse(text@) == Ok::<(Seq<char>, Seq<char>), url::ParseError>(
                (u.scheme@, u.text@),
            ),
            Err(e) => url_parse(text@) == Err::<(Seq<char>, Seq<char>), url::ParseError>(e),
        },
{
    url::Url::parse(text).map(|u| ParsedUrl { scheme: u.scheme().to_string(), text: u.to_string() })
}

/// `cw_utils::nonpayable`: whether a request came without funds.
#[verifier::external_body]
pub(crate) fn nonpayable(info: &MessageInfo) -> (ok: bool)
    ensures
        ok == (info.funds@.len() == 0),
{
    let funds = info.funds.iter().map(|c| cosmwasm_std::coin(c.amount, c.denom.clone())).collect();
    let sender = cosmwasm_std::Addr::unchecked(info.sender.clone());
    cw_utils::nonpayable(&cosmwasm_std::MessageInfo { sender, funds }).is_ok()
}

/// Whether `i` is the place of the first coin of another denomination.
pub open spec fn first_foreign(funds: Seq<Coin>, denom: Seq<char>, i: int) -> bool {
    &&& 0 <= i < funds.len()
    &&& funds[i].denom@ != denom
    &&& forall|j: int| 0 <= j < i ==> (#[trigger] funds[j]).denom@ == denom
}

/// The place of the first coin of another denomination.
pub open spec fn first_foreign_place(funds: Seq<Coin>, denom: Seq<char>) -> int {
    choose|i: int| first_foreign(funds, denom, i)
}

/// Whether some coin is of another denomination.
pub open spec fn has_foreign(funds: Seq<Coin>, denom: Seq<char>) -> bool {
    exists|i: int| 0 <= i < funds.len() && (#[trigger] funds[i]).denom@ != denom
}

/// Whether funds can be told to pay or not: funds of two or more coins that are
/// all of the wanted denomination cannot.
pub open spec fn payable(funds: Seq<Coin>, denom: Seq<char>) -> bool {
    funds.len() <= 1 || has_foreign(funds, denom)
}

/// What the funds of a request pay in a denomination: nothing sent pays zero,
/// one coin of the denomination pays its amount, anything else is refused
/// with the first other denomination.
pub open spec fn paid_spec(funds: Seq<Coin>, denom: Seq<char>) -> Result<u128, PaymentError> {
    if funds.len() == 0 {
        Ok(0)
    } else if funds.len() == 1 && funds[0].denom@ == denom {
        Ok(funds[0].amount)
    } else {
        Err(PaymentError::ExtraDenom(funds[first_foreign_place(funds, denom)].denom))
    }
}

/// `cw_utils::may_pay`: nothing sent counts as zero, one coin of the wanted
/// denomination as its amount; anything else is refused, naming the first
/// other denomination. Where two or more coins all have the wanted
/// denomination the outside function panics, so such funds are left out.
#[verifier::external_body]
pub(crate) fn may_pay(info: &MessageInfo, denom: &str) -> (paid: Result<u128, PaymentError>)
    requires
        payable(info.funds@, denom@),
    ensures
        paid == paid_spec(info.funds@, denom@),
{
    let funds = info.funds.iter().map(|c| cosmwasm_std::coin(c.amount, c.denom.clone())).collect();
    let sender = cosmwasm_std::Addr::unchecked(info.sender.clone());
    match cw_utils::may_pay(&cosmwasm_std::MessageInfo { sender, funds }, denom) {
        Ok(amount) => Ok(amount.u128()),
        Err(cw_utils::PaymentError::MissingDenom(d)) => Err(PaymentError::MissingDenom(d)),
        Err(cw_utils::PaymentError::ExtraDenom(d)) => Err(PaymentError::ExtraDenom(d)),
        Err(cw_utils::PaymentError::MultipleDenoms {}) => Err(PaymentError::MultipleDenoms),
        Err(cw_utils::PaymentError::NoFunds {}) => Err(PaymentError::NoFunds),
        Err(cw_utils::PaymentError::NonPayable {}) => Err(PaymentError::NonPayable),
    }
}

/// How a sub-message ended, in plain values: the bytes it returned, if any, or
/// the words it failed with.
pub open spec fn reply_outcome(result: Result<SubMsgResponse, String>) -> Result<
    Option<Seq<u8>>,
    Seq<char>,
> {
    match result {
        Ok(r) => Ok(
            match r.data {
                Some(d) => Some(d@),
                None => None,
            },
        ),
        Err(e) => Err(e@),
    }
}

/// What `cw_utils::parse_reply_instantiate_data` reads out of the outcome of
/// an instantiation: the address of the new contract, or nothing where the
/// outcome is a failure or holds no well-formed answer.
pub uninterp spec fn instantiate_reply_address(
    outcome: Result<Option<Seq<u8>>, Seq<char>>,
) -> Option<Seq<char>>;

/// `cw_utils::parse_reply_instantiate_data`, keeping the contract address.
#[verifier::external_body]
pub(crate) fn parse_reply_instantiate_data(msg: &Reply) -> (address: Option<String>)
    ensures
        text_of(address) == instantiate_reply_address(reply_outcome(msg.result)),
{
    let result = match &msg.result {
        Ok(r) => cosmwasm_std::SubMsgResult::Ok(
            cosmwasm_std::SubMsgResponse {
                events: vec![],
                data: r.data.clone().map(cosmwasm_std::Binary),
            },
        ),
        Err(e) => cosmwasm_std::SubMsgResult::Err(e.clone()),
    };
    let reply = cosmwasm_std::Reply { id: msg.id, result };
    cw_utils::parse_reply_instantiate_data(reply).ok().map(|r| r.contract_address)
}

} // verus!
