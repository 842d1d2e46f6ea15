//! What holds of the controller across requests, proved from what the entry
//! points are owed.

use crate::contract::{
    attr, ends_as, execute_spec, Expected, FactoryAnswer, INSTANTIATE_SG721_REPLY_ID,
};
use crate::counts::count_of;
use crate::create::instantiate_spec;
use crate::error::ContractError;
use crate::handshake::bind_spec;
use crate::mint::{mint_message, mint_sender_spec, mint_spec, mint_to_spec};
use crate::msg::{ExecuteMsg, OpenEditionMinterCreateMsg};
use crate::query::query_config_spec;
use crate::response::{AttrValue, Response, ResponseView};
use crate::state::{MinterState, StateView};
use crate::types::{Env, MessageInfo, Token};
use crate::update::{purge_spec, update_mint_price_spec};
use vstd::prelude::*;

verus! {

/// Whether a request is a purchase: for the sender, by the administrator for
/// a recipient, or in exchange for an item.
pub open spec fn is_purchase(msg: ExecuteMsg) -> bool {
    msg is Mint || msg is MintTo || msg is ReceiveNft
}

/// The address that a purchase counts for.
pub open spec fn buyer_of(info: MessageInfo, msg: ExecuteMsg) -> String {
    match msg {
        ExecuteMsg::MintTo { recipient } => recipient,
        _ => info.sender,
    }
}

/// A successful purchase sells exactly one item. The count of items sold
/// grows by one, the buyer's count grows by one and, unless the administrator
/// bought for someone, stays within the cap; the item gets the identifier that
/// was next before the purchase, and the identifier after it is next from
/// then on.
pub proof fn law_purchase_takes_next_identifier(
    s: StateView,
    env: Env,
    info: MessageInfo,
    msg: ExecuteMsg,
    factory: FactoryAnswer,
)
    requires
        is_purchase(msg),
        s.wf(),
        s.total_mint_count < u32::MAX,
        execute_spec(s, env, info, msg, factory) is Ok,
    ensures
        ({
            let (after, response) = execute_spec(s, env, info, msg, factory)->Ok_0;
            let buyer = buyer_of(info, msg);
            &&& after.total_mint_count == s.total_mint_count + 1
            &&& after.token_index == s.token_index + 1
            &&& count_of(after.minter_addrs, buyer@) == count_of(s.minter_addrs, buyer@) + 1
            &&& msg !is MintTo ==> count_of(after.minter_addrs, buyer@)
                <= s.config.per_address_limit
            &&& s.sg721_address matches Some(sg721)
            &&& response.messages.contains(
                mint_message(sg721, s.token_index, buyer, s.config.nft_data),
            )
            &&& response.attributes[3] == attr(
                "token_id",
                AttrValue::Number(s.token_index as u128),
            )
        }),
{
    let (after, response) = execute_spec(s, env, info, msg, factory)->Ok_0;
    let buyer = buyer_of(info, msg);
    let sg721 = s.sg721_address->Some_0;
    let item = mint_message(sg721, s.token_index, buyer, s.config.nft_data);
    let sold = match msg {
        ExecuteMsg::MintTo { recipient } => mint_spec(
            s,
            info,
            "mint_to",
            true,
            Some(recipient),
            factory,
        ),
        _ => mint_spec(s, info, "mint_sender", false, None, factory),
    };
    assert(sold is Ok);
    let sale = sold->Ok_0.1;
    assert(exists|i: int| 0 <= i < sale.messages.len() && sale.messages[i] == item) by {
        let before = sale.messages.len() - 1;
        if sale.messages[before] == item {
        } else {
            assert(sale.messages[before - 1] == item);
        }
    }
    let i = choose|i: int| 0 <= i < sale.messages.len() && sale.messages[i] == item;
    assert(response.messages[i] == item);
}

/// A request that fails changes nothing: where a request is owed an error,
/// the only state that ends it as owed is the state before it.
pub proof fn law_failure_changes_nothing(
    before: MinterState,
    after: MinterState,
    result: Result<Response, ContractError>,
    owed: Expected,
)
    requires
        owed is Err,
        ends_as(before, after, result, owed),
    ensures
        after == before,
        result is Err,
{
}

/// Purging twice once the sale has ended succeeds both times; no address has
/// a count after the first purge, and the second changes nothing.
pub proof fn law_purge_is_idempotent(
    s: StateView,
    first: Env,
    second: Env,
    sender: MessageInfo,
    again: MessageInfo,
)
    requires
        first.block.time.nanos >= s.config.end_time.nanos,
        second.block.time.nanos >= s.config.end_time.nanos,
        sender.funds@.len() == 0,
        again.funds@.len() == 0,
    ensures
        purge_spec(s, first, sender) is Ok,
        ({
            let once = purge_spec(s, first, sender)->Ok_0.0;
            &&& once.minter_addrs == Map::<Seq<char>, u32>::empty()
            &&& purge_spec(once, second, again) is Ok
            &&& purge_spec(once, second, again)->Ok_0.0 == once
        }),
{
}

/// Once the sale has started, a successful change of the price never raises
/// it, and never changes its denomination.
pub proof fn law_price_never_rises_once_live(
    s: StateView,
    env: Env,
    info: MessageInfo,
    price: u128,
    factory: FactoryAnswer,
)
    requires
        env.block.time.nanos >= s.config.start_time.nanos,
        update_mint_price_spec(s, env, info, price, factory) is Ok,
    ensures
        ({
            let after = update_mint_price_spec(s, env, info, price, factory)->Ok_0.0;
            &&& s.config.mint_price matches Token::Fungible(old_price)
            &&& after.config.mint_price matches Token::Fungible(new_price)
            &&& new_price.amount == price
            &&& new_price.amount <= old_price.amount
            &&& new_price.denom == old_price.denom
        }),
{
}

/// A creation followed by the matching acknowledgment binds the collection
/// that the acknowledgment names, and the configuration reported right after
/// names that collection. The creation request is sent under the token that
/// the acknowledgment must carry.
pub proof fn law_creation_round_trip(
    env: Env,
    info: MessageInfo,
    msg: OpenEditionMinterCreateMsg,
    factory: FactoryAnswer,
    address: String,
)
    requires
        instantiate_spec(env, info, msg, factory) is Ok,
    ensures
        ({
            let (created, request) = instantiate_spec(env, info, msg, factory)->Ok_0;
            let bound = bind_spec(created, INSTANTIATE_SG721_REPLY_ID, Some(address));
            &&& created.sg721_address is None
            &&& request.messages.len() == 1
            &&& request.messages[0].id == INSTANTIATE_SG721_REPLY_ID
            &&& bound is Ok
            &&& bound->Ok_0.0.sg721_address == Some(address)
            &&& query_config_spec(bound->Ok_0.0) matches Ok(report)
            &&& report.sg721_address == address
        }),
{
}

/// A collection that is bound stays bound: an acknowledgment that succeeds on
/// a bound sale names the collection that was bound before.
pub proof fn law_collection_is_bound_once(s: StateView, id: u64, parsed: Option<String>)
    requires
        s.sg721_address is Some,
        bind_spec(s, id, parsed) is Ok,
    ensures
        bind_spec(s, id, parsed)->Ok_0.0.sg721_address matches Some(after)
            && s.sg721_address matches Some(before) && after@ == before@,
{
}

/// The sale is open from its start on and closed from its end on. At the very
/// end a purchase fails with `AfterMintEndTime`, for the administrator too, and
/// a purge is due; at the very start the window holds no purchase back.
pub proof fn law_window_is_half_open(
    s: StateView,
    env: Env,
    info: MessageInfo,
    recipient: String,
    factory: FactoryAnswer,
)
    requires
        s.config.start_time.nanos <= s.config.end_time.nanos,
    ensures
        env.block.time == s.config.end_time ==> mint_sender_spec(s, env, info, factory) == Err::<
            (StateView, ResponseView),
            ContractError,
        >(ContractError::AfterMintEndTime),
        env.block.time == s.config.end_time && info.funds@.len() == 0 ==> purge_spec(
            s,
            env,
            info,
        ) is Ok,
        env.block.time == s.config.end_time && info.sender@ == s.config.admin@ ==> mint_to_spec(
            s,
            env,
            info,
            recipient,
            factory,
        ) == Err::<(StateView, ResponseView), ContractError>(ContractError::AfterMintEndTime),
        env.block.time == s.config.start_time && s.config.start_time.nanos
            < s.config.end_time.nanos ==> mint_sender_spec(s, env, info, factory) == if count_of(
            s.minter_addrs,
            info.sender@,
        ) >= s.config.per_address_limit {
            Err::<(StateView, ResponseView), ContractError>(
                ContractError::MaxPerAddressLimitExceeded,
            )
        } else {
            mint_spec(s, info, "mint_sender", false, None, factory)
        },
        mint_spec(s, info, "mint_sender", false, None, factory) != Err::<
            (StateView, ResponseView),
            ContractError,
        >(ContractError::BeforeMintStartTime),
        mint_spec(s, info, "mint_sender", false, None, factory) != Err::<
            (StateView, ResponseView),
            ContractError,
        >(ContractError::AfterMintEndTime),
{
}

/// No request ever leaves the state malformed, puts the start of the sale
/// after its end, takes back a sale, or hands out an identifier again; and
/// nothing but the acknowledgment of its creation binds or changes the
/// collection.
pub proof fn law_requests_keep_the_order(
    s: StateView,
    env: Env,
    info: MessageInfo,
    msg: ExecuteMsg,
    factory: FactoryAnswer,
)
    requires
        s.config.start_time.nanos <= s.config.end_time.nanos,
        s.wf(),
        s.total_mint_count < u32::MAX,
        execute_spec(s, env, info, msg, factory) is Ok,
    ensures
        ({
            let after = execute_spec(s, env, info, msg, factory)->Ok_0.0;
            &&& after.wf()
            &&& after.config.start_time.nanos <= after.config.end_time.nanos
            &&& after.total_mint_count >= s.total_mint_count
            &&& after.token_index >= s.token_index
            &&& after.sg721_address == s.sg721_address
            &&& after.status == s.status
            &&& !is_purchase(msg) ==> after.total_mint_count == s.total_mint_count
                && after.token_index == s.token_index
        }),
{
    let after = execute_spec(s, env, info, msg, factory)->Ok_0.0;
    assert forall|address: Seq<char>| count_of(after.minter_addrs, address)
        <= after.total_mint_count by {
        assert(count_of(s.minter_addrs, address) <= s.total_mint_count);
        assert(count_of(s.minter_addrs, buyer_of(info, msg)@) <= s.total_mint_count);
    }
}

} // verus!
