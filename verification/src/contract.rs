//! The entry points that take a request and hand it on: requests that change
//! the sale, by their kind, and the requests of governance. With them, what
//! every entry point shares: the form of what the host brings along, and of
//! what a request is owed.

use crate::error::{ContractError, PaymentError, StdFailure};
use crate::mint::{
    burn_and_mint, burn_and_mint_spec, execute_mint_sender, execute_mint_to, is_mint_in_range,
    mint_in_range, mint_sender_spec, mint_to_spec,
};
use crate::msg::{ExecuteMsg, SudoMsg};
use crate::response::{AttrValue, Attribute, Response, ResponseView};
use crate::state::{MinterState, StateView};
use crate::types::{Env, MessageInfo, ParamsResponse, Status};
use crate::update::{
    execute_purge, execute_update_end_time, execute_update_mint_price,
    execute_update_per_address_limit, execute_update_start_time,
    execute_update_start_trading_time, is_update_start_trading_time_in_range, purge_spec,
    update_end_time_spec, update_mint_price_spec, update_per_address_limit_spec,
    update_start_time_spec, update_start_trading_time_in_range, update_start_trading_time_spec,
};
use vstd::prelude::*;

verus! {

/// The name under which the controller's state is written.
pub const CONTRACT_NAME: &'static str = "crates.io:sg-open-edition-minter";

/// The version of the controller that writes the state.
pub const CONTRACT_VERSION: &'static str = "0.1.0";

/// The token sent with the request that creates the collection, and expected
/// back with its acknowledgment.
pub const INSTANTIATE_SG721_REPLY_ID: u64 = 1;

/// The number of nanoseconds in a second.
pub const NANOS_PER_SECOND: u64 = 1_000_000_000;

/// What the host's query for the factory's parameters came back with: the
/// parameters, or the words of the failure.
pub type FactoryAnswer = Result<ParamsResponse, String>;

/// What a request is owed: the state and the response after it, or the error
/// that it fails with.
pub type Expected = Result<(StateView, ResponseView), ContractError>;

/// Whether a request ended as it is owed: on success the state and the
/// response are the expected ones and the state is well formed, on failure the
/// error is the expected one and the state is as it was.
pub open spec fn ends_as(
    before: MinterState,
    after: MinterState,
    result: Result<Response, ContractError>,
    expected: Expected,
) -> bool {
    match expected {
        Ok((state, response)) => {
            &&& result matches Ok(r)
            &&& r@ == response
            &&& after@ == state
            &&& after.wf()
        },
        Err(e) => result == Err::<Response, ContractError>(e) && after == before,
    }
}

/// One attribute.
pub open spec fn attr(key: &'static str, value: AttrValue) -> Attribute {
    Attribute { key, value }
}

/// What the administrator's requests are refused with for everyone else.
pub const NOT_ADMIN: &'static str = "Sender is not an admin";

/// What an exchange is refused with for a sender that is no allowed
/// collection.
pub const NOT_BURN_COLLECTION: &'static str = "Sender is not an allowed burn collection";

/// Whether the sender of a request is the administrator of the sale.
pub open spec fn is_admin_of(s: StateView, info: MessageInfo) -> bool {
    info.sender@ == s.config.admin@
}

/// What a request that takes no funds fails with where funds came with it.
pub open spec fn non_payable() -> ContractError {
    ContractError::Payment(PaymentError::NonPayable)
}

/// The state and the response after the public status was set: all three
/// flags are overwritten.
pub open spec fn update_status_spec(
    s: StateView,
    is_verified: bool,
    is_blocked: bool,
    is_explicit: bool,
) -> (StateView, ResponseView) {
    (
        StateView { status: Status { is_verified, is_blocked, is_explicit }, ..s },
        ResponseView {
            messages: seq![],
            attributes: seq![attr("action", AttrValue::Text("sudo_update_status"))],
        },
    )
}

/// Sets how the edition is shown to the public. Only governance gets here.
pub fn update_status(
    state: &mut MinterState,
    is_verified: bool,
    is_blocked: bool,
    is_explicit: bool,
) -> (result: Result<Response, StdFailure>)
    requires
        old(state).wf(),
    ensures
        result matches Ok(r) && r@ == update_status_spec(
            old(state)@,
            is_verified,
            is_blocked,
            is_explicit,
        ).1,
        final(state)@ == update_status_spec(old(state)@, is_verified, is_blocked, is_explicit).0,
        final(state).wf(),
{
    state.status = Status { is_verified, is_blocked, is_explicit };
    let res = Response::new().add_attribute("action", AttrValue::Text("sudo_update_status"));
    proof {
        let owed = update_status_spec(old(state)@, is_verified, is_blocked, is_explicit).1;
        assert(res@.messages =~= owed.messages);
        assert(res@.attributes =~= owed.attributes);
    }
    Ok(res)
}

/// What a request of governance is owed.
pub open spec fn sudo_spec(s: StateView, msg: SudoMsg) -> Expected {
    match msg {
        SudoMsg::UpdateStatus { is_verified, is_blocked, is_explicit } => Ok(
            update_status_spec(s, is_verified, is_blocked, is_explicit),
        ),
    }
}

/// Carries out a request of governance.
pub fn sudo(state: &mut MinterState, _env: &Env, msg: SudoMsg) -> (result: Result<
    Response,
    ContractError,
>)
    requires
        old(state).wf(),
    ensures
        ends_as(*old(state), *final(state), result, sudo_spec(old(state)@, msg)),
{
    match msg {
        SudoMsg::UpdateStatus { is_verified, is_blocked, is_explicit } => {
            match update_status(state, is_verified, is_blocked, is_explicit) {
                Ok(r) => Ok(r),
                Err(_) => Err(ContractError::UpdateStatus),
            }
        },
    }
}

/// What a request that changes the sale is owed, by its kind.
pub open spec fn execute_spec(
    s: StateView,
    env: Env,
    info: MessageInfo,
    msg: ExecuteMsg,
    factory: FactoryAnswer,
) -> Expected {
    match msg {
        ExecuteMsg::Mint => mint_sender_spec(s, env, info, factory),
        ExecuteMsg::Purge => purge_spec(s, env, info),
        ExecuteMsg::UpdateMintPrice { price } => update_mint_price_spec(
            s,
            env,
            info,
            price,
            factory,
        ),
        ExecuteMsg::UpdateStartTime(time) => update_start_time_spec(s, env, info, time),
        ExecuteMsg::UpdateEndTime(time) => update_end_time_spec(s, env, info, time),
        ExecuteMsg::UpdateStartTradingTime(time) => update_start_trading_time_spec(
            s,
            env,
            info,
            time,
            factory,
        ),
        ExecuteMsg::UpdatePerAddressLimit { per_address_limit } => update_per_address_limit_spec(
            s,
            info,
            per_address_limit,
            factory,
        ),
        ExecuteMsg::MintTo { recipient } => mint_to_spec(s, env, info, recipient, factory),
        ExecuteMsg::ReceiveNft(received) => burn_and_mint_spec(s, env, info, received, factory),
    }
}

/// Whether a request stays within what the machine can hold. Only sales and
/// changes of the start of trading compute anything that could leave it.
pub open spec fn execute_in_range(
    state: MinterState,
    info: MessageInfo,
    msg: ExecuteMsg,
    factory: FactoryAnswer,
) -> bool {
    match msg {
        ExecuteMsg::Mint => mint_in_range(state, info, false, factory),
        ExecuteMsg::ReceiveNft(_) => mint_in_range(state, info, false, factory),
        ExecuteMsg::MintTo { recipient } => mint_in_range(state, info, true, factory),
        ExecuteMsg::UpdateStartTradingTime(_) => update_start_trading_time_in_range(
            state,
            info,
            factory,
        ),
        _ => true,
    }
}

/// Whether a request stays within what the machine can hold.
pub fn is_execute_in_range(
    state: &MinterState,
    info: &MessageInfo,
    msg: &ExecuteMsg,
    factory: &FactoryAnswer,
) -> (fits: bool)
    ensures
        fits == execute_in_range(*state, *info, *msg, *factory),
{
    match msg {
        ExecuteMsg::Mint => is_mint_in_range(state, info, false, factory),
        ExecuteMsg::ReceiveNft(_) => is_mint_in_range(state, info, false, factory),
        ExecuteMsg::MintTo { recipient: _ } => is_mint_in_range(state, info, true, factory),
        ExecuteMsg::UpdateStartTradingTime(_) => is_update_start_trading_time_in_range(
            state,
            info,
            factory,
        ),
        _ => true,
    }
}

/// Carries out a request that changes the sale. `factory` is what the factory
/// answered when the host asked it for its parameters for this request.
pub fn execute(
    state: &mut MinterState,
    env: &Env,
    info: &MessageInfo,
    msg: ExecuteMsg,
    factory: &FactoryAnswer,
) -> (result: Result<Response, ContractError>)
    requires
        old(state).wf(),
        execute_in_range(*old(state), *info, msg, *factory),
    ensures
        ends_as(
            *old(state),
            *final(state),
            result,
            execute_spec(old(state)@, *env, *info, msg, *factory),
        ),
{
    match msg {
        ExecuteMsg::Mint => execute_mint_sender(state, env, info, factory),
        ExecuteMsg::Purge => execute_purge(state, env, info),
        ExecuteMsg::UpdateMintPrice { price } => execute_update_mint_price(
            state,
            env,
            info,
            price,
            factory,
        ),
        ExecuteMsg::UpdateStartTime(time) => execute_update_start_time(state, env, info, time),
        ExecuteMsg::UpdateEndTime(time) => execute_update_end_time(state, env, info, time),
        ExecuteMsg::UpdateStartTradingTime(time) => execute_update_start_trading_time(
            state,
            env,
            info,
            time,
            factory,
        ),
        ExecuteMsg::UpdatePerAddressLimit { per_address_limit } => {
            execute_update_per_address_limit(state, env, info, per_address_limit, factory)
        },
        ExecuteMsg::MintTo { recipient } => execute_mint_to(state, env, info, recipient, factory),
        ExecuteMsg::ReceiveNft(received) => burn_and_mint(state, env, info, received, factory),
    }
}

} // verus!
