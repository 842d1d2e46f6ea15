//! Changes of the sale's parameters by its administrator, and the purge of
//! the buyers' counts after the sale.

use crate::contract::{
    attr, ends_as, is_admin_of, non_payable, Expected, FactoryAnswer, NOT_ADMIN,
};
use crate::create::{latest_trading_start, offset_in_range};
use crate::error::{ContractError, PaymentError, StdFailure};
use crate::outside::{nonpayable, plus_seconds};
use crate::response::{plain, AttrValue, CosmosMsg, CosmosMsgView, Response, ResponseView};
use crate::state::{MinterState, StateView};
use crate::types::{amount_of, Coin, ConfigView, Env, MessageInfo, Timestamp, Token};
use vstd::prelude::*;

verus! {

/// What a purge is owed: it takes no funds and comes once the sale has ended,
/// which it has from its end on, whoever asks; then no address has a count
/// any more.
pub open spec fn purge_spec(s: StateView, env: Env, info: MessageInfo) -> Expected {
    if info.funds@.len() != 0 {
        Err(non_payable())
    } else if env.block.time.nanos < s.config.end_time.nanos {
        Err(ContractError::MintingHasNotYetEnded)
    } else {
        Ok(
            (
                StateView { minter_addrs: Map::empty(), ..s },
                ResponseView {
                    messages: seq![],
                    attributes: seq![
                        attr("action", AttrValue::Text("purge")),
                        attr("contract", AttrValue::Address(env.contract.address)),
                        attr("sender", AttrValue::Address(info.sender)),
                    ],
                },
            ),
        )
    }
}

/// Frees the counts of the buyers once the sale has ended. Anyone can purge.
pub fn execute_purge(state: &mut MinterState, env: &Env, info: &MessageInfo) -> (result: Result<
    Response,
    ContractError,
>)
    requires
        old(state).wf(),
    ensures
        ends_as(*old(state), *final(state), result, purge_spec(old(state)@, *env, *info)),
{
    if !nonpayable(info) {
        return Err(ContractError::Payment(PaymentError::NonPayable));
    }
    // Check if mint has ended
    if env.block.time.nanos < state.config.extension.end_time.nanos {
        return Err(ContractError::MintingHasNotYetEnded);
    }
    state.minter_addrs.clear();
    let res = Response::new().add_attribute("action", AttrValue::Text("purge")).add_attribute(
        "contract",
        AttrValue::Address(env.contract.address.clone()),
    ).add_attribute("sender", AttrValue::Address(info.sender.clone()));
    proof {
        let owed = purge_spec(old(state)@, *env, *info)->Ok_0.1;
        assert(res@.messages =~= owed.messages);
        assert(res@.attributes =~= owed.attributes);
    }
    Ok(res)
}

/// What a change of the price is owed. It takes no funds, is the
/// administrator's, and comes before the end of the sale. From the start of
/// the sale on the price can only stay or fall, and it is never below the
/// factory's minimum.
pub open spec fn update_mint_price_spec(
    s: StateView,
    env: Env,
    info: MessageInfo,
    price: u128,
    factory: FactoryAnswer,
) -> Expected {
    if info.funds@.len() != 0 {
        Err(non_payable())
    } else if !is_admin_of(s, info) {
        Err(ContractError::Unauthorized(NOT_ADMIN))
    } else if env.block.time.nanos >= s.config.end_time.nanos {
        Err(ContractError::AfterMintEndTime)
    } else {
        match s.config.mint_price {
            Token::NonFungible(_) => Err(ContractError::Std(amount_of(s.config.mint_price)->Err_0)),
            Token::Fungible(current) => if env.block.time.nanos >= s.config.start_time.nanos
                && price > current.amount {
                Err(
                    ContractError::UpdatedMintPriceTooHigh {
                        allowed: current.amount,
                        updated: price,
                    },
                )
            } else {
                match factory {
                    Err(e) => Err(ContractError::Std(StdFailure::Host(e))),
                    Ok(answer) => match amount_of(answer.params.min_mint_price) {
                        Err(e) => Err(ContractError::Std(e)),
                        Ok(min) => if min > price {
                            Err(ContractError::InsufficientMintPrice { expected: min, got: price })
                        } else {
                            Ok(
                                (
                                    StateView {
                                        config: ConfigView {
                                            mint_price: Token::Fungible(
                                                Coin { denom: current.denom, amount: price },
                                            ),
                                            ..s.config
                                        },
                                        ..s
                                    },
                                    ResponseView {
                                        messages: seq![],
                                        attributes: seq![
                                            attr("action", AttrValue::Text("update_mint_price")),
                                            attr("sender", AttrValue::Address(info.sender)),
                                            attr("mint_price", AttrValue::Number(price)),
                                        ],
                                    },
                                ),
                            )
                        },
                    },
                }
            },
        }
    }
}

/// Changes the price of an item.
pub fn execute_update_mint_price(
    state: &mut MinterState,
    env: &Env,
    info: &MessageInfo,
    price: u128,
    factory: &FactoryAnswer,
) -> (result: Result<Response, ContractError>)
    requires
        old(state).wf(),
    ensures
        ends_as(
            *old(state),
            *final(state),
            result,
            update_mint_price_spec(old(state)@, *env, *info, price, *factory),
        ),
{
    if !nonpayable(info) {
        return Err(ContractError::Payment(PaymentError::NonPayable));
    }
    if !(info.sender == state.config.extension.admin) {
        return Err(ContractError::Unauthorized(NOT_ADMIN));
    }
    // If we are after the end_time return error
    if env.block.time.nanos >= state.config.extension.end_time.nanos {
        return Err(ContractError::AfterMintEndTime);
    }
    let config_mint_price = match state.config.mint_price.amount() {
        Err(e) => {
            return Err(ContractError::Std(e));
        },
        Ok(a) => a,
    };
    // From the start of the sale on the price can only be lowered
    if env.block.time.nanos >= state.config.extension.start_time.nanos && price
        > config_mint_price {
        return Err(
            ContractError::UpdatedMintPriceTooHigh { allowed: config_mint_price, updated: price },
        );
    }
    let factory_params = match factory {
        Err(e) => {
            return Err(ContractError::Std(StdFailure::Host(e.clone())));
        },
        Ok(answer) => &answer.params,
    };
    let min_mint_price = match factory_params.min_mint_price.amount() {
        Err(e) => {
            return Err(ContractError::Std(e));
        },
        Ok(a) => a,
    };
    if min_mint_price > price {
        return Err(ContractError::InsufficientMintPrice { expected: min_mint_price, got: price });
    }
    let denom = match state.config.mint_price.denom() {
        Err(e) => {
            return Err(ContractError::Std(e));
        },
        Ok(d) => d,
    };
    state.config.mint_price = Token::new_fungible_token(price, denom);
    let res = Response::new().add_attribute(
        "action",
        AttrValue::Text("update_mint_price"),
    ).add_attribute("sender", AttrValue::Address(info.sender.clone())).add_attribute(
        "mint_price",
        AttrValue::Number(price),
    );
    proof {
        let owed = update_mint_price_spec(old(state)@, *env, *info, price, *factory)->Ok_0.1;
        assert(res@.messages =~= owed.messages);
        assert(res@.attributes =~= owed.attributes);
    }
    Ok(res)
}

/// What a change of the start of the sale is owed. It takes no funds, is the
/// administrator's, and comes before the sale has started; the new start is
/// neither past nor after the end of the sale.
pub open spec fn update_start_time_spec(
    s: StateView,
    env: Env,
    info: MessageInfo,
    start_time: Timestamp,
) -> Expected {
    let now = env.block.time;
    if info.funds@.len() != 0 {
        Err(non_payable())
    } else if !is_admin_of(s, info) {
        Err(ContractError::Unauthorized(NOT_ADMIN))
    } else if now.nanos >= s.config.start_time.nanos {
        Err(ContractError::AlreadyStarted)
    } else if now.nanos > start_time.nanos {
        Err(ContractError::InvalidStartTime(start_time, now))
    } else if start_time.nanos > s.config.end_time.nanos {
        Err(ContractError::InvalidStartTime(s.config.end_time, start_time))
    } else {
        Ok(
            (
                StateView { config: ConfigView { start_time, ..s.config }, ..s },
                ResponseView {
                    messages: seq![],
                    attributes: seq![
                        attr("action", AttrValue::Text("update_start_time")),
                        attr("sender", AttrValue::Address(info.sender)),
                        attr("start_time", AttrValue::Time(start_time)),
                    ],
                },
            ),
        )
    }
}

/// Changes the start of the sale.
pub fn execute_update_start_time(
    state: &mut MinterState,
    env: &Env,
    info: &MessageInfo,
    start_time: Timestamp,
) -> (result: Result<Response, ContractError>)
    requires
        old(state).wf(),
    ensures
        ends_as(
            *old(state),
            *final(state),
            result,
            update_start_time_spec(old(state)@, *env, *info, start_time),
        ),
{
    if !nonpayable(info) {
        return Err(ContractError::Payment(PaymentError::NonPayable));
    }
    if !(info.sender == state.config.extension.admin) {
        return Err(ContractError::Unauthorized(NOT_ADMIN));
    }
    // If current time is after the stored start time return error
    if env.block.time.nanos >= state.config.extension.start_time.nanos {
        return Err(ContractError::AlreadyStarted);
    }
    // If current time already passed the new start_time return error
    if env.block.time.nanos > start_time.nanos {
        return Err(ContractError::InvalidStartTime(start_time, env.block.time));
    }
    // If the new start_time is after end_time return error
    if start_time.nanos > state.config.extension.end_time.nanos {
        return Err(ContractError::InvalidStartTime(state.config.extension.end_time, start_time));
    }
    state.config.extension.start_time = start_time;
    let res = Response::new().add_attribute(
        "action",
        AttrValue::Text("update_start_time"),
    ).add_attribute("sender", AttrValue::Address(info.sender.clone())).add_attribute(
        "start_time",
        AttrValue::Time(start_time),
    );
    proof {
        let owed = update_start_time_spec(old(state)@, *env, *info, start_time)->Ok_0.1;
        assert(res@.messages =~= owed.messages);
        assert(res@.attributes =~= owed.attributes);
    }
    Ok(res)
}

/// What a change of the end of the sale is owed. It takes no funds, is the
/// administrator's, and comes before the sale has ended; the new end is
/// neither past nor before the start of the sale.
pub open spec fn update_end_time_spec(
    s: StateView,
    env: Env,
    info: MessageInfo,
    end_time: Timestamp,
) -> Expected {
    let now = env.block.time;
    if info.funds@.len() != 0 {
        Err(non_payable())
    } else if !is_admin_of(s, info) {
        Err(ContractError::Unauthorized(NOT_ADMIN))
    } else if now.nanos >= s.config.end_time.nanos {
        Err(ContractError::AlreadyStarted)
    } else if now.nanos > end_time.nanos {
        Err(ContractError::InvalidEndTime(end_time, now))
    } else if end_time.nanos < s.config.start_time.nanos {
        Err(ContractError::InvalidEndTime(end_time, s.config.start_time))
    } else {
        Ok(
            (
                StateView { config: ConfigView { end_time, ..s.config }, ..s },
                ResponseView {
                    messages: seq![],
                    attributes: seq![
                        attr("action", AttrValue::Text("update_end_time")),
                        attr("sender", AttrValue::Address(info.sender)),
                        attr("end_time", AttrValue::Time(end_time)),
                    ],
                },
            ),
        )
    }
}

/// Changes the end of the sale.
pub fn execute_update_end_time(
    state: &mut MinterState,
    env: &Env,
    info: &MessageInfo,
    end_time: Timestamp,
) -> (result: Result<Response, ContractError>)
    requires
        old(state).wf(),
    ensures
        ends_as(
            *old(state),
            *final(state),
            result,
            update_end_time_spec(old(state)@, *env, *info, end_time),
        ),
{
    if !nonpayable(info) {
        return Err(ContractError::Payment(PaymentError::NonPayable));
    }
    if !(info.sender == state.config.extension.admin) {
        return Err(ContractError::Unauthorized(NOT_ADMIN));
    }
    // If current time is after the stored end time return error
    if env.block.time.nanos >= state.config.extension.end_time.nanos {
        return Err(ContractError::AlreadyStarted);
    }
    // If current time already passed the new end_time return error
    if env.block.time.nanos > end_time.nanos {
        return Err(ContractError::InvalidEndTime(end_time, env.block.time));
    }
    // If the new end_time is before the start_time return error
    if end_time.nanos < state.config.extension.start_time.nanos {
        return Err(ContractError::InvalidEndTime(end_time, state.config.extension.start_time));
    }
    state.config.extension.end_time = end_time;
    let res = Response::new().add_attribute(
        "action",
        AttrValue::Text("update_end_time"),
    ).add_attribute("sender", AttrValue::Address(info.sender.clone())).add_attribute(
        "end_time",
        AttrValue::Time(end_time),
    );
    proof {
        let owed = update_end_time_spec(old(state)@, *env, *info, end_time)->Ok_0.1;
        assert(res@.messages =~= owed.messages);
        assert(res@.attributes =~= owed.attributes);
    }
    Ok(res)
}

/// What a change of the start of trading is owed. It takes no funds, needs
/// the collection to be bound, and is the administrator's. A new start of
/// trading is neither past nor later than the factory allows after the start
/// of the sale. The state stays as it is; the collection is told.
pub open spec fn update_start_trading_time_spec(
    s: StateView,
    env: Env,
    info: MessageInfo,
    start_time: Option<Timestamp>,
    factory: FactoryAnswer,
) -> Expected {
    let now = env.block.time;
    if info.funds@.len() != 0 {
        Err(non_payable())
    } else {
        match s.sg721_address {
            None => Err(ContractError::Std(StdFailure::NotFound { kind: "sg721_address" })),
            Some(sg721) => if !is_admin_of(s, info) {
                Err(ContractError::Unauthorized(NOT_ADMIN))
            } else {
                match factory {
                    Err(e) => Err(ContractError::Std(StdFailure::Host(e))),
                    Ok(answer) => {
                        let latest = Timestamp {
                            nanos: latest_trading_start(
                                s.config.start_time,
                                answer.params.max_trading_offset_secs,
                            ) as u64,
                        };
                        let told = Ok::<(StateView, ResponseView), ContractError>(
                            (
                                s,
                                ResponseView {
                                    messages: seq![
                                        plain(
                                            CosmosMsgView::Sg721UpdateStartTradingTime {
                                                contract_addr: sg721,
                                                start_time,
                                            },
                                        ),
                                    ],
                                    attributes: seq![
                                        attr(
                                            "action",
                                            AttrValue::Text("update_start_trading_time"),
                                        ),
                                        attr("sender", AttrValue::Address(info.sender)),
                                    ],
                                },
                            ),
                        );
                        match start_time {
                            None => told,
                            Some(t) => if now.nanos > t.nanos {
                                Err(ContractError::InvalidStartTradingTime(now, t))
                            } else if t.nanos > latest.nanos {
                                Err(ContractError::InvalidStartTradingTime(t, latest))
                            } else {
                                told
                            },
                        }
                    },
                }
            },
        }
    }
}

/// Whether the latest start of trading can be held in 64 bits, as far as a
/// change of the start of trading gets to compute it.
pub open spec fn update_start_trading_time_in_range(
    state: MinterState,
    info: MessageInfo,
    factory: FactoryAnswer,
) -> bool {
    match factory {
        Ok(answer) => info.funds@.len() == 0 && state.sg721_address is Some && is_admin_of(
            state@,
            info,
        ) ==> latest_trading_start(
            state.config.extension.start_time,
            answer.params.max_trading_offset_secs,
        ) <= u64::MAX,
        Err(_) => true,
    }
}

/// Whether a change of the start of trading stays within what the machine
/// can hold.
pub fn is_update_start_trading_time_in_range(
    state: &MinterState,
    info: &MessageInfo,
    factory: &FactoryAnswer,
) -> (fits: bool)
    ensures
        fits == update_start_trading_time_in_range(*state, *info, *factory),
{
    match factory {
        Err(_) => true,
        Ok(answer) => {
            if info.funds.len() != 0 || state.sg721_address.is_none() || !(info.sender
                == state.config.extension.admin) {
                true
            } else {
                offset_in_range(
                    state.config.extension.start_time,
                    answer.params.max_trading_offset_secs,
                )
            }
        },
    }
}

/// Changes the time from which the items may be traded.
pub fn execute_update_start_trading_time(
    state: &mut MinterState,
    env: &Env,
    info: &MessageInfo,
    start_time: Option<Timestamp>,
    factory: &FactoryAnswer,
) -> (result: Result<Response, ContractError>)
    requires
        old(state).wf(),
        update_start_trading_time_in_range(*old(state), *info, *factory),
    ensures
        ends_as(
            *old(state),
            *final(state),
            result,
            update_start_trading_time_spec(old(state)@, *env, *info, start_time, *factory),
        ),
{
    if !nonpayable(info) {
        return Err(ContractError::Payment(PaymentError::NonPayable));
    }
    let sg721_contract_addr = match &state.sg721_address {
        None => {
            return Err(ContractError::Std(StdFailure::NotFound { kind: "sg721_address" }));
        },
        Some(a) => a.clone(),
    };
    if !(info.sender == state.config.extension.admin) {
        return Err(ContractError::Unauthorized(NOT_ADMIN));
    }
    let factory_params = match factory {
        Err(e) => {
            return Err(ContractError::Std(StdFailure::Host(e.clone())));
        },
        Ok(answer) => &answer.params,
    };
    let default_start_time_with_offset = Timestamp {
        nanos: plus_seconds(
            state.config.extension.start_time.nanos,
            factory_params.max_trading_offset_secs,
        ),
    };
    match start_time {
        None => {},
        Some(start_trading_time) => {
            if env.block.time.nanos > start_trading_time.nanos {
                return Err(
                    ContractError::InvalidStartTradingTime(env.block.time, start_trading_time),
                );
            }
            // If new start_trading_time > old start time + offset, return error
            if start_trading_time.nanos > default_start_time_with_offset.nanos {
                return Err(
                    ContractError::InvalidStartTradingTime(
                        start_trading_time,
                        default_start_time_with_offset,
                    ),
                );
            }
        },
    }
    let msg = CosmosMsg::Sg721UpdateStartTradingTime {
        contract_addr: sg721_contract_addr,
        start_time,
    };
    let res = Response::new().add_attribute(
        "action",
        AttrValue::Text("update_start_trading_time"),
    ).add_attribute("sender", AttrValue::Address(info.sender.clone())).add_message(msg);
    proof {
        let owed = update_start_trading_time_spec(
            old(state)@,
            *env,
            *info,
            start_time,
            *factory,
        )->Ok_0.1;
        assert(res@.messages =~= owed.messages);
        assert(res@.attributes =~= owed.attributes);
    }
    Ok(res)
}

/// What a change of the cap is owed. It takes no funds and is the
/// administrator's; the new cap is at least one and at most what the factory
/// allows.
pub open spec fn update_per_address_limit_spec(
    s: StateView,
    info: MessageInfo,
    per_address_limit: u32,
    factory: FactoryAnswer,
) -> Expected {
    if info.funds@.len() != 0 {
        Err(non_payable())
    } else if !is_admin_of(s, info) {
        Err(ContractError::Unauthorized(NOT_ADMIN))
    } else {
        match factory {
            Err(e) => Err(ContractError::Std(StdFailure::Host(e))),
            Ok(answer) => {
                let max = answer.params.extension.max_per_address_limit;
                if per_address_limit == 0 || per_address_limit > max {
                    Err(
                        ContractError::InvalidPerAddressLimit {
                            max,
                            min: 1,
                            got: per_address_limit,
                        },
                    )
                } else {
                    Ok(
                        (
                            StateView { config: ConfigView { per_address_limit, ..s.config }, ..s },
                            ResponseView {
                                messages: seq![],
                                attributes: seq![
                                    attr("action", AttrValue::Text("update_per_address_limit")),
                                    attr("sender", AttrValue::Address(info.sender)),
                                    attr("limit", AttrValue::Number(per_address_limit as u128)),
                                ],
                            },
                        ),
                    )
                }
            },
        }
    }
}

/// Changes how many items one address may buy.
pub fn execute_update_per_address_limit(
    state: &mut MinterState,
    _env: &Env,
    info: &MessageInfo,
    per_address_limit: u32,
    factory: &FactoryAnswer,
) -> (result: Result<Response, ContractError>)
    requires
        old(state).wf(),
    ensures
        ends_as(
            *old(state),
            *final(state),
            result,
            update_per_address_limit_spec(old(state)@, *info, per_address_limit, *factory),
        ),
{
    if !nonpayable(info) {
        return Err(ContractError::Payment(PaymentError::NonPayable));
    }
    if !(info.sender == state.config.extension.admin) {
        return Err(ContractError::Unauthorized(NOT_ADMIN));
    }
    let factory_params = match factory {
        Err(e) => {
            return Err(ContractError::Std(StdFailure::Host(e.clone())));
        },
        Ok(answer) => &answer.params,
    };
    if per_address_limit == 0 || per_address_limit
        > factory_params.extension.max_per_address_limit {
        return Err(
            ContractError::InvalidPerAddressLimit {
                max: factory_params.extension.max_per_address_limit,
                min: 1,
                got: per_address_limit,
            },
        );
    }
    state.config.extension.per_address_limit = per_address_limit;
    let res = Response::new().add_attribute(
        "action",
        AttrValue::Text("update_per_address_limit"),
    ).add_attribute("sender", AttrValue::Address(info.sender.clone())).add_attribute(
        "limit",
        AttrValue::Number(per_address_limit as u128),
    );
    proof {
        let owed = update_per_address_limit_spec(
            old(state)@,
            *info,
            per_address_limit,
            *factory,
        )->Ok_0.1;
        assert(res@.messages =~= owed.messages);
        assert(res@.attributes =~= owed.attributes);
    }
    Ok(res)
}

} // verus!
