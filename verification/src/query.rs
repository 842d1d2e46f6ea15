//! The read-only side of the controller: what it answers about the sale.

use crate::contract::FactoryAnswer;
use crate::counts::count_of;
use crate::error::StdFailure;
use crate::msg::{
    ConfigResponse, ConfigResponseView, EndTimeResponse, MintCountResponse, MintPriceResponse,
    QueryMsg, QueryResponse, QueryResponseView, StartTimeResponse, StatusResponse,
    TotalMintCountResponse,
};
use crate::state::{MinterState, StateView};
use crate::types::{amount_of, coin, Coin, Token};
use vstd::prelude::*;

verus! {

/// What is absent while the collection is not bound.
pub open spec fn not_bound() -> StdFailure {
    StdFailure::NotFound { kind: "sg721_address" }
}

/// The configuration of the sale, with the collection it is bound to. There is
/// none to report before the collection is bound, and none where the price is
/// not an amount of one denomination.
pub open spec fn query_config_spec(s: StateView) -> Result<ConfigResponseView, StdFailure> {
    match s.sg721_address {
        None => Err(not_bound()),
        Some(sg721_address) => match s.config.mint_price {
            Token::NonFungible(_) => Err(amount_of(s.config.mint_price)->Err_0),
            Token::Fungible(price) => Ok(
                ConfigResponseView {
                    admin: s.config.admin,
                    nft_data: s.config.nft_data,
                    payment_address: s.config.payment_address,
                    per_address_limit: s.config.per_address_limit,
                    end_time: s.config.end_time,
                    sg721_address,
                    sg721_code_id: s.config.collection_code_id,
                    start_time: s.config.start_time,
                    mint_price: price,
                    factory: s.config.factory,
                },
            ),
        },
    }
}

/// Reports the configuration of the sale.
pub fn query_config(state: &MinterState) -> (answer: Result<ConfigResponse, StdFailure>)
    ensures
        match query_config_spec(state@) {
            Ok(v) => answer matches Ok(r) && r@ == v,
            Err(e) => answer == Err::<ConfigResponse, StdFailure>(e),
        },
{
    let sg721_address = match &state.sg721_address {
        None => {
            return Err(StdFailure::NotFound { kind: "sg721_address" });
        },
        Some(a) => a.clone(),
    };
    let config_mint_price = match state.config.mint_price.amount() {
        Err(e) => {
            return Err(e);
        },
        Ok(a) => a,
    };
    let config_denom = match state.config.mint_price.denom() {
        Err(e) => {
            return Err(e);
        },
        Ok(d) => d,
    };
    Ok(
        ConfigResponse {
            admin: state.config.extension.admin.clone(),
            nft_data: state.config.extension.nft_data.clone(),
            payment_address: state.config.extension.payment_address.clone(),
            per_address_limit: state.config.extension.per_address_limit,
            end_time: state.config.extension.end_time,
            sg721_address,
            sg721_code_id: state.config.collection_code_id,
            start_time: state.config.extension.start_time,
            mint_price: coin(config_mint_price, &config_denom),
            factory: state.config.factory.clone(),
        },
    )
}

/// Reports how the edition is shown to the public.
pub fn query_status(state: &MinterState) -> (answer: Result<StatusResponse, StdFailure>)
    ensures
        answer == Ok::<StatusResponse, StdFailure>(StatusResponse { status: state.status }),
{
    Ok(StatusResponse { status: state.status })
}

/// Reports how many items an address has bought. The address is one that the
/// host has checked.
pub fn query_mint_count_per_address(state: &MinterState, address: String) -> (answer: Result<
    MintCountResponse,
    StdFailure,
>)
    requires
        state.minter_addrs.wf(),
    ensures
        answer == Ok::<MintCountResponse, StdFailure>(
            MintCountResponse { address, count: count_of(state@.minter_addrs, address@) },
        ),
{
    let count = state.minter_addrs.get(&address);
    Ok(MintCountResponse { address, count })
}

/// Reports how many items were sold.
pub fn query_mint_count(state: &MinterState) -> (answer: Result<TotalMintCountResponse, StdFailure>)
    ensures
        answer == Ok::<TotalMintCountResponse, StdFailure>(
            TotalMintCountResponse { count: state.total_mint_count },
        ),
{
    Ok(TotalMintCountResponse { count: state.total_mint_count })
}

/// Reports the start of the sale.
pub fn query_start_time(state: &MinterState) -> (answer: Result<StartTimeResponse, StdFailure>)
    ensures
        answer == Ok::<StartTimeResponse, StdFailure>(
            StartTimeResponse { start_time: state.config.extension.start_time },
        ),
{
    Ok(StartTimeResponse { start_time: state.config.extension.start_time })
}

/// Reports the end of the sale.
pub fn query_end_time(state: &MinterState) -> (answer: Result<EndTimeResponse, StdFailure>)
    ensures
        answer == Ok::<EndTimeResponse, StdFailure>(
            EndTimeResponse { end_time: state.config.extension.end_time },
        ),
{
    Ok(EndTimeResponse { end_time: state.config.extension.end_time })
}

/// The prices of one item: the configured price, which is also the current
/// one, and the factory's airdrop price in the configured denomination. There
/// are none to report where the factory did not answer or the configured price
/// is not an amount of one denomination.
pub open spec fn query_mint_price_spec(s: StateView, factory: FactoryAnswer) -> Result<
    MintPriceResponse,
    StdFailure,
> {
    match factory {
        Err(e) => Err(StdFailure::Host(e)),
        Ok(answer) => match s.config.mint_price {
            Token::NonFungible(_) => Err(amount_of(s.config.mint_price)->Err_0),
            Token::Fungible(price) => Ok(
                MintPriceResponse {
                    public_price: price,
                    airdrop_price: Coin {
                        denom: price.denom,
                        amount: answer.params.extension.airdrop_mint_price.amount,
                    },
                    current_price: price,
                },
            ),
        },
    }
}

/// Reports the prices of one item.
pub fn query_mint_price(state: &MinterState, factory: &FactoryAnswer) -> (answer: Result<
    MintPriceResponse,
    StdFailure,
>)
    ensures
        answer == query_mint_price_spec(state@, *factory),
{
    let factory_params = match factory {
        Err(e) => {
            return Err(StdFailure::Host(e.clone()));
        },
        Ok(answer) => &answer.params,
    };
    let config_mint_price = match state.config.mint_price.amount() {
        Err(e) => {
            return Err(e);
        },
        Ok(a) => a,
    };
    let config_denom = match state.config.mint_price.denom() {
        Err(e) => {
            return Err(e);
        },
        Ok(d) => d,
    };
    let current_price = coin(config_mint_price, &config_denom);
    let airdrop_price = coin(factory_params.extension.airdrop_mint_price.amount, &config_denom);
    Ok(
        MintPriceResponse {
            public_price: coin(config_mint_price, &config_denom),
            airdrop_price,
            current_price,
        },
    )
}

/// What a question is answered with.
pub open spec fn query_spec(s: StateView, msg: QueryMsg, factory: FactoryAnswer) -> Result<
    QueryResponseView,
    StdFailure,
> {
    match msg {
        QueryMsg::Config => match query_config_spec(s) {
            Ok(r) => Ok(QueryResponseView::Config(r)),
            Err(e) => Err(e),
        },
        QueryMsg::Status => Ok(QueryResponseView::Status(StatusResponse { status: s.status })),
        QueryMsg::StartTime => Ok(
            QueryResponseView::StartTime(StartTimeResponse { start_time: s.config.start_time }),
        ),
        QueryMsg::EndTime => Ok(
            QueryResponseView::EndTime(EndTimeResponse { end_time: s.config.end_time }),
        ),
        QueryMsg::MintPrice => match query_mint_price_spec(s, factory) {
            Ok(r) => Ok(QueryResponseView::MintPrice(r)),
            Err(e) => Err(e),
        },
        QueryMsg::MintCount { address } => Ok(
            QueryResponseView::MintCount(
                MintCountResponse { address, count: count_of(s.minter_addrs, address@) },
            ),
        ),
        QueryMsg::TotalMintCount => Ok(
            QueryResponseView::TotalMintCount(TotalMintCountResponse { count: s.total_mint_count }),
        ),
    }
}

/// Answers a question about the sale. The state is never changed.
pub fn query(state: &MinterState, msg: QueryMsg, factory: &FactoryAnswer) -> (answer: Result<
    QueryResponse,
    StdFailure,
>)
    requires
        state.minter_addrs.wf(),
    ensures
        match query_spec(state@, msg, *factory) {
            Ok(v) => answer matches Ok(r) && r@ == v,
            Err(e) => answer == Err::<QueryResponse, StdFailure>(e),
        },
{
    match msg {
        QueryMsg::Config => match query_config(state) {
            Ok(r) => Ok(QueryResponse::Config(r)),
            Err(e) => Err(e),
        },
        QueryMsg::Status => match query_status(state) {
            Ok(r) => Ok(QueryResponse::Status(r)),
            Err(e) => Err(e),
        },
        QueryMsg::StartTime => match query_start_time(state) {
            Ok(r) => Ok(QueryResponse::StartTime(r)),
            Err(e) => Err(e),
        },
        QueryMsg::EndTime => match query_end_time(state) {
            Ok(r) => Ok(QueryResponse::EndTime(r)),
            Err(e) => Err(e),
        },
        QueryMsg::MintPrice => match query_mint_price(state, factory) {
            Ok(r) => Ok(QueryResponse::MintPrice(r)),
            Err(e) => Err(e),
        },
        QueryMsg::MintCount { address } => match query_mint_count_per_address(state, address) {
            Ok(r) => Ok(QueryResponse::MintCount(r)),
            Err(e) => Err(e),
        },
        QueryMsg::TotalMintCount => match query_mint_count(state) {
            Ok(r) => Ok(QueryResponse::TotalMintCount(r)),
            Err(e) => Err(e),
        },
    }
}

} // verus!
