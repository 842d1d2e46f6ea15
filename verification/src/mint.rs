//! Purchases: the price for each role, the check of the payment, the split of
//! the price between the network and the seller, and the sale itself.

use crate::contract::{
    attr, ends_as, is_admin_of, Expected, FactoryAnswer, NOT_ADMIN, NOT_BURN_COLLECTION,
};
use crate::counts::count_of;
use crate::error::{ContractError, OverflowOperation, StdFailure};
use crate::msg::Cw721ReceiveMsg;
use crate::outside::{has_foreign, may_pay, paid_spec, payable};
use crate::pricing::{fee_fits, fee_in_range, network_fee, network_fee_of, seller_amount};
use crate::response::{
    plain, AttrValue, Attribute, CosmosMsg, CosmosMsgView, Response, ResponseView, SubMsgView,
};
use crate::state::{increment_token_index, MinterState, StateView};
use crate::types::{
    addresses_of, coin, Coin, Config, ConfigExtension, ConfigView, Env, MessageInfo, Metadata,
    MinterParams, NftDataView, NftMetadataType, Token,
};
use vstd::prelude::*;

verus! {

/// Whether an address is on a list.
pub open spec fn is_listed(address: Seq<char>, list: Seq<String>) -> bool {
    exists|i: int| 0 <= i < list.len() && (#[trigger] list[i])@ == address
}

/// Whether the sender is one of the collections whose items are taken in
/// place of payment.
pub open spec fn is_allowed_burn_collection(sender: String, allowed: Option<Seq<String>>) -> bool {
    match allowed {
        Some(list) => is_listed(sender@, list),
        None => false,
    }
}

/// Whether the sender is one of the collections whose items are taken in
/// place of payment.
pub fn sender_is_allowed_burn_collection(
    info: &MessageInfo,
    allowed_burn_collections: &Option<Vec<String>>,
) -> (allowed: bool)
    ensures
        allowed == is_allowed_burn_collection(info.sender, addresses_of(*allowed_burn_collections)),
{
    match allowed_burn_collections {
        None => false,
        Some(list) => {
            let mut i: usize = 0;
            while i < list.len()
                invariant
                    i <= list@.len(),
                    addresses_of(*allowed_burn_collections) == Some(list@),
                    forall|j: int| 0 <= j < i ==> (#[trigger] list@[j])@ != info.sender@,
                decreases list@.len() - i,
            {
                if list[i] == info.sender {
                    assert(is_listed(info.sender@, list@)) by {
                        assert(list@[i as int]@ == info.sender@);
                    }
                    return true;
                }
                i += 1;
            }
            false
        },
    }
}

/// The price of one item: the factory's airdrop price for the administrator,
/// the configured price for everyone else, both in the configured
/// denomination. It fails where the configured price is not an amount of one
/// denomination, and for the administrator where the factory did not answer.
pub open spec fn mint_price_spec(
    config: ConfigView,
    is_admin: bool,
    factory: FactoryAnswer,
) -> Result<Coin, ContractError> {
    match config.mint_price {
        Token::NonFungible(_) => Err(ContractError::IncorrectFungibility),
        Token::Fungible(price) => if is_admin {
            match factory {
                Err(e) => Err(ContractError::Std(StdFailure::Host(e))),
                Ok(answer) => Ok(
                    Coin {
                        denom: price.denom,
                        amount: answer.params.extension.airdrop_mint_price.amount,
                    },
                ),
            }
        } else {
            Ok(price)
        },
    }
}

/// The price of one item for the administrator or for everyone else.
pub fn mint_price(config: &Config, is_admin: bool, factory: &FactoryAnswer) -> (price: Result<
    Coin,
    ContractError,
>)
    ensures
        price == mint_price_spec(config@, is_admin, *factory),
{
    match &config.mint_price {
        Token::NonFungible(_) => Err(ContractError::IncorrectFungibility),
        Token::Fungible(price) => {
            if is_admin {
                match factory {
                    Err(e) => Err(ContractError::Std(StdFailure::Host(e.clone()))),
                    Ok(answer) => Ok(
                        coin(answer.params.extension.airdrop_mint_price.amount, &price.denom),
                    ),
                }
            } else {
                Ok(price.clone())
            }
        },
    }
}

/// Whether funds can be told to pay or not.
pub fn is_payable(funds: &Vec<Coin>, denom: &String) -> (can: bool)
    ensures
        can == payable(funds@, denom@),
{
    if funds.len() <= 1 {
        return true;
    }
    let mut i: usize = 0;
    while i < funds.len()
        invariant
            i <= funds@.len(),
            forall|j: int| 0 <= j < i ==> (#[trigger] funds@[j]).denom@ == denom@,
        decreases funds@.len() - i,
    {
        if !(funds[i].denom == *denom) {
            assert(has_foreign(funds@, denom@)) by {
                assert(funds@[i as int].denom@ != denom@);
            }
            return true;
        }
        i += 1;
    }
    false
}

/// What a buyer has paid towards a price. A collection whose items are taken
/// in place of payment pays nothing; everyone else must have sent the price
/// exactly.
pub open spec fn payment_spec(
    info: MessageInfo,
    price: Coin,
    config_denom: String,
    allowed: Option<Seq<String>>,
) -> Result<u128, ContractError> {
    if is_allowed_burn_collection(info.sender, allowed) {
        Ok(0)
    } else {
        match paid_spec(info.funds@, config_denom@) {
            Err(e) => Err(ContractError::Payment(e)),
            Ok(paid) => if paid != price.amount {
                Err(
                    ContractError::IncorrectPaymentAmount(
                        Coin { denom: config_denom, amount: paid },
                        price,
                    ),
                )
            } else {
                Ok(paid)
            },
        }
    }
}

/// Checks that the price was paid exactly, unless the sender pays with an
/// item.
pub fn pay_mint_if_not_burn_collection(
    info: &MessageInfo,
    mint_price_with_discounts: &Coin,
    config_denom: &String,
    allowed_burn_collections: &Option<Vec<String>>,
) -> (paid: Result<u128, ContractError>)
    requires
        !is_allowed_burn_collection(info.sender, addresses_of(*allowed_burn_collections))
            ==> payable(info.funds@, config_denom@),
    ensures
        paid == payment_spec(
            *info,
            *mint_price_with_discounts,
            *config_denom,
            addresses_of(*allowed_burn_collections),
        ),
{
    if sender_is_allowed_burn_collection(info, allowed_burn_collections) {
        Ok(0)
    } else {
        match may_pay(info, config_denom.as_str()) {
            Err(e) => Err(ContractError::Payment(e)),
            Ok(payment) => {
                if payment != mint_price_with_discounts.amount {
                    Err(
                        ContractError::IncorrectPaymentAmount(
                            coin(payment, config_denom),
                            mint_price_with_discounts.clone(),
                        ),
                    )
                } else {
                    Ok(payment)
                }
            },
        }
    }
}

/// The payment of an amount, as a message to the bank.
pub open spec fn bank_send(to_address: String, denom: String, amount: u128) -> SubMsgView {
    plain(CosmosMsgView::BankSend { to_address, amount: Coin { denom, amount } })
}

/// The network's share of a sale: nothing where the sender pays with an item.
pub open spec fn fee_spec(burn: bool, price: Coin, mint_fee_bps: u64) -> u128 {
    if burn {
        0
    } else {
        network_fee_of(price.amount, mint_fee_bps) as u128
    }
}

/// The message that pays the network's share to the recipient of the
/// developer fee. A share of zero is not sent.
pub open spec fn fee_messages(fee: u128, denom: String, dev_fee_address: String) -> Seq<
    SubMsgView,
> {
    if fee > 0 {
        seq![bank_send(dev_fee_address, denom, fee)]
    } else {
        seq![]
    }
}

/// Computes the network's share of a sale and the message that pays it.
pub fn fairburn_if_not_burn_collection(
    info: &MessageInfo,
    mint_price_with_discounts: &Coin,
    mint_fee_bps: u64,
    factory_params: &MinterParams,
    allowed_burn_collections: &Option<Vec<String>>,
) -> (out: (Response, u128))
    requires
        !is_allowed_burn_collection(info.sender, addresses_of(*allowed_burn_collections))
            ==> fee_fits(mint_price_with_discounts.amount, mint_fee_bps),
    ensures
        out.1 == fee_spec(
            is_allowed_burn_collection(info.sender, addresses_of(*allowed_burn_collections)),
            *mint_price_with_discounts,
            mint_fee_bps,
        ),
        out.0@ == (ResponseView {
            messages: fee_messages(
                out.1,
                mint_price_with_discounts.denom,
                factory_params.extension.dev_fee_address,
            ),
            attributes: Seq::empty(),
        }),
{
    let res = Response::new();
    if sender_is_allowed_burn_collection(info, allowed_burn_collections) {
        assert(res@.messages =~= fee_messages(
            0,
            mint_price_with_discounts.denom,
            factory_params.extension.dev_fee_address,
        ));
        (res, 0)
    } else {
        let fee = network_fee(mint_price_with_discounts.amount, mint_fee_bps);
        if fee > 0 {
            let res = res.add_message(
                CosmosMsg::BankSend {
                    to_address: factory_params.extension.dev_fee_address.clone(),
                    amount: coin(fee, &mint_price_with_discounts.denom),
                },
            );
            assert(res@.messages =~= fee_messages(
                fee,
                mint_price_with_discounts.denom,
                factory_params.extension.dev_fee_address,
            ));
            (res, fee)
        } else {
            assert(res@.messages =~= fee_messages(
                fee,
                mint_price_with_discounts.denom,
                factory_params.extension.dev_fee_address,
            ));
            (res, fee)
        }
    }
}

/// What is left for the seller of a sale: nothing where the sender pays with
/// an item, else the price less the network's share. It fails where the share
/// is larger than the price.
pub open spec fn seller_spec(burn: bool, price: Coin, network_fee: u128) -> Result<
    u128,
    ContractError,
> {
    if burn {
        Ok(0)
    } else if network_fee > price.amount {
        Err(
            ContractError::Std(
                StdFailure::Overflow {
                    operation: OverflowOperation::Sub,
                    operand1: price.amount,
                    operand2: network_fee,
                },
            ),
        )
    } else {
        Ok((price.amount - network_fee) as u128)
    }
}

/// The message that pays the seller: to the payment address where one is
/// configured, else to the administrator. An amount of zero is not sent.
pub open spec fn seller_messages(
    amount: u128,
    denom: String,
    payment_address: Option<String>,
    admin: String,
) -> Seq<SubMsgView> {
    if amount > 0 {
        seq![
            bank_send(
                match payment_address {
                    Some(a) => a,
                    None => admin,
                },
                denom,
                amount,
            ),
        ]
    } else {
        seq![]
    }
}

/// Computes what is left for the seller and adds the message that pays it.
pub fn _compute_seller_amount_if_not_contract_sender(
    info: &MessageInfo,
    res: Response,
    mint_price_with_discounts: &Coin,
    network_fee: u128,
    config_extension: &ConfigExtension,
    allowed_burn_collections: &Option<Vec<String>>,
) -> (out: Result<(Response, u128), ContractError>)
    ensures
        match seller_spec(
            is_allowed_burn_collection(info.sender, addresses_of(*allowed_burn_collections)),
            *mint_price_with_discounts,
            network_fee,
        ) {
            Ok(amount) => {
                &&& out matches Ok((r, a))
                &&& a == amount
                &&& r@ == (ResponseView {
                    messages: res@.messages + seller_messages(
                        amount,
                        mint_price_with_discounts.denom,
                        config_extension.payment_address,
                        config_extension.admin,
                    ),
                    attributes: res@.attributes,
                })
            },
            Err(e) => out == Err::<(Response, u128), ContractError>(e),
        },
{
    if sender_is_allowed_burn_collection(info, allowed_burn_collections) {
        assert(res@.messages =~= res@.messages + seller_messages(
            0,
            mint_price_with_discounts.denom,
            config_extension.payment_address,
            config_extension.admin,
        ));
        Ok((res, 0))
    } else {
        match seller_amount(mint_price_with_discounts.amount, network_fee) {
            None => Err(
                ContractError::Std(
                    StdFailure::Overflow {
                        operation: OverflowOperation::Sub,
                        operand1: mint_price_with_discounts.amount,
                        operand2: network_fee,
                    },
                ),
            ),
            Some(amount) => {
                let ghost before = res@;
                let ghost owed = seller_messages(
                    amount,
                    mint_price_with_discounts.denom,
                    config_extension.payment_address,
                    config_extension.admin,
                );
                if amount > 0 {
                    let to_address = match &config_extension.payment_address {
                        Some(a) => a.clone(),
                        None => config_extension.admin.clone(),
                    };
                    let res = res.add_message(
                        CosmosMsg::BankSend {
                            to_address,
                            amount: coin(amount, &mint_price_with_discounts.denom),
                        },
                    );
                    assert(res@.messages =~= before.messages + owed);
                    Ok((res, amount))
                } else {
                    assert(res@.messages =~= before.messages + owed);
                    Ok((res, amount))
                }
            },
        }
    }
}

/// The message that creates an item: with the inline metadata where the
/// edition keeps its metadata on chain, with the locator where it does not.
pub open spec fn mint_message(
    sg721_address: String,
    token_id: u64,
    owner: String,
    nft_data: NftDataView,
) -> SubMsgView {
    plain(
        CosmosMsgView::Sg721Mint {
            contract_addr: sg721_address,
            token_id,
            owner,
            extension: match nft_data.nft_data_type {
                NftMetadataType::OnChainMetadata => nft_data.extension,
                NftMetadataType::OffChainMetadata => None,
            },
            token_uri: match nft_data.nft_data_type {
                NftMetadataType::OnChainMetadata => None,
                NftMetadataType::OffChainMetadata => nft_data.token_uri,
            },
        },
    )
}

/// Builds the message that creates an item in the collection.
pub fn mint_nft_msg(
    sg721_address: String,
    token_id: u64,
    recipient_addr: String,
    extension: Option<Metadata>,
    token_uri: Option<String>,
) -> (msg: CosmosMsg)
    ensures
        msg == (CosmosMsg::Sg721Mint {
            contract_addr: sg721_address,
            token_id,
            owner: recipient_addr,
            extension,
            token_uri,
        }),
{
    CosmosMsg::Sg721Mint {
        contract_addr: sg721_address,
        token_id,
        owner: recipient_addr,
        extension,
        token_uri,
    }
}

/// The state after a sale to an address: one more item sold, the next
/// identifier taken, one more item counted for the address.
pub open spec fn minted_state(s: StateView, recipient: String) -> StateView {
    StateView {
        total_mint_count: (s.total_mint_count + 1) as u32,
        token_index: (s.token_index + 1) as u64,
        minter_addrs: s.minter_addrs.insert(
            recipient@,
            (count_of(s.minter_addrs, recipient@) + 1) as u32,
        ),
        ..s
    }
}

/// The attributes of a sale.
pub open spec fn minted_attributes(
    action: &'static str,
    sender: String,
    recipient: String,
    token_id: u64,
    network_fee: u128,
    price: u128,
    seller_amount: u128,
) -> Seq<Attribute> {
    seq![
        attr("action", AttrValue::Text(action)),
        attr("sender", AttrValue::Address(sender)),
        attr("recipient", AttrValue::Address(recipient)),
        attr("token_id", AttrValue::Number(token_id as u128)),
        attr("network_fee", AttrValue::Number(network_fee)),
        attr("mint_price", AttrValue::Number(price)),
        attr("seller_amount", AttrValue::Number(seller_amount)),
    ]
}

/// The rate of the network's share in basis points: the airdrop rate for the
/// administrator, the ordinary rate for everyone else.
pub open spec fn fee_rate(params: MinterParams, is_admin: bool) -> u64 {
    if is_admin {
        params.extension.airdrop_mint_fee_bps
    } else {
        params.mint_fee_bps
    }
}

/// What a sale is owed once the window and the cap are checked. It fails
/// where the collection is not bound yet, where there is no price, where the
/// price was not paid exactly, where the factory did not answer, and where the
/// network's share is larger than the price. Otherwise the item with the next
/// identifier is created for the recipient, the network's share and the
/// seller's rest are paid out, and the sale is counted.
pub open spec fn mint_spec(
    s: StateView,
    info: MessageInfo,
    action: &'static str,
    is_admin: bool,
    recipient: Option<String>,
    factory: FactoryAnswer,
) -> Expected {
    let allowed = s.config.allowed_burn_collections;
    let burn = is_allowed_burn_collection(info.sender, allowed);
    let to = match recipient {
        Some(r) => r,
        None => info.sender,
    };
    match s.sg721_address {
        None => Err(ContractError::Std(StdFailure::NotFound { kind: "sg721_address" })),
        Some(sg721) => match mint_price_spec(s.config, is_admin, factory) {
            Err(e) => Err(e),
            Ok(price) => match payment_spec(info, price, price.denom, allowed) {
                Err(e) => Err(e),
                Ok(_) => match factory {
                    Err(e) => Err(ContractError::Std(StdFailure::Host(e))),
                    Ok(answer) => {
                        let fee = fee_spec(burn, price, fee_rate(answer.params, is_admin));
                        match seller_spec(burn, price, fee) {
                            Err(e) => Err(e),
                            Ok(rest) => Ok(
                                (
                                    minted_state(s, to),
                                    ResponseView {
                                        messages: fee_messages(
                                            fee,
                                            price.denom,
                                            answer.params.extension.dev_fee_address,
                                        ).push(
                                            mint_message(
                                                sg721,
                                                s.token_index,
                                                to,
                                                s.config.nft_data,
                                            ),
                                        ) + seller_messages(
                                            rest,
                                            price.denom,
                                            s.config.payment_address,
                                            s.config.admin,
                                        ),
                                        attributes: minted_attributes(
                                            action,
                                            info.sender,
                                            to,
                                            s.token_index,
                                            fee,
                                            price.amount,
                                            rest,
                                        ),
                                    },
                                ),
                            ),
                        }
                    },
                },
            },
        }
    }
}

/// Whether a sale stays within what the machine can hold: the count of items
/// sold can grow by one and, unless the sender pays with an item, the funds
/// can be told to pay or not and the network's share of the price fits 128
/// bits.
pub open spec fn mint_in_range(
    state: MinterState,
    info: MessageInfo,
    is_admin: bool,
    factory: FactoryAnswer,
) -> bool {
    &&& state.total_mint_count < u32::MAX
    &&& match state.config.mint_price {
        Token::Fungible(price) => is_allowed_burn_collection(
            info.sender,
            addresses_of(state.config.allowed_burn_collections),
        ) || {
            &&& payable(info.funds@, price.denom@)
            &&& match factory {
                Ok(answer) => fee_fits(
                    if is_admin {
                        answer.params.extension.airdrop_mint_price.amount
                    } else {
                        price.amount
                    },
                    fee_rate(answer.params, is_admin),
                ),
                Err(_) => true,
            }
        },
        Token::NonFungible(_) => true,
    }
}

/// Whether a sale stays within what the machine can hold.
pub fn is_mint_in_range(
    state: &MinterState,
    info: &MessageInfo,
    is_admin: bool,
    factory: &FactoryAnswer,
) -> (fits: bool)
    ensures
        fits == mint_in_range(*state, *info, is_admin, *factory),
{
    if state.total_mint_count == u32::MAX {
        return false;
    }
    match &state.config.mint_price {
        Token::NonFungible(_) => true,
        Token::Fungible(price) => {
            if sender_is_allowed_burn_collection(info, &state.config.allowed_burn_collections) {
                return true;
            }
            if !is_payable(&info.funds, &price.denom) {
                return false;
            }
            match factory {
                Err(_) => true,
                Ok(answer) => {
                    if is_admin {
                        fee_in_range(
                            answer.params.extension.airdrop_mint_price.amount,
                            answer.params.extension.airdrop_mint_fee_bps,
                        )
                    } else {
                        fee_in_range(price.amount, answer.params.mint_fee_bps)
                    }
                },
            }
        },
    }
}

/// Sells one item: to the sender, or to the recipient that the administrator
/// names.
pub fn _execute_mint(
    state: &mut MinterState,
    info: &MessageInfo,
    action: &'static str,
    is_admin: bool,
    recipient: Option<String>,
    factory: &FactoryAnswer,
) -> (result: Result<Response, ContractError>)
    requires
        old(state).wf(),
        mint_in_range(*old(state), *info, is_admin, *factory),
    ensures
        ends_as(
            *old(state),
            *final(state),
            result,
            mint_spec(old(state)@, *info, action, is_admin, recipient, *factory),
        ),
{
    let sg721_address = match &state.sg721_address {
        None => {
            return Err(ContractError::Std(StdFailure::NotFound { kind: "sg721_address" }));
        },
        Some(a) => a.clone(),
    };
    let recipient_addr = match recipient {
        Some(r) => r,
        None => info.sender.clone(),
    };
    let mint_price_with_discounts = match mint_price(&state.config, is_admin, factory) {
        Err(e) => {
            return Err(e);
        },
        Ok(p) => p,
    };
    let config_denom = match state.config.mint_price.denom() {
        Err(_) => {
            return Err(ContractError::IncorrectFungibility);
        },
        Ok(d) => d,
    };
    // Exact payment only accepted
    match pay_mint_if_not_burn_collection(
        info,
        &mint_price_with_discounts,
        &config_denom,
        &state.config.allowed_burn_collections,
    ) {
        Err(e) => {
            return Err(e);
        },
        Ok(_) => {},
    }
    let factory_params = match factory {
        Err(e) => {
            return Err(ContractError::Std(StdFailure::Host(e.clone())));
        },
        Ok(answer) => &answer.params,
    };
    let mint_fee_bps = if is_admin {
        factory_params.extension.airdrop_mint_fee_bps
    } else {
        factory_params.mint_fee_bps
    };
    let (res, network_fee) = fairburn_if_not_burn_collection(
        info,
        &mint_price_with_discounts,
        mint_fee_bps,
        factory_params,
        &state.config.allowed_burn_collections,
    );
    // The identifier is taken only once nothing can fail any more.
    let token_id = state.token_index;
    let msg = mint_nft_msg(
        sg721_address,
        token_id,
        recipient_addr.clone(),
        match state.config.extension.nft_data.nft_data_type {
            NftMetadataType::OnChainMetadata => match &state.config.extension.nft_data.extension {
                Some(m) => Some(m.clone()),
                None => None,
            },
            NftMetadataType::OffChainMetadata => None,
        },
        match state.config.extension.nft_data.nft_data_type {
            NftMetadataType::OnChainMetadata => None,
            NftMetadataType::OffChainMetadata => state.config.extension.nft_data.token_uri.clone(),
        },
    );
    let res = res.add_message(msg);
    let (res, seller_amount) = match _compute_seller_amount_if_not_contract_sender(
        info,
        res,
        &mint_price_with_discounts,
        network_fee,
        &state.config.extension,
        &state.config.allowed_burn_collections,
    ) {
        Err(e) => {
            return Err(e);
        },
        Ok(out) => out,
    };
    let id = increment_token_index(state);
    // Save the new mint count for the recipient's address
    let count = state.minter_addrs.get(&recipient_addr);
    proof {
        state.minter_addrs.lemma_bounded(state.total_mint_count, recipient_addr@);
        assert(state.minter_addrs.bounded_by((state.total_mint_count + 1) as u32));
    }
    state.minter_addrs.set(&recipient_addr, count + 1);
    // Update the mint count
    state.total_mint_count = state.total_mint_count + 1;
    let res = res.add_attribute("action", AttrValue::Text(action)).add_attribute(
        "sender",
        AttrValue::Address(info.sender.clone()),
    ).add_attribute("recipient", AttrValue::Address(recipient_addr)).add_attribute(
        "token_id",
        AttrValue::Number(id as u128),
    ).add_attribute("network_fee", AttrValue::Number(network_fee)).add_attribute(
        "mint_price",
        AttrValue::Number(mint_price_with_discounts.amount),
    ).add_attribute("seller_amount", AttrValue::Number(seller_amount));
    proof {
        let owed = mint_spec(old(state)@, *info, action, is_admin, recipient, *factory);
        assert(res@.messages =~= owed->Ok_0.1.messages);
        assert(res@.attributes =~= owed->Ok_0.1.attributes);
    }
    Ok(res)
}

/// What a purchase for the sender is owed. The sale is open from its start
/// on and closed from its end on, and the sender must be below the cap; the
/// rest is as for every sale.
pub open spec fn mint_sender_spec(
    s: StateView,
    env: Env,
    info: MessageInfo,
    factory: FactoryAnswer,
) -> Expected {
    if env.block.time.nanos < s.config.start_time.nanos {
        Err(ContractError::BeforeMintStartTime)
    } else if env.block.time.nanos >= s.config.end_time.nanos {
        Err(ContractError::AfterMintEndTime)
    } else if count_of(s.minter_addrs, info.sender@) >= s.config.per_address_limit {
        Err(ContractError::MaxPerAddressLimitExceeded)
    } else {
        mint_spec(s, info, "mint_sender", false, None, factory)
    }
}

/// Sells one item to the sender.
pub fn execute_mint_sender(
    state: &mut MinterState,
    env: &Env,
    info: &MessageInfo,
    factory: &FactoryAnswer,
) -> (result: Result<Response, ContractError>)
    requires
        old(state).wf(),
        mint_in_range(*old(state), *info, false, *factory),
    ensures
        ends_as(
            *old(state),
            *final(state),
            result,
            mint_sender_spec(old(state)@, *env, *info, *factory),
        ),
{
    let action = "mint_sender";
    // Check if after start_time and before end time
    if env.block.time.nanos < state.config.extension.start_time.nanos {
        return Err(ContractError::BeforeMintStartTime);
    }
    if env.block.time.nanos >= state.config.extension.end_time.nanos {
        return Err(ContractError::AfterMintEndTime);
    }
    // Check if already minted max per address limit
    if mint_count_per_addr(state, info) >= state.config.extension.per_address_limit {
        return Err(ContractError::MaxPerAddressLimitExceeded);
    }
    _execute_mint(state, info, action, false, None, factory)
}

/// What a sale by the administrator to a recipient is owed. Only the
/// administrator may ask for it, and only before the end of the sale; neither
/// the start of the sale nor the cap holds it back.
pub open spec fn mint_to_spec(
    s: StateView,
    env: Env,
    info: MessageInfo,
    recipient: String,
    factory: FactoryAnswer,
) -> Expected {
    if !is_admin_of(s, info) {
        Err(ContractError::Unauthorized(NOT_ADMIN))
    } else if env.block.time.nanos >= s.config.end_time.nanos {
        Err(ContractError::AfterMintEndTime)
    } else {
        mint_spec(s, info, "mint_to", true, Some(recipient), factory)
    }
}

/// Sells one item to a recipient that the administrator names. The recipient
/// is an address that the host has checked.
pub fn execute_mint_to(
    state: &mut MinterState,
    env: &Env,
    info: &MessageInfo,
    recipient: String,
    factory: &FactoryAnswer,
) -> (result: Result<Response, ContractError>)
    requires
        old(state).wf(),
        mint_in_range(*old(state), *info, true, *factory),
    ensures
        ends_as(
            *old(state),
            *final(state),
            result,
            mint_to_spec(old(state)@, *env, *info, recipient, *factory),
        ),
{
    let action = "mint_to";
    // Check only admin
    if !(info.sender == state.config.extension.admin) {
        return Err(ContractError::Unauthorized(NOT_ADMIN));
    }
    if env.block.time.nanos >= state.config.extension.end_time.nanos {
        return Err(ContractError::AfterMintEndTime);
    }
    _execute_mint(state, info, action, true, Some(recipient), factory)
}

/// What an exchange is owed: the sender, a collection that hands over one of
/// its items, must be on the list of allowed collections. Then the purchase
/// goes as one for the sender, free of charge, and the item handed over is
/// destroyed.
pub open spec fn burn_and_mint_spec(
    s: StateView,
    env: Env,
    info: MessageInfo,
    msg: Cw721ReceiveMsg,
    factory: FactoryAnswer,
) -> Expected {
    if !is_allowed_burn_collection(info.sender, s.config.allowed_burn_collections) {
        Err(ContractError::Unauthorized(NOT_BURN_COLLECTION))
    } else {
        match mint_sender_spec(s, env, info, factory) {
            Err(e) => Err(e),
            Ok((state, response)) => Ok(
                (
                    state,
                    ResponseView {
                        messages: response.messages.push(
                            plain(
                                CosmosMsgView::Cw721Burn {
                                    contract_addr: info.sender,
                                    token_id: msg.token_id,
                                },
                            ),
                        ),
                        attributes: response.attributes,
                    },
                ),
            ),
        }
    }
}

/// Takes an item of an allowed collection in place of payment: sells one item
/// to the sender and has the item that was handed over destroyed.
pub fn burn_and_mint(
    state: &mut MinterState,
    env: &Env,
    info: &MessageInfo,
    msg: Cw721ReceiveMsg,
    factory: &FactoryAnswer,
) -> (result: Result<Response, ContractError>)
    requires
        old(state).wf(),
        mint_in_range(*old(state), *info, false, *factory),
    ensures
        ends_as(
            *old(state),
            *final(state),
            result,
            burn_and_mint_spec(old(state)@, *env, *info, msg, *factory),
        ),
{
    if !sender_is_allowed_burn_collection(info, &state.config.allowed_burn_collections) {
        return Err(ContractError::Unauthorized(NOT_BURN_COLLECTION));
    }
    let burn = CosmosMsg::Cw721Burn { contract_addr: info.sender.clone(), token_id: msg.token_id };
    match execute_mint_sender(state, env, info, factory) {
        Err(e) => Err(e),
        Ok(mint_res) => Ok(mint_res.add_message(burn)),
    }
}

/// How many items the sender has bought.
pub fn mint_count_per_addr(state: &MinterState, info: &MessageInfo) -> (count: u32)
    requires
        state.minter_addrs.wf(),
    ensures
        count == count_of(state@.minter_addrs, info.sender@),
{
    state.minter_addrs.get(&info.sender)
}

} // verus!
