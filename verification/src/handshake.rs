//! The acknowledgment of the collection's creation, which binds the
//! collection to the sale.

use crate::contract::{attr, ends_as, Expected, INSTANTIATE_SG721_REPLY_ID};
use crate::error::ContractError;
use crate::msg::Reply;
use crate::outside::{instantiate_reply_address, parse_reply_instantiate_data, reply_outcome};
use crate::response::{AttrValue, Response, ResponseView};
use crate::state::{MinterState, StateView};
use crate::types::{text_of, Env};
use vstd::prelude::*;

verus! {

/// What an acknowledgment is owed, given the address that was read out of it.
/// Its token must be the one of the creation request, and it must name a
/// collection. The collection is bound once: an acknowledgment that names the
/// bound collection again changes nothing, one that names another is refused.
pub open spec fn bind_spec(s: StateView, id: u64, parsed: Option<String>) -> Expected {
    if id != INSTANTIATE_SG721_REPLY_ID {
        Err(ContractError::InvalidReplyID)
    } else {
        match parsed {
            None => Err(ContractError::InstantiateSg721Error),
            Some(address) => if s.sg721_address matches Some(bound) && bound@ != address@ {
                Err(ContractError::InstantiateSg721Error)
            } else {
                Ok(
                    (
                        StateView { sg721_address: Some(address), ..s },
                        ResponseView {
                            messages: seq![],
                            attributes: seq![
                                attr("action", AttrValue::Text("instantiate_sg721_reply")),
                                attr("sg721_address", AttrValue::Address(address)),
                            ],
                        },
                    ),
                )
            },
        }
    }
}

/// Binds the collection that an acknowledgment names.
pub fn bind_collection(state: &mut MinterState, id: u64, parsed: Option<String>) -> (result: Result<
    Response,
    ContractError,
>)
    requires
        old(state).wf(),
    ensures
        ends_as(*old(state), *final(state), result, bind_spec(old(state)@, id, parsed)),
{
    if id != INSTANTIATE_SG721_REPLY_ID {
        return Err(ContractError::InvalidReplyID);
    }
    let sg721_address = match parsed {
        None => {
            return Err(ContractError::InstantiateSg721Error);
        },
        Some(a) => a,
    };
    match &state.sg721_address {
        Some(bound) => {
            if !(*bound == sg721_address) {
                return Err(ContractError::InstantiateSg721Error);
            }
        },
        None => {},
    }
    state.sg721_address = Some(sg721_address.clone());
    let res = Response::new().add_attribute(
        "action",
        AttrValue::Text("instantiate_sg721_reply"),
    ).add_attribute("sg721_address", AttrValue::Address(sg721_address));
    proof {
        let owed = bind_spec(old(state)@, id, parsed)->Ok_0.1;
        assert(res@.messages =~= owed.messages);
        assert(res@.attributes =~= owed.attributes);
    }
    Ok(res)
}

/// Takes the acknowledgment of the creation of the collection. The address is
/// read out of the acknowledgment; what follows is [`bind_collection`] on that
/// address.
pub fn reply(state: &mut MinterState, _env: &Env, msg: &Reply) -> (result: Result<
    Response,
    ContractError,
>)
    requires
        old(state).wf(),
    ensures
        exists|parsed: Option<String>|
            text_of(parsed) == instantiate_reply_address(reply_outcome(msg.result)) && ends_as(
                *old(state),
                *final(state),
                result,
                #[trigger] bind_spec(old(state)@, msg.id, parsed),
            ),
{
    let parsed = parse_reply_instantiate_data(msg);
    let ghost witness = parsed;
    let result = bind_collection(state, msg.id, parsed);
    assert(ends_as(*old(state), *state, result, bind_spec(old(state)@, msg.id, witness)));
    result
}

} // verus!
