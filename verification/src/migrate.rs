//! The take-over of a state that an earlier version of the controller wrote.
use crate::contract::{ends_as, Expected, CONTRACT_NAME, CONTRACT_VERSION};
use crate::error::{ContractError, StdFailure};
use crate::msg::ContractVersion;
use crate::response::{Response, ResponseView};
use crate::state::{MinterState, StateView};
use crate::types::Env;
use crate::version::{compare_versions, version_order, VersionOrder};
use vstd::prelude::*;

verus! {

/// What a migration is owed. The state must have been written under the
/// controller's name, by a version that reads as one and is not newer than
/// the controller's. A state of the controller's own version stays as it is;
/// an older one gets the controller's name and version.
pub open spec fn migrate_spec(s: StateView) -> Expected {
    let nothing = ResponseView { messages: seq![], attributes: seq![] };
    if s.contract != CONTRACT_NAME@ {
        Err(
            ContractError::Std(
                StdFailure::GenericErr { msg: "Cannot upgrade to a different contract" },
            ),
        )
    } else {
        match version_order(s.version, CONTRACT_VERSION@) {
            None => Err(
                ContractError::Std(StdFailure::GenericErr { msg: "Invalid contract version" }),
            ),
            Some(VersionOrder::Newer) => Err(
                ContractError::Std(
                    StdFailure::GenericErr { msg: "Cannot upgrade to a previous contract version" },
                ),
            ),
            Some(VersionOrder::Same) => Ok((s, nothing)),
            Some(VersionOrder::Older) => Ok(
                (StateView { contract: CONTRACT_NAME@, version: CONTRACT_VERSION@, ..s }, nothing),
            ),
        }
    }
}

/// Takes over the state that an earlier version of the controller wrote.
pub fn migrate(state: &mut MinterState, _env: &Env) -> (result: Result<Response, ContractError>)
    requires
        old(state).wf(),
    ensures
        ends_as(*old(state), *final(state), result, migrate_spec(old(state)@)),
{
    let name = CONTRACT_NAME.to_owned();
    if !(state.contract_version.contract == name) {
        return Err(
            ContractError::Std(
                StdFailure::GenericErr { msg: "Cannot upgrade to a different contract" },
            ),
        );
    }
    match compare_versions(state.contract_version.version.as_str(), CONTRACT_VERSION) {
        None => Err(ContractError::Std(StdFailure::GenericErr { msg: "Invalid contract version" })),
        Some(VersionOrder::Newer) => Err(
            ContractError::Std(
                StdFailure::GenericErr { msg: "Cannot upgrade to a previous contract version" },
            ),
        ),
        // if same version return
        Some(VersionOrder::Same) => Ok(Response::new()),
        Some(VersionOrder::Older) => {
            // set new contract version
            state.contract_version = ContractVersion {
                contract: name,
                version: CONTRACT_VERSION.to_owned(),
            };
            Ok(Response::new())
        },
    }
}

} // verus!
