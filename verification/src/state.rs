//! The durable state of the sale, and the allocation of item identifiers.

use crate::counts::{count_of, MintCounts};
use crate::msg::ContractVersion;
use crate::types::{Config, ConfigView, Status};
use vstd::prelude::*;

verus! {

/// The identifier of the first item of an edition.
pub const FIRST_TOKEN_ID: u64 = 1;

/// Everything the controller keeps between requests.
#[derive(Debug, PartialEq, Eq)]
pub struct MinterState {
    /// The name and version of the code that wrote the state.
    pub contract_version: ContractVersion,
    pub config: Config,
    pub status: Status,
    /// How many items were sold.
    pub total_mint_count: u32,
    /// The identifier that the next item gets.
    pub token_index: u64,
    /// The collection that holds the items, once its creation was acknowledged.
    pub sg721_address: Option<String>,
    /// How many items each address has bought.
    pub minter_addrs: MintCounts,
}

/// What a [`MinterState`] holds.
pub struct StateView {
    pub contract: Seq<char>,
    pub version: Seq<char>,
    pub config: ConfigView,
    pub status: Status,
    pub total_mint_count: u32,
    pub token_index: u64,
    pub sg721_address: Option<String>,
    pub minter_addrs: Map<Seq<char>, u32>,
}

impl View for MinterState {
    type V = StateView;

    open spec fn view(&self) -> StateView {
        StateView {
            contract: self.contract_version.contract@,
            version: self.contract_version.version@,
            config: self.config@,
            status: self.status,
            total_mint_count: self.total_mint_count,
            token_index: self.token_index,
            sg721_address: self.sg721_address,
            minter_addrs: self.minter_addrs@,
        }
    }
}

impl StateView {
    /// What holds of the state between requests, in terms of what it holds: no
    /// address has bought more than was sold, and the next identifier is the
    /// first one plus the number of items sold.
    pub open spec fn wf(self) -> bool {
        &&& forall|address: Seq<char>| count_of(self.minter_addrs, address) <= self.total_mint_count
        &&& self.token_index == self.total_mint_count + FIRST_TOKEN_ID
    }
}

impl MinterState {
    /// What holds of the state between requests: no address has two rows in
    /// the table of counts, no address has bought more than was sold, and the
    /// next identifier is the first one plus the number of items sold.
    pub open spec fn wf(&self) -> bool {
        &&& self.minter_addrs.wf()
        &&& self.minter_addrs.bounded_by(self.total_mint_count)
        &&& self.token_index == self.total_mint_count + FIRST_TOKEN_ID
    }

    /// What a well-formed state holds is well formed.
    pub proof fn lemma_view_wf(&self)
        requires
            self.wf(),
        ensures
            self@.wf(),
    {
        assert forall|address: Seq<char>| count_of(self@.minter_addrs, address)
            <= self.total_mint_count by {
            self.minter_addrs.lemma_bounded(self.total_mint_count, address);
        }
    }

    /// Whether the state is well formed.
    pub fn check(&self) -> (ok: bool)
        ensures
            ok == self.wf(),
    {
        if self.token_index != self.total_mint_count as u64 + FIRST_TOKEN_ID {
            return false;
        }
        let rows = &self.minter_addrs.entries;
        let mut i: usize = 0;
        while i < rows.len()
            invariant
                i <= rows@.len(),
                rows@ == self.minter_addrs.entries@,
                forall|k: int| 0 <= k < i ==> (#[trigger] rows@[k]).count <= self.total_mint_count,
                forall|k: int, l: int|
                    0 <= k < l < i ==> (#[trigger] rows@[k]).address@ != (
                    #[trigger] rows@[l]).address@,
            decreases rows@.len() - i,
        {
            if rows[i].count > self.total_mint_count {
                assert(self.minter_addrs.entries@[i as int].count > self.total_mint_count);
                return false;
            }
            let mut j: usize = 0;
            while j < i
                invariant
                    j <= i < rows@.len(),
                    rows@ == self.minter_addrs.entries@,
                    forall|k: int|
                        0 <= k < j ==> (#[trigger] rows@[k]).address@ != rows@[i as int].address@,
                decreases i - j,
            {
                if rows[j].address == rows[i].address {
                    assert(self.minter_addrs.entries@[j as int].address@
                        == self.minter_addrs.entries@[i as int].address@);
                    return false;
                }
                j += 1;
            }
            i += 1;
        }
        true
    }
}

/// Hands out the identifier of the next item and moves on to the one after it.
pub fn increment_token_index(state: &mut MinterState) -> (id: u64)
    requires
        old(state).token_index < u64::MAX,
    ensures
        id == old(state).token_index,
        *final(state) == (MinterState { token_index: (id + 1) as u64, ..*old(state) }),
{
    let id = state.token_index;
    state.token_index = id + 1;
    id
}

} // verus!
