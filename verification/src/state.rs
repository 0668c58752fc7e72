//! What the core remembers between events: the channels that were set up,
//! the balance ledger, and the contract tokens that may be forwarded.
use crate::host::{IbcEndpoint, IbcEndpointView};
use crate::ledger::{Ledger, LedgerKey, LedgerMap};
use crate::table::Table;
use vstd::prelude::*;
use vstd::string::*;

verus! {

/// What is recorded of a channel when it is established.
#[derive(Debug, PartialEq, Eq)]
pub struct ChannelInfo {
    /// The identifier of the channel on this side.
    pub id: String,
    /// The port and channel on the other side.
    pub counterparty_endpoint: IbcEndpoint,
    /// The connection that the channel runs over.
    pub connection_id: String,
}

/// The mathematical value of a `ChannelInfo`.
pub struct ChannelInfoView {
    pub id: Seq<char>,
    pub counterparty_endpoint: IbcEndpointView,
    pub connection_id: Seq<char>,
}

impl View for ChannelInfo {
    type V = ChannelInfoView;

    open spec fn view(&self) -> ChannelInfoView {
        ChannelInfoView {
            id: self.id@,
            counterparty_endpoint: self.counterparty_endpoint@,
            connection_id: self.connection_id@,
        }
    }
}

impl Clone for ChannelInfo {
    fn clone(&self) -> (copy: Self)
        ensures
            copy == *self,
    {
        ChannelInfo {
            id: self.id.clone(),
            counterparty_endpoint: self.counterparty_endpoint.clone(),
            connection_id: self.connection_id.clone(),
        }
    }
}

/// What is known of a contract token that may be forwarded.
#[derive(Debug, Clone, Copy, PartialEq, Eq, Structural)]
pub struct AllowInfo {
    /// The most gas that a call into the contract may use, if it is capped.
    pub gas_limit: Option<u64>,
}

impl View for AllowInfo {
    type V = AllowInfo;

    open spec fn view(&self) -> AllowInfo {
        *self
    }
}

/// Everything the core remembers between events.
#[derive(Debug)]
pub struct State {
    /// The established channels by their identifier.
    pub channels: Table<String, ChannelInfo>,
    /// The balance ledger.
    pub ledger: Ledger,
    /// The contract tokens that may be forwarded, by their address.
    pub allow_list: Table<String, AllowInfo>,
}

/// The mathematical value of a `State`: three maps, and for each the
/// order in which its keys came.
pub struct StateView {
    pub channels: Map<Seq<char>, ChannelInfoView>,
    pub ledger: LedgerMap,
    pub allow_list: Map<Seq<char>, AllowInfo>,
    pub channel_order: Seq<Seq<char>>,
    pub ledger_order: Seq<LedgerKey>,
    pub allow_order: Seq<Seq<char>>,
}

impl View for State {
    type V = StateView;

    open spec fn view(&self) -> StateView {
        StateView {
            channels: self.channels@,
            ledger: self.ledger@,
            allow_list: self.allow_list@,
            channel_order: self.channels.keys(),
            ledger_order: self.ledger.keys(),
            allow_order: self.allow_list.keys(),
        }
    }
}

impl State {
    /// The state before anything happened: no channels, an empty ledger and
    /// nothing allowed.
    pub fn new() -> (state: Self)
        ensures
            state@ == (StateView {
                channels: Map::empty(),
                ledger: Map::empty(),
                allow_list: Map::empty(),
                channel_order: Seq::empty(),
                ledger_order: Seq::empty(),
                allow_order: Seq::empty(),
            }),
    {
        State { channels: Table::new(), ledger: Ledger::new(), allow_list: Table::new() }
    }
}

} // verus!
