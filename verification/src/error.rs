//! The errors of the transfer core and their descriptions.
use crate::text::{decimal, push_decimal};
use vstd::prelude::*;
use vstd::string::*;

verus! {

/// Everything that can go wrong while a channel is set up or a packet is
/// processed.
#[derive(Debug, PartialEq, Eq)]
pub enum ContractError {
    /// A failure reported by the host, such as a payload that does not decode
    /// or an address that does not validate, carried by its description.
    Std { msg: String },
    /// A packet amount that does not fit in 64 bits.
    AmountOverflow,
    /// A channel or counterparty version other than the supported one.
    InvalidVersion { version: String },
    /// A channel whose delivery is ordered.
    OnlyUnorderedChannel,
    /// An inbound transfer that exceeds what is outstanding on the channel.
    InsufficientFunds,
    /// A denomination that is not a voucher of something sent from here.
    NoForeignTokens,
    /// A voucher whose port is not the one the packet came from.
    FromOtherPort { port: String },
    /// A voucher whose channel is not the one the packet came from.
    FromOtherChannel { channel: String },
    /// A dispatch callback under an identifier that was never handed out.
    UnknownCallbackId { id: u64 },
    /// A contract token that has not been allowed.
    NotOnAllowList,
}

/// The mathematical value of a `ContractError`.
pub enum ContractErrorView {
    Std { msg: Seq<char> },
    AmountOverflow,
    InvalidVersion { version: Seq<char> },
    OnlyUnorderedChannel,
    InsufficientFunds,
    NoForeignTokens,
    FromOtherPort { port: Seq<char> },
    FromOtherChannel { channel: Seq<char> },
    UnknownCallbackId { id: u64 },
    NotOnAllowList,
}

impl View for ContractError {
    type V = ContractErrorView;

    open spec fn view(&self) -> ContractErrorView {
        match *self {
            ContractError::Std { msg } => ContractErrorView::Std { msg: msg@ },
            ContractError::AmountOverflow => ContractErrorView::AmountOverflow,
            ContractError::InvalidVersion { version } => ContractErrorView::InvalidVersion {
                version: version@,
            },
            ContractError::OnlyUnorderedChannel => ContractErrorView::OnlyUnorderedChannel,
            ContractError::InsufficientFunds => ContractErrorView::InsufficientFunds,
            ContractError::NoForeignTokens => ContractErrorView::NoForeignTokens,
            ContractError::FromOtherPort { port } => ContractErrorView::FromOtherPort {
                port: port@,
            },
            ContractError::FromOtherChannel { channel } => ContractErrorView::FromOtherChannel {
                channel: channel@,
            },
            ContractError::UnknownCallbackId { id } => ContractErrorView::UnknownCallbackId { id },
            ContractError::NotOnAllowList => ContractErrorView::NotOnAllowList,
        }
    }
}

/// The text by which an error is reported to the counterparty.
pub open spec fn description(e: ContractErrorView) -> Seq<char> {
    match e {
        ContractErrorView::Std { msg } => msg,
        ContractErrorView::AmountOverflow => "Amount larger than 2**64, not supported by ics20 packets"@,
        ContractErrorView::InvalidVersion { version } => "Only supports channel with ibc version ics20-1, got "@
            + version,
        ContractErrorView::OnlyUnorderedChannel => "Only supports unordered channel"@,
        ContractErrorView::InsufficientFunds => "Insufficient funds to redeem voucher on channel"@,
        ContractErrorView::NoForeignTokens => "Only accepts tokens that originate on this chain, not native tokens of remote chain"@,
        ContractErrorView::FromOtherPort { port } => "Parsed port from denom ("@ + port
            + ") doesn't match packet"@,
        ContractErrorView::FromOtherChannel { channel } => "Parsed channel from denom ("@ + channel
            + ") doesn't match packet"@,
        ContractErrorView::UnknownCallbackId { id } => "Got a submessage reply with unknown id: "@
            + decimal(id as nat),
        ContractErrorView::NotOnAllowList => "You can only send cw20 tokens that have been explicitly allowed by governance"@,
    }
}

impl Clone for ContractError {
    fn clone(&self) -> (copy: Self)
        ensures
            copy == *self,
    {
        match self {
            ContractError::Std { msg } => ContractError::Std { msg: msg.clone() },
            ContractError::AmountOverflow => ContractError::AmountOverflow,
            ContractError::InvalidVersion { version } => ContractError::InvalidVersion {
                version: version.clone(),
            },
            ContractError::OnlyUnorderedChannel => ContractError::OnlyUnorderedChannel,
            ContractError::InsufficientFunds => ContractError::InsufficientFunds,
            ContractError::NoForeignTokens => ContractError::NoForeignTokens,
            ContractError::FromOtherPort { port } => ContractError::FromOtherPort {
                port: port.clone(),
            },
            ContractError::FromOtherChannel { channel } => ContractError::FromOtherChannel {
                channel: channel.clone(),
            },
            ContractError::UnknownCallbackId { id } => ContractError::UnknownCallbackId { id: *id },
            ContractError::NotOnAllowList => ContractError::NotOnAllowList,
        }
    }
}

impl ContractError {
    /// Renders the error as the text that an acknowledgement carries.
    pub fn to_string(&self) -> (text: String)
        ensures
            text@ == description(self@),
    {
        match self {
            ContractError::Std { msg } => msg.clone(),
            ContractError::AmountOverflow => String::from_str(
                "Amount larger than 2**64, not supported by ics20 packets",
            ),
            ContractError::InvalidVersion { version } => {
                let mut text = String::from_str(
                    "Only supports channel with ibc version ics20-1, got ",
                );
                text.append(version.as_str());
                text
            },
            ContractError::OnlyUnorderedChannel => String::from_str(
                "Only supports unordered channel",
            ),
            ContractError::InsufficientFunds => String::from_str(
                "Insufficient funds to redeem voucher on channel",
            ),
            ContractError::NoForeignTokens => String::from_str(
                "Only accepts tokens that originate on this chain, not native tokens of remote chain",
            ),
            ContractError::FromOtherPort { port } => {
                let mut text = String::from_str("Parsed port from denom (");
                text.append(port.as_str());
                text.append(") doesn't match packet");
                text
            },
            ContractError::FromOtherChannel { channel } => {
                let mut text = String::from_str("Parsed channel from denom (");
                text.append(channel.as_str());
                text.append(") doesn't match packet");
                text
            },
            ContractError::UnknownCallbackId { id } => {
                let mut text = String::from_str("Got a submessage reply with unknown id: ");
                push_decimal(*id as u128, &mut text);
                text
            },
            ContractError::NotOnAllowList => String::from_str(
                "You can only send cw20 tokens that have been explicitly allowed by governance",
            ),
        }
    }
}

} // verus!
