//! The host's side of the conversation, as plain values: channel endpoints,
//! the events that the host delivers, and the responses it gets back.
use crate::amount::{Coin, CoinView};
use crate::packet::{Ics20Ack, Ics20AckView, Ics20Packet, Ics20PacketView};
use vstd::prelude::*;
use vstd::string::*;

verus! {

/// The views of the items of `items`, in order.
pub open spec fn views<T: View>(items: Seq<T>) -> Seq<T::V> {
    Seq::new(items.len(), |i: int| items[i]@)
}

/// One end of a channel.
#[derive(Debug, PartialEq, Eq)]
pub struct IbcEndpoint {
    pub port_id: String,
    pub channel_id: String,
}

/// The mathematical value of an `IbcEndpoint`.
pub struct IbcEndpointView {
    pub port_id: Seq<char>,
    pub channel_id: Seq<char>,
}

impl View for IbcEndpoint {
    type V = IbcEndpointView;

    open spec fn view(&self) -> IbcEndpointView {
        IbcEndpointView { port_id: self.port_id@, channel_id: self.channel_id@ }
    }
}

impl Clone for IbcEndpoint {
    fn clone(&self) -> (copy: Self)
        ensures
            copy == *self,
    {
        IbcEndpoint { port_id: self.port_id.clone(), channel_id: self.channel_id.clone() }
    }
}

/// How a channel delivers its packets.
#[derive(Debug, Clone, Copy, PartialEq, Eq, Structural)]
pub enum IbcOrder {
    Unordered,
    Ordered,
}

/// A channel as the host describes it during the handshake.
#[derive(Debug, PartialEq, Eq)]
pub struct IbcChannel {
    pub endpoint: IbcEndpoint,
    pub counterparty_endpoint: IbcEndpoint,
    pub order: IbcOrder,
    pub version: String,
    pub connection_id: String,
}

/// The mathematical value of an `IbcChannel`.
pub struct IbcChannelView {
    pub endpoint: IbcEndpointView,
    pub counterparty_endpoint: IbcEndpointView,
    pub order: IbcOrder,
    pub version: Seq<char>,
    pub connection_id: Seq<char>,
}

impl View for IbcChannel {
    type V = IbcChannelView;

    open spec fn view(&self) -> IbcChannelView {
        IbcChannelView {
            endpoint: self.endpoint@,
            counterparty_endpoint: self.counterparty_endpoint@,
            order: self.order,
            version: self.version@,
            connection_id: self.connection_id@,
        }
    }
}

impl Clone for IbcChannel {
    fn clone(&self) -> (copy: Self)
        ensures
            copy == *self,
    {
        IbcChannel {
            endpoint: self.endpoint.clone(),
            counterparty_endpoint: self.counterparty_endpoint.clone(),
            order: self.order,
            version: self.version.clone(),
            connection_id: self.connection_id.clone(),
        }
    }
}

/// The first step of the handshake, from either side.
#[derive(Debug, PartialEq, Eq)]
pub enum IbcChannelOpenMsg {
    OpenInit { channel: IbcChannel },
    OpenTry { channel: IbcChannel, counterparty_version: String },
}

/// The second step of the handshake, from either side.
#[derive(Debug, PartialEq, Eq)]
pub enum IbcChannelConnectMsg {
    OpenAck { channel: IbcChannel, counterparty_version: String },
    OpenConfirm { channel: IbcChannel },
}

impl IbcChannelOpenMsg {
    /// The channel that the message is about.
    pub open spec fn spec_channel(&self) -> IbcChannel {
        match *self {
            IbcChannelOpenMsg::OpenInit { channel } => channel,
            IbcChannelOpenMsg::OpenTry { channel, .. } => channel,
        }
    }

    /// The version that the counterparty announced, if the message carries one.
    pub open spec fn spec_counterparty_version(&self) -> Option<Seq<char>> {
        match *self {
            IbcChannelOpenMsg::OpenInit { .. } => None,
            IbcChannelOpenMsg::OpenTry { counterparty_version, .. } => Some(
                counterparty_version@,
            ),
        }
    }

    /// The channel that the message is about.
    pub fn channel(&self) -> (channel: &IbcChannel)
        ensures
            *channel == self.spec_channel(),
    {
        match self {
            IbcChannelOpenMsg::OpenInit { channel } => channel,
            IbcChannelOpenMsg::OpenTry { channel, .. } => channel,
        }
    }

    /// The version that the counterparty announced, if the message carries one.
    pub fn counterparty_version(&self) -> (version: Option<&str>)
        ensures
            match self.spec_counterparty_version() {
                Some(v) => version matches Some(s) && s@ == v,
                None => version is None,
            },
    {
        match self {
            IbcChannelOpenMsg::OpenInit { .. } => None,
            IbcChannelOpenMsg::OpenTry { counterparty_version, .. } => Some(
                counterparty_version.as_str(),
            ),
        }
    }
}

impl IbcChannelConnectMsg {
    /// The channel that the message is about.
    pub open spec fn spec_channel(&self) -> IbcChannel {
        match *self {
            IbcChannelConnectMsg::OpenAck { channel, .. } => channel,
            IbcChannelConnectMsg::OpenConfirm { channel } => channel,
        }
    }

    /// The version that the counterparty announced, if the message carries one.
    pub open spec fn spec_counterparty_version(&self) -> Option<Seq<char>> {
        match *self {
            IbcChannelConnectMsg::OpenAck { counterparty_version, .. } => Some(
                counterparty_version@,
            ),
            IbcChannelConnectMsg::OpenConfirm { .. } => None,
        }
    }

    /// The channel that the message is about.
    pub fn channel(&self) -> (channel: &IbcChannel)
        ensures
            *channel == self.spec_channel(),
    {
        match self {
            IbcChannelConnectMsg::OpenAck { channel, .. } => channel,
            IbcChannelConnectMsg::OpenConfirm { channel } => channel,
        }
    }

    /// The version that the counterparty announced, if the message carries one.
    pub fn counterparty_version(&self) -> (version: Option<&str>)
        ensures
            match self.spec_counterparty_version() {
                Some(v) => version matches Some(s) && s@ == v,
                None => version is None,
            },
    {
        match self {
            IbcChannelConnectMsg::OpenAck { counterparty_version, .. } => Some(
                counterparty_version.as_str(),
            ),
            IbcChannelConnectMsg::OpenConfirm { .. } => None,
        }
    }
}

/// A packet with its payload as the host's decoder left it: the transfer it
/// carries, or the decoder's complaint.
#[derive(Debug, PartialEq, Eq)]
pub struct IbcPacket {
    pub data: Result<Ics20Packet, String>,
    /// The end of the channel that sent the packet.
    pub src: IbcEndpoint,
    /// The end of the channel that receives it.
    pub dest: IbcEndpoint,
}

/// The mathematical value of an `IbcPacket`.
pub struct IbcPacketView {
    pub data: Result<Ics20PacketView, Seq<char>>,
    pub src: IbcEndpointView,
    pub dest: IbcEndpointView,
}

impl View for IbcPacket {
    type V = IbcPacketView;

    open spec fn view(&self) -> IbcPacketView {
        IbcPacketView {
            data: match self.data {
                Ok(transfer) => Ok(transfer@),
                Err(complaint) => Err(complaint@),
            },
            src: self.src@,
            dest: self.dest@,
        }
    }
}

impl Clone for IbcPacket {
    fn clone(&self) -> (copy: Self)
        ensures
            copy == *self,
    {
        IbcPacket {
            data: match &self.data {
                Ok(transfer) => Ok(transfer.clone()),
                Err(complaint) => Err(complaint.clone()),
            },
            src: self.src.clone(),
            dest: self.dest.clone(),
        }
    }
}

/// A packet that arrived from the counterparty.
#[derive(Debug, PartialEq, Eq)]
pub struct IbcPacketReceiveMsg {
    pub packet: IbcPacket,
}

/// The counterparty's acknowledgement of a packet sent from here, decoded by
/// the host or not.
#[derive(Debug, PartialEq, Eq)]
pub struct IbcPacketAckMsg {
    pub acknowledgement: Result<Ics20Ack, String>,
    pub original_packet: IbcPacket,
}

/// A packet sent from here that was not delivered in time.
#[derive(Debug, PartialEq, Eq)]
pub struct IbcPacketTimeoutMsg {
    pub packet: IbcPacket,
}

/// The host's verdict on an address: accepted, or refused with a reason.
pub type AddrCheck = Result<(), String>;

/// The mathematical value of a verdict of the host: good, or bad with a
/// reason.
pub open spec fn verdict_view(verdict: Result<(), String>) -> Result<(), Seq<char>> {
    match verdict {
        Ok(_) => Ok(()),
        Err(reason) => Err(reason@),
    }
}

/// The host's report on an instruction that asked for one.
#[derive(Debug, PartialEq, Eq)]
pub struct Reply {
    pub id: u64,
    /// How the instruction ended: well, or with the host's description of
    /// what went wrong.
    pub result: Result<(), String>,
}

/// A key and a value that the host records with an event.
#[derive(Debug, PartialEq, Eq)]
pub struct Attribute {
    pub key: String,
    pub value: String,
}

/// The mathematical value of an `Attribute`.
pub struct AttributeView {
    pub key: Seq<char>,
    pub value: Seq<char>,
}

impl View for Attribute {
    type V = AttributeView;

    open spec fn view(&self) -> AttributeView {
        AttributeView { key: self.key@, value: self.value@ }
    }
}

/// The attribute with this key and value.
pub open spec fn attribute(key: Seq<char>, value: Seq<char>) -> AttributeView {
    AttributeView { key, value }
}

/// Builds an attribute.
pub fn attr(key: &str, value: &str) -> (a: Attribute)
    ensures
        a@ == attribute(key@, value@),
{
    Attribute { key: key.to_owned(), value: value.to_owned() }
}

/// When the host reports back on an instruction.
#[derive(Debug, Clone, Copy, PartialEq, Eq, Structural)]
pub enum ReplyOn {
    Always,
    Error,
    Success,
    Never,
}

/// What the host is asked to do.
#[derive(Debug, PartialEq, Eq)]
pub enum CosmosMsg {
    /// Move native coins to an address.
    BankSend { to_address: String, amount: Vec<Coin> },
    /// Call a contract with an encoded message and coins attached.
    WasmExecute { contract_addr: String, msg: Vec<u8>, funds: Vec<Coin> },
}

/// The mathematical value of a `CosmosMsg`.
pub enum CosmosMsgView {
    BankSend { to_address: Seq<char>, amount: Seq<CoinView> },
    WasmExecute { contract_addr: Seq<char>, msg: Seq<u8>, funds: Seq<CoinView> },
}

impl View for CosmosMsg {
    type V = CosmosMsgView;

    open spec fn view(&self) -> CosmosMsgView {
        match *self {
            CosmosMsg::BankSend { to_address, amount } => CosmosMsgView::BankSend {
                to_address: to_address@,
                amount: views(amount@),
            },
            CosmosMsg::WasmExecute { contract_addr, msg, funds } => CosmosMsgView::WasmExecute {
                contract_addr: contract_addr@,
                msg: msg@,
                funds: views(funds@),
            },
        }
    }
}

/// An instruction to the host, tagged so that its outcome can be reported.
#[derive(Debug, PartialEq, Eq)]
pub struct SubMsg {
    pub id: u64,
    pub msg: CosmosMsg,
    pub gas_limit: Option<u64>,
    pub reply_on: ReplyOn,
}

/// The mathematical value of a `SubMsg`.
pub struct SubMsgView {
    pub id: u64,
    pub msg: CosmosMsgView,
    pub gas_limit: Option<u64>,
    pub reply_on: ReplyOn,
}

impl View for SubMsg {
    type V = SubMsgView;

    open spec fn view(&self) -> SubMsgView {
        SubMsgView {
            id: self.id,
            msg: self.msg@,
            gas_limit: self.gas_limit,
            reply_on: self.reply_on,
        }
    }
}

/// The answer to a received packet.
#[derive(Debug, PartialEq, Eq)]
pub struct IbcReceiveResponse {
    pub acknowledgement: Ics20Ack,
    pub messages: Vec<SubMsg>,
    pub attributes: Vec<Attribute>,
}

/// The mathematical value of an `IbcReceiveResponse`.
pub struct IbcReceiveResponseView {
    pub acknowledgement: Ics20AckView,
    pub messages: Seq<SubMsgView>,
    pub attributes: Seq<AttributeView>,
}

impl View for IbcReceiveResponse {
    type V = IbcReceiveResponseView;

    open spec fn view(&self) -> IbcReceiveResponseView {
        IbcReceiveResponseView {
            acknowledgement: self.acknowledgement@,
            messages: views(self.messages@),
            attributes: views(self.attributes@),
        }
    }
}

/// The answer to any other channel event.
#[derive(Debug, PartialEq, Eq)]
pub struct IbcBasicResponse {
    pub messages: Vec<SubMsg>,
    pub attributes: Vec<Attribute>,
}

/// The mathematical value of an `IbcBasicResponse`.
pub struct IbcBasicResponseView {
    pub messages: Seq<SubMsgView>,
    pub attributes: Seq<AttributeView>,
}

impl View for IbcBasicResponse {
    type V = IbcBasicResponseView;

    open spec fn view(&self) -> IbcBasicResponseView {
        IbcBasicResponseView {
            messages: views(self.messages@),
            attributes: views(self.attributes@),
        }
    }
}

/// The answer to a dispatch callback: the acknowledgement that replaces the
/// pending one, if any.
#[derive(Debug, PartialEq, Eq)]
pub struct Response {
    pub data: Option<Ics20Ack>,
}

/// The mathematical value of a `Response`.
pub struct ResponseView {
    pub data: Option<Ics20AckView>,
}

impl View for Response {
    type V = ResponseView;

    open spec fn view(&self) -> ResponseView {
        ResponseView {
            data: match self.data {
                Some(ack) => Some(ack@),
                None => None,
            },
        }
    }
}

} // verus!
