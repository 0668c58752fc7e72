//! The channel handshake and the packet lifecycle: what happens to the
//! ledger, and what the host is told, when a packet is received, when a
//! packet sent from here is acknowledged, and when it times out.
use crate::amount::{amount_from_parts, Amount};
use crate::denom::{parse_voucher, parse_voucher_denom};
use crate::dispatch::{
    check_gas_limit, gas_limit_for, send_amount, token_address, transfer_instruction,
};
use crate::error::{description, ContractError, ContractErrorView};
use crate::host::{
    attr, attribute, verdict_view, views, AddrCheck, Attribute, AttributeView, IbcBasicResponse,
    IbcBasicResponseView, IbcChannel, IbcChannelConnectMsg, IbcChannelOpenMsg, IbcChannelView,
    IbcOrder, IbcPacket, IbcPacketAckMsg, IbcPacketReceiveMsg, IbcPacketTimeoutMsg, IbcPacketView,
    IbcReceiveResponse, IbcReceiveResponseView, SubMsg, SubMsgView,
};
use crate::ledger::{can_release, covers, release, reserve, LedgerKey};
use crate::table::with_key;
use crate::packet::{
    ack_fail, ack_success, fits_in_64_bits, success_ack, Ics20Ack, Ics20AckView, Ics20Packet,
    Ics20PacketView,
};
use crate::state::{ChannelInfo, ChannelInfoView, State, StateView};
use crate::text::{decimal, u128_to_string};
use vstd::prelude::*;
use vstd::string::*;

verus! {

broadcast use vstd::string::group_string_axioms;

/// The only protocol version that a channel may speak.
pub const ICS20_VERSION: &'static str = "ics20-1";

/// The only delivery mode that a channel may have.
pub const ICS20_ORDERING: IbcOrder = IbcOrder::Unordered;

/// Whether a channel may be established: its version and, where the
/// counterparty has announced one, the counterparty's version must be the
/// supported one, and its delivery must be unordered. The first of these
/// that fails is the error.
pub open spec fn handshake(channel: IbcChannelView, counterparty_version: Option<Seq<char>>) -> Result<
    (),
    ContractErrorView,
> {
    if channel.version != ICS20_VERSION@ {
        Err(ContractErrorView::InvalidVersion { version: channel.version })
    } else if counterparty_version is Some && counterparty_version->Some_0 != ICS20_VERSION@ {
        Err(ContractErrorView::InvalidVersion { version: counterparty_version->Some_0 })
    } else if channel.order != ICS20_ORDERING {
        Err(ContractErrorView::OnlyUnorderedChannel)
    } else {
        Ok(())
    }
}

/// Checks the version and the delivery mode of a channel.
pub fn enforce_order_and_version(channel: &IbcChannel, counterparty_version: Option<&str>) -> (res:
    Result<(), ContractError>)
    ensures
        match handshake(
            channel@,
            match counterparty_version {
                Some(v) => Some(v@),
                None => None,
            },
        ) {
            Ok(_) => res is Ok,
            Err(e) => res matches Err(x) && x@ == e,
        },
{
    let supported = String::from_str(ICS20_VERSION);
    if channel.version != supported {
        return Err(ContractError::InvalidVersion { version: channel.version.clone() });
    }
    if let Some(version) = counterparty_version {
        let announced = version.to_owned();
        if announced != supported {
            return Err(ContractError::InvalidVersion { version: announced });
        }
    }
    match channel.order {
        IbcOrder::Unordered => Ok(()),
        IbcOrder::Ordered => Err(ContractError::OnlyUnorderedChannel),
    }
}

/// The first step of the handshake: accepts the channel or says why not.
/// Nothing is recorded yet.
pub fn ibc_channel_open(msg: IbcChannelOpenMsg) -> (res: Result<(), ContractError>)
    ensures
        match handshake(msg.spec_channel()@, msg.spec_counterparty_version()) {
            Ok(_) => res is Ok,
            Err(e) => res matches Err(x) && x@ == e,
        },
{
    enforce_order_and_version(msg.channel(), msg.counterparty_version())
}

/// What is recorded of an established channel.
pub open spec fn channel_info(channel: IbcChannelView) -> ChannelInfoView {
    ChannelInfoView {
        id: channel.endpoint.channel_id,
        counterparty_endpoint: channel.counterparty_endpoint,
        connection_id: channel.connection_id,
    }
}

/// The response that tells the host nothing.
pub open spec fn empty_response() -> IbcBasicResponseView {
    IbcBasicResponseView { messages: seq![], attributes: seq![] }
}

/// The state after the channel has been recorded under its identifier. A
/// channel that is new comes last among the channels.
pub open spec fn state_with_channel(state: StateView, channel: IbcChannelView) -> StateView {
    StateView {
        channels: state.channels.insert(channel.endpoint.channel_id, channel_info(channel)),
        channel_order: with_key(state.channel_order, channel.endpoint.channel_id),
        ..state
    }
}

/// Whether `result` and `after` are what the second step of the handshake
/// gives in the state `before`: a channel that passes the checks is recorded
/// under its identifier; one that does not is an error, and nothing is
/// recorded.
pub open spec fn connect_step(
    before: StateView,
    channel: IbcChannelView,
    counterparty_version: Option<Seq<char>>,
    result: Result<IbcBasicResponseView, ContractErrorView>,
    after: StateView,
) -> bool {
    match handshake(channel, counterparty_version) {
        Ok(_) => {
            &&& result == Ok::<IbcBasicResponseView, ContractErrorView>(empty_response())
            &&& after == state_with_channel(before, channel)
        },
        Err(e) => result == Err::<IbcBasicResponseView, ContractErrorView>(e) && after == before,
    }
}

/// The second step of the handshake: checks the channel once more and, if
/// it passes, records it.
pub fn ibc_channel_connect(state: &mut State, msg: IbcChannelConnectMsg) -> (res: Result<
    IbcBasicResponse,
    ContractError,
>)
    ensures
        connect_step(
            old(state)@,
            msg.spec_channel()@,
            msg.spec_counterparty_version(),
            outcome_view(res),
            final(state)@,
        ),
{
    match enforce_order_and_version(msg.channel(), msg.counterparty_version()) {
        Ok(_) => {},
        Err(e) => {
            return Err(e);
        },
    }
    let channel = match msg {
        IbcChannelConnectMsg::OpenAck { channel, .. } => channel,
        IbcChannelConnectMsg::OpenConfirm { channel } => channel,
    };
    let info = ChannelInfo {
        id: channel.endpoint.channel_id,
        counterparty_endpoint: channel.counterparty_endpoint,
        connection_id: channel.connection_id,
    };
    let id = info.id.clone();
    state.channels.insert(id, info);
    let response = IbcBasicResponse { messages: Vec::new(), attributes: Vec::new() };
    assert(response@.messages =~= seq![]);
    assert(response@.attributes =~= seq![]);
    Ok(response)
}

/// The attributes that describe a transfer: which event it belongs to, who
/// sent how much of what to whom, and whether it went through.
pub open spec fn transfer_attributes(
    action: Seq<char>,
    transfer: Ics20PacketView,
    denom: Seq<char>,
    success: Seq<char>,
) -> Seq<AttributeView> {
    seq![
        attribute("action"@, action),
        attribute("sender"@, transfer.sender),
        attribute("receiver"@, transfer.receiver),
        attribute("denom"@, denom),
        attribute("amount"@, decimal(transfer.amount as nat)),
        attribute("success"@, success),
    ]
}

fn describe_transfer(action: &str, transfer: &Ics20Packet, denom: &str, success: &str) -> (attrs:
    Vec<Attribute>)
    ensures
        views(attrs@) == transfer_attributes(action@, transfer@, denom@, success@),
{
    let mut attrs: Vec<Attribute> = Vec::new();
    attrs.push(attr("action", action));
    attrs.push(attr("sender", transfer.sender.as_str()));
    attrs.push(attr("receiver", transfer.receiver.as_str()));
    attrs.push(attr("denom", denom));
    attrs.push(attr("amount", u128_to_string(transfer.amount).as_str()));
    attrs.push(attr("success", success));
    assert(views(attrs@) =~= transfer_attributes(action@, transfer@, denom@, success@));
    attrs
}

/// The transfer that a packet carries. There is none where the payload was
/// not decoded, and none where the amount does not fit in 64 bits: such a
/// payload is no transfer packet, whichever way it travels.
pub open spec fn carried_transfer(packet: IbcPacketView) -> Result<
    Ics20PacketView,
    ContractErrorView,
> {
    match packet.data {
        Err(complaint) => Err(ContractErrorView::Std { msg: complaint }),
        Ok(transfer) => if fits_in_64_bits(transfer.amount) {
            Ok(transfer)
        } else {
            Err(ContractErrorView::AmountOverflow)
        },
    }
}

/// Takes the transfer out of a packet, or says why it carries none.
pub fn carried(packet: &IbcPacket) -> (res: Result<&Ics20Packet, ContractError>)
    ensures
        match carried_transfer(packet@) {
            Ok(transfer) => res matches Ok(found) && found@ == transfer,
            Err(e) => res matches Err(x) && x@ == e,
        },
{
    let transfer = match &packet.data {
        Ok(transfer) => transfer,
        Err(complaint) => {
            return Err(ContractError::Std { msg: complaint.clone() });
        },
    };
    match transfer.validate() {
        Ok(_) => Ok(transfer),
        Err(e) => Err(e),
    }
}

/// What has to hold for a packet to be received: it carries a transfer,
/// so its payload was decoded and its amount fits in 64 bits; its
/// denomination is a voucher that came from the packet's source; the ledger
/// covers the amount on the receiving channel; and the token may be moved.
/// The result is the local denomination and the gas ceiling, or the first
/// of these that fails.
pub open spec fn receive_checks(
    state: StateView,
    packet: IbcPacketView,
    addr_check: Result<(), Seq<char>>,
) -> Result<(Seq<char>, Option<u64>), ContractErrorView> {
    match carried_transfer(packet) {
        Err(e) => Err(e),
        Ok(transfer) => match parse_voucher(transfer.denom, packet.src) {
            Err(e) => Err(e),
            Ok(denom) => if !covers(
                state.ledger,
                (packet.dest.channel_id, denom),
                transfer.amount,
            ) {
                Err(ContractErrorView::InsufficientFunds)
            } else {
                match gas_limit_for(
                    state.allow_list,
                    addr_check,
                    amount_from_parts(denom, transfer.amount),
                ) {
                    Err(e) => Err(e),
                    Ok(gas_limit) => Ok((denom, gas_limit)),
                }
            },
        },
    }
}

/// The instruction that pays the receiver of `transfer` in the local
/// denomination `denom`, if it can be encoded.
pub open spec fn payout(transfer: Ics20PacketView, denom: Seq<char>, gas_limit: Option<u64>) -> Option<
    SubMsgView,
> {
    transfer_instruction(amount_from_parts(denom, transfer.amount), transfer.receiver, gas_limit)
}

/// The answer to a packet that was received: success, with the instruction
/// that pays the receiver.
pub open spec fn receive_response(
    transfer: Ics20PacketView,
    denom: Seq<char>,
    instruction: SubMsgView,
) -> IbcReceiveResponseView {
    IbcReceiveResponseView {
        acknowledgement: success_ack(),
        messages: seq![instruction],
        attributes: transfer_attributes("receive"@, transfer, denom, "true"@),
    }
}

/// The answer to a packet that was refused: failure with the reason, and no
/// instruction.
pub open spec fn receive_refusal(reason: Seq<char>) -> IbcReceiveResponseView {
    IbcReceiveResponseView {
        acknowledgement: Ics20AckView::Error(reason),
        messages: seq![],
        attributes: seq![
            attribute("action"@, "receive"@),
            attribute("success"@, "false"@),
            attribute("error"@, reason),
        ],
    }
}

/// The state after `amount` of `denom` came back over `channel`.
pub open spec fn state_after_receive(
    state: StateView,
    channel: Seq<char>,
    denom: Seq<char>,
    amount: u128,
) -> StateView {
    match reserve(state.ledger, (channel, denom), amount) {
        Ok(ledger) => StateView { ledger, ..state },
        Err(_) => state,
    }
}

/// Does the work of receiving a packet and returns what went wrong as an
/// error. The state changes only when the packet is accepted. Where every
/// check passes, the packet is accepted if the instruction that pays the
/// receiver can be encoded, and refused with the encoder's complaint if not.
pub fn do_ibc_packet_receive(state: &mut State, packet: &IbcPacket, addr_check: &AddrCheck) -> (res:
    Result<IbcReceiveResponse, ContractError>)
    ensures
        match receive_checks(old(state)@, packet@, verdict_view(*addr_check)) {
            Err(e) => res matches Err(x) && x@ == e && final(state)@ == old(state)@,
            Ok((denom, gas_limit)) => match payout(packet@.data->Ok_0, denom, gas_limit) {
                Some(instruction) => {
                    &&& res matches Ok(response)
                    &&& response@ == receive_response(packet@.data->Ok_0, denom, instruction)
                    &&& final(state)@ == state_after_receive(
                        old(state)@,
                        packet@.dest.channel_id,
                        denom,
                        packet@.data->Ok_0.amount,
                    )
                },
                None => res matches Err(x) && x is Std && final(state)@ == old(state)@,
            },
        },
{
    let transfer = match carried(packet) {
        Ok(transfer) => transfer,
        Err(e) => {
            return Err(e);
        },
    };
    let denom = match parse_voucher_denom(transfer.denom.as_str(), &packet.src) {
        Ok(denom) => denom,
        Err(e) => {
            return Err(e);
        },
    };
    let channel = packet.dest.channel_id.as_str();
    let covered = match state.ledger.get(channel, denom) {
        Some(record) => record.outstanding >= transfer.amount,
        None => false,
    };
    if !covered {
        return Err(ContractError::InsufficientFunds);
    }
    let to_send = Amount::from_parts(denom.to_owned(), transfer.amount);
    let gas_limit = match check_gas_limit(&state.allow_list, addr_check, &to_send) {
        Ok(gas_limit) => gas_limit,
        Err(e) => {
            return Err(e);
        },
    };
    let send = match send_amount(to_send, transfer.receiver.clone(), gas_limit) {
        Ok(send) => send,
        Err(e) => {
            return Err(e);
        },
    };
    match state.ledger.reserve_on_receive(channel, denom, transfer.amount) {
        Ok(_) => {},
        Err(e) => {
            return Err(e);
        },
    }
    let mut messages: Vec<SubMsg> = Vec::new();
    messages.push(send);
    assert(views(messages@) =~= seq![send@]);
    Ok(
        IbcReceiveResponse {
            acknowledgement: ack_success(),
            messages,
            attributes: describe_transfer("receive", transfer, denom, "true"),
        },
    )
}

/// Whether `response` and `after` are what receiving `packet` in the state
/// `before` gives. A packet that fails a check is refused with the
/// description of the failure, and the state stays as it was. A packet that
/// passes is accepted, the receiver is paid and the ledger is debited,
/// unless the instruction that pays the receiver cannot be encoded: then the
/// packet is refused too, with the encoder's complaint as the reason.
pub open spec fn receive_step(
    before: StateView,
    packet: IbcPacketView,
    addr_check: Result<(), Seq<char>>,
    response: IbcReceiveResponseView,
    after: StateView,
) -> bool {
    match receive_checks(before, packet, addr_check) {
        Err(e) => response == receive_refusal(description(e)) && after == before,
        Ok((denom, gas_limit)) => match payout(packet.data->Ok_0, denom, gas_limit) {
            Some(instruction) => {
                &&& response == receive_response(packet.data->Ok_0, denom, instruction)
                &&& after == state_after_receive(
                    before,
                    packet.dest.channel_id,
                    denom,
                    packet.data->Ok_0.amount,
                )
            },
            None => {
                &&& response.acknowledgement is Error
                &&& response == receive_refusal(response.acknowledgement->Error_0)
                &&& after == before
            },
        },
    }
}

/// Builds the answer to a packet that is refused for `reason`.
pub fn refuse(reason: String) -> (response: IbcReceiveResponse)
    ensures
        response@ == receive_refusal(reason@),
{
    let mut attributes: Vec<Attribute> = Vec::new();
    attributes.push(attr("action", "receive"));
    attributes.push(attr("success", "false"));
    attributes.push(attr("error", reason.as_str()));
    let response = IbcReceiveResponse {
        acknowledgement: ack_fail(reason),
        messages: Vec::new(),
        attributes,
    };
    assert(response@.messages =~= seq![]);
    assert(response@.attributes =~= receive_refusal(reason@).attributes);
    response
}

/// The address of the token contract that a received packet asks to be
/// paid from, if it carries a transfer and its denomination is a voucher
/// from the packet's source that names a contract token.
pub open spec fn received_token_address(packet: IbcPacketView) -> Option<Seq<char>> {
    match carried_transfer(packet) {
        Err(_) => None,
        Ok(transfer) => match parse_voucher(transfer.denom, packet.src) {
            Err(_) => None,
            Ok(denom) => token_address(amount_from_parts(denom, transfer.amount)),
        },
    }
}

/// The address of the token contract that a packet sent from here took its
/// amount from, if it carries a transfer and its denomination names a
/// contract token.
pub open spec fn sent_token_address(packet: IbcPacketView) -> Option<Seq<char>> {
    match carried_transfer(packet) {
        Err(_) => None,
        Ok(transfer) => token_address(amount_from_parts(transfer.denom, transfer.amount)),
    }
}

/// Finds the address that the host has to check before a packet is
/// received.
pub fn received_token(packet: &IbcPacket) -> (address: Option<String>)
    ensures
        match received_token_address(packet@) {
            Some(a) => address matches Some(found) && found@ == a,
            None => address is None,
        },
{
    match carried(packet) {
        Err(_) => None,
        Ok(transfer) => match parse_voucher_denom(transfer.denom.as_str(), &packet.src) {
            Err(_) => None,
            Ok(denom) => match Amount::from_parts(denom.to_owned(), transfer.amount) {
                Amount::Cw20(coin) => Some(coin.address),
                Amount::Native(_) => None,
            },
        },
    }
}

/// Finds the address that the host has to check before a packet sent from
/// here is refunded.
pub fn sent_token(packet: &IbcPacket) -> (address: Option<String>)
    ensures
        match sent_token_address(packet@) {
            Some(a) => address matches Some(found) && found@ == a,
            None => address is None,
        },
{
    match carried(packet) {
        Err(_) => None,
        Ok(transfer) => match Amount::from_parts(transfer.denom.clone(), transfer.amount) {
            Amount::Cw20(coin) => Some(coin.address),
            Amount::Native(_) => None,
        },
    }
}

/// Receives a packet. This never fails: whatever goes wrong is reported to
/// the counterparty in a failure acknowledgement. `addr_check` is the
/// host's verdict on the address that `received_token` finds in the packet;
/// it is read only if there is one.
pub fn ibc_packet_receive(state: &mut State, msg: IbcPacketReceiveMsg, addr_check: &AddrCheck) -> (res:
    IbcReceiveResponse)
    ensures
        receive_step(
            old(state)@,
            msg.packet@,
            verdict_view(*addr_check),
            res@,
            final(state)@,
        ),
{
    let packet = msg.packet;
    match do_ibc_packet_receive(state, &packet, addr_check) {
        Ok(response) => response,
        Err(err) => refuse(err.to_string()),
    }
}

/// The key under which a packet sent from here is accounted: the channel it
/// left over and its denomination.
pub open spec fn sent_key(packet: IbcPacketView) -> LedgerKey {
    (packet.src.channel_id, packet.data->Ok_0.denom)
}

/// Whether the ledger can take the settlement of `packet` without leaving
/// the range of its counters. A packet that carries no transfer is not
/// settled, so nothing is asked of it.
pub open spec fn settles(state: StateView, packet: IbcPacketView, completed: bool) -> bool {
    carried_transfer(packet) is Ok ==> can_release(
        state.ledger,
        sent_key(packet),
        packet.data->Ok_0.amount,
        completed,
    )
}

/// Tests whether the ledger can take the settlement of `packet`.
pub fn can_settle(state: &State, packet: &IbcPacket, completed: bool) -> (yes: bool)
    ensures
        yes == settles(state@, packet@, completed),
{
    match carried(packet) {
        Ok(transfer) => state.ledger.can_release(
            packet.src.channel_id.as_str(),
            transfer.denom.as_str(),
            transfer.amount,
            completed,
        ),
        Err(_) => true,
    }
}

/// The state after `packet`, sent from here, was settled. A denomination
/// that is new on its channel comes last in the ledger.
pub open spec fn state_after_settlement(state: StateView, packet: IbcPacketView, completed: bool) -> StateView {
    StateView {
        ledger: release(state.ledger, sent_key(packet), packet.data->Ok_0.amount, completed),
        ledger_order: with_key(state.ledger_order, sent_key(packet)),
        ..state
    }
}

/// What the mathematical value of a result of an event is.
pub open spec fn outcome_view(res: Result<IbcBasicResponse, ContractError>) -> Result<
    IbcBasicResponseView,
    ContractErrorView,
> {
    match res {
        Ok(response) => Ok(response@),
        Err(e) => Err(e@),
    }
}

/// The answer to the acknowledgement of a delivered packet: no instruction.
pub open spec fn success_response(transfer: Ics20PacketView) -> IbcBasicResponseView {
    IbcBasicResponseView {
        messages: seq![],
        attributes: transfer_attributes("acknowledge"@, transfer, transfer.denom, "true"@),
    }
}

/// Whether `result` and `after` are what the successful delivery of
/// `packet` gives in the state `before`: the amount is added to what is
/// outstanding and to the total sent. A packet that carries no transfer,
/// because its payload was not decoded or its amount does not fit in 64
/// bits, is an error and changes nothing.
pub open spec fn success_step(
    before: StateView,
    packet: IbcPacketView,
    result: Result<IbcBasicResponseView, ContractErrorView>,
    after: StateView,
) -> bool {
    match carried_transfer(packet) {
        Err(e) => result == Err::<IbcBasicResponseView, ContractErrorView>(e) && after == before,
        Ok(transfer) => result == Ok::<IbcBasicResponseView, ContractErrorView>(
            success_response(transfer),
        ) && after == state_after_settlement(before, packet, true),
    }
}

/// Settles a packet that the counterparty accepted.
pub fn on_packet_success(state: &mut State, packet: IbcPacket) -> (res: Result<
    IbcBasicResponse,
    ContractError,
>)
    requires
        settles(old(state)@, packet@, true),
    ensures
        success_step(old(state)@, packet@, outcome_view(res), final(state)@),
{
    let transfer = match carried(&packet) {
        Ok(transfer) => transfer,
        Err(e) => {
            return Err(e);
        },
    };
    let attributes = describe_transfer("acknowledge", transfer, transfer.denom.as_str(), "true");
    state.ledger.release_on_ack(
        packet.src.channel_id.as_str(),
        transfer.denom.as_str(),
        transfer.amount,
        true,
    );
    let response = IbcBasicResponse { messages: Vec::new(), attributes };
    assert(response@.messages =~= seq![]);
    Ok(response)
}

/// What has to hold for a failed packet to be refunded: it carries a
/// transfer, so its payload was decoded and its amount fits in 64 bits, and
/// the token may be moved. The result is the gas ceiling for the refund.
pub open spec fn failure_checks(
    state: StateView,
    packet: IbcPacketView,
    addr_check: Result<(), Seq<char>>,
) -> Result<Option<u64>, ContractErrorView> {
    match carried_transfer(packet) {
        Err(e) => Err(e),
        Ok(transfer) => gas_limit_for(
            state.allow_list,
            addr_check,
            amount_from_parts(transfer.denom, transfer.amount),
        ),
    }
}

/// The instruction that returns the amount of `transfer` to its sender, if
/// it can be encoded.
pub open spec fn refund(transfer: Ics20PacketView, gas_limit: Option<u64>) -> Option<SubMsgView> {
    transfer_instruction(
        amount_from_parts(transfer.denom, transfer.amount),
        transfer.sender,
        gas_limit,
    )
}

/// The answer to a packet that failed: the instruction that refunds the
/// sender, and the reason among the attributes.
pub open spec fn failure_response(
    transfer: Ics20PacketView,
    instruction: SubMsgView,
    err: Seq<char>,
) -> IbcBasicResponseView {
    IbcBasicResponseView {
        messages: seq![instruction],
        attributes: transfer_attributes("acknowledge"@, transfer, transfer.denom, "false"@).push(
            attribute("error"@, err),
        ),
    }
}

/// Whether `result` and `after` are what the failure of `packet`, for the
/// reason `err`, gives in the state `before`. Where a check fails the
/// result is that error and the state stays as it was. Otherwise the amount
/// is added to what is outstanding, the total sent stays, and the sender is
/// refunded, unless the instruction that refunds the sender cannot be
/// encoded: then the result is the encoder's complaint, and the state stays
/// as it was.
pub open spec fn failure_step(
    before: StateView,
    packet: IbcPacketView,
    err: Seq<char>,
    addr_check: Result<(), Seq<char>>,
    result: Result<IbcBasicResponseView, ContractErrorView>,
    after: StateView,
) -> bool {
    match failure_checks(before, packet, addr_check) {
        Err(e) => result == Err::<IbcBasicResponseView, ContractErrorView>(e) && after == before,
        Ok(gas_limit) => match refund(packet.data->Ok_0, gas_limit) {
            Some(instruction) => {
                &&& result == Ok::<IbcBasicResponseView, ContractErrorView>(
                    failure_response(packet.data->Ok_0, instruction, err),
                )
                &&& after == state_after_settlement(before, packet, false)
            },
            None => result is Err && result->Err_0 is Std && after == before,
        },
    }
}

/// Settles a packet that was refused or never delivered: returns the funds
/// to the sender.
pub fn on_packet_failure(state: &mut State, packet: IbcPacket, err: String, addr_check: &AddrCheck) -> (res:
    Result<IbcBasicResponse, ContractError>)
    requires
        settles(old(state)@, packet@, false),
    ensures
        failure_step(
            old(state)@,
            packet@,
            err@,
            verdict_view(*addr_check),
            outcome_view(res),
            final(state)@,
        ),
{
    let transfer = match carried(&packet) {
        Ok(transfer) => transfer,
        Err(e) => {
            return Err(e);
        },
    };
    let to_send = Amount::from_parts(transfer.denom.clone(), transfer.amount);
    let gas_limit = match check_gas_limit(&state.allow_list, addr_check, &to_send) {
        Ok(gas_limit) => gas_limit,
        Err(e) => {
            return Err(e);
        },
    };
    let send = match send_amount(to_send, transfer.sender.clone(), gas_limit) {
        Ok(send) => send,
        Err(e) => {
            return Err(e);
        },
    };
    state.ledger.release_on_ack(
        packet.src.channel_id.as_str(),
        transfer.denom.as_str(),
        transfer.amount,
        false,
    );
    let mut messages: Vec<SubMsg> = Vec::new();
    messages.push(send);
    assert(views(messages@) =~= seq![send@]);
    let mut attributes = describe_transfer(
        "acknowledge",
        transfer,
        transfer.denom.as_str(),
        "false",
    );
    let ghost described = views(attributes@);
    attributes.push(attr("error", err.as_str()));
    assert(views(attributes@) =~= described.push(attribute("error"@, err@)));
    Ok(IbcBasicResponse { messages, attributes })
}

/// The mathematical value of an acknowledgement as the host's decoder left
/// it.
pub open spec fn decoded_ack_view(ack: Result<Ics20Ack, String>) -> Result<
    Ics20AckView,
    Seq<char>,
> {
    match ack {
        Ok(ack) => Ok(ack@),
        Err(complaint) => Err(complaint@),
    }
}

/// Whether the ledger can take what the acknowledgement asks for.
pub open spec fn acknowledges(
    state: StateView,
    ack: Result<Ics20AckView, Seq<char>>,
    packet: IbcPacketView,
) -> bool {
    match ack {
        Ok(Ics20AckView::Result(_)) => settles(state, packet, true),
        Ok(Ics20AckView::Error(_)) => settles(state, packet, false),
        Err(_) => true,
    }
}

/// Tests whether the ledger can take what the acknowledgement asks for.
pub fn can_acknowledge(state: &State, msg: &IbcPacketAckMsg) -> (yes: bool)
    ensures
        yes == acknowledges(state@, decoded_ack_view(msg.acknowledgement), msg.original_packet@),
{
    match &msg.acknowledgement {
        Ok(Ics20Ack::Result(_)) => can_settle(state, &msg.original_packet, true),
        Ok(Ics20Ack::Error(_)) => can_settle(state, &msg.original_packet, false),
        Err(_) => true,
    }
}

/// Whether `result` and `after` are what the acknowledgement `ack` of
/// `packet` may give in the state `before`: an acknowledgement that was not
/// decoded is an error; one that reports success settles the packet as
/// delivered; one that reports failure settles it as failed.
pub open spec fn ack_step(
    before: StateView,
    ack: Result<Ics20AckView, Seq<char>>,
    packet: IbcPacketView,
    addr_check: Result<(), Seq<char>>,
    result: Result<IbcBasicResponseView, ContractErrorView>,
    after: StateView,
) -> bool {
    match ack {
        Err(complaint) => result == Err::<IbcBasicResponseView, ContractErrorView>(
            ContractErrorView::Std { msg: complaint },
        ) && after == before,
        Ok(Ics20AckView::Result(_)) => success_step(before, packet, result, after),
        Ok(Ics20AckView::Error(err)) => failure_step(
            before,
            packet,
            err,
            addr_check,
            result,
            after,
        ),
    }
}

/// Handles the counterparty's acknowledgement of a packet sent from here:
/// updates the balance on success, returns the funds on failure.
/// `addr_check` is the host's verdict on the address that `sent_token` finds
/// in the packet; it is read only if there is one.
pub fn ibc_packet_ack(state: &mut State, msg: IbcPacketAckMsg, addr_check: &AddrCheck) -> (res: Result<
    IbcBasicResponse,
    ContractError,
>)
    requires
        acknowledges(old(state)@, decoded_ack_view(msg.acknowledgement), msg.original_packet@),
    ensures
        ack_step(
            old(state)@,
            decoded_ack_view(msg.acknowledgement),
            msg.original_packet@,
            verdict_view(*addr_check),
            outcome_view(res),
            final(state)@,
        ),
{
    match msg.acknowledgement {
        Err(complaint) => Err(ContractError::Std { msg: complaint }),
        Ok(Ics20Ack::Result(_)) => on_packet_success(state, msg.original_packet),
        Ok(Ics20Ack::Error(err)) => on_packet_failure(state, msg.original_packet, err, addr_check),
    }
}

/// Handles a packet sent from here that was not delivered in time: returns
/// the funds to the sender, as a failure with the reason `timeout` does.
pub fn ibc_packet_timeout(state: &mut State, msg: IbcPacketTimeoutMsg, addr_check: &AddrCheck) -> (res:
    Result<IbcBasicResponse, ContractError>)
    requires
        settles(old(state)@, msg.packet@, false),
    ensures
        failure_step(
            old(state)@,
            msg.packet@,
            "timeout"@,
            verdict_view(*addr_check),
            outcome_view(res),
            final(state)@,
        ),
{
    on_packet_failure(state, msg.packet, String::from_str("timeout"), addr_check)
}

} // verus!
