//! Laws of the packet lifecycle, proved from the contracts of the events.
use crate::amount::amount_from_parts;
use crate::denom::{parse_voucher, voucher_parts};
use crate::error::{description, ContractErrorView};
use crate::host::{IbcBasicResponseView, IbcChannelView, IbcOrder, IbcPacketView, IbcReceiveResponseView};
use crate::ibc::{
    connect_step, failure_step, handshake, payout, receive_checks,
    receive_refusal, receive_response, receive_step, settles, success_step, ICS20_VERSION,
};
use crate::packet::{fits_in_64_bits, success_ack};
use crate::ledger::{can_release, covers, record_of, release, LedgerKey, LedgerMap};
use crate::state::StateView;
use vstd::prelude::*;

verus! {

/// The key under which a received packet is accounted: the channel it
/// arrived on and the local denomination `denom`.
pub open spec fn received_key(packet: IbcPacketView, denom: Seq<char>) -> LedgerKey {
    (packet.dest.channel_id, denom)
}

/// A packet that asks for more than is outstanding is refused, and the
/// state, so also what is outstanding, stays as it was. The reason given is
/// insufficient funds, unless the amount does not even fit in 64 bits.
pub proof fn law_receive_beyond_outstanding(
    before: StateView,
    packet: IbcPacketView,
    addr_check: Result<(), Seq<char>>,
    response: IbcReceiveResponseView,
    after: StateView,
)
    requires
        receive_step(before, packet, addr_check, response, after),
        packet.data is Ok,
        parse_voucher(packet.data->Ok_0.denom, packet.src) is Ok,
        packet.data->Ok_0.amount > record_of(
            before.ledger,
            received_key(packet, parse_voucher(packet.data->Ok_0.denom, packet.src)->Ok_0),
        ).outstanding,
    ensures
        response.acknowledgement is Error,
        response.messages.len() == 0,
        after == before,
        fits_in_64_bits(packet.data->Ok_0.amount) ==> response == receive_refusal(
            description(ContractErrorView::InsufficientFunds),
        ),
{
}

/// A packet whose amount does not fit in 64 bits is refused for that
/// reason, whatever the ledger holds, and the state stays as it was.
pub proof fn law_oversized_receive_refused(
    before: StateView,
    packet: IbcPacketView,
    addr_check: Result<(), Seq<char>>,
    response: IbcReceiveResponseView,
    after: StateView,
)
    requires
        receive_step(before, packet, addr_check, response, after),
        packet.data is Ok,
        packet.data->Ok_0.amount > u64::MAX,
    ensures
        response == receive_refusal(description(ContractErrorView::AmountOverflow)),
        after == before,
{
}

/// A packet sent from here whose amount does not fit in 64 bits is not
/// settled, neither as delivered nor as failed: the result is that error,
/// and the state stays as it was.
pub proof fn law_oversized_settlement_refused(
    before: StateView,
    packet: IbcPacketView,
    err: Seq<char>,
    addr_check: Result<(), Seq<char>>,
    result: Result<IbcBasicResponseView, ContractErrorView>,
    after: StateView,
)
    requires
        success_step(before, packet, result, after) || failure_step(
            before,
            packet,
            err,
            addr_check,
            result,
            after,
        ),
        packet.data is Ok,
        packet.data->Ok_0.amount > u64::MAX,
    ensures
        result == Err::<IbcBasicResponseView, ContractErrorView>(ContractErrorView::AmountOverflow),
        after == before,
{
}

/// A packet that passes every check is accepted where the instruction that
/// pays the receiver can be encoded, which is always so for a native
/// amount. The receiver is paid by one instruction, and the amount is taken
/// from what is outstanding, no more and no less; the total sent, every
/// other record and the order of the records stay.
pub proof fn law_covered_receive_accepted(
    before: StateView,
    packet: IbcPacketView,
    addr_check: Result<(), Seq<char>>,
    response: IbcReceiveResponseView,
    after: StateView,
)
    requires
        receive_step(before, packet, addr_check, response, after),
        receive_checks(before, packet, addr_check) is Ok,
        ({
            let (denom, gas_limit) = receive_checks(before, packet, addr_check)->Ok_0;
            ||| amount_from_parts(denom, packet.data->Ok_0.amount) is Native
            ||| payout(packet.data->Ok_0, denom, gas_limit) is Some
        }),
    ensures
        ({
            let (denom, gas_limit) = receive_checks(before, packet, addr_check)->Ok_0;
            let key = received_key(packet, denom);
            &&& payout(packet.data->Ok_0, denom, gas_limit) is Some
            &&& response == receive_response(
                packet.data->Ok_0,
                denom,
                payout(packet.data->Ok_0, denom, gas_limit)->Some_0,
            )
            &&& response.acknowledgement == success_ack()
            &&& response.messages.len() == 1
            &&& before.ledger.contains_key(key)
            &&& after.ledger.contains_key(key)
            &&& 0 <= after.ledger[key].outstanding <= before.ledger[key].outstanding
            &&& after.ledger[key].outstanding == before.ledger[key].outstanding
                - packet.data->Ok_0.amount
            &&& after.ledger[key].total_sent == before.ledger[key].total_sent
            &&& forall|other: LedgerKey|
                other != key ==> (after.ledger.contains_key(other) <==> before.ledger.contains_key(
                    other,
                )) && after.ledger[other] == before.ledger[other]
            &&& after.ledger_order == before.ledger_order
            &&& after.channels == before.channels
            &&& after.allow_list == before.allow_list
        }),
{
}

/// A packet that is accepted takes its amount from what is outstanding, no
/// more and no less, and leaves the total sent and every other record alone.
pub proof fn law_receive_debits(
    before: StateView,
    packet: IbcPacketView,
    addr_check: Result<(), Seq<char>>,
    response: IbcReceiveResponseView,
    after: StateView,
)
    requires
        receive_step(before, packet, addr_check, response, after),
        response.acknowledgement is Result,
    ensures
        packet.data is Ok,
        parse_voucher(packet.data->Ok_0.denom, packet.src) is Ok,
        ({
            let key = received_key(
                packet,
                parse_voucher(packet.data->Ok_0.denom, packet.src)->Ok_0,
            );
            &&& before.ledger.contains_key(key)
            &&& after.ledger.contains_key(key)
            &&& after.ledger[key].outstanding == before.ledger[key].outstanding
                - packet.data->Ok_0.amount
            &&& after.ledger[key].total_sent == before.ledger[key].total_sent
            &&& forall|other: LedgerKey|
                other != key ==> (after.ledger.contains_key(other) <==> before.ledger.contains_key(
                    other,
                )) && after.ledger[other] == before.ledger[other]
            &&& after.ledger_order == before.ledger_order
            &&& after.channels == before.channels
            &&& after.allow_list == before.allow_list
        }),
{
}

/// Receiving is not idempotent: when a packet has been accepted and what
/// was outstanding before does not cover its amount twice, the same packet
/// is refused the second time for insufficient funds, and the state stays
/// as the first receipt left it.
pub proof fn law_replayed_receive_refused(
    before: StateView,
    packet: IbcPacketView,
    first_check: Result<(), Seq<char>>,
    first: IbcReceiveResponseView,
    between: StateView,
    second_check: Result<(), Seq<char>>,
    second: IbcReceiveResponseView,
    after: StateView,
)
    requires
        receive_step(before, packet, first_check, first, between),
        first.acknowledgement is Result,
        receive_step(between, packet, second_check, second, after),
        record_of(
            before.ledger,
            received_key(packet, parse_voucher(packet.data->Ok_0.denom, packet.src)->Ok_0),
        ).outstanding < 2 * packet.data->Ok_0.amount,
    ensures
        second == receive_refusal(description(ContractErrorView::InsufficientFunds)),
        after == between,
{
    law_receive_debits(before, packet, first_check, first, between);
}

/// While what was outstanding covers the amount twice, the same packet is
/// accepted a second time under the same verdict of the host, with the same
/// answer, and takes its amount once more.
pub proof fn law_replayed_receive_accepted(
    before: StateView,
    packet: IbcPacketView,
    addr_check: Result<(), Seq<char>>,
    first: IbcReceiveResponseView,
    between: StateView,
    second: IbcReceiveResponseView,
    after: StateView,
)
    requires
        receive_step(before, packet, addr_check, first, between),
        first.acknowledgement is Result,
        receive_step(between, packet, addr_check, second, after),
        record_of(
            before.ledger,
            received_key(packet, parse_voucher(packet.data->Ok_0.denom, packet.src)->Ok_0),
        ).outstanding >= 2 * packet.data->Ok_0.amount,
    ensures
        second == first,
        ({
            let key = received_key(
                packet,
                parse_voucher(packet.data->Ok_0.denom, packet.src)->Ok_0,
            );
            &&& after.ledger.contains_key(key)
            &&& after.ledger[key].outstanding == before.ledger[key].outstanding - 2
                * packet.data->Ok_0.amount
            &&& after.ledger[key].total_sent == before.ledger[key].total_sent
        }),
{
    law_receive_debits(before, packet, addr_check, first, between);
}

/// A voucher whose port or channel is not that of the packet's source is
/// refused, whatever the ledger holds, and the state stays as it was. The
/// reason given names the part that does not match, unless the amount does
/// not even fit in 64 bits.
pub proof fn law_foreign_voucher_refused(
    before: StateView,
    packet: IbcPacketView,
    addr_check: Result<(), Seq<char>>,
    response: IbcReceiveResponseView,
    after: StateView,
)
    requires
        receive_step(before, packet, addr_check, response, after),
        packet.data is Ok,
        voucher_parts(packet.data->Ok_0.denom) is Some,
        ({
            let (port, channel, base) = voucher_parts(packet.data->Ok_0.denom)->Some_0;
            port != packet.src.port_id || channel != packet.src.channel_id
        }),
    ensures
        response.acknowledgement is Error,
        response.messages.len() == 0,
        after == before,
        ({
            let (port, channel, base) = voucher_parts(packet.data->Ok_0.denom)->Some_0;
            fits_in_64_bits(packet.data->Ok_0.amount) ==> response == receive_refusal(
                description(
                    if port != packet.src.port_id {
                        ContractErrorView::FromOtherPort { port }
                    } else {
                        ContractErrorView::FromOtherChannel { channel }
                    },
                ),
            )
        }),
{
}

/// A denomination that is no voucher at all is refused, whatever the ledger
/// holds, and the state stays as it was. The reason given is that it is a
/// foreign token, unless the amount does not even fit in 64 bits.
pub proof fn law_plain_denom_refused(
    before: StateView,
    packet: IbcPacketView,
    addr_check: Result<(), Seq<char>>,
    response: IbcReceiveResponseView,
    after: StateView,
)
    requires
        receive_step(before, packet, addr_check, response, after),
        packet.data is Ok,
        voucher_parts(packet.data->Ok_0.denom) is None,
    ensures
        response.acknowledgement is Error,
        response.messages.len() == 0,
        after == before,
        fits_in_64_bits(packet.data->Ok_0.amount) ==> response == receive_refusal(
            description(ContractErrorView::NoForeignTokens),
        ),
{
}

/// A packet is never answered with both an instruction and a failure, and a
/// refused packet leaves the state as it was.
pub proof fn law_refusal_moves_nothing(
    before: StateView,
    packet: IbcPacketView,
    addr_check: Result<(), Seq<char>>,
    response: IbcReceiveResponseView,
    after: StateView,
)
    requires
        receive_step(before, packet, addr_check, response, after),
        response.acknowledgement is Error,
    ensures
        response.messages.len() == 0,
        after == before,
{
}

/// A channel whose version, or whose counterparty's version, is not the
/// supported one, or whose delivery is ordered, is rejected, and nothing is
/// recorded of it.
pub proof fn law_bad_handshake_records_nothing(
    before: StateView,
    channel: IbcChannelView,
    counterparty_version: Option<Seq<char>>,
    result: Result<IbcBasicResponseView, ContractErrorView>,
    after: StateView,
)
    requires
        connect_step(before, channel, counterparty_version, result, after),
        ({
            ||| channel.version != ICS20_VERSION@
            ||| (counterparty_version is Some && counterparty_version->Some_0 != ICS20_VERSION@)
            ||| channel.order == IbcOrder::Ordered
        }),
    ensures
        handshake(channel, counterparty_version) is Err,
        result is Err,
        result->Err_0 is InvalidVersion || result->Err_0 is OnlyUnorderedChannel,
        after == before,
{
}

/// A contract token that is not on the allow list is refused, and the state
/// stays as it was. Where the amount fits in 64 bits, the ledger covers it
/// and the host accepts the token's address, the reason given is that the
/// token is not allowed.
pub proof fn law_token_not_allowed(
    before: StateView,
    packet: IbcPacketView,
    addr_check: Result<(), Seq<char>>,
    response: IbcReceiveResponseView,
    after: StateView,
)
    requires
        receive_step(before, packet, addr_check, response, after),
        packet.data is Ok,
        parse_voucher(packet.data->Ok_0.denom, packet.src) is Ok,
        ({
            let denom = parse_voucher(packet.data->Ok_0.denom, packet.src)->Ok_0;
            &&& amount_from_parts(denom, packet.data->Ok_0.amount) is Cw20
            &&& !before.allow_list.contains_key(
                amount_from_parts(denom, packet.data->Ok_0.amount)->Cw20_0.address,
            )
        }),
    ensures
        response.acknowledgement is Error,
        response.messages.len() == 0,
        after == before,
        ({
            let denom = parse_voucher(packet.data->Ok_0.denom, packet.src)->Ok_0;
            fits_in_64_bits(packet.data->Ok_0.amount) && covers(
                before.ledger,
                received_key(packet, denom),
                packet.data->Ok_0.amount,
            ) && addr_check is Ok ==> response == receive_refusal(
                description(ContractErrorView::NotOnAllowList),
            )
        }),
{
}

/// Whether the ledger `after` still holds every record of `before`, each
/// with a total sent that is no smaller than it was.
pub open spec fn ledger_grown(before: LedgerMap, after: LedgerMap) -> bool {
    forall|key: LedgerKey|
        before.contains_key(key) ==> after.contains_key(key) && after[key].total_sent
            >= before[key].total_sent
}

/// Receiving a packet deletes no record and leaves every total sent as it
/// was.
pub proof fn law_receive_keeps_totals(
    before: StateView,
    packet: IbcPacketView,
    addr_check: Result<(), Seq<char>>,
    response: IbcReceiveResponseView,
    after: StateView,
)
    requires
        receive_step(before, packet, addr_check, response, after),
    ensures
        ledger_grown(before.ledger, after.ledger),
        forall|key: LedgerKey|
            record_of(after.ledger, key).total_sent == record_of(before.ledger, key).total_sent,
{
}

/// Settling a delivered packet deletes no record and lowers no total sent.
pub proof fn law_success_keeps_records(
    before: StateView,
    packet: IbcPacketView,
    result: Result<IbcBasicResponseView, ContractErrorView>,
    after: StateView,
)
    requires
        settles(before, packet, true),
        success_step(before, packet, result, after),
    ensures
        ledger_grown(before.ledger, after.ledger),
{
}

/// Settling a failed or timed-out packet deletes no record and leaves every
/// total sent as it was.
pub proof fn law_failure_keeps_totals(
    before: StateView,
    packet: IbcPacketView,
    err: Seq<char>,
    addr_check: Result<(), Seq<char>>,
    result: Result<IbcBasicResponseView, ContractErrorView>,
    after: StateView,
)
    requires
        settles(before, packet, false),
        failure_step(before, packet, err, addr_check, result, after),
    ensures
        ledger_grown(before.ledger, after.ledger),
        forall|key: LedgerKey|
            record_of(after.ledger, key).total_sent == record_of(before.ledger, key).total_sent,
{
}

/// The order in which two outbound transfers are settled does not matter
/// to the ledger.
pub proof fn law_settlements_commute(
    ledger: LedgerMap,
    first: LedgerKey,
    first_amount: u128,
    first_completed: bool,
    second: LedgerKey,
    second_amount: u128,
    second_completed: bool,
)
    requires
        can_release(ledger, first, first_amount, first_completed),
        can_release(
            release(ledger, first, first_amount, first_completed),
            second,
            second_amount,
            second_completed,
        ),
    ensures
        can_release(ledger, second, second_amount, second_completed),
        can_release(
            release(ledger, second, second_amount, second_completed),
            first,
            first_amount,
            first_completed,
        ),
        release(
            release(ledger, first, first_amount, first_completed),
            second,
            second_amount,
            second_completed,
        ) == release(
            release(ledger, second, second_amount, second_completed),
            first,
            first_amount,
            first_completed,
        ),
{
    let one = release(ledger, first, first_amount, first_completed);
    let other = release(ledger, second, second_amount, second_completed);
    assert(release(one, second, second_amount, second_completed) =~= release(
        other,
        first,
        first_amount,
        first_completed,
    ));
}

} // verus!
