use cosmwasm_std::{to_json_binary, Uint128};
use cw20::Cw20ExecuteMsg;
use cw20_ics20::amount::{Amount, Coin};
use cw20_ics20::dispatch::{
    check_gas_limit, native_transfer, reply, send_amount, token_transfer, SEND_TOKEN_ID,
};
use cw20_ics20::error::ContractError;
use cw20_ics20::host::{
    attr, Attribute, CosmosMsg, IbcBasicResponse, IbcChannel, IbcChannelConnectMsg,
    IbcChannelOpenMsg, IbcEndpoint, IbcOrder, IbcPacket, IbcPacketAckMsg, IbcPacketReceiveMsg,
    IbcPacketTimeoutMsg, IbcReceiveResponse, Reply, ReplyOn, Response, SubMsg,
};
use cw20_ics20::ibc::{
    can_acknowledge, can_settle, carried, do_ibc_packet_receive, enforce_order_and_version,
    ibc_channel_connect, ibc_channel_open, ibc_packet_ack, ibc_packet_receive, ibc_packet_timeout,
    on_packet_failure, on_packet_success, received_token, refuse, sent_token, ICS20_ORDERING,
    ICS20_VERSION,
};
use cw20_ics20::ledger::ChannelState;
use cw20_ics20::packet::{ack_success, Ics20Ack, Ics20Packet};
use cw20_ics20::query::query_channel;
use cw20_ics20::state::{AllowInfo, ChannelInfo, State};
use cw20_ics20::table::Table;

const LOCAL_PORT: &str = "wasm.local";
const REMOTE_PORT: &str = "transfer";
const REMOTE_CHANNEL: &str = "channel-1234";

fn channel(id: &str, version: &str, order: IbcOrder) -> IbcChannel {
    IbcChannel {
        endpoint: IbcEndpoint {
            port_id: LOCAL_PORT.to_string(),
            channel_id: id.to_string(),
        },
        counterparty_endpoint: IbcEndpoint {
            port_id: REMOTE_PORT.to_string(),
            channel_id: REMOTE_CHANNEL.to_string(),
        },
        order,
        version: version.to_string(),
        connection_id: "connection-2".to_string(),
    }
}

fn sent(my_channel: &str, amount: u128, denom: &str) -> IbcPacket {
    IbcPacket {
        data: Ok(Ics20Packet::new(amount, denom, "local-sender", "remote-rcpt")),
        src: IbcEndpoint {
            port_id: LOCAL_PORT.to_string(),
            channel_id: my_channel.to_string(),
        },
        dest: IbcEndpoint {
            port_id: REMOTE_PORT.to_string(),
            channel_id: REMOTE_CHANNEL.to_string(),
        },
    }
}

fn arriving(my_channel: &str, amount: u128, voucher: &str) -> IbcPacket {
    IbcPacket {
        data: Ok(Ics20Packet::new(amount, voucher, "remote-sender", "local-rcpt")),
        src: IbcEndpoint {
            port_id: REMOTE_PORT.to_string(),
            channel_id: REMOTE_CHANNEL.to_string(),
        },
        dest: IbcEndpoint {
            port_id: LOCAL_PORT.to_string(),
            channel_id: my_channel.to_string(),
        },
    }
}

fn record(outstanding: u128, total_sent: u128) -> ChannelState {
    ChannelState {
        outstanding,
        total_sent,
    }
}

fn refusal(reason: &str) -> IbcReceiveResponse {
    IbcReceiveResponse {
        acknowledgement: Ics20Ack::Error(reason.to_string()),
        messages: vec![],
        attributes: vec![
            attr("action", "receive"),
            attr("success", "false"),
            attr("error", reason),
        ],
    }
}

fn state_with(channel_id: &str, denom: &str, outstanding: u128, total_sent: u128) -> State {
    let mut state = State::new();
    state
        .ledger
        .set(channel_id, denom, record(outstanding, total_sent));
    state
}

fn transfer_json(recipient: &str, amount: u128) -> Vec<u8> {
    let msg = Cw20ExecuteMsg::Transfer {
        recipient: recipient.to_string(),
        amount: Uint128::new(amount),
    };
    to_json_binary(&msg).unwrap().to_vec()
}

#[test]
fn constants_of_the_protocol() {
    assert_eq!(ICS20_VERSION, "ics20-1");
    assert_eq!(ICS20_ORDERING, IbcOrder::Unordered);
    assert_eq!(SEND_TOKEN_ID, 1337);
}

#[test]
fn handshake_accepts_supported_channel() {
    let ch = channel("channel-1", "ics20-1", IbcOrder::Unordered);
    assert_eq!(enforce_order_and_version(&ch, None), Ok(()));
    assert_eq!(enforce_order_and_version(&ch, Some("ics20-1")), Ok(()));
    assert_eq!(
        ibc_channel_open(IbcChannelOpenMsg::OpenInit {
            channel: ch.clone()
        }),
        Ok(())
    );
    assert_eq!(
        ibc_channel_open(IbcChannelOpenMsg::OpenTry {
            channel: ch,
            counterparty_version: "ics20-1".to_string()
        }),
        Ok(())
    );
}

#[test]
fn handshake_rejects_other_version() {
    let ch = channel("channel-1", "ics20-2", IbcOrder::Unordered);
    let expected = Err(ContractError::InvalidVersion {
        version: "ics20-2".to_string(),
    });
    assert_eq!(enforce_order_and_version(&ch, None), expected);
    assert_eq!(
        ibc_channel_open(IbcChannelOpenMsg::OpenInit { channel: ch }),
        expected
    );
}

#[test]
fn handshake_rejects_other_counterparty_version() {
    let ch = channel("channel-1", "ics20-1", IbcOrder::Unordered);
    let expected = Err(ContractError::InvalidVersion {
        version: "ics20".to_string(),
    });
    assert_eq!(enforce_order_and_version(&ch, Some("ics20")), expected);
    assert_eq!(
        ibc_channel_open(IbcChannelOpenMsg::OpenTry {
            channel: ch,
            counterparty_version: "ics20".to_string()
        }),
        expected
    );
}

#[test]
fn handshake_rejects_ordered_channel() {
    let ch = channel("channel-1", "ics20-1", IbcOrder::Ordered);
    assert_eq!(
        enforce_order_and_version(&ch, Some("ics20-1")),
        Err(ContractError::OnlyUnorderedChannel)
    );
    assert_eq!(
        ibc_channel_open(IbcChannelOpenMsg::OpenInit { channel: ch }),
        Err(ContractError::OnlyUnorderedChannel)
    );
}

#[test]
fn handshake_reports_version_before_order() {
    let ch = channel("channel-1", "v9", IbcOrder::Ordered);
    assert_eq!(
        enforce_order_and_version(&ch, Some("v8")),
        Err(ContractError::InvalidVersion {
            version: "v9".to_string()
        })
    );
    let ch = channel("channel-1", "ics20-1", IbcOrder::Ordered);
    assert_eq!(
        enforce_order_and_version(&ch, Some("v8")),
        Err(ContractError::InvalidVersion {
            version: "v8".to_string()
        })
    );
}

#[test]
fn connect_records_the_channel() {
    let mut state = State::new();
    let res = ibc_channel_connect(
        &mut state,
        IbcChannelConnectMsg::OpenAck {
            channel: channel("channel-3", "ics20-1", IbcOrder::Unordered),
            counterparty_version: "ics20-1".to_string(),
        },
    );
    assert_eq!(
        res,
        Ok(IbcBasicResponse {
            messages: vec![],
            attributes: vec![]
        })
    );
    let expected = ChannelInfo {
        id: "channel-3".to_string(),
        counterparty_endpoint: IbcEndpoint {
            port_id: REMOTE_PORT.to_string(),
            channel_id: REMOTE_CHANNEL.to_string(),
        },
        connection_id: "connection-2".to_string(),
    };
    assert_eq!(state.channels.len(), 1);
    assert_eq!(state.channels.get(&"channel-3".to_string()), Some(&expected));
    assert_eq!(query_channel(&state, "channel-3").unwrap().info, expected);

    let res = ibc_channel_connect(
        &mut state,
        IbcChannelConnectMsg::OpenConfirm {
            channel: channel("channel-4", "ics20-1", IbcOrder::Unordered),
        },
    );
    assert!(res.is_ok());
    assert_eq!(state.channels.len(), 2);
    assert!(state.channels.get(&"channel-4".to_string()).is_some());
}

#[test]
fn rejected_connect_records_nothing() {
    let mut state = State::new();
    let res = ibc_channel_connect(
        &mut state,
        IbcChannelConnectMsg::OpenAck {
            channel: channel("channel-3", "ics20-1", IbcOrder::Unordered),
            counterparty_version: "other".to_string(),
        },
    );
    assert_eq!(
        res,
        Err(ContractError::InvalidVersion {
            version: "other".to_string()
        })
    );
    assert_eq!(state.channels.len(), 0);

    let res = ibc_channel_connect(
        &mut state,
        IbcChannelConnectMsg::OpenConfirm {
            channel: channel("channel-3", "ics20-1", IbcOrder::Ordered),
        },
    );
    assert_eq!(res, Err(ContractError::OnlyUnorderedChannel));
    assert_eq!(state.channels.len(), 0);

    let res = ibc_channel_connect(
        &mut state,
        IbcChannelConnectMsg::OpenConfirm {
            channel: channel("channel-3", "", IbcOrder::Unordered),
        },
    );
    assert_eq!(
        res,
        Err(ContractError::InvalidVersion {
            version: String::new()
        })
    );
    assert_eq!(state.channels.len(), 0);
    assert!(query_channel(&state, "channel-3").is_none());
}

#[test]
fn reply_under_unknown_id_is_refused() {
    let res = reply(Reply {
        id: 1338,
        result: Err("boom".to_string()),
    });
    assert_eq!(res, Err(ContractError::UnknownCallbackId { id: 1338 }));
    let res = reply(Reply {
        id: 0,
        result: Ok(()),
    });
    assert_eq!(res, Err(ContractError::UnknownCallbackId { id: 0 }));
}

#[test]
fn reply_rewrites_the_ack_only_on_failure() {
    let res = reply(Reply {
        id: SEND_TOKEN_ID,
        result: Ok(()),
    });
    assert_eq!(res, Ok(Response { data: None }));
    let res = reply(Reply {
        id: SEND_TOKEN_ID,
        result: Err("out of gas".to_string()),
    });
    assert_eq!(
        res,
        Ok(Response {
            data: Some(Ics20Ack::Error("out of gas".to_string()))
        })
    );
}

#[test]
fn native_amount_becomes_a_bank_transfer() {
    let expected = SubMsg {
        id: 1337,
        msg: CosmosMsg::BankSend {
            to_address: "bob".to_string(),
            amount: vec![Coin {
                denom: "uatom".to_string(),
                amount: 55,
            }],
        },
        gas_limit: None,
        reply_on: ReplyOn::Error,
    };
    assert_eq!(
        send_amount(Amount::native(55, "uatom"), "bob".to_string(), Some(9)),
        Ok(expected)
    );
    let direct = native_transfer(
        Coin {
            denom: "uatom".to_string(),
            amount: 55,
        },
        "bob".to_string(),
    );
    assert_eq!(
        send_amount(Amount::native(55, "uatom"), "bob".to_string(), None),
        Ok(direct)
    );
}

#[test]
fn token_amount_becomes_a_contract_call() {
    let expected = SubMsg {
        id: 1337,
        msg: CosmosMsg::WasmExecute {
            contract_addr: "token-addr".to_string(),
            msg: br#"{"transfer":{"recipient":"local-rcpt","amount":"876543210"}}"#.to_vec(),
            funds: vec![],
        },
        gas_limit: Some(1234567),
        reply_on: ReplyOn::Error,
    };
    assert_eq!(
        send_amount(
            Amount::cw20(876543210, "token-addr"),
            "local-rcpt".to_string(),
            Some(1234567)
        ),
        Ok(expected)
    );
    let without_limit = send_amount(Amount::cw20(1, "token-addr"), "r".to_string(), None).unwrap();
    assert_eq!(without_limit.gas_limit, None);
    assert_eq!(
        without_limit,
        token_transfer(
            "token-addr".to_string(),
            br#"{"transfer":{"recipient":"r","amount":"1"}}"#.to_vec(),
            None
        )
    );
}

#[test]
fn token_call_message_is_the_encoders() {
    for (recipient, amount) in [
        ("plain", 0u128),
        ("with \"quotes\" and \\ and \n", 7),
        ("ünïcödé-рецепт", u128::MAX),
        ("", 18446744073709551616),
    ] {
        let sub = send_amount(
            Amount::cw20(amount, "token-addr"),
            recipient.to_string(),
            None,
        )
        .unwrap();
        match sub.msg {
            CosmosMsg::WasmExecute { msg, .. } => assert_eq!(msg, transfer_json(recipient, amount)),
            other => panic!("unexpected instruction {:?}", other),
        }
    }
}

#[test]
fn gas_limit_comes_from_the_allow_list() {
    let mut allow_list: Table<String, AllowInfo> = Table::new();
    allow_list.insert("capped".to_string(),
        AllowInfo {
            gas_limit: Some(777),
        },
    );
    allow_list.insert("free".to_string(), AllowInfo { gas_limit: None });
    let ok = Ok(());
    assert_eq!(
        check_gas_limit(&allow_list, &ok, &Amount::cw20(1, "capped")),
        Ok(Some(777))
    );
    assert_eq!(
        check_gas_limit(&allow_list, &ok, &Amount::cw20(1, "free")),
        Ok(None)
    );
    assert_eq!(
        check_gas_limit(&allow_list, &ok, &Amount::cw20(1, "unknown")),
        Err(ContractError::NotOnAllowList)
    );
    assert_eq!(
        check_gas_limit(&allow_list, &ok, &Amount::native(1, "capped")),
        Ok(None)
    );
}

#[test]
fn gas_limit_needs_an_address_the_host_accepts() {
    let mut allow_list: Table<String, AllowInfo> = Table::new();
    allow_list.insert("capped".to_string(),
        AllowInfo {
            gas_limit: Some(777),
        },
    );
    let bad = Err("Invalid input: human address too short".to_string());
    assert_eq!(
        check_gas_limit(&allow_list, &bad, &Amount::cw20(1, "capped")),
        Err(ContractError::Std {
            msg: "Invalid input: human address too short".to_string()
        })
    );
    assert_eq!(
        check_gas_limit(&allow_list, &bad, &Amount::cw20(1, "unknown")),
        Err(ContractError::Std {
            msg: "Invalid input: human address too short".to_string()
        })
    );
    assert_eq!(
        check_gas_limit(&allow_list, &bad, &Amount::native(1, "uatom")),
        Ok(None)
    );
}

#[test]
fn refusal_has_the_reason_in_ack_and_attributes() {
    assert_eq!(refuse("no".to_string()), refusal("no"));
    assert_eq!(
        refuse("no".to_string()).attributes,
        vec![
            Attribute {
                key: "action".to_string(),
                value: "receive".to_string()
            },
            Attribute {
                key: "success".to_string(),
                value: "false".to_string()
            },
            Attribute {
                key: "error".to_string(),
                value: "no".to_string()
            },
        ]
    );
}

#[test]
fn received_packet_pays_the_receiver_and_debits_the_ledger() {
    let mut state = state_with("channel-9", "uatom", 100, 250);
    let packet = arriving("channel-9", 60, "transfer/channel-1234/uatom");
    let res = ibc_packet_receive(&mut state, IbcPacketReceiveMsg { packet }, &Ok(()));
    let expected = IbcReceiveResponse {
        acknowledgement: Ics20Ack::Result(b"1".to_vec()),
        messages: vec![SubMsg {
            id: 1337,
            msg: CosmosMsg::BankSend {
                to_address: "local-rcpt".to_string(),
                amount: vec![Coin {
                    denom: "uatom".to_string(),
                    amount: 60,
                }],
            },
            gas_limit: None,
            reply_on: ReplyOn::Error,
        }],
        attributes: vec![
            attr("action", "receive"),
            attr("sender", "remote-sender"),
            attr("receiver", "local-rcpt"),
            attr("denom", "uatom"),
            attr("amount", "60"),
            attr("success", "true"),
        ],
    };
    assert_eq!(res, expected);
    assert_eq!(state.ledger.get("channel-9", "uatom"), Some(record(40, 250)));
}

#[test]
fn receive_beyond_outstanding_is_refused_and_changes_nothing() {
    let mut state = state_with("channel-9", "uatom", 100, 250);
    let packet = arriving("channel-9", 101, "transfer/channel-1234/uatom");
    let res = ibc_packet_receive(&mut state, IbcPacketReceiveMsg { packet }, &Ok(()));
    assert_eq!(res, refusal("Insufficient funds to redeem voucher on channel"));
    assert_eq!(state.ledger.get("channel-9", "uatom"), Some(record(100, 250)));
    assert_eq!(state.ledger.len(), 1);
}

#[test]
fn receive_on_another_channel_finds_no_funds() {
    let mut state = state_with("channel-9", "uatom", 100, 250);
    let packet = arriving("channel-8", 1, "transfer/channel-1234/uatom");
    let res = ibc_packet_receive(&mut state, IbcPacketReceiveMsg { packet }, &Ok(()));
    assert_eq!(res, refusal("Insufficient funds to redeem voucher on channel"));
    assert_eq!(state.ledger.get("channel-9", "uatom"), Some(record(100, 250)));
    assert_eq!(state.ledger.get("channel-8", "uatom"), None);
}

#[test]
fn replayed_receive_is_refused_once_the_balance_is_used_up() {
    let mut state = state_with("channel-9", "uatom", 100, 100);
    let packet = arriving("channel-9", 60, "transfer/channel-1234/uatom");
    let first = ibc_packet_receive(
        &mut state,
        IbcPacketReceiveMsg {
            packet: packet.clone(),
        },
        &Ok(()),
    );
    assert_eq!(first.acknowledgement, ack_success());
    assert_eq!(first.messages.len(), 1);
    assert_eq!(state.ledger.get("channel-9", "uatom"), Some(record(40, 100)));
    let second = ibc_packet_receive(&mut state, IbcPacketReceiveMsg { packet }, &Ok(()));
    assert_eq!(
        second,
        refusal("Insufficient funds to redeem voucher on channel")
    );
    assert_eq!(state.ledger.get("channel-9", "uatom"), Some(record(40, 100)));
}

#[test]
fn replayed_receive_is_accepted_while_the_balance_lasts() {
    let mut state = state_with("channel-9", "uatom", 120, 120);
    let packet = arriving("channel-9", 60, "transfer/channel-1234/uatom");
    for left in [60u128, 0] {
        let res = ibc_packet_receive(
            &mut state,
            IbcPacketReceiveMsg {
                packet: packet.clone(),
            },
            &Ok(()),
        );
        assert_eq!(res.acknowledgement, ack_success());
        assert_eq!(
            state.ledger.get("channel-9", "uatom"),
            Some(record(left, 120))
        );
    }
    let res = ibc_packet_receive(&mut state, IbcPacketReceiveMsg { packet }, &Ok(()));
    assert!(matches!(res.acknowledgement, Ics20Ack::Error(_)));
}

#[test]
fn voucher_of_another_origin_is_refused_whatever_the_balance() {
    let mut state = State::new();
    for denom in [
        "uatom",
        "other/channel-1234/uatom",
        "transfer/channel-7/uatom",
    ] {
        state
            .ledger
            .set("channel-9", denom, record(u128::MAX, u128::MAX));
    }
    state
        .ledger
        .set("channel-9", "uatom", record(u128::MAX, u128::MAX));
    let cases = [
        (
            "other/channel-1234/uatom",
            "Parsed port from denom (other) doesn't match packet",
        ),
        (
            "transfer/channel-7/uatom",
            "Parsed channel from denom (channel-7) doesn't match packet",
        ),
        (
            "uatom",
            "Only accepts tokens that originate on this chain, not native tokens of remote chain",
        ),
        (
            "transfer/uatom",
            "Only accepts tokens that originate on this chain, not native tokens of remote chain",
        ),
    ];
    for (voucher, reason) in cases {
        let packet = arriving("channel-9", 1, voucher);
        let res = ibc_packet_receive(&mut state, IbcPacketReceiveMsg { packet }, &Ok(()));
        assert_eq!(res, refusal(reason));
        assert_eq!(
            state.ledger.get("channel-9", "uatom"),
            Some(record(u128::MAX, u128::MAX))
        );
    }
}

#[test]
fn undecoded_payload_is_refused_with_the_decoders_complaint() {
    let mut state = state_with("channel-9", "uatom", 100, 100);
    let mut packet = arriving("channel-9", 1, "transfer/channel-1234/uatom");
    packet.data = Err("Error parsing into type Ics20Packet: EOF".to_string());
    assert_eq!(
        do_ibc_packet_receive(&mut state, &packet, &Ok(())),
        Err(ContractError::Std {
            msg: "Error parsing into type Ics20Packet: EOF".to_string()
        })
    );
    let res = ibc_packet_receive(&mut state, IbcPacketReceiveMsg { packet }, &Ok(()));
    assert_eq!(res, refusal("Error parsing into type Ics20Packet: EOF"));
    assert_eq!(state.ledger.get("channel-9", "uatom"), Some(record(100, 100)));
}

#[test]
fn token_off_the_allow_list_is_refused_though_funds_suffice() {
    let mut state = state_with("channel-9", "cw20:token-addr", 100, 100);
    state
        .allow_list
        .insert("other-token".to_string(), AllowInfo { gas_limit: None });
    let packet = arriving("channel-9", 60, "transfer/channel-1234/cw20:token-addr");
    assert_eq!(
        do_ibc_packet_receive(&mut state, &packet, &Ok(())),
        Err(ContractError::NotOnAllowList)
    );
    let res = ibc_packet_receive(&mut state, IbcPacketReceiveMsg { packet }, &Ok(()));
    assert_eq!(
        res,
        refusal("You can only send cw20 tokens that have been explicitly allowed by governance")
    );
    assert_eq!(
        state.ledger.get("channel-9", "cw20:token-addr"),
        Some(record(100, 100))
    );
}

#[test]
fn missing_funds_are_reported_before_a_missing_allowance() {
    let mut state = state_with("channel-9", "cw20:token-addr", 10, 100);
    let packet = arriving("channel-9", 60, "transfer/channel-1234/cw20:token-addr");
    let res = ibc_packet_receive(&mut state, IbcPacketReceiveMsg { packet }, &Ok(()));
    assert_eq!(res, refusal("Insufficient funds to redeem voucher on channel"));
}

#[test]
fn token_with_address_the_host_refuses_is_not_paid() {
    let mut state = state_with("channel-9", "cw20:x", 100, 100);
    state.allow_list.insert("x".to_string(), AllowInfo { gas_limit: None });
    let packet = arriving("channel-9", 60, "transfer/channel-1234/cw20:x");
    let verdict = Err("Invalid input: human address too short".to_string());
    let res = ibc_packet_receive(&mut state, IbcPacketReceiveMsg { packet }, &verdict);
    assert_eq!(res, refusal("Invalid input: human address too short"));
    assert_eq!(state.ledger.get("channel-9", "cw20:x"), Some(record(100, 100)));
}

#[test]
fn allowed_token_is_paid_by_a_capped_contract_call() {
    let mut state = state_with("channel-9", "cw20:token-addr", 100, 100);
    state.allow_list.insert("token-addr".to_string(),
        AllowInfo {
            gas_limit: Some(500),
        },
    );
    let packet = arriving("channel-9", 60, "transfer/channel-1234/cw20:token-addr");
    let res = ibc_packet_receive(&mut state, IbcPacketReceiveMsg { packet }, &Ok(()));
    assert_eq!(res.acknowledgement, Ics20Ack::Result(vec![b'1']));
    assert_eq!(
        res.messages,
        vec![SubMsg {
            id: 1337,
            msg: CosmosMsg::WasmExecute {
                contract_addr: "token-addr".to_string(),
                msg: br#"{"transfer":{"recipient":"local-rcpt","amount":"60"}}"#.to_vec(),
                funds: vec![],
            },
            gas_limit: Some(500),
            reply_on: ReplyOn::Error,
        }]
    );
    assert_eq!(
        res.attributes,
        vec![
            attr("action", "receive"),
            attr("sender", "remote-sender"),
            attr("receiver", "local-rcpt"),
            attr("denom", "cw20:token-addr"),
            attr("amount", "60"),
            attr("success", "true"),
        ]
    );
    assert_eq!(
        state.ledger.get("channel-9", "cw20:token-addr"),
        Some(record(40, 100))
    );
}

#[test]
fn address_to_check_is_found_in_the_packet() {
    assert_eq!(
        received_token(&arriving(
            "channel-9",
            1,
            "transfer/channel-1234/cw20:token-addr"
        )),
        Some("token-addr".to_string())
    );
    assert_eq!(
        received_token(&arriving("channel-9", 1, "transfer/channel-1234/uatom")),
        None
    );
    assert_eq!(
        received_token(&arriving("channel-9", 1, "cw20:token-addr")),
        None
    );
    assert_eq!(
        received_token(&arriving("channel-9", 1, "other/channel-1234/cw20:t")),
        None
    );
    assert_eq!(
        sent_token(&sent("channel-9", 1, "cw20:token-addr")),
        Some("token-addr".to_string())
    );
    assert_eq!(sent_token(&sent("channel-9", 1, "uatom")), None);
    let mut broken = sent("channel-9", 1, "cw20:token-addr");
    broken.data = Err("bad".to_string());
    assert_eq!(sent_token(&broken), None);
    assert_eq!(received_token(&broken), None);
}

#[test]
fn acknowledged_success_adds_to_outstanding_and_total() {
    let mut state = State::new();
    let packet = sent("channel-9", 987654321, "uatom");
    assert!(can_settle(&state, &packet, true));
    let res = on_packet_success(&mut state, packet);
    assert_eq!(
        res,
        Ok(IbcBasicResponse {
            messages: vec![],
            attributes: vec![
                attr("action", "acknowledge"),
                attr("sender", "local-sender"),
                attr("receiver", "remote-rcpt"),
                attr("denom", "uatom"),
                attr("amount", "987654321"),
                attr("success", "true"),
            ],
        })
    );
    assert_eq!(
        state.ledger.get("channel-9", "uatom"),
        Some(record(987654321, 987654321))
    );
    let msg = IbcPacketAckMsg {
        acknowledgement: Ok(Ics20Ack::Result(vec![])),
        original_packet: sent("channel-9", 9, "uatom"),
    };
    assert!(can_acknowledge(&state, &msg));
    assert!(ibc_packet_ack(&mut state, msg, &Ok(())).is_ok());
    assert_eq!(
        state.ledger.get("channel-9", "uatom"),
        Some(record(987654330, 987654330))
    );
}

#[test]
fn acknowledged_failure_refunds_the_sender() {
    let mut state = state_with("channel-9", "uatom", 10, 90);
    let msg = IbcPacketAckMsg {
        acknowledgement: Ok(Ics20Ack::Error("bad coin".to_string())),
        original_packet: sent("channel-9", 5, "uatom"),
    };
    assert!(can_acknowledge(&state, &msg));
    let res = ibc_packet_ack(&mut state, msg, &Ok(()));
    assert_eq!(
        res,
        Ok(IbcBasicResponse {
            messages: vec![SubMsg {
                id: 1337,
                msg: CosmosMsg::BankSend {
                    to_address: "local-sender".to_string(),
                    amount: vec![Coin {
                        denom: "uatom".to_string(),
                        amount: 5,
                    }],
                },
                gas_limit: None,
                reply_on: ReplyOn::Error,
            }],
            attributes: vec![
                attr("action", "acknowledge"),
                attr("sender", "local-sender"),
                attr("receiver", "remote-rcpt"),
                attr("denom", "uatom"),
                attr("amount", "5"),
                attr("success", "false"),
                attr("error", "bad coin"),
            ],
        })
    );
    assert_eq!(state.ledger.get("channel-9", "uatom"), Some(record(15, 90)));
}

#[test]
fn timeout_is_a_failure_with_a_fixed_reason() {
    let mut state = State::new();
    state.allow_list.insert("token-addr".to_string(),
        AllowInfo {
            gas_limit: Some(321),
        },
    );
    let packet = sent("channel-9", 100, "cw20:token-addr");
    assert!(can_settle(&state, &packet, false));
    let res = ibc_packet_timeout(&mut state, IbcPacketTimeoutMsg { packet }, &Ok(()));
    assert_eq!(
        res,
        Ok(IbcBasicResponse {
            messages: vec![SubMsg {
                id: 1337,
                msg: CosmosMsg::WasmExecute {
                    contract_addr: "token-addr".to_string(),
                    msg: br#"{"transfer":{"recipient":"local-sender","amount":"100"}}"#.to_vec(),
                    funds: vec![],
                },
                gas_limit: Some(321),
                reply_on: ReplyOn::Error,
            }],
            attributes: vec![
                attr("action", "acknowledge"),
                attr("sender", "local-sender"),
                attr("receiver", "remote-rcpt"),
                attr("denom", "cw20:token-addr"),
                attr("amount", "100"),
                attr("success", "false"),
                attr("error", "timeout"),
            ],
        })
    );
    assert_eq!(
        state.ledger.get("channel-9", "cw20:token-addr"),
        Some(record(100, 0))
    );
}

#[test]
fn failure_of_a_token_off_the_allow_list_is_an_error() {
    let mut state = state_with("channel-9", "cw20:token-addr", 10, 90);
    let res = on_packet_failure(
        &mut state,
        sent("channel-9", 5, "cw20:token-addr"),
        "bad coin".to_string(),
        &Ok(()),
    );
    assert_eq!(res, Err(ContractError::NotOnAllowList));
    assert_eq!(
        state.ledger.get("channel-9", "cw20:token-addr"),
        Some(record(10, 90))
    );
    let res = ibc_packet_timeout(
        &mut state,
        IbcPacketTimeoutMsg {
            packet: sent("channel-9", 5, "cw20:token-addr"),
        },
        &Err("not an address".to_string()),
    );
    assert_eq!(
        res,
        Err(ContractError::Std {
            msg: "not an address".to_string()
        })
    );
    assert_eq!(
        state.ledger.get("channel-9", "cw20:token-addr"),
        Some(record(10, 90))
    );
}

#[test]
fn undecoded_acknowledgement_or_packet_is_an_error() {
    let mut state = state_with("channel-9", "uatom", 10, 90);
    let msg = IbcPacketAckMsg {
        acknowledgement: Err("Error parsing into type Ics20Ack".to_string()),
        original_packet: sent("channel-9", 5, "uatom"),
    };
    assert!(can_acknowledge(&state, &msg));
    assert_eq!(
        ibc_packet_ack(&mut state, msg, &Ok(())),
        Err(ContractError::Std {
            msg: "Error parsing into type Ics20Ack".to_string()
        })
    );
    let mut broken = sent("channel-9", 5, "uatom");
    broken.data = Err("no payload".to_string());
    assert!(can_settle(&state, &broken, true));
    assert_eq!(
        on_packet_success(&mut state, broken.clone()),
        Err(ContractError::Std {
            msg: "no payload".to_string()
        })
    );
    assert_eq!(
        on_packet_failure(&mut state, broken, "x".to_string(), &Ok(())),
        Err(ContractError::Std {
            msg: "no payload".to_string()
        })
    );
    assert_eq!(state.ledger.get("channel-9", "uatom"), Some(record(10, 90)));
}

#[test]
fn settlement_that_would_leave_the_range_is_seen_beforehand() {
    let state = state_with("channel-9", "uatom", u128::MAX - 4, 7);
    assert!(can_settle(&state, &sent("channel-9", 4, "uatom"), true));
    assert!(!can_settle(&state, &sent("channel-9", 5, "uatom"), true));
    assert!(!can_settle(&state, &sent("channel-9", 5, "uatom"), false));
    assert!(can_settle(&state, &sent("channel-8", 5, "uatom"), true));
    let msg = IbcPacketAckMsg {
        acknowledgement: Ok(ack_success()),
        original_packet: sent("channel-9", 5, "uatom"),
    };
    assert!(!can_acknowledge(&state, &msg));
    let state = state_with("channel-9", "uatom", 7, u128::MAX - 4);
    assert!(!can_settle(&state, &sent("channel-9", 5, "uatom"), true));
    assert!(can_settle(&state, &sent("channel-9", 5, "uatom"), false));
    let msg = IbcPacketAckMsg {
        acknowledgement: Ok(Ics20Ack::Error("e".to_string())),
        original_packet: sent("channel-9", 5, "uatom"),
    };
    assert!(can_acknowledge(&state, &msg));
}

#[test]
fn no_event_deletes_a_record_or_lowers_a_total() {
    let mut state = state_with("channel-9", "uatom", 50, 80);
    state.ledger.set("channel-9", "uosmo", record(1, 2));
    let ok = Ok(());

    let res = ibc_packet_receive(
        &mut state,
        IbcPacketReceiveMsg {
            packet: arriving("channel-9", 50, "transfer/channel-1234/uatom"),
        },
        &ok,
    );
    assert_eq!(res.acknowledgement, ack_success());
    assert_eq!(state.ledger.get("channel-9", "uatom"), Some(record(0, 80)));

    let res = ibc_packet_timeout(
        &mut state,
        IbcPacketTimeoutMsg {
            packet: sent("channel-9", 4, "uatom"),
        },
        &ok,
    );
    assert!(res.is_ok());
    assert_eq!(state.ledger.get("channel-9", "uatom"), Some(record(4, 80)));

    let res = on_packet_success(&mut state, sent("channel-9", 6, "uatom"));
    assert!(res.is_ok());
    assert_eq!(state.ledger.get("channel-9", "uatom"), Some(record(10, 86)));

    let res = ibc_packet_receive(
        &mut state,
        IbcPacketReceiveMsg {
            packet: arriving("channel-9", 11, "transfer/channel-1234/uatom"),
        },
        &ok,
    );
    assert!(matches!(res.acknowledgement, Ics20Ack::Error(_)));
    assert_eq!(state.ledger.get("channel-9", "uatom"), Some(record(10, 86)));
    assert_eq!(state.ledger.get("channel-9", "uosmo"), Some(record(1, 2)));
    assert_eq!(state.ledger.len(), 2);
}

#[test]
fn received_amount_beyond_64_bits_is_refused_though_funds_suffice() {
    let too_big = u64::MAX as u128 + 1;
    let mut state = state_with("channel-9", "uatom", u128::MAX, u128::MAX);
    let packet = arriving("channel-9", too_big, "transfer/channel-1234/uatom");
    assert_eq!(
        do_ibc_packet_receive(&mut state, &packet, &Ok(())),
        Err(ContractError::AmountOverflow)
    );
    let res = ibc_packet_receive(&mut state, IbcPacketReceiveMsg { packet }, &Ok(()));
    assert_eq!(
        res,
        refusal("Amount larger than 2**64, not supported by ics20 packets")
    );
    assert_eq!(
        state.ledger.get("channel-9", "uatom"),
        Some(record(u128::MAX, u128::MAX))
    );
    assert_eq!(state.ledger.len(), 1);
}

#[test]
fn received_amount_of_exactly_64_bits_is_accepted() {
    let largest = u64::MAX as u128;
    let mut state = state_with("channel-9", "uatom", largest + 5, largest + 5);
    let packet = arriving("channel-9", largest, "transfer/channel-1234/uatom");
    let res = ibc_packet_receive(&mut state, IbcPacketReceiveMsg { packet }, &Ok(()));
    assert_eq!(res.acknowledgement, ack_success());
    assert_eq!(
        res.messages,
        vec![SubMsg {
            id: 1337,
            msg: CosmosMsg::BankSend {
                to_address: "local-rcpt".to_string(),
                amount: vec![Coin {
                    denom: "uatom".to_string(),
                    amount: 18446744073709551615,
                }],
            },
            gas_limit: None,
            reply_on: ReplyOn::Error,
        }]
    );
    assert_eq!(
        state.ledger.get("channel-9", "uatom"),
        Some(record(5, largest + 5))
    );
}

#[test]
fn oversized_amount_is_reported_before_anything_else() {
    let too_big = u128::MAX;
    let mut state = State::new();
    for voucher in ["uatom", "other/channel-1234/uatom", "transfer/channel-1234/cw20:x"] {
        let packet = arriving("channel-9", too_big, voucher);
        assert_eq!(received_token(&packet), None);
        let res = ibc_packet_receive(
            &mut state,
            IbcPacketReceiveMsg { packet },
            &Err("not an address".to_string()),
        );
        assert_eq!(
            res,
            refusal("Amount larger than 2**64, not supported by ics20 packets")
        );
    }
    assert_eq!(state.ledger.len(), 0);
}

#[test]
fn settlement_of_an_amount_beyond_64_bits_is_an_error() {
    let too_big = u64::MAX as u128 + 1;
    let mut state = state_with("channel-9", "uatom", 10, 90);
    let packet = sent("channel-9", too_big, "uatom");
    assert!(can_settle(&state, &packet, true));
    assert!(can_settle(&state, &packet, false));
    assert_eq!(sent_token(&sent("channel-9", too_big, "cw20:x")), None);
    assert_eq!(
        on_packet_success(&mut state, packet.clone()),
        Err(ContractError::AmountOverflow)
    );
    assert_eq!(
        on_packet_failure(&mut state, packet.clone(), "e".to_string(), &Ok(())),
        Err(ContractError::AmountOverflow)
    );
    assert_eq!(
        ibc_packet_timeout(
            &mut state,
            IbcPacketTimeoutMsg {
                packet: packet.clone()
            },
            &Ok(())
        ),
        Err(ContractError::AmountOverflow)
    );
    for ack in [ack_success(), Ics20Ack::Error("bad".to_string())] {
        let msg = IbcPacketAckMsg {
            acknowledgement: Ok(ack),
            original_packet: packet.clone(),
        };
        assert!(can_acknowledge(&state, &msg));
        assert_eq!(
            ibc_packet_ack(&mut state, msg, &Ok(())),
            Err(ContractError::AmountOverflow)
        );
    }
    assert_eq!(state.ledger.get("channel-9", "uatom"), Some(record(10, 90)));

    let largest = sent("channel-9", u64::MAX as u128, "uatom");
    assert!(on_packet_success(&mut state, largest).is_ok());
    assert_eq!(
        state.ledger.get("channel-9", "uatom"),
        Some(record(10 + u64::MAX as u128, 90 + u64::MAX as u128))
    );
}

#[test]
fn carried_transfer_is_decoded_and_bounded() {
    let fine = sent("channel-9", u64::MAX as u128, "uatom");
    assert_eq!(
        carried(&fine),
        Ok(&Ics20Packet::new(
            u64::MAX as u128,
            "uatom",
            "local-sender",
            "remote-rcpt"
        ))
    );
    let too_big = sent("channel-9", u64::MAX as u128 + 1, "uatom");
    assert_eq!(carried(&too_big), Err(ContractError::AmountOverflow));
    let mut broken = sent("channel-9", 1, "uatom");
    broken.data = Err("no payload".to_string());
    assert_eq!(
        carried(&broken),
        Err(ContractError::Std {
            msg: "no payload".to_string()
        })
    );
}

#[test]
fn events_keep_the_order_of_the_records() {
    let mut state = State::new();
    let ok = Ok(());
    assert!(on_packet_success(&mut state, sent("channel-9", 5, "uosmo")).is_ok());
    assert!(on_packet_failure(
        &mut state,
        sent("channel-9", 7, "uatom"),
        "e".to_string(),
        &ok
    )
    .is_ok());
    assert!(on_packet_success(&mut state, sent("channel-9", 1, "uosmo")).is_ok());
    let res = ibc_packet_receive(
        &mut state,
        IbcPacketReceiveMsg {
            packet: arriving("channel-9", 2, "transfer/channel-1234/uatom"),
        },
        &ok,
    );
    assert_eq!(res.acknowledgement, ack_success());
    assert_eq!(state.ledger.len(), 2);
    assert_eq!(state.ledger.entry(0), ("channel-9", "uosmo", record(6, 6)));
    assert_eq!(state.ledger.entry(1), ("channel-9", "uatom", record(5, 0)));

    for id in ["channel-9", "channel-3", "channel-9"] {
        let res = ibc_channel_connect(
            &mut state,
            IbcChannelConnectMsg::OpenConfirm {
                channel: channel(id, "ics20-1", IbcOrder::Unordered),
            },
        );
        assert!(res.is_ok());
    }
    assert_eq!(state.channels.len(), 2);
    assert_eq!(state.channels.entry(0).0, "channel-9");
    assert_eq!(state.channels.entry(1).0, "channel-3");
    let report = query_channel(&state, "channel-9").unwrap();
    assert_eq!(
        report.balances,
        vec![Amount::native(6, "uosmo"), Amount::native(5, "uatom")]
    );
    assert_eq!(
        report.total_sent,
        vec![Amount::native(6, "uosmo"), Amount::native(0, "uatom")]
    );
}
