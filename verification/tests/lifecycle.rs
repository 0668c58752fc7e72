use cosmwasm_std::{to_json_binary, Uint128};
use cw20::Cw20ExecuteMsg;
use cw20_ics20::amount::{Amount, Coin};
use cw20_ics20::dispatch::SEND_TOKEN_ID;
use cw20_ics20::error::ContractError;
use cw20_ics20::host::{
    CosmosMsg, IbcChannel, IbcChannelConnectMsg, IbcChannelOpenMsg, IbcEndpoint, IbcPacket,
    IbcPacketAckMsg, IbcPacketReceiveMsg, ReplyOn, SubMsg,
};
use cw20_ics20::ibc::{
    can_acknowledge, ibc_channel_connect, ibc_channel_open, ibc_packet_ack, ibc_packet_receive,
    ICS20_ORDERING, ICS20_VERSION,
};
use cw20_ics20::packet::{ack_success, Ics20Ack, Ics20Packet};
use cw20_ics20::query::query_channel;
use cw20_ics20::state::{AllowInfo, State};

const CONTRACT_PORT: &str = "ibc:wasm1234567890abcdef";
const REMOTE_PORT: &str = "transfer";
const CONNECTION_ID: &str = "connection-2";

fn mock_channel(channel_id: &str) -> IbcChannel {
    IbcChannel {
        endpoint: IbcEndpoint {
            port_id: CONTRACT_PORT.to_string(),
            channel_id: channel_id.to_string(),
        },
        counterparty_endpoint: IbcEndpoint {
            port_id: REMOTE_PORT.to_string(),
            channel_id: format!("{}5", channel_id),
        },
        order: ICS20_ORDERING,
        version: ICS20_VERSION.to_string(),
        connection_id: CONNECTION_ID.to_string(),
    }
}

fn add_channel(state: &mut State, channel_id: &str) {
    let channel = mock_channel(channel_id);
    let open_msg = IbcChannelOpenMsg::OpenInit {
        channel: channel.clone(),
    };
    ibc_channel_open(open_msg).unwrap();
    let connect_msg = IbcChannelConnectMsg::OpenAck {
        channel,
        counterparty_version: ICS20_VERSION.to_string(),
    };
    ibc_channel_connect(state, connect_msg).unwrap();
}

fn setup(channels: &[&str], allow: &[(&str, u64)]) -> State {
    let mut state = State::new();
    for (contract, gas) in allow {
        state.allow_list.insert(
            contract.to_string(),
            AllowInfo {
                gas_limit: Some(*gas),
            },
        );
    }
    for channel in channels {
        add_channel(&mut state, channel);
    }
    state
}

fn cw20_payment(amount: u128, address: &str, recipient: &str, gas_limit: Option<u64>) -> SubMsg {
    let msg = Cw20ExecuteMsg::Transfer {
        recipient: recipient.into(),
        amount: Uint128::new(amount),
    };
    SubMsg {
        id: SEND_TOKEN_ID,
        msg: CosmosMsg::WasmExecute {
            contract_addr: address.into(),
            msg: to_json_binary(&msg).unwrap().to_vec(),
            funds: vec![],
        },
        gas_limit,
        reply_on: ReplyOn::Error,
    }
}

fn native_payment(amount: u128, denom: &str, recipient: &str) -> SubMsg {
    SubMsg {
        id: SEND_TOKEN_ID,
        msg: CosmosMsg::BankSend {
            to_address: recipient.into(),
            amount: vec![Coin {
                denom: denom.to_string(),
                amount,
            }],
        },
        gas_limit: None,
        reply_on: ReplyOn::Error,
    }
}

fn mock_sent_packet(my_channel: &str, amount: u128, denom: &str, sender: &str) -> IbcPacket {
    let data = Ics20Packet {
        denom: denom.into(),
        amount,
        sender: sender.to_string(),
        receiver: "remote-rcpt".to_string(),
    };
    IbcPacket {
        data: Ok(data),
        src: IbcEndpoint {
            port_id: CONTRACT_PORT.to_string(),
            channel_id: my_channel.to_string(),
        },
        dest: IbcEndpoint {
            port_id: REMOTE_PORT.to_string(),
            channel_id: "channel-1234".to_string(),
        },
    }
}

fn mock_receive_packet(my_channel: &str, amount: u128, denom: &str, receiver: &str) -> IbcPacket {
    let data = Ics20Packet {
        // this is returning a foreign (our) token, thus denom is <port>/<channel>/<denom>
        denom: format!("{}/{}/{}", REMOTE_PORT, "channel-1234", denom),
        amount,
        sender: "remote-sender".to_string(),
        receiver: receiver.to_string(),
    };
    IbcPacket {
        data: Ok(data),
        src: IbcEndpoint {
            port_id: REMOTE_PORT.to_string(),
            channel_id: "channel-1234".to_string(),
        },
        dest: IbcEndpoint {
            port_id: CONTRACT_PORT.to_string(),
            channel_id: my_channel.to_string(),
        },
    }
}

#[test]
fn send_receive_cw20() {
    let send_channel = "channel-9";
    let cw20_addr = "token-addr";
    let cw20_denom = "cw20:token-addr";
    let gas_limit = 1234567;
    let mut state = setup(
        &["channel-1", "channel-7", send_channel],
        &[(cw20_addr, gas_limit)],
    );
    let addr_ok = Ok(());

    // prepare some mock packets
    let sent_packet = mock_sent_packet(send_channel, 987654321, cw20_denom, "local-sender");
    let recv_packet = mock_receive_packet(send_channel, 876543210, cw20_denom, "local-rcpt");
    let recv_high_packet = mock_receive_packet(send_channel, 1876543210, cw20_denom, "local-rcpt");

    let msg = IbcPacketReceiveMsg {
        packet: recv_packet.clone(),
    };
    // cannot receive this denom yet
    let res = ibc_packet_receive(&mut state, msg, &addr_ok);
    assert!(res.messages.is_empty());
    let ack = res.acknowledgement;
    let no_funds = Ics20Ack::Error(ContractError::InsufficientFunds {}.to_string());
    assert_eq!(ack, no_funds);

    // we get a success cache (ack) for a send
    let msg = IbcPacketAckMsg {
        acknowledgement: Ok(ack_success()),
        original_packet: sent_packet,
    };
    assert!(can_acknowledge(&state, &msg));
    let res = ibc_packet_ack(&mut state, msg, &addr_ok).unwrap();
    assert_eq!(0, res.messages.len());

    // query channel state
    let report = query_channel(&state, send_channel).unwrap();
    assert_eq!(report.balances, vec![Amount::cw20(987654321, cw20_addr)]);
    assert_eq!(report.total_sent, vec![Amount::cw20(987654321, cw20_addr)]);

    // cannot receive more than we sent
    let msg = IbcPacketReceiveMsg {
        packet: recv_high_packet,
    };
    let res = ibc_packet_receive(&mut state, msg, &addr_ok);
    assert!(res.messages.is_empty());
    let ack = res.acknowledgement;
    assert_eq!(ack, no_funds);

    // we can receive less than we sent
    let msg = IbcPacketReceiveMsg {
        packet: recv_packet,
    };
    let res = ibc_packet_receive(&mut state, msg, &addr_ok);
    assert_eq!(1, res.messages.len());
    assert_eq!(
        cw20_payment(876543210, cw20_addr, "local-rcpt", Some(gas_limit)),
        res.messages[0]
    );
    let ack = res.acknowledgement;
    assert!(matches!(ack, Ics20Ack::Result(_)));

    // query channel state
    let report = query_channel(&state, send_channel).unwrap();
    assert_eq!(report.balances, vec![Amount::cw20(111111111, cw20_addr)]);
    assert_eq!(report.total_sent, vec![Amount::cw20(987654321, cw20_addr)]);
}

#[test]
fn send_receive_native() {
    let send_channel = "channel-9";
    let mut state = setup(&["channel-1", "channel-7", send_channel], &[]);
    let addr_ok = Ok(());

    let denom = "uatom";

    // prepare some mock packets
    let sent_packet = mock_sent_packet(send_channel, 987654321, denom, "local-sender");
    let recv_packet = mock_receive_packet(send_channel, 876543210, denom, "local-rcpt");
    let recv_high_packet = mock_receive_packet(send_channel, 1876543210, denom, "local-rcpt");

    // cannot receive this denom yet
    let msg = IbcPacketReceiveMsg {
        packet: recv_packet.clone(),
    };
    let res = ibc_packet_receive(&mut state, msg, &addr_ok);
    assert!(res.messages.is_empty());
    let ack = res.acknowledgement;
    let no_funds = Ics20Ack::Error(ContractError::InsufficientFunds {}.to_string());
    assert_eq!(ack, no_funds);

    // we get a success cache (ack) for a send
    let msg = IbcPacketAckMsg {
        acknowledgement: Ok(ack_success()),
        original_packet: sent_packet,
    };
    assert!(can_acknowledge(&state, &msg));
    let res = ibc_packet_ack(&mut state, msg, &addr_ok).unwrap();
    assert_eq!(0, res.messages.len());

    // query channel state
    let report = query_channel(&state, send_channel).unwrap();
    assert_eq!(report.balances, vec![Amount::native(987654321, denom)]);
    assert_eq!(report.total_sent, vec![Amount::native(987654321, denom)]);

    // cannot receive more than we sent
    let msg = IbcPacketReceiveMsg {
        packet: recv_high_packet,
    };
    let res = ibc_packet_receive(&mut state, msg, &addr_ok);
    assert!(res.messages.is_empty());
    let ack = res.acknowledgement;
    assert_eq!(ack, no_funds);

    // we can receive less than we sent
    let msg = IbcPacketReceiveMsg {
        packet: recv_packet,
    };
    let res = ibc_packet_receive(&mut state, msg, &addr_ok);
    assert_eq!(1, res.messages.len());
    assert_eq!(
        native_payment(876543210, denom, "local-rcpt"),
        res.messages[0]
    );
    let ack = res.acknowledgement;
    assert!(matches!(ack, Ics20Ack::Result(_)));

    // query channel state
    let report = query_channel(&state, send_channel).unwrap();
    assert_eq!(report.balances, vec![Amount::native(111111111, denom)]);
    assert_eq!(report.total_sent, vec![Amount::native(987654321, denom)]);
}
