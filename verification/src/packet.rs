//! The two payloads that travel over a transfer channel.
use crate::error::ContractError;
use vstd::prelude::*;
use vstd::string::*;

verus! {

/// The payload of a transfer packet.
#[derive(Debug, PartialEq, Eq)]
pub struct Ics20Packet {
    /// The number of units; on the wire a decimal string of at most 64 bits.
    pub amount: u128,
    /// The denomination being transferred.
    pub denom: String,
    /// The recipient on the destination chain.
    pub receiver: String,
    /// The sender on the source chain.
    pub sender: String,
}

/// The mathematical value of an `Ics20Packet`.
pub struct Ics20PacketView {
    pub amount: u128,
    pub denom: Seq<char>,
    pub receiver: Seq<char>,
    pub sender: Seq<char>,
}

impl View for Ics20Packet {
    type V = Ics20PacketView;

    open spec fn view(&self) -> Ics20PacketView {
        Ics20PacketView {
            amount: self.amount,
            denom: self.denom@,
            receiver: self.receiver@,
            sender: self.sender@,
        }
    }
}

impl Clone for Ics20Packet {
    fn clone(&self) -> (copy: Self)
        ensures
            copy == *self,
    {
        Ics20Packet {
            amount: self.amount,
            denom: self.denom.clone(),
            receiver: self.receiver.clone(),
            sender: self.sender.clone(),
        }
    }
}

/// Whether `amount` may travel in a packet: on the wire an amount is
/// limited to 64 bits.
pub open spec fn fits_in_64_bits(amount: u128) -> bool {
    amount <= u64::MAX
}

impl Ics20Packet {
    /// A packet that moves `amount` of `denom` from `sender` to `receiver`.
    pub fn new(amount: u128, denom: &str, sender: &str, receiver: &str) -> (packet: Self)
        ensures
            packet@ == (Ics20PacketView {
                amount,
                denom: denom@,
                receiver: receiver@,
                sender: sender@,
            }),
    {
        Ics20Packet {
            denom: denom.to_owned(),
            amount,
            sender: sender.to_owned(),
            receiver: receiver.to_owned(),
        }
    }

    /// Accepts the packet if and only if its amount fits in 64 bits.
    pub fn validate(&self) -> (res: Result<(), ContractError>)
        ensures
            fits_in_64_bits(self.amount) ==> res is Ok,
            !fits_in_64_bits(self.amount) ==> res == Err::<(), ContractError>(
                ContractError::AmountOverflow,
            ),
    {
        if self.amount > 0xffff_ffff_ffff_ffffu128 {
            Err(ContractError::AmountOverflow)
        } else {
            Ok(())
        }
    }
}

/// The acknowledgement of a packet: success with opaque data, or failure with
/// a reason.
#[derive(Debug, PartialEq, Eq)]
pub enum Ics20Ack {
    Result(Vec<u8>),
    Error(String),
}

/// The mathematical value of an `Ics20Ack`.
pub enum Ics20AckView {
    Result(Seq<u8>),
    Error(Seq<char>),
}

impl View for Ics20Ack {
    type V = Ics20AckView;

    open spec fn view(&self) -> Ics20AckView {
        match *self {
            Ics20Ack::Result(data) => Ics20AckView::Result(data@),
            Ics20Ack::Error(reason) => Ics20AckView::Error(reason@),
        }
    }
}

impl Clone for Ics20Ack {
    fn clone(&self) -> (copy: Self)
        ensures
            copy@ == self@,
    {
        match self {
            Ics20Ack::Result(data) => {
                let copy = data.clone();
                assert(copy@ =~= data@);
                Ics20Ack::Result(copy)
            },
            Ics20Ack::Error(reason) => Ics20Ack::Error(reason.clone()),
        }
    }
}

/// The acknowledgement that reports success: its data is the one byte `1`
/// in ASCII.
pub open spec fn success_ack() -> Ics20AckView {
    Ics20AckView::Result(seq![0x31u8])
}

/// The acknowledgement of a packet that was processed.
pub fn ack_success() -> (ack: Ics20Ack)
    ensures
        ack@ == success_ack(),
{
    let mut data: Vec<u8> = Vec::new();
    data.push(0x31u8);
    assert(data@ =~= seq![0x31u8]);
    Ics20Ack::Result(data)
}

/// The acknowledgement of a packet that failed for the reason `err`.
pub fn ack_fail(err: String) -> (ack: Ics20Ack)
    ensures
        ack@ == Ics20AckView::Error(err@),
{
    Ics20Ack::Error(err)
}

} // verus!
