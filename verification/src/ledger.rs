//! The channel balance ledger: for each channel and denomination, what is
//! outstanding and what has been sent in total.
use crate::error::{ContractError, ContractErrorView};
use crate::table::{with_key, Table};
use vstd::prelude::*;
use vstd::string::*;

verus! {

broadcast use vstd::string::group_string_axioms;

/// The balance of one denomination on one channel.
#[derive(Debug, Clone, Copy, PartialEq, Eq, Structural)]
pub struct ChannelState {
    /// What has been sent out over the channel and has not come back.
    pub outstanding: u128,
    /// Everything that was ever sent out over the channel.
    pub total_sent: u128,
}

impl Default for ChannelState {
    fn default() -> (state: Self)
        ensures
            state == zero_state(),
    {
        ChannelState { outstanding: 0, total_sent: 0 }
    }
}

impl View for ChannelState {
    type V = ChannelState;

    open spec fn view(&self) -> ChannelState {
        *self
    }
}

/// The balance of a denomination that was never sent.
pub open spec fn zero_state() -> ChannelState {
    ChannelState { outstanding: 0, total_sent: 0 }
}

/// A channel identifier and a denomination.
pub type LedgerKey = (Seq<char>, Seq<char>);

/// The ledger as a mathematical map.
pub type LedgerMap = Map<LedgerKey, ChannelState>;

/// The record under `key`, or the zero record if there is none.
pub open spec fn record_of(ledger: LedgerMap, key: LedgerKey) -> ChannelState {
    if ledger.contains_key(key) {
        ledger[key]
    } else {
        zero_state()
    }
}

/// Whether `amount` can be taken from what is outstanding under `key`.
pub open spec fn covers(ledger: LedgerMap, key: LedgerKey, amount: u128) -> bool {
    ledger.contains_key(key) && ledger[key].outstanding >= amount
}

/// The ledger after an inbound transfer of `amount` under `key`: what is
/// outstanding goes down by `amount`; where there is no record, or less than
/// `amount` outstanding, the transfer is refused.
pub open spec fn reserve(ledger: LedgerMap, key: LedgerKey, amount: u128) -> Result<
    LedgerMap,
    ContractErrorView,
> {
    if covers(ledger, key, amount) {
        Ok(
            ledger.insert(
                key,
                ChannelState {
                    outstanding: (ledger[key].outstanding - amount) as u128,
                    total_sent: ledger[key].total_sent,
                },
            ),
        )
    } else {
        Err(ContractErrorView::InsufficientFunds)
    }
}

/// Whether an outbound transfer of `amount` under `key` can be settled
/// without leaving the range of the counters.
pub open spec fn can_release(ledger: LedgerMap, key: LedgerKey, amount: u128, completed: bool) -> bool {
    &&& record_of(ledger, key).outstanding + amount <= u128::MAX
    &&& completed ==> record_of(ledger, key).total_sent + amount <= u128::MAX
}

/// The ledger after an outbound transfer of `amount` under `key` was
/// settled: what is outstanding goes up by `amount`, and so does the total
/// sent if the transfer was completed.
pub open spec fn release(ledger: LedgerMap, key: LedgerKey, amount: u128, completed: bool) -> LedgerMap {
    let record = record_of(ledger, key);
    ledger.insert(
        key,
        ChannelState {
            outstanding: (record.outstanding + amount) as u128,
            total_sent: if completed {
                (record.total_sent + amount) as u128
            } else {
                record.total_sent
            },
        },
    )
}

/// The channel balance ledger.
#[derive(Debug)]
pub struct Ledger {
    records: Table<(String, String), ChannelState>,
}

impl View for Ledger {
    type V = LedgerMap;

    closed spec fn view(&self) -> LedgerMap {
        self.records@
    }
}

impl Ledger {
    /// The keys of the ledger in the order in which their records were made.
    pub closed spec fn keys(&self) -> Seq<LedgerKey> {
        self.records.keys()
    }

    /// A ledger without records.
    pub fn new() -> (ledger: Self)
        ensures
            ledger@ == Map::<LedgerKey, ChannelState>::empty(),
            ledger.keys() == Seq::<LedgerKey>::empty(),
    {
        Ledger { records: Table::new() }
    }

    /// The record of `denom` on `channel`, if there is one. There is one
    /// exactly for the keys that stand in the order.
    pub fn get(&self, channel: &str, denom: &str) -> (record: Option<ChannelState>)
        ensures
            record == if self@.contains_key((channel@, denom@)) {
                Some(self@[(channel@, denom@)])
            } else {
                None
            },
            self.keys().contains((channel@, denom@)) <==> self@.contains_key((channel@, denom@)),
    {
        let key = (channel.to_owned(), denom.to_owned());
        match self.records.get(&key) {
            Some(record) => Some(*record),
            None => None,
        }
    }

    /// Puts `state` under `denom` on `channel`, in place of any record
    /// there. A key that is new comes last in the order; one that was there
    /// keeps its place.
    pub fn set(&mut self, channel: &str, denom: &str, state: ChannelState)
        ensures
            final(self)@ == old(self)@.insert((channel@, denom@), state),
            final(self).keys() == with_key(old(self).keys(), (channel@, denom@)),
    {
        self.records.insert((channel.to_owned(), denom.to_owned()), state);
    }

    /// Takes `amount` from what is outstanding of `denom` on `channel`, or
    /// refuses and leaves the ledger as it is. The order of the keys stays
    /// either way.
    pub fn reserve_on_receive(&mut self, channel: &str, denom: &str, amount: u128) -> (res: Result<
        (),
        ContractError,
    >)
        ensures
            match reserve(old(self)@, (channel@, denom@), amount) {
                Ok(ledger) => res is Ok && final(self)@ == ledger,
                Err(e) => res matches Err(x) && x@ == e && final(self)@ == old(self)@,
            },
            final(self).keys() == old(self).keys(),
    {
        match self.get(channel, denom) {
            Some(record) => {
                if record.outstanding >= amount {
                    self.set(
                        channel,
                        denom,
                        ChannelState {
                            outstanding: record.outstanding - amount,
                            total_sent: record.total_sent,
                        },
                    );
                    Ok(())
                } else {
                    Err(ContractError::InsufficientFunds)
                }
            },
            None => Err(ContractError::InsufficientFunds),
        }
    }

    /// Tests whether an outbound transfer can be settled without leaving the
    /// range of the counters.
    pub fn can_release(&self, channel: &str, denom: &str, amount: u128, completed: bool) -> (yes:
        bool)
        ensures
            yes == can_release(self@, (channel@, denom@), amount, completed),
    {
        let record = match self.get(channel, denom) {
            Some(record) => record,
            None => ChannelState::default(),
        };
        record.outstanding <= u128::MAX - amount && (!completed || record.total_sent <= u128::MAX
            - amount)
    }

    /// Settles an outbound transfer of `amount` of `denom` over `channel`:
    /// adds it to what is outstanding and, if the transfer was completed, to
    /// the total sent. A key that is new comes last in the order.
    pub fn release_on_ack(&mut self, channel: &str, denom: &str, amount: u128, completed: bool)
        requires
            can_release(old(self)@, (channel@, denom@), amount, completed),
        ensures
            final(self)@ == release(old(self)@, (channel@, denom@), amount, completed),
            final(self).keys() == with_key(old(self).keys(), (channel@, denom@)),
    {
        let record = match self.get(channel, denom) {
            Some(record) => record,
            None => ChannelState::default(),
        };
        let total_sent = if completed {
            record.total_sent + amount
        } else {
            record.total_sent
        };
        self.set(channel, denom, ChannelState { outstanding: record.outstanding + amount, total_sent });
    }

    /// The number of records. The keys under which they stand are those of
    /// the map, each once.
    pub fn len(&self) -> (n: usize)
        ensures
            n == self.keys().len(),
            self.keys().no_duplicates(),
            forall|key: LedgerKey| self.keys().contains(key) <==> self@.contains_key(key),
    {
        self.records.len()
    }

    /// The channel, the denomination and the balance of the record at
    /// position `i`.
    pub fn entry(&self, i: usize) -> (entry: (&str, &str, ChannelState))
        requires
            i < self.keys().len(),
        ensures
            (entry.0@, entry.1@) == self.keys()[i as int],
            self@.contains_key(self.keys()[i as int]),
            entry.2 == self@[self.keys()[i as int]],
    {
        let (key, record) = self.records.entry(i);
        (key.0.as_str(), key.1.as_str(), *record)
    }
}

} // verus!
