//! A read-only projection of the ledger for reporting.
use crate::amount::{
    amount_from_parts, lemma_amount_from_parts_injective, Amount, AmountView,
};
use crate::host::views;
use crate::ledger::{ChannelState, LedgerKey, LedgerMap};
use crate::state::{ChannelInfo, State};
use vstd::prelude::*;
use vstd::string::*;

verus! {

broadcast use vstd::string::group_string_axioms;

/// What is reported of a channel.
#[derive(Debug, PartialEq, Eq)]
pub struct ChannelResponse {
    /// What was recorded when the channel was established.
    pub info: ChannelInfo,
    /// What is outstanding on the channel, one amount for each denomination
    /// of which anything is outstanding.
    pub balances: Vec<Amount>,
    /// What was sent over the channel in total, one amount for each
    /// denomination that the ledger knows on the channel.
    pub total_sent: Vec<Amount>,
}

/// The counter of a record that a report lists: the total sent, or what is
/// outstanding.
pub open spec fn counter(record: ChannelState, totals: bool) -> u128 {
    if totals {
        record.total_sent
    } else {
        record.outstanding
    }
}

/// Whether a report on `channel` lists the record under `key`: it must be a
/// record of that channel, and a report of what is outstanding leaves out
/// the denominations of which nothing is.
pub open spec fn reported(ledger: LedgerMap, channel: Seq<char>, key: LedgerKey, totals: bool) -> bool {
    key.0 == channel && (totals || ledger[key].outstanding != 0)
}

/// The amount that a report lists for the record under `key`.
pub open spec fn reported_amount(ledger: LedgerMap, key: LedgerKey, totals: bool) -> AmountView {
    amount_from_parts(key.1, counter(ledger[key], totals))
}

/// The amounts that a report on `channel` lists, in the order of `keys`:
/// the totals sent, or what is outstanding.
pub open spec fn channel_amounts(
    keys: Seq<LedgerKey>,
    ledger: LedgerMap,
    channel: Seq<char>,
    totals: bool,
) -> Seq<AmountView>
    decreases keys.len(),
{
    if keys.len() == 0 {
        Seq::empty()
    } else {
        let rest = channel_amounts(keys.drop_last(), ledger, channel, totals);
        if reported(ledger, channel, keys.last(), totals) {
            rest.push(reported_amount(ledger, keys.last(), totals))
        } else {
            rest
        }
    }
}

/// The amounts outstanding on `channel`, in the order of `keys`, leaving out
/// the denominations of which nothing is outstanding.
pub open spec fn channel_balances(keys: Seq<LedgerKey>, ledger: LedgerMap, channel: Seq<char>) -> Seq<
    AmountView,
> {
    channel_amounts(keys, ledger, channel, false)
}

/// The totals sent over `channel`, in the order of `keys`.
pub open spec fn channel_totals(keys: Seq<LedgerKey>, ledger: LedgerMap, channel: Seq<char>) -> Seq<
    AmountView,
> {
    channel_amounts(keys, ledger, channel, true)
}

/// Whether `amount` is what a report on `channel` lists for some
/// denomination that the ledger knows there.
pub open spec fn is_reported(
    ledger: LedgerMap,
    channel: Seq<char>,
    amount: AmountView,
    totals: bool,
) -> bool {
    exists|denom: Seq<char>|
        {
            &&& #[trigger] ledger.contains_key((channel, denom))
            &&& reported(ledger, channel, (channel, denom), totals)
            &&& amount == reported_amount(ledger, (channel, denom), totals)
        }
}

/// Whether `amount` is what is outstanding of some denomination on
/// `channel`, and not nothing.
pub open spec fn is_balance_of(ledger: LedgerMap, channel: Seq<char>, amount: AmountView) -> bool {
    is_reported(ledger, channel, amount, false)
}

/// Whether `amount` is the total sent of some denomination on `channel`.
pub open spec fn is_total_of(ledger: LedgerMap, channel: Seq<char>, amount: AmountView) -> bool {
    is_reported(ledger, channel, amount, true)
}

spec fn listed_at(
    keys: Seq<LedgerKey>,
    ledger: LedgerMap,
    channel: Seq<char>,
    totals: bool,
    amount: AmountView,
    i: int,
) -> bool {
    &&& 0 <= i < keys.len()
    &&& reported(ledger, channel, keys[i], totals)
    &&& amount == reported_amount(ledger, keys[i], totals)
}

proof fn lemma_listed(keys: Seq<LedgerKey>, ledger: LedgerMap, channel: Seq<char>, totals: bool)
    requires
        keys.no_duplicates(),
    ensures
        channel_amounts(keys, ledger, channel, totals).no_duplicates(),
        forall|amount: AmountView|
            channel_amounts(keys, ledger, channel, totals).contains(amount) <==> exists|i: int|
                listed_at(keys, ledger, channel, totals, amount, i),
    decreases keys.len(),
{
    if keys.len() > 0 {
        let front = keys.drop_last();
        let key = keys.last();
        let n = front.len() as int;
        lemma_listed(front, ledger, channel, totals);
        let amounts = channel_amounts(keys, ledger, channel, totals);
        let front_amounts = channel_amounts(front, ledger, channel, totals);
        let last = reported_amount(ledger, key, totals);
        assert(amounts == if reported(ledger, channel, key, totals) {
            front_amounts.push(last)
        } else {
            front_amounts
        });
        assert forall|amount: AmountView, i: int|
            0 <= i < n implies (listed_at(front, ledger, channel, totals, amount, i) <==> listed_at(
            keys,
            ledger,
            channel,
            totals,
            amount,
            i,
        )) by {
            assert(front[i] == keys[i]);
        }
        // the last key stands nowhere in front, so its amount does not either
        assert(!front_amounts.contains(last) || !reported(ledger, channel, key, totals)) by {
            if front_amounts.contains(last) && reported(ledger, channel, key, totals) {
                let i = choose|i: int| listed_at(front, ledger, channel, totals, last, i);
                lemma_amount_from_parts_injective(
                    front[i].1,
                    counter(ledger[front[i]], totals),
                    key.1,
                    counter(ledger[key], totals),
                );
                assert(front[i] == key);
                assert(keys[i] == keys[n]);
            }
        }
        assert forall|amount: AmountView| amounts.contains(amount) <==> exists|i: int|
            listed_at(keys, ledger, channel, totals, amount, i) by {
            if amounts.contains(amount) {
                if front_amounts.contains(amount) {
                    let i = choose|i: int| listed_at(front, ledger, channel, totals, amount, i);
                    assert(listed_at(keys, ledger, channel, totals, amount, i));
                } else {
                    let k = choose|k: int| 0 <= k < amounts.len() && amounts[k] == amount;
                    if k < front_amounts.len() {
                        assert(front_amounts[k] == amount);
                        assert(front_amounts.contains(amount));
                    }
                    assert(keys[n] == key);
                    assert(listed_at(keys, ledger, channel, totals, amount, n));
                }
            }
            if exists|i: int| listed_at(keys, ledger, channel, totals, amount, i) {
                let i = choose|i: int| listed_at(keys, ledger, channel, totals, amount, i);
                if i < n {
                    assert(listed_at(front, ledger, channel, totals, amount, i));
                    assert(front_amounts.contains(amount));
                    let k = choose|k: int|
                        0 <= k < front_amounts.len() && #[trigger] front_amounts[k] == amount;
                    assert(amounts[k] == amount);
                } else {
                    assert(keys[n] == key);
                    assert(amounts[amounts.len() - 1] == amount);
                }
                assert(amounts.contains(amount));
            }
        }
        assert forall|a: int, b: int|
            0 <= a < amounts.len() && 0 <= b < amounts.len() && a != b implies amounts[a]
            != amounts[b] by {
            if a < front_amounts.len() && b < front_amounts.len() {
                assert(front_amounts[a] != front_amounts[b]);
            } else if a < front_amounts.len() {
                assert(front_amounts.contains(front_amounts[a]));
            } else if b < front_amounts.len() {
                assert(front_amounts.contains(front_amounts[b]));
            }
        }
    }
}

/// Where `keys` are the keys of `ledger`, each once, a report on a channel
/// lists what it has to list of each denomination that the ledger knows on
/// the channel, each once.
pub proof fn lemma_channel_report(
    keys: Seq<LedgerKey>,
    ledger: LedgerMap,
    channel: Seq<char>,
    totals: bool,
)
    requires
        keys.no_duplicates(),
        forall|key: LedgerKey| keys.contains(key) <==> ledger.contains_key(key),
    ensures
        channel_amounts(keys, ledger, channel, totals).no_duplicates(),
        forall|amount: AmountView|
            channel_amounts(keys, ledger, channel, totals).contains(amount) <==> is_reported(
                ledger,
                channel,
                amount,
                totals,
            ),
{
    lemma_listed(keys, ledger, channel, totals);
    let amounts = channel_amounts(keys, ledger, channel, totals);
    assert forall|amount: AmountView| amounts.contains(amount) <==> is_reported(
        ledger,
        channel,
        amount,
        totals,
    ) by {
        if amounts.contains(amount) {
            let i = choose|i: int| listed_at(keys, ledger, channel, totals, amount, i);
            assert(keys.contains(keys[i]));
            assert(ledger.contains_key((channel, keys[i].1)));
        }
        if is_reported(ledger, channel, amount, totals) {
            let denom = choose|denom: Seq<char>|
                {
                    &&& #[trigger] ledger.contains_key((channel, denom))
                    &&& reported(ledger, channel, (channel, denom), totals)
                    &&& amount == reported_amount(ledger, (channel, denom), totals)
                };
            assert(keys.contains((channel, denom)));
            let i = choose|i: int| 0 <= i < keys.len() && keys[i] == (channel, denom);
            assert(listed_at(keys, ledger, channel, totals, amount, i));
        }
    }
}

/// Reports on the channel `id`: what was recorded of it, what is
/// outstanding on it of each denomination of which anything is, and what
/// was sent over it in total of each denomination that the ledger knows,
/// each denomination once, in the order in which the ledger came to know
/// them. `None` if no such channel was established.
pub fn query_channel(state: &State, id: &str) -> (res: Option<ChannelResponse>)
    ensures
        match res {
            None => !state@.channels.contains_key(id@),
            Some(report) => {
                &&& state@.channels.contains_key(id@)
                &&& report.info@ == state@.channels[id@]
                &&& views(report.balances@) == channel_balances(
                    state@.ledger_order,
                    state@.ledger,
                    id@,
                )
                &&& views(report.total_sent@) == channel_totals(
                    state@.ledger_order,
                    state@.ledger,
                    id@,
                )
                &&& views(report.balances@).no_duplicates()
                &&& views(report.total_sent@).no_duplicates()
                &&& forall|amount: AmountView|
                    views(report.balances@).contains(amount) <==> is_balance_of(
                        state@.ledger,
                        id@,
                        amount,
                    )
                &&& forall|amount: AmountView|
                    views(report.total_sent@).contains(amount) <==> is_total_of(
                        state@.ledger,
                        id@,
                        amount,
                    )
            },
        },
{
    let wanted = id.to_owned();
    let info = match state.channels.get(&wanted) {
        Some(info) => info.clone(),
        None => {
            return None;
        },
    };
    let mut balances: Vec<Amount> = Vec::new();
    let mut total_sent: Vec<Amount> = Vec::new();
    let n = state.ledger.len();
    let ghost keys = state.ledger.keys();
    let ghost ledger = state.ledger@;
    let mut i: usize = 0;
    assert(keys.take(0) =~= Seq::<LedgerKey>::empty());
    assert(views(balances@) =~= channel_balances(keys.take(0), ledger, id@));
    assert(views(total_sent@) =~= channel_totals(keys.take(0), ledger, id@));
    while i < n
        invariant
            i <= n,
            n == keys.len(),
            keys == state.ledger.keys(),
            ledger == state.ledger@,
            wanted@ == id@,
            views(balances@) == channel_balances(keys.take(i as int), ledger, id@),
            views(total_sent@) == channel_totals(keys.take(i as int), ledger, id@),
        decreases n - i,
    {
        let (channel, denom, record) = state.ledger.entry(i);
        let ghost seen_balances = views(balances@);
        let ghost seen_totals = views(total_sent@);
        proof {
            assert(keys.take(i + 1).drop_last() =~= keys.take(i as int));
            assert(keys.take(i + 1).last() == keys[i as int]);
        }
        if channel.to_owned() == wanted {
            if record.outstanding != 0 {
                let balance = Amount::from_parts(denom.to_owned(), record.outstanding);
                balances.push(balance);
                assert(views(balances@) =~= seen_balances.push(balance@));
            }
            let total = Amount::from_parts(denom.to_owned(), record.total_sent);
            total_sent.push(total);
            assert(views(total_sent@) =~= seen_totals.push(total@));
        }
        i = i + 1;
    }
    proof {
        assert(keys.take(n as int) =~= keys);
        lemma_channel_report(keys, ledger, id@, false);
        lemma_channel_report(keys, ledger, id@, true);
    }
    Some(ChannelResponse { info, balances, total_sent })
}

} // verus!
